use vstd::prelude::*;

use crate::action::{activation, session_plan, Action};
use crate::gate::GateView;
use crate::snapshot::readline_state;

verus! {

/// What the library does to its live state on a step other than `Restore`,
/// `Capture` and `Inspect`. Any function may stand here, and every
/// statement made over it holds for each of them. What the type itself takes
/// for granted is that a step depends on the live state alone, that is on
/// what a snapshot captures: state of the library that no snapshot holds
/// (its key bindings, its kill ring, the heap buffers that a snapshot points
/// to) lies outside this model, and the statements made here speak of the
/// snapshots only.
pub type Library = spec_fn(readline_state, Action) -> readline_state;

/// The library's live state, the identity installed in it, and the snapshot
/// of each live session, keyed by identity.
pub struct World {
    pub live: readline_state,
    pub owner: usize,
    pub snaps: Map<usize, readline_state>,
}

/// The installed session's snapshot is the live state. Every operation keeps this,
/// so it holds between operations; the owner may be no session at all (the template, or
/// a session that was released).
pub open spec fn consistent(w: World) -> bool {
    w.snaps.contains_key(w.owner) ==> w.snaps[w.owner] == w.live
}

/// The world agrees with the lock's data `g`: the identity installed in the
/// live state is its owner, and every session's identity was issued before,
/// so it is no larger than its record of the largest identity.
pub open spec fn tracks(w: World, g: GateView) -> bool {
    &&& w.owner == g.owner
    &&& forall|k: usize| w.snaps.contains_key(k) ==> k <= g.last
}

/// One step of an operation on behalf of session `id`.
pub open spec fn step(lib: Library, w: World, id: usize, a: Action) -> World {
    match a {
        Action::Restore => World { live: w.snaps[id], owner: id, snaps: w.snaps },
        Action::Capture => World { live: w.live, owner: w.owner, snaps: w.snaps.insert(id, w.live) },
        Action::Inspect => w,
        _ => World { live: lib(w.live, a), owner: w.owner, snaps: w.snaps },
    }
}

/// The steps of `plan`, in order, on behalf of session `id`.
pub open spec fn run(lib: Library, w: World, id: usize, plan: Seq<Action>) -> World
    decreases plan.len(),
{
    if plan.len() == 0 {
        w
    } else {
        run(lib, step(lib, w, id, plan[0]), id, plan.drop_first())
    }
}

/// One step seen from a single session: the live state and its snapshot.
pub open spec fn local_step(lib: Library, live: readline_state, saved: readline_state, a: Action) -> (
    readline_state,
    readline_state,
) {
    match a {
        Action::Restore => (saved, saved),
        Action::Capture => (live, live),
        Action::Inspect => (live, saved),
        _ => (lib(live, a), saved),
    }
}

/// The steps of `plan` seen from a single session.
pub open spec fn local_run(
    lib: Library,
    live: readline_state,
    saved: readline_state,
    plan: Seq<Action>,
) -> (readline_state, readline_state)
    decreases plan.len(),
{
    if plan.len() == 0 {
        (live, saved)
    } else {
        let next = local_step(lib, live, saved, plan[0]);
        local_run(lib, next.0, next.1, plan.drop_first())
    }
}

/// The snapshot that an operation with steps `body` leaves to a session
/// whose snapshot was `s`, when the session runs alone.
pub open spec fn edit(lib: Library, s: readline_state, body: Seq<Action>) -> readline_state {
    local_run(lib, s, s, body).0
}

/// The live state once session `id` is activated: what an `Inspect` step
/// of that session reads.
pub open spec fn seen(lib: Library, w: World, id: usize) -> readline_state {
    run(lib, w, id, activation(w.owner == id)).live
}

/// The world after an operation with steps `body` on session `id`, framed
/// in the frame that every operation has.
pub open spec fn operate(lib: Library, w: World, id: usize, body: Seq<Action>) -> World {
    run(lib, w, id, session_plan(w.owner == id, body))
}

/// Operations on sessions, one after another, each in its frame.
pub open spec fn run_schedule(lib: Library, w: World, sched: Seq<(usize, Seq<Action>)>) -> World
    decreases sched.len(),
{
    if sched.len() == 0 {
        w
    } else {
        run_schedule(lib, operate(lib, w, sched[0].0, sched[0].1), sched.drop_first())
    }
}

/// The snapshot that session `id` reaches from `s` when only its own
/// operations of `sched` run, on it alone.
pub open spec fn alone(lib: Library, s: readline_state, id: usize, sched: Seq<(usize, Seq<Action>)>) -> readline_state
    decreases sched.len(),
{
    if sched.len() == 0 {
        s
    } else {
        let next = if sched[0].0 == id {
            edit(lib, s, sched[0].1)
        } else {
            s
        };
        alone(lib, next, id, sched.drop_first())
    }
}

/// The world once session `id` is forgotten, after its release.
pub open spec fn forget(w: World, id: usize) -> World {
    World { live: w.live, owner: w.owner, snaps: w.snaps.remove(id) }
}

/// The world once a session `id` is added with snapshot `s`.
pub open spec fn add_session(w: World, id: usize, s: readline_state) -> World {
    World { live: w.live, owner: w.owner, snaps: w.snaps.insert(id, s) }
}

} // verus!
