use vstd::prelude::*;

use crate::action::{activation, session_plan, setup_body, Action};
use crate::gate::GateView;
use crate::model::{
    add_session, alone, consistent, edit, forget, local_run, local_step, operate, run,
    run_schedule, seen, step, tracks, Library, World,
};
use crate::snapshot::readline_state;

verus! {

/// While session `id` is installed, a plan run for it is its single-session
/// run: the live state and `id`'s snapshot evolve as seen from `id` alone,
/// and no other snapshot changes.
proof fn lemma_run_installed(lib: Library, w: World, id: usize, plan: Seq<Action>)
    requires
        w.owner == id,
        w.snaps.contains_key(id),
    ensures
        run(lib, w, id, plan) == (World {
            live: local_run(lib, w.live, w.snaps[id], plan).0,
            owner: id,
            snaps: w.snaps.insert(id, local_run(lib, w.live, w.snaps[id], plan).1),
        }),
    decreases plan.len(),
{
    if plan.len() == 0 {
        assert(w.snaps.insert(id, w.snaps[id]) =~= w.snaps);
    } else {
        let w1 = step(lib, w, id, plan[0]);
        let next = local_step(lib, w.live, w.snaps[id], plan[0]);
        assert(w1.live == next.0 && w1.snaps[id] == next.1);
        lemma_run_installed(lib, w1, id, plan.drop_first());
        let last = local_run(lib, w1.live, w1.snaps[id], plan.drop_first()).1;
        assert(w1.snaps.insert(id, last) =~= w.snaps.insert(id, last));
    }
}

/// Running `a` and then `b` from one session's view is running `a + b`.
proof fn lemma_local_run_append(
    lib: Library,
    live: readline_state,
    saved: readline_state,
    a: Seq<Action>,
    b: Seq<Action>,
)
    ensures
        local_run(lib, live, saved, a + b) == local_run(
            lib,
            local_run(lib, live, saved, a).0,
            local_run(lib, live, saved, a).1,
            b,
        ),
    decreases a.len(),
{
    if a.len() == 0 {
        assert(a + b =~= b);
    } else {
        let next = local_step(lib, live, saved, a[0]);
        assert((a + b)[0] == a[0]);
        assert((a + b).drop_first() =~= a.drop_first() + b);
        lemma_local_run_append(lib, next.0, next.1, a.drop_first(), b);
    }
}

/// Once session `id` is activated, the live state is its snapshot.
pub proof fn lemma_seen(lib: Library, w: World, id: usize)
    requires
        consistent(w),
        w.snaps.contains_key(id),
    ensures
        seen(lib, w, id) == w.snaps[id],
{
    if w.owner != id {
        let r = activation(false);
        let w1 = step(lib, w, id, Action::Restore);
        assert(r.drop_first() =~= Seq::<Action>::empty());
        assert(run(lib, w, id, r) == run(lib, w1, id, r.drop_first()));
    }
}

/// An operation on session `id` replaces its snapshot by the one the
/// operation's steps give when the session runs alone, changes no other
/// snapshot, leaves `id` installed, and keeps the live state equal to the
/// installed snapshot. The world then agrees with the lock's data as the operation
/// leaves it.
pub proof fn lemma_operation(lib: Library, w: World, g: GateView, id: usize, body: Seq<Action>)
    requires
        consistent(w),
        tracks(w, g),
        w.snaps.contains_key(id),
    ensures
        operate(lib, w, id, body) == (World {
            live: edit(lib, w.snaps[id], body),
            owner: id,
            snaps: w.snaps.insert(id, edit(lib, w.snaps[id], body)),
        }),
        consistent(operate(lib, w, id, body)),
        tracks(operate(lib, w, id, body), g.installing(id)),
        g.installing(id).last == g.last,
{
    let s = w.snaps[id];
    let tail = body.push(Action::Capture);
    let capture = seq![Action::Capture];
    lemma_local_run_append(lib, s, s, body, capture);
    assert(body + capture =~= tail);
    let r = local_run(lib, s, s, body);
    assert(capture.drop_first() =~= Seq::<Action>::empty());
    assert(local_run(lib, r.0, r.1, capture) == local_run(lib, r.0, r.0, capture.drop_first()));
    let plan = session_plan(w.owner == id, body);
    if w.owner == id {
        assert(plan =~= tail);
        lemma_run_installed(lib, w, id, tail);
    } else {
        assert(plan[0] == Action::Restore);
        assert(plan.drop_first() =~= tail);
        let w1 = step(lib, w, id, Action::Restore);
        assert(run(lib, w, id, plan) == run(lib, w1, id, plan.drop_first()));
        lemma_run_installed(lib, w1, id, tail);
    }
    let w2 = operate(lib, w, id, body);
    assert(w2.snaps.dom() =~= w.snaps.dom());
}

/// Isolation: an operation on session `a` changes neither the snapshot of
/// another session `b` nor what `b` sees once it is activated.
pub proof fn lemma_isolation(
    lib: Library,
    w: World,
    g: GateView,
    a: usize,
    b: usize,
    body: Seq<Action>,
)
    requires
        consistent(w),
        tracks(w, g),
        w.snaps.contains_key(a),
        w.snaps.contains_key(b),
        a != b,
    ensures
        operate(lib, w, a, body).snaps[b] == w.snaps[b],
        seen(lib, operate(lib, w, a, body), b) == seen(lib, w, b),
        tracks(operate(lib, w, a, body), g.installing(a)),
{
    lemma_operation(lib, w, g, a, body);
    let w2 = operate(lib, w, a, body);
    lemma_seen(lib, w, b);
    lemma_seen(lib, w2, b);
}

/// Serializability: operations on several sessions, interleaved in any
/// order, leave each session with the snapshot it would reach if its own
/// operations ran alone, in the same order. No session appears or
/// disappears, the live state stays that of the installed session, and the
/// world agrees with the lock's data, which then has the last operated session
/// installed.
pub proof fn lemma_serializable(
    lib: Library,
    w: World,
    g: GateView,
    sched: Seq<(usize, Seq<Action>)>,
)
    requires
        consistent(w),
        tracks(w, g),
        forall|i: int| 0 <= i < sched.len() ==> w.snaps.contains_key(#[trigger] sched[i].0),
    ensures
        consistent(run_schedule(lib, w, sched)),
        tracks(
            run_schedule(lib, w, sched),
            GateView { owner: run_schedule(lib, w, sched).owner, last: g.last, line: g.line },
        ),
        sched.len() > 0 ==> run_schedule(lib, w, sched).owner == sched.last().0,
        run_schedule(lib, w, sched).snaps.dom() == w.snaps.dom(),
        forall|id: usize|
            w.snaps.contains_key(id) ==> #[trigger] run_schedule(lib, w, sched).snaps[id] == alone(
                lib,
                w.snaps[id],
                id,
                sched,
            ),
    decreases sched.len(),
{
    if sched.len() > 0 {
        let (first, body) = sched[0];
        assert(w.snaps.contains_key(sched[0].0));
        lemma_operation(lib, w, g, first, body);
        let w1 = operate(lib, w, first, body);
        let g1 = g.installing(first);
        let rest = sched.drop_first();
        assert(w1.snaps.dom() =~= w.snaps.dom());
        assert forall|i: int| 0 <= i < rest.len() implies w1.snaps.contains_key(#[trigger] rest[i].0) by {
            assert(rest[i] == sched[i + 1]);
        }
        lemma_serializable(lib, w1, g1, rest);
        if rest.len() > 0 {
            assert(rest.last() == sched.last());
        }
        assert forall|id: usize| w.snaps.contains_key(id) implies #[trigger] run_schedule(
            lib,
            w,
            sched,
        ).snaps[id] == alone(lib, w.snaps[id], id, sched) by {
            assert(w1.snaps.contains_key(id));
        }
    }
}

/// A session created under an identity larger than every one issued so far,
/// with the steps that `Readline::new` returns, starts from its own snapshot
/// and changes no other session's snapshot; the world then agrees with the
/// lock's data as creation leaves it. Such an identity is neither a
/// session's nor the installed one, so creation always restores.
pub proof fn lemma_creation(
    lib: Library,
    w: World,
    g: GateView,
    id: usize,
    template: readline_state,
)
    requires
        consistent(w),
        tracks(w, g),
        g.valid(),
        id > g.last,
    ensures
        !w.snaps.contains_key(id),
        w.owner != id,
        run(lib, add_session(w, id, template), id, session_plan(false, setup_body()))
            == operate(lib, add_session(w, id, template), id, setup_body()),
        consistent(operate(lib, add_session(w, id, template), id, setup_body())),
        tracks(operate(lib, add_session(w, id, template), id, setup_body()), g.installing(id)),
        operate(lib, add_session(w, id, template), id, setup_body()).snaps == w.snaps.insert(
            id,
            edit(lib, template, setup_body()),
        ),
{
    let w1 = add_session(w, id, template);
    let g1 = GateView { owner: g.owner, last: id, line: g.line };
    assert(consistent(w1));
    assert(tracks(w1, g1));
    lemma_operation(lib, w1, g1, id, setup_body());
    assert(g1.installing(id) == g.installing(id));
    assert(w1.snaps.insert(id, edit(lib, template, setup_body())) =~= w.snaps.insert(
        id,
        edit(lib, template, setup_body()),
    ));
}

/// Releasing session `a` and forgetting it changes no other session's
/// snapshot nor what another session `b` sees once activated, and a later
/// operation on `b` gives `b` the same snapshot as it would have had without
/// the release. The world still agrees with the lock's data.
pub proof fn lemma_release(
    lib: Library,
    w: World,
    g: GateView,
    a: usize,
    b: usize,
    body: Seq<Action>,
)
    requires
        consistent(w),
        tracks(w, g),
        w.snaps.contains_key(a),
        w.snaps.contains_key(b),
        a != b,
    ensures
        consistent(forget(operate(lib, w, a, seq![Action::Release]), a)),
        tracks(forget(operate(lib, w, a, seq![Action::Release]), a), g.installing(a)),
        forget(operate(lib, w, a, seq![Action::Release]), a).snaps == w.snaps.remove(a),
        seen(lib, forget(operate(lib, w, a, seq![Action::Release]), a), b) == seen(lib, w, b),
        operate(lib, forget(operate(lib, w, a, seq![Action::Release]), a), b, body).snaps[b]
            == operate(lib, w, b, body).snaps[b],
{
    lemma_operation(lib, w, g, a, seq![Action::Release]);
    let w1 = operate(lib, w, a, seq![Action::Release]);
    let w2 = forget(w1, a);
    let g1 = g.installing(a);
    assert(w2.snaps =~= w.snaps.remove(a));
    assert(w2.snaps.contains_key(b));
    lemma_operation(lib, w2, g1, b, body);
    lemma_operation(lib, w, g, b, body);
    lemma_seen(lib, w2, b);
    lemma_seen(lib, w, b);
}

} // verus!
