use vstd::prelude::*;

use crate::action::{activation, key_body, session_plan, setup_body, Action};
use crate::gate::{fresh_id, Gate};
use crate::snapshot::readline_state;

verus! {

/// What a session holds, as mathematical values.
pub struct ReadlineView {
    /// The session's identity, unique in the process.
    pub id: usize,
    /// The session's snapshot of the library's state.
    pub state: readline_state,
}

/// A context for reading a line: an identity and a snapshot of its own.
///
/// Each operation takes the data of the process-wide lock, which the caller
/// holds, and returns the steps to perform on the library, in order, before
/// the lock is released.
#[derive(Debug)]
pub struct Readline {
    id: usize,
    state: readline_state,
}

impl View for Readline {
    type V = ReadlineView;

    closed spec fn view(&self) -> ReadlineView {
        ReadlineView { id: self.id, state: self.state }
    }
}

impl Readline {
    /// Create a session with identity `id` that starts from a copy of
    /// `template`, the state the library was left in by its one-time setup.
    /// The identity is taken only when it is larger than every identity the
    /// gate has issued or installed, so that no other session and not the
    /// template has it; otherwise nothing is created and the lock's data is left as
    /// it was. The returned steps install the copy, give it scratch buffers of
    /// its own and read it back.
    pub fn with_id(gate: &mut Gate, id: usize, template: &readline_state) -> (r: Option<
        (Readline, Vec<Action>),
    >)
        ensures
            r is Some <==> id > old(gate)@.last,
            r is None ==> final(gate)@ == old(gate)@,
            r matches Some((rl, plan)) ==> {
                &&& rl@.id == id
                &&& rl@.state == *template
                &&& plan@ == session_plan(false, setup_body())
                &&& final(gate)@ == old(gate)@.installing(id)
                &&& final(gate)@.last == id
            },
            final(gate)@.valid(),
    {
        if id <= gate.last() {
            return None;
        }
        let rl = Readline { id, state: *template };
        let mut plan = rl.begin(gate);
        plan.push(Action::Allocate);
        plan.push(Action::Capture);
        plan.push(Action::Restore);
        plan.push(Action::Capture);
        proof {
            assert(plan@ =~= session_plan(false, setup_body()));
        }
        Some((rl, plan))
    }

    /// Create a session under a new identity of the process, starting from a
    /// copy of `template`. Identities come in increasing order, so the new one
    /// is larger than every identity the lock's data knows and the session is
    /// created; should it not be, nothing is created and the lock's data is left as
    /// it was.
    pub fn new(gate: &mut Gate, template: &readline_state) -> (r: Option<(Readline, Vec<Action>)>)
        ensures
            r is None ==> final(gate)@ == old(gate)@,
            r matches Some((rl, plan)) ==> {
                &&& rl@.id > old(gate)@.last
                &&& rl@.state == *template
                &&& plan@ == session_plan(false, setup_body())
                &&& final(gate)@ == old(gate)@.installing(rl@.id)
                &&& final(gate)@.last == rl@.id
            },
            final(gate)@.valid(),
    {
        let id = fresh_id();
        Readline::with_id(gate, id, template)
    }

    /// The session's identity.
    pub fn id(&self) -> (r: usize)
        ensures
            r == self@.id,
    {
        self.id
    }

    /// The session's snapshot, to be restored as the live state.
    pub fn snapshot(&self) -> (r: &readline_state)
        ensures
            *r == self@.state,
    {
        &self.state
    }

    /// Store the live state, as captured from the library, as this
    /// session's snapshot.
    pub fn capture(&mut self, live: &readline_state)
        ensures
            final(self)@.id == old(self)@.id,
            final(self)@.state == *live,
    {
        self.state.load(live);
    }

    /// Make this session the installed one, starting a plan with the restore
    /// of its snapshot when another identity was installed.
    fn begin(&self, gate: &mut Gate) -> (plan: Vec<Action>)
        ensures
            plan@ == activation(old(gate)@.owner == self@.id),
            final(gate)@ == old(gate)@.installing(self@.id),
    {
        let mut plan = Vec::new();
        if gate.install(self.id) {
            plan.push(Action::Restore);
        }
        proof {
            assert(plan@ =~= activation(old(gate)@.owner == self@.id));
        }
        plan
    }

    /// Feed one key, a single byte or a whole escape sequence. An empty key
    /// asks for nothing and leaves the lock's data as it was. A line that the
    /// key completes is then in the completed-line slot.
    pub fn feed(&self, gate: &mut Gate, key: &[u8]) -> (plan: Vec<Action>)
        ensures
            key@.len() == 0 ==> plan@.len() == 0 && final(gate)@ == old(gate)@,
            key@.len() > 0 ==> plan@ == session_plan(old(gate)@.owner == self@.id, key_body(key@))
                && final(gate)@ == old(gate)@.installing(self@.id),
    {
        if key.len() == 0 {
            return Vec::new();
        }
        let mut plan = self.begin(gate);
        let ghost start = plan@;
        let mut i: usize = 0;
        while i < key.len()
            invariant
                i <= key@.len(),
                plan@ == start + key@.subrange(0, i as int).map_values(|b: u8| Action::Stuff(b)),
            decreases key@.len() - i,
        {
            plan.push(Action::Stuff(key[i]));
            i = i + 1;
            proof {
                assert(key@.subrange(0, i as int).map_values(|b: u8| Action::Stuff(b))
                    =~= key@.subrange(0, i - 1).map_values(|b: u8| Action::Stuff(b)).push(
                    Action::Stuff(key@[i - 1]),
                ));
            }
        }
        plan.push(Action::ReadKey);
        plan.push(Action::Capture);
        proof {
            assert(key@.subrange(0, key@.len() as int) =~= key@);
            assert(plan@ =~= session_plan(old(gate)@.owner == self@.id, key_body(key@)));
        }
        plan
    }

    /// Replace the line being edited by `line` and put the cursor at byte
    /// offset `cursor`; `clear_undo` drops the line's undo history.
    pub fn reset(&self, gate: &mut Gate, line: Vec<u8>, cursor: usize, clear_undo: bool) -> (plan:
        Vec<Action>)
        requires
            cursor <= line@.len(),
        ensures
            plan@ == session_plan(
                old(gate)@.owner == self@.id,
                seq![Action::Replace(line, clear_undo), Action::MoveCursor(cursor)],
            ),
            final(gate)@ == old(gate)@.installing(self@.id),
    {
        let mut plan = self.begin(gate);
        let ghost replaced = Action::Replace(line, clear_undo);
        plan.push(Action::Replace(line, clear_undo));
        plan.push(Action::MoveCursor(cursor));
        plan.push(Action::Capture);
        proof {
            assert(plan@ =~= session_plan(
                old(gate)@.owner == self@.id,
                seq![replaced, Action::MoveCursor(cursor)],
            ));
        }
        plan
    }

    /// `reset` where the cursor may be past the end of `line`: such a cursor
    /// is refused, with no steps and the lock's data left as it was.
    pub fn try_reset(&self, gate: &mut Gate, line: Vec<u8>, cursor: usize, clear_undo: bool) -> (r:
        Option<Vec<Action>>)
        ensures
            r is Some <==> cursor <= line@.len(),
            r is None ==> final(gate)@ == old(gate)@,
            r matches Some(plan) ==> plan@ == session_plan(
                old(gate)@.owner == self@.id,
                seq![Action::Replace(line, clear_undo), Action::MoveCursor(cursor)],
            ) && final(gate)@ == old(gate)@.installing(self@.id),
    {
        if cursor > line.len() {
            return None;
        }
        Some(self.reset(gate, line, cursor, clear_undo))
    }

    /// Look at the line being edited and the cursor.
    pub fn peek(&self, gate: &mut Gate) -> (plan: Vec<Action>)
        ensures
            plan@ == session_plan(old(gate)@.owner == self@.id, seq![Action::Inspect]),
            final(gate)@ == old(gate)@.installing(self@.id),
    {
        let mut plan = self.begin(gate);
        plan.push(Action::Inspect);
        plan.push(Action::Capture);
        proof {
            assert(plan@ =~= session_plan(old(gate)@.owner == self@.id, seq![Action::Inspect]));
        }
        plan
    }

    /// Free what the library allocated for this session, with the session
    /// installed; to be done once, before the session is dropped.
    pub fn release(&self, gate: &mut Gate) -> (plan: Vec<Action>)
        ensures
            plan@ == session_plan(old(gate)@.owner == self@.id, seq![Action::Release]),
            final(gate)@ == old(gate)@.installing(self@.id),
    {
        let mut plan = self.begin(gate);
        plan.push(Action::Release);
        plan.push(Action::Capture);
        proof {
            assert(plan@ =~= session_plan(old(gate)@.owner == self@.id, seq![Action::Release]));
        }
        plan
    }
}

/// Check what an `Inspect` step read from the library: the bytes of the
/// line up to its terminator, the reported end of the line and the reported
/// cursor. Gives the line and the cursor as an offset when the end is the
/// line's length and the cursor lies between its start and its end; nothing
/// when the library's state is inconsistent.
pub fn inspect(content: Vec<u8>, end: i32, point: i32) -> (r: Option<(Vec<u8>, usize)>)
    ensures
        r is Some <==> (0 <= point <= end && content@.len() == end as int),
        r is Some ==> r == Some((content, point as usize)),
{
    if point < 0 || point > end {
        return None;
    }
    if content.len() != end as usize {
        return None;
    }
    Some((content, point as usize))
}

} // verus!
