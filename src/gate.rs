use vstd::prelude::*;

verus! {

/// Relies on uid::Id::new and Id::get: each call takes the next value of a
/// process-wide counter that starts at one, so the value is never zero.
/// (`Id::new` panics only once the counter has wrapped around, after
/// `usize::MAX` identities have been handed out.)
#[verifier::external_body]
pub(crate) fn fresh_id() -> (r: usize)
    ensures
        r != 0,
{
    uid::Id::<Gate>::new().get()
}

/// What a gate holds, as mathematical values.
pub struct GateView {
    /// Identity of the session whose snapshot is installed as the live state.
    pub owner: usize,
    /// The largest identity this gate has issued or installed: every session
    /// made with it has an identity no larger, and a new one a larger.
    pub last: usize,
    /// The completed line that has not been taken yet, if any.
    pub line: Option<Seq<u8>>,
}

impl GateView {
    /// The installed identity was issued or installed before.
    pub open spec fn valid(self) -> bool {
        self.owner <= self.last
    }

    /// The lock's data once `id` is installed.
    pub open spec fn installing(self, id: usize) -> GateView {
        GateView {
            owner: id,
            last: if id > self.last {
                id
            } else {
                self.last
            },
            line: self.line,
        }
    }
}

/// The installed identity and the largest one issued or installed so far.
#[derive(Debug)]
struct Identities {
    owner: usize,
    last: usize,
}

impl Identities {
    #[verifier::type_invariant]
    spec fn well_formed(&self) -> bool {
        self.owner <= self.last
    }

    /// Install `id`, raising the record when `id` is larger.
    fn install(&mut self, id: usize)
        ensures
            final(self).owner == id,
            final(self).last == if id > old(self).last {
                id
            } else {
                old(self).last
            },
    {
        let last = if id > self.last {
            id
        } else {
            self.last
        };
        *self = Identities { owner: id, last };
    }
}

/// The data guarded by the process-wide lock: which session's snapshot is
/// installed as the live state, the largest identity issued so far, and the
/// slot that receives a completed line.
///
/// A gate starts out owned by an identity of its own, which stands for the
/// template state and belongs to no session: every session gets a larger one.
#[derive(Debug)]
pub struct Gate {
    ids: Identities,
    line: Option<Vec<u8>>,
}

/// The view of a completed-line slot.
pub open spec fn slot_view(line: Option<Vec<u8>>) -> Option<Seq<u8>> {
    match line {
        Some(l) => Some(l@),
        None => None,
    }
}

impl View for Gate {
    type V = GateView;

    closed spec fn view(&self) -> GateView {
        GateView { owner: self.ids.owner, last: self.ids.last, line: slot_view(self.line) }
    }
}

impl Gate {
    /// A gate with the template installed under an identity of its own and
    /// an empty slot.
    pub fn new() -> (g: Gate)
        ensures
            g@.valid(),
            g@.owner != 0,
            g@.last == g@.owner,
            g@.line is None,
    {
        let owner = fresh_id();
        Gate { ids: Identities { owner, last: owner }, line: None }
    }

    /// The identity whose snapshot is installed.
    pub fn owner(&self) -> (r: usize)
        ensures
            r == self@.owner,
            self@.valid(),
    {
        proof {
            use_type_invariant(&self.ids);
        }
        self.ids.owner
    }

    /// The largest identity issued or installed so far.
    pub fn last(&self) -> (r: usize)
        ensures
            r == self@.last,
            self@.valid(),
    {
        proof {
            use_type_invariant(&self.ids);
        }
        self.ids.last
    }

    /// Install `id` as the owner. Returns whether its snapshot has to be
    /// restored first, that is whether another identity was installed.
    pub(crate) fn install(&mut self, id: usize) -> (restore: bool)
        ensures
            restore == (old(self)@.owner != id),
            final(self)@ == old(self)@.installing(id),
            final(self)@.valid(),
    {
        proof {
            use_type_invariant(&self.ids);
        }
        let restore = self.ids.owner != id;
        self.ids.install(id);
        proof {
            use_type_invariant(&self.ids);
        }
        restore
    }

    /// Put a completed line into the slot. The library reports a line that
    /// ended without text as no line at all; that is stored as the empty
    /// line, so that a line ended on an empty buffer is still a line.
    pub fn complete(&mut self, line: Option<Vec<u8>>)
        ensures
            final(self)@.owner == old(self)@.owner,
            final(self)@.last == old(self)@.last,
            final(self)@.line == Some(
                match line {
                    Some(l) => l@,
                    None => Seq::<u8>::empty(),
                },
            ),
    {
        match line {
            Some(l) => {
                self.line = Some(l);
            },
            None => {
                self.line = Some(Vec::new());
            },
        }
    }

    /// Take the completed line out of the slot, leaving it empty.
    pub fn take_line(&mut self) -> (r: Option<Vec<u8>>)
        ensures
            slot_view(r) == old(self)@.line,
            final(self)@.owner == old(self)@.owner,
            final(self)@.last == old(self)@.last,
            final(self)@.line is None,
    {
        self.line.take()
    }
}

} // verus!
