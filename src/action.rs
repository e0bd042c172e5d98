use vstd::prelude::*;

verus! {

/// One step that an operation asks of the line-editing library.
///
/// `Restore` and `Capture` move state between a session's snapshot and the
/// library's live state; the other steps act on the live state alone.
#[derive(Debug, PartialEq, Eq)]
pub enum Action {
    /// Install the session's snapshot as the live state.
    Restore,
    /// Copy the live state into the session's snapshot.
    Capture,
    /// Push one byte onto the library's pending input.
    Stuff(u8),
    /// Let the library process the pending input as one key.
    ReadKey,
    /// Replace the line being edited; the flag asks to drop its undo history.
    Replace(Vec<u8>, bool),
    /// Move the cursor to the given byte offset.
    MoveCursor(usize),
    /// Read the line being edited and the cursor, changing nothing.
    Inspect,
    /// Give the live state scratch buffers of its own.
    Allocate,
    /// Free the undo history and the scratch buffers of the live state.
    Release,
}

/// The steps that make a session's snapshot live: nothing when it already
/// is, else one restore.
pub open spec fn activation(active: bool) -> Seq<Action> {
    if active {
        Seq::empty()
    } else {
        seq![Action::Restore]
    }
}

/// The frame of every operation: activation, the operation's own steps, and
/// a final capture, so that the live state is always read back before the
/// gate is released.
pub open spec fn session_plan(active: bool, body: Seq<Action>) -> Seq<Action> {
    activation(active) + body.push(Action::Capture)
}

/// The steps of feeding one key: each byte is pushed in order, then the
/// library reads them as one key.
pub open spec fn key_body(key: Seq<u8>) -> Seq<Action> {
    key.map_values(|b: u8| Action::Stuff(b)).push(Action::ReadKey)
}

/// The steps of setting a new session up once its template copy is live:
/// fresh scratch buffers, read back, and installed again so that the
/// library's internal references follow the new buffers.
pub open spec fn setup_body() -> Seq<Action> {
    seq![Action::Allocate, Action::Capture, Action::Restore]
}

} // verus!
