//! Multiplexing independent line-editing sessions over the single,
//! process-wide state of a non-reentrant line-editing library.
//!
//! The library's state lives in its own globals. A session owns a snapshot
//! of that state, and every operation on a session is framed by the same
//! protocol: the session's snapshot is installed as the live state when some
//! other session (or the template) is installed, the operation's own steps
//! run, and the live state is captured back into the snapshot before the
//! gate that serialises access is released.
//!
//! The steps themselves are native calls. This crate decides which steps run
//! and in what order, and proves that the protocol keeps sessions apart.

mod action;
mod gate;
mod laws;
mod model;
mod session;
mod snapshot;

pub use action::{activation, key_body, session_plan, setup_body, Action};
pub use gate::{slot_view, Gate, GateView};
pub use laws::{
    lemma_creation, lemma_isolation, lemma_operation, lemma_release, lemma_seen, lemma_serializable,
};
pub use model::{
    add_session, alone, consistent, edit, forget, local_run, local_step, operate, run, run_schedule,
    seen, step, tracks, Library, World,
};
pub use session::{inspect, Readline, ReadlineView};
pub use snapshot::readline_state;
