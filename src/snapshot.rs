use vstd::prelude::*;

verus! {

/// Number of 64-bit words in a snapshot.
pub const STATE_WORDS: usize = 64;

/// An opaque copy of the line-editing library's global state.
///
/// The library's own structure is smaller than this and its layout depends
/// on the platform; no field of it is read here. The snapshot is a block of
/// words so that it is large enough and aligned to eight bytes.
#[allow(non_camel_case_types)]
#[derive(Clone, Copy, Debug)]
pub struct readline_state {
    pub words: [u64; 64],
}

impl readline_state {
    /// A snapshot with every word zero, to be filled by a capture.
    pub fn zeroed() -> (r: readline_state)
        ensures
            forall|i: int| 0 <= i < STATE_WORDS ==> #[trigger] r.words@[i] == 0u64,
    {
        readline_state { words: [0u64; 64] }
    }

    /// Load the state that was captured from the library's globals.
    pub fn load(&mut self, live: &readline_state)
        ensures
            *final(self) == *live,
    {
        *self = *live;
    }
}

} // verus!
