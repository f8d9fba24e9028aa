//! Handles to the window that had input focus when a session began.

use vstd::prelude::*;

verus! {

/// An opaque reference to a window or process of the operating system, as
/// the focus tracker read it.  The core only keeps it and hands it back.
#[derive(Clone, Copy, Debug, PartialEq, Eq, Structural)]
pub struct FocusHandle {
    pub raw: i64,
}

impl FocusHandle {
    /// Wraps what the operating system gave.
    pub fn new(raw: i64) -> (handle: Self)
        ensures
            handle.raw == raw,
    {
        FocusHandle { raw }
    }

    /// The operating system's own value.
    pub fn raw(&self) -> (raw: i64)
        ensures
            raw == self.raw,
    {
        self.raw
    }
}

} // verus!
