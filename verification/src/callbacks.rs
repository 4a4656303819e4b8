//! What a progress callback answers to LibRaw.
use vstd::prelude::*;

verus! {

/// The answer of a progress callback: go on, or cancel the processing.
#[derive(Debug, Clone, Copy, PartialEq, Eq, Structural)]
pub enum ProgressAction {
    Continue,
    Cancel,
}

impl ProgressAction {
    /// The value the callback returns to LibRaw: 0 to continue, 1 to cancel.
    pub fn code(self) -> (c: i32)
        ensures
            c == (match self {
                ProgressAction::Continue => 0i32,
                ProgressAction::Cancel => 1i32,
            }),
    {
        match self {
            ProgressAction::Continue => 0,
            ProgressAction::Cancel => 1,
        }
    }
}

} // verus!
