//! What an input device reports.
use vstd::prelude::*;

verus! {

/// The state of an input device's key.
#[derive(Debug, Copy, Clone, Ord, PartialOrd, Eq, PartialEq, Structural)]
pub enum InputState {
    /// The key is held down.
    Pressed,
    /// The key is released.
    Released,
}

/// Whether an input device has more to report.
#[derive(Debug, Copy, Clone, Ord, PartialOrd, Eq, PartialEq, Structural)]
pub enum BufferStatus {
    /// This report is the last one for now.
    Once,
    /// More reports wait to be read.
    Buffered,
}

impl BufferStatus {
    /// Whether the device is to be read again at once: so it is while
    /// reports are buffered.
    pub fn continue_reading(self) -> (r: bool)
        ensures
            r == (self is Buffered),
    {
        match self {
            BufferStatus::Once => false,
            BufferStatus::Buffered => true,
        }
    }
}

} // verus!
