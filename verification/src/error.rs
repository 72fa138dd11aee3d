//! The ways in which talking to a display can fail.

use vstd::prelude::*;

verus! {

/// A failure of discovery, of the report protocol or of the transport.
#[derive(Debug, Clone, Copy, PartialEq, Eq, Structural)]
pub enum DisplayError {
    /// The HID devices could not be enumerated at all.
    Discovery,
    /// The enumeration worked, and no display was left to control.
    NoDevice,
    /// A feature report came back with another size than the fixed layout
    /// has, so that its byte offsets mean nothing.
    Protocol { expected: usize, actual: usize },
    /// A read from or a write to the device failed.
    Transport,
}

} // verus!
