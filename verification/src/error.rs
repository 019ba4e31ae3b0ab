//! The errors that the bus and the pin configuration report.

use vstd::prelude::*;

verus! {

/// Why an operation on the board stopped. None of them is retried.
#[derive(Debug, Clone, Copy, PartialEq, Eq, Structural)]
pub enum Error {
    /// The device could not be opened or configured.
    TransportUnavailable,
    /// The board answered with an identity code that is not known.
    UnknownDevice,
    /// A pin index outside `0..=15`.
    InvalidPin,
    /// A transaction did not complete, or completed with the wrong length.
    TransmissionFailure,
    /// The clock register holds a ratio with no frequency that fits 32 bits.
    InvalidFrequency,
}

} // verus!
