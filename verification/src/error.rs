//! What can go wrong in an operation on the sensor.

use vstd::prelude::*;

verus! {

/// The ways in which an operation on the sensor fails.
#[derive(Clone, Copy, Debug, PartialEq, Eq, Structural)]
pub enum Error {
    /// The transport did not take the command.
    SendFailed,
    /// A byte could not be read, or the frame read did not pass its checksum.
    ReadFailed,
    /// A frame arrived intact but is not the acknowledgement that was due.
    IncorrectResponse,
}

} // verus!
