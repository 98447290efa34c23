use vstd::prelude::*;
use crate::constants::ConfirmationCode;

verus! {

/// The one fault of the in-memory transport: a read asked for more bytes than
/// have arrived so far, while the far end may still send.
#[derive(Clone, Copy, Debug, PartialEq, Eq, Structural)]
pub struct Starved {
    /// How many bytes must still arrive before the read can be served.
    pub missing: usize,
}

/// Why an operation on the device did not yield a value.
#[derive(Clone, Copy, Debug, PartialEq, Eq, Structural)]
pub enum Error {
    /// The transport's own fault, handed on as it came.
    Wire(Starved),
    /// The bytes break the frame layout: bad magic, unknown identifier or
    /// enumerant, foreign address, unexpected step, or no room in the buffer.
    IncorrectData,
    /// The transport ended inside a frame.
    EndOfFile,
    /// The acknowledge is well formed, and the device reports this failure.
    BadConfirmation(ConfirmationCode),
    /// The transmitted checksum is not the sum of the covered bytes.
    BadChecksum,
}

} // verus!
