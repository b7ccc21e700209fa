use vstd::prelude::*;

verus! {

/// The uploaded file could not be loaded by the host. The read outcome is
/// handed to the ingestion core, which degrades its state (no file, no
/// headers) rather than blocking the operator.
#[derive(Clone, Copy, PartialEq, Eq, Structural, Debug)]
pub struct ReadError;

/// The first record of the uploaded buffer is not a well-formed delimited
/// header: the buffer is empty, the quoting is malformed, or a column name
/// is not valid text.
#[derive(Clone, Copy, PartialEq, Eq, Structural, Debug)]
pub struct ParseError;

/// A submission was attempted while no file was selected. This is the only
/// precondition checked before transmission work begins.
#[derive(Clone, Copy, PartialEq, Eq, Structural, Debug)]
pub struct MissingFileError;

/// Why a transmission over the interprocess channel failed.
#[derive(Clone, Copy, PartialEq, Eq, Structural, Debug)]
pub enum ChannelError {
    /// The local endpoint could not be reached.
    Connect,
    /// The payload could not be encoded for the wire.
    Serialize,
    /// The write was interrupted or the peer closed early.
    Write,
    /// The peer sent no response within the allowed wait.
    Timeout,
}

/// Outcome of one transmission attempt: the peer's acknowledgement string,
/// or the cause of the failure. Drives the notification sink; not persisted.
#[derive(Clone, PartialEq, Eq, Debug)]
pub enum TransmissionResult {
    Success(String),
    Failure(ChannelError),
}

} // verus!
