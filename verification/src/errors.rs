use vstd::prelude::*;

verus! {

/// The error type for this crate.
///
/// Connection, framing, decoding and state errors are kept apart so that a
/// caller can tell where a failure came from.  Errors reported by the
/// operating system or by the JSON parser are carried as their message
/// text.
#[derive(Debug, Clone, PartialEq, Eq)]
pub enum Error {
    /// An I/O failure on the underlying channel, as reported by the
    /// platform transport.
    Io(String),
    /// The inbound body was not a JSON object, or a field of it had the
    /// wrong shape; the text says what went wrong.
    Json(String),
    /// The opcode was malformed while attempting to unpack.
    MalformedOpcode,
    /// The header was malformed while attempting to unpack: fewer than 8
    /// bytes were supplied.
    MalformedHeader,
    /// A numeric error code in an inbound error notification matched
    /// neither the critical nor the non-critical table.
    InvalidErrorCode,
    /// All candidate endpoints refused the connection; the text is the
    /// last underlying OS error.
    CouldNotConnect(String),
    /// No location hint was set, so no base directory for the endpoints
    /// could be resolved.
    CouldNotResolvePipePattern,
    /// A connection-state error: a read, write or close was attempted
    /// before a successful connect, or a connect was attempted while
    /// the handle was already connected.
    NotConnected,
    /// An outgoing body was longer than the 32-bit length field of the
    /// frame header can state.
    PayloadTooLarge,
}

} // verus!
