//! Error taxonomy of the session manager.
use vstd::prelude::*;

verus! {

/// Response status byte reporting success.
pub const STATUS_OK: u8 = 0xf0;

/// Response status byte reporting that the command could not be processed.
pub const STATUS_COMMAND_CANNOT_BE_PROCESSED: u8 = 0xf5;

/// Response status byte reporting that no symmetric key is set on the device.
pub const STATUS_KEY_NOT_SET: u8 = 0xfa;

/// Errors surfaced by the session manager.
///
/// - `Timeout`: a lock or serial wait exceeded its bound; the caller may
///   retry the whole operation.
/// - `InvalidStx` / `InvalidLength`: protocol framing faults (wrong start
///   marker, malformed declared length); recoverable only by resynchronising.
/// - `Encryption`: an operation required a symmetric key that is absent, or
///   the device rejected an encrypted envelope; carries the response status
///   byte that triggered it.  Recoverable by re-running the key exchange.
/// - `Io`: an underlying serial device fault; fatal for the session unless
///   the caller reconnects.
/// - `Decode`: the protocol codec could not interpret a well-framed response.
#[derive(Clone, Copy, Debug, PartialEq, Eq, Structural)]
pub enum Error {
    /// A lock or serial wait exceeded its bound.
    Timeout,
    /// The response frame did not start with the start-of-frame marker;
    /// carries the byte that was read instead.
    InvalidStx(u8),
    /// The response frame declared a malformed data length.
    InvalidLength(u8),
    /// An operation required encryption that was unavailable or rejected;
    /// carries the response status byte that triggered it.
    Encryption(u8),
    /// The underlying serial transport failed.
    Io,
    /// The codec could not interpret a well-framed response.
    Decode,
}

impl Error {
    /// Whether this error is a protocol framing fault.
    pub fn is_framing(&self) -> (r: bool)
        ensures
            r == (self is InvalidStx || self is InvalidLength),
    {
        match self {
            Error::InvalidStx(_) => true,
            Error::InvalidLength(_) => true,
            _ => false,
        }
    }

    /// A short description of the error.
    pub fn describe(&self) -> (r: &'static str) {
        match self {
            Error::Timeout => "timed out waiting for a lock or the serial line",
            Error::InvalidStx(_) => "response frame has a wrong start marker",
            Error::InvalidLength(_) => "response frame declared a malformed length",
            Error::Encryption(_) => "encryption required but unavailable or rejected",
            Error::Io => "serial transport failure",
            Error::Decode => "response could not be decoded",
        }
    }
}

} // verus!
