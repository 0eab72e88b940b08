//! Errors of the protocol layers.
use crate::command::Cmd;
use crate::transport::TransportError;
use vstd::prelude::*;

verus! {

/// The error a device puts in its response envelope.
#[derive(Debug, Clone, Copy, PartialEq, Eq, Structural)]
pub enum DeviceError {
    /// The request could not be decoded.
    Malformed,
    /// The device is not in a state to satisfy the request.
    NotReady,
    /// Persistent storage failed on a write path.
    StorageFault,
    /// Internal firmware fault.
    Internal,
    /// The command is recognized but has no handler.
    Unimplemented,
    /// The request decoded cleanly but is semantically invalid.
    Invalid,
    /// The command is unknown to the device.
    UnknownCmd,
    /// The command is gated by the lock and the session is locked.
    Locked,
    /// Transient backpressure; the request itself was valid.
    Busy,
    /// An error that this build does not know.
    Unknown,
}

/// Why a payload could not be decoded: the decoder's errors, one for one.
#[derive(Debug, Clone, Copy, PartialEq, Eq, Structural)]
pub enum DecodeError {
    /// The decoder will never support the type.
    WontImplement,
    /// The decoder does not support the type yet.
    NotYetImplemented,
    /// A buffer to write to is full.
    BufferFull,
    /// The length of a list to write is not known.
    LengthUnknown,
    /// The bytes ended inside a value.
    UnexpectedEnd,
    /// A variable-length integer did not terminate, or is out of range.
    BadVarint,
    /// A bool was neither 0 nor 1.
    BadBool,
    /// Not a character.
    BadChar,
    /// Not UTF-8.
    BadUtf8,
    /// An option tag was neither 0 nor 1.
    BadOption,
    /// An enum tag was out of range.
    BadEnum,
    /// The bytes were not well encoded.
    BadEncoding,
    /// A checksum did not match.
    BadCrc,
    /// A value refused to be written.
    Unwritable,
    /// The bytes decoded, but not to a value of the type (an unknown enum
    /// variant, too long a list).
    BadValue,
    /// Text to write could not be collected.
    Uncollectable,
    /// An error that this build does not know.
    Other,
}

/// Errors from one request round trip.
#[derive(Debug)]
pub enum RequestError {
    Transport(TransportError),
    /// The firmware accepted the request but answered with an error.
    Rejected(DeviceError),
    /// The request does not fit the transmit scratch.
    Encode(Cmd),
    /// The encoded frame is larger than the device's advertised limit.
    TooLarge { cmd: Cmd, frame_len: usize, max: usize },
    /// The response payload does not decode.
    Deserialize { cmd: Cmd, source: DecodeError },
    /// The response decoded, but bytes were left over.
    TrailingBytes { cmd: Cmd },
    /// The response carries the request's sequence number but another command.
    CmdMismatch { sent: Cmd, got: Cmd },
    /// A topic was passed to a request method; topics are pushed, not asked for.
    TopicCmd(Cmd),
    /// The device does not have the feature; nothing was sent.
    Unsupported(Cmd, &'static str),
}

/// Errors from the connect handshake.
#[derive(Debug)]
pub enum ConnectError {
    Transport(TransportError),
    Request(RequestError),
    /// Candidate devices were found, but none answered the handshake.
    NoResponsiveDevice { probed: usize, last: Box<ConnectError> },
    /// Firmware and host speak different protocol majors.
    VersionMismatch { firmware_major: u8, firmware_minor: u8, host_major: u8, host_max_minor: u8 },
}

impl From<TransportError> for RequestError {
    fn from(source: TransportError) -> (e: RequestError) {
        RequestError::Transport(source)
    }
}

impl vstd::std_specs::convert::FromSpecImpl<TransportError> for RequestError {
    open spec fn obeys_from_spec() -> bool {
        true
    }

    open spec fn from_spec(source: TransportError) -> RequestError {
        RequestError::Transport(source)
    }
}

impl From<TransportError> for ConnectError {
    fn from(source: TransportError) -> (e: ConnectError) {
        ConnectError::Transport(source)
    }
}

impl vstd::std_specs::convert::FromSpecImpl<TransportError> for ConnectError {
    open spec fn obeys_from_spec() -> bool {
        true
    }

    open spec fn from_spec(source: TransportError) -> ConnectError {
        ConnectError::Transport(source)
    }
}

impl From<RequestError> for ConnectError {
    fn from(source: RequestError) -> (e: ConnectError) {
        ConnectError::Request(source)
    }
}

impl vstd::std_specs::convert::FromSpecImpl<RequestError> for ConnectError {
    open spec fn obeys_from_spec() -> bool {
        true
    }

    open spec fn from_spec(source: RequestError) -> ConnectError {
        ConnectError::Request(source)
    }
}

} // verus!
