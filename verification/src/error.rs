//! Error model: connection failures, malformed wire data, and operations
//! not available at the negotiated protocol version.

use vstd::prelude::*;

verus! {

/// What exactly was wrong with received or outgoing wire data.
///
/// Each variant carries the values needed to describe what was expected
/// versus what was found; rendering a human-readable message is left to
/// unverified callers.
#[derive(Debug, Clone, PartialEq, Eq)]
pub enum ProtocolErrorKind {
    /// A packet header did not start with the `ORGB` magic bytes.
    BadMagic,
    /// A response header was addressed to a different device than the request.
    UnexpectedDeviceId { expected: u32, got: u32 },
    /// A response header carried a different packet type than the request.
    UnexpectedPacketId { expected: u32, got: u32 },
    /// Fewer bytes were available than a decode step needed.
    ShortRead,
    /// A decoded string was not valid UTF-8.
    InvalidUtf8,
    /// A packet-type id outside the known enumeration.
    UnknownPacketId { value: u32 },
    /// A zone-type discriminant outside the known enumeration.
    UnknownZoneType { value: u32 },
    /// A color-mode discriminant outside the known enumeration.
    UnknownColorMode { value: u32 },
    /// A direction discriminant outside the known enumeration.
    UnknownDirection { value: u32 },
    /// A mode-flag word with bits outside the declared flag universe.
    UnknownModeFlags { value: u32 },
    /// A value too large for its length prefix (`u16` counts, `u32` payload sizes).
    Oversize,
    /// Segment data appears on the wire only from protocol version 4 on.
    SegmentsUnsupported { version: u32 },
}

/// Error surfaced by every operation of this crate.
#[derive(Debug, Clone, PartialEq, Eq)]
pub enum OpenRgbError {
    /// The transport could not be established; carries the target address
    /// and a description of the underlying cause.
    ConnectionError { addr: String, cause: String },
    /// Malformed or unexpected bytes on the wire.
    ProtocolError(ProtocolErrorKind),
    /// The requested feature needs a higher protocol version than negotiated.
    UnsupportedOperation {
        operation: String,
        current_protocol_version: u32,
        min_protocol_version: u32,
    },
}

} // verus!
