//! Error taxonomy: encoding, decoding, transport, and whole-query failures.

use vstd::prelude::*;

verus! {

/// Failure of wire encoding: a domain-name label is empty or longer than
/// 63 bytes, so it cannot be written as a single length octet.
#[derive(Debug, Clone, Copy, PartialEq, Eq, Structural)]
pub enum EncodeError {
    LabelTooLong,
}

/// Failure of wire decoding. Every variant is reachable from a malformed
/// datagram; none of them is ever a panic.
#[derive(Debug, Clone, Copy, PartialEq, Eq, Structural)]
pub enum DecodeError {
    /// A read (header field, label, fixed field, or RDATA) would pass the
    /// end of the buffer.
    Truncated,
    /// A wire integer is outside the closed set of a protocol enumeration.
    UnknownEnumValue,
    /// The encoded form of a decoded name exceeds 255 octets.
    NameTooLong,
    /// A length octet with its two high bits set introduces a compression
    /// pointer, which this codec does not interpret.
    CompressionUnsupported,
    /// The header declares more than one answer record.
    UnsupportedRecordCount,
}

/// What the transport reported instead of a response datagram.
#[derive(Debug, Clone, Copy, PartialEq, Eq, Structural)]
pub enum TransportError {
    /// No datagram arrived within the configured bounded wait.
    Timeout,
    /// Any other socket-level failure.
    Io,
}

/// Failure of a whole resolve exchange.
#[derive(Debug, Clone, Copy, PartialEq, Eq, Structural)]
pub enum QueryError {
    Io,
    Timeout,
    /// The response's identification differs from the request's.
    IdentificationMismatch,
    /// The response does not hold exactly one A answer of four data bytes.
    UnexpectedAnswer,
    Decode(DecodeError),
}

} // verus!
