//! A verified DNS message codec with a single-exchange resolver core.
//!
//! The library encodes and decodes DNS datagrams: the packed 16-bit flag
//! word, the 12-byte header, the length-prefixed domain-name labels of the
//! question section, and an optional single answer record. All parsing is
//! bounds-checked and total: malformed input yields a typed error, never a
//! panic or an out-of-range read. The query module builds a standard A-record
//! query and interprets the response of one request/response exchange; the
//! transport itself (sockets, timeouts) is left to the caller.

pub mod errors;
pub mod fields;
pub mod flags;
pub mod message;
pub mod name;
pub mod query;
pub mod wire;
