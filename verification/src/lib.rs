//! Typed ICY (SHOUTcast-style) HTTP header values.
//!
//! Streaming-audio servers negotiate in-band metadata through two small
//! headers layered on top of HTTP: `Icy-MetaData`, a boolean capability
//! flag, and `icy-metaint`, the byte interval between metadata frames.
//! This crate provides the two header value types together with their
//! verified decode (raw wire occurrences to typed value) and encode
//! (typed value to canonical wire string) operations.
//!
//! The host HTTP layer is expected to hand over, per header name, the
//! ordered list of raw occurrence byte strings found on the wire, and to
//! accept a single formatted string when emitting a header. Everything
//! else (connection handling, header storage, transport I/O) is outside
//! this crate.

pub mod coercion;
pub mod headers;

pub use headers::IcyMetaData;
pub use headers::IcyMetaInt;
