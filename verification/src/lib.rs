//! A pluggable codec layer for a remote-procedure-call transport.
//!
//! A caller holds a typed value, picks an encoding descriptor, and turns the
//! value into a request envelope whose body is the format's byte encoding and
//! whose content-type names the format on the wire. The receiving side turns
//! the envelope back into the value. The same pair of conversions exists for
//! responses. Encode failures and decode failures are classified into two
//! distinct error kinds, and transport failures pass through unchanged.

pub mod bitcode;
pub mod error;
pub mod payload;
pub mod transport;
