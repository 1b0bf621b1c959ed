//! The error taxonomy of the codec layer.

use vstd::prelude::*;

verus! {

/// Every failure a conversion can surface, parameterized by an
/// application-supplied custom error payload.
///
/// The codec layer itself produces exactly two of these kinds:
/// [`ServerFnError::Serialization`] when encoding an outbound value fails, and
/// [`ServerFnError::Args`] when decoding an inbound byte sequence fails. The
/// remaining kinds carry transport-level failures through unchanged; the codec
/// never reclassifies them.
#[derive(Debug, Clone, PartialEq, Eq)]
pub enum ServerFnError<CustErr> {
    /// An application-defined error raised by the server function itself.
    WrappedServerError(CustErr),
    /// The transport could not build or send a request.
    Request(String),
    /// The transport could not build or receive a response.
    Response(String),
    /// Encoding an outbound value failed; holds the encoder's diagnostic.
    Serialization(String),
    /// Decoding an inbound byte sequence failed; holds the decoder's
    /// diagnostic.
    Args(String),
}

impl<CustErr> ServerFnError<CustErr> {
    /// True of exactly the decode-side failures.
    pub open spec fn is_args(self) -> bool {
        self matches ServerFnError::Args(_)
    }

    /// True of exactly the encode-side failures.
    pub open spec fn is_serialization(self) -> bool {
        self matches ServerFnError::Serialization(_)
    }
}

} // verus!
