//! Transport-level envelopes: the request and response objects the codec
//! layer produces and consumes, and the byte buffer they carry.

use vstd::prelude::*;

use crate::error::ServerFnError;

verus! {

/// The transport verb carried by a request envelope.
///
/// An encoding descriptor fixes one verb per wire format; it is never chosen
/// per call.
#[derive(Debug, Clone, Copy, PartialEq, Eq, Structural)]
pub enum Method {
    Get,
    Post,
}

impl Method {
    /// The verb's name on the wire.
    pub fn as_str(&self) -> (r: &'static str)
        ensures
            *self == Method::Get ==> r@ == "GET"@,
            *self == Method::Post ==> r@ == "POST"@,
    {
        match self {
            Method::Get => "GET",
            Method::Post => "POST",
        }
    }
}

#[verifier::external_type_specification]
#[verifier::external_body]
pub struct ExBytes(bytes::Bytes);

/// The bytes a shared buffer holds.
pub uninterp spec fn byte_content(b: bytes::Bytes) -> Seq<u8>;

/// Relies on `bytes::Bytes::from(Vec<u8>)`: the buffer holds exactly the
/// vector's bytes.
#[verifier::external_body]
pub(crate) fn bytes_from_vec(v: Vec<u8>) -> (b: bytes::Bytes)
    ensures
        byte_content(b) == v@,
{
    bytes::Bytes::from(v)
}

/// Relies on `<bytes::Bytes as AsRef<[u8]>>::as_ref`: the slice of exactly
/// the buffer's bytes.
#[verifier::external_body]
pub(crate) fn bytes_as_slice(b: &bytes::Bytes) -> (r: &[u8])
    ensures
        r@ == byte_content(*b),
{
    b.as_ref()
}

/// A request envelope: a path, an accepts-negotiation string, a content-type,
/// and a body. It is created once, transformed exactly once by each
/// conversion, and consumed.
pub struct Request {
    pub method: Method,
    pub path: String,
    pub accepts: String,
    pub content_type: String,
    pub body: bytes::Bytes,
}

impl Request {
    /// Builds a request envelope that carries the given body bytes under the
    /// given content-type, with the fixed `Post` verb.
    ///
    /// This in-memory transport cannot fail to build an envelope, so the
    /// result is always `Ok`; the `Result` is the shape every transport
    /// implementation shares, and a fallible one reports its failure as
    /// [`ServerFnError::Request`], which the codec passes through unchanged.
    pub fn try_new_post_bytes<CustErr>(
        path: &str,
        accepts: &str,
        content_type: &str,
        body: bytes::Bytes,
    ) -> (r: Result<Request, ServerFnError<CustErr>>)
        ensures
            r matches Ok(req) && req.method == Method::Post && req.path@ == path@
                && req.accepts@ == accepts@ && req.content_type@ == content_type@
                && byte_content(req.body) == byte_content(body),
    {
        Ok(Request {
            method: Method::Post,
            path: path.to_owned(),
            accepts: accepts.to_owned(),
            content_type: content_type.to_owned(),
            body,
        })
    }

    /// Hands out the full body as one contiguous buffer, consuming the
    /// envelope.
    ///
    /// In-memory bodies are already materialized, so this always succeeds; a
    /// streaming transport that fails mid-read reports
    /// [`ServerFnError::Request`] here instead.
    pub fn try_into_bytes<CustErr>(self) -> (r: Result<bytes::Bytes, ServerFnError<CustErr>>)
        ensures
            r matches Ok(b) && byte_content(b) == byte_content(self.body),
    {
        Ok(self.body)
    }
}

/// A response envelope: a content-type and a body.
pub struct Response {
    pub content_type: String,
    pub body: bytes::Bytes,
}

impl Response {
    /// Builds a response envelope that carries the given body bytes under the
    /// given content-type.
    ///
    /// Always `Ok` for this in-memory transport; a fallible one reports
    /// [`ServerFnError::Response`], which the codec passes through unchanged.
    pub fn try_from_bytes<CustErr>(
        content_type: &str,
        body: bytes::Bytes,
    ) -> (r: Result<Response, ServerFnError<CustErr>>)
        ensures
            r matches Ok(res) && res.content_type@ == content_type@
                && byte_content(res.body) == byte_content(body),
    {
        Ok(Response { content_type: content_type.to_owned(), body })
    }

    /// Hands out the full body as one contiguous buffer, consuming the
    /// envelope. Always succeeds for an in-memory body.
    pub fn try_into_bytes<CustErr>(self) -> (r: Result<bytes::Bytes, ServerFnError<CustErr>>)
        ensures
            r matches Ok(b) && byte_content(b) == byte_content(self.body),
    {
        Ok(self.body)
    }
}

} // verus!
