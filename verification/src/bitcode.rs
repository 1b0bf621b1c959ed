//! The encoding descriptor and the four conversions between typed values and
//! transport envelopes.

use vstd::prelude::*;

use crate::error::ServerFnError;
use crate::payload::Payload;
use crate::transport::{byte_content, bytes_as_slice, bytes_from_vec, Method, Request, Response};

verus! {

/// An encoding descriptor: a stateless marker for one wire format, exposing
/// the content-type string that names the format on the wire and the one
/// transport verb its requests must use. Neither depends on the call.
pub trait Encoding {
    /// The content-type string as a specification-level value.
    spec fn spec_content_type() -> Seq<char>;

    /// The fixed transport verb as a specification-level value.
    spec fn spec_method() -> Method;

    /// The content-type string put on every envelope of this format.
    fn content_type() -> (r: &'static str)
        ensures
            r@ == Self::spec_content_type(),
    ;

    /// The transport verb put on every request of this format.
    fn method() -> (r: Method)
        ensures
            r == Self::spec_method(),
    ;
}

/// The descriptor of the binary wire format this crate ships: its envelopes
/// carry the `application/bitcode` content-type and always travel as `Post`
/// requests.
pub struct Bitcode;

impl Encoding for Bitcode {
    open spec fn spec_content_type() -> Seq<char> {
        "application/bitcode"@
    }

    open spec fn spec_method() -> Method {
        Method::Post
    }

    fn content_type() -> (r: &'static str) {
        "application/bitcode"
    }

    fn method() -> (r: Method) {
        Method::Post
    }
}

/// Outbound conversion: encodes `value` and wraps the bytes in a request
/// envelope.
///
/// On success the envelope carries the descriptor's content-type and fixed
/// verb whatever the caller passed, the path and accepts strings unchanged,
/// and as body exactly the encoder's bytes. Encoding fails on exactly the
/// values the format cannot represent, and such a failure surfaces as a
/// `Serialization` error, never as an `Args` error.
pub fn into_req<T: Payload, CustErr>(value: T, path: &str, accepts: &str) -> (r: Result<
    Request,
    ServerFnError<CustErr>,
>)
    ensures
        r matches Ok(req) ==> req.method == Bitcode::spec_method() && req.path@ == path@
            && req.accepts@ == accepts@ && req.content_type@ == Bitcode::spec_content_type()
            && byte_content(req.body) == value.encoding() && value.encodable(),
        r matches Err(e) ==> e.is_serialization() && !value.encodable(),
        value.encodable() ==> r matches Ok(_),
{
    let bytes = match value.encode() {
        Ok(b) => b,
        Err(msg) => return Err(ServerFnError::Serialization(msg)),
    };
    Request::try_new_post_bytes(path, accepts, Bitcode::content_type(), bytes_from_vec(bytes))
}

/// Inbound conversion: takes the full body out of a request envelope and
/// decodes it.
///
/// The outcome is fixed by the body bytes alone: the one value they decode
/// to, or, where the format rejects them (in particular for an empty body),
/// an `Args` error carrying the decoder's diagnostic, never a `Serialization`
/// error. Every body produced by [`into_req`] decodes back to exactly the
/// value that was encoded.
pub fn from_req<T: Payload, CustErr>(req: Request) -> (r: Result<T, ServerFnError<CustErr>>)
    ensures
        T::decoded(byte_content(req.body)) matches Some(v) ==> r == Ok::<
            T,
            ServerFnError<CustErr>,
        >(v),
        T::decoded(byte_content(req.body)) is None ==> (r matches Err(e) && e.is_args()),
        forall|v: T|
            v.encodable() && byte_content(req.body) == #[trigger] v.encoding() ==> r == Ok::<
                T,
                ServerFnError<CustErr>,
            >(v),
        byte_content(req.body).len() == 0 ==> (r matches Err(e) && e.is_args()),
{
    let body = match req.try_into_bytes() {
        Ok(b) => b,
        Err(e) => return Err(e),
    };
    match T::decode(bytes_as_slice(&body)) {
        Ok(v) => Ok(v),
        Err(msg) => Err(ServerFnError::Args(msg)),
    }
}

/// Outbound response conversion: encodes `value` and wraps the bytes in a
/// response envelope.
///
/// On success the envelope carries the descriptor's content-type and as body
/// exactly the encoder's bytes, from one canonical encoding pass. Encoding
/// fails on exactly the values the format cannot represent, and such a
/// failure surfaces as a `Serialization` error, never as an `Args` error.
pub fn into_res<T: Payload, CustErr>(value: T) -> (r: Result<Response, ServerFnError<CustErr>>)
    ensures
        r matches Ok(res) ==> res.content_type@ == Bitcode::spec_content_type()
            && byte_content(res.body) == value.encoding() && value.encodable(),
        r matches Err(e) ==> e.is_serialization() && !value.encodable(),
        value.encodable() ==> r matches Ok(_),
{
    let bytes = match value.encode() {
        Ok(b) => b,
        Err(msg) => return Err(ServerFnError::Serialization(msg)),
    };
    Response::try_from_bytes(Bitcode::content_type(), bytes_from_vec(bytes))
}

/// Inbound response conversion: takes the full body out of a response
/// envelope and decodes it, symmetrically with [`from_req`].
pub fn from_res<T: Payload, CustErr>(res: Response) -> (r: Result<T, ServerFnError<CustErr>>)
    ensures
        T::decoded(byte_content(res.body)) matches Some(v) ==> r == Ok::<
            T,
            ServerFnError<CustErr>,
        >(v),
        T::decoded(byte_content(res.body)) is None ==> (r matches Err(e) && e.is_args()),
        forall|v: T|
            v.encodable() && byte_content(res.body) == #[trigger] v.encoding() ==> r == Ok::<
                T,
                ServerFnError<CustErr>,
            >(v),
        byte_content(res.body).len() == 0 ==> (r matches Err(e) && e.is_args()),
{
    let body = match res.try_into_bytes() {
        Ok(b) => b,
        Err(e) => return Err(e),
    };
    match T::decode(bytes_as_slice(&body)) {
        Ok(v) => Ok(v),
        Err(msg) => Err(ServerFnError::Args(msg)),
    }
}

/// Round trip over the request path: for every value the format can encode,
/// converting it into a request and converting the request back yields
/// exactly the original value.
pub fn round_trip_via_request<T: Payload, CustErr>(value: T, path: &str, accepts: &str) -> (r:
    Result<T, ServerFnError<CustErr>>)
    requires
        value.encodable(),
    ensures
        r == Ok::<T, ServerFnError<CustErr>>(value),
{
    let req = match into_req::<T, CustErr>(value, path, accepts) {
        Ok(req) => req,
        Err(e) => return Err(e),
    };
    from_req(req)
}

/// Round trip over the response path: for every value the format can encode,
/// converting it into a response and converting the response back yields
/// exactly the original value.
pub fn round_trip_via_response<T: Payload, CustErr>(value: T) -> (r: Result<
    T,
    ServerFnError<CustErr>,
>)
    requires
        value.encodable(),
    ensures
        r == Ok::<T, ServerFnError<CustErr>>(value),
{
    let res = match into_res::<T, CustErr>(value) {
        Ok(res) => res,
        Err(e) => return Err(e),
    };
    from_res(res)
}

/// Decoding is repeatable: two requests whose bodies hold the same bytes
/// decode to the same value, or both fail.
pub fn from_req_twice<T: Payload, CustErr>(first: Request, second: Request) -> (r: (
    Result<T, ServerFnError<CustErr>>,
    Result<T, ServerFnError<CustErr>>,
))
    requires
        byte_content(first.body) == byte_content(second.body),
    ensures
        r.0 matches Ok(v) ==> r.1 == Ok::<T, ServerFnError<CustErr>>(v),
        r.0 matches Err(_) ==> r.1 matches Err(_),
{
    (from_req(first), from_req(second))
}

} // verus!
