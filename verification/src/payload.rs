//! Serializable payloads: the values the codec can put on the wire, and the
//! format's encoder and decoder for each of them.
//!
//! The byte-level encoding itself is the business of an outside library; this
//! module pins down how the codec may rely on it. A payload type names its
//! wire encoding as an abstract byte sequence, and the decoder is a partial
//! inverse: on exactly the encodings it returns the encoded value, and on any
//! other byte sequence it returns the one value those bytes decode to, or
//! fails.

use vstd::prelude::*;

verus! {

/// A value the wire format can carry.
///
/// `encoding` is the byte sequence the format's encoder produces for the
/// value, and `decoded` is what the format's decoder makes of an arbitrary
/// byte sequence: a single value or a failure, fixed by the bytes alone.
/// Together the contracts of `encode` and `decode` say that decoding is total
/// over everything the encoder produces and gives back exactly the encoded
/// value, that an encode failure happens on exactly the values the format
/// cannot represent, and that the empty byte sequence is never a valid
/// encoding.
pub trait Payload: Sized {
    /// The format's byte encoding of this value.
    spec fn encoding(self) -> Seq<u8>;

    /// Whether the format can represent this value at all.
    spec fn encodable(self) -> bool;

    /// What the format's decoder makes of a byte sequence: the one value it
    /// decodes to, or `None` where it rejects the bytes.
    spec fn decoded(b: Seq<u8>) -> Option<Self>;

    /// Encodes the value into the format's bytes; fails with the encoder's
    /// diagnostic on exactly the values the format cannot represent.
    fn encode(&self) -> (r: Result<Vec<u8>, String>)
        ensures
            self.encodable() <==> r matches Ok(_),
            r matches Ok(b) ==> b@ == self.encoding(),
    ;

    /// Decodes one value from the given bytes; fails with the decoder's
    /// diagnostic where the format rejects the bytes.
    /// The outcome is the one value `decoded` fixes for those bytes, or a
    /// failure where `decoded` fixes none; every encoding of an encodable
    /// value decodes back to exactly that value; and the empty byte sequence
    /// never decodes.
    fn decode(b: &[u8]) -> (r: Result<Self, String>)
        ensures
            Self::decoded(b@) matches Some(v) ==> r == Ok::<Self, String>(v),
            Self::decoded(b@) is None ==> r matches Err(_),
            forall|v: Self| v.encodable() && b@ == #[trigger] v.encoding()
                ==> r == Ok::<Self, String>(v),
            b@.len() == 0 ==> r matches Err(_),
    ;
}

/// A pair of signed coordinates: the demonstration payload of this crate.
#[derive(Debug, Clone, Copy, PartialEq, Eq, Structural)]
pub struct Point {
    pub x: i64,
    pub y: i64,
}

/// The wire format's byte encoding of a point.
pub uninterp spec fn point_encoding(x: i64, y: i64) -> Seq<u8>;

/// What the wire format's decoder makes of a byte sequence offered as a
/// point: the one pair of coordinates it holds, or `None`.
pub uninterp spec fn point_decoded(b: Seq<u8>) -> Option<(i64, i64)>;

/// Everything the format's decoder guarantees for a point read from the byte
/// sequence `b` with outcome `r`: the outcome is fixed by the bytes alone,
/// every encoding of a pair decodes back to exactly that pair, and the empty
/// byte sequence never decodes.
pub open spec fn point_decode_post(b: Seq<u8>, r: Result<(i64, i64), String>) -> bool {
    &&& (point_decoded(b) matches Some(p) ==> r == Ok::<(i64, i64), String>(p))
    &&& (point_decoded(b) is None ==> r matches Err(_))
    &&& (forall|x: i64, y: i64| b == #[trigger] point_encoding(x, y)
        ==> r == Ok::<(i64, i64), String>((x, y)))
    &&& (b.len() == 0 ==> r matches Err(_))
}

/// Relies on `ciborium::ser::into_writer`: writing a pair of integers into a
/// `Vec<u8>` cannot fail (the vector's writer is infallible and integer
/// serialization reports no value errors), appends exactly the pair's CBOR
/// encoding, and that encoding is fixed by the two integers alone.
#[verifier::external_body]
fn cbor_encode_point(x: i64, y: i64) -> (r: Vec<u8>)
    ensures
        r@ == point_encoding(x, y),
{
    let mut buf: Vec<u8> = Vec::new();
    let _ = ciborium::ser::into_writer(&(x, y), &mut buf);
    buf
}

/// Relies on `ciborium::de::from_reader`: reading from a byte slice is a
/// function of the bytes alone; it returns exactly the pair a well-formed
/// encoding holds, in particular the pair `into_writer` encoded; it rejects
/// empty input (there is no header byte to read) and every byte sequence
/// that does not hold a CBOR array of two integers.
#[verifier::external_body]
fn cbor_decode_point(b: &[u8]) -> (r: Result<(i64, i64), String>)
    ensures
        point_decode_post(b@, r),
        point_decoded(b@) is None ==> r matches Err(_),
{
    ciborium::de::from_reader::<(i64, i64), &[u8]>(b).map_err(|e| e.to_string())
}

impl Payload for Point {
    open spec fn encoding(self) -> Seq<u8> {
        point_encoding(self.x, self.y)
    }

    open spec fn encodable(self) -> bool {
        true
    }

    open spec fn decoded(b: Seq<u8>) -> Option<Point> {
        match point_decoded(b) {
            Some(p) => Some(Point { x: p.0, y: p.1 }),
            None => None,
        }
    }

    fn encode(&self) -> (r: Result<Vec<u8>, String>) {
        Ok(cbor_encode_point(self.x, self.y))
    }

    fn decode(b: &[u8]) -> (r: Result<Point, String>) {
        match cbor_decode_point(b) {
            Ok(p) => Ok(Point { x: p.0, y: p.1 }),
            Err(e) => Err(e),
        }
    }
}

/// A candidate Unicode code point, carried on the wire as a one-character
/// text string.
///
/// Not every `u32` is a code point the format can carry: the surrogate range
/// and everything above the Unicode maximum cannot be written as text, so
/// encoding such a value fails. This is the payload on which the encoder's
/// failure path is reachable.
#[derive(Debug, Clone, Copy, PartialEq, Eq, Structural)]
pub struct Codepoint(pub u32);

/// Whether a `u32` is a Unicode scalar value: anything below the surrogate
/// range, or between the surrogate range and the Unicode maximum.
pub open spec fn is_scalar_value(code: u32) -> bool {
    code < 0xD800 || (0xE000 <= code && code <= 0x10FFFF)
}

/// What `char::from_u32(code)` returns: a character exactly when `code` is a
/// Unicode scalar value, and then the character with that code.
pub open spec fn from_u32_post(code: u32, r: Option<char>) -> bool {
    &&& (r is Some <==> is_scalar_value(code))
    &&& (r matches Some(c) ==> c as u32 == code)
}

/// Relies on `char::from_u32`: it returns `Some` exactly for the code points
/// `char` can hold, the Unicode scalar values, and then the character whose
/// code was given.
pub assume_specification[ char::from_u32 ](code: u32) -> (r: Option<char>)
    ensures
        from_u32_post(code, r),
;

/// The wire format's byte encoding of a scalar value, as a one-character
/// text string.
pub uninterp spec fn codepoint_encoding(code: u32) -> Seq<u8>;

/// What the wire format's decoder makes of a byte sequence offered as a
/// character: the code of the one character it holds, or `None`.
pub uninterp spec fn codepoint_decoded(b: Seq<u8>) -> Option<u32>;

/// Everything the format's decoder guarantees for a character read from the
/// byte sequence `b` with outcome `r`: the outcome is fixed by the bytes
/// alone, every encoding of a scalar value decodes back to exactly that
/// value, a decoded code is always a scalar value, and the empty byte
/// sequence never decodes.
pub open spec fn codepoint_decode_post(b: Seq<u8>, r: Result<u32, String>) -> bool {
    &&& (codepoint_decoded(b) matches Some(code) ==> r == Ok::<u32, String>(code))
    &&& (codepoint_decoded(b) is None ==> r matches Err(_))
    &&& (forall|code: u32| is_scalar_value(code) && b == #[trigger] codepoint_encoding(code)
        ==> r == Ok::<u32, String>(code))
    &&& (r matches Ok(code) ==> is_scalar_value(code))
    &&& (b.len() == 0 ==> r matches Err(_))
}

/// Relies on `ciborium::ser::into_writer`: writing a character into a
/// `Vec<u8>` cannot fail (the vector's writer is infallible and text
/// serialization reports no value errors), appends exactly the CBOR encoding
/// of the one-character text string, and that encoding is fixed by the
/// character alone.
#[verifier::external_body]
fn cbor_encode_char(c: char) -> (r: Vec<u8>)
    ensures
        r@ == codepoint_encoding(c as u32),
{
    let mut buf: Vec<u8> = Vec::new();
    let _ = ciborium::ser::into_writer(&c, &mut buf);
    buf
}

/// Relies on `ciborium::de::from_reader`: reading from a byte slice is a
/// function of the bytes alone; it returns exactly the character a
/// well-formed one-character text encoding holds, in particular the one
/// `into_writer` encoded; it rejects empty input and every byte sequence
/// that does not hold a one-character CBOR text string.
#[verifier::external_body]
fn cbor_decode_char(b: &[u8]) -> (r: Result<u32, String>)
    ensures
        codepoint_decode_post(b@, r),
        codepoint_decoded(b@) is None ==> r matches Err(_),
{
    match ciborium::de::from_reader::<char, &[u8]>(b) {
        Ok(c) => Ok(c as u32),
        Err(e) => Err(e.to_string()),
    }
}

impl Payload for Codepoint {
    open spec fn encoding(self) -> Seq<u8> {
        codepoint_encoding(self.0)
    }

    open spec fn encodable(self) -> bool {
        is_scalar_value(self.0)
    }

    open spec fn decoded(b: Seq<u8>) -> Option<Codepoint> {
        match codepoint_decoded(b) {
            Some(code) => Some(Codepoint(code)),
            None => None,
        }
    }

    fn encode(&self) -> (r: Result<Vec<u8>, String>) {
        match char::from_u32(self.0) {
            Some(c) => Ok(cbor_encode_char(c)),
            None => Err("code point is not a unicode scalar value".to_owned()),
        }
    }

    fn decode(b: &[u8]) -> (r: Result<Codepoint, String>) {
        match cbor_decode_char(b) {
            Ok(code) => Ok(Codepoint(code)),
            Err(e) => Err(e),
        }
    }
}

} // verus!
