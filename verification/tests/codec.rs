use server_fn_codec::bitcode::{
    from_req, from_res, from_req_twice, into_req, into_res, round_trip_via_request,
    round_trip_via_response, Bitcode, Encoding,
};
use server_fn_codec::error::ServerFnError;
use server_fn_codec::payload::{Codepoint, Point};
use server_fn_codec::transport::{Method, Request, Response};

type CodecError = ServerFnError<()>;

#[test]
fn point_round_trips_through_a_request() {
    let p = Point { x: 1, y: 2 };
    let req = into_req::<Point, ()>(p, "/add", "application/octet-stream").unwrap();
    let back: Point = from_req::<Point, ()>(req).unwrap();
    assert_eq!(back, Point { x: 1, y: 2 });
}

#[test]
fn point_round_trips_through_a_response() {
    let p = Point { x: -7, y: i64::MAX };
    let res = into_res::<Point, ()>(p).unwrap();
    let back: Point = from_res::<Point, ()>(res).unwrap();
    assert_eq!(back, p);
}

#[test]
fn codepoint_round_trips_both_ways() {
    let c = Codepoint(0x2603);
    let req = into_req::<Codepoint, ()>(c, "/char", "*/*").unwrap();
    assert_eq!(from_req::<Codepoint, ()>(req).unwrap(), c);
    let res = into_res::<Codepoint, ()>(c).unwrap();
    assert_eq!(from_res::<Codepoint, ()>(res).unwrap(), c);
}

#[test]
fn round_trip_helpers_return_the_value() {
    let p = Point { x: 3, y: -4 };
    assert_eq!(
        round_trip_via_request::<Point, ()>(p, "/add", "*/*").unwrap(),
        p
    );
    assert_eq!(round_trip_via_response::<Point, ()>(p).unwrap(), p);
}

#[test]
fn request_carries_the_descriptor_content_type_verbatim() {
    let req = into_req::<Point, ()>(Point { x: 1, y: 2 }, "/add", "*/*").unwrap();
    assert_eq!(req.content_type, Bitcode::content_type());
    assert_eq!(req.content_type, "application/bitcode");
}

#[test]
fn response_carries_the_descriptor_content_type_verbatim() {
    let res = into_res::<Point, ()>(Point { x: 1, y: 2 }).unwrap();
    assert_eq!(res.content_type, Bitcode::content_type());
    assert_eq!(res.content_type, "application/bitcode");
}

#[test]
fn request_method_is_post_whatever_the_caller_passes() {
    let a = into_req::<Point, ()>(Point { x: 0, y: 0 }, "", "").unwrap();
    let b = into_req::<Point, ()>(Point { x: 5, y: 6 }, "/get", "text/plain").unwrap();
    assert_eq!(a.method, Method::Post);
    assert_eq!(b.method, Method::Post);
    assert_eq!(Bitcode::method(), Method::Post);
    assert_eq!(a.method.as_str(), http::Method::POST.as_str());
}

#[test]
fn request_keeps_path_and_accepts_unchanged() {
    let req = into_req::<Point, ()>(Point { x: 1, y: 2 }, "/add", "application/octet-stream")
        .unwrap();
    assert_eq!(req.path, "/add");
    assert_eq!(req.accepts, "application/octet-stream");
}

#[test]
fn body_is_the_raw_encoding_with_no_framing() {
    // A pair of small integers is a two-element CBOR array: 0x82, then the
    // two integers themselves.
    let req = into_req::<Point, ()>(Point { x: 1, y: 2 }, "/add", "*/*").unwrap();
    assert_eq!(req.body.as_ref(), &[0x82, 0x01, 0x02]);

    // And it is byte-for-byte what the format library itself writes.
    let mut direct: Vec<u8> = Vec::new();
    ciborium::ser::into_writer(&(1i64, 2i64), &mut direct).unwrap();
    assert_eq!(req.body.as_ref(), direct.as_slice());
}

#[test]
fn handwritten_encoding_decodes_to_the_point() {
    // Bytes never touched by the outbound conversion decode all the same:
    // array-of-two header, then 1 and 2.
    let req = Request::try_new_post_bytes::<()>(
        "/add",
        "*/*",
        Bitcode::content_type(),
        bytes::Bytes::from(vec![0x82u8, 0x01, 0x02]),
    )
    .unwrap();
    assert_eq!(from_req::<Point, ()>(req).unwrap(), Point { x: 1, y: 2 });
}

#[test]
fn codepoint_body_is_a_one_character_text_string() {
    // 0x61 is the header of a one-byte text string; 0x41 is "A".
    let res = into_res::<Codepoint, ()>(Codepoint(0x41)).unwrap();
    assert_eq!(res.body.as_ref(), &[0x61, 0x41]);
}

#[test]
fn garbage_bytes_decode_to_an_args_error() {
    let req = Request::try_new_post_bytes::<()>(
        "/add",
        "*/*",
        Bitcode::content_type(),
        bytes::Bytes::from(vec![0xffu8, 0x00, 0xab]),
    )
    .unwrap();
    let r: Result<Point, CodecError> = from_req(req);
    assert!(matches!(r, Err(ServerFnError::Args(_))));
}

#[test]
fn truncated_encoding_decodes_to_an_args_error() {
    let p = Point { x: 300, y: -300 };
    let req = into_req::<Point, ()>(p, "/add", "*/*").unwrap();
    let mut bytes = req.body.as_ref().to_vec();
    bytes.pop();
    let truncated = Request::try_new_post_bytes::<()>(
        "/add",
        "*/*",
        Bitcode::content_type(),
        bytes::Bytes::from(bytes),
    )
    .unwrap();
    let r: Result<Point, CodecError> = from_req(truncated);
    assert!(matches!(r, Err(ServerFnError::Args(_))));
}

#[test]
fn wrong_shape_decodes_to_an_args_error() {
    // A well-formed encoding of the wrong payload is still rejected: one
    // character is not a pair of integers.
    let res = into_res::<Codepoint, ()>(Codepoint(65)).unwrap();
    let r: Result<Point, CodecError> = from_res(res);
    assert!(matches!(r, Err(ServerFnError::Args(_))));
}

#[test]
fn empty_body_decodes_to_an_args_error() {
    let req = Request::try_new_post_bytes::<()>(
        "/add",
        "*/*",
        Bitcode::content_type(),
        bytes::Bytes::new(),
    )
    .unwrap();
    let r: Result<Point, CodecError> = from_req(req);
    assert!(matches!(r, Err(ServerFnError::Args(_))));

    let res = Response::try_from_bytes::<()>(Bitcode::content_type(), bytes::Bytes::new())
        .unwrap();
    let r: Result<Point, CodecError> = from_res(res);
    assert!(matches!(r, Err(ServerFnError::Args(_))));
}

#[test]
fn unencodable_value_gives_a_serialization_error() {
    // 0xD800 opens the surrogate range: no character has that code, so the
    // format cannot write it as text.
    let r = into_req::<Codepoint, ()>(Codepoint(0xD800), "/char", "*/*");
    assert!(matches!(r, Err(ServerFnError::Serialization(_))));
    let r = into_res::<Codepoint, ()>(Codepoint(0x110000));
    assert!(matches!(r, Err(ServerFnError::Serialization(_))));
}

#[test]
fn encodable_values_never_give_an_error() {
    assert!(into_req::<Codepoint, ()>(Codepoint(0xD7FF), "/char", "*/*").is_ok());
    assert!(into_res::<Codepoint, ()>(Codepoint(0x10FFFF)).is_ok());
    assert!(into_req::<Point, ()>(Point { x: i64::MIN, y: i64::MAX }, "", "").is_ok());
}

#[test]
fn decoding_the_same_buffer_twice_agrees() {
    let p = Point { x: 11, y: -12 };
    let encoded = into_req::<Point, ()>(p, "/add", "*/*").unwrap();
    let body = encoded.body.as_ref().to_vec();
    let first = Request::try_new_post_bytes::<()>(
        "/add",
        "*/*",
        Bitcode::content_type(),
        bytes::Bytes::from(body.clone()),
    )
    .unwrap();
    let second = Request::try_new_post_bytes::<()>(
        "/add",
        "*/*",
        Bitcode::content_type(),
        bytes::Bytes::from(body),
    )
    .unwrap();
    let (a, b): (Result<Point, CodecError>, Result<Point, CodecError>) = from_req_twice(first, second);
    assert_eq!(a.unwrap(), p);
    assert_eq!(b.unwrap(), p);
}

#[test]
fn scenario_point_one_two() {
    // Encoding {x: 1, y: 2} to "/add" accepting "application/octet-stream"
    // tags the request with the descriptor's constant, and the body feeds
    // back through the inbound conversion to an equal value.
    let req = into_req::<Point, ()>(Point { x: 1, y: 2 }, "/add", "application/octet-stream")
        .unwrap();
    assert_eq!(req.content_type, Bitcode::content_type());
    let back: Point = from_req::<Point, ()>(req).unwrap();
    assert_eq!(back.x, 1);
    assert_eq!(back.y, 2);
}

#[test]
fn transport_factories_do_not_fail_in_memory() {
    let req: Result<Request, CodecError> =
        Request::try_new_post_bytes("/p", "*/*", "text/plain", bytes::Bytes::from(vec![1u8, 2]));
    let body = req.unwrap().try_into_bytes::<()>().unwrap();
    assert_eq!(body.as_ref(), &[1, 2]);

    let res: Result<Response, CodecError> = Response::try_from_bytes("text/plain", bytes::Bytes::from(vec![3u8]));
    let body = res.unwrap().try_into_bytes::<()>().unwrap();
    assert_eq!(body.as_ref(), &[3]);
}

#[test]
fn wrapped_and_transport_error_kinds_are_distinct() {
    let kinds: Vec<ServerFnError<()>> = vec![
        ServerFnError::WrappedServerError(()),
        ServerFnError::Request(String::from("connection reset")),
        ServerFnError::Response(String::from("read timed out")),
        ServerFnError::Serialization(String::from("s")),
        ServerFnError::Args(String::from("a")),
    ];
    for (i, a) in kinds.iter().enumerate() {
        for (j, b) in kinds.iter().enumerate() {
            assert_eq!(a == b, i == j);
        }
    }
}
