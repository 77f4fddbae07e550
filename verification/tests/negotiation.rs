use axum::http::{HeaderMap, HeaderValue};
use axum_connect::error::RpcErrorCode;
use axum_connect::handler::codec::{
    accepted, check_headers, decode_check_headers, negotiate, validate, version_supported,
    ReqResInto, WireEncoding,
};
use axum_connect::headers::{header, header_text};
use axum_connect::media::{normalize, to_lower};
use axum_connect::response::ContentType;

fn chars(s: &str) -> Vec<char> {
    s.chars().collect()
}

fn text(v: &[char]) -> String {
    v.iter().collect()
}

fn headers(pairs: &[(&'static str, &'static str)]) -> HeaderMap {
    let mut map = HeaderMap::new();
    for (name, value) in pairs {
        map.append(*name, HeaderValue::from_static(value));
    }
    map
}

fn envelope_of(json: &str) -> Vec<u8> {
    let mut body = vec![2u8];
    body.extend_from_slice(&(json.len() as u32).to_be_bytes());
    body.extend_from_slice(json.as_bytes());
    body
}

#[test]
fn header_text_of_visible_ascii() {
    assert_eq!(text(&header_text(&b"application/json; charset=utf-8".to_vec())), "application/json; charset=utf-8");
    assert_eq!(text(&header_text(&b"a\tb ~".to_vec())), "a\tb ~");
    assert_eq!(header_text(&vec![]), Vec::<char>::new());
}

#[test]
fn header_text_of_other_bytes_is_empty() {
    assert_eq!(header_text(&b"application/json\xff".to_vec()), Vec::<char>::new());
    assert_eq!(header_text(&vec![0x7f]), Vec::<char>::new());
    assert_eq!(header_text(&vec![b'a', 0x1f, b'b']), Vec::<char>::new());
    assert_eq!(header_text(&"é".as_bytes().to_vec()), Vec::<char>::new());
}

#[test]
fn header_text_agrees_with_to_str() {
    for value in [&b"text/plain"[..], &b"\xe2\x82\xac"[..], &b" padded "[..], &b"tab\there"[..], &b""[..]] {
        let parsed = HeaderValue::from_bytes(value).unwrap();
        let expected = parsed.to_str().unwrap_or_default().to_string();
        assert_eq!(text(&header_text(&value.to_vec())), expected);
    }
}

#[test]
fn header_lookup_finds_first_value() {
    let map = headers(&[("x-one", "first"), ("x-one", "second"), ("x-two", "other")]);
    assert_eq!(header(&map, "x-one").map(|v| text(&v)), Some("first".to_string()));
    assert_eq!(header(&map, "x-two").map(|v| text(&v)), Some("other".to_string()));
    assert_eq!(header(&map, "x-three"), None);
}

#[test]
fn header_lookup_of_opaque_value_is_empty_text() {
    let mut map = HeaderMap::new();
    map.insert("content-type", HeaderValue::from_bytes(b"application/json\x80").unwrap());
    assert_eq!(header(&map, "content-type"), Some(vec![]));
}

#[test]
fn to_lower_folds_ascii_capitals_only() {
    assert_eq!(to_lower('A'), 'a');
    assert_eq!(to_lower('Z'), 'z');
    assert_eq!(to_lower('M'), 'm');
    assert_eq!(to_lower('a'), 'a');
    assert_eq!(to_lower('@'), '@');
    assert_eq!(to_lower('['), '[');
    assert_eq!(to_lower('+'), '+');
    assert_eq!(to_lower('/'), '/');
}

#[test]
fn normalize_lowers_cuts_and_trims() {
    assert_eq!(text(&normalize(&chars("application/json"))), "application/json");
    assert_eq!(text(&normalize(&chars("Application/JSON"))), "application/json");
    assert_eq!(text(&normalize(&chars("application/json; charset=utf-8"))), "application/json");
    assert_eq!(text(&normalize(&chars("  application/proto \t;q=1;r=2"))), "application/proto");
    assert_eq!(text(&normalize(&chars("\tAPPLICATION/Connect+Proto\t"))), "application/connect+proto");
    assert_eq!(text(&normalize(&chars("text/ plain"))), "text/ plain");
}

#[test]
fn normalize_edge_cases() {
    assert_eq!(text(&normalize(&chars(""))), "");
    assert_eq!(text(&normalize(&chars(";application/json"))), "");
    assert_eq!(text(&normalize(&chars("   "))), "");
    assert_eq!(text(&normalize(&chars(" \t ; x"))), "");
    assert_eq!(text(&normalize(&chars("a"))), "a");
    assert_eq!(text(&normalize(&chars(" a;"))), "a");
}

#[test]
fn normalize_agrees_with_std_on_header_text() {
    for raw in ["Application/Json ; a=b", "  X  ", "a;b;c", "", "\tq\t;", "TEXT/HTML;;", "A B\tC"] {
        let lowered = raw.to_lowercase();
        let expected = lowered.split(';').next().unwrap_or_default().trim();
        assert_eq!(text(&normalize(&chars(raw))), expected);
    }
}

#[test]
fn normalize_is_idempotent() {
    for raw in ["Application/Json ; a=b", "  X  ", "a;b;c", "", "\tq\t;"] {
        let once = normalize(&chars(raw));
        assert_eq!(normalize(&once), once);
    }
}

#[test]
fn four_pairs_are_accepted() {
    assert_eq!(accepted(&chars("application/json"), false), Some(WireEncoding::Json));
    assert_eq!(accepted(&chars("application/proto"), false), Some(WireEncoding::Binary));
    assert_eq!(accepted(&chars("application/connect+json"), true), Some(WireEncoding::Json));
    assert_eq!(accepted(&chars("application/connect+proto"), true), Some(WireEncoding::Binary));
}

#[test]
fn other_pairs_are_not_accepted() {
    assert_eq!(accepted(&chars("application/json"), true), None);
    assert_eq!(accepted(&chars("application/proto"), true), None);
    assert_eq!(accepted(&chars("application/connect+json"), false), None);
    assert_eq!(accepted(&chars("application/connect+proto"), false), None);
    for for_streaming in [false, true] {
        assert_eq!(accepted(&chars(""), for_streaming), None);
        assert_eq!(accepted(&chars("application/xml"), for_streaming), None);
        assert_eq!(accepted(&chars("application/jso"), for_streaming), None);
        assert_eq!(accepted(&chars("application/jsonx"), for_streaming), None);
        assert_eq!(accepted(&chars("Application/json"), for_streaming), None);
        assert_eq!(accepted(&chars("application/grpc"), for_streaming), None);
    }
}

#[test]
fn version_header_must_be_one() {
    assert!(version_supported(&None));
    assert!(version_supported(&Some(chars("1"))));
    assert!(!version_supported(&Some(chars("2"))));
    assert!(!version_supported(&Some(chars(""))));
    assert!(!version_supported(&Some(chars("1 "))));
    assert!(!version_supported(&Some(chars("11"))));
    assert!(!version_supported(&Some(chars("01"))));
}

#[test]
fn negotiate_accepts() {
    assert_eq!(negotiate(&None, &Some(chars("application/json")), false), Ok(WireEncoding::Json));
    assert_eq!(
        negotiate(&Some(chars("1")), &Some(chars("Application/Proto; x=y")), false),
        Ok(WireEncoding::Binary)
    );
    assert_eq!(
        negotiate(&None, &Some(chars(" application/connect+json ")), true),
        Ok(WireEncoding::Json)
    );
    assert_eq!(
        negotiate(&Some(chars("1")), &Some(chars("application/connect+proto")), true),
        Ok(WireEncoding::Binary)
    );
}

#[test]
fn negotiate_refuses_version_first() {
    let e = negotiate(&Some(chars("2")), &None, false).unwrap_err();
    assert_eq!(e.code, RpcErrorCode::InvalidArgument);
    assert_eq!(e.message, "Unsupported protocol version: 2");
    let e = negotiate(&Some(chars("v1")), &Some(chars("application/json")), false).unwrap_err();
    assert_eq!(e.message, "Unsupported protocol version: v1");
    let e = negotiate(&Some(chars("")), &Some(chars("application/json")), false).unwrap_err();
    assert_eq!(e.message, "Unsupported protocol version: ");
}

#[test]
fn negotiate_refuses_missing_content_type() {
    for for_streaming in [false, true] {
        let e = negotiate(&Some(chars("1")), &None, for_streaming).unwrap_err();
        assert_eq!(e.code, RpcErrorCode::InvalidArgument);
        assert_eq!(e.message, "Missing Content-Type header");
    }
}

#[test]
fn negotiate_refuses_other_content_types() {
    let e = negotiate(&None, &Some(chars("Application/XML; charset=x")), false).unwrap_err();
    assert_eq!(e.code, RpcErrorCode::InvalidArgument);
    assert_eq!(e.message, "Wrong or unknown Content-Type: application/xml");
    let e = negotiate(&None, &Some(chars("application/json")), true).unwrap_err();
    assert_eq!(e.message, "Wrong or unknown Content-Type: application/json");
    let e = negotiate(&None, &Some(chars("application/connect+proto")), false).unwrap_err();
    assert_eq!(e.message, "Wrong or unknown Content-Type: application/connect+proto");
    let e = negotiate(&None, &Some(chars("")), false).unwrap_err();
    assert_eq!(e.message, "Wrong or unknown Content-Type: ");
}

#[test]
fn validate_reads_the_headers() {
    let map = headers(&[("content-type", "application/proto")]);
    assert_eq!(validate(&map, false), Ok(WireEncoding::Binary));
    let map = headers(&[("connect-protocol-version", "1"), ("content-type", "application/connect+json")]);
    assert_eq!(validate(&map, true), Ok(WireEncoding::Json));
    let map = headers(&[("connect-protocol-version", "3"), ("content-type", "application/json")]);
    let e = validate(&map, false).unwrap_err();
    assert_eq!(e.code, RpcErrorCode::InvalidArgument);
    assert_eq!(e.message, "Unsupported protocol version: 3");
    let e = validate(&HeaderMap::new(), false).unwrap_err();
    assert_eq!(e.message, "Missing Content-Type header");
}

#[test]
fn validate_finds_headers_whatever_their_case() {
    let mut map = HeaderMap::new();
    let name: axum::http::HeaderName = "Content-Type".parse().unwrap();
    map.insert(name, HeaderValue::from_static("APPLICATION/JSON;charset=utf-8"));
    assert_eq!(validate(&map, false), Ok(WireEncoding::Json));
}

#[test]
fn validate_uses_the_first_content_type() {
    let map = headers(&[("content-type", "application/json"), ("content-type", "application/proto")]);
    assert_eq!(validate(&map, false), Ok(WireEncoding::Json));
}

#[test]
fn validate_refuses_every_pair_but_four() {
    let media = [
        "application/json",
        "application/proto",
        "application/connect+json",
        "application/connect+proto",
        "application/xml",
        "text/plain",
        "application/grpc",
        "",
        "json",
    ];
    for value in media {
        for for_streaming in [false, true] {
            let map = headers(&[("content-type", value)]);
            let outcome = validate(&map, for_streaming);
            let expected = match (value, for_streaming) {
                ("application/json", false) => Some(WireEncoding::Json),
                ("application/proto", false) => Some(WireEncoding::Binary),
                ("application/connect+json", true) => Some(WireEncoding::Json),
                ("application/connect+proto", true) => Some(WireEncoding::Binary),
                _ => None,
            };
            match expected {
                Some(encoding) => assert_eq!(outcome, Ok(encoding)),
                None => {
                    let e = outcome.unwrap_err();
                    assert_eq!(e.code, RpcErrorCode::InvalidArgument);
                    assert_eq!(e.message, format!("Wrong or unknown Content-Type: {}", value));
                    if !for_streaming {
                        let r = decode_check_headers(&map, false).unwrap_err();
                        assert_eq!(r.status, 400);
                    }
                }
            }
        }
    }
}

#[test]
fn check_headers_on_plain_text() {
    assert_eq!(
        check_headers(&None, &Some(chars("application/json")), false),
        Ok(ReqResInto { binary: false })
    );
    assert_eq!(
        check_headers(&Some(chars("1")), &Some(chars("application/connect+proto")), true),
        Ok(ReqResInto { binary: true })
    );
    let r = check_headers(&Some(chars("9")), &None, false).unwrap_err();
    assert_eq!(r.status, 400);
    assert_eq!(
        r.body,
        br#"{"code":"invalid_argument","message":"Unsupported protocol version: 9"}"#.to_vec()
    );
    let r = check_headers(&None, &None, false).unwrap_err();
    assert_eq!(r.status, 200);
    assert_eq!(
        r.body,
        envelope_of(r#"{"code":"invalid_argument","message":"Missing Content-Type header"}"#)
    );
    let r = check_headers(&None, &Some(chars("text/html")), false).unwrap_err();
    assert_eq!(r.status, 400);
    assert_eq!(
        r.body,
        br#"{"code":"invalid_argument","message":"Wrong or unknown Content-Type: text/html"}"#
            .to_vec()
    );
}

#[test]
fn check_headers_accepts() {
    let map = headers(&[("content-type", "application/json")]);
    assert_eq!(decode_check_headers(&map, false), Ok(ReqResInto { binary: false }));
    let map = headers(&[("content-type", "application/proto"), ("connect-protocol-version", "1")]);
    assert_eq!(decode_check_headers(&map, false), Ok(ReqResInto { binary: true }));
    let map = headers(&[("content-type", "application/connect+proto")]);
    assert_eq!(decode_check_headers(&map, true), Ok(ReqResInto { binary: true }));
    let map = headers(&[("content-type", "application/connect+json")]);
    assert_eq!(decode_check_headers(&map, true), Ok(ReqResInto { binary: false }));
}

#[test]
fn encoding_of_what_the_headers_decide() {
    assert_eq!(ReqResInto { binary: true }.encoding(), WireEncoding::Binary);
    assert_eq!(ReqResInto { binary: false }.encoding(), WireEncoding::Json);
}

#[test]
fn unknown_content_type_is_refused_with_400() {
    let map = headers(&[("content-type", "application/xml")]);
    let r = decode_check_headers(&map, false).unwrap_err();
    assert_eq!(r.status, 400);
    assert_eq!(
        r.body,
        br#"{"code":"invalid_argument","message":"Wrong or unknown Content-Type: application/xml"}"#
            .to_vec()
    );
    assert_eq!(r.content_type, ContentType::Json);
}

#[test]
fn unsupported_version_is_refused_with_400() {
    let map = headers(&[("connect-protocol-version", "2")]);
    let r = decode_check_headers(&map, false).unwrap_err();
    assert_eq!(r.status, 400);
    assert_eq!(
        r.body,
        br#"{"code":"invalid_argument","message":"Unsupported protocol version: 2"}"#.to_vec()
    );
    let map = headers(&[("connect-protocol-version", "2"), ("content-type", "application/json")]);
    let again = decode_check_headers(&map, false).unwrap_err();
    assert_eq!(again, r);
}

#[test]
fn unsupported_version_while_streaming() {
    let map = headers(&[("connect-protocol-version", "0"), ("content-type", "application/connect+json")]);
    let r = decode_check_headers(&map, true).unwrap_err();
    assert_eq!(r.status, 200);
    assert_eq!(r.content_type, ContentType::ConnectProto);
    assert_eq!(
        r.body,
        envelope_of(r#"{"code":"invalid_argument","message":"Unsupported protocol version: 0"}"#)
    );
}

#[test]
fn unknown_content_type_while_streaming() {
    let map = headers(&[("content-type", "application/json")]);
    let r = decode_check_headers(&map, true).unwrap_err();
    assert_eq!(r.status, 200);
    assert_eq!(r.content_type, ContentType::ConnectProto);
    assert_eq!(
        r.body,
        envelope_of(
            r#"{"code":"invalid_argument","message":"Wrong or unknown Content-Type: application/json"}"#
        )
    );
}

#[test]
fn missing_content_type_is_answered_as_a_stream() {
    for for_streaming in [false, true] {
        for map in [HeaderMap::new(), headers(&[("connect-protocol-version", "1")])] {
            let r = decode_check_headers(&map, for_streaming).unwrap_err();
            assert_eq!(r.status, 200);
            assert_eq!(r.content_type, ContentType::ConnectProto);
            assert_eq!(r.content_type.as_str(), "application/connect+proto");
            assert_eq!(
                r.body,
                envelope_of(r#"{"code":"invalid_argument","message":"Missing Content-Type header"}"#)
            );
        }
    }
}

#[test]
fn opaque_header_values_read_as_empty() {
    let mut map = HeaderMap::new();
    map.insert("content-type", HeaderValue::from_bytes(b"application/json\xfe").unwrap());
    let r = decode_check_headers(&map, false).unwrap_err();
    assert_eq!(r.status, 400);
    assert_eq!(
        r.body,
        br#"{"code":"invalid_argument","message":"Wrong or unknown Content-Type: "}"#.to_vec()
    );
    let mut map = HeaderMap::new();
    map.insert("connect-protocol-version", HeaderValue::from_bytes(b"1\xfe").unwrap());
    let r = decode_check_headers(&map, false).unwrap_err();
    assert_eq!(
        r.body,
        br#"{"code":"invalid_argument","message":"Unsupported protocol version: "}"#.to_vec()
    );
}
