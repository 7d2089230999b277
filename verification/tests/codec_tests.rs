use marstek_core::codec::{decode_reply, encode_request};
use marstek_core::error::Error;
use marstek_core::json::{parse_json, to_bytes, Json};

fn obj(pairs: Vec<(&str, Json)>) -> Json {
    Json::Obj(
        pairs
            .into_iter()
            .map(|(k, v)| (k.as_bytes().to_vec(), v))
            .collect(),
    )
}

#[test]
fn encode_request_exact_bytes() {
    let params = obj(vec![("id", Json::Int(0))]);
    let bytes = encode_request(&b"ES.GetStatus".to_vec(), params);
    assert_eq!(
        bytes,
        br#"{"id":1,"method":"ES.GetStatus","params":{"id":0}}"#.to_vec()
    );
}

#[test]
fn decode_reply_extracts_result() {
    let reply = br#"{"id":1,"result":{"soc":55}}"#;
    let result = decode_reply(reply).unwrap();
    match result {
        Json::Obj(pairs) => {
            assert_eq!(pairs.len(), 1);
            assert_eq!(pairs[0].0, b"soc".to_vec());
            assert!(matches!(pairs[0].1, Json::Int(55)));
        }
        other => panic!("expected object, got {:?}", to_bytes(&other)),
    }
}

#[test]
fn decode_reply_without_result_is_null() {
    let reply = br#"{"id":1,"error":"nope"}"#;
    assert!(matches!(decode_reply(reply), Ok(Json::Null)));
}

#[test]
fn decode_reply_non_object_is_null() {
    assert!(matches!(decode_reply(b"42"), Ok(Json::Null)));
}

#[test]
fn decode_reply_malformed_is_codec_error() {
    assert!(matches!(decode_reply(b"{\"id\":"), Err(Error::Codec)));
    assert!(matches!(decode_reply(b""), Err(Error::Codec)));
    assert!(matches!(decode_reply(b"{} trailing"), Err(Error::Codec)));
}

#[test]
fn parse_handles_whitespace_and_nesting() {
    let v = parse_json(b" { \"a\" : [ 1 , null , true , \"x\" ] } ").unwrap();
    assert_eq!(
        to_bytes(&v),
        br#"{"a":[1,null,true,"x"]}"#.to_vec()
    );
}

#[test]
fn parse_string_escapes() {
    let v = parse_json(br#""a\"b\\c\/d\n\t\u0041""#).unwrap();
    match v {
        Json::Str(s) => assert_eq!(s, b"a\"b\\c/d\n\tA".to_vec()),
        _ => panic!("expected string"),
    }
}

#[test]
fn parse_unicode_escapes_to_utf8() {
    // U+00E9, and a surrogate pair for U+1F600
    let v = parse_json(br#""\u00e9\ud83d\ude00""#).unwrap();
    match v {
        Json::Str(s) => assert_eq!(s, "\u{e9}\u{1f600}".as_bytes().to_vec()),
        _ => panic!("expected string"),
    }
}

#[test]
fn parse_lone_surrogate_fails() {
    assert!(parse_json(br#""\ud83d""#).is_none());
}

#[test]
fn parse_numbers() {
    assert!(matches!(parse_json(b"0"), Some(Json::Int(0))));
    assert!(matches!(parse_json(b"-12"), Some(Json::Int(-12))));
    assert!(matches!(parse_json(b"123456789012345678"), Some(Json::Int(123456789012345678))));
    match parse_json(b"25.5") {
        Some(Json::Num(s)) => assert_eq!(s, b"25.5".to_vec()),
        other => panic!("expected number token, got {:?}", other.map(|v| to_bytes(&v))),
    }
    match parse_json(b"-1.5e10") {
        Some(Json::Num(s)) => assert_eq!(s, b"-1.5e10".to_vec()),
        _ => panic!("expected number token"),
    }
    // an integer too long for i64 stays a verbatim token
    match parse_json(b"99999999999999999999") {
        Some(Json::Num(s)) => assert_eq!(s, b"99999999999999999999".to_vec()),
        _ => panic!("expected number token"),
    }
}

#[test]
fn parse_rejects_malformed_numbers() {
    assert!(parse_json(b"1.").is_none());
    assert!(parse_json(b"1e").is_none());
    assert!(parse_json(b"-").is_none());
    assert!(parse_json(b"01").is_none());
}

#[test]
fn serializer_round_trips_through_parser() {
    let v = obj(vec![
        ("name", Json::Str(b"a\"b\\c\ntail".to_vec())),
        ("n", Json::Int(-42)),
        ("arr", Json::Arr(vec![Json::Bool(false), Json::Null])),
        ("sub", obj(vec![("x", Json::Num(b"1.25".to_vec()))])),
    ]);
    let bytes = to_bytes(&v);
    let back = parse_json(&bytes).unwrap();
    assert_eq!(to_bytes(&back), bytes);
}

#[test]
fn serializer_escapes_control_bytes() {
    let v = Json::Str(vec![0x01, b'x']);
    assert_eq!(to_bytes(&v), b"\"\\u0001x\"".to_vec());
}

#[test]
fn duplicate_keys_last_wins() {
    let reply = br#"{"result":{"soc":1},"result":{"soc":2}}"#;
    let result = decode_reply(reply).unwrap();
    match result {
        Json::Obj(pairs) => assert!(matches!(pairs[0].1, Json::Int(2))),
        _ => panic!("expected object"),
    }
}
