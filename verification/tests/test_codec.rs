use std::io::Write;
use tarkov::codec::{body_text, decode, encode};
use tarkov::json::{member, object, parse, render, Json};
use tarkov::Error;

fn compress(data: &[u8]) -> Vec<u8> {
    let mut encoder = flate2::write::ZlibEncoder::new(Vec::new(), flate2::Compression::default());
    encoder.write_all(data).unwrap();
    encoder.finish().unwrap()
}

fn text(s: &str) -> Json {
    Json::Text(s.to_string())
}

#[test]
fn encode_writes_json() {
    let body = object(vec![member("uid", text("5c0c"))]);
    assert_eq!(encode(&body), Ok("{\"uid\":\"5c0c\"}".to_string()));
}

#[test]
fn encode_replaces_null_by_an_empty_object() {
    assert_eq!(encode(&Json::Null), Ok("{}".to_string()));
}

#[test]
fn encode_keeps_other_values() {
    assert_eq!(encode(&Json::Bool(true)), Ok("true".to_string()));
    assert_eq!(encode(&text("null")), Ok("\"null\"".to_string()));
    assert_eq!(encode(&Json::Array(vec![Json::Null])), Ok("[null]".to_string()));
    assert_eq!(encode(&object(vec![])), Ok("{}".to_string()));
}

#[test]
fn body_text_only_touches_null() {
    assert_eq!(body_text("null".to_string()), "{}");
    assert_eq!(body_text("{}".to_string()), "{}");
    assert_eq!(body_text("nul".to_string()), "nul");
    assert_eq!(body_text(" null".to_string()), " null");
    assert_eq!(body_text("".to_string()), "");
    assert_eq!(body_text("{\"crc\":0}".to_string()), "{\"crc\":0}");
}

#[test]
fn decode_inflates_and_parses() {
    let raw = compress(b"{\"err\":0,\"errmsg\":null,\"data\":null}");
    let reply = decode(&raw).unwrap();
    assert_eq!(reply.get("err"), Some(&Json::Unsigned(0)));
    assert_eq!(reply.get("errmsg"), Some(&Json::Null));
    assert_eq!(reply.get("data"), Some(&Json::Null));
    assert_eq!(reply.get("other"), None);
}

#[test]
fn decode_of_a_fixed_stream() {
    let raw: [u8; 36] = [
        120, 156, 171, 86, 74, 45, 42, 82, 178, 50, 208, 1, 209, 185, 197, 233, 74, 86, 121, 165,
        57, 57, 58, 74, 41, 137, 37, 137, 16, 118, 45, 0, 205, 108, 11, 228,
    ];
    let reply = decode(&raw).unwrap();
    assert_eq!(reply.get("err"), Some(&Json::Unsigned(0)));
}

#[test]
fn decode_rejects_what_is_not_zlib() {
    assert_eq!(decode(b"{\"err\":0}"), Err(Error::Io));
    assert_eq!(decode(&[]), Err(Error::Io));
    assert_eq!(decode(&[1, 2, 3, 4, 5]), Err(Error::Io));
}

#[test]
fn decode_rejects_a_stream_that_is_cut_off() {
    let raw = compress(b"{\"err\":0,\"errmsg\":null,\"data\":null}");
    assert_eq!(decode(&raw[..raw.len() / 2]), Err(Error::Io));
}

#[test]
fn decode_rejects_what_is_not_utf8() {
    let raw = compress(&[0xff, 0xfe]);
    assert_eq!(decode(&raw), Err(Error::Io));
}

#[test]
fn decode_rejects_what_is_not_json() {
    assert_eq!(decode(&compress(b"<html></html>")), Err(Error::Json));
    assert_eq!(decode(&compress(b"")), Err(Error::Json));
    assert_eq!(decode(&compress(b"{\"err\":0")), Err(Error::Json));
    assert_eq!(decode(&compress(b"{} {}")), Err(Error::Json));
}

#[test]
fn what_is_encoded_comes_back_decoded() {
    let value = object(vec![
        member("count", Json::Unsigned(3990)),
        member("debt", Json::Signed(-15)),
        member(
            "items",
            Json::Array(vec![
                Json::Null,
                Json::Bool(false),
                Json::Real("2.5".to_string()),
                object(vec![member("_id", text("5e064f5deb009468d90baef7"))]),
            ]),
        ),
        member(
            "trader",
            object(vec![
                member("location", object(vec![member("x", Json::Unsigned(1))])),
                member("nickname", text("Терапевт")),
            ]),
        ),
        member("имя", text("Прапор \"Павел\"\n")),
    ]);
    let sent = encode(&value).unwrap();
    let received = decode(&compress(sent.as_bytes())).unwrap();
    assert_eq!(received, value);
}

#[test]
fn round_trip_of_plain_values() {
    for value in [
        Json::Bool(true),
        Json::Unsigned(0),
        Json::Unsigned(u64::MAX),
        Json::Signed(i64::MIN),
        Json::Real("0.1".to_string()),
        Json::Text(String::new()),
        Json::Text("Лыжник".to_string()),
        Json::Array(vec![]),
        Json::Object(vec![]),
    ] {
        let sent = encode(&value).unwrap();
        assert_eq!(decode(&compress(sent.as_bytes())), Ok(value));
    }
}

#[test]
fn parse_reads_numbers_as_they_are_written() {
    assert_eq!(parse("0"), Ok(Json::Unsigned(0)));
    assert_eq!(parse("18446744073709551615"), Ok(Json::Unsigned(u64::MAX)));
    assert_eq!(parse("-1"), Ok(Json::Signed(-1)));
    assert_eq!(parse("1.5"), Ok(Json::Real("1.5".to_string())));
    assert_eq!(parse("200.0"), Ok(Json::Real("200.0".to_string())));
}

#[test]
fn parse_keeps_one_member_for_a_key() {
    let value = parse("{\"b\":1,\"a\":2,\"b\":3}").unwrap();
    assert_eq!(value, object(vec![member("a", Json::Unsigned(2)), member("b", Json::Unsigned(3))]));
}

#[test]
fn parse_rejects_what_is_not_json() {
    assert_eq!(parse(""), Err(Error::Json));
    assert_eq!(parse("nul"), Err(Error::Json));
    assert_eq!(parse("{\"a\":}"), Err(Error::Json));
    assert_eq!(parse("[1,]"), Err(Error::Json));
}

#[test]
fn render_writes_compact_json() {
    assert_eq!(render(&Json::Null), Ok("null".to_string()));
    assert_eq!(render(&Json::Signed(-7)), Ok("-7".to_string()));
    assert_eq!(render(&Json::Real("2.5".to_string())), Ok("2.5".to_string()));
    assert_eq!(render(&text("a\"b")), Ok("\"a\\\"b\"".to_string()));
    assert_eq!(
        render(&Json::Array(vec![Json::Unsigned(1), Json::Bool(true)])),
        Ok("[1,true]".to_string())
    );
    assert_eq!(
        render(&object(vec![member("tm", Json::Unsigned(2)), member("data", Json::Array(vec![]))])),
        Ok("{\"data\":[],\"tm\":2}".to_string())
    );
}

#[test]
fn render_writes_null_for_a_real_that_is_no_number() {
    assert_eq!(render(&Json::Real("abc".to_string())), Ok("null".to_string()));
}
