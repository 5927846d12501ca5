use wise::json::{parse_integer, parse_unsigned, ArrayBuilder, Json, ObjectBuilder};
use wise::messages::{RconRequest, RconResponse};
use wise::error::RconError;

fn object(members: Vec<(&str, Json)>) -> Json {
    Json::Object(members.into_iter().map(|(k, v)| (String::from(k), v)).collect())
}

#[test]
fn a_text_is_read_into_a_tree() {
    let tree = Json::parse("{\"b\": [1, -2, 1.5, true, null], \"a\": \"x\\ny\"}").unwrap();
    assert_eq!(
        tree,
        object(vec![
            ("a", Json::Text(String::from("x\ny"))),
            (
                "b",
                Json::Array(vec![
                    Json::Number(String::from("1")),
                    Json::Number(String::from("-2")),
                    Json::Number(String::from("1.5")),
                    Json::Bool(true),
                    Json::Null,
                ])
            ),
        ])
    );
    assert_eq!(Json::parse(""), None);
    assert_eq!(Json::parse("{"), None);
    assert_eq!(Json::parse("{} trailing"), None);
    assert_eq!(Json::parse("\"abc\""), Some(Json::Text(String::from("abc"))));
}

#[test]
fn a_tree_is_written_compactly_in_its_order() {
    let tree = object(vec![
        ("z", Json::Null),
        ("a", Json::Array(vec![Json::Bool(false), Json::Number(String::from("10"))])),
        ("q\"uote", Json::Text(String::from("line\nbreak \\ \"x\""))),
        ("e", Json::Array(vec![])),
        ("o", object(vec![])),
    ]);
    assert_eq!(
        tree.render(),
        "{\"z\":null,\"a\":[false,10],\"q\\\"uote\":\"line\\nbreak \\\\ \\\"x\\\"\",\"e\":[],\"o\":{}}"
    );
    assert_eq!(Json::Bool(true).render(), "true");
    assert_eq!(Json::text("a").render(), "\"a\"");
}

#[test]
fn writing_and_reading_a_tree_gives_it_back() {
    let tree = object(vec![
        ("a", Json::Array(vec![Json::Null, Json::Text(String::from("t\u{e9}\t"))])),
        ("b", object(vec![("c", Json::Number(String::from("-12")))])),
    ]);
    assert_eq!(Json::parse(&tree.render()), Some(tree));
}

#[test]
fn members_are_found_by_name() {
    let tree = Json::parse("{\"n\": 5, \"s\": \"v\", \"l\": [1], \"t\": true, \"big\": 4294967296, \"neg\": -3, \"f\": 2.5}").unwrap();
    assert_eq!(tree.get("n"), Some(&Json::Number(String::from("5"))));
    assert_eq!(tree.get("missing"), None);
    assert_eq!(Json::Null.get("n"), None);
    assert_eq!(tree.text_of("s"), Some(String::from("v")));
    assert_eq!(tree.text_of("n"), None);
    assert_eq!(tree.u64_of("n"), Some(5));
    assert_eq!(tree.u32_of("big"), None);
    assert_eq!(tree.u64_of("big"), Some(4294967296));
    assert_eq!(tree.i32_of("neg"), Some(-3));
    assert_eq!(tree.u64_of("neg"), None);
    assert_eq!(tree.i32_of("f"), None);
    assert_eq!(tree.number_of("f"), Some(String::from("2.5")));
    assert_eq!(tree.bool_of("t"), Some(true));
    assert_eq!(tree.get("l").unwrap().as_array().map(|items| items.len()), Some(1));
    assert_eq!(tree.get("s").unwrap().as_array(), None);
}

#[test]
fn integers_are_read_within_their_range() {
    assert_eq!(parse_unsigned("18446744073709551615"), Some(u64::MAX));
    assert_eq!(parse_unsigned("18446744073709551616"), None);
    assert_eq!(parse_unsigned("+1"), None);
    assert_eq!(parse_unsigned(""), None);
    assert_eq!(parse_integer("-9223372036854775808"), Some(i64::MIN));
    assert_eq!(parse_integer("-9223372036854775809"), None);
    assert_eq!(parse_integer("9223372036854775807"), Some(i64::MAX));
    assert_eq!(parse_integer("9223372036854775808"), None);
    assert_eq!(parse_integer("-"), None);
    assert_eq!(parse_integer("1e3"), None);
    assert_eq!(parse_integer("-0"), Some(0));
}

#[test]
fn builders_keep_the_order_of_members_and_items() {
    let mut array = ArrayBuilder::new();
    array.item(Json::Null);
    array.item(Json::Bool(true));
    let mut builder = ObjectBuilder::new();
    builder.text("b", &String::from("x"));
    builder.number("a", String::from("7"));
    builder.member("c", array.finish());
    assert_eq!(builder.finish().render(), "{\"b\":\"x\",\"a\":7,\"c\":[null,true]}");
}

#[test]
fn a_request_is_a_flat_object_of_four_strings() {
    let request = RconRequest::new("ServerBroadcast", "say \"hi\"");
    assert_eq!(request.auth_token, "");
    assert_eq!(request.version, "2");
    assert_eq!(
        String::from_utf8(request.serialize()).unwrap(),
        "{\"authToken\":\"\",\"version\":\"2\",\"name\":\"ServerBroadcast\",\"contentBody\":\"say \\\"hi\\\"\"}"
    );
    let body = Json::Object(vec![(String::from("k"), Json::Array(vec![]))]);
    let request = RconRequest::with_body("AdminLog", &body);
    assert_eq!(request.content_body, "{\"k\":[]}");
    assert_eq!(
        String::from_utf8(request.serialize()).unwrap(),
        "{\"authToken\":\"\",\"version\":\"2\",\"name\":\"AdminLog\",\"contentBody\":\"{\\\"k\\\":[]}\"}"
    );
}

#[test]
fn a_response_is_read_from_its_text() {
    let text = "{\"statusCode\":200,\"statusMessage\":\"OK\",\"version\":2,\"name\":\"Login\",\"contentBody\":\"tok\",\"extra\":1}";
    let response = RconResponse::parse(text).unwrap();
    assert_eq!(
        response,
        RconResponse {
            status_code: 200,
            status_message: String::from("OK"),
            version: 2,
            name: String::from("Login"),
            content_body: String::from("tok"),
        }
    );
    assert_eq!(response.assert_ok("no"), Ok(()));
    let failed = RconResponse { status_code: 401, ..response.clone() };
    assert_eq!(failed.assert_ok("no"), Err("no"));
    assert_eq!(RconResponse::parse(&response.to_json().render()), Ok(response));
}

#[test]
fn a_text_that_is_no_response_is_invalid_data() {
    for text in [
        "",
        "[]",
        "{\"statusCode\":200}",
        "{\"statusCode\":\"200\",\"statusMessage\":\"OK\",\"version\":2,\"name\":\"n\",\"contentBody\":\"b\"}",
        "{\"statusCode\":200,\"statusMessage\":\"OK\",\"version\":2,\"name\":\"n\",\"contentBody\":{}}",
        "{\"statusCode\":2147483648,\"statusMessage\":\"OK\",\"version\":2,\"name\":\"n\",\"contentBody\":\"b\"}",
    ] {
        assert!(matches!(RconResponse::parse(text), Err(RconError::InvalidData(_))));
    }
}

#[test]
fn the_body_of_a_login_is_never_traced() {
    assert_eq!(RconRequest::new("Login", "secret").traced_body(), None);
    assert_eq!(
        RconRequest::new("ServerBroadcast", "hello").traced_body(),
        Some(&String::from("hello"))
    );
    assert_eq!(RconRequest::new("login", "x").traced_body(), Some(&String::from("x")));
}
