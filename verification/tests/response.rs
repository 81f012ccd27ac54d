use nutt_web::http::response::responder::{bad_request, not_found, text_response, Responder};
use nutt_web::http::response::{HttpHeader, ResponseBuilder};
use nutt_web::http::status::StatusCode;
use nutt_web::http::HttpBody;

#[test]
fn base_headers() {
    let header = HttpHeader::new("\"hello\"");
    assert_eq!(
        header.to_string(),
        "Content-Type: application/json\r\nContent-Length: 7\r\nConnection: keep-alive\r\n"
    );
}

#[test]
fn content_length_counts_bytes() {
    let header = HttpHeader::new("\"\u{e9}\u{20ac}\"");
    assert_eq!(
        header.to_string(),
        "Content-Type: application/json\r\nContent-Length: 7\r\nConnection: keep-alive\r\n"
    );
    let header = HttpHeader::new("");
    assert_eq!(
        header.to_string(),
        "Content-Type: application/json\r\nContent-Length: 0\r\nConnection: keep-alive\r\n"
    );
}

#[test]
fn response_on_the_wire() {
    let response = ResponseBuilder::new(StatusCode::OK, "{\"a\":1}".to_string()).build();
    assert_eq!(
        response.to_string(),
        "HTTP/1.1 200 OK\r\nContent-Type: application/json\r\nContent-Length: 7\r\nConnection: keep-alive\r\n\r\n{\"a\":1}"
    );
    assert_eq!(response.status(), StatusCode::OK);
    assert_eq!(response.body(), "{\"a\":1}");
}

#[test]
fn response_with_a_cookie() {
    let response = ResponseBuilder::new(StatusCode::Accepted, "\"x\"".to_string())
        .set_cookie("id", "abc".to_string())
        .build();
    assert_eq!(
        response.to_string(),
        "HTTP/1.1 202 Accepted\r\nContent-Type: application/json\r\nContent-Length: 3\r\nConnection: keep-alive\r\nSet-Cookie: id=abc;\r\n\r\n\"x\""
    );
}

#[test]
fn later_cookie_replaces_earlier_cookie() {
    let response = ResponseBuilder::new(StatusCode::OK, "1".to_string())
        .set_cookie("a", "1".to_string())
        .set_cookie("b", "2".to_string())
        .build();
    assert_eq!(
        response.to_string(),
        "HTTP/1.1 200 OK\r\nContent-Type: application/json\r\nContent-Length: 1\r\nConnection: keep-alive\r\nSet-Cookie: b=2;\r\n\r\n1"
    );
}

#[test]
fn string_slice_becomes_a_json_string() {
    let response = "data accepted".into_response();
    assert_eq!(response.status(), StatusCode::OK);
    assert_eq!(response.body(), "\"data accepted\"");
    assert_eq!(
        response.to_string(),
        "HTTP/1.1 200 OK\r\nContent-Type: application/json\r\nContent-Length: 15\r\nConnection: keep-alive\r\n\r\n\"data accepted\""
    );
}

#[test]
fn string_becomes_a_json_string_with_escapes() {
    let response = "say \"hi\"\n\\".to_string().into_response();
    assert_eq!(response.body(), "\"say \\\"hi\\\"\\n\\\\\"");
    assert_eq!(response.body(), serde_json::to_string("say \"hi\"\n\\").unwrap());
}

#[test]
fn number_becomes_a_json_number() {
    assert_eq!(42i32.into_response().body(), "42");
    assert_eq!((-7i32).into_response().body(), "-7");
    assert_eq!(0i32.into_response().body(), "0");
    for n in [i32::MIN, -1, 0, 1, 10, i32::MAX] {
        let response = n.into_response();
        assert_eq!(response.status(), StatusCode::OK);
        assert_eq!(response.body(), serde_json::to_string(&n).unwrap());
    }
}

#[test]
fn response_stands_for_itself() {
    let response = ResponseBuilder::new(StatusCode::Created, "true".to_string()).build();
    let wire = response.to_string();
    assert_eq!(response.into_response().to_string(), wire);
}

#[test]
fn not_found_is_404_with_the_empty_string() {
    let response = not_found();
    assert_eq!(response.status(), StatusCode::NotFound);
    assert_eq!(response.body(), "\"\"");
    assert_eq!(
        response.to_string(),
        "HTTP/1.1 404 Not Found\r\nContent-Type: application/json\r\nContent-Length: 2\r\nConnection: keep-alive\r\n\r\n\"\""
    );
}

#[test]
fn bad_request_is_400_with_the_empty_string() {
    let response = bad_request();
    assert_eq!(response.status(), StatusCode::BadRequest);
    assert_eq!(response.body(), "\"\"");
}

#[test]
fn text_response_takes_any_status() {
    let response = text_response(StatusCode::UnAuthorized, "");
    assert_eq!(response.status(), StatusCode::UnAuthorized);
    assert_eq!(response.body(), "\"\"");
}

#[test]
fn body_holds_its_text() {
    let body = HttpBody::new("abc".to_string());
    assert_eq!(body.as_str(), "abc");
    assert_eq!(body.clone().as_str(), "abc");
}

#[test]
fn json_values_survive_encoding_and_decoding() {
    let mut object = serde_json::Map::new();
    object.insert("login".to_string(), serde_json::Value::String("x".to_string()));
    object.insert("num".to_string(), serde_json::Value::from(42));
    object.insert(
        "list".to_string(),
        serde_json::Value::Array(vec![serde_json::Value::Null, serde_json::Value::Bool(true)]),
    );
    let values = vec![
        serde_json::Value::Null,
        serde_json::Value::Bool(false),
        serde_json::Value::from(-17),
        serde_json::Value::String("a \"quoted\" \u{e9}\n".to_string()),
        serde_json::Value::Object(object),
    ];
    for value in values {
        let text = serde_json::to_string(&value).unwrap();
        let response = ResponseBuilder::new(StatusCode::OK, text).build();
        let back: serde_json::Value = serde_json::from_str(response.body()).unwrap();
        assert_eq!(back, value);
    }
    let text: String = serde_json::from_str("hello".into_response().body()).unwrap();
    assert_eq!(text, "hello");
    let number: i32 = serde_json::from_str((-5i32).into_response().body()).unwrap();
    assert_eq!(number, -5);
}
