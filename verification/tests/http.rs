use dao_rollup::http::{http_method, receipt, HttpBody, HttpMethod, HttpReply};

#[test]
fn methods_by_name() {
    assert_eq!(http_method("GET"), HttpMethod::Get);
    assert_eq!(http_method("POST"), HttpMethod::Post);
    assert_eq!(http_method("PUT"), HttpMethod::Other);
    assert_eq!(http_method("get"), HttpMethod::Other);
}

#[test]
fn json_declares_its_type() {
    let with = |body: HttpBody| HttpReply { status: 200, body };
    assert_eq!(with(HttpBody::State).content_type(), Some("application/json"));
    assert_eq!(with(HttpBody::Routers).content_type(), Some("application/json"));
    assert_eq!(with(HttpBody::Receipt).content_type(), None);
    assert_eq!(with(HttpBody::Empty).content_type(), None);
}

#[test]
fn the_text_of_a_receipt() {
    assert_eq!(receipt(), "send tx receipt or error here");
}
