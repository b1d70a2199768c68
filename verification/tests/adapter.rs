use graphql_adapter::adapter::{handle_request, HttpMethod, HttpResponse, RequestBody};
use graphql_adapter::schemas::get_schema;

fn ok_response(method: HttpMethod, body: RequestBody) -> HttpResponse {
    let schema = get_schema();
    match handle_request(&schema, method, body) {
        Ok(resp) => resp,
        Err(e) => panic!("server error: {}", e.message()),
    }
}

#[test]
fn get_serves_exploration_page() {
    let resp = ok_response(HttpMethod::Get, RequestBody::Empty);
    assert_eq!(resp.status, 200);
    assert_eq!(resp.content_type.as_deref(), Some("text/html"));
    assert!(resp.body.contains("/prod/graphql"));
}

#[test]
fn get_ignores_body() {
    let resp = ok_response(HttpMethod::Get, RequestBody::Text(String::from("ignored")));
    assert_eq!(resp.status, 200);
    assert_eq!(resp.content_type.as_deref(), Some("text/html"));
}

#[test]
fn other_method_is_rejected() {
    let resp = ok_response(HttpMethod::Other, RequestBody::Empty);
    assert_eq!(resp.status, 400);
    assert_eq!(resp.content_type, None);
    assert_eq!(resp.body, "{\"errors\":[{\"message\":\"method not allowed\"}]}");
}

#[test]
fn other_method_rejected_with_body_present() {
    let resp = ok_response(
        HttpMethod::Other,
        RequestBody::Text(String::from("{\"query\":\"{ hello }\"}")),
    );
    assert_eq!(resp.status, 400);
    assert_eq!(resp.body, "{\"errors\":[{\"message\":\"method not allowed\"}]}");
}

#[test]
fn post_empty_body_is_rejected() {
    let resp = ok_response(HttpMethod::Post, RequestBody::Empty);
    assert_eq!(resp.status, 400);
    assert_eq!(resp.body, "{\"errors\":[{\"message\":\"empty request body\"}]}");
}

#[test]
fn post_empty_text_body_is_rejected() {
    let resp = ok_response(HttpMethod::Post, RequestBody::Text(String::new()));
    assert_eq!(resp.status, 400);
    assert_eq!(resp.body, "{\"errors\":[{\"message\":\"empty request body\"}]}");
}

#[test]
fn post_empty_binary_body_is_rejected() {
    let resp = ok_response(HttpMethod::Post, RequestBody::Binary(Vec::new()));
    assert_eq!(resp.status, 400);
    assert_eq!(resp.body, "{\"errors\":[{\"message\":\"empty request body\"}]}");
}

#[test]
fn post_malformed_body_is_rejected() {
    let resp = ok_response(HttpMethod::Post, RequestBody::Text(String::from("not json")));
    assert_eq!(resp.status, 400);
    assert!(resp.body.starts_with("{\"errors\":[{\"message\":\"malformed request payload: "));
    assert!(resp.body.ends_with("\"}]}"));
}

#[test]
fn post_wrong_type_body_is_rejected() {
    let resp = ok_response(
        HttpMethod::Post,
        RequestBody::Text(String::from("{\"query\": 17}")),
    );
    assert_eq!(resp.status, 400);
    assert!(resp.body.contains("malformed request payload: "));
}

#[test]
fn post_hello_round_trip() {
    let resp = ok_response(
        HttpMethod::Post,
        RequestBody::Text(String::from("{\"query\":\"{ hello }\"}")),
    );
    assert_eq!(resp.status, 200);
    assert_eq!(resp.content_type, None);
    assert_eq!(resp.body, "{\"data\":{\"hello\":\"Hello, world!\"}}");
}

#[test]
fn post_same_request_twice_is_byte_identical() {
    let first = ok_response(
        HttpMethod::Post,
        RequestBody::Text(String::from("{\"query\":\"{ hello }\"}")),
    );
    let second = ok_response(
        HttpMethod::Post,
        RequestBody::Text(String::from("{\"query\":\"{ hello }\"}")),
    );
    assert_eq!(first.status, second.status);
    assert_eq!(first.body, second.body);
}

#[test]
fn post_invalid_query_is_engine_reported() {
    let resp = ok_response(
        HttpMethod::Post,
        RequestBody::Text(String::from("{\"query\":\"{ hel\"}")),
    );
    assert_eq!(resp.status, 200);
    assert!(resp.body.contains("\"errors\""));
    assert!(resp.body.starts_with("{\"data\":null"));
}

#[test]
fn post_unknown_field_is_engine_reported() {
    let resp = ok_response(
        HttpMethod::Post,
        RequestBody::Text(String::from("{\"query\":\"{ goodbye }\"}")),
    );
    assert_eq!(resp.status, 200);
    assert!(resp.body.contains("\"errors\""));
}

#[test]
fn text_and_binary_bodies_agree() {
    let content = "{\"query\":\"{ hello }\"}";
    let as_text = ok_response(HttpMethod::Post, RequestBody::Text(String::from(content)));
    let as_binary = ok_response(
        HttpMethod::Post,
        RequestBody::Binary(content.as_bytes().to_vec()),
    );
    assert_eq!(as_text.status, as_binary.status);
    assert_eq!(as_text.content_type, as_binary.content_type);
    assert_eq!(as_text.body, as_binary.body);
}

#[test]
fn text_and_binary_bodies_agree_on_malformed_input() {
    let content = "not json";
    let as_text = ok_response(HttpMethod::Post, RequestBody::Text(String::from(content)));
    let as_binary = ok_response(
        HttpMethod::Post,
        RequestBody::Binary(content.as_bytes().to_vec()),
    );
    assert_eq!(as_text.status, as_binary.status);
    assert_eq!(as_text.body, as_binary.body);
}

#[test]
fn post_operation_name_and_variables_are_accepted() {
    let resp = ok_response(
        HttpMethod::Post,
        RequestBody::Text(String::from(
            "{\"query\":\"query Greet { hello }\",\"operationName\":\"Greet\",\"variables\":{}}",
        )),
    );
    assert_eq!(resp.status, 200);
    assert_eq!(resp.body, "{\"data\":{\"hello\":\"Hello, world!\"}}");
}
