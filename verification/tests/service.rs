use nav_lambda::protocol::Request;
use nav_lambda::protocol::parse_request;
use nav_lambda::response::build_bad_request_response;
use nav_lambda::response::build_not_found_response;
use nav_lambda::response::build_ok_header;
use nav_lambda::response::build_upload_ack;
use nav_lambda::response::get_content_type;
use nav_lambda::response::json_error_body;

#[test]
fn download_request_yields_name_with_leading_slash() {
    let req = b"GET /Assets/model.fbx HTTP/1.1\r\nHost: unity\r\n\r\n";
    match parse_request(req) {
        Request::StreamAsset { file_name } => assert_eq!(file_name, b"/model.fbx".to_vec()),
        other => panic!("unexpected request: {:?}", other),
    }
}

#[test]
fn download_request_without_marker_runs_to_the_end() {
    let req = b"GET /Assets/a.png";
    match parse_request(req) {
        Request::StreamAsset { file_name } => assert_eq!(file_name, b"/a.png".to_vec()),
        other => panic!("unexpected request: {:?}", other),
    }
}

#[test]
fn upload_request_is_recognised() {
    let req = b"POST /Assets/new.png HTTP/1.1\r\n\r\n";
    assert_eq!(parse_request(req), Request::UploadAsset);
}

#[test]
fn other_requests_are_invalid() {
    assert_eq!(parse_request(b"DELETE /Assets/a.png HTTP/1.1"), Request::Invalid);
    assert_eq!(parse_request(b"GET /other/a.png HTTP/1.1"), Request::Invalid);
    assert_eq!(parse_request(b""), Request::Invalid);
}

#[test]
fn content_types_follow_the_extension() {
    assert_eq!(get_content_type("photo.jpg"), "image/jpeg");
    assert_eq!(get_content_type("photo.jpeg"), "image/jpeg");
    assert_eq!(get_content_type("icon.png"), "image/png");
    assert_eq!(get_content_type("model.fbx"), "application/octet-stream");
    assert_eq!(get_content_type("model.obj"), "application/octet-stream");
    assert_eq!(get_content_type("mat.mtl"), "text/plain");
    assert_eq!(get_content_type("notes.txt"), "text/plain");
    assert_eq!(get_content_type("data.json"), "application/json");
}

#[test]
fn content_type_comparison_ignores_case() {
    assert_eq!(get_content_type("PHOTO.JPG"), "image/jpeg");
    assert_eq!(get_content_type("Data.Json"), "application/json");
}

#[test]
fn names_without_extension_are_octet_streams() {
    assert_eq!(get_content_type("README"), "application/octet-stream");
    assert_eq!(get_content_type(".hidden"), "application/octet-stream");
    assert_eq!(get_content_type("dir.d/file"), "application/octet-stream");
    assert_eq!(get_content_type(""), "application/octet-stream");
    assert_eq!(get_content_type("/model.fbx"), "application/octet-stream");
}

#[test]
fn ok_header_carries_type_and_exact_length() {
    let header = build_ok_header("image/png", 1048576);
    assert_eq!(
        header,
        b"HTTP/1.1 200 OK\r\nContent-Type: image/png\r\nContent-Length: 1048576\r\nAccept-Ranges: bytes\r\n\r\n".to_vec()
    );
    let empty = build_ok_header("text/plain", 0);
    assert_eq!(
        empty,
        b"HTTP/1.1 200 OK\r\nContent-Type: text/plain\r\nContent-Length: 0\r\nAccept-Ranges: bytes\r\n\r\n".to_vec()
    );
}

#[test]
fn error_body_is_plain_json() {
    let body = json_error_body(b"File not found: x.png");
    assert_eq!(body, b"{\"error\":\"File not found: x.png\"}".to_vec());
}

#[test]
fn error_body_escapes_like_a_json_serializer() {
    let message = "quote \" slash \\ newline \n tab \t bell \u{7} end";
    let body = json_error_body(message.as_bytes());
    let expected = format!("{{\"error\":{}}}", serde_json::to_string(message).unwrap());
    assert_eq!(body, expected.into_bytes());
    let parsed: serde_json::Value = serde_json::from_slice(&body).unwrap();
    assert_eq!(parsed["error"].as_str().unwrap(), message);
}

#[test]
fn not_found_response_names_the_asset() {
    let response = build_not_found_response(b"/missing.png");
    let body = "{\"error\":\"File not found: /missing.png\"}";
    let expected = format!(
        "HTTP/1.1 404 Not Found\r\nContent-Length: {}\r\n\r\n{}",
        body.len(),
        body
    );
    assert_eq!(response, expected.into_bytes());
}

#[test]
fn bad_request_response_is_fixed() {
    let response = build_bad_request_response();
    let body = "{\"error\":\"Invalid request\"}";
    let expected = format!(
        "HTTP/1.1 400 Bad Request\r\nContent-Length: {}\r\n\r\n{}",
        body.len(),
        body
    );
    assert_eq!(response, expected.into_bytes());
}

#[test]
fn upload_ack_is_fixed() {
    assert_eq!(
        build_upload_ack(),
        b"HTTP/1.1 200 OK\r\nContent-Length: 0\r\n\r\n".to_vec()
    );
}
