use api_proxy::api::{
    bytes_unreadable, describe, download_body_kind, forward, handle_download, handle_response,
    is_success, parsed_body, request_failed, upstream_rejected, BodyKind, DownloadBody, Operation,
    Verb,
};
use api_proxy::error::ProxyError;

fn empty_object() -> serde_json::Value {
    serde_json::Value::Object(serde_json::Map::new())
}

fn text(body: &str) -> Result<String, String> {
    Ok(body.to_string())
}

fn transport(detail: &str) -> ProxyError {
    ProxyError::TransportFailure { detail: detail.to_string() }
}

fn upstream(status: u16, detail: &str) -> ProxyError {
    ProxyError::UpstreamFailure { status, detail: detail.to_string() }
}

#[test]
fn success_is_two_hundred_to_two_ninety_nine() {
    assert!(!is_success(0));
    assert!(!is_success(100));
    assert!(!is_success(199));
    assert!(is_success(200));
    assert!(is_success(204));
    assert!(is_success(299));
    assert!(!is_success(300));
    assert!(!is_success(404));
    assert!(!is_success(500));
    assert!(!is_success(u16::MAX));
}

#[test]
fn scenario_empty_success_is_the_empty_object() {
    let request = forward(Verb::Get, "http://api.test", "/items", None);
    assert_eq!(request.url, "http://api.test/items");
    assert_eq!(handle_response(200, text("")), Ok(empty_object()));
}

#[test]
fn scenario_not_found_is_an_upstream_failure() {
    assert_eq!(handle_response(404, text("not found")), Err(upstream(404, "not found")));
}

#[test]
fn empty_body_is_the_empty_object_for_every_success_status() {
    let mut status: u16 = 200;
    while status < 300 {
        assert_eq!(handle_response(status, text("")), Ok(empty_object()));
        status += 1;
    }
}

#[test]
fn empty_body_equals_the_parsed_empty_object() {
    assert_eq!(handle_response(200, text("")), handle_response(200, text("{}")));
}

#[test]
fn status_is_classified_before_the_body() {
    assert_eq!(handle_response(500, text("<html>oops</html>")), Err(upstream(500, "<html>oops</html>")));
    assert_eq!(handle_response(404, text("{\"error\":\"x\"}")), Err(upstream(404, "{\"error\":\"x\"}")));
    assert_eq!(handle_response(400, text("")), Err(upstream(400, "")));
    assert_eq!(handle_response(199, text("{}")), Err(upstream(199, "{}")));
    assert_eq!(handle_response(300, text("{}")), Err(upstream(300, "{}")));
    assert_eq!(handle_response(0, text("{")), Err(upstream(0, "{")));
}

#[test]
fn unreadable_error_body_becomes_the_placeholder() {
    assert_eq!(
        handle_response(502, Err("connection reset".to_string())),
        Err(upstream(502, "Unknown error"))
    );
    assert_eq!(
        upstream_rejected(503, Err("x".to_string())),
        upstream(503, "Unknown error")
    );
    assert_eq!(upstream_rejected(503, text("busy")), upstream(503, "busy"));
}

#[test]
fn unreadable_success_body_is_a_transport_failure() {
    assert_eq!(
        handle_response(200, Err("error decoding response body".to_string())),
        Err(transport("Failed to read response: error decoding response body"))
    );
}

#[test]
fn success_body_is_parsed() {
    let expected: serde_json::Value =
        serde_json::from_str("{\"items\":[1,2,3],\"ok\":true,\"name\":\"x\"}").unwrap();
    assert_eq!(
        handle_response(200, text("{\"items\":[1,2,3],\"ok\":true,\"name\":\"x\"}")),
        Ok(expected)
    );
    assert_eq!(handle_response(201, text("null")), Ok(serde_json::Value::Null));
    assert_eq!(handle_response(200, text(" 17 ")), Ok(serde_json::Value::from(17)));
    assert_eq!(
        handle_response(200, text("\"text\"")),
        Ok(serde_json::Value::String("text".to_string()))
    );
    assert_eq!(handle_response(200, text("[]")), Ok(serde_json::Value::Array(Vec::new())));
}

#[test]
fn malformed_success_body_is_a_transport_failure_with_the_text() {
    assert_eq!(
        handle_response(200, text("not json")),
        Err(transport(
            "Failed to parse response: expected ident at line 1 column 2 (response text: not json)"
        ))
    );
    assert_eq!(
        handle_response(200, text("{\"a\":")),
        Err(transport(
            "Failed to parse response: EOF while parsing a value at line 1 column 5 (response text: {\"a\":)"
        ))
    );
}

#[test]
fn blank_body_is_not_empty() {
    assert_eq!(
        handle_response(200, text(" ")),
        Err(transport(
            "Failed to parse response: EOF while parsing a value at line 1 column 1 (response text:  )"
        ))
    );
}

#[test]
fn repeated_classification_is_identical() {
    assert_eq!(handle_response(200, text("{\"a\":[1]}")), handle_response(200, text("{\"a\":[1]}")));
    assert_eq!(handle_response(404, text("gone")), handle_response(404, text("gone")));
    assert_eq!(handle_response(200, text("x")), handle_response(200, text("x")));
}

#[test]
fn parsed_body_passes_the_document_on() {
    let value: serde_json::Value = serde_json::from_str("[1,2]").unwrap();
    assert_eq!(parsed_body("[1,2]", Ok(value.clone())), Ok(value));
}

#[test]
fn parsed_body_reports_message_and_text() {
    assert_eq!(
        parsed_body("<p>", Err("expected value at line 1 column 1".to_string())),
        Err(transport(
            "Failed to parse response: expected value at line 1 column 1 (response text: <p>)"
        ))
    );
    assert_eq!(
        parsed_body("", Err(String::new())),
        Err(transport("Failed to parse response:  (response text: )"))
    );
}

#[test]
fn request_failed_names_the_command() {
    assert_eq!(request_failed(Operation::Get, "refused"), transport("Request failed: refused"));
    assert_eq!(request_failed(Operation::Post, "refused"), transport("Request failed: refused"));
    assert_eq!(request_failed(Operation::Put, "refused"), transport("Request failed: refused"));
    assert_eq!(request_failed(Operation::Delete, "timed out"), transport("Request failed: timed out"));
    assert_eq!(
        request_failed(Operation::Download, "refused"),
        transport("Download request failed: refused")
    );
    assert_eq!(
        request_failed(Operation::Upload, "refused"),
        transport("Upload request failed: refused")
    );
}

#[test]
fn download_reads_bytes_on_success_and_text_otherwise() {
    assert_eq!(download_body_kind(199), BodyKind::Text);
    assert_eq!(download_body_kind(200), BodyKind::Bytes);
    assert_eq!(download_body_kind(299), BodyKind::Bytes);
    assert_eq!(download_body_kind(300), BodyKind::Text);
    assert_eq!(download_body_kind(404), BodyKind::Text);
}

#[test]
fn download_passes_bytes_through_untouched() {
    let bytes: Vec<u8> = vec![0, 159, 146, 150, 255, b'{'];
    assert_eq!(handle_download(200, DownloadBody::Bytes(Ok(bytes.clone()))), Ok(bytes));
    assert_eq!(handle_download(200, DownloadBody::Bytes(Ok(Vec::new()))), Ok(Vec::new()));
    assert_eq!(
        handle_download(206, DownloadBody::Bytes(Ok(b"{\"json\":true}".to_vec()))),
        Ok(b"{\"json\":true}".to_vec())
    );
}

#[test]
fn download_of_text_is_its_encoding() {
    assert_eq!(
        handle_download(200, DownloadBody::Text(Ok("h\u{e9}".to_string()))),
        Ok(vec![b'h', 0xc3, 0xa9])
    );
}

#[test]
fn download_failure_to_read_is_a_transport_failure() {
    assert_eq!(
        handle_download(200, DownloadBody::Bytes(Err("reset".to_string()))),
        Err(transport("Failed to read response bytes: reset"))
    );
    assert_eq!(
        handle_download(200, DownloadBody::Text(Err("reset".to_string()))),
        Err(transport("Failed to read response bytes: reset"))
    );
    assert_eq!(bytes_unreadable("reset"), transport("Failed to read response bytes: reset"));
}

#[test]
fn download_status_is_classified_before_the_body() {
    assert_eq!(
        handle_download(404, DownloadBody::Text(Ok("not found".to_string()))),
        Err(upstream(404, "not found"))
    );
    assert_eq!(
        handle_download(500, DownloadBody::Text(Err("reset".to_string()))),
        Err(upstream(500, "Unknown error"))
    );
    assert_eq!(
        handle_download(500, DownloadBody::Bytes(Ok(vec![1, 2]))),
        Err(upstream(500, "Unknown error"))
    );
    assert_eq!(
        handle_download(500, DownloadBody::Bytes(Err("reset".to_string()))),
        Err(upstream(500, "Unknown error"))
    );
}

#[test]
fn describe_combines_command_url_and_failure() {
    assert_eq!(
        describe(Operation::Get, "http://api.test/items", &upstream(404, "not found")),
        "GET http://api.test/items - API error (404 Not Found): not found"
    );
    assert_eq!(
        describe(
            Operation::Upload,
            "http://api.test/files",
            &ProxyError::FileReadFailure { detail: "Failed to read file: gone".to_string() }
        ),
        "UPLOAD http://api.test/files - Failed to read file: gone"
    );
    assert_eq!(
        describe(Operation::Download, "", &transport("Download request failed: refused")),
        "DOWNLOAD  - Download request failed: refused"
    );
}
