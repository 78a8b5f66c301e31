use api_proxy::error::{decimal_text, joined, upstream_message, ProxyError};

fn upstream(status: u16, detail: &str) -> ProxyError {
    ProxyError::UpstreamFailure { status, detail: detail.to_string() }
}

#[test]
fn joined_puts_the_prefix_first() {
    assert_eq!(joined("Request failed: ", "timed out"), "Request failed: timed out");
    assert_eq!(joined("", "x"), "x");
    assert_eq!(joined("x", ""), "x");
    assert_eq!(joined("", ""), "");
}

#[test]
fn decimal_text_writes_numbers_without_leading_zeros() {
    assert_eq!(decimal_text(0), "0");
    assert_eq!(decimal_text(7), "7");
    assert_eq!(decimal_text(10), "10");
    assert_eq!(decimal_text(99), "99");
    assert_eq!(decimal_text(404), "404");
    assert_eq!(decimal_text(1000), "1000");
    assert_eq!(decimal_text(60708), "60708");
    assert_eq!(decimal_text(u16::MAX), "65535");
}

#[test]
fn decimal_text_agrees_with_the_standard_library() {
    let mut n: u32 = 0;
    while n <= u16::MAX as u32 {
        assert_eq!(decimal_text(n as u16), n.to_string());
        n += 1;
    }
}

#[test]
fn upstream_message_wraps_label_and_detail() {
    assert_eq!(upstream_message("404 Not Found", "not found"), "API error (404 Not Found): not found");
    assert_eq!(upstream_message("", ""), "API error (): ");
}

#[test]
fn message_of_upstream_failure_names_status_and_reason() {
    assert_eq!(upstream(404, "not found").message(), "API error (404 Not Found): not found");
    assert_eq!(
        upstream(500, "boom").message(),
        "API error (500 Internal Server Error): boom"
    );
    assert_eq!(upstream(301, "").message(), "API error (301 Moved Permanently): ");
    assert_eq!(upstream(100, "c").message(), "API error (100 Continue): c");
}

#[test]
fn message_of_upstream_failure_marks_a_status_without_reason() {
    assert_eq!(upstream(299, "x").message(), "API error (299 <unknown status code>): x");
    assert_eq!(upstream(999, "x").message(), "API error (999 <unknown status code>): x");
}

#[test]
fn message_of_upstream_failure_writes_a_status_out_of_range_as_number() {
    assert_eq!(upstream(0, "x").message(), "API error (0): x");
    assert_eq!(upstream(42, "x").message(), "API error (42): x");
    assert_eq!(upstream(99, "x").message(), "API error (99): x");
    assert_eq!(upstream(1000, "x").message(), "API error (1000): x");
    assert_eq!(upstream(u16::MAX, "x").message(), "API error (65535): x");
}

#[test]
fn message_of_the_other_failures_is_their_detail() {
    let transport = ProxyError::TransportFailure { detail: "Request failed: refused".to_string() };
    assert_eq!(transport.message(), "Request failed: refused");
    let file = ProxyError::FileReadFailure { detail: "Failed to read file: gone".to_string() };
    assert_eq!(file.message(), "Failed to read file: gone");
    let lock = ProxyError::LockFailure { detail: "Failed to lock api_url: poisoned".to_string() };
    assert_eq!(lock.message(), "Failed to lock api_url: poisoned");
}

#[test]
fn failures_of_different_kinds_differ() {
    let a = ProxyError::TransportFailure { detail: "x".to_string() };
    let b = ProxyError::FileReadFailure { detail: "x".to_string() };
    let c = ProxyError::LockFailure { detail: "x".to_string() };
    assert_ne!(a, b);
    assert_ne!(b, c);
    assert_ne!(a, c);
    assert_ne!(upstream(404, "x"), upstream(405, "x"));
    assert_ne!(upstream(404, "x"), upstream(404, "y"));
}
