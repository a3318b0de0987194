use gargoyle_web_monitor::status::{push_decimal, push_status_text};
use gargoyle_web_monitor::{classify, is_success, state_report, CheckResult, Outcome};

fn unhealthy(diagnostic: &str) -> CheckResult {
    CheckResult::Unhealthy { diagnostic: diagnostic.to_string() }
}

fn diagnostic_of(result: CheckResult) -> String {
    match result {
        CheckResult::Healthy => panic!("the result is healthy"),
        CheckResult::Unhealthy { diagnostic } => diagnostic,
    }
}

#[test]
fn status_200_is_healthy() {
    let result = classify("http://example.com", Outcome::Responded(200));
    assert_eq!(result, CheckResult::Healthy);
}

#[test]
fn every_status_from_200_to_299_is_healthy() {
    for status in 200u16..=299 {
        let result = classify("https://example.com/health", Outcome::Responded(status));
        assert_eq!(result, CheckResult::Healthy, "status {}", status);
    }
}

#[test]
fn every_status_outside_200_to_299_is_unhealthy() {
    for status in (0u16..200).chain(300..=u16::MAX) {
        let result = classify("https://example.com/health", Outcome::Responded(status));
        assert!(matches!(result, CheckResult::Unhealthy { .. }), "status {}", status);
    }
}

#[test]
fn the_edges_of_the_success_range() {
    assert!(!is_success(199));
    assert!(is_success(200));
    assert!(is_success(299));
    assert!(!is_success(300));
    assert!(!is_success(0));
    assert!(!is_success(u16::MAX));
}

#[test]
fn success_range_is_that_of_the_http_client() {
    for code in 100u16..=999 {
        let status = reqwest::StatusCode::from_u16(code).unwrap();
        assert_eq!(is_success(code), status.is_success(), "status {}", code);
    }
}

#[test]
fn status_404_names_the_code_and_the_url() {
    let result = classify("http://example.com/missing", Outcome::Responded(404));
    assert_eq!(result, unhealthy("Failed to get http://example.com/missing - 404 Not Found"));
    let diagnostic = diagnostic_of(result);
    assert!(diagnostic.contains("404"));
    assert!(diagnostic.contains("http://example.com/missing"));
}

#[test]
fn status_500_names_the_code_and_the_url() {
    let result = classify("http://example.com", Outcome::Responded(500));
    assert_eq!(result, unhealthy("Failed to get http://example.com - 500 Internal Server Error"));
    let diagnostic = diagnostic_of(result);
    assert!(diagnostic.contains("500"));
    assert!(diagnostic.contains("http://example.com"));
}

#[test]
fn status_503_is_unhealthy_and_named() {
    let result = classify("http://example.com", Outcome::Responded(503));
    assert_eq!(result, unhealthy("Failed to get http://example.com - 503 Service Unavailable"));
    assert!(diagnostic_of(result).contains(" 503 "));
}

#[test]
fn a_redirect_that_was_not_followed_is_unhealthy() {
    let result = classify("http://example.com", Outcome::Responded(301));
    assert_eq!(result, unhealthy("Failed to get http://example.com - 301 Moved Permanently"));
}

#[test]
fn an_informational_status_is_unhealthy() {
    let result = classify("http://example.com", Outcome::Responded(100));
    assert_eq!(result, unhealthy("Failed to get http://example.com - 100 Continue"));
}

#[test]
fn a_status_without_a_reason_phrase() {
    let result = classify("http://example.com", Outcome::Responded(599));
    assert_eq!(result, unhealthy("Failed to get http://example.com - 599 <unknown status code>"));
}

#[test]
fn a_number_that_is_no_http_status() {
    let result = classify("http://example.com", Outcome::Responded(0));
    assert_eq!(result, unhealthy("Failed to get http://example.com - 0 <unknown status code>"));
    let result = classify("http://example.com", Outcome::Responded(99));
    assert_eq!(result, unhealthy("Failed to get http://example.com - 99 <unknown status code>"));
    let result = classify("http://example.com", Outcome::Responded(1000));
    assert_eq!(result, unhealthy("Failed to get http://example.com - 1000 <unknown status code>"));
    let result = classify("http://example.com", Outcome::Responded(65535));
    assert_eq!(result, unhealthy("Failed to get http://example.com - 65535 <unknown status code>"));
}

#[test]
fn no_response_is_a_connection_failure() {
    let result = classify("http://127.0.0.1:1", Outcome::Unreachable);
    assert_eq!(result, unhealthy("Failed to connect to http://127.0.0.1:1"));
}

#[test]
fn a_connection_failure_names_no_status() {
    let diagnostic = diagnostic_of(classify("http://example.com", Outcome::Unreachable));
    assert_eq!(diagnostic, "Failed to connect to http://example.com");
    assert!(diagnostic.contains("connect"));
    assert!(!diagnostic.chars().any(|c| c.is_ascii_digit()));
}

#[test]
fn a_connection_failure_and_a_bad_status_read_differently() {
    let refused = diagnostic_of(classify("http://example.com", Outcome::Unreachable));
    for status in [100u16, 301, 404, 500, 503] {
        let bad = diagnostic_of(classify("http://example.com", Outcome::Responded(status)));
        assert_ne!(refused, bad);
        assert!(bad.starts_with("Failed to get "));
    }
    assert!(refused.starts_with("Failed to connect to "));
}

#[test]
fn an_empty_url_is_classified_too() {
    assert_eq!(classify("", Outcome::Responded(204)), CheckResult::Healthy);
    assert_eq!(classify("", Outcome::Unreachable), unhealthy("Failed to connect to "));
    assert_eq!(
        classify("", Outcome::Responded(418)),
        unhealthy("Failed to get  - 418 I'm a teapot")
    );
}

#[test]
fn a_url_outside_ascii_is_kept_as_it_is() {
    let url = "http://b\u{fc}cher.example/\u{1f600}";
    assert_eq!(
        classify(url, Outcome::Responded(502)),
        unhealthy("Failed to get http://b\u{fc}cher.example/\u{1f600} - 502 Bad Gateway")
    );
}

#[test]
fn the_same_outcome_gives_the_same_result() {
    let first = classify("http://example.com", Outcome::Responded(429));
    let second = classify("http://example.com", Outcome::Responded(429));
    assert_eq!(first, second);
    assert_eq!(first, unhealthy("Failed to get http://example.com - 429 Too Many Requests"));
}

#[test]
fn status_text_is_that_of_the_http_client() {
    for code in 100u16..=999 {
        let mut text = String::new();
        push_status_text(&mut text, code);
        let status = reqwest::StatusCode::from_u16(code).unwrap();
        assert_eq!(text, status.to_string(), "status {}", code);
    }
}

#[test]
fn status_text_is_appended() {
    let mut text = String::from("status: ");
    push_status_text(&mut text, 200);
    assert_eq!(text, "status: 200 OK");
    push_status_text(&mut text, 999);
    assert_eq!(text, "status: 200 OK999 <unknown status code>");
}

#[test]
fn decimal_of_every_number() {
    for n in 0u16..=u16::MAX {
        let mut text = String::new();
        push_decimal(&mut text, n);
        assert_eq!(text, n.to_string());
    }
}

#[test]
fn decimal_is_appended_without_leading_zeros() {
    let mut text = String::from("x");
    push_decimal(&mut text, 0);
    assert_eq!(text, "x0");
    push_decimal(&mut text, 7);
    assert_eq!(text, "x07");
    push_decimal(&mut text, 10);
    assert_eq!(text, "x0710");
    push_decimal(&mut text, 404);
    assert_eq!(text, "x0710404");
    push_decimal(&mut text, 65535);
    assert_eq!(text, "x071040465535");
}

#[test]
fn state_report_of_a_healthy_result() {
    assert_eq!(state_report("http://example.com", &CheckResult::Healthy), "http://example.com is up");
}

#[test]
fn state_report_of_an_unhealthy_result() {
    let result = classify("http://example.com", Outcome::Unreachable);
    assert_eq!(state_report("http://example.com", &result), "http://example.com is down");
    let result = classify("http://example.com", Outcome::Responded(500));
    assert_eq!(state_report("http://example.com", &result), "http://example.com is down");
}
