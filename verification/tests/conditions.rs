use cdd_core::{
    check_header, check_status, execute_attack, get_version, verify_condition, ResponseContext,
};
use reqwest::header::{HeaderMap, HeaderName, HeaderValue};

fn captured(status: u16, fields: &[(&'static str, &'static str)]) -> ResponseContext {
    let mut headers = HeaderMap::new();
    for (name, value) in fields {
        headers.append(HeaderName::from_static(name), HeaderValue::from_static(value));
    }
    ResponseContext { status, headers }
}

#[test]
fn header_exists_when_present() {
    let ctx = captured(200, &[("x-frame-options", "DENY")]);
    let r = verify_condition("CHECK header \"X-Frame-Options\" EXISTS", &ctx);
    assert!(r.success);
    assert_eq!(r.message, "Condition satisfied: Header 'x-frame-options' is present");
}

#[test]
fn header_exists_when_absent() {
    let ctx = captured(200, &[("content-type", "text/html")]);
    let r = verify_condition("CHECK header \"X-Frame-Options\" EXISTS", &ctx);
    assert!(!r.success);
    assert_eq!(r.message, "Security Gap: Header 'x-frame-options' is missing");
}

#[test]
fn header_exists_is_repeatable() {
    let ctx = captured(200, &[("x-frame-options", "SAMEORIGIN")]);
    let first = verify_condition("CHECK header \"X-Frame-Options\" EXISTS", &ctx);
    let second = verify_condition("CHECK header \"X-Frame-Options\" EXISTS", &ctx);
    assert_eq!(first.success, second.success);
    assert_eq!(first.message, second.message);
    assert_eq!(ctx.status, 200);
    assert_eq!(ctx.headers.len(), 1);

    let other = captured(500, &[]);
    let third = verify_condition("CHECK header \"X-Frame-Options\" EXISTS", &other);
    let fourth = verify_condition("CHECK header \"X-Frame-Options\" EXISTS", &other);
    assert_eq!(third.success, fourth.success);
    assert_eq!(third.message, fourth.message);
}

#[test]
fn header_name_is_lowered_beyond_ascii() {
    let ctx = captured(200, &[]);
    let r = verify_condition("CHECK header \"\u{c9}T\u{c9}\" EXISTS", &ctx);
    assert!(!r.success);
    assert_eq!(r.message, "Security Gap: Header '\u{e9}t\u{e9}' is missing");
}

#[test]
fn empty_quoted_name_fails() {
    let ctx = captured(200, &[("x-frame-options", "DENY")]);
    let r = verify_condition("CHECK header \"\" EXISTS", &ctx);
    assert!(!r.success);
    assert_eq!(r.message, "Security Gap: Header '' is missing");
}

#[test]
fn missing_quoted_name_fails() {
    let ctx = captured(200, &[("x-frame-options", "DENY")]);
    let r = verify_condition("CHECK header X-Frame-Options EXISTS", &ctx);
    assert!(!r.success);
    assert_eq!(r.message, "Security Gap: Header '' is missing");
}

#[test]
fn unclosed_quote_takes_the_rest() {
    let ctx = captured(200, &[("server", "nginx")]);
    let r = verify_condition("EXISTS \"Server", &ctx);
    assert!(r.success);
    assert_eq!(r.message, "Condition satisfied: Header 'server' is present");

    let r = verify_condition("CHECK header \"Server EXISTS", &ctx);
    assert!(!r.success);
    assert_eq!(r.message, "Security Gap: Header 'server exists' is missing");
}

#[test]
fn only_the_first_quoted_text_counts() {
    let ctx = captured(200, &[("b", "1")]);
    let r = verify_condition("CHECK header \"a\" or \"b\" EXISTS", &ctx);
    assert!(!r.success);
    assert_eq!(r.message, "Security Gap: Header 'a' is missing");
}

#[test]
fn status_200_is_verified() {
    let ctx = captured(200, &[]);
    let r = verify_condition("CHECK response.status BE 200", &ctx);
    assert!(r.success);
    assert_eq!(r.message, "HTTP 200 OK verified");
}

#[test]
fn status_404_reports_both_codes() {
    let ctx = captured(404, &[]);
    let r = verify_condition("CHECK response.status BE 200", &ctx);
    assert!(!r.success);
    assert!(r.message.contains("200"));
    assert!(r.message.contains("404"));
    assert_eq!(r.message, "Verification failed: Expected 200, got 404");
}

#[test]
fn status_check_formats_every_width() {
    assert_eq!(
        check_status(&captured(0, &[])).message,
        "Verification failed: Expected 200, got 0"
    );
    assert_eq!(
        check_status(&captured(7, &[])).message,
        "Verification failed: Expected 200, got 7"
    );
    assert_eq!(
        check_status(&captured(10, &[])).message,
        "Verification failed: Expected 200, got 10"
    );
    assert_eq!(
        check_status(&captured(201, &[])).message,
        "Verification failed: Expected 200, got 201"
    );
    assert_eq!(
        check_status(&captured(65535, &[])).message,
        "Verification failed: Expected 200, got 65535"
    );
}

#[test]
fn exists_is_tried_before_status() {
    let ctx = captured(200, &[]);
    let r = verify_condition("status BE 200 and \"via\" EXISTS", &ctx);
    assert!(!r.success);
    assert_eq!(r.message, "Security Gap: Header 'via' is missing");
}

#[test]
fn other_instructions_are_unsupported() {
    let ctx = captured(200, &[("x-frame-options", "DENY")]);
    let r = verify_condition("CHECK body CONTAINS \"admin\"", &ctx);
    assert!(!r.success);
    assert_eq!(r.message, "Unsupported instruction: CHECK body CONTAINS \"admin\"");

    let r = verify_condition("", &ctx);
    assert!(!r.success);
    assert_eq!(r.message, "Unsupported instruction: ");

    let r = verify_condition("CHECK response.status BE 201", &ctx);
    assert!(!r.success);
    assert_eq!(r.message, "Unsupported instruction: CHECK response.status BE 201");

    let r = verify_condition("check header \"x\" exists", &ctx);
    assert!(!r.success);
    assert_eq!(r.message, "Unsupported instruction: check header \"x\" exists");
}

#[test]
fn header_lookup_ignores_ascii_case() {
    let ctx = captured(200, &[("x-frame-options", "DENY")]);
    let r = check_header("X-Frame-Options", &ctx);
    assert!(r.success);
    assert_eq!(r.message, "Condition satisfied: Header 'X-Frame-Options' is present");
    assert!(check_header("x-frame-options", &ctx).success);
    assert!(!check_header("x-frame-option", &ctx).success);
}

#[test]
fn header_lookup_rejects_what_is_no_name() {
    let ctx = captured(200, &[("x-frame-options", "DENY")]);
    assert!(!check_header("", &ctx).success);
    assert!(!check_header("x frame options", &ctx).success);
    assert!(!check_header("x-frame-options:", &ctx).success);
    assert!(!check_header("\u{e9}", &ctx).success);
    let long = "a".repeat(70000);
    let r = check_header(&long, &ctx);
    assert!(!r.success);
    assert_eq!(r.message.len(), "Security Gap: Header '' is missing".len() + 70000);
}

#[test]
fn header_lookup_with_long_names() {
    let name = "x-".to_string() + &"long".repeat(20);
    let mut headers = HeaderMap::new();
    headers.insert(
        HeaderName::from_bytes(name.as_bytes()).unwrap(),
        HeaderValue::from_static("1"),
    );
    let ctx = ResponseContext { status: 200, headers };
    assert!(check_header(&name, &ctx).success);
    assert!(check_header(&name.to_uppercase(), &ctx).success);
    let other = name.clone() + "!";
    assert!(!check_header(&other, &ctx).success);
    let spaced = name.replace('-', " ");
    assert!(!check_header(&spaced, &ctx).success);
}

#[test]
fn attack_payloads() {
    let r = execute_attack("attack", "secure_headers");
    assert!(r.success);
    assert_eq!(r.message, "Security headers audit completed successfully!!");

    let r = execute_attack("attack", "clear_session");
    assert!(r.success);
    assert_eq!(r.message, "Active sessions cleared from memory");

    let r = execute_attack("attack", "drop_tables");
    assert!(!r.success);
    assert_eq!(r.message, "Unknown attack payload: drop_tables");

    let r = execute_attack("attack", "");
    assert!(!r.success);
    assert_eq!(r.message, "Unknown attack payload: ");
}

#[test]
fn unknown_action_kinds() {
    let r = execute_attack("probe", "secure_headers");
    assert!(!r.success);
    assert_eq!(r.message, "Unsupported action kind: probe");

    let r = execute_attack("Attack", "secure_headers");
    assert!(!r.success);
    assert_eq!(r.message, "Unsupported action kind: Attack");

    let r = execute_attack("", "clear_session");
    assert!(!r.success);
    assert_eq!(r.message, "Unsupported action kind: ");
}

#[test]
fn version_is_reported() {
    assert_eq!(get_version(), "0.1.0");
}
