use dusk_warden::client::check_bws_error;
use dusk_warden::error::{ClientError, ErrorKind};

#[test]
fn check_bws_error_returns_permission_message_on_404() {
    let stderr = "Error: Received error message from server: [404 Not Found] {\"message\":\"Resource not found.\"}";
    let err = check_bws_error(stderr, "abc-123");
    let msg = err.message();
    assert!(msg.contains("not found or access denied"), "got: {msg}");
    assert!(msg.contains("write permissions"), "got: {msg}");
    assert!(msg.contains("abc-123"), "got: {msg}");
}

#[test]
fn check_bws_error_returns_raw_stderr_for_other_errors() {
    let stderr = "Error: something else went wrong";
    let err = check_bws_error(stderr, "abc-123");
    let msg = err.message();
    assert!(msg.contains("bws failed:"), "got: {msg}");
    assert!(msg.contains("something else went wrong"), "got: {msg}");
}

#[test]
fn not_found_message_is_exact() {
    let err = check_bws_error("[404 Not Found]", "abc-123");
    assert_eq!(
        err.message(),
        "Secret abc-123 not found or access denied. Check that your service account token has write permissions."
    );
    assert_eq!(err.kind(), ErrorKind::Remote);
}

#[test]
fn other_message_is_prefix_and_diagnostic() {
    let err = check_bws_error("Error: something else went wrong", "abc-123");
    assert_eq!(
        err,
        ClientError::Remote { message: "bws failed: Error: something else went wrong".to_string() }
    );
    assert!(!err.message().contains("abc-123"));
}

#[test]
fn either_marker_is_enough() {
    let by_number = check_bws_error("status 404", "id-1");
    let by_phrase = check_bws_error("Resource not found.", "id-1");
    assert_eq!(by_number, by_phrase);
    assert!(by_phrase.message().contains("not found or access denied"));
}

#[test]
fn markers_are_case_sensitive() {
    let err = check_bws_error("resource not found", "id-1");
    assert_eq!(err.message(), "bws failed: resource not found");
    let err = check_bws_error("RESOURCE NOT FOUND", "id-1");
    assert_eq!(err.message(), "bws failed: RESOURCE NOT FOUND");
}

#[test]
fn marker_inside_a_longer_number_counts() {
    let err = check_bws_error("took 14042 ms", "id-1");
    assert!(err.message().contains("write permissions"));
}

#[test]
fn empty_diagnostic_is_handed_on() {
    let err = check_bws_error("", "id-1");
    assert_eq!(err.message(), "bws failed: ");
}

#[test]
fn diagnostic_is_kept_letter_for_letter() {
    let stderr = "  line one\n\tligne deux: échec ✗\n";
    let err = check_bws_error(stderr, "id-1");
    assert_eq!(err.message(), format!("bws failed: {stderr}"));
}

#[test]
fn marker_after_text_beyond_ascii_is_found() {
    let err = check_bws_error("échec: Resource not found", "clé");
    assert_eq!(
        err.message(),
        "Secret clé not found or access denied. Check that your service account token has write permissions."
    );
}
