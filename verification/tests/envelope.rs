use syntax_highlighter::{health, jsonify_err, not_found, ResponseEnvelope};

#[test]
fn health_is_always_ok() {
    for _ in 0..5 {
        assert_eq!(health(), "OK");
    }
}

#[test]
fn unknown_route_envelope() {
    assert_eq!(
        not_found(),
        ResponseEnvelope::Failure {
            error: "resource not found".to_string(),
            code: Some("resource_not_found".to_string()),
        }
    );
    assert!(not_found().is_error());
}

#[test]
fn jsonify_err_has_message_and_no_code() {
    assert_eq!(
        jsonify_err("boom".to_string()),
        ResponseEnvelope::Failure { error: "boom".to_string(), code: None }
    );
    assert_eq!(
        jsonify_err(String::new()),
        ResponseEnvelope::Failure { error: String::new(), code: None }
    );
}

#[test]
fn panic_envelope_text() {
    assert_eq!(
        ResponseEnvelope::panic(),
        ResponseEnvelope::Failure {
            error: "panic while highlighting code".to_string(),
            code: Some("panic".to_string()),
        }
    );
}
