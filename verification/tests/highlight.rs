use syntax_highlighter::highlight::normalize;
use syntax_highlighter::{lsif, scip, syntect, BackendError, Isolated, Payload, PayloadKind, ResponseEnvelope};

fn markup(body: &str) -> Payload {
    Payload { kind: PayloadKind::Markup, body: body.to_string(), plaintext: false }
}

fn failure(message: &str, code: Option<&str>) -> BackendError {
    BackendError { message: message.to_string(), code: code.map(|c| c.to_string()) }
}

#[test]
fn crash_becomes_panic_envelope() {
    assert_eq!(
        syntect(Isolated::Crashed),
        ResponseEnvelope::Failure {
            error: "panic while highlighting code".to_string(),
            code: Some("panic".to_string()),
        }
    );
}

#[test]
fn request_after_a_crash_succeeds() {
    let crashed = syntect(Isolated::Crashed);
    assert!(crashed.is_error());
    let next = syntect(Isolated::Completed(Ok(markup("<table></table>"))));
    assert_eq!(next, ResponseEnvelope::Success(markup("<table></table>")));
    assert!(!next.is_error());
}

#[test]
fn legacy_error_is_not_recoded() {
    let r = syntect(Isolated::Completed(Err(failure("invalid language", Some("invalid_language")))));
    assert_eq!(
        r,
        ResponseEnvelope::Failure {
            error: "invalid language".to_string(),
            code: Some("invalid_language".to_string()),
        }
    );
}

#[test]
fn structured_success_passes_through() {
    let p = Payload { kind: PayloadKind::Document, body: "CgA=".to_string(), plaintext: true };
    assert_eq!(lsif(Ok(p.clone())), ResponseEnvelope::Success(p.clone()));
    assert_eq!(scip(Ok(p.clone())), ResponseEnvelope::Success(p.clone()));
    assert_eq!(normalize(Ok(p.clone())), ResponseEnvelope::Success(p));
}

#[test]
fn structured_error_keeps_message_and_code() {
    let expected = ResponseEnvelope::Failure {
        error: "no grammar".to_string(),
        code: Some("hss_worker_timeout".to_string()),
    };
    assert_eq!(lsif(Err(failure("no grammar", Some("hss_worker_timeout")))), expected);
    assert_eq!(scip(Err(failure("no grammar", Some("hss_worker_timeout")))), expected);
    assert_eq!(
        scip(Err(failure("plain", None))),
        ResponseEnvelope::Failure { error: "plain".to_string(), code: None }
    );
}
