use ai_content_service::handlers::{
    content_reply, health, trace_line, HTTP_INTERNAL_SERVER_ERROR, HTTP_OK, VERSION,
};
use ai_content_service::models::{ContentRequest, ContentResponse};
use ai_content_service::orchestrator::InternalFailure;

#[test]
fn health_reports_ok_with_the_version() {
    let reply = health();
    assert_eq!(reply.status, 200);
    let body = reply.body.expect("the health report has a body");
    assert_eq!(body.status, "OK");
    assert_eq!(body.version, "0.1.0");
    assert_eq!(body.version, VERSION);
}

#[test]
fn health_is_the_same_every_time() {
    let first = health();
    let second = health();
    assert_eq!(first.status, second.status);
    assert_eq!(first.body.as_ref().unwrap().status, second.body.as_ref().unwrap().status);
    assert_eq!(first.body.as_ref().unwrap().version, second.body.as_ref().unwrap().version);
}

#[test]
fn status_codes_are_200_and_500() {
    assert_eq!(HTTP_OK, 200);
    assert_eq!(HTTP_INTERNAL_SERVER_ERROR, 500);
}

#[test]
fn envelope_is_sent_with_200() {
    let envelope = ContentResponse::completed(
        "3f2b8c1e-5d4a-4f6b-9a7c-0123456789ab".to_string(),
        "Dream big.".to_string(),
        "2024-05-17T09:30:00+00:00".to_string(),
    );
    let reply = content_reply(Ok(envelope));
    assert_eq!(reply.status, 200);
    let body = reply.body.expect("the envelope is the body");
    assert_eq!(body.id(), "3f2b8c1e-5d4a-4f6b-9a7c-0123456789ab");
    assert_eq!(body.content(), "Dream big.");
    assert_eq!(body.created_at(), "2024-05-17T09:30:00+00:00");
}

#[test]
fn failure_is_sent_with_500_and_no_body() {
    let reply = content_reply(Err(InternalFailure {}));
    assert_eq!(reply.status, 500);
    assert!(reply.body.is_none());
}

#[test]
fn trace_line_names_type_and_language_only() {
    let request = ContentRequest {
        prompt: "Write a tagline".to_string(),
        content_type: "marketing".to_string(),
        language: "en".to_string(),
        company_id: "acme".to_string(),
    };
    assert_eq!(trace_line(&request), "Génération de contenu: type=marketing, langue=en");
}

#[test]
fn trace_line_takes_empty_fields() {
    let request = ContentRequest {
        prompt: String::new(),
        content_type: String::new(),
        language: String::new(),
        company_id: String::new(),
    };
    assert_eq!(trace_line(&request), "Génération de contenu: type=, langue=");
}
