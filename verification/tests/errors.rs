use flute::api_error::{from_aspnet, ApiError};

#[test]
fn message_combines_title_and_details() {
    let body = r#"{"details":"X","title":"Validation failed","statusCode":400,"correlationId":"abc-123","errorCode":"V0000"}"#;
    match from_aspnet(400, body) {
        ApiError::Api { status, correlation_id, message } => {
            assert_eq!(status, 400);
            assert_eq!(correlation_id.as_deref(), Some("abc-123"));
            assert_eq!(message, "Validation failed: X");
        }
        _ => panic!("expected Api"),
    }
}

#[test]
fn message_uses_details_when_title_missing() {
    let body = r#"{"details":"X","correlationId":"abc-123"}"#;
    match from_aspnet(400, body) {
        ApiError::Api { message, .. } => assert_eq!(message, "X"),
        _ => panic!(),
    }
}

#[test]
fn falls_back_when_body_is_not_aspnet() {
    match from_aspnet(500, "oops") {
        ApiError::Api { status, correlation_id, message } => {
            assert_eq!(status, 500);
            assert!(correlation_id.is_none());
            assert_eq!(message, "oops");
        }
        _ => panic!(),
    }
}

#[test]
fn surfaces_field_level_validation_errors() {
    let body = r#"{"Errors":{"":["Card expiration year must be provided and be in [2000..3000] range"],"CurrencyId":["'Currency Id' must not be empty."]},"Details":"One or more validation errors occurred.","StatusCode":400,"ExceptionType":"ValidationException","CorrelationId":"e828","ErrorCode":"V0000","Title":"Validation failed"}"#;
    match from_aspnet(400, body) {
        ApiError::Api { message, correlation_id, .. } => {
            assert_eq!(correlation_id.as_deref(), Some("e828"));
            assert!(
                message.contains("Validation failed: One or more validation errors occurred. [ValidationException]"),
                "core message preserved: {message}"
            );
            assert!(message.contains("Card expiration year must be provided"), "form-level error surfaced: {message}");
            assert!(
                message.contains("CurrencyId: 'Currency Id' must not be empty."),
                "field-prefixed error surfaced: {message}"
            );
        }
        _ => panic!("expected Api"),
    }
}

#[test]
fn pascal_case_500_surfaces_full_message_with_exception_type() {
    let body = r#"{"Details":"Value cannot be null. (Parameter 'uriString')","StatusCode":500,"Source":"IsvApiBff","ExceptionType":"ArgumentNullException","CorrelationId":"45d859f6-dc38-4d8f-8bab-ae4e20036919","ErrorCode":"I0000","Title":"Internal server error"}"#;
    match from_aspnet(500, body) {
        ApiError::Api { status, correlation_id, message } => {
            assert_eq!(status, 500);
            assert_eq!(correlation_id.as_deref(), Some("45d859f6-dc38-4d8f-8bab-ae4e20036919"));
            assert_eq!(
                message,
                "Internal server error: Value cannot be null. (Parameter 'uriString') [ArgumentNullException]"
            );
        }
        _ => panic!("expected Api"),
    }
}

#[test]
fn body_is_used_verbatim_when_title_and_details_missing() {
    let body = r#"{"correlationId":"c-1"}"#;
    match from_aspnet(500, body) {
        ApiError::Api { status, correlation_id, message } => {
            assert_eq!(status, 500);
            assert_eq!(correlation_id.as_deref(), Some("c-1"));
            assert_eq!(message, body, "raw body preserved as the message");
        }
        _ => panic!("expected Api"),
    }
}

#[test]
fn empty_field_errors_map_appends_nothing() {
    let body = r#"{"Title":"X","Errors":{"CurrencyId":[]}}"#;
    match from_aspnet(400, body) {
        ApiError::Api { message, .. } => {
            assert_eq!(message, "X");
            assert!(!message.contains("CurrencyId"), "empty field lists must not be appended: {message}");
        }
        _ => panic!("expected Api"),
    }
}

#[test]
fn field_errors_are_ordered_by_field_name() {
    let body = r#"{"Title":"T","Errors":{"b":["two"],"a":["one","uno"]}}"#;
    match from_aspnet(422, body) {
        ApiError::Api { message, .. } => assert_eq!(message, "T: a: one; uno; b: two"),
        _ => panic!("expected Api"),
    }
}

#[test]
fn field_prefix_appears_once_per_field() {
    let body = r#"{"Title":"T","Errors":{"":["a"],"F":["b","c"]}}"#;
    match from_aspnet(400, body) {
        ApiError::Api { message, .. } => assert_eq!(message, "T: a; F: b; c"),
        _ => panic!("expected Api"),
    }
}
