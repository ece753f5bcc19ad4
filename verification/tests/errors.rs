use semembed::error::{ApiError, ErrorKind};

#[test]
fn empty_input_is_an_invalid_request() {
    let e = ApiError::EmptyInput;
    assert_eq!(e.kind(), ErrorKind::InvalidRequest);
    assert_eq!(e.status(), 400);
    assert_eq!(e.error_type(), "invalid_request_error");
    assert_eq!(e.message(), "Input cannot be empty");
}

#[test]
fn engine_failure_carries_the_engines_message() {
    let e = ApiError::Engine("tokenizer rejected input".to_string());
    assert_eq!(e.kind(), ErrorKind::EngineFailure);
    assert_eq!(e.status(), 500);
    assert_eq!(e.error_type(), "internal_error");
    assert_eq!(e.message(), "Failed to generate embeddings: tokenizer rejected input");
}

#[test]
fn engine_failure_with_empty_message() {
    let e = ApiError::Engine(String::new());
    assert_eq!(e.message(), "Failed to generate embeddings: ");
}

#[test]
fn metrics_encoding_failure_is_internal() {
    let e = ApiError::MetricsEncoding;
    assert_eq!(e.kind(), ErrorKind::InternalError);
    assert_eq!(e.status(), 500);
    assert_eq!(e.error_type(), "internal_error");
    assert_eq!(e.message(), "Failed to encode metrics");
}

#[test]
fn metrics_conversion_failure_is_internal() {
    let e = ApiError::MetricsConversion;
    assert_eq!(e.kind(), ErrorKind::InternalError);
    assert_eq!(e.status(), 500);
    assert_eq!(e.error_type(), "internal_error");
    assert_eq!(e.message(), "Failed to convert metrics");
}

#[test]
fn document_holds_message_and_type() {
    let doc = ApiError::EmptyInput.document();
    assert_eq!(doc.error.message, "Input cannot be empty");
    assert_eq!(doc.error.error_type, "invalid_request_error");

    let doc = ApiError::Engine("boom".to_string()).document();
    assert_eq!(doc.error.message, "Failed to generate embeddings: boom");
    assert_eq!(doc.error.error_type, "internal_error");
}

#[test]
fn malformed_request_is_invalid_with_the_decoders_message() {
    let e = ApiError::Malformed("expected value at line 1 column 1".to_string());
    assert_eq!(e.kind(), ErrorKind::InvalidRequest);
    assert_eq!(e.status(), 400);
    assert_eq!(e.error_type(), "invalid_request_error");
    assert_eq!(e.message(), "expected value at line 1 column 1");
}

#[test]
fn unknown_encoding_is_invalid_and_names_the_format() {
    let e = ApiError::UnknownEncoding("hex".to_string());
    assert_eq!(e.kind(), ErrorKind::InvalidRequest);
    assert_eq!(e.status(), 400);
    assert_eq!(e.error_type(), "invalid_request_error");
    assert_eq!(e.message(), "Unknown encoding format: hex");
}
