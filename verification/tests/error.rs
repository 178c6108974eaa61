use ultrafast_mcp_sequential_thinking::thinking::error::utils::field_validation_error;
use ultrafast_mcp_sequential_thinking::thinking::error::utils::from_generic_error;
use ultrafast_mcp_sequential_thinking::thinking::error::utils::from_string_error;
use ultrafast_mcp_sequential_thinking::thinking::error::utils::invalid_format_error;
use ultrafast_mcp_sequential_thinking::thinking::error::utils::required_field_error;
use ultrafast_mcp_sequential_thinking::thinking::error::utils::timeout_error;
use ultrafast_mcp_sequential_thinking::thinking::error::ErrorContext;
use ultrafast_mcp_sequential_thinking::thinking::error::SequentialThinkingError;
use ultrafast_mcp_sequential_thinking::time::TimeSpan;

#[test]
fn test_error_creation() {
    let error = SequentialThinkingError::invalid_thought_data("Empty thought");
    assert!(matches!(error, SequentialThinkingError::InvalidThoughtData { .. }));
    assert!(error.is_client_error());
    assert!(!error.is_retryable());
}

#[test]
fn test_error_codes() {
    let error = SequentialThinkingError::processing_error("Test");
    assert_eq!(error.error_code(), "PROCESSING_ERROR");
}

#[test]
fn test_user_message() {
    let error = SequentialThinkingError::validation_error("Invalid input");
    let message = error.user_message();
    assert!(message.contains("Validation failed"));
    assert!(message.contains("Invalid input"));
}

#[test]
fn test_error_context() {
    let context = ErrorContext::new("test_operation")
        .with_context("user_id", "123")
        .with_context("session_id", "abc");

    assert_eq!(context.operation, "test_operation");
    assert_eq!(context.context.get("user_id"), Some(&"123".to_string()));
    assert_eq!(context.context.get("session_id"), Some(&"abc".to_string()));
}

#[test]
fn every_kind_of_error() {
    let t = TimeSpan::from_millis(1500);
    let all = [
        (SequentialThinkingError::invalid_thought_data("d"), "INVALID_THOUGHT_DATA", "Invalid thought data: d", "Invalid thought data: d", false, true, false),
        (SequentialThinkingError::processing_error("d"), "PROCESSING_ERROR", "Failed to process thought: d", "Thought processing error: d", false, false, true),
        (SequentialThinkingError::session_error("d"), "SESSION_ERROR", "Session error: d", "Session error: d", false, false, true),
        (SequentialThinkingError::branch_error("d"), "BRANCH_ERROR", "Branch error: d", "Branch error: d", false, false, true),
        (SequentialThinkingError::validation_error("d"), "VALIDATION_ERROR", "Validation failed: d", "Validation error: d", false, true, false),
        (SequentialThinkingError::config_error("d"), "CONFIG_ERROR", "Configuration error: d", "Configuration error: d", false, true, false),
        (SequentialThinkingError::serialization_error("d"), "SERIALIZATION_ERROR", "Data format error: d", "Serialization error: d", false, false, true),
        (SequentialThinkingError::transport_error("d"), "TRANSPORT_ERROR", "Connection error: d", "Transport error: d", true, false, false),
        (SequentialThinkingError::internal_error("d"), "INTERNAL_ERROR", "System error: d", "Internal error: d", false, false, true),
        (SequentialThinkingError::not_found("d"), "NOT_FOUND", "Resource not found: d", "Resource not found: d", false, true, false),
        (SequentialThinkingError::permission_denied("d"), "PERMISSION_DENIED", "Access denied: d", "Permission denied: d", false, true, false),
        (SequentialThinkingError::rate_limit_exceeded("d"), "RATE_LIMIT_EXCEEDED", "Too many requests: d", "Rate limit exceeded: d", true, false, false),
        (SequentialThinkingError::timeout(t), "TIMEOUT", "Operation timed out after 1.5s", "Operation timed out after 1.5s", true, false, false),
        (SequentialThinkingError::cancelled("d"), "CANCELLED", "Operation cancelled: d", "Operation was cancelled: d", false, false, false),
        (from_generic_error("d".to_string()), "WRAPPED_ERROR", "Error: d", "Wrapped error: d", false, false, false),
    ];
    for (error, code, user, text, retryable, client, server) in all {
        assert_eq!(error.error_code(), code);
        assert_eq!(error.user_message(), user);
        assert_eq!(error.to_string(), text);
        assert_eq!(error.is_retryable(), retryable);
        assert_eq!(error.is_client_error(), client);
        assert_eq!(error.is_server_error(), server);
    }
}

#[test]
fn error_shorthands() {
    let error = from_string_error("boom".to_string());
    assert!(matches!(error, SequentialThinkingError::InternalError { .. }));
    assert_eq!(error.detail_text(), "boom");
    let error = timeout_error(TimeSpan::from_secs(5));
    assert_eq!(error.user_message(), "Operation timed out after 5s");
    let error = field_validation_error("age", "too small");
    assert!(matches!(error, SequentialThinkingError::ValidationError { .. }));
    assert_eq!(error.detail_text(), "Field 'age': too small");
    assert_eq!(required_field_error("name").detail_text(), "Field 'name': Field is required");
    assert_eq!(
        invalid_format_error("date", "YYYY").user_message(),
        "Validation failed: Field 'date': Expected format: YYYY"
    );
}

#[test]
fn time_spans() {
    let span = TimeSpan::from_millis(2750);
    assert_eq!(span.seconds(), 2);
    assert_eq!(span.nanoseconds(), 750_000_000);
    assert_eq!(span.debug_text(), "2.75s");
    assert_eq!(TimeSpan::from_secs(0).debug_text(), "0ns");
    assert_eq!(TimeSpan::new(1, 999_999_999).unwrap().nanoseconds(), 999_999_999);
    assert_eq!(TimeSpan::new(1, 1_000_000_000), None);
    assert_eq!(TimeSpan::new(3, 0), Some(TimeSpan::from_secs(3)));
}

#[test]
fn error_context_takes_pairs_in_order() {
    let context = ErrorContext::new("op").with_contexts(vec![
        ("a".to_string(), "1".to_string()),
        ("b".to_string(), "2".to_string()),
        ("a".to_string(), "3".to_string()),
    ]);
    assert_eq!(context.context.keys(), vec!["a".to_string(), "b".to_string()]);
    assert_eq!(context.context.get("a"), Some(&"3".to_string()));
    assert_eq!(context.context.get("b"), Some(&"2".to_string()));
    let context = context.with_contexts(Vec::new());
    assert_eq!(context.context.len(), 2);
}

#[test]
fn test_from_implementations() {
    let io_error = std::io::Error::new(std::io::ErrorKind::NotFound, "File not found");
    let mcp_error: SequentialThinkingError = io_error.into();
    assert!(matches!(mcp_error, SequentialThinkingError::TransportError { .. }));

    let json_error = serde_json::from_str::<serde_json::Value>("invalid json").unwrap_err();
    let mcp_error: SequentialThinkingError = json_error.into();
    assert!(matches!(mcp_error, SequentialThinkingError::SerializationError { .. }));
}

#[test]
fn outside_errors_keep_their_text() {
    let io_error = std::io::Error::new(std::io::ErrorKind::NotFound, "File not found");
    let error = SequentialThinkingError::from(io_error);
    assert_eq!(error.detail_text(), "File not found");
    assert_eq!(error.user_message(), "Connection error: File not found");
    let json_error = serde_json::from_str::<serde_json::Value>("{").unwrap_err();
    let text = json_error.to_string();
    let error = SequentialThinkingError::from(json_error);
    assert_eq!(error.detail_text(), text);
    let uuid_error = uuid::Uuid::parse_str("nope").unwrap_err();
    let text = uuid_error.to_string();
    let error = SequentialThinkingError::from(uuid_error);
    assert!(matches!(error, SequentialThinkingError::ValidationError { .. }));
    assert_eq!(error.detail_text(), text);
    let parse_error = chrono::DateTime::parse_from_rfc3339("nope").unwrap_err();
    let text = parse_error.to_string();
    let error = SequentialThinkingError::from(parse_error);
    assert!(matches!(error, SequentialThinkingError::ValidationError { .. }));
    assert_eq!(error.detail_text(), text);
}
