use telegram_mcp::error::Error;

fn assert_send_sync<T: Send + Sync>() {}

#[test]
fn test_auth_error_display() {
    let error = Error::Auth("invalid credentials".to_string());
    assert_eq!(
        error.message(),
        "authentication failed: invalid credentials"
    );
}

#[test]
fn test_telegram_api_error_display() {
    let error = Error::TelegramApi("flood wait".to_string());
    assert_eq!(error.message(), "telegram API error: flood wait");
}

#[test]
fn test_rate_limit_error_display() {
    let error = Error::RateLimit {
        retry_after_seconds: 5,
    };
    assert_eq!(
        error.message(),
        "rate limit exceeded, retry after 5 seconds"
    );
}

#[test]
fn test_config_error_display() {
    let error = Error::Config("missing api_id".to_string());
    assert_eq!(error.message(), "configuration error: missing api_id");
}

#[test]
fn test_network_error_display() {
    let error = Error::Network("connection timeout".to_string());
    assert_eq!(error.message(), "network error: connection timeout");
}

#[test]
fn test_mcp_error_display() {
    let error = Error::Mcp("invalid request".to_string());
    assert_eq!(error.message(), "MCP protocol error: invalid request");
}

#[test]
fn test_error_debug_format() {
    let error = Error::Auth("test".to_string());
    let debug_output = format!("{:?}", error);
    assert!(debug_output.contains("Auth"));
    assert!(debug_output.contains("test"));
}

#[test]
fn test_error_is_send_sync() {
    assert_send_sync::<Error>();
}

#[test]
fn test_invalid_input_error_display() {
    let error = Error::InvalidInput("Channel ID must be positive".to_string());
    assert_eq!(
        error.message(),
        "invalid input: Channel ID must be positive"
    );
}

#[test]
fn test_is_rate_limit_distinguishes_variants() {
    assert!(Error::RateLimit { retry_after_seconds: 1 }.is_rate_limit());
    assert!(!Error::Auth("x".to_string()).is_rate_limit());
    assert!(!Error::InvalidInput("x".to_string()).is_rate_limit());
}
