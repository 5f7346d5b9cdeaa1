use k_shrink::{ClipboardError, ConfigError, ProcessError, ShrinkError};

#[test]
fn clipboard_error_messages() {
    assert_eq!(ClipboardError::Empty.message(), "Clipboard is empty");
    assert_eq!(
        ClipboardError::InvalidType("text/plain".to_string()).message(),
        "Invalid clipboard type: text/plain"
    );
    assert_eq!(
        ClipboardError::BackendError("no seats".to_string()).message(),
        "Backend error: no seats"
    );
}

#[test]
fn shrink_error_messages() {
    assert_eq!(
        ShrinkError::UnsupportedFormat("xyz".to_string()).message(),
        "Unsupported format: xyz"
    );
    assert_eq!(ShrinkError::EncodingFailed("boom".to_string()).message(), "Encoding failed: boom");
    assert_eq!(ShrinkError::DecodingFailed("bad".to_string()).message(), "Decoding failed: bad");
}

#[test]
fn config_error_messages() {
    assert_eq!(
        ConfigError::ParseError("expected `=`".to_string()).message(),
        "Failed to parse config: expected `=`"
    );
    assert_eq!(ConfigError::InvalidQuality(150).message(), "Quality must be 0–100, got 150");
    assert_eq!(ConfigError::InvalidQuality(255).message(), "Quality must be 0–100, got 255");
    assert_eq!(ConfigError::InvalidPollMs(50).message(), "poll_ms must be at least 100, got 50");
    assert_eq!(ConfigError::InvalidPollMs(0).message(), "poll_ms must be at least 100, got 0");
    assert_eq!(
        ConfigError::InvalidPollMs(u64::MAX).message(),
        format!("poll_ms must be at least 100, got {}", u64::MAX)
    );
}

#[test]
fn process_error_message_is_the_inner_one() {
    assert_eq!(ProcessError::Clipboard(ClipboardError::Empty).message(), "Clipboard is empty");
    assert_eq!(
        ProcessError::Shrink(ShrinkError::DecodingFailed("x".to_string())).message(),
        "Decoding failed: x"
    );
}
