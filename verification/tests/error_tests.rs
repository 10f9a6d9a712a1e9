use fabric_atelier::error::{decimal, Error};

#[test]
fn test_pattern_not_found() {
    let err = Error::PatternNotFound("summarize".to_string());
    assert_eq!(err.message(), "Pattern 'summarize' not found");
}

#[test]
fn test_invalid_embedding_dimension() {
    let err = Error::InvalidEmbeddingDimension { expected: 1536, actual: 768 };
    assert_eq!(err.message(), "Invalid embedding dimension: expected 1536, got 768");
}

#[test]
fn test_pattern_execution_failed() {
    let err = Error::pattern_execution_failed("summarize", "timeout");
    assert!(err.message().contains("summarize"));
    assert!(err.message().contains("timeout"));
}

#[test]
fn pattern_execution_failed_message_is_exact() {
    let err = Error::pattern_execution_failed("summarize", "timeout");
    assert_eq!(err.message(), "Failed to execute pattern 'summarize': timeout");
}

#[test]
fn invalid_pattern_message() {
    let err = Error::invalid_pattern("broken", "Failed to read system.md: gone");
    assert_eq!(err.message(), "Invalid pattern 'broken': Failed to read system.md: gone");
}

#[test]
fn pattern_directory_not_found_lists_locations() {
    let err = Error::pattern_directory_not_found(vec![
        "data/fabric/data/patterns".to_string(),
        "/home/u/.config/fabric/patterns".to_string(),
    ]);
    assert_eq!(
        err.message(),
        "Pattern directory not found. Tried: [\"data/fabric/data/patterns\", \"/home/u/.config/fabric/patterns\"]"
    );
}

#[test]
fn pattern_directory_not_found_escapes_locations() {
    let err = Error::pattern_directory_not_found(vec!["a\"b".to_string()]);
    assert_eq!(err.message(), "Pattern directory not found. Tried: [\"a\\\"b\"]");
}

#[test]
fn remaining_messages() {
    assert_eq!(Error::InvalidArrowSchema("x".to_string()).message(), "Invalid Arrow schema: x");
    assert_eq!(Error::McpProtocolError("x".to_string()).message(), "MCP protocol error: x");
    assert_eq!(Error::ConfigError("x".to_string()).message(), "Configuration error: x");
    assert_eq!(Error::Io("disk".to_string()).message(), "disk");
    assert_eq!(Error::Arrow("schema mismatch".to_string()).message(), "schema mismatch");
    assert_eq!(Error::Parquet("bad footer".to_string()).message(), "bad footer");
    assert_eq!(Error::Json("bad json".to_string()).message(), "bad json");
    assert_eq!(Error::Toml("bad toml".to_string()).message(), "bad toml");
}

#[test]
fn decimal_writes_numbers() {
    assert_eq!(decimal(0), "0");
    assert_eq!(decimal(7), "7");
    assert_eq!(decimal(10), "10");
    assert_eq!(decimal(1536), "1536");
    assert_eq!(decimal(u64::MAX), "18446744073709551615");
}

#[test]
fn directory_not_found_message_wraps_the_list() {
    assert_eq!(
        fabric_atelier::error::directory_not_found_message("[\"a\"]"),
        "Pattern directory not found. Tried: [\"a\"]"
    );
}

#[test]
fn bracketed_list_frames_the_items() {
    assert_eq!(fabric_atelier::error::bracketed_list(&vec![]), "[]");
    assert_eq!(
        fabric_atelier::error::bracketed_list(&vec!["a".to_string(), "b".to_string()]),
        "[a, b]"
    );
}

#[test]
fn empty_location_list() {
    let err = Error::pattern_directory_not_found(vec![]);
    assert_eq!(err.message(), "Pattern directory not found. Tried: []");
}
