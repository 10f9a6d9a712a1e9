use fabric_atelier::pattern::Pattern;
use std::path::PathBuf;
use std::time::SystemTime;

fn test_pattern() -> Pattern {
    Pattern {
        name: "summarize".to_string(),
        description: "Summarize content".to_string(),
        system_prompt: "You are a summarizer".to_string(),
        user_prompt: Some("Summarize this".to_string()),
        category: Some("writing".to_string()),
        tags: vec!["summarization".to_string(), "writing".to_string()],
        path: PathBuf::from("patterns/summarize"),
        modified: SystemTime::now(),
    }
}

fn bare_pattern() -> Pattern {
    Pattern {
        name: "summarize".to_string(),
        description: "Summarize content".to_string(),
        system_prompt: String::new(),
        user_prompt: None,
        category: None,
        tags: vec!["summarization".to_string()],
        path: PathBuf::new(),
        modified: SystemTime::now(),
    }
}

#[test]
fn test_tool_name() {
    let pattern = test_pattern();
    assert_eq!(pattern.tool_name(), "fabric_summarize");
}

#[test]
fn test_matches_name() {
    let pattern = test_pattern();
    assert!(pattern.matches("summar"));
    assert!(pattern.matches("SUMMAR"));
}

#[test]
fn test_matches_description() {
    let pattern = test_pattern();
    assert!(pattern.matches("content"));
}

#[test]
fn test_matches_tags() {
    let pattern = test_pattern();
    assert!(pattern.matches("summarization"));
}

#[test]
fn test_matches_category() {
    let pattern = test_pattern();
    assert!(pattern.matches("writing"));
}

#[test]
fn test_no_match() {
    let pattern = test_pattern();
    assert!(!pattern.matches("security"));
}

#[test]
fn test_has_user_prompt() {
    let pattern = test_pattern();
    assert!(pattern.has_user_prompt());

    let mut pattern_no_user = pattern.clone();
    pattern_no_user.user_prompt = None;
    assert!(!pattern_no_user.has_user_prompt());
}

#[test]
fn matches_is_case_insensitive_and_by_substring() {
    let pattern = bare_pattern();
    assert!(pattern.matches("SUMMAR"));
    assert!(pattern.matches("content"));
    assert!(pattern.matches("summarization"));
    assert!(!pattern.matches("security"));
}

#[test]
fn matches_lowers_the_pattern_side_too() {
    let mut pattern = bare_pattern();
    pattern.name = "SUMMARIZE".to_string();
    pattern.description = String::new();
    pattern.tags = vec![];
    assert!(pattern.matches("summarize"));
    assert!(pattern.matches("MmAr"));
    assert!(!pattern.matches("summarizer"));
}

#[test]
fn matches_only_a_tag() {
    let mut pattern = bare_pattern();
    pattern.tags = vec!["alpha".to_string(), "Beta".to_string()];
    assert!(pattern.matches("bet"));
    assert!(!pattern.matches("gamma"));
}

#[test]
fn absent_category_never_matches() {
    let pattern = bare_pattern();
    assert!(!pattern.matches("writing"));
    let mut with_category = bare_pattern();
    with_category.category = Some("Writing".to_string());
    assert!(with_category.matches("writing"));
}

#[test]
fn empty_query_matches_every_pattern() {
    let pattern = bare_pattern();
    assert!(pattern.matches(""));
}

#[test]
fn tool_name_of_empty_name_is_the_prefix() {
    let mut pattern = bare_pattern();
    pattern.name = String::new();
    assert_eq!(pattern.tool_name(), "fabric_");
}

#[test]
fn search_key_is_in_lower_case() {
    let mut pattern = test_pattern();
    pattern.name = "SummaRize".to_string();
    pattern.tags = vec!["ÄB".to_string(), "x".to_string()];
    pattern.category = Some("Writing".to_string());
    let key = pattern.search_key();
    assert_eq!(key.name, "summarize");
    assert_eq!(key.description, "summarize content");
    assert_eq!(key.tags, vec!["äb".to_string(), "x".to_string()]);
    assert_eq!(key.category, Some("writing".to_string()));
}

#[test]
fn search_key_holds_by_substring_as_given() {
    let key = fabric_atelier::pattern::SearchKey {
        name: "summarize".to_string(),
        description: "summarize content".to_string(),
        tags: vec!["summarization".to_string()],
        category: None,
    };
    assert!(key.holds("summar"));
    assert!(key.holds("content"));
    assert!(key.holds("tion"));
    assert!(!key.holds("SUMMAR"));
    assert!(!key.holds("security"));
}
