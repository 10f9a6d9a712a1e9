use fabric_atelier::metadata::{
    extract_description, extract_metadata, rule_matches, tag_name, RuleGroup,
};

#[test]
fn test_extract_description_with_identity() {
    let content = "# IDENTITY\n\nYou are a helpful assistant.\n\n# STEPS";
    let desc = extract_description(content);
    assert_eq!(desc, "You are a helpful assistant.");
}

#[test]
fn test_extract_description_with_purpose() {
    let content = "# PURPOSE\n\nSummarize content effectively.\n\n# OUTPUT";
    let desc = extract_description(content);
    assert_eq!(desc, "Summarize content effectively.");
}

#[test]
fn test_extract_description_fallback() {
    let content = "This is a pattern.\n\nIt does things.";
    let desc = extract_description(content);
    assert!(desc.contains("This is a pattern"));
}

#[test]
fn test_extract_metadata_security() {
    let content = "Analyze security threats and vulnerabilities";
    let (category, tags) = extract_metadata(content);
    assert_eq!(category, Some("security".to_string()));
    assert!(tags.contains(&"security".to_string()));
    assert!(tags.contains(&"analysis".to_string()));
}

#[test]
fn test_extract_metadata_writing() {
    let content = "Help with writing essays and articles";
    let (category, tags) = extract_metadata(content);
    assert_eq!(category, Some("writing".to_string()));
    assert!(tags.contains(&"writing".to_string()));
}

#[test]
fn test_extract_metadata_coding() {
    let content = "Analyze code and programming patterns";
    let (category, tags) = extract_metadata(content);
    assert_eq!(category, Some("coding".to_string()));
    assert!(tags.contains(&"coding".to_string()));
    assert!(tags.contains(&"analysis".to_string()));
}

#[test]
fn test_extract_metadata_summarization() {
    let content = "Summarize content and extract key points";
    let (_category, tags) = extract_metadata(content);
    assert!(tags.contains(&"summarization".to_string()));
    assert!(tags.contains(&"analysis".to_string()));
}

#[test]
fn fallback_is_exactly_the_first_paragraph() {
    assert_eq!(extract_description("This is a pattern.\n\nIt does things."), "This is a pattern.");
}

#[test]
fn fallback_joins_the_lines_of_a_paragraph_with_spaces() {
    let content = "# Title\n\nfirst line\nsecond line\n\nnext paragraph";
    assert_eq!(extract_description(content), "first line second line");
}

#[test]
fn fallback_keeps_lines_untrimmed() {
    let content = "  indented \nmore\n";
    assert_eq!(extract_description(content), "  indented  more");
}

#[test]
fn fallback_is_cut_to_200_characters() {
    let long = "x".repeat(250);
    let desc = extract_description(&long);
    assert_eq!(desc.chars().count(), 200);
    assert_eq!(desc, "x".repeat(200));
}

#[test]
fn fallback_counts_characters_not_bytes() {
    let long = "é".repeat(201);
    let desc = extract_description(&long);
    assert_eq!(desc, "é".repeat(200));
}

#[test]
fn fallback_of_exactly_200_characters_is_kept() {
    let text = "y".repeat(200);
    assert_eq!(extract_description(&text), text);
}

#[test]
fn description_of_empty_text_is_empty() {
    assert_eq!(extract_description(""), "");
    assert_eq!(extract_description("\n\n"), "");
    assert_eq!(extract_description("# only\n# headings"), "");
}

#[test]
fn marker_description_is_trimmed_and_skips_headings() {
    let content = "intro\n## # IDENTITY and more\n\n   # not this\n\t the one \nlater";
    assert_eq!(extract_description(content), "the one");
}

#[test]
fn marker_without_description_falls_back() {
    let content = "opening words\n\n# PURPOSE\n\n# END";
    assert_eq!(extract_description(content), "opening words");
}

#[test]
fn carriage_returns_before_line_feeds_are_dropped() {
    let content = "# IDENTITY\r\n\r\nYou help.\r\n";
    assert_eq!(extract_description(content), "You help.");
    assert_eq!(extract_description("one\r\ntwo\r\n\r\nthree"), "one two");
}

#[test]
fn metadata_is_case_insensitive() {
    let (category, tags) = extract_metadata("SECURITY");
    assert_eq!(category, Some("security".to_string()));
    assert_eq!(tags, vec!["security".to_string()]);
}

#[test]
fn metadata_of_plain_text_is_empty() {
    let (category, tags) = extract_metadata("Hello there");
    assert_eq!(category, None);
    assert!(tags.is_empty());
}

#[test]
fn first_matching_category_wins_and_tags_are_sorted() {
    let content = "Summarize the software article, analyze each threat";
    let (category, tags) = extract_metadata(content);
    assert_eq!(category, Some("security".to_string()));
    assert_eq!(
        tags,
        vec![
            "analysis".to_string(),
            "coding".to_string(),
            "security".to_string(),
            "summarization".to_string(),
            "writing".to_string(),
        ]
    );
}

#[test]
fn writing_wins_over_coding() {
    let (category, tags) = extract_metadata("an essay about code");
    assert_eq!(category, Some("writing".to_string()));
    assert_eq!(tags, vec!["coding".to_string(), "writing".to_string()]);
}

#[test]
fn tags_come_out_sorted_and_without_repetition() {
    let (_, tags) = extract_metadata("writing writing essay security threat summary summarize");
    let mut sorted = tags.clone();
    sorted.sort();
    sorted.dedup();
    assert_eq!(tags, sorted);
    assert_eq!(tags.len(), 3);
}

#[test]
fn each_rule_has_its_keywords() {
    let lower = |s: &str| s.chars().collect::<Vec<char>>();
    assert!(rule_matches(RuleGroup::Security, &lower("a vulnerability")));
    assert!(rule_matches(RuleGroup::Writing, &lower("an article")));
    assert!(rule_matches(RuleGroup::Coding, &lower("programming")));
    assert!(rule_matches(RuleGroup::Analysis, &lower("extract")));
    assert!(rule_matches(RuleGroup::Summarization, &lower("a summary")));
    assert!(!rule_matches(RuleGroup::Summarization, &lower("a sum")));
    assert_eq!(tag_name(RuleGroup::Analysis), "analysis");
}

#[test]
fn classify_works_on_text_as_given() {
    let (category, tags) = fabric_atelier::metadata::classify("an essay on software");
    assert_eq!(category, Some("writing".to_string()));
    assert_eq!(tags, vec!["coding".to_string(), "writing".to_string()]);
    let (category, tags) = fabric_atelier::metadata::classify("AN ESSAY");
    assert_eq!(category, None);
    assert!(tags.is_empty());
}
