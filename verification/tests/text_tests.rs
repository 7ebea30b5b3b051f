use mcp_gemini_cli::text::{split_whitespace_tokens, starts_with_lbrace, str_eq, trim_str};

#[test]
fn test_trim_removes_surrounding_whitespace() {
    assert_eq!(trim_str("  hello world \t\r\n"), "hello world");
    assert_eq!(trim_str("untouched"), "untouched");
    assert_eq!(trim_str("   \n\t "), "");
    assert_eq!(trim_str(""), "");
}

#[test]
fn test_split_whitespace_tokens() {
    assert_eq!(split_whitespace_tokens("task ai:run"), vec!["task", "ai:run"]);
    assert_eq!(
        split_whitespace_tokens("  a \t b\nc  "),
        vec!["a", "b", "c"]
    );
    assert!(split_whitespace_tokens("   ").is_empty());
    assert!(split_whitespace_tokens("").is_empty());
}

#[test]
fn test_str_eq_is_exact() {
    assert!(str_eq("json", "json"));
    assert!(!str_eq("json", "JSON"));
    assert!(!str_eq("json", "json "));
    assert!(str_eq("", ""));
}

#[test]
fn test_starts_with_lbrace() {
    assert!(starts_with_lbrace("{\"a\":1}"));
    assert!(!starts_with_lbrace(" {"));
    assert!(!starts_with_lbrace(""));
}
