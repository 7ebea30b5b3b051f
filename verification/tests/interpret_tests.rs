use mcp_gemini_cli::interpret::{extract_json_from_mixed_content, parse_gemini_output, ParseResult};

#[test]
fn test_parse_clean_json() {
    let json_output = r#"{"response": "Hello world", "stats": null, "error": null}"#;
    let result = parse_gemini_output(json_output, true);
    match result {
        ParseResult::JsonSuccess(response) => {
            assert_eq!(response.response, "Hello world");
            assert!(response.stats.is_none());
            assert!(response.error.is_none());
        }
        _ => panic!("Expected JsonSuccess"),
    }
}

#[test]
fn test_parse_mixed_content() {
    let mixed_output = r#"Loading model...
Generating response...
{"response": "Hello world", "stats": null, "error": null}
Done."#;
    let result = parse_gemini_output(mixed_output, true);
    match result {
        ParseResult::JsonSuccess(response) => {
            assert_eq!(response.response, "Hello world");
        }
        _ => panic!("Expected JsonSuccess from mixed content"),
    }
}

#[test]
fn test_parse_error_response() {
    let error_json = r#"{"response": "", "error": {"type": "ApiError", "message": "Test error", "code": 400}, "stats": null}"#;
    let result = parse_gemini_output(error_json, true);
    match result {
        ParseResult::JsonSuccess(response) => {
            assert!(response.error.is_some());
            let error = response.error.unwrap();
            assert_eq!(error.error_type, "ApiError");
            assert_eq!(error.message, "Test error");
            assert_eq!(error.code, Some(400));
        }
        _ => panic!("Expected JsonSuccess with error"),
    }
}

#[test]
fn test_parse_fallback_to_error() {
    let invalid_json = "This is not JSON at all";
    let result = parse_gemini_output(invalid_json, true);
    match result {
        ParseResult::ParseError { raw_output, error } => {
            assert_eq!(raw_output, invalid_json);
            assert!(error.contains("Failed to parse JSON"));
        }
        _ => panic!("Expected ParseError"),
    }
}

#[test]
fn test_text_mode() {
    let text_output = "Hello world";
    let result = parse_gemini_output(text_output, false);
    match result {
        ParseResult::TextFallback(text) => {
            assert_eq!(text, "Hello world");
        }
        _ => panic!("Expected TextFallback"),
    }
}

#[test]
fn test_extract_json_from_mixed_content() {
    let mixed_content = r#"Some log output
        {"response": "test", "error": null, "stats": null}
        More output"#;

    let json_str = extract_json_from_mixed_content(mixed_content);
    assert!(json_str.is_some());

    let json_obj: serde_json::Value = serde_json::from_str(&json_str.unwrap()).unwrap();
    assert_eq!(json_obj["response"], "test");
}

#[test]
fn test_plain_text_mode_is_identity() {
    let inputs = [
        "",
        "   spaced   ",
        "{\"response\": \"kept verbatim\", \"error\": null}",
        "line one\nline two",
    ];
    for input in inputs {
        match parse_gemini_output(input, false) {
            ParseResult::TextFallback(text) => assert_eq!(text, input),
            _ => panic!("Expected TextFallback"),
        }
    }
}

#[test]
fn test_structured_mode_trims_before_direct_parse() {
    let padded = "  \n {\"response\": \"trimmed\", \"error\": null, \"stats\": null} \t ";
    match parse_gemini_output(padded, true) {
        ParseResult::JsonSuccess(response) => assert_eq!(response.response, "trimmed"),
        _ => panic!("Expected JsonSuccess"),
    }
}

#[test]
fn test_embedded_scan_skips_ill_formed_balanced_region() {
    // The first balanced region is not a well-formed envelope; scanning
    // continues and finds the later one.
    let noisy = "progress {\"step\": 1} done {\"response\": \"second\", \"error\": null} tail";
    match parse_gemini_output(noisy, true) {
        ParseResult::JsonSuccess(response) => assert_eq!(response.response, "second"),
        _ => panic!("Expected JsonSuccess from second balanced region"),
    }
}

#[test]
fn test_line_scan_finds_envelope_line() {
    // A closing brace inside the string content defeats the character-wise
    // brace scan, but the line-by-line scan parses the whole line.
    let lines = "log start\n{\"response\": \"a}b\", \"error\": null}";
    match parse_gemini_output(lines, true) {
        ParseResult::JsonSuccess(response) => assert_eq!(response.response, "a}b"),
        _ => panic!("Expected JsonSuccess from line scan"),
    }
}

#[test]
fn test_structured_mode_rejects_envelope_without_response() {
    // Valid JSON, but not a well-formed envelope: no strategy accepts it.
    let not_envelope = "{\"answer\": 42}";
    match parse_gemini_output(not_envelope, true) {
        ParseResult::ParseError { raw_output, .. } => assert_eq!(raw_output, not_envelope),
        _ => panic!("Expected ParseError"),
    }
}

#[test]
fn test_error_code_out_of_range_rejects_envelope() {
    // A code beyond 32-bit signed range makes the error record ill-formed.
    let big_code =
        "{\"response\": \"\", \"error\": {\"type\": \"E\", \"message\": \"m\", \"code\": 4294967296}}";
    match parse_gemini_output(big_code, true) {
        ParseResult::ParseError { .. } => {}
        _ => panic!("Expected ParseError"),
    }
}

#[test]
fn test_extract_json_skips_invalid_balanced_region() {
    let content = "start {not json} middle {\"ok\": true} end";
    let extracted = extract_json_from_mixed_content(content);
    assert_eq!(extracted.as_deref(), Some("{\"ok\": true}"));
}

#[test]
fn test_extract_json_none_without_balanced_region() {
    assert!(extract_json_from_mixed_content("no braces here").is_none());
    assert!(extract_json_from_mixed_content("only open { and open {").is_none());
}
