use mcp_gemini_cli::fsops::{
    format_file_info, format_listing, format_read, format_write_report, fmt_u64, str_lex_le,
    EntryInfo, FileInfo, FsError,
};

fn entry(name: &str, is_dir: bool) -> EntryInfo {
    EntryInfo { name: name.to_string(), is_dir }
}

#[test]
fn test_list_empty_directory_message() {
    assert_eq!(format_listing(Vec::new()), "Directory is empty");
}

#[test]
fn test_listing_sorts_and_tags_entries() {
    let entries = vec![
        entry("zeta.txt", false),
        entry("alpha", true),
        entry("beta.rs", false),
    ];
    assert_eq!(
        format_listing(entries),
        "[DIR] alpha\n[FILE] beta.rs\n[FILE] zeta.txt"
    );
}

#[test]
fn test_listing_single_entry_has_no_separator() {
    assert_eq!(format_listing(vec![entry("only", true)]), "[DIR] only");
}

#[test]
fn test_listing_keeps_duplicate_names() {
    let entries = vec![entry("same", false), entry("same", true)];
    assert_eq!(format_listing(entries), "[DIR] same\n[FILE] same");
}

#[test]
fn test_lexicographic_comparison() {
    assert!(str_lex_le("abc", "abd"));
    assert!(str_lex_le("ab", "abc"));
    assert!(str_lex_le("", "a"));
    assert!(str_lex_le("same", "same"));
    assert!(!str_lex_le("b", "ab"));
}

#[test]
fn test_read_report_wraps_content() {
    assert_eq!(
        format_read("/tmp/notes.txt", "hello"),
        "Contents of /tmp/notes.txt:\nhello"
    );
}

#[test]
fn test_decimal_rendering() {
    assert_eq!(fmt_u64(0), "0");
    assert_eq!(fmt_u64(7), "7");
    assert_eq!(fmt_u64(105), "105");
    assert_eq!(fmt_u64(18446744073709551615), "18446744073709551615");
}

#[test]
fn test_write_report_counts_bytes() {
    assert_eq!(
        format_write_report("/tmp/out.txt", 11),
        "Successfully wrote 11 bytes to /tmp/out.txt"
    );
}

#[test]
fn test_file_info_report() {
    let info = FileInfo {
        path: "/tmp/data.bin".to_string(),
        size: 2048,
        is_file: true,
        is_dir: false,
        modified_secs: Some(1700000000),
    };
    assert_eq!(
        format_file_info(&info),
        "Path: /tmp/data.bin\nSize: 2048 bytes\nType: file\nModified: 1700000000 (seconds since epoch)"
    );
}

#[test]
fn test_file_info_unknown_modification_time() {
    let info = FileInfo {
        path: "/dev/null".to_string(),
        size: 0,
        is_file: false,
        is_dir: false,
        modified_secs: None,
    };
    assert_eq!(
        format_file_info(&info),
        "Path: /dev/null\nSize: 0 bytes\nType: other\nModified: unknown"
    );
}

#[test]
fn test_fs_error_codes() {
    let p = "/p".to_string();
    let e = "denied".to_string();
    assert_eq!(
        FsError::DirectoryReadError { path: p.clone(), error: e.clone() }.error_code(),
        "directory_read_error"
    );
    assert_eq!(
        FsError::FileReadError { path: p.clone(), error: e.clone() }.error_code(),
        "file_read_error"
    );
    assert_eq!(
        FsError::FileWriteError { path: p.clone(), error: e.clone() }.error_code(),
        "file_write_error"
    );
    assert_eq!(
        FsError::StatError { path: p, error: e }.error_code(),
        "stat_error"
    );
}
