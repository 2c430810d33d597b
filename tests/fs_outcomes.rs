use base64::Engine;
use dive_service::classify::{is_binary_sample, SAMPLE_LEN};
use dive_service::envelope::{Content, ErrorKind, ToolOutput};
use dive_service::fs_tools::{
    binary_read_outcome, create_directory_outcome, delete_file_outcome, list_directory_outcome,
    read_mode, render_listing, text_read_outcome, write_file_outcome, DirEntryInfo, ReadMode,
    BINARY_MARKER,
};

fn only_text(out: &ToolOutput) -> String {
    assert!(out.success);
    assert_eq!(out.content.len(), 1);
    match &out.content[0] {
        Content::Text(t) => t.clone(),
    }
}

fn read_whole(bytes: Vec<u8>) -> String {
    match read_mode(Ok(bytes.clone())).unwrap() {
        ReadMode::Binary => only_text(&binary_read_outcome(Ok(bytes)).unwrap()),
        ReadMode::Text => only_text(&text_read_outcome(Ok(String::from_utf8(bytes).unwrap())).unwrap()),
    }
}

#[test]
fn text_sample_is_not_binary() {
    assert!(!is_binary_sample(b"hello world"));
    assert!(!is_binary_sample(b""));
}

#[test]
fn null_byte_in_window_is_binary() {
    let mut bytes = vec![b'a'; 20];
    bytes[10] = 0;
    assert!(is_binary_sample(&bytes));
    let mut late = vec![b'a'; SAMPLE_LEN];
    late[SAMPLE_LEN - 1] = 0;
    assert!(is_binary_sample(&late));
}

#[test]
fn null_byte_past_window_is_text() {
    let mut bytes = vec![b'a'; SAMPLE_LEN + 5];
    bytes[SAMPLE_LEN] = 0;
    assert!(!is_binary_sample(&bytes));
    assert_eq!(read_mode(Ok(bytes)).unwrap(), ReadMode::Text);
}

#[test]
fn text_file_read_verbatim() {
    assert_eq!(read_whole(b"line one\nline two".to_vec()), "line one\nline two");
}

#[test]
fn binary_file_with_null_at_offset_ten_round_trips() {
    let bytes: Vec<u8> = (0u8..20).map(|i| if i == 10 { 0 } else { i + 65 }).collect();
    let text = read_whole(bytes.clone());
    assert!(text.starts_with("[Binary file encoded as base64]\n"));
    let encoded = &text[BINARY_MARKER.len()..];
    let decoded = base64::engine::general_purpose::STANDARD.decode(encoded).unwrap();
    assert_eq!(decoded, bytes);
}

#[test]
fn binary_reply_exact_encoding() {
    let out = binary_read_outcome(Ok(vec![0u8, 1, 2])).unwrap();
    assert_eq!(only_text(&out), "[Binary file encoded as base64]\nAAEC");
}

#[test]
fn binary_reply_of_empty_content() {
    let out = binary_read_outcome(Ok(Vec::new())).unwrap();
    assert_eq!(only_text(&out), "[Binary file encoded as base64]\n");
}

#[test]
fn probe_failure_is_internal_error() {
    let e = read_mode(Err("No such file or directory (os error 2)".to_string())).unwrap_err();
    assert_eq!(e.kind, ErrorKind::InternalError);
    assert_eq!(e.message, "Failed to check file type: No such file or directory (os error 2)");
}

#[test]
fn read_failures_are_internal_errors() {
    let e = binary_read_outcome(Err("denied".to_string())).unwrap_err();
    assert_eq!(e.kind, ErrorKind::InternalError);
    assert_eq!(e.message, "Failed to read binary file: denied");
    let e = text_read_outcome(Err("stream did not contain valid UTF-8".to_string())).unwrap_err();
    assert_eq!(e.kind, ErrorKind::InternalError);
    assert_eq!(e.message, "Failed to read file: stream did not contain valid UTF-8");
}

#[test]
fn write_then_read_hello() {
    let out = write_file_outcome("/tmp/t.txt", Ok(())).unwrap();
    let msg = only_text(&out);
    assert_eq!(msg, "Successfully wrote to /tmp/t.txt");
    assert!(msg.contains("/tmp/t.txt"));
    assert_eq!(read_whole(b"hello".to_vec()), "hello");
}

#[test]
fn write_failure_is_internal_error() {
    let e = write_file_outcome("/x", Err("Permission denied (os error 13)".to_string())).unwrap_err();
    assert_eq!(e.kind, ErrorKind::InternalError);
    assert_eq!(e.message, "Failed to write file: Permission denied (os error 13)");
}

#[test]
fn create_directory_twice_succeeds() {
    for _ in 0..2 {
        let out = create_directory_outcome("/tmp/a/b", Ok(())).unwrap();
        assert_eq!(only_text(&out), "Successfully created directory: /tmp/a/b");
    }
}

#[test]
fn create_directory_failure() {
    let e = create_directory_outcome("/f", Err("File exists (os error 17)".to_string())).unwrap_err();
    assert_eq!(e.kind, ErrorKind::InternalError);
    assert_eq!(e.message, "Failed to create directory: File exists (os error 17)");
}

#[test]
fn delete_file_outcomes() {
    let out = delete_file_outcome("/tmp/t.txt", Ok(())).unwrap();
    assert_eq!(only_text(&out), "Successfully deleted file: /tmp/t.txt");
    let e = delete_file_outcome("/tmp", Err("Is a directory (os error 21)".to_string())).unwrap_err();
    assert_eq!(e.kind, ErrorKind::InternalError);
    assert_eq!(e.message, "Failed to delete file: Is a directory (os error 21)");
}

#[test]
fn empty_directory_lists_empty_text() {
    let out = list_directory_outcome(Ok(Vec::new())).unwrap();
    assert_eq!(only_text(&out), "");
}

#[test]
fn listing_joins_lines_and_skips_unknown_entries() {
    let entries = vec![
        DirEntryInfo { name: Some("src".to_string()), is_dir: Some(true) },
        DirEntryInfo { name: None, is_dir: Some(false) },
        DirEntryInfo { name: Some("a.txt".to_string()), is_dir: Some(false) },
        DirEntryInfo { name: Some("lost".to_string()), is_dir: None },
    ];
    assert_eq!(render_listing(&entries), "src (directory)\na.txt (file)");
    let skipped = vec![DirEntryInfo { name: None, is_dir: None }];
    assert_eq!(render_listing(&skipped), "");
}

#[test]
fn list_directory_failure() {
    let e = list_directory_outcome(Err("Not a directory (os error 20)".to_string())).unwrap_err();
    assert_eq!(e.kind, ErrorKind::InternalError);
    assert_eq!(e.message, "Failed to list directory: Not a directory (os error 20)");
}
