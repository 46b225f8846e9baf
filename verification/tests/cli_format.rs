use proximityd::cli::format::{
    format_file_reference, format_file_reference_simple, format_table_row, get_terminal_size, handle_resize,
    is_resize_supported, truncate_text, wrap_text, TerminalSize, detect_terminal_size, size_or_default,
};

#[test]
fn test_format_file_reference_absolute() {
    let result = format_file_reference("/tmp/test.rs", Some(10), Some(5));
    assert_eq!(result, "file:///tmp/test.rs:10:5");
}

#[test]
fn test_format_file_reference_line_only() {
    let result = format_file_reference("/tmp/test.rs", Some(10), None);
    assert_eq!(result, "file:///tmp/test.rs:10");
}

#[test]
fn test_format_file_reference_no_line() {
    let result = format_file_reference("/tmp/test.rs", None, None);
    assert_eq!(result, "file:///tmp/test.rs");
}

#[test]
fn test_format_file_reference_simple() {
    let result = format_file_reference_simple("src/main.rs", Some(42), Some(3));
    assert!(result.contains("src/main.rs:42:3"));
}

#[test]
fn test_format_file_reference_simple_absolute() {
    let result = format_file_reference_simple("/tmp/test.rs", Some(10), None);
    assert!(result.contains("test.rs:10"));
}

#[test]
fn format_file_reference_column_needs_line() {
    assert_eq!(format_file_reference_simple("a.rs", None, Some(7)), "a.rs");
}

#[test]
fn test_detect_terminal_size() {
    let size = detect_terminal_size();
    assert!(size.width > 0);
    assert!(size.height > 0);
}

#[test]
fn test_terminal_size_default() {
    let size = TerminalSize::default();
    assert_eq!(size.width, 80);
    assert_eq!(size.height, 24);
}

#[test]
fn size_or_default_uses_answer_or_default() {
    let s = size_or_default(Some((120, 40)));
    assert_eq!((s.width, s.height), (120, 40));
    let d = size_or_default(None);
    assert_eq!((d.width, d.height), (80, 24));
}

#[test]
fn test_wrap_text() {
    let text = "This is a long line that should be wrapped";
    let wrapped = wrap_text(text, 20);
    assert!(wrapped.contains('\n'));
}

#[test]
fn wrap_text_short_line_unchanged() {
    assert_eq!(wrap_text("short", 20), "short");
}

#[test]
fn test_truncate_text() {
    let text = "This is a long string";
    let truncated = truncate_text(text, 10);
    assert_eq!(truncated.len(), 10);
    assert!(truncated.ends_with("..."));
}

#[test]
fn truncate_text_exact_value() {
    assert_eq!(truncate_text("This is a long string", 10), "This is...");
}

#[test]
fn truncate_text_no_room_for_ellipsis() {
    assert_eq!(truncate_text("abcdef", 3), "abc");
    assert_eq!(truncate_text("abcdef", 0), "");
}

#[test]
fn test_truncate_text_short() {
    let text = "Short";
    let truncated = truncate_text(text, 20);
    assert_eq!(truncated, "Short");
}

#[test]
fn test_format_table_row() {
    let columns = vec!["Name", "Value"];
    let widths = vec![10, 15];
    let row = format_table_row(&columns, &widths);
    assert!(row.starts_with("Name"));
    assert!(row.contains("Value"));
}

#[test]
fn format_table_row_pads_and_truncates() {
    let row = format_table_row(&["ab", "a long column"], &[4, 6]);
    assert_eq!(row, "ab   a l...");
}

#[test]
fn format_table_row_drops_columns_without_width() {
    assert_eq!(format_table_row(&["a", "b", "c"], &[1, 1]), "a b");
}

#[test]
fn test_is_resize_supported() {
    let _supported = is_resize_supported();
}

#[test]
fn test_get_terminal_size() {
    let size = get_terminal_size();
    assert!(size.width > 0);
    assert!(size.height > 0);
}

#[test]
fn test_handle_resize() {
    handle_resize();
}
