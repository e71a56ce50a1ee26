use fh_language_combo_tool::engine::logger::{format_log_line, log_file_name};

const NOW: &str = "2026-05-29T12:34:56.789+08:00";

#[test]
fn test_log_operation_writes_line() {
    let line = format_log_line(NOW, "info", "fh5", "test message");
    assert!(line.contains("test message"));
}

#[test]
fn test_log_format_matches_pattern() {
    let content = format_log_line(NOW, "warn", "fh6", "something happened");
    let line = content.trim();
    assert!(line.starts_with('['));
    assert!(line.contains("] [WARN] [fh6] something happened"));
}

#[test]
fn test_multiple_operations_append() {
    let mut content = String::new();
    content.push_str(&format_log_line(NOW, "info", "fh5", "first"));
    content.push_str(&format_log_line(NOW, "error", "fh5", "second"));
    content.push_str(&format_log_line(NOW, "info", "fh6", "third"));
    let lines: Vec<&str> = content.trim().lines().collect();
    assert_eq!(lines.len(), 3);
    assert!(lines[0].contains("first"));
    assert!(lines[1].contains("[ERROR]"));
    assert!(lines[2].contains("[fh6]"));
}

#[test]
fn log_line_exact() {
    assert_eq!(
        format_log_line("T", "Info", "fh5", "m"),
        "[T] [INFO] [fh5] m\n"
    );
    assert_eq!(log_file_name("2026-05-29"), "2026-05-29.log");
}
