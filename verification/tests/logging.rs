use smartboard::logging::{
    console_line, format_log_line, format_timestamp, log_line, log_to_stderr, timestamp,
    timestamp_from_elapsed,
};

#[test]
fn timestamp_pads_millis_to_three_digits() {
    assert_eq!(format_timestamp(1700000000, 7), "1700000000.007");
    assert_eq!(format_timestamp(12, 45), "12.045");
    assert_eq!(format_timestamp(0, 999), "0.999");
    assert_eq!(format_timestamp(u64::MAX, 100), "18446744073709551615.100");
}

#[test]
fn timestamp_now_has_seconds_dot_millis() {
    let t = timestamp();
    let (secs, millis) = t.split_once('.').expect("a dot");
    assert!(!secs.is_empty() && secs.chars().all(|c| c.is_ascii_digit()));
    assert!(secs.parse::<u64>().unwrap() > 1_600_000_000);
    assert_eq!(millis.len(), 3);
    assert!(millis.chars().all(|c| c.is_ascii_digit()));
}

#[test]
fn log_file_line_layout() {
    assert_eq!(format_log_line("12.045", "INFO ", "hello"), "12.045 [INFO ] hello\n");
    assert_eq!(format_log_line("", "", ""), " [] \n");
}

#[test]
fn log_line_now_ends_with_level_and_message() {
    let line = log_line("WARN ", "disk");
    assert!(line.ends_with(" [WARN ] disk\n"));
    let ts = &line[..line.len() - " [WARN ] disk\n".len()];
    assert!(ts.contains('.'));
}

#[test]
fn errors_and_warnings_go_to_stderr() {
    assert!(log_to_stderr("ERROR"));
    assert!(log_to_stderr("WARN "));
    assert!(!log_to_stderr("WARN"));
    assert!(!log_to_stderr("INFO "));
    assert!(!log_to_stderr("error"));
}

#[test]
fn console_line_trims_level() {
    assert_eq!(console_line("WARN ", "low battery"), "[WARN] low battery");
    assert_eq!(console_line(" INFO\t", "x"), "[INFO] x");
    assert_eq!(console_line("ERROR", ""), "[ERROR] ");
}

#[test]
fn clock_before_epoch_reads_zero() {
    assert_eq!(timestamp_from_elapsed(None), "0.000");
    assert_eq!(timestamp_from_elapsed(Some((3, 40))), "3.040");
}

#[test]
fn console_line_trims_unicode_whitespace() {
    assert_eq!(console_line("\u{3000}INFO\u{00A0}\u{2009}", "m"), "[INFO] m");
    assert_eq!(console_line("  ", "m"), "[] m");
    assert_eq!(console_line("A B", "m"), "[A B] m");
}
