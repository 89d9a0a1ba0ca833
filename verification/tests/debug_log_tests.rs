use copilot_sdk::debug_log::{format_log_banner, format_log_line};

#[test]
fn log_lines_carry_timestamp_and_message() {
    assert_eq!(format_log_line(1700000000123, "hello"), "[1700000000123] hello\n");
    assert_eq!(format_log_line(0, ""), "[0] \n");
    assert_eq!(format_log_line(u128::MAX, "x"), format!("[{}] x\n", u128::MAX));
}

#[test]
fn banner_names_the_path() {
    assert_eq!(format_log_banner("/tmp/log.txt"), "=== copilot-sdk debug log: /tmp/log.txt ===");
}
