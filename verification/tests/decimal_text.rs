use sidecar_shell::decimal::decimal_string;
use sidecar_shell::messages::{
    backend_program_text, child_error_log_text, child_output_log_text, exited_text,
    port_flag_text, retrying_text, selected_port_text, spawn_failed_text, spawning_text,
    started_text, BACKOFF_SECONDS,
};

#[test]
fn zero_is_written_as_one_digit() {
    assert_eq!(decimal_string(0), "0");
}

#[test]
fn single_digits() {
    let expected = ["0", "1", "2", "3", "4", "5", "6", "7", "8", "9"];
    for n in 0u16..10 {
        assert_eq!(decimal_string(n), expected[n as usize]);
    }
}

#[test]
fn powers_of_ten() {
    assert_eq!(decimal_string(10), "10");
    assert_eq!(decimal_string(100), "100");
    assert_eq!(decimal_string(1000), "1000");
    assert_eq!(decimal_string(10000), "10000");
}

#[test]
fn largest_port() {
    assert_eq!(decimal_string(65535), "65535");
}

#[test]
fn inner_zeros_are_kept() {
    assert_eq!(decimal_string(8080), "8080");
    assert_eq!(decimal_string(50007), "50007");
    assert_eq!(decimal_string(1024), "1024");
}

#[test]
fn decimal_agrees_with_the_standard_notation_everywhere() {
    for n in 0u16..=u16::MAX {
        assert_eq!(decimal_string(n), n.to_string());
    }
}

#[test]
fn decimal_reads_back() {
    for n in [0u16, 1, 9, 10, 99, 100, 443, 8080, 49152, 65535] {
        let text = decimal_string(n);
        assert!(text.chars().all(|c| c.is_ascii_digit()));
        assert!(text.len() >= 1 && text.len() <= 5);
        assert_eq!(text.starts_with('0'), n == 0);
        assert_eq!(text.parse::<u16>().unwrap(), n);
    }
}

#[test]
fn backoff_is_two_seconds() {
    assert_eq!(BACKOFF_SECONDS, 2);
}

#[test]
fn program_and_flag() {
    assert_eq!(backend_program_text(), "conciliacion-backend");
    assert_eq!(port_flag_text(), "--port");
}

#[test]
fn status_lines() {
    assert_eq!(selected_port_text(51234), "[Rust] Selected dynamic backend port: 51234");
    assert_eq!(spawning_text(51234), "[Rust] Spawning backend sidecar on port 51234...");
    assert_eq!(started_text(), "[Rust] Backend started successfully");
    assert_eq!(
        exited_text(),
        "[Rust] Backend process exited unexpectedly. Restarting in 2 seconds..."
    );
    assert_eq!(retrying_text(), "[Rust] Retrying in 2 seconds...");
}

#[test]
fn failure_line_holds_the_reason() {
    let reason = "No such file or directory (os error 2)";
    let line = spawn_failed_text(reason);
    assert_eq!(line, "[Rust] Failed to spawn sidecar: No such file or directory (os error 2)");
    assert!(line.ends_with(reason));
    assert_eq!(spawn_failed_text(""), "[Rust] Failed to spawn sidecar: ");
}

#[test]
fn child_lines_are_prefixed_in_the_log() {
    assert_eq!(child_output_log_text("listening"), "[PY] listening");
    assert_eq!(child_error_log_text("traceback"), "[PY ERR] traceback");
    assert_eq!(child_output_log_text(""), "[PY] ");
    assert_eq!(child_error_log_text("caf\u{e9} \u{1f600}"), "[PY ERR] caf\u{e9} \u{1f600}");
}
