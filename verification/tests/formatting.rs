//! Tests for the terminal formatting helpers.

use oclpipe::formats::format_bool;

#[test]
fn format_bool_true_is_green() {
    assert_eq!(format_bool(true), "\x1b[38;2;0;255;0mtrue\x1b[m");
}

#[test]
fn format_bool_false_is_red() {
    assert_eq!(format_bool(false), "\x1b[38;2;255;0;0mfalse\x1b[m");
}
