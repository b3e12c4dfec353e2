use sysbanner::duration::format_time;
use sysbanner::memory::format_memory;
use sysbanner::memory::format_mib;
use sysbanner::modules::color_module;
use sysbanner::shell::extract_shell_name;
use sysbanner::text::paint;
use sysbanner::text::spaces;
use sysbanner::text::u64_to_string;
use sysbanner::text::visible_width;

#[test]
fn duration_zero_short() {
    assert_eq!(format_time(0, true), "0s");
}

#[test]
fn duration_zero_long() {
    assert_eq!(format_time(0, false), "0 seconds");
}

#[test]
fn duration_minutes_short() {
    assert_eq!(format_time(65, true), "1m 5s");
}

#[test]
fn duration_hour_keeps_zero_minutes_short() {
    assert_eq!(format_time(3601, true), "1h 0m 1s");
}

#[test]
fn duration_hour_keeps_zero_minutes_long() {
    assert_eq!(format_time(3601, false), "1 hours, 0 minutes, 1 seconds");
}

#[test]
fn duration_hour_minute_second() {
    assert_eq!(format_time(3661, true), "1h 1m 1s");
    assert_eq!(format_time(3661, false), "1 hours, 1 minutes, 1 seconds");
}

#[test]
fn duration_minutes_long_is_not_pluralized() {
    assert_eq!(format_time(65, false), "1 minutes, 5 seconds");
}

#[test]
fn duration_full_short() {
    assert_eq!(format_time(7322, true), "2h 2m 2s");
}

#[test]
fn duration_just_under_a_minute() {
    assert_eq!(format_time(59, true), "59s");
    assert_eq!(format_time(59, false), "59 seconds");
}

#[test]
fn shell_name_drops_extension() {
    assert_eq!(extract_shell_name("zsh.exe"), "zsh");
}

#[test]
fn shell_name_without_dot_is_unchanged() {
    assert_eq!(extract_shell_name("bash"), "bash");
}

#[test]
fn shell_name_cuts_at_first_dot() {
    assert_eq!(extract_shell_name("a.b.c"), "a");
    assert_eq!(extract_shell_name(".hidden"), "");
    assert_eq!(extract_shell_name(""), "");
}

#[test]
fn memory_exact_mebibytes() {
    assert_eq!(format_memory(1_048_576, 2_097_152), "1.00 MiB / 2.00 MiB");
}

#[test]
fn memory_zero() {
    assert_eq!(format_mib(0), "0.00");
}

#[test]
fn memory_rounds_half_to_even_down() {
    // 131072 bytes is exactly 0.125 MiB; the even hundredth is 0.12.
    assert_eq!(format_mib(131072), "0.12");
}

#[test]
fn memory_rounds_half_to_even_up() {
    // 393216 bytes is exactly 0.375 MiB; the even hundredth is 0.38.
    assert_eq!(format_mib(393216), "0.38");
}

#[test]
fn memory_exact_half() {
    assert_eq!(format_mib(1_572_864), "1.50");
}

#[test]
fn memory_fraction_carries_into_whole() {
    // Just under two mebibytes rounds up to 2.00.
    assert_eq!(format_mib(2_097_151), "2.00");
}

#[test]
fn memory_largest_byte_count() {
    assert_eq!(format_mib(u64::MAX), "17592186044416.00");
}

#[test]
fn memory_pads_single_digit_fraction() {
    // 62915 bytes is about 0.06 MiB: the fraction keeps its leading zero.
    assert_eq!(format_mib(62915), "0.06");
}

#[test]
fn decimal_rendering() {
    assert_eq!(u64_to_string(0), "0");
    assert_eq!(u64_to_string(7), "7");
    assert_eq!(u64_to_string(1234567890), "1234567890");
    assert_eq!(u64_to_string(u64::MAX), "18446744073709551615");
}

#[test]
fn paint_wraps_in_color_and_reset() {
    assert_eq!(paint(91, "x"), "\u{1b}[91mx\u{1b}[0m");
    assert_eq!(paint(33, "@"), "\u{1b}[33m@\u{1b}[0m");
}

#[test]
fn color_module_shape() {
    assert_eq!(
        color_module("OS", "TestOS"),
        "\u{1b}[91mOS\u{1b}[0m: \u{1b}[95mTestOS\u{1b}[0m"
    );
}

#[test]
fn painted_and_plain_have_equal_visible_width() {
    let plain = "hello";
    let painted = paint(94, plain);
    assert_eq!(visible_width(&painted), visible_width(plain));
    assert_eq!(visible_width(plain), 5);
}

#[test]
fn visible_width_ignores_every_control_sequence() {
    let mut s = paint(31, "ab");
    s.push_str(&paint(92, "cde"));
    assert_eq!(visible_width(&s), 5);
}

#[test]
fn spaces_have_their_own_width() {
    assert_eq!(spaces(16), " ".repeat(16));
    assert_eq!(visible_width(&spaces(16)), 16);
}
