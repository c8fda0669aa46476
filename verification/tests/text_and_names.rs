use linux_screenshot::naming::{request_token, temp_png_name, unique_suffix};
use linux_screenshot::text::{push_decimal, push_decimal_pair, push_signed_decimal, strip_prefix};

#[test]
fn numerals_are_those_of_std() {
    for n in (0..1200u128).chain([u32::MAX as u128, u64::MAX as u128, u128::MAX]) {
        let mut text = "n=".to_string();
        push_decimal(&mut text, n);
        assert_eq!(text, format!("n={n}"));
    }
    for n in [0, 1, 9, 10, -1, -10, -1205, i32::MAX, i32::MIN] {
        let mut text = String::new();
        push_signed_decimal(&mut text, n);
        assert_eq!(text, n.to_string());
    }
    let mut text = String::new();
    push_decimal_pair(&mut text, 640, 480);
    assert_eq!(text, "640x480");
}

#[test]
fn prefixes_are_taken_off_once() {
    for (text, prefix) in [
        ("file:///a", "file://"),
        ("file://", "file://"),
        ("file:/", "file://"),
        ("", "x"),
        ("", ""),
        ("xx", "x"),
        ("\u{e9}a", "\u{e9}"),
        ("ea", "\u{e9}"),
    ] {
        assert_eq!(strip_prefix(text, prefix), text.strip_prefix(prefix));
    }
}

#[test]
fn suffix_joins_process_and_clock() {
    assert_eq!(unique_suffix(4711, Some(1_700_000_000_123_456_789)), "4711-1700000000123456789");
    assert_eq!(unique_suffix(0, Some(0)), "0-0");
    assert_eq!(unique_suffix(u32::MAX, Some(u128::MAX)), format!("{}-{}", u32::MAX, u128::MAX));
}

#[test]
fn clock_before_the_epoch_counts_as_the_epoch() {
    assert_eq!(unique_suffix(12, None), "12-0");
    assert_eq!(request_token(12, None), "computer_use_linux_12_0");
}

#[test]
fn temporary_files_are_named_after_source_and_suffix() {
    assert_eq!(
        temp_png_name("gnome-shell-area", "12-345"),
        "computer-use-linux-gnome-shell-area-12-345.png"
    );
    assert_eq!(temp_png_name("", ""), "computer-use-linux--.png");
}

#[test]
fn tokens_hold_the_numbers_of_the_suffix() {
    assert_eq!(request_token(4711, Some(98)), "computer_use_linux_4711_98");
}

#[test]
fn suffixes_and_tokens_differ_between_runs() {
    let runs = [(1, Some(11)), (11, Some(1)), (1, Some(1)), (111, Some(1)), (1, Some(111)), (2, None)];
    for (i, one) in runs.iter().enumerate() {
        for other in &runs[i + 1..] {
            assert_ne!(unique_suffix(one.0, one.1), unique_suffix(other.0, other.1));
            assert_ne!(request_token(one.0, one.1), request_token(other.0, other.1));
            assert_ne!(
                temp_png_name("gnome-shell", &unique_suffix(one.0, one.1)),
                temp_png_name("gnome-shell", &unique_suffix(other.0, other.1))
            );
        }
    }
}
