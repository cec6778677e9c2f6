use crabfetch::numbers::{is_numeric_name, u32_to_decimal};
use crabfetch::substitute::{replace_all, replace_color_tokens};

const RESET: &str = "\u{1b}[0m";

#[test]
fn replace_all_single_token() {
    let r = replace_all("{count} procs", "{count}", "137");
    assert_eq!(r, "137 procs");
}

#[test]
fn replace_all_multiple_occurrences() {
    let r = replace_all("{x} and {x} and {x}", "{x}", "y");
    assert_eq!(r, "y and y and y");
}

#[test]
fn replace_all_literal_template_unchanged() {
    let r = replace_all("no tokens in here", "{count}", "137");
    assert_eq!(r, "no tokens in here");
}

#[test]
fn replace_all_unknown_token_left_alone() {
    let r = replace_all("{cpu} next to {count}", "{count}", "42");
    assert_eq!(r, "{cpu} next to 42");
}

#[test]
fn replace_all_empty_template() {
    let r = replace_all("", "{count}", "42");
    assert_eq!(r, "");
}

#[test]
fn replace_all_does_not_rescan_replacement() {
    let r = replace_all("{x}", "{x}", "{x}{x}");
    assert_eq!(r, "{x}{x}");
}

#[test]
fn color_pass_appends_reset_to_plain_text() {
    let r = replace_color_tokens("plain");
    assert_eq!(r, format!("plain{}", RESET));
}

#[test]
fn color_pass_appends_reset_to_empty_input() {
    let r = replace_color_tokens("");
    assert_eq!(r, RESET);
}

#[test]
fn color_pass_expands_color_tokens() {
    let r = replace_color_tokens("a {color-red}b{color-blue} c");
    assert_eq!(r, format!("a \u{1b}[31mb\u{1b}[34m c{}", RESET));
}

#[test]
fn color_pass_single_reset_after_many_tokens() {
    let r = replace_color_tokens("{color-green}{color-yellow}{color-clear}");
    assert_eq!(r, format!("\u{1b}[32m\u{1b}[33m{}{}", RESET, RESET));
    assert!(r.ends_with(RESET));
}

#[test]
fn decimal_rendering_zero() {
    assert_eq!(u32_to_decimal(0), "0");
}

#[test]
fn decimal_rendering_plain() {
    assert_eq!(u32_to_decimal(137), "137");
}

#[test]
fn decimal_rendering_largest() {
    assert_eq!(u32_to_decimal(u32::MAX), "4294967295");
}

#[test]
fn numeric_name_digits() {
    assert!(is_numeric_name("123"));
    assert!(is_numeric_name("0"));
}

#[test]
fn numeric_name_leading_plus() {
    assert!(is_numeric_name("+42"));
    assert!(!is_numeric_name("+"));
}

#[test]
fn numeric_name_rejects_text() {
    assert!(!is_numeric_name(""));
    assert!(!is_numeric_name("abc"));
    assert!(!is_numeric_name("12a"));
    assert!(!is_numeric_name("1.5"));
    assert!(!is_numeric_name("-3"));
}

#[test]
fn numeric_name_bounds() {
    assert!(is_numeric_name("18446744073709551615"));
    assert!(!is_numeric_name("18446744073709551616"));
    assert!(!is_numeric_name("999999999999999999999999"));
}
