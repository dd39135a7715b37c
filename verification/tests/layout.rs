//! The pure text-layout engine: fill bars, percentages, truncation and
//! padding.

use termprogress::digits::{format_percent, format_two_digits, format_u32};
use termprogress::progress::{ensure_eq, ensure_lower, percentage_line, render_fill_bar, render_line};

#[test]
fn fill_bar_half() {
    assert_eq!(render_fill_bar(10, 5000), "=====     ");
}

#[test]
fn fill_bar_empty_and_full() {
    assert_eq!(render_fill_bar(10, 0), "          ");
    assert_eq!(render_fill_bar(10, 10000), "==========");
    assert_eq!(render_fill_bar(0, 5000), "");
}

#[test]
fn fill_bar_floor_rule() {
    // floor(0.3333 * 7) = floor(2.3331) = 2 filled glyphs
    assert_eq!(render_fill_bar(7, 3333), "==     ");
    // floor(0.9999 * 4) = 3
    assert_eq!(render_fill_bar(4, 9999), "=== ");
}

#[test]
fn fill_bar_progress_beyond_full_is_capped() {
    assert_eq!(render_fill_bar(5, 20000), "=====");
}

#[test]
fn percent_formatting() {
    assert_eq!(format_percent(5000), "50.00");
    assert_eq!(format_percent(0), "0.00");
    assert_eq!(format_percent(1), "0.01");
    assert_eq!(format_percent(10000), "100.00");
    assert_eq!(format_percent(12345), "123.45");
    assert_eq!(format_u32(0), "0");
    assert_eq!(format_u32(90210), "90210");
    assert_eq!(format_two_digits(7), "07");
}

#[test]
fn percentage_line_half() {
    assert_eq!(percentage_line("=====     ", 5000), "[=====     ]: 50.00%");
}

#[test]
fn title_truncation_with_ellipsis() {
    assert_eq!(ensure_lower(String::from("abcdefgh"), 6), "abc...");
    assert_eq!(ensure_lower(String::from("abcdefgh"), 4), "a...");
}

#[test]
fn title_truncation_hard_cut_small_budget() {
    assert_eq!(ensure_lower(String::from("abcdefgh"), 3), "abc");
    assert_eq!(ensure_lower(String::from("abcdefgh"), 1), "a");
    assert_eq!(ensure_lower(String::from("abcdefgh"), 0), "");
}

#[test]
fn title_within_budget_unchanged() {
    assert_eq!(ensure_lower(String::from("abc"), 6), "abc");
    assert_eq!(ensure_lower(String::from("abcd"), 4), "abcd");
}

#[test]
fn title_truncation_counts_characters_not_bytes() {
    assert_eq!(ensure_lower(String::from("\u{3b1}\u{3b2}\u{3b3}\u{3b4}\u{3b5}\u{3b6}\u{3b7}\u{3b8}"), 6), "\u{3b1}\u{3b2}\u{3b3}...");
}

#[test]
fn pad_or_truncate_exact() {
    assert_eq!(ensure_eq(String::from("ab"), 5), "ab   ");
    assert_eq!(ensure_eq(String::from("abcdef"), 3), "abc");
    assert_eq!(ensure_eq(String::from("abc"), 3), "abc");
    assert_eq!(ensure_eq(String::from(""), 2), "  ");
}

#[test]
fn rendered_line_is_always_exactly_max_width() {
    let fill = "=====     ";
    for title in ["", "short", "a very long title that certainly exceeds any remaining budget here"] {
        let line = render_line(fill, 5000, 40, title);
        assert_eq!(line.chars().count(), 40, "title {:?}", title);
    }
    // a maximum narrower than the percentage line still comes out exact
    let line = render_line(fill, 5000, 8, "t");
    assert_eq!(line.chars().count(), 8);
    let line = render_line(fill, 5000, 0, "t");
    assert_eq!(line.chars().count(), 0);
}

#[test]
fn rendered_line_content() {
    // percentage line is 20 characters; " title" fits in the remaining 10
    let line = render_line("=====     ", 5000, 30, "title");
    assert_eq!(line, "[=====     ]: 50.00% title    ");
}
