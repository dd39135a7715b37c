//! Wheels, cursors and the spinner's render cycle.

use termprogress::output::MemorySink;
use termprogress::spinner::Spin;
use termprogress::wheel::Wheel;
use termprogress::prelude::{Display, Spinner, WithTitle};

#[test]
fn wheel_new_keeps_glyphs() {
    let w = Wheel::new(vec!['a', 'b', 'c']);
    assert_eq!(w.chars(), &['a', 'b', 'c']);
}

#[test]
fn wheel_empty_falls_back_to_default() {
    let w = Wheel::new(vec![]);
    assert_eq!(w.chars(), &['/', '-', '\\', '|']);
}

#[test]
fn wheel_default_glyphs() {
    let w = Wheel::default();
    assert_eq!(w.chars(), &['/', '-', '\\', '|']);
}

#[test]
fn cursor_advances_cyclically_and_never_ends() {
    let mut it = Wheel::new(vec!['a', 'b', 'c']).into_iter();
    let mut first: Vec<char> = Vec::new();
    for _ in 0..3 {
        first.push(it.next().unwrap());
    }
    // the cursor starts before the first advance at index 0, so the first
    // glyph yielded is index 1
    assert_eq!(first, vec!['b', 'c', 'a']);
    // after n advances the sequence repeats exactly; run ten full rounds
    for _round in 0..9 {
        for k in 0..3 {
            assert_eq!(it.next().unwrap(), first[k]);
        }
    }
}

#[test]
fn spinner_first_shown_glyph_is_second_element() {
    let spin = Spin::new(MemorySink::new(), Wheel::default());
    assert_eq!(spin.current, '-');
}

#[test]
fn default_spinner_bump_shows_cyclic_index_one() {
    // the default spinner starts on the wheel's last glyph with the cursor
    // at the start, so one bump displays the element at cyclic index 1
    let mut spin = Spin::default();
    assert_eq!(spin.current, '|');
    spin.bump();
    assert_eq!(spin.current, '-');
    let _sink = spin.into_inner();
}

#[test]
fn bump_writes_frame_with_new_glyph() {
    let mut spin = Spin::new(MemorySink::new(), Wheel::default());
    spin.bump();
    assert_eq!(spin.current, '\\');
    assert_eq!(spin.output.dev.contents(), "\r \\");
}

#[test]
fn spinner_refresh_frame() {
    let mut spin = Spin::with_title(MemorySink::new(), "work", Wheel::default());
    // the titled constructor has already rendered the first frame
    assert_eq!(spin.output.dev.contents(), "\rwork -");
    spin.refresh();
    assert_eq!(spin.output.dev.contents(), "\rwork -\rwork -");
}

#[test]
fn spinner_set_title_blanks_old_region() {
    let mut spin = Spin::with_title(MemorySink::new(), "abc", Wheel::default());
    spin.set_title("xy");
    assert_eq!(spin.get_title(), "xy");
    let out = spin.into_inner().into_string();
    assert_eq!(out, "\rabc -\r     \r\rxy -");
}

#[test]
fn spinner_println_floats_above_log_lines() {
    let mut spin = Spin::with_title(MemorySink::new(), "t", Wheel::default());
    spin.println("log line");
    let out = spin.into_inner().into_string();
    assert_eq!(out, "\rt -\r   \rlog line\n\rt -");
}

#[test]
fn spinner_guard_contention_writes_zero_bytes() {
    let mut spin = Spin::new(MemorySink::new(), Wheel::default());
    assert!(spin.inner().is_some());
    assert!(spin.output.try_exclusive());
    assert!(spin.inner().is_none());
    spin.refresh();
    spin.blank();
    spin.println("dropped");
    assert_eq!(spin.output.dev.contents(), "");
    spin.output.release();
    spin.refresh();
    assert_eq!(spin.output.dev.contents(), "\r -");
}

#[test]
fn complete_erases_glyph_and_ends_line() {
    let spin = Spin::new(MemorySink::new(), Wheel::default());
    let out = spin.complete().into_string();
    assert_eq!(out, "\u{8} \n");
}

#[test]
fn complete_with_emits_clear_marker_message_newline() {
    let spin = Spin::new(MemorySink::new(), Wheel::default());
    let sink = spin.complete_with("OK");
    assert_eq!(sink.into_string(), "\u{8}OK\n");
}

#[test]
fn with_title_replaces_title_without_writing() {
    let spin = Spin::new(MemorySink::new(), Wheel::default()).with_title("zz");
    assert_eq!(spin.get_title(), "zz");
    assert_eq!(spin.output.dev.contents(), "");
}

#[test]
fn default_spinner_constructors_build() {
    let s = Spin::new_default(Wheel::default());
    let _ = s.complete();
    let s = Spin::with_title_default("t", Wheel::default());
    let _ = s.complete_with("done");
}

#[test]
fn custom_wheel_cycles_through_bump() {
    let mut spin = Spin::new(MemorySink::new(), Wheel::new(vec!['x', 'y']));
    assert_eq!(spin.current, 'y');
    spin.bump();
    assert_eq!(spin.current, 'x');
    spin.bump();
    assert_eq!(spin.current, 'y');
}
