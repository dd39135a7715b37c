//! The progress bar's state machine, render cycle and guard discipline,
//! observed through an in-memory sink.

use termprogress::output::MemorySink;
use termprogress::progress::Bar;
use termprogress::{Display, ProgressBar, WithTitle};

fn mem_bar(width: usize, max_width: usize) -> Bar<MemorySink> {
    Bar::with_max(MemorySink::new(), width, max_width)
}

#[test]
fn rendering_blanking() {
    let mut bar = Bar::new_default(50);
    bar.set_progress(5000);
    bar.blank();
    bar.set_progress(7000);
    bar.set_title("70 percent.");
    bar.refresh();
    bar.set_progress(2000);
    bar.set_title("...");
    bar.blank();
    let _sink = bar.complete();
}

#[test]
fn construction_validation() {
    assert!(Bar::try_with_max(MemorySink::new(), 10, 10).is_none());
    assert!(Bar::try_with_max(MemorySink::new(), 10, 11).is_some());
    assert!(Bar::try_with_max(MemorySink::new(), 11, 10).is_none());
}

#[test]
fn initial_render_frame() {
    let bar = mem_bar(3, 15);
    let out = bar.output.dev.contents();
    assert_eq!(out, "\u{1b}[0m\u{1b}[K[   ]: 0.00%   \n\u{1b}[1A");
}

#[test]
fn end_to_end_half_progress() {
    let mut bar = mem_bar(10, 30);
    bar.set_progress(5000);
    let out = bar.complete().into_string();
    assert!(out.contains("[=====     ]: 50.00%"));
    assert!(out.ends_with('\n'));
}

#[test]
fn blank_writes_carriage_return_spaces_carriage_return() {
    let mut bar = mem_bar(3, 20);
    let before = bar.output.dev.contents().len();
    bar.blank();
    let out = bar.output.dev.contents();
    assert_eq!(&out[before..], format!("\r{}\r", " ".repeat(20)));
}

#[test]
fn render_twice_is_byte_identical() {
    let mut bar = mem_bar(10, 40);
    bar.set_progress(2500);
    let start = bar.output.dev.contents().to_string();
    bar.refresh();
    let mid = bar.output.dev.contents().to_string();
    bar.refresh();
    let end = bar.output.dev.contents().to_string();
    let first = &mid[start.len()..];
    let second = &end[mid.len()..];
    assert!(!first.is_empty());
    assert_eq!(first, second);
}

#[test]
fn guard_contention_writes_zero_bytes() {
    let mut bar = mem_bar(10, 40);
    let len0 = bar.output.dev.contents().len();
    assert!(bar.output.try_exclusive());
    bar.refresh();
    bar.blank();
    bar.set_progress(5000);
    bar.set_title("held");
    assert_eq!(bar.output.dev.contents().len(), len0);
    bar.output.release();
    bar.refresh();
    assert!(bar.output.dev.contents().len() > len0);
}

#[test]
fn set_progress_recomputes_buffer_only_on_change() {
    let mut bar = mem_bar(4, 25);
    bar.set_progress(2500);
    assert_eq!(bar.buffer, "=   ");
    let len1 = bar.output.dev.contents().len();
    // setting the same value again re-renders anyway (forced refresh)
    bar.set_progress(2500);
    assert_eq!(bar.buffer, "=   ");
    assert!(bar.output.dev.contents().len() > len1);
}

#[test]
fn titles_get_and_set() {
    let mut bar = mem_bar(5, 40);
    assert_eq!(bar.get_title(), "");
    bar.set_title("hello");
    assert_eq!(bar.get_title(), "hello");
    let out = bar.output.dev.contents();
    assert!(out.contains(" hello"));
}

#[test]
fn long_title_rendered_with_ellipsis() {
    let mut bar = mem_bar(5, 30);
    // percentage line "[     ]: 0.00%" is 14 characters, budget is 16
    bar.set_title("abcdefghijklmnopqrstuvwxyz");
    let out = bar.output.dev.contents();
    assert!(out.contains(" abcdefghijkl..."), "out: {:?}", out);
}

#[test]
fn update_dimensions_changes_frame_width() {
    let mut bar = mem_bar(3, 20);
    bar.update_dimensions(25);
    assert_eq!(bar.max_width, 25);
    let before = bar.output.dev.contents().len();
    bar.blank();
    let out = bar.output.dev.contents();
    assert_eq!(&out[before..], format!("\r{}\r", " ".repeat(25)));
}

#[test]
fn memory_sink_is_no_terminal() {
    let mut bar = mem_bar(5, 30);
    assert!(!bar.fit());
    assert!(Bar::try_new(MemorySink::new(), 10).is_none());
    assert!(Bar::try_new_default_size(MemorySink::new()).is_none());
    assert!(Bar::try_new_with_title(MemorySink::new(), 10, "t").is_none());
}

#[test]
fn with_title_constructor_sets_title() {
    let mut bar = Bar::with_title(MemorySink::new(), 10, "work");
    assert_eq!(bar.get_title(), "work");
    assert_eq!(bar.get_progress(), 0);
    bar.add_title("more work");
    assert_eq!(bar.get_title(), "more work");
}

#[test]
fn progress_is_stored_exactly() {
    let mut bar = mem_bar(10, 40);
    assert_eq!(bar.get_progress(), 0);
    bar.set_progress(7342);
    assert_eq!(bar.get_progress(), 7342);
}

#[test]
fn println_blanks_and_redraws() {
    let mut bar = mem_bar(3, 18);
    let before = bar.output.dev.contents().len();
    // the message itself goes to the process's standard output; the sink
    // sees the blank and the redraw around it
    bar.println("a log line");
    let out = bar.output.dev.contents();
    let tail = &out[before..];
    assert!(tail.starts_with(&format!("\r{}\r", " ".repeat(18))));
    assert!(tail.ends_with("\n\u{1b}[1A"));
}

#[test]
fn default_constructors_build() {
    let bar = Bar::default();
    let _ = bar.complete();
    let bar = Bar::with_max_default(10, 30);
    let _ = bar.complete();
    let mut bar = Bar::with_title_default(10, "t");
    bar.set_progress(100);
    let _ = bar.complete();
    // these depend on whether a terminal is attached; they must only answer
    let _ = Bar::try_new_default(10);
    let _ = Bar::try_new_default_size_default();
    let _ = Bar::try_new_with_title_default(10, "t");
}

#[test]
fn complete_writes_final_newline() {
    let bar = mem_bar(5, 20);
    let frame_len = bar.output.dev.contents().len();
    let out = bar.complete().into_string();
    assert_eq!(out.len(), frame_len + 1);
    assert!(out.ends_with('\n'));
}
