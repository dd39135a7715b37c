//! The silent indicator, the maybe-silent wrapper, and small helpers.

use termprogress::output::MemorySink;
use termprogress::progress::Bar;
use termprogress::silent::{always, MaybeSilent, Silent};
use termprogress::spinner::Spin;
use termprogress::wheel::Wheel;
use termprogress::{copy_slice, has_terminal_output_default, Display, ProgressBar, Spinner,
    WithTitle};

#[test]
fn silent_does_nothing_and_reports_nothing() {
    let mut s = Silent;
    s.refresh();
    s.blank();
    s.println("ignored");
    s.eprintln("ignored");
    assert_eq!(s.get_title(), "");
    s.set_title("still ignored");
    assert_eq!(s.get_title(), "");
    s.update_dimensions(80);
    s.set_progress(5000);
    assert_eq!(s.get_progress(), 0);
    s.bump();
    s.update();
    s.add_title("ignored");
    Silent.complete();
}

#[test]
fn always_is_silent() {
    let m: MaybeSilent<Silent> = always();
    assert!(m.is_silent());
    assert!(!m.is_loud());
    assert!(m.into_silent().is_some());
}

#[test]
fn maybe_silent_construction() {
    let loud: MaybeSilent<Silent> = MaybeSilent::new_some(Silent);
    assert!(loud.is_loud());
    let from_some: MaybeSilent<Silent> = MaybeSilent::new(Some(Silent));
    assert!(from_some.is_loud());
    let from_none: MaybeSilent<Silent> = MaybeSilent::new(None);
    assert!(from_none.is_silent());
}

#[test]
fn maybe_silent_accessors() {
    let mut loud: MaybeSilent<Silent> = MaybeSilent::new_some(Silent);
    assert!(loud.as_ref().is_some());
    assert!(loud.as_mut().is_some());
    assert!(loud.as_display().is_some());
    assert!(loud.as_display_mut().is_some());
    assert!(loud.as_bar().is_some());
    assert!(loud.as_bar_mut().is_some());
    assert!(loud.as_spinner().is_some());
    assert!(loud.as_spinner_mut().is_some());
    assert!(loud.into_inner().is_some());

    let mut silent: MaybeSilent<Silent> = MaybeSilent::Silent;
    assert!(silent.as_ref().is_none());
    assert!(silent.as_mut().is_none());
    assert!(silent.as_display().is_none());
    assert!(silent.as_bar().is_none());
    assert!(silent.as_spinner().is_none());
    assert!(silent.into_inner().is_none());
}

#[test]
fn maybe_silent_forwards_to_loud_spinner() {
    let spin = Spin::new(MemorySink::new(), Wheel::default());
    let mut m = MaybeSilent::new_some(spin);
    m.bump();
    m.set_title("fwd");
    assert_eq!(m.get_title(), "fwd");
    let spin = m.into_inner().unwrap();
    assert!(spin.output.dev.contents().starts_with("\r \\"));
}

#[test]
fn maybe_silent_discards_when_silent() {
    let mut spins: MaybeSilent<Spin<MemorySink>> = MaybeSilent::Silent;
    spins.bump();
    spins.refresh();
    spins.set_title("nobody");
    assert_eq!(spins.get_title(), "");

    let mut bars: MaybeSilent<Bar<MemorySink>> = MaybeSilent::Silent;
    bars.set_progress(4000);
    assert_eq!(bars.get_progress(), 0);
}

#[test]
fn copy_slice_copies_shorter_length() {
    let mut dst = vec![0u8, 0, 0, 0];
    let n = copy_slice(&mut dst, &[1u8, 2]);
    assert_eq!(n, 2);
    assert_eq!(dst, vec![1u8, 2, 0, 0]);

    let mut dst = vec![9u8, 9];
    let n = copy_slice(&mut dst, &[5u8, 6, 7]);
    assert_eq!(n, 2);
    assert_eq!(dst, vec![5u8, 6]);
}

#[test]
fn terminal_detection_answers() {
    // whether a terminal is attached depends on the environment; the call
    // must simply answer without failing
    let _ = has_terminal_output_default();
}
