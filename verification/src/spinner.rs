//! A simple character spinner for bars with no known size.

use vstd::prelude::*;
use vstd::string::StrSliceExecFns;
use vstd::string::StringExecFns;
use crate::inter::{Display, Spinner, WithTitle};
use crate::output::{OutputSink, OutputGuard, TermSink, create_default_output_device,
    stderr_print_line};
use crate::progress::{spec_spaces, spaces};
use crate::wheel::{Wheel, WheelIntoIter};

verus! {

/// A single-character spinner with an optional title that advances
/// whenever it is told to. It implements the `Spinner` trait and is the
/// default spinner.
///
/// The spinner takes up one line and renders its glyph after its title;
/// `bump` advances the glyph sequence. It renders like
/// `This is a spinner /`.
///
/// Rendering is best-effort: a try-semantics display operation that finds
/// the output guard held skips its whole frame silently; mutation entry
/// points (`bump`, `set_title`) take the access unconditionally, and
/// nothing here ever blocks.
pub struct Spin<T = TermSink> {
    /// The title shown before the glyph.
    pub title: String,
    /// The glyph currently shown.
    pub current: char,
    /// The cursor yielding the glyph sequence.
    pub chars: WheelIntoIter,
    /// The guarded output sink; owned exclusively by this spinner.
    pub output: OutputGuard<T>,
}

impl<T: OutputSink> Spin<T> {
    /// Everything this spinner has written to its sink.
    pub open spec fn log(&self) -> Seq<char> {
        self.output.log()
    }

    /// A valid spinner cycles a non-empty wheel with an in-range cursor.
    pub open spec fn wf(&self) -> bool {
        self.chars.wf() && self.chars.source@.len() > 0
    }

    /// The frame a refresh writes: carriage return, the title, a space,
    /// the current glyph. A function of the display state alone.
    pub open spec fn frame(&self) -> Seq<char> {
        seq!['\r'] + self.title@ + seq![' '] + seq![self.current]
    }

    /// The frame a blank writes: carriage return, one space per title
    /// character, two more spaces (covering the glyph), carriage return.
    pub open spec fn blank_frame(&self) -> Seq<char> {
        seq!['\r'] + spec_spaces(self.title@.len() as int) + seq![' ', ' ', '\r']
    }

    /// Two spinners agree on every field a render reads.
    pub open spec fn same_display(&self, other: &Self) -> bool {
        &&& self.title@ == other.title@
        &&& self.current == other.current
        &&& self.chars == other.chars
        &&& self.output.held == other.output.held
    }

    /// Create a spinner with a title and a wheel, writing to `output`.
    /// The cursor pre-advances once, so the first glyph shown is the
    /// wheel's second element. Since a title was given, the first frame is
    /// rendered immediately.
    pub fn with_title(output: T, title: &str, whl: Wheel) -> (r: Self)
        requires
            whl@.len() > 0,
        ensures
            r.wf(),
            r.title@ == title@,
            r.chars.source@ == whl@,
            r.chars.idx == 1int % (whl@.len() as int),
            r.current == whl@[r.chars.idx as int],
            !r.output.held,
            r.log() == output.log() + r.frame(),
    {
        let mut chars = whl.into_iter();
        let current = chars.next().unwrap();
        let mut this = Spin {
            title: title.to_owned(),
            current,
            chars,
            output: OutputGuard::new(output),
        };
        this.refresh();
        this
    }

    /// Create a blank spinner with a wheel, writing to `output`. The
    /// cursor pre-advances once, so the first glyph shown is the wheel's
    /// second element.
    pub fn new(output: T, whl: Wheel) -> (r: Self)
        requires
            whl@.len() > 0,
        ensures
            r.wf(),
            r.title@ == Seq::<char>::empty(),
            r.chars.source@ == whl@,
            r.chars.idx == 1int % (whl@.len() as int),
            r.current == whl@[r.chars.idx as int],
            !r.output.held,
            r.log() == output.log(),
    {
        let mut chars = whl.into_iter();
        let current = chars.next().unwrap();
        Spin { title: String::new(), current, chars, output: OutputGuard::new(output) }
    }

    /// Consume the spinner and take the backing sink.
    pub fn into_inner(self) -> (r: T)
        ensures
            r == self.output.dev,
    {
        self.output.into_inner()
    }

    /// A mutable reference to the backing sink. While the borrow lives
    /// the spinner cannot render, so exclusive ownership is enough.
    pub fn inner_mut(&mut self) -> (r: &mut T)
        ensures
            *r == old(self).output.dev,
            final(self).output.dev == *final(r),
            final(self).output.held == old(self).output.held,
            final(self).title@ == old(self).title@,
            final(self).current == old(self).current,
            final(self).chars == old(self).chars,
    {
        &mut self.output.dev
    }

    /// The backing sink, when no display operation holds the guard. While
    /// the returned borrow lives the spinner cannot be used at all.
    pub fn inner(&self) -> (r: Option<&T>)
        ensures
            r is Some <==> !self.output.held,
            r matches Some(d) ==> d == &self.output.dev,
    {
        self.output.try_ref()
    }

    /// Consume the spinner and complete it: a backspace erases the glyph,
    /// a space and a newline follow, and the sink is handed back. Nothing
    /// can render to it afterwards.
    pub fn complete(self) -> (sink: T)
        ensures
            sink.log() == self.log() + seq!['\u{8}', ' ', '\n'],
    {
        let mut sink = self.output.into_inner();
        let mut f = String::new();
        f.push('\u{8}');
        f.push(' ');
        f.push('\n');
        sink.write_str(f.as_str());
        proof {
            assert(sink.log() =~= self.log() + seq!['\u{8}', ' ', '\n']);
        }
        sink
    }

    /// Consume the spinner and complete it with a message: a backspace
    /// erases the glyph, the message and a newline follow, and the sink is
    /// handed back.
    pub fn complete_with(self, msg: &str) -> (sink: T)
        ensures
            sink.log() == self.log() + seq!['\u{8}'] + msg@ + seq!['\n'],
    {
        let mut sink = self.output.into_inner();
        let mut f = String::new();
        f.push('\u{8}');
        f.append(msg);
        f.push('\n');
        sink.write_str(f.as_str());
        proof {
            assert(sink.log() =~= self.log() + seq!['\u{8}'] + msg@ + seq!['\n']);
        }
        sink
    }

    /// Build the refresh frame for the current state.
    fn build_frame(&self) -> (f: String)
        ensures
            f@ == self.frame(),
    {
        let mut f = String::new();
        f.push('\r');
        f.append(self.title.as_str());
        f.push(' ');
        f.push(self.current);
        proof {
            assert(f@ =~= self.frame());
        }
        f
    }

    /// Build the blank frame for the current state.
    fn build_blank(&self) -> (f: String)
        ensures
            f@ == self.blank_frame(),
    {
        let mut f = String::new();
        f.push('\r');
        let sp = spaces(self.title.as_str().unicode_len());
        f.append(sp.as_str());
        f.push(' ');
        f.push(' ');
        f.push('\r');
        proof {
            assert(f@ =~= self.blank_frame());
        }
        f
    }
}

impl Spin<TermSink> {
    /// Create a spinner with a title and a wheel, writing to the process's
    /// standard output. Since a title was given, the first frame is
    /// rendered immediately.
    pub fn with_title_default(title: &str, whl: Wheel) -> (r: Self)
        requires
            whl@.len() > 0,
        ensures
            r.wf(),
            r.title@ == title@,
            r.chars.source@ == whl@,
            r.chars.idx == 1int % (whl@.len() as int),
            r.current == whl@[r.chars.idx as int],
            !r.output.held,
            r.log() == r.frame(),
    {
        Self::with_title(create_default_output_device(), title, whl)
    }

    /// Create a blank spinner with a wheel, writing to the process's
    /// standard output.
    pub fn new_default(whl: Wheel) -> (r: Self)
        requires
            whl@.len() > 0,
        ensures
            r.wf(),
            r.title@ == Seq::<char>::empty(),
            r.chars.source@ == whl@,
            r.chars.idx == 1int % (whl@.len() as int),
            r.current == whl@[r.chars.idx as int],
            !r.output.held,
            r.log() == Seq::<char>::empty(),
    {
        Self::new(create_default_output_device(), whl)
    }
}

impl Default for Spin<TermSink> {
    /// A blank spinner over the built-in wheel, writing to the process's
    /// standard output. The cursor has not pre-advanced: the glyph on show
    /// is the wheel's last, and the first `bump` shows the second element.
    fn default() -> (r: Self)
        ensures
            r.wf(),
            r.title@ == Seq::<char>::empty(),
            r.chars.source@ == crate::wheel::default_glyphs(),
            r.chars.idx == 0,
            r.current == '|',
            !r.output.held,
            r.log() == Seq::<char>::empty(),
    {
        Spin {
            title: String::new(),
            chars: Wheel::default().into_iter(),
            current: '|',
            output: OutputGuard::new(create_default_output_device()),
        }
    }
}

impl<T: OutputSink> Display for Spin<T> {
    /// Rewrite the line: carriage return, title, space, glyph, within one
    /// guarded critical section. If the guard is held, nothing at all is
    /// written.
    fn refresh(&mut self)
        ensures
            final(self).same_display(old(self)),
            old(self).output.held ==> final(self).output.dev == old(self).output.dev,
            !old(self).output.held ==> final(self).log() == old(self).log() + old(self).frame(),
    {
        let f = self.build_frame();
        let _ok = self.output.try_write(f.as_str());
    }

    /// Erase the line: carriage return, spaces over the title and glyph,
    /// carriage return, within one guarded critical section. If the guard
    /// is held, nothing at all is written.
    fn blank(&mut self)
        ensures
            final(self).same_display(old(self)),
            old(self).output.held ==> final(self).output.dev == old(self).output.dev,
            !old(self).output.held ==> final(self).log() == old(self).log() + old(self).blank_frame(),
    {
        let f = self.build_blank();
        let _ok = self.output.try_write(f.as_str());
    }

    /// Blank, write `string` and a newline to this spinner's own sink,
    /// and redraw — log lines scroll past while the spinner floats below
    /// them. Under guard contention nothing at all is written.
    fn println(&mut self, string: &str)
        ensures
            final(self).same_display(old(self)),
            old(self).output.held ==> final(self).output.dev == old(self).output.dev,
            !old(self).output.held ==> final(self).log() == old(self).log() + old(self).blank_frame() + string@ + seq!['\n'] + old(self).frame(),
    {
        self.blank();
        let mut line = String::new();
        line.append(string);
        line.push('\n');
        let _ok = self.output.try_write(line.as_str());
        self.refresh();
        proof {
            if !old(self).output.held {
                assert(self.log() =~= old(self).log() + old(self).blank_frame() + string@
                    + seq!['\n'] + old(self).frame());
            }
        }
    }

    /// Blank, write `string` and a newline to the process's standard
    /// error, and redraw. Under guard contention the spinner's own frames
    /// are skipped.
    fn eprintln(&mut self, string: &str)
        ensures
            final(self).same_display(old(self)),
            old(self).output.held ==> final(self).output.dev == old(self).output.dev,
            !old(self).output.held ==> final(self).log() == old(self).log() + old(self).blank_frame() + old(self).frame(),
    {
        self.blank();
        stderr_print_line(string);
        self.refresh();
        proof {
            if !old(self).output.held {
                assert(self.log() =~= old(self).log() + old(self).blank_frame() + old(self).frame());
            }
        }
    }

    /// The spinner's title.
    fn get_title(&self) -> (r: &str)
        ensures
            r@ == self.title@,
    {
        self.title.as_str()
    }

    /// Blank the old title's region, replace the title, and redraw with
    /// the same glyph — all with exclusive access taken unconditionally:
    /// title-setting is a single-owner mutation context, not a
    /// try-semantics render.
    fn set_title(&mut self, from: &str)
        ensures
            final(self).title@ == from@,
            final(self).current == old(self).current,
            final(self).chars == old(self).chars,
            final(self).output.held == old(self).output.held,
            final(self).log() == old(self).log() + old(self).blank_frame() + final(self).frame(),
    {
        let bf = self.build_blank();
        self.output.force_write(bf.as_str());
        self.title = from.to_owned();
        let f = self.build_frame();
        self.output.force_write(f.as_str());
        proof {
            assert(self.log() =~= old(self).log() + old(self).blank_frame() + self.frame());
        }
    }

    /// Spinners have no width: this does nothing.
    fn update_dimensions(&mut self, _to: usize)
        ensures
            *final(self) == *old(self),
    {
    }
}

impl<T: OutputSink> Spinner for Spin<T> {
    /// Advance the glyph sequence once and rewrite the line — with
    /// exclusive access taken unconditionally: the caller owns the
    /// spinner, this is a mutation context, not a try-semantics render.
    fn bump(&mut self)
        ensures
            final(self).title@ == old(self).title@,
            final(self).chars.source == old(self).chars.source,
            final(self).output.held == old(self).output.held,
            old(self).wf() ==> final(self).wf(),
            old(self).wf() ==> final(self).chars.idx == (old(self).chars.idx + 1) % (old(self).chars.source@.len() as int),
            old(self).wf() ==> final(self).current == old(self).chars.source@[final(self).chars.idx as int],
            final(self).log() == old(self).log() + final(self).frame(),
    {
        match self.chars.next() {
            Some(c) => {
                self.current = c;
            },
            None => {
            },
        }
        let f = self.build_frame();
        self.output.force_write(f.as_str());
    }
}

impl<T: OutputSink> WithTitle for Spin<T> {
    /// Replace the title, consuming and returning the spinner. Nothing is
    /// written.
    fn with_title(self, string: &str) -> (r: Self)
        ensures
            r.title@ == string@,
            r.current == self.current,
            r.chars == self.chars,
            r.output == self.output,
    {
        Spin { title: string.to_owned(), ..self }
    }

    /// Replace the title. Nothing is written.
    fn add_title(&mut self, string: &str)
        ensures
            final(self).title@ == string@,
            final(self).current == old(self).current,
            final(self).chars == old(self).chars,
            final(self).output == old(self).output,
    {
        self.title = string.to_owned();
    }

    /// Spinners cache nothing: this does nothing.
    fn update(&mut self)
        ensures
            *final(self) == *old(self),
    {
    }

    /// Consume the spinner: erase the glyph, end the line, drop the sink.
    fn complete(self) {
        let _sink = Spin::complete(self);
    }
}

} // verus!
