//! Output sinks and the exclusive-access guard around them.
//!
//! Every indicator owns its sink through an [`OutputGuard`]: a non-blocking
//! mutual-exclusion wrapper. A render or blank operation that finds the
//! guard held gives up before writing anything, so a dropped frame is the
//! worst that contention can cause, never interleaved output.

use vstd::prelude::*;
use vstd::string::StringExecFns;
use std::io::Write;

verus! {

/// A character-stream destination for rendered frames.
///
/// `log()` is the complete sequence of characters ever handed to this sink,
/// in order; every write appends to it. The in-memory sink realises the log
/// directly; the terminal sink tracks it as ghost state while the bytes go
/// to the process's standard output.
pub trait OutputSink: Sized {
    /// Everything ever written to this sink, in order.
    spec fn log(&self) -> Seq<char>;

    /// Append `s` to the stream.
    fn write_str(&mut self, s: &str)
        ensures
            final(self).log() == old(self).log() + s@,
    ;

    /// Push buffered data on towards the device; the stream itself is
    /// unchanged.
    fn flush(&mut self)
        ensures
            final(self).log() == old(self).log(),
    ;

    /// Width and height of the terminal this sink writes to, when that can
    /// be detected; `None` means the sink is not a terminal or its size is
    /// unknown.
    fn term_size(&self) -> Option<(u16, u16)>;
}

/// An in-memory sink: keeps every written character in a string. Useful for
/// capturing exactly what an indicator writes.
pub struct MemorySink {
    /// Everything written so far.
    pub buf: String,
}

impl MemorySink {
    /// An empty sink.
    pub fn new() -> (s: Self)
        ensures
            s.log() == Seq::<char>::empty(),
    {
        MemorySink { buf: String::new() }
    }

    /// Give up the sink and take everything that was written to it.
    pub fn into_string(self) -> (s: String)
        ensures
            s@ == self.log(),
    {
        self.buf
    }

    /// Everything written so far.
    pub fn contents(&self) -> (s: &str)
        ensures
            s@ == self.log(),
    {
        self.buf.as_str()
    }
}

impl OutputSink for MemorySink {
    open spec fn log(&self) -> Seq<char> {
        self.buf@
    }

    fn write_str(&mut self, s: &str) {
        self.buf.append(s);
    }

    fn flush(&mut self) {
    }

    fn term_size(&self) -> (r: Option<(u16, u16)>)
        ensures
            r is None,
    {
        None
    }
}

/// Relies on `std::io::Stdout::write_all`: hands the UTF-8 bytes of `s` to
/// the process's standard output. A write error is deliberately discarded:
/// a flaky terminal must never crash the host program, the animation just
/// stops updating.
#[verifier::external_body]
fn stdout_write(s: &str) {
    let _ = std::io::stdout().write_all(s.as_bytes());
}

/// Relies on `std::io::Stdout::flush`: pushes buffered output to the
/// device. Errors are discarded for the same reason as in `stdout_write`.
#[verifier::external_body]
fn stdout_flush() {
    let _ = std::io::stdout().flush();
}

/// Relies on `terminal_size::terminal_size`: reports the dimensions of the
/// terminal attached to the process's standard streams, or `None` when none
/// is attached. When it answers, both dimensions are non-zero (the crate
/// returns `None` for a zero-sized window).
#[verifier::external_body]
pub(crate) fn query_terminal_size() -> (r: Option<(u16, u16)>)
    ensures
        r matches Some(wh) ==> wh.0 > 0 && wh.1 > 0,
{
    match terminal_size::terminal_size() {
        Some((terminal_size::Width(w), terminal_size::Height(h))) => Some((w, h)),
        None => None,
    }
}

/// Relies on `std::io::Stdout` and the `writeln` macro: writes `s` and a
/// newline to standard output, discarding errors.
#[verifier::external_body]
pub(crate) fn stdout_print_line(s: &str) {
    let _ = writeln!(std::io::stdout(), "{}", s);
}

/// Relies on `std::io::Stderr` and the `writeln` macro: writes `s` and a
/// newline to standard error, discarding errors.
#[verifier::external_body]
pub(crate) fn stderr_print_line(s: &str) {
    let _ = writeln!(std::io::stderr(), "{}", s);
}

/// The process's standard output stream as a sink. This is the default
/// place indicators write to.
pub struct TermSink {
    /// Ghost record of everything handed to standard output through this
    /// sink.
    pub written: Ghost<Seq<char>>,
}

impl TermSink {
    /// A sink over the process's standard output.
    pub fn new() -> (s: Self)
        ensures
            s.log() == Seq::<char>::empty(),
    {
        TermSink { written: Ghost(Seq::empty()) }
    }
}

impl OutputSink for TermSink {
    open spec fn log(&self) -> Seq<char> {
        self.written@
    }

    fn write_str(&mut self, s: &str) {
        stdout_write(s);
        self.written = Ghost(self.written@ + s@);
    }

    fn flush(&mut self) {
        stdout_flush();
    }

    fn term_size(&self) -> Option<(u16, u16)> {
        query_terminal_size()
    }
}

/// Create the default output device for a new indicator: the process's
/// standard output. Multiple indicators may each create one; the stream
/// itself is a shared system resource.
pub fn create_default_output_device() -> (s: TermSink)
    ensures
        s.log() == Seq::<char>::empty(),
{
    TermSink::new()
}

/// The exclusive-access wrapper around a sink.
///
/// At most one render or blank operation writes at a time; an operation
/// that finds the guard held aborts completely before writing anything.
/// This is a deliberate best-effort policy: a dropped frame is preferable
/// to interleaved corrupted output or a stall, so nothing here ever blocks.
pub struct OutputGuard<T> {
    /// Whether some operation currently holds exclusive access.
    pub held: bool,
    /// The guarded sink.
    pub dev: T,
}

impl<T: OutputSink> OutputGuard<T> {
    /// The guarded sink's stream, in order.
    pub open spec fn log(&self) -> Seq<char> {
        self.dev.log()
    }

    /// Wrap `dev`; the guard starts out free.
    pub fn new(dev: T) -> (g: Self)
        ensures
            !g.held,
            g.dev == dev,
    {
        OutputGuard { held: false, dev }
    }

    /// Take exclusive access if nobody holds it. Never blocks: the answer
    /// says whether the access was granted.
    pub fn try_exclusive(&mut self) -> (ok: bool)
        ensures
            ok == !old(self).held,
            final(self).held,
            final(self).dev == old(self).dev,
    {
        if self.held {
            false
        } else {
            self.held = true;
            true
        }
    }

    /// Give exclusive access back.
    pub fn release(&mut self)
        ensures
            !final(self).held,
            final(self).dev == old(self).dev,
    {
        self.held = false;
    }

    /// Whether some operation currently holds exclusive access.
    pub fn is_held(&self) -> (r: bool)
        ensures
            r == self.held,
    {
        self.held
    }

    /// Write `s` and flush within one exclusive critical section. If the
    /// guard is held the whole operation aborts silently: nothing at all is
    /// written, and the call does not block.
    pub fn try_write(&mut self, s: &str) -> (ok: bool)
        ensures
            final(self).held == old(self).held,
            ok == !old(self).held,
            ok ==> final(self).log() == old(self).log() + s@,
            !ok ==> final(self).dev == old(self).dev,
    {
        if self.held {
            false
        } else {
            self.dev.write_str(s);
            self.dev.flush();
            true
        }
    }

    /// Write `s` and flush unconditionally. For single-owner mutation
    /// contexts that take access without the try-semantics.
    pub fn force_write(&mut self, s: &str)
        ensures
            final(self).held == old(self).held,
            final(self).log() == old(self).log() + s@,
    {
        self.dev.write_str(s);
        self.dev.flush();
    }

    /// The guarded sink, if no operation holds exclusive access.
    pub fn try_ref(&self) -> (r: Option<&T>)
        ensures
            r is Some <==> !self.held,
            r matches Some(d) ==> d == &self.dev,
    {
        if self.held {
            None
        } else {
            Some(&self.dev)
        }
    }

    /// Ask the guarded sink for the terminal size, if the guard is free.
    pub fn try_term_size(&self) -> (r: Option<(u16, u16)>)
        ensures
            self.held ==> r is None,
    {
        if self.held {
            None
        } else {
            self.dev.term_size()
        }
    }

    /// Give up the guard and take the sink back.
    pub fn into_inner(self) -> (r: T)
        ensures
            r == self.dev,
    {
        self.dev
    }
}

} // verus!
