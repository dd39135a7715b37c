//! The progress bar: text layout of a fill bar, percentage and title, and
//! the stateful bar that renders them to its sink.
//!
//! A bar renders like
//! `[=========================                         ]: 50.00% a title`
//! padded or cut to exactly its maximum render width, so a frame always
//! fully overwrites the one before it.

use vstd::prelude::*;
use vstd::string::StrSliceExecFns;
use vstd::string::StringExecFns;
use crate::digits::{percent_chars, format_percent};
use crate::inter::{Display, ProgressBar, WithTitle};
use crate::output::{OutputSink, OutputGuard, TermSink, create_default_output_device,
    stdout_print_line, stderr_print_line};
use crate::PROGRESS_SCALE;

verus! {

/// The default fill width of a bar when the caller does not pick one.
pub const DEFAULT_SIZE: usize = 50;

/// How much room beyond the fill width a bar reserves for percentage and
/// title when no terminal width is available.
pub const DEFAULT_MAX_BORDER_SIZE: usize = 20;

/// `n` spaces (empty for a non-positive `n`).
pub open spec fn spec_spaces(n: int) -> Seq<char> {
    Seq::new(
        if n >= 0 {
            n as nat
        } else {
            0
        },
        |i: int| ' ',
    )
}

/// How many glyphs of a fill bar of `width` cells are filled at `progress`:
/// `floor(progress * width / PROGRESS_SCALE)`, capped at `width` for
/// progress values beyond 100%.
pub open spec fn spec_fill_count(width: usize, progress: u32) -> int {
    let f = (progress as int) * (width as int) / (PROGRESS_SCALE as int);
    if f <= width as int {
        f
    } else {
        width as int
    }
}

/// The fill bar: `width` cells, the first `spec_fill_count` of them filled
/// glyphs, the rest spaces.
pub open spec fn spec_fill_bar(width: usize, progress: u32) -> Seq<char> {
    Seq::new(
        width as nat,
        |i: int|
            if i < spec_fill_count(width, progress) {
                '='
            } else {
                ' '
            },
    )
}

/// The percentage line: the fill bar in brackets, then the percentage to
/// two decimal places.
pub open spec fn spec_percent_line(fill: Seq<char>, progress: u32) -> Seq<char> {
    seq!['['] + fill + seq![']', ':', ' '] + percent_chars(progress) + seq!['%']
}

/// `s` cut down to at most `to` characters: unchanged when it fits; its
/// first `to - 3` characters plus an ellipsis when `to > 3`; a hard cut
/// with no ellipsis otherwise.
pub open spec fn spec_truncated(s: Seq<char>, to: int) -> Seq<char> {
    if s.len() <= to {
        s
    } else if to > 3 {
        s.take(to - 3) + seq!['.', '.', '.']
    } else if to >= 0 {
        s.take(to)
    } else {
        Seq::empty()
    }
}

/// `s` rebuilt to exactly `to` characters: cut when longer, padded with
/// trailing spaces when shorter.
pub open spec fn spec_exact(s: Seq<char>, to: int) -> Seq<char> {
    Seq::new(
        if to >= 0 {
            to as nat
        } else {
            0
        },
        |i: int|
            if i < s.len() {
                s[i]
            } else {
                ' '
            },
    )
}

/// One whole rendered line: the percentage line, then the title (behind
/// one leading space) cut to the remaining budget, the whole padded or cut
/// to exactly `max_width` characters.
pub open spec fn spec_bar_line(
    fill: Seq<char>,
    progress: u32,
    max_width: int,
    title: Seq<char>,
) -> Seq<char> {
    let pl = spec_percent_line(fill, progress);
    let budget = if max_width >= pl.len() {
        max_width - pl.len()
    } else {
        0
    };
    spec_exact(pl + spec_truncated(seq![' '] + title, budget), max_width)
}

/// The control prefix written before each frame: reset attributes, erase
/// to end of line.
pub open spec fn ansi_clear_prefix() -> Seq<char> {
    seq!['\u{1b}', '[', '0', 'm', '\u{1b}', '[', 'K']
}

/// The control suffix written after each frame: newline, then cursor up,
/// parking the cursor at the start of the indicator's own line.
pub open spec fn ansi_park_suffix() -> Seq<char> {
    seq!['\n', '\u{1b}', '[', '1', 'A']
}

/// Everything one refresh writes.
pub open spec fn spec_refresh_frame(
    fill: Seq<char>,
    progress: u32,
    max_width: int,
    title: Seq<char>,
) -> Seq<char> {
    ansi_clear_prefix() + spec_bar_line(fill, progress, max_width, title) + ansi_park_suffix()
}

/// Everything one blank writes: carriage return, `max_width` spaces,
/// carriage return.
pub open spec fn spec_blank_frame(max_width: int) -> Seq<char> {
    seq!['\r'] + spec_spaces(max_width) + seq!['\r']
}

/// `n` spaces.
pub fn spaces(n: usize) -> (s: String)
    ensures
        s@ == spec_spaces(n as int),
{
    let mut s = String::new();
    let mut i: usize = 0;
    while i < n
        invariant
            i <= n,
            s@.len() == i,
            forall|j: int| 0 <= j < i ==> s@[j] == ' ',
        decreases n - i,
    {
        s.push(' ');
        i = i + 1;
    }
    proof {
        assert(s@ =~= spec_spaces(n as int));
    }
    s
}

/// The fill bar of `width` cells at `progress`: for each position, a `'='`
/// while positions are below `floor(progress * width / PROGRESS_SCALE)`, a
/// space from there on.
pub fn render_fill_bar(width: usize, progress: u32) -> (s: String)
    ensures
        s@ == spec_fill_bar(width, progress),
{
    proof {
        vstd::arithmetic::mul::lemma_mul_upper_bound(
            progress as int,
            u32::MAX as int,
            width as int,
            usize::MAX as int,
        );
    }
    let wide: u128 = (progress as u128) * (width as u128) / (PROGRESS_SCALE as u128);
    let count: usize = if wide >= width as u128 {
        width
    } else {
        wide as usize
    };
    assert(count as int == spec_fill_count(width, progress));
    let mut s = String::new();
    let mut i: usize = 0;
    while i < width
        invariant
            i <= width,
            s@.len() == i,
            forall|j: int|
                0 <= j < i ==> s@[j] == (if j < count as int {
                    '='
                } else {
                    ' '
                }),
        decreases width - i,
    {
        if i < count {
            s.push('=');
        } else {
            s.push(' ');
        }
        i = i + 1;
    }
    proof {
        assert(s@ =~= spec_fill_bar(width, progress));
    }
    s
}

/// The percentage line for a fill bar and a progress value.
pub fn percentage_line(fill: &str, progress: u32) -> (s: String)
    ensures
        s@ == spec_percent_line(fill@, progress),
{
    let mut s = String::new();
    s.push('[');
    s.append(fill);
    s.push(']');
    s.push(':');
    s.push(' ');
    let pct = format_percent(progress);
    s.append(pct.as_str());
    s.push('%');
    proof {
        assert(s@ =~= spec_percent_line(fill@, progress));
    }
    s
}

/// Cut `input` down to at most `to` characters, appending an ellipsis when
/// there is room for one (see `spec_truncated`). Character counts, not
/// bytes.
pub fn ensure_lower(input: String, to: usize) -> (r: String)
    ensures
        r@ == spec_truncated(input@, to as int),
{
    let n = input.as_str().unicode_len();
    if n <= to {
        input
    } else if to > 3 {
        let keep = to - 3;
        let mut out = String::new();
        let mut i: usize = 0;
        while i < keep
            invariant
                i <= keep,
                keep < n,
                n == input@.len(),
                out@.len() == i,
                forall|j: int| 0 <= j < i ==> out@[j] == input@[j],
            decreases keep - i,
        {
            out.push(input.as_str().get_char(i));
            i = i + 1;
        }
        out.push('.');
        out.push('.');
        out.push('.');
        proof {
            assert(out@ =~= spec_truncated(input@, to as int));
        }
        out
    } else {
        let mut out = String::new();
        let mut i: usize = 0;
        while i < to
            invariant
                i <= to,
                to < n,
                n == input@.len(),
                out@.len() == i,
                forall|j: int| 0 <= j < i ==> out@[j] == input@[j],
            decreases to - i,
        {
            out.push(input.as_str().get_char(i));
            i = i + 1;
        }
        proof {
            assert(out@ =~= spec_truncated(input@, to as int));
        }
        out
    }
}

/// Rebuild `input` to exactly `to` characters: unchanged when it already
/// has that many, cut when longer, padded with trailing spaces when
/// shorter. Character counts, not bytes.
pub fn ensure_eq(input: String, to: usize) -> (r: String)
    ensures
        r@ == spec_exact(input@, to as int),
{
    let n = input.as_str().unicode_len();
    if n == to {
        proof {
            assert(input@ =~= spec_exact(input@, to as int));
        }
        input
    } else {
        let mut out = String::new();
        let mut i: usize = 0;
        while i < to
            invariant
                i <= to,
                n == input@.len(),
                out@.len() == i,
                forall|j: int|
                    0 <= j < i ==> out@[j] == (if j < input@.len() {
                        input@[j]
                    } else {
                        ' '
                    }),
            decreases to - i,
        {
            if i < n {
                out.push(input.as_str().get_char(i));
            } else {
                out.push(' ');
            }
            i = i + 1;
        }
        proof {
            assert(out@ =~= spec_exact(input@, to as int));
        }
        out
    }
}

/// Lay out one whole line: percentage line, truncated title, padded or cut
/// to exactly `max_width` characters.
pub fn render_line(fill: &str, progress: u32, max_width: usize, title: &str) -> (r: String)
    ensures
        r@ == spec_bar_line(fill@, progress, max_width as int, title@),
{
    let mut line = percentage_line(fill, progress);
    let pl_len = line.as_str().unicode_len();
    let budget: usize = if max_width >= pl_len {
        max_width - pl_len
    } else {
        0
    };
    let mut t = String::new();
    t.push(' ');
    t.append(title);
    let t = ensure_lower(t, budget);
    line.append(t.as_str());
    ensure_eq(line, max_width)
}

/// Build everything one refresh writes: control prefix, the line, control
/// suffix.
pub fn build_refresh_frame(fill: &str, progress: u32, max_width: usize, title: &str) -> (r: String)
    ensures
        r@ == spec_refresh_frame(fill@, progress, max_width as int, title@),
{
    let mut f = String::new();
    f.push('\u{1b}');
    f.push('[');
    f.push('0');
    f.push('m');
    f.push('\u{1b}');
    f.push('[');
    f.push('K');
    let line = render_line(fill, progress, max_width, title);
    f.append(line.as_str());
    f.push('\n');
    f.push('\u{1b}');
    f.push('[');
    f.push('1');
    f.push('A');
    proof {
        assert(f@ =~= spec_refresh_frame(fill@, progress, max_width as int, title@));
    }
    f
}

/// Build everything one blank writes.
pub fn build_blank_frame(max_width: usize) -> (r: String)
    ensures
        r@ == spec_blank_frame(max_width as int),
{
    let mut f = String::new();
    f.push('\r');
    let sp = spaces(max_width);
    f.append(sp.as_str());
    f.push('\r');
    proof {
        assert(f@ =~= spec_blank_frame(max_width as int));
    }
    f
}

/// For every width and progress, the fill bar has exactly `width` cells;
/// cell `i` is filled exactly when `i < floor(progress * width /
/// PROGRESS_SCALE)` (capped at `width`), and for progress within 100% the
/// cap never applies.
pub proof fn lemma_fill_bar_shape(width: usize, progress: u32)
    ensures
        spec_fill_bar(width, progress).len() == width,
        forall|i: int|
            0 <= i < width ==> spec_fill_bar(width, progress)[i] == (if i < spec_fill_count(
                width,
                progress,
            ) {
                '='
            } else {
                ' '
            }),
        progress <= PROGRESS_SCALE ==> spec_fill_count(width, progress) == (progress as int) * (
        width as int) / (PROGRESS_SCALE as int),
{
    if progress <= PROGRESS_SCALE {
        vstd::arithmetic::mul::lemma_mul_inequality(
            progress as int,
            PROGRESS_SCALE as int,
            width as int,
        );
        vstd::arithmetic::div_mod::lemma_div_is_ordered(
            (progress as int) * (width as int),
            (PROGRESS_SCALE as int) * (width as int),
            PROGRESS_SCALE as int,
        );
        vstd::arithmetic::div_mod::lemma_div_multiples_vanish(
            width as int,
            PROGRESS_SCALE as int,
        );
    }
}

/// Every rendered line is exactly `max_width` characters, whatever the
/// fill, progress and title are — short, empty, or far beyond the budget —
/// so a blank of `max_width` spaces always erases the whole frame.
pub proof fn lemma_line_exact_width(
    fill: Seq<char>,
    progress: u32,
    max_width: int,
    title: Seq<char>,
)
    requires
        max_width >= 0,
    ensures
        spec_bar_line(fill, progress, max_width, title).len() == max_width,
{
}

/// Title truncation: a title longer than its budget `b` is rendered as its
/// first `b - 3` characters plus `"..."` when `b > 3` (exactly `b`
/// characters in all), and as a hard cut to `b` characters with no
/// ellipsis when `b <= 3`; a title within the budget is unchanged.
pub proof fn lemma_title_truncation(s: Seq<char>, b: int)
    requires
        b >= 0,
    ensures
        s.len() > b && b > 3 ==> spec_truncated(s, b) == s.take(b - 3) + seq!['.', '.', '.'],
        s.len() > b && b > 3 ==> spec_truncated(s, b).len() == b,
        s.len() > b && b <= 3 ==> spec_truncated(s, b) == s.take(b),
        s.len() <= b ==> spec_truncated(s, b) == s,
{
}

/// A progress bar with a size and optionally a title. It implements the
/// `ProgressBar` trait and is the default progress bar.
///
/// The bar has a maximum render width, usually derived from the terminal
/// (when that can be detected) and otherwise set by the caller, which keeps
/// the title line from running over the side. The fill width defaults to
/// `DEFAULT_SIZE`.
///
/// Rendering is best-effort: an operation that finds the output guard held
/// silently skips its whole frame, and nothing here ever blocks. The
/// rendered frame itself is computed before the guard is taken, so the
/// guard is held only for the actual write.
pub struct Bar<T = TermSink> {
    /// Fill width: how many cells the bracketed fill bar has.
    pub width: usize,
    /// Maximum render width: every frame is exactly this many characters.
    pub max_width: usize,
    /// Completion, in hundredths of a percent (`PROGRESS_SCALE` is 100%).
    pub progress: u32,
    /// The cached fill bar, recomputed when progress changes.
    pub buffer: String,
    /// The title shown after the percentage.
    pub title: String,
    /// Whether renders re-query the terminal width and use the live value
    /// in place of `max_width`.
    pub fit_to_term: bool,
    /// The guarded output sink; owned exclusively by this bar.
    pub output: OutputGuard<T>,
}

impl<T: OutputSink> Bar<T> {
    /// Everything this bar has written to its sink.
    pub open spec fn log(&self) -> Seq<char> {
        self.output.log()
    }

    /// The frame a refresh writes when the live maximum width is `mw`: a
    /// function of the display state alone.
    pub open spec fn frame(&self, mw: int) -> Seq<char> {
        spec_refresh_frame(self.buffer@, self.progress, mw, self.title@)
    }

    /// Two bars agree on every field a render reads.
    pub open spec fn same_display(&self, other: &Self) -> bool {
        &&& self.width == other.width
        &&& self.max_width == other.max_width
        &&& self.progress == other.progress
        &&& self.buffer@ == other.buffer@
        &&& self.title@ == other.title@
        &&& self.fit_to_term == other.fit_to_term
        &&& self.output.held == other.output.held
    }

    /// The maximum widths a render of this bar may use: the stored one, or
    /// — for a bar fitted to its terminal — whatever width the terminal
    /// reports at that moment.
    pub open spec fn live_max_ok(&self, mw: int) -> bool {
        ||| mw == self.max_width as int
        ||| (self.fit_to_term && 0 <= mw <= u16::MAX as int)
    }

    /// The bar `post` has appended exactly one refresh frame, for some
    /// admissible live width, to the log `pre_log`.
    pub open spec fn writes_frame(post: Self, pre_log: Seq<char>) -> bool {
        exists|mw: int|
            #![auto]
            post.live_max_ok(mw) && post.log() == pre_log + post.frame(mw)
    }

    /// The bar `post` has appended exactly one blank frame, for some
    /// admissible live width, to the log `pre_log`.
    pub open spec fn writes_blank(post: Self, pre_log: Seq<char>) -> bool {
        exists|mw: int|
            #![auto]
            post.live_max_ok(mw) && post.log() == pre_log + spec_blank_frame(mw)
    }

    /// The bar `post` has appended one blank frame and then one refresh
    /// frame to the log `pre_log`.
    pub open spec fn writes_blank_then_frame(post: Self, pre_log: Seq<char>) -> bool {
        exists|mw1: int, mw2: int|
            #![auto]
            post.live_max_ok(mw1) && post.live_max_ok(mw2) && post.log() == pre_log
                + spec_blank_frame(mw1) + post.frame(mw2)
    }

    /// The fill width and the live maximum width a render uses right now:
    /// the stored widths, unless this bar is fitted to its terminal and the
    /// terminal answers, in which case the terminal's width caps both.
    fn widths(&self) -> (r: (usize, usize))
        ensures
            self.live_max_ok(r.1 as int),
            !self.fit_to_term ==> r == (self.width, self.max_width),
            r == (self.width, self.max_width) || r.0 == (if self.width <= r.1 {
                self.width
            } else {
                r.1
            }),
    {
        if self.fit_to_term {
            match self.output.try_term_size() {
                Some((tw, _h)) => {
                    let twu = tw as usize;
                    let w = if self.width <= twu {
                        self.width
                    } else {
                        twu
                    };
                    (w, twu)
                },
                None => (self.width, self.max_width),
            }
        } else {
            (self.width, self.max_width)
        }
    }

    /// Recompute the cached fill bar from the current width and progress.
    /// Nothing is written.
    pub fn update(&mut self)
        ensures
            final(self).buffer@ == spec_fill_bar(old(self).width, old(self).progress),
            final(self).width == old(self).width,
            final(self).max_width == old(self).max_width,
            final(self).progress == old(self).progress,
            final(self).title@ == old(self).title@,
            final(self).fit_to_term == old(self).fit_to_term,
            final(self).output == old(self).output,
    {
        self.buffer = render_fill_bar(self.width, self.progress);
    }

    /// Create a bar over `output` with an explicit fill and maximum render
    /// width. Construction demands that the maximum strictly exceeds the
    /// fill width; `try_with_max` surfaces that check to the caller. The
    /// bar starts at zero progress with an empty title and renders once.
    pub fn with_max(output: T, width: usize, max_width: usize) -> (r: Self)
        requires
            width < max_width,
        ensures
            r.width == width,
            r.max_width == max_width,
            r.progress == 0,
            r.buffer@ == spec_fill_bar(width, 0),
            r.title@ == Seq::<char>::empty(),
            !r.fit_to_term,
            !r.output.held,
            r.log() == output.log() + r.frame(max_width as int),
    {
        let mut this = Bar {
            width,
            max_width,
            progress: 0,
            buffer: String::new(),
            title: String::new(),
            fit_to_term: false,
            output: OutputGuard::new(output),
        };
        this.update();
        this.refresh();
        this
    }

    /// Like `with_max`, but the construction rule — the maximum render
    /// width must strictly exceed the fill width — is checked and a
    /// violation reported, instead of demanded of the caller.
    pub fn try_with_max(output: T, width: usize, max_width: usize) -> (r: Option<Self>)
        ensures
            r is Some <==> width < max_width,
            r matches Some(b) ==> {
                &&& b.width == width
                &&& b.max_width == max_width
                &&& b.progress == 0
                &&& b.buffer@ == spec_fill_bar(width, 0)
                &&& b.title@ == Seq::<char>::empty()
                &&& !b.fit_to_term
                &&& !b.output.held
                &&& b.log() == output.log() + b.frame(max_width as int)
            },
    {
        if width < max_width {
            Some(Self::with_max(output, width, max_width))
        } else {
            None
        }
    }

    /// Create a bar whose maximum render width follows the terminal: when
    /// the terminal's width is known it becomes the maximum (the fill
    /// width is capped below it), otherwise the maximum falls back to
    /// `width + DEFAULT_MAX_BORDER_SIZE`. Either way the bar keeps
    /// re-querying the terminal on every render.
    pub fn new(output: T, width: usize) -> (r: Self)
        requires
            width + DEFAULT_MAX_BORDER_SIZE <= usize::MAX,
        ensures
            r.fit_to_term,
            r.progress == 0,
            r.title@ == Seq::<char>::empty(),
            !r.output.held,
            r.width < r.max_width,
            r.buffer@ == spec_fill_bar(r.width, 0),
            r.log() == output.log() + r.frame(r.max_width as int),
    {
        let size = output.term_size();
        let mut this = match size {
            Some((tw, _h)) => {
                let twu = tw as usize;
                if width < twu {
                    Self::with_max(output, width, twu)
                } else if twu >= 1 {
                    Self::with_max(output, twu - 1, twu)
                } else {
                    Self::with_max(output, width, width + DEFAULT_MAX_BORDER_SIZE)
                }
            },
            None => Self::with_max(output, width, width + DEFAULT_MAX_BORDER_SIZE),
        };
        this.fit_to_term = true;
        this
    }

    /// Create a bar fitted to the terminal, or nothing when `output` has
    /// no detectable terminal.
    pub fn try_new(output: T, width: usize) -> (r: Option<Self>)
        ensures
            r matches Some(b) ==> {
                &&& b.fit_to_term
                &&& b.progress == 0
                &&& b.title@ == Seq::<char>::empty()
                &&& !b.output.held
                &&& b.width < b.max_width
                &&& b.max_width <= u16::MAX as usize
                &&& b.buffer@ == spec_fill_bar(b.width, 0)
                &&& b.log() == output.log() + b.frame(b.max_width as int)
            },
    {
        let size = output.term_size();
        match size {
            Some((tw, _h)) => {
                if tw >= 1 {
                    let twu = tw as usize;
                    let mut this = if width < twu {
                        Self::with_max(output, width, twu)
                    } else {
                        Self::with_max(output, twu - 1, twu)
                    };
                    this.fit_to_term = true;
                    Some(this)
                } else {
                    None
                }
            },
            None => None,
        }
    }

    /// Create a bar fitted to the terminal with the default fill width, or
    /// nothing when `to` has no detectable terminal.
    pub fn try_new_default_size(to: T) -> (r: Option<Self>)
        ensures
            r matches Some(b) ==> {
                &&& b.fit_to_term
                &&& b.progress == 0
                &&& b.title@ == Seq::<char>::empty()
                &&& !b.output.held
                &&& b.width < b.max_width
            },
    {
        Self::try_new(to, DEFAULT_SIZE)
    }

    /// Create a bar `width` cells long over `output` with a title.
    /// Construction renders twice: once while the bar is built, once when
    /// the title goes in.
    pub fn with_title(output: T, width: usize, title: &str) -> (r: Self)
        requires
            width + DEFAULT_MAX_BORDER_SIZE <= usize::MAX,
        ensures
            r.fit_to_term,
            r.progress == 0,
            r.title@ == title@,
            !r.output.held,
            r.width < r.max_width,
            r.buffer@ == spec_fill_bar(r.width, 0),
            Self::writes_frame(
                r,
                output.log() + spec_refresh_frame(
                    spec_fill_bar(r.width, 0),
                    0,
                    r.max_width as int,
                    Seq::<char>::empty(),
                ),
            ),
    {
        let mut this = Self::new(output, width);
        let ghost b0 = this;
        this.add_title(title);
        proof {
            let m = choose|mw: int|
                #![auto]
                b0.live_max_ok(mw) && this.log() == b0.log() + spec_refresh_frame(
                    b0.buffer@,
                    b0.progress,
                    mw,
                    title@,
                );
            assert(this.live_max_ok(m) && this.log() == (output.log() + spec_refresh_frame(
                spec_fill_bar(this.width, 0),
                0,
                this.max_width as int,
                Seq::<char>::empty(),
            )) + this.frame(m));
        }
        this
    }

    /// Create a bar fitted to the terminal with a title, or nothing when
    /// `output` has no detectable terminal. Construction renders twice:
    /// once while the bar is built, once when the title goes in.
    pub fn try_new_with_title(output: T, width: usize, title: &str) -> (r: Option<Self>)
        ensures
            r matches Some(b) ==> {
                &&& b.fit_to_term
                &&& b.progress == 0
                &&& b.title@ == title@
                &&& !b.output.held
                &&& b.width < b.max_width
                &&& b.buffer@ == spec_fill_bar(b.width, 0)
                &&& Self::writes_frame(
                    b,
                    output.log() + spec_refresh_frame(
                        spec_fill_bar(b.width, 0),
                        0,
                        b.max_width as int,
                        Seq::<char>::empty(),
                    ),
                )
            },
    {
        match Self::try_new(output, width) {
            Some(mut this) => {
                let ghost b0 = this;
                this.set_title(title);
                let ghost mid = this;
                this.update();
                proof {
                    let m = choose|mw: int|
                        #![auto]
                        mid.live_max_ok(mw) && mid.log() == b0.log() + mid.frame(mw);
                    assert(this.live_max_ok(m) && this.log() == (output.log()
                        + spec_refresh_frame(
                        spec_fill_bar(this.width, 0),
                        0,
                        this.max_width as int,
                        Seq::<char>::empty(),
                    )) + this.frame(m));
                }
                Some(this)
            },
            None => None,
        }
    }

    /// Fit the bar to the terminal's width, when it can be queried: the
    /// fill width is capped at the terminal's width, which also becomes
    /// the new maximum, and the bar re-renders. The query — and with it
    /// the whole re-fit — fails when no terminal is detectable or a
    /// display operation holds the output guard.
    pub fn fit(&mut self) -> (ok: bool)
        ensures
            final(self).progress == old(self).progress,
            final(self).buffer@ == old(self).buffer@,
            final(self).title@ == old(self).title@,
            final(self).fit_to_term == old(self).fit_to_term,
            final(self).output.held == old(self).output.held,
            !ok ==> *final(self) == *old(self),
            ok ==> !old(self).output.held,
            ok ==> final(self).width == (if old(self).width <= final(self).max_width {
                old(self).width
            } else {
                final(self).max_width
            }),
            ok ==> Self::writes_frame(*final(self), old(self).log()),
    {
        match self.output.try_term_size() {
            Some((tw, _h)) => {
                let twu = tw as usize;
                self.width = if self.width <= twu {
                    self.width
                } else {
                    twu
                };
                self.update_dimensions(twu);
                true
            },
            None => false,
        }
    }

    /// Consume the bar and complete it, regardless of progress: a final
    /// newline is written — unconditionally, the guard dies with the bar —
    /// and the sink is handed back. Nothing can render to it afterwards.
    pub fn complete(self) -> (sink: T)
        ensures
            sink.log() == self.log() + seq!['\n'],
    {
        let mut sink = self.output.into_inner();
        sink.write_str("\n");
        proof {
            reveal_strlit("\n");
            assert(sink.log() =~= self.log() + seq!['\n']);
        }
        sink
    }
}

impl Bar<TermSink> {
    /// Create a bar `width` cells long with a title, writing to the
    /// process's standard output. Construction renders twice: once while
    /// the bar is built, once when the title goes in.
    pub fn with_title_default(width: usize, title: &str) -> (r: Self)
        requires
            width + DEFAULT_MAX_BORDER_SIZE <= usize::MAX,
        ensures
            r.fit_to_term,
            r.progress == 0,
            r.title@ == title@,
            !r.output.held,
            r.width < r.max_width,
            r.buffer@ == spec_fill_bar(r.width, 0),
            Self::writes_frame(
                r,
                spec_refresh_frame(
                    spec_fill_bar(r.width, 0),
                    0,
                    r.max_width as int,
                    Seq::<char>::empty(),
                ),
            ),
    {
        Self::with_title(create_default_output_device(), width, title)
    }

    /// Attempt to create a bar with a title whose maximum render width is
    /// the terminal's; nothing when standard output is not a terminal.
    /// Construction renders twice: once while the bar is built, once when
    /// the title goes in.
    pub fn try_new_with_title_default(width: usize, title: &str) -> (r: Option<Self>)
        ensures
            r matches Some(b) ==> {
                &&& b.fit_to_term
                &&& b.progress == 0
                &&& b.title@ == title@
                &&& !b.output.held
                &&& b.width < b.max_width
                &&& Self::writes_frame(
                    b,
                    spec_refresh_frame(
                        spec_fill_bar(b.width, 0),
                        0,
                        b.max_width as int,
                        Seq::<char>::empty(),
                    ),
                )
            },
    {
        Self::try_new_with_title(create_default_output_device(), width, title)
    }

    /// Create a bar writing to the process's standard output, fitted to
    /// the terminal when one is detectable and falling back to
    /// `width + DEFAULT_MAX_BORDER_SIZE` otherwise.
    pub fn new_default(width: usize) -> (r: Self)
        requires
            width + DEFAULT_MAX_BORDER_SIZE <= usize::MAX,
        ensures
            r.fit_to_term,
            r.progress == 0,
            r.title@ == Seq::<char>::empty(),
            !r.output.held,
            r.width < r.max_width,
            r.buffer@ == spec_fill_bar(r.width, 0),
            r.log() == r.frame(r.max_width as int),
    {
        Self::new(create_default_output_device(), width)
    }

    /// Attempt to create a bar whose maximum render width is the
    /// terminal's; nothing when standard output is not a terminal.
    pub fn try_new_default(width: usize) -> (r: Option<Self>)
        ensures
            r matches Some(b) ==> b.fit_to_term && b.progress == 0 && b.title@ == Seq::<
                char,
            >::empty() && !b.output.held && b.width < b.max_width,
    {
        Self::try_new(create_default_output_device(), width)
    }

    /// Attempt to create a bar of the default fill width whose maximum
    /// render width is the terminal's; nothing when standard output is not
    /// a terminal.
    pub fn try_new_default_size_default() -> (r: Option<Self>)
        ensures
            r matches Some(b) ==> b.fit_to_term && b.progress == 0 && !b.output.held && b.width
                < b.max_width,
    {
        Self::try_new_default_size(create_default_output_device())
    }

    /// Create a bar with an explicit fill and maximum render width,
    /// writing to the process's standard output. The maximum must strictly
    /// exceed the fill width.
    pub fn with_max_default(width: usize, max_width: usize) -> (r: Self)
        requires
            width < max_width,
        ensures
            r.width == width,
            r.max_width == max_width,
            r.progress == 0,
            r.buffer@ == spec_fill_bar(width, 0),
            r.title@ == Seq::<char>::empty(),
            !r.fit_to_term,
            !r.output.held,
            r.log() == r.frame(max_width as int),
    {
        Self::with_max(create_default_output_device(), width, max_width)
    }
}

impl Default for Bar<TermSink> {
    /// A bar of the default fill width over the process's standard output.
    fn default() -> (r: Self)
        ensures
            r.fit_to_term,
            r.progress == 0,
            r.title@ == Seq::<char>::empty(),
            !r.output.held,
            r.width < r.max_width,
    {
        Self::new_default(DEFAULT_SIZE)
    }
}

/// Rendering is deterministic in the display state: two bars that agree on
/// every field a render reads produce byte-identical frames for the same
/// live width. With a refresh leaving the display state unchanged, two
/// renders with no mutation in between write two identical frames.
pub proof fn lemma_render_deterministic<T: OutputSink>(a: &Bar<T>, b: &Bar<T>, mw: int)
    requires
        a.same_display(b),
    ensures
        a.frame(mw) == b.frame(mw),
{
}

impl<T: OutputSink> Display for Bar<T> {
    /// Recompute the line from the cached fill bar, the progress, the
    /// title and the live maximum width, and write it — blank-free, the
    /// control prefix erases the old line — within one guarded critical
    /// section. If the guard is held, the whole frame is skipped and
    /// nothing at all is written.
    fn refresh(&mut self)
        ensures
            final(self).same_display(old(self)),
            old(self).output.held ==> final(self).output.dev == old(self).output.dev,
            !old(self).output.held ==> Self::writes_frame(*final(self), old(self).log()),
            !old(self).output.held && !old(self).fit_to_term ==> final(self).log() == old(
                self,
            ).log() + old(self).frame(old(self).max_width as int),
    {
        let (_w, mw) = self.widths();
        let frame = build_refresh_frame(
            self.buffer.as_str(),
            self.progress,
            mw,
            self.title.as_str(),
        );
        let _ok = self.output.try_write(frame.as_str());
        proof {
            if !old(self).output.held {
                assert(self.live_max_ok(mw as int));
                assert(self.log() == old(self).log() + self.frame(mw as int));
            }
        }
    }

    /// Erase the current line: carriage return, `max_width` spaces,
    /// carriage return, within one guarded critical section. If the guard
    /// is held, nothing at all is written.
    fn blank(&mut self)
        ensures
            final(self).same_display(old(self)),
            old(self).output.held ==> final(self).output.dev == old(self).output.dev,
            !old(self).output.held ==> Self::writes_blank(*final(self), old(self).log()),
            !old(self).output.held && !old(self).fit_to_term ==> final(self).log() == old(
                self,
            ).log() + spec_blank_frame(old(self).max_width as int),
    {
        let (_w, mw) = self.widths();
        let frame = build_blank_frame(mw);
        let _ok = self.output.try_write(frame.as_str());
        proof {
            if !old(self).output.held {
                assert(self.live_max_ok(mw as int));
                assert(self.log() == old(self).log() + spec_blank_frame(mw as int));
            }
        }
    }

    /// Blank, print `string` and a newline to the process's standard
    /// output, and redraw the bar. Under guard contention the bar's own
    /// frames are skipped.
    fn println(&mut self, string: &str)
        ensures
            final(self).same_display(old(self)),
            old(self).output.held ==> final(self).output.dev == old(self).output.dev,
            !old(self).output.held ==> Self::writes_blank_then_frame(
                *final(self),
                old(self).log(),
            ),
    {
        self.blank();
        let ghost mid = *self;
        stdout_print_line(string);
        self.refresh();
        proof {
            if !old(self).output.held {
                let m1 = choose|mw: int|
                    #![auto]
                    mid.live_max_ok(mw) && mid.log() == old(self).log() + spec_blank_frame(mw);
                let m2 = choose|mw: int|
                    #![auto]
                    self.live_max_ok(mw) && self.log() == mid.log() + self.frame(mw);
                assert(self.log() =~= old(self).log() + spec_blank_frame(m1) + self.frame(m2));
            }
        }
    }

    /// Blank, print `string` and a newline to the process's standard
    /// error, and redraw the bar. Under guard contention the bar's own
    /// frames are skipped.
    fn eprintln(&mut self, string: &str)
        ensures
            final(self).same_display(old(self)),
            old(self).output.held ==> final(self).output.dev == old(self).output.dev,
            !old(self).output.held ==> Self::writes_blank_then_frame(
                *final(self),
                old(self).log(),
            ),
    {
        self.blank();
        let ghost mid = *self;
        stderr_print_line(string);
        self.refresh();
        proof {
            if !old(self).output.held {
                let m1 = choose|mw: int|
                    #![auto]
                    mid.live_max_ok(mw) && mid.log() == old(self).log() + spec_blank_frame(mw);
                let m2 = choose|mw: int|
                    #![auto]
                    self.live_max_ok(mw) && self.log() == mid.log() + self.frame(mw);
                assert(self.log() =~= old(self).log() + spec_blank_frame(m1) + self.frame(m2));
            }
        }
    }

    /// The bar's title.
    fn get_title(&self) -> (r: &str)
        ensures
            r@ == self.title@,
    {
        self.title.as_str()
    }

    /// Replace the title and redraw. The redraw is attempted whole: under
    /// guard contention it is skipped whole, and nothing at all is
    /// written.
    fn set_title(&mut self, from: &str)
        ensures
            final(self).title@ == from@,
            final(self).width == old(self).width,
            final(self).max_width == old(self).max_width,
            final(self).progress == old(self).progress,
            final(self).buffer@ == old(self).buffer@,
            final(self).fit_to_term == old(self).fit_to_term,
            final(self).output.held == old(self).output.held,
            old(self).output.held ==> final(self).output.dev == old(self).output.dev,
            !old(self).output.held ==> Self::writes_frame(*final(self), old(self).log()),
    {
        self.title = from.to_owned();
        self.refresh();
    }

    /// Replace the maximum render width and redraw. The redraw is
    /// attempted whole: under guard contention it is skipped whole, and
    /// nothing at all is written.
    fn update_dimensions(&mut self, to: usize)
        ensures
            final(self).max_width == to,
            final(self).width == old(self).width,
            final(self).progress == old(self).progress,
            final(self).buffer@ == old(self).buffer@,
            final(self).title@ == old(self).title@,
            final(self).fit_to_term == old(self).fit_to_term,
            final(self).output.held == old(self).output.held,
            old(self).output.held ==> final(self).output.dev == old(self).output.dev,
            !old(self).output.held ==> Self::writes_frame(*final(self), old(self).log()),
    {
        self.max_width = to;
        self.refresh();
    }
}

impl<T: OutputSink> ProgressBar for Bar<T> {
    /// The bar's completion, in hundredths of a percent.
    fn get_progress(&self) -> (r: u32)
        ensures
            r == self.progress,
    {
        self.progress
    }

    /// Report completion: when the value differs from the current one the
    /// cached fill bar is recomputed; either way the bar redraws, so a
    /// caller can force a refresh by setting the same value again.
    fn set_progress(&mut self, value: u32)
        ensures
            final(self).progress == value,
            final(self).buffer@ == (if value != old(self).progress {
                spec_fill_bar(old(self).width, value)
            } else {
                old(self).buffer@
            }),
            final(self).width == old(self).width,
            final(self).max_width == old(self).max_width,
            final(self).title@ == old(self).title@,
            final(self).fit_to_term == old(self).fit_to_term,
            final(self).output.held == old(self).output.held,
            old(self).output.held ==> final(self).output.dev == old(self).output.dev,
            !old(self).output.held ==> Self::writes_frame(*final(self), old(self).log()),
    {
        if self.progress != value {
            self.progress = value;
            self.update();
        }
        self.refresh();
    }
}

impl<T: OutputSink> WithTitle for Bar<T> {
    /// Set the title (with a redraw) and recompute the fill bar. The
    /// redraw is attempted whole: under guard contention it is skipped
    /// whole, and nothing at all is written.
    fn add_title(&mut self, string: &str)
        ensures
            final(self).title@ == string@,
            final(self).width == old(self).width,
            final(self).max_width == old(self).max_width,
            final(self).progress == old(self).progress,
            final(self).buffer@ == spec_fill_bar(old(self).width, old(self).progress),
            final(self).fit_to_term == old(self).fit_to_term,
            final(self).output.held == old(self).output.held,
            old(self).output.held ==> final(self).output.dev == old(self).output.dev,
            !old(self).output.held ==> exists|mw: int|
                #![auto]
                old(self).live_max_ok(mw) && final(self).log() == old(self).log()
                    + spec_refresh_frame(old(self).buffer@, old(self).progress, mw, string@),
    {
        self.set_title(string);
        let ghost mid = *self;
        self.update();
        proof {
            if !old(self).output.held {
                let m = choose|mw: int|
                    #![auto]
                    mid.live_max_ok(mw) && mid.log() == old(self).log() + mid.frame(mw);
                assert(old(self).live_max_ok(m) && self.log() == old(self).log()
                    + spec_refresh_frame(old(self).buffer@, old(self).progress, m, string@));
            }
        }
    }

    /// Recompute the cached fill bar.
    fn update(&mut self)
        ensures
            final(self).buffer@ == spec_fill_bar(old(self).width, old(self).progress),
            final(self).width == old(self).width,
            final(self).max_width == old(self).max_width,
            final(self).progress == old(self).progress,
            final(self).title@ == old(self).title@,
            final(self).fit_to_term == old(self).fit_to_term,
            final(self).output == old(self).output,
    {
        Bar::update(self)
    }

    /// Consume the bar: write a final newline and drop the sink.
    fn complete(self) {
        let _sink = Bar::complete(self);
    }
}

} // verus!
