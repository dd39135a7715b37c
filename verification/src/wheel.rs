//! Infinite cyclic glyph sequences and the cursor that walks them, driving
//! the spinner's animation.

use vstd::prelude::*;

verus! {

/// The glyphs of the built-in wheel: the traditional spinner look.
pub open spec fn default_glyphs() -> Seq<char> {
    seq!['/', '-', '\\', '|']
}

/// An ordered, non-empty, cyclic sequence of glyphs for a spinner.
///
/// Its invariant is that the sequence is never empty: a cursor reduces its
/// position modulo the length, which must never be zero. Construction from
/// an empty source falls back to the built-in sequence.
#[derive(Clone, Debug)]
pub enum Wheel {
    /// A borrowed, fixed glyph sequence.
    Static(&'static [char]),
    /// A caller-supplied glyph sequence.
    Dynamic(Vec<char>),
}

impl View for Wheel {
    type V = Seq<char>;

    open spec fn view(&self) -> Seq<char> {
        match self {
            Wheel::Static(s) => s@,
            Wheel::Dynamic(v) => v@,
        }
    }
}

impl Wheel {
    /// Create a wheel from the given glyphs. An empty sequence would be a
    /// misuse (a cursor could never pick a glyph from it), so it falls back
    /// to the built-in wheel.
    pub fn new(chars: Vec<char>) -> (w: Self)
        ensures
            chars@.len() > 0 ==> w@ == chars@,
            chars@.len() == 0 ==> w@ == default_glyphs(),
            w@.len() > 0,
    {
        if chars.len() == 0 {
            Wheel::default()
        } else {
            Wheel::Dynamic(chars)
        }
    }

    /// All the glyphs of this wheel, in order.
    pub fn chars(&self) -> (r: &[char])
        ensures
            r@ == self@,
    {
        match self {
            Wheel::Static(s) => s,
            Wheel::Dynamic(v) => v.as_slice(),
        }
    }

    /// Start a cursor over this wheel's glyphs.
    pub fn into_iter(self) -> (it: WheelIntoIter)
        ensures
            it.source@ == self@,
            it.idx == 0,
    {
        WheelIntoIter { source: self, idx: 0 }
    }
}

impl Default for Wheel {
    /// The built-in four-glyph wheel.
    fn default() -> (w: Self)
        ensures
            w@ == default_glyphs(),
            w@.len() > 0,
    {
        let mut v: Vec<char> = Vec::new();
        v.push('/');
        v.push('-');
        v.push('\\');
        v.push('|');
        proof {
            assert(v@ =~= default_glyphs());
        }
        Wheel::Dynamic(v)
    }
}

/// A cursor over a wheel: yields the wheel's glyphs forever, advancing
/// cyclically. It can only be restarted by creating it anew.
#[derive(Clone, Debug)]
pub struct WheelIntoIter {
    /// The wheel whose glyphs are cycled.
    pub source: Wheel,
    /// Position of the glyph yielded last.
    pub idx: usize,
}

impl WheelIntoIter {
    /// The cursor's position is always a valid index of its wheel.
    pub open spec fn wf(&self) -> bool {
        self.idx < self.source@.len() || self.source@.len() == 0
    }

    /// Step to the next glyph, cyclically, and yield it. Never runs out:
    /// the answer is a glyph whenever the wheel is non-empty (an empty
    /// wheel would be a misuse; the step guards against it instead of
    /// reducing modulo zero).
    pub fn next(&mut self) -> (r: Option<char>)
        ensures
            final(self).wf(),
            final(self).source == old(self).source,
            old(self).source@.len() == 0 ==> r is None && final(self).idx == old(self).idx,
            old(self).source@.len() > 0 ==> r == Some(
                old(self).source@[final(self).idx as int],
            ),
            old(self).wf() && old(self).source@.len() > 0 ==> final(self).idx == (old(self).idx
                + 1) % (old(self).source@.len() as int),
    {
        let chars = self.source.chars();
        let n = chars.len();
        if n == 0 {
            return None;
        }
        let i = if self.idx >= n - 1 {
            0
        } else {
            self.idx + 1
        };
        proof {
            if old(self).wf() {
                if old(self).idx == n - 1 {
                    vstd::arithmetic::div_mod::lemma_mod_self_0(n as int);
                } else {
                    vstd::arithmetic::div_mod::lemma_small_mod(
                        (old(self).idx + 1) as nat,
                        n as nat,
                    );
                }
            }
        }
        self.idx = i;
        Some(chars[i])
    }
}

/// The position a cursor starting at `start` has reached after `k` steps
/// over a wheel of `n` glyphs.
pub open spec fn cursor_pos(start: int, k: int, n: int) -> int {
    (start + k) % n
}

/// One more step from position `cursor_pos(start, k, n)` reaches
/// `cursor_pos(start, k + 1, n)`: the closed form matches the step-by-step
/// advance the cursor performs.
pub proof fn lemma_cursor_advance(start: int, k: int, n: int)
    requires
        n > 0,
    ensures
        (cursor_pos(start, k, n) + 1) % n == cursor_pos(start, k + 1, n),
{
    vstd::arithmetic::div_mod::lemma_add_mod_noop_right(1, start + k, n);
}

/// A wheel of `n` glyphs repeats exactly after `n` advances: the cursor
/// position after `k + n` steps equals the position after `k` steps, so the
/// glyph sequence a spinner shows is periodic with period `n` and never
/// terminates.
pub proof fn lemma_wheel_period(start: int, k: int, n: int)
    requires
        n > 0,
    ensures
        cursor_pos(start, k + n, n) == cursor_pos(start, k, n),
{
    vstd::arithmetic::div_mod::lemma_mod_add_multiples_vanish(start + k, n);
}

} // verus!
