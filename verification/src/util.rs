//! Small helpers shared by the rest of the crate.

use vstd::prelude::*;

verus! {

/// Relies on `String::push`: appends exactly the given character to the end
/// of the string.
pub assume_specification[ String::push ](s: &mut String, c: char)
    ensures
        final(s)@ == old(s)@.push(c),
;

/// Copy elements of `src` into the front of `dst`, element by element, and
/// return the number of elements copied: the length of the shorter of the
/// two. Elements of `dst` past that point keep their old values.
pub fn copy_slice<T: Copy>(dst: &mut Vec<T>, src: &[T]) -> (n: usize)
    ensures
        n == if old(dst)@.len() <= src@.len() {
            old(dst)@.len()
        } else {
            src@.len()
        },
        final(dst)@.len() == old(dst)@.len(),
        forall|i: int| 0 <= i < n ==> final(dst)@[i] == src@[i],
        forall|i: int| n <= i < old(dst)@.len() ==> final(dst)@[i] == old(dst)@[i],
{
    let n: usize = if dst.len() <= src.len() {
        dst.len()
    } else {
        src.len()
    };
    let mut i: usize = 0;
    while i < n
        invariant
            i <= n,
            n <= dst@.len(),
            n <= src@.len(),
            dst@.len() == old(dst)@.len(),
            forall|j: int| 0 <= j < i ==> dst@[j] == src@[j],
            forall|j: int| i <= j < old(dst)@.len() ==> dst@[j] == old(dst)@[j],
        decreases n - i,
    {
        dst[i] = src[i];
        i = i + 1;
    }
    n
}

} // verus!
