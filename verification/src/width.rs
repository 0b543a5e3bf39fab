//! How many terminal columns characters take, as `unicode-width` measures them.
use vstd::prelude::*;

verus! {

/// The column count that `unicode-width` gives a character, `None` for a
/// control character.
pub uninterp spec fn unicode_char_width(c: char) -> Option<usize>;

/// The columns a character takes on screen; control characters take none.
pub open spec fn cell_width(c: char) -> nat {
    match unicode_char_width(c) {
        Some(w) => w as nat,
        None => 0,
    }
}

/// The columns a run of characters takes on screen.
pub open spec fn width_of(s: Seq<char>) -> nat
    decreases s.len(),
{
    if s.len() == 0 {
        0
    } else {
        width_of(s.drop_last()) + cell_width(s.last())
    }
}

/// Calls `UnicodeWidthChar::width` of `unicode-width`. Its result is named
/// `unicode_char_width`; besides, as the crate's lookup shows, printable ASCII
/// takes one column, the C0 and C1 control characters (below U+0020 and from
/// U+007F to U+009F) have no width, and every other character has a width of
/// at most 3.
#[verifier::external_body]
pub fn char_width(c: char) -> (r: Option<usize>)
    ensures
        r == unicode_char_width(c),
        0x20 <= (c as int) < 0x7f ==> r == Some(1usize),
        (c as int) < 0x20 || (0x7f <= (c as int) < 0xa0) ==> r is None,
        r matches Some(w) ==> w <= 3,
{
    unicode_width::UnicodeWidthChar::width(c)
}

/// The columns a character takes, 0 for a control character.
pub fn cell_width_of(c: char) -> (r: usize)
    ensures
        r == cell_width(c),
        r <= 3,
{
    match char_width(c) {
        Some(w) => w,
        None => 0,
    }
}

/// Splitting a run of characters splits its width.
pub proof fn lemma_width_of_add(a: Seq<char>, b: Seq<char>)
    ensures
        width_of(a + b) == width_of(a) + width_of(b),
    decreases b.len(),
{
    if b.len() == 0 {
        assert(a + b =~= a);
    } else {
        lemma_width_of_add(a, b.drop_last());
        assert((a + b).drop_last() =~= a + b.drop_last());
    }
}

/// The width of the first `i + 1` characters is that of the first `i` plus
/// the width of the next.
pub proof fn lemma_width_of_take_step(s: Seq<char>, i: int)
    requires
        0 <= i < s.len(),
    ensures
        width_of(s.take(i + 1)) == width_of(s.take(i)) + cell_width(s[i]),
{
    assert(s.take(i + 1).drop_last() =~= s.take(i));
}

/// The columns of `v[from..to]`, clamped to the vector.
pub fn width_between(v: &Vec<char>, from: usize, to: usize) -> (r: usize)
    requires
        v.len() <= usize::MAX / 3,
    ensures
        r == width_of(v@.subrange(clamp(from, v.len()), clamp_end(from, to, v.len()))),
        r <= 3 * v.len(),
{
    let start = if from < v.len() { from } else { v.len() };
    let end0 = if to < v.len() { to } else { v.len() };
    let end = if end0 < start { start } else { end0 };
    let mut acc: usize = 0;
    let mut i = start;
    while i < end
        invariant
            start <= i <= end <= v.len(),
            v.len() <= usize::MAX / 3,
            acc == width_of(v@.subrange(start as int, i as int)),
            acc <= 3 * (i - start),
        decreases end - i,
    {
        proof {
            assert(v@.subrange(start as int, i + 1).drop_last() =~= v@.subrange(start as int, i as int));
        }
        acc = acc + cell_width_of(v[i]);
        i = i + 1;
    }
    acc
}

/// `to` clamped to at most `len` and at least the clamped `from`.
pub open spec fn clamp_end(from: usize, to: usize, len: usize) -> int {
    if clamp(to, len) < clamp(from, len) { clamp(from, len) } else { clamp(to, len) }
}

/// `n` clamped to at most `len`.
pub open spec fn clamp(n: usize, len: usize) -> int {
    if n < len { n as int } else { len as int }
}

} // verus!
