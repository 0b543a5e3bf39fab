//! Paths of the user's data files, splitting a line at its first blank, and
//! wrapping text to a width.
use vstd::prelude::*;
use crate::chars::{chars_of, is_space, is_space_char, string_of_range, trimmed, trim};
use crate::width::{cell_width, cell_width_of, width_of};

verus! {

/// The path of `f` under `dir`: `dir/f`.
fn path_under(dir: &str, f: &str) -> (r: String)
    ensures
        r@ == dir@ + "/"@ + f@,
{
    let mut s = String::from_str(dir);
    s.append("/");
    s.append(f);
    s
}

/// The path of the settings file `f`: `gdata/f`.
pub fn get_init_file(f: &str) -> (r: String)
    ensures
        r@ == "gdata"@ + "/"@ + f@,
{
    path_under("gdata", f)
}

/// The path of the keys file `f`: `gdata/keys/f`.
pub fn get_keys_file(f: &str) -> (r: String)
    ensures
        r@ == "gdata/keys"@ + "/"@ + f@,
{
    path_under("gdata/keys", f)
}

/// The path of the styles file `f`: `gdata/styles/f`.
pub fn get_styles_file(f: &str) -> (r: String)
    ensures
        r@ == "gdata/styles"@ + "/"@ + f@,
{
    path_under("gdata/styles", f)
}

/// The index of the first `c` in `s`, if any.
pub open spec fn first_index(s: Seq<char>, c: char) -> Option<int>
    decreases s.len(),
{
    if s.len() == 0 {
        None
    } else if s[0] == c {
        Some(0)
    } else {
        match first_index(s.drop_first(), c) {
            Some(i) => Some(i + 1),
            None => None,
        }
    }
}

/// Where `first_index` finds `c`, and that no `c` comes before.
pub proof fn lemma_first_index(s: Seq<char>, c: char)
    ensures
        match first_index(s, c) {
            Some(i) => 0 <= i < s.len() && s[i] == c && forall|k: int| 0 <= k < i ==> s[k] != c,
            None => forall|k: int| 0 <= k < s.len() ==> s[k] != c,
        },
    decreases s.len(),
{
    if s.len() > 0 && s[0] != c {
        lemma_first_index(s.drop_first(), c);
        assert forall|k: int| 1 <= k < s.len() implies s[k] == s.drop_first()[k - 1] by {}
    }
}

/// The index of the first `c` in `v`, if any.
pub fn find_char(v: &Vec<char>, c: char) -> (r: Option<usize>)
    ensures
        match r {
            Some(i) => first_index(v@, c) == Some(i as int),
            None => first_index(v@, c) is None,
        },
{
    let mut i: usize = 0;
    proof {
        assert(v@.skip(0) =~= v@);
    }
    while i < v.len()
        invariant
            0 <= i <= v.len(),
            first_index(v@, c) == (match first_index(v@.skip(i as int), c) {
                Some(k) => Some(k + i),
                None => None,
            }),
        decreases v.len() - i,
    {
        proof {
            assert(v@.skip(i as int).drop_first() =~= v@.skip(i + 1));
        }
        if v[i] == c {
            return Some(i);
        }
        i = i + 1;
    }
    None
}

/// The line split at its first tab, or else at its first space, with both
/// halves trimmed of white space; `None` if it has neither.
pub open spec fn spec_split_whitespace_once(line: Seq<char>) -> Option<(Seq<char>, Seq<char>)> {
    let at = match first_index(line, '\t') {
        Some(i) => Some(i),
        None => first_index(line, ' '),
    };
    match at {
        Some(i) => Some((trimmed(line.take(i)), trimmed(line.skip(i)))),
        None => None,
    }
}

/// Splits `line` at its first tab, or else at its first space, and trims
/// both halves.
pub fn split_whitespace_once(line: &str) -> (r: Option<(String, String)>)
    ensures
        match spec_split_whitespace_once(line@) {
            Some((a, b)) => r matches Some((x, y)) && x@ == a && y@ == b,
            None => r is None,
        },
{
    let v = chars_of(line);
    let at = match find_char(&v, '\t') {
        Some(i) => Some(i),
        None => find_char(&v, ' '),
    };
    match at {
        Some(i) => {
            proof {
                lemma_first_index(line@, '\t');
                lemma_first_index(line@, ' ');
            }
            let head = string_of_range(&v, 0, i);
            let tail = string_of_range(&v, i, v.len());
            proof {
                assert(v@.subrange(0, i as int) =~= line@.take(i as int));
                assert(v@.subrange(i as int, v.len() as int) =~= line@.skip(i as int));
            }
            Some((trim(head.as_str()), trim(tail.as_str())))
        },
        None => None,
    }
}

/// How many characters of `s` a line takes when it is filled while the
/// columns used so far, starting from `used`, are fewer than `width`.
pub open spec fn fill_count(s: Seq<char>, used: nat, width: nat) -> nat
    decreases s.len(),
{
    if s.len() == 0 || used >= width {
        0
    } else {
        1 + fill_count(s.drop_first(), used + cell_width(s[0]), width)
    }
}

/// Every character that a filled line takes starts before the width is
/// used up.
pub proof fn lemma_fill_prefix(s: Seq<char>, used: nat, width: nat, j: int)
    requires
        0 <= j < fill_count(s, used, width),
    ensures
        used + width_of(s.take(j)) < width,
    decreases j,
{
    lemma_fill_count(s, used, width);
    assert(s.len() > 0 && used < width);
    assert(fill_count(s, used, width) == 1 + fill_count(s.drop_first(), used + cell_width(s[0]), width));
    if j == 0 {
        assert(s.take(0) =~= Seq::<char>::empty());
        assert(width_of(Seq::<char>::empty()) == 0);
    } else {
        let rest = s.drop_first();
        lemma_fill_prefix(rest, used + cell_width(s[0]), width, j - 1);
        assert(s.take(j) =~= seq![s[0]] + rest.take(j - 1));
        crate::width::lemma_width_of_add(seq![s[0]], rest.take(j - 1));
        assert(seq![s[0]].drop_last() =~= Seq::<char>::empty());
        assert(width_of(Seq::<char>::empty()) == 0);
        assert(width_of(seq![s[0]]) == cell_width(s[0]));
    }
}

/// The length of `text` up to and including its last white space, 0 if it
/// has none.
pub open spec fn last_space_end(text: Seq<char>) -> nat
    decreases text.len(),
{
    if text.len() == 0 {
        0
    } else if is_space(text.last()) {
        text.len()
    } else {
        last_space_end(text.drop_last())
    }
}

/// How many characters of `s` the next wrapped line takes: the characters
/// that fill the width; when there are at least `width` of them and one is
/// white space, the line ends after the last white space.
pub open spec fn line_len(s: Seq<char>, width: nat) -> nat {
    let n = fill_count(s, 0, width);
    let cut = last_space_end(s.take(n as int));
    if n < width || cut == 0 {
        n
    } else {
        cut
    }
}

/// `fill_count` takes at most all of `s`, and at least one character when
/// there is room.
pub proof fn lemma_fill_count(s: Seq<char>, used: nat, width: nat)
    ensures
        fill_count(s, used, width) <= s.len(),
        s.len() > 0 && used < width ==> fill_count(s, used, width) >= 1,
    decreases s.len(),
{
    if s.len() > 0 && used < width {
        lemma_fill_count(s.drop_first(), used + cell_width(s[0]), width);
    }
}

/// The last white space of `text` ends at `last_space_end`.
pub proof fn lemma_last_space_end(text: Seq<char>)
    ensures
        last_space_end(text) <= text.len(),
        last_space_end(text) > 0 ==> is_space(text[last_space_end(text) - 1]),
        forall|k: int| last_space_end(text) <= k < text.len() ==> !is_space(#[trigger] text[k]),
    decreases text.len(),
{
    if text.len() > 0 && !is_space(text.last()) {
        lemma_last_space_end(text.drop_last());
        assert forall|k: int| last_space_end(text) <= k < text.len() implies !is_space(#[trigger] text[k]) by {
            if k < text.len() - 1 {
                assert(text[k] == text.drop_last()[k]);
            }
        }
    }
}

/// A wrapped line takes at least one character, and no more than there are.
pub proof fn lemma_line_len(s: Seq<char>, width: nat)
    requires
        s.len() > 0,
        width > 0,
    ensures
        1 <= line_len(s, width) <= s.len(),
{
    lemma_fill_count(s, 0, width);
    lemma_last_space_end(s.take(fill_count(s, 0, width) as int));
}

/// The lines that `get_wrapped_text` cuts `s` into.
pub open spec fn wrapped(s: Seq<char>, width: nat) -> Seq<Seq<char>>
    decreases s.len(),
{
    if s.len() == 0 || width == 0 {
        seq![]
    } else {
        let l = line_len(s, width);
        proof {
            lemma_line_len(s, width);
        }
        seq![s.take(l as int)] + wrapped(s.skip(l as int), width)
    }
}

/// The number of characters from `v[start]` on that fill `width` columns.
fn fill_from(v: &Vec<char>, start: usize, width: usize) -> (r: usize)
    requires
        start <= v.len(),
        width <= usize::MAX - 3,
    ensures
        r == fill_count(v@.skip(start as int), 0, width as nat),
        start + r <= v.len(),
{
    let mut used: usize = 0;
    let mut i: usize = start;
    proof {
        lemma_fill_count(v@.skip(start as int), 0, width as nat);
    }
    while i < v.len() && used < width
        invariant
            start <= i <= v.len(),
            width <= usize::MAX - 3,
            used <= width + 3,
            fill_count(v@.skip(start as int), 0, width as nat)
                == (i - start) + fill_count(v@.skip(i as int), used as nat, width as nat),
        decreases v.len() - i,
    {
        proof {
            assert(v@.skip(i as int).drop_first() =~= v@.skip(i + 1));
            assert(v@.skip(i as int)[0] == v@[i as int]);
        }
        let w = cell_width_of(v[i]);
        used = used + w;
        i = i + 1;
    }
    i - start
}

/// Where the last white space of `v[start..end]` ends, relative to `start`.
fn last_space_from(v: &Vec<char>, start: usize, end: usize) -> (r: usize)
    requires
        start <= end <= v.len(),
    ensures
        r == last_space_end(v@.subrange(start as int, end as int)),
{
    let mut j = end;
    while j > start && !is_space_char(v[j - 1])
        invariant
            start <= j <= end <= v.len(),
            last_space_end(v@.subrange(start as int, end as int)) == last_space_end(v@.subrange(start as int, j as int)),
        decreases j - start,
    {
        proof {
            assert(v@.subrange(start as int, j as int).drop_last() =~= v@.subrange(start as int, j - 1));
        }
        j = j - 1;
    }
    j - start
}

/// Cuts `input` into lines that fill `width` columns, breaking after the
/// last white space of a line where there is one.
pub fn get_wrapped_text(input: &str, width: usize) -> (r: Vec<Vec<char>>)
    requires
        input@.len() == 0 || width > 0,
        width <= usize::MAX - 3,
    ensures
        r@.len() == wrapped(input@, width as nat).len(),
        forall|i: int| 0 <= i < r@.len() ==> (#[trigger] r@[i])@ == wrapped(input@, width as nat)[i],
{
    let input = chars_of(input);
    let ghost all = input@;
    let mut output: Vec<Vec<char>> = Vec::new();
    let mut start: usize = 0;
    proof {
        assert(all.skip(0) =~= all);
    }
    while start < input.len()
        invariant
            input@ == all,
            0 <= start <= input.len(),
            all.len() == 0 || width > 0,
            width <= usize::MAX - 3,
            wrapped(all, width as nat).len() == output@.len() + wrapped(all.skip(start as int), width as nat).len(),
            forall|i: int| 0 <= i < output@.len() ==> (#[trigger] output@[i])@ == wrapped(all, width as nat)[i],
            forall|i: int|
                0 <= i < wrapped(all.skip(start as int), width as nat).len() ==> wrapped(all, width as nat)[output@.len() + i]
                    == #[trigger] wrapped(all.skip(start as int), width as nat)[i],
        decreases input.len() - start,
    {
        let ghost rest = all.skip(start as int);
        let n = fill_from(&input, start, width);
        let cut = last_space_from(&input, start, start + n);
        proof {
            assert(input@.subrange(start as int, start + n) =~= rest.take(n as int));
            lemma_line_len(rest, width as nat);
        }
        let len = if n < width || cut == 0 { n } else { cut };
        assert(len == line_len(rest, width as nat));
        let mut line: Vec<char> = Vec::new();
        let mut k: usize = 0;
        while k < len
            invariant
                input@ == all,
                rest == all.skip(start as int),
                1 <= len <= rest.len(),
                start + rest.len() == all.len(),
                input.len() == all.len(),
                0 <= k <= len,
                line@ =~= rest.take(k as int),
            decreases len - k,
        {
            line.push(input[start + k]);
            k = k + 1;
            proof {
                assert(line@ =~= rest.take(k as int));
            }
        }
        proof {
            let w = wrapped(rest, width as nat);
            let more = wrapped(rest.skip(len as int), width as nat);
            assert(w == seq![rest.take(len as int)] + more);
            assert(rest.skip(len as int) =~= all.skip(start + len));
            assert(w[0] == rest.take(len as int));
            assert forall|i: int| 0 <= i < more.len() implies w[1 + i] == #[trigger] more[i] by {}
        }
        let ghost before = output@;
        output.push(line);
        proof {
            let w = wrapped(rest, width as nat);
            assert(output@[before.len() as int] == line);
            assert(wrapped(all, width as nat)[before.len() as int] == w[0]);
            assert forall|i: int| 0 <= i < output@.len() implies (#[trigger] output@[i])@ == wrapped(all, width as nat)[i] by {
                if i < before.len() {
                    assert(output@[i] == before[i]);
                }
            }
            let more = wrapped(all.skip(start + len), width as nat);
            assert forall|i: int| 0 <= i < more.len() implies wrapped(all, width as nat)[output@.len() + i] == #[trigger] more[i] by {
                assert(w[1 + i] == more[i]);
                assert(wrapped(all, width as nat)[before.len() + (1 + i)] == w[1 + i]);
            }
        }
        start = start + len;
    }
    proof {
        assert(all.skip(start as int).len() == 0);
    }
    output
}

/// The lines joined end to end.
pub open spec fn joined(lines: Seq<Seq<char>>) -> Seq<char>
    decreases lines.len(),
{
    if lines.len() == 0 {
        seq![]
    } else {
        lines[0] + joined(lines.drop_first())
    }
}

/// Wrapping loses and adds nothing: the wrapped lines, joined, are the text,
/// and none of them is empty.
pub proof fn lemma_wrapped_joined(s: Seq<char>, width: nat)
    requires
        width > 0,
    ensures
        joined(wrapped(s, width)) == s,
        forall|i: int| 0 <= i < wrapped(s, width).len() ==> (#[trigger] wrapped(s, width)[i]).len() > 0,
    decreases s.len(),
{
    if s.len() > 0 {
        let l = line_len(s, width);
        lemma_line_len(s, width);
        let w = wrapped(s, width);
        let more = wrapped(s.skip(l as int), width);
        lemma_wrapped_joined(s.skip(l as int), width);
        assert(w == seq![s.take(l as int)] + more);
        assert(w.drop_first() =~= more);
        assert(s.take(l as int) + s.skip(l as int) =~= s);
        assert forall|i: int| 0 <= i < w.len() implies (#[trigger] w[i]).len() > 0 by {
            if i > 0 {
                assert(w[i] == more[i - 1]);
            }
        }
    }
}

} // verus!
