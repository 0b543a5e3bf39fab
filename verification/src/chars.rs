//! Character-level helpers on strings: comparison, conversion to and from
//! character vectors, trimming and splitting.
use vstd::prelude::*;

verus! {

/// Whether two strings hold the same characters.
pub fn str_eq(a: &str, b: &str) -> (r: bool)
    ensures
        r == (a@ == b@),
{
    let n = a.unicode_len();
    let m = b.unicode_len();
    if n != m {
        return false;
    }
    let mut i: usize = 0;
    while i < n
        invariant
            n == a@.len(),
            m == b@.len(),
            n == m,
            0 <= i <= n,
            forall|k: int| 0 <= k < i ==> a@[k] == b@[k],
        decreases n - i,
    {
        if a.get_char(i) != b.get_char(i) {
            return false;
        }
        i = i + 1;
    }
    proof {
        assert(a@ =~= b@);
    }
    true
}

/// The characters of `s`, in order.
pub fn chars_of(s: &str) -> (r: Vec<char>)
    ensures
        r@ == s@,
{
    let n = s.unicode_len();
    let mut out: Vec<char> = Vec::new();
    let mut i: usize = 0;
    while i < n
        invariant
            n == s@.len(),
            0 <= i <= n,
            out@ =~= s@.take(i as int),
        decreases n - i,
    {
        out.push(s.get_char(i));
        i = i + 1;
        proof {
            assert(out@ =~= s@.take(i as int));
        }
    }
    proof {
        assert(s@.take(n as int) =~= s@);
    }
    out
}

/// Calls `String::push`, which appends one character to a string.
#[verifier::external_body]
pub fn push_char(s: &mut String, c: char)
    ensures
        final(s)@ == old(s)@.push(c),
{
    s.push(c);
}

/// The string of the characters `v[from..to]`.
pub fn string_of_range(v: &Vec<char>, from: usize, to: usize) -> (r: String)
    requires
        from <= to <= v.len(),
    ensures
        r@ == v@.subrange(from as int, to as int),
{
    let mut out = String::new();
    let mut i: usize = from;
    while i < to
        invariant
            from <= i <= to <= v.len(),
            out@ =~= v@.subrange(from as int, i as int),
        decreases to - i,
    {
        push_char(&mut out, v[i]);
        i = i + 1;
        proof {
            assert(out@ =~= v@.subrange(from as int, i as int));
        }
    }
    out
}

/// The string of the characters of `v`.
pub fn string_of(v: &Vec<char>) -> (r: String)
    ensures
        r@ == v@,
{
    let r = string_of_range(v, 0, v.len());
    proof {
        assert(v@.subrange(0, v@.len() as int) =~= v@);
    }
    r
}

/// Whether `c` is white space, as `char::is_whitespace` defines it: the
/// characters with the Unicode `White_Space` property.
pub open spec fn is_space(c: char) -> bool {
    let n = c as u32;
    ||| 0x09 <= n <= 0x0d
    ||| n == 0x20
    ||| n == 0x85
    ||| n == 0xa0
    ||| n == 0x1680
    ||| 0x2000 <= n <= 0x200a
    ||| n == 0x2028
    ||| n == 0x2029
    ||| n == 0x202f
    ||| n == 0x205f
    ||| n == 0x3000
}

/// Whether `c` is white space.
pub fn is_space_char(c: char) -> (r: bool)
    ensures
        r == is_space(c),
{
    let n = c as u32;
    (0x09 <= n && n <= 0x0d) || n == 0x20 || n == 0x85 || n == 0xa0 || n == 0x1680
        || (0x2000 <= n && n <= 0x200a) || n == 0x2028 || n == 0x2029 || n == 0x202f
        || n == 0x205f || n == 0x3000
}

/// The index of the first character of `s` that is not white space, or
/// `s.len()` if there is none.
pub open spec fn trim_start_index(s: Seq<char>) -> int
    decreases s.len(),
{
    if s.len() == 0 {
        0
    } else if is_space(s[0]) {
        1 + trim_start_index(s.drop_first())
    } else {
        0
    }
}

/// The index just after the last character of `s` that is not white space,
/// or 0 if there is none.
pub open spec fn trim_end_index(s: Seq<char>) -> int
    decreases s.len(),
{
    if s.len() == 0 {
        0
    } else if is_space(s.last()) {
        trim_end_index(s.drop_last())
    } else {
        s.len() as int
    }
}

/// `s` without white space at its ends, as `str::trim` gives it.
pub open spec fn trimmed(s: Seq<char>) -> Seq<char> {
    let a = trim_start_index(s);
    let b = trim_end_index(s);
    if a < b { s.subrange(a, b) } else { seq![] }
}

/// The leading white space ends at `trim_start_index`.
pub proof fn lemma_trim_start_index(s: Seq<char>)
    ensures
        0 <= trim_start_index(s) <= s.len(),
        forall|k: int| 0 <= k < trim_start_index(s) ==> is_space(#[trigger] s[k]),
        trim_start_index(s) < s.len() ==> !is_space(s[trim_start_index(s)]),
    decreases s.len(),
{
    if s.len() > 0 && is_space(s[0]) {
        lemma_trim_start_index(s.drop_first());
        assert forall|k: int| 0 <= k < trim_start_index(s) implies is_space(#[trigger] s[k]) by {
            if k > 0 {
                assert(s[k] == s.drop_first()[k - 1]);
            }
        }
    }
}

/// The trailing white space starts at `trim_end_index`.
pub proof fn lemma_trim_end_index(s: Seq<char>)
    ensures
        0 <= trim_end_index(s) <= s.len(),
        forall|k: int| trim_end_index(s) <= k < s.len() ==> is_space(#[trigger] s[k]),
        trim_end_index(s) > 0 ==> !is_space(s[trim_end_index(s) - 1]),
    decreases s.len(),
{
    if s.len() > 0 && is_space(s.last()) {
        lemma_trim_end_index(s.drop_last());
        assert forall|k: int| trim_end_index(s) <= k < s.len() implies is_space(#[trigger] s[k]) by {
            if k < s.len() - 1 {
                assert(s[k] == s.drop_last()[k]);
            }
        }
    }
}

/// Where the leading white space of `v[from..to]` ends.
pub fn skip_space(v: &Vec<char>, from: usize, to: usize) -> (r: usize)
    requires
        from <= to <= v.len(),
    ensures
        r == from + trim_start_index(v@.subrange(from as int, to as int)),
{
    let mut i = from;
    proof {
        lemma_trim_start_index(v@.subrange(from as int, to as int));
    }
    while i < to && is_space_char(v[i])
        invariant
            from <= i <= to <= v.len(),
            trim_start_index(v@.subrange(from as int, to as int))
                == (i - from) + trim_start_index(v@.subrange(i as int, to as int)),
        decreases to - i,
    {
        proof {
            assert(v@.subrange(i as int, to as int).drop_first() =~= v@.subrange(i + 1, to as int));
        }
        i = i + 1;
    }
    i
}

/// Where the trailing white space of `v[from..to]` starts.
pub fn skip_space_back(v: &Vec<char>, from: usize, to: usize) -> (r: usize)
    requires
        from <= to <= v.len(),
    ensures
        r == from + trim_end_index(v@.subrange(from as int, to as int)),
{
    let mut j = to;
    while j > from && is_space_char(v[j - 1])
        invariant
            from <= j <= to <= v.len(),
            trim_end_index(v@.subrange(from as int, to as int))
                == trim_end_index(v@.subrange(from as int, j as int)),
        decreases j - from,
    {
        proof {
            assert(v@.subrange(from as int, j as int).drop_last() =~= v@.subrange(from as int, j - 1));
        }
        j = j - 1;
    }
    j
}

/// `s` without white space at its ends.
pub fn trim(s: &str) -> (r: String)
    ensures
        r@ == trimmed(s@),
{
    let v = chars_of(s);
    let n = v.len();
    proof {
        assert(v@.subrange(0, n as int) =~= s@);
        lemma_trim_start_index(s@);
        lemma_trim_end_index(s@);
    }
    let a = skip_space(&v, 0, n);
    let b = skip_space_back(&v, 0, n);
    if a < b {
        string_of_range(&v, a, b)
    } else {
        String::new()
    }
}

/// The lines of `s`, as `str::lines` gives them: split at each `\n`, a
/// `\r` just before it dropped too; a final line ending adds no empty line.
pub open spec fn lines_of(s: Seq<char>) -> Seq<Seq<char>>
    decreases s.len(),
{
    if s.len() == 0 {
        seq![]
    } else {
        match first_newline(s) {
            None => seq![s],
            Some(i) => {
                proof {
                    lemma_first_newline(s);
                }
                let line = if i > 0 && s[i - 1] == '\r' { s.take(i - 1) } else { s.take(i) };
                seq![line] + lines_of(s.skip(i + 1))
            },
        }
    }
}

/// The index of the first `\n` in `s`, if any.
pub open spec fn first_newline(s: Seq<char>) -> Option<int>
    decreases s.len(),
{
    if s.len() == 0 {
        None
    } else if s[0] == '\n' {
        Some(0)
    } else {
        match first_newline(s.drop_first()) {
            Some(i) => Some(i + 1),
            None => None,
        }
    }
}

/// Where `first_newline` finds one.
pub proof fn lemma_first_newline(s: Seq<char>)
    ensures
        match first_newline(s) {
            Some(i) => 0 <= i < s.len() && s[i] == '\n' && forall|k: int| 0 <= k < i ==> s[k] != '\n',
            None => forall|k: int| 0 <= k < s.len() ==> s[k] != '\n',
        },
    decreases s.len(),
{
    if s.len() > 0 && s[0] != '\n' {
        lemma_first_newline(s.drop_first());
        assert forall|k: int| 1 <= k < s.len() implies s[k] == s.drop_first()[k - 1] by {}
    }
}

/// The lines of `s`.
pub fn lines(s: &str) -> (r: Vec<String>)
    ensures
        r@.len() == lines_of(s@).len(),
        forall|i: int| 0 <= i < r@.len() ==> (#[trigger] r@[i])@ == lines_of(s@)[i],
{
    let v = chars_of(s);
    let ghost all = v@;
    let mut out: Vec<String> = Vec::new();
    let mut start: usize = 0;
    proof {
        assert(all.skip(0) =~= all);
    }
    while start < v.len()
        invariant
            v@ == all,
            all == s@,
            0 <= start <= v.len(),
            lines_of(all).len() == out@.len() + lines_of(all.skip(start as int)).len(),
            forall|i: int| 0 <= i < out@.len() ==> (#[trigger] out@[i])@ == lines_of(all)[i],
            forall|i: int|
                0 <= i < lines_of(all.skip(start as int)).len() ==> lines_of(all)[out@.len() + i]
                    == #[trigger] lines_of(all.skip(start as int))[i],
        decreases v.len() - start,
    {
        let ghost rest = all.skip(start as int);
        let mut j = start;
        while j < v.len() && v[j] != '\n'
            invariant
                v@ == all,
                start <= j <= v.len(),
                rest == all.skip(start as int),
                first_newline(rest) == (match first_newline(all.skip(j as int)) {
                    Some(k) => Some(k + (j - start)),
                    None => None,
                }),
            decreases v.len() - j,
        {
            proof {
                assert(all.skip(j as int).drop_first() =~= all.skip(j + 1));
            }
            j = j + 1;
        }
        proof {
            if j < v.len() {
                assert(all.skip(j as int)[0] == '\n');
            } else {
                assert(all.skip(j as int).len() == 0);
            }
        }
        let end = if j < v.len() && j > start && v[j - 1] == '\r' { j - 1 } else { j };
        let line = string_of_range(&v, start, end);
        let next = if j < v.len() { j + 1 } else { j };
        proof {
            let ls = lines_of(rest);
            let more = lines_of(all.skip(next as int));
            if j < v.len() {
                assert(rest.skip((j - start) + 1) =~= all.skip(next as int));
                if j > start {
                    assert(rest.take((j - start) - 1) =~= all.subrange(start as int, j - 1));
                }
                assert(rest.take((j - start) as int) =~= all.subrange(start as int, j as int));
                assert(ls == seq![all.subrange(start as int, end as int)] + more);
            } else {
                assert(rest =~= all.subrange(start as int, j as int));
                assert(ls == seq![all.subrange(start as int, end as int)]);
                assert(all.skip(next as int).len() == 0);
                assert(more.len() == 0);
            }
            assert(ls[0] == all.subrange(start as int, end as int));
            assert forall|i: int| 0 <= i < more.len() implies ls[1 + i] == #[trigger] more[i] by {}
        }
        let ghost before = out@;
        out.push(line);
        proof {
            let ls = lines_of(rest);
            let more = lines_of(all.skip(next as int));
            assert(lines_of(all)[before.len() as int] == ls[0]);
            assert forall|i: int| 0 <= i < out@.len() implies (#[trigger] out@[i])@ == lines_of(all)[i] by {
                if i < before.len() {
                    assert(out@[i] == before[i]);
                }
            }
            assert forall|i: int| 0 <= i < more.len() implies lines_of(all)[out@.len() + i] == #[trigger] more[i] by {
                assert(ls[1 + i] == more[i]);
                assert(lines_of(all)[before.len() + (1 + i)] == ls[1 + i]);
            }
        }
        start = next;
    }
    proof {
        assert(all.skip(start as int).len() == 0);
    }
    out
}

/// The decimal digit of `d`, for `d` below 10.
pub open spec fn digit_char(d: nat) -> char {
    ((48 + d) as u8) as char
}

/// The decimal numeral of `n`.
pub open spec fn decimal(n: nat) -> Seq<char>
    decreases n,
{
    if n < 10 {
        seq![digit_char(n)]
    } else {
        decimal(n / 10).push(digit_char(n % 10))
    }
}

/// Appends the decimal numeral of `n` to `s`.
pub fn push_decimal(s: &mut String, n: usize)
    ensures
        final(s)@ == old(s)@ + decimal(n as nat),
    decreases n,
{
    if n >= 10 {
        push_decimal(s, n / 10);
    }
    let d = (n % 10) as u8;
    let c = (48u8 + d) as char;
    push_char(s, c);
    proof {
        if n >= 10 {
            assert(old(s)@ + decimal(n as nat) =~= old(s)@ + decimal((n / 10) as nat) + seq![digit_char((n % 10) as nat)]);
        } else {
            assert(old(s)@ + decimal(n as nat) =~= old(s)@ + seq![digit_char(n as nat)]);
        }
    }
}

} // verus!
