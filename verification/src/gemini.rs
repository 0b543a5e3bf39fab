//! The Gemini protocol: the status line of a response, and the lines of a
//! `text/gemini` document.
use vstd::prelude::*;
use vstd::std_specs::convert::FromSpecImpl;
use crate::chars::{chars_of, push_char, string_of_range, trim, trimmed, lines, lines_of};
use crate::util::{split_whitespace_once, spec_split_whitespace_once};

verus! {

/// The status of a Gemini response, by its two-digit code.
#[derive(Debug, Clone, Copy, PartialEq, Eq, Structural)]
pub enum Status {
    InputExpected,
    InputExpectedSensitive,
    Success,
    RedirectTemporary,
    RedirectPermanent,
    FailTemporary,
    FailServerUnavailable,
    FailCGIError,
    FailProxyError,
    FailSlowDown,
    FailPermanent,
    FailNotFound,
    FailGone,
    FailProxyRequestRefused,
    FailBadRequest,
    CertRequiredClient,
    CertRequiredTransient,
    CertRequiredAuthorized,
    CertNotAccepted,
    FutureCertRejected,
    ExpiredCertRejected,
    Unknown(u8),
    /// The code is no number from 0 to 255.
    Junk(IntError),
}

/// Why a status code is no number from 0 to 255, as `u8::from_str` reports it.
#[derive(Debug, Clone, Copy, PartialEq, Eq, Structural)]
pub enum IntError {
    Empty,
    InvalidDigit,
    PosOverflow,
}

/// The number of the decimal digits `d`, read after `acc`, or what stops it.
pub open spec fn digits_value(d: Seq<char>, acc: nat) -> Result<u8, IntError>
    decreases d.len(),
{
    if d.len() == 0 {
        Ok(acc as u8)
    } else if !('0' <= d[0] && d[0] <= '9') {
        Err(IntError::InvalidDigit)
    } else if acc * 10 + (d[0] as int - '0' as int) > 255 {
        Err(IntError::PosOverflow)
    } else {
        digits_value(d.drop_first(), (acc * 10 + (d[0] as int - '0' as int)) as nat)
    }
}

/// The `u8` that `s` spells: an optional `+` and decimal digits.
pub open spec fn spec_parse_u8(s: Seq<char>) -> Result<u8, IntError> {
    if s.len() == 0 {
        Err(IntError::Empty)
    } else if (s[0] == '+' || s[0] == '-') && s.len() == 1 {
        Err(IntError::InvalidDigit)
    } else if s[0] == '+' {
        digits_value(s.drop_first(), 0)
    } else {
        digits_value(s, 0)
    }
}

/// Reads the `u8` that `s` spells.
pub fn parse_u8(s: &str) -> (r: Result<u8, IntError>)
    ensures
        r == spec_parse_u8(s@),
{
    let v = chars_of(s);
    if v.len() == 0 {
        return Err(IntError::Empty);
    }
    if (v[0] == '+' || v[0] == '-') && v.len() == 1 {
        return Err(IntError::InvalidDigit);
    }
    let mut i: usize = if v[0] == '+' { 1 } else { 0 };
    let ghost d = v@.skip(i as int);
    proof {
        if v[0] == '+' {
            assert(d =~= s@.drop_first());
        } else {
            assert(d =~= s@);
        }
    }
    let mut acc: u32 = 0;
    assert(spec_parse_u8(s@) == digits_value(d, 0));
    while i < v.len()
        invariant
            0 <= i <= v.len(),
            acc <= 255,
            spec_parse_u8(s@) == digits_value(d, 0),
            digits_value(d, 0) == digits_value(v@.skip(i as int), acc as nat),
        decreases v.len() - i,
    {
        proof {
            assert(v@.skip(i as int).drop_first() =~= v@.skip(i + 1));
        }
        let c = v[i];
        assert(c == v@.skip(i as int)[0]);
        if !('0' <= c && c <= '9') {
            return Err(IntError::InvalidDigit);
        }
        let next = acc * 10 + (c as u32 - '0' as u32);
        if next > 255 {
            return Err(IntError::PosOverflow);
        }
        acc = next;
        i = i + 1;
    }
    Ok(acc as u8)
}

/// The status of the code `u`.
pub open spec fn status_of(u: u8) -> Status {
    if u == 10 || (12 <= u <= 19) {
        Status::InputExpected
    } else if u == 11 {
        Status::InputExpectedSensitive
    } else if 20 <= u <= 29 {
        Status::Success
    } else if u == 30 || (32 <= u <= 39) {
        Status::RedirectTemporary
    } else if u == 31 {
        Status::RedirectPermanent
    } else if u == 41 {
        Status::FailServerUnavailable
    } else if u == 40 || (45 <= u <= 49) {
        Status::FailTemporary
    } else if u == 42 {
        Status::FailCGIError
    } else if u == 43 {
        Status::FailProxyError
    } else if u == 44 {
        Status::FailSlowDown
    } else if u == 50 || (54 <= u <= 58) {
        Status::FailPermanent
    } else if u == 51 {
        Status::FailNotFound
    } else if u == 52 {
        Status::FailGone
    } else if u == 53 {
        Status::FailProxyRequestRefused
    } else if u == 59 {
        Status::FailBadRequest
    } else if u == 60 || (66 <= u <= 69) {
        Status::CertRequiredClient
    } else if u == 61 {
        Status::CertRequiredTransient
    } else if u == 62 {
        Status::CertRequiredAuthorized
    } else if u == 63 {
        Status::CertNotAccepted
    } else if u == 64 {
        Status::FutureCertRejected
    } else if u == 65 {
        Status::ExpiredCertRejected
    } else {
        Status::Unknown(u)
    }
}

impl Status {
    /// The status of the code `u`.
    pub fn from_code(u: u8) -> (r: Status)
        ensures
            r == status_of(u),
    {
        if u == 10 || (12 <= u && u <= 19) {
            Status::InputExpected
        } else if u == 11 {
            Status::InputExpectedSensitive
        } else if 20 <= u && u <= 29 {
            Status::Success
        } else if u == 30 || (32 <= u && u <= 39) {
            Status::RedirectTemporary
        } else if u == 31 {
            Status::RedirectPermanent
        } else if u == 41 {
            Status::FailServerUnavailable
        } else if u == 40 || (45 <= u && u <= 49) {
            Status::FailTemporary
        } else if u == 42 {
            Status::FailCGIError
        } else if u == 43 {
            Status::FailProxyError
        } else if u == 44 {
            Status::FailSlowDown
        } else if u == 50 || (54 <= u && u <= 58) {
            Status::FailPermanent
        } else if u == 51 {
            Status::FailNotFound
        } else if u == 52 {
            Status::FailGone
        } else if u == 53 {
            Status::FailProxyRequestRefused
        } else if u == 59 {
            Status::FailBadRequest
        } else if u == 60 || (66 <= u && u <= 69) {
            Status::CertRequiredClient
        } else if u == 61 {
            Status::CertRequiredTransient
        } else if u == 62 {
            Status::CertRequiredAuthorized
        } else if u == 63 {
            Status::CertNotAccepted
        } else if u == 64 {
            Status::FutureCertRejected
        } else if u == 65 {
            Status::ExpiredCertRejected
        } else {
            Status::Unknown(u)
        }
    }

    /// The status that the code `s` spells, or why it spells none.
    pub open spec fn spec_try_from(s: Seq<char>) -> Result<Status, IntError> {
        match spec_parse_u8(s) {
            Ok(u) => Ok(status_of(u)),
            Err(e) => Err(e),
        }
    }

    /// The status that the code `s` spells.
    pub fn try_from_str(s: &str) -> (r: Result<Status, IntError>)
        ensures
            r == Self::spec_try_from(s@),
    {
        match parse_u8(s) {
            Ok(u) => Ok(Status::from_code(u)),
            Err(e) => Err(e),
        }
    }
}

impl From<&str> for Status {
    /// The status that the code `s` spells; `Junk` where it spells no number.
    fn from(s: &str) -> (r: Status) {
        match parse_u8(s) {
            Ok(u) => Status::from_code(u),
            Err(e) => Status::Junk(e),
        }
    }
}

impl FromSpecImpl<&str> for Status {
    open spec fn obeys_from_spec() -> bool {
        true
    }

    open spec fn from_spec(s: &str) -> Status {
        match spec_parse_u8(s@) {
            Ok(u) => status_of(u),
            Err(e) => Status::Junk(e),
        }
    }
}

/// A response's status and the text after its code.
#[derive(Debug, Clone)]
pub struct StatusText {
    pub tag: Status,
    pub text: String,
}

/// How a status line splits: the code and the text, both trimmed; a line
/// without a blank is both.
pub open spec fn status_parts(item: Seq<char>) -> (Seq<char>, Seq<char>) {
    let line = trimmed(item);
    match spec_split_whitespace_once(line) {
        Some(p) => p,
        None => (line, line),
    }
}

impl StatusText {
    /// Reads a status line: its code, `Junk` where it is no number, and the
    /// text after it.
    pub fn parse(line: &str) -> (r: StatusText)
        ensures
            r.tag == (match spec_parse_u8(status_parts(line@).0) {
                Ok(u) => status_of(u),
                Err(e) => Status::Junk(e),
            }),
            r.text@ == status_parts(line@).1,
    {
        let line = trim(line);
        let (code, msg) = match split_whitespace_once(line.as_str()) {
            Some(p) => p,
            None => (line.clone(), line),
        };
        StatusText { tag: Status::from(code.as_str()), text: msg }
    }

    /// Reads a status line: its code and the text after it.
    pub fn try_from_str(item: &str) -> (r: Result<StatusText, IntError>)
        ensures
            match Status::spec_try_from(status_parts(item@).0) {
                Ok(tag) => r matches Ok(st) && st.tag == tag && st.text@ == status_parts(item@).1,
                Err(e) => r == Err::<StatusText, IntError>(e),
            },
    {
        let line = trim(item);
        let (code, msg) = match split_whitespace_once(line.as_str()) {
            Some(p) => p,
            None => (line.clone(), line),
        };
        match Status::try_from_str(code.as_str()) {
            Ok(tag) => Ok(StatusText { tag, text: msg }),
            Err(e) => Err(e),
        }
    }
}

/// The kind of a line of a Gemini document.
#[derive(Clone, Debug)]
pub enum GemTag {
    HeadingOne,
    HeadingTwo,
    HeadingThree,
    Text,
    PreFormat,
    Link(String),
    ListItem,
    Quote,
}

/// The kind of a line of a Gemini document, with a link's URL as characters.
pub ghost enum TagView {
    HeadingOne,
    HeadingTwo,
    HeadingThree,
    Text,
    PreFormat,
    Link(Seq<char>),
    ListItem,
    Quote,
}

impl View for GemTag {
    type V = TagView;

    open spec fn view(&self) -> TagView {
        match self {
            GemTag::HeadingOne => TagView::HeadingOne,
            GemTag::HeadingTwo => TagView::HeadingTwo,
            GemTag::HeadingThree => TagView::HeadingThree,
            GemTag::Text => TagView::Text,
            GemTag::PreFormat => TagView::PreFormat,
            GemTag::Link(u) => TagView::Link(u@),
            GemTag::ListItem => TagView::ListItem,
            GemTag::Quote => TagView::Quote,
        }
    }
}

/// A line of a Gemini document: its kind and its text.
#[derive(Clone, Debug)]
pub struct GemText {
    pub tag: GemTag,
    pub text: String,
}

impl View for GemText {
    type V = (TagView, Seq<char>);

    open spec fn view(&self) -> (TagView, Seq<char>) {
        (self.tag@, self.text@)
    }
}

impl From<(GemTag, String)> for GemText {
    fn from(item: (GemTag, String)) -> (r: Self) {
        GemText { tag: item.0, text: item.1 }
    }
}

impl FromSpecImpl<(GemTag, String)> for GemText {
    open spec fn obeys_from_spec() -> bool {
        true
    }

    open spec fn from_spec(item: (GemTag, String)) -> Self {
        GemText { tag: item.0, text: item.1 }
    }
}

/// Whether `s` starts with `p`.
pub open spec fn starts(s: Seq<char>, p: Seq<char>) -> bool {
    s.len() >= p.len() && s.take(p.len() as int) == p
}

/// What a line of a Gemini document is: a preformatting toggle, a heading,
/// a quote, a list item, a link (its URL and its text), or plain text.
pub open spec fn spec_parse_line(line: Seq<char>) -> (TagView, Seq<char>) {
    if starts(line, seq!['`', '`', '`']) {
        (TagView::PreFormat, seq![])
    } else if starts(line, seq!['#', '#', '#']) {
        (TagView::HeadingThree, line.skip(3))
    } else if starts(line, seq!['#', '#']) {
        (TagView::HeadingTwo, trimmed(line.skip(2)))
    } else if starts(line, seq!['#']) {
        (TagView::HeadingOne, trimmed(line.skip(1)))
    } else if starts(line, seq!['>']) {
        (TagView::Quote, trimmed(line.skip(1)))
    } else if starts(line, seq!['*']) {
        (TagView::ListItem, line.skip(1))
    } else if starts(line, seq!['=', '>']) {
        let t = line.skip(2);
        let (u, rest) = match spec_split_whitespace_once(trimmed(t)) {
            Some(p) => p,
            None => (t, t),
        };
        (TagView::Link(u), trimmed(rest))
    } else {
        (TagView::Text, trimmed(line))
    }
}

/// Whether the characters of `v` start with `p`.
fn starts_with(v: &Vec<char>, p: &[char]) -> (r: bool)
    ensures
        r == starts(v@, p@),
{
    if v.len() < p.len() {
        return false;
    }
    let mut i: usize = 0;
    while i < p.len()
        invariant
            v.len() >= p.len(),
            0 <= i <= p.len(),
            forall|k: int| 0 <= k < i ==> v@[k] == p@[k],
        decreases p.len() - i,
    {
        if v[i] != p[i] {
            assert(v@.take(p@.len() as int)[i as int] != p@[i as int]);
            return false;
        }
        i = i + 1;
    }
    assert(v@.take(p@.len() as int) =~= p@);
    true
}

/// What `char::escape_debug` gives for `c`: the character as it is, or the
/// escape that shows it.
pub uninterp spec fn char_escape_debug(c: char) -> Seq<char>;

/// Calls `char::escape_debug` and collects the characters it yields.
#[verifier::external_body]
fn escape_debug_of(c: char) -> (r: String)
    ensures
        r@ == char_escape_debug(c),
{
    c.escape_debug().to_string()
}

/// How a character of a quoted string shows: a single quote as it is,
/// anything else as `char::escape_debug` shows it.
pub open spec fn quoted_char(c: char) -> Seq<char> {
    if c == '\'' { seq!['\''] } else { char_escape_debug(c) }
}

/// The characters of `s`, each shown as `quoted_char` shows it.
pub open spec fn quoted_body(s: Seq<char>) -> Seq<char>
    decreases s.len(),
{
    if s.len() == 0 { seq![] } else { quoted_body(s.drop_last()) + quoted_char(s.last()) }
}

/// The decimal digit `d`.
pub open spec fn digit_char(d: int) -> char {
    if d == 0 { '0' } else if d == 1 { '1' } else if d == 2 { '2' } else if d == 3 { '3' }
    else if d == 4 { '4' } else if d == 5 { '5' } else if d == 6 { '6' } else if d == 7 { '7' }
    else if d == 8 { '8' } else { '9' }
}

/// The decimal numeral of `n`, without leading zeros.
pub open spec fn decimal(n: nat) -> Seq<char>
    decreases n,
{
    if n < 10 { seq![digit_char(n as int)] } else { decimal(n / 10).push(digit_char((n % 10) as int)) }
}

/// The message `u8::from_str` gives for each of its errors.
pub open spec fn int_error_message(e: IntError) -> Seq<char> {
    match e {
        IntError::Empty => "cannot parse integer from empty string"@,
        IntError::InvalidDigit => "invalid digit found in string"@,
        IntError::PosOverflow => "number too large to fit in target type"@,
    }
}

/// The name of a status, as a response's status line is shown: the
/// variant's name, the code of an unknown status in brackets, and the
/// message of a code that is no number, quoted, in brackets.
pub open spec fn status_name(tag: Status) -> Seq<char> {
    match tag {
        Status::InputExpected => "InputExpected"@,
        Status::InputExpectedSensitive => "InputExpectedSensitive"@,
        Status::Success => "Success"@,
        Status::RedirectTemporary => "RedirectTemporary"@,
        Status::RedirectPermanent => "RedirectPermanent"@,
        Status::FailTemporary => "FailTemporary"@,
        Status::FailServerUnavailable => "FailServerUnavailable"@,
        Status::FailCGIError => "FailCGIError"@,
        Status::FailProxyError => "FailProxyError"@,
        Status::FailSlowDown => "FailSlowDown"@,
        Status::FailPermanent => "FailPermanent"@,
        Status::FailNotFound => "FailNotFound"@,
        Status::FailGone => "FailGone"@,
        Status::FailProxyRequestRefused => "FailProxyRequestRefused"@,
        Status::FailBadRequest => "FailBadRequest"@,
        Status::CertRequiredClient => "CertRequiredClient"@,
        Status::CertRequiredTransient => "CertRequiredTransient"@,
        Status::CertRequiredAuthorized => "CertRequiredAuthorized"@,
        Status::CertNotAccepted => "CertNotAccepted"@,
        Status::FutureCertRejected => "FutureCertRejected"@,
        Status::ExpiredCertRejected => "ExpiredCertRejected"@,
        Status::Unknown(u) => "Unknown("@ + decimal(u as nat) + ")"@,
        Status::Junk(e) => "Junk(\""@ + int_error_message(e) + "\")"@,
    }
}

/// The line that shows a status line whose status is no success: the
/// status's name and the text, quoted, in the form
/// `StatusText { tag: .., text: ".." }`.
pub open spec fn status_line(tag: Status, text: Seq<char>) -> Seq<char> {
    "StatusText { tag: "@ + status_name(tag) + ", text: \""@ + quoted_body(text) + "\" }"@
}

/// The decimal digit `d`, for `d` below 10.
fn digit_of(d: u8) -> (r: char)
    requires
        d < 10,
    ensures
        r == digit_char(d as int),
{
    if d == 0 { '0' } else if d == 1 { '1' } else if d == 2 { '2' } else if d == 3 { '3' }
    else if d == 4 { '4' } else if d == 5 { '5' } else if d == 6 { '6' } else if d == 7 { '7' }
    else if d == 8 { '8' } else { '9' }
}

/// Appends the decimal numeral of `n` to `out`.
fn push_decimal(out: &mut String, n: u8)
    ensures
        final(out)@ == old(out)@ + decimal(n as nat),
{
    proof {
        reveal_with_fuel(decimal, 3);
    }
    if n >= 100 {
        push_char(out, digit_of(n / 100));
        push_char(out, digit_of((n / 10) % 10));
        push_char(out, digit_of(n % 10));
        assert(decimal(n as nat) == seq![digit_char((n / 100) as int), digit_char(((n / 10) % 10) as int), digit_char((n % 10) as int)]);
    } else if n >= 10 {
        push_char(out, digit_of(n / 10));
        push_char(out, digit_of(n % 10));
        assert(decimal(n as nat) == seq![digit_char((n / 10) as int), digit_char((n % 10) as int)]);
    } else {
        push_char(out, digit_of(n));
    }
}

/// Appends the characters of `text` to `out`, each as `quoted_char` shows it.
fn push_quoted(out: &mut String, text: &str)
    ensures
        final(out)@ == old(out)@ + quoted_body(text@),
{
    let cs = chars_of(text);
    let ghost start = out@;
    let mut i: usize = 0;
    proof {
        assert(text@.take(0) =~= Seq::<char>::empty());
        assert(start + quoted_body(text@.take(0)) =~= start);
    }
    while i < cs.len()
        invariant
            cs@ == text@,
            0 <= i <= cs.len(),
            out@ == start + quoted_body(text@.take(i as int)),
        decreases cs.len() - i,
    {
        let c = cs[i];
        if c == '\'' {
            push_char(out, '\'');
        } else {
            let e = escape_debug_of(c);
            out.append(e.as_str());
        }
        proof {
            assert(text@.take(i + 1).drop_last() =~= text@.take(i as int));
            assert(text@.take(i + 1).last() == c);
            assert(out@ =~= start + quoted_body(text@.take(i + 1)));
        }
        i = i + 1;
    }
    proof {
        assert(text@.take(cs@.len() as int) =~= text@);
    }
}

impl StatusText {
    /// The line that shows this status line, as `status_line` gives it.
    pub fn to_line(&self) -> (r: String)
        ensures
            r@ == status_line(self.tag, self.text@),
    {
        let mut out = String::from_str("StatusText { tag: ");
        match self.tag {
            Status::InputExpected => out.append("InputExpected"),
            Status::InputExpectedSensitive => out.append("InputExpectedSensitive"),
            Status::Success => out.append("Success"),
            Status::RedirectTemporary => out.append("RedirectTemporary"),
            Status::RedirectPermanent => out.append("RedirectPermanent"),
            Status::FailTemporary => out.append("FailTemporary"),
            Status::FailServerUnavailable => out.append("FailServerUnavailable"),
            Status::FailCGIError => out.append("FailCGIError"),
            Status::FailProxyError => out.append("FailProxyError"),
            Status::FailSlowDown => out.append("FailSlowDown"),
            Status::FailPermanent => out.append("FailPermanent"),
            Status::FailNotFound => out.append("FailNotFound"),
            Status::FailGone => out.append("FailGone"),
            Status::FailProxyRequestRefused => out.append("FailProxyRequestRefused"),
            Status::FailBadRequest => out.append("FailBadRequest"),
            Status::CertRequiredClient => out.append("CertRequiredClient"),
            Status::CertRequiredTransient => out.append("CertRequiredTransient"),
            Status::CertRequiredAuthorized => out.append("CertRequiredAuthorized"),
            Status::CertNotAccepted => out.append("CertNotAccepted"),
            Status::FutureCertRejected => out.append("FutureCertRejected"),
            Status::ExpiredCertRejected => out.append("ExpiredCertRejected"),
            Status::Unknown(u) => {
                out.append("Unknown(");
                push_decimal(&mut out, u);
                out.append(")");
            },
            Status::Junk(e) => {
                out.append("Junk(\"");
                match e {
                    IntError::Empty => out.append("cannot parse integer from empty string"),
                    IntError::InvalidDigit => out.append("invalid digit found in string"),
                    IntError::PosOverflow => out.append("number too large to fit in target type"),
                }
                out.append("\")");
            },
        }
        out.append(", text: \"");
        push_quoted(&mut out, self.text.as_str());
        out.append("\" }");
        proof {
            assert(out@ =~= status_line(self.tag, self.text@));
        }
        out
    }
}

impl GemText {
    /// A line of plain text.
    pub fn text(s: String) -> (r: Self)
        ensures
            r@ == (TagView::Text, s@),
    {
        GemText { tag: GemTag::Text, text: s }
    }

    /// A third-level heading.
    pub fn heading3(s: String) -> (r: Self)
        ensures
            r@ == (TagView::HeadingThree, s@),
    {
        GemText { tag: GemTag::HeadingThree, text: s }
    }

    /// A second-level heading.
    pub fn heading2(s: String) -> (r: Self)
        ensures
            r@ == (TagView::HeadingTwo, s@),
    {
        GemText { tag: GemTag::HeadingTwo, text: s }
    }

    /// A first-level heading.
    pub fn heading1(s: String) -> (r: Self)
        ensures
            r@ == (TagView::HeadingOne, s@),
    {
        GemText { tag: GemTag::HeadingOne, text: s }
    }

    /// A quote.
    pub fn quote(s: String) -> (r: Self)
        ensures
            r@ == (TagView::Quote, s@),
    {
        GemText { tag: GemTag::Quote, text: s }
    }

    /// An item of a list.
    pub fn list_item(s: String) -> (r: Self)
        ensures
            r@ == (TagView::ListItem, s@),
    {
        GemText { tag: GemTag::ListItem, text: s }
    }

    /// A line of preformatted text.
    pub fn preformat(s: String) -> (r: Self)
        ensures
            r@ == (TagView::PreFormat, s@),
    {
        GemText { tag: GemTag::PreFormat, text: s }
    }

    /// What a line of a Gemini document is.
    pub fn parse_line(line: &str) -> (r: (GemTag, String))
        ensures
            (r.0@, r.1@) == spec_parse_line(line@),
    {
        let v = chars_of(line);
        let n = v.len();
        proof {
            assert(v@.skip(3) =~= v@.subrange(3, n as int)) by {
                if n < 3 {
                }
            };
        }
        if starts_with(&v, &['`', '`', '`']) {
            proof {
                assert(seq!['`', '`', '`'] =~= ['`', '`', '`']@);
            }
            (GemTag::PreFormat, String::new())
        } else if starts_with(&v, &['#', '#', '#']) {
            proof {
                assert(seq!['#', '#', '#'] =~= ['#', '#', '#']@);
                assert(v@.skip(3) =~= v@.subrange(3, n as int));
            }
            (GemTag::HeadingThree, string_of_range(&v, 3, n))
        } else if starts_with(&v, &['#', '#']) {
            proof {
                assert(seq!['#', '#', '#'] =~= ['#', '#', '#']@);
                assert(seq!['#', '#'] =~= ['#', '#']@);
                assert(v@.skip(2) =~= v@.subrange(2, n as int));
            }
            let t = string_of_range(&v, 2, n);
            (GemTag::HeadingTwo, trim(t.as_str()))
        } else if starts_with(&v, &['#']) {
            proof {
                assert(seq!['#', '#', '#'] =~= ['#', '#', '#']@);
                assert(seq!['#', '#'] =~= ['#', '#']@);
                assert(seq!['#'] =~= ['#']@);
                assert(v@.skip(1) =~= v@.subrange(1, n as int));
            }
            let t = string_of_range(&v, 1, n);
            (GemTag::HeadingOne, trim(t.as_str()))
        } else if starts_with(&v, &['>']) {
            proof {
                assert(seq!['#', '#', '#'] =~= ['#', '#', '#']@);
                assert(seq!['#', '#'] =~= ['#', '#']@);
                assert(seq!['#'] =~= ['#']@);
                assert(seq!['>'] =~= ['>']@);
                assert(v@.skip(1) =~= v@.subrange(1, n as int));
            }
            let t = string_of_range(&v, 1, n);
            (GemTag::Quote, trim(t.as_str()))
        } else if starts_with(&v, &['*']) {
            proof {
                assert(seq!['#', '#', '#'] =~= ['#', '#', '#']@);
                assert(seq!['#', '#'] =~= ['#', '#']@);
                assert(seq!['#'] =~= ['#']@);
                assert(seq!['>'] =~= ['>']@);
                assert(seq!['*'] =~= ['*']@);
                assert(v@.skip(1) =~= v@.subrange(1, n as int));
            }
            (GemTag::ListItem, string_of_range(&v, 1, n))
        } else if starts_with(&v, &['=', '>']) {
            proof {
                assert(seq!['#', '#', '#'] =~= ['#', '#', '#']@);
                assert(seq!['#', '#'] =~= ['#', '#']@);
                assert(seq!['#'] =~= ['#']@);
                assert(seq!['>'] =~= ['>']@);
                assert(seq!['*'] =~= ['*']@);
                assert(seq!['=', '>'] =~= ['=', '>']@);
                assert(v@.skip(2) =~= v@.subrange(2, n as int));
            }
            let t = string_of_range(&v, 2, n);
            let tt = trim(t.as_str());
            let (u, rest) = match split_whitespace_once(tt.as_str()) {
                Some(p) => p,
                None => (t.clone(), t),
            };
            (GemTag::Link(u), trim(rest.as_str()))
        } else {
            proof {
                assert(seq!['`', '`', '`'] =~= ['`', '`', '`']@);
                assert(seq!['#', '#', '#'] =~= ['#', '#', '#']@);
                assert(seq!['#', '#'] =~= ['#', '#']@);
                assert(seq!['#'] =~= ['#']@);
                assert(seq!['>'] =~= ['>']@);
                assert(seq!['*'] =~= ['*']@);
                assert(seq!['=', '>'] =~= ['=', '>']@);
            }
            (GemTag::Text, trim(line))
        }
    }
}

/// The document that the lines `ls` make, preformatting on or off at first:
/// each toggle line turns preformatting over and shows nothing; while it is
/// on, every line is preformatted text.
pub open spec fn doc_of(ls: Seq<Seq<char>>, pre: bool) -> Seq<(TagView, Seq<char>)>
    decreases ls.len(),
{
    if ls.len() == 0 {
        seq![]
    } else {
        let (tag, text) = spec_parse_line(ls[0]);
        if tag == TagView::PreFormat {
            doc_of(ls.drop_first(), !pre)
        } else if pre {
            seq![(TagView::PreFormat, text)] + doc_of(ls.drop_first(), pre)
        } else {
            seq![(tag, text)] + doc_of(ls.drop_first(), pre)
        }
    }
}

/// The lines of a Gemini document.
pub fn parse_doc(text_str: &str) -> (r: Vec<GemText>)
    ensures
        r@.len() == doc_of(lines_of(text_str@), false).len(),
        forall|i: int| 0 <= i < r@.len() ==> (#[trigger] r@[i])@ == doc_of(lines_of(text_str@), false)[i],
{
    let ls = lines(text_str);
    let ghost all = lines_of(text_str@);
    let mut out: Vec<GemText> = Vec::new();
    let mut preformat = false;
    let mut i: usize = 0;
    proof {
        assert(all.skip(0) =~= all);
    }
    while i < ls.len()
        invariant
            ls@.len() == all.len(),
            forall|k: int| 0 <= k < ls@.len() ==> (#[trigger] ls@[k])@ == all[k],
            0 <= i <= ls.len(),
            doc_of(all, false).len() == out@.len() + doc_of(all.skip(i as int), preformat).len(),
            forall|k: int| 0 <= k < out@.len() ==> (#[trigger] out@[k])@ == doc_of(all, false)[k],
            forall|k: int|
                0 <= k < doc_of(all.skip(i as int), preformat).len() ==> doc_of(all, false)[out@.len() + k]
                    == #[trigger] doc_of(all.skip(i as int), preformat)[k],
        decreases ls.len() - i,
    {
        let ghost rest = all.skip(i as int);
        let ghost pre_before = preformat;
        proof {
            assert(rest.drop_first() =~= all.skip(i + 1));
            assert(rest[0] == all[i as int]);
        }
        let (tag, s) = GemText::parse_line(ls[i].as_str());
        let ghost before = out@;
        match tag {
            GemTag::PreFormat => {
                preformat = !preformat;
            },
            tag => {
                if preformat {
                    out.push(GemText::preformat(s));
                } else {
                    out.push(GemText::from((tag, s)));
                }
                proof {
                    let d = doc_of(rest, pre_before);
                    let more = doc_of(all.skip(i + 1), pre_before);
                    assert(d[0] == out@[before.len() as int]@);
                    assert forall|k: int| 0 <= k < more.len() implies d[1 + k] == #[trigger] more[k] by {}
                    assert forall|k: int| 0 <= k < out@.len() implies (#[trigger] out@[k])@ == doc_of(all, false)[k] by {
                        if k < before.len() {
                            assert(out@[k] == before[k]);
                        } else {
                            assert(doc_of(all, false)[before.len() as int] == d[0]);
                        }
                    }
                    assert forall|k: int| 0 <= k < more.len() implies doc_of(all, false)[out@.len() + k] == #[trigger] more[k] by {
                        assert(doc_of(all, false)[before.len() + (1 + k)] == d[1 + k]);
                    }
                }
            },
        }
        i = i + 1;
    }
    proof {
        assert(all.skip(i as int).len() == 0);
    }
    out
}

/// A response: its status line, and the document it carries.
pub struct GemDoc {
    pub status: StatusText,
    pub doc: Vec<GemText>,
}

impl GemDoc {
    /// The response with the status line `response` and the body `content`:
    /// on success the body's lines; otherwise one line of text that shows the
    /// status.
    pub fn new(response: String, content: String) -> (r: Result<GemDoc, String>)
        ensures
            r matches Ok(d) && ({
                let st = d.status;
                &&& st.tag == (match spec_parse_u8(status_parts(response@).0) {
                    Ok(u) => status_of(u),
                    Err(e) => Status::Junk(e),
                })
                &&& st.text@ == status_parts(response@).1
                &&& if st.tag == Status::Success {
                    &&& d.doc@.len() == doc_of(lines_of(content@), false).len()
                    &&& forall|i: int| 0 <= i < d.doc@.len() ==> (#[trigger] d.doc@[i])@ == doc_of(lines_of(content@), false)[i]
                } else {
                    &&& d.doc@.len() == 1
                    &&& d.doc@[0]@ == (TagView::Text, status_line(st.tag, st.text@))
                }
            }),
    {
        let status = StatusText::parse(response.as_str());
        let doc = match status.tag {
            Status::Success => Self::parse_doc(content.as_str()),
            _ => {
                let mut v: Vec<GemText> = Vec::new();
                v.push(GemText::text(status.to_line()));
                v
            },
        };
        Ok(GemDoc { status, doc })
    }

    /// The lines of a Gemini document.
    pub fn parse_doc(text_str: &str) -> (r: Vec<GemText>)
        ensures
            r@.len() == doc_of(lines_of(text_str@), false).len(),
            forall|i: int| 0 <= i < r@.len() ==> (#[trigger] r@[i])@ == doc_of(lines_of(text_str@), false)[i],
    {
        parse_doc(text_str)
    }
}

/// The index of the first carriage return that a line feed follows in `b`.
pub open spec fn first_crlf(b: Seq<u8>) -> Option<int>
    decreases b.len(),
{
    if b.len() < 2 {
        None
    } else if b[0] == 13 && b[1] == 10 {
        Some(0)
    } else {
        match first_crlf(b.drop_first()) {
            Some(i) => Some(i + 1),
            None => None,
        }
    }
}

proof fn lemma_first_crlf_skip(b: Seq<u8>, i: int)
    requires
        0 <= i < b.len(),
        forall|j: int| 0 <= j < i ==> !(#[trigger] b[j] == 13 && b[j + 1] == 10),
    ensures
        first_crlf(b) == match first_crlf(b.skip(i)) {
            Some(k) => Some(k + i),
            None => None::<int>,
        },
    decreases i,
{
    if i > 0 {
        assert(b.skip(1).skip(i - 1) =~= b.skip(i));
        assert forall|j: int| 0 <= j < i - 1 implies !(#[trigger] b.skip(1)[j] == 13 && b.skip(1)[j + 1] == 10) by {
            assert(b.skip(1)[j] == b[j + 1]);
            assert(b.skip(1)[j + 1] == b[j + 2]);
            assert(!(b[j + 1] == 13 && b[(j + 1) + 1] == 10));
        }
        lemma_first_crlf_skip(b.skip(1), i - 1);
        assert(b.len() >= 2);
        assert(!(b[0] == 13 && b[1] == 10));
        assert(b.drop_first() =~= b.skip(1));
    } else {
        assert(b.skip(0) =~= b);
    }
}

/// Splits a response after its status line: the bytes up to and with the
/// first `\r\n`, and the rest; where there is no `\r\n`, all the bytes and
/// no content.
pub fn split_response(bytes: Vec<u8>) -> (r: (Vec<u8>, Option<Vec<u8>>))
    ensures
        match first_crlf(bytes@) {
            Some(i) => r.0@ == bytes@.take(i + 2) && (r.1 matches Some(c) && c@ == bytes@.skip(i + 2)),
            None => r.0@ == bytes@ && r.1 is None,
        },
{
    let n = bytes.len();
    let last = if n > 0 { n - 1 } else { 0 };
    let mut i: usize = 0;
    while i < last
        invariant
            n == bytes@.len(),
            last == if n > 0 { n - 1 } else { 0 },
            i <= last,
            forall|j: int| 0 <= j < i ==> !(#[trigger] bytes@[j] == 13 && bytes@[j + 1] == 10),
        decreases last - i,
    {
        if bytes[i] == 13 && bytes[i + 1] == 10 {
            proof {
                lemma_first_crlf_skip(bytes@, i as int);
                assert(first_crlf(bytes@.skip(i as int)) == Some(0int));
            }
            let mut head = bytes;
            let content = head.split_off(i + 2);
            return (head, Some(content));
        }
        i = i + 1;
    }
    proof {
        if n >= 2 {
            lemma_first_crlf_skip(bytes@, (n - 1) as int);
            assert(bytes@.skip(n - 1).len() == 1);
        } else {
            assert(first_crlf(bytes@) is None);
        }
    }
    (bytes, None)
}

} // verus!

verus! {

/// The Gemini status codes, status by status: each status is read from
/// exactly these codes, and a code outside them all is `Unknown` with that
/// code.
pub proof fn lemma_status_code_table(u: u8)
    ensures
        (status_of(u) == Status::InputExpected) <==> (u == 10 || (12 <= u && u <= 19)),
        (status_of(u) == Status::InputExpectedSensitive) <==> u == 11,
        (status_of(u) == Status::Success) <==> (20 <= u && u <= 29),
        (status_of(u) == Status::RedirectTemporary) <==> (u == 30 || (32 <= u && u <= 39)),
        (status_of(u) == Status::RedirectPermanent) <==> u == 31,
        (status_of(u) == Status::FailTemporary) <==> (u == 40 || (45 <= u && u <= 49)),
        (status_of(u) == Status::FailServerUnavailable) <==> u == 41,
        (status_of(u) == Status::FailCGIError) <==> u == 42,
        (status_of(u) == Status::FailProxyError) <==> u == 43,
        (status_of(u) == Status::FailSlowDown) <==> u == 44,
        (status_of(u) == Status::FailPermanent) <==> (u == 50 || (54 <= u && u <= 58)),
        (status_of(u) == Status::FailNotFound) <==> u == 51,
        (status_of(u) == Status::FailGone) <==> u == 52,
        (status_of(u) == Status::FailProxyRequestRefused) <==> u == 53,
        (status_of(u) == Status::FailBadRequest) <==> u == 59,
        (status_of(u) == Status::CertRequiredClient) <==> (u == 60 || (66 <= u && u <= 69)),
        (status_of(u) == Status::CertRequiredTransient) <==> u == 61,
        (status_of(u) == Status::CertRequiredAuthorized) <==> u == 62,
        (status_of(u) == Status::CertNotAccepted) <==> u == 63,
        (status_of(u) == Status::FutureCertRejected) <==> u == 64,
        (status_of(u) == Status::ExpiredCertRejected) <==> u == 65,
        (status_of(u) is Unknown) <==> (u < 10 || u >= 70),
        status_of(u) is Unknown ==> status_of(u) == Status::Unknown(u),
        !(status_of(u) is Junk),
{
}

} // verus!

verus! {

/// Each line kind of a Gemini document is told by its own prefix: `>` a
/// quote, `*` a list item, `#`, `##` and `###` the headings of those levels,
/// ```` ``` ```` a preformatting toggle, `=>` a link; a line with none of
/// these prefixes is plain text.
pub proof fn lemma_line_kinds(r: Seq<char>, line: Seq<char>)
    ensures
        spec_parse_line(seq!['>'] + r) == (TagView::Quote, trimmed(r)),
        spec_parse_line(seq!['*'] + r) == (TagView::ListItem, r),
        !starts(r, seq!['#']) ==> spec_parse_line(seq!['#'] + r) == (TagView::HeadingOne, trimmed(r)),
        !starts(r, seq!['#']) ==> spec_parse_line(seq!['#', '#'] + r) == (TagView::HeadingTwo, trimmed(r)),
        spec_parse_line(seq!['#', '#', '#'] + r) == (TagView::HeadingThree, r),
        spec_parse_line(seq!['`', '`', '`'] + r).0 == TagView::PreFormat,
        spec_parse_line(seq!['=', '>'] + r).0 is Link,
        (line.len() == 0 || (line[0] != '#' && line[0] != '>' && line[0] != '*' && line[0] != '`' && line[0] != '='))
            ==> spec_parse_line(line) == (TagView::Text, trimmed(line)),
{
    let q = seq!['>'] + r;
    assert(q.take(1) =~= seq!['>']);
    assert(q.skip(1) =~= r);
    assert(!starts(q, seq!['`', '`', '`'])) by { if q.len() >= 3 { assert(q.take(3)[0] == '>'); } }
    assert(!starts(q, seq!['#', '#', '#'])) by { if q.len() >= 3 { assert(q.take(3)[0] == '>'); } }
    assert(!starts(q, seq!['#', '#'])) by { if q.len() >= 2 { assert(q.take(2)[0] == '>'); } }
    assert(!starts(q, seq!['#'])) by { if q.len() >= 1 { assert(q.take(1)[0] == '>'); } }
    let l = seq!['*'] + r;
    assert(l.take(1) =~= seq!['*']);
    assert(l.skip(1) =~= r);
    assert(!starts(l, seq!['`', '`', '`'])) by { if l.len() >= 3 { assert(l.take(3)[0] == '*'); } }
    assert(!starts(l, seq!['#', '#', '#'])) by { if l.len() >= 3 { assert(l.take(3)[0] == '*'); } }
    assert(!starts(l, seq!['#', '#'])) by { if l.len() >= 2 { assert(l.take(2)[0] == '*'); } }
    assert(!starts(l, seq!['#'])) by { if l.len() >= 1 { assert(l.take(1)[0] == '*'); } }
    assert(!starts(l, seq!['>'])) by { if l.len() >= 1 { assert(l.take(1)[0] == '*'); } }
    let h1 = seq!['#'] + r;
    assert(h1.take(1) =~= seq!['#']);
    assert(h1.skip(1) =~= r);
    if !starts(r, seq!['#']) {
        assert(!starts(h1, seq!['#', '#'])) by {
            if starts(h1, seq!['#', '#']) {
                assert(h1.take(2)[1] == '#');
                assert(r.take(1) =~= seq!['#']);
            }
        }
        assert(!starts(h1, seq!['#', '#', '#'])) by {
            if starts(h1, seq!['#', '#', '#']) {
                assert(h1.take(3)[1] == '#');
                assert(r.take(1) =~= seq!['#']);
            }
        }
        assert(!starts(h1, seq!['`', '`', '`'])) by { if h1.len() >= 3 { assert(h1.take(3)[0] == '#'); } }
    }
    let h2 = seq!['#', '#'] + r;
    assert(h2.take(2) =~= seq!['#', '#']);
    assert(h2.skip(2) =~= r);
    if !starts(r, seq!['#']) {
        assert(!starts(h2, seq!['#', '#', '#'])) by {
            if starts(h2, seq!['#', '#', '#']) {
                assert(h2.take(3)[2] == '#');
                assert(r.take(1) =~= seq!['#']);
            }
        }
        assert(!starts(h2, seq!['`', '`', '`'])) by { if h2.len() >= 3 { assert(h2.take(3)[0] == '#'); } }
    }
    let h3 = seq!['#', '#', '#'] + r;
    assert(h3.take(3) =~= seq!['#', '#', '#']);
    assert(h3.skip(3) =~= r);
    assert(!starts(h3, seq!['`', '`', '`'])) by { if h3.len() >= 3 { assert(h3.take(3)[0] == '#'); } }
    let p = seq!['`', '`', '`'] + r;
    assert(p.take(3) =~= seq!['`', '`', '`']);
    let k = seq!['=', '>'] + r;
    assert(k.take(2) =~= seq!['=', '>']);
    assert(!starts(k, seq!['`', '`', '`'])) by { if k.len() >= 3 { assert(k.take(3)[0] == '='); } }
    assert(!starts(k, seq!['#', '#', '#'])) by { if k.len() >= 3 { assert(k.take(3)[0] == '='); } }
    assert(!starts(k, seq!['#', '#'])) by { if k.len() >= 2 { assert(k.take(2)[0] == '='); } }
    assert(!starts(k, seq!['#'])) by { if k.len() >= 1 { assert(k.take(1)[0] == '='); } }
    assert(!starts(k, seq!['>'])) by { if k.len() >= 1 { assert(k.take(1)[0] == '='); } }
    assert(!starts(k, seq!['*'])) by { if k.len() >= 1 { assert(k.take(1)[0] == '='); } }
    if line.len() == 0 || (line[0] != '#' && line[0] != '>' && line[0] != '*' && line[0] != '`' && line[0] != '=') {
        assert(!starts(line, seq!['`', '`', '`'])) by { if line.len() >= 3 { assert(line.take(3)[0] == line[0]); } }
        assert(!starts(line, seq!['#', '#', '#'])) by { if line.len() >= 3 { assert(line.take(3)[0] == line[0]); } }
        assert(!starts(line, seq!['#', '#'])) by { if line.len() >= 2 { assert(line.take(2)[0] == line[0]); } }
        assert(!starts(line, seq!['#'])) by { if line.len() >= 1 { assert(line.take(1)[0] == line[0]); } }
        assert(!starts(line, seq!['>'])) by { if line.len() >= 1 { assert(line.take(1)[0] == line[0]); } }
        assert(!starts(line, seq!['*'])) by { if line.len() >= 1 { assert(line.take(1)[0] == line[0]); } }
        assert(!starts(line, seq!['=', '>'])) by { if line.len() >= 2 { assert(line.take(2)[0] == line[0]); } }
    }
}

} // verus!
