//! Terminal colors and text styles, and how configuration text names them.
use vstd::prelude::*;
use crate::chars::{chars_of, str_eq};

verus! {

/// A terminal color: one of the sixteen named ones, or red, green and blue
/// levels.
#[derive(Clone, Copy, Debug, PartialEq, Eq, Structural)]
pub enum Color {
    Black,
    DarkGrey,
    Red,
    DarkRed,
    Green,
    DarkGreen,
    Yellow,
    DarkYellow,
    Blue,
    DarkBlue,
    Magenta,
    DarkMagenta,
    Cyan,
    DarkCyan,
    White,
    Grey,
    Rgb { r: u8, g: u8, b: u8 },
}

/// How a color failed to parse.
#[derive(Clone, Debug, PartialEq, Eq)]
pub enum ColorError {
    /// The hex digit at this place is missing: 0 and 1 are the red digits,
    /// 2 and 3 the green ones, 4 and 5 the blue ones.
    MissingDigit(usize),
    /// This character is not a lower-case hex digit.
    NotHex(char),
    /// No color has this name.
    NoName(String),
    /// The value is not a string.
    NotString,
}

/// Whether `c` is one of the digits `0`-`9` and `a`-`f`.
pub open spec fn is_hex(c: char) -> bool {
    ('0' <= c && c <= '9') || ('a' <= c && c <= 'f')
}

/// The value of the hex digit `c`.
pub open spec fn hex_value(c: char) -> int {
    if '0' <= c && c <= '9' {
        c as int - '0' as int
    } else {
        c as int - 'a' as int + 10
    }
}

/// The first problem with the six hex digits of `s` from place `i` on.
pub open spec fn hex_problem(s: Seq<char>, i: nat) -> Option<ColorError>
    decreases 6 - i,
{
    if i >= 6 {
        None
    } else if i >= s.len() {
        Some(ColorError::MissingDigit(i as usize))
    } else if !is_hex(s[i as int]) {
        Some(ColorError::NotHex(s[i as int]))
    } else {
        hex_problem(s, i + 1)
    }
}

/// The color that the hex digits `rrggbb` at the start of `s` give; characters
/// after the sixth are not read.
pub open spec fn spec_hex_color(s: Seq<char>) -> Result<Color, ColorError> {
    match hex_problem(s, 0) {
        Some(e) => Err(e),
        None => Ok(
            Color::Rgb {
                r: (16 * hex_value(s[0]) + hex_value(s[1])) as u8,
                g: (16 * hex_value(s[2]) + hex_value(s[3])) as u8,
                b: (16 * hex_value(s[4]) + hex_value(s[5])) as u8,
            },
        ),
    }
}

/// The color of a name: the sixteen colors in upper or lower camel case, with
/// grey and dark grey also spelt gray.
pub open spec fn color_named(s: Seq<char>) -> Option<Color> {
    if s == "Red"@ || s == "red"@ {
        Some(Color::Red)
    } else if s == "Yellow"@ || s == "yellow"@ {
        Some(Color::Yellow)
    } else if s == "Green"@ || s == "green"@ {
        Some(Color::Green)
    } else if s == "Cyan"@ || s == "cyan"@ {
        Some(Color::Cyan)
    } else if s == "Blue"@ || s == "blue"@ {
        Some(Color::Blue)
    } else if s == "Magenta"@ || s == "magenta"@ {
        Some(Color::Magenta)
    } else if s == "Black"@ || s == "black"@ {
        Some(Color::Black)
    } else if s == "White"@ || s == "white"@ {
        Some(Color::White)
    } else if s == "Grey"@ || s == "grey"@ || s == "Gray"@ || s == "gray"@ {
        Some(Color::Grey)
    } else if s == "DarkGrey"@ || s == "darkgrey"@ || s == "DarkGray"@ || s == "darkgray"@ {
        Some(Color::DarkGrey)
    } else if s == "DarkRed"@ || s == "darkred"@ {
        Some(Color::DarkRed)
    } else if s == "DarkYellow"@ || s == "darkyellow"@ {
        Some(Color::DarkYellow)
    } else if s == "DarkGreen"@ || s == "darkgreen"@ {
        Some(Color::DarkGreen)
    } else if s == "DarkCyan"@ || s == "darkcyan"@ {
        Some(Color::DarkCyan)
    } else if s == "DarkBlue"@ || s == "darkblue"@ {
        Some(Color::DarkBlue)
    } else if s == "DarkMagenta"@ || s == "darkmagenta"@ {
        Some(Color::DarkMagenta)
    } else {
        None
    }
}

/// The value of a hex digit, if `c` is one.
fn hex_digit(c: char) -> (r: Option<u8>)
    ensures
        r is Some <==> is_hex(c),
        r matches Some(d) ==> d == hex_value(c) && d < 16,
{
    if '0' <= c && c <= '9' {
        Some((c as u32 - '0' as u32) as u8)
    } else if 'a' <= c && c <= 'f' {
        Some((c as u32 - 'a' as u32 + 10) as u8)
    } else {
        None
    }
}

/// The color of the hex digits `rrggbb` that start at `v[from]`; characters
/// after the sixth are not read.
#[verifier::spinoff_prover]
pub fn hex_color_at(v: &Vec<char>, from: usize) -> (r: Result<Color, ColorError>)
    requires
        from <= v.len(),
    ensures
        r == spec_hex_color(v@.skip(from as int)),
{
    let ghost s = v@.skip(from as int);
    let mut digits: Vec<u8> = Vec::new();
    let mut i: usize = 0;
    while i < 6
        invariant
            from <= v.len(),
            s == v@.skip(from as int),
            0 <= i <= 6,
            digits.len() == i,
            hex_problem(s, 0) == hex_problem(s, i as nat),
            i <= s.len(),
            forall|k: int| 0 <= k < i ==> is_hex(#[trigger] s[k]),
            forall|k: int| 0 <= k < i ==> #[trigger] digits@[k] == hex_value(s[k]),
        decreases 6 - i,
    {
        if i >= v.len() - from {
            return Err(ColorError::MissingDigit(i));
        }
        let c = v[from + i];
        assert(s.len() == v@.len() - from);
        assert(c == s[i as int]);
        match hex_digit(c) {
            Some(d) => {
                let ghost before = digits@;
                digits.push(d);
                assert(forall|k: int| 0 <= k < i ==> digits@[k] == before[k]);
                assert(digits@[i as int] == d);
            },
            None => {
                return Err(ColorError::NotHex(c));
            },
        }
        proof {
            assert(hex_problem(s, i as nat) == hex_problem(s, (i + 1) as nat));
        }
        i = i + 1;
    }
    let r = 16 * digits[0] + digits[1];
    let g = 16 * digits[2] + digits[3];
    let b = 16 * digits[4] + digits[5];
    Ok(Color::Rgb { r, g, b })
}

/// The color of the hex digits `rrggbb` at the start of `s`.
pub fn parse_hex_color(s: &str) -> (r: Result<Color, ColorError>)
    ensures
        r == spec_hex_color(s@),
{
    let v = chars_of(s);
    proof {
        assert(v@.skip(0) =~= s@);
    }
    hex_color_at(&v, 0)
}

/// The color that `s` names, if any.
fn color_name(s: &str) -> (r: Option<Color>)
    ensures
        r == color_named(s@),
{
    if str_eq(s, "Red") || str_eq(s, "red") {
        Some(Color::Red)
    } else if str_eq(s, "Yellow") || str_eq(s, "yellow") {
        Some(Color::Yellow)
    } else if str_eq(s, "Green") || str_eq(s, "green") {
        Some(Color::Green)
    } else if str_eq(s, "Cyan") || str_eq(s, "cyan") {
        Some(Color::Cyan)
    } else if str_eq(s, "Blue") || str_eq(s, "blue") {
        Some(Color::Blue)
    } else if str_eq(s, "Magenta") || str_eq(s, "magenta") {
        Some(Color::Magenta)
    } else if str_eq(s, "Black") || str_eq(s, "black") {
        Some(Color::Black)
    } else if str_eq(s, "White") || str_eq(s, "white") {
        Some(Color::White)
    } else if str_eq(s, "Grey") || str_eq(s, "grey") || str_eq(s, "Gray") || str_eq(s, "gray") {
        Some(Color::Grey)
    } else if str_eq(s, "DarkGrey") || str_eq(s, "darkgrey") || str_eq(s, "DarkGray") || str_eq(
        s,
        "darkgray",
    ) {
        Some(Color::DarkGrey)
    } else if str_eq(s, "DarkRed") || str_eq(s, "darkred") {
        Some(Color::DarkRed)
    } else if str_eq(s, "DarkYellow") || str_eq(s, "darkyellow") {
        Some(Color::DarkYellow)
    } else if str_eq(s, "DarkGreen") || str_eq(s, "darkgreen") {
        Some(Color::DarkGreen)
    } else if str_eq(s, "DarkCyan") || str_eq(s, "darkcyan") {
        Some(Color::DarkCyan)
    } else if str_eq(s, "DarkBlue") || str_eq(s, "darkblue") {
        Some(Color::DarkBlue)
    } else if str_eq(s, "DarkMagenta") || str_eq(s, "darkmagenta") {
        Some(Color::DarkMagenta)
    } else {
        None
    }
}

/// The color that `s` names.
pub fn parse_color_name(s: &str) -> (r: Result<Color, ColorError>)
    ensures
        color_named(s@) matches Some(c) ==> r == Ok::<Color, ColorError>(c),
        color_named(s@) is None ==> (r matches Err(ColorError::NoName(n)) && n@ == s@),
{
    match color_name(s) {
        Some(c) => Ok(c),
        None => Err(ColorError::NoName(s.to_string())),
    }
}

/// How text is drawn: underlined or not, bold or not, and its colors, where
/// it sets them.
#[derive(Clone, Copy, Debug, PartialEq, Eq, Structural)]
pub struct Style {
    pub underline: bool,
    pub bold: bool,
    pub fg: Option<Color>,
    pub bg: Option<Color>,
}

impl Default for Style {
    fn default() -> (r: Self)
        ensures
            r == (Style { underline: false, bold: false, fg: None, bg: None }),
    {
        Style { underline: false, bold: false, fg: None, bg: None }
    }
}

} // verus!

verus! {

/// Each color name names its own color, in upper or lower camel case:
/// `red` and `Red` red, `darkblue` and `DarkBlue` dark blue, and so on, with
/// grey and dark grey also spelt gray.
pub proof fn lemma_color_names()
    ensures
        color_named("Red"@) == Some(Color::Red),
        color_named("red"@) == Some(Color::Red),
        color_named("Yellow"@) == Some(Color::Yellow),
        color_named("yellow"@) == Some(Color::Yellow),
        color_named("Green"@) == Some(Color::Green),
        color_named("green"@) == Some(Color::Green),
        color_named("Cyan"@) == Some(Color::Cyan),
        color_named("cyan"@) == Some(Color::Cyan),
        color_named("Blue"@) == Some(Color::Blue),
        color_named("blue"@) == Some(Color::Blue),
        color_named("Magenta"@) == Some(Color::Magenta),
        color_named("magenta"@) == Some(Color::Magenta),
        color_named("Black"@) == Some(Color::Black),
        color_named("black"@) == Some(Color::Black),
        color_named("White"@) == Some(Color::White),
        color_named("white"@) == Some(Color::White),
        color_named("Grey"@) == Some(Color::Grey),
        color_named("grey"@) == Some(Color::Grey),
        color_named("Gray"@) == Some(Color::Grey),
        color_named("gray"@) == Some(Color::Grey),
        color_named("DarkGrey"@) == Some(Color::DarkGrey),
        color_named("darkgrey"@) == Some(Color::DarkGrey),
        color_named("DarkGray"@) == Some(Color::DarkGrey),
        color_named("darkgray"@) == Some(Color::DarkGrey),
        color_named("DarkRed"@) == Some(Color::DarkRed),
        color_named("darkred"@) == Some(Color::DarkRed),
        color_named("DarkYellow"@) == Some(Color::DarkYellow),
        color_named("darkyellow"@) == Some(Color::DarkYellow),
        color_named("DarkGreen"@) == Some(Color::DarkGreen),
        color_named("darkgreen"@) == Some(Color::DarkGreen),
        color_named("DarkCyan"@) == Some(Color::DarkCyan),
        color_named("darkcyan"@) == Some(Color::DarkCyan),
        color_named("DarkBlue"@) == Some(Color::DarkBlue),
        color_named("darkblue"@) == Some(Color::DarkBlue),
        color_named("DarkMagenta"@) == Some(Color::DarkMagenta),
        color_named("darkmagenta"@) == Some(Color::DarkMagenta),
{
    reveal_strlit("Red");
    reveal_strlit("red");
    reveal_strlit("Yellow");
    reveal_strlit("yellow");
    reveal_strlit("Green");
    reveal_strlit("green");
    reveal_strlit("Cyan");
    reveal_strlit("cyan");
    reveal_strlit("Blue");
    reveal_strlit("blue");
    reveal_strlit("Magenta");
    reveal_strlit("magenta");
    reveal_strlit("Black");
    reveal_strlit("black");
    reveal_strlit("White");
    reveal_strlit("white");
    reveal_strlit("Grey");
    reveal_strlit("grey");
    reveal_strlit("Gray");
    reveal_strlit("gray");
    reveal_strlit("DarkGrey");
    reveal_strlit("darkgrey");
    reveal_strlit("DarkGray");
    reveal_strlit("darkgray");
    reveal_strlit("DarkRed");
    reveal_strlit("darkred");
    reveal_strlit("DarkYellow");
    reveal_strlit("darkyellow");
    reveal_strlit("DarkGreen");
    reveal_strlit("darkgreen");
    reveal_strlit("DarkCyan");
    reveal_strlit("darkcyan");
    reveal_strlit("DarkBlue");
    reveal_strlit("darkblue");
    reveal_strlit("DarkMagenta");
    reveal_strlit("darkmagenta");
    assert("Red"@.len() == 3 && "Red"@[0] == 'R' && "Red"@[1] == 'e' && "Red"@[2] == 'd');
    assert("red"@.len() == 3 && "red"@[0] == 'r' && "red"@[1] == 'e' && "red"@[2] == 'd');
    assert("Yellow"@.len() == 6 && "Yellow"@[0] == 'Y' && "Yellow"@[1] == 'e' && "Yellow"@[2] == 'l' && "Yellow"@[3] == 'l' && "Yellow"@[4] == 'o' && "Yellow"@[5] == 'w');
    assert("yellow"@.len() == 6 && "yellow"@[0] == 'y' && "yellow"@[1] == 'e' && "yellow"@[2] == 'l' && "yellow"@[3] == 'l' && "yellow"@[4] == 'o' && "yellow"@[5] == 'w');
    assert("Green"@.len() == 5 && "Green"@[0] == 'G' && "Green"@[1] == 'r' && "Green"@[2] == 'e' && "Green"@[3] == 'e' && "Green"@[4] == 'n');
    assert("green"@.len() == 5 && "green"@[0] == 'g' && "green"@[1] == 'r' && "green"@[2] == 'e' && "green"@[3] == 'e' && "green"@[4] == 'n');
    assert("Cyan"@.len() == 4 && "Cyan"@[0] == 'C' && "Cyan"@[1] == 'y' && "Cyan"@[2] == 'a' && "Cyan"@[3] == 'n');
    assert("cyan"@.len() == 4 && "cyan"@[0] == 'c' && "cyan"@[1] == 'y' && "cyan"@[2] == 'a' && "cyan"@[3] == 'n');
    assert("Blue"@.len() == 4 && "Blue"@[0] == 'B' && "Blue"@[1] == 'l' && "Blue"@[2] == 'u' && "Blue"@[3] == 'e');
    assert("blue"@.len() == 4 && "blue"@[0] == 'b' && "blue"@[1] == 'l' && "blue"@[2] == 'u' && "blue"@[3] == 'e');
    assert("Magenta"@.len() == 7 && "Magenta"@[0] == 'M' && "Magenta"@[1] == 'a' && "Magenta"@[2] == 'g' && "Magenta"@[3] == 'e' && "Magenta"@[4] == 'n' && "Magenta"@[5] == 't' && "Magenta"@[6] == 'a');
    assert("magenta"@.len() == 7 && "magenta"@[0] == 'm' && "magenta"@[1] == 'a' && "magenta"@[2] == 'g' && "magenta"@[3] == 'e' && "magenta"@[4] == 'n' && "magenta"@[5] == 't' && "magenta"@[6] == 'a');
    assert("Black"@.len() == 5 && "Black"@[0] == 'B' && "Black"@[1] == 'l' && "Black"@[2] == 'a' && "Black"@[3] == 'c' && "Black"@[4] == 'k');
    assert("black"@.len() == 5 && "black"@[0] == 'b' && "black"@[1] == 'l' && "black"@[2] == 'a' && "black"@[3] == 'c' && "black"@[4] == 'k');
    assert("White"@.len() == 5 && "White"@[0] == 'W' && "White"@[1] == 'h' && "White"@[2] == 'i' && "White"@[3] == 't' && "White"@[4] == 'e');
    assert("white"@.len() == 5 && "white"@[0] == 'w' && "white"@[1] == 'h' && "white"@[2] == 'i' && "white"@[3] == 't' && "white"@[4] == 'e');
    assert("Grey"@.len() == 4 && "Grey"@[0] == 'G' && "Grey"@[1] == 'r' && "Grey"@[2] == 'e' && "Grey"@[3] == 'y');
    assert("grey"@.len() == 4 && "grey"@[0] == 'g' && "grey"@[1] == 'r' && "grey"@[2] == 'e' && "grey"@[3] == 'y');
    assert("Gray"@.len() == 4 && "Gray"@[0] == 'G' && "Gray"@[1] == 'r' && "Gray"@[2] == 'a' && "Gray"@[3] == 'y');
    assert("gray"@.len() == 4 && "gray"@[0] == 'g' && "gray"@[1] == 'r' && "gray"@[2] == 'a' && "gray"@[3] == 'y');
    assert("DarkGrey"@.len() == 8 && "DarkGrey"@[0] == 'D' && "DarkGrey"@[1] == 'a' && "DarkGrey"@[2] == 'r' && "DarkGrey"@[3] == 'k' && "DarkGrey"@[4] == 'G' && "DarkGrey"@[5] == 'r' && "DarkGrey"@[6] == 'e' && "DarkGrey"@[7] == 'y');
    assert("darkgrey"@.len() == 8 && "darkgrey"@[0] == 'd' && "darkgrey"@[1] == 'a' && "darkgrey"@[2] == 'r' && "darkgrey"@[3] == 'k' && "darkgrey"@[4] == 'g' && "darkgrey"@[5] == 'r' && "darkgrey"@[6] == 'e' && "darkgrey"@[7] == 'y');
    assert("DarkGray"@.len() == 8 && "DarkGray"@[0] == 'D' && "DarkGray"@[1] == 'a' && "DarkGray"@[2] == 'r' && "DarkGray"@[3] == 'k' && "DarkGray"@[4] == 'G' && "DarkGray"@[5] == 'r' && "DarkGray"@[6] == 'a' && "DarkGray"@[7] == 'y');
    assert("darkgray"@.len() == 8 && "darkgray"@[0] == 'd' && "darkgray"@[1] == 'a' && "darkgray"@[2] == 'r' && "darkgray"@[3] == 'k' && "darkgray"@[4] == 'g' && "darkgray"@[5] == 'r' && "darkgray"@[6] == 'a' && "darkgray"@[7] == 'y');
    assert("DarkRed"@.len() == 7 && "DarkRed"@[0] == 'D' && "DarkRed"@[1] == 'a' && "DarkRed"@[2] == 'r' && "DarkRed"@[3] == 'k' && "DarkRed"@[4] == 'R' && "DarkRed"@[5] == 'e' && "DarkRed"@[6] == 'd');
    assert("darkred"@.len() == 7 && "darkred"@[0] == 'd' && "darkred"@[1] == 'a' && "darkred"@[2] == 'r' && "darkred"@[3] == 'k' && "darkred"@[4] == 'r' && "darkred"@[5] == 'e' && "darkred"@[6] == 'd');
    assert("DarkYellow"@.len() == 10 && "DarkYellow"@[0] == 'D' && "DarkYellow"@[1] == 'a' && "DarkYellow"@[2] == 'r' && "DarkYellow"@[3] == 'k' && "DarkYellow"@[4] == 'Y' && "DarkYellow"@[5] == 'e' && "DarkYellow"@[6] == 'l' && "DarkYellow"@[7] == 'l' && "DarkYellow"@[8] == 'o' && "DarkYellow"@[9] == 'w');
    assert("darkyellow"@.len() == 10 && "darkyellow"@[0] == 'd' && "darkyellow"@[1] == 'a' && "darkyellow"@[2] == 'r' && "darkyellow"@[3] == 'k' && "darkyellow"@[4] == 'y' && "darkyellow"@[5] == 'e' && "darkyellow"@[6] == 'l' && "darkyellow"@[7] == 'l' && "darkyellow"@[8] == 'o' && "darkyellow"@[9] == 'w');
    assert("DarkGreen"@.len() == 9 && "DarkGreen"@[0] == 'D' && "DarkGreen"@[1] == 'a' && "DarkGreen"@[2] == 'r' && "DarkGreen"@[3] == 'k' && "DarkGreen"@[4] == 'G' && "DarkGreen"@[5] == 'r' && "DarkGreen"@[6] == 'e' && "DarkGreen"@[7] == 'e' && "DarkGreen"@[8] == 'n');
    assert("darkgreen"@.len() == 9 && "darkgreen"@[0] == 'd' && "darkgreen"@[1] == 'a' && "darkgreen"@[2] == 'r' && "darkgreen"@[3] == 'k' && "darkgreen"@[4] == 'g' && "darkgreen"@[5] == 'r' && "darkgreen"@[6] == 'e' && "darkgreen"@[7] == 'e' && "darkgreen"@[8] == 'n');
    assert("DarkCyan"@.len() == 8 && "DarkCyan"@[0] == 'D' && "DarkCyan"@[1] == 'a' && "DarkCyan"@[2] == 'r' && "DarkCyan"@[3] == 'k' && "DarkCyan"@[4] == 'C' && "DarkCyan"@[5] == 'y' && "DarkCyan"@[6] == 'a' && "DarkCyan"@[7] == 'n');
    assert("darkcyan"@.len() == 8 && "darkcyan"@[0] == 'd' && "darkcyan"@[1] == 'a' && "darkcyan"@[2] == 'r' && "darkcyan"@[3] == 'k' && "darkcyan"@[4] == 'c' && "darkcyan"@[5] == 'y' && "darkcyan"@[6] == 'a' && "darkcyan"@[7] == 'n');
    assert("DarkBlue"@.len() == 8 && "DarkBlue"@[0] == 'D' && "DarkBlue"@[1] == 'a' && "DarkBlue"@[2] == 'r' && "DarkBlue"@[3] == 'k' && "DarkBlue"@[4] == 'B' && "DarkBlue"@[5] == 'l' && "DarkBlue"@[6] == 'u' && "DarkBlue"@[7] == 'e');
    assert("darkblue"@.len() == 8 && "darkblue"@[0] == 'd' && "darkblue"@[1] == 'a' && "darkblue"@[2] == 'r' && "darkblue"@[3] == 'k' && "darkblue"@[4] == 'b' && "darkblue"@[5] == 'l' && "darkblue"@[6] == 'u' && "darkblue"@[7] == 'e');
    assert("DarkMagenta"@.len() == 11 && "DarkMagenta"@[0] == 'D' && "DarkMagenta"@[1] == 'a' && "DarkMagenta"@[2] == 'r' && "DarkMagenta"@[3] == 'k' && "DarkMagenta"@[4] == 'M' && "DarkMagenta"@[5] == 'a' && "DarkMagenta"@[6] == 'g' && "DarkMagenta"@[7] == 'e' && "DarkMagenta"@[8] == 'n' && "DarkMagenta"@[9] == 't' && "DarkMagenta"@[10] == 'a');
    assert("darkmagenta"@.len() == 11 && "darkmagenta"@[0] == 'd' && "darkmagenta"@[1] == 'a' && "darkmagenta"@[2] == 'r' && "darkmagenta"@[3] == 'k' && "darkmagenta"@[4] == 'm' && "darkmagenta"@[5] == 'a' && "darkmagenta"@[6] == 'g' && "darkmagenta"@[7] == 'e' && "darkmagenta"@[8] == 'n' && "darkmagenta"@[9] == 't' && "darkmagenta"@[10] == 'a');
}

} // verus!
