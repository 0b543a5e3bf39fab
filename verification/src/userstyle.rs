//! The style configuration: a palette of named colors, the borders, margins
//! and text styles of the browser and its dialogs.
use vstd::prelude::*;
use crate::value::ConfigValue;
use crate::color::{Color, ColorError, Style, spec_hex_color, hex_color_at};
use crate::config::{
    Blank, ConfigError, FieldName, Field, ParseProblem, TableKind, UserAssign, ValueErr, from_table,
    spec_update, within, wrap_within,
};
use crate::chars::{str_eq, chars_of};
use crate::frame::{Margins, BorderStyle, FrameParams};
use crate::gemini::{GemTag, GemText, TagView};
use crate::page::TextParams;
use crate::tab::TabText;
use crate::constants::{
    A_SQR, B_SQR, C_SQR, D_SQR, A_RND, B_RND, C_RND, D_RND, OPEN_TORT, CLOSE_TORT, OPEN_INT,
    CLOSE_INT, OPEN_SQR, CLOSE_SQR, OPEN_E, CLOSE_E,
};

verus! {

/// The fields of the style table.
#[derive(Clone, Copy, Debug, PartialEq, Eq, Structural)]
pub enum StyleConfigField {
    Palette,
    Border(BorderField),
    Margin(StyleMarginField),
    Text(StyleTextField),
}

/// The borders: the browser's and the dialogs'.
#[derive(Clone, Copy, Debug, PartialEq, Eq, Structural)]
pub enum BorderField {
    App,
    Dialog,
}

/// The margins of the browser and of the dialogs.
#[derive(Clone, Copy, Debug, PartialEq, Eq, Structural)]
pub enum StyleMarginField {
    Text,
    Screen,
    DialogText,
    DialogScreen,
}

/// The kinds of text that have a style of their own.
#[derive(Clone, Copy, Debug, PartialEq, Eq, Structural)]
pub enum StyleTextField {
    General,
    Banner,
    Footer,
    DialogBody,
    DialogHeading,
    Text,
    Heading3,
    Heading2,
    Heading1,
    Preformat,
    Link,
    Error,
    Quote,
    List,
}

/// The fields of a margin table.
#[derive(Clone, Copy, Debug, PartialEq, Eq, Structural)]
pub enum MarginParamsField {
    North,
    South,
    East,
    West,
}

/// The fields of a text style table.
#[derive(Clone, Copy, Debug, PartialEq, Eq, Structural)]
pub enum TextStyleParamsField {
    Wrap,
    Style(StyleField),
}

/// The fields of a border table.
#[derive(Clone, Copy, Debug, PartialEq, Eq, Structural)]
pub enum BorderParamsField {
    Style(StyleField),
    Corner,
    Bracket,
}

/// The fields of a style: its colors and its attributes.
#[derive(Clone, Copy, Debug, PartialEq, Eq, Structural)]
pub enum StyleField {
    Color(ColorField),
    Attribute(AttributeField),
}

/// The colors of a style.
#[derive(Clone, Copy, Debug, PartialEq, Eq, Structural)]
pub enum ColorField {
    Fg,
    Bg,
}

/// The attributes of a style.
#[derive(Clone, Copy, Debug, PartialEq, Eq, Structural)]
pub enum AttributeField {
    Bold,
    Underline,
}

impl Field for StyleConfigField {
    open spec fn spec_parse(s: Seq<char>) -> Option<Self> {
        if s == "palette"@ {
            Some(StyleConfigField::Palette)
        } else if s == "border"@ {
            Some(StyleConfigField::Border(BorderField::App))
        } else if s == "dialog_border"@ {
            Some(StyleConfigField::Border(BorderField::Dialog))
        } else if s == "text_margin"@ {
            Some(StyleConfigField::Margin(StyleMarginField::Text))
        } else if s == "screen_margin"@ {
            Some(StyleConfigField::Margin(StyleMarginField::Screen))
        } else if s == "dialog_text_margin"@ {
            Some(StyleConfigField::Margin(StyleMarginField::DialogText))
        } else if s == "dialog_screen_margin"@ {
            Some(StyleConfigField::Margin(StyleMarginField::DialogScreen))
        } else if s == "general"@ {
            Some(StyleConfigField::Text(StyleTextField::General))
        } else if s == "banner"@ {
            Some(StyleConfigField::Text(StyleTextField::Banner))
        } else if s == "footer"@ {
            Some(StyleConfigField::Text(StyleTextField::Footer))
        } else if s == "dialog_body"@ {
            Some(StyleConfigField::Text(StyleTextField::DialogBody))
        } else if s == "dialog_heading"@ {
            Some(StyleConfigField::Text(StyleTextField::DialogHeading))
        } else if s == "text"@ {
            Some(StyleConfigField::Text(StyleTextField::Text))
        } else if s == "heading3"@ || s == "h3"@ {
            Some(StyleConfigField::Text(StyleTextField::Heading3))
        } else if s == "heading2"@ || s == "h2"@ {
            Some(StyleConfigField::Text(StyleTextField::Heading2))
        } else if s == "heading1"@ || s == "h1"@ {
            Some(StyleConfigField::Text(StyleTextField::Heading1))
        } else if s == "preformat"@ {
            Some(StyleConfigField::Text(StyleTextField::Preformat))
        } else if s == "link"@ {
            Some(StyleConfigField::Text(StyleTextField::Link))
        } else if s == "error"@ {
            Some(StyleConfigField::Text(StyleTextField::Error))
        } else if s == "quote"@ {
            Some(StyleConfigField::Text(StyleTextField::Quote))
        } else if s == "list"@ {
            Some(StyleConfigField::Text(StyleTextField::List))
        } else {
            None
        }
    }

    open spec fn spec_table() -> TableKind {
        TableKind::Style
    }

    open spec fn spec_name(self) -> FieldName {
        FieldName::StyleConfig(self)
    }

    fn parse(s: &str) -> (r: Option<Self>) {
        if str_eq(s, "palette") {
            Some(StyleConfigField::Palette)
        } else if str_eq(s, "border") {
            Some(StyleConfigField::Border(BorderField::App))
        } else if str_eq(s, "dialog_border") {
            Some(StyleConfigField::Border(BorderField::Dialog))
        } else if str_eq(s, "text_margin") {
            Some(StyleConfigField::Margin(StyleMarginField::Text))
        } else if str_eq(s, "screen_margin") {
            Some(StyleConfigField::Margin(StyleMarginField::Screen))
        } else if str_eq(s, "dialog_text_margin") {
            Some(StyleConfigField::Margin(StyleMarginField::DialogText))
        } else if str_eq(s, "dialog_screen_margin") {
            Some(StyleConfigField::Margin(StyleMarginField::DialogScreen))
        } else if str_eq(s, "general") {
            Some(StyleConfigField::Text(StyleTextField::General))
        } else if str_eq(s, "banner") {
            Some(StyleConfigField::Text(StyleTextField::Banner))
        } else if str_eq(s, "footer") {
            Some(StyleConfigField::Text(StyleTextField::Footer))
        } else if str_eq(s, "dialog_body") {
            Some(StyleConfigField::Text(StyleTextField::DialogBody))
        } else if str_eq(s, "dialog_heading") {
            Some(StyleConfigField::Text(StyleTextField::DialogHeading))
        } else if str_eq(s, "text") {
            Some(StyleConfigField::Text(StyleTextField::Text))
        } else if str_eq(s, "heading3") || str_eq(s, "h3") {
            Some(StyleConfigField::Text(StyleTextField::Heading3))
        } else if str_eq(s, "heading2") || str_eq(s, "h2") {
            Some(StyleConfigField::Text(StyleTextField::Heading2))
        } else if str_eq(s, "heading1") || str_eq(s, "h1") {
            Some(StyleConfigField::Text(StyleTextField::Heading1))
        } else if str_eq(s, "preformat") {
            Some(StyleConfigField::Text(StyleTextField::Preformat))
        } else if str_eq(s, "link") {
            Some(StyleConfigField::Text(StyleTextField::Link))
        } else if str_eq(s, "error") {
            Some(StyleConfigField::Text(StyleTextField::Error))
        } else if str_eq(s, "quote") {
            Some(StyleConfigField::Text(StyleTextField::Quote))
        } else if str_eq(s, "list") {
            Some(StyleConfigField::Text(StyleTextField::List))
        } else {
            None
        }
    }

    fn table() -> (r: TableKind) {
        TableKind::Style
    }

    fn name(&self) -> (r: FieldName) {
        FieldName::StyleConfig(*self)
    }
}

impl Field for MarginParamsField {
    open spec fn spec_parse(s: Seq<char>) -> Option<Self> {
        if s == "north"@ || s == "n"@ {
            Some(MarginParamsField::North)
        } else if s == "south"@ || s == "s"@ {
            Some(MarginParamsField::South)
        } else if s == "east"@ || s == "e"@ {
            Some(MarginParamsField::East)
        } else if s == "west"@ || s == "w"@ {
            Some(MarginParamsField::West)
        } else {
            None
        }
    }

    open spec fn spec_table() -> TableKind {
        TableKind::Margin
    }

    open spec fn spec_name(self) -> FieldName {
        FieldName::Margin(self)
    }

    fn parse(s: &str) -> (r: Option<Self>) {
        if str_eq(s, "north") || str_eq(s, "n") {
            Some(MarginParamsField::North)
        } else if str_eq(s, "south") || str_eq(s, "s") {
            Some(MarginParamsField::South)
        } else if str_eq(s, "east") || str_eq(s, "e") {
            Some(MarginParamsField::East)
        } else if str_eq(s, "west") || str_eq(s, "w") {
            Some(MarginParamsField::West)
        } else {
            None
        }
    }

    fn table() -> (r: TableKind) {
        TableKind::Margin
    }

    fn name(&self) -> (r: FieldName) {
        FieldName::Margin(*self)
    }
}

impl Field for StyleField {
    open spec fn spec_parse(s: Seq<char>) -> Option<Self> {
        if s == "fg"@ {
            Some(StyleField::Color(ColorField::Fg))
        } else if s == "bg"@ {
            Some(StyleField::Color(ColorField::Bg))
        } else if s == "bold"@ {
            Some(StyleField::Attribute(AttributeField::Bold))
        } else if s == "underline"@ {
            Some(StyleField::Attribute(AttributeField::Underline))
        } else {
            None
        }
    }

    open spec fn spec_table() -> TableKind {
        TableKind::Style
    }

    open spec fn spec_name(self) -> FieldName {
        FieldName::Style(self)
    }

    fn parse(s: &str) -> (r: Option<Self>) {
        if str_eq(s, "fg") {
            Some(StyleField::Color(ColorField::Fg))
        } else if str_eq(s, "bg") {
            Some(StyleField::Color(ColorField::Bg))
        } else if str_eq(s, "bold") {
            Some(StyleField::Attribute(AttributeField::Bold))
        } else if str_eq(s, "underline") {
            Some(StyleField::Attribute(AttributeField::Underline))
        } else {
            None
        }
    }

    fn table() -> (r: TableKind) {
        TableKind::Style
    }

    fn name(&self) -> (r: FieldName) {
        FieldName::Style(*self)
    }
}

impl Field for TextStyleParamsField {
    open spec fn spec_parse(s: Seq<char>) -> Option<Self> {
        if s == "wrap"@ {
            Some(TextStyleParamsField::Wrap)
        } else {
            match StyleField::spec_parse(s) {
                Some(f) => Some(TextStyleParamsField::Style(f)),
                None => None,
            }
        }
    }

    open spec fn spec_table() -> TableKind {
        TableKind::Style
    }

    open spec fn spec_name(self) -> FieldName {
        FieldName::Text(self)
    }

    fn parse(s: &str) -> (r: Option<Self>) {
        if str_eq(s, "wrap") {
            Some(TextStyleParamsField::Wrap)
        } else {
            match StyleField::parse(s) {
                Some(f) => Some(TextStyleParamsField::Style(f)),
                None => None,
            }
        }
    }

    fn table() -> (r: TableKind) {
        TableKind::Style
    }

    fn name(&self) -> (r: FieldName) {
        FieldName::Text(*self)
    }
}

impl Field for BorderParamsField {
    open spec fn spec_parse(s: Seq<char>) -> Option<Self> {
        if s == "corner"@ {
            Some(BorderParamsField::Corner)
        } else if s == "bracket"@ {
            Some(BorderParamsField::Bracket)
        } else {
            match StyleField::spec_parse(s) {
                Some(f) => Some(BorderParamsField::Style(f)),
                None => None,
            }
        }
    }

    open spec fn spec_table() -> TableKind {
        TableKind::Style
    }

    open spec fn spec_name(self) -> FieldName {
        FieldName::Border(self)
    }

    fn parse(s: &str) -> (r: Option<Self>) {
        if str_eq(s, "corner") {
            Some(BorderParamsField::Corner)
        } else if str_eq(s, "bracket") {
            Some(BorderParamsField::Bracket)
        } else {
            match StyleField::parse(s) {
                Some(f) => Some(BorderParamsField::Style(f)),
                None => None,
            }
        }
    }

    fn table() -> (r: TableKind) {
        TableKind::Style
    }

    fn name(&self) -> (r: FieldName) {
        FieldName::Border(*self)
    }
}

/// The named colors of a style table, where it has a palette.
pub type Palette = Option<Vec<(String, ConfigValue)>>;

/// The value of the first entry of `entries` whose key is `key`.
pub open spec fn lookup(entries: Seq<(String, ConfigValue)>, key: Seq<char>) -> Option<ConfigValue>
    decreases entries.len(),
{
    if entries.len() == 0 {
        None
    } else if entries[0].0@ == key {
        Some(entries[0].1)
    } else {
        lookup(entries.drop_first(), key)
    }
}

/// The value of the first entry of `entries` whose key is `key`.
pub fn get_entry<'a>(entries: &'a Vec<(String, ConfigValue)>, key: &str) -> (r: Option<&'a ConfigValue>)
    ensures
        match r {
            Some(v) => lookup(entries@, key@) == Some(*v),
            None => lookup(entries@, key@) is None,
        },
{
    let mut i: usize = 0;
    proof {
        assert(entries@.skip(0) =~= entries@);
    }
    while i < entries.len()
        invariant
            0 <= i <= entries.len(),
            lookup(entries@, key@) == lookup(entries@.skip(i as int), key@),
        decreases entries.len() - i,
    {
        proof {
            assert(entries@.skip(i as int).drop_first() =~= entries@.skip(i + 1));
        }
        if str_eq(entries[i].0.as_str(), key) {
            return Some(&entries[i].1);
        }
        i = i + 1;
    }
    None
}

/// The color that a configuration value gives, given the palette: a string
/// that the palette maps to a hex color `#rrggbb` takes that color; else a
/// string `#rrggbb` is read as one.
pub open spec fn spec_parse_color(value: ConfigValue, palette: Palette) -> Result<Color, ValueErr> {
    match value {
        ConfigValue::String(s) => {
            let named = match palette {
                Some(p) => lookup(p@, s@),
                None => None,
            };
            let digits = match named {
                Some(ConfigValue::String(p)) => if p@.len() > 0 && p@[0] == '#' { Some(p@.skip(1)) } else { None },
                _ => None,
            };
            if digits is Some {
                match spec_hex_color(digits->0) {
                    Ok(c) => Ok(c),
                    Err(e) => Err(ValueErr::InvalidParse(ParseProblem::Color(e))),
                }
            } else if s@.len() > 0 && s@[0] == '#' {
                match spec_hex_color(s@.skip(1)) {
                    Ok(c) => Ok(c),
                    Err(e) => Err(ValueErr::InvalidParse(ParseProblem::Color(e))),
                }
            } else {
                Err(ValueErr::InvalidParse(ParseProblem::NotInPalette(s)))
            }
        },
        v => Err(ValueErr::InvalidTomlType(v)),
    }
}

/// The color of the hex digits after a leading `#` of `s`, if `s` starts with one.
fn hex_after_hash(s: &str) -> (r: Option<Result<Color, ColorError>>)
    ensures
        (s@.len() > 0 && s@[0] == '#') ==> r == Some(spec_hex_color(s@.skip(1))),
        !(s@.len() > 0 && s@[0] == '#') ==> r is None,
{
    let cs = chars_of(s);
    if cs.len() > 0 && cs[0] == '#' {
        Some(hex_color_at(&cs, 1))
    } else {
        None
    }
}

/// The color that a configuration value gives, given the palette.
pub fn parse_color(value: ConfigValue, palette: &Palette) -> (r: Result<Color, ValueErr>)
    ensures
        r == spec_parse_color(value, *palette),
{
    match value {
        ConfigValue::String(s) => {
            let named = match palette {
                Some(p) => get_entry(p, s.as_str()),
                None => None,
            };
            let from_palette = match named {
                Some(ConfigValue::String(p)) => hex_after_hash(p.as_str()),
                _ => None,
            };
            match from_palette {
                Some(Ok(c)) => Ok(c),
                Some(Err(e)) => Err(ValueErr::InvalidParse(ParseProblem::Color(e))),
                None => match hex_after_hash(s.as_str()) {
                    Some(Ok(c)) => Ok(c),
                    Some(Err(e)) => Err(ValueErr::InvalidParse(ParseProblem::Color(e))),
                    None => Err(ValueErr::InvalidParse(ParseProblem::NotInPalette(s))),
                },
            }
        },
        v => Err(ValueErr::InvalidTomlType(v)),
    }
}

impl UserAssign<Palette> for Style {
    type Field = StyleField;

    open spec fn spec_assign(self, field: StyleField, value: ConfigValue, palette: Palette) -> (Self, Seq<ConfigError>) {
        match field {
            StyleField::Color(c) => match spec_parse_color(value, palette) {
                Ok(color) => match c {
                    ColorField::Fg => (Style { fg: Some(color), ..self }, seq![]),
                    ColorField::Bg => (Style { bg: Some(color), ..self }, seq![]),
                },
                Err(e) => (self, seq![ConfigError::Invalid(FieldName::Style(field), e)]),
            },
            StyleField::Attribute(a) => match value {
                ConfigValue::Boolean(b) => match a {
                    AttributeField::Bold => (Style { bold: b, ..self }, seq![]),
                    AttributeField::Underline => (Style { underline: b, ..self }, seq![]),
                },
                v => (self, seq![ConfigError::Invalid(FieldName::Style(field), ValueErr::InvalidTomlType(v))]),
            },
        }
    }

    open spec fn spec_load_context(self, entries: Seq<(String, ConfigValue)>) -> (Self, Seq<(String, ConfigValue)>) {
        (self, entries)
    }

    fn assign(&mut self, field: &StyleField, value: ConfigValue, palette: &Palette) -> (r: Vec<ConfigError>) {
        match *field {
            StyleField::Color(c) => match parse_color(value, palette) {
                Ok(color) => {
                    match c {
                        ColorField::Fg => self.fg = Some(color),
                        ColorField::Bg => self.bg = Some(color),
                    }
                    Vec::new()
                },
                Err(e) => vec![ConfigError::Invalid(FieldName::Style(*field), e)],
            },
            StyleField::Attribute(a) => match value {
                ConfigValue::Boolean(b) => {
                    match a {
                        AttributeField::Bold => self.bold = b,
                        AttributeField::Underline => self.underline = b,
                    }
                    Vec::new()
                },
                v => vec![ConfigError::Invalid(FieldName::Style(*field), ValueErr::InvalidTomlType(v))],
            },
        }
    }

    fn load_context(&mut self, entries: &mut Vec<(String, ConfigValue)>) {
    }
}

impl Blank for Style {
    open spec fn spec_initial() -> Self {
        Style { underline: false, bold: false, fg: None, bg: None }
    }

    fn initial() -> (r: Self) {
        Style::default()
    }

}

impl UserAssign<()> for Margins {
    type Field = MarginParamsField;

    open spec fn spec_assign(self, field: MarginParamsField, value: ConfigValue, ctx: ()) -> (Self, Seq<ConfigError>) {
        match value {
            ConfigValue::Integer(v) => if 0 <= v <= u16::MAX {
                match field {
                    MarginParamsField::North => (Margins { north: v as u16, ..self }, seq![]),
                    MarginParamsField::South => (Margins { south: v as u16, ..self }, seq![]),
                    MarginParamsField::East => (Margins { east: v as u16, ..self }, seq![]),
                    MarginParamsField::West => (Margins { west: v as u16, ..self }, seq![]),
                }
            } else {
                (self, seq![ConfigError::Invalid(FieldName::Margin(field), ValueErr::InvalidParse(ParseProblem::OutOfRange(v)))])
            },
            v => (self, seq![ConfigError::Invalid(FieldName::Margin(field), ValueErr::InvalidTomlType(v))]),
        }
    }

    open spec fn spec_load_context(self, entries: Seq<(String, ConfigValue)>) -> (Self, Seq<(String, ConfigValue)>) {
        (self, entries)
    }

    fn assign(&mut self, field: &MarginParamsField, value: ConfigValue, ctx: &()) -> (r: Vec<ConfigError>) {
        match value {
            ConfigValue::Integer(v) => if 0 <= v && v <= 0xffff {
                let m = v as u16;
                match *field {
                    MarginParamsField::North => self.north = m,
                    MarginParamsField::South => self.south = m,
                    MarginParamsField::East => self.east = m,
                    MarginParamsField::West => self.west = m,
                }
                Vec::new()
            } else {
                vec![ConfigError::Invalid(FieldName::Margin(*field), ValueErr::InvalidParse(ParseProblem::OutOfRange(v)))]
            },
            v => vec![ConfigError::Invalid(FieldName::Margin(*field), ValueErr::InvalidTomlType(v))],
        }
    }

    fn load_context(&mut self, entries: &mut Vec<(String, ConfigValue)>) {
    }
}

impl Blank for Margins {
    open spec fn spec_initial() -> Self {
        Margins { north: 0, south: 0, east: 0, west: 0 }
    }

    fn initial() -> (r: Self) {
        Margins::default()
    }

}

/// The shapes of a border's corners.
#[derive(Clone, Copy, Debug, PartialEq, Eq, Structural)]
pub enum CornerValue {
    Square,
    Round,
}

/// The brackets around a banner or footer.
#[derive(Clone, Copy, Debug, PartialEq, Eq, Structural)]
pub enum BracketValue {
    Space,
    Tortoise,
    E,
    Integral,
    Square,
}

/// The corner shape that a word names, if any.
pub open spec fn corner_named(s: Seq<char>) -> Option<CornerValue> {
    if s == "square"@ {
        Some(CornerValue::Square)
    } else if s == "round"@ {
        Some(CornerValue::Round)
    } else {
        None
    }
}

/// The brackets that a word names, if any.
pub open spec fn bracket_named(s: Seq<char>) -> Option<BracketValue> {
    if s == "space"@ {
        Some(BracketValue::Space)
    } else if s == "tortoise"@ || s == "tort"@ || s == "t"@ {
        Some(BracketValue::Tortoise)
    } else if s == "integral"@ || s == "int"@ || s == "i"@ || s == "j"@ || s == "J"@ {
        Some(BracketValue::Integral)
    } else if s == "square"@ || s == "sqr"@ {
        Some(BracketValue::Square)
    } else if s == "E"@ || s == "e"@ {
        Some(BracketValue::E)
    } else {
        None
    }
}

impl CornerValue {
    /// The corner shape that `s` names.
    pub fn parse(s: &str) -> (r: Option<CornerValue>)
        ensures
            r == corner_named(s@),
    {
        if str_eq(s, "square") {
            Some(CornerValue::Square)
        } else if str_eq(s, "round") {
            Some(CornerValue::Round)
        } else {
            None
        }
    }

    /// The north-west, north-east, south-west and south-east corners.
    pub open spec fn spec_corners(self) -> (char, char, char, char) {
        match self {
            CornerValue::Square => (A_SQR, B_SQR, C_SQR, D_SQR),
            CornerValue::Round => (A_RND, B_RND, C_RND, D_RND),
        }
    }

    pub fn corners(&self) -> (r: (char, char, char, char))
        ensures
            r == self.spec_corners(),
    {
        match self {
            CornerValue::Square => (A_SQR, B_SQR, C_SQR, D_SQR),
            CornerValue::Round => (A_RND, B_RND, C_RND, D_RND),
        }
    }
}

impl BracketValue {
    /// The brackets that `s` names.
    pub fn parse(s: &str) -> (r: Option<BracketValue>)
        ensures
            r == bracket_named(s@),
    {
        if str_eq(s, "space") {
            Some(BracketValue::Space)
        } else if str_eq(s, "tortoise") || str_eq(s, "tort") || str_eq(s, "t") {
            Some(BracketValue::Tortoise)
        } else if str_eq(s, "integral") || str_eq(s, "int") || str_eq(s, "i") || str_eq(s, "j")
            || str_eq(s, "J") {
            Some(BracketValue::Integral)
        } else if str_eq(s, "square") || str_eq(s, "sqr") {
            Some(BracketValue::Square)
        } else if str_eq(s, "E") || str_eq(s, "e") {
            Some(BracketValue::E)
        } else {
            None
        }
    }

    /// The open and the close bracket.
    pub open spec fn spec_brackets(self) -> (char, char) {
        match self {
            BracketValue::Space => (' ', ' '),
            BracketValue::Tortoise => (OPEN_TORT, CLOSE_TORT),
            BracketValue::Integral => (OPEN_INT, CLOSE_INT),
            BracketValue::Square => (OPEN_SQR, CLOSE_SQR),
            BracketValue::E => (OPEN_E, CLOSE_E),
        }
    }

    pub fn brackets(&self) -> (r: (char, char))
        ensures
            r == self.spec_brackets(),
    {
        match self {
            BracketValue::Space => (' ', ' '),
            BracketValue::Tortoise => (OPEN_TORT, CLOSE_TORT),
            BracketValue::Integral => (OPEN_INT, CLOSE_INT),
            BracketValue::Square => (OPEN_SQR, CLOSE_SQR),
            BracketValue::E => (OPEN_E, CLOSE_E),
        }
    }
}

impl UserAssign<Palette> for BorderStyle {
    type Field = BorderParamsField;

    open spec fn spec_assign(self, field: BorderParamsField, value: ConfigValue, palette: Palette) -> (Self, Seq<ConfigError>) {
        match field {
            BorderParamsField::Style(f) => {
                let (style, errs) = self.style.spec_assign(f, value, palette);
                (BorderStyle { style, ..self }, errs)
            },
            BorderParamsField::Corner => match value {
                ConfigValue::String(s) => match corner_named(s@) {
                    Some(v) => {
                        let (a, b, c, d) = v.spec_corners();
                        (BorderStyle { a, b, c, d, ..self }, seq![])
                    },
                    None => (self, seq![ConfigError::Invalid(FieldName::Border(field), ValueErr::InvalidParse(ParseProblem::Word(s)))]),
                },
                v => (self, seq![ConfigError::Invalid(FieldName::Border(field), ValueErr::InvalidTomlType(v))]),
            },
            BorderParamsField::Bracket => match value {
                ConfigValue::String(s) => match bracket_named(s@) {
                    Some(v) => {
                        let (open, close) = v.spec_brackets();
                        (BorderStyle { open, close, ..self }, seq![])
                    },
                    None => (self, seq![ConfigError::Invalid(FieldName::Border(field), ValueErr::InvalidParse(ParseProblem::Word(s)))]),
                },
                v => (self, seq![ConfigError::Invalid(FieldName::Border(field), ValueErr::InvalidTomlType(v))]),
            },
        }
    }

    open spec fn spec_load_context(self, entries: Seq<(String, ConfigValue)>) -> (Self, Seq<(String, ConfigValue)>) {
        (self, entries)
    }

    fn assign(&mut self, field: &BorderParamsField, value: ConfigValue, palette: &Palette) -> (r: Vec<ConfigError>) {
        match *field {
            BorderParamsField::Style(f) => self.style.assign(&f, value, palette),
            BorderParamsField::Corner => match value {
                ConfigValue::String(s) => match CornerValue::parse(s.as_str()) {
                    Some(v) => {
                        let (a, b, c, d) = v.corners();
                        self.a = a;
                        self.b = b;
                        self.c = c;
                        self.d = d;
                        Vec::new()
                    },
                    None => vec![ConfigError::Invalid(FieldName::Border(*field), ValueErr::InvalidParse(ParseProblem::Word(s)))],
                },
                v => vec![ConfigError::Invalid(FieldName::Border(*field), ValueErr::InvalidTomlType(v))],
            },
            BorderParamsField::Bracket => match value {
                ConfigValue::String(s) => match BracketValue::parse(s.as_str()) {
                    Some(v) => {
                        let (open, close) = v.brackets();
                        self.open = open;
                        self.close = close;
                        Vec::new()
                    },
                    None => vec![ConfigError::Invalid(FieldName::Border(*field), ValueErr::InvalidParse(ParseProblem::Word(s)))],
                },
                v => vec![ConfigError::Invalid(FieldName::Border(*field), ValueErr::InvalidTomlType(v))],
            },
        }
    }

    fn load_context(&mut self, entries: &mut Vec<(String, ConfigValue)>) {
    }
}

impl Blank for BorderStyle {
    open spec fn spec_initial() -> Self {
        BorderStyle {
            style: Style { underline: false, bold: false, fg: None, bg: None },
            x: crate::constants::X_LINE,
            y: crate::constants::Y_LINE,
            a: A_SQR,
            b: B_SQR,
            c: C_SQR,
            d: D_SQR,
            open: ' ',
            close: ' ',
        }
    }

    fn initial() -> (r: Self) {
        BorderStyle::default()
    }

}

impl UserAssign<Palette> for TextParams {
    type Field = TextStyleParamsField;

    open spec fn spec_assign(self, field: TextStyleParamsField, value: ConfigValue, palette: Palette) -> (Self, Seq<ConfigError>) {
        match field {
            TextStyleParamsField::Wrap => match value {
                ConfigValue::Boolean(b) => (TextParams { wrap: b, ..self }, seq![]),
                v => (self, seq![ConfigError::Invalid(FieldName::Text(field), ValueErr::InvalidTomlType(v))]),
            },
            TextStyleParamsField::Style(f) => {
                let (style, errs) = self.style.spec_assign(f, value, palette);
                (TextParams { style, ..self }, errs)
            },
        }
    }

    open spec fn spec_load_context(self, entries: Seq<(String, ConfigValue)>) -> (Self, Seq<(String, ConfigValue)>) {
        (self, entries)
    }

    fn assign(&mut self, field: &TextStyleParamsField, value: ConfigValue, palette: &Palette) -> (r: Vec<ConfigError>) {
        match *field {
            TextStyleParamsField::Wrap => match value {
                ConfigValue::Boolean(b) => {
                    self.wrap = b;
                    Vec::new()
                },
                v => vec![ConfigError::Invalid(FieldName::Text(*field), ValueErr::InvalidTomlType(v))],
            },
            TextStyleParamsField::Style(f) => self.style.assign(&f, value, palette),
        }
    }

    fn load_context(&mut self, entries: &mut Vec<(String, ConfigValue)>) {
    }
}

impl Blank for TextParams {
    open spec fn spec_initial() -> Self {
        TextParams { style: Style { underline: false, bold: false, fg: None, bg: None }, wrap: true }
    }

    fn initial() -> (r: Self) {
        TextParams::default()
    }

}

/// The style settings.
#[derive(Debug)]
pub struct StyleConfig {
    pub palette: Palette,
    pub text_margin: Margins,
    pub screen_margin: Margins,
    pub border: Option<BorderStyle>,
    pub general: TextParams,
    pub banner: TextParams,
    pub footer: TextParams,
    pub dialog_body: TextParams,
    pub dialog_prompt: TextParams,
    pub dialog_border: BorderStyle,
    pub dialog_text_margin: Margins,
    pub dialog_screen_margin: Margins,
    pub text: TextParams,
    pub heading3: TextParams,
    pub heading2: TextParams,
    pub heading1: TextParams,
    pub preformat: TextParams,
    pub link: TextParams,
    pub error: TextParams,
    pub quote: TextParams,
    pub list: TextParams,
}

/// The index of the first entry of `entries` whose key is `key`.
pub open spec fn key_index(entries: Seq<(String, ConfigValue)>, key: Seq<char>) -> Option<int>
    decreases entries.len(),
{
    if entries.len() == 0 {
        None
    } else if entries[0].0@ == key {
        Some(0)
    } else {
        match key_index(entries.drop_first(), key) {
            Some(i) => Some(i + 1),
            None => None,
        }
    }
}

/// The index of the first entry whose key is `key`.
fn find_key(entries: &Vec<(String, ConfigValue)>, key: &str) -> (r: Option<usize>)
    ensures
        match r {
            Some(i) => key_index(entries@, key@) == Some(i as int) && i < entries.len(),
            None => key_index(entries@, key@) is None,
        },
{
    let mut i: usize = 0;
    proof {
        assert(entries@.skip(0) =~= entries@);
    }
    while i < entries.len()
        invariant
            0 <= i <= entries.len(),
            key_index(entries@, key@) == (match key_index(entries@.skip(i as int), key@) {
                Some(k) => Some(k + i),
                None => None,
            }),
        decreases entries.len() - i,
    {
        proof {
            assert(entries@.skip(i as int).drop_first() =~= entries@.skip(i + 1));
        }
        if str_eq(entries[i].0.as_str(), key) {
            return Some(i);
        }
        i = i + 1;
    }
    None
}

impl StyleConfig {
    /// The settings with the style of `text` replaced by `p`.
    pub open spec fn with_text(self, text: StyleTextField, p: TextParams) -> Self {
        match text {
            StyleTextField::General => StyleConfig { general: p, ..self },
            StyleTextField::Banner => StyleConfig { banner: p, ..self },
            StyleTextField::Footer => StyleConfig { footer: p, ..self },
            StyleTextField::DialogBody => StyleConfig { dialog_body: p, ..self },
            StyleTextField::DialogHeading => StyleConfig { dialog_prompt: p, ..self },
            StyleTextField::Text => StyleConfig { text: p, ..self },
            StyleTextField::Heading3 => StyleConfig { heading3: p, ..self },
            StyleTextField::Heading2 => StyleConfig { heading2: p, ..self },
            StyleTextField::Heading1 => StyleConfig { heading1: p, ..self },
            StyleTextField::Preformat => StyleConfig { preformat: p, ..self },
            StyleTextField::Link => StyleConfig { link: p, ..self },
            StyleTextField::Error => StyleConfig { error: p, ..self },
            StyleTextField::Quote => StyleConfig { quote: p, ..self },
            StyleTextField::List => StyleConfig { list: p, ..self },
        }
    }

    /// The settings with the margin `m` replaced by `v`.
    pub open spec fn with_margin(self, m: StyleMarginField, v: Margins) -> Self {
        match m {
            StyleMarginField::Text => StyleConfig { text_margin: v, ..self },
            StyleMarginField::Screen => StyleConfig { screen_margin: v, ..self },
            StyleMarginField::DialogText => StyleConfig { dialog_text_margin: v, ..self },
            StyleMarginField::DialogScreen => StyleConfig { dialog_screen_margin: v, ..self },
        }
    }

    fn set_text(&mut self, text: StyleTextField, p: TextParams)
        ensures
            *final(self) == old(self).with_text(text, p),
    {
        match text {
            StyleTextField::General => self.general = p,
            StyleTextField::Banner => self.banner = p,
            StyleTextField::Footer => self.footer = p,
            StyleTextField::DialogBody => self.dialog_body = p,
            StyleTextField::DialogHeading => self.dialog_prompt = p,
            StyleTextField::Text => self.text = p,
            StyleTextField::Heading3 => self.heading3 = p,
            StyleTextField::Heading2 => self.heading2 = p,
            StyleTextField::Heading1 => self.heading1 = p,
            StyleTextField::Preformat => self.preformat = p,
            StyleTextField::Link => self.link = p,
            StyleTextField::Error => self.error = p,
            StyleTextField::Quote => self.quote = p,
            StyleTextField::List => self.list = p,
        }
    }

    fn set_margin(&mut self, m: StyleMarginField, v: Margins)
        ensures
            *final(self) == old(self).with_margin(m, v),
    {
        match m {
            StyleMarginField::Text => self.text_margin = v,
            StyleMarginField::Screen => self.screen_margin = v,
            StyleMarginField::DialogText => self.dialog_text_margin = v,
            StyleMarginField::DialogScreen => self.dialog_screen_margin = v,
        }
    }
}

impl UserAssign<()> for StyleConfig {
    type Field = StyleConfigField;

    open spec fn spec_assign(self, field: StyleConfigField, value: ConfigValue, ctx: ()) -> (Self, Seq<ConfigError>) {
        let name = FieldName::StyleConfig(field);
        match (field, value) {
            (StyleConfigField::Border(b), ConfigValue::Table(t)) => {
                let (border, errs) = spec_update::<Palette, BorderStyle>(
                    <BorderStyle as Blank>::spec_initial(), t@, self.palette);
                match b {
                    BorderField::App => (StyleConfig { border: Some(border), ..self }, within(name, errs)),
                    BorderField::Dialog => (StyleConfig { dialog_border: border, ..self }, within(name, errs)),
                }
            },
            (StyleConfigField::Text(text), ConfigValue::Table(t)) => {
                let (p, errs) = spec_update::<Palette, TextParams>(
                    <TextParams as Blank>::spec_initial(), t@, self.palette);
                (self.with_text(text, p), within(name, errs))
            },
            (StyleConfigField::Margin(m), ConfigValue::Table(t)) => {
                let (v, errs) = spec_update::<(), Margins>(
                    <Margins as Blank>::spec_initial(), t@, ());
                (self.with_margin(m, v), within(name, errs))
            },
            (_, v) => (self, seq![ConfigError::Invalid(name, ValueErr::InvalidTomlType(v))]),
        }
    }

    /// The entry `palette` is taken out of the table before the fields are
    /// assigned; where it holds a table, that table becomes the palette.
    open spec fn spec_load_context(self, entries: Seq<(String, ConfigValue)>) -> (Self, Seq<(String, ConfigValue)>) {
        match key_index(entries, "palette"@) {
            Some(i) => match entries[i].1 {
                ConfigValue::Table(p) => (StyleConfig { palette: Some(p), ..self }, entries.remove(i)),
                _ => (self, entries.remove(i)),
            },
            None => (self, entries),
        }
    }

    fn assign(&mut self, field: &StyleConfigField, value: ConfigValue, ctx: &()) -> (r: Vec<ConfigError>) {
        let name = FieldName::StyleConfig(*field);
        match (*field, value) {
            (StyleConfigField::Border(b), ConfigValue::Table(t)) => {
                let (border, result) = from_table::<Palette, BorderStyle>(t, &self.palette);
                match b {
                    BorderField::App => self.border = Some(border),
                    BorderField::Dialog => self.dialog_border = border,
                }
                match result {
                    Ok(_) => Vec::new(),
                    Err(errs) => wrap_within(name, errs),
                }
            },
            (StyleConfigField::Text(text), ConfigValue::Table(t)) => {
                let (p, result) = from_table::<Palette, TextParams>(t, &self.palette);
                self.set_text(text, p);
                match result {
                    Ok(_) => Vec::new(),
                    Err(errs) => wrap_within(name, errs),
                }
            },
            (StyleConfigField::Margin(m), ConfigValue::Table(t)) => {
                let (v, result) = from_table::<(), Margins>(t, &());
                self.set_margin(m, v);
                match result {
                    Ok(_) => Vec::new(),
                    Err(errs) => wrap_within(name, errs),
                }
            },
            (_, v) => vec![ConfigError::Invalid(name, ValueErr::InvalidTomlType(v))],
        }
    }

    fn load_context(&mut self, entries: &mut Vec<(String, ConfigValue)>) {
        match find_key(entries, "palette") {
            Some(i) => {
                let (_, v) = entries.remove(i);
                match v {
                    ConfigValue::Table(p) => self.palette = Some(p),
                    _ => {},
                }
            },
            None => {},
        }
    }
}

impl Blank for StyleConfig {
    open spec fn spec_initial() -> Self {
        let t = TextParams { style: Style { underline: false, bold: false, fg: None, bg: None }, wrap: true };
        let m = Margins { north: 0, south: 0, east: 0, west: 0 };
        StyleConfig {
            palette: None,
            text_margin: m,
            screen_margin: m,
            border: None,
            general: t,
            banner: t,
            footer: t,
            dialog_body: t,
            dialog_prompt: t,
            dialog_border: <BorderStyle as Blank>::spec_initial(),
            dialog_text_margin: m,
            dialog_screen_margin: m,
            text: t,
            heading3: t,
            heading2: t,
            heading1: t,
            preformat: t,
            link: t,
            error: t,
            quote: t,
            list: t,
        }
    }

    fn initial() -> (r: Self) {
        let t = TextParams::default();
        let m = Margins::default();
        StyleConfig {
            palette: None,
            text_margin: m,
            screen_margin: m,
            border: None,
            general: t,
            banner: t,
            footer: t,
            dialog_body: t,
            dialog_prompt: t,
            dialog_border: BorderStyle::default(),
            dialog_text_margin: m,
            dialog_screen_margin: m,
            text: t,
            heading3: t,
            heading2: t,
            heading1: t,
            preformat: t,
            link: t,
            error: t,
            quote: t,
            list: t,
        }
    }

}

impl StyleConfig {
    /// The frame of the browser: its margins, banner, footer and margin
    /// styles, and its border if it has one.
    pub fn get_frame_params(&self) -> (r: FrameParams)
        ensures
            r == (FrameParams {
                screen_margin: self.screen_margin,
                text_margin: self.text_margin,
                banner: self.banner.style,
                footer: self.footer.style,
                margin: self.general.style,
                border: self.border,
            }),
    {
        FrameParams::init()
            .screen_margin(self.screen_margin)
            .text_margin(self.text_margin)
            .banner_style(self.banner.style)
            .footer_style(self.footer.style)
            .margin_style(self.general.style)
            .border_style(self.border)
    }

    /// The frame of a dialog: its margins, the body's style for its margin,
    /// and the dialog border.
    pub open spec fn spec_dialog_frame_params(self) -> FrameParams {
        FrameParams {
            screen_margin: self.dialog_screen_margin,
            text_margin: self.dialog_text_margin,
            margin: self.dialog_body.style,
            border: Some(self.dialog_border),
            ..FrameParams::spec_init()
        }
    }

    /// The frame of a dialog: its margins, the body's style for its margin,
    /// and the dialog border.
    pub fn get_dialog_frame_params(&self) -> (r: FrameParams)
        ensures
            r == self.spec_dialog_frame_params(),
    {
        FrameParams::init()
            .screen_margin(self.dialog_screen_margin)
            .text_margin(self.dialog_text_margin)
            .margin_style(self.dialog_body.style)
            .border_style(Some(self.dialog_border))
    }

    /// The style of a kind of Gemini line.
    pub open spec fn spec_tag_params(self, tag: TagView) -> TextParams {
        match tag {
            TagView::HeadingOne => self.heading1,
            TagView::HeadingTwo => self.heading2,
            TagView::HeadingThree => self.heading3,
            TagView::Text => self.text,
            TagView::PreFormat => self.preformat,
            TagView::Link(_) => self.link,
            TagView::ListItem => self.list,
            TagView::Quote => self.quote,
        }
    }

    pub fn get_gem_tag_params(&self, tag: &GemTag) -> (r: TextParams)
        ensures
            r == self.spec_tag_params(tag@),
    {
        match tag {
            GemTag::HeadingOne => self.heading1,
            GemTag::HeadingTwo => self.heading2,
            GemTag::HeadingThree => self.heading3,
            GemTag::Text => self.text,
            GemTag::PreFormat => self.preformat,
            GemTag::Link(_) => self.link,
            GemTag::ListItem => self.list,
            GemTag::Quote => self.quote,
        }
    }

    pub fn get_gem_text_params(&self, text: &GemText) -> (r: TextParams)
        ensures
            r == self.spec_tag_params(text.tag@),
    {
        self.get_gem_tag_params(&text.tag)
    }

    /// The text style of a line of a tab: that of its kind for a Gemini
    /// line, the default one for any other.
    pub open spec fn spec_tab_text_params(self, text: TabText) -> TextParams {
        match text {
            TabText::Gemini(g) => self.spec_tag_params(g.tag@),
            _ => TextParams { style: Style { underline: false, bold: false, fg: None, bg: None }, wrap: true },
        }
    }

    pub fn get_tab_text_params(&self, text: &TabText) -> (r: TextParams)
        ensures
            r == self.spec_tab_text_params(*text),
    {
        match text {
            TabText::Gemini(gemtext) => self.get_gem_text_params(gemtext),
            _ => TextParams::default(),
        }
    }
}

} // verus!

verus! {

/// Each key of the style file names its own field: `palette` the palette,
/// `border` and `dialog_border` the borders, the four margin keys their
/// margins, and each text kind's key (`quote`, `list`, `link`, `h1` or
/// `heading1`, ...) the text style of that kind.
pub proof fn lemma_style_field_names()
    ensures
        StyleConfigField::spec_parse("palette"@) == Some(StyleConfigField::Palette),
        StyleConfigField::spec_parse("border"@) == Some(StyleConfigField::Border(BorderField::App)),
        StyleConfigField::spec_parse("dialog_border"@) == Some(StyleConfigField::Border(BorderField::Dialog)),
        StyleConfigField::spec_parse("text_margin"@) == Some(StyleConfigField::Margin(StyleMarginField::Text)),
        StyleConfigField::spec_parse("screen_margin"@) == Some(StyleConfigField::Margin(StyleMarginField::Screen)),
        StyleConfigField::spec_parse("dialog_text_margin"@) == Some(StyleConfigField::Margin(StyleMarginField::DialogText)),
        StyleConfigField::spec_parse("dialog_screen_margin"@) == Some(StyleConfigField::Margin(StyleMarginField::DialogScreen)),
        StyleConfigField::spec_parse("general"@) == Some(StyleConfigField::Text(StyleTextField::General)),
        StyleConfigField::spec_parse("banner"@) == Some(StyleConfigField::Text(StyleTextField::Banner)),
        StyleConfigField::spec_parse("footer"@) == Some(StyleConfigField::Text(StyleTextField::Footer)),
        StyleConfigField::spec_parse("dialog_body"@) == Some(StyleConfigField::Text(StyleTextField::DialogBody)),
        StyleConfigField::spec_parse("dialog_heading"@) == Some(StyleConfigField::Text(StyleTextField::DialogHeading)),
        StyleConfigField::spec_parse("text"@) == Some(StyleConfigField::Text(StyleTextField::Text)),
        StyleConfigField::spec_parse("heading3"@) == Some(StyleConfigField::Text(StyleTextField::Heading3)),
        StyleConfigField::spec_parse("h3"@) == Some(StyleConfigField::Text(StyleTextField::Heading3)),
        StyleConfigField::spec_parse("heading2"@) == Some(StyleConfigField::Text(StyleTextField::Heading2)),
        StyleConfigField::spec_parse("h2"@) == Some(StyleConfigField::Text(StyleTextField::Heading2)),
        StyleConfigField::spec_parse("heading1"@) == Some(StyleConfigField::Text(StyleTextField::Heading1)),
        StyleConfigField::spec_parse("h1"@) == Some(StyleConfigField::Text(StyleTextField::Heading1)),
        StyleConfigField::spec_parse("preformat"@) == Some(StyleConfigField::Text(StyleTextField::Preformat)),
        StyleConfigField::spec_parse("link"@) == Some(StyleConfigField::Text(StyleTextField::Link)),
        StyleConfigField::spec_parse("error"@) == Some(StyleConfigField::Text(StyleTextField::Error)),
        StyleConfigField::spec_parse("quote"@) == Some(StyleConfigField::Text(StyleTextField::Quote)),
        StyleConfigField::spec_parse("list"@) == Some(StyleConfigField::Text(StyleTextField::List)),
{
    reveal_strlit("palette");
    reveal_strlit("border");
    reveal_strlit("dialog_border");
    reveal_strlit("text_margin");
    reveal_strlit("screen_margin");
    reveal_strlit("dialog_text_margin");
    reveal_strlit("dialog_screen_margin");
    reveal_strlit("general");
    reveal_strlit("banner");
    reveal_strlit("footer");
    reveal_strlit("dialog_body");
    reveal_strlit("dialog_heading");
    reveal_strlit("text");
    reveal_strlit("heading3");
    reveal_strlit("h3");
    reveal_strlit("heading2");
    reveal_strlit("h2");
    reveal_strlit("heading1");
    reveal_strlit("h1");
    reveal_strlit("preformat");
    reveal_strlit("link");
    reveal_strlit("error");
    reveal_strlit("quote");
    reveal_strlit("list");
    assert("palette"@.len() == 7 && "palette"@[0] == 'p' && "palette"@[1] == 'a' && "palette"@[2] == 'l' && "palette"@[3] == 'e' && "palette"@[4] == 't' && "palette"@[5] == 't' && "palette"@[6] == 'e');
    assert("border"@.len() == 6 && "border"@[0] == 'b' && "border"@[1] == 'o' && "border"@[2] == 'r' && "border"@[3] == 'd' && "border"@[4] == 'e' && "border"@[5] == 'r');
    assert("dialog_border"@.len() == 13 && "dialog_border"@[0] == 'd' && "dialog_border"@[1] == 'i' && "dialog_border"@[2] == 'a' && "dialog_border"@[3] == 'l' && "dialog_border"@[4] == 'o' && "dialog_border"@[5] == 'g' && "dialog_border"@[6] == '_' && "dialog_border"@[7] == 'b' && "dialog_border"@[8] == 'o' && "dialog_border"@[9] == 'r' && "dialog_border"@[10] == 'd' && "dialog_border"@[11] == 'e' && "dialog_border"@[12] == 'r');
    assert("text_margin"@.len() == 11 && "text_margin"@[0] == 't' && "text_margin"@[1] == 'e' && "text_margin"@[2] == 'x' && "text_margin"@[3] == 't' && "text_margin"@[4] == '_' && "text_margin"@[5] == 'm' && "text_margin"@[6] == 'a' && "text_margin"@[7] == 'r' && "text_margin"@[8] == 'g' && "text_margin"@[9] == 'i' && "text_margin"@[10] == 'n');
    assert("screen_margin"@.len() == 13 && "screen_margin"@[0] == 's' && "screen_margin"@[1] == 'c' && "screen_margin"@[2] == 'r' && "screen_margin"@[3] == 'e' && "screen_margin"@[4] == 'e' && "screen_margin"@[5] == 'n' && "screen_margin"@[6] == '_' && "screen_margin"@[7] == 'm' && "screen_margin"@[8] == 'a' && "screen_margin"@[9] == 'r' && "screen_margin"@[10] == 'g' && "screen_margin"@[11] == 'i' && "screen_margin"@[12] == 'n');
    assert("dialog_text_margin"@.len() == 18 && "dialog_text_margin"@[0] == 'd' && "dialog_text_margin"@[1] == 'i' && "dialog_text_margin"@[2] == 'a' && "dialog_text_margin"@[3] == 'l' && "dialog_text_margin"@[4] == 'o' && "dialog_text_margin"@[5] == 'g' && "dialog_text_margin"@[6] == '_' && "dialog_text_margin"@[7] == 't' && "dialog_text_margin"@[8] == 'e' && "dialog_text_margin"@[9] == 'x' && "dialog_text_margin"@[10] == 't' && "dialog_text_margin"@[11] == '_' && "dialog_text_margin"@[12] == 'm' && "dialog_text_margin"@[13] == 'a' && "dialog_text_margin"@[14] == 'r' && "dialog_text_margin"@[15] == 'g' && "dialog_text_margin"@[16] == 'i' && "dialog_text_margin"@[17] == 'n');
    assert("dialog_screen_margin"@.len() == 20 && "dialog_screen_margin"@[0] == 'd' && "dialog_screen_margin"@[1] == 'i' && "dialog_screen_margin"@[2] == 'a' && "dialog_screen_margin"@[3] == 'l' && "dialog_screen_margin"@[4] == 'o' && "dialog_screen_margin"@[5] == 'g' && "dialog_screen_margin"@[6] == '_' && "dialog_screen_margin"@[7] == 's' && "dialog_screen_margin"@[8] == 'c' && "dialog_screen_margin"@[9] == 'r' && "dialog_screen_margin"@[10] == 'e' && "dialog_screen_margin"@[11] == 'e' && "dialog_screen_margin"@[12] == 'n' && "dialog_screen_margin"@[13] == '_' && "dialog_screen_margin"@[14] == 'm' && "dialog_screen_margin"@[15] == 'a' && "dialog_screen_margin"@[16] == 'r' && "dialog_screen_margin"@[17] == 'g' && "dialog_screen_margin"@[18] == 'i' && "dialog_screen_margin"@[19] == 'n');
    assert("general"@.len() == 7 && "general"@[0] == 'g' && "general"@[1] == 'e' && "general"@[2] == 'n' && "general"@[3] == 'e' && "general"@[4] == 'r' && "general"@[5] == 'a' && "general"@[6] == 'l');
    assert("banner"@.len() == 6 && "banner"@[0] == 'b' && "banner"@[1] == 'a' && "banner"@[2] == 'n' && "banner"@[3] == 'n' && "banner"@[4] == 'e' && "banner"@[5] == 'r');
    assert("footer"@.len() == 6 && "footer"@[0] == 'f' && "footer"@[1] == 'o' && "footer"@[2] == 'o' && "footer"@[3] == 't' && "footer"@[4] == 'e' && "footer"@[5] == 'r');
    assert("dialog_body"@.len() == 11 && "dialog_body"@[0] == 'd' && "dialog_body"@[1] == 'i' && "dialog_body"@[2] == 'a' && "dialog_body"@[3] == 'l' && "dialog_body"@[4] == 'o' && "dialog_body"@[5] == 'g' && "dialog_body"@[6] == '_' && "dialog_body"@[7] == 'b' && "dialog_body"@[8] == 'o' && "dialog_body"@[9] == 'd' && "dialog_body"@[10] == 'y');
    assert("dialog_heading"@.len() == 14 && "dialog_heading"@[0] == 'd' && "dialog_heading"@[1] == 'i' && "dialog_heading"@[2] == 'a' && "dialog_heading"@[3] == 'l' && "dialog_heading"@[4] == 'o' && "dialog_heading"@[5] == 'g' && "dialog_heading"@[6] == '_' && "dialog_heading"@[7] == 'h' && "dialog_heading"@[8] == 'e' && "dialog_heading"@[9] == 'a' && "dialog_heading"@[10] == 'd' && "dialog_heading"@[11] == 'i' && "dialog_heading"@[12] == 'n' && "dialog_heading"@[13] == 'g');
    assert("text"@.len() == 4 && "text"@[0] == 't' && "text"@[1] == 'e' && "text"@[2] == 'x' && "text"@[3] == 't');
    assert("heading3"@.len() == 8 && "heading3"@[0] == 'h' && "heading3"@[1] == 'e' && "heading3"@[2] == 'a' && "heading3"@[3] == 'd' && "heading3"@[4] == 'i' && "heading3"@[5] == 'n' && "heading3"@[6] == 'g' && "heading3"@[7] == '3');
    assert("h3"@.len() == 2 && "h3"@[0] == 'h' && "h3"@[1] == '3');
    assert("heading2"@.len() == 8 && "heading2"@[0] == 'h' && "heading2"@[1] == 'e' && "heading2"@[2] == 'a' && "heading2"@[3] == 'd' && "heading2"@[4] == 'i' && "heading2"@[5] == 'n' && "heading2"@[6] == 'g' && "heading2"@[7] == '2');
    assert("h2"@.len() == 2 && "h2"@[0] == 'h' && "h2"@[1] == '2');
    assert("heading1"@.len() == 8 && "heading1"@[0] == 'h' && "heading1"@[1] == 'e' && "heading1"@[2] == 'a' && "heading1"@[3] == 'd' && "heading1"@[4] == 'i' && "heading1"@[5] == 'n' && "heading1"@[6] == 'g' && "heading1"@[7] == '1');
    assert("h1"@.len() == 2 && "h1"@[0] == 'h' && "h1"@[1] == '1');
    assert("preformat"@.len() == 9 && "preformat"@[0] == 'p' && "preformat"@[1] == 'r' && "preformat"@[2] == 'e' && "preformat"@[3] == 'f' && "preformat"@[4] == 'o' && "preformat"@[5] == 'r' && "preformat"@[6] == 'm' && "preformat"@[7] == 'a' && "preformat"@[8] == 't');
    assert("link"@.len() == 4 && "link"@[0] == 'l' && "link"@[1] == 'i' && "link"@[2] == 'n' && "link"@[3] == 'k');
    assert("error"@.len() == 5 && "error"@[0] == 'e' && "error"@[1] == 'r' && "error"@[2] == 'r' && "error"@[3] == 'o' && "error"@[4] == 'r');
    assert("quote"@.len() == 5 && "quote"@[0] == 'q' && "quote"@[1] == 'u' && "quote"@[2] == 'o' && "quote"@[3] == 't' && "quote"@[4] == 'e');
    assert("list"@.len() == 4 && "list"@[0] == 'l' && "list"@[1] == 'i' && "list"@[2] == 's' && "list"@[3] == 't');
}

/// Each key of a margin table names its own side: `north` or `n`, `south`
/// or `s`, `east` or `e`, `west` or `w`.
pub proof fn lemma_margin_field_names()
    ensures
        MarginParamsField::spec_parse("north"@) == Some(MarginParamsField::North),
        MarginParamsField::spec_parse("n"@) == Some(MarginParamsField::North),
        MarginParamsField::spec_parse("south"@) == Some(MarginParamsField::South),
        MarginParamsField::spec_parse("s"@) == Some(MarginParamsField::South),
        MarginParamsField::spec_parse("east"@) == Some(MarginParamsField::East),
        MarginParamsField::spec_parse("e"@) == Some(MarginParamsField::East),
        MarginParamsField::spec_parse("west"@) == Some(MarginParamsField::West),
        MarginParamsField::spec_parse("w"@) == Some(MarginParamsField::West),
{
    reveal_strlit("north");
    reveal_strlit("n");
    reveal_strlit("south");
    reveal_strlit("s");
    reveal_strlit("east");
    reveal_strlit("e");
    reveal_strlit("west");
    reveal_strlit("w");
    assert("north"@.len() == 5 && "north"@[0] == 'n' && "north"@[1] == 'o' && "north"@[2] == 'r' && "north"@[3] == 't' && "north"@[4] == 'h');
    assert("n"@.len() == 1 && "n"@[0] == 'n');
    assert("south"@.len() == 5 && "south"@[0] == 's' && "south"@[1] == 'o' && "south"@[2] == 'u' && "south"@[3] == 't' && "south"@[4] == 'h');
    assert("s"@.len() == 1 && "s"@[0] == 's');
    assert("east"@.len() == 4 && "east"@[0] == 'e' && "east"@[1] == 'a' && "east"@[2] == 's' && "east"@[3] == 't');
    assert("e"@.len() == 1 && "e"@[0] == 'e');
    assert("west"@.len() == 4 && "west"@[0] == 'w' && "west"@[1] == 'e' && "west"@[2] == 's' && "west"@[3] == 't');
    assert("w"@.len() == 1 && "w"@[0] == 'w');
}

/// Each key of a style names its own part: `fg` and `bg` the colors, `bold`
/// and `underline` the attributes.
pub proof fn lemma_style_attribute_names()
    ensures
        StyleField::spec_parse("fg"@) == Some(StyleField::Color(ColorField::Fg)),
        StyleField::spec_parse("bg"@) == Some(StyleField::Color(ColorField::Bg)),
        StyleField::spec_parse("bold"@) == Some(StyleField::Attribute(AttributeField::Bold)),
        StyleField::spec_parse("underline"@) == Some(StyleField::Attribute(AttributeField::Underline)),
{
    reveal_strlit("fg");
    reveal_strlit("bg");
    reveal_strlit("bold");
    reveal_strlit("underline");
    assert("fg"@.len() == 2 && "fg"@[0] == 'f' && "fg"@[1] == 'g');
    assert("bg"@.len() == 2 && "bg"@[0] == 'b' && "bg"@[1] == 'g');
    assert("bold"@.len() == 4 && "bold"@[0] == 'b' && "bold"@[1] == 'o' && "bold"@[2] == 'l' && "bold"@[3] == 'd');
    assert("underline"@.len() == 9 && "underline"@[0] == 'u' && "underline"@[1] == 'n' && "underline"@[2] == 'd' && "underline"@[3] == 'e' && "underline"@[4] == 'r' && "underline"@[5] == 'l' && "underline"@[6] == 'i' && "underline"@[7] == 'n' && "underline"@[8] == 'e');
}

/// Each key of a text style table names its own field: `wrap` the wrapping,
/// and the style's keys the style's parts.
pub proof fn lemma_text_style_field_names()
    ensures
        TextStyleParamsField::spec_parse("wrap"@) == Some(TextStyleParamsField::Wrap),
        TextStyleParamsField::spec_parse("fg"@) == Some(TextStyleParamsField::Style(StyleField::Color(ColorField::Fg))),
        TextStyleParamsField::spec_parse("bg"@) == Some(TextStyleParamsField::Style(StyleField::Color(ColorField::Bg))),
        TextStyleParamsField::spec_parse("bold"@) == Some(TextStyleParamsField::Style(StyleField::Attribute(AttributeField::Bold))),
        TextStyleParamsField::spec_parse("underline"@) == Some(TextStyleParamsField::Style(StyleField::Attribute(AttributeField::Underline))),
{
    reveal_strlit("wrap");
    reveal_strlit("fg");
    reveal_strlit("bg");
    reveal_strlit("bold");
    reveal_strlit("underline");
    assert("wrap"@.len() == 4 && "wrap"@[0] == 'w' && "wrap"@[1] == 'r' && "wrap"@[2] == 'a' && "wrap"@[3] == 'p');
    assert("fg"@.len() == 2 && "fg"@[0] == 'f' && "fg"@[1] == 'g');
    assert("bg"@.len() == 2 && "bg"@[0] == 'b' && "bg"@[1] == 'g');
    assert("bold"@.len() == 4 && "bold"@[0] == 'b' && "bold"@[1] == 'o' && "bold"@[2] == 'l' && "bold"@[3] == 'd');
    assert("underline"@.len() == 9 && "underline"@[0] == 'u' && "underline"@[1] == 'n' && "underline"@[2] == 'd' && "underline"@[3] == 'e' && "underline"@[4] == 'r' && "underline"@[5] == 'l' && "underline"@[6] == 'i' && "underline"@[7] == 'n' && "underline"@[8] == 'e');
}

/// Each key of a border table names its own field: `corner`, `bracket`, and
/// the style's keys the style's parts.
pub proof fn lemma_border_field_names()
    ensures
        BorderParamsField::spec_parse("corner"@) == Some(BorderParamsField::Corner),
        BorderParamsField::spec_parse("bracket"@) == Some(BorderParamsField::Bracket),
        BorderParamsField::spec_parse("fg"@) == Some(BorderParamsField::Style(StyleField::Color(ColorField::Fg))),
        BorderParamsField::spec_parse("bg"@) == Some(BorderParamsField::Style(StyleField::Color(ColorField::Bg))),
        BorderParamsField::spec_parse("bold"@) == Some(BorderParamsField::Style(StyleField::Attribute(AttributeField::Bold))),
        BorderParamsField::spec_parse("underline"@) == Some(BorderParamsField::Style(StyleField::Attribute(AttributeField::Underline))),
{
    reveal_strlit("corner");
    reveal_strlit("bracket");
    reveal_strlit("fg");
    reveal_strlit("bg");
    reveal_strlit("bold");
    reveal_strlit("underline");
    assert("corner"@.len() == 6 && "corner"@[0] == 'c' && "corner"@[1] == 'o' && "corner"@[2] == 'r' && "corner"@[3] == 'n' && "corner"@[4] == 'e' && "corner"@[5] == 'r');
    assert("bracket"@.len() == 7 && "bracket"@[0] == 'b' && "bracket"@[1] == 'r' && "bracket"@[2] == 'a' && "bracket"@[3] == 'c' && "bracket"@[4] == 'k' && "bracket"@[5] == 'e' && "bracket"@[6] == 't');
    assert("fg"@.len() == 2 && "fg"@[0] == 'f' && "fg"@[1] == 'g');
    assert("bg"@.len() == 2 && "bg"@[0] == 'b' && "bg"@[1] == 'g');
    assert("bold"@.len() == 4 && "bold"@[0] == 'b' && "bold"@[1] == 'o' && "bold"@[2] == 'l' && "bold"@[3] == 'd');
    assert("underline"@.len() == 9 && "underline"@[0] == 'u' && "underline"@[1] == 'n' && "underline"@[2] == 'd' && "underline"@[3] == 'e' && "underline"@[4] == 'r' && "underline"@[5] == 'l' && "underline"@[6] == 'i' && "underline"@[7] == 'n' && "underline"@[8] == 'e');
}

/// Each kind of Gemini line is shown in the text style of its own name:
/// headings in the heading styles of their level, text in `text`,
/// preformatted lines in `preformat`, links in `link`, list items in `list`
/// and quotes in `quote`.
pub proof fn lemma_tag_params_by_kind(s: StyleConfig, url: Seq<char>)
    ensures
        s.spec_tag_params(TagView::HeadingOne) == s.heading1,
        s.spec_tag_params(TagView::HeadingTwo) == s.heading2,
        s.spec_tag_params(TagView::HeadingThree) == s.heading3,
        s.spec_tag_params(TagView::Text) == s.text,
        s.spec_tag_params(TagView::PreFormat) == s.preformat,
        s.spec_tag_params(TagView::ListItem) == s.list,
        s.spec_tag_params(TagView::Quote) == s.quote,
        s.spec_tag_params(TagView::Link(url)) == s.link,
{
}

/// A text style or margin read from the style file goes to the field of its
/// own name, and every other field stays: the `quote` style replaces
/// `quote`, the dialog heading's replaces `dialog_prompt`, the screen
/// margin replaces `screen_margin`, and so on.
pub proof fn lemma_style_fields_placed(s: StyleConfig, p: TextParams, m: Margins)
    ensures
        s.with_text(StyleTextField::General, p) == (StyleConfig { general: p, ..s }),
        s.with_text(StyleTextField::Banner, p) == (StyleConfig { banner: p, ..s }),
        s.with_text(StyleTextField::Footer, p) == (StyleConfig { footer: p, ..s }),
        s.with_text(StyleTextField::DialogBody, p) == (StyleConfig { dialog_body: p, ..s }),
        s.with_text(StyleTextField::DialogHeading, p) == (StyleConfig { dialog_prompt: p, ..s }),
        s.with_text(StyleTextField::Text, p) == (StyleConfig { text: p, ..s }),
        s.with_text(StyleTextField::Heading3, p) == (StyleConfig { heading3: p, ..s }),
        s.with_text(StyleTextField::Heading2, p) == (StyleConfig { heading2: p, ..s }),
        s.with_text(StyleTextField::Heading1, p) == (StyleConfig { heading1: p, ..s }),
        s.with_text(StyleTextField::Preformat, p) == (StyleConfig { preformat: p, ..s }),
        s.with_text(StyleTextField::Link, p) == (StyleConfig { link: p, ..s }),
        s.with_text(StyleTextField::Error, p) == (StyleConfig { error: p, ..s }),
        s.with_text(StyleTextField::Quote, p) == (StyleConfig { quote: p, ..s }),
        s.with_text(StyleTextField::List, p) == (StyleConfig { list: p, ..s }),
        s.with_margin(StyleMarginField::Text, m) == (StyleConfig { text_margin: m, ..s }),
        s.with_margin(StyleMarginField::Screen, m) == (StyleConfig { screen_margin: m, ..s }),
        s.with_margin(StyleMarginField::DialogText, m) == (StyleConfig { dialog_text_margin: m, ..s }),
        s.with_margin(StyleMarginField::DialogScreen, m) == (StyleConfig { dialog_screen_margin: m, ..s }),
{
}

} // verus!

verus! {

/// Each corner and bracket word names its own shape: `square` and `round`
/// the corners; `space`, `tortoise` (`tort`, `t`), `integral` (`int`, `i`,
/// `j`, `J`), `square` (`sqr`) and `E` (`e`) the brackets.
pub proof fn lemma_border_words()
    ensures
        corner_named("square"@) == Some(CornerValue::Square),
        corner_named("round"@) == Some(CornerValue::Round),
        bracket_named("space"@) == Some(BracketValue::Space),
        bracket_named("tortoise"@) == Some(BracketValue::Tortoise),
        bracket_named("tort"@) == Some(BracketValue::Tortoise),
        bracket_named("t"@) == Some(BracketValue::Tortoise),
        bracket_named("integral"@) == Some(BracketValue::Integral),
        bracket_named("int"@) == Some(BracketValue::Integral),
        bracket_named("i"@) == Some(BracketValue::Integral),
        bracket_named("j"@) == Some(BracketValue::Integral),
        bracket_named("J"@) == Some(BracketValue::Integral),
        bracket_named("square"@) == Some(BracketValue::Square),
        bracket_named("sqr"@) == Some(BracketValue::Square),
        bracket_named("E"@) == Some(BracketValue::E),
        bracket_named("e"@) == Some(BracketValue::E),
{
    reveal_strlit("square");
    reveal_strlit("round");
    reveal_strlit("space");
    reveal_strlit("tortoise");
    reveal_strlit("tort");
    reveal_strlit("t");
    reveal_strlit("integral");
    reveal_strlit("int");
    reveal_strlit("i");
    reveal_strlit("j");
    reveal_strlit("J");
    reveal_strlit("sqr");
    reveal_strlit("E");
    reveal_strlit("e");
    assert("square"@.len() == 6 && "square"@[0] == 's' && "square"@[1] == 'q' && "square"@[2] == 'u' && "square"@[3] == 'a' && "square"@[4] == 'r' && "square"@[5] == 'e');
    assert("round"@.len() == 5 && "round"@[0] == 'r' && "round"@[1] == 'o' && "round"@[2] == 'u' && "round"@[3] == 'n' && "round"@[4] == 'd');
    assert("space"@.len() == 5 && "space"@[0] == 's' && "space"@[1] == 'p' && "space"@[2] == 'a' && "space"@[3] == 'c' && "space"@[4] == 'e');
    assert("tortoise"@.len() == 8 && "tortoise"@[0] == 't' && "tortoise"@[1] == 'o' && "tortoise"@[2] == 'r' && "tortoise"@[3] == 't' && "tortoise"@[4] == 'o' && "tortoise"@[5] == 'i' && "tortoise"@[6] == 's' && "tortoise"@[7] == 'e');
    assert("tort"@.len() == 4 && "tort"@[0] == 't' && "tort"@[1] == 'o' && "tort"@[2] == 'r' && "tort"@[3] == 't');
    assert("t"@.len() == 1 && "t"@[0] == 't');
    assert("integral"@.len() == 8 && "integral"@[0] == 'i' && "integral"@[1] == 'n' && "integral"@[2] == 't' && "integral"@[3] == 'e' && "integral"@[4] == 'g' && "integral"@[5] == 'r' && "integral"@[6] == 'a' && "integral"@[7] == 'l');
    assert("int"@.len() == 3 && "int"@[0] == 'i' && "int"@[1] == 'n' && "int"@[2] == 't');
    assert("i"@.len() == 1 && "i"@[0] == 'i');
    assert("j"@.len() == 1 && "j"@[0] == 'j');
    assert("J"@.len() == 1 && "J"@[0] == 'J');
    assert("sqr"@.len() == 3 && "sqr"@[0] == 's' && "sqr"@[1] == 'q' && "sqr"@[2] == 'r');
    assert("E"@.len() == 1 && "E"@[0] == 'E');
    assert("e"@.len() == 1 && "e"@[0] == 'e');
}

/// The characters each shape draws: square corners ┌ ┐ └ ┘, round corners
/// ╭ ╮ ╰ ╯, and the brackets blank, ⦗ ⦘, ⌠ ⌡, ⟦ ⟧ and ⁅ ⁆.
pub proof fn lemma_border_shapes()
    ensures
        CornerValue::Square.spec_corners() == ('\u{250C}', '\u{2510}', '\u{2514}', '\u{2518}'),
        CornerValue::Round.spec_corners() == ('\u{256D}', '\u{256E}', '\u{2570}', '\u{256F}'),
        BracketValue::Space.spec_brackets() == (' ', ' '),
        BracketValue::Tortoise.spec_brackets() == ('\u{2997}', '\u{2998}'),
        BracketValue::Integral.spec_brackets() == ('\u{2320}', '\u{2321}'),
        BracketValue::Square.spec_brackets() == ('\u{27E6}', '\u{27E7}'),
        BracketValue::E.spec_brackets() == ('\u{2045}', '\u{2046}'),
{
}

/// A style's key sets its own part: a color read for `fg` becomes the
/// foreground and for `bg` the background, a boolean for `bold` the
/// weight and for `underline` the underline; the rest stays.
pub proof fn lemma_style_parts_placed(s: Style, v: ConfigValue, palette: Palette, b: bool)
    ensures
        spec_parse_color(v, palette) matches Ok(c) ==> s.spec_assign(StyleField::Color(ColorField::Fg), v, palette).0 == (Style { fg: Some(c), ..s }),
        spec_parse_color(v, palette) matches Ok(c) ==> s.spec_assign(StyleField::Color(ColorField::Bg), v, palette).0 == (Style { bg: Some(c), ..s }),
        s.spec_assign(StyleField::Attribute(AttributeField::Bold), ConfigValue::Boolean(b), palette).0 == (Style { bold: b, ..s }),
        s.spec_assign(StyleField::Attribute(AttributeField::Underline), ConfigValue::Boolean(b), palette).0 == (Style { underline: b, ..s }),
{
}

/// A margin table's key sets its own side: a number from 0 to `u16::MAX`
/// read for `north` becomes the north margin, and likewise for the others;
/// the rest stays.
pub proof fn lemma_margin_sides_placed(m: Margins, v: i64)
    requires
        0 <= v <= u16::MAX,
    ensures
        m.spec_assign(MarginParamsField::North, ConfigValue::Integer(v), ()).0 == (Margins { north: v as u16, ..m }),
        m.spec_assign(MarginParamsField::South, ConfigValue::Integer(v), ()).0 == (Margins { south: v as u16, ..m }),
        m.spec_assign(MarginParamsField::East, ConfigValue::Integer(v), ()).0 == (Margins { east: v as u16, ..m }),
        m.spec_assign(MarginParamsField::West, ConfigValue::Integer(v), ()).0 == (Margins { west: v as u16, ..m }),
{
}

} // verus!

verus! {

/// A text style table's `wrap` sets the wrapping and its style keys set the
/// style, each leaving the other as it was; a border table's `corner` and
/// `bracket` words set the corner and bracket characters of the shape they
/// name, and its style keys set its style.
pub proof fn lemma_text_and_border_parts_placed(t: TextParams, b: BorderStyle, f: StyleField, v: ConfigValue, palette: Palette, w: bool, s: String)
    ensures
        t.spec_assign(TextStyleParamsField::Wrap, ConfigValue::Boolean(w), palette).0 == (TextParams { wrap: w, ..t }),
        t.spec_assign(TextStyleParamsField::Style(f), v, palette).0 == (TextParams { style: t.style.spec_assign(f, v, palette).0, ..t }),
        b.spec_assign(BorderParamsField::Style(f), v, palette).0 == (BorderStyle { style: b.style.spec_assign(f, v, palette).0, ..b }),
        corner_named(s@) matches Some(c) ==> b.spec_assign(BorderParamsField::Corner, ConfigValue::String(s), palette).0
            == (BorderStyle { a: c.spec_corners().0, b: c.spec_corners().1, c: c.spec_corners().2, d: c.spec_corners().3, ..b }),
        bracket_named(s@) matches Some(k) ==> b.spec_assign(BorderParamsField::Bracket, ConfigValue::String(s), palette).0
            == (BorderStyle { open: k.spec_brackets().0, close: k.spec_brackets().1, ..b }),
{
}

} // verus!
