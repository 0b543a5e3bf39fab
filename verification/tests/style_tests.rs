use gbrowse::value::ConfigValue;
use gbrowse::config::{from_table, update_from_table, Blank, ConfigError, ValueErr, ParseProblem, FieldName};
use gbrowse::userstyle::{StyleConfig, parse_color, get_entry};
use gbrowse::color::{Color, ColorError};
use gbrowse::constants::{A_RND, D_RND, A_SQR};
use gbrowse::frame::Margins;

fn s(t: &str) -> ConfigValue {
    ConfigValue::String(t.to_string())
}

fn table(entries: Vec<(&str, ConfigValue)>) -> ConfigValue {
    ConfigValue::Table(entries.into_iter().map(|(k, v)| (k.to_string(), v)).collect())
}

fn entries(v: Vec<(&str, ConfigValue)>) -> Vec<(String, ConfigValue)> {
    v.into_iter().map(|(k, v)| (k.to_string(), v)).collect()
}

fn example() -> Vec<(String, ConfigValue)> {
    entries(vec![
        ("palette", table(vec![
            ("black", s("#202225")),
            ("dgrey", s("#707880")),
            ("grey", s("#aaabb0")),
            ("white", s("#b8a098")),
            ("cyan", s("#709080")),
            ("magenta", s("#c494ac")),
            ("red", s("#e08c78")),
        ])),
        ("border", table(vec![("fg", s("dgrey")), ("bg", s("black")), ("corner", s("round")), ("bracket", s("space"))])),
        ("dialog_border", table(vec![("fg", s("grey")), ("bg", s("black")), ("corner", s("round")), ("bracket", s("space"))])),
        ("dialog_heading", table(vec![("fg", s("grey")), ("bg", s("black")), ("bold", ConfigValue::Boolean(true))])),
        ("dialog_body", table(vec![("fg", s("white")), ("bg", s("black"))])),
        ("general", table(vec![("fg", s("white")), ("bg", s("black"))])),
        ("preformat", table(vec![("fg", s("magenta")), ("wrap", ConfigValue::Boolean(false))])),
        ("link", table(vec![("fg", s("cyan"))])),
        ("h1", table(vec![("fg", s("red")), ("underline", ConfigValue::Boolean(true))])),
        ("text", table(vec![("wrap", ConfigValue::Boolean(true))])),
        ("screen_margin", table(vec![("n", ConfigValue::Integer(2)), ("s", ConfigValue::Integer(2)), ("e", ConfigValue::Integer(16)), ("w", ConfigValue::Integer(16))])),
        ("text_margin", table(vec![("n", ConfigValue::Integer(1)), ("s", ConfigValue::Integer(1)), ("e", ConfigValue::Integer(4)), ("w", ConfigValue::Integer(4))])),
    ])
}

#[test]
fn the_example_style_reads_without_problems() {
    let (style, r) = from_table::<(), StyleConfig>(example(), &());
    assert!(r.is_ok());
    let border = style.border.unwrap();
    assert_eq!(border.style.fg, Some(Color::Rgb { r: 0x70, g: 0x78, b: 0x80 }));
    assert_eq!(border.style.bg, Some(Color::Rgb { r: 0x20, g: 0x22, b: 0x25 }));
    assert_eq!(border.a, A_RND);
    assert_eq!(border.d, D_RND);
    assert_eq!(border.open, ' ');
    assert!(style.dialog_prompt.style.bold);
    assert!(!style.preformat.wrap);
    assert!(style.heading1.style.underline);
    assert_eq!(style.link.style.fg, Some(Color::Rgb { r: 0x70, g: 0x90, b: 0x80 }));
    assert_eq!(style.screen_margin, Margins { north: 2, south: 2, east: 16, west: 16 });
    assert_eq!(style.text_margin, Margins { north: 1, south: 1, east: 4, west: 4 });
    let f = style.get_frame_params();
    assert_eq!(f.border, style.border);
    assert_eq!(f.margin, style.general.style);
    let d = style.get_dialog_frame_params();
    assert_eq!(d.border, Some(style.dialog_border));
}

#[test]
fn an_empty_table_gives_the_initial_style() {
    let (style, r) = from_table::<(), StyleConfig>(Vec::new(), &());
    assert!(r.is_ok());
    let init = StyleConfig::initial();
    assert_eq!(style.border, init.border);
    assert_eq!(style.dialog_border.a, A_SQR);
    assert_eq!(style.general, init.general);
}

#[test]
fn colors_come_from_the_palette_or_hex() {
    let palette = Some(entries(vec![("red", s("#ff0000")), ("bad", s("#ff")), ("word", s("blue"))]));
    assert_eq!(parse_color(s("red"), &palette).unwrap(), Color::Rgb { r: 255, g: 0, b: 0 });
    assert_eq!(parse_color(s("#00ff00"), &palette).unwrap(), Color::Rgb { r: 0, g: 255, b: 0 });
    assert!(matches!(parse_color(s("bad"), &palette), Err(ValueErr::InvalidParse(ParseProblem::Color(ColorError::MissingDigit(2))))));
    assert!(matches!(parse_color(s("word"), &palette), Err(ValueErr::InvalidParse(ParseProblem::NotInPalette(ref n))) if n == "word"));
    assert!(matches!(parse_color(s("green"), &None), Err(ValueErr::InvalidParse(ParseProblem::NotInPalette(_)))));
    assert!(matches!(parse_color(ConfigValue::Integer(1), &palette), Err(ValueErr::InvalidTomlType(_))));
}

#[test]
fn the_first_entry_of_a_key_is_found() {
    let e = entries(vec![("a", ConfigValue::Integer(1)), ("a", ConfigValue::Integer(2))]);
    assert!(matches!(get_entry(&e, "a"), Some(ConfigValue::Integer(1))));
    assert!(get_entry(&e, "b").is_none());
}

#[test]
fn problems_are_reported_inside_their_table() {
    let mut style = StyleConfig::initial();
    let r = update_from_table(&mut style, entries(vec![
        ("screen_margin", table(vec![("n", ConfigValue::Integer(-1)), ("s", ConfigValue::Integer(3))])),
        ("link", s("not a table")),
        ("nonsense", ConfigValue::Integer(1)),
    ]), &());
    let errs = r.unwrap_err();
    assert_eq!(errs.len(), 3);
    assert!(matches!(&errs[0], ConfigError::In(FieldName::StyleConfig(_), inner)
        if matches!(**inner, ConfigError::Invalid(_, ValueErr::InvalidParse(ParseProblem::OutOfRange(-1))))));
    assert!(matches!(&errs[1], ConfigError::Invalid(_, ValueErr::InvalidTomlType(_))));
    assert!(matches!(&errs[2], ConfigError::NoField(_, k) if k == "nonsense"));
    assert_eq!(style.screen_margin.south, 3);
    assert_eq!(style.screen_margin.north, 0);
}
