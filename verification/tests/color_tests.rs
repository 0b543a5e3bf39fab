use gbrowse::color::{parse_hex_color, parse_color_name, Color, ColorError};

#[test]
fn hex_color_reads_six_digits() {
    assert_eq!(parse_hex_color("ff8000"), Ok(Color::Rgb { r: 255, g: 128, b: 0 }));
}

#[test]
fn hex_color_reports_missing_digit() {
    assert_eq!(parse_hex_color("ff80"), Err(ColorError::MissingDigit(4)));
}

#[test]
fn hex_color_rejects_upper_case() {
    assert_eq!(parse_hex_color("FF8000"), Err(ColorError::NotHex('F')));
}

#[test]
fn color_names_in_both_cases() {
    assert_eq!(parse_color_name("DarkGray"), Ok(Color::DarkGrey));
    assert_eq!(parse_color_name("red"), Ok(Color::Red));
    assert_eq!(parse_color_name("pink"), Err(ColorError::NoName("pink".to_string())));
}
