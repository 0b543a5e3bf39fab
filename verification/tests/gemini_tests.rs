use gbrowse::gemini::{parse_u8, IntError, Status, StatusText, GemText, GemTag, GemDoc, parse_doc};

#[test]
fn codes_read_as_bytes() {
    assert_eq!(parse_u8("20"), Ok(20));
    assert_eq!(parse_u8("+7"), Ok(7));
    assert_eq!(parse_u8("255"), Ok(255));
    assert_eq!(parse_u8(""), Err(IntError::Empty));
    assert_eq!(parse_u8("+"), Err(IntError::InvalidDigit));
    assert_eq!(parse_u8("-1"), Err(IntError::InvalidDigit));
    assert_eq!(parse_u8("2x"), Err(IntError::InvalidDigit));
    assert_eq!(parse_u8("256"), Err(IntError::PosOverflow));
}

#[test]
fn status_of_each_code() {
    assert_eq!(Status::from_code(10), Status::InputExpected);
    assert_eq!(Status::from_code(11), Status::InputExpectedSensitive);
    assert_eq!(Status::from_code(15), Status::InputExpected);
    assert_eq!(Status::from_code(20), Status::Success);
    assert_eq!(Status::from_code(29), Status::Success);
    assert_eq!(Status::from_code(31), Status::RedirectPermanent);
    assert_eq!(Status::from_code(38), Status::RedirectTemporary);
    assert_eq!(Status::from_code(41), Status::FailServerUnavailable);
    assert_eq!(Status::from_code(47), Status::FailTemporary);
    assert_eq!(Status::from_code(51), Status::FailNotFound);
    assert_eq!(Status::from_code(59), Status::FailBadRequest);
    assert_eq!(Status::from_code(62), Status::CertRequiredAuthorized);
    assert_eq!(Status::from_code(67), Status::CertRequiredClient);
    assert_eq!(Status::from_code(70), Status::Unknown(70));
    assert_eq!(Status::from_code(0), Status::Unknown(0));
}

#[test]
fn status_from_text() {
    assert_eq!(Status::try_from_str("51"), Ok(Status::FailNotFound));
    assert_eq!(Status::try_from_str("x"), Err(IntError::InvalidDigit));
    assert_eq!(Status::from("44"), Status::FailSlowDown);
    assert_eq!(Status::from("abc"), Status::Junk(IntError::InvalidDigit));
    assert_eq!(Status::from(""), Status::Junk(IntError::Empty));
}

#[test]
fn status_line_splits_at_first_blank() {
    let st = StatusText::try_from_str("20 text/gemini; lang=en\r\n").unwrap();
    assert_eq!(st.tag, Status::Success);
    assert_eq!(st.text, "text/gemini; lang=en");
    let st = StatusText::try_from_str("  30\tgemini://x/y ").unwrap();
    assert_eq!(st.tag, Status::RedirectTemporary);
    assert_eq!(st.text, "gemini://x/y");
    let st = StatusText::parse("51");
    assert_eq!(st.tag, Status::FailNotFound);
    assert_eq!(st.text, "51");
    assert!(matches!(StatusText::try_from_str("ok fine"), Err(IntError::InvalidDigit)));
    assert_eq!(StatusText::parse("ok fine").tag, Status::Junk(IntError::InvalidDigit));
}

fn line(s: &str) -> (String, String) {
    let (tag, text) = GemText::parse_line(s);
    (format!("{:?}", tag), text)
}

#[test]
fn gemtext_lines() {
    assert_eq!(line("# Title "), ("HeadingOne".to_string(), "Title".to_string()));
    assert_eq!(line("## Sub"), ("HeadingTwo".to_string(), "Sub".to_string()));
    assert_eq!(line("### Third "), ("HeadingThree".to_string(), " Third ".to_string()));
    assert_eq!(line("> quoted "), ("Quote".to_string(), "quoted".to_string()));
    assert_eq!(line("* item "), ("ListItem".to_string(), " item ".to_string()));
    assert_eq!(line("```rust"), ("PreFormat".to_string(), "".to_string()));
    assert_eq!(line("  plain  "), ("Text".to_string(), "plain".to_string()));
}

#[test]
fn link_lines() {
    let (tag, text) = GemText::parse_line("=> gemini://a.b/c  The page ");
    assert!(matches!(tag, GemTag::Link(ref u) if u == "gemini://a.b/c"));
    assert_eq!(text, "The page");
    let (tag, text) = GemText::parse_line("=>gemini://a.b");
    assert!(matches!(tag, GemTag::Link(ref u) if u == "gemini://a.b"));
    assert_eq!(text, "gemini://a.b");
    let (tag, text) = GemText::parse_line("=> gemini://a.b");
    assert!(matches!(tag, GemTag::Link(ref u) if u == " gemini://a.b"));
    assert_eq!(text, "gemini://a.b");
}

#[test]
fn documents_toggle_preformatting() {
    let doc = parse_doc("# T\n```\n# not a heading\n```\n=> x y\ntext");
    assert_eq!(doc.len(), 4);
    assert!(matches!(doc[0].tag, GemTag::HeadingOne));
    assert!(matches!(doc[1].tag, GemTag::PreFormat));
    assert_eq!(doc[1].text, "not a heading");
    assert!(matches!(doc[2].tag, GemTag::Link(ref u) if u == "x"));
    assert_eq!(doc[2].text, "y");
    assert!(matches!(doc[3].tag, GemTag::Text));
}

#[test]
fn preformatted_lines_keep_no_tag() {
    let doc = parse_doc("```\n=> link\n* item");
    assert_eq!(doc.len(), 2);
    assert!(doc.iter().all(|g| matches!(g.tag, GemTag::PreFormat)));
}

#[test]
fn responses_other_than_success_show_their_status() {
    let d = GemDoc::new("51 Not found".to_string(), "# ignored".to_string()).unwrap();
    assert_eq!(d.status.tag, Status::FailNotFound);
    assert_eq!(d.doc.len(), 1);
    assert!(matches!(d.doc[0].tag, GemTag::Text));
    assert_eq!(d.doc[0].text, "StatusText { tag: FailNotFound, text: \"Not found\" }");
    let d = GemDoc::new("20 text/gemini".to_string(), "# A\nb".to_string()).unwrap();
    assert_eq!(d.doc.len(), 2);
}

#[test]
fn gemtext_constructors() {
    assert!(matches!(GemText::heading2("x".to_string()).tag, GemTag::HeadingTwo));
    assert!(matches!(GemText::from((GemTag::Quote, "q".to_string())).tag, GemTag::Quote));
    assert_eq!(GemText::list_item("i".to_string()).text, "i");
}

#[test]
fn status_lines_show_as_debug_shows_them() {
    for text in ["it's \"odd\" \\ here", "tab\there\n", "caf\u{e9} \u{7f}\u{0}"] {
        let st = StatusText { tag: Status::FailGone, text: text.to_string() };
        assert_eq!(st.to_line(), format!("{:?}", st));
    }
    assert_eq!(StatusText::parse("99 x").to_line(), "StatusText { tag: Unknown(99), text: \"x\" }");
    assert_eq!(StatusText::parse("7 x").to_line(), "StatusText { tag: Unknown(7), text: \"x\" }");
    assert_eq!(StatusText::parse("200 x").to_line(), "StatusText { tag: Unknown(200), text: \"x\" }");
    assert_eq!(StatusText::parse("ab x").to_line(), "StatusText { tag: Junk(\"invalid digit found in string\"), text: \"x\" }");
    assert_eq!(StatusText::parse("300 x").to_line(), "StatusText { tag: Junk(\"number too large to fit in target type\"), text: \"x\" }");
}
