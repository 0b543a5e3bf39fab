use gbrowse::layout::{BuildView, Resize};
use gbrowse::rect::Rect;
use gbrowse::page::{PageParams, Page, TextParams};
use gbrowse::keys::Action;
use gbrowse::draw::{Draw, DrawOp};
use gbrowse::color::Style;

fn rect(x: u16, y: u16, w: u16, h: u16) -> Rect {
    Rect { x, y, w, h }
}

fn texts(v: &[&str]) -> Vec<String> {
    v.iter().map(|s| s.to_string()).collect()
}

fn rows(p: &Page<String>) -> Vec<String> {
    p.matrix.data.iter().map(|r| r.iter().collect()).collect()
}

#[test]
fn sources_wrap_into_rows() {
    let p = PageParams::init().text(texts(&["hello world foo", "", "bye"])).build(&rect(0, 0, 8, 10));
    assert_eq!(rows(&p), vec!["hello ", "world ", "foo", "", "bye"]);
    assert_eq!(p.indexes, vec![0, 0, 0, 1, 2]);
    assert_eq!(p.get_height(), 5);
}

#[test]
fn unwrapped_sources_keep_their_lines() {
    let long = TextParams { style: Style::default(), wrap: false };
    let p = PageParams::init()
        .text_styles(texts(&["a long line here\nsecond"]), |_| long)
        .build(&rect(0, 0, 4, 10));
    assert_eq!(rows(&p), vec!["a long line here", "second"]);
}

#[test]
fn a_limit_caps_the_rows_shown() {
    let p = PageParams::init().text(texts(&["a", "b", "c"])).max(2).build(&rect(0, 0, 8, 10));
    assert_eq!(p.get_height(), 2);
}

#[test]
fn moving_down_reaches_the_source_of_a_row() {
    let mut p = PageParams::init().text(texts(&["one", "two", "three"])).build(&rect(0, 0, 8, 2));
    assert_eq!(p.get_index(), 0);
    Action::MoveDown.update(&mut p);
    Action::MoveDown.update(&mut p);
    assert_eq!(p.get_index(), 2);
    assert_eq!(p.get_string(), Some("three".to_string()));
    Action::Top.update(&mut p);
    assert_eq!(p.get_index(), 0);
    Action::Bottom.update(&mut p);
    assert_eq!(p.get_index(), 2);
    Action::Ack.update(&mut p);
    assert_eq!(p.get_index(), 2);
}

#[test]
fn editing_a_line() {
    let mut p = PageParams::init().text(texts(&["ab"])).edit(true).build(&rect(0, 0, 10, 1));
    Action::Insert('c').update_edit(&mut p);
    assert_eq!(rows(&p), vec!["abc"]);
    Action::Backspace.update_edit(&mut p);
    Action::Backspace.update_edit(&mut p);
    assert_eq!(rows(&p), vec!["a"]);
    // at the last character of a row, an insertion goes after it
    Action::MoveLeft.update_edit(&mut p);
    Action::Insert('x').update_edit(&mut p);
    assert_eq!(rows(&p), vec!["ax"]);
    Action::Delete.update_edit(&mut p);
    assert_eq!(rows(&p), vec!["a"]);
}

#[test]
fn drawing_a_page() {
    let p = PageParams::init().text(texts(&["hi", "yo"])).build(&rect(3, 4, 5, 1));
    let ops = p.draw();
    assert_eq!(ops[0], DrawOp::MoveTo(3, 4));
    assert_eq!(ops[1], DrawOp::Reset);
    assert!(ops.contains(&DrawOp::Print('h')));
    assert!(!ops.contains(&DrawOp::Print('y')));
    assert_eq!(*ops.last().unwrap(), DrawOp::Reset);
}

#[test]
fn resizing_to_another_width_lays_out_again() {
    let mut p = PageParams::init().text(texts(&["abcdef"])).build(&rect(0, 0, 6, 5));
    assert_eq!(rows(&p), vec!["abcdef"]);
    p.resize(&rect(1, 1, 3, 5));
    assert_eq!(rows(&p), vec!["abc", "def"]);
    assert_eq!(p.get_height(), 2);
}

#[test]
fn restyling_keeps_the_sources() {
    let mut p = PageParams::init().text(texts(&["abcdef"])).build(&rect(0, 0, 3, 5));
    let plain = TextParams { style: Style { underline: true, bold: false, fg: None, bg: None }, wrap: false };
    p.restyle(|_| plain);
    assert_eq!(p.styles, vec![plain]);
    assert_eq!(rows(&p), vec!["abcdef"]);
}
