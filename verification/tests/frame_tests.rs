use gbrowse::rect::Rect;
use gbrowse::frame::{Margins, BorderStyle, FrameParams};
use gbrowse::draw::{Draw, DrawOp};
use gbrowse::layout::GetDisplayHeight;
use gbrowse::color::Style;

fn rect(x: u16, y: u16, w: u16, h: u16) -> Rect {
    Rect { x, y, w, h }
}

#[test]
fn each_side_takes_its_own_margin() {
    // the readme's screen margin
    let m = Margins { north: 2, south: 2, east: 16, west: 16 };
    assert_eq!(m.get_from_outer(&rect(0, 0, 100, 40)), rect(16, 2, 68, 36));
    assert_eq!(m.get_from_inner(&rect(16, 2, 68, 36)), rect(0, 0, 100, 40));
    let m = Margins { north: 1, south: 2, east: 3, west: 4 };
    assert_eq!(m.get_from_outer(&rect(5, 5, 10, 10)), rect(9, 6, 3, 7));
    assert_eq!(m.get_from_inner(&rect(5, 5, 10, 10)), rect(1, 4, 17, 13));
}

#[test]
fn margins_crop_a_screen_rectangle() {
    let m = Margins { north: 1, south: 2, east: 3, west: 4 };
    let r = m.get_rect(&gbrowse::screen::Rect { x: 0, y: 0, w: 20, h: 10 });
    assert_eq!((r.x, r.y, r.w, r.h), (4, 1, 13, 7));
}

#[test]
fn margins_outer_undoes_inner() {
    let m = Margins::symmetric(3);
    let r = rect(10, 20, 30, 40);
    assert_eq!(m.get_from_outer(&m.get_from_inner(&r)), r);
    assert_eq!(m.get_from_inner(&m.get_from_outer(&r)), r);
}

#[test]
fn border_takes_one_cell() {
    let b = BorderStyle::default();
    assert_eq!(b.get_from_inner(&rect(2, 2, 4, 4)), rect(1, 1, 6, 6));
    assert_eq!(b.get_from_outer(&rect(1, 1, 6, 6)), rect(2, 2, 4, 4));
}

#[test]
fn frame_from_outer_then_inner_keeps_the_border() {
    let p = FrameParams::init()
        .screen_margin(Margins::symmetric(1))
        .text_margin(Margins::symmetric(2))
        .border_style(Some(BorderStyle::default()));
    let screen = rect(0, 0, 80, 24);
    let outer = p.build_from_outer(&screen);
    assert_eq!(outer.border_rect, rect(1, 1, 78, 22));
    assert_eq!(outer.outer_rect, rect(2, 2, 76, 20));
    assert_eq!(outer.inner_rect, rect(4, 4, 72, 16));
    let inner = p.build_from_inner(&outer.inner_rect);
    assert_eq!(inner.border_rect, outer.border_rect);
    assert_eq!(inner.outer_rect, outer.outer_rect);
    assert_eq!(inner.get_display_height(), 24);
}

#[test]
fn frame_without_border_blanks_its_margin() {
    let p = FrameParams::init().text_margin(Margins::symmetric(1));
    let f = p.build_from_inner(&rect(1, 1, 1, 1));
    let ops = f.draw();
    assert_eq!(ops[0], DrawOp::Reset);
    assert_eq!(ops[1], DrawOp::SetStyle(Style::default()));
    assert_eq!(*ops.last().unwrap(), DrawOp::Reset);
    let blanks = ops.iter().filter(|o| **o == DrawOp::Print(' ')).count();
    assert_eq!(blanks, 8);
}

#[test]
fn frame_with_border_draws_corners_first() {
    let b = BorderStyle::default();
    let p = FrameParams::init().border_style(Some(b));
    let f = p.build_from_inner(&rect(1, 1, 2, 1));
    let ops = f.draw();
    assert_eq!(ops[2], DrawOp::MoveTo(0, 0));
    assert_eq!(ops[3], DrawOp::Print(b.a));
    assert_eq!(ops[4], DrawOp::MoveTo(3, 0));
    assert_eq!(ops[5], DrawOp::Print(b.b));
    assert_eq!(ops[6], DrawOp::MoveTo(0, 2));
    assert_eq!(ops[7], DrawOp::Print(b.c));
    assert_eq!(ops[8], DrawOp::MoveTo(3, 2));
    assert_eq!(ops[9], DrawOp::Print(b.d));
}

#[test]
fn banner_shows_text_in_brackets() {
    let b = BorderStyle::default();
    let p = FrameParams::init().border_style(Some(b));
    let f = p.build_from_inner(&rect(1, 1, 20, 5));
    let ops = f.draw_banner("abc");
    assert_eq!(ops[0], DrawOp::MoveTo(1, 0));
    assert_eq!(ops[2], DrawOp::Print(b.open));
    assert_eq!(ops[3], DrawOp::Print(' '));
    assert_eq!(&ops[5..8], &[DrawOp::Print('a'), DrawOp::Print('b'), DrawOp::Print('c')]);
    assert_eq!(*ops.last().unwrap(), DrawOp::Reset);
}

#[test]
fn banner_cuts_long_text() {
    let p = FrameParams::init().border_style(Some(BorderStyle::default()));
    let f = p.build_from_inner(&rect(1, 1, 6, 5));
    let ops = f.draw_banner("abcdef");
    let letters: Vec<&DrawOp> = ops.iter().filter(|o| matches!(o, DrawOp::Print(c) if c.is_alphabetic())).collect();
    assert_eq!(letters.len(), 2);
}

#[test]
fn footer_is_written_backwards_from_the_corner() {
    let b = BorderStyle::default();
    let p = FrameParams::init().border_style(Some(b));
    let f = p.build_from_inner(&rect(1, 1, 20, 5));
    let ops = f.draw_footer("xy");
    assert_eq!(ops[0], DrawOp::MoveTo(20, 6));
    assert_eq!(ops[2], DrawOp::Print(b.close));
    let letters: Vec<&DrawOp> = ops.iter().filter(|o| matches!(o, DrawOp::Print('x') | DrawOp::Print('y'))).collect();
    assert_eq!(letters, vec![&DrawOp::Print('y'), &DrawOp::Print('x')]);
}

#[test]
fn frame_without_border_draws_no_banner() {
    let f = FrameParams::init().build_from_inner(&rect(1, 1, 20, 5));
    assert!(f.draw_banner("abc").is_empty());
    assert!(f.draw_footer("abc").is_empty());
}

#[test]
fn banner_and_footer_fit_a_wide_enough_frame() {
    let p = FrameParams::init().border_style(Some(BorderStyle::default()));
    let f = p.build_from_inner(&rect(1, 1, 20, 5));
    assert!(f.banner_fits("abc"));
    assert!(f.footer_fits("xy"));
    let narrow = p.build_from_inner(&rect(1, 1, 2, 5));
    assert!(narrow.banner_fits("abc"));
    assert!(!narrow.footer_fits("abc"));
    let far = p.build_from_inner(&rect(65532, 1, 2, 5));
    assert!(!far.banner_fits("abc"));
}
