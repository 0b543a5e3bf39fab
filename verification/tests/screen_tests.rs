use gbrowse::screencursor::LineCursor;
use gbrowse::screen::{Rect, LineView};

fn parts(r: Rect) -> (u16, u16, u16, u16) {
    (r.x, r.y, r.w, r.h)
}

fn rect(x: u16, y: u16, w: u16, h: u16) -> Rect {
    Rect { x, y, w, h }
}

#[test]
fn crops_stay_inside_and_keep_the_far_edge() {
    let r = rect(2, 3, 10, 8);
    for step in 0..6u16 {
        for c in [r.crop_north(step), r.crop_south(step), r.crop_east(step), r.crop_west(step), r.crop_y(step), r.crop_x(step)] {
            assert!(c.x >= r.x && c.y >= r.y);
            assert!(c.x + c.w <= r.x + r.w && c.y + c.h <= r.y + r.h);
        }
        let n = r.crop_north(step);
        assert_eq!(n.y + n.h, r.y + r.h);
        let w = r.crop_west(step);
        assert_eq!(w.x + w.w, r.x + r.w);
    }
}

#[test]
fn crops_that_would_leave_too_little_do_nothing() {
    let r = rect(0, 0, 4, 4);
    assert_eq!(parts(r.crop_north(2)), (0, 0, 4, 4));
    assert_eq!(parts(r.crop_north(1)), (0, 1, 4, 3));
    assert_eq!(parts(r.crop_south(4)), (0, 0, 4, 4));
    assert_eq!(parts(r.crop_south(3)), (0, 0, 4, 1));
    assert_eq!(parts(r.crop_y(1)), (0, 1, 4, 2));
    assert_eq!(parts(r.crop_x(1)), (1, 0, 2, 4));
}

#[test]
fn ranges_between_edges() {
    let a = rect(1, 2, 5, 5);
    let b = rect(3, 1, 1, 9);
    assert_eq!(a.north_range(&b), 1..2);
    assert_eq!(a.west_range(&b), 1..3);
    assert_eq!(a.south_range(&b), 7..10);
    assert_eq!(a.east_range(&b), 4..6);
}

#[test]
fn line_views_scroll_to_keep_the_head_shown() {
    let mut v = LineView::new(10, 4);
    v.update(2);
    assert_eq!((v.scroll(), v.cursor()), (0, 12));
    v.update(6);
    assert_eq!((v.scroll(), v.cursor()), (3, 13));
    v.update(1);
    assert_eq!((v.scroll(), v.cursor()), (1, 10));
}

#[test]
fn resized_line_views() {
    let mut v = LineView::new(0, 10);
    v.update(8);
    v.resize(8, 5, 4);
    assert_eq!((v.scroll(), v.cursor()), (5, 8));
    v.resize(2, 0, 4);
    assert_eq!((v.scroll(), v.cursor()), (0, 2));
}

#[test]
fn line_views_scroll_as_little_as_they_can() {
    let mut v = LineView::new(0, 4);
    v.update(3);
    assert_eq!(v.scroll(), 0);
    v.update(9);
    assert_eq!(v.scroll(), 9 + 1 - 4);
    v.update(7);
    assert_eq!(v.scroll(), 6);
    v.update(2);
    assert_eq!(v.scroll(), 2);
}

#[test]
fn line_cursors_scroll_as_little_as_they_can() {
    let mut c = LineCursor::new(2, 4);
    assert!(c.update(6));
    assert_eq!((c.get_scroll(), c.get_cursor()), (3, 5));
    assert!(!c.update(4));
    assert_eq!((c.get_scroll(), c.get_cursor()), (3, 3));
    assert!(c.update(0));
    assert_eq!((c.get_scroll(), c.get_cursor()), (0, 2));
    c.update(2);
    c.resize(10, 0, 3);
    assert_eq!((c.get_scroll(), c.get_cursor()), (8, 2));
}
