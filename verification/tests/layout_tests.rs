use gbrowse::rect::Rect;
use gbrowse::layout::{stack_bounds, get_display_bounds, met_display_bounds, fill};
use gbrowse::frame::{Frame, FrameParams};

fn rect(x: u16, y: u16, w: u16, h: u16) -> Rect {
    Rect { x, y, w, h }
}

/// A frame without margins or border that shows `h` rows.
fn rows(h: u16) -> Frame {
    FrameParams::init().build_from_inner(&rect(0, 0, 5, h))
}

#[test]
fn views_stack_down_the_rectangle() {
    let bounds = stack_bounds(&rect(2, 3, 10, 10), &vec![3, 4, 2]);
    assert_eq!(bounds, vec![rect(2, 3, 10, 3), rect(2, 6, 10, 4), rect(2, 10, 10, 2)]);
}

#[test]
fn stacked_views_touch_and_stay_inside() {
    let r = rect(0, 5, 8, 12);
    let bounds = stack_bounds(&r, &vec![5, 0, 4, 1]);
    for pair in bounds.windows(2) {
        assert_eq!(pair[0].y + pair[0].h, pair[1].y);
    }
    let last = bounds.last().unwrap();
    assert!(last.y + last.h <= r.y + r.h);
    assert_eq!(bounds.iter().map(|b| b.h).sum::<u16>(), 10);
}

#[test]
fn views_past_the_bottom_get_the_empty_rest() {
    let bounds = stack_bounds(&rect(0, 0, 5, 4), &vec![3, 3, 3]);
    assert_eq!(bounds, vec![rect(0, 0, 5, 3), rect(0, 3, 5, 1), rect(0, 4, 5, 0)]);
}

#[test]
fn display_bounds_use_each_views_rows() {
    let a: Vec<u8> = vec![1, 2];
    let b: Vec<u8> = vec![1, 2, 3, 4];
    let bounds = get_display_bounds(&rect(0, 0, 3, 5), &vec![&a, &b]);
    assert_eq!(bounds, vec![rect(0, 0, 3, 2), rect(0, 2, 3, 3)]);
}

#[test]
fn met_bounds_skip_the_view_that_found_no_rows() {
    let a: Vec<u8> = vec![1, 2, 3];
    let b: Vec<u8> = vec![1];
    let c: Vec<u8> = vec![1];
    let bounds = met_display_bounds(&rect(0, 0, 3, 3), &vec![&a, &b, &c]);
    assert_eq!(bounds.len(), 2);
    assert_eq!(bounds[0], rect(0, 0, 3, 3));
    assert_eq!(bounds[1], rect(0, 3, 3, 0));
}

#[test]
fn fill_starts_at_the_last_row_shown() {
    assert_eq!(fill(&rect(0, 0, 10, 10), &rows(4)), rect(0, 3, 10, 7));
    assert_eq!(fill(&rect(0, 0, 10, 10), &rows(0)), rect(0, 0, 10, 10));
    assert_eq!(fill(&rect(0, 0, 10, 10), &rows(40)), rect(0, 9, 10, 1));
}
