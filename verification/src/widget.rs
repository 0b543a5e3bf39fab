//! Widgets: the rectangles they occupy, the cursors they show and the
//! margins around them.
use vstd::prelude::*;
use crate::screen_cursor::CursorView;

pub mod rect;
pub mod planeview;

pub use self::rect::Rect;

verus! {

/// A cursor on screen: one window across, one down.
#[derive(Copy, Clone, Debug, Default)]
pub struct ScreenCursor {
    pub x: CursorView,
    pub y: CursorView,
}

impl ScreenCursor {
    /// The cursor whose windows are the columns and rows of `rect`.
    pub fn new(rect: &Rect) -> (r: Self)
        ensures
            r.x == (CursorView { start: 0, head: 0, view_head: rect.x, view_start: rect.x, view_size: rect.w }),
            r.y == (CursorView { start: 0, head: 0, view_head: rect.y, view_start: rect.y, view_size: rect.h }),
    {
        ScreenCursor { x: CursorView::new(rect.x, rect.w), y: CursorView::new(rect.y, rect.h) }
    }

    pub fn x_cursor(&self) -> (r: u16)
        ensures
            r == self.x.view_head,
    {
        self.x.view_head
    }

    pub fn y_cursor(&self) -> (r: u16)
        ensures
            r == self.y.view_head,
    {
        self.y.view_head
    }

    pub fn x_scroll(&self) -> (r: usize)
        ensures
            r == self.x.start,
    {
        self.x.start
    }

    pub fn y_scroll(&self) -> (r: usize)
        ensures
            r == self.y.start,
    {
        self.y.start
    }

    /// Moves the windows onto `rect`, with the plane's row `y_head` and the
    /// screen width `x_head` of its current line before the cursor.
    pub fn resize(&mut self, y_head: usize, x_head: usize, rect: &Rect)
        requires
            old(self).y.resize_ok(y_head, rect.y, rect.h),
            old(self).x.resize_ok(x_head, rect.x, rect.w),
        ensures
            final(self).y == old(self).y.spec_resize(y_head, rect.y, rect.h),
            final(self).x == old(self).x.spec_resize(x_head, rect.x, rect.w),
    {
        self.y.resize(y_head, rect.y, rect.h);
        self.x.resize(x_head, rect.x, rect.w);
    }

    /// Moves the heads to row `y_head` and to the screen width `x_head`
    /// before the cursor; returns whether either window scrolled.
    pub fn update(&mut self, y_head: usize, x_head: usize) -> (scrolled: bool)
        requires
            old(self).y.update_ok(y_head),
            old(self).x.update_ok(x_head),
        ensures
            final(self).y == old(self).y.spec_update(y_head).0,
            final(self).x == old(self).x.spec_update(x_head).0,
            scrolled == (old(self).y.spec_update(y_head).1 || old(self).x.spec_update(x_head).1),
    {
        let y = self.y.update(y_head);
        let x = self.x.update(x_head);
        x || y
    }
}

/// What a widget has to redraw.
#[derive(Clone, Debug)]
pub enum ChangeType {
    Cursor,
    Scroll,
}

/// The rows and columns kept clear on each side of a widget.
#[derive(Debug, Clone)]
pub struct MarginSpec {
    pub north: u16,
    pub south: u16,
    pub east: u16,
    pub west: u16,
}

impl Default for MarginSpec {
    fn default() -> (r: Self)
        ensures
            r == (MarginSpec { north: 0, south: 0, east: 0, west: 0 }),
    {
        MarginSpec { north: 0, south: 0, east: 0, west: 0 }
    }
}

impl MarginSpec {
    /// What `get_rect(screen)` gives: the screen cropped on the north, south,
    /// east and west in turn.
    pub open spec fn spec_get_rect(self, screen: crate::screen::Rect) -> crate::screen::Rect {
        screen.spec_crop_north(self.north).spec_crop_south(self.south).spec_crop_east(self.east).spec_crop_west(self.west)
    }

    /// The crops' arithmetic stays within `u16`.
    pub open spec fn get_rect_ok(self, screen: crate::screen::Rect) -> bool {
        &&& screen.crop_north_ok(self.north)
        &&& screen.spec_crop_north(self.north).spec_crop_south(self.south).spec_crop_east(self.east).crop_west_ok(self.west)
    }

    /// The part of `screen` inside the margins.
    pub fn get_rect(&self, screen: &crate::screen::Rect) -> (r: crate::screen::Rect)
        requires
            self.get_rect_ok(*screen),
        ensures
            r == self.spec_get_rect(*screen),
    {
        screen.clone().crop_north(self.north).crop_south(self.south).crop_east(self.east).crop_west(self.west)
    }
}

} // verus!
