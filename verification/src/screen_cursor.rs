//! A screen cursor made of two windows, one per axis, each keeping the
//! cursor inside it as the data head moves.
use vstd::prelude::*;
use crate::rect::Rect;
use crate::scroll::{resized, resized_ok, stepped, stepped_ok, window_wf};

verus! {

/// One axis of a screen cursor: `head` is the datum under the cursor,
/// `start` the first datum shown, and the window spans `view_size` cells
/// from `view_start` with the cursor at `view_head`.
#[derive(Copy, Clone, Debug, Default)]
pub struct CursorView {
    pub head: usize,
    pub start: usize,
    pub view_head: u16,
    pub view_start: u16,
    pub view_size: u16,
}

impl CursorView {
    /// The cursor lies in the window and shows the head.
    pub open spec fn wf(self) -> bool {
        window_wf(self.head as int, self.start as int, self.view_head as int, self.view_start as int, self.view_size as int)
    }

    pub open spec fn spec_resize(self, new_head: usize, new_view_start: u16, new_view_size: u16) -> CursorView {
        let (start, view_head) = resized(self.view_head as int, self.view_start as int, new_head as int, new_view_start as int, new_view_size as int);
        CursorView { head: new_head, start: start as usize, view_head: view_head as u16, view_start: new_view_start, view_size: new_view_size }
    }

    pub open spec fn resize_ok(self, new_head: usize, new_view_start: u16, new_view_size: u16) -> bool {
        resized_ok(self.view_head as int, self.view_start as int, new_head as int, new_view_start as int, new_view_size as int)
    }

    pub open spec fn spec_update(self, new_head: usize) -> (CursorView, bool) {
        let (start, view_head, scrolled) = stepped(self.head as int, self.start as int, self.view_head as int, self.view_start as int, self.view_size as int, new_head as int);
        (CursorView { head: new_head, start: start as usize, view_head: view_head as u16, ..self }, scrolled)
    }

    pub open spec fn update_ok(self, new_head: usize) -> bool {
        stepped_ok(self.head as int, self.start as int, self.view_head as int, self.view_start as int, self.view_size as int, new_head as int)
    }

    pub fn new(view_start: u16, view_size: u16) -> (r: Self)
        ensures
            r == (CursorView { start: 0, head: 0, view_head: view_start, view_start, view_size }),
    {
        CursorView { start: 0, head: 0, view_head: view_start, view_start, view_size }
    }

    pub fn get_scroll(&self) -> (r: usize)
        ensures
            r == self.start,
    {
        self.start
    }

    pub fn get_cursor(&self) -> (r: u16)
        ensures
            r == self.view_head,
    {
        self.view_head
    }

    /// Moves the window to `new_view_size` cells from `new_view_start` and the
    /// head to `new_head`, keeping the cursor's offset where it still fits.
    pub fn resize(&mut self, new_head: usize, new_view_start: u16, new_view_size: u16)
        requires
            old(self).resize_ok(new_head, new_view_start, new_view_size),
        ensures
            *final(self) == old(self).spec_resize(new_head, new_view_start, new_view_size),
    {
        let cursor_position = self.view_head - self.view_start;
        self.view_start = new_view_start;
        self.view_size = new_view_size;
        self.head = new_head;
        if new_head < new_view_size as usize {
            self.start = 0;
            self.view_head = self.view_start + self.head as u16;
        } else if cursor_position > new_view_size - 1 {
            self.view_head = self.view_start + self.view_size - 1;
            self.start = self.head - (self.view_size - 1) as usize;
        } else {
            self.view_head = self.view_start + cursor_position;
            self.start = self.head.saturating_sub(cursor_position as usize);
        }
    }

    /// Moves the head to `new_head`, scrolling just enough to keep the cursor
    /// on it; returns whether the window scrolled.
    pub fn update(&mut self, new_head: usize) -> (scrolled: bool)
        requires
            old(self).update_ok(new_head),
        ensures
            (*final(self), scrolled) == old(self).spec_update(new_head),
    {
        if self.head == new_head {
            false
        } else if self.head < new_head {
            let delta_size = new_head - self.head;
            let max_view_delta = (self.view_start + self.view_size.saturating_sub(1)).saturating_sub(self.view_head);
            if delta_size < max_view_delta as usize {
                self.view_head = self.view_head + delta_size as u16;
                self.head = new_head;
                false
            } else {
                self.start = self.start + (delta_size - max_view_delta as usize);
                self.view_head = self.view_head + max_view_delta;
                self.head = new_head;
                true
            }
        } else {
            let delta_size = self.head - new_head;
            let max_view_delta = self.view_head.saturating_sub(self.view_start);
            if delta_size <= max_view_delta as usize {
                self.view_head = self.view_head - delta_size as u16;
                self.head = new_head;
                false
            } else {
                self.start = self.start.saturating_sub(delta_size - max_view_delta as usize);
                self.view_head = self.view_start + (new_head - self.start) as u16;
                self.head = new_head;
                true
            }
        }
    }
}

/// A cursor on screen: one window across, one down.
#[derive(Copy, Clone, Debug, Default)]
pub struct ScreenCursor {
    x: CursorView,
    y: CursorView,
}

impl<'a> From<&'a Rect> for ScreenCursor {
    fn from(view: &'a Rect) -> (r: Self) {
        ScreenCursor { x: CursorView::new(view.x, view.w), y: CursorView::new(view.y, view.h) }
    }
}

impl<'a> vstd::std_specs::convert::FromSpecImpl<&'a Rect> for ScreenCursor {
    open spec fn obeys_from_spec() -> bool {
        true
    }

    open spec fn from_spec(view: &'a Rect) -> Self {
        ScreenCursor::spec_on(*view)
    }
}

impl ScreenCursor {
    /// The cursor whose windows are the columns and rows of `view`.
    pub closed spec fn spec_on(view: Rect) -> ScreenCursor {
        ScreenCursor {
            x: CursorView { start: 0, head: 0, view_head: view.x, view_start: view.x, view_size: view.w },
            y: CursorView { start: 0, head: 0, view_head: view.y, view_start: view.y, view_size: view.h },
        }
    }

    pub closed spec fn xv(self) -> CursorView {
        self.x
    }

    pub closed spec fn yv(self) -> CursorView {
        self.y
    }

    /// The cursor whose windows are the columns and rows of `view`.
    pub fn new(view: &Rect) -> (r: Self)
        ensures
            r == Self::spec_on(*view),
            r.xv() == (CursorView { start: 0, head: 0, view_head: view.x, view_start: view.x, view_size: view.w }),
            r.yv() == (CursorView { start: 0, head: 0, view_head: view.y, view_start: view.y, view_size: view.h }),
    {
        ScreenCursor { x: CursorView::new(view.x, view.w), y: CursorView::new(view.y, view.h) }
    }

    pub fn get_x_cursor(&self) -> (r: u16)
        ensures
            r == self.xv().view_head,
    {
        self.x.get_cursor()
    }

    pub fn get_y_cursor(&self) -> (r: u16)
        ensures
            r == self.yv().view_head,
    {
        self.y.get_cursor()
    }

    pub fn get_x_scroll(&self) -> (r: usize)
        ensures
            r == self.xv().start,
    {
        self.x.get_scroll()
    }

    pub fn get_y_scroll(&self) -> (r: usize)
        ensures
            r == self.yv().start,
    {
        self.y.get_scroll()
    }

    /// Moves the windows onto `rect`, with the plane's current row `y_head`
    /// and the screen width `x_head` of its current line before the cursor.
    pub fn resize(&mut self, y_head: usize, x_head: usize, rect: &Rect)
        requires
            old(self).yv().resize_ok(y_head, rect.y, rect.h),
            old(self).xv().resize_ok(x_head, rect.x, rect.w),
        ensures
            final(self).yv() == old(self).yv().spec_resize(y_head, rect.y, rect.h),
            final(self).xv() == old(self).xv().spec_resize(x_head, rect.x, rect.w),
    {
        self.y.resize(y_head, rect.y, rect.h);
        self.x.resize(x_head, rect.x, rect.w);
    }

    /// Moves the heads to row `y_head` and to the screen width `x_head` before
    /// the cursor on the current line; returns whether either window scrolled.
    pub fn update(&mut self, y_head: usize, x_head: usize) -> (scrolled: bool)
        requires
            old(self).yv().update_ok(y_head),
            old(self).xv().update_ok(x_head),
        ensures
            final(self).yv() == old(self).yv().spec_update(y_head).0,
            final(self).xv() == old(self).xv().spec_update(x_head).0,
            scrolled == (old(self).yv().spec_update(y_head).1 || old(self).xv().spec_update(x_head).1),
    {
        let y = self.y.update(y_head);
        let x = self.x.update(x_head);
        x || y
    }
}

} // verus!
