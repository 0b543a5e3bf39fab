//! A screen cursor built from two line cursors, which can also report the
//! window it covers.
use vstd::prelude::*;
use crate::rect::Rect;
use crate::scroll::{resized, resized_ok, stepped, stepped_ok, window_wf};

verus! {

/// The cursor along one axis: `head` is the datum under the cursor, `scroll`
/// the first datum shown, `cursor` the cursor's screen position, and the
/// window spans `size` cells from `start`.
#[derive(Copy, Clone, Debug, Default)]
pub struct LineCursor {
    head: usize,
    scroll: usize,
    cursor: u16,
    start: u16,
    size: u16,
}

impl LineCursor {
    pub closed spec fn head(self) -> usize {
        self.head
    }

    pub closed spec fn scroll(self) -> usize {
        self.scroll
    }

    pub closed spec fn cursor(self) -> u16 {
        self.cursor
    }

    pub closed spec fn start(self) -> u16 {
        self.start
    }

    pub closed spec fn size(self) -> u16 {
        self.size
    }

    /// The cursor lies in the window and shows the head.
    pub open spec fn wf(self) -> bool {
        window_wf(self.head() as int, self.scroll() as int, self.cursor() as int, self.start() as int, self.size() as int)
    }

    pub open spec fn resize_ok(self, new_head: usize, new_start: u16, new_size: u16) -> bool {
        resized_ok(self.cursor() as int, self.start() as int, new_head as int, new_start as int, new_size as int)
    }

    pub open spec fn update_ok(self, new_head: usize) -> bool {
        stepped_ok(self.head() as int, self.scroll() as int, self.cursor() as int, self.start() as int, self.size() as int, new_head as int)
    }

    pub fn new(start: u16, size: u16) -> (r: Self)
        ensures
            r.head() == 0,
            r.scroll() == 0,
            r.cursor() == start,
            r.start() == start,
            r.size() == size,
    {
        LineCursor { scroll: 0, head: 0, cursor: start, start, size }
    }

    pub fn get_scroll(&self) -> (r: usize)
        ensures
            r == self.scroll(),
    {
        self.scroll
    }

    pub fn get_cursor(&self) -> (r: u16)
        ensures
            r == self.cursor(),
    {
        self.cursor
    }

    pub fn get_size(&self) -> (r: u16)
        ensures
            r == self.size(),
    {
        self.size
    }

    pub fn get_start(&self) -> (r: u16)
        ensures
            r == self.start(),
    {
        self.start
    }

    /// Moves the window to `new_size` cells from `new_start` and the head to
    /// `new_head`, keeping the cursor's offset where it still fits.
    pub fn resize(&mut self, new_head: usize, new_start: u16, new_size: u16)
        requires
            old(self).resize_ok(new_head, new_start, new_size),
        ensures
            final(self).head() == new_head,
            final(self).start() == new_start,
            final(self).size() == new_size,
            (final(self).scroll() as int, final(self).cursor() as int) == resized(old(self).cursor() as int, old(self).start() as int, new_head as int, new_start as int, new_size as int),
    {
        let position = self.cursor - self.start;
        self.start = new_start;
        self.size = new_size;
        self.head = new_head;
        if new_head < new_size as usize {
            self.scroll = 0;
            self.cursor = self.start + self.head as u16;
        } else if position > new_size - 1 {
            self.cursor = self.start + self.size - 1;
            self.scroll = self.head - (self.size - 1) as usize;
        } else {
            self.cursor = self.start + position;
            self.scroll = self.head.saturating_sub(position as usize);
        }
    }

    /// Moves the head to `new_head`, scrolling just enough to keep the cursor
    /// on it; returns whether the window scrolled.
    pub fn update(&mut self, new_head: usize) -> (scrolled: bool)
        requires
            old(self).update_ok(new_head),
        ensures
            final(self).head() == new_head,
            final(self).start() == old(self).start(),
            final(self).size() == old(self).size(),
            (final(self).scroll() as int, final(self).cursor() as int, scrolled) == stepped(old(self).head() as int, old(self).scroll() as int, old(self).cursor() as int, old(self).start() as int, old(self).size() as int, new_head as int),
    {
        if self.head == new_head {
            false
        } else if self.head < new_head {
            let delta_size = new_head - self.head;
            let max_delta = (self.start + self.size.saturating_sub(1)).saturating_sub(self.cursor);
            if delta_size < max_delta as usize {
                self.cursor = self.cursor + delta_size as u16;
                self.head = new_head;
                false
            } else {
                self.scroll = self.scroll + (delta_size - max_delta as usize);
                self.cursor = self.cursor + max_delta;
                self.head = new_head;
                true
            }
        } else {
            let delta_size = self.head - new_head;
            let max_delta = self.cursor.saturating_sub(self.start);
            if delta_size <= max_delta as usize {
                self.cursor = self.cursor - delta_size as u16;
                self.head = new_head;
                false
            } else {
                self.scroll = self.scroll.saturating_sub(delta_size - max_delta as usize);
                self.cursor = self.start + (new_head - self.scroll) as u16;
                self.head = new_head;
                true
            }
        }
    }
}

/// A cursor on screen: one line cursor across, one down.
#[derive(Copy, Clone, Debug, Default)]
pub struct ScreenCursor {
    x: LineCursor,
    y: LineCursor,
}

impl ScreenCursor {
    pub closed spec fn xl(self) -> LineCursor {
        self.x
    }

    pub closed spec fn yl(self) -> LineCursor {
        self.y
    }

    /// The cursor whose windows are the columns and rows of `view`.
    pub fn new(view: &Rect) -> (r: Self)
        ensures
            r.xl().head() == 0 && r.xl().scroll() == 0 && r.xl().cursor() == view.x && r.xl().start() == view.x && r.xl().size() == view.w,
            r.yl().head() == 0 && r.yl().scroll() == 0 && r.yl().cursor() == view.y && r.yl().start() == view.y && r.yl().size() == view.h,
    {
        ScreenCursor { x: LineCursor::new(view.x, view.w), y: LineCursor::new(view.y, view.h) }
    }

    /// The window the cursor covers.
    pub fn get_view_port(&self) -> (r: Rect)
        ensures
            r == (Rect { x: self.xl().start(), y: self.yl().start(), w: self.xl().size(), h: self.yl().size() }),
    {
        Rect { x: self.x.get_start(), y: self.y.get_start(), w: self.x.get_size(), h: self.y.get_size() }
    }

    pub fn get_x_line(&self) -> (r: LineCursor)
        ensures
            r == self.xl(),
    {
        self.x
    }

    pub fn get_y_line(&self) -> (r: LineCursor)
        ensures
            r == self.yl(),
    {
        self.y
    }

    pub fn get_x_cursor(&self) -> (r: u16)
        ensures
            r == self.xl().cursor(),
    {
        self.x.get_cursor()
    }

    pub fn get_y_cursor(&self) -> (r: u16)
        ensures
            r == self.yl().cursor(),
    {
        self.y.get_cursor()
    }

    pub fn get_width(&self) -> (r: u16)
        ensures
            r == self.xl().size(),
    {
        self.x.get_size()
    }

    pub fn get_height(&self) -> (r: u16)
        ensures
            r == self.yl().size(),
    {
        self.y.get_size()
    }

    pub fn get_x_scroll(&self) -> (r: usize)
        ensures
            r == self.xl().scroll(),
    {
        self.x.get_scroll()
    }

    pub fn get_y_scroll(&self) -> (r: usize)
        ensures
            r == self.yl().scroll(),
    {
        self.y.get_scroll()
    }

    /// Moves the windows onto `rect`, with the plane's current row `y_head`
    /// and the screen width `x_head` of its current line before the cursor.
    pub fn resize(&mut self, y_head: usize, x_head: usize, rect: &Rect)
        requires
            old(self).yl().resize_ok(y_head, rect.y, rect.h),
            old(self).xl().resize_ok(x_head, rect.x, rect.w),
        ensures
            final(self).yl().head() == y_head && final(self).yl().start() == rect.y && final(self).yl().size() == rect.h,
            final(self).xl().head() == x_head && final(self).xl().start() == rect.x && final(self).xl().size() == rect.w,
            (final(self).yl().scroll() as int, final(self).yl().cursor() as int) == resized(old(self).yl().cursor() as int, old(self).yl().start() as int, y_head as int, rect.y as int, rect.h as int),
            (final(self).xl().scroll() as int, final(self).xl().cursor() as int) == resized(old(self).xl().cursor() as int, old(self).xl().start() as int, x_head as int, rect.x as int, rect.w as int),
    {
        self.y.resize(y_head, rect.y, rect.h);
        self.x.resize(x_head, rect.x, rect.w);
    }

    /// Moves the heads to row `y_head` and to the screen width `x_head` before
    /// the cursor on the current line; returns whether either window scrolled.
    pub fn update(&mut self, y_head: usize, x_head: usize) -> (scrolled: bool)
        requires
            old(self).yl().update_ok(y_head),
            old(self).xl().update_ok(x_head),
        ensures
            final(self).yl().head() == y_head && final(self).yl().start() == old(self).yl().start() && final(self).yl().size() == old(self).yl().size(),
            final(self).xl().head() == x_head && final(self).xl().start() == old(self).xl().start() && final(self).xl().size() == old(self).xl().size(),
            ({
                let (ys, yc, yscroll) = stepped(old(self).yl().head() as int, old(self).yl().scroll() as int, old(self).yl().cursor() as int, old(self).yl().start() as int, old(self).yl().size() as int, y_head as int);
                let (xs, xc, xscroll) = stepped(old(self).xl().head() as int, old(self).xl().scroll() as int, old(self).xl().cursor() as int, old(self).xl().start() as int, old(self).xl().size() as int, x_head as int);
                &&& final(self).yl().scroll() == ys && final(self).yl().cursor() == yc
                &&& final(self).xl().scroll() == xs && final(self).xl().cursor() == xc
                &&& scrolled == (yscroll || xscroll)
            }),
    {
        let y = self.y.update(y_head);
        let x = self.x.update(x_head);
        x || y
    }
}

} // verus!
