//! Views that keep a cursor on screen as it moves through units, counting
//! units or the columns they take.
use vstd::prelude::*;
use crate::widget::Rect;
use crate::screen::LineView;
use crate::scroll::{resized, resized_ok, sat_sub};
use crate::width::{width_of, width_between, clamp, clamp_end};

verus! {

/// A window onto a line of units, one unit per cell: `unit_head` is the unit
/// under the cursor, `unit_start` the first unit shown, and the window spans
/// `view_size` cells from `view_start` with the cursor at `view_head`.
#[derive(Clone, Debug, Default)]
pub struct UnitCursorView {
    pub unit_head: usize,
    pub unit_start: usize,
    pub view_head: u16,
    pub view_start: u16,
    pub view_size: u16,
}

impl UnitCursorView {
    /// The same window as a `LineView`, whose arithmetic it shares.
    pub open spec fn as_line(self) -> LineView {
        LineView {
            line_head: self.unit_head,
            line_start: self.unit_start,
            view_head: self.view_head,
            view_start: self.view_start,
            view_size: self.view_size,
        }
    }

    pub open spec fn from_line(l: LineView) -> UnitCursorView {
        UnitCursorView {
            unit_head: l.line_head,
            unit_start: l.line_start,
            view_head: l.view_head,
            view_start: l.view_start,
            view_size: l.view_size,
        }
    }

    pub fn new(view_start: u16, view_size: u16) -> (r: Self)
        ensures
            r == (UnitCursorView { unit_start: 0, unit_head: 0, view_head: view_start, view_start, view_size }),
    {
        UnitCursorView { unit_start: 0, unit_head: 0, view_head: view_start, view_start, view_size }
    }

    pub fn scroll(&self) -> (r: usize)
        ensures
            r == self.unit_start,
    {
        self.unit_start
    }

    pub fn cursor(&self) -> (r: u16)
        ensures
            r == self.view_head,
    {
        self.view_head
    }

    /// Moves the window to `new_view_size` cells from `new_view_start` and the
    /// head to `head`, keeping the cursor's offset where it still fits.
    pub fn resize(&mut self, head: usize, new_view_start: u16, new_view_size: u16)
        requires
            old(self).as_line().resize_ok(head, new_view_start, new_view_size),
        ensures
            *final(self) == Self::from_line(old(self).as_line().spec_resize(head, new_view_start, new_view_size)),
    {
        let new_line_head = head;
        let cursor_position = self.view_head - self.view_start;
        self.view_start = new_view_start;
        self.view_size = new_view_size;
        self.unit_head = new_line_head;
        if new_line_head < new_view_size as usize {
            self.unit_start = 0;
            self.view_head = self.view_start + self.unit_head as u16;
        } else if cursor_position > new_view_size - 1 {
            self.view_head = self.view_start + self.view_size - 1;
            self.unit_start = self.unit_head - (self.view_size - 1) as usize;
        } else {
            self.view_head = self.view_start + cursor_position;
            self.unit_start = self.unit_head.saturating_sub(cursor_position as usize);
        }
    }

    /// Moves the head to `head`, scrolling just enough to keep the cursor on
    /// it; returns whether the window scrolled.
    pub fn update(&mut self, head: usize) -> (scrolled: bool)
        requires
            old(self).as_line().update_ok(head),
            head > old(self).unit_head ==> old(self).view_start + old(self).view_size <= u16::MAX,
        ensures
            *final(self) == Self::from_line(old(self).as_line().spec_update(head)),
            scrolled == old(self).as_line().spec_update_scrolls(head),
    {
        let mut scroll = false;
        let new_line_head = head;
        if new_line_head > self.unit_head {
            let diff = new_line_head - self.unit_head;
            let proposed = self.view_head as usize + diff;
            let max = (self.view_start + self.view_size) as usize - 1;
            if proposed >= max {
                self.unit_start = self.unit_start + proposed - max;
                scroll = true;
            }
        } else if new_line_head < self.unit_head {
            let diff = self.unit_head - new_line_head;
            let max_diff = self.view_head.saturating_sub(self.view_start) as usize;
            if diff > max_diff {
                self.unit_start = self.unit_start.saturating_sub(diff - max_diff);
                scroll = true;
            }
        }
        self.view_head = self.view_start + (new_line_head - self.unit_start) as u16;
        self.unit_head = new_line_head;
        scroll
    }
}

/// The columns that the units of `units` in `[from, to)` take, clamped to the
/// line.
pub open spec fn range_width(units: Seq<char>, from: usize, to: usize) -> int {
    width_of(units.subrange(clamp(from, units.len() as usize), clamp_end(from, to, units.len() as usize))) as int
}

/// A window onto a line of characters that counts the columns they take:
/// `unit_head` is the unit under the cursor, `unit_start` the first unit
/// shown, and the window spans `view_size` cells from `view_start` with the
/// cursor at `view_head`.
#[derive(Clone, Debug, Default)]
pub struct SizeCursorView {
    pub unit_head: usize,
    pub unit_start: usize,
    pub view_head: u16,
    pub view_start: u16,
    pub view_size: u16,
}

impl SizeCursorView {
    pub open spec fn as_line(self) -> LineView {
        LineView {
            line_head: self.unit_head,
            line_start: self.unit_start,
            view_head: self.view_head,
            view_start: self.view_start,
            view_size: self.view_size,
        }
    }

    pub open spec fn from_line(l: LineView) -> SizeCursorView {
        SizeCursorView {
            unit_head: l.line_head,
            unit_start: l.line_start,
            view_head: l.view_head,
            view_start: l.view_start,
            view_size: l.view_size,
        }
    }

    /// What `update(units, head)` makes of the view, and whether it scrolls.
    pub open spec fn spec_update(self, units: Seq<char>, head: usize) -> (SizeCursorView, bool) {
        let head_size = width_of(units.take(clamp(head, units.len() as usize))) as int;
        let full_size = width_of(units) as int;
        if self.view_head < head_size {
            let view_delta = range_width(units, self.unit_head, head);
            let unit_delta = head - self.unit_head;
            let max_view_delta = sat_sub(self.view_start + self.view_size, self.view_head as int);
            if view_delta >= max_view_delta {
                (SizeCursorView {
                    view_head: (self.view_head + (view_delta - max_view_delta)) as u16,
                    unit_start: (self.unit_start + sat_sub(unit_delta, max_view_delta)) as usize,
                    unit_head: head,
                    ..self
                }, true)
            } else {
                (SizeCursorView { view_head: (self.view_head + view_delta) as u16, unit_head: head, ..self }, false)
            }
        } else if self.view_head > head_size {
            let view_head = if self.view_head <= full_size { self.view_head as int } else { full_size };
            let unit_head = if units.len() <= self.unit_head { units.len() as int } else { self.unit_head as int };
            let max_view_delta = sat_sub(view_head, self.view_start as int);
            let view_delta = range_width(units, head, unit_head as usize);
            if view_delta > max_view_delta {
                let unit_start = sat_sub(self.unit_start as int, view_delta - max_view_delta);
                (SizeCursorView {
                    unit_start: unit_start as usize,
                    view_head: (self.view_start + (head - unit_start)) as u16,
                    unit_head: head,
                    ..self
                }, true)
            } else {
                (SizeCursorView { view_head: (view_head - view_delta) as u16, unit_head: head, ..self }, false)
            }
        } else {
            (self, false)
        }
    }

    /// The arithmetic of `update(units, head)` stays in range.
    pub open spec fn update_ok(self, units: Seq<char>, head: usize) -> bool {
        let head_size = width_of(units.take(clamp(head, units.len() as usize))) as int;
        let full_size = width_of(units) as int;
        &&& units.len() <= usize::MAX / 3
        &&& self.view_head < head_size ==> {
            let view_delta = range_width(units, self.unit_head, head);
            let max_view_delta = sat_sub(self.view_start + self.view_size, self.view_head as int);
            &&& self.unit_head <= head
            &&& self.view_start + self.view_size <= u16::MAX
            &&& view_delta >= max_view_delta ==> {
                &&& self.view_head + (view_delta - max_view_delta) <= u16::MAX
                &&& self.unit_start + sat_sub(head - self.unit_head, max_view_delta) <= usize::MAX
            }
            &&& view_delta < max_view_delta ==> self.view_head + view_delta <= u16::MAX
        }
        &&& self.view_head > head_size ==> {
            let view_head = if self.view_head <= full_size { self.view_head as int } else { full_size };
            let unit_head = if units.len() <= self.unit_head { units.len() as int } else { self.unit_head as int };
            let max_view_delta = sat_sub(view_head, self.view_start as int);
            let view_delta = range_width(units, head, unit_head as usize);
            let unit_start = sat_sub(self.unit_start as int, view_delta - max_view_delta);
            view_delta > max_view_delta ==> {
                &&& unit_start <= head
                &&& head - unit_start <= u16::MAX
                &&& self.view_start + (head - unit_start) <= u16::MAX
            }
        }
    }

    pub fn new(view_start: u16, view_size: u16) -> (r: Self)
        ensures
            r == (SizeCursorView { unit_start: 0, unit_head: 0, view_head: view_start, view_start, view_size }),
    {
        SizeCursorView { unit_start: 0, unit_head: 0, view_head: view_start, view_start, view_size }
    }

    pub fn scroll(&self) -> (r: usize)
        ensures
            r == self.unit_start,
    {
        self.unit_start
    }

    pub fn cursor(&self) -> (r: u16)
        ensures
            r == self.view_head,
    {
        self.view_head
    }

    /// Moves the window to `new_view_size` cells from `new_view_start` and the
    /// head to `head`, keeping the cursor's offset where it still fits.
    pub fn resize(&mut self, head: usize, new_view_start: u16, new_view_size: u16)
        requires
            old(self).as_line().resize_ok(head, new_view_start, new_view_size),
        ensures
            *final(self) == Self::from_line(old(self).as_line().spec_resize(head, new_view_start, new_view_size)),
    {
        let new_line_head = head;
        let cursor_position = self.view_head - self.view_start;
        self.view_start = new_view_start;
        self.view_size = new_view_size;
        self.unit_head = new_line_head;
        if new_line_head < new_view_size as usize {
            self.unit_start = 0;
            self.view_head = self.view_start + self.unit_head as u16;
        } else if cursor_position > new_view_size - 1 {
            self.view_head = self.view_start + self.view_size - 1;
            self.unit_start = self.unit_head - (self.view_size - 1) as usize;
        } else {
            self.view_head = self.view_start + cursor_position;
            self.unit_start = self.unit_head.saturating_sub(cursor_position as usize);
        }
    }

    /// Moves the head to unit `head` of `units`, moving the cursor by the
    /// columns passed and scrolling when it would leave the window; returns
    /// whether the window scrolled.
    pub fn update(&mut self, units: &Vec<char>, head: usize) -> (scrolled: bool)
        requires
            old(self).update_ok(units@, head),
        ensures
            (*final(self), scrolled) == old(self).spec_update(units@, head),
    {
        let head_size = width_between(units, 0, head);
        proof {
            assert(units@.subrange(0, clamp(head, units.len())) =~= units@.take(clamp(head, units.len())));
        }
        if (self.view_head as usize) < head_size {
            let view_delta = width_between(units, self.unit_head, head);
            let unit_delta = head - self.unit_head;
            let max_view_delta = (self.view_start + self.view_size).saturating_sub(self.view_head) as usize;
            if view_delta >= max_view_delta {
                self.view_head = self.view_head + (view_delta - max_view_delta) as u16;
                self.unit_start = self.unit_start + unit_delta.saturating_sub(max_view_delta);
                self.unit_head = head;
                true
            } else {
                self.view_head = self.view_head + view_delta as u16;
                self.unit_head = head;
                false
            }
        } else {
            let full_size = width_between(units, 0, units.len());
            proof {
                assert(units@.subrange(0, units.len() as int) =~= units@);
            }
            if (self.view_head as usize) > head_size {
                self.view_head = if (self.view_head as usize) <= full_size { self.view_head } else { full_size as u16 };
                self.unit_head = if units.len() <= self.unit_head { units.len() } else { self.unit_head };
                let max_view_delta = self.view_head.saturating_sub(self.view_start) as usize;
                let view_delta = width_between(units, head, self.unit_head);
                if view_delta > max_view_delta {
                    self.unit_start = self.unit_start.saturating_sub(view_delta - max_view_delta);
                    self.view_head = self.view_start + (head - self.unit_start) as u16;
                    self.unit_head = head;
                    true
                } else {
                    self.view_head = self.view_head - view_delta as u16;
                    self.unit_head = head;
                    false
                }
            } else {
                false
            }
        }
    }
}

/// A cursor on screen over lines of characters: the window across counts
/// columns, the window down counts lines.
#[derive(Clone, Debug, Default)]
pub struct ScreenCursor {
    x: SizeCursorView,
    y: UnitCursorView,
}

impl ScreenCursor {
    pub closed spec fn xv(self) -> SizeCursorView {
        self.x
    }

    pub closed spec fn yv(self) -> UnitCursorView {
        self.y
    }

    /// The cursor whose windows are the columns and rows of `rect`.
    pub fn new(rect: &Rect) -> (r: Self)
        ensures
            r.xv() == (SizeCursorView { unit_start: 0, unit_head: 0, view_head: rect.x, view_start: rect.x, view_size: rect.w }),
            r.yv() == (UnitCursorView { unit_start: 0, unit_head: 0, view_head: rect.y, view_start: rect.y, view_size: rect.h }),
    {
        ScreenCursor { x: SizeCursorView::new(rect.x, rect.w), y: UnitCursorView::new(rect.y, rect.h) }
    }

    pub fn x_cursor(&self) -> (r: u16)
        ensures
            r == self.xv().view_head,
    {
        self.x.view_head
    }

    pub fn y_cursor(&self) -> (r: u16)
        ensures
            r == self.yv().view_head,
    {
        self.y.view_head
    }

    pub fn x_scroll(&self) -> (r: usize)
        ensures
            r == self.xv().unit_start,
    {
        self.x.unit_start
    }

    pub fn y_scroll(&self) -> (r: usize)
        ensures
            r == self.yv().unit_start,
    {
        self.y.unit_start
    }

    /// Moves the windows onto `rect`, with the plane's current line `y_head`
    /// and the unit `x_head` under the cursor on it.
    pub fn resize(&mut self, y_head: usize, x_head: usize, rect: &Rect)
        requires
            old(self).yv().as_line().resize_ok(y_head, rect.y, rect.h),
            old(self).xv().as_line().resize_ok(x_head, rect.x, rect.w),
        ensures
            final(self).yv() == UnitCursorView::from_line(old(self).yv().as_line().spec_resize(y_head, rect.y, rect.h)),
            final(self).xv() == SizeCursorView::from_line(old(self).xv().as_line().spec_resize(x_head, rect.x, rect.w)),
    {
        self.y.resize(y_head, rect.y, rect.h);
        self.x.resize(x_head, rect.x, rect.w);
    }

    /// Moves the heads to line `y_head` and to unit `x_head` of the current
    /// line `line`; returns whether either window scrolled.
    pub fn update(&mut self, y_head: usize, line: &Vec<char>, x_head: usize) -> (scrolled: bool)
        requires
            old(self).yv().as_line().update_ok(y_head),
            y_head > old(self).yv().unit_head ==> old(self).yv().view_start + old(self).yv().view_size <= u16::MAX,
            old(self).xv().update_ok(line@, x_head),
        ensures
            final(self).yv() == UnitCursorView::from_line(old(self).yv().as_line().spec_update(y_head)),
            final(self).xv() == old(self).xv().spec_update(line@, x_head).0,
            scrolled == (old(self).yv().as_line().spec_update_scrolls(y_head) || old(self).xv().spec_update(line@, x_head).1),
    {
        let y = self.y.update(y_head);
        let x = self.x.update(line, x_head);
        x || y
    }
}

} // verus!
