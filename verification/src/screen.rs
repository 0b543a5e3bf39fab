//! Rectangles that crop and split, and the views that scroll a line or a
//! plane of data through a window of the screen.
use vstd::prelude::*;
use std::ops::Range;

verus! {

/// The range between `a` and `b`, whichever is smaller first.
pub fn safe_range(a: u16, b: u16) -> (r: Range<u16>)
    ensures
        r.start <= r.end,
        a <= b ==> r.start == a && r.end == b,
        b < a ==> r.start == b && r.end == a,
{
    if a <= b {
        Range { start: a, end: b }
    } else {
        Range { start: b, end: a }
    }
}

/// A rectangle of cells: its north-west corner `(x, y)`, width `w` and height `h`.
#[derive(Clone, Default, Copy)]
pub struct Rect {
    pub x: u16,
    pub y: u16,
    pub w: u16,
    pub h: u16,
}

/// `n - 1`, or 0 when `n` is 0.
pub open spec fn sat_dec(n: int) -> u16 {
    if n > 0 { (n - 1) as u16 } else { 0 }
}

impl Rect {
    pub open spec fn spec_x_end(self) -> int {
        self.x + self.w
    }

    pub open spec fn spec_y_end(self) -> int {
        self.y + self.h
    }

    /// Both ends of the rectangle fit in `u16`.
    pub open spec fn fits(self) -> bool {
        self.spec_x_end() <= u16::MAX && self.spec_y_end() <= u16::MAX
    }

    /// `inner` lies within `self`.
    pub open spec fn encloses(self, inner: Rect) -> bool {
        &&& self.x <= inner.x
        &&& self.y <= inner.y
        &&& inner.spec_x_end() <= self.spec_x_end()
        &&& inner.spec_y_end() <= self.spec_y_end()
    }

    /// What `crop_north(step)` gives.
    pub open spec fn spec_crop_north(self, step: u16) -> Rect {
        if step * 2 < self.h {
            Rect { y: (self.y + step) as u16, h: (self.h - step) as u16, ..self }
        } else {
            self
        }
    }

    /// What `crop_south(step)` gives.
    pub open spec fn spec_crop_south(self, step: u16) -> Rect {
        if step < self.h {
            Rect { h: (self.h - step) as u16, ..self }
        } else {
            self
        }
    }

    /// What `crop_east(step)` gives.
    pub open spec fn spec_crop_east(self, step: u16) -> Rect {
        if step < self.w {
            Rect { w: (self.w - step) as u16, ..self }
        } else {
            self
        }
    }

    /// What `crop_west(step)` gives.
    pub open spec fn spec_crop_west(self, step: u16) -> Rect {
        if step * 2 < self.w {
            Rect { x: (self.x + step) as u16, w: (self.w - step) as u16, ..self }
        } else {
            self
        }
    }

    /// The arithmetic of `crop_north(step)` stays within `u16`.
    pub open spec fn crop_north_ok(self, step: u16) -> bool {
        &&& step * 2 <= u16::MAX
        &&& step * 2 < self.h ==> self.y + step <= u16::MAX
    }

    /// The arithmetic of `crop_west(step)` stays within `u16`.
    pub open spec fn crop_west_ok(self, step: u16) -> bool {
        &&& step * 2 <= u16::MAX
        &&& step * 2 < self.w ==> self.x + step <= u16::MAX
    }

    pub fn new(w: u16, h: u16) -> (r: Self)
        ensures
            r == (Rect { x: 0, y: 0, w, h }),
    {
        Rect { x: 0, y: 0, w, h }
    }

    pub fn x_end(&self) -> (r: u16)
        requires
            self.spec_x_end() <= u16::MAX,
        ensures
            r == self.spec_x_end(),
    {
        self.x + self.w
    }

    pub fn y_end(&self) -> (r: u16)
        requires
            self.spec_y_end() <= u16::MAX,
        ensures
            r == self.spec_y_end(),
    {
        self.y + self.h
    }

    /// The one-row rectangle at row `y` with this rectangle's columns.
    pub fn row(&self, y: u16) -> (r: Self)
        ensures
            r == (Rect { x: self.x, y, w: self.w, h: 1 }),
    {
        Rect { x: self.x, y, w: self.w, h: 1 }
    }

    pub fn a(&self) -> (r: (u16, u16))
        ensures
            r == (self.x, self.y),
    {
        (self.x, self.y)
    }

    pub fn b(&self) -> (r: (u16, u16))
        requires
            self.spec_x_end() <= u16::MAX,
        ensures
            r == (sat_dec(self.spec_x_end()), self.y),
    {
        (self.x_end().saturating_sub(1), self.y)
    }

    pub fn c(&self) -> (r: (u16, u16))
        requires
            self.spec_y_end() <= u16::MAX,
        ensures
            r == (self.x, sat_dec(self.spec_y_end())),
    {
        (self.x, self.y_end().saturating_sub(1))
    }

    pub fn d(&self) -> (r: (u16, u16))
        requires
            self.fits(),
        ensures
            r == (sat_dec(self.spec_x_end()), sat_dec(self.spec_y_end())),
    {
        (self.x_end().saturating_sub(1), self.y_end().saturating_sub(1))
    }

    /// The row just below the rectangle.
    pub fn bottom_row(&self) -> (r: Self)
        requires
            self.spec_y_end() <= u16::MAX,
        ensures
            r == (Rect { x: self.x, y: self.spec_y_end() as u16, w: self.w, h: 1 }),
    {
        self.row(self.y_end())
    }

    pub fn x_range(&self) -> (r: Range<u16>)
        requires
            self.spec_x_end() <= u16::MAX,
        ensures
            r.start == self.x,
            r.end == self.spec_x_end(),
    {
        Range { start: self.x, end: self.x_end() }
    }

    pub fn y_range(&self) -> (r: Range<u16>)
        requires
            self.spec_y_end() <= u16::MAX,
        ensures
            r.start == self.y,
            r.end == self.spec_y_end(),
    {
        Range { start: self.y, end: self.y_end() }
    }

    /// The rectangle with its height capped at `h`.
    pub fn limit_h(&self, h: u16) -> (r: Self)
        ensures
            r == (Rect { h: if h < self.h { h } else { self.h }, ..*self }),
    {
        let mut rect = *self;
        rect.h = if h < self.h { h } else { self.h };
        rect
    }

    /// The columns left after dropping `step` from the west, or an empty
    /// range at the east edge when the rectangle is narrower than `step`.
    pub fn cropped_west_range(&self, step: u16) -> (r: Range<u16>)
        requires
            self.spec_x_end() <= u16::MAX,
        ensures
            self.w >= step ==> r.start == self.x + step && r.end == self.spec_x_end(),
            self.w < step ==> r.start == self.spec_x_end() && r.end == self.spec_x_end(),
    {
        if self.w >= step {
            Range { start: self.x + step, end: self.x_end() }
        } else {
            Range { start: self.x_end(), end: self.x_end() }
        }
    }

    /// The rows left after dropping `step` from the north, or an empty range
    /// at the south edge when the rectangle is shorter than `step`.
    pub fn cropped_north_range(&self, step: u16) -> (r: Range<u16>)
        requires
            self.spec_y_end() <= u16::MAX,
        ensures
            self.h >= step ==> r.start == self.y + step && r.end == self.spec_y_end(),
            self.h < step ==> r.start == self.spec_y_end() && r.end == self.spec_y_end(),
    {
        if self.h >= step {
            Range { start: self.y + step, end: self.y_end() }
        } else {
            Range { start: self.y_end(), end: self.y_end() }
        }
    }

    /// The columns left after dropping `step` from both the west and the east.
    pub fn cropped_x_range(&self, step: u16) -> (r: Range<u16>)
        requires
            self.spec_x_end() <= u16::MAX,
            self.x + step <= u16::MAX,
            step <= self.spec_x_end(),
        ensures
            r.start == self.x + step,
            r.end == self.spec_x_end() - step,
    {
        Range { start: self.x + step, end: self.x_end() - step }
    }

    /// The rows left after dropping `step` from both the north and the south.
    pub fn cropped_y_range(&self, step: u16) -> (r: Range<u16>)
        requires
            self.spec_y_end() <= u16::MAX,
            self.y + step <= u16::MAX,
            step <= self.spec_y_end(),
        ensures
            r.start == self.y + step,
            r.end == self.spec_y_end() - step,
    {
        Range { start: self.y + step, end: self.y_end() - step }
    }

    /// The first and the last column left after dropping `step` from both sides.
    pub fn cropped_x_points(&self, step: u16) -> (r: (u16, u16))
        requires
            self.spec_x_end() <= u16::MAX,
            self.x + step <= u16::MAX,
            step + 1 <= self.spec_x_end(),
        ensures
            r.0 == self.x + step,
            r.1 == self.spec_x_end() - (step + 1),
    {
        (self.x + step, self.x_end() - (step + 1))
    }

    pub fn resize(&mut self, w: u16, h: u16)
        ensures
            *final(self) == (Rect { w, h, ..*old(self) }),
    {
        self.w = w;
        self.h = h;
    }

    pub fn cropped_south(self, step: u16) -> (r: Self)
        ensures
            r == self.spec_crop_south(step),
    {
        self.crop_south(step)
    }

    pub fn cropped_east(self, step: u16) -> (r: Self)
        ensures
            r == self.spec_crop_east(step),
    {
        self.crop_east(step)
    }

    pub fn cropped_north(self, step: u16) -> (r: Self)
        requires
            self.crop_north_ok(step),
        ensures
            r == self.spec_crop_north(step),
    {
        self.crop_north(step)
    }

    pub fn cropped_west(self, step: u16) -> (r: Self)
        requires
            self.crop_west_ok(step),
        ensures
            r == self.spec_crop_west(step),
    {
        self.crop_west(step)
    }

    /// Drops `step` rows from the south, unless the rectangle has no more than
    /// `step` rows.
    pub fn crop_south(self, step: u16) -> (r: Self)
        ensures
            r == self.spec_crop_south(step),
    {
        let mut rect = self;
        if step < rect.h {
            rect.h = rect.h - step;
        }
        rect
    }

    /// Drops `step` columns from the east, unless the rectangle has no more
    /// than `step` columns.
    pub fn crop_east(self, step: u16) -> (r: Self)
        ensures
            r == self.spec_crop_east(step),
    {
        let mut rect = self;
        if step < rect.w {
            rect.w = rect.w - step;
        }
        rect
    }

    /// Drops `step` rows from the north, unless that would leave no more than
    /// `step` rows.
    pub fn crop_north(self, step: u16) -> (r: Self)
        requires
            self.crop_north_ok(step),
        ensures
            r == self.spec_crop_north(step),
    {
        let mut rect = self;
        if step * 2 < rect.h {
            rect.y = rect.y + step;
            rect.h = rect.h - step;
        }
        rect
    }

    /// Drops `step` columns from the west, unless that would leave no more
    /// than `step` columns.
    pub fn crop_west(self, step: u16) -> (r: Self)
        requires
            self.crop_west_ok(step),
        ensures
            r == self.spec_crop_west(step),
    {
        let mut rect = self;
        if step * 2 < rect.w {
            rect.x = rect.x + step;
            rect.w = rect.w - step;
        }
        rect
    }

    /// Crops `step` rows from the north and then from the south.
    pub fn crop_y(self, step: u16) -> (r: Self)
        requires
            self.crop_north_ok(step),
        ensures
            r == self.spec_crop_north(step).spec_crop_south(step),
    {
        self.crop_north(step).crop_south(step)
    }

    /// Crops `step` columns from the east and then from the west.
    pub fn crop_x(self, step: u16) -> (r: Self)
        requires
            self.spec_crop_east(step).crop_west_ok(step),
        ensures
            r == self.spec_crop_east(step).spec_crop_west(step),
    {
        self.crop_east(step).crop_west(step)
    }

    /// The rows between the south edges of `self` and `rect`.
    pub fn south_range(&self, rect: &Rect) -> (r: Range<u16>)
        requires
            self.spec_y_end() <= u16::MAX,
            rect.spec_y_end() <= u16::MAX,
        ensures
            r.start <= r.end,
            r.start == min(self.spec_y_end(), rect.spec_y_end()),
            r.end == max(self.spec_y_end(), rect.spec_y_end()),
    {
        let a = self.y_end();
        let b = rect.y_end();
        safe_range(a, b)
    }

    /// The columns between the east edges of `self` and `rect`.
    pub fn east_range(&self, rect: &Rect) -> (r: Range<u16>)
        requires
            self.spec_x_end() <= u16::MAX,
            rect.spec_x_end() <= u16::MAX,
        ensures
            r.start <= r.end,
            r.start == min(self.spec_x_end(), rect.spec_x_end()),
            r.end == max(self.spec_x_end(), rect.spec_x_end()),
    {
        let a = self.x_end();
        let b = rect.x_end();
        safe_range(a, b)
    }

    /// The rows between the north edges of `self` and `rect`.
    pub fn north_range(&self, rect: &Rect) -> (r: Range<u16>)
        ensures
            r.start <= r.end,
            r.start == min(self.y as int, rect.y as int),
            r.end == max(self.y as int, rect.y as int),
    {
        let a = self.y;
        let b = rect.y;
        safe_range(a, b)
    }

    /// The columns between the west edges of `self` and `rect`.
    pub fn west_range(&self, rect: &Rect) -> (r: Range<u16>)
        ensures
            r.start <= r.end,
            r.start == min(self.x as int, rect.x as int),
            r.end == max(self.x as int, rect.x as int),
    {
        let a = self.x;
        let b = rect.x;
        safe_range(a, b)
    }
}

pub open spec fn min(a: int, b: int) -> int {
    if a <= b { a } else { b }
}

pub open spec fn max(a: int, b: int) -> int {
    if a <= b { b } else { a }
}

/// Cropping never leaves the rectangle it started from, on any side and by
/// any step.
pub proof fn lemma_crop_encloses(rect: Rect, step: u16)
    requires
        rect.crop_north_ok(step),
        rect.crop_west_ok(step),
    ensures
        rect.encloses(rect.spec_crop_north(step)),
        rect.encloses(rect.spec_crop_south(step)),
        rect.encloses(rect.spec_crop_east(step)),
        rect.encloses(rect.spec_crop_west(step)),
        rect.encloses(rect.spec_crop_north(step).spec_crop_south(step)),
        rect.encloses(rect.spec_crop_east(step).spec_crop_west(step)),
{
}

/// A crop that takes effect keeps the opposite edge where it was and leaves
/// at least `step + 1` cells; one that would leave too few changes nothing.
pub proof fn lemma_crop_keeps_far_edge(rect: Rect, step: u16)
    requires
        rect.crop_north_ok(step),
        rect.crop_west_ok(step),
    ensures
        rect.spec_crop_north(step).spec_y_end() == rect.spec_y_end(),
        rect.spec_crop_west(step).spec_x_end() == rect.spec_x_end(),
        rect.spec_crop_north(step).h > step || rect.spec_crop_north(step) == rect,
        rect.spec_crop_west(step).w > step || rect.spec_crop_west(step) == rect,
        rect.spec_crop_south(step).y == rect.y,
        rect.spec_crop_east(step).x == rect.x,
{
}


/// The part of a line of data shown in a window of `view_size` cells that
/// starts at screen position `view_start`: `line_start` is the first datum
/// shown, `line_head` the datum under the cursor, `view_head` the cursor's
/// screen position.
#[derive(Clone, Debug, Default)]
pub struct LineView {
    pub line_head: usize,
    pub line_start: usize,
    pub view_head: u16,
    pub view_start: u16,
    pub view_size: u16,
}

impl LineView {
    /// The cursor lies inside the window and shows the head: the window
    /// starts `view_head - view_start` data before `line_head`.
    pub open spec fn wf(self) -> bool {
        &&& self.view_start <= self.view_head
        &&& self.view_head - self.view_start < self.view_size
        &&& self.line_start + (self.view_head - self.view_start) == self.line_head
        &&& self.view_start + self.view_size <= u16::MAX
    }

    /// What `resize(new_line_head, new_view_start, new_view_size)` makes of
    /// the view.
    pub open spec fn spec_resize(self, new_line_head: usize, new_view_start: u16, new_view_size: u16) -> LineView {
        let position = self.view_head - self.view_start;
        if new_line_head < new_view_size {
            LineView {
                line_head: new_line_head,
                line_start: 0,
                view_head: (new_view_start + new_line_head) as u16,
                view_start: new_view_start,
                view_size: new_view_size,
            }
        } else if position > new_view_size - 1 {
            LineView {
                line_head: new_line_head,
                line_start: (new_line_head - (new_view_size - 1)) as usize,
                view_head: (new_view_start + new_view_size - 1) as u16,
                view_start: new_view_start,
                view_size: new_view_size,
            }
        } else {
            LineView {
                line_head: new_line_head,
                line_start: if new_line_head >= position { (new_line_head - position) as usize } else { 0 },
                view_head: (new_view_start + position) as u16,
                view_start: new_view_start,
                view_size: new_view_size,
            }
        }
    }

    /// The arithmetic of `resize` stays in range on these arguments.
    pub open spec fn resize_ok(self, new_line_head: usize, new_view_start: u16, new_view_size: u16) -> bool {
        let position = self.view_head - self.view_start;
        &&& self.view_start <= self.view_head
        &&& if new_line_head < new_view_size {
            new_view_start + new_line_head <= u16::MAX
        } else if position > new_view_size - 1 {
            new_view_size >= 1 && new_view_start + new_view_size <= u16::MAX
        } else {
            new_view_size >= 1 && new_view_start + position <= u16::MAX
        }
    }

    /// The first datum shown after `update(new_line_head)`.
    pub open spec fn spec_update_start(self, new_line_head: usize) -> int {
        if new_line_head > self.line_head {
            let diff = new_line_head - self.line_head;
            let proposed = self.view_head + diff;
            let max = self.view_start + self.view_size - 1;
            if proposed >= max { self.line_start + proposed - max } else { self.line_start as int }
        } else if new_line_head < self.line_head {
            let diff = self.line_head - new_line_head;
            let max_diff = if self.view_head >= self.view_start { self.view_head - self.view_start } else { 0 };
            if diff > max_diff {
                if self.line_start >= diff - max_diff { self.line_start - (diff - max_diff) } else { 0 }
            } else {
                self.line_start as int
            }
        } else {
            self.line_start as int
        }
    }

    /// Whether `update(new_line_head)` scrolls the window.
    pub open spec fn spec_update_scrolls(self, new_line_head: usize) -> bool {
        if new_line_head > self.line_head {
            self.view_head + (new_line_head - self.line_head) >= self.view_start + self.view_size - 1
        } else if new_line_head < self.line_head {
            let max_diff = if self.view_head >= self.view_start { self.view_head - self.view_start } else { 0 };
            self.line_head - new_line_head > max_diff
        } else {
            false
        }
    }

    /// What `update(new_line_head)` makes of the view.
    pub open spec fn spec_update(self, new_line_head: usize) -> LineView {
        let start = self.spec_update_start(new_line_head);
        LineView {
            line_head: new_line_head,
            line_start: start as usize,
            view_head: (self.view_start + (new_line_head - start)) as u16,
            ..self
        }
    }

    /// The arithmetic of `update` stays in range for this head.
    pub open spec fn update_ok(self, new_line_head: usize) -> bool {
        let start = self.spec_update_start(new_line_head);
        &&& new_line_head > self.line_head ==> {
            &&& self.view_start + self.view_size >= 1
            &&& self.view_head + (new_line_head - self.line_head) <= usize::MAX
            &&& self.line_start + self.view_head + (new_line_head - self.line_head) <= usize::MAX
        }
        &&& start <= new_line_head
        &&& new_line_head - start <= u16::MAX
        &&& self.view_start + (new_line_head - start) <= u16::MAX
    }

    pub fn new(view_start: u16, view_size: u16) -> (r: Self)
        ensures
            r == (LineView { line_start: 0, line_head: 0, view_head: view_start, view_start, view_size }),
    {
        LineView { line_start: 0, line_head: 0, view_head: view_start, view_start, view_size }
    }

    pub fn scroll(&self) -> (r: usize)
        ensures
            r == self.line_start,
    {
        self.line_start
    }

    pub fn cursor(&self) -> (r: u16)
        ensures
            r == self.view_head,
    {
        self.view_head
    }

    /// Moves the window to `new_view_size` cells from `new_view_start` and the
    /// head to `new_line_head`, keeping the cursor's place in the window where
    /// it still fits.
    pub fn resize(&mut self, new_line_head: usize, new_view_start: u16, new_view_size: u16)
        requires
            old(self).resize_ok(new_line_head, new_view_start, new_view_size),
        ensures
            *final(self) == old(self).spec_resize(new_line_head, new_view_start, new_view_size),
    {
        let cursor_position = self.view_head - self.view_start;
        self.view_start = new_view_start;
        self.view_size = new_view_size;
        self.line_head = new_line_head;
        if new_line_head < new_view_size as usize {
            self.line_start = 0;
            self.view_head = self.view_start + self.line_head as u16;
        } else if cursor_position > new_view_size - 1 {
            self.view_head = self.view_start + self.view_size - 1;
            self.line_start = self.line_head - (self.view_size - 1) as usize;
        } else {
            self.view_head = self.view_start + cursor_position;
            self.line_start = self.line_head.saturating_sub(cursor_position as usize);
        }
    }

    /// Moves the head to `new_line_head`, scrolling the window just enough to
    /// keep the cursor on it; returns whether the window scrolled.
    pub fn update(&mut self, new_line_head: usize) -> (scrolled: bool)
        requires
            old(self).update_ok(new_line_head),
        ensures
            *final(self) == old(self).spec_update(new_line_head),
            scrolled == old(self).spec_update_scrolls(new_line_head),
    {
        let mut scroll = false;
        if new_line_head > self.line_head {
            let diff = new_line_head - self.line_head;
            let proposed = self.view_head as usize + diff;
            let max = self.view_start as usize + self.view_size as usize - 1;
            if proposed >= max {
                self.line_start = self.line_start + proposed - max;
                scroll = true;
            }
        } else if new_line_head < self.line_head {
            let diff = self.line_head - new_line_head;
            let max_diff = self.view_head.saturating_sub(self.view_start) as usize;
            if diff > max_diff {
                self.line_start = self.line_start.saturating_sub(diff - max_diff);
                scroll = true;
            }
        }
        self.view_head = self.view_start + (new_line_head - self.line_start) as u16;
        self.line_head = new_line_head;
        scroll
    }
}

/// A new view of a window at least one cell wide that fits on the screen is
/// well formed.
pub proof fn lemma_line_view_new_wf(view_start: u16, view_size: u16)
    requires
        view_size >= 1,
        view_start + view_size <= u16::MAX,
    ensures
        (LineView { line_start: 0, line_head: 0, view_head: view_start, view_start, view_size }).wf(),
{
}

/// Resizing to a window at least one cell wide that fits on the screen never
/// overflows, and leaves the cursor inside the window on the new head.
pub proof fn lemma_line_view_resize_wf(v: LineView, new_line_head: usize, new_view_start: u16, new_view_size: u16)
    requires
        v.view_start <= v.view_head,
        new_view_size >= 1,
        new_view_start + new_view_size <= u16::MAX,
    ensures
        v.resize_ok(new_line_head, new_view_start, new_view_size),
        v.spec_resize(new_line_head, new_view_start, new_view_size).wf(),
        v.spec_resize(new_line_head, new_view_start, new_view_size).line_head == new_line_head,
{
}

/// From a well-formed view, moving the head anywhere never overflows, keeps
/// the view well formed, and puts the cursor on the new head.
pub proof fn lemma_line_view_update_wf(v: LineView, new_line_head: usize)
    requires
        v.wf(),
        new_line_head + v.view_start + v.view_size <= usize::MAX,
    ensures
        v.update_ok(new_line_head),
        v.spec_update(new_line_head).wf(),
        v.spec_update(new_line_head).line_head == new_line_head,
{
}

/// `update` scrolls as little as keeps the cursor in the window: from a
/// well-formed view, the window starts at the new head when that lies
/// before it, ends at the new head when that lies past it, and stays where
/// it was otherwise; a view that reports no scroll keeps its start.
pub proof fn lemma_line_view_update_scrolls_least(v: LineView, new_line_head: usize)
    requires
        v.wf(),
        new_line_head + v.view_start + v.view_size <= usize::MAX,
    ensures
        v.spec_update(new_line_head).line_start == if new_line_head < v.line_start {
            new_line_head as int
        } else if new_line_head >= v.line_start + v.view_size {
            new_line_head + 1 - v.view_size
        } else {
            v.line_start as int
        },
        !v.spec_update_scrolls(new_line_head) ==> v.spec_update(new_line_head).line_start == v.line_start,
{
}

/// A view of a plane: one line view across, one down.
#[derive(Clone, Debug, Default)]
pub struct PlaneView {
    x: LineView,
    y: LineView,
}

impl PlaneView {
    /// The view across the plane.
    pub closed spec fn x_view(self) -> LineView {
        self.x
    }

    /// The view down the plane.
    pub closed spec fn y_view(self) -> LineView {
        self.y
    }

    pub fn new(rect: &Rect) -> (r: Self)
        ensures
            r.x_view() == (LineView { line_start: 0, line_head: 0, view_head: rect.x, view_start: rect.x, view_size: rect.w }),
            r.y_view() == (LineView { line_start: 0, line_head: 0, view_head: rect.y, view_start: rect.y, view_size: rect.h }),
    {
        PlaneView { x: LineView::new(rect.x, rect.w), y: LineView::new(rect.y, rect.h) }
    }

    pub fn x_cursor(&self) -> (r: u16)
        ensures
            r == self.x_view().view_head,
    {
        self.x.view_head
    }

    pub fn y_cursor(&self) -> (r: u16)
        ensures
            r == self.y_view().view_head,
    {
        self.y.view_head
    }

    pub fn x_scroll(&self) -> (r: usize)
        ensures
            r == self.x_view().line_start,
    {
        self.x.line_start
    }

    pub fn y_scroll(&self) -> (r: usize)
        ensures
            r == self.y_view().line_start,
    {
        self.y.line_start
    }

    /// Moves the view onto `rect` with the plane's heads at column `x_head`
    /// and row `y_head`.
    pub fn resize(&mut self, x_head: usize, y_head: usize, rect: &Rect)
        requires
            old(self).x_view().resize_ok(x_head, rect.x, rect.w),
            old(self).y_view().resize_ok(y_head, rect.y, rect.h),
        ensures
            final(self).x_view() == old(self).x_view().spec_resize(x_head, rect.x, rect.w),
            final(self).y_view() == old(self).y_view().spec_resize(y_head, rect.y, rect.h),
    {
        self.x.resize(x_head, rect.x, rect.w);
        self.y.resize(y_head, rect.y, rect.h);
    }

    /// Moves the heads to column `x_head` and row `y_head`; returns whether
    /// either view scrolled.
    pub fn update(&mut self, x_head: usize, y_head: usize) -> (scrolled: bool)
        requires
            old(self).x_view().update_ok(x_head),
            old(self).y_view().update_ok(y_head),
        ensures
            final(self).x_view() == old(self).x_view().spec_update(x_head),
            final(self).y_view() == old(self).y_view().spec_update(y_head),
            scrolled == (old(self).x_view().spec_update_scrolls(x_head) || old(self).y_view().spec_update_scrolls(y_head)),
    {
        let x = self.x.update(x_head);
        let y = self.y.update(y_head);
        x || y
    }
}

} // verus!
