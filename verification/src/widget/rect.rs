//! The rectangles that widgets are laid out in.
use vstd::prelude::*;
use std::ops::Range;

verus! {


/// A rectangle of cells: its north-west corner `(x, y)`, width `w` and height `h`.
#[derive(Clone, Default, Copy)]
pub struct Rect {
    pub x: u16,
    pub y: u16,
    pub w: u16,
    pub h: u16,
}

/// `n - 1`, or 0 when `n` is 0.
pub open spec fn sat_dec(n: int) -> u16 {
    if n > 0 { (n - 1) as u16 } else { 0 }
}

impl Rect {
    pub open spec fn spec_x_end(self) -> int {
        self.x + self.w
    }

    pub open spec fn spec_y_end(self) -> int {
        self.y + self.h
    }

    /// Both ends of the rectangle fit in `u16`.
    pub open spec fn fits(self) -> bool {
        self.spec_x_end() <= u16::MAX && self.spec_y_end() <= u16::MAX
    }

    /// `inner` lies within `self`.
    pub open spec fn encloses(self, inner: Rect) -> bool {
        &&& self.x <= inner.x
        &&& self.y <= inner.y
        &&& inner.spec_x_end() <= self.spec_x_end()
        &&& inner.spec_y_end() <= self.spec_y_end()
    }

    /// What `crop_north(step)` gives.
    pub open spec fn spec_crop_north(self, step: u16) -> Rect {
        if step * 2 < self.h {
            Rect { y: (self.y + step) as u16, h: (self.h - step) as u16, ..self }
        } else {
            self
        }
    }

    /// What `crop_south(step)` gives.
    pub open spec fn spec_crop_south(self, step: u16) -> Rect {
        if step < self.h {
            Rect { h: (self.h - step) as u16, ..self }
        } else {
            self
        }
    }

    /// What `crop_east(step)` gives.
    pub open spec fn spec_crop_east(self, step: u16) -> Rect {
        if step < self.w {
            Rect { w: (self.w - step) as u16, ..self }
        } else {
            self
        }
    }

    /// What `crop_west(step)` gives.
    pub open spec fn spec_crop_west(self, step: u16) -> Rect {
        if step * 2 < self.w {
            Rect { x: (self.x + step) as u16, w: (self.w - step) as u16, ..self }
        } else {
            self
        }
    }

    /// The arithmetic of `crop_north(step)` stays within `u16`.
    pub open spec fn crop_north_ok(self, step: u16) -> bool {
        &&& step * 2 <= u16::MAX
        &&& step * 2 < self.h ==> self.y + step <= u16::MAX
    }

    /// The arithmetic of `crop_west(step)` stays within `u16`.
    pub open spec fn crop_west_ok(self, step: u16) -> bool {
        &&& step * 2 <= u16::MAX
        &&& step * 2 < self.w ==> self.x + step <= u16::MAX
    }

    pub fn new(w: u16, h: u16) -> (r: Self)
        ensures
            r == (Rect { x: 0, y: 0, w, h }),
    {
        Rect { x: 0, y: 0, w, h }
    }

    pub fn x_end(&self) -> (r: u16)
        requires
            self.spec_x_end() <= u16::MAX,
        ensures
            r == self.spec_x_end(),
    {
        self.x + self.w
    }

    pub fn y_end(&self) -> (r: u16)
        requires
            self.spec_y_end() <= u16::MAX,
        ensures
            r == self.spec_y_end(),
    {
        self.y + self.h
    }

    /// The one-row rectangle at row `y` with this rectangle's columns.
    pub fn row(&self, y: u16) -> (r: Self)
        ensures
            r == (Rect { x: self.x, y, w: self.w, h: 1 }),
    {
        Rect { x: self.x, y, w: self.w, h: 1 }
    }

    pub fn a(&self) -> (r: (u16, u16))
        ensures
            r == (self.x, self.y),
    {
        (self.x, self.y)
    }

    pub fn b(&self) -> (r: (u16, u16))
        requires
            self.spec_x_end() <= u16::MAX,
        ensures
            r == (sat_dec(self.spec_x_end()), self.y),
    {
        (self.x_end().saturating_sub(1), self.y)
    }

    pub fn c(&self) -> (r: (u16, u16))
        requires
            self.spec_y_end() <= u16::MAX,
        ensures
            r == (self.x, sat_dec(self.spec_y_end())),
    {
        (self.x, self.y_end().saturating_sub(1))
    }

    pub fn d(&self) -> (r: (u16, u16))
        requires
            self.fits(),
        ensures
            r == (sat_dec(self.spec_x_end()), sat_dec(self.spec_y_end())),
    {
        (self.x_end().saturating_sub(1), self.y_end().saturating_sub(1))
    }

    /// The row just below the rectangle.
    pub fn bottom_row(&self) -> (r: Self)
        requires
            self.spec_y_end() <= u16::MAX,
        ensures
            r == (Rect { x: self.x, y: self.spec_y_end() as u16, w: self.w, h: 1 }),
    {
        self.row(self.y_end())
    }

    pub fn x_range(&self) -> (r: Range<u16>)
        requires
            self.spec_x_end() <= u16::MAX,
        ensures
            r.start == self.x,
            r.end == self.spec_x_end(),
    {
        Range { start: self.x, end: self.x_end() }
    }

    pub fn y_range(&self) -> (r: Range<u16>)
        requires
            self.spec_y_end() <= u16::MAX,
        ensures
            r.start == self.y,
            r.end == self.spec_y_end(),
    {
        Range { start: self.y, end: self.y_end() }
    }

    pub fn resize(&mut self, w: u16, h: u16)
        ensures
            *final(self) == (Rect { w, h, ..*old(self) }),
    {
        self.w = w;
        self.h = h;
    }

    pub fn cropped_south(&self, step: u16) -> (r: Self)
        ensures
            r == self.spec_crop_south(step),
    {
        self.clone().crop_south(step)
    }

    pub fn cropped_east(&self, step: u16) -> (r: Self)
        ensures
            r == self.spec_crop_east(step),
    {
        self.clone().crop_east(step)
    }

    pub fn cropped_north(&self, step: u16) -> (r: Self)
        requires
            self.crop_north_ok(step),
        ensures
            r == self.spec_crop_north(step),
    {
        self.clone().crop_north(step)
    }

    pub fn cropped_west(&self, step: u16) -> (r: Self)
        requires
            self.crop_west_ok(step),
        ensures
            r == self.spec_crop_west(step),
    {
        self.clone().crop_west(step)
    }

    /// Drops `step` rows from the south, unless the rectangle has no more than
    /// `step` rows.
    pub fn crop_south(self, step: u16) -> (r: Self)
        ensures
            r == self.spec_crop_south(step),
    {
        let mut rect = self;
        if step < rect.h {
            rect.h = rect.h - step;
        }
        rect
    }

    /// Drops `step` columns from the east, unless the rectangle has no more
    /// than `step` columns.
    pub fn crop_east(self, step: u16) -> (r: Self)
        ensures
            r == self.spec_crop_east(step),
    {
        let mut rect = self;
        if step < rect.w {
            rect.w = rect.w - step;
        }
        rect
    }

    /// Drops `step` rows from the north, unless that would leave no more than
    /// `step` rows.
    pub fn crop_north(self, step: u16) -> (r: Self)
        requires
            self.crop_north_ok(step),
        ensures
            r == self.spec_crop_north(step),
    {
        let mut rect = self;
        if step * 2 < rect.h {
            rect.y = rect.y + step;
            rect.h = rect.h - step;
        }
        rect
    }

    /// Drops `step` columns from the west, unless that would leave no more
    /// than `step` columns.
    pub fn crop_west(self, step: u16) -> (r: Self)
        requires
            self.crop_west_ok(step),
        ensures
            r == self.spec_crop_west(step),
    {
        let mut rect = self;
        if step * 2 < rect.w {
            rect.x = rect.x + step;
            rect.w = rect.w - step;
        }
        rect
    }

    /// Crops `step` rows from the north and then from the south.
    pub fn crop_y(self, step: u16) -> (r: Self)
        requires
            self.crop_north_ok(step),
        ensures
            r == self.spec_crop_north(step).spec_crop_south(step),
    {
        self.crop_north(step).crop_south(step)
    }

    /// Crops `step` columns from the east and then from the west.
    pub fn crop_x(self, step: u16) -> (r: Self)
        requires
            self.spec_crop_east(step).crop_west_ok(step),
        ensures
            r == self.spec_crop_east(step).spec_crop_west(step),
    {
        self.crop_east(step).crop_west(step)
    }
    /// Crops `step` columns from the east and then from the west.
    pub fn cropped_x(&self, step: u16) -> (r: Self)
        requires
            self.spec_crop_east(step).crop_west_ok(step),
        ensures
            r == self.spec_crop_east(step).spec_crop_west(step),
    {
        self.clone().crop_x(step)
    }

    /// Crops `step` rows from the north and then from the south.
    pub fn cropped_y(&self, step: u16) -> (r: Self)
        requires
            self.crop_north_ok(step),
        ensures
            r == self.spec_crop_north(step).spec_crop_south(step),
    {
        self.clone().crop_y(step)
    }

    /// The rectangle with its width capped at `w`.
    pub fn cap_width(self, w: u16) -> (r: Self)
        ensures
            r == (Rect { w: if w < self.w { w } else { self.w }, ..self }),
    {
        let mut rect = self;
        rect.w = if w < rect.w { w } else { rect.w };
        rect
    }

    /// The rectangle with its height capped at `h`.
    pub fn cap_height(self, h: u16) -> (r: Self)
        ensures
            r == (Rect { h: if h < self.h { h } else { self.h }, ..self }),
    {
        let mut rect = self;
        rect.h = if h < rect.h { h } else { rect.h };
        rect
    }

    /// The rows from the north edge of `self` to that of `rect`.
    pub fn north_range(&self, rect: &Rect) -> (r: Range<u16>)
        ensures
            r.start == self.y,
            r.end == rect.y,
    {
        Range { start: self.y, end: rect.y }
    }

    /// The rows from the south edge of `rect` to that of `self`.
    pub fn south_range(&self, rect: &Rect) -> (r: Range<u16>)
        requires
            self.spec_y_end() <= u16::MAX,
            rect.spec_y_end() <= u16::MAX,
        ensures
            r.start == rect.spec_y_end(),
            r.end == self.spec_y_end(),
    {
        Range { start: rect.y_end(), end: self.y_end() }
    }

    /// The columns from the east edge of `rect` to that of `self`.
    pub fn east_range(&self, rect: &Rect) -> (r: Range<u16>)
        requires
            self.spec_x_end() <= u16::MAX,
            rect.spec_x_end() <= u16::MAX,
        ensures
            r.start == rect.spec_x_end(),
            r.end == self.spec_x_end(),
    {
        Range { start: rect.x_end(), end: self.x_end() }
    }

    /// The columns from the west edge of `self` to that of `rect`.
    pub fn west_range(&self, rect: &Rect) -> (r: Range<u16>)
        ensures
            r.start == self.x,
            r.end == rect.x,
    {
        Range { start: self.x, end: rect.x }
    }
}

/// Cropping a widget's rectangle never leaves it, on any side and by any step.
pub proof fn lemma_crop_encloses(rect: Rect, step: u16)
    requires
        rect.crop_north_ok(step),
        rect.crop_west_ok(step),
    ensures
        rect.encloses(rect.spec_crop_north(step)),
        rect.encloses(rect.spec_crop_south(step)),
        rect.encloses(rect.spec_crop_east(step)),
        rect.encloses(rect.spec_crop_west(step)),
        rect.encloses(rect.spec_crop_north(step).spec_crop_south(step)),
        rect.encloses(rect.spec_crop_east(step).spec_crop_west(step)),
{
}

} // verus!
