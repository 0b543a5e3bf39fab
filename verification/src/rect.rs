//! Screen geometry: dimensions, positions and rectangles of terminal cells.
use vstd::prelude::*;
use vstd::std_specs::convert::FromSpecImpl;
use std::ops::Range;
use crate::signed::{signed16, wrap16, in_i16, add_signed16};

verus! {

/// A width and a height.
#[derive(Clone, Copy, Debug, Default)]
pub struct Dim(pub u16, pub u16);

impl From<(u16, u16)> for Dim {
    fn from(wh: (u16, u16)) -> (r: Self) {
        Dim(wh.0, wh.1)
    }
}

impl FromSpecImpl<(u16, u16)> for Dim {
    open spec fn obeys_from_spec() -> bool {
        true
    }

    open spec fn from_spec(wh: (u16, u16)) -> Self {
        Dim(wh.0, wh.1)
    }
}

impl Dim {
    pub fn w(&self) -> (r: u16)
        ensures
            r == self.0,
    {
        self.0
    }

    pub fn h(&self) -> (r: u16)
        ensures
            r == self.1,
    {
        self.1
    }
}

/// A column and a row.
#[derive(Clone, Copy, Debug, Default)]
pub struct Pos(pub u16, pub u16);

impl From<(u16, u16)> for Pos {
    fn from(xy: (u16, u16)) -> (r: Self) {
        Pos(xy.0, xy.1)
    }
}

impl FromSpecImpl<(u16, u16)> for Pos {
    open spec fn obeys_from_spec() -> bool {
        true
    }

    open spec fn from_spec(xy: (u16, u16)) -> Self {
        Pos(xy.0, xy.1)
    }
}

impl Pos {
    pub fn x(&self) -> (r: u16)
        ensures
            r == self.0,
    {
        self.0
    }

    pub fn y(&self) -> (r: u16)
        ensures
            r == self.1,
    {
        self.1
    }
}

/// A rectangle of cells: its north-west corner `(x, y)`, width `w` and height `h`.
#[derive(Copy, Debug, Clone, Default, PartialEq, Eq, Structural)]
pub struct Rect {
    pub x: u16,
    pub y: u16,
    pub w: u16,
    pub h: u16,
}

impl From<Dim> for Rect {
    fn from(d: Dim) -> (r: Self) {
        Rect { x: 0, y: 0, w: d.0, h: d.1 }
    }
}

impl FromSpecImpl<Dim> for Rect {
    open spec fn obeys_from_spec() -> bool {
        true
    }

    open spec fn from_spec(d: Dim) -> Self {
        Rect { x: 0, y: 0, w: d.0, h: d.1 }
    }
}

impl From<Pos> for Rect {
    fn from(p: Pos) -> (r: Self) {
        Rect { x: p.0, y: p.1, w: 0, h: 0 }
    }
}

impl FromSpecImpl<Pos> for Rect {
    open spec fn obeys_from_spec() -> bool {
        true
    }

    open spec fn from_spec(p: Pos) -> Self {
        Rect { x: p.0, y: p.1, w: 0, h: 0 }
    }
}

/// Whether shifting a north or west edge by `idelta` stays inside `i16`, as the
/// shift's arithmetic requires (`start` is the moved edge, `len` the extent).
pub open spec fn shift_fits(start: u16, len: u16, idelta: i16) -> bool {
    &&& idelta > i16::MIN
    &&& in_i16(signed16(start) - idelta)
    &&& in_i16(signed16(len) + idelta)
}

impl Rect {
    pub open spec fn spec_x_end(self) -> int {
        self.x + self.w
    }

    pub open spec fn spec_y_end(self) -> int {
        self.y + self.h
    }

    pub fn with_dim(self, dim: Dim) -> (r: Self)
        ensures
            r == (Rect { w: dim.0, h: dim.1, ..self }),
    {
        let mut rect = self;
        rect.set_dim(dim);
        rect
    }

    pub fn set_dim(&mut self, dim: Dim)
        ensures
            *final(self) == (Rect { w: dim.0, h: dim.1, ..*old(self) }),
    {
        self.w = dim.w();
        self.h = dim.h();
    }

    pub fn with_pos(self, pos: Pos) -> (r: Self)
        ensures
            r == (Rect { x: pos.0, y: pos.1, ..self }),
    {
        let mut rect = self;
        rect.set_pos(pos);
        rect
    }

    pub fn set_pos(&mut self, pos: Pos)
        ensures
            *final(self) == (Rect { x: pos.0, y: pos.1, ..*old(self) }),
    {
        self.x = pos.x();
        self.y = pos.y();
    }

    /// Moves the north edge out by `idelta` rows (in by `-idelta`), keeping the
    /// south edge: `y` drops and `h` grows by `idelta`, both as `i16` values.
    pub fn shift_north(&self, idelta: i16) -> (r: Self)
        requires
            shift_fits(self.y, self.h, idelta),
        ensures
            r == (Rect {
                y: wrap16(signed16(self.y) - idelta),
                h: wrap16(signed16(self.h) + idelta),
                ..*self
            }),
    {
        let mut rect = *self;
        rect.y = add_signed16(rect.y, -(idelta as i32));
        rect.h = add_signed16(rect.h, idelta as i32);
        rect
    }

    /// Moves the south edge out by `idelta` rows: `h` grows by `idelta`.
    pub fn shift_south(&self, idelta: i16) -> (r: Self)
        requires
            in_i16(signed16(self.h) + idelta),
        ensures
            r == (Rect { h: wrap16(signed16(self.h) + idelta), ..*self }),
    {
        let mut rect = *self;
        rect.h = add_signed16(rect.h, idelta as i32);
        rect
    }

    /// Moves the east edge out by `idelta` columns: `w` grows by `idelta`.
    pub fn shift_east(&self, idelta: i16) -> (r: Self)
        requires
            in_i16(signed16(self.w) + idelta),
        ensures
            r == (Rect { w: wrap16(signed16(self.w) + idelta), ..*self }),
    {
        let mut rect = *self;
        rect.w = add_signed16(rect.w, idelta as i32);
        rect
    }

    /// Moves the west edge out by `idelta` columns, keeping the east edge.
    pub fn shift_west(&self, idelta: i16) -> (r: Self)
        requires
            shift_fits(self.x, self.w, idelta),
        ensures
            r == (Rect {
                x: wrap16(signed16(self.x) - idelta),
                w: wrap16(signed16(self.w) + idelta),
                ..*self
            }),
    {
        let mut rect = *self;
        rect.x = add_signed16(rect.x, -(idelta as i32));
        rect.w = add_signed16(rect.w, idelta as i32);
        rect
    }

    /// Moves both the north and the south edge out by `idelta` rows.
    pub fn shift_y(&self, idelta: i16) -> (r: Self)
        requires
            shift_fits(self.y, self.h, idelta),
            in_i16(signed16(self.h) + 2 * idelta),
        ensures
            r == (Rect {
                y: wrap16(signed16(self.y) - idelta),
                h: wrap16(signed16(self.h) + 2 * idelta),
                ..*self
            }),
    {
        let n = self.shift_north(idelta);
        n.shift_south(idelta)
    }

    /// Moves both the east and the west edge out by `idelta` columns.
    pub fn shift_x(&self, idelta: i16) -> (r: Self)
        requires
            shift_fits(self.x, self.w, idelta),
            in_i16(signed16(self.w) + 2 * idelta),
        ensures
            r == (Rect {
                x: wrap16(signed16(self.x) - idelta),
                w: wrap16(signed16(self.w) + 2 * idelta),
                ..*self
            }),
    {
        let e = self.shift_east(idelta);
        e.shift_west(idelta)
    }

    pub fn x(&self) -> (r: u16)
        ensures
            r == self.x,
    {
        self.pos().x()
    }

    pub fn y(&self) -> (r: u16)
        ensures
            r == self.y,
    {
        self.pos().y()
    }

    pub fn width(&self) -> (r: u16)
        ensures
            r == self.w,
    {
        self.dim().w()
    }

    pub fn height(&self) -> (r: u16)
        ensures
            r == self.h,
    {
        self.dim().h()
    }

    pub fn dim(&self) -> (r: Dim)
        ensures
            r == Dim(self.w, self.h),
    {
        Dim(self.w, self.h)
    }

    pub fn pos(&self) -> (r: Pos)
        ensures
            r == Pos(self.x, self.y),
    {
        Pos(self.x, self.y)
    }

    pub fn x_end(&self) -> (r: u16)
        requires
            self.spec_x_end() <= u16::MAX,
        ensures
            r == self.spec_x_end(),
    {
        self.x + self.w
    }

    pub fn y_end(&self) -> (r: u16)
        requires
            self.spec_y_end() <= u16::MAX,
        ensures
            r == self.spec_y_end(),
    {
        self.y + self.h
    }

    pub fn set_width(&self, w: u16) -> (r: Self)
        ensures
            r == (Rect { w, ..*self }),
    {
        let mut rect = *self;
        rect.w = w;
        rect
    }

    pub fn set_height(&self, h: u16) -> (r: Self)
        ensures
            r == (Rect { h, ..*self }),
    {
        let mut rect = *self;
        rect.h = h;
        rect
    }

    /// The north-west corner.
    pub fn a(&self) -> (r: Pos)
        ensures
            r == Pos(self.x, self.y),
    {
        Pos(self.x, self.y)
    }

    /// The north-east corner: the last column, or `x` itself when `w` is 0
    /// and `x` is 0.
    pub fn b(&self) -> (r: Pos)
        requires
            self.spec_x_end() <= u16::MAX,
        ensures
            r == Pos(sat_dec(self.spec_x_end()), self.y),
    {
        Pos(self.x_end().saturating_sub(1), self.y)
    }

    /// The south-west corner.
    pub fn c(&self) -> (r: Pos)
        requires
            self.spec_y_end() <= u16::MAX,
        ensures
            r == Pos(self.x, sat_dec(self.spec_y_end())),
    {
        Pos(self.x, self.y_end().saturating_sub(1))
    }

    /// The south-east corner.
    pub fn d(&self) -> (r: Pos)
        requires
            self.spec_x_end() <= u16::MAX,
            self.spec_y_end() <= u16::MAX,
        ensures
            r == Pos(sat_dec(self.spec_x_end()), sat_dec(self.spec_y_end())),
    {
        Pos(self.x_end().saturating_sub(1), self.y_end().saturating_sub(1))
    }

    /// The columns the rectangle covers.
    pub fn x_range(&self) -> (r: Range<u16>)
        requires
            self.spec_x_end() <= u16::MAX,
        ensures
            r.start == self.x,
            r.end == self.spec_x_end(),
    {
        Range { start: self.x, end: self.x_end() }
    }

    /// The rows the rectangle covers.
    pub fn y_range(&self) -> (r: Range<u16>)
        requires
            self.spec_y_end() <= u16::MAX,
        ensures
            r.start == self.y,
            r.end == self.spec_y_end(),
    {
        Range { start: self.y, end: self.y_end() }
    }
}

/// `n - 1`, or 0 when `n` is 0.
pub open spec fn sat_dec(n: int) -> u16 {
    if n > 0 { (n - 1) as u16 } else { 0 }
}

} // verus!
