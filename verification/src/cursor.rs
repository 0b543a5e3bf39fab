//! Cursors over vectors and matrices of units, and the views that keep a
//! cursor on screen.
use vstd::prelude::*;
use crate::rect::{Rect, Pos, Dim};
use vstd::std_specs::convert::FromSpecImpl;
use crate::width::{width_of, cell_width, cell_width_of, lemma_width_of_take_step};

verus! {

/// `-1`, `0` or `1` by the sign of `n`.
pub open spec fn signum(n: int) -> int {
    if n > 0 { 1 } else if n < 0 { -1 } else { 0 }
}

pub open spec fn abs(n: int) -> int {
    if n < 0 { -n } else { n }
}

/// `isize::saturating_abs`.
pub open spec fn sat_abs(n: int) -> int {
    if n == isize::MIN { isize::MAX as int } else { abs(n) }
}

/// A position in a vector. A cursor with `buff` set may also stand just past
/// the last unit, where an editor inserts.
#[derive(Clone, Copy, Debug, Default)]
pub struct Cursor {
    pub head: usize,
    pub buff: bool,
}

/// The furthest position a cursor may take in a vector of `len` units.
pub open spec fn spec_max(buff: bool, len: nat) -> nat {
    if buff { len } else if len > 0 { (len - 1) as nat } else { 0 }
}

/// The head after `move_head` by `delta` from `head` with furthest position
/// `max`, and the part of the move that did not fit: negative past the start,
/// positive past the end, 0 when the whole move fitted.
pub open spec fn spec_move_head(head: int, max: int, delta: int) -> (int, int) {
    let new = head + delta;
    if new < 0 {
        (0, new)
    } else if new > max {
        (max, new - max)
    } else {
        (new, 0)
    }
}

/// The arithmetic of `move_head` stays within `isize`.
pub open spec fn move_head_ok(head: int, max: int, delta: int) -> bool {
    &&& head <= isize::MAX
    &&& max <= isize::MAX
    &&& isize::MIN <= head + delta <= isize::MAX
}

/// The measure that shrinks with each round of `move_wrapped`.
pub open spec fn wrapped_measure(head: int, max: int, delta: int) -> int {
    abs(delta) + if head > max { head } else { 0 }
}

/// The head after `move_wrapped` by `delta` from `head`, in a vector of `len`
/// units with furthest position `max`.
pub open spec fn spec_move_wrapped(head: int, max: int, len: int, delta: int) -> int
    decreases wrapped_measure(head, max, delta),
    when 0 <= head && 0 <= max && max <= len && len <= max + 1
{
    let (h1, rem) = spec_move_head(head, max, delta);
    if rem == 0 {
        h1
    } else {
        let (h2, _) = spec_move_head(h1, max, (if rem > 0 { -len } else { len }));
        spec_move_wrapped(h2, max, len, (if rem > 0 { sat_abs(rem) - 1 } else { -(sat_abs(rem) - 1) }))
    }
}

/// Every round of `move_wrapped` stays within `isize`.
pub open spec fn move_wrapped_ok(head: int, max: int, len: int, delta: int) -> bool
    decreases wrapped_measure(head, max, delta),
    when 0 <= head && 0 <= max && max <= len && len <= max + 1
{
    let (h1, rem) = spec_move_head(head, max, delta);
    &&& move_head_ok(head, max, delta)
    &&& len <= isize::MAX
    &&& rem != 0 ==> {
        let (h2, _) = spec_move_head(h1, max, (if rem > 0 { -len } else { len }));
        &&& move_head_ok(h1, max, (if rem > 0 { -len } else { len }))
        &&& move_wrapped_ok(h2, max, len, (if rem > 0 { sat_abs(rem) - 1 } else { -(sat_abs(rem) - 1) }))
    }
}

impl Cursor {
    pub open spec fn spec_get_max(self, len: nat) -> nat {
        spec_max(self.buff, len)
    }

    /// The cursor set up for editing `vec`: it may pass the last unit, and it
    /// stands just past it.
    pub fn editor<T>(self, vec: &Vec<T>) -> (r: Self)
        ensures
            r == (Cursor { buff: true, head: vec.len() }),
    {
        let mut c = self;
        c.buff = true;
        c.move_to_end(vec);
        c
    }

    /// The furthest position in `vec`.
    pub fn get_max<T>(&self, vec: &Vec<T>) -> (r: usize)
        ensures
            r == self.spec_get_max(vec.len() as nat),
    {
        if self.buff {
            vec.len()
        } else {
            vec.len().saturating_sub(1)
        }
    }

    /// What `move_head(vec, delta)` would return, leaving the cursor as it is.
    pub fn peek_move<T>(&self, vec: &Vec<T>, delta: isize) -> (r: isize)
        requires
            move_head_ok(self.head as int, self.spec_get_max(vec.len() as nat) as int, delta as int),
        ensures
            r == spec_move_head(self.head as int, self.spec_get_max(vec.len() as nat) as int, delta as int).1,
    {
        let mut c = *self;
        c.move_head(vec, delta)
    }

    /// Puts the cursor at `new_head`, or at the furthest position if that is nearer.
    pub fn fit<T>(&mut self, vec: &Vec<T>, new_head: usize)
        ensures
            final(self).buff == old(self).buff,
            final(self).head == if new_head < old(self).spec_get_max(vec.len() as nat) {
                new_head as int
            } else {
                old(self).spec_get_max(vec.len() as nat) as int
            },
    {
        let max = self.get_max(vec);
        self.head = if max < new_head { max } else { new_head };
    }

    pub fn move_to_start(&mut self)
        ensures
            *final(self) == (Cursor { head: 0, ..*old(self) }),
    {
        self.head = 0;
    }

    pub fn move_to_end<T>(&mut self, vec: &Vec<T>)
        ensures
            *final(self) == (Cursor { head: old(self).spec_get_max(vec.len() as nat) as usize, ..*old(self) }),
    {
        self.head = self.get_max(vec);
    }

    /// Moves `delta` positions, wrapping from one end of `vec` to the other.
    pub fn move_wrapped<T>(&mut self, vec: &Vec<T>, delta: isize)
        requires
            move_wrapped_ok(old(self).head as int, old(self).spec_get_max(vec.len() as nat) as int, vec.len() as int, delta as int),
        ensures
            final(self).buff == old(self).buff,
            final(self).head == spec_move_wrapped(old(self).head as int, old(self).spec_get_max(vec.len() as nat) as int, vec.len() as int, delta as int),
        decreases wrapped_measure(old(self).head as int, old(self).spec_get_max(vec.len() as nat) as int, delta as int),
    {
        let ghost max = self.spec_get_max(vec.len() as nat) as int;
        let ghost h0 = self.head as int;
        proof {
            assert(max <= vec.len() <= max + 1);
        }
        let remainder = self.move_head(vec, delta);
        if remainder != 0 {
            proof {
                assert(move_wrapped_ok(h0, max, vec.len() as int, delta as int));
                assert(vec.len() <= isize::MAX);
            }
            let sign: isize = if remainder > 0 { 1 } else { -1 };
            let len = vec.len() as isize;
            let back: isize = if sign > 0 { -len } else { len };
            self.move_head(vec, back);
            let mag: isize = if remainder == isize::MIN { isize::MAX } else if remainder < 0 { -remainder } else { remainder };
            let left: isize = if sign > 0 { mag - 1 } else { -(mag - 1) };
            self.move_wrapped(vec, left);
        }
    }

    /// Moves `idelta` positions, stopping at either end; returns the part of
    /// the move that did not fit (negative past the start, positive past the end).
    pub fn move_head<T>(&mut self, vec: &Vec<T>, idelta: isize) -> (r: isize)
        requires
            move_head_ok(old(self).head as int, old(self).spec_get_max(vec.len() as nat) as int, idelta as int),
        ensures
            final(self).buff == old(self).buff,
            (final(self).head as int, r as int) == spec_move_head(old(self).head as int, old(self).spec_get_max(vec.len() as nat) as int, idelta as int),
    {
        let ihead = self.head as isize;
        let imax = self.get_max(vec) as isize;
        let new_ihead = ihead + idelta;
        if new_ihead < 0 {
            self.head = 0;
            new_ihead
        } else if new_ihead > imax {
            self.head = self.get_max(vec);
            new_ihead - imax
        } else {
            self.head = new_ihead as usize;
            0
        }
    }

    /// Removes the unit under the cursor and steps back, wrapping to the end
    /// from the start; false when the cursor is past the last unit.
    pub fn remove<T>(&mut self, vec: &mut Vec<T>) -> (r: bool)
        requires
            old(self).head < old(vec).len() ==> move_wrapped_ok(
                old(self).head as int, old(self).spec_get_max((old(vec).len() - 1) as nat) as int, old(vec).len() - 1, -1),
        ensures
            r == (old(self).head < old(vec).len()),
            final(self).buff == old(self).buff,
            r ==> final(vec)@ == old(vec)@.remove(old(self).head as int),
            r ==> final(self).head == spec_move_wrapped(old(self).head as int, old(self).spec_get_max((old(vec).len() - 1) as nat) as int, old(vec).len() - 1, -1),
            !r ==> *final(vec) == *old(vec) && *final(self) == *old(self),
    {
        if self.head >= vec.len() {
            false
        } else {
            vec.remove(self.head);
            self.move_wrapped(vec, -1);
            true
        }
    }

    /// Removes the unit under the cursor; false when the cursor is past the last unit.
    pub fn delete<T>(&self, vec: &mut Vec<T>) -> (r: bool)
        ensures
            r == (self.head < old(vec).len()),
            r ==> final(vec)@ == old(vec)@.remove(self.head as int),
            !r ==> *final(vec) == *old(vec),
    {
        if self.head >= vec.len() {
            false
        } else {
            vec.remove(self.head);
            true
        }
    }

    /// Steps back and removes the unit there; false, and nothing changes, when
    /// a step back does not fit.
    pub fn backspace<T>(&mut self, vec: &mut Vec<T>) -> (r: bool)
        requires
            move_head_ok(old(self).head as int, old(self).spec_get_max(old(vec).len() as nat) as int, -1),
            spec_move_head(old(self).head as int, old(self).spec_get_max(old(vec).len() as nat) as int, -1).1 == 0
                ==> old(self).head - 1 < old(vec).len(),
        ensures
            r == (spec_move_head(old(self).head as int, old(self).spec_get_max(old(vec).len() as nat) as int, -1).1 == 0),
            r ==> final(self).head == old(self).head - 1 && final(vec)@ == old(vec)@.remove(old(self).head - 1),
            !r ==> *final(vec) == *old(vec) && *final(self) == *old(self),
            final(self).buff == old(self).buff,
    {
        if self.peek_move(vec, -1) != 0 {
            false
        } else {
            self.move_head(vec, -1);
            vec.remove(self.head);
            true
        }
    }

    /// Inserts `c` after the unit under the cursor and moves onto it; in an
    /// empty vector, or at the last unit, `c` is pushed at the end.
    pub fn insert<T>(&mut self, vec: &mut Vec<T>, c: T)
        requires
            old(self).head + 1 != old(vec).len() && old(vec).len() != 0 ==> old(self).head <= old(vec).len(),
            move_head_ok(old(self).head as int, old(self).spec_get_max((old(vec).len() + 1) as nat) as int, 1),
        ensures
            final(vec)@ == if old(self).head + 1 == old(vec).len() || old(vec).len() == 0 {
                old(vec)@.push(c)
            } else {
                old(vec)@.insert(old(self).head as int, c)
            },
            final(self).buff == old(self).buff,
            final(self).head == spec_move_head(old(self).head as int, old(self).spec_get_max((old(vec).len() + 1) as nat) as int, 1).0,
    {
        if self.head + 1 == vec.len() || vec.len() == 0 {
            vec.push(c);
            self.move_head(vec, 1);
        } else {
            vec.insert(self.head, c);
            self.move_head(vec, 1);
        }
    }

    /// Moves onto the first unit for which `is_equal` holds and returns false;
    /// when none does, inserts `unit` after the cursor and moves onto it (in an
    /// empty vector the cursor stays), returning true.
    pub fn insert_unique_with<T, F: Fn(&T) -> bool>(&mut self, vec: &mut Vec<T>, is_equal: F, unit: T) -> (r: bool)
        requires
            forall|i: int| 0 <= i < old(vec).len() ==> call_requires(is_equal, (&old(vec)@[i],)),
            old(vec).len() > 0 && old(self).head + 1 != old(vec).len() ==> old(self).head + 1 <= old(vec).len(),
        ensures
            final(self).buff == old(self).buff,
            !r ==> *final(vec) == *old(vec) && final(self).head < old(vec).len()
                && call_ensures(is_equal, (&old(vec)@[final(self).head as int],), true)
                && forall|j: int| 0 <= j < final(self).head ==> call_ensures(is_equal, (&old(vec)@[j],), false),
            r ==> forall|j: int| 0 <= j < old(vec).len() ==> call_ensures(is_equal, (&old(vec)@[j],), false),
            r && old(vec).len() == 0 ==> final(vec)@ == seq![unit] && final(self).head == old(self).head,
            r && old(vec).len() > 0 && old(self).head + 1 == old(vec).len() ==> final(vec)@ == old(vec)@.push(unit)
                && final(self).head == old(self).head + 1,
            r && old(vec).len() > 0 && old(self).head + 1 != old(vec).len() ==> final(vec)@ == old(vec)@.insert(old(self).head + 1, unit)
                && final(self).head == old(self).head + 1,
    {
        let mut i: usize = 0;
        while i < vec.len()
            invariant
                0 <= i <= vec.len(),
                *vec == *old(vec),
                *self == *old(self),
                forall|k: int| 0 <= k < old(vec).len() ==> call_requires(is_equal, (&old(vec)@[k],)),
                forall|j: int| 0 <= j < i ==> call_ensures(is_equal, (&old(vec)@[j],), false),
            decreases vec.len() - i,
        {
            let found = is_equal(&vec[i]);
            if found {
                self.head = i;
                return false;
            }
            i = i + 1;
        }
        if vec.len() == 0 {
            vec.push(unit);
            true
        } else if self.head + 1 == vec.len() {
            vec.push(unit);
            self.head = self.head + 1;
            true
        } else {
            self.head = self.head + 1;
            vec.insert(self.head, unit);
            true
        }
    }

    /// The columns the units before the cursor take on screen.
    pub fn get_weighted_head(&self, vec: &[char]) -> (r: usize)
        requires
            vec@.len() <= usize::MAX / 3,
        ensures
            r == width_of(vec@.take(if self.head < vec@.len() { self.head as int } else { vec@.len() as int })),
    {
        let end = if self.head < vec.len() { self.head } else { vec.len() };
        let mut acc: usize = 0;
        let mut i: usize = 0;
        while i < end
            invariant
                0 <= i <= end <= vec@.len(),
                vec@.len() <= usize::MAX / 3,
                acc == width_of(vec@.take(i as int)),
                acc <= 3 * i,
            decreases end - i,
        {
            proof {
                lemma_width_of_take_step(vec@, i as int);
            }
            acc = acc + cell_width_of(vec[i]);
            i = i + 1;
        }
        acc
    }
}

/// A wrapped move from a position in the vector is a move around a ring of
/// `max + 1` positions: the head ends at `(head + delta) mod (max + 1)`.
pub proof fn lemma_move_wrapped_is_modular(head: int, max: int, len: int, delta: int)
    requires
        0 <= head <= max,
        max <= len <= max + 1,
        isize::MIN < head + delta,
    ensures
        spec_move_wrapped(head, max, len, delta) == (head + delta) % (max + 1),
    decreases abs(delta),
{
    let (h1, rem) = spec_move_head(head, max, delta);
    if rem == 0 {
        assert(h1 == head + delta);
        assert((head + delta) % (max + 1) == head + delta) by (nonlinear_arith)
            requires 0 <= head + delta <= max;
    } else if rem > 0 {
        let (h2, _) = spec_move_head(h1, max, (if rem > 0 { -len } else { len }));
        assert(h2 == 0);
        let d2 = (if rem > 0 { sat_abs(rem) - 1 } else { -(sat_abs(rem) - 1) });
        assert(d2 == rem - 1);
        lemma_move_wrapped_is_modular(h2, max, len, d2);
        // head + delta == max + rem == (max + 1) + (rem - 1)
        assert((head + delta) % (max + 1) == (rem - 1) % (max + 1)) by (nonlinear_arith)
            requires head + delta == (max + 1) + (rem - 1), max + 1 > 0;
    } else {
        let (h2, _) = spec_move_head(h1, max, (if rem > 0 { -len } else { len }));
        assert(h2 == max);
        let d2 = (if rem > 0 { sat_abs(rem) - 1 } else { -(sat_abs(rem) - 1) });
        assert(d2 == rem + 1);
        lemma_move_wrapped_is_modular(h2, max, len, d2);
        // head + delta == rem == (max + (rem + 1)) - (max + 1)
        assert((head + delta) % (max + 1) == (max + (rem + 1)) % (max + 1)) by (nonlinear_arith)
            requires head + delta == (max + (rem + 1)) - (max + 1), max + 1 > 0;
    }
}


/// The lengths of the rows of a matrix.
pub open spec fn row_lens<T>(rows: Seq<Vec<T>>) -> Seq<int> {
    Seq::new(rows.len(), |i: int| rows[i]@.len() as int)
}

/// The units before row `k` of a matrix, an empty row counting as one.
pub open spec fn linear_before(lens: Seq<int>, k: int) -> int
    decreases k,
{
    if k <= 0 || lens.len() == 0 {
        0
    } else if k > lens.len() {
        linear_before(lens, lens.len() as int)
    } else {
        linear_before(lens, k - 1) + if lens[k - 1] > 1 { lens[k - 1] } else { 1 }
    }
}

/// The extra measure that a stale column head adds to a horizontal move.
pub open spec fn stale_x(xh: int, xbuff: bool, yh: int, lens: Seq<int>) -> int {
    if 0 <= yh < lens.len() && xh > spec_max(xbuff, lens[yh] as nat) { xh } else { 0 }
}

/// `u32::MAX` as an `isize`: the move that takes a column cursor to one end
/// of any row.
pub open spec fn far_jump() -> int {
    (u32::MAX as isize) as int
}

/// The part of a horizontal move that leaves the row it starts in.
pub open spec fn rem1_of(step: (int, int, int), xh: int, xbuff: bool, yh: int, lens: Seq<int>, rem: int) -> int {
    spec_move_head(xh, spec_max(xbuff, lens[yh] as nat) as int, rem).1
}

/// One round of `Point::move_x` from column `xh` and row `yh` with `rem`
/// positions still to go: the new column, the new row and what is left to go.
pub open spec fn move_x_step(xh: int, xbuff: bool, yh: int, ybuff: bool, lens: Seq<int>, rem: int) -> (int, int, int) {
    let xmax = spec_max(xbuff, lens[yh] as nat) as int;
    let (xh1, rem1) = spec_move_head(xh, xmax, rem);
    if rem1 != 0 {
        let ymax = spec_max(ybuff, lens.len()) as int;
        let (yh1, yrem) = spec_move_head(yh, ymax, signum(rem1));
        if yrem == 0 && yh1 < lens.len() {
            let xmax1 = spec_max(xbuff, lens[yh1] as nat) as int;
            let (xh2, _) = spec_move_head(xh1, xmax1, if rem1 > 0 { -far_jump() } else { far_jump() });
            (xh2, yh1, if rem1 > 0 { sat_abs(rem1) - 1 } else { -(sat_abs(rem1) - 1) })
        } else {
            (xh1, yh1, 0)
        }
    } else {
        (xh1, yh, 0)
    }
}

/// Where `Point::move_x` by `rem` from column `xh` and row `yh` ends: the
/// column and the row.
pub open spec fn spec_move_x(xh: int, xbuff: bool, yh: int, ybuff: bool, lens: Seq<int>, rem: int) -> (int, int)
    decreases abs(rem) + stale_x(xh, xbuff, yh, lens),
    when 0 <= xh && 0 <= yh
{
    if rem == 0 || yh >= lens.len() {
        (xh, yh)
    } else {
        let (xh2, yh2, rem2) = move_x_step(xh, xbuff, yh, ybuff, lens, rem);
        if rem2 == 0 {
            (xh2, yh2)
        } else {
            spec_move_x(xh2, xbuff, yh2, ybuff, lens, rem2)
        }
    }
}

/// Every round of `Point::move_x` stays within `isize`.
pub open spec fn move_x_ok(xh: int, xbuff: bool, yh: int, ybuff: bool, lens: Seq<int>, rem: int) -> bool
    decreases abs(rem) + stale_x(xh, xbuff, yh, lens),
    when 0 <= xh && 0 <= yh
{
    if rem == 0 || yh >= lens.len() {
        true
    } else {
        let xmax = spec_max(xbuff, lens[yh] as nat) as int;
        let (xh1, rem1) = spec_move_head(xh, xmax, rem);
        let ymax = spec_max(ybuff, lens.len()) as int;
        let (yh1, yrem) = spec_move_head(yh, ymax, signum(rem1));
        let (xh2, yh2, rem2) = move_x_step(xh, xbuff, yh, ybuff, lens, rem);
        &&& move_head_ok(xh, xmax, rem)
        &&& rem1 != 0 ==> move_head_ok(yh, ymax, signum(rem1))
        &&& rem1 != 0 && yrem == 0 && yh1 < lens.len() ==> move_head_ok(xh1, spec_max(xbuff, lens[yh1] as nat) as int, if rem1 > 0 { -far_jump() } else { far_jump() })
        &&& rem2 != 0 ==> move_x_ok(xh2, xbuff, yh2, ybuff, lens, rem2)
    }
}

/// A position in a matrix: a column cursor, a row cursor, and the column to
/// return to when moving between rows.
#[derive(Clone, Copy, Debug)]
pub struct Point {
    pub x: Cursor,
    pub y: Cursor,
    pref_x: usize,
}

impl Default for Point {
    fn default() -> (r: Self)
        ensures
            r == Point::spec_origin(),
            r.col() == (Cursor { head: 0, buff: false }),
            r.row() == (Cursor { head: 0, buff: false }),
            r.pref() == 0,
    {
        Point { x: Cursor { head: 0, buff: false }, y: Cursor { head: 0, buff: false }, pref_x: 0 }
    }
}

impl Point {
    /// The column the point returns to when it moves between rows.
    pub closed spec fn pref(self) -> usize {
        self.pref_x
    }

    /// The point at the start of the first row.
    pub closed spec fn spec_origin() -> Point {
        Point { x: Cursor { head: 0, buff: false }, y: Cursor { head: 0, buff: false }, pref_x: 0 }
    }

    /// The column cursor.
    pub closed spec fn col(self) -> Cursor {
        self.x
    }

    /// The row cursor.
    pub closed spec fn row(self) -> Cursor {
        self.y
    }

    /// The row the point is in.
    pub fn row_head(&self) -> (r: usize)
        ensures
            r == self.row().head,
    {
        self.y.head
    }

    /// The column the point is in.
    pub fn col_head(&self) -> (r: usize)
        ensures
            r == self.col().head,
    {
        self.x.head
    }

    /// The number of units before the point, reading the rows in order and
    /// counting an empty row as one unit.
    pub closed spec fn spec_linear<T>(self, rows: Seq<Vec<T>>) -> int {
        linear_before(row_lens(rows), self.row().head as int) + self.col().head
    }

    /// The point set up for editing its row: the column cursor may pass the
    /// row's last unit and stands just past it.
    pub fn editor<T>(self, vec: &Vec<Vec<T>>) -> (r: Self)
        ensures
            r.row() == self.row(),
            r.pref() == self.pref(),
            self.row().head < vec.len() ==> r.col() == (Cursor { buff: true, head: vec@[self.row().head as int].len() }),
            self.row().head >= vec.len() ==> r.col() == self.col(),
    {
        let mut p = self;
        if p.y.head < vec.len() {
            p.x = p.x.editor(&vec[p.y.head]);
        }
        p
    }

    /// The number of units before the point.
    pub fn get_linear<T>(&self, vec: &Vec<Vec<T>>) -> (r: usize)
        requires
            self.spec_linear(vec@) <= usize::MAX,
        ensures
            r == self.spec_linear(vec@),
    {
        let ghost lens = row_lens(vec@);
        let end = if self.y.head < vec.len() { self.y.head } else { vec.len() };
        let mut acc: usize = 0;
        let mut i: usize = 0;
        proof {
            lemma_linear_before_monotone(lens, end as int, self.row().head as int);
        }
        while i < end
            invariant
                0 <= i <= end <= vec.len(),
                lens == row_lens(vec@),
                end == if self.row().head < vec.len() { self.row().head as int } else { vec.len() as int },
                acc == linear_before(lens, i as int),
                linear_before(lens, end as int) + self.col().head <= usize::MAX,
            decreases end - i,
        {
            proof {
                lemma_linear_before_monotone(lens, i + 1, end as int);
            }
            let n = vec[i].len();
            acc = acc + if n > 1 { n } else { 1 };
            i = i + 1;
        }
        proof {
            if self.row().head >= vec.len() {
                assert(linear_before(lens, self.row().head as int) == linear_before(lens, lens.len() as int));
            }
        }
        acc + self.x.head
    }

    /// Puts the point at the start and moves it `idx` units on.
    pub fn set_linear<T>(&mut self, vec: &Vec<Vec<T>>, idx: usize)
        requires
            idx <= isize::MAX,
            move_x_ok(0, old(self).col().buff, 0, old(self).row().buff, row_lens(vec@), idx as int),
        ensures
            final(self).col().buff == old(self).col().buff,
            final(self).row().buff == old(self).row().buff,
            (final(self).col().head as int, final(self).row().head as int) == spec_move_x(0, old(self).col().buff, 0, old(self).row().buff, row_lens(vec@), idx as int),
            final(self).pref() == final(self).col().head,
    {
        self.y.move_to_start();
        self.x.move_to_start();
        self.move_x(vec, idx as isize);
    }

    /// Moves `delta` rows, fitting the column to the preferred one; false when
    /// the whole move fell outside the rows.
    pub fn move_y<T>(&mut self, vec: &Vec<Vec<T>>, delta: isize) -> (r: bool)
        requires
            move_head_ok(old(self).row().head as int, old(self).row().spec_get_max(vec@.len()) as int, delta as int),
        ensures
            ({
                let (yh, rem) = spec_move_head(old(self).row().head as int, old(self).row().spec_get_max(vec@.len()) as int, delta as int);
                &&& final(self).row() == Cursor { head: yh as usize, ..old(self).row() }
                &&& r == (rem != delta)
                &&& final(self).pref() == old(self).pref()
                &&& final(self).col().buff == old(self).col().buff
                &&& if r && yh < vec.len() {
                    final(self).col().head == if old(self).pref() < old(self).col().spec_get_max(vec@[yh]@.len()) {
                        old(self).pref() as int
                    } else {
                        old(self).col().spec_get_max(vec@[yh]@.len()) as int
                    }
                } else {
                    final(self).col().head == old(self).col().head
                }
            }),
    {
        if self.y.move_head(vec, delta) == delta {
            false
        } else {
            if self.y.head < vec.len() {
                let pref = self.pref_x;
                self.x.fit(&vec[self.y.head], pref);
            }
            true
        }
    }

    /// Moves `delta` units through the rows read in order, passing from the
    /// end of a row to the start of the next (and back) in one unit; the
    /// column reached becomes the preferred one.
    pub fn move_x<T>(&mut self, vec: &Vec<Vec<T>>, delta: isize)
        requires
            move_x_ok(old(self).col().head as int, old(self).col().buff, old(self).row().head as int, old(self).row().buff, row_lens(vec@), delta as int),
        ensures
            final(self).col().buff == old(self).col().buff,
            final(self).row().buff == old(self).row().buff,
            (final(self).col().head as int, final(self).row().head as int) == spec_move_x(old(self).col().head as int, old(self).col().buff, old(self).row().head as int, old(self).row().buff, row_lens(vec@), delta as int),
            final(self).pref() == final(self).col().head,
    {
        let ghost lens = row_lens(vec@);
        let ghost target = spec_move_x(self.col().head as int, self.col().buff, self.row().head as int, self.row().buff, lens, delta as int);
        let ghost xbuff = self.col().buff;
        let ghost ybuff = self.row().buff;
        let mut remainder = delta;
        while remainder != 0 && self.y.head < vec.len()
            invariant
                lens == row_lens(vec@),
                self.col().buff == xbuff,
                self.row().buff == ybuff,
                move_x_ok(self.col().head as int, xbuff, self.row().head as int, ybuff, lens, remainder as int),
                target == spec_move_x(self.col().head as int, xbuff, self.row().head as int, ybuff, lens, remainder as int),
            decreases abs(remainder as int) + stale_x(self.col().head as int, xbuff, self.row().head as int, lens),
        {
            let ghost xh0 = self.col().head as int;
            let ghost yh0 = self.row().head as int;
            let ghost rem0 = remainder as int;
            let ghost step = move_x_step(xh0, xbuff, yh0, ybuff, lens, rem0);
            proof {
                assert(lens[yh0] == vec@[yh0]@.len());
            }
            remainder = self.x.move_head(&vec[self.y.head], remainder);
            if remainder != 0 {
                let sign: isize = if remainder > 0 { 1 } else { -1 };
                let moved = self.y.move_head(vec, sign);
                if moved == 0 && self.y.head < vec.len() {
                    proof {
                        assert(lens[self.row().head as int] == vec@[self.row().head as int]@.len());
                    }
                    #[verifier::truncate]
                    let jump = u32::MAX as isize;
                    assert(jump == 0xffff_ffff || jump == -1) by (bit_vector)
                        requires jump == u32::MAX as isize;
                    let far: isize = if sign > 0 { -jump } else { jump };
                    proof {
                        assert(jump as int == far_jump());
                        assert(remainder as int == rem1_of(step, xh0, xbuff, yh0, lens, rem0));
                        assert(far as int == if rem1_of(step, xh0, xbuff, yh0, lens, rem0) > 0 { -far_jump() } else { far_jump() });
                    }
                    self.x.move_head(&vec[self.y.head], far);
                    let mag: isize = if remainder == isize::MIN { isize::MAX } else if remainder < 0 { -remainder } else { remainder };
                    let left: isize = if mag > 0 { mag - 1 } else { 0 };
                    remainder = if sign > 0 { left } else { -left };
                } else {
                    remainder = 0;
                }
            }
            proof {
                assert(self.col().head as int == step.0);
                assert(self.row().head as int == step.1);
                assert(remainder as int == step.2);
            }
        }
        self.pref_x = self.x.head;
    }

    /// Deletes the unit under the point from its row; false when the point
    /// is below the last row.
    pub fn delete<T>(&mut self, vec: &mut Vec<Vec<T>>) -> (r: bool)
        ensures
            r == (old(self).row().head < old(vec).len()),
            *final(self) == *old(self),
            r ==> final(vec)@.len() == old(vec)@.len(),
            r ==> forall|i: int| 0 <= i < old(vec)@.len() && i != old(self).row().head ==> final(vec)@[i] == old(vec)@[i],
            r ==> final(vec)@[old(self).row().head as int]@ == if old(self).col().head < old(vec)@[old(self).row().head as int].len() {
                old(vec)@[old(self).row().head as int]@.remove(old(self).col().head as int)
            } else {
                old(vec)@[old(self).row().head as int]@
            },
            !r ==> *final(vec) == *old(vec),
    {
        if self.y.head < vec.len() {
            let row = &mut vec[self.y.head];
            self.x.delete(row);
            true
        } else {
            false
        }
    }

    /// Removes the unit before the point in its row, stepping back; false
    /// when the point is below the last row.
    pub fn backspace<T>(&mut self, vec: &mut Vec<Vec<T>>) -> (r: bool)
        requires
            old(self).row().head < old(vec).len() ==> {
                let row = old(vec)@[old(self).row().head as int];
                let c = old(self).col();
                &&& move_head_ok(c.head as int, c.spec_get_max(row@.len()) as int, -1)
                &&& spec_move_head(c.head as int, c.spec_get_max(row@.len()) as int, -1).1 == 0 ==> c.head - 1 < row@.len()
            },
        ensures
            r == (old(self).row().head < old(vec).len()),
            final(self).row() == old(self).row(),
            final(self).pref() == old(self).pref(),
            final(self).col().buff == old(self).col().buff,
            r ==> final(vec)@.len() == old(vec)@.len(),
            r ==> forall|i: int| 0 <= i < old(vec)@.len() && i != old(self).row().head ==> final(vec)@[i] == old(vec)@[i],
            r ==> {
                let row = old(vec)@[old(self).row().head as int];
                let c = old(self).col();
                if spec_move_head(c.head as int, c.spec_get_max(row@.len()) as int, -1).1 == 0 {
                    final(self).col().head == c.head - 1 && final(vec)@[old(self).row().head as int]@ == row@.remove(c.head - 1)
                } else {
                    final(self).col() == c && final(vec)@[old(self).row().head as int] == row
                }
            },
            !r ==> *final(vec) == *old(vec) && *final(self) == *old(self),
    {
        if self.y.head < vec.len() {
            let row = &mut vec[self.y.head];
            self.x.backspace(row);
            true
        } else {
            false
        }
    }

    /// Inserts `t` into the point's row as `Cursor::insert` does; false when
    /// the point is below the last row.
    pub fn insert<T>(&mut self, vec: &mut Vec<Vec<T>>, t: T) -> (r: bool)
        requires
            old(self).row().head < old(vec).len() ==> {
                let row = old(vec)@[old(self).row().head as int];
                let c = old(self).col();
                &&& c.head + 1 != row@.len() && row@.len() != 0 ==> c.head <= row@.len()
                &&& move_head_ok(c.head as int, c.spec_get_max((row@.len() + 1) as nat) as int, 1)
            },
        ensures
            r == (old(self).row().head < old(vec).len()),
            final(self).row() == old(self).row(),
            final(self).pref() == old(self).pref(),
            final(self).col().buff == old(self).col().buff,
            r ==> final(vec)@.len() == old(vec)@.len(),
            r ==> forall|i: int| 0 <= i < old(vec)@.len() && i != old(self).row().head ==> final(vec)@[i] == old(vec)@[i],
            r ==> {
                let row = old(vec)@[old(self).row().head as int];
                let c = old(self).col();
                &&& final(vec)@[old(self).row().head as int]@ == if c.head + 1 == row@.len() || row@.len() == 0 {
                    row@.push(t)
                } else {
                    row@.insert(c.head as int, t)
                }
                &&& final(self).col().head == spec_move_head(c.head as int, c.spec_get_max((row@.len() + 1) as nat) as int, 1).0
            },
            !r ==> *final(vec) == *old(vec) && *final(self) == *old(self),
    {
        if self.y.head < vec.len() {
            let row = &mut vec[self.y.head];
            self.x.insert(row, t);
            true
        } else {
            false
        }
    }

    /// Moves `delta` units back through the rows.
    pub fn move_left<T>(&mut self, vec: &Vec<Vec<T>>, delta: usize) -> (r: bool)
        requires
            (delta as isize) != isize::MIN,
            move_x_ok(old(self).col().head as int, old(self).col().buff, old(self).row().head as int, old(self).row().buff, row_lens(vec@), -((delta as isize) as int)),
        ensures
            r,
            final(self).col().buff == old(self).col().buff,
            final(self).row().buff == old(self).row().buff,
            (final(self).col().head as int, final(self).row().head as int) == spec_move_x(old(self).col().head as int, old(self).col().buff, old(self).row().head as int, old(self).row().buff, row_lens(vec@), -((delta as isize) as int)),
            final(self).pref() == final(self).col().head,
    {
        #[verifier::truncate]
        let d = delta as isize;
        self.move_x(vec, d * -1);
        true
    }

    /// Moves `delta` units on through the rows.
    pub fn move_right<T>(&mut self, vec: &Vec<Vec<T>>, delta: usize) -> (r: bool)
        requires
            move_x_ok(old(self).col().head as int, old(self).col().buff, old(self).row().head as int, old(self).row().buff, row_lens(vec@), (delta as isize) as int),
        ensures
            r,
            final(self).col().buff == old(self).col().buff,
            final(self).row().buff == old(self).row().buff,
            (final(self).col().head as int, final(self).row().head as int) == spec_move_x(old(self).col().head as int, old(self).col().buff, old(self).row().head as int, old(self).row().buff, row_lens(vec@), (delta as isize) as int),
            final(self).pref() == final(self).col().head,
    {
        #[verifier::truncate]
        let d = delta as isize;
        self.move_x(vec, d);
        true
    }

    /// Moves `delta` rows down; false when the whole move fell outside the rows.
    pub fn move_down<T>(&mut self, vec: &Vec<Vec<T>>, delta: usize) -> (r: bool)
        requires
            move_head_ok(old(self).row().head as int, old(self).row().spec_get_max(vec@.len()) as int, (delta as isize) as int),
        ensures
            ({
                let d = (delta as isize) as int;
                let (yh, rem) = spec_move_head(old(self).row().head as int, old(self).row().spec_get_max(vec@.len()) as int, d);
                &&& final(self).row() == Cursor { head: yh as usize, ..old(self).row() }
                &&& r == (rem != d)
                &&& final(self).pref() == old(self).pref()
                &&& final(self).col().buff == old(self).col().buff
                &&& if r && yh < vec.len() {
                    final(self).col().head == if old(self).pref() < old(self).col().spec_get_max(vec@[yh]@.len()) {
                        old(self).pref() as int
                    } else {
                        old(self).col().spec_get_max(vec@[yh]@.len()) as int
                    }
                } else {
                    final(self).col().head == old(self).col().head
                }
            }),
    {
        #[verifier::truncate]
        let d = delta as isize;
        self.move_y(vec, d)
    }

    /// Moves `delta` rows up; false when the whole move fell outside the rows.
    pub fn move_up<T>(&mut self, vec: &Vec<Vec<T>>, delta: usize) -> (r: bool)
        requires
            (delta as isize) != isize::MIN,
            move_head_ok(old(self).row().head as int, old(self).row().spec_get_max(vec@.len()) as int, -((delta as isize) as int)),
        ensures
            ({
                let d = -((delta as isize) as int);
                let (yh, rem) = spec_move_head(old(self).row().head as int, old(self).row().spec_get_max(vec@.len()) as int, d);
                &&& final(self).row() == Cursor { head: yh as usize, ..old(self).row() }
                &&& r == (rem != d)
                &&& final(self).pref() == old(self).pref()
                &&& final(self).col().buff == old(self).col().buff
                &&& if r && yh < vec.len() {
                    final(self).col().head == if old(self).pref() < old(self).col().spec_get_max(vec@[yh]@.len()) {
                        old(self).pref() as int
                    } else {
                        old(self).col().spec_get_max(vec@[yh]@.len()) as int
                    }
                } else {
                    final(self).col().head == old(self).col().head
                }
            }),
    {
        #[verifier::truncate]
        let d = delta as isize;
        self.move_y(vec, d * -1)
    }
}

/// Nothing lies before the start: a cursor that `move_to_start` put at 0
/// stays there on a move back by one, which reports the whole step as not
/// fitting.
pub proof fn lemma_nothing_before_start(max: int)
    requires
        0 <= max,
    ensures
        spec_move_head(0, max, -1) == (0int, -1int),
{
}

/// Nothing lies past the end: a cursor that `move_to_end` put at its
/// furthest position stays there on a move on by one, which reports the
/// whole step as not fitting.
pub proof fn lemma_nothing_past_end(max: int)
    requires
        0 <= max,
    ensures
        spec_move_head(max, max, 1) == (max, 1int),
{
}

/// A wrapping move by one from a position up to the furthest one stays
/// within `isize` in a vector shorter than `isize::MAX`.
pub proof fn lemma_move_wrapped_by_one_ok(head: int, max: int, len: int)
    requires
        0 <= head <= max,
        max <= len <= max + 1,
        len < isize::MAX,
    ensures
        move_wrapped_ok(head, max, len, 1),
        move_wrapped_ok(head, max, len, -1),
{
    reveal_with_fuel(move_wrapped_ok, 3);
    let h_up = if max - len < 0 { 0 } else { max - len };
    assert(move_wrapped_ok(h_up, max, len, 0));
    let h_down = if len > max { max } else { len };
    assert(move_wrapped_ok(h_down, max, len, 0));
}

/// Prefix counts of rows only grow.
pub proof fn lemma_linear_before_monotone(lens: Seq<int>, i: int, j: int)
    requires
        i <= j,
    ensures
        linear_before(lens, i) <= linear_before(lens, j),
    decreases j,
{
    if j <= 0 || lens.len() == 0 {
    } else if j > lens.len() {
        if i <= lens.len() {
            lemma_linear_before_monotone(lens, i, lens.len() as int);
        }
    } else if i < j {
        lemma_linear_before_monotone(lens, i, j - 1);
    }
}

/// Every row is shorter than the far jump that takes a column cursor to one
/// end of a row.
pub open spec fn rows_short(lens: Seq<int>) -> bool {
    forall|i: int| 0 <= i < lens.len() ==> 0 <= #[trigger] lens[i] && lens[i] < far_jump()
}

/// Column `x` of row `y` is a place a point that may not pass a row's last
/// unit can stand.
pub open spec fn valid_pos(lens: Seq<int>, x: int, y: int) -> bool {
    &&& 0 <= y < lens.len()
    &&& 0 <= x <= spec_max(false, lens[y] as nat)
}

/// The number of units before column `x` of row `y`.
pub open spec fn lin_at(lens: Seq<int>, x: int, y: int) -> int {
    linear_before(lens, y) + x
}

/// The number of units in all the rows, an empty row counting as one.
pub open spec fn lin_total(lens: Seq<int>) -> int {
    linear_before(lens, lens.len() as int)
}

proof fn lemma_linear_before_step(lens: Seq<int>, y: int)
    requires
        0 <= y < lens.len(),
    ensures
        linear_before(lens, y + 1) == linear_before(lens, y) + if lens[y] > 1 { lens[y] } else { 1 },
{
}

proof fn lemma_valid_pos_below_total(lens: Seq<int>, x: int, y: int)
    requires
        valid_pos(lens, x, y),
        0 <= lens[y],
    ensures
        lin_at(lens, x, y) + 1 <= linear_before(lens, y + 1),
        linear_before(lens, y + 1) <= lin_total(lens),
        y <= linear_before(lens, y),
{
    lemma_linear_before_step(lens, y);
    lemma_linear_before_monotone(lens, y + 1, lens.len() as int);
    lemma_rows_before_count(lens, y);
}

proof fn lemma_far_jump_value()
    ensures
        far_jump() == 0xffff_ffff || far_jump() == -1,
{
    let j: isize = u32::MAX as isize;
    assert(j == 0xffff_ffff || j == -1) by (bit_vector)
        requires j == u32::MAX as isize;
}

proof fn lemma_rows_before_count(lens: Seq<int>, y: int)
    requires
        0 <= y <= lens.len(),
    ensures
        y <= linear_before(lens, y),
    decreases y,
{
    if y > 0 {
        lemma_rows_before_count(lens, y - 1);
    }
}

proof fn lemma_move_forward(lens: Seq<int>, x: int, y: int, rem: int)
    requires
        rows_short(lens),
        valid_pos(lens, x, y),
        lin_total(lens) <= isize::MAX,
        0 <= rem,
        lin_at(lens, x, y) + rem <= isize::MAX,
    ensures
        move_x_ok(x, false, y, false, lens, rem),
        valid_pos(lens, spec_move_x(x, false, y, false, lens, rem).0, spec_move_x(x, false, y, false, lens, rem).1),
        lin_at(lens, spec_move_x(x, false, y, false, lens, rem).0, spec_move_x(x, false, y, false, lens, rem).1)
            == if lin_at(lens, x, y) + rem < lin_total(lens) { lin_at(lens, x, y) + rem } else { lin_total(lens) - 1 },
    decreases rem,
{
    let n = lens.len() as int;
    assert(0 <= lens[y] < far_jump());
    lemma_far_jump_value();
    lemma_valid_pos_below_total(lens, x, y);
    lemma_linear_before_step(lens, y);
    lemma_rows_before_count(lens, n);
    lemma_linear_before_monotone(lens, y, n);
    if rem == 0 {
    } else {
        let w = if lens[y] > 1 { lens[y] } else { 1 };
        assert(spec_max(false, lens[y] as nat) == w - 1);
        if x + rem <= w - 1 {
            assert(move_x_step(x, false, y, false, lens, rem) == (x + rem, y, 0int));
        } else if y == n - 1 {
            assert(spec_max(false, lens.len()) == n - 1);
            assert(move_x_step(x, false, y, false, lens, rem) == (w - 1, y, 0int));
        } else {
            let y1 = y + 1;
            assert(0 <= lens[y1] < far_jump());
            let w1 = if lens[y1] > 1 { lens[y1] } else { 1 };
            assert(spec_max(false, lens[y1] as nat) == w1 - 1);
            assert(spec_max(false, lens.len()) == n - 1);
            let rem2 = x + rem - w;
            assert(move_x_step(x, false, y, false, lens, rem) == (0int, y1, rem2));
            lemma_linear_before_step(lens, y1);
            lemma_linear_before_monotone(lens, y1 + 1, n);
            if rem2 != 0 {
                lemma_move_forward(lens, 0, y1, rem2);
            }
        }
    }
}

proof fn lemma_move_backward(lens: Seq<int>, x: int, y: int, rem: int)
    requires
        rows_short(lens),
        valid_pos(lens, x, y),
        lin_total(lens) <= isize::MAX,
        isize::MIN < rem <= 0,
    ensures
        move_x_ok(x, false, y, false, lens, rem),
        valid_pos(lens, spec_move_x(x, false, y, false, lens, rem).0, spec_move_x(x, false, y, false, lens, rem).1),
        lin_at(lens, spec_move_x(x, false, y, false, lens, rem).0, spec_move_x(x, false, y, false, lens, rem).1)
            == if lin_at(lens, x, y) + rem >= 0 { lin_at(lens, x, y) + rem } else { 0 },
    decreases -rem,
{
    let n = lens.len() as int;
    assert(0 <= lens[y] < far_jump());
    lemma_far_jump_value();
    lemma_valid_pos_below_total(lens, x, y);
    lemma_rows_before_count(lens, n);
    lemma_linear_before_monotone(lens, y, n);
    if rem == 0 {
    } else {
        let w = if lens[y] > 1 { lens[y] } else { 1 };
        assert(spec_max(false, lens[y] as nat) == w - 1);
        assert(spec_max(false, lens.len()) == n - 1);
        if x + rem >= 0 {
            assert(move_x_step(x, false, y, false, lens, rem) == (x + rem, y, 0int));
        } else if y == 0 {
            assert(move_x_step(x, false, y, false, lens, rem) == (0int, 0int, 0int));
        } else {
            let y1 = y - 1;
            assert(0 <= lens[y1] < far_jump());
            let w1 = if lens[y1] > 1 { lens[y1] } else { 1 };
            assert(spec_max(false, lens[y1] as nat) == w1 - 1);
            let rem2 = x + rem + 1;
            assert(sat_abs(x + rem) == -(x + rem));
            assert(move_x_step(x, false, y, false, lens, rem) == (w1 - 1, y1, rem2));
            lemma_linear_before_step(lens, y1);
            lemma_valid_pos_below_total(lens, w1 - 1, y1);
            if rem2 != 0 {
                lemma_move_backward(lens, w1 - 1, y1, rem2);
            }
        }
    }
}

proof fn lemma_lin_at_injective(lens: Seq<int>, x1: int, y1: int, x2: int, y2: int)
    requires
        rows_short(lens),
        valid_pos(lens, x1, y1),
        valid_pos(lens, x2, y2),
        lin_at(lens, x1, y1) == lin_at(lens, x2, y2),
    ensures
        x1 == x2,
        y1 == y2,
{
    assert(0 <= lens[y1]);
    assert(0 <= lens[y2]);
    lemma_valid_pos_below_total(lens, x1, y1);
    lemma_valid_pos_below_total(lens, x2, y2);
    if y1 < y2 {
        lemma_linear_before_monotone(lens, y1 + 1, y2);
    } else if y2 < y1 {
        lemma_linear_before_monotone(lens, y2 + 1, y1);
    }
}

/// Setting a point by its linear index lands it on that index, or on the
/// last unit when the index is past the end: from the start of a matrix
/// whose point may not pass a row's last unit, the move that `set_linear`
/// makes stays within `isize`, ends on a place the point can stand, and has
/// `min(idx, total - 1)` units before it.
pub proof fn lemma_set_linear_lands(lens: Seq<int>, idx: int)
    requires
        lens.len() > 0,
        rows_short(lens),
        lin_total(lens) <= isize::MAX,
        0 <= idx <= isize::MAX,
    ensures
        move_x_ok(0, false, 0, false, lens, idx),
        valid_pos(lens, spec_move_x(0, false, 0, false, lens, idx).0, spec_move_x(0, false, 0, false, lens, idx).1),
        lin_at(lens, spec_move_x(0, false, 0, false, lens, idx).0, spec_move_x(0, false, 0, false, lens, idx).1)
            == if idx < lin_total(lens) { idx } else { lin_total(lens) - 1 },
{
    assert(0 <= lens[0]);
    assert(linear_before(lens, 0) == 0);
    lemma_move_forward(lens, 0, 0, idx);
}

/// Setting a point by the linear index read from it gives the point back:
/// for any place `(x, y)` a point can stand, the move `set_linear` makes
/// with `lin_at(x, y)` ends at `(x, y)`.
pub proof fn lemma_set_linear_of_get_linear(lens: Seq<int>, x: int, y: int)
    requires
        rows_short(lens),
        lin_total(lens) <= isize::MAX,
        valid_pos(lens, x, y),
    ensures
        move_x_ok(0, false, 0, false, lens, lin_at(lens, x, y)),
        spec_move_x(0, false, 0, false, lens, lin_at(lens, x, y)) == (x, y),
{
    assert(0 <= lens[y]);
    lemma_valid_pos_below_total(lens, x, y);
    lemma_set_linear_lands(lens, lin_at(lens, x, y));
    let (x2, y2) = spec_move_x(0, false, 0, false, lens, lin_at(lens, x, y));
    lemma_lin_at_injective(lens, x2, y2, x, y);
}

/// `move_left` undoes `move_right` when nothing is clamped: from a place
/// `(x, y)` a point can stand, moving right by `delta` with the end of the
/// last row still ahead moves the linear index by exactly `delta`, and
/// moving left by `delta` from there comes back to `(x, y)`.
pub proof fn lemma_move_right_then_left(lens: Seq<int>, x: int, y: int, delta: int)
    requires
        rows_short(lens),
        lin_total(lens) <= isize::MAX,
        valid_pos(lens, x, y),
        0 <= delta,
        lin_at(lens, x, y) + delta < lin_total(lens),
    ensures
        move_x_ok(x, false, y, false, lens, delta),
        lin_at(lens, spec_move_x(x, false, y, false, lens, delta).0, spec_move_x(x, false, y, false, lens, delta).1)
            == lin_at(lens, x, y) + delta,
        move_x_ok(spec_move_x(x, false, y, false, lens, delta).0, false, spec_move_x(x, false, y, false, lens, delta).1, false, lens, -delta),
        spec_move_x(spec_move_x(x, false, y, false, lens, delta).0, false, spec_move_x(x, false, y, false, lens, delta).1, false, lens, -delta) == (x, y),
{
    assert(0 <= lens[y]);
    lemma_valid_pos_below_total(lens, x, y);
    lemma_move_forward(lens, x, y, delta);
    let (x1, y1) = spec_move_x(x, false, y, false, lens, delta);
    lemma_move_backward(lens, x1, y1, -delta);
    let (x2, y2) = spec_move_x(x1, false, y1, false, lens, -delta);
    lemma_lin_at_injective(lens, x2, y2, x, y);
}


/// `n - 1`, or 0 when `n` is 0.
pub open spec fn dec16(n: u16) -> u16 {
    if n > 0 { (n - 1) as u16 } else { 0 }
}

/// The window onto one axis of a matrix: `head` is the datum under the
/// cursor, `scroll` the first datum shown, `cursor` the cursor's offset in the
/// window and `size` the window's length.
#[derive(Copy, Clone, Debug, Default)]
pub struct CursorView {
    pub head: usize,
    pub scroll: usize,
    pub cursor: u16,
    pub size: u16,
}

impl CursorView {
    /// The window shows the head: it starts `cursor` data before it, and the
    /// cursor is inside the window (at its start where the window is empty).
    pub open spec fn wf(self) -> bool {
        &&& self.scroll + self.cursor == self.head
        &&& (self.cursor < self.size || (self.size == 0 && self.cursor == 0))
    }

    /// What `resize(new_head, new_size)` makes of the view.
    pub open spec fn spec_resize(self, new_head: usize, new_size: u16) -> CursorView {
        if new_head < new_size {
            CursorView { head: new_head, scroll: 0, cursor: new_head as u16, size: new_size }
        } else if self.cursor > dec16(new_size) {
            CursorView { head: new_head, scroll: (new_head - dec16(new_size)) as usize, cursor: dec16(new_size), size: new_size }
        } else {
            CursorView {
                head: new_head,
                scroll: if new_head >= self.cursor { (new_head - self.cursor) as usize } else { 0 },
                size: new_size,
                ..self
            }
        }
    }

    /// The room the cursor has to move forward without scrolling.
    pub open spec fn forward_room(self) -> int {
        if dec16(self.size) >= self.cursor { dec16(self.size) - self.cursor } else { 0 }
    }

    /// What `update(new_head)` makes of the view, and whether it scrolls.
    pub open spec fn spec_update(self, new_head: usize) -> (CursorView, bool) {
        if self.head == new_head {
            (self, false)
        } else if self.head < new_head {
            let delta = new_head - self.head;
            if delta < self.forward_room() {
                (CursorView { cursor: (self.cursor + delta) as u16, head: new_head, ..self }, false)
            } else {
                (CursorView {
                    scroll: (self.scroll + delta - self.forward_room()) as usize,
                    cursor: (self.cursor + self.forward_room()) as u16,
                    head: new_head,
                    ..self
                }, true)
            }
        } else {
            let delta = self.head - new_head;
            if delta <= self.cursor {
                (CursorView { cursor: (self.cursor - delta) as u16, head: new_head, ..self }, false)
            } else {
                let scroll = if self.scroll >= delta - self.cursor { self.scroll - (delta - self.cursor) } else { 0 };
                (CursorView { scroll: scroll as usize, cursor: (new_head - scroll) as u16, head: new_head, ..self }, true)
            }
        }
    }

    /// The arithmetic of `update(new_head)` stays in range.
    pub open spec fn update_ok(self, new_head: usize) -> bool {
        if self.head < new_head {
            let delta = new_head - self.head;
            delta >= self.forward_room() ==> self.scroll + delta - self.forward_room() <= usize::MAX
        } else if new_head < self.head {
            let delta = self.head - new_head;
            let scroll = if self.scroll >= delta - self.cursor { self.scroll - (delta - self.cursor) } else { 0 };
            delta > self.cursor ==> scroll <= new_head && new_head - scroll <= u16::MAX
        } else {
            true
        }
    }

    pub fn from_size(size: u16) -> (r: Self)
        ensures
            r == (CursorView { scroll: 0, head: 0, cursor: 0, size }),
    {
        CursorView { scroll: 0, head: 0, cursor: 0, size }
    }

    /// The characters of `vec` the window shows, each with its width: those
    /// from `scroll` on while the columns used are fewer than `size`.
    pub fn get_weighted_view(self, vec: &[char]) -> (r: Vec<(u16, char)>)
        requires
            self.size <= u16::MAX - 3,
        ensures
            ({
                let s = if self.scroll < vec@.len() { vec@.skip(self.scroll as int) } else { seq![] };
                let n = crate::util::fill_count(s, 0, self.size as nat);
                &&& r@.len() == n
                &&& forall|k: int| 0 <= k < n ==> #[trigger] r@[k] == (cell_width(s[k]) as u16, s[k]) && cell_width(s[k]) <= 3
            }),
    {
        let ghost s = if self.scroll < vec@.len() { vec@.skip(self.scroll as int) } else { seq![] };
        let mut out: Vec<(u16, char)> = Vec::new();
        let mut used: u16 = 0;
        let mut i: usize = self.scroll;
        proof {
            crate::util::lemma_fill_count(s, 0, self.size as nat);
        }
        while i < vec.len() && used < self.size
            invariant
                self.size <= u16::MAX - 3,
                used <= self.size + 3,
                s == (if self.scroll < vec@.len() { vec@.skip(self.scroll as int) } else { seq![] }),
                i >= self.scroll,
                i < vec.len() ==> self.scroll < vec@.len(),
                self.scroll < vec@.len() ==> i <= vec.len(),
                out@.len() == i - self.scroll,
                crate::util::fill_count(s, 0, self.size as nat) == out@.len() + crate::util::fill_count(
                    if self.scroll < vec@.len() { vec@.skip(i as int) } else { seq![] }, used as nat, self.size as nat),
                forall|k: int| 0 <= k < out@.len() ==> #[trigger] out@[k] == (cell_width(s[k]) as u16, s[k]) && cell_width(s[k]) <= 3,
            decreases vec.len() - i,
        {
            let c = vec[i];
            let w = cell_width_of(c);
            proof {
                assert(vec@.skip(i as int).drop_first() =~= vec@.skip(i + 1));
                assert(s[i - self.scroll] == c);
            }
            let w16 = w as u16;
            used = used + w16;
            out.push((w16, c));
            i = i + 1;
        }
        proof {
            if self.scroll >= vec@.len() {
                assert(out@.len() == 0);
            } else if i >= vec.len() {
                assert(vec@.skip(i as int).len() == 0);
            }
        }
        out
    }

    /// The units of `vec` the window shows.
    pub fn get_unit_view<T>(self, vec: &Vec<T>) -> (r: Vec<&T>)
        ensures
            r@.len() == if self.scroll >= vec.len() { 0 } else if vec.len() - self.scroll < self.size { vec.len() - self.scroll } else { self.size as int },
            forall|i: int| 0 <= i < r@.len() ==> *r@[i] == vec@[self.scroll + i],
    {
        let mut out: Vec<&T> = Vec::new();
        if self.scroll < vec.len() {
            let avail = vec.len() - self.scroll;
            let n = if avail < self.size as usize { avail } else { self.size as usize };
            let mut i: usize = 0;
            while i < n
                invariant
                    0 <= i <= n,
                    n <= vec.len() - self.scroll,
                    self.scroll < vec.len(),
                    out@.len() == i,
                    forall|k: int| 0 <= k < i ==> *out@[k] == vec@[self.scroll + k],
                decreases n - i,
            {
                out.push(&vec[self.scroll + i]);
                i = i + 1;
            }
        }
        out
    }

    /// Moves the head to `new_head` in a window of `new_size`, keeping the
    /// cursor's offset where it still fits.
    pub fn resize(&mut self, new_head: usize, new_size: u16)
        ensures
            *final(self) == old(self).spec_resize(new_head, new_size),
    {
        self.size = new_size;
        self.head = new_head;
        if new_head < new_size as usize {
            self.scroll = 0;
            self.cursor = self.head as u16;
        } else if self.cursor > new_size.saturating_sub(1) {
            self.cursor = self.size.saturating_sub(1);
            self.scroll = self.head - self.size.saturating_sub(1) as usize;
        } else {
            self.scroll = self.head.saturating_sub(self.cursor as usize);
        }
    }

    /// Moves the head to `new_head`, scrolling just enough to keep it in the
    /// window; returns whether the window scrolled.
    pub fn update(&mut self, new_head: usize) -> (scrolled: bool)
        requires
            old(self).update_ok(new_head),
        ensures
            (*final(self), scrolled) == old(self).spec_update(new_head),
    {
        if self.head == new_head {
            false
        } else if self.head < new_head {
            let delta_size = new_head - self.head;
            let max_delta = self.size.saturating_sub(1).saturating_sub(self.cursor);
            if delta_size < max_delta as usize {
                self.cursor = self.cursor + delta_size as u16;
                self.head = new_head;
                false
            } else {
                self.scroll = self.scroll + (delta_size - max_delta as usize);
                self.cursor = self.cursor + max_delta;
                self.head = new_head;
                true
            }
        } else {
            let delta_size = self.head - new_head;
            if delta_size <= self.cursor as usize {
                self.cursor = self.cursor - delta_size as u16;
                self.head = new_head;
                false
            } else {
                self.scroll = self.scroll.saturating_sub(delta_size - self.cursor as usize);
                self.cursor = (new_head - self.scroll) as u16;
                self.head = new_head;
                true
            }
        }
    }
}

/// A resized view always shows its head.
pub proof fn lemma_cursor_view_resize_wf(v: CursorView, new_head: usize, new_size: u16)
    ensures
        v.spec_resize(new_head, new_size).wf(),
        v.spec_resize(new_head, new_size).head == new_head,
{
}

/// From a view that shows its head, moving the head anywhere never
/// overflows and leaves a view that shows the new head.
pub proof fn lemma_cursor_view_update_wf(v: CursorView, new_head: usize)
    requires
        v.wf(),
    ensures
        v.update_ok(new_head),
        v.spec_update(new_head).0.wf(),
        v.spec_update(new_head).0.head == new_head,
        v.spec_update(new_head).0.size == v.size,
{
}


/// `update` scrolls as little as keeps the cursor in the window: from a
/// well-formed view at least one cell long, the window starts at the new
/// head when that lies before it, ends at the new head when that lies past
/// it, and stays where it was otherwise; an update that reports no scroll
/// keeps the window's start.
pub proof fn lemma_cursor_view_update_scrolls_least(v: CursorView, new_head: usize)
    requires
        v.wf(),
        v.size >= 1,
    ensures
        v.spec_update(new_head).0.scroll == if new_head < v.scroll {
            new_head as int
        } else if new_head >= v.scroll + v.size {
            new_head + 1 - v.size
        } else {
            v.scroll as int
        },
        !v.spec_update(new_head).1 ==> v.spec_update(new_head).0.scroll == v.scroll,
{
}

/// `resize` keeps the cursor where it still fits: onto a window at least
/// one cell long, a head that fits in the window is shown from the start,
/// and otherwise a cursor that lies within the new window stays where it is.
pub proof fn lemma_cursor_view_resize_keeps_cursor(v: CursorView, new_head: usize, new_size: u16)
    requires
        new_size >= 1,
    ensures
        v.spec_resize(new_head, new_size).cursor < new_size,
        new_head < new_size ==> v.spec_resize(new_head, new_size).scroll == 0,
        new_head >= new_size && v.cursor < new_size ==> v.spec_resize(new_head, new_size).cursor == v.cursor,
{
}

/// A vector with a cursor in it.
pub struct CursorVec<T> {
    pub cursor: Cursor,
    pub data: Vec<T>,
}

impl<T> Default for CursorVec<T> {
    fn default() -> (r: Self)
        ensures
            r.cursor == (Cursor { head: 0, buff: false }),
            r.data@.len() == 0,
    {
        CursorVec { cursor: Cursor { head: 0, buff: false }, data: Vec::new() }
    }
}

impl<T> From<Vec<T>> for CursorVec<T> {
    fn from(vec: Vec<T>) -> (r: Self)
        ensures
            r.cursor == (Cursor { head: 0, buff: false }),
            r.data == vec,
    {
        CursorVec { cursor: Cursor { head: 0, buff: false }, data: vec }
    }
}

impl<T> FromSpecImpl<Vec<T>> for CursorVec<T> {
    open spec fn obeys_from_spec() -> bool {
        true
    }

    open spec fn from_spec(vec: Vec<T>) -> Self {
        CursorVec { cursor: Cursor { head: 0, buff: false }, data: vec }
    }
}

impl<T> CursorVec<T> {
    pub open spec fn max(self) -> int {
        self.cursor.spec_get_max(self.data@.len()) as int
    }

    /// Moves the cursor as `Cursor::move_head` does.
    pub fn move_head(&mut self, idelta: isize) -> (r: isize)
        requires
            move_head_ok(old(self).cursor.head as int, old(self).max(), idelta as int),
        ensures
            final(self).data == old(self).data,
            final(self).cursor.buff == old(self).cursor.buff,
            (final(self).cursor.head as int, r as int) == spec_move_head(old(self).cursor.head as int, old(self).max(), idelta as int),
    {
        self.cursor.move_head(&self.data, idelta)
    }

    /// Whether a move by one either way, wrapping, stays within `isize`:
    /// the cursor is on a unit (or at the furthest position) and the vector
    /// is shorter than `isize::MAX`.
    pub fn step_fits(&self) -> (r: bool)
        ensures
            r ==> move_wrapped_ok(self.cursor.head as int, self.max(), self.data@.len() as int, 1),
            r ==> move_wrapped_ok(self.cursor.head as int, self.max(), self.data@.len() as int, -1),
    {
        let max = self.cursor.get_max(&self.data);
        let r = self.cursor.head <= max && self.data.len() < isize::MAX as usize;
        proof {
            if r {
                lemma_move_wrapped_by_one_ok(self.cursor.head as int, self.max(), self.data@.len() as int);
            }
        }
        r
    }

    /// Moves the cursor as `Cursor::move_wrapped` does.
    pub fn move_wrapped(&mut self, idelta: isize)
        requires
            move_wrapped_ok(old(self).cursor.head as int, old(self).max(), old(self).data@.len() as int, idelta as int),
        ensures
            final(self).data == old(self).data,
            final(self).cursor.buff == old(self).cursor.buff,
            final(self).cursor.head == spec_move_wrapped(old(self).cursor.head as int, old(self).max(), old(self).data@.len() as int, idelta as int),
    {
        self.cursor.move_wrapped(&self.data, idelta)
    }

    /// The unit under the cursor, if the cursor is on one.
    pub fn get(&self) -> (r: Option<&T>)
        ensures
            self.cursor.head < self.data@.len() ==> r == Some(&self.data@[self.cursor.head as int]),
            self.cursor.head >= self.data@.len() ==> r is None,
    {
        if self.cursor.head < self.data.len() {
            Some(&self.data[self.cursor.head])
        } else {
            None
        }
    }

    /// The unit under the cursor, to change in place.
    pub fn get_mut(&mut self) -> (r: Option<&mut T>)
        ensures
            r is Some == (old(self).cursor.head < old(self).data@.len()),
            final(self).cursor == old(self).cursor,
            r is None ==> final(self).data == old(self).data,
            r matches Some(e) ==> *e == old(self).data@[old(self).cursor.head as int]
                && final(self).data@ == old(self).data@.update(old(self).cursor.head as int, *final(e)),
    {
        if self.cursor.head < self.data.len() {
            Some(&mut self.data[self.cursor.head])
        } else {
            None
        }
    }

    /// Removes the unit under the cursor as `Cursor::remove` does.
    pub fn remove(&mut self) -> (r: bool)
        requires
            old(self).cursor.head < old(self).data@.len() ==> move_wrapped_ok(
                old(self).cursor.head as int, old(self).cursor.spec_get_max((old(self).data@.len() - 1) as nat) as int, old(self).data@.len() - 1, -1),
        ensures
            r == (old(self).cursor.head < old(self).data@.len()),
            final(self).cursor.buff == old(self).cursor.buff,
            r ==> final(self).data@ == old(self).data@.remove(old(self).cursor.head as int),
            r ==> final(self).cursor.head == spec_move_wrapped(old(self).cursor.head as int, old(self).cursor.spec_get_max((old(self).data@.len() - 1) as nat) as int, old(self).data@.len() - 1, -1),
            !r ==> final(self).data == old(self).data && final(self).cursor == old(self).cursor,
    {
        self.cursor.remove(&mut self.data)
    }

    /// Removes the unit under the cursor as `Cursor::delete` does.
    pub fn delete(&mut self) -> (r: bool)
        ensures
            r == (old(self).cursor.head < old(self).data@.len()),
            final(self).cursor == old(self).cursor,
            r ==> final(self).data@ == old(self).data@.remove(old(self).cursor.head as int),
            !r ==> final(self).data == old(self).data,
    {
        self.cursor.delete(&mut self.data)
    }

    /// Steps back and removes as `Cursor::backspace` does.
    pub fn backspace(&mut self) -> (r: bool)
        requires
            move_head_ok(old(self).cursor.head as int, old(self).max(), -1),
            spec_move_head(old(self).cursor.head as int, old(self).max(), -1).1 == 0
                ==> old(self).cursor.head - 1 < old(self).data@.len(),
        ensures
            r == (spec_move_head(old(self).cursor.head as int, old(self).max(), -1).1 == 0),
            r ==> final(self).cursor.head == old(self).cursor.head - 1 && final(self).data@ == old(self).data@.remove(old(self).cursor.head - 1),
            !r ==> final(self).data == old(self).data && final(self).cursor == old(self).cursor,
            final(self).cursor.buff == old(self).cursor.buff,
    {
        self.cursor.backspace(&mut self.data)
    }

    /// Inserts as `Cursor::insert` does.
    pub fn insert(&mut self, t: T)
        requires
            old(self).cursor.head + 1 != old(self).data@.len() && old(self).data@.len() != 0 ==> old(self).cursor.head <= old(self).data@.len(),
            move_head_ok(old(self).cursor.head as int, old(self).cursor.spec_get_max((old(self).data@.len() + 1) as nat) as int, 1),
        ensures
            final(self).data@ == if old(self).cursor.head + 1 == old(self).data@.len() || old(self).data@.len() == 0 {
                old(self).data@.push(t)
            } else {
                old(self).data@.insert(old(self).cursor.head as int, t)
            },
            final(self).cursor.buff == old(self).cursor.buff,
            final(self).cursor.head == spec_move_head(old(self).cursor.head as int, old(self).cursor.spec_get_max((old(self).data@.len() + 1) as nat) as int, 1).0,
    {
        self.cursor.insert(&mut self.data, t)
    }

    /// Moves onto the first unit for which `is_equal` holds, or inserts
    /// `unit`, as `Cursor::insert_unique_with` does.
    pub fn insert_unique_with<F: Fn(&T) -> bool>(&mut self, is_equal: F, unit: T) -> (r: bool)
        requires
            forall|i: int| 0 <= i < old(self).data@.len() ==> call_requires(is_equal, (&old(self).data@[i],)),
            old(self).data@.len() > 0 && old(self).cursor.head + 1 != old(self).data@.len() ==> old(self).cursor.head + 1 <= old(self).data@.len(),
        ensures
            final(self).cursor.buff == old(self).cursor.buff,
            !r ==> final(self).data == old(self).data && final(self).cursor.head < old(self).data@.len()
                && call_ensures(is_equal, (&old(self).data@[final(self).cursor.head as int],), true)
                && forall|j: int| 0 <= j < final(self).cursor.head ==> call_ensures(is_equal, (&old(self).data@[j],), false),
            r ==> forall|j: int| 0 <= j < old(self).data@.len() ==> call_ensures(is_equal, (&old(self).data@[j],), false),
            r && old(self).data@.len() == 0 ==> final(self).data@ == seq![unit] && final(self).cursor.head == old(self).cursor.head,
            r && old(self).data@.len() > 0 && old(self).cursor.head + 1 == old(self).data@.len() ==> final(self).data@ == old(self).data@.push(unit)
                && final(self).cursor.head == old(self).cursor.head + 1,
            r && old(self).data@.len() > 0 && old(self).cursor.head + 1 != old(self).data@.len() ==> final(self).data@ == old(self).data@.insert(old(self).cursor.head + 1, unit)
                && final(self).cursor.head == old(self).cursor.head + 1,
    {
        self.cursor.insert_unique_with(&mut self.data, is_equal, unit)
    }
}


/// No two units of `s` are the same under `same`.
pub open spec fn unique_under<T>(s: Seq<T>, same: spec_fn(T, T) -> bool) -> bool {
    forall|i: int, j: int| 0 <= i < s.len() && 0 <= j < s.len() && i != j ==> !same(#[trigger] s[i], #[trigger] s[j])
}

/// Opening what is already there selects it instead of adding a copy:
/// where `is_equal` tells which units are the same as `unit` under an
/// equivalence `same`, a vector with no two units the same keeps none after
/// `insert_unique_with` (whose outcome the clauses after `same`'s restate),
/// and its cursor ends on a unit the same as `unit`.
pub proof fn lemma_insert_unique_keeps_distinct<T, F: Fn(&T) -> bool>(
    before: CursorVec<T>,
    after: CursorVec<T>,
    is_equal: F,
    unit: T,
    r: bool,
    same: spec_fn(T, T) -> bool,
)
    requires
        forall|x: T, b: bool| call_ensures(is_equal, (&x,), b) ==> b == same(x, unit),
        forall|x: T, y: T| #[trigger] same(x, y) == same(y, x),
        forall|x: T| #[trigger] same(x, x),
        unique_under(before.data@, same),
        before.cursor.head < before.data@.len() || (before.data@.len() == 0 && before.cursor.head == 0),
        !r ==> after.data == before.data && after.cursor.head < before.data@.len()
            && call_ensures(is_equal, (&before.data@[after.cursor.head as int],), true),
        r ==> forall|j: int| 0 <= j < before.data@.len() ==> call_ensures(is_equal, (&before.data@[j],), false),
        r && before.data@.len() == 0 ==> after.data@ == seq![unit] && after.cursor.head == before.cursor.head,
        r && before.data@.len() > 0 && before.cursor.head + 1 == before.data@.len() ==> after.data@ == before.data@.push(unit)
            && after.cursor.head == before.cursor.head + 1,
        r && before.data@.len() > 0 && before.cursor.head + 1 != before.data@.len() ==> after.data@ == before.data@.insert(before.cursor.head + 1, unit)
            && after.cursor.head == before.cursor.head + 1,
    ensures
        unique_under(after.data@, same),
        after.cursor.head < after.data@.len(),
        same(after.data@[after.cursor.head as int], unit),
{
    let old_s = before.data@;
    let new_s = after.data@;
    if !r {
        assert(same(old_s[after.cursor.head as int], unit));
    } else {
        assert forall|j: int| 0 <= j < old_s.len() implies !same(#[trigger] old_s[j], unit) by {
            assert(call_ensures(is_equal, (&old_s[j],), false));
        }
        assert(same(unit, unit));
        if old_s.len() == 0 {
            assert(new_s.len() == 1);
        } else {
            let k = before.cursor.head + 1;
            assert(new_s[k] == unit);
            assert forall|i: int, j: int| 0 <= i < new_s.len() && 0 <= j < new_s.len() && i != j
                implies !same(#[trigger] new_s[i], #[trigger] new_s[j]) by {
                let oi = if i < k { i } else { i - 1 };
                let oj = if j < k { j } else { j - 1 };
                if i == k {
                    assert(new_s[j] == old_s[oj]);
                    assert(!same(old_s[oj], unit));
                    assert(same(new_s[i], new_s[j]) == same(new_s[j], new_s[i]));
                } else if j == k {
                    assert(new_s[i] == old_s[oi]);
                    assert(!same(old_s[oi], unit));
                } else {
                    assert(new_s[i] == old_s[oi]);
                    assert(new_s[j] == old_s[oj]);
                    assert(oi != oj);
                }
            }
        }
    }
}

/// A matrix of units with a point in it.
pub struct PointMatrix<T> {
    pub point: Point,
    pub data: Vec<Vec<T>>,
}

impl<T> Default for PointMatrix<T> {
    fn default() -> (r: Self)
        ensures
            r.data@.len() == 0,
            r.point.col() == (Cursor { head: 0, buff: false }),
            r.point.row() == (Cursor { head: 0, buff: false }),
            r.point.pref() == 0,
    {
        PointMatrix { point: Point::default(), data: Vec::new() }
    }
}

impl<T> From<Vec<Vec<T>>> for PointMatrix<T> {
    fn from(matrix: Vec<Vec<T>>) -> (r: Self)
        ensures
            r.data == matrix,
            r.point.col() == (Cursor { head: 0, buff: false }),
            r.point.row() == (Cursor { head: 0, buff: false }),
            r.point.pref() == 0,
    {
        PointMatrix { point: Point::default(), data: matrix }
    }
}

impl<T> FromSpecImpl<Vec<Vec<T>>> for PointMatrix<T> {
    open spec fn obeys_from_spec() -> bool {
        true
    }

    open spec fn from_spec(matrix: Vec<Vec<T>>) -> Self {
        PointMatrix { point: Point::spec_origin(), data: matrix }
    }
}

impl PointMatrix<char> {
    /// The columns that the units before the point take in its row; 0 when
    /// the point is below the last row.
    pub open spec fn spec_weighted_x(self) -> int {
        let yh = self.point.row().head as int;
        let xh = self.point.col().head as int;
        if yh < self.data@.len() {
            let row = self.data@[yh]@;
            width_of(row.take(if xh < row.len() { xh } else { row.len() as int })) as int
        } else {
            0
        }
    }

    /// The columns that the units before the point take in its row.
    pub fn get_weighted_x(&self) -> (r: usize)
        requires
            self.point.row().head < self.data@.len() ==> self.data@[self.point.row().head as int]@.len() <= usize::MAX / 3,
        ensures
            r == self.spec_weighted_x(),
    {
        if self.point.y.head < self.data.len() {
            self.point.x.get_weighted_head(self.data[self.point.y.head].as_slice())
        } else {
            0
        }
    }
}

impl<T> PointMatrix<T> {
    /// The matrix set up for editing the point's row.
    pub fn editor(self) -> (r: Self)
        ensures
            r.data == self.data,
            r.point.row() == self.point.row(),
            r.point.pref() == self.point.pref(),
            self.point.row().head < self.data.len() ==> r.point.col() == (Cursor { buff: true, head: self.data@[self.point.row().head as int].len() }),
            self.point.row().head >= self.data.len() ==> r.point.col() == self.point.col(),
    {
        let mut m = self;
        m.point = m.point.editor(&m.data);
        m
    }

    /// The number of units before the point.
    pub fn get_linear(&self) -> (r: usize)
        requires
            self.point.spec_linear(self.data@) <= usize::MAX,
        ensures
            r == self.point.spec_linear(self.data@),
    {
        self.point.get_linear(&self.data)
    }

    /// Puts the point `idx` units from the start.
    pub fn set_linear(&mut self, idx: usize)
        requires
            idx <= isize::MAX,
            move_x_ok(0, old(self).point.col().buff, 0, old(self).point.row().buff, row_lens(old(self).data@), idx as int),
        ensures
            final(self).data == old(self).data,
            final(self).point.col().buff == old(self).point.col().buff,
            final(self).point.row().buff == old(self).point.row().buff,
            (final(self).point.col().head as int, final(self).point.row().head as int) == spec_move_x(0, old(self).point.col().buff, 0, old(self).point.row().buff, row_lens(old(self).data@), idx as int),
            final(self).point.pref() == final(self).point.col().head,
    {
        self.point.set_linear(&self.data, idx)
    }

    /// Moves the point `idelta` rows as `Point::move_y` does.
    pub fn move_y(&mut self, idelta: isize) -> (r: bool)
        requires
            move_head_ok(old(self).point.row().head as int, old(self).point.row().spec_get_max(old(self).data@.len()) as int, idelta as int),
        ensures
            final(self).data == old(self).data,
            ({
                let (yh, rem) = spec_move_head(old(self).point.row().head as int, old(self).point.row().spec_get_max(old(self).data@.len()) as int, idelta as int);
                &&& final(self).point.row() == Cursor { head: yh as usize, ..old(self).point.row() }
                &&& r == (rem != idelta)
                &&& final(self).point.pref() == old(self).point.pref()
                &&& final(self).point.col().buff == old(self).point.col().buff
                &&& if r && yh < old(self).data.len() {
                    final(self).point.col().head == if old(self).point.pref() < old(self).point.col().spec_get_max(old(self).data@[yh]@.len()) {
                        old(self).point.pref() as int
                    } else {
                        old(self).point.col().spec_get_max(old(self).data@[yh]@.len()) as int
                    }
                } else {
                    final(self).point.col().head == old(self).point.col().head
                }
            }),
    {
        self.point.move_y(&self.data, idelta)
    }

    /// Moves the point `idelta` units as `Point::move_x` does; returns 0.
    pub fn move_x(&mut self, idelta: isize) -> (r: isize)
        requires
            move_x_ok(old(self).point.col().head as int, old(self).point.col().buff, old(self).point.row().head as int, old(self).point.row().buff, row_lens(old(self).data@), idelta as int),
        ensures
            r == 0,
            final(self).data == old(self).data,
            final(self).point.col().buff == old(self).point.col().buff,
            final(self).point.row().buff == old(self).point.row().buff,
            (final(self).point.col().head as int, final(self).point.row().head as int) == spec_move_x(old(self).point.col().head as int, old(self).point.col().buff, old(self).point.row().head as int, old(self).point.row().buff, row_lens(old(self).data@), idelta as int),
            final(self).point.pref() == final(self).point.col().head,
    {
        self.point.move_x(&self.data, idelta);
        0
    }

    /// Deletes the unit under the point as `Point::delete` does.
    pub fn delete(&mut self) -> (r: bool)
        ensures
            r == (old(self).point.row().head < old(self).data@.len()),
            final(self).point == old(self).point,
            r ==> final(self).data@.len() == old(self).data@.len(),
            r ==> forall|i: int| 0 <= i < old(self).data@.len() && i != old(self).point.row().head ==> final(self).data@[i] == old(self).data@[i],
            r ==> final(self).data@[old(self).point.row().head as int]@ == if old(self).point.col().head < old(self).data@[old(self).point.row().head as int].len() {
                old(self).data@[old(self).point.row().head as int]@.remove(old(self).point.col().head as int)
            } else {
                old(self).data@[old(self).point.row().head as int]@
            },
            !r ==> final(self).data == old(self).data,
    {
        self.point.delete(&mut self.data)
    }

    /// Removes the unit before the point as `Point::backspace` does.
    pub fn backspace(&mut self) -> (r: bool)
        requires
            old(self).point.row().head < old(self).data@.len() ==> {
                let row = old(self).data@[old(self).point.row().head as int];
                let c = old(self).point.col();
                &&& move_head_ok(c.head as int, c.spec_get_max(row@.len()) as int, -1)
                &&& spec_move_head(c.head as int, c.spec_get_max(row@.len()) as int, -1).1 == 0 ==> c.head - 1 < row@.len()
            },
        ensures
            r == (old(self).point.row().head < old(self).data@.len()),
            final(self).point.row() == old(self).point.row(),
            final(self).point.pref() == old(self).point.pref(),
            final(self).point.col().buff == old(self).point.col().buff,
            r ==> final(self).data@.len() == old(self).data@.len(),
            r ==> forall|i: int| 0 <= i < old(self).data@.len() && i != old(self).point.row().head ==> final(self).data@[i] == old(self).data@[i],
            r ==> {
                let row = old(self).data@[old(self).point.row().head as int];
                let c = old(self).point.col();
                if spec_move_head(c.head as int, c.spec_get_max(row@.len()) as int, -1).1 == 0 {
                    final(self).point.col().head == c.head - 1 && final(self).data@[old(self).point.row().head as int]@ == row@.remove(c.head - 1)
                } else {
                    final(self).point.col() == c && final(self).data@[old(self).point.row().head as int] == row
                }
            },
            !r ==> final(self).data == old(self).data && final(self).point == old(self).point,
    {
        self.point.backspace(&mut self.data)
    }

    /// Inserts `t` as `Point::insert` does.
    pub fn insert(&mut self, t: T) -> (r: bool)
        requires
            old(self).point.row().head < old(self).data@.len() ==> {
                let row = old(self).data@[old(self).point.row().head as int];
                let c = old(self).point.col();
                &&& c.head + 1 != row@.len() && row@.len() != 0 ==> c.head <= row@.len()
                &&& move_head_ok(c.head as int, c.spec_get_max((row@.len() + 1) as nat) as int, 1)
            },
        ensures
            r == (old(self).point.row().head < old(self).data@.len()),
            final(self).point.row() == old(self).point.row(),
            final(self).point.pref() == old(self).point.pref(),
            final(self).point.col().buff == old(self).point.col().buff,
            r ==> final(self).data@.len() == old(self).data@.len(),
            r ==> forall|i: int| 0 <= i < old(self).data@.len() && i != old(self).point.row().head ==> final(self).data@[i] == old(self).data@[i],
            r ==> {
                let row = old(self).data@[old(self).point.row().head as int];
                let c = old(self).point.col();
                &&& final(self).data@[old(self).point.row().head as int]@ == if c.head + 1 == row@.len() || row@.len() == 0 {
                    row@.push(t)
                } else {
                    row@.insert(c.head as int, t)
                }
                &&& final(self).point.col().head == spec_move_head(c.head as int, c.spec_get_max((row@.len() + 1) as nat) as int, 1).0
            },
            !r ==> final(self).data == old(self).data && final(self).point == old(self).point,
    {
        self.point.insert(&mut self.data, t)
    }

    /// Moves the point `delta` units back.
    pub fn move_left(&mut self, delta: usize) -> (r: bool)
        requires
            (delta as isize) != isize::MIN,
            move_x_ok(old(self).point.col().head as int, old(self).point.col().buff, old(self).point.row().head as int, old(self).point.row().buff, row_lens(old(self).data@), -((delta as isize) as int)),
        ensures
            r,
            final(self).data == old(self).data,
            final(self).point.col().buff == old(self).point.col().buff,
            final(self).point.row().buff == old(self).point.row().buff,
            (final(self).point.col().head as int, final(self).point.row().head as int) == spec_move_x(old(self).point.col().head as int, old(self).point.col().buff, old(self).point.row().head as int, old(self).point.row().buff, row_lens(old(self).data@), -((delta as isize) as int)),
            final(self).point.pref() == final(self).point.col().head,
    {
        self.point.move_left(&self.data, delta)
    }

    /// Moves the point `delta` units on.
    pub fn move_right(&mut self, delta: usize) -> (r: bool)
        requires
            move_x_ok(old(self).point.col().head as int, old(self).point.col().buff, old(self).point.row().head as int, old(self).point.row().buff, row_lens(old(self).data@), (delta as isize) as int),
        ensures
            r,
            final(self).data == old(self).data,
            final(self).point.col().buff == old(self).point.col().buff,
            final(self).point.row().buff == old(self).point.row().buff,
            (final(self).point.col().head as int, final(self).point.row().head as int) == spec_move_x(old(self).point.col().head as int, old(self).point.col().buff, old(self).point.row().head as int, old(self).point.row().buff, row_lens(old(self).data@), (delta as isize) as int),
            final(self).point.pref() == final(self).point.col().head,
    {
        self.point.move_right(&self.data, delta)
    }

    /// Moves the point `delta` rows down as `Point::move_down` does.
    pub fn move_down(&mut self, delta: usize) -> (r: bool)
        requires
            move_head_ok(old(self).point.row().head as int, old(self).point.row().spec_get_max(old(self).data@.len()) as int, (delta as isize) as int),
        ensures
            final(self).data == old(self).data,
            ({
                let d = (delta as isize) as int;
                let (yh, rem) = spec_move_head(old(self).point.row().head as int, old(self).point.row().spec_get_max(old(self).data@.len()) as int, d);
                &&& final(self).point.row() == Cursor { head: yh as usize, ..old(self).point.row() }
                &&& r == (rem != d)
                &&& final(self).point.pref() == old(self).point.pref()
                &&& final(self).point.col().buff == old(self).point.col().buff
                &&& if r && yh < old(self).data.len() {
                    final(self).point.col().head == if old(self).point.pref() < old(self).point.col().spec_get_max(old(self).data@[yh]@.len()) {
                        old(self).point.pref() as int
                    } else {
                        old(self).point.col().spec_get_max(old(self).data@[yh]@.len()) as int
                    }
                } else {
                    final(self).point.col().head == old(self).point.col().head
                }
            }),
    {
        self.point.move_down(&self.data, delta)
    }

    /// Moves the point `delta` rows up as `Point::move_up` does.
    pub fn move_up(&mut self, delta: usize) -> (r: bool)
        requires
            (delta as isize) != isize::MIN,
            move_head_ok(old(self).point.row().head as int, old(self).point.row().spec_get_max(old(self).data@.len()) as int, -((delta as isize) as int)),
        ensures
            final(self).data == old(self).data,
            ({
                let d = -((delta as isize) as int);
                let (yh, rem) = spec_move_head(old(self).point.row().head as int, old(self).point.row().spec_get_max(old(self).data@.len()) as int, d);
                &&& final(self).point.row() == Cursor { head: yh as usize, ..old(self).point.row() }
                &&& r == (rem != d)
                &&& final(self).point.pref() == old(self).point.pref()
                &&& final(self).point.col().buff == old(self).point.col().buff
                &&& if r && yh < old(self).data.len() {
                    final(self).point.col().head == if old(self).point.pref() < old(self).point.col().spec_get_max(old(self).data@[yh]@.len()) {
                        old(self).point.pref() as int
                    } else {
                        old(self).point.col().spec_get_max(old(self).data@[yh]@.len()) as int
                    }
                } else {
                    final(self).point.col().head == old(self).point.col().head
                }
            }),
    {
        self.point.move_up(&self.data, delta)
    }
}

/// The on-screen window onto a matrix: where it stands and one view per axis.
#[derive(Copy, Clone, Debug, Default)]
pub struct PointView {
    pos: Pos,
    x: CursorView,
    y: CursorView,
}

impl<'a> From<&'a Rect> for PointView {
    fn from(rect: &'a Rect) -> (r: Self) {
        PointView { x: CursorView::from_size(rect.w), y: CursorView::from_size(rect.h), pos: rect.pos() }
    }
}

impl<'a> FromSpecImpl<&'a Rect> for PointView {
    open spec fn obeys_from_spec() -> bool {
        true
    }

    open spec fn from_spec(rect: &'a Rect) -> Self {
        PointView::spec_from_rect(*rect)
    }
}

impl<'a> From<&'a PointView> for Rect {
    fn from(pv: &'a PointView) -> (r: Self) {
        Rect::from(pv.dim()).with_pos(pv.pos())
    }
}

impl<'a> FromSpecImpl<&'a PointView> for Rect {
    open spec fn obeys_from_spec() -> bool {
        true
    }

    open spec fn from_spec(pv: &'a PointView) -> Self {
        Rect { x: pv.at().0, y: pv.at().1, w: pv.xv().size, h: pv.yv().size }
    }
}

impl PointView {
    /// Where the window stands.
    pub closed spec fn at(self) -> Pos {
        self.pos
    }

    /// The view across.
    pub closed spec fn xv(self) -> CursorView {
        self.x
    }

    /// The view down.
    pub closed spec fn yv(self) -> CursorView {
        self.y
    }

    /// The window on `rect`, at the start of both axes.
    pub closed spec fn spec_from_rect(rect: Rect) -> PointView {
        PointView {
            x: CursorView { scroll: 0, head: 0, cursor: 0, size: rect.w },
            y: CursorView { scroll: 0, head: 0, cursor: 0, size: rect.h },
            pos: Pos(rect.x, rect.y),
        }
    }

    pub proof fn lemma_from_rect(rect: Rect)
        ensures
            Self::spec_from_rect(rect).at() == Pos(rect.x, rect.y),
            Self::spec_from_rect(rect).xv() == (CursorView { scroll: 0, head: 0, cursor: 0, size: rect.w }),
            Self::spec_from_rect(rect).yv() == (CursorView { scroll: 0, head: 0, cursor: 0, size: rect.h }),
    {
    }

    pub fn get_x_view(&self) -> (r: CursorView)
        ensures
            r == self.xv(),
    {
        self.x
    }

    pub fn get_y_view(&self) -> (r: CursorView)
        ensures
            r == self.yv(),
    {
        self.y
    }

    pub fn dim(&self) -> (r: Dim)
        ensures
            r == Dim(self.xv().size, self.yv().size),
    {
        Dim(self.x.size, self.y.size)
    }

    pub fn pos(&self) -> (r: Pos)
        ensures
            r == self.at(),
    {
        self.pos
    }

    /// The cursor's screen column.
    pub fn get_x_cursor(&self) -> (r: u16)
        requires
            self.at().0 + self.xv().cursor <= u16::MAX,
        ensures
            r == self.at().0 + self.xv().cursor,
    {
        self.pos.x() + self.x.cursor
    }

    /// The cursor's screen row.
    pub fn get_y_cursor(&self) -> (r: u16)
        requires
            self.at().1 + self.yv().cursor <= u16::MAX,
        ensures
            r == self.at().1 + self.yv().cursor,
    {
        self.pos.y() + self.y.cursor
    }

    pub fn get_width(&self) -> (r: u16)
        ensures
            r == self.xv().size,
    {
        self.x.size
    }

    pub fn get_height(&self) -> (r: u16)
        ensures
            r == self.yv().size,
    {
        self.y.size
    }

    pub fn get_x_scroll(&self) -> (r: usize)
        ensures
            r == self.xv().scroll,
    {
        self.x.scroll
    }

    pub fn get_y_scroll(&self) -> (r: usize)
        ensures
            r == self.yv().scroll,
    {
        self.y.scroll
    }

    /// Moves the window onto `rect` with the matrix's point as its heads.
    pub fn resize(&mut self, matrix: &PointMatrix<char>, rect: &Rect)
        requires
            matrix.point.row().head < matrix.data@.len() ==> matrix.data@[matrix.point.row().head as int]@.len() <= usize::MAX / 3,
        ensures
            final(self).at() == Pos(rect.x, rect.y),
            final(self).yv() == old(self).yv().spec_resize(matrix.point.row().head, rect.h),
            final(self).xv() == old(self).xv().spec_resize(matrix.spec_weighted_x() as usize, rect.w),
    {
        let rect = *rect;
        self.pos = rect.pos();
        self.y.resize(matrix.point.y.head, rect.height());
        let wx = matrix.get_weighted_x();
        self.x.resize(wx, rect.width());
    }

    /// Moves the heads to the matrix's point; returns whether either axis scrolled.
    pub fn update(&mut self, matrix: &PointMatrix<char>) -> (scrolled: bool)
        requires
            matrix.point.row().head < matrix.data@.len() ==> matrix.data@[matrix.point.row().head as int]@.len() <= usize::MAX / 3,
            old(self).yv().update_ok(matrix.point.row().head),
            old(self).xv().update_ok(matrix.spec_weighted_x() as usize),
        ensures
            final(self).at() == old(self).at(),
            final(self).yv() == old(self).yv().spec_update(matrix.point.row().head).0,
            final(self).xv() == old(self).xv().spec_update(matrix.spec_weighted_x() as usize).0,
            scrolled == (old(self).yv().spec_update(matrix.point.row().head).1 || old(self).xv().spec_update(matrix.spec_weighted_x() as usize).1),
    {
        let y = self.y.update(matrix.point.y.head);
        let wx = matrix.get_weighted_x();
        let x = self.x.update(wx);
        x || y
    }
}

} // verus!
