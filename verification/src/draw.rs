//! What drawing a view does to the terminal, as a list of commands that the
//! program's terminal layer carries out in order.
use vstd::prelude::*;
use crate::color::Style;

verus! {

/// One terminal command.
#[derive(Clone, Copy, Debug, PartialEq, Eq, Structural)]
pub enum DrawOp {
    /// Put the cursor at column `x`, row `y`.
    MoveTo(u16, u16),
    /// Move the cursor this many columns to the west.
    MoveLeft(u16),
    /// Print a character at the cursor and move the cursor east.
    Print(char),
    /// Draw what follows in this style.
    SetStyle(Style),
    /// Drop every style and attribute.
    Reset,
}

/// Views that can be drawn.
pub trait Draw {
    /// The commands that draw the view.
    spec fn spec_draw(&self) -> Seq<DrawOp>;

    /// Whether the view can be drawn: its rectangles lie on the screen.
    spec fn draw_ok(&self) -> bool;

    fn draw(&self) -> (r: Vec<DrawOp>)
        requires
            self.draw_ok(),
        ensures
            r@ == self.spec_draw();
}

/// The commands that print `ch` at column `x`, on each row of `from..to`.
pub open spec fn column_ops(x: u16, from: int, to: int, ch: char) -> Seq<DrawOp>
    decreases to - from,
{
    if to <= from {
        seq![]
    } else {
        column_ops(x, from, to - 1, ch) + seq![DrawOp::MoveTo(x, (to - 1) as u16), DrawOp::Print(ch)]
    }
}

/// The commands that print `ch` on row `y`, at each column of `from..to`.
pub open spec fn row_ops(y: u16, from: int, to: int, ch: char) -> Seq<DrawOp>
    decreases to - from,
{
    if to <= from {
        seq![]
    } else {
        row_ops(y, from, to - 1, ch) + seq![DrawOp::MoveTo((to - 1) as u16, y), DrawOp::Print(ch)]
    }
}

/// Appends the commands that print `ch` at column `x` on each row of `from..to`.
pub fn push_column(out: &mut Vec<DrawOp>, x: u16, from: u16, to: u16, ch: char)
    ensures
        final(out)@ == old(out)@ + column_ops(x, from as int, to as int, ch),
{
    let ghost start = out@;
    let mut y = from;
    while y < to
        invariant
            y >= from,
            to <= from ==> out@ == start,
            to > from ==> y <= to && out@ == start + column_ops(x, from as int, y as int, ch),
        decreases to - y,
    {
        out.push(DrawOp::MoveTo(x, y));
        out.push(DrawOp::Print(ch));
        y = y + 1;
        proof {
            assert(column_ops(x, from as int, y as int, ch) == column_ops(x, from as int, y - 1, ch)
                + seq![DrawOp::MoveTo(x, (y - 1) as u16), DrawOp::Print(ch)]);
            assert(out@ =~= start + column_ops(x, from as int, y as int, ch));
        }
    }
    proof {
        if to <= from {
            assert(column_ops(x, from as int, to as int, ch) =~= Seq::<DrawOp>::empty());
            assert(out@ =~= start + column_ops(x, from as int, to as int, ch));
        }
    }
}

/// Appends the commands that print `ch` on row `y` at each column of `from..to`.
pub fn push_row(out: &mut Vec<DrawOp>, y: u16, from: u16, to: u16, ch: char)
    ensures
        final(out)@ == old(out)@ + row_ops(y, from as int, to as int, ch),
{
    let ghost start = out@;
    let mut x = from;
    while x < to
        invariant
            x >= from,
            to <= from ==> out@ == start,
            to > from ==> x <= to && out@ == start + row_ops(y, from as int, x as int, ch),
        decreases to - x,
    {
        out.push(DrawOp::MoveTo(x, y));
        out.push(DrawOp::Print(ch));
        x = x + 1;
        proof {
            assert(row_ops(y, from as int, x as int, ch) == row_ops(y, from as int, x - 1, ch)
                + seq![DrawOp::MoveTo((x - 1) as u16, y), DrawOp::Print(ch)]);
            assert(out@ =~= start + row_ops(y, from as int, x as int, ch));
        }
    }
    proof {
        if to <= from {
            assert(row_ops(y, from as int, to as int, ch) =~= Seq::<DrawOp>::empty());
            assert(out@ =~= start + row_ops(y, from as int, to as int, ch));
        }
    }
}

} // verus!
