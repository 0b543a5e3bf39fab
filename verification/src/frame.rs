//! Frames around the text of a view: margins, an optional border with a
//! banner and a footer in it.
use vstd::prelude::*;
use crate::rect::{Rect, shift_fits};
use crate::signed::{signed16, wrap16, in_i16};
use crate::color::Style;
use crate::constants::{X_LINE, Y_LINE, A_SQR, B_SQR, C_SQR, D_SQR};
use crate::draw::{DrawOp, Draw, column_ops, row_ops, push_column, push_row};
use crate::chars::chars_of;
use crate::layout::GetDisplayHeight;

verus! {

/// Rows or columns kept on each side.
#[derive(Copy, Debug, Clone, PartialEq, Eq, Structural)]
pub struct Margins {
    pub north: u16,
    pub south: u16,
    pub east: u16,
    pub west: u16,
}

impl Default for Margins {
    fn default() -> (r: Self)
        ensures
            r == (Margins { north: 0, south: 0, east: 0, west: 0 }),
    {
        Margins { north: 0, south: 0, east: 0, west: 0 }
    }
}

/// `rect` with its west and east edges moved out by `dx` columns and its
/// north and south edges moved out by `dy` rows, as `i16` arithmetic reads
/// them.
pub open spec fn grown(rect: Rect, dx: int, dy: int) -> Rect {
    Rect {
        x: wrap16(signed16(rect.x) - dx),
        w: wrap16(signed16(rect.w) + 2 * dx),
        y: wrap16(signed16(rect.y) - dy),
        h: wrap16(signed16(rect.h) + 2 * dy),
    }
}

/// Growing `rect` so stays within `i16`.
pub open spec fn grow_ok(rect: Rect, dx: int, dy: int) -> bool {
    &&& in_i16(dx) && in_i16(dy)
    &&& shift_fits(rect.x, rect.w, dx as i16)
    &&& in_i16(signed16(rect.w) + 2 * dx)
    &&& shift_fits(rect.y, rect.h, dy as i16)
    &&& in_i16(signed16(rect.h) + 2 * dy)
}

/// Grows `rect` by `dx` columns and `dy` rows on each side.
fn grow(rect: &Rect, dx: i16, dy: i16) -> (r: Rect)
    requires
        grow_ok(*rect, dx as int, dy as int),
    ensures
        r == grown(*rect, dx as int, dy as int),
{
    rect.shift_x(dx).shift_y(dy)
}

impl Margins {
    /// The same margin on every side.
    pub fn symmetric(m: u16) -> (r: Self)
        ensures
            r == (Margins { north: m, south: m, east: m, west: m }),
    {
        Margins { north: m, south: m, east: m, west: m }
    }

    /// What `get_from_inner` gives: `rect` with each side moved out by that
    /// side's margin.
    pub open spec fn spec_from_inner(self, rect: Rect) -> Rect {
        Rect {
            x: (rect.x - self.west) as u16,
            y: (rect.y - self.north) as u16,
            w: (rect.w + self.west + self.east) as u16,
            h: (rect.h + self.north + self.south) as u16,
        }
    }

    /// The margins fit around `rect` on the screen.
    pub open spec fn inner_ok(self, rect: Rect) -> bool {
        &&& rect.x >= self.west
        &&& rect.y >= self.north
        &&& rect.w + self.west + self.east <= u16::MAX
        &&& rect.h + self.north + self.south <= u16::MAX
    }

    /// What `get_from_outer` gives: `rect` with each side moved in by that
    /// side's margin.
    pub open spec fn spec_from_outer(self, rect: Rect) -> Rect {
        Rect {
            x: (rect.x + self.west) as u16,
            y: (rect.y + self.north) as u16,
            w: (rect.w - self.west - self.east) as u16,
            h: (rect.h - self.north - self.south) as u16,
        }
    }

    /// The margins fit inside `rect`.
    pub open spec fn outer_ok(self, rect: Rect) -> bool {
        &&& rect.x + self.west <= u16::MAX
        &&& rect.y + self.north <= u16::MAX
        &&& self.west + self.east <= rect.w
        &&& self.north + self.south <= rect.h
    }

    /// The rectangle around `rect` that the margins take.
    pub fn get_from_inner(&self, rect: &Rect) -> (r: Rect)
        requires
            self.inner_ok(*rect),
        ensures
            r == self.spec_from_inner(*rect),
    {
        Rect {
            x: rect.x - self.west,
            y: rect.y - self.north,
            w: rect.w + self.west + self.east,
            h: rect.h + self.north + self.south,
        }
    }

    /// The rectangle inside `rect` that the margins leave.
    pub fn get_from_outer(&self, rect: &Rect) -> (r: Rect)
        requires
            self.outer_ok(*rect),
        ensures
            r == self.spec_from_outer(*rect),
    {
        Rect {
            x: rect.x + self.west,
            y: rect.y + self.north,
            w: rect.w - self.west - self.east,
            h: rect.h - self.north - self.south,
        }
    }
}

impl Margins {
    /// What `get_rect(screen)` gives: the screen cropped on the north, south,
    /// east and west in turn.
    pub open spec fn spec_get_rect(self, screen: crate::screen::Rect) -> crate::screen::Rect {
        screen.spec_crop_north(self.north).spec_crop_south(self.south).spec_crop_east(self.east).spec_crop_west(self.west)
    }

    /// The crops' arithmetic stays within `u16`.
    pub open spec fn get_rect_ok(self, screen: crate::screen::Rect) -> bool {
        &&& screen.crop_north_ok(self.north)
        &&& screen.spec_crop_north(self.north).spec_crop_south(self.south).spec_crop_east(self.east).crop_west_ok(self.west)
    }

    /// The part of `screen` inside the margins, each crop taken only where it
    /// leaves more rows or columns than it takes.
    pub fn get_rect(&self, screen: &crate::screen::Rect) -> (r: crate::screen::Rect)
        requires
            self.get_rect_ok(*screen),
        ensures
            r == self.spec_get_rect(*screen),
    {
        screen.crop_north(self.north).crop_south(self.south).crop_east(self.east).crop_west(self.west)
    }
}

/// Shrinking a rectangle by the margins gives back the rectangle that they
/// were grown around.
pub proof fn lemma_margins_outer_undoes_inner(m: Margins, rect: Rect)
    requires
        m.inner_ok(rect),
    ensures
        m.outer_ok(m.spec_from_inner(rect)),
        m.spec_from_outer(m.spec_from_inner(rect)) == rect,
{
}

/// Growing a rectangle by the margins gives back the rectangle that they
/// were taken from.
pub proof fn lemma_margins_inner_undoes_outer(m: Margins, rect: Rect)
    requires
        m.outer_ok(rect),
    ensures
        m.inner_ok(m.spec_from_outer(rect)),
        m.spec_from_inner(m.spec_from_outer(rect)) == rect,
{
}

/// How a border is drawn: its style, its lines, corners (`a` north-west, `b`
/// north-east, `c` south-west, `d` south-east) and the brackets around the
/// banner and footer.
#[derive(Copy, Debug, Clone, PartialEq, Eq, Structural)]
pub struct BorderStyle {
    pub style: Style,
    pub x: char,
    pub y: char,
    pub a: char,
    pub b: char,
    pub c: char,
    pub d: char,
    pub open: char,
    pub close: char,
}

impl Default for BorderStyle {
    fn default() -> (r: Self)
        ensures
            r == (BorderStyle {
                style: Style { underline: false, bold: false, fg: None, bg: None },
                x: X_LINE,
                y: Y_LINE,
                a: A_SQR,
                b: B_SQR,
                c: C_SQR,
                d: D_SQR,
                open: ' ',
                close: ' ',
            }),
    {
        BorderStyle {
            style: Style::default(),
            x: X_LINE,
            y: Y_LINE,
            a: A_SQR,
            b: B_SQR,
            c: C_SQR,
            d: D_SQR,
            open: ' ',
            close: ' ',
        }
    }
}

impl BorderStyle {
    /// The rectangle around `rect` that a one-cell border takes.
    pub fn get_from_inner(&self, rect: &Rect) -> (r: Rect)
        requires
            grow_ok(*rect, 1, 1),
        ensures
            r == grown(*rect, 1, 1),
    {
        grow(rect, 1, 1)
    }

    /// The rectangle inside `rect` that a one-cell border leaves.
    pub fn get_from_outer(&self, rect: &Rect) -> (r: Rect)
        requires
            grow_ok(*rect, -1, -1),
        ensures
            r == grown(*rect, -1, -1),
    {
        grow(rect, -1, -1)
    }
}

/// How a frame is laid out and drawn: its margins, its border if it has
/// one, and the styles of the margin, the banner and the footer.
#[derive(Copy, Clone, Debug, PartialEq, Eq, Structural)]
pub struct FrameParams {
    pub text_margin: Margins,
    pub screen_margin: Margins,
    pub border: Option<BorderStyle>,
    pub margin: Style,
    pub banner: Style,
    pub footer: Style,
}

impl Default for FrameParams {
    fn default() -> (r: Self)
        ensures
            r == FrameParams::spec_init(),
    {
        FrameParams {
            text_margin: Margins::default(),
            screen_margin: Margins::default(),
            border: None,
            margin: Style::default(),
            banner: Style::default(),
            footer: Style::default(),
        }
    }
}

/// A frame laid out on the screen: the rectangle of its border, the one
/// inside the border, and the one of its text inside the margins.
#[derive(Copy, Clone, Debug, PartialEq, Eq, Structural)]
pub struct Frame {
    pub style: FrameParams,
    pub screen: Rect,
    pub border_rect: Rect,
    pub outer_rect: Rect,
    pub inner_rect: Rect,
}

impl FrameParams {
    /// No margins, no border, default styles.
    pub open spec fn spec_init() -> FrameParams {
        let m = Margins { north: 0, south: 0, east: 0, west: 0 };
        let st = Style { underline: false, bold: false, fg: None, bg: None };
        FrameParams { text_margin: m, screen_margin: m, border: None, margin: st, banner: st, footer: st }
    }

    pub fn init() -> (r: Self)
        ensures
            r == Self::spec_init(),
    {
        Self::default()
    }

    pub fn screen_margin(self, screen_margin: Margins) -> (r: Self)
        ensures
            r == (FrameParams { screen_margin, ..self }),
    {
        let mut p = self;
        p.screen_margin = screen_margin;
        p
    }

    pub fn text_margin(self, text_margin: Margins) -> (r: Self)
        ensures
            r == (FrameParams { text_margin, ..self }),
    {
        let mut p = self;
        p.text_margin = text_margin;
        p
    }

    pub fn banner_style(self, style: Style) -> (r: Self)
        ensures
            r == (FrameParams { banner: style, ..self }),
    {
        let mut p = self;
        p.banner = style;
        p
    }

    pub fn footer_style(self, style: Style) -> (r: Self)
        ensures
            r == (FrameParams { footer: style, ..self }),
    {
        let mut p = self;
        p.footer = style;
        p
    }

    pub fn margin_style(self, style: Style) -> (r: Self)
        ensures
            r == (FrameParams { margin: style, ..self }),
    {
        let mut p = self;
        p.margin = style;
        p
    }

    pub fn border_style(self, style: Option<BorderStyle>) -> (r: Self)
        ensures
            r == (FrameParams { border: style, ..self }),
    {
        let mut p = self;
        p.border = style;
        p
    }

    /// The frame whose text fills `rect`: the text margin around it, and the
    /// border, if any, one cell further out.
    pub open spec fn spec_from_inner(self, rect: Rect) -> Frame {
        let outer = self.text_margin.spec_from_inner(rect);
        let border = if self.border is None { outer } else { grown(outer, 1, 1) };
        Frame { style: self, screen: rect, border_rect: border, outer_rect: outer, inner_rect: rect }
    }

    /// The arithmetic of `build_from_inner` stays within `i16`.
    pub open spec fn from_inner_ok(self, rect: Rect) -> bool {
        let outer = self.text_margin.spec_from_inner(rect);
        &&& self.text_margin.inner_ok(rect)
        &&& (self.border is Some ==> grow_ok(outer, 1, 1))
    }

    /// The frame on the screen `rect`: the screen margin inside it, the
    /// border, if any, one cell further in, and the text margin inside that.
    pub open spec fn spec_from_outer(self, rect: Rect) -> Frame {
        let border = self.screen_margin.spec_from_outer(rect);
        let outer = if self.border is None { border } else { grown(border, -1, -1) };
        let inner = self.text_margin.spec_from_outer(outer);
        Frame { style: self, screen: rect, border_rect: border, outer_rect: outer, inner_rect: inner }
    }

    /// The arithmetic of `build_from_outer` stays within `i16`.
    pub open spec fn from_outer_ok(self, rect: Rect) -> bool {
        let border = self.screen_margin.spec_from_outer(rect);
        let outer = if self.border is None { border } else { grown(border, -1, -1) };
        &&& self.screen_margin.outer_ok(rect)
        &&& (self.border is Some ==> grow_ok(border, -1, -1))
        &&& self.text_margin.outer_ok(outer)
    }

    /// The frame whose text fills `rect`.
    pub fn build_from_inner(&self, rect: &Rect) -> (r: Frame)
        requires
            self.from_inner_ok(*rect),
        ensures
            r == self.spec_from_inner(*rect),
    {
        let inner_rect = *rect;
        let outer_rect = self.text_margin.get_from_inner(&inner_rect);
        let border_rect = if self.border.is_none() { outer_rect } else { grow(&outer_rect, 1, 1) };
        Frame { style: *self, screen: *rect, border_rect, outer_rect, inner_rect }
    }

    /// The frame on the screen `rect`.
    pub fn build_from_outer(&self, rect: &Rect) -> (r: Frame)
        requires
            self.from_outer_ok(*rect),
        ensures
            r == self.spec_from_outer(*rect),
    {
        let border_rect = self.screen_margin.get_from_outer(rect);
        let outer_rect = if self.border.is_none() { border_rect } else { grow(&border_rect, -1, -1) };
        let inner_rect = self.text_margin.get_from_outer(&outer_rect);
        Frame { style: *self, screen: *rect, border_rect, outer_rect, inner_rect }
    }
}

/// A frame laid out on a screen has the same margin and border around its
/// text as a frame built around that text.
pub proof fn lemma_frame_inner_of_outer(p: FrameParams, rect: Rect)
    requires
        p.from_outer_ok(rect),
    ensures
        p.spec_from_inner(p.spec_from_outer(rect).inner_rect).outer_rect == p.spec_from_outer(rect).outer_rect,
        p.spec_from_inner(p.spec_from_outer(rect).inner_rect).border_rect == p.spec_from_outer(rect).border_rect,
{
    let f = p.spec_from_outer(rect);
    lemma_margins_inner_undoes_outer(p.text_margin, f.outer_rect);
    if p.border is Some {
        let b = f.border_rect;
        let o = grown(b, -1, -1);
        assert(signed16(o.x) == signed16(b.x) + 1);
        assert(signed16(o.w) == signed16(b.w) - 2);
        assert(signed16(o.y) == signed16(b.y) + 1);
        assert(signed16(o.h) == signed16(b.h) - 2);
        assert(grown(o, 1, 1) == b);
    }
}

/// The commands that print `ch` at rows `y1` and `y2` of each column of
/// `from..to`.
pub open spec fn edge_rows_ops(y1: u16, y2: u16, from: int, to: int, ch: char) -> Seq<DrawOp>
    decreases to - from,
{
    if to <= from {
        seq![]
    } else {
        edge_rows_ops(y1, y2, from, to - 1, ch) + seq![
            DrawOp::MoveTo((to - 1) as u16, y1),
            DrawOp::Print(ch),
            DrawOp::MoveTo((to - 1) as u16, y2),
            DrawOp::Print(ch),
        ]
    }
}

/// The commands that print `ch` at columns `x1` and `x2` of each row of
/// `from..to`.
pub open spec fn edge_cols_ops(x1: u16, x2: u16, from: int, to: int, ch: char) -> Seq<DrawOp>
    decreases to - from,
{
    if to <= from {
        seq![]
    } else {
        edge_cols_ops(x1, x2, from, to - 1, ch) + seq![
            DrawOp::MoveTo(x1, (to - 1) as u16),
            DrawOp::Print(ch),
            DrawOp::MoveTo(x2, (to - 1) as u16),
            DrawOp::Print(ch),
        ]
    }
}

/// For each column of `from..to`, the commands that blank the rows
/// `a1..b1` and then the rows `a2..b2`.
pub open spec fn margin_cols_ops(from: int, to: int, a1: int, b1: int, a2: int, b2: int) -> Seq<DrawOp>
    decreases to - from,
{
    if to <= from {
        seq![]
    } else {
        margin_cols_ops(from, to - 1, a1, b1, a2, b2) + column_ops((to - 1) as u16, a1, b1, ' ')
            + column_ops((to - 1) as u16, a2, b2, ' ')
    }
}

/// For each row of `from..to`, the commands that blank the columns
/// `a1..b1` and then the columns `a2..b2`.
pub open spec fn margin_rows_ops(from: int, to: int, a1: int, b1: int, a2: int, b2: int) -> Seq<DrawOp>
    decreases to - from,
{
    if to <= from {
        seq![]
    } else {
        margin_rows_ops(from, to - 1, a1, b1, a2, b2) + row_ops((to - 1) as u16, a1, b1, ' ')
            + row_ops((to - 1) as u16, a2, b2, ' ')
    }
}

fn push_edge_rows(out: &mut Vec<DrawOp>, y1: u16, y2: u16, from: u16, to: u16, ch: char)
    ensures
        final(out)@ == old(out)@ + edge_rows_ops(y1, y2, from as int, to as int, ch),
{
    let ghost start = out@;
    let mut x = from;
    while x < to
        invariant
            x >= from,
            to <= from ==> out@ == start,
            to > from ==> x <= to && out@ == start + edge_rows_ops(y1, y2, from as int, x as int, ch),
        decreases to - x,
    {
        out.push(DrawOp::MoveTo(x, y1));
        out.push(DrawOp::Print(ch));
        out.push(DrawOp::MoveTo(x, y2));
        out.push(DrawOp::Print(ch));
        x = x + 1;
        proof {
            assert(out@ =~= start + edge_rows_ops(y1, y2, from as int, x as int, ch));
        }
    }
    proof {
        assert(out@ =~= start + edge_rows_ops(y1, y2, from as int, to as int, ch));
    }
}

fn push_edge_cols(out: &mut Vec<DrawOp>, x1: u16, x2: u16, from: u16, to: u16, ch: char)
    ensures
        final(out)@ == old(out)@ + edge_cols_ops(x1, x2, from as int, to as int, ch),
{
    let ghost start = out@;
    let mut y = from;
    while y < to
        invariant
            y >= from,
            to <= from ==> out@ == start,
            to > from ==> y <= to && out@ == start + edge_cols_ops(x1, x2, from as int, y as int, ch),
        decreases to - y,
    {
        out.push(DrawOp::MoveTo(x1, y));
        out.push(DrawOp::Print(ch));
        out.push(DrawOp::MoveTo(x2, y));
        out.push(DrawOp::Print(ch));
        y = y + 1;
        proof {
            assert(out@ =~= start + edge_cols_ops(x1, x2, from as int, y as int, ch));
        }
    }
    proof {
        assert(out@ =~= start + edge_cols_ops(x1, x2, from as int, to as int, ch));
    }
}

fn push_margin_cols(out: &mut Vec<DrawOp>, from: u16, to: u16, a1: u16, b1: u16, a2: u16, b2: u16)
    ensures
        final(out)@ == old(out)@ + margin_cols_ops(from as int, to as int, a1 as int, b1 as int, a2 as int, b2 as int),
{
    let ghost start = out@;
    let mut x = from;
    while x < to
        invariant
            x >= from,
            to <= from ==> out@ == start,
            to > from ==> x <= to && out@ == start + margin_cols_ops(from as int, x as int, a1 as int, b1 as int, a2 as int, b2 as int),
        decreases to - x,
    {
        push_column(out, x, a1, b1, ' ');
        push_column(out, x, a2, b2, ' ');
        x = x + 1;
        proof {
            assert(out@ =~= start + margin_cols_ops(from as int, x as int, a1 as int, b1 as int, a2 as int, b2 as int));
        }
    }
    proof {
        assert(out@ =~= start + margin_cols_ops(from as int, to as int, a1 as int, b1 as int, a2 as int, b2 as int));
    }
}

fn push_margin_rows(out: &mut Vec<DrawOp>, from: u16, to: u16, a1: u16, b1: u16, a2: u16, b2: u16)
    ensures
        final(out)@ == old(out)@ + margin_rows_ops(from as int, to as int, a1 as int, b1 as int, a2 as int, b2 as int),
{
    let ghost start = out@;
    let mut y = from;
    while y < to
        invariant
            y >= from,
            to <= from ==> out@ == start,
            to > from ==> y <= to && out@ == start + margin_rows_ops(from as int, y as int, a1 as int, b1 as int, a2 as int, b2 as int),
        decreases to - y,
    {
        push_row(out, y, a1, b1, ' ');
        push_row(out, y, a2, b2, ' ');
        y = y + 1;
        proof {
            assert(out@ =~= start + margin_rows_ops(from as int, y as int, a1 as int, b1 as int, a2 as int, b2 as int));
        }
    }
    proof {
        assert(out@ =~= start + margin_rows_ops(from as int, to as int, a1 as int, b1 as int, a2 as int, b2 as int));
    }
}

/// The command that prints `c`.
pub open spec fn print_op(c: char) -> DrawOp {
    DrawOp::Print(c)
}

/// The commands that print each character of `s` in turn.
pub open spec fn prints(s: Seq<char>) -> Seq<DrawOp> {
    Seq::new(s.len(), |j: int| print_op(s[j]))
}



/// The commands that print the last `k` characters of `text` from the last
/// one back, each two columns west of where the one before was printed.
pub open spec fn backwards_ops(text: Seq<char>, k: nat) -> Seq<DrawOp>
    decreases k,
{
    if k == 0 {
        seq![]
    } else {
        backwards_ops(text, (k - 1) as nat) + seq![DrawOp::MoveLeft(2), print_op(text[text.len() - k])]
    }
}

/// The commands that print `ch` `n` times going west.
pub open spec fn leftwards_ops(n: nat, ch: char) -> Seq<DrawOp>
    decreases n,
{
    if n == 0 {
        seq![]
    } else {
        leftwards_ops((n - 1) as nat, ch) + seq![DrawOp::MoveLeft(2), print_op(ch)]
    }
}

/// `n` times the command `op`.
pub open spec fn repeat_op(n: nat, op: DrawOp) -> Seq<DrawOp> {
    Seq::new(n, |j: int| op)
}

/// `r` with one column taken off each side, as `shift_x(-1)` does.
pub open spec fn narrowed(r: Rect) -> Rect {
    Rect { x: wrap16(signed16(r.x) + 1), w: wrap16(signed16(r.w) - 2), ..r }
}

/// `r` with one row taken off each side, as `shift_y(-1)` does.
pub open spec fn shortened(r: Rect) -> Rect {
    Rect { y: wrap16(signed16(r.y) + 1), h: wrap16(signed16(r.h) - 2), ..r }
}

impl Frame {
    /// The commands that draw the border `b` around `border_rect`: the
    /// corners, then the north and south edges, then the west and east ones.
    pub open spec fn border_ops(self, b: BorderStyle) -> Seq<DrawOp> {
        let br = self.border_rect;
        let ax = br.x;
        let ay = br.y;
        let bx = crate::rect::sat_dec(br.x + br.w);
        let cy = crate::rect::sat_dec(br.y + br.h);
        let n = narrowed(br);
        let s = shortened(br);
        seq![
            DrawOp::Reset,
            DrawOp::SetStyle(b.style),
            DrawOp::MoveTo(ax, ay),
            DrawOp::Print(b.a),
            DrawOp::MoveTo(bx, ay),
            DrawOp::Print(b.b),
            DrawOp::MoveTo(ax, cy),
            DrawOp::Print(b.c),
            DrawOp::MoveTo(bx, cy),
            DrawOp::Print(b.d),
        ] + edge_rows_ops(ay, cy, n.x as int, n.x + n.w, b.x) + edge_cols_ops(ax, bx, s.y as int, s.y + s.h, b.y)
    }

    /// The commands that blank the margin between the outer and the inner
    /// rectangle, in the margin's style.
    pub open spec fn margin_ops(self) -> Seq<DrawOp> {
        let o = self.outer_rect;
        let i = self.inner_rect;
        seq![DrawOp::Reset, DrawOp::SetStyle(self.style.margin)]
            + margin_cols_ops(o.x as int, o.x + o.w, o.y as int, i.y as int, i.y + i.h, o.y + o.h)
            + margin_rows_ops(i.y as int, i.y + i.h, o.x as int, i.x as int, i.x + i.w, o.x + o.w)
            + seq![DrawOp::Reset]
    }

    /// The frame's rectangles lie on the screen, as drawing them needs.
    pub open spec fn frame_ok(self) -> bool {
        let br = self.border_rect;
        let o = self.outer_rect;
        let i = self.inner_rect;
        &&& o.x + o.w <= u16::MAX && o.y + o.h <= u16::MAX
        &&& i.x + i.w <= u16::MAX && i.y + i.h <= u16::MAX
        &&& (self.style.border is Some ==> {
            &&& br.x + br.w <= u16::MAX && br.y + br.h <= u16::MAX
            &&& shift_fits(br.x, br.w, -1i16) && in_i16(signed16(br.w) - 2)
            &&& shift_fits(br.y, br.h, -1i16) && in_i16(signed16(br.h) - 2)
            &&& narrowed(br).x + narrowed(br).w <= u16::MAX
            &&& shortened(br).y + shortened(br).h <= u16::MAX
        })
    }
}

impl GetDisplayHeight for Frame {
    /// The rows the frame takes: its border rectangle and the screen margins
    /// above and below it, at most `u16::MAX`.
    open spec fn spec_display_height(&self) -> u16 {
        let m = self.style.screen_margin;
        self.border_rect.h.saturating_add(m.north).saturating_add(m.south)
    }

    fn get_display_height(&self) -> (r: u16) {
        let m = self.style.screen_margin;
        self.border_rect.h.saturating_add(m.north).saturating_add(m.south)
    }
}

impl Draw for Frame {
    open spec fn spec_draw(&self) -> Seq<DrawOp> {
        match self.style.border {
            Some(b) => self.border_ops(b) + self.margin_ops(),
            None => self.margin_ops(),
        }
    }

    open spec fn draw_ok(&self) -> bool {
        self.frame_ok()
    }

    /// Draws the border, if any, and blanks the margin.
    fn draw(&self) -> (r: Vec<DrawOp>) {
        let mut out: Vec<DrawOp> = Vec::new();
        match self.style.border {
            Some(border) => {
                let br = self.border_rect;
                let a = br.a();
                let b = br.b();
                let c = br.c();
                let d = br.d();
                out.push(DrawOp::Reset);
                out.push(DrawOp::SetStyle(border.style));
                out.push(DrawOp::MoveTo(a.0, a.1));
                out.push(DrawOp::Print(border.a));
                out.push(DrawOp::MoveTo(b.0, b.1));
                out.push(DrawOp::Print(border.b));
                out.push(DrawOp::MoveTo(c.0, c.1));
                out.push(DrawOp::Print(border.c));
                out.push(DrawOp::MoveTo(d.0, d.1));
                out.push(DrawOp::Print(border.d));
                let n = br.shift_x(-1);
                let xr = n.x_range();
                push_edge_rows(&mut out, a.1, c.1, xr.start, xr.end, border.x);
                let s = br.shift_y(-1);
                let yr = s.y_range();
                push_edge_cols(&mut out, a.0, b.0, yr.start, yr.end, border.y);
                proof {
                    assert(out@ =~= self.border_ops(border));
                }
            },
            None => {},
        }
        let ghost before = out@;
        let o = self.outer_rect;
        let i = self.inner_rect;
        out.push(DrawOp::Reset);
        out.push(DrawOp::SetStyle(self.style.margin));
        let oxr = o.x_range();
        push_margin_cols(&mut out, oxr.start, oxr.end, o.y(), i.y(), i.y_end(), o.y_end());
        let iyr = i.y_range();
        push_margin_rows(&mut out, iyr.start, iyr.end, o.x(), i.x(), i.x_end(), o.x_end());
        out.push(DrawOp::Reset);
        proof {
            assert(out@ =~= before + self.margin_ops());
        }
        out
    }
}

impl Frame {
    /// The number of characters of text that the banner or footer shows:
    /// as many as the text has, up to the inner width less four, that width
    /// read as `i16` arithmetic reads it.
    pub open spec fn label_len(self, text: Seq<char>) -> int {
        let room = wrap16(signed16(self.inner_rect.w) - 4) as int;
        if text.len() < room { text.len() as int } else { room }
    }

    /// The commands that draw the banner: the open bracket, a blank, the
    /// text in the banner's style, a blank, the close bracket, and the border
    /// line on to the east edge of the text.
    pub open spec fn banner_ops(self, text: Seq<char>) -> Seq<DrawOp> {
        match self.style.border {
            None => seq![],
            Some(b) => {
                let i = self.inner_rect;
                let k = self.label_len(text);
                let x = i.x + 2 + k + 2;
                seq![
                    DrawOp::MoveTo(i.x, self.border_rect.y),
                    DrawOp::SetStyle(b.style),
                    DrawOp::Print(b.open),
                    DrawOp::Print(' '),
                    DrawOp::SetStyle(self.style.banner),
                ] + prints(text.take(k)) + seq![
                    DrawOp::SetStyle(b.style),
                    DrawOp::Print(' '),
                    DrawOp::Print(b.close),
                ] + repeat_op(if x < i.x + i.w { (i.x + i.w - x) as nat } else { 0 }, DrawOp::Print(b.x))
                    + seq![DrawOp::Reset]
            },
        }
    }

    /// The banner's columns lie on the screen.
    pub open spec fn banner_ok(self, text: Seq<char>) -> bool {
        let i = self.inner_rect;
        &&& i.x + i.w <= u16::MAX
        &&& i.x + 2 + self.label_len(text) + 2 <= u16::MAX
        &&& in_i16(signed16(i.w) - 4)
        &&& shift_fits(i.x, i.w, -2i16)
    }

    /// Draws the banner `text` on the north edge of the border, if any.
    pub fn draw_banner(&self, text: &str) -> (r: Vec<DrawOp>)
        requires
            self.style.border is Some ==> self.banner_ok(text@),
        ensures
            r@ == self.banner_ops(text@),
    {
        let mut out: Vec<DrawOp> = Vec::new();
        match self.style.border {
            None => {},
            Some(border) => {
                let i = self.inner_rect;
                let mut x = i.x();
                let y = self.border_rect.y();
                out.push(DrawOp::MoveTo(x, y));
                out.push(DrawOp::SetStyle(border.style));
                out.push(DrawOp::Print(border.open));
                out.push(DrawOp::Print(' '));
                out.push(DrawOp::SetStyle(self.style.banner));
                x = x + 2;
                let room = i.shift_x(-2).width() as usize;
                let cs = chars_of(text);
                let k = if cs.len() < room { cs.len() } else { room };
                let ghost head = out@;
                let mut j: usize = 0;
                proof {
                    assert(head + prints(text@.take(0)) =~= head);
                }
                while j < k
                    invariant
                        0 <= j <= k <= cs.len(),
                        k == self.label_len(text@),
                        cs@ == text@,
                        x == i.x + 2 + j,
                        i == self.inner_rect,
                        self.banner_ok(text@),
                        out@ == head + prints(text@.take(j as int)),
                    decreases k - j,
                {
                    out.push(DrawOp::Print(cs[j]));
                    x = x + 1;
                    j = j + 1;
                    proof {
                        let a = prints(text@.take(j as int));
                        let b = prints(text@.take(j - 1)) + seq![print_op(cs@[j - 1])];
                        assert(a.len() == b.len());
                        assert forall|q: int| 0 <= q < a.len() implies a[q] == b[q] by {
                            if q < j - 1 {
                                assert(text@.take(j as int)[q] == text@.take(j - 1)[q]);
                            }
                        }
                        assert(a =~= b);
                        assert(out@ =~= head + prints(text@.take(j as int)));
                    }
                }
                out.push(DrawOp::SetStyle(border.style));
                out.push(DrawOp::Print(' '));
                out.push(DrawOp::Print(border.close));
                x = x + 2;
                let ghost mid = out@;
                let end = i.x_end();
                let mut z = x;
                while z < end
                    invariant
                        x <= z || end <= x,
                        z >= x,
                        end <= x ==> out@ == mid,
                        end > x ==> z <= end && out@ == mid + repeat_op((z - x) as nat, DrawOp::Print(border.x)),
                    decreases end - z,
                {
                    out.push(DrawOp::Print(border.x));
                    z = z + 1;
                    proof {
                        assert(out@ =~= mid + repeat_op((z - x) as nat, DrawOp::Print(border.x)));
                    }
                }
                out.push(DrawOp::Reset);
                proof {
                    let fill = repeat_op(if x < end { (end - x) as nat } else { 0 }, DrawOp::Print(border.x));
                    if end <= x {
                        assert(fill =~= Seq::<DrawOp>::empty());
                    }
                    assert(out@ =~= mid + fill + seq![DrawOp::Reset]);
                    assert(out@ =~= self.banner_ops(text@));
                }
            },
        }
        out
    }

    /// The commands that draw the footer, from the south-east corner
    /// westwards: the close bracket, a blank, the text's last characters
    /// from the last one back, a blank, the open bracket, and the border line
    /// on to the west edge of the text.
    pub open spec fn footer_ops(self, text: Seq<char>) -> Seq<DrawOp> {
        match self.style.border {
            None => seq![],
            Some(b) => {
                let i = self.inner_rect;
                let k = self.label_len(text);
                let x0 = crate::rect::sat_dec(i.x + i.w);
                let y = crate::rect::sat_dec(self.border_rect.y + self.border_rect.h);
                let x = x0 - 2 - k - 2;
                seq![
                    DrawOp::MoveTo(x0, y),
                    DrawOp::SetStyle(b.style),
                    DrawOp::Print(b.close),
                    DrawOp::MoveLeft(2),
                    DrawOp::Print(' '),
                    DrawOp::SetStyle(self.style.footer),
                ] + backwards_ops(text, k as nat) + seq![
                    DrawOp::MoveLeft(2),
                    DrawOp::Print(' '),
                    DrawOp::SetStyle(b.style),
                    DrawOp::MoveLeft(2),
                    DrawOp::Print(b.open),
                ] + leftwards_ops(if i.x < x { (x - i.x) as nat } else { 0 }, b.x)
                    + seq![DrawOp::Reset]
            },
        }
    }

    /// The footer's columns lie on the screen, with room for its text.
    pub open spec fn footer_ok(self, text: Seq<char>) -> bool {
        let i = self.inner_rect;
        &&& i.x + i.w <= u16::MAX
        &&& self.border_rect.y + self.border_rect.h <= u16::MAX
        &&& crate::rect::sat_dec(i.x + i.w) >= 2 + self.label_len(text) + 2
        &&& in_i16(signed16(i.w) - 4)
        &&& shift_fits(i.x, i.w, -2i16)
    }
}

/// `x` read as an `i16`, widened.
fn signed_of(x: u16) -> (r: i32)
    ensures
        r == signed16(x),
{
    if x < 0x8000 { x as i32 } else { x as i32 - 0x10000 }
}

impl Frame {
    /// The columns of the label of `text` on the border, where the inner
    /// width read as `i16` arithmetic reads it leaves room for any.
    fn label_room(&self, text: &str) -> (r: Option<usize>)
        ensures
            r matches Some(k) ==> in_i16(signed16(self.inner_rect.w) - 4) && k == self.label_len(text@),
            r is None ==> !in_i16(signed16(self.inner_rect.w) - 4),
    {
        let sw = signed_of(self.inner_rect.w) - 4;
        if sw < -0x8000 {
            None
        } else {
            let room: usize = if sw < 0 { (sw + 0x10000) as usize } else { sw as usize };
            let n = text.unicode_len();
            proof {
                assert(room == wrap16(signed16(self.inner_rect.w) - 4));
            }
            Some(if n < room { n } else { room })
        }
    }

    /// Whether the banner of `text` lies on the screen.
    pub fn banner_fits(&self, text: &str) -> (r: bool)
        ensures
            r == self.banner_ok(text@),
    {
        let i = self.inner_rect;
        let x = i.x as u32;
        let w = i.w as u32;
        let sx = signed_of(i.x);
        let sw = signed_of(i.w);
        match self.label_room(text) {
            None => false,
            Some(k) => {
                x + w <= 0xffff && (k as u64) + (x as u64) + 4 <= 0xffff
                    && sx + 2 <= 0x7fff && sw - 2 >= -0x8000
            },
        }
    }

    /// Whether the footer of `text` lies on the screen with room for its text.
    pub fn footer_fits(&self, text: &str) -> (r: bool)
        ensures
            r == self.footer_ok(text@),
    {
        let i = self.inner_rect;
        let b = self.border_rect;
        let x = i.x as u32;
        let w = i.w as u32;
        let sx = signed_of(i.x);
        let sw = signed_of(i.w);
        if x + w > 0xffff || (b.y as u32) + (b.h as u32) > 0xffff {
            return false;
        }
        let end: u32 = if x + w > 0 { x + w - 1 } else { 0 };
        match self.label_room(text) {
            None => false,
            Some(k) => (end as u64) >= (k as u64) + 4 && sx + 2 <= 0x7fff && sw - 2 >= -0x8000,
        }
    }
}

impl Frame {
    /// Draws the footer `text` on the south edge of the border, if any,
    /// from its east end westwards.
    pub fn draw_footer(&self, text: &str) -> (r: Vec<DrawOp>)
        requires
            self.style.border is Some ==> self.footer_ok(text@),
        ensures
            r@ == self.footer_ops(text@),
    {
        let mut out: Vec<DrawOp> = Vec::new();
        match self.style.border {
            None => {},
            Some(border) => {
                let i = self.inner_rect;
                let mut x = i.x_end().saturating_sub(1);
                let y = self.border_rect.y_end().saturating_sub(1);
                out.push(DrawOp::MoveTo(x, y));
                out.push(DrawOp::SetStyle(border.style));
                out.push(DrawOp::Print(border.close));
                out.push(DrawOp::MoveLeft(2));
                out.push(DrawOp::Print(' '));
                out.push(DrawOp::SetStyle(self.style.footer));
                x = x - 2;
                let room = i.shift_x(-2).width() as usize;
                let cs = chars_of(text);
                let k = if cs.len() < room { cs.len() } else { room };
                let ghost head = out@;
                let ghost x0 = crate::rect::sat_dec(i.x + i.w);
                let mut j: usize = 0;
                proof {
                    assert(head + backwards_ops(text@, 0) =~= head);
                }
                while j < k
                    invariant
                        0 <= j <= k <= cs.len(),
                        k == self.label_len(text@),
                        cs@ == text@,
                        i == self.inner_rect,
                        x0 == crate::rect::sat_dec(i.x + i.w),
                        x0 >= 2 + k + 2,
                        x == x0 - 2 - j,
                        out@ == head + backwards_ops(text@, j as nat),
                    decreases k - j,
                {
                    out.push(DrawOp::MoveLeft(2));
                    out.push(DrawOp::Print(cs[cs.len() - 1 - j]));
                    x = x - 1;
                    j = j + 1;
                    proof {
                        assert(out@ =~= head + backwards_ops(text@, j as nat));
                    }
                }
                out.push(DrawOp::MoveLeft(2));
                out.push(DrawOp::Print(' '));
                out.push(DrawOp::SetStyle(border.style));
                out.push(DrawOp::MoveLeft(2));
                out.push(DrawOp::Print(border.open));
                x = x - 2;
                let ghost mid = out@;
                let start = i.x();
                let mut z = start;
                while z < x
                    invariant
                        z >= start,
                        x <= start ==> out@ == mid,
                        x > start ==> z <= x && out@ == mid + leftwards_ops((z - start) as nat, border.x),
                    decreases x - z,
                {
                    out.push(DrawOp::MoveLeft(2));
                    out.push(DrawOp::Print(border.x));
                    z = z + 1;
                    proof {
                        assert(out@ =~= mid + leftwards_ops((z - start) as nat, border.x));
                    }
                }
                out.push(DrawOp::Reset);
                proof {
                    let fill = leftwards_ops(if start < x { (x - start) as nat } else { 0 }, border.x);
                    if x <= start {
                        assert(fill =~= Seq::<DrawOp>::empty());
                    }
                    assert(out@ =~= mid + fill + seq![DrawOp::Reset]);
                    assert(out@ =~= self.footer_ops(text@));
                }
            },
        }
        out
    }
}

} // verus!
