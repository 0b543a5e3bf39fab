//! Pages of styled text: how each source line is styled and wrapped.
use vstd::prelude::*;
use vstd::std_specs::convert::FromSpecImpl;
use crate::color::Style;
use crate::chars::{chars_of, lines, lines_of};
use crate::util::{get_wrapped_text, wrapped};
use crate::cursor::{
    Cursor, CursorView, PointMatrix, PointView, spec_move_head, move_head_ok, spec_move_x, move_x_ok,
    row_lens, lemma_cursor_view_update_wf, lemma_cursor_view_resize_wf,
};
use crate::rect::{Rect, Pos};
use crate::draw::{Draw, DrawOp};
use crate::layout::{BuildView, Resize};
use crate::frame::{prints, repeat_op};
use crate::util::{fill_count, lemma_fill_prefix};
use crate::width::{width_of, cell_width, lemma_width_of_take_step};

verus! {

/// How a source line is shown: its style, and whether it wraps at the width
/// of the page.
#[derive(Copy, Clone, Debug, PartialEq, Eq, Structural)]
pub struct TextParams {
    pub style: Style,
    pub wrap: bool,
}

impl Default for TextParams {
    fn default() -> (r: Self)
        ensures
            r == (TextParams { style: Style { underline: false, bold: false, fg: None, bg: None }, wrap: true }),
    {
        TextParams { style: Style::default(), wrap: true }
    }
}

impl From<&TextParams> for Style {
    fn from(t: &TextParams) -> (r: Self) {
        t.style
    }
}

impl FromSpecImpl<&TextParams> for Style {
    open spec fn obeys_from_spec() -> bool {
        true
    }

    open spec fn from_spec(t: &TextParams) -> Self {
        t.style
    }
}

/// The wrapped rows of each of the lines `ls`, in order.
pub open spec fn wrapped_lines(ls: Seq<Seq<char>>, width: nat) -> Seq<Seq<char>>
    decreases ls.len(),
{
    if ls.len() == 0 {
        seq![]
    } else {
        wrapped(ls[0], width) + wrapped_lines(ls.drop_first(), width)
    }
}

/// Wrapping each line of `ls` to `width` is defined: `width` is positive, or
/// every line is empty.
pub open spec fn wrap_ok(ls: Seq<Seq<char>>, width: nat) -> bool {
    width > 0 || forall|i: int| 0 <= i < ls.len() ==> (#[trigger] ls[i]).len() == 0
}

impl TextParams {
    /// The rows that `get_matrix` lays `s` out in: one empty row for empty
    /// text; else each line, wrapped to `width` where the style wraps.
    pub open spec fn spec_matrix(self, s: Seq<char>, width: nat) -> Seq<Seq<char>> {
        if s.len() == 0 {
            seq![seq![]]
        } else if self.wrap {
            wrapped_lines(lines_of(s), width)
        } else {
            lines_of(s)
        }
    }

    /// Lays `string` out in rows of at most `width` columns where the style
    /// wraps, one row per line where it does not.
    pub fn get_matrix(&self, string: &str, width: usize) -> (r: Vec<Vec<char>>)
        requires
            self.wrap ==> wrap_ok(lines_of(string@), width as nat),
            width <= usize::MAX - 3,
        ensures
            r@.len() == self.spec_matrix(string@, width as nat).len(),
            forall|i: int| 0 <= i < r@.len() ==> (#[trigger] r@[i])@ == self.spec_matrix(string@, width as nat)[i],
    {
        let cs = chars_of(string);
        if cs.len() == 0 {
            let mut out: Vec<Vec<char>> = Vec::new();
            out.push(Vec::new());
            return out;
        }
        let ls = lines(string);
        let ghost all = lines_of(string@);
        let mut out: Vec<Vec<char>> = Vec::new();
        let ghost target = self.spec_matrix(string@, width as nat);
        let mut i: usize = 0;
        proof {
            assert(all.skip(0) =~= all);
        }
        while i < ls.len()
            invariant
                ls@.len() == all.len(),
                forall|k: int| 0 <= k < ls@.len() ==> (#[trigger] ls@[k])@ == all[k],
                0 <= i <= ls.len(),
                width <= usize::MAX - 3,
                self.wrap ==> wrap_ok(all, width as nat),
                string@.len() > 0,
                target == self.spec_matrix(string@, width as nat),
                all == lines_of(string@),
                self.wrap ==> target.len() == out@.len() + wrapped_lines(all.skip(i as int), width as nat).len(),
                self.wrap ==> forall|k: int|
                    0 <= k < wrapped_lines(all.skip(i as int), width as nat).len() ==> target[out@.len() + k]
                        == #[trigger] wrapped_lines(all.skip(i as int), width as nat)[k],
                !self.wrap ==> out@.len() == i,
                forall|k: int| 0 <= k < out@.len() ==> (#[trigger] out@[k])@ == target[k],
            decreases ls.len() - i,
        {
            let ghost rest = all.skip(i as int);
            proof {
                assert(rest.drop_first() =~= all.skip(i + 1));
                assert(rest[0] == all[i as int]);
            }
            if self.wrap {
                proof {
                    if width == 0 {
                        assert(all[i as int].len() == 0);
                    }
                }
                let rows = get_wrapped_text(ls[i].as_str(), width);
                let ghost w = wrapped(all[i as int], width as nat);
                let ghost more = wrapped_lines(all.skip(i + 1), width as nat);
                let ghost before = out@;
                let mut j: usize = 0;
                while j < rows.len()
                    invariant
                        rows@.len() == w.len(),
                        forall|k: int| 0 <= k < rows@.len() ==> (#[trigger] rows@[k])@ == w[k],
                        0 <= j <= rows.len(),
                        out@.len() == before.len() + j,
                        forall|k: int| 0 <= k < before.len() ==> (#[trigger] out@[k]) == before[k],
                        forall|k: int| 0 <= k < j ==> (#[trigger] out@[before.len() + k])@ == w[k],
                    decreases rows.len() - j,
                {
                    let row = rows[j].clone();
                    out.push(row);
                    j = j + 1;
                }
                proof {
                    assert(wrapped_lines(rest, width as nat) == w + more);
                    assert forall|k: int| 0 <= k < out@.len() implies (#[trigger] out@[k])@ == target[k] by {
                        if k >= before.len() {
                            let q = k - before.len();
                            assert(out@[before.len() + q] == out@[k]);
                            assert(target[before.len() + q] == wrapped_lines(rest, width as nat)[q]);
                        }
                    }
                    assert forall|k: int| 0 <= k < more.len() implies target[out@.len() + k] == #[trigger] more[k] by {
                        assert(target[before.len() + (w.len() + k)] == wrapped_lines(rest, width as nat)[w.len() + k]);
                    }
                }
            } else {
                let row = chars_of(ls[i].as_str());
                out.push(row);
            }
            i = i + 1;
        }
        proof {
            if self.wrap {
                assert(all.skip(i as int).len() == 0);
            }
        }
        out
    }
}

/// A row tagged with the index of its source.
pub open spec fn tagged_row(idx: usize, row: Seq<char>) -> (usize, Seq<char>) {
    (idx, row)
}

/// The rows of `rows`, each tagged with the index `idx` of its source.
pub open spec fn tag_rows(idx: usize, rows: Seq<Seq<char>>) -> Seq<(usize, Seq<char>)> {
    Seq::new(rows.len(), |k: int| tagged_row(idx, rows[k]))
}

/// The rows that the first `n` sources lay out in, each in its own style,
/// tagged with the index of its source.
pub open spec fn printed(width: nat, styles: Seq<TextParams>, texts: Seq<Seq<char>>, n: nat) -> Seq<(usize, Seq<char>)>
    decreases n,
{
    if n == 0 {
        seq![]
    } else {
        printed(width, styles, texts, (n - 1) as nat) + tag_rows((n - 1) as usize, styles[n - 1].spec_matrix(texts[n - 1], width))
    }
}

/// How many sources have a style: the shorter of the two lists.
pub open spec fn styled_count(styles: Seq<TextParams>, texts: Seq<Seq<char>>) -> nat {
    if styles.len() < texts.len() { styles.len() } else { texts.len() }
}

/// Every styled source can be laid out at `width`.
pub open spec fn print_ok(width: nat, styles: Seq<TextParams>, texts: Seq<Seq<char>>) -> bool {
    forall|i: int| 0 <= i < styled_count(styles, texts) ==> (#[trigger] styles[i]).wrap ==> wrap_ok(lines_of(texts[i]), width)
}

/// The strings of `v`, as characters.
pub open spec fn texts_of(v: Seq<String>) -> Seq<Seq<char>> {
    Seq::new(v.len(), |i: int| v[i]@)
}

/// Lays each source out in its style at `width`: the rows, and for each row
/// the index of the source it comes from.
pub fn print(width: usize, styles: &Vec<TextParams>, source: &Vec<String>) -> (r: (Vec<usize>, Vec<Vec<char>>))
    requires
        width <= usize::MAX - 3,
        print_ok(width as nat, styles@, texts_of(source@)),
    ensures
        ({
            let p = printed(width as nat, styles@, texts_of(source@), styled_count(styles@, texts_of(source@)));
            &&& r.0@.len() == p.len()
            &&& r.1@.len() == p.len()
            &&& forall|k: int| 0 <= k < p.len() ==> #[trigger] r.0@[k] == p[k].0
            &&& forall|k: int| 0 <= k < p.len() ==> (#[trigger] r.1@[k])@ == p[k].1
        }),
{
    let ghost texts = texts_of(source@);
    let n = if styles.len() < source.len() { styles.len() } else { source.len() };
    let mut indexes: Vec<usize> = Vec::new();
    let mut rows: Vec<Vec<char>> = Vec::new();
    let mut idx: usize = 0;
    let ghost mut cur: Seq<(usize, Seq<char>)> = seq![];
    while idx < n
        invariant
            cur == printed(width as nat, styles@, texts, idx as nat),
            n == styled_count(styles@, texts),
            texts == texts_of(source@),
            n <= styles.len() && n <= source.len(),
            width <= usize::MAX - 3,
            print_ok(width as nat, styles@, texts),
            0 <= idx <= n,
            indexes@.len() == cur.len(),
            rows@.len() == indexes@.len(),
            forall|k: int| 0 <= k < indexes@.len() ==> #[trigger] indexes@[k] == cur[k].0,
            forall|k: int| 0 <= k < indexes@.len() ==> (#[trigger] rows@[k])@ == cur[k].1,
        decreases n - idx,
    {
        let ghost before = printed(width as nat, styles@, texts, idx as nat);
        let ghost base = indexes@.len();
        proof {
            assert(texts[idx as int] == source@[idx as int]@);
            assert(styles@[idx as int].wrap ==> wrap_ok(lines_of(texts[idx as int]), width as nat));
        }
        let m = styles[idx].get_matrix(source[idx].as_str(), width);
        let ghost tagged = tag_rows(idx, styles@[idx as int].spec_matrix(texts[idx as int], width as nat));
        let ghost old_idx = indexes@;
        let ghost old_rows = rows@;
        let mut j: usize = 0;
        while j < m.len()
            invariant
                0 <= j <= m.len(),
                indexes@.len() == base + j,
                rows@.len() == base + j,
                base == old_idx.len(),
                base == old_rows.len(),
                forall|k: int| 0 <= k < base ==> #[trigger] indexes@[k] == old_idx[k],
                forall|k: int| 0 <= k < base ==> #[trigger] rows@[k] == old_rows[k],
                forall|q: int| base <= q < base + j ==> #[trigger] indexes@[q] == idx,
                forall|q: int| base <= q < base + j ==> (#[trigger] rows@[q])@ == m@[q - base]@,
            decreases m.len() - j,
        {
            indexes.push(idx);
            let row = m[j].clone();
            rows.push(row);
            j = j + 1;
        }
        proof {
            let after = printed(width as nat, styles@, texts, (idx + 1) as nat);
            assert(after == before + tagged);
            assert(tagged.len() == m@.len());
            assert forall|k: int| #![trigger indexes@[k]] #![trigger rows@[k]] 0 <= k < indexes@.len() implies indexes@[k] == after[k].0 && rows@[k]@ == after[k].1 by {
                if k >= base {
                    assert(after[k] == tagged[k - base]);
                    assert(m@[k - base]@ == tagged[k - base].1);
                } else {
                    assert(after[k] == before[k]);
                    assert(old_rows[k] == rows@[k]);
                    assert(old_idx[k] == indexes@[k]);
                }
            }
        }
        proof {
            cur = printed(width as nat, styles@, texts, (idx + 1) as nat);
        }
        idx = idx + 1;
    }
    (indexes, rows)
}

/// Sources that show as a string.
pub trait Shown {
    /// The characters that the source shows.
    spec fn spec_shown(&self) -> Seq<char>;

    fn shown(&self) -> (r: String)
        ensures
            r@ == self.spec_shown();
}

impl Shown for String {
    open spec fn spec_shown(&self) -> Seq<char> {
        self@
    }

    fn shown(&self) -> (r: String) {
        self.clone()
    }
}

/// How a page is to be built: the most rows it shows, whether its point is
/// drawn, whether it is edited, its style, and its sources with their
/// styles.
pub struct PageParams<T> {
    pub max: Option<u16>,
    pub draw_point: bool,
    pub edit: bool,
    pub style: Style,
    pub styles: Vec<TextParams>,
    pub source: Vec<T>,
}

impl<T> PageParams<T> {
    /// No sources, no limit on rows, nothing edited, the default style.
    pub fn init() -> (r: Self)
        ensures
            r.max is None,
            !r.draw_point,
            !r.edit,
            r.style == (Style { underline: false, bold: false, fg: None, bg: None }),
            r.styles@.len() == 0,
            r.source@.len() == 0,
    {
        PageParams { max: None, draw_point: false, edit: false, style: Style::default(), styles: Vec::new(), source: Vec::new() }
    }

    pub fn edit(self, b: bool) -> (r: Self)
        ensures
            r == (PageParams { edit: b, ..self }),
    {
        let mut p = self;
        p.edit = b;
        p
    }

    pub fn max(self, u: u16) -> (r: Self)
        ensures
            r == (PageParams { max: Some(u), ..self }),
    {
        let mut p = self;
        p.max = Some(u);
        p
    }

    pub fn style(self, style: Style) -> (r: Self)
        ensures
            r == (PageParams { style, ..self }),
    {
        let mut p = self;
        p.style = style;
        p
    }

    pub fn draw_point(self, b: bool) -> (r: Self)
        ensures
            r == (PageParams { draw_point: b, ..self }),
    {
        let mut p = self;
        p.draw_point = b;
        p
    }

    /// The sources `text`, each in the default text style.
    pub fn text(self, text: Vec<T>) -> (r: Self)
        ensures
            r.source == text,
            r.styles@.len() == text@.len(),
            forall|i: int| 0 <= i < text@.len() ==> (#[trigger] r.styles@[i]) == (TextParams {
                style: Style { underline: false, bold: false, fg: None, bg: None },
                wrap: true,
            }),
            r.max == self.max && r.draw_point == self.draw_point && r.edit == self.edit && r.style == self.style,
    {
        let mut styles: Vec<TextParams> = Vec::new();
        let mut i: usize = 0;
        while i < text.len()
            invariant
                0 <= i <= text.len(),
                styles@.len() == i,
                forall|k: int| 0 <= k < i ==> (#[trigger] styles@[k]) == (TextParams {
                    style: Style { underline: false, bold: false, fg: None, bg: None },
                    wrap: true,
                }),
            decreases text.len() - i,
        {
            styles.push(TextParams::default());
            i = i + 1;
        }
        PageParams { max: self.max, draw_point: self.draw_point, edit: self.edit, style: self.style, styles, source: text }
    }

    /// The sources `text`, each in the style that `get_style` gives it.
    pub fn text_styles<F: Fn(&T) -> TextParams>(self, text: Vec<T>, get_style: F) -> (r: Self)
        requires
            forall|i: int| 0 <= i < text@.len() ==> call_requires(get_style, (&text@[i],)),
        ensures
            r.source == text,
            r.styles@.len() == text@.len(),
            forall|i: int| 0 <= i < text@.len() ==> call_ensures(get_style, (&text@[i],), #[trigger] r.styles@[i]),
            r.max == self.max && r.draw_point == self.draw_point && r.edit == self.edit && r.style == self.style,
    {
        let mut styles: Vec<TextParams> = Vec::new();
        let mut i: usize = 0;
        while i < text.len()
            invariant
                0 <= i <= text.len(),
                styles@.len() == i,
                forall|k: int| 0 <= k < text@.len() ==> call_requires(get_style, (&text@[k],)),
                forall|k: int| 0 <= k < i ==> call_ensures(get_style, (&text@[k],), #[trigger] styles@[k]),
            decreases text.len() - i,
        {
            let st = get_style(&text[i]);
            styles.push(st);
            i = i + 1;
        }
        PageParams { max: self.max, draw_point: self.draw_point, edit: self.edit, style: self.style, styles, source: text }
    }
}

/// Each row of `rows` is short enough that its width in columns fits a
/// `usize`.
pub open spec fn rows_fit(rows: Seq<Vec<char>>) -> bool {
    forall|i: int| 0 <= i < rows.len() ==> (#[trigger] rows[i])@.len() <= usize::MAX / 3
}

/// A page of sources laid out in rows: `indexes` gives the source of each row,
/// `matrix` holds the rows and the point, `point_view` the window onto them.
pub struct Page<T> {
    pub max: Option<u16>,
    pub draw_point: bool,
    pub style: Style,
    pub edit: bool,
    pub point_view: PointView,
    pub styles: Vec<TextParams>,
    pub source: Vec<T>,
    pub matrix: PointMatrix<char>,
    pub indexes: Vec<usize>,
}

impl<T> Page<T> {
    /// The window shows the point on both axes, and every row's width fits
    /// a `usize`.
    pub open spec fn page_wf(self) -> bool {
        &&& self.point_view.xv().wf()
        &&& self.point_view.yv().wf()
        &&& rows_fit(self.matrix.data@)
    }

    /// `after` is this page after `delete`.
    pub open spec fn deleted(self, after: Page<T>) -> bool {
        &&& after.page_wf()
        &&& self.moved_to(after.matrix, after)
        &&& after.matrix.point == self.matrix.point
        &&& ({
            let m0 = self.matrix;
            let m1 = after.matrix;
            let yh = m0.point.row().head as int;
            if yh < m0.data@.len() {
                &&& m1.data@.len() == m0.data@.len()
                &&& forall|i: int| 0 <= i < m0.data@.len() && i != yh ==> m1.data@[i] == m0.data@[i]
                &&& m1.data@[yh]@ == if m0.point.col().head < m0.data@[yh].len() {
                    m0.data@[yh]@.remove(m0.point.col().head as int)
                } else {
                    m0.data@[yh]@
                }
            } else {
                m1.data == m0.data
            }
        })
    }

    /// `after` is this page after `backspace`.
    pub open spec fn backspaced(self, after: Page<T>) -> bool {
        &&& after.page_wf()
        &&& self.moved_to(after.matrix, after)
        &&& after.matrix.point.row() == self.matrix.point.row()
        &&& after.matrix.point.pref() == self.matrix.point.pref()
        &&& ({
            let m0 = self.matrix;
            let m1 = after.matrix;
            let yh = m0.point.row().head as int;
            if yh < m0.data@.len() {
                let row = m0.data@[yh];
                let c = m0.point.col();
                &&& m1.data@.len() == m0.data@.len()
                &&& forall|i: int| 0 <= i < m0.data@.len() && i != yh ==> m1.data@[i] == m0.data@[i]
                &&& if spec_move_head(c.head as int, c.spec_get_max(row@.len()) as int, -1).1 == 0 {
                    m1.point.col().head == c.head - 1 && m1.data@[yh]@ == row@.remove(c.head - 1)
                } else {
                    m1.point.col() == c && m1.data@[yh] == row
                }
            } else {
                m1.data == m0.data && m1.point == m0.point
            }
        })
    }

    /// `after` is this page after `insert`.
    pub open spec fn inserted(self, ch: char, after: Page<T>) -> bool {
        &&& after.page_wf()
        &&& self.moved_to(after.matrix, after)
        &&& after.matrix.point.row() == self.matrix.point.row()
        &&& after.matrix.point.pref() == self.matrix.point.pref()
        &&& ({
            let m0 = self.matrix;
            let m1 = after.matrix;
            let yh = m0.point.row().head as int;
            if yh < m0.data@.len() {
                let row = m0.data@[yh];
                let c = m0.point.col();
                &&& m1.data@.len() == m0.data@.len()
                &&& forall|i: int| 0 <= i < m0.data@.len() && i != yh ==> m1.data@[i] == m0.data@[i]
                &&& m1.data@[yh]@ == if c.head + 1 == row@.len() || row@.len() == 0 {
                    row@.push(ch)
                } else {
                    row@.insert(c.head as int, ch)
                }
                &&& m1.point.col().head == spec_move_head(c.head as int, c.spec_get_max((row@.len() + 1) as nat) as int, 1).0
            } else {
                m1.data == m0.data && m1.point == m0.point
            }
        })
    }

    /// `after` is this page with the matrix replaced by `m` and the window
    /// moved to its point.
    pub open spec fn moved_to(self, m: PointMatrix<char>, after: Page<T>) -> bool {
        &&& after.matrix == m
        &&& after.max == self.max && after.draw_point == self.draw_point && after.style == self.style
        &&& after.edit == self.edit && after.styles == self.styles && after.source == self.source
        &&& after.indexes == self.indexes
        &&& after.point_view.at() == self.point_view.at()
        &&& after.point_view.yv() == self.point_view.yv().spec_update(m.point.row().head).0
        &&& after.point_view.xv() == self.point_view.xv().spec_update(m.spec_weighted_x() as usize).0
    }

    /// Moves the window to the matrix's point.
    fn follow_point(&mut self)
        requires
            old(self).page_wf(),
        ensures
            final(self).page_wf(),
            old(self).moved_to(old(self).matrix, *final(self)),
    {
        proof {
            lemma_cursor_view_update_wf(self.point_view.yv(), self.matrix.point.row().head);
            lemma_cursor_view_update_wf(self.point_view.xv(), self.matrix.spec_weighted_x() as usize);
        }
        self.point_view.update(&self.matrix);
    }

    /// The index of the source of the point's row, 0 below the last row.
    pub fn get_index(&self) -> (r: usize)
        ensures
            r == if self.matrix.point.row().head < self.indexes@.len() {
                self.indexes@[self.matrix.point.row().head as int]
            } else {
                0
            },
    {
        let yh = self.matrix.point.row_head();
        if yh < self.indexes.len() {
            self.indexes[yh]
        } else {
            0
        }
    }

    /// The source of the point's row.
    pub fn get_source(&self) -> (r: Option<&T>)
        ensures
            ({
                let i = if self.matrix.point.row().head < self.indexes@.len() {
                    self.indexes@[self.matrix.point.row().head as int] as int
                } else {
                    0
                };
                match r {
                    Some(t) => i < self.source@.len() && *t == self.source@[i],
                    None => i >= self.source@.len(),
                }
            }),
    {
        let i = self.get_index();
        if i < self.source.len() {
            Some(&self.source[i])
        } else {
            None
        }
    }

    /// The characters of the point's row.
    pub fn get_string(&self) -> (r: Option<String>)
        ensures
            match r {
                Some(s) => self.matrix.point.row().head < self.matrix.data@.len()
                    && s@ == self.matrix.data@[self.matrix.point.row().head as int]@,
                None => self.matrix.point.row().head >= self.matrix.data@.len(),
            },
    {
        let yh = self.matrix.point.row_head();
        if yh < self.matrix.data.len() {
            Some(crate::chars::string_of(&self.matrix.data[yh]))
        } else {
            None
        }
    }

    /// The rows the window `axis` shows, each with the index of its source.
    pub fn get_view(&self, axis: CursorView) -> (r: Vec<(usize, &Vec<char>)>)
        ensures
            ({
                let n = if self.indexes@.len() < self.matrix.data@.len() { self.indexes@.len() } else { self.matrix.data@.len() };
                let shown = if axis.scroll >= n { 0 } else if n - axis.scroll < axis.size { n - axis.scroll } else { axis.size as int };
                &&& r@.len() == shown
                &&& forall|k: int| 0 <= k < shown ==> (#[trigger] r@[k]).0 == self.indexes@[axis.scroll + k]
                    && *r@[k].1 == self.matrix.data@[axis.scroll + k]
            }),
    {
        let n = if self.indexes.len() < self.matrix.data.len() { self.indexes.len() } else { self.matrix.data.len() };
        let mut out: Vec<(usize, &Vec<char>)> = Vec::new();
        if axis.scroll < n {
            let avail = n - axis.scroll;
            let m = if avail < axis.size as usize { avail } else { axis.size as usize };
            let mut k: usize = 0;
            while k < m
                invariant
                    0 <= k <= m,
                    m <= n - axis.scroll,
                    axis.scroll < n,
                    n <= self.indexes@.len(),
                    n <= self.matrix.data@.len(),
                    out@.len() == k,
                    forall|q: int| 0 <= q < k ==> (#[trigger] out@[q]).0 == self.indexes@[axis.scroll + q]
                        && *out@[q].1 == self.matrix.data@[axis.scroll + q],
                decreases m - k,
            {
                out.push((self.indexes[axis.scroll + k], &self.matrix.data[axis.scroll + k]));
                k = k + 1;
            }
        }
        out
    }

    /// Deletes the character under the point, and moves the window to it.
    pub fn delete(&mut self)
        requires
            old(self).page_wf(),
        ensures
            old(self).deleted(*final(self)),
    {
        let ghost before = self.matrix;
        self.matrix.delete();
        proof {
            let yh = before.point.row().head as int;
            if yh < before.data@.len() {
                assert forall|i: int| 0 <= i < self.matrix.data@.len() implies (#[trigger] self.matrix.data@[i])@.len() <= usize::MAX / 3 by {
                    if i != yh {
                        assert(self.matrix.data@[i] == before.data@[i]);
                    } else {
                        assert(before.data@[yh]@.len() <= usize::MAX / 3);
                    }
                }
            }
        }
        self.follow_point();
    }

    /// Removes the character before the point, and moves the window to the
    /// point.
    pub fn backspace(&mut self)
        requires
            old(self).page_wf(),
            old(self).matrix.point.row().head < old(self).matrix.data@.len() ==> {
                let row = old(self).matrix.data@[old(self).matrix.point.row().head as int];
                let c = old(self).matrix.point.col();
                &&& move_head_ok(c.head as int, c.spec_get_max(row@.len()) as int, -1)
                &&& spec_move_head(c.head as int, c.spec_get_max(row@.len()) as int, -1).1 == 0 ==> c.head - 1 < row@.len()
            },
        ensures
            old(self).backspaced(*final(self)),
    {
        let ghost before = self.matrix;
        self.matrix.backspace();
        proof {
            let yh = before.point.row().head as int;
            if yh < before.data@.len() {
                assert forall|i: int| 0 <= i < self.matrix.data@.len() implies (#[trigger] self.matrix.data@[i])@.len() <= usize::MAX / 3 by {
                    if i != yh {
                        assert(self.matrix.data@[i] == before.data@[i]);
                    } else {
                        assert(before.data@[yh]@.len() <= usize::MAX / 3);
                    }
                }
            }
        }
        self.follow_point();
    }

    /// Inserts `ch` at the point, and moves the window to the point.
    pub fn insert(&mut self, ch: char)
        requires
            old(self).page_wf(),
            old(self).matrix.point.row().head < old(self).matrix.data@.len() ==> {
                let row = old(self).matrix.data@[old(self).matrix.point.row().head as int];
                let c = old(self).matrix.point.col();
                &&& row@.len() < usize::MAX / 3
                &&& c.head + 1 != row@.len() && row@.len() != 0 ==> c.head <= row@.len()
                &&& move_head_ok(c.head as int, c.spec_get_max((row@.len() + 1) as nat) as int, 1)
            },
        ensures
            old(self).inserted(ch, *final(self)),
    {
        let ghost before = self.matrix;
        self.matrix.insert(ch);
        proof {
            let yh = before.point.row().head as int;
            if yh < before.data@.len() {
                assert forall|i: int| 0 <= i < self.matrix.data@.len() implies (#[trigger] self.matrix.data@[i])@.len() <= usize::MAX / 3 by {
                    if i != yh {
                        assert(self.matrix.data@[i] == before.data@[i]);
                    }
                }
            }
        }
        self.follow_point();
    }

    /// Moves the point `delta` characters back, and the window to it.
    pub fn move_left(&mut self, delta: usize)
        requires
            old(self).page_wf(),
            (delta as isize) != isize::MIN,
            move_x_ok(old(self).matrix.point.col().head as int, old(self).matrix.point.col().buff, old(self).matrix.point.row().head as int, old(self).matrix.point.row().buff, row_lens(old(self).matrix.data@), -((delta as isize) as int)),
        ensures
            final(self).page_wf(),
            old(self).moved_to(final(self).matrix, *final(self)),
            final(self).matrix.data == old(self).matrix.data,
            (final(self).matrix.point.col().head as int, final(self).matrix.point.row().head as int) == spec_move_x(old(self).matrix.point.col().head as int, old(self).matrix.point.col().buff, old(self).matrix.point.row().head as int, old(self).matrix.point.row().buff, row_lens(old(self).matrix.data@), -((delta as isize) as int)),
            final(self).matrix.point.pref() == final(self).matrix.point.col().head,
    {
        self.matrix.move_left(delta);
        self.follow_point();
    }

    /// Moves the point `delta` characters on, and the window to it.
    pub fn move_right(&mut self, delta: usize)
        requires
            old(self).page_wf(),
            move_x_ok(old(self).matrix.point.col().head as int, old(self).matrix.point.col().buff, old(self).matrix.point.row().head as int, old(self).matrix.point.row().buff, row_lens(old(self).matrix.data@), (delta as isize) as int),
        ensures
            final(self).page_wf(),
            old(self).moved_to(final(self).matrix, *final(self)),
            final(self).matrix.data == old(self).matrix.data,
            (final(self).matrix.point.col().head as int, final(self).matrix.point.row().head as int) == spec_move_x(old(self).matrix.point.col().head as int, old(self).matrix.point.col().buff, old(self).matrix.point.row().head as int, old(self).matrix.point.row().buff, row_lens(old(self).matrix.data@), (delta as isize) as int),
            final(self).matrix.point.pref() == final(self).matrix.point.col().head,
    {
        self.matrix.move_right(delta);
        self.follow_point();
    }

    /// Moves the point `delta` rows down, and the window to it.
    pub fn move_down(&mut self, delta: usize)
        requires
            old(self).page_wf(),
            move_head_ok(old(self).matrix.point.row().head as int, old(self).matrix.point.row().spec_get_max(old(self).matrix.data@.len()) as int, (delta as isize) as int),
        ensures
            final(self).page_wf(),
            old(self).moved_to(final(self).matrix, *final(self)),
            final(self).matrix.data == old(self).matrix.data,
            final(self).matrix.point.row().head == spec_move_head(old(self).matrix.point.row().head as int, old(self).matrix.point.row().spec_get_max(old(self).matrix.data@.len()) as int, (delta as isize) as int).0,
    {
        self.matrix.move_down(delta);
        self.follow_point();
    }

    /// Moves the point `delta` rows up, and the window to it.
    pub fn move_up(&mut self, delta: usize)
        requires
            old(self).page_wf(),
            (delta as isize) != isize::MIN,
            move_head_ok(old(self).matrix.point.row().head as int, old(self).matrix.point.row().spec_get_max(old(self).matrix.data@.len()) as int, -((delta as isize) as int)),
        ensures
            final(self).page_wf(),
            old(self).moved_to(final(self).matrix, *final(self)),
            final(self).matrix.data == old(self).matrix.data,
            final(self).matrix.point.row().head == spec_move_head(old(self).matrix.point.row().head as int, old(self).matrix.point.row().spec_get_max(old(self).matrix.data@.len()) as int, -((delta as isize) as int)).0,
    {
        self.matrix.move_up(delta);
        self.follow_point();
    }
}

/// What each source of `v` shows.
pub open spec fn shown_texts<T: Shown>(v: Seq<T>) -> Seq<Seq<char>> {
    Seq::new(v.len(), |i: int| v[i].spec_shown())
}

/// The strings that the sources show.
fn shown_all<T: Shown>(v: &Vec<T>) -> (r: Vec<String>)
    ensures
        texts_of(r@) == shown_texts(v@),
{
    let mut out: Vec<String> = Vec::new();
    let mut i: usize = 0;
    while i < v.len()
        invariant
            0 <= i <= v.len(),
            out@.len() == i,
            forall|k: int| 0 <= k < i ==> (#[trigger] out@[k])@ == v@[k].spec_shown(),
        decreases v.len() - i,
    {
        let s = v[i].shown();
        out.push(s);
        i = i + 1;
    }
    proof {
        assert(texts_of(out@) =~= shown_texts(v@));
    }
    out
}

impl<T: Shown> PageParams<T> {
    /// The rows that the sources lay out in at `width`, with their sources'
    /// indexes.
    pub open spec fn rows_at(self, width: nat) -> Seq<(usize, Seq<char>)> {
        printed(width, self.styles@, shown_texts(self.source@), styled_count(self.styles@, shown_texts(self.source@)))
    }

    /// The rows that a page built of these sources at `width` shows: as many
    /// as the sources lay out in, up to the limit.
    pub open spec fn spec_height(self, width: nat) -> u16 {
        let n = self.rows_at(width).len();
        let h = if n <= u16::MAX { n as u16 } else { u16::MAX };
        match self.max {
            Some(m) => if h < m { h } else { m },
            None => h,
        }
    }

}

impl<T: Shown> BuildView<Page<T>> for PageParams<T> {
    /// The sources can be laid out in `rect`, each row short enough that its
    /// width in columns fits a `usize`.
    open spec fn build_ok(self, rect: Rect) -> bool {
        &&& print_ok(rect.w as nat, self.styles@, shown_texts(self.source@))
        &&& forall|k: int| 0 <= k < self.rows_at(rect.w as nat).len() ==> (#[trigger] self.rows_at(rect.w as nat)[k]).1.len() <= usize::MAX / 3
    }

    /// `r` is the page that `build` makes of these sources in `rect`: their
    /// rows, the point at the start (at the end of the first row when
    /// edited), and the window in `rect` showing it.
    open spec fn built(self, rect: Rect, r: Page<T>) -> bool {
        &&& r.page_wf()
        &&& r.max == self.max && r.draw_point == self.draw_point && r.style == self.style && r.edit == self.edit
        &&& r.styles == self.styles && r.source == self.source
        &&& r.indexes@.len() == self.rows_at(rect.w as nat).len()
        &&& r.matrix.data@.len() == self.rows_at(rect.w as nat).len()
        &&& forall|k: int| 0 <= k < r.indexes@.len() ==> #[trigger] r.indexes@[k] == self.rows_at(rect.w as nat)[k].0
        &&& forall|k: int| 0 <= k < r.indexes@.len() ==> (#[trigger] r.matrix.data@[k])@ == self.rows_at(rect.w as nat)[k].1
        &&& r.matrix.point.row() == (Cursor { head: 0, buff: false })
        &&& !(self.edit && r.matrix.data@.len() > 0) ==> r.matrix.point.col() == (Cursor { head: 0, buff: false })
        &&& self.edit && r.matrix.data@.len() > 0 ==> r.matrix.point.col() == (Cursor { head: r.matrix.data@[0].len(), buff: true })
        &&& r.matrix.point.pref() == 0
        &&& r.point_view.at() == Pos(rect.x, rect.y)
        &&& r.point_view.yv() == (CursorView { scroll: 0, head: 0, cursor: 0, size: rect.h })
        &&& r.point_view.xv() == (CursorView { scroll: 0, head: 0, cursor: 0, size: rect.w }).spec_update(r.matrix.spec_weighted_x() as usize).0
        &&& r.spec_display_height() == self.spec_height(rect.w as nat)
    }

    /// The page of these sources in `rect`.
    fn build(self, rect: &Rect) -> (r: Page<T>)
    {
        let texts = shown_all(&self.source);
        let (indexes, rows) = print(rect.w as usize, &self.styles, &texts);
        let mut matrix = PointMatrix::from(rows);
        if self.edit {
            matrix = matrix.editor();
        }
        let mut point_view = PointView::from(rect);
        proof {
            PointView::lemma_from_rect(*rect);
            assert forall|i: int| 0 <= i < matrix.data@.len() implies (#[trigger] matrix.data@[i])@.len() <= usize::MAX / 3 by {
                assert(self.rows_at(rect.w as nat)[i].1.len() <= usize::MAX / 3);
            }
            lemma_cursor_view_update_wf(point_view.yv(), matrix.point.row().head);
            lemma_cursor_view_update_wf(point_view.xv(), matrix.spec_weighted_x() as usize);
        }
        point_view.update(&matrix);
        Page {
            max: self.max,
            draw_point: self.draw_point,
            style: self.style,
            edit: self.edit,
            point_view,
            styles: self.styles,
            source: self.source,
            matrix,
            indexes,
        }
    }
}

impl<T> Page<T> {
    /// How many rows the window shows.
    pub open spec fn shown_rows(self) -> int {
        let n = if self.indexes@.len() < self.matrix.data@.len() { self.indexes@.len() } else { self.matrix.data@.len() };
        let yv = self.point_view.yv();
        if yv.scroll >= n { 0 } else if n - yv.scroll < yv.size { n - yv.scroll } else { yv.size as int }
    }

    /// The characters of `line` that the window shows.
    pub open spec fn visible(self, line: Seq<char>) -> Seq<char> {
        visible_in(self.point_view.xv(), line)
    }

    /// The commands that draw the `k`th row shown: its source's style (the
    /// default where the source has none), its visible characters, then
    /// blanks in the page's style to the window's east edge, and the move to
    /// the start of the next row.
    pub open spec fn row_draw_ops(self, k: int) -> Seq<DrawOp> {
        let Pos(x0, y0) = self.point_view.at();
        let xv = self.point_view.xv();
        let i = self.point_view.yv().scroll + k;
        let idx = self.indexes@[i];
        let vis = self.visible(self.matrix.data@[i]@);
        let st = if idx < self.styles@.len() {
            self.styles@[idx as int].style
        } else {
            Style { underline: false, bold: false, fg: None, bg: None }
        };
        let xe = x0 + width_of(vis);
        let re = x0 + xv.size;
        seq![DrawOp::SetStyle(st)] + prints(vis) + seq![DrawOp::Reset, DrawOp::SetStyle(self.style)]
            + repeat_op(if xe < re { (re - xe) as nat } else { 0 }, DrawOp::Print(' '))
            + seq![DrawOp::MoveTo(x0, (y0 + k + 1) as u16)]
    }

    /// The commands that draw the first `k` rows shown.
    pub open spec fn rows_draw_ops(self, k: nat) -> Seq<DrawOp>
        decreases k,
    {
        if k == 0 {
            seq![]
        } else {
            self.rows_draw_ops((k - 1) as nat) + self.row_draw_ops(k - 1)
        }
    }
}

/// The characters of `line` that the window `xv` shows: from its scroll on,
/// while the columns used are fewer than its size.
pub open spec fn visible_in(xv: CursorView, line: Seq<char>) -> Seq<char> {
    let s = if xv.scroll < line.len() { line.skip(xv.scroll as int) } else { seq![] };
    s.take(fill_count(s, 0, xv.size as nat) as int)
}

/// Appends the commands that print the characters of `line` that `xv`
/// shows, from column `x0`; returns the column after them.
fn push_visible(out: &mut Vec<DrawOp>, xv: CursorView, line: &Vec<char>, x0: u16) -> (x: u16)
    requires
        x0 + xv.size + 3 <= u16::MAX,
    ensures
        final(out)@ == old(out)@ + prints(visible_in(xv, line@)),
        x == x0 + width_of(visible_in(xv, line@)),
{
    let cells = xv.get_weighted_view(line.as_slice());
    let ghost line_s = if xv.scroll < line@.len() { line@.skip(xv.scroll as int) } else { seq![] };
    let ghost vis = visible_in(xv, line@);
    let ghost mark = out@;
    proof {
        crate::util::lemma_fill_count(line_s, 0, xv.size as nat);
        assert(vis.take(0) =~= Seq::<char>::empty());
        assert(mark + prints(vis.take(0)) =~= mark);
    }
    let mut x = x0;
    let mut j: usize = 0;
    while j < cells.len()
        invariant
            cells@.len() == vis.len(),
            cells@.len() == fill_count(line_s, 0, xv.size as nat),
            fill_count(line_s, 0, xv.size as nat) <= line_s.len(),
            vis == line_s.take(fill_count(line_s, 0, xv.size as nat) as int),
            forall|q: int| 0 <= q < cells@.len() ==> #[trigger] cells@[q] == (cell_width(line_s[q]) as u16, line_s[q]) && cell_width(line_s[q]) <= 3,
            0 <= j <= cells.len(),
            x == x0 + width_of(vis.take(j as int)),
            x0 + xv.size + 3 <= u16::MAX,
            out@ == mark + prints(vis.take(j as int)),
        decreases cells.len() - j,
    {
        let (w, c) = cells[j];
        proof {
            lemma_fill_prefix(line_s, 0, xv.size as nat, j as int);
            assert(line_s.take(j as int) =~= vis.take(j as int));
            lemma_width_of_take_step(vis, j as int);
            assert(vis[j as int] == line_s[j as int]);
        }
        out.push(DrawOp::Print(c));
        x = x + w;
        j = j + 1;
        proof {
            let a = prints(vis.take(j as int));
            let b = prints(vis.take(j - 1)) + seq![crate::frame::print_op(c)];
            assert(a.len() == b.len());
            assert forall|q: int| 0 <= q < a.len() implies a[q] == b[q] by {
                if q < j - 1 {
                    assert(vis.take(j as int)[q] == vis.take(j - 1)[q]);
                }
            }
            assert(a =~= b);
            assert(out@ =~= mark + a);
        }
    }
    proof {
        assert(vis.take(j as int) =~= vis);
    }
    x
}

impl<T> Draw for Page<T> {
    open spec fn spec_draw(&self) -> Seq<DrawOp> {
        let Pos(x0, y0) = self.point_view.at();
        seq![DrawOp::MoveTo(x0, y0), DrawOp::Reset, DrawOp::SetStyle(self.style)]
            + self.rows_draw_ops(self.shown_rows() as nat) + seq![DrawOp::Reset]
    }

    /// The window lies on the screen, with room for the widest character at
    /// its east edge.
    open spec fn draw_ok(&self) -> bool {
        let Pos(x0, y0) = self.point_view.at();
        &&& x0 + self.point_view.xv().size + 3 <= u16::MAX
        &&& y0 + self.point_view.yv().size <= u16::MAX
    }

    /// Draws the rows the window shows.
    #[verifier::spinoff_prover]
    fn draw(&self) -> (r: Vec<DrawOp>) {
        let mut out: Vec<DrawOp> = Vec::new();
        let pos = self.point_view.pos();
        let x0 = pos.0;
        let mut y = pos.1;
        out.push(DrawOp::MoveTo(x0, y));
        out.push(DrawOp::Reset);
        out.push(DrawOp::SetStyle(self.style));
        let xv = self.point_view.get_x_view();
        let view = self.get_view(self.point_view.get_y_view());
        let re = x0 + xv.size;
        let ghost head = out@;
        let mut k: usize = 0;
        proof {
            assert(head + self.rows_draw_ops(0) =~= head);
        }
        while k < view.len()
            invariant
                view@.len() == self.shown_rows(),
                forall|q: int| 0 <= q < view@.len() ==> (#[trigger] view@[q]).0 == self.indexes@[self.point_view.yv().scroll + q]
                    && *view@[q].1 == self.matrix.data@[self.point_view.yv().scroll + q],
                0 <= k <= view.len(),
                self.draw_ok(),
                pos == self.point_view.at(),
                x0 == pos.0,
                xv == self.point_view.xv(),
                re == x0 + xv.size,
                y == pos.1 + k,
                self.shown_rows() <= self.point_view.yv().size,
                out@ == head + self.rows_draw_ops(k as nat),
            decreases view.len() - k,
        {
            let (index, line) = view[k];
            let st = if index < self.styles.len() { self.styles[index].style } else { Style::default() };
            let ghost before = out@;
            out.push(DrawOp::SetStyle(st));
            let x = push_visible(&mut out, xv, line, x0);
            let ghost vis = self.visible(line@);
            out.push(DrawOp::Reset);
            out.push(DrawOp::SetStyle(self.style));
            let ghost mid = out@;
            let mut z = x;
            while z < re
                invariant
                    z >= x,
                    re <= x ==> out@ == mid,
                    re > x ==> z <= re && out@ == mid + repeat_op((z - x) as nat, DrawOp::Print(' ')),
                decreases re - z,
            {
                out.push(DrawOp::Print(' '));
                z = z + 1;
                proof {
                    assert(out@ =~= mid + repeat_op((z - x) as nat, DrawOp::Print(' ')));
                }
            }
            y = y + 1;
            out.push(DrawOp::MoveTo(x0, y));
            proof {
                let fill = repeat_op(if x < re { (re - x) as nat } else { 0 }, DrawOp::Print(' '));
                if re <= x {
                    assert(fill =~= Seq::<DrawOp>::empty());
                }
                assert(out@ =~= before + self.row_draw_ops(k as int));
            }
            k = k + 1;
        }
        out.push(DrawOp::Reset);
        out
    }
}

/// The lengths of the rows laid out.
pub open spec fn printed_lens(rows: Seq<(usize, Seq<char>)>) -> Seq<int> {
    Seq::new(rows.len(), |i: int| rows[i].1.len() as int)
}

impl<T: Shown> Page<T> {
    /// The rows that the page's sources lay out in at `width`, in the
    /// styles `styles`.
    pub open spec fn rows_with(self, styles: Seq<TextParams>, width: nat) -> Seq<(usize, Seq<char>)> {
        printed(width, styles, shown_texts(self.source@), styled_count(styles, shown_texts(self.source@)))
    }

    /// The rows that the page's sources lay out in at `width`.
    pub open spec fn rows_at(self, width: nat) -> Seq<(usize, Seq<char>)> {
        self.rows_with(self.styles@, width)
    }

    /// The page can be laid out again in `rect` in the styles `styles`,
    /// keeping the point as many characters from the start as it is.
    pub open spec fn rebuild_ok_with(self, styles: Seq<TextParams>, rect: Rect) -> bool {
        let rows = self.rows_with(styles, rect.w as nat);
        let linear = self.matrix.point.spec_linear(self.matrix.data@);
        let buff = self.edit && rows.len() > 0;
        &&& print_ok(rect.w as nat, styles, shown_texts(self.source@))
        &&& forall|k: int| 0 <= k < rows.len() ==> (#[trigger] rows[k]).1.len() <= usize::MAX / 3
        &&& linear <= isize::MAX
        &&& move_x_ok(0, buff, 0, false, printed_lens(rows), linear)
    }

    /// The page can be laid out again in `rect`.
    pub open spec fn rebuild_ok(self, rect: Rect) -> bool {
        self.rebuild_ok_with(self.styles@, rect)
    }

    /// `after` is the page laid out again in `rect`: its rows at the new
    /// width, the point as many characters from the start as it was, and the
    /// window in `rect` showing it.
    pub open spec fn rebuilt_into(self, rect: Rect, after: Page<T>) -> bool {
        let rows = self.rows_at(rect.w as nat);
        let linear = self.matrix.point.spec_linear(self.matrix.data@);
        let buff = self.edit && rows.len() > 0;
        let m = after.matrix;
        &&& after.page_wf()
        &&& after.max == self.max && after.draw_point == self.draw_point
        &&& after.style == self.style && after.edit == self.edit
        &&& after.styles == self.styles && after.source == self.source
        &&& after.indexes@.len() == rows.len()
        &&& m.data@.len() == rows.len()
        &&& forall|k: int| 0 <= k < rows.len() ==> #[trigger] after.indexes@[k] == rows[k].0
        &&& forall|k: int| 0 <= k < rows.len() ==> (#[trigger] m.data@[k])@ == rows[k].1
        &&& (m.point.col().head as int, m.point.row().head as int) == spec_move_x(0, buff, 0, false, printed_lens(rows), linear)
        &&& after.point_view.at() == Pos(rect.x, rect.y)
        &&& after.point_view.yv() == self.point_view.yv().spec_resize(m.point.row().head, rect.h)
        &&& after.point_view.xv() == self.point_view.xv().spec_resize(m.spec_weighted_x() as usize, rect.w)
    }

    /// The rectangle the page's window stands on.
    pub open spec fn view_rect(self) -> Rect {
        Rect { x: self.point_view.at().0, y: self.point_view.at().1, w: self.point_view.xv().size, h: self.point_view.yv().size }
    }

    /// Lays the page out again in `rect`: its rows at the new width, the
    /// point as many characters from the start as it was, and the window in
    /// `rect` showing it.
    pub fn rebuild(&mut self, rect: &Rect)
        requires
            old(self).page_wf(),
            old(self).rebuild_ok(*rect),
        ensures
            old(self).rebuilt_into(*rect, *final(self)),
    {
        let linear = self.matrix.get_linear();
        let texts = shown_all(&self.source);
        let (indexes, rows) = print(rect.w as usize, &self.styles, &texts);
        let ghost target = self.rows_at(rect.w as nat);
        let mut matrix = PointMatrix::from(rows);
        if self.edit {
            matrix = matrix.editor();
        }
        proof {
            assert(row_lens(matrix.data@) =~= printed_lens(target));
        }
        matrix.set_linear(linear);
        proof {
            assert forall|i: int| 0 <= i < matrix.data@.len() implies (#[trigger] matrix.data@[i])@.len() <= usize::MAX / 3 by {
                assert(target[i].1.len() <= usize::MAX / 3);
            }
            lemma_cursor_view_resize_wf(self.point_view.yv(), matrix.point.row().head, rect.h);
        }
        self.indexes = indexes;
        self.matrix = matrix;
        self.point_view.resize(&self.matrix, rect);
        proof {
            lemma_cursor_view_resize_wf(old(self).point_view.xv(), self.matrix.spec_weighted_x() as usize, rect.w);
        }
    }
}

impl<T: Shown> Page<T> {
    /// Gives each source the style that `get_style` gives it, and lays the
    /// page out again in the rectangle its window stands on.
    pub fn restyle<F: Fn(&T) -> TextParams>(&mut self, get_style: F)
        requires
            old(self).page_wf(),
            forall|i: int| 0 <= i < old(self).source@.len() ==> call_requires(get_style, (&old(self).source@[i],)),
            forall|s: Seq<TextParams>|
                s.len() == old(self).source@.len()
                && (forall|i: int| 0 <= i < s.len() ==> call_ensures(get_style, (&old(self).source@[i],), #[trigger] s[i]))
                ==> #[trigger] old(self).rebuild_ok_with(s, old(self).view_rect()),
        ensures
            final(self).styles@.len() == old(self).source@.len(),
            forall|i: int| 0 <= i < old(self).source@.len() ==> call_ensures(get_style, (&old(self).source@[i],), #[trigger] final(self).styles@[i]),
            (Page { styles: final(self).styles, ..*old(self) }).rebuilt_into(old(self).view_rect(), *final(self)),
    {
        let mut styles: Vec<TextParams> = Vec::new();
        let mut i: usize = 0;
        while i < self.source.len()
            invariant
                0 <= i <= self.source@.len(),
                *self == *old(self),
                styles@.len() == i,
                forall|k: int| 0 <= k < self.source@.len() ==> call_requires(get_style, (&self.source@[k],)),
                forall|k: int| 0 <= k < i ==> call_ensures(get_style, (&self.source@[k],), #[trigger] styles@[k]),
            decreases self.source@.len() - i,
        {
            let st = get_style(&self.source[i]);
            styles.push(st);
            i = i + 1;
        }
        let rect = Rect::from(&self.point_view);
        proof {
            assert(old(self).rebuild_ok_with(styles@, old(self).view_rect()));
        }
        self.styles = styles;
        self.rebuild(&rect);
    }
}

impl<T: Shown> Resize for Page<T> {
    /// The page can move into `rect`: at another width it can be laid out
    /// again there.
    open spec fn resize_ok(&self, rect: Rect) -> bool {
        &&& self.page_wf()
        &&& self.point_view.xv().size != rect.w ==> self.rebuild_ok(rect)
    }

    open spec fn resized_from(&self, before: &Self, rect: Rect) -> bool {
        before.resized_into(rect, *self)
    }

    /// Moves the page into `rect`.
    fn resize(&mut self, rect: &Rect)
    {
        if self.point_view.get_width() == rect.width() {
            proof {
                lemma_cursor_view_resize_wf(self.point_view.yv(), self.matrix.point.row().head, rect.h);
                lemma_cursor_view_resize_wf(self.point_view.xv(), self.matrix.spec_weighted_x() as usize, rect.w);
            }
            self.point_view.resize(&self.matrix, rect);
        } else {
            self.rebuild(rect);
        }
    }

}

impl<T: Shown> Page<T> {
    /// The rows the page shows once moved into `rect`.
    pub open spec fn height_in(self, rect: Rect) -> u16 {
        let n = if self.point_view.xv().size == rect.w { self.matrix.data@.len() } else { self.rows_at(rect.w as nat).len() };
        let h = if n <= u16::MAX { n as u16 } else { u16::MAX };
        match self.max {
            Some(m) => if h < m { h } else { m },
            None => h,
        }
    }

    /// `after` is what `resize` makes of the page in `rect`: at the same
    /// width only the window moves; at another width the page is laid out
    /// again.
    pub open spec fn resized_into(self, rect: Rect, after: Page<T>) -> bool {
        &&& after.page_wf()
        &&& after.max == self.max && after.draw_point == self.draw_point
        &&& after.style == self.style && after.edit == self.edit
        &&& after.styles == self.styles && after.source == self.source
        &&& after.point_view.at() == Pos(rect.x, rect.y)
        &&& after.spec_display_height() == self.height_in(rect)
        &&& self.point_view.xv().size == rect.w ==> {
            &&& after.matrix == self.matrix
            &&& after.indexes == self.indexes
            &&& after.point_view.yv() == self.point_view.yv().spec_resize(self.matrix.point.row().head, rect.h)
            &&& after.point_view.xv() == self.point_view.xv().spec_resize(self.matrix.spec_weighted_x() as usize, rect.w)
        }
    }

    /// The rows this page shows: as many as it has, up to its limit.
    pub open spec fn spec_display_height(self) -> u16 {
        let n = self.matrix.data@.len();
        let h = if n <= u16::MAX { n as u16 } else { u16::MAX };
        match self.max {
            Some(m) => if h < m { h } else { m },
            None => h,
        }
    }

    /// The rows this page shows.
    pub fn get_height(&self) -> (r: u16)
        ensures
            r == self.spec_display_height(),
    {
        let n = self.matrix.data.len();
        let h = if n <= u16::MAX as usize { n as u16 } else { u16::MAX };
        match self.max {
            Some(m) => if h < m { h } else { m },
            None => h,
        }
    }

    /// The text of the source of the point's row, empty where there is none.
    pub fn get_param_string(&self) -> (r: String)
        ensures
            ({
                let i = if self.matrix.point.row().head < self.indexes@.len() {
                    self.indexes@[self.matrix.point.row().head as int] as int
                } else {
                    0
                };
                r@ == if i < self.source@.len() { self.source@[i].spec_shown() } else { Seq::empty() }
            }),
    {
        match self.get_source() {
            Some(t) => t.shown(),
            None => String::new(),
        }
    }
}

} // verus!
