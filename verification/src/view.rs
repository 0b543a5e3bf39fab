//! The browser's view: a frame around a flash, a dialog and the current
//! tab's page, stacked down the screen in that order.
use vstd::prelude::*;
use crate::rect::Rect;
use crate::layout::{display_bounds, display_bounds_ok, stack_bounds, lemma_display_bounds_len, GetDisplayHeight, GetMaxHeight, BuildView, Resize};
use crate::frame::{Frame, FrameParams, repeat_op};
use crate::draw::{Draw, DrawOp};
use crate::page::{Page, PageParams, TextParams};
use crate::userstyle::StyleConfig;
use crate::dlg::{Dialog, DialogParams, rows_after, rows_after_ok};
use crate::tab::{Tab, TabText};
use crate::cursor::CursorVec;
use crate::chars::str_eq;

verus! {

/// The browser's view on the screen `rect`: its frame, whether the frame is
/// to be drawn, the flash and the dialog, if any, and the tabs.
pub struct AppView {
    pub draw_frame: bool,
    pub rect: Rect,
    pub frame: Frame,
    pub flash: Option<Dialog>,
    pub dialog: Option<Dialog>,
    pub tabs: CursorVec<Tab>,
}

/// The rows the dialog `d`, if any, could fill.
pub open spec fn dlg_max(d: Option<Dialog>) -> u16 {
    match d {
        Some(d) => d.spec_max_height(),
        None => 0,
    }
}

/// The dialog `d`, if any, can be moved onto `rect`.
pub open spec fn dlg_resize_ok(d: Option<Dialog>, rect: Rect) -> bool {
    match d {
        Some(d) => d.resize_ok(rect),
        None => true,
    }
}

/// The rows the dialog `d`, if any, takes once moved onto `rect`.
pub open spec fn dlg_height_in(d: Option<Dialog>, rect: Rect) -> u16 {
    match d {
        Some(d) => d.height_in(rect),
        None => 0,
    }
}

/// `after` is the dialog `d`, if any, moved onto `rect`.
pub open spec fn dlg_resized(d: Option<Dialog>, rect: Rect, after: Option<Dialog>) -> bool {
    match (d, after) {
        (Some(d), Some(a)) => d.resized_into(rect, a),
        (None, None) => true,
        _ => false,
    }
}

/// The rows the dialog `d`, if any, takes.
pub open spec fn dlg_shown(d: Option<Dialog>) -> u16 {
    match d {
        Some(d) => d.spec_display_height(),
        None => 0,
    }
}

fn dlg_max_height(d: &Option<Dialog>) -> (r: u16)
    ensures
        r == dlg_max(*d),
{
    match d {
        Some(d) => d.get_max_height(),
        None => 0,
    }
}

fn dlg_height(d: &Option<Dialog>) -> (r: u16)
    ensures
        r == dlg_shown(*d),
{
    match d {
        Some(d) => d.get_display_height(),
        None => 0,
    }
}

fn resize_dlg(d: Option<Dialog>, rect: &Rect) -> (r: Option<Dialog>)
    requires
        dlg_resize_ok(d, *rect),
    ensures
        dlg_resized(d, *rect, r),
        dlg_shown(r) == dlg_height_in(d, *rect),
{
    match d {
        Some(d) => {
            let mut d = d;
            d.resize(rect);
            Some(d)
        },
        None => None,
    }
}

impl AppView {
    /// The current tab's page, if a tab is current.
    pub open spec fn tab_page(self) -> Option<Page<TabText>> {
        if self.tabs.cursor.head < self.tabs.data@.len() {
            Some(self.tabs.data@[self.tabs.cursor.head as int].page)
        } else {
            None
        }
    }

    /// The rows the current tab's page shows, if a tab is current.
    pub open spec fn tab_height(self) -> u16 {
        match self.tab_page() {
            Some(p) => p.spec_display_height(),
            None => 0,
        }
    }

    /// The rows the flash, the dialog and the current page could fill.
    pub open spec fn heights(self) -> Seq<u16> {
        seq![dlg_max(self.flash), dlg_max(self.dialog), self.tab_height()]
    }

    /// The rows each of them gets, stacked down the frame's inner rectangle.
    pub open spec fn bounds(self) -> Seq<Rect> {
        display_bounds(self.frame.inner_rect, self.heights())
    }

    /// The rows the current page shows once moved into its rows.
    pub open spec fn tab_height_in(self) -> u16 {
        match self.tab_page() {
            Some(p) => p.height_in(self.bounds()[2]),
            None => 0,
        }
    }

    /// The rows the views take once moved into their rows.
    pub open spec fn shown_height(self) -> int {
        dlg_height_in(self.flash, self.bounds()[0]) + dlg_height_in(self.dialog, self.bounds()[1]) + self.tab_height_in()
    }

    /// The frame's text rectangle once the views are moved: the inner
    /// rectangle, as high as the views take.
    pub open spec fn shown_rect(self) -> Rect {
        Rect { h: self.shown_height() as u16, ..self.frame.inner_rect }
    }

    /// The views can be moved into the rows they get, the rows they then take
    /// fit a `u16`, and the frame can be laid out around them.
    pub open spec fn push_ok(self) -> bool {
        let b = self.bounds();
        &&& display_bounds_ok(self.frame.inner_rect, self.heights())
        &&& dlg_resize_ok(self.flash, b[0])
        &&& dlg_resize_ok(self.dialog, b[1])
        &&& (self.tab_page() matches Some(p) ==> p.resize_ok(b[2]))
        &&& self.shown_height() <= u16::MAX
        &&& self.frame.style.from_inner_ok(self.shown_rect())
    }

    /// `after` is the view with the flash, the dialog and the current page
    /// moved into the rows they get, and the frame laid out around the rows
    /// they take, to be drawn.
    pub open spec fn pushed(self, after: AppView) -> bool {
        let b = self.bounds();
        let head = self.tabs.cursor.head as int;
        &&& after.draw_frame
        &&& after.rect == self.rect
        &&& dlg_resized(self.flash, b[0], after.flash)
        &&& dlg_resized(self.dialog, b[1], after.dialog)
        &&& after.tabs.cursor == self.tabs.cursor
        &&& after.tabs.data@.len() == self.tabs.data@.len()
        &&& forall|i: int| 0 <= i < self.tabs.data@.len() && i != head ==> #[trigger] after.tabs.data@[i] == self.tabs.data@[i]
        &&& head < self.tabs.data@.len() ==> {
            &&& after.tabs.data@[head].url == self.tabs.data@[head].url
            &&& self.tabs.data@[head].page.resized_into(b[2], after.tabs.data@[head].page)
        }
        &&& after.frame == self.frame.style.spec_from_inner(self.shown_rect())
    }

    /// Moves the flash, the dialog and the current page into the rows they
    /// get in the frame, and lays the frame out around the rows they take.
    pub fn push_frame(&mut self)
        requires
            old(self).push_ok(),
        ensures
            old(self).pushed(*final(self)),
    {
        self.draw_frame = true;
        let inner = self.frame.inner_rect;
        let tab_h = match self.tabs.get() {
            Some(tab) => tab.page.get_height(),
            None => 0,
        };
        let mut heights: Vec<u16> = Vec::new();
        heights.push(dlg_max_height(&self.flash));
        heights.push(dlg_max_height(&self.dialog));
        heights.push(tab_h);
        proof {
            assert(heights@ =~= old(self).heights());
            lemma_display_bounds_len(inner, heights@);
        }
        let bounds = stack_bounds(&inner, &heights);
        let mut flash: Option<Dialog> = None;
        std::mem::swap(&mut flash, &mut self.flash);
        let flash = resize_dlg(flash, &bounds[0]);
        let mut dialog: Option<Dialog> = None;
        std::mem::swap(&mut dialog, &mut self.dialog);
        let dialog = resize_dlg(dialog, &bounds[1]);
        let page_h = match self.tabs.get_mut() {
            Some(tab) => {
                tab.page.resize(&bounds[2]);
                tab.page.get_height()
            },
            None => 0,
        };
        let mut shown = inner;
        shown.h = dlg_height(&flash) + dlg_height(&dialog) + page_h;
        self.frame = self.frame.style.build_from_inner(&shown);
        self.flash = flash;
        self.dialog = dialog;
    }
}

impl Resize for AppView {
    /// The frame can be laid out on `rect` and pushed around the views.
    open spec fn resize_ok(&self, rect: Rect) -> bool {
        &&& self.frame.style.from_outer_ok(rect)
        &&& self.moved_to(rect).push_ok()
    }

    open spec fn resized_from(&self, before: &Self, rect: Rect) -> bool {
        before.moved_to(rect).pushed(*self)
    }

    /// Moves the view onto the screen `rect`: the frame is laid out there and
    /// pushed around the views.
    fn resize(&mut self, rect: &Rect) {
        self.rect = *rect;
        self.frame = self.frame.style.build_from_outer(rect);
        self.push_frame();
    }
}

impl AppView {
    /// The view with its frame laid out again on its screen.
    pub open spec fn reframed(self) -> AppView {
        AppView { frame: self.frame.style.spec_from_outer(self.rect), ..self }
    }

    /// The view on the screen `rect` with the frame of `params`, no flash,
    /// no dialog and no tabs; the frame is laid out around no rows.
    pub fn new(rect: &Rect, params: &FrameParams) -> (r: Self)
        requires
            params.from_outer_ok(*rect),
            params.from_inner_ok(Rect { h: 0, ..params.spec_from_outer(*rect).inner_rect }),
        ensures
            r.draw_frame,
            r.rect == *rect,
            r.flash is None && r.dialog is None,
            r.tabs.cursor.head == 0 && !r.tabs.cursor.buff,
            r.tabs.data@.len() == 0,
            r.frame == params.spec_from_inner(Rect { h: 0, ..params.spec_from_outer(*rect).inner_rect }),
    {
        let mut view = AppView {
            draw_frame: true,
            frame: params.build_from_outer(rect),
            flash: None,
            dialog: None,
            tabs: CursorVec::default(),
            rect: *rect,
        };
        proof {
            reveal_with_fuel(display_bounds_ok, 4);
            reveal_with_fuel(display_bounds, 4);
            assert(view.heights() =~= seq![0u16, 0u16, 0u16]);
            assert(view.shown_rect() == Rect { h: 0, ..params.spec_from_outer(*rect).inner_rect });
        }
        view.push_frame();
        view
    }

    /// The view on the screen `rect`, its frame laid out there.
    pub open spec fn moved_to(self, rect: Rect) -> AppView {
        AppView { rect, frame: self.frame.style.spec_from_outer(rect), ..self }
    }

    /// Lays the frame out again on the screen and pushes it around the views.
    pub fn reset_frame(&mut self)
        requires
            old(self).frame.style.from_outer_ok(old(self).rect),
            old(self).reframed().push_ok(),
        ensures
            old(self).reframed().pushed(*final(self)),
    {
        self.frame = self.frame.style.build_from_outer(&self.rect);
        self.push_frame();
    }

    /// Marks the frame as drawn.
    pub fn reset_draw_state(&mut self)
        ensures
            *final(self) == (AppView { draw_frame: false, ..*old(self) }),
    {
        self.draw_frame = false;
    }

    /// Shows the flash of `params`, built in the frame laid out again on the
    /// screen, and pushes the frame around the views.
    pub fn flash(&mut self, params: DialogParams)
        requires
            old(self).frame.style.from_outer_ok(old(self).rect),
            params.build_ok(old(self).reframed().frame.inner_rect),
            forall|d: Dialog| #[trigger] params.built(old(self).reframed().frame.inner_rect, d)
                ==> (AppView { flash: Some(d), ..old(self).reframed() }).push_ok(),
        ensures
            exists|d: Dialog| #[trigger] params.built(old(self).reframed().frame.inner_rect, d)
                && (AppView { flash: Some(d), ..old(self).reframed() }).pushed(*final(self)),
    {
        self.frame = self.frame.style.build_from_outer(&self.rect);
        let d = params.build(&self.frame.inner_rect);
        let ghost built = d;
        self.flash = Some(d);
        self.push_frame();
        proof {
            assert(params.built(old(self).reframed().frame.inner_rect, built));
        }
    }

    /// Shows the dialog of `params`, built in the frame laid out again on the
    /// screen, and pushes the frame around the views.
    pub fn dialog(&mut self, params: DialogParams)
        requires
            old(self).frame.style.from_outer_ok(old(self).rect),
            params.build_ok(old(self).reframed().frame.inner_rect),
            forall|d: Dialog| #[trigger] params.built(old(self).reframed().frame.inner_rect, d)
                ==> (AppView { dialog: Some(d), ..old(self).reframed() }).push_ok(),
        ensures
            exists|d: Dialog| #[trigger] params.built(old(self).reframed().frame.inner_rect, d)
                && (AppView { dialog: Some(d), ..old(self).reframed() }).pushed(*final(self)),
    {
        self.frame = self.frame.style.build_from_outer(&self.rect);
        let d = params.build(&self.frame.inner_rect);
        let ghost built = d;
        self.dialog = Some(d);
        self.push_frame();
        proof {
            assert(params.built(old(self).reframed().frame.inner_rect, built));
        }
    }
}

/// Some tab of `tabs` shows `url`.
pub open spec fn has_url(tabs: CursorVec<Tab>, url: Seq<char>) -> bool {
    exists|i: int| 0 <= i < tabs.data@.len() && (#[trigger] tabs.data@[i]).url@ == url
}

/// `after` is `before` with the cursor moved onto the first tab that shows
/// `url`, where one does; else with `tab` inserted after the cursor and the
/// cursor moved onto it (or `tab` alone, the cursor kept, where there was no
/// tab).
pub open spec fn tabs_with(before: CursorVec<Tab>, url: Seq<char>, tab: Tab, after: CursorVec<Tab>) -> bool {
    let len = before.data@.len();
    let head = before.cursor.head;
    &&& after.cursor.buff == before.cursor.buff
    &&& if has_url(before, url) {
        &&& after.data == before.data
        &&& after.cursor.head < len
        &&& after.data@[after.cursor.head as int].url@ == url
        &&& forall|j: int| 0 <= j < after.cursor.head ==> (#[trigger] before.data@[j]).url@ != url
    } else if len == 0 {
        after.data@ == seq![tab] && after.cursor.head == head
    } else if head + 1 == len {
        after.data@ == before.data@.push(tab) && after.cursor.head == head + 1
    } else {
        after.data@ == before.data@.insert(head + 1, tab) && after.cursor.head == head + 1
    }
}

/// A tab opened for a URL is the current tab afterwards and shows that URL,
/// whether it was already open (the tabs stay as they were) or not (one tab
/// is added).
pub proof fn lemma_opened_tab_is_current(before: CursorVec<Tab>, url: Seq<char>, tab: Tab, after: CursorVec<Tab>)
    requires
        tab.url@ == url,
        before.cursor.head < before.data@.len() || (before.data@.len() == 0 && before.cursor.head == 0),
        tabs_with(before, url, tab, after),
    ensures
        after.cursor.head < after.data@.len(),
        after.data@[after.cursor.head as int].url@ == url,
        has_url(before, url) ==> after.data == before.data,
        !has_url(before, url) ==> after.data@.len() == before.data@.len() + 1,
{
    if !has_url(before, url) && before.data@.len() > 0 && before.cursor.head + 1 != before.data@.len() {
        assert(after.data@[before.cursor.head + 1] == tab);
    }
}

impl AppView {
    /// Shows the page of `params`, built in the frame laid out again on the
    /// screen, in a tab for `url`: the first tab that shows `url` becomes
    /// the current one; where none does, a new tab follows the current one
    /// and becomes current. The frame is then pushed around the views.
    pub fn tab(&mut self, url: String, params: PageParams<TabText>)
        requires
            old(self).frame.style.from_outer_ok(old(self).rect),
            old(self).tabs.data@.len() > 0 && old(self).tabs.cursor.head + 1 != old(self).tabs.data@.len()
                ==> old(self).tabs.cursor.head + 1 <= old(self).tabs.data@.len(),
            params.build_ok(old(self).reframed().frame.inner_rect),
            forall|p: Page<TabText>, t: CursorVec<Tab>|
                #[trigger] params.built(old(self).reframed().frame.inner_rect, p)
                && #[trigger] tabs_with(old(self).tabs, url@, Tab { url, page: p }, t)
                ==> (AppView { tabs: t, ..old(self).reframed() }).push_ok(),
        ensures
            exists|p: Page<TabText>, t: CursorVec<Tab>|
                #[trigger] params.built(old(self).reframed().frame.inner_rect, p)
                && #[trigger] tabs_with(old(self).tabs, url@, Tab { url, page: p }, t)
                && (AppView { tabs: t, ..old(self).reframed() }).pushed(*final(self)),
    {
        self.frame = self.frame.style.build_from_outer(&self.rect);
        let page = params.build(&self.frame.inner_rect);
        let ghost built = page;
        let key = url.clone();
        let tab = Tab { url, page };
        let ghost unit = tab;
        let is_equal = |t: &Tab| -> (b: bool)
            ensures
                b == (t.url@ == key@),
        {
            str_eq(t.url.as_str(), key.as_str())
        };
        self.tabs.insert_unique_with(is_equal, tab);
        let ghost mid = self.tabs;
        proof {
            assert(tabs_with(old(self).tabs, key@, unit, mid));
        }
        self.push_frame();
        proof {
            assert(params.built(old(self).reframed().frame.inner_rect, built));
        }
    }
}

/// The commands that blank the rows `from..to` of the columns `x..x + w`:
/// for each row, a move to its west end and a blank per column.
pub open spec fn blank_rows_ops(x: u16, w: u16, from: int, to: int) -> Seq<DrawOp>
    decreases to - from,
{
    if to <= from {
        seq![]
    } else {
        blank_rows_ops(x, w, from, to - 1) + seq![DrawOp::MoveTo(x, (to - 1) as u16)] + repeat_op(w as nat, DrawOp::Print(' '))
    }
}

/// The commands that blank `r`.
pub open spec fn blank_ops(r: Rect) -> Seq<DrawOp> {
    seq![DrawOp::MoveTo(r.x, r.y), DrawOp::Reset] + blank_rows_ops(r.x, r.w, r.y as int, r.y + r.h)
}

/// Appends the commands that blank `r`.
fn push_blank(out: &mut Vec<DrawOp>, r: &Rect)
    requires
        r.y + r.h <= u16::MAX,
    ensures
        final(out)@ == old(out)@ + blank_ops(*r),
{
    let ghost start = out@;
    out.push(DrawOp::MoveTo(r.x, r.y));
    out.push(DrawOp::Reset);
    let end = r.y + r.h;
    let mut y = r.y;
    while y < end
        invariant
            r.y <= y <= end,
            end == r.y + r.h,
            out@ == start + seq![DrawOp::MoveTo(r.x, r.y), DrawOp::Reset] + blank_rows_ops(r.x, r.w, r.y as int, y as int),
        decreases end - y,
    {
        let ghost row_start = out@;
        out.push(DrawOp::MoveTo(r.x, y));
        let mut k: u16 = 0;
        while k < r.w
            invariant
                0 <= k <= r.w,
                out@ == row_start + seq![DrawOp::MoveTo(r.x, y)] + repeat_op(k as nat, DrawOp::Print(' ')),
            decreases r.w - k,
        {
            out.push(DrawOp::Print(' '));
            k = k + 1;
            proof {
                assert(repeat_op(k as nat, DrawOp::Print(' ')) =~= repeat_op((k - 1) as nat, DrawOp::Print(' ')).push(DrawOp::Print(' ')));
            }
        }
        y = y + 1;
        proof {
            assert(out@ =~= start + seq![DrawOp::MoveTo(r.x, r.y), DrawOp::Reset] + blank_rows_ops(r.x, r.w, r.y as int, y as int));
        }
    }
}

/// The commands that draw the dialog `d`, if any.
pub open spec fn dlg_draw(d: Option<Dialog>) -> Seq<DrawOp> {
    match d {
        Some(d) => d.spec_draw(),
        None => seq![],
    }
}

/// The dialog `d`, if any, can be drawn.
pub open spec fn dlg_draw_ok(d: Option<Dialog>) -> bool {
    match d {
        Some(d) => d.draw_ok(),
        None => true,
    }
}

fn push_dlg(out: &mut Vec<DrawOp>, d: &Option<Dialog>)
    requires
        dlg_draw_ok(*d),
    ensures
        final(out)@ == old(out)@ + dlg_draw(*d),
{
    match d {
        Some(d) => {
            let mut ops = d.draw();
            out.append(&mut ops);
        },
        None => {
            proof {
                assert(out@ =~= out@ + Seq::<DrawOp>::empty());
            }
        },
    }
}

impl AppView {
    /// The rows of the screen below the frame.
    pub open spec fn below_frame(self) -> Rect {
        rows_after(self.rect, self.frame.spec_display_height())
    }

    /// The commands that draw the current tab's page, if a tab is current.
    pub open spec fn tab_draw(self) -> Seq<DrawOp> {
        match self.tab_page() {
            Some(p) => p.spec_draw(),
            None => seq![],
        }
    }
}

impl Draw for AppView {
    /// Blanks the rows below the frame, draws the frame where it is to be
    /// drawn, then the flash, the dialog and the current tab's page.
    open spec fn spec_draw(&self) -> Seq<DrawOp> {
        blank_ops(self.below_frame()) + (if self.draw_frame { self.frame.spec_draw() } else { seq![] })
            + dlg_draw(self.flash) + dlg_draw(self.dialog) + self.tab_draw()
    }

    open spec fn draw_ok(&self) -> bool {
        &&& rows_after_ok(self.rect, self.frame.spec_display_height())
        &&& self.below_frame().y + self.below_frame().h <= u16::MAX
        &&& self.draw_frame ==> self.frame.draw_ok()
        &&& dlg_draw_ok(self.flash)
        &&& dlg_draw_ok(self.dialog)
        &&& (self.tab_page() matches Some(p) ==> p.draw_ok())
    }

    fn draw(&self) -> (r: Vec<DrawOp>) {
        let mut out: Vec<DrawOp> = Vec::new();
        let below = crate::dlg::take_rows(&self.rect, self.frame.get_display_height());
        push_blank(&mut out, &below);
        if self.draw_frame {
            let mut ops = self.frame.draw();
            out.append(&mut ops);
        } else {
            proof {
                assert(out@ =~= out@ + Seq::<DrawOp>::empty());
            }
        }
        push_dlg(&mut out, &self.flash);
        push_dlg(&mut out, &self.dialog);
        match self.tabs.get() {
            Some(tab) => {
                let mut ops = tab.page.draw();
                out.append(&mut ops);
            },
            None => {
                proof {
                    assert(out@ =~= out@ + Seq::<DrawOp>::empty());
                }
            },
        }
        out
    }
}

/// The text styles of the sources of `page` in the style settings `style`.
pub open spec fn tab_styles(style: StyleConfig, page: Page<TabText>) -> Seq<TextParams> {
    Seq::new(page.source@.len(), |i: int| style.spec_tab_text_params(page.source@[i]))
}

/// The page `page` can be restyled in `style`: laid out again in the
/// rectangle its window stands on.
pub open spec fn restyle_ok(style: StyleConfig, page: Page<TabText>) -> bool {
    &&& page.page_wf()
    &&& page.rebuild_ok_with(tab_styles(style, page), page.view_rect())
}

/// `after` is `before` with each source in its text style of `style`, laid
/// out again in the rectangle its window stands on, on the general style.
pub open spec fn restyled(style: StyleConfig, before: Page<TabText>, after: Page<TabText>) -> bool {
    &&& after.styles@ == tab_styles(style, before)
    &&& after.style == style.general.style
    &&& (Page { styles: after.styles, ..before }).rebuilt_into(before.view_rect(), Page { style: before.style, ..after })
}

impl AppView {
    /// Gives the lines of every tab their text styles of `style`, on its
    /// general style.
    pub fn restyle_tabs(&mut self, style: &StyleConfig)
        requires
            forall|i: int| 0 <= i < old(self).tabs.data@.len() ==> restyle_ok(*style, #[trigger] old(self).tabs.data@[i].page),
        ensures
            final(self).tabs.cursor == old(self).tabs.cursor,
            final(self).tabs.data@.len() == old(self).tabs.data@.len(),
            forall|i: int| 0 <= i < old(self).tabs.data@.len() ==> {
                &&& (#[trigger] final(self).tabs.data@[i]).url == old(self).tabs.data@[i].url
                &&& restyled(*style, old(self).tabs.data@[i].page, final(self).tabs.data@[i].page)
            },
            final(self).draw_frame == old(self).draw_frame && final(self).rect == old(self).rect,
            final(self).frame == old(self).frame,
            final(self).flash == old(self).flash && final(self).dialog == old(self).dialog,
    {
        let mut data: Vec<Tab> = Vec::new();
        std::mem::swap(&mut data, &mut self.tabs.data);
        let ghost all = data@;
        let mut done: Vec<Tab> = Vec::new();
        while data.len() > 0
            invariant
                done@.len() + data@.len() == all.len(),
                forall|i: int| 0 <= i < data@.len() ==> #[trigger] data@[i] == all[done@.len() + i],
                forall|i: int| 0 <= i < all.len() ==> restyle_ok(*style, #[trigger] all[i].page),
                forall|i: int| 0 <= i < done@.len() ==> {
                    &&& (#[trigger] done@[i]).url == all[i].url
                    &&& restyled(*style, all[i].page, done@[i].page)
                },
            decreases data@.len(),
        {
            let k = done.len();
            let mut tab = data.remove(0);
            proof {
                assert(tab == all[k as int]);
            }
            let ghost before = tab.page;
            let get_style = |t: &TabText| -> (r: TextParams)
                ensures
                    r == style.spec_tab_text_params(*t),
            {
                style.get_tab_text_params(t)
            };
            proof {
                assert forall|s: Seq<TextParams>|
                    s.len() == before.source@.len()
                    && (forall|i: int| 0 <= i < s.len() ==> call_ensures(get_style, (&before.source@[i],), #[trigger] s[i]))
                    implies #[trigger] before.rebuild_ok_with(s, before.view_rect()) by {
                    assert(s =~= tab_styles(*style, before));
                }
            }
            tab.page.restyle(get_style);
            proof {
                assert(tab.page.styles@ =~= tab_styles(*style, before));
            }
            tab.page.style = style.general.style;
            done.push(tab);
        }
        self.tabs.data = done;
    }
}

} // verus!
