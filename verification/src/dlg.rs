//! Dialogs: a prompt above a body, in a frame of their own.
use vstd::prelude::*;
use crate::rect::{Rect, shift_fits};
use crate::signed::{signed16, wrap16};
use crate::layout::{min16, display_bounds, display_bounds_ok, stack_bounds, GetDisplayHeight, GetMaxHeight, BuildView, Resize};
use crate::frame::{Frame, FrameParams};
use crate::page::{PageParams, Page, TextParams};
use crate::userstyle::StyleConfig;
use crate::color::Style;
use crate::draw::{Draw, DrawOp};

verus! {

/// The kinds of dialog.
#[derive(Copy, Clone, Debug, PartialEq, Eq, Structural)]
pub enum DlgType {
    Ack,
    Ask,
    Edit,
    Select,
    Flash,
}

/// The guide that an acknowledgement shows.
pub const ACK_GUIDE: &'static str = "Press any key to acknowledge";

/// The page parameters of `p` hold the texts `texts`, each in the default
/// text style, in the page style `style`, with the limit `max`, edited as
/// `edit` says, the point not drawn.
pub open spec fn text_page(p: PageParams<String>, texts: Seq<Seq<char>>, style: Style, max: Option<u16>, edit: bool) -> bool {
    &&& p.source@.len() == texts.len()
    &&& forall|i: int| 0 <= i < texts.len() ==> (#[trigger] p.source@[i])@ == texts[i]
    &&& p.styles@.len() == texts.len()
    &&& forall|i: int| 0 <= i < texts.len() ==> (#[trigger] p.styles@[i]) == (TextParams {
        style: Style { underline: false, bold: false, fg: None, bg: None },
        wrap: true,
    })
    &&& p.style == style
    &&& p.max == max
    &&& p.edit == edit
    &&& !p.draw_point
}

/// How a dialog is to be built: its frame, its kind, the styles of its
/// prompt and body, and the pages of its prompt and body, if any.
pub struct DialogParams {
    pub frame: FrameParams,
    pub dlg_type: DlgType,
    pub prompt_style: Style,
    pub body_style: Style,
    pub prompt: Option<PageParams<String>>,
    pub body: Option<PageParams<String>>,
}

/// The page parameters of one line of text.
fn one_line(text: &str, style: Style, max: Option<u16>, edit: bool) -> (r: PageParams<String>)
    ensures
        text_page(r, seq![text@], style, max, edit),
{
    let mut v: Vec<String> = Vec::new();
    v.push(text.to_string());
    let p = PageParams::init().text(v).style(style).edit(edit);
    PageParams { max, ..p }
}

impl DialogParams {
    /// A flash in the dialog frame of `style`, with neither prompt nor body.
    pub fn new(style: &StyleConfig) -> (r: Self)
        ensures
            r.frame == style.spec_dialog_frame_params(),
            r.dlg_type == DlgType::Flash,
            r.prompt_style == style.dialog_prompt.style,
            r.body_style == style.dialog_body.style,
            r.prompt is None,
            r.body is None,
    {
        DialogParams {
            frame: style.get_dialog_frame_params(),
            dlg_type: DlgType::Flash,
            prompt_style: style.dialog_prompt.style,
            body_style: style.dialog_body.style,
            prompt: None,
            body: None,
        }
    }

    /// The prompt `prompt`, on at most two rows, in the prompt style.
    pub fn prompt(self, prompt: &str) -> (r: Self)
        ensures
            r.prompt matches Some(p) && text_page(p, seq![prompt@], self.prompt_style, Some(2u16), false),
            r.frame == self.frame && r.dlg_type == self.dlg_type,
            r.prompt_style == self.prompt_style && r.body_style == self.body_style,
            r.body == self.body,
    {
        let p = one_line(prompt, self.prompt_style, Some(2), false);
        DialogParams { prompt: Some(p), ..self }
    }

    /// The prompt, if any, in the body style and without a limit, and the
    /// guide `guide` as the body, on at most two rows in the prompt style.
    fn with_guide(self, guide: &str, dlg_type: DlgType) -> (r: Self)
        ensures
            r.dlg_type == dlg_type,
            r.body matches Some(b) && text_page(b, seq![guide@], self.prompt_style, Some(2u16), false),
            match self.prompt {
                Some(p) => r.prompt matches Some(q) && q == (PageParams { style: self.body_style, max: None, ..p }),
                None => r.prompt is None,
            },
            r.frame == self.frame,
            r.prompt_style == self.prompt_style && r.body_style == self.body_style,
    {
        let body_style = self.body_style;
        let prompt_style = self.prompt_style;
        let prompt = match self.prompt {
            Some(p) => Some(PageParams { style: body_style, max: None, ..p }),
            None => None,
        };
        let body = one_line(guide, prompt_style, Some(2), false);
        DialogParams { prompt, body: Some(body), dlg_type, ..self }
    }

    /// An acknowledgement: the prompt, if any, in the body style, and the
    /// guide that asks for any key.
    pub fn ack(self) -> (r: Self)
        ensures
            r.dlg_type == DlgType::Ack,
            r.body matches Some(b) && text_page(b, seq![ACK_GUIDE@], self.prompt_style, Some(2u16), false),
            match self.prompt {
                Some(p) => r.prompt matches Some(q) && q == (PageParams { style: self.body_style, max: None, ..p }),
                None => r.prompt is None,
            },
            r.frame == self.frame,
            r.prompt_style == self.prompt_style && r.body_style == self.body_style,
    {
        self.with_guide(ACK_GUIDE, DlgType::Ack)
    }

    /// A question: the prompt, if any, in the body style, and the guide
    /// `guide` that names the keys that answer it.
    pub fn ask(self, guide: &str) -> (r: Self)
        ensures
            r.dlg_type == DlgType::Ask,
            r.body matches Some(b) && text_page(b, seq![guide@], self.prompt_style, Some(2u16), false),
            match self.prompt {
                Some(p) => r.prompt matches Some(q) && q == (PageParams { style: self.body_style, max: None, ..p }),
                None => r.prompt is None,
            },
            r.frame == self.frame,
            r.prompt_style == self.prompt_style && r.body_style == self.body_style,
    {
        self.with_guide(guide, DlgType::Ask)
    }

    /// A text to edit: `text` as the body, edited, in the body style.
    pub fn edit(self, text: &str) -> (r: Self)
        ensures
            r.dlg_type == DlgType::Edit,
            r.body matches Some(b) && text_page(b, seq![text@], self.body_style, None, true),
            r.prompt == self.prompt && r.frame == self.frame,
            r.prompt_style == self.prompt_style && r.body_style == self.body_style,
    {
        let b = one_line(text, self.body_style, None, true);
        DialogParams { body: Some(b), dlg_type: DlgType::Edit, ..self }
    }

    /// A choice: the options `options` as the body, in the body style.
    pub fn select(self, options: Vec<String>) -> (r: Self)
        ensures
            r.dlg_type == DlgType::Select,
            r.body matches Some(b) && b.source == options && b.style == self.body_style
                && b.max is None && !b.edit && !b.draw_point
                && b.styles@.len() == options@.len()
                && forall|i: int| 0 <= i < options@.len() ==> (#[trigger] b.styles@[i]) == (TextParams {
                    style: Style { underline: false, bold: false, fg: None, bg: None },
                    wrap: true,
                }),
            r.prompt == self.prompt && r.frame == self.frame,
            r.prompt_style == self.prompt_style && r.body_style == self.body_style,
    {
        let b = PageParams::init().text(options).style(self.body_style);
        DialogParams { body: Some(b), dlg_type: DlgType::Select, ..self }
    }
}

/// `rect` without its first `h` rows (all of them, where it has fewer), as
/// a view showing `h` rows at its top leaves it.
pub open spec fn rows_after(rect: Rect, h: u16) -> Rect {
    let d = signed16(min16(h, rect.h));
    Rect { y: wrap16(signed16(rect.y) + d), h: wrap16(signed16(rect.h) - d), ..rect }
}

/// The arithmetic of `rows_after` stays within `i16`.
pub open spec fn rows_after_ok(rect: Rect, h: u16) -> bool {
    let d = signed16(min16(h, rect.h));
    &&& d != i16::MIN
    &&& shift_fits(rect.y, rect.h, (-d) as i16)
}

/// The rows of `rect` below a view that shows `h` rows at its top.
pub fn take_rows(rect: &Rect, h: u16) -> (r: Rect)
    requires
        rows_after_ok(*rect, h),
    ensures
        r == rows_after(*rect, h),
{
    let vheight = if h < rect.height() { h } else { rect.height() };
    #[verifier::truncate]
    let d = vheight as i16;
    proof {
        assert(d as int == signed16(vheight)) by (bit_vector)
            requires d == vheight as i16;
    }
    rect.shift_north(d * -1)
}

/// The rows that the page of `p`, if any, shows at `width`.
pub open spec fn opt_height(p: Option<PageParams<String>>, width: nat) -> u16 {
    match p {
        Some(p) => p.spec_height(width),
        None => 0,
    }
}

/// The page of `p`, if any, can be built in `rect`.
pub open spec fn opt_build_ok(p: Option<PageParams<String>>, rect: Rect) -> bool {
    match p {
        Some(p) => p.build_ok(rect),
        None => true,
    }
}

/// `v` is the page built of `p` in `rect`, or nothing where `p` is nothing.
pub open spec fn opt_built(p: Option<PageParams<String>>, rect: Rect, v: Option<Page<String>>) -> bool {
    match (p, v) {
        (Some(p), Some(v)) => p.built(rect, v),
        (None, None) => true,
        _ => false,
    }
}

/// The rows that the page `v`, if any, shows.
pub open spec fn opt_page_height(v: Option<Page<String>>) -> u16 {
    match v {
        Some(v) => v.spec_display_height(),
        None => 0,
    }
}

/// The page `v`, if any, can be moved into `rect`.
pub open spec fn opt_resize_ok(v: Option<Page<String>>, rect: Rect) -> bool {
    match v {
        Some(v) => v.resize_ok(rect),
        None => true,
    }
}

/// The rows that the page `v`, if any, shows once moved into `rect`.
pub open spec fn opt_height_in(v: Option<Page<String>>, rect: Rect) -> u16 {
    match v {
        Some(v) => v.height_in(rect),
        None => 0,
    }
}

/// `after` is what moving the page `v`, if any, into `rect` makes of it.
pub open spec fn opt_resized(v: Option<Page<String>>, rect: Rect, after: Option<Page<String>>) -> bool {
    match (v, after) {
        (Some(v), Some(a)) => v.resized_into(rect, a),
        (None, None) => true,
        _ => false,
    }
}

/// The page of `p`, if any, built in `rect`.
fn build_opt(p: Option<PageParams<String>>, rect: &Rect) -> (r: Option<Page<String>>)
    requires
        opt_build_ok(p, *rect),
    ensures
        opt_built(p, *rect, r),
        opt_page_height(r) == opt_height(p, rect.w as nat),
{
    match p {
        Some(p) => Some(p.build(rect)),
        None => None,
    }
}

/// The page `v`, if any, moved into `rect`.
fn resize_opt(v: Option<Page<String>>, rect: &Rect) -> (r: Option<Page<String>>)
    requires
        opt_resize_ok(v, *rect),
    ensures
        opt_resized(v, *rect, r),
{
    match v {
        Some(p) => {
            let mut p = p;
            p.resize(rect);
            Some(p)
        },
        None => None,
    }
}

/// The rows that the page `v`, if any, shows.
fn page_height(v: &Option<Page<String>>) -> (r: u16)
    ensures
        r == opt_page_height(*v),
{
    match v {
        Some(p) => p.get_height(),
        None => 0,
    }
}

/// A dialog laid out on the screen: its frame, its kind, and its prompt and
/// body pages, if any.
pub struct Dialog {
    pub frame: Frame,
    pub dlg_type: DlgType,
    pub prompt: Option<Page<String>>,
    pub body: Option<Page<String>>,
}

impl DialogParams {
    /// The rectangle inside the frame laid out on `rect`.
    pub open spec fn inner_in(self, rect: Rect) -> Rect {
        self.frame.spec_from_outer(rect).inner_rect
    }

    /// The rows the prompt shows there.
    pub open spec fn prompt_height(self, rect: Rect) -> u16 {
        opt_height(self.prompt, self.inner_in(rect).w as nat)
    }

    /// The rows left to the body below the prompt.
    pub open spec fn body_rect(self, rect: Rect) -> Rect {
        rows_after(self.inner_in(rect), self.prompt_height(rect))
    }

    /// The rows the body shows.
    pub open spec fn body_height(self, rect: Rect) -> u16 {
        opt_height(self.body, self.inner_in(rect).w as nat)
    }

    /// The text rectangle of the built dialog: the inner rectangle, as high
    /// as the prompt and the body together.
    pub open spec fn shown_in(self, rect: Rect) -> Rect {
        Rect { h: (self.prompt_height(rect) + self.body_height(rect)) as u16, ..self.inner_in(rect) }
    }

}

impl BuildView<Dialog> for DialogParams {
    /// The dialog can be built on `rect`: its frame can be laid out there,
    /// its pages can be built in the rows they get, the rows they show fit a
    /// `u16`, and the frame can be laid out around them.
    open spec fn build_ok(self, rect: Rect) -> bool {
        &&& self.frame.from_outer_ok(rect)
        &&& opt_build_ok(self.prompt, self.inner_in(rect))
        &&& rows_after_ok(self.inner_in(rect), self.prompt_height(rect))
        &&& opt_build_ok(self.body, self.body_rect(rect))
        &&& self.prompt_height(rect) + self.body_height(rect) <= u16::MAX
        &&& self.frame.from_inner_ok(self.shown_in(rect))
    }

    /// `d` is the dialog built on `rect`: the prompt built at the top of the
    /// frame's inner rectangle, the body in the rows below it, and the frame
    /// laid out around the rows they show.
    open spec fn built(self, rect: Rect, d: Dialog) -> bool {
        &&& d.dlg_type == self.dlg_type
        &&& opt_built(self.prompt, self.inner_in(rect), d.prompt)
        &&& opt_built(self.body, self.body_rect(rect), d.body)
        &&& d.frame == self.frame.spec_from_inner(self.shown_in(rect))
    }

    /// The dialog of these parameters on `rect`.
    fn build(self, rect: &Rect) -> (r: Dialog)
    {
        let frame = self.frame.build_from_outer(rect);
        let inner = frame.inner_rect;
        let prompt = build_opt(self.prompt, &inner);
        let ph = page_height(&prompt);
        let below = take_rows(&inner, ph);
        let body = build_opt(self.body, &below);
        let bh = page_height(&body);
        let mut shown = inner;
        shown.h = ph + bh;
        let frame = self.frame.build_from_inner(&shown);
        Dialog { frame, dlg_type: self.dlg_type, prompt, body }
    }
}

impl GetDisplayHeight for Dialog {
    /// The rows the dialog's frame takes.
    open spec fn spec_display_height(&self) -> u16 {
        self.frame.spec_display_height()
    }

    fn get_display_height(&self) -> (r: u16) {
        self.frame.get_display_height()
    }
}

impl GetMaxHeight for Dialog {
    /// The rows the dialog could fill: the rows its prompt and body show and
    /// the rows its frame takes around them, at most `u16::MAX`.
    open spec fn spec_max_height(&self) -> u16 {
        let frame_rows = self.spec_display_height().saturating_sub(self.frame.inner_rect.h);
        opt_page_height(self.prompt).saturating_add(opt_page_height(self.body)).saturating_add(frame_rows)
    }

    fn get_max_height(&self) -> (r: u16) {
        let frame_rows = self.get_display_height().saturating_sub(self.frame.inner_rect.h);
        page_height(&self.prompt).saturating_add(page_height(&self.body)).saturating_add(frame_rows)
    }
}

/// The commands that draw the page `v`, if any.
pub open spec fn opt_draw(v: Option<Page<String>>) -> Seq<DrawOp> {
    match v {
        Some(p) => p.spec_draw(),
        None => seq![],
    }
}

/// The page `v`, if any, can be drawn.
pub open spec fn opt_draw_ok(v: Option<Page<String>>) -> bool {
    match v {
        Some(p) => p.draw_ok(),
        None => true,
    }
}

/// Appends the commands that draw the page `v`, if any.
fn push_draw(out: &mut Vec<DrawOp>, v: &Option<Page<String>>)
    requires
        opt_draw_ok(*v),
    ensures
        final(out)@ == old(out)@ + opt_draw(*v),
{
    match v {
        Some(p) => {
            let mut ops = p.draw();
            out.append(&mut ops);
        },
        None => {
            proof {
                assert(out@ =~= out@ + Seq::<DrawOp>::empty());
            }
        },
    }
}

impl Draw for Dialog {
    open spec fn spec_draw(&self) -> Seq<DrawOp> {
        self.frame.spec_draw() + opt_draw(self.prompt) + opt_draw(self.body)
    }

    open spec fn draw_ok(&self) -> bool {
        &&& self.frame.draw_ok()
        &&& opt_draw_ok(self.prompt)
        &&& opt_draw_ok(self.body)
    }

    /// Draws the frame, then the prompt, then the body.
    fn draw(&self) -> (r: Vec<DrawOp>) {
        let mut out = self.frame.draw();
        push_draw(&mut out, &self.prompt);
        push_draw(&mut out, &self.body);
        out
    }
}

impl Dialog {
    /// The rows the prompt and the body show now.
    pub open spec fn heights(self) -> Seq<u16> {
        seq![opt_page_height(self.prompt), opt_page_height(self.body)]
    }

    /// The rectangle inside the frame laid out again on `rect`.
    pub open spec fn inner_in(self, rect: Rect) -> Rect {
        self.frame.style.spec_from_outer(rect).inner_rect
    }

    /// The rows the prompt and the body get there, stacked as they show now.
    pub open spec fn bounds_in(self, rect: Rect) -> Seq<Rect> {
        display_bounds(self.inner_in(rect), self.heights())
    }

    /// The text rectangle once moved onto `rect`: the inner rectangle, as
    /// high as the prompt and the body show once moved.
    pub open spec fn shown_in(self, rect: Rect) -> Rect {
        let b = self.bounds_in(rect);
        Rect { h: (opt_height_in(self.prompt, b[0]) + opt_height_in(self.body, b[1])) as u16, ..self.inner_in(rect) }
    }

    /// `after` is the dialog moved onto `rect`: the prompt and the body moved
    /// into the rows they get, and the frame laid out around the rows they
    /// show.
    pub open spec fn resized_into(self, rect: Rect, after: Dialog) -> bool {
        let b = self.bounds_in(rect);
        &&& after.dlg_type == self.dlg_type
        &&& opt_resized(self.prompt, b[0], after.prompt)
        &&& opt_resized(self.body, b[1], after.body)
        &&& after.frame == self.frame.style.spec_from_inner(self.shown_in(rect))
        &&& after.spec_display_height() == self.height_in(rect)
    }

    /// The rows the dialog takes once moved onto `rect`.
    pub open spec fn height_in(self, rect: Rect) -> u16 {
        self.frame.style.spec_from_inner(self.shown_in(rect)).spec_display_height()
    }
}

impl Resize for Dialog {
    /// The dialog can be moved onto `rect`: its frame can be laid out there,
    /// the prompt and the body can be moved into the rows they get, the
    /// rows they then show fit a `u16`, and the frame can be laid out
    /// around them.
    open spec fn resize_ok(&self, rect: Rect) -> bool {
        let b = self.bounds_in(rect);
        &&& self.frame.style.from_outer_ok(rect)
        &&& display_bounds_ok(self.inner_in(rect), self.heights())
        &&& opt_resize_ok(self.prompt, b[0])
        &&& opt_resize_ok(self.body, b[1])
        &&& opt_height_in(self.prompt, b[0]) + opt_height_in(self.body, b[1]) <= u16::MAX
        &&& self.frame.style.from_inner_ok(self.shown_in(rect))
    }

    open spec fn resized_from(&self, before: &Self, rect: Rect) -> bool {
        before.resized_into(rect, *self)
    }

    /// Moves the dialog onto `rect`.
    fn resize(&mut self, rect: &Rect)
    {
        let params = self.frame.style;
        let frame = params.build_from_outer(rect);
        let inner = frame.inner_rect;
        let mut heights: Vec<u16> = Vec::new();
        heights.push(page_height(&self.prompt));
        heights.push(page_height(&self.body));
        proof {
            assert(heights@ =~= self.heights());
            crate::layout::lemma_display_bounds_len(inner, heights@);
        }
        let bounds = stack_bounds(&inner, &heights);
        let mut prompt: Option<Page<String>> = None;
        std::mem::swap(&mut prompt, &mut self.prompt);
        let prompt = resize_opt(prompt, &bounds[0]);
        let mut body: Option<Page<String>> = None;
        std::mem::swap(&mut body, &mut self.body);
        let body = resize_opt(body, &bounds[1]);
        let mut shown = inner;
        shown.h = page_height(&prompt) + page_height(&body);
        self.frame = params.build_from_inner(&shown);
        self.prompt = prompt;
        self.body = body;
    }
}

} // verus!
