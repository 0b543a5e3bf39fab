//! The browser's tabs: each a URL and the page of its document.
use vstd::prelude::*;
use crate::cursor::CursorVec;
use crate::gemini::{GemText, doc_of, parse_doc};
use crate::page::{PageParams, TextParams};
use crate::userstyle::StyleConfig;
use crate::chars::lines_of;
use crate::page::{Page, Shown};
use crate::chars::{decimal, push_decimal};
use crate::layout::{GetMaxHeight, BuildView, Resize};
use crate::draw::{Draw, DrawOp};
use crate::rect::Rect;

verus! {

/// A line of a tab's page.
pub enum TabText {
    Gemini(GemText),
    Gopher(String),
}

impl Shown for TabText {
    open spec fn spec_shown(&self) -> Seq<char> {
        match self {
            TabText::Gemini(g) => g.text@,
            TabText::Gopher(s) => s@,
        }
    }

    fn shown(&self) -> (r: String) {
        match self {
            TabText::Gemini(g) => g.text.clone(),
            TabText::Gopher(s) => s.clone(),
        }
    }
}

/// A tab: the URL it shows, serialized, and the page of its document.
pub struct Tab {
    pub url: String,
    pub page: Page<TabText>,
}

/// The text of the banner over the tabs: the position of the current tab
/// among them and its URL, or that there is none.
pub open spec fn banner_text(tabs: CursorVec<Tab>) -> Seq<char> {
    if tabs.cursor.head < tabs.data@.len() {
        decimal((tabs.cursor.head + 1) as nat) + "/"@ + decimal(tabs.data@.len()) + " - "@
            + tabs.data@[tabs.cursor.head as int].url@
    } else {
        "Empty"@
    }
}

impl CursorVec<Tab> {
    /// The banner's text: `position/count - url`, or `Empty`.
    pub fn get_banner_text(&self) -> (r: String)
        ensures
            r@ == banner_text(*self),
    {
        match self.get() {
            None => String::from_str("Empty"),
            Some(tab) => {
                let n = self.data.len();
                assert(self.cursor.head < n);
                let mut s = String::new();
                push_decimal(&mut s, self.cursor.head + 1);
                s.append("/");
                push_decimal(&mut s, n);
                s.append(" - ");
                s.append(tab.url.as_str());
                proof {
                    assert(s@ =~= banner_text(*self));
                }
                s
            },
        }
    }
}

/// The page parameters of the Gemini document `content`: a line of the page
/// per line of the document, each in the text style of its kind, on the
/// general style.
pub fn doc_page(style: &StyleConfig, content: &str) -> (r: PageParams<TabText>)
    ensures
        r.style == style.general.style,
        r.max is None && !r.edit && !r.draw_point,
        r.source@.len() == doc_of(lines_of(content@), false).len(),
        r.styles@.len() == r.source@.len(),
        forall|i: int| 0 <= i < r.source@.len() ==> ((#[trigger] r.source@[i]) matches TabText::Gemini(g)
            && g@ == doc_of(lines_of(content@), false)[i]),
        forall|i: int| 0 <= i < r.source@.len() ==> #[trigger] r.styles@[i] == style.spec_tag_params(doc_of(lines_of(content@), false)[i].0),
{
    let gems = parse_doc(content);
    let ghost doc = doc_of(lines_of(content@), false);
    let mut texts: Vec<TabText> = Vec::new();
    let mut gems = gems;
    let ghost all = gems@;
    while gems.len() > 0
        invariant
            all.len() == doc.len(),
            forall|i: int| 0 <= i < all.len() ==> (#[trigger] all[i])@ == doc[i],
            texts@.len() + gems@.len() == all.len(),
            forall|i: int| 0 <= i < gems@.len() ==> #[trigger] gems@[i] == all[texts@.len() + i],
            forall|i: int| 0 <= i < texts@.len() ==> ((#[trigger] texts@[i]) matches TabText::Gemini(g) && g@ == doc[i]),
        decreases gems@.len(),
    {
        let g = gems.remove(0);
        proof {
            assert(g == all[texts@.len() as int]);
        }
        texts.push(TabText::Gemini(g));
    }
    let get_style = |t: &TabText| -> (r: TextParams)
        ensures
            r == style.spec_tab_text_params(*t),
    {
        style.get_tab_text_params(t)
    };
    PageParams::init().style(style.general.style).text_styles(texts, get_style)
}

impl GetMaxHeight for CursorVec<Tab> {
    /// The rows the current tab's page shows; with no current tab, as many
    /// as there are.
    open spec fn spec_max_height(&self) -> u16 {
        if self.cursor.head < self.data@.len() {
            self.data@[self.cursor.head as int].page.spec_display_height()
        } else {
            u16::MAX
        }
    }

    fn get_max_height(&self) -> (r: u16) {
        match self.get() {
            Some(tab) => tab.page.get_height(),
            None => u16::MAX,
        }
    }
}

impl Draw for CursorVec<Tab> {
    /// The current tab's page, if any.
    open spec fn spec_draw(&self) -> Seq<DrawOp> {
        if self.cursor.head < self.data@.len() {
            self.data@[self.cursor.head as int].page.spec_draw()
        } else {
            seq![]
        }
    }

    open spec fn draw_ok(&self) -> bool {
        self.cursor.head < self.data@.len() ==> self.data@[self.cursor.head as int].page.draw_ok()
    }

    fn draw(&self) -> (r: Vec<DrawOp>) {
        match self.get() {
            Some(tab) => tab.page.draw(),
            None => Vec::new(),
        }
    }
}

impl Resize for CursorVec<Tab> {
    /// Every tab's page can move into `rect`.
    open spec fn resize_ok(&self, rect: Rect) -> bool {
        forall|i: int| 0 <= i < self.data@.len() ==> (#[trigger] self.data@[i]).page.resize_ok(rect)
    }

    /// Every tab's page moved into `rect`, the cursor kept.
    open spec fn resized_from(&self, before: &Self, rect: Rect) -> bool {
        &&& self.cursor == before.cursor
        &&& self.data@.len() == before.data@.len()
        &&& forall|i: int| 0 <= i < before.data@.len() ==> {
            &&& (#[trigger] self.data@[i]).url == before.data@[i].url
            &&& before.data@[i].page.resized_into(rect, self.data@[i].page)
        }
    }

    /// Moves every tab's page into `rect`.
    fn resize(&mut self, rect: &Rect) {
        let mut data: Vec<Tab> = Vec::new();
        std::mem::swap(&mut data, &mut self.data);
        let ghost all = data@;
        let mut done: Vec<Tab> = Vec::new();
        while data.len() > 0
            invariant
                done@.len() + data@.len() == all.len(),
                forall|i: int| 0 <= i < data@.len() ==> #[trigger] data@[i] == all[done@.len() + i],
                forall|i: int| 0 <= i < all.len() ==> (#[trigger] all[i]).page.resize_ok(*rect),
                forall|i: int| 0 <= i < done@.len() ==> {
                    &&& (#[trigger] done@[i]).url == all[i].url
                    &&& all[i].page.resized_into(*rect, done@[i].page)
                },
            decreases data@.len(),
        {
            let k = done.len();
            let mut tab = data.remove(0);
            proof {
                assert(tab == all[k as int]);
            }
            tab.page.resize(rect);
            done.push(tab);
        }
        self.data = done;
    }
}

} // verus!
