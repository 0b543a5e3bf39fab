use gbrowse::layout::{BuildView, Resize};
use gbrowse::gemini::{split_response, GemTag};
use gbrowse::user::UserConfig;
use gbrowse::tab::{doc_page, Tab, TabText};
use gbrowse::config::Blank;
use gbrowse::userstyle::StyleConfig;
use gbrowse::cursor::CursorVec;
use gbrowse::rect::Rect;
use gbrowse::layout::GetMaxHeight;
use gbrowse::draw::Draw;

#[test]
fn responses_split_after_the_status_line() {
    let (head, body) = split_response(b"20 text/gemini\r\n# Hi\r\nthere".to_vec());
    assert_eq!(head, b"20 text/gemini\r\n".to_vec());
    assert_eq!(body, Some(b"# Hi\r\nthere".to_vec()));
    let (head, body) = split_response(b"51 gone".to_vec());
    assert_eq!(head, b"51 gone".to_vec());
    assert_eq!(body, None);
    let (head, body) = split_response(b"\r\n".to_vec());
    assert_eq!(head, b"\r\n".to_vec());
    assert_eq!(body, Some(Vec::new()));
    let (_, body) = split_response(b"a\rb\n\r\nc".to_vec());
    assert_eq!(body, Some(b"c".to_vec()));
}

#[test]
fn a_url_is_saved_once() {
    let mut u = UserConfig::new(vec!["gemini://a/".to_string()]);
    assert!(u.add_url("gemini://b/"));
    assert!(!u.add_url("gemini://a/"));
    assert!(!u.add_url("gemini://b/"));
    assert_eq!(u.urls, vec!["gemini://a/".to_string(), "gemini://b/".to_string()]);
}

#[test]
fn documents_become_styled_pages() {
    let mut style = StyleConfig::initial();
    style.heading1.wrap = false;
    style.general.style.bold = true;
    let p = doc_page(&style, "# Title\n=> gemini://x link\nplain");
    assert!(p.style.bold);
    assert_eq!(p.source.len(), 3);
    assert_eq!(p.styles[0], style.heading1);
    assert_eq!(p.styles[1], style.link);
    assert_eq!(p.styles[2], style.text);
    assert!(matches!(&p.source[1], TabText::Gemini(g) if matches!(g.tag, GemTag::Link(ref u) if u == "gemini://x")));
}

#[test]
fn banner_of_no_tabs() {
    let tabs: CursorVec<Tab> = CursorVec::default();
    assert_eq!(tabs.get_banner_text(), "Empty");
}

#[test]
fn banner_counts_tabs() {
    let style = StyleConfig::initial();
    let page = doc_page(&style, "x").build(&Rect { x: 0, y: 0, w: 10, h: 5 });
    let mut tabs: CursorVec<Tab> = CursorVec::default();
    tabs.insert(Tab { url: "gemini://a/".to_string(), page });
    assert_eq!(tabs.get_banner_text(), "1/1 - gemini://a/");
}

#[test]
fn every_tab_moves_with_the_screen() {
    let style = StyleConfig::initial();
    let r = Rect { x: 0, y: 0, w: 6, h: 5 };
    let mut tabs: CursorVec<Tab> = CursorVec::default();
    assert_eq!(tabs.get_max_height(), u16::MAX);
    assert!(tabs.draw().is_empty());
    tabs.insert(Tab { url: "a".to_string(), page: doc_page(&style, "abcdef").build(&r) });
    tabs.insert(Tab { url: "b".to_string(), page: doc_page(&style, "xy").build(&r) });
    assert_eq!(tabs.get_max_height(), 1);
    tabs.resize(&Rect { x: 0, y: 2, w: 3, h: 5 });
    assert_eq!(tabs.data[0].page.get_height(), 2);
    assert_eq!(tabs.data[0].page.point_view.pos().1, 2);
    assert_eq!(tabs.data[1].page.get_height(), 1);
    assert!(!tabs.draw().is_empty());
}
