use gbrowse::layout::{BuildView, Resize};
use gbrowse::rect::Rect;
use gbrowse::config::Blank;
use gbrowse::userstyle::StyleConfig;
use gbrowse::dlg::{DialogParams, DlgType};
use gbrowse::view::AppView;
use gbrowse::tab::{doc_page, TabText};
use gbrowse::draw::{Draw, DrawOp};
use gbrowse::layout::{GetDisplayHeight, GetMaxHeight};
use gbrowse::gemini::GemTag;

fn rect(x: u16, y: u16, w: u16, h: u16) -> Rect {
    Rect { x, y, w, h }
}

fn row_text(r: &Vec<char>) -> String {
    r.iter().collect()
}

#[test]
fn dialog_stacks_prompt_over_body_in_its_frame() {
    let style = StyleConfig::initial();
    let d = DialogParams::new(&style).prompt("Delete tab?").ask("y yes n no").build(&rect(0, 0, 40, 10));
    assert_eq!(d.dlg_type, DlgType::Ask);
    assert_eq!(d.frame.border_rect, rect(0, 0, 40, 4));
    assert_eq!(d.frame.inner_rect, rect(1, 1, 38, 2));
    let prompt = d.prompt.as_ref().unwrap();
    let body = d.body.as_ref().unwrap();
    assert_eq!(row_text(&prompt.matrix.data[0]), "Delete tab?");
    assert_eq!(row_text(&body.matrix.data[0]), "y yes n no");
    assert_eq!(body.point_view.pos().1, 2);
    assert_eq!(d.get_display_height(), 4);
    assert_eq!(d.get_max_height(), 4);
}

#[test]
fn acknowledgement_guide() {
    let style = StyleConfig::initial();
    let p = DialogParams::new(&style).prompt("Saved").ack();
    assert_eq!(p.dlg_type, DlgType::Ack);
    assert_eq!(p.body.as_ref().unwrap().source, vec!["Press any key to acknowledge".to_string()]);
    assert_eq!(p.prompt.as_ref().unwrap().max, None);
}

#[test]
fn edit_and_select_dialogs() {
    let style = StyleConfig::initial();
    let e = DialogParams::new(&style).prompt("URL:").edit("gemini://");
    assert_eq!(e.dlg_type, DlgType::Edit);
    assert!(e.body.as_ref().unwrap().edit);
    assert_eq!(e.prompt.as_ref().unwrap().max, Some(2));
    let s = DialogParams::new(&style).select(vec!["a".to_string(), "b".to_string()]);
    assert_eq!(s.dlg_type, DlgType::Select);
    assert_eq!(s.body.as_ref().unwrap().source.len(), 2);
    assert!(s.prompt.is_none());
}

#[test]
fn dialog_draws_frame_then_pages() {
    let style = StyleConfig::initial();
    let d = DialogParams::new(&style).prompt("Hi").ack().build(&rect(0, 0, 40, 10));
    let ops = d.draw();
    assert_eq!(ops[0], DrawOp::Reset);
    assert!(ops.contains(&DrawOp::Print('H')));
    assert!(ops.contains(&DrawOp::Print('P')));
}

#[test]
fn resized_dialog_follows_its_rectangle() {
    let style = StyleConfig::initial();
    let mut d = DialogParams::new(&style).prompt("Hi").ack().build(&rect(0, 0, 40, 10));
    d.resize(&rect(0, 5, 40, 10));
    assert_eq!(d.frame.border_rect, rect(0, 5, 40, 4));
    assert_eq!(d.body.as_ref().unwrap().point_view.pos().1, 7);
}

#[test]
fn new_view_frames_nothing() {
    let style = StyleConfig::initial();
    let v = AppView::new(&rect(0, 0, 80, 24), &style.get_frame_params());
    assert!(v.draw_frame);
    assert_eq!(v.frame.inner_rect, rect(0, 0, 80, 0));
    assert!(v.tabs.data.is_empty());
}

#[test]
fn tabs_open_once_per_url() {
    let style = StyleConfig::initial();
    let mut v = AppView::new(&rect(0, 0, 80, 24), &style.get_frame_params());
    v.tab("gemini://a/".to_string(), doc_page(&style, "# Hi\ntext"));
    assert_eq!(v.tabs.data.len(), 1);
    assert_eq!(v.frame.inner_rect, rect(0, 0, 80, 2));
    v.tab("gemini://b/".to_string(), doc_page(&style, "x"));
    assert_eq!(v.tabs.data.len(), 2);
    assert_eq!(v.tabs.cursor.head, 1);
    v.tab("gemini://a/".to_string(), doc_page(&style, "other"));
    assert_eq!(v.tabs.data.len(), 2);
    assert_eq!(v.tabs.cursor.head, 0);
    assert_eq!(v.tabs.get_banner_text(), "1/2 - gemini://a/");
    assert!(matches!(&v.tabs.data[0].page.source[0], TabText::Gemini(g) if matches!(g.tag, GemTag::HeadingOne)));
}

#[test]
fn dialog_sits_above_the_page() {
    let style = StyleConfig::initial();
    let mut v = AppView::new(&rect(0, 0, 80, 24), &style.get_frame_params());
    v.tab("gemini://a/".to_string(), doc_page(&style, "# Hi\ntext"));
    v.dialog(DialogParams::new(&style).prompt("p").ack());
    assert_eq!(v.dialog.as_ref().unwrap().frame.border_rect, rect(0, 0, 80, 4));
    assert_eq!(v.tabs.data[0].page.point_view.pos().1, 4);
    assert_eq!(v.frame.inner_rect, rect(0, 0, 80, 6));
    v.dialog = None;
    v.reset_frame();
    assert_eq!(v.frame.inner_rect, rect(0, 0, 80, 2));
    assert_eq!(v.tabs.data[0].page.point_view.pos().1, 0);
}

#[test]
fn view_blanks_below_its_frame() {
    let style = StyleConfig::initial();
    let mut v = AppView::new(&rect(0, 0, 80, 24), &style.get_frame_params());
    v.tab("gemini://a/".to_string(), doc_page(&style, "one\ntwo"));
    v.reset_draw_state();
    let ops = v.draw();
    assert_eq!(ops[0], DrawOp::MoveTo(0, 2));
    let blanks = ops.iter().filter(|o| **o == DrawOp::Print(' ')).count();
    assert!(blanks >= 80 * 22);
}

#[test]
fn resizing_the_view() {
    let style = StyleConfig::initial();
    let mut v = AppView::new(&rect(0, 0, 80, 24), &style.get_frame_params());
    v.tab("gemini://a/".to_string(), doc_page(&style, "abcdef"));
    v.resize(&rect(0, 0, 3, 10));
    assert_eq!(v.rect, rect(0, 0, 3, 10));
    assert_eq!(v.frame.inner_rect, rect(0, 0, 3, 2));
}

#[test]
fn restyling_tabs() {
    let mut style = StyleConfig::initial();
    let mut v = AppView::new(&rect(0, 0, 80, 24), &style.get_frame_params());
    v.tab("gemini://a/".to_string(), doc_page(&style, "# Hi"));
    style.heading1.wrap = false;
    style.general.style.bold = true;
    v.restyle_tabs(&style);
    assert_eq!(v.tabs.data[0].page.styles[0], style.heading1);
    assert!(v.tabs.data[0].page.style.bold);
}
