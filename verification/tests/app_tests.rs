use gbrowse::app::{Msg, Task, Focus, Event, Step, JoinStep, Selected, Fetch, get_update, decide, join_step, reply_query, select_source, fetch_step, after_delete, save_message};
use gbrowse::dlg::DlgType;
use gbrowse::keys::{Action, KeyCode, KeysTable};
use gbrowse::gemini::{GemText, GemTag, IntError};
use gbrowse::tab::TabText;
use gbrowse::constants::{menu, menu_entry, MenuEntry};

fn key(code: KeyCode) -> Event {
    Event::Key { code, control: false, press: true }
}

#[test]
fn control_c_quits_anywhere() {
    let keys = KeysTable::default();
    let e = Event::Key { code: KeyCode::Char('c'), control: true, press: true };
    assert_eq!(get_update(&keys, true, None, e), Some(Msg::Quit));
    assert_eq!(get_update(&keys, false, Some(DlgType::Edit), e), Some(Msg::Quit));
}

#[test]
fn keys_go_to_the_tabs_or_the_dialog() {
    let keys = KeysTable::default();
    assert_eq!(get_update(&keys, true, None, key(KeyCode::Char('m'))), Some(Msg::Action(Action::Menu)));
    assert_eq!(get_update(&keys, false, Some(DlgType::Edit), key(KeyCode::Char('m'))), Some(Msg::Action(Action::Insert('m'))));
    assert_eq!(get_update(&keys, false, Some(DlgType::Flash), key(KeyCode::Char('m'))), None);
    assert_eq!(get_update(&keys, false, None, key(KeyCode::Char('m'))), None);
    let released = Event::Key { code: KeyCode::Char('m'), control: false, press: false };
    assert_eq!(get_update(&keys, true, None, released), None);
    assert_eq!(get_update(&keys, true, None, Event::Resize(80, 24)), Some(Msg::Resize(80, 24)));
    assert_eq!(get_update(&keys, true, None, Event::Other), None);
}

#[test]
fn tab_messages() {
    let m = |a| Msg::Action(a);
    assert!(matches!(decide(&Focus::Tab, true, false, None, &m(Action::CycleLeft)), Step::Cycle(-1)));
    assert!(matches!(decide(&Focus::Tab, true, true, None, &m(Action::Select)), Step::SelectSource));
    assert!(matches!(decide(&Focus::Tab, true, false, None, &m(Action::Select)), Step::MovePage(Action::Select)));
    assert!(matches!(decide(&Focus::Tab, true, false, None, &m(Action::MoveDown)), Step::MovePage(Action::MoveDown)));
    assert!(matches!(decide(&Focus::Tab, false, false, None, &m(Action::Menu)), Step::Nothing));
    assert!(matches!(decide(&Focus::Tab, false, false, None, &Msg::Quit), Step::Quit));
    assert!(matches!(decide(&Focus::Tab, false, false, None, &Msg::Resize(3, 4)), Step::Resize(3, 4)));
}

#[test]
fn dialog_messages() {
    let m = |a| Msg::Action(a);
    let init = Focus::Dlg(Task::Init("gemini://x".to_string()));
    assert!(matches!(decide(&init, false, false, Some(DlgType::Edit), &m(Action::Enter)), Step::InitUrl));
    assert!(matches!(decide(&init, false, false, Some(DlgType::Edit), &m(Action::Cancel)), Step::AskExit(ref u) if u == "gemini://x"));
    assert!(matches!(decide(&init, false, false, Some(DlgType::Ask), &m(Action::No)), Step::ReenterInit(ref u) if u == "gemini://x"));
    assert!(matches!(decide(&init, false, false, Some(DlgType::Ask), &m(Action::Yes)), Step::Quit));
    let go = Focus::Dlg(Task::Go("gemini://y".to_string()));
    assert!(matches!(decide(&go, true, false, Some(DlgType::Ask), &m(Action::Yes)), Step::Go(ref u) if u == "gemini://y"));
    assert!(matches!(decide(&go, true, false, Some(DlgType::Ask), &m(Action::No)), Step::FocusTabs));
    let menu_focus = Focus::Dlg(Task::Menu);
    assert!(matches!(decide(&menu_focus, true, false, Some(DlgType::Select), &m(Action::Select)), Step::MenuChoice));
    assert!(matches!(decide(&menu_focus, true, false, Some(DlgType::Select), &m(Action::MoveDown)), Step::MoveBody(Action::MoveDown)));
    let d = Focus::Dlg(Task::Default);
    assert!(matches!(decide(&d, true, false, Some(DlgType::Ack), &m(Action::Ack)), Step::FocusTabs));
    assert!(matches!(decide(&d, true, false, Some(DlgType::Edit), &m(Action::Insert('a'))), Step::EditBody(Action::Insert('a'))));
    assert!(matches!(decide(&d, true, false, None, &m(Action::Ack)), Step::Nothing));
    assert!(matches!(decide(&Focus::Dlg(Task::DelTab), true, false, Some(DlgType::Ask), &m(Action::Yes)), Step::DeleteTab));
}

#[test]
fn responses_ask_for_what_their_status_says() {
    assert!(matches!(join_step("10 Your name?"), JoinStep::Input(ref t) if t == "Your name?"));
    assert!(matches!(join_step("31 gemini://new.place/"), JoinStep::Redirect(ref t, Ok(ref u)) if t == "gemini://new.place/" && u == "gemini://new.place/"));
    assert!(matches!(join_step("30 not a url"), JoinStep::Redirect(ref t, Err(_)) if t == "not a url"));
    assert!(matches!(join_step("60 need cert"), JoinStep::Certificate(ref t) if t == "need cert"));
    assert!(matches!(join_step("20 text/gemini"), JoinStep::Show));
    assert!(matches!(join_step("51 gone"), JoinStep::Show));
    assert!(matches!(join_step("xx"), JoinStep::Invalid(IntError::InvalidDigit)));
}

#[test]
fn replies_are_trimmed_and_encoded() {
    assert_eq!(reply_query("  two words "), "?two%20words");
    assert_eq!(reply_query(""), "?");
    assert_eq!(reply_query("a  b"), "?a%20%20b");
}

#[test]
fn selecting_lines() {
    let link = TabText::Gemini(GemText::from((GemTag::Link("x/y".to_string()), "text".to_string())));
    assert!(matches!(select_source(&link), Selected::Link(ref u) if u == "x/y"));
    let head = TabText::Gemini(GemText::heading1("h".to_string()));
    assert!(matches!(select_source(&head), Selected::Tag(GemTag::HeadingOne)));
    assert!(matches!(select_source(&TabText::Gopher("g".to_string())), Selected::Nothing));
}

#[test]
fn only_gemini_is_fetched_one_at_a_time() {
    assert!(matches!(fetch_step(None, "gemini://a.b/"), Fetch::Send));
    assert!(matches!(fetch_step(None, "http://a.b/"), Fetch::Unsupported(ref s) if s == "http"));
    assert!(matches!(fetch_step(Some("gemini://c.d/"), "gemini://a.b/"), Fetch::Busy(ref u) if u == "gemini://c.d/"));
    assert!(matches!(fetch_step(None, "nothing"), Fetch::Invalid(_)));
}

#[test]
fn menu_entries() {
    let m = menu();
    assert_eq!(m, vec!["User manual", "Change keys", "Change style", "View settings"]);
    assert_eq!(menu_entry(2), Some(MenuEntry::ChangeStyle));
    assert_eq!(menu_entry(4), None);
}

#[test]
fn after_deleting_the_last_tab_the_first_url_is_asked_again() {
    assert!(matches!(after_delete(0, "gemini://a/"), Step::ReenterInit(u) if u == "gemini://a/"));
    assert!(matches!(after_delete(2, "gemini://a/"), Step::FocusTabs));
}

#[test]
fn saving_a_url_tells_what_happened() {
    assert_eq!(save_message("gemini://a/", false, None), "URL gemini://a/ already saved");
    assert_eq!(save_message("gemini://a/", true, None), "Saved URL: gemini://a/");
    assert_eq!(save_message("gemini://a/", true, Some("could not create save file: x".to_string())), "could not create save file: x");
}
