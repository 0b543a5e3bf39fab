//! The browser's decisions: which message a terminal event makes, what a
//! message asks of the tabs or the dialog in focus, and what a response asks
//! for.
use vstd::prelude::*;
use crate::keys::{Action, KeyCode, KeysTable, keys_distinct, text_box_keys, lemma_text_box_keys_act};
use crate::gemini::{IntError, Status, StatusText, status_parts};
use crate::links::{UrlError, parse_url, url_parse};
use crate::dlg::DlgType;
use crate::chars::{trim, trimmed, chars_of, push_char, str_eq};
use crate::links::{url_scheme, scheme_part};
use crate::tab::TabText;
use crate::gemini::GemTag;

verus! {

/// What the browser is asked to do.
#[derive(Copy, Clone, Debug, PartialEq, Eq, Structural)]
pub enum Msg {
    Quit,
    Action(Action),
    Resize(u16, u16),
}

/// What a dialog was opened for; the URLs are serialized.
#[derive(Clone, Debug)]
pub enum Task {
    Default,
    NewTab,
    DelTab,
    Menu,
    ChangeStyle,
    ChangeKeys,
    Init(String),
    Reply(String),
    Go(String),
}

/// Where the keys go: to the tabs, or to a dialog opened for a task.
#[derive(Clone, Debug)]
pub enum Focus {
    Tab,
    Dlg(Task),
}

/// A terminal event, as far as the browser reads it.
#[derive(Copy, Clone, Debug, PartialEq, Eq, Structural)]
pub enum Event {
    Resize(u16, u16),
    Key { code: KeyCode, control: bool, press: bool },
    Other,
}

impl KeysTable {
    /// The action of a key in a dialog of the kind `dlg_type`; a flash
    /// takes no keys.
    pub open spec fn spec_dlg_action(self, dlg_type: DlgType, kc: KeyCode) -> Option<Action> {
        match dlg_type {
            DlgType::Ack => Some(Action::Ack),
            DlgType::Ask => if self.cancel == kc {
                Some(Action::Cancel)
            } else if self.yes == kc {
                Some(Action::Yes)
            } else if self.no == kc {
                Some(Action::No)
            } else {
                None
            },
            DlgType::Edit => if self.cancel == kc { Some(Action::Cancel) } else { Self::spec_edit_box_action(kc) },
            DlgType::Select => if self.cancel == kc { Some(Action::Cancel) } else { self.spec_text_box_action(kc) },
            DlgType::Flash => None,
        }
    }

    pub fn get_dlg_action(&self, dlg_type: &DlgType, kc: &KeyCode) -> (r: Option<Action>)
        ensures
            r == self.spec_dlg_action(*dlg_type, *kc),
    {
        match dlg_type {
            DlgType::Ack => self.get_ack_dialog_action(kc),
            DlgType::Ask => self.get_ask_dialog_action(kc),
            DlgType::Edit => self.get_edit_dialog_action(kc),
            DlgType::Select => self.get_select_dialog_action(kc),
            DlgType::Flash => None,
        }
    }
}

/// The message that `event` makes: a resize, a quit on control-c, or the
/// action that a pressed key has where the keys go.
pub open spec fn spec_get_update(keys: KeysTable, tab_focus: bool, dialog: Option<DlgType>, event: Event) -> Option<Msg> {
    match event {
        Event::Resize(w, h) => Some(Msg::Resize(w, h)),
        Event::Key { code, control, press } => if control && code == KeyCode::Char('c') {
            Some(Msg::Quit)
        } else if press {
            if tab_focus {
                match keys.spec_tab_action(code) {
                    Some(a) => Some(Msg::Action(a)),
                    None => None,
                }
            } else {
                match dialog {
                    Some(d) => match keys.spec_dlg_action(d, code) {
                        Some(a) => Some(Msg::Action(a)),
                        None => None,
                    },
                    None => None,
                }
            }
        } else {
            None
        },
        Event::Other => None,
    }
}

/// The message that `event` makes, the keys going to the tabs when
/// `tab_focus` holds and else to the dialog `dialog`.
pub fn get_update(keys: &KeysTable, tab_focus: bool, dialog: Option<DlgType>, event: Event) -> (r: Option<Msg>)
    ensures
        r == spec_get_update(*keys, tab_focus, dialog, event),
{
    match event {
        Event::Resize(w, h) => Some(Msg::Resize(w, h)),
        Event::Key { code, control, press } => if control && code == KeyCode::Char('c') {
            Some(Msg::Quit)
        } else if press {
            if tab_focus {
                match keys.get_tab_action(&code) {
                    Some(a) => Some(Msg::Action(a)),
                    None => None,
                }
            } else {
                match dialog {
                    Some(d) => match keys.get_dlg_action(&d, &code) {
                        Some(a) => Some(Msg::Action(a)),
                        None => None,
                    },
                    None => None,
                }
            }
        } else {
            None
        },
        Event::Other => None,
    }
}

/// What a message asks for.
#[derive(Clone, Debug)]
pub enum Step {
    /// Leave the browser.
    Quit,
    /// Lay the view out on a screen of this size, and clear it.
    Resize(u16, u16),
    /// Save the current tab's URL.
    SaveUrl,
    /// Follow the link on the current tab's selected line, or tell what the
    /// line is.
    SelectSource,
    /// Move through the tabs, wrapping around.
    Cycle(isize),
    /// Offer the saved URLs to open.
    ChooseUrl,
    /// Offer the menu.
    ShowMenu,
    /// Ask for a URL to open.
    EnterUrl,
    /// Ask whether to delete the current tab.
    AskDeleteTab,
    /// Move through the current tab's page.
    MovePage(Action),
    /// Open the saved URL chosen in the dialog.
    OpenSavedUrl,
    /// Read the keys file chosen in the dialog.
    LoadKeys,
    /// Read the style file chosen in the dialog.
    LoadStyle,
    /// Do what the chosen menu entry says.
    MenuChoice,
    /// Open the URL typed in the dialog as the first page.
    InitUrl,
    /// Ask whether to leave, keeping the first URL.
    AskExit(String),
    /// Ask again for the first URL, offering this one.
    ReenterInit(String),
    /// Send the typed text as the query of this URL.
    Reply(String),
    /// Open the URL typed in the dialog.
    OpenUrl,
    /// Open this URL.
    Go(String),
    /// Delete the current tab.
    DeleteTab,
    /// Give the keys back to the tabs.
    FocusTabs,
    /// Edit the dialog's text.
    EditBody(Action),
    /// Move through the dialog's options.
    MoveBody(Action),
    /// Nothing to do.
    Nothing,
}

/// What a message asks for while the tabs have the keys and one is open
/// (`has_source`: its selected line has a source).
pub open spec fn tab_step(action: Action, has_source: bool) -> Step {
    match action {
        Action::SaveUrl => Step::SaveUrl,
        Action::Select => if has_source { Step::SelectSource } else { Step::MovePage(action) },
        Action::CycleLeft => Step::Cycle(-1isize),
        Action::CycleRight => Step::Cycle(1isize),
        Action::LoadUrl => Step::ChooseUrl,
        Action::Menu => Step::ShowMenu,
        Action::NewTab => Step::EnterUrl,
        Action::DelTab => Step::AskDeleteTab,
        _ => Step::MovePage(action),
    }
}

/// What an action asks for in a dialog of the kind `d` opened for `task`.
pub open spec fn dlg_step(task: Task, action: Action, d: DlgType) -> Step {
    match (task, action, d) {
        (Task::NewTab, Action::Select, DlgType::Select) => Step::OpenSavedUrl,
        (Task::ChangeKeys, Action::Select, DlgType::Select) => Step::LoadKeys,
        (Task::ChangeStyle, Action::Select, DlgType::Select) => Step::LoadStyle,
        (Task::Menu, Action::Select, DlgType::Select) => Step::MenuChoice,
        (Task::Init(_), Action::Enter, _) => Step::InitUrl,
        (Task::Init(u), Action::Cancel, DlgType::Edit) => Step::AskExit(u),
        (Task::Init(u), Action::Cancel, _) => Step::ReenterInit(u),
        (Task::Init(u), Action::No, _) => Step::ReenterInit(u),
        (Task::Reply(u), Action::Enter, _) => Step::Reply(u),
        (Task::NewTab, Action::Enter, _) => Step::OpenUrl,
        (Task::Init(_), Action::Yes, _) => Step::Quit,
        (Task::Go(u), Action::Yes, _) => Step::Go(u),
        (Task::DelTab, Action::Yes, _) => Step::DeleteTab,
        (_, _, DlgType::Ack) => Step::FocusTabs,
        (_, Action::Select, _) => Step::FocusTabs,
        (_, Action::No, _) => Step::FocusTabs,
        (_, Action::Cancel, _) => Step::FocusTabs,
        (_, a, DlgType::Edit) => Step::EditBody(a),
        (_, a, _) => Step::MoveBody(a),
    }
}

/// What a message asks for: `has_tab` whether a tab is open, `has_source`
/// whether its selected line has a source, `dialog` the kind of the open
/// dialog where it has a body.
pub open spec fn spec_decide(focus: Focus, has_tab: bool, has_source: bool, dialog: Option<DlgType>, msg: Msg) -> Step {
    match msg {
        Msg::Quit => Step::Quit,
        Msg::Resize(w, h) => Step::Resize(w, h),
        Msg::Action(a) => match focus {
            Focus::Tab => if has_tab { tab_step(a, has_source) } else { Step::Nothing },
            Focus::Dlg(task) => match dialog {
                Some(d) => dlg_step(task, a, d),
                None => Step::Nothing,
            },
        },
    }
}

/// What an action asks for in a dialog.
fn decide_dlg(task: &Task, action: Action, d: DlgType) -> (r: Step)
    ensures
        r == dlg_step(*task, action, d),
{
    match (task, action, d) {
        (Task::NewTab, Action::Select, DlgType::Select) => Step::OpenSavedUrl,
        (Task::ChangeKeys, Action::Select, DlgType::Select) => Step::LoadKeys,
        (Task::ChangeStyle, Action::Select, DlgType::Select) => Step::LoadStyle,
        (Task::Menu, Action::Select, DlgType::Select) => Step::MenuChoice,
        (Task::Init(_), Action::Enter, _) => Step::InitUrl,
        (Task::Init(u), Action::Cancel, DlgType::Edit) => Step::AskExit(u.clone()),
        (Task::Init(u), Action::Cancel, _) => Step::ReenterInit(u.clone()),
        (Task::Init(u), Action::No, _) => Step::ReenterInit(u.clone()),
        (Task::Reply(u), Action::Enter, _) => Step::Reply(u.clone()),
        (Task::NewTab, Action::Enter, _) => Step::OpenUrl,
        (Task::Init(_), Action::Yes, _) => Step::Quit,
        (Task::Go(u), Action::Yes, _) => Step::Go(u.clone()),
        (Task::DelTab, Action::Yes, _) => Step::DeleteTab,
        (_, _, DlgType::Ack) => Step::FocusTabs,
        (_, Action::Select, _) => Step::FocusTabs,
        (_, Action::No, _) => Step::FocusTabs,
        (_, Action::Cancel, _) => Step::FocusTabs,
        (_, a, DlgType::Edit) => Step::EditBody(a),
        (_, a, _) => Step::MoveBody(a),
    }
}

/// What a message asks for.
pub fn decide(focus: &Focus, has_tab: bool, has_source: bool, dialog: Option<DlgType>, msg: &Msg) -> (r: Step)
    ensures
        r == spec_decide(*focus, has_tab, has_source, dialog, *msg),
{
    match *msg {
        Msg::Quit => Step::Quit,
        Msg::Resize(w, h) => Step::Resize(w, h),
        Msg::Action(a) => match focus {
            Focus::Tab => if has_tab {
                match a {
                    Action::SaveUrl => Step::SaveUrl,
                    Action::Select => if has_source { Step::SelectSource } else { Step::MovePage(a) },
                    Action::CycleLeft => Step::Cycle(-1isize),
                    Action::CycleRight => Step::Cycle(1isize),
                    Action::LoadUrl => Step::ChooseUrl,
                    Action::Menu => Step::ShowMenu,
                    Action::NewTab => Step::EnterUrl,
                    Action::DelTab => Step::AskDeleteTab,
                    _ => Step::MovePage(a),
                }
            } else {
                Step::Nothing
            },
            Focus::Dlg(task) => match dialog {
                Some(d) => decide_dlg(task, a, d),
                None => Step::Nothing,
            },
        },
    }
}

/// What a response asks for.
#[derive(Debug)]
pub enum JoinStep {
    /// The status line is no Gemini status line.
    Invalid(IntError),
    /// Ask the user for input with this prompt.
    Input(String),
    /// Offer to follow the redirect that the text names, to the URL it
    /// parses to, or tell that it is invalid.
    Redirect(String, Result<String, UrlError>),
    /// Tell the user that a certificate is needed.
    Certificate(String),
    /// Show the document in a tab.
    Show,
}

/// What the response with the status line `response` asks for.
pub fn join_step(response: &str) -> (r: JoinStep)
    ensures
        match Status::spec_try_from(status_parts(response@).0) {
            Err(e) => r == JoinStep::Invalid(e),
            Ok(tag) => {
                let text = status_parts(response@).1;
                match tag {
                    Status::InputExpected | Status::InputExpectedSensitive => r matches JoinStep::Input(t) && t@ == text,
                    Status::RedirectTemporary | Status::RedirectPermanent => r matches JoinStep::Redirect(t, u) && t@ == text && match u {
                        Ok(x) => url_parse(text) == Ok::<Seq<char>, bool>(x@),
                        Err(_) => url_parse(text) is Err,
                    },
                    Status::CertRequiredClient | Status::CertRequiredTransient | Status::CertRequiredAuthorized => r matches JoinStep::Certificate(t) && t@ == text,
                    _ => r matches JoinStep::Show,
                }
            },
        },
{
    match StatusText::try_from_str(response) {
        Err(e) => JoinStep::Invalid(e),
        Ok(st) => match st.tag {
            Status::InputExpected | Status::InputExpectedSensitive => JoinStep::Input(st.text),
            Status::RedirectTemporary | Status::RedirectPermanent => {
                let target = parse_url(st.text.as_str());
                JoinStep::Redirect(st.text, target)
            },
            Status::CertRequiredClient | Status::CertRequiredTransient | Status::CertRequiredAuthorized => JoinStep::Certificate(st.text),
            _ => JoinStep::Show,
        },
    }
}

/// `s` with each blank written `%20`.
pub open spec fn spaces_encoded(s: Seq<char>) -> Seq<char>
    decreases s.len(),
{
    if s.len() == 0 {
        seq![]
    } else {
        let head = if s[0] == ' ' { seq!['%', '2', '0'] } else { seq![s[0]] };
        head + spaces_encoded(s.drop_first())
    }
}

proof fn lemma_spaces_encoded_push(s: Seq<char>, c: char)
    ensures
        spaces_encoded(s.push(c)) == spaces_encoded(s) + (if c == ' ' { seq!['%', '2', '0'] } else { seq![c] }),
    decreases s.len(),
{
    if s.len() == 0 {
        assert(s.push(c).drop_first() =~= Seq::<char>::empty());
        assert(spaces_encoded(Seq::<char>::empty()) == Seq::<char>::empty());
    } else {
        assert(s.push(c).drop_first() =~= s.drop_first().push(c));
        lemma_spaces_encoded_push(s.drop_first(), c);
    }
}

/// The query that a reply to an input request sends: `?`, then the reply
/// without white space at either end and with each blank written `%20`.
pub fn reply_query(text: &str) -> (r: String)
    ensures
        r@ == seq!['?'] + spaces_encoded(trimmed(text@)),
{
    let t = trim(text);
    let cs = chars_of(t.as_str());
    let mut out = String::new();
    push_char(&mut out, '?');
    let mut i: usize = 0;
    while i < cs.len()
        invariant
            0 <= i <= cs@.len(),
            cs@ == trimmed(text@),
            out@ == seq!['?'] + spaces_encoded(cs@.take(i as int)),
        decreases cs.len() - i,
    {
        proof {
            assert(cs@.take(i + 1) =~= cs@.take(i as int).push(cs@[i as int]));
            lemma_spaces_encoded_push(cs@.take(i as int), cs@[i as int]);
        }
        if cs[i] == ' ' {
            push_char(&mut out, '%');
            push_char(&mut out, '2');
            push_char(&mut out, '0');
        } else {
            push_char(&mut out, cs[i]);
        }
        i = i + 1;
        proof {
            assert(out@ =~= seq!['?'] + spaces_encoded(cs@.take(i as int)));
        }
    }
    proof {
        assert(cs@.take(cs@.len() as int) =~= cs@);
    }
    out
}

/// What selecting a line of a tab asks for.
#[derive(Debug)]
pub enum Selected {
    /// Follow the link to this URL, as written on the line.
    Link(String),
    /// Tell the kind of the line.
    Tag(GemTag),
    /// Tell that nothing was selected.
    Nothing,
}

/// What selecting the line `source` asks for: to follow it where it is a
/// link, else to tell its kind.
pub fn select_source(source: &TabText) -> (r: Selected)
    ensures
        match source {
            TabText::Gemini(g) => match g.tag {
                GemTag::Link(l) => r matches Selected::Link(s) && s@ == l@,
                _ => r matches Selected::Tag(t) && t@ == g.tag@,
            },
            _ => r matches Selected::Nothing,
        },
{
    match source {
        TabText::Gemini(g) => match &g.tag {
            GemTag::Link(link) => Selected::Link(link.clone()),
            GemTag::HeadingOne => Selected::Tag(GemTag::HeadingOne),
            GemTag::HeadingTwo => Selected::Tag(GemTag::HeadingTwo),
            GemTag::HeadingThree => Selected::Tag(GemTag::HeadingThree),
            GemTag::Text => Selected::Tag(GemTag::Text),
            GemTag::PreFormat => Selected::Tag(GemTag::PreFormat),
            GemTag::ListItem => Selected::Tag(GemTag::ListItem),
            GemTag::Quote => Selected::Tag(GemTag::Quote),
        },
        _ => Selected::Nothing,
    }
}

/// What a request for a URL asks for.
#[derive(Debug)]
pub enum Fetch {
    /// Another request, for this URL, is still pending.
    Busy(String),
    /// The URL cannot be read, for this reason.
    Invalid(UrlError),
    /// The URL's scheme, named here, is not served.
    Unsupported(String),
    /// Send the request.
    Send,
}

/// What a request for `url` asks for, `pending` the URL of a request that
/// is still pending, if any: only Gemini URLs are fetched, one at a time.
pub fn fetch_step(pending: Option<&str>, url: &str) -> (r: Fetch)
    ensures
        match pending {
            Some(p) => r matches Fetch::Busy(u) && u@ == p@,
            None => match url_parse(url@) {
                Err(_) => r is Invalid,
                Ok(u) => if scheme_part(u) == "gemini"@ {
                    r is Send
                } else {
                    r matches Fetch::Unsupported(t) && t@ == scheme_part(u)
                },
            },
        },
{
    match pending {
        Some(p) => Fetch::Busy(p.to_string()),
        None => match url_scheme(url) {
            Err(e) => Fetch::Invalid(e),
            Ok(s) => if str_eq(s.as_str(), "gemini") {
                Fetch::Send
            } else {
                Fetch::Unsupported(s)
            },
        },
    }
}

/// What follows deleting a tab: with tabs left, the keys go back to them;
/// with none, the first URL is asked for again, `init_url` offered.
pub fn after_delete(tabs_left: usize, init_url: &str) -> (r: Step)
    ensures
        tabs_left == 0 ==> (r matches Step::ReenterInit(u) && u@ == init_url@),
        tabs_left > 0 ==> r is FocusTabs,
{
    if tabs_left == 0 {
        Step::ReenterInit(init_url.to_string())
    } else {
        Step::FocusTabs
    }
}

/// The message that saving `url` shows: that it was saved already, else the
/// problem writing the save file, if any, else that it was saved.
pub fn save_message(url: &str, added: bool, write_error: Option<String>) -> (r: String)
    ensures
        r@ == if !added {
            "URL "@ + url@ + " already saved"@
        } else {
            match write_error {
                Some(e) => e@,
                None => "Saved URL: "@ + url@,
            }
        },
{
    if !added {
        let mut m = String::from_str("URL ");
        m.append(url);
        m.append(" already saved");
        m
    } else {
        match write_error {
            Some(e) => e,
            None => {
                let mut m = String::from_str("Saved URL: ");
                m.append(url);
                m
            },
        }
    }
}

} // verus!

verus! {

/// In a dialog each bound key does what it is bound to: any key
/// acknowledges a message; in a question, where cancel, yes and no have
/// keys of their own, those keys cancel, say yes and say no and any other
/// does nothing; in a list, the cancel key cancels and, where it and the
/// text box's keys are all different, each text box key does its action;
/// in an edit, the cancel key cancels and every other key edits as the
/// fixed edit keys say; a flash takes no keys.
pub proof fn lemma_dialog_keys_act(t: KeysTable, kc: KeyCode)
    ensures
        t.spec_dlg_action(DlgType::Ack, kc) == Some(Action::Ack),
        t.spec_dlg_action(DlgType::Flash, kc) is None,
        t.spec_dlg_action(DlgType::Ask, t.cancel) == Some(Action::Cancel),
        t.spec_dlg_action(DlgType::Select, t.cancel) == Some(Action::Cancel),
        t.spec_dlg_action(DlgType::Edit, t.cancel) == Some(Action::Cancel),
        keys_distinct(seq![t.cancel, t.yes, t.no]) ==> {
            &&& t.spec_dlg_action(DlgType::Ask, t.yes) == Some(Action::Yes)
            &&& t.spec_dlg_action(DlgType::Ask, t.no) == Some(Action::No)
        },
        kc != t.cancel && kc != t.yes && kc != t.no ==> t.spec_dlg_action(DlgType::Ask, kc) is None,
        keys_distinct(seq![t.cancel] + text_box_keys(t)) ==> {
            &&& t.spec_dlg_action(DlgType::Select, t.up) == Some(Action::MoveUp)
            &&& t.spec_dlg_action(DlgType::Select, t.down) == Some(Action::MoveDown)
            &&& t.spec_dlg_action(DlgType::Select, t.left) == Some(Action::MoveLeft)
            &&& t.spec_dlg_action(DlgType::Select, t.right) == Some(Action::MoveRight)
            &&& t.spec_dlg_action(DlgType::Select, t.select) == Some(Action::Select)
            &&& t.spec_dlg_action(DlgType::Select, t.top) == Some(Action::Top)
            &&& t.spec_dlg_action(DlgType::Select, t.bottom) == Some(Action::Bottom)
            &&& t.spec_dlg_action(DlgType::Select, t.pgup) == Some(Action::PageUp)
            &&& t.spec_dlg_action(DlgType::Select, t.pgdown) == Some(Action::PageDown)
        },
        kc != t.cancel ==> t.spec_dlg_action(DlgType::Edit, kc) == KeysTable::spec_edit_box_action(kc),
{
    let a = seq![t.cancel, t.yes, t.no];
    if keys_distinct(a) {
        assert(a[0] == t.cancel && a[1] == t.yes && a[2] == t.no);
    }
    let s = seq![t.cancel] + text_box_keys(t);
    let b = text_box_keys(t);
    if keys_distinct(s) {
        assert(s[0] == t.cancel);
        assert forall|i: int| 0 <= i < b.len() implies #[trigger] s[i + 1] == b[i] by {}
        assert forall|i: int, j: int| 0 <= i < b.len() && 0 <= j < b.len() && i != j implies #[trigger] b[i] != #[trigger] b[j] by {
            assert(s[i + 1] == b[i] && s[j + 1] == b[j]);
        }
        lemma_text_box_keys_act(t, kc);
        assert(b[0] == t.up && b[1] == t.down && b[2] == t.left && b[3] == t.right && b[4] == t.select);
        assert(b[5] == t.top && b[6] == t.bottom && b[7] == t.pgup && b[8] == t.pgdown);
        assert(s[1] == t.up && s[2] == t.down && s[3] == t.left && s[4] == t.right && s[5] == t.select);
        assert(s[6] == t.top && s[7] == t.bottom && s[8] == t.pgup && s[9] == t.pgdown);
    }
}

} // verus!

verus! {

/// What each key's action asks of the tabs: cycling left and right moves
/// one tab back and on, save saves the URL, load offers the saved URLs, the
/// menu key the menu, new tab asks for a URL, delete tab asks whether to
/// delete it, select follows the selected line's source where it has one,
/// and the moving actions move through the page; with no tab open nothing
/// happens. A quit or a resize is done wherever the keys go.
pub proof fn lemma_tab_steps(focus: Focus, has_source: bool, dialog: Option<DlgType>, a: Action, w: u16, h: u16)
    ensures
        spec_decide(focus, true, has_source, dialog, Msg::Quit) == Step::Quit,
        spec_decide(focus, true, has_source, dialog, Msg::Resize(w, h)) == Step::Resize(w, h),
        spec_decide(Focus::Tab, true, has_source, dialog, Msg::Action(Action::CycleLeft)) == Step::Cycle(-1isize),
        spec_decide(Focus::Tab, true, has_source, dialog, Msg::Action(Action::CycleRight)) == Step::Cycle(1isize),
        spec_decide(Focus::Tab, true, has_source, dialog, Msg::Action(Action::SaveUrl)) == Step::SaveUrl,
        spec_decide(Focus::Tab, true, has_source, dialog, Msg::Action(Action::LoadUrl)) == Step::ChooseUrl,
        spec_decide(Focus::Tab, true, has_source, dialog, Msg::Action(Action::Menu)) == Step::ShowMenu,
        spec_decide(Focus::Tab, true, has_source, dialog, Msg::Action(Action::NewTab)) == Step::EnterUrl,
        spec_decide(Focus::Tab, true, has_source, dialog, Msg::Action(Action::DelTab)) == Step::AskDeleteTab,
        spec_decide(Focus::Tab, true, true, dialog, Msg::Action(Action::Select)) == Step::SelectSource,
        spec_decide(Focus::Tab, true, false, dialog, Msg::Action(Action::Select)) == Step::MovePage(Action::Select),
        (a is MoveUp || a is MoveDown || a is MoveLeft || a is MoveRight || a is PageUp || a is PageDown || a is Top || a is Bottom)
            ==> spec_decide(Focus::Tab, true, has_source, dialog, Msg::Action(a)) == Step::MovePage(a),
        spec_decide(Focus::Tab, false, has_source, dialog, Msg::Action(a)) == Step::Nothing,
{
}

/// What each answer in a dialog asks for: yes to deleting a tab deletes it,
/// yes to a link opens it, yes to leaving quits; enter on the first URL
/// opens it, on a query sends it, on a new tab's URL opens it; no, or
/// cancel outside an edit, asks again for the first URL, and cancel in its
/// edit asks whether to leave; selecting in a list opens the saved URL,
/// reads the keys or style file, or takes the menu entry that the list was
/// opened for; any key on a message, and select, no or cancel elsewhere,
/// gives the keys back to the tabs; with no dialog nothing happens.
pub proof fn lemma_dialog_steps(u: String, d: DlgType, a: Action, has_source: bool)
    ensures
        spec_decide(Focus::Dlg(Task::DelTab), true, has_source, Some(d), Msg::Action(Action::Yes)) == Step::DeleteTab,
        spec_decide(Focus::Dlg(Task::Go(u)), true, has_source, Some(d), Msg::Action(Action::Yes)) == Step::Go(u),
        spec_decide(Focus::Dlg(Task::Init(u)), true, has_source, Some(d), Msg::Action(Action::Yes)) == Step::Quit,
        spec_decide(Focus::Dlg(Task::Init(u)), true, has_source, Some(d), Msg::Action(Action::Enter)) == Step::InitUrl,
        spec_decide(Focus::Dlg(Task::Init(u)), true, has_source, Some(d), Msg::Action(Action::No)) == Step::ReenterInit(u),
        spec_decide(Focus::Dlg(Task::Init(u)), true, has_source, Some(DlgType::Edit), Msg::Action(Action::Cancel)) == Step::AskExit(u),
        d != DlgType::Edit ==> spec_decide(Focus::Dlg(Task::Init(u)), true, has_source, Some(d), Msg::Action(Action::Cancel)) == Step::ReenterInit(u),
        spec_decide(Focus::Dlg(Task::Reply(u)), true, has_source, Some(d), Msg::Action(Action::Enter)) == Step::Reply(u),
        spec_decide(Focus::Dlg(Task::NewTab), true, has_source, Some(d), Msg::Action(Action::Enter)) == Step::OpenUrl,
        spec_decide(Focus::Dlg(Task::NewTab), true, has_source, Some(DlgType::Select), Msg::Action(Action::Select)) == Step::OpenSavedUrl,
        spec_decide(Focus::Dlg(Task::ChangeKeys), true, has_source, Some(DlgType::Select), Msg::Action(Action::Select)) == Step::LoadKeys,
        spec_decide(Focus::Dlg(Task::ChangeStyle), true, has_source, Some(DlgType::Select), Msg::Action(Action::Select)) == Step::LoadStyle,
        spec_decide(Focus::Dlg(Task::Menu), true, has_source, Some(DlgType::Select), Msg::Action(Action::Select)) == Step::MenuChoice,
        spec_decide(Focus::Dlg(Task::Default), true, has_source, Some(DlgType::Ack), Msg::Action(a)) == Step::FocusTabs,
        spec_decide(Focus::Dlg(Task::Default), true, has_source, Some(d), Msg::Action(Action::Select)) == Step::FocusTabs,
        spec_decide(Focus::Dlg(Task::Default), true, has_source, Some(d), Msg::Action(Action::No)) == Step::FocusTabs,
        spec_decide(Focus::Dlg(Task::Default), true, has_source, Some(d), Msg::Action(Action::Cancel)) == Step::FocusTabs,
        spec_decide(Focus::Dlg(Task::Default), true, has_source, None, Msg::Action(a)) == Step::Nothing,
{
}

} // verus!
