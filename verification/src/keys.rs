//! Key bindings: which key does what in the tabs, text boxes and dialogs, and
//! how the keys configuration changes them.
use vstd::prelude::*;
use crate::value::ConfigValue;
use crate::chars::{str_eq, chars_of};
use crate::config::{Blank, ConfigError, Field, FieldName, ParseProblem, TableKind, UserAssign, ValueErr};

verus! {

/// A key of the keyboard.
#[derive(Clone, Copy, Debug, PartialEq, Eq, Structural)]
pub enum KeyCode {
    Backspace,
    Enter,
    Left,
    Right,
    Up,
    Down,
    Home,
    End,
    PageUp,
    PageDown,
    Tab,
    BackTab,
    Delete,
    Insert,
    F(u8),
    Char(char),
    Null,
    Esc,
    /// Any other key: lock, media and modifier keys.
    Other,
}

/// What the user can ask for.
#[derive(Clone, Copy, Debug, PartialEq, Eq, Structural)]
pub enum Action {
    // editor
    Insert(char),
    Backspace,
    Enter,
    Delete,
    // tab
    Menu,
    LoadUrl,
    SaveUrl,
    DelTab,
    NewTab,
    CycleLeft,
    CycleRight,
    // selector
    MoveUp,
    MoveDown,
    MoveLeft,
    MoveRight,
    Top,
    Bottom,
    PageUp,
    PageDown,
    Select,
    // dialog
    Ack,
    Yes,
    No,
    Cancel,
}

impl Field for Action {
    open spec fn spec_parse(s: Seq<char>) -> Option<Self> {
        if s == "load_url"@ {
            Some(Action::LoadUrl)
        } else if s == "save_url"@ {
            Some(Action::SaveUrl)
        } else if s == "move_up"@ {
            Some(Action::MoveUp)
        } else if s == "menu"@ {
            Some(Action::Menu)
        } else if s == "move_down"@ {
            Some(Action::MoveDown)
        } else if s == "move_left"@ {
            Some(Action::MoveLeft)
        } else if s == "move_right"@ {
            Some(Action::MoveRight)
        } else if s == "cycle_left"@ {
            Some(Action::CycleLeft)
        } else if s == "cycle_right"@ {
            Some(Action::CycleRight)
        } else if s == "delete_tab"@ {
            Some(Action::DelTab)
        } else if s == "new_tab"@ {
            Some(Action::NewTab)
        } else if s == "select"@ {
            Some(Action::Select)
        } else if s == "ack"@ {
            Some(Action::Ack)
        } else if s == "yes"@ {
            Some(Action::Yes)
        } else if s == "no"@ {
            Some(Action::No)
        } else if s == "cancel"@ {
            Some(Action::Cancel)
        } else {
            None
        }
    }

    open spec fn spec_table() -> TableKind {
        TableKind::Keys
    }

    open spec fn spec_name(self) -> FieldName {
        FieldName::Key(self)
    }

    fn parse(s: &str) -> (r: Option<Self>) {
        if str_eq(s, "load_url") {
            Some(Action::LoadUrl)
        } else if str_eq(s, "save_url") {
            Some(Action::SaveUrl)
        } else if str_eq(s, "move_up") {
            Some(Action::MoveUp)
        } else if str_eq(s, "menu") {
            Some(Action::Menu)
        } else if str_eq(s, "move_down") {
            Some(Action::MoveDown)
        } else if str_eq(s, "move_left") {
            Some(Action::MoveLeft)
        } else if str_eq(s, "move_right") {
            Some(Action::MoveRight)
        } else if str_eq(s, "cycle_left") {
            Some(Action::CycleLeft)
        } else if str_eq(s, "cycle_right") {
            Some(Action::CycleRight)
        } else if str_eq(s, "delete_tab") {
            Some(Action::DelTab)
        } else if str_eq(s, "new_tab") {
            Some(Action::NewTab)
        } else if str_eq(s, "select") {
            Some(Action::Select)
        } else if str_eq(s, "ack") {
            Some(Action::Ack)
        } else if str_eq(s, "yes") {
            Some(Action::Yes)
        } else if str_eq(s, "no") {
            Some(Action::No)
        } else if str_eq(s, "cancel") {
            Some(Action::Cancel)
        } else {
            None
        }
    }

    fn table() -> (r: TableKind) {
        TableKind::Keys
    }

    fn name(&self) -> (r: FieldName) {
        FieldName::Key(*self)
    }
}

/// The key that a string of the keys configuration names: a key's name, or
/// else the string's first character.
pub open spec fn key_named(s: Seq<char>) -> Option<KeyCode> {
    if s == "esc"@ || s == "escape"@ {
        Some(KeyCode::Esc)
    } else if s == "ent"@ || s == "enter"@ {
        Some(KeyCode::Enter)
    } else if s == "space"@ {
        Some(KeyCode::Char(' '))
    } else if s == "left"@ {
        Some(KeyCode::Left)
    } else if s == "up"@ {
        Some(KeyCode::Up)
    } else if s == "down"@ {
        Some(KeyCode::Down)
    } else if s == "right"@ {
        Some(KeyCode::Right)
    } else if s == "pgdown"@ {
        Some(KeyCode::PageDown)
    } else if s == "pgup"@ {
        Some(KeyCode::PageUp)
    } else if s == "end"@ {
        Some(KeyCode::End)
    } else if s == "home"@ {
        Some(KeyCode::Home)
    } else if s.len() > 0 {
        Some(KeyCode::Char(s[0]))
    } else {
        None
    }
}

/// The key a configuration value names.
pub open spec fn spec_keycode(value: ConfigValue) -> Result<KeyCode, ValueErr> {
    match value {
        ConfigValue::String(s) => match key_named(s@) {
            Some(k) => Ok(k),
            None => Err(ValueErr::InvalidParse(ParseProblem::NoKey)),
        },
        v => Err(ValueErr::InvalidTomlType(v)),
    }
}

/// The key a configuration value names.
pub fn get_keycode(value: ConfigValue) -> (r: Result<KeyCode, ValueErr>)
    ensures
        r == spec_keycode(value),
{
    match value {
        ConfigValue::String(s) => {
            let s = s.as_str();
            if str_eq(s, "esc") || str_eq(s, "escape") {
                Ok(KeyCode::Esc)
            } else if str_eq(s, "ent") || str_eq(s, "enter") {
                Ok(KeyCode::Enter)
            } else if str_eq(s, "space") {
                Ok(KeyCode::Char(' '))
            } else if str_eq(s, "left") {
                Ok(KeyCode::Left)
            } else if str_eq(s, "up") {
                Ok(KeyCode::Up)
            } else if str_eq(s, "down") {
                Ok(KeyCode::Down)
            } else if str_eq(s, "right") {
                Ok(KeyCode::Right)
            } else if str_eq(s, "pgdown") {
                Ok(KeyCode::PageDown)
            } else if str_eq(s, "pgup") {
                Ok(KeyCode::PageUp)
            } else if str_eq(s, "end") {
                Ok(KeyCode::End)
            } else if str_eq(s, "home") {
                Ok(KeyCode::Home)
            } else {
                let cs = chars_of(s);
                if cs.len() > 0 {
                    Ok(KeyCode::Char(cs[0]))
                } else {
                    Err(ValueErr::InvalidParse(ParseProblem::NoKey))
                }
            }
        },
        v => Err(ValueErr::InvalidTomlType(v)),
    }
}

/// The key bound to each action.
#[derive(Copy, Clone, Debug, PartialEq, Eq, Structural)]
pub struct KeysTable {
    pub up: KeyCode,
    pub down: KeyCode,
    pub left: KeyCode,
    pub right: KeyCode,
    pub top: KeyCode,
    pub bottom: KeyCode,
    pub pgup: KeyCode,
    pub pgdown: KeyCode,
    pub cycle_left: KeyCode,
    pub cycle_right: KeyCode,
    pub select: KeyCode,
    pub menu: KeyCode,
    pub load_url: KeyCode,
    pub save_url: KeyCode,
    pub delete_tab: KeyCode,
    pub new_tab: KeyCode,
    pub yes: KeyCode,
    pub no: KeyCode,
    pub cancel: KeyCode,
}

/// The bindings before any configuration.
pub open spec fn default_keys() -> KeysTable {
    KeysTable {
        load_url: KeyCode::Char('u'),
        menu: KeyCode::Char('m'),
        save_url: KeyCode::Char('U'),
        delete_tab: KeyCode::Char('d'),
        new_tab: KeyCode::Char('n'),
        up: KeyCode::Up,
        down: KeyCode::Down,
        left: KeyCode::Left,
        right: KeyCode::Right,
        top: KeyCode::Home,
        bottom: KeyCode::End,
        pgup: KeyCode::PageUp,
        pgdown: KeyCode::PageDown,
        cycle_left: KeyCode::Char(','),
        cycle_right: KeyCode::Char('.'),
        select: KeyCode::Enter,
        yes: KeyCode::Char('y'),
        no: KeyCode::Char('n'),
        cancel: KeyCode::Esc,
    }
}

impl Default for KeysTable {
    fn default() -> (r: Self)
        ensures
            r == default_keys(),
    {
        KeysTable {
            load_url: KeyCode::Char('u'),
            menu: KeyCode::Char('m'),
            save_url: KeyCode::Char('U'),
            delete_tab: KeyCode::Char('d'),
            new_tab: KeyCode::Char('n'),
            up: KeyCode::Up,
            down: KeyCode::Down,
            left: KeyCode::Left,
            right: KeyCode::Right,
            top: KeyCode::Home,
            bottom: KeyCode::End,
            pgup: KeyCode::PageUp,
            pgdown: KeyCode::PageDown,
            cycle_left: KeyCode::Char(','),
            cycle_right: KeyCode::Char('.'),
            select: KeyCode::Enter,
            yes: KeyCode::Char('y'),
            no: KeyCode::Char('n'),
            cancel: KeyCode::Esc,
        }
    }
}

impl KeysTable {
    /// The bindings with `action` bound to `key`; the editing actions and
    /// `Ack` have no binding, and leave the table as it is.
    pub open spec fn bound(self, action: Action, key: KeyCode) -> KeysTable {
        match action {
            Action::LoadUrl => KeysTable { load_url: key, ..self },
            Action::SaveUrl => KeysTable { save_url: key, ..self },
            Action::Menu => KeysTable { menu: key, ..self },
            Action::MoveUp => KeysTable { up: key, ..self },
            Action::MoveDown => KeysTable { down: key, ..self },
            Action::MoveLeft => KeysTable { left: key, ..self },
            Action::MoveRight => KeysTable { right: key, ..self },
            Action::CycleLeft => KeysTable { cycle_left: key, ..self },
            Action::CycleRight => KeysTable { cycle_right: key, ..self },
            Action::DelTab => KeysTable { delete_tab: key, ..self },
            Action::NewTab => KeysTable { new_tab: key, ..self },
            Action::Select => KeysTable { select: key, ..self },
            Action::Yes => KeysTable { yes: key, ..self },
            Action::No => KeysTable { no: key, ..self },
            Action::Cancel => KeysTable { cancel: key, ..self },
            Action::Top => KeysTable { top: key, ..self },
            Action::Bottom => KeysTable { bottom: key, ..self },
            Action::PageUp => KeysTable { pgup: key, ..self },
            Action::PageDown => KeysTable { pgdown: key, ..self },
            _ => self,
        }
    }

    /// Binds `field` to the key that `value` names; on an error the table is
    /// left as it was.
    pub fn try_assign(&mut self, field: Action, value: ConfigValue) -> (r: Result<(), ValueErr>)
        ensures
            match spec_keycode(value) {
                Ok(k) => r is Ok && *final(self) == old(self).bound(field, k),
                Err(e) => r == Err::<(), ValueErr>(e) && *final(self) == *old(self),
            },
    {
        let value = match get_keycode(value) {
            Ok(k) => k,
            Err(e) => return Err(e),
        };
        match field {
            Action::LoadUrl => self.load_url = value,
            Action::SaveUrl => self.save_url = value,
            Action::Menu => self.menu = value,
            Action::MoveUp => self.up = value,
            Action::MoveDown => self.down = value,
            Action::MoveLeft => self.left = value,
            Action::MoveRight => self.right = value,
            Action::CycleLeft => self.cycle_left = value,
            Action::CycleRight => self.cycle_right = value,
            Action::DelTab => self.delete_tab = value,
            Action::NewTab => self.new_tab = value,
            Action::Select => self.select = value,
            Action::Yes => self.yes = value,
            Action::No => self.no = value,
            Action::Cancel => self.cancel = value,
            Action::Top => self.top = value,
            Action::Bottom => self.bottom = value,
            Action::PageUp => self.pgup = value,
            Action::PageDown => self.pgdown = value,
            _ => {},
        }
        Ok(())
    }

    /// The action of a key in a text box.
    pub open spec fn spec_text_box_action(self, kc: KeyCode) -> Option<Action> {
        if self.up == kc {
            Some(Action::MoveUp)
        } else if self.down == kc {
            Some(Action::MoveDown)
        } else if self.left == kc {
            Some(Action::MoveLeft)
        } else if self.right == kc {
            Some(Action::MoveRight)
        } else if self.select == kc {
            Some(Action::Select)
        } else if self.top == kc {
            Some(Action::Top)
        } else if self.bottom == kc {
            Some(Action::Bottom)
        } else if self.pgup == kc {
            Some(Action::PageUp)
        } else if self.pgdown == kc {
            Some(Action::PageDown)
        } else {
            None
        }
    }

    /// The action of a key in a tab: the tab's own keys first, then those of
    /// its text box.
    pub open spec fn spec_tab_action(self, kc: KeyCode) -> Option<Action> {
        if self.load_url == kc {
            Some(Action::LoadUrl)
        } else if self.save_url == kc {
            Some(Action::SaveUrl)
        } else if self.cycle_left == kc {
            Some(Action::CycleLeft)
        } else if self.cycle_right == kc {
            Some(Action::CycleRight)
        } else if self.delete_tab == kc {
            Some(Action::DelTab)
        } else if self.new_tab == kc {
            Some(Action::NewTab)
        } else if self.menu == kc {
            Some(Action::Menu)
        } else {
            self.spec_text_box_action(kc)
        }
    }

    /// The action of a key in a box of editable text; these keys are fixed.
    pub open spec fn spec_edit_box_action(kc: KeyCode) -> Option<Action> {
        match kc {
            KeyCode::Left => Some(Action::MoveLeft),
            KeyCode::Right => Some(Action::MoveRight),
            KeyCode::Backspace => Some(Action::Backspace),
            KeyCode::Delete => Some(Action::Delete),
            KeyCode::Enter => Some(Action::Enter),
            KeyCode::Char(c) => Some(Action::Insert(c)),
            _ => None,
        }
    }

    pub fn get_tab_action(&self, kc: &KeyCode) -> (r: Option<Action>)
        ensures
            r == self.spec_tab_action(*kc),
    {
        if self.load_url == *kc {
            Some(Action::LoadUrl)
        } else if self.save_url == *kc {
            Some(Action::SaveUrl)
        } else if self.cycle_left == *kc {
            Some(Action::CycleLeft)
        } else if self.cycle_right == *kc {
            Some(Action::CycleRight)
        } else if self.delete_tab == *kc {
            Some(Action::DelTab)
        } else if self.new_tab == *kc {
            Some(Action::NewTab)
        } else if self.menu == *kc {
            Some(Action::Menu)
        } else {
            self.get_text_box_action(kc)
        }
    }

    pub fn get_text_box_action(&self, kc: &KeyCode) -> (r: Option<Action>)
        ensures
            r == self.spec_text_box_action(*kc),
    {
        if self.up == *kc {
            Some(Action::MoveUp)
        } else if self.down == *kc {
            Some(Action::MoveDown)
        } else if self.left == *kc {
            Some(Action::MoveLeft)
        } else if self.right == *kc {
            Some(Action::MoveRight)
        } else if self.select == *kc {
            Some(Action::Select)
        } else if self.top == *kc {
            Some(Action::Top)
        } else if self.bottom == *kc {
            Some(Action::Bottom)
        } else if self.pgup == *kc {
            Some(Action::PageUp)
        } else if self.pgdown == *kc {
            Some(Action::PageDown)
        } else {
            None
        }
    }

    pub fn get_edit_box_action(&self, kc: &KeyCode) -> (r: Option<Action>)
        ensures
            r == Self::spec_edit_box_action(*kc),
    {
        match *kc {
            KeyCode::Left => Some(Action::MoveLeft),
            KeyCode::Right => Some(Action::MoveRight),
            KeyCode::Backspace => Some(Action::Backspace),
            KeyCode::Delete => Some(Action::Delete),
            KeyCode::Enter => Some(Action::Enter),
            KeyCode::Char(c) => Some(Action::Insert(c)),
            _ => None,
        }
    }

    /// Any key acknowledges a message.
    pub fn get_ack_dialog_action(&self, kc: &KeyCode) -> (r: Option<Action>)
        ensures
            r == Some(Action::Ack),
    {
        Some(Action::Ack)
    }

    pub fn get_ask_dialog_action(&self, kc: &KeyCode) -> (r: Option<Action>)
        ensures
            r == (if self.cancel == *kc {
                Some(Action::Cancel)
            } else if self.yes == *kc {
                Some(Action::Yes)
            } else if self.no == *kc {
                Some(Action::No)
            } else {
                None
            }),
    {
        if self.cancel == *kc {
            Some(Action::Cancel)
        } else if self.yes == *kc {
            Some(Action::Yes)
        } else if self.no == *kc {
            Some(Action::No)
        } else {
            None
        }
    }

    pub fn get_select_dialog_action(&self, kc: &KeyCode) -> (r: Option<Action>)
        ensures
            r == (if self.cancel == *kc { Some(Action::Cancel) } else { self.spec_text_box_action(*kc) }),
    {
        if self.cancel == *kc {
            Some(Action::Cancel)
        } else {
            self.get_text_box_action(kc)
        }
    }

    pub fn get_edit_dialog_action(&self, kc: &KeyCode) -> (r: Option<Action>)
        ensures
            r == (if self.cancel == *kc { Some(Action::Cancel) } else { Self::spec_edit_box_action(*kc) }),
    {
        if self.cancel == *kc {
            Some(Action::Cancel)
        } else {
            self.get_edit_box_action(kc)
        }
    }
}

impl UserAssign<()> for KeysTable {
    type Field = Action;

    open spec fn spec_assign(self, field: Action, value: ConfigValue, ctx: ()) -> (Self, Seq<ConfigError>) {
        match spec_keycode(value) {
            Ok(k) => (self.bound(field, k), seq![]),
            Err(e) => (self, seq![ConfigError::Invalid(FieldName::Key(field), e)]),
        }
    }

    open spec fn spec_load_context(self, entries: Seq<(String, ConfigValue)>) -> (Self, Seq<(String, ConfigValue)>) {
        (self, entries)
    }

    fn assign(&mut self, field: &Action, value: ConfigValue, ctx: &()) -> (r: Vec<ConfigError>) {
        match self.try_assign(*field, value) {
            Ok(_) => Vec::new(),
            Err(e) => vec![ConfigError::Invalid(FieldName::Key(*field), e)],
        }
    }

    fn load_context(&mut self, entries: &mut Vec<(String, ConfigValue)>) {
    }
}

impl Blank for KeysTable {
    open spec fn spec_initial() -> Self {
        default_keys()
    }

    fn initial() -> (r: Self) {
        KeysTable::default()
    }
}

} // verus!

verus! {

/// No key occurs twice in `s`.
pub open spec fn keys_distinct(s: Seq<KeyCode>) -> bool {
    forall|i: int, j: int| 0 <= i < s.len() && 0 <= j < s.len() && i != j ==> #[trigger] s[i] != #[trigger] s[j]
}

/// The keys a text box reads: up, down, left, right, select, top, bottom,
/// page up and page down.
pub open spec fn text_box_keys(t: KeysTable) -> Seq<KeyCode> {
    seq![t.up, t.down, t.left, t.right, t.select, t.top, t.bottom, t.pgup, t.pgdown]
}

/// The keys a tab reads: its own (load, save, cycle left and right, delete,
/// new tab, menu) and then those of its text box.
pub open spec fn tab_keys(t: KeysTable) -> Seq<KeyCode> {
    seq![t.load_url, t.save_url, t.cycle_left, t.cycle_right, t.delete_tab, t.new_tab, t.menu] + text_box_keys(t)
}

/// In a text box each bound key does the action it is bound to: where the
/// text box's keys are all different, the key bound to `up` moves up, the
/// one bound to `pgup` pages up, and so on for each binding; a key bound to
/// none of them does nothing.
pub proof fn lemma_text_box_keys_act(t: KeysTable, kc: KeyCode)
    requires
        keys_distinct(text_box_keys(t)),
    ensures
        t.spec_text_box_action(t.up) == Some(Action::MoveUp),
        t.spec_text_box_action(t.down) == Some(Action::MoveDown),
        t.spec_text_box_action(t.left) == Some(Action::MoveLeft),
        t.spec_text_box_action(t.right) == Some(Action::MoveRight),
        t.spec_text_box_action(t.select) == Some(Action::Select),
        t.spec_text_box_action(t.top) == Some(Action::Top),
        t.spec_text_box_action(t.bottom) == Some(Action::Bottom),
        t.spec_text_box_action(t.pgup) == Some(Action::PageUp),
        t.spec_text_box_action(t.pgdown) == Some(Action::PageDown),
        !text_box_keys(t).contains(kc) ==> t.spec_text_box_action(kc) is None,
{
    let s = text_box_keys(t);
    assert(s[0] == t.up && s[1] == t.down && s[2] == t.left && s[3] == t.right && s[4] == t.select);
    assert(s[5] == t.top && s[6] == t.bottom && s[7] == t.pgup && s[8] == t.pgdown);
    if !s.contains(kc) {
        assert(forall|i: int| 0 <= i < s.len() ==> s[i] != kc);
    }
}

/// In a tab each bound key does the action it is bound to: where the tab's
/// keys are all different, the key bound to `load_url` loads a URL, the one
/// bound to `menu` opens the menu, the text box's keys do their actions,
/// and a key bound to none of them does nothing.
pub proof fn lemma_tab_keys_act(t: KeysTable, kc: KeyCode)
    requires
        keys_distinct(tab_keys(t)),
    ensures
        t.spec_tab_action(t.load_url) == Some(Action::LoadUrl),
        t.spec_tab_action(t.save_url) == Some(Action::SaveUrl),
        t.spec_tab_action(t.cycle_left) == Some(Action::CycleLeft),
        t.spec_tab_action(t.cycle_right) == Some(Action::CycleRight),
        t.spec_tab_action(t.delete_tab) == Some(Action::DelTab),
        t.spec_tab_action(t.new_tab) == Some(Action::NewTab),
        t.spec_tab_action(t.menu) == Some(Action::Menu),
        t.spec_tab_action(t.up) == Some(Action::MoveUp),
        t.spec_tab_action(t.down) == Some(Action::MoveDown),
        t.spec_tab_action(t.left) == Some(Action::MoveLeft),
        t.spec_tab_action(t.right) == Some(Action::MoveRight),
        t.spec_tab_action(t.select) == Some(Action::Select),
        t.spec_tab_action(t.top) == Some(Action::Top),
        t.spec_tab_action(t.bottom) == Some(Action::Bottom),
        t.spec_tab_action(t.pgup) == Some(Action::PageUp),
        t.spec_tab_action(t.pgdown) == Some(Action::PageDown),
        !tab_keys(t).contains(kc) ==> t.spec_tab_action(kc) is None,
{
    let s = tab_keys(t);
    let b = text_box_keys(t);
    assert(s[0] == t.load_url && s[1] == t.save_url && s[2] == t.cycle_left && s[3] == t.cycle_right);
    assert(s[4] == t.delete_tab && s[5] == t.new_tab && s[6] == t.menu);
    assert(s[7] == t.up && s[8] == t.down && s[9] == t.left && s[10] == t.right && s[11] == t.select);
    assert(s[12] == t.top && s[13] == t.bottom && s[14] == t.pgup && s[15] == t.pgdown);
    assert forall|i: int, j: int| 0 <= i < b.len() && 0 <= j < b.len() && i != j implies #[trigger] b[i] != #[trigger] b[j] by {
        assert(b[i] == s[i + 7] && b[j] == s[j + 7]);
    }
    lemma_text_box_keys_act(t, kc);
    if !s.contains(kc) {
        assert(forall|i: int| 0 <= i < s.len() ==> s[i] != kc);
        assert(!b.contains(kc)) by {
            if b.contains(kc) {
                let i = choose|i: int| 0 <= i < b.len() && b[i] == kc;
                assert(s[i + 7] == kc);
            }
        }
    }
}

/// The default bindings give every tab key a key of its own.
pub proof fn lemma_default_tab_keys_distinct()
    ensures
        keys_distinct(tab_keys(default_keys())),
{
    let s = tab_keys(default_keys());
    assert(s =~= seq![KeyCode::Char('u'), KeyCode::Char('U'), KeyCode::Char(','), KeyCode::Char('.'),
        KeyCode::Char('d'), KeyCode::Char('n'), KeyCode::Char('m'), KeyCode::Up, KeyCode::Down,
        KeyCode::Left, KeyCode::Right, KeyCode::Enter, KeyCode::Home, KeyCode::End, KeyCode::PageUp,
        KeyCode::PageDown]);
}

/// In a box of editable text the keys are fixed: left and right move,
/// backspace and delete remove, enter enters, a character is inserted, and
/// every other key does nothing.
pub proof fn lemma_edit_box_keys(kc: KeyCode)
    ensures
        KeysTable::spec_edit_box_action(KeyCode::Left) == Some(Action::MoveLeft),
        KeysTable::spec_edit_box_action(KeyCode::Right) == Some(Action::MoveRight),
        KeysTable::spec_edit_box_action(KeyCode::Backspace) == Some(Action::Backspace),
        KeysTable::spec_edit_box_action(KeyCode::Delete) == Some(Action::Delete),
        KeysTable::spec_edit_box_action(KeyCode::Enter) == Some(Action::Enter),
        forall|c: char| #[trigger] KeysTable::spec_edit_box_action(KeyCode::Char(c)) == Some(Action::Insert(c)),
        !(kc is Left || kc is Right || kc is Backspace || kc is Delete || kc is Enter || kc is Char)
            ==> KeysTable::spec_edit_box_action(kc) is None,
{
}

/// Each key name of the keys file names its own key: `esc` and `escape` the
/// escape key, `ent` and `enter` the enter key, `space` the space bar,
/// `left`, `up`, `down`, `right`, `pgdown`, `pgup`, `end` and `home` the keys
/// of those names; any other string names its first character, and the
/// empty string names no key.
pub proof fn lemma_key_names(s: Seq<char>)
    ensures
        key_named("esc"@) == Some(KeyCode::Esc),
        key_named("escape"@) == Some(KeyCode::Esc),
        key_named("ent"@) == Some(KeyCode::Enter),
        key_named("enter"@) == Some(KeyCode::Enter),
        key_named("space"@) == Some(KeyCode::Char(' ')),
        key_named("left"@) == Some(KeyCode::Left),
        key_named("up"@) == Some(KeyCode::Up),
        key_named("down"@) == Some(KeyCode::Down),
        key_named("right"@) == Some(KeyCode::Right),
        key_named("pgdown"@) == Some(KeyCode::PageDown),
        key_named("pgup"@) == Some(KeyCode::PageUp),
        key_named("end"@) == Some(KeyCode::End),
        key_named("home"@) == Some(KeyCode::Home),
        s != "esc"@ && s != "escape"@ && s != "ent"@ && s != "enter"@ && s != "space"@ && s != "left"@
            && s != "up"@ && s != "down"@ && s != "right"@ && s != "pgdown"@ && s != "pgup"@
            && s != "end"@ && s != "home"@ ==> key_named(s) == if s.len() > 0 { Some(KeyCode::Char(s[0])) } else { None },
{
    reveal_strlit("esc");
    reveal_strlit("escape");
    reveal_strlit("ent");
    reveal_strlit("enter");
    reveal_strlit("space");
    reveal_strlit("left");
    reveal_strlit("up");
    reveal_strlit("down");
    reveal_strlit("right");
    reveal_strlit("pgdown");
    reveal_strlit("pgup");
    reveal_strlit("end");
    reveal_strlit("home");
    assert("esc"@.len() == 3 && "esc"@[0] == 'e' && "esc"@[1] == 's' && "esc"@[2] == 'c');
    assert("escape"@.len() == 6 && "escape"@[0] == 'e' && "escape"@[1] == 's' && "escape"@[2] == 'c' && "escape"@[3] == 'a' && "escape"@[4] == 'p' && "escape"@[5] == 'e');
    assert("ent"@.len() == 3 && "ent"@[0] == 'e' && "ent"@[1] == 'n' && "ent"@[2] == 't');
    assert("enter"@.len() == 5 && "enter"@[0] == 'e' && "enter"@[1] == 'n' && "enter"@[2] == 't' && "enter"@[3] == 'e' && "enter"@[4] == 'r');
    assert("space"@.len() == 5 && "space"@[0] == 's' && "space"@[1] == 'p' && "space"@[2] == 'a' && "space"@[3] == 'c' && "space"@[4] == 'e');
    assert("left"@.len() == 4 && "left"@[0] == 'l' && "left"@[1] == 'e' && "left"@[2] == 'f' && "left"@[3] == 't');
    assert("up"@.len() == 2 && "up"@[0] == 'u' && "up"@[1] == 'p');
    assert("down"@.len() == 4 && "down"@[0] == 'd' && "down"@[1] == 'o' && "down"@[2] == 'w' && "down"@[3] == 'n');
    assert("right"@.len() == 5 && "right"@[0] == 'r' && "right"@[1] == 'i' && "right"@[2] == 'g' && "right"@[3] == 'h' && "right"@[4] == 't');
    assert("pgdown"@.len() == 6 && "pgdown"@[0] == 'p' && "pgdown"@[1] == 'g' && "pgdown"@[2] == 'd' && "pgdown"@[3] == 'o' && "pgdown"@[4] == 'w' && "pgdown"@[5] == 'n');
    assert("pgup"@.len() == 4 && "pgup"@[0] == 'p' && "pgup"@[1] == 'g' && "pgup"@[2] == 'u' && "pgup"@[3] == 'p');
    assert("end"@.len() == 3 && "end"@[0] == 'e' && "end"@[1] == 'n' && "end"@[2] == 'd');
    assert("home"@.len() == 4 && "home"@[0] == 'h' && "home"@[1] == 'o' && "home"@[2] == 'm' && "home"@[3] == 'e');
}

/// Each field of the keys file is named by its own key: `load_url`,
/// `save_url`, `move_up`, `menu`, `move_down`, `move_left`, `move_right`,
/// `cycle_left`, `cycle_right`, `delete_tab`, `new_tab`, `select`, `ack`,
/// `yes`, `no` and `cancel` name the actions of those names.
pub proof fn lemma_key_field_names()
    ensures
        Action::spec_parse("load_url"@) == Some(Action::LoadUrl),
        Action::spec_parse("save_url"@) == Some(Action::SaveUrl),
        Action::spec_parse("move_up"@) == Some(Action::MoveUp),
        Action::spec_parse("menu"@) == Some(Action::Menu),
        Action::spec_parse("move_down"@) == Some(Action::MoveDown),
        Action::spec_parse("move_left"@) == Some(Action::MoveLeft),
        Action::spec_parse("move_right"@) == Some(Action::MoveRight),
        Action::spec_parse("cycle_left"@) == Some(Action::CycleLeft),
        Action::spec_parse("cycle_right"@) == Some(Action::CycleRight),
        Action::spec_parse("delete_tab"@) == Some(Action::DelTab),
        Action::spec_parse("new_tab"@) == Some(Action::NewTab),
        Action::spec_parse("select"@) == Some(Action::Select),
        Action::spec_parse("ack"@) == Some(Action::Ack),
        Action::spec_parse("yes"@) == Some(Action::Yes),
        Action::spec_parse("no"@) == Some(Action::No),
        Action::spec_parse("cancel"@) == Some(Action::Cancel),
{
    reveal_strlit("load_url");
    reveal_strlit("save_url");
    reveal_strlit("move_up");
    reveal_strlit("menu");
    reveal_strlit("move_down");
    reveal_strlit("move_left");
    reveal_strlit("move_right");
    reveal_strlit("cycle_left");
    reveal_strlit("cycle_right");
    reveal_strlit("delete_tab");
    reveal_strlit("new_tab");
    reveal_strlit("select");
    reveal_strlit("ack");
    reveal_strlit("yes");
    reveal_strlit("no");
    reveal_strlit("cancel");
    assert("load_url"@.len() == 8 && "load_url"@[0] == 'l' && "load_url"@[1] == 'o' && "load_url"@[2] == 'a' && "load_url"@[3] == 'd' && "load_url"@[4] == '_' && "load_url"@[5] == 'u' && "load_url"@[6] == 'r' && "load_url"@[7] == 'l');
    assert("save_url"@.len() == 8 && "save_url"@[0] == 's' && "save_url"@[1] == 'a' && "save_url"@[2] == 'v' && "save_url"@[3] == 'e' && "save_url"@[4] == '_' && "save_url"@[5] == 'u' && "save_url"@[6] == 'r' && "save_url"@[7] == 'l');
    assert("move_up"@.len() == 7 && "move_up"@[0] == 'm' && "move_up"@[1] == 'o' && "move_up"@[2] == 'v' && "move_up"@[3] == 'e' && "move_up"@[4] == '_' && "move_up"@[5] == 'u' && "move_up"@[6] == 'p');
    assert("menu"@.len() == 4 && "menu"@[0] == 'm' && "menu"@[1] == 'e' && "menu"@[2] == 'n' && "menu"@[3] == 'u');
    assert("move_down"@.len() == 9 && "move_down"@[0] == 'm' && "move_down"@[1] == 'o' && "move_down"@[2] == 'v' && "move_down"@[3] == 'e' && "move_down"@[4] == '_' && "move_down"@[5] == 'd' && "move_down"@[6] == 'o' && "move_down"@[7] == 'w' && "move_down"@[8] == 'n');
    assert("move_left"@.len() == 9 && "move_left"@[0] == 'm' && "move_left"@[1] == 'o' && "move_left"@[2] == 'v' && "move_left"@[3] == 'e' && "move_left"@[4] == '_' && "move_left"@[5] == 'l' && "move_left"@[6] == 'e' && "move_left"@[7] == 'f' && "move_left"@[8] == 't');
    assert("move_right"@.len() == 10 && "move_right"@[0] == 'm' && "move_right"@[1] == 'o' && "move_right"@[2] == 'v' && "move_right"@[3] == 'e' && "move_right"@[4] == '_' && "move_right"@[5] == 'r' && "move_right"@[6] == 'i' && "move_right"@[7] == 'g' && "move_right"@[8] == 'h' && "move_right"@[9] == 't');
    assert("cycle_left"@.len() == 10 && "cycle_left"@[0] == 'c' && "cycle_left"@[1] == 'y' && "cycle_left"@[2] == 'c' && "cycle_left"@[3] == 'l' && "cycle_left"@[4] == 'e' && "cycle_left"@[5] == '_' && "cycle_left"@[6] == 'l' && "cycle_left"@[7] == 'e' && "cycle_left"@[8] == 'f' && "cycle_left"@[9] == 't');
    assert("cycle_right"@.len() == 11 && "cycle_right"@[0] == 'c' && "cycle_right"@[1] == 'y' && "cycle_right"@[2] == 'c' && "cycle_right"@[3] == 'l' && "cycle_right"@[4] == 'e' && "cycle_right"@[5] == '_' && "cycle_right"@[6] == 'r' && "cycle_right"@[7] == 'i' && "cycle_right"@[8] == 'g' && "cycle_right"@[9] == 'h' && "cycle_right"@[10] == 't');
    assert("delete_tab"@.len() == 10 && "delete_tab"@[0] == 'd' && "delete_tab"@[1] == 'e' && "delete_tab"@[2] == 'l' && "delete_tab"@[3] == 'e' && "delete_tab"@[4] == 't' && "delete_tab"@[5] == 'e' && "delete_tab"@[6] == '_' && "delete_tab"@[7] == 't' && "delete_tab"@[8] == 'a' && "delete_tab"@[9] == 'b');
    assert("new_tab"@.len() == 7 && "new_tab"@[0] == 'n' && "new_tab"@[1] == 'e' && "new_tab"@[2] == 'w' && "new_tab"@[3] == '_' && "new_tab"@[4] == 't' && "new_tab"@[5] == 'a' && "new_tab"@[6] == 'b');
    assert("select"@.len() == 6 && "select"@[0] == 's' && "select"@[1] == 'e' && "select"@[2] == 'l' && "select"@[3] == 'e' && "select"@[4] == 'c' && "select"@[5] == 't');
    assert("ack"@.len() == 3 && "ack"@[0] == 'a' && "ack"@[1] == 'c' && "ack"@[2] == 'k');
    assert("yes"@.len() == 3 && "yes"@[0] == 'y' && "yes"@[1] == 'e' && "yes"@[2] == 's');
    assert("no"@.len() == 2 && "no"@[0] == 'n' && "no"@[1] == 'o');
    assert("cancel"@.len() == 6 && "cancel"@[0] == 'c' && "cancel"@[1] == 'a' && "cancel"@[2] == 'n' && "cancel"@[3] == 'c' && "cancel"@[4] == 'e' && "cancel"@[5] == 'l');
}

/// Binding an action to a key puts that key in the action's own place: the
/// key bound to `MoveUp` becomes the table's `up`, the one bound to
/// `PageUp` its `pgup`, and so on; every other binding stays.
pub proof fn lemma_bound_places(t: KeysTable, k: KeyCode)
    ensures
        t.bound(Action::LoadUrl, k) == (KeysTable { load_url: k, ..t }),
        t.bound(Action::SaveUrl, k) == (KeysTable { save_url: k, ..t }),
        t.bound(Action::Menu, k) == (KeysTable { menu: k, ..t }),
        t.bound(Action::MoveUp, k) == (KeysTable { up: k, ..t }),
        t.bound(Action::MoveDown, k) == (KeysTable { down: k, ..t }),
        t.bound(Action::MoveLeft, k) == (KeysTable { left: k, ..t }),
        t.bound(Action::MoveRight, k) == (KeysTable { right: k, ..t }),
        t.bound(Action::CycleLeft, k) == (KeysTable { cycle_left: k, ..t }),
        t.bound(Action::CycleRight, k) == (KeysTable { cycle_right: k, ..t }),
        t.bound(Action::DelTab, k) == (KeysTable { delete_tab: k, ..t }),
        t.bound(Action::NewTab, k) == (KeysTable { new_tab: k, ..t }),
        t.bound(Action::Select, k) == (KeysTable { select: k, ..t }),
        t.bound(Action::Yes, k) == (KeysTable { yes: k, ..t }),
        t.bound(Action::No, k) == (KeysTable { no: k, ..t }),
        t.bound(Action::Cancel, k) == (KeysTable { cancel: k, ..t }),
        t.bound(Action::Top, k) == (KeysTable { top: k, ..t }),
        t.bound(Action::Bottom, k) == (KeysTable { bottom: k, ..t }),
        t.bound(Action::PageUp, k) == (KeysTable { pgup: k, ..t }),
        t.bound(Action::PageDown, k) == (KeysTable { pgdown: k, ..t }),
        t.bound(Action::Ack, k) == t,
{
}

} // verus!
