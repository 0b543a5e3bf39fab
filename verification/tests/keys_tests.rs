use gbrowse::keys::{Action, KeyCode, KeysTable, get_keycode};
use gbrowse::config::{update_from_table, ConfigError, TableKind, ValueErr, ParseProblem};
use gbrowse::value::ConfigValue;

fn s(text: &str) -> ConfigValue {
    ConfigValue::String(text.to_string())
}

#[test]
fn default_keys_bind_the_tab_actions() {
    let keys = KeysTable::default();
    assert_eq!(keys.get_tab_action(&KeyCode::Char('u')), Some(Action::LoadUrl));
    assert_eq!(keys.get_tab_action(&KeyCode::Char('U')), Some(Action::SaveUrl));
    assert_eq!(keys.get_tab_action(&KeyCode::Char('m')), Some(Action::Menu));
    assert_eq!(keys.get_tab_action(&KeyCode::Char(',')), Some(Action::CycleLeft));
    assert_eq!(keys.get_tab_action(&KeyCode::Char('.')), Some(Action::CycleRight));
    assert_eq!(keys.get_tab_action(&KeyCode::Enter), Some(Action::Select));
    assert_eq!(keys.get_tab_action(&KeyCode::Home), Some(Action::Top));
    assert_eq!(keys.get_tab_action(&KeyCode::Char('z')), None);
}

#[test]
fn tab_keys_come_before_text_box_keys() {
    let mut keys = KeysTable::default();
    assert!(keys.try_assign(Action::MoveUp, s("n")).is_ok());
    assert_eq!(keys.get_tab_action(&KeyCode::Char('n')), Some(Action::NewTab));
    assert_eq!(keys.get_text_box_action(&KeyCode::Char('n')), Some(Action::MoveUp));
}

#[test]
fn key_names_and_first_characters() {
    assert_eq!(get_keycode(s("esc")).unwrap(), KeyCode::Esc);
    assert_eq!(get_keycode(s("escape")).unwrap(), KeyCode::Esc);
    assert_eq!(get_keycode(s("enter")).unwrap(), KeyCode::Enter);
    assert_eq!(get_keycode(s("space")).unwrap(), KeyCode::Char(' '));
    assert_eq!(get_keycode(s("pgdown")).unwrap(), KeyCode::PageDown);
    assert_eq!(get_keycode(s("xyz")).unwrap(), KeyCode::Char('x'));
}

#[test]
fn key_errors() {
    assert!(matches!(get_keycode(s("")), Err(ValueErr::InvalidParse(ParseProblem::NoKey))));
    assert!(matches!(get_keycode(ConfigValue::Integer(3)), Err(ValueErr::InvalidTomlType(ConfigValue::Integer(3)))));
}

#[test]
fn failed_assignment_keeps_the_table() {
    let mut keys = KeysTable::default();
    let r = keys.try_assign(Action::Yes, ConfigValue::Boolean(true));
    assert!(r.is_err());
    assert_eq!(keys, KeysTable::default());
}

#[test]
fn editing_actions_have_no_binding() {
    let mut keys = KeysTable::default();
    assert!(keys.try_assign(Action::Ack, s("a")).is_ok());
    assert_eq!(keys, KeysTable::default());
}

#[test]
fn dialog_actions() {
    let keys = KeysTable::default();
    assert_eq!(keys.get_ack_dialog_action(&KeyCode::Char('q')), Some(Action::Ack));
    assert_eq!(keys.get_ask_dialog_action(&KeyCode::Char('y')), Some(Action::Yes));
    assert_eq!(keys.get_ask_dialog_action(&KeyCode::Char('n')), Some(Action::No));
    assert_eq!(keys.get_ask_dialog_action(&KeyCode::Esc), Some(Action::Cancel));
    assert_eq!(keys.get_ask_dialog_action(&KeyCode::Char('q')), None);
    assert_eq!(keys.get_edit_dialog_action(&KeyCode::Char('q')), Some(Action::Insert('q')));
    assert_eq!(keys.get_edit_dialog_action(&KeyCode::Esc), Some(Action::Cancel));
    assert_eq!(keys.get_edit_box_action(&KeyCode::Backspace), Some(Action::Backspace));
    assert_eq!(keys.get_select_dialog_action(&KeyCode::Down), Some(Action::MoveDown));
}

#[test]
fn keys_table_reads_entries_and_reports_each_problem() {
    let mut keys = KeysTable::default();
    let entries = vec![
        ("yes".to_string(), s("j")),
        ("nonsense".to_string(), s("x")),
        ("no".to_string(), ConfigValue::Integer(1)),
        ("menu".to_string(), s("space")),
    ];
    let r = update_from_table(&mut keys, entries, &());
    assert_eq!(keys.yes, KeyCode::Char('j'));
    assert_eq!(keys.no, KeyCode::Char('n'));
    assert_eq!(keys.menu, KeyCode::Char(' '));
    let errs = r.unwrap_err();
    assert_eq!(errs.len(), 2);
    assert!(matches!(&errs[0], ConfigError::NoField(TableKind::Keys, k) if k == "nonsense"));
    assert!(matches!(&errs[1], ConfigError::Invalid(_, ValueErr::InvalidTomlType(ConfigValue::Integer(1)))));
}

#[test]
fn reading_two_tables_is_reading_them_joined() {
    let a = vec![("yes".to_string(), s("j")), ("bad".to_string(), s("x"))];
    let b = vec![("no".to_string(), s("k")), ("yes".to_string(), s("z"))];
    let joined = vec![
        ("yes".to_string(), s("j")),
        ("bad".to_string(), s("x")),
        ("no".to_string(), s("k")),
        ("yes".to_string(), s("z")),
    ];
    let mut one = KeysTable::default();
    let r1 = update_from_table(&mut one, a, &());
    let r2 = update_from_table(&mut one, b, &());
    let mut both = KeysTable::default();
    let r = update_from_table(&mut both, joined, &());
    assert_eq!(one, both);
    assert_eq!(r1.unwrap_err().len() + if r2.is_err() { 1 } else { 0 }, r.unwrap_err().len());
}

#[test]
fn the_example_keys_file() {
    let mut keys = KeysTable::default();
    let entries = vec![
        ("move_up".to_string(), s("o")),
        ("move_down".to_string(), s("i")),
        ("move_left".to_string(), s("e")),
        ("move_right".to_string(), s("n")),
        ("select".to_string(), s("w")),
        ("delete_tab".to_string(), s("v")),
        ("new_tab".to_string(), s("p")),
        ("save_url".to_string(), s("u")),
        ("load_url".to_string(), s("U")),
        ("cycle_left".to_string(), s("E")),
        ("cycle_right".to_string(), s("N")),
        ("yes".to_string(), s("y")),
        ("no".to_string(), s("n")),
        ("ack".to_string(), s("y")),
        ("cancel".to_string(), s("esc")),
    ];
    assert!(update_from_table(&mut keys, entries, &()).is_ok());
    assert_eq!(keys.get_tab_action(&KeyCode::Char('o')), Some(Action::MoveUp));
    assert_eq!(keys.get_tab_action(&KeyCode::Char('w')), Some(Action::Select));
    assert_eq!(keys.get_tab_action(&KeyCode::Char('p')), Some(Action::NewTab));
    assert_eq!(keys.get_tab_action(&KeyCode::Char('U')), Some(Action::LoadUrl));
    assert_eq!(keys.get_tab_action(&KeyCode::Char('u')), Some(Action::SaveUrl));
    assert_eq!(keys.get_tab_action(&KeyCode::Char('N')), Some(Action::CycleRight));
    assert_eq!(keys.get_ask_dialog_action(&KeyCode::Char('n')), Some(Action::No));
    assert_eq!(keys.get_ask_dialog_action(&KeyCode::Esc), Some(Action::Cancel));
    assert_eq!(keys.get_text_box_action(&KeyCode::Char('n')), Some(Action::MoveRight));
}
