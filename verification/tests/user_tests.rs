use gbrowse::user::place_save_file;
use gbrowse::value::ConfigValue;
use gbrowse::config::{update_from_table, update_from_str, from_str, parse_entries, ConfigError, ValueErr, ParseProblem, FieldName};
use gbrowse::user::{UserConfig, UserConfigField, file_of, load_file_table};
use gbrowse::keys::{KeyCode, KeysTable};
use gbrowse::text::{TextLine, EditLine};

fn entry(k: &str, v: ConfigValue) -> (String, ConfigValue) {
    (k.to_string(), v)
}

#[test]
fn settings_start_from_the_defaults() {
    let u = UserConfig::new(vec!["gemini://a/".to_string()]);
    assert_eq!(u.timeout, 10);
    assert_eq!(u.init_url, "gemini://geminiprotocol.net/");
    assert_eq!(u.save_file, "gdata/urls");
    assert_eq!(u.keys, KeysTable::default());
    assert_eq!(u.urls, vec!["gemini://a/".to_string()]);
}

#[test]
fn the_example_init_file() {
    let mut u = UserConfig::new(Vec::new());
    let r = update_from_table(&mut u, vec![
        entry("timeout", ConfigValue::Integer(5)),
        entry("init_url", ConfigValue::String("gemini://geminiprotocol.net/".to_string())),
        entry("keys", ConfigValue::Table(vec![entry("move_up", ConfigValue::String("o".to_string()))])),
        entry("style", ConfigValue::Table(vec![entry("general", ConfigValue::Table(vec![entry("bold", ConfigValue::Boolean(true))]))])),
    ], &());
    assert!(r.is_ok());
    assert_eq!(u.timeout, 5);
    assert_eq!(u.keys.up, KeyCode::Char('o'));
    assert!(u.style.general.style.bold);
}

#[test]
fn settings_problems() {
    let mut u = UserConfig::new(Vec::new());
    let r = update_from_table(&mut u, vec![
        entry("timeout", ConfigValue::Integer(-3)),
        entry("init_url", ConfigValue::Integer(3)),
        entry("keys", ConfigValue::Table(vec![entry("jump", ConfigValue::String("j".to_string()))])),
    ], &());
    let errs = r.unwrap_err();
    assert_eq!(errs.len(), 3);
    assert!(matches!(&errs[0], ConfigError::Invalid(FieldName::User(UserConfigField::Timeout), ValueErr::InvalidParse(ParseProblem::OutOfRange(-3)))));
    assert!(matches!(&errs[1], ConfigError::Invalid(FieldName::User(UserConfigField::InitUrl), ValueErr::InvalidTomlType(ConfigValue::Integer(3)))));
    assert!(matches!(&errs[2], ConfigError::In(FieldName::User(UserConfigField::Keys), _)));
    assert_eq!(u.timeout, 10);
}

#[test]
fn text_lines() {
    let t = TextLine::from_str("abc");
    assert_eq!((t.index, t.head, t.get_max_head()), (0, 0, 2));
    assert_eq!(TextLine::from_str("").get_max_head(), 0);
    let t = TextLine::from((3, vec!['x']));
    assert_eq!(t.index, 3);
    let e = EditLine::from_str("abc");
    assert_eq!((e.head, e.get_max_head()), (3, 3));
    assert_eq!(e.to_string(), "abc");
}

#[test]
fn settings_text_is_read_as_toml() {
    let mut u = UserConfig::new(Vec::new());
    let r = update_from_str(&mut u, "timeout = 5\ninit_url = \"gemini://x/\"\n[keys]\nmove_up = \"o\"\n", &());
    assert!(r.is_ok());
    assert_eq!(u.timeout, 5);
    assert_eq!(u.init_url, "gemini://x/");
    assert_eq!(u.keys.up, KeyCode::Char('o'));
}

#[test]
fn settings_text_that_is_no_toml_changes_nothing() {
    let mut u = UserConfig::new(Vec::new());
    let before = u.timeout;
    let errs = update_from_str(&mut u, "timeout = = 5", &()).unwrap_err();
    assert_eq!(errs.len(), 1);
    assert!(matches!(&errs[0], ConfigError::Parse(_)));
    assert_eq!(u.timeout, before);
    assert_eq!(u.init_url, "gemini://geminiprotocol.net/");
}

#[test]
fn settings_text_problems_are_reported() {
    let mut u = UserConfig::new(Vec::new());
    let errs = update_from_str(&mut u, "timeout = -3\n", &()).unwrap_err();
    assert_eq!(errs.len(), 1);
    assert!(matches!(&errs[0], ConfigError::Invalid(FieldName::User(UserConfigField::Timeout), ValueErr::InvalidParse(ParseProblem::OutOfRange(-3)))));
}

#[test]
fn keys_table_from_text() {
    let (k, r): (KeysTable, _) = from_str("move_up = \"o\"\n", &());
    assert!(r.is_ok());
    assert_eq!(k.up, KeyCode::Char('o'));
    let (k, r): (KeysTable, _) = from_str("[[", &());
    assert_eq!(k, KeysTable::default());
    assert!(matches!(&r.unwrap_err()[0], ConfigError::Parse(_)));
}

#[test]
fn parsed_entries_keep_their_values() {
    let es = parse_entries("b = true\na = 3\nc = \"x\"\nd = 1.5\n").unwrap();
    let keys: Vec<&str> = es.iter().map(|(k, _)| k.as_str()).collect();
    assert_eq!(keys, vec!["a", "b", "c", "d"]);
    assert!(matches!(es[0].1, ConfigValue::Integer(3)));
    assert!(matches!(es[1].1, ConfigValue::Boolean(true)));
    assert!(matches!(&es[2].1, ConfigValue::String(x) if x == "x"));
    assert!(matches!(&es[3].1, ConfigValue::Float(f) if f == "1.5"));
    assert!(parse_entries("a =").is_err());
}

#[test]
fn settings_entries_name_their_files() {
    assert_eq!(file_of("style", &ConfigValue::String("dark".to_string())), Some("gdata/styles/dark".to_string()));
    assert_eq!(file_of("keys", &ConfigValue::String("vi".to_string())), Some("gdata/keys/vi".to_string()));
    assert_eq!(file_of("timeout", &ConfigValue::String("vi".to_string())), None);
    assert_eq!(file_of("style", &ConfigValue::Integer(1)), None);
}

#[test]
fn a_named_file_replaces_its_entry() {
    let mut es = vec![entry("keys", ConfigValue::String("vi".to_string())), entry("timeout", ConfigValue::Integer(4))];
    assert!(load_file_table(&mut es, 0, "move_up = \"k\"\n").is_ok());
    assert_eq!(es[0].0, "keys");
    match &es[0].1 {
        ConfigValue::Table(t) => {
            assert_eq!(t.len(), 1);
            assert_eq!(t[0].0, "move_up");
            assert!(matches!(&t[0].1, ConfigValue::String(k) if k == "k"));
        }
        _ => panic!("the keys entry should hold a table"),
    }
    assert!(matches!(es[1].1, ConfigValue::Integer(4)));
    assert!(load_file_table(&mut es, 1, "= =").is_err());
    assert!(matches!(es[1].1, ConfigValue::Integer(4)));
}

#[test]
fn edit_line_operations() {
    let mut e = EditLine::from_str("abc");
    assert!(!e.delete());
    assert!(e.backspace());
    assert_eq!((e.head, e.to_string()), (2, "ab".to_string()));
    e.head = 0;
    assert!(e.delete());
    assert_eq!(e.to_string(), "b");
    assert!(!e.backspace());
    assert!(e.insert('x'));
    assert_eq!((e.head, e.to_string()), (1, "bx".to_string()));
    let mut e = EditLine::from_str("");
    assert!(e.insert('q'));
    assert_eq!((e.head, e.to_string()), (1, "q".to_string()));
    let mut e = EditLine::from_str("abc");
    e.head = 1;
    assert!(e.insert('z'));
    assert_eq!((e.head, e.to_string()), (2, "azbc".to_string()));
}

#[test]
fn the_save_file_lies_in_the_data_directory() {
    let mut es = vec![
        entry("save_file", ConfigValue::String("mine".to_string())),
        entry("gsave", ConfigValue::Integer(3)),
        entry("init_url", ConfigValue::String("mine".to_string())),
    ];
    place_save_file(&mut es);
    assert!(matches!(&es[0].1, ConfigValue::String(p) if p == "gdata/mine"));
    assert!(matches!(es[1].1, ConfigValue::Integer(3)));
    assert!(matches!(&es[2].1, ConfigValue::String(p) if p == "mine"));
    let mut u = UserConfig::new(Vec::new());
    assert!(update_from_table(&mut u, es, &()).is_err());
    assert_eq!(u.save_file, "gdata/mine");
}
