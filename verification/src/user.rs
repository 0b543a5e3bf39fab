//! The user's settings: the first page, the time limit for requests, where
//! URLs are saved, and the style and key bindings.
use vstd::prelude::*;
use crate::value::ConfigValue;
use crate::chars::str_eq;
use crate::util::{get_styles_file, get_keys_file, get_init_file};
use crate::config::{
    Blank, ConfigError, Field, FieldName, ParseProblem, TableKind, UserAssign, ValueErr,
    spec_update, update_from_table, within, wrap_within, toml_entries, parse_entries,
};
use crate::userstyle::StyleConfig;
use crate::keys::{KeysTable, default_keys};

verus! {

/// The fields of the user table.
#[derive(Clone, Copy, Debug, PartialEq, Eq, Structural)]
pub enum UserConfigField {
    InitUrl,
    SaveFile,
    Timeout,
    Style,
    Keys,
}

impl Field for UserConfigField {
    open spec fn spec_parse(s: Seq<char>) -> Option<Self> {
        if s == "init_url"@ {
            Some(UserConfigField::InitUrl)
        } else if s == "timeout"@ {
            Some(UserConfigField::Timeout)
        } else if s == "style"@ {
            Some(UserConfigField::Style)
        } else if s == "keys"@ {
            Some(UserConfigField::Keys)
        } else if s == "gsave"@ || s == "save_file"@ {
            Some(UserConfigField::SaveFile)
        } else {
            None
        }
    }

    open spec fn spec_table() -> TableKind {
        TableKind::User
    }

    open spec fn spec_name(self) -> FieldName {
        FieldName::User(self)
    }

    fn parse(s: &str) -> (r: Option<Self>) {
        if str_eq(s, "init_url") {
            Some(UserConfigField::InitUrl)
        } else if str_eq(s, "timeout") {
            Some(UserConfigField::Timeout)
        } else if str_eq(s, "style") {
            Some(UserConfigField::Style)
        } else if str_eq(s, "keys") {
            Some(UserConfigField::Keys)
        } else if str_eq(s, "gsave") || str_eq(s, "save_file") {
            Some(UserConfigField::SaveFile)
        } else {
            None
        }
    }

    fn table() -> (r: TableKind) {
        TableKind::User
    }

    fn name(&self) -> (r: FieldName) {
        FieldName::User(*self)
    }
}

/// The user's settings. `save_file` is the path of the file that saved URLs
/// go to, in the data directory; `urls` are the URLs saved so far.
#[derive(Debug)]
pub struct UserConfig {
    pub timeout: u64,
    pub save_file: String,
    pub init_url: String,
    pub style: StyleConfig,
    pub keys: KeysTable,
    pub urls: Vec<String>,
}

impl UserConfig {
    /// The settings before the user's table is read, with the URLs saved so
    /// far: a time limit of 10 seconds, the Gemini project's page first, URLs
    /// saved to `gdata/urls`, and the default style and keys.
    pub fn new(urls: Vec<String>) -> (r: Self)
        ensures
            r.timeout == 10,
            r.init_url@ == "gemini://geminiprotocol.net/"@,
            r.save_file@ == "gdata/urls"@,
            r.style == <StyleConfig as Blank>::spec_initial(),
            r.keys == default_keys(),
            r.urls == urls,
    {
        UserConfig {
            timeout: 10,
            init_url: String::from_str("gemini://geminiprotocol.net/"),
            save_file: String::from_str("gdata/urls"),
            style: StyleConfig::initial(),
            keys: KeysTable::default(),
            urls,
        }
    }
}

impl UserConfig {
    /// Saves `url` with the URLs saved so far, unless it is among them
    /// already; says whether it was added.
    pub fn add_url(&mut self, url: &str) -> (r: bool)
        ensures
            r == !(exists|i: int| 0 <= i < old(self).urls@.len() && (#[trigger] old(self).urls@[i])@ == url@),
            r ==> final(self).urls@.len() == old(self).urls@.len() + 1
                && final(self).urls@.take(old(self).urls@.len() as int) == old(self).urls@
                && final(self).urls@.last()@ == url@,
            !r ==> final(self).urls == old(self).urls,
            final(self).timeout == old(self).timeout && final(self).save_file == old(self).save_file,
            final(self).init_url == old(self).init_url,
            final(self).style == old(self).style && final(self).keys == old(self).keys,
    {
        let mut i: usize = 0;
        while i < self.urls.len()
            invariant
                0 <= i <= self.urls@.len(),
                *self == *old(self),
                forall|j: int| 0 <= j < i ==> (#[trigger] self.urls@[j])@ != url@,
            decreases self.urls@.len() - i,
        {
            if str_eq(self.urls[i].as_str(), url) {
                return false;
            }
            i = i + 1;
        }
        self.urls.push(url.to_string());
        proof {
            assert(self.urls@.take(old(self).urls@.len() as int) =~= old(self).urls@);
        }
        true
    }
}

impl UserAssign<()> for UserConfig {
    type Field = UserConfigField;

    /// A style or keys file named by a string is read, and its table put in
    /// the string's place, before the user table reaches here (reading files
    /// is the caller's part); here the style and keys are tables.
    open spec fn spec_assign(self, field: UserConfigField, value: ConfigValue, ctx: ()) -> (Self, Seq<ConfigError>) {
        let name = FieldName::User(field);
        match (field, value) {
            (UserConfigField::InitUrl, ConfigValue::String(v)) => (UserConfig { init_url: v, ..self }, seq![]),
            (UserConfigField::SaveFile, ConfigValue::String(v)) => (UserConfig { save_file: v, ..self }, seq![]),
            (UserConfigField::Timeout, ConfigValue::Integer(v)) => if v >= 0 {
                (UserConfig { timeout: v as u64, ..self }, seq![])
            } else {
                (self, seq![ConfigError::Invalid(name, ValueErr::InvalidParse(ParseProblem::OutOfRange(v)))])
            },
            (UserConfigField::Style, ConfigValue::Table(t)) => {
                let (style, errs) = spec_update::<(), StyleConfig>(self.style, t@, ());
                (UserConfig { style, ..self }, within(name, errs))
            },
            (UserConfigField::Keys, ConfigValue::Table(t)) => {
                let (keys, errs) = spec_update::<(), KeysTable>(self.keys, t@, ());
                (UserConfig { keys, ..self }, within(name, errs))
            },
            (_, v) => (self, seq![ConfigError::Invalid(name, ValueErr::InvalidTomlType(v))]),
        }
    }

    open spec fn spec_load_context(self, entries: Seq<(String, ConfigValue)>) -> (Self, Seq<(String, ConfigValue)>) {
        (self, entries)
    }

    fn assign(&mut self, field: &UserConfigField, value: ConfigValue, ctx: &()) -> (r: Vec<ConfigError>) {
        let name = FieldName::User(*field);
        match (*field, value) {
            (UserConfigField::InitUrl, ConfigValue::String(v)) => {
                self.init_url = v;
                Vec::new()
            },
            (UserConfigField::SaveFile, ConfigValue::String(v)) => {
                self.save_file = v;
                Vec::new()
            },
            (UserConfigField::Timeout, ConfigValue::Integer(v)) => if v >= 0 {
                self.timeout = v as u64;
                Vec::new()
            } else {
                vec![ConfigError::Invalid(name, ValueErr::InvalidParse(ParseProblem::OutOfRange(v)))]
            },
            (UserConfigField::Style, ConfigValue::Table(t)) => {
                match update_from_table(&mut self.style, t, &()) {
                    Ok(_) => Vec::new(),
                    Err(errs) => wrap_within(name, errs),
                }
            },
            (UserConfigField::Keys, ConfigValue::Table(t)) => {
                match update_from_table(&mut self.keys, t, &()) {
                    Ok(_) => Vec::new(),
                    Err(errs) => wrap_within(name, errs),
                }
            },
            (_, v) => vec![ConfigError::Invalid(name, ValueErr::InvalidTomlType(v))],
        }
    }

    fn load_context(&mut self, entries: &mut Vec<(String, ConfigValue)>) {
    }
}

/// The file that a settings entry names: a `style` entry whose value is a
/// string names the style file of that name, a `keys` entry the keys file;
/// any other entry names none.
pub open spec fn spec_file_of(key: Seq<char>, value: ConfigValue) -> Option<Seq<char>> {
    match value {
        ConfigValue::String(n) => if key == "style"@ {
            Some("gdata/styles"@ + "/"@ + n@)
        } else if key == "keys"@ {
            Some("gdata/keys"@ + "/"@ + n@)
        } else {
            None
        },
        _ => None,
    }
}

/// The path of the file that the settings entry `key = value` names, if any.
pub fn file_of(key: &str, value: &ConfigValue) -> (r: Option<String>)
    ensures
        match spec_file_of(key@, *value) {
            Some(p) => r matches Some(x) && x@ == p,
            None => r is None,
        },
{
    match value {
        ConfigValue::String(n) => if str_eq(key, "style") {
            Some(get_styles_file(n.as_str()))
        } else if str_eq(key, "keys") {
            Some(get_keys_file(n.as_str()))
        } else {
            None
        },
        _ => None,
    }
}

/// Puts the table of the settings text `text` in the place of the value of
/// entry `i`, where `text` is a TOML table; else leaves the entries as they
/// are.
pub fn load_file_table(entries: &mut Vec<(String, ConfigValue)>, i: usize, text: &str) -> (r: Result<(), String>)
    requires
        i < old(entries)@.len(),
    ensures
        match toml_entries(text@) {
            None => r is Err && final(entries)@ == old(entries)@,
            Some(es) => {
                &&& r is Ok
                &&& final(entries)@.len() == old(entries)@.len()
                &&& final(entries)@[i as int].0 == old(entries)@[i as int].0
                &&& (final(entries)@[i as int].1 matches ConfigValue::Table(t) && t@ == es)
                &&& forall|j: int| 0 <= j < old(entries)@.len() && j != i ==> #[trigger] final(entries)@[j] == old(entries)@[j]
            },
        },
{
    match parse_entries(text) {
        Err(e) => Err(e),
        Ok(es) => {
            let key = entries[i].0.clone();
            entries.set(i, (key, ConfigValue::Table(es)));
            Ok(())
        },
    }
}

/// What a settings entry becomes before the fields are assigned: the string
/// value `v` of a `save_file` entry names a file in the data directory, so it
/// becomes the path `gdata/v`; any other entry stays as it is.
pub open spec fn placed_entry(key: Seq<char>, value: ConfigValue) -> Option<Seq<char>> {
    match value {
        ConfigValue::String(v) => if UserConfigField::spec_parse(key) == Some(UserConfigField::SaveFile) {
            Some("gdata"@ + "/"@ + v@)
        } else {
            None
        },
        _ => None,
    }
}

/// Puts the save file that the entries name in the data directory: the
/// value of each `save_file` entry that is a string becomes the path under
/// `gdata/`, as `placed_entry` says; the other entries stay as they are.
pub fn place_save_file(entries: &mut Vec<(String, ConfigValue)>)
    ensures
        final(entries)@.len() == old(entries)@.len(),
        forall|j: int| 0 <= j < old(entries)@.len() ==> {
            let (k, v) = #[trigger] old(entries)@[j];
            match placed_entry(k@, v) {
                Some(p) => final(entries)@[j].0 == k && (final(entries)@[j].1 matches ConfigValue::String(q) && q@ == p),
                None => final(entries)@[j] == old(entries)@[j],
            }
        },
{
    let ghost before = entries@;
    let mut i: usize = 0;
    while i < entries.len()
        invariant
            entries@.len() == before.len(),
            0 <= i <= entries@.len(),
            forall|j: int| i <= j < before.len() ==> entries@[j] == before[j],
            forall|j: int| 0 <= j < i ==> {
                let (k, v) = #[trigger] before[j];
                match placed_entry(k@, v) {
                    Some(p) => entries@[j].0 == k && (entries@[j].1 matches ConfigValue::String(q) && q@ == p),
                    None => entries@[j] == before[j],
                }
            },
        decreases entries@.len() - i,
    {
        let path = match (UserConfigField::parse(entries[i].0.as_str()), &entries[i].1) {
            (Some(UserConfigField::SaveFile), ConfigValue::String(v)) => Some(get_init_file(v.as_str())),
            _ => None,
        };
        match path {
            Some(p) => {
                let key = entries[i].0.clone();
                entries.set(i, (key, ConfigValue::String(p)));
            },
            None => {},
        }
        i = i + 1;
    }
}

} // verus!

verus! {

/// Each key of the settings file names its own field: `init_url`,
/// `timeout`, `style`, `keys`, and `save_file` or `gsave`.
pub proof fn lemma_user_field_names()
    ensures
        UserConfigField::spec_parse("init_url"@) == Some(UserConfigField::InitUrl),
        UserConfigField::spec_parse("timeout"@) == Some(UserConfigField::Timeout),
        UserConfigField::spec_parse("style"@) == Some(UserConfigField::Style),
        UserConfigField::spec_parse("keys"@) == Some(UserConfigField::Keys),
        UserConfigField::spec_parse("gsave"@) == Some(UserConfigField::SaveFile),
        UserConfigField::spec_parse("save_file"@) == Some(UserConfigField::SaveFile),
{
    reveal_strlit("init_url");
    reveal_strlit("timeout");
    reveal_strlit("style");
    reveal_strlit("keys");
    reveal_strlit("gsave");
    reveal_strlit("save_file");
    assert("init_url"@.len() == 8 && "init_url"@[0] == 'i' && "init_url"@[1] == 'n' && "init_url"@[2] == 'i' && "init_url"@[3] == 't' && "init_url"@[4] == '_' && "init_url"@[5] == 'u' && "init_url"@[6] == 'r' && "init_url"@[7] == 'l');
    assert("timeout"@.len() == 7 && "timeout"@[0] == 't' && "timeout"@[1] == 'i' && "timeout"@[2] == 'm' && "timeout"@[3] == 'e' && "timeout"@[4] == 'o' && "timeout"@[5] == 'u' && "timeout"@[6] == 't');
    assert("style"@.len() == 5 && "style"@[0] == 's' && "style"@[1] == 't' && "style"@[2] == 'y' && "style"@[3] == 'l' && "style"@[4] == 'e');
    assert("keys"@.len() == 4 && "keys"@[0] == 'k' && "keys"@[1] == 'e' && "keys"@[2] == 'y' && "keys"@[3] == 's');
    assert("gsave"@.len() == 5 && "gsave"@[0] == 'g' && "gsave"@[1] == 's' && "gsave"@[2] == 'a' && "gsave"@[3] == 'v' && "gsave"@[4] == 'e');
    assert("save_file"@.len() == 9 && "save_file"@[0] == 's' && "save_file"@[1] == 'a' && "save_file"@[2] == 'v' && "save_file"@[3] == 'e' && "save_file"@[4] == '_' && "save_file"@[5] == 'f' && "save_file"@[6] == 'i' && "save_file"@[7] == 'l' && "save_file"@[8] == 'e');
}

} // verus!

verus! {

/// The settings' keys set their own fields: `init_url` the first URL,
/// `save_file` the save file, a number from 0 up for `timeout` the time
/// limit (a negative one is refused and changes nothing); the rest stays.
pub proof fn lemma_user_fields_placed(c: UserConfig, s: String, n: i64)
    ensures
        c.spec_assign(UserConfigField::InitUrl, ConfigValue::String(s), ()).0 == (UserConfig { init_url: s, ..c }),
        c.spec_assign(UserConfigField::SaveFile, ConfigValue::String(s), ()).0 == (UserConfig { save_file: s, ..c }),
        n >= 0 ==> c.spec_assign(UserConfigField::Timeout, ConfigValue::Integer(n), ()).0 == (UserConfig { timeout: n as u64, ..c }),
        n < 0 ==> c.spec_assign(UserConfigField::Timeout, ConfigValue::Integer(n), ()).0 == c,
{
}

} // verus!
