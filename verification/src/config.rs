//! Reading settings out of configuration tables: each entry's key names a
//! field, and the field is assigned the entry's value; every key that names no
//! field and every value that does not fit its field is reported, in order,
//! and the other entries still take effect.
use vstd::prelude::*;
use crate::value::ConfigValue;
use crate::color::ColorError;

verus! {

/// The tables of the configuration, as their error reports name them.
#[derive(Clone, Copy, Debug, PartialEq, Eq, Structural)]
pub enum TableKind {
    Style,
    Margin,
    User,
    Keys,
}

/// Why a value could not be read as its field's setting.
#[derive(Debug)]
pub enum ParseProblem {
    /// The color's hex digits are wrong.
    Color(ColorError),
    /// The string names no color of the palette and is no hex color.
    NotInPalette(String),
    /// The number does not fit the field.
    OutOfRange(i64),
    /// The word is none that the field takes.
    Word(String),
    /// The string is empty, so it names no key.
    NoKey,
}

/// What is wrong with the value given to a field.
#[derive(Debug)]
pub enum ValueErr {
    /// The value is not of a kind that the field takes.
    InvalidTomlType(ConfigValue),
    /// The value is of the right kind but does not parse.
    InvalidParse(ParseProblem),
}

/// A field of one of the configuration tables.
#[derive(Clone, Copy, Debug)]
pub enum FieldName {
    StyleConfig(crate::userstyle::StyleConfigField),
    Margin(crate::userstyle::MarginParamsField),
    Style(crate::userstyle::StyleField),
    Text(crate::userstyle::TextStyleParamsField),
    Border(crate::userstyle::BorderParamsField),
    User(crate::user::UserConfigField),
    Key(crate::keys::Action),
}

/// One problem met while reading a table.
#[derive(Debug)]
pub enum ConfigError {
    /// The table has no field of this name.
    NoField(TableKind, String),
    /// The field could not take its value.
    Invalid(FieldName, ValueErr),
    /// A problem inside the table that was given to the field.
    In(FieldName, Box<ConfigError>),
    /// The text is no TOML table; `toml` describes why.
    Parse(String),
}

/// Each of `errs` as met inside the table given to `field`.
pub open spec fn within(field: FieldName, errs: Seq<ConfigError>) -> Seq<ConfigError> {
    errs.map_values(|e: ConfigError| ConfigError::In(field, Box::new(e)))
}

/// Wraps each of `errs` as met inside the table given to `field`.
pub fn wrap_within(field: FieldName, errs: Vec<ConfigError>) -> (r: Vec<ConfigError>)
    ensures
        r@ == within(field, errs@),
{
    let ghost all = errs@;
    let mut errs = errs;
    let mut out: Vec<ConfigError> = Vec::new();
    while errs.len() > 0
        invariant
            out@ + within(field, errs@) == within(field, all),
        decreases errs.len(),
    {
        let ghost before = errs@;
        let e = errs.remove(0);
        proof {
            assert(within(field, before) =~= seq![ConfigError::In(field, Box::new(e))] + within(field, errs@));
        }
        let ghost out_before = out@;
        out.push(ConfigError::In(field, Box::new(e)));
        proof {
            assert(out_before + within(field, before) =~= out@ + within(field, errs@));
        }
    }
    proof {
        assert(within(field, errs@) =~= Seq::<ConfigError>::empty());
        assert(out@ + Seq::<ConfigError>::empty() =~= out@);
    }
    out
}

/// The fields of a table, named by strings.
pub trait Field: Sized + Copy {
    /// The field that the key `s` names, if any.
    spec fn spec_parse(s: Seq<char>) -> Option<Self>;

    /// The table whose fields these are.
    spec fn spec_table() -> TableKind;

    /// The field, as errors name it.
    spec fn spec_name(self) -> FieldName;

    fn parse(s: &str) -> (r: Option<Self>)
        ensures
            r == Self::spec_parse(s@);

    fn table() -> (r: TableKind)
        ensures
            r == Self::spec_table();

    fn name(&self) -> (r: FieldName)
        ensures
            r == self.spec_name();
}

/// A settings table whose fields can be assigned values, given a context `C`
/// that the whole table shares.
pub trait UserAssign<C>: Sized {
    type Field: Field;

    /// The table after `field` is assigned `value`, and the problems met.
    spec fn spec_assign(self, field: Self::Field, value: ConfigValue, ctx: C) -> (Self, Seq<ConfigError>);

    /// The table after it takes what it needs from `entries` before the
    /// fields are assigned, and the entries left.
    spec fn spec_load_context(self, entries: Seq<(String, ConfigValue)>) -> (Self, Seq<(String, ConfigValue)>);

    fn assign(&mut self, field: &Self::Field, value: ConfigValue, ctx: &C) -> (r: Vec<ConfigError>)
        ensures
            (*final(self), r@) == old(self).spec_assign(*field, value, *ctx);

    fn load_context(&mut self, entries: &mut Vec<(String, ConfigValue)>)
        ensures
            (*final(self), final(entries)@) == old(self).spec_load_context(old(entries)@);
}

/// Tables that have a value before anything is assigned.
pub trait Blank: Sized {
    /// The table before anything is assigned.
    spec fn spec_initial() -> Self;

    fn initial() -> (r: Self)
        ensures
            r == Self::spec_initial();
}

/// `t` after each entry in turn is assigned, and the problems met, in order.
pub open spec fn assign_all<C, T: UserAssign<C>>(t: T, entries: Seq<(String, ConfigValue)>, ctx: C) -> (T, Seq<ConfigError>)
    decreases entries.len(),
{
    if entries.len() == 0 {
        (t, seq![])
    } else {
        let key = entries[0].0;
        let value = entries[0].1;
        match T::Field::spec_parse(key@) {
            None => {
                let (last, errs) = assign_all(t, entries.drop_first(), ctx);
                (last, seq![ConfigError::NoField(T::Field::spec_table(), key)] + errs)
            },
            Some(f) => {
                let (next, es) = t.spec_assign(f, value, ctx);
                let (last, errs) = assign_all(next, entries.drop_first(), ctx);
                (last, es + errs)
            },
        }
    }
}

/// `t` after it reads the table `entries`, and the problems met.
pub open spec fn spec_update<C, T: UserAssign<C>>(t: T, entries: Seq<(String, ConfigValue)>, ctx: C) -> (T, Seq<ConfigError>) {
    let (loaded, rest) = t.spec_load_context(entries);
    assign_all(loaded, rest, ctx)
}

/// Reads the table `entries` into `t`: every entry whose key names a field
/// assigns its value; the result lists each problem met, in order, and is
/// `Ok` exactly when there was none.
pub fn update_from_table<C, T: UserAssign<C>>(t: &mut T, entries: Vec<(String, ConfigValue)>, ctx: &C) -> (r: Result<(), Vec<ConfigError>>)
    ensures
        *final(t) == spec_update(*old(t), entries@, *ctx).0,
        match r {
            Ok(_) => spec_update(*old(t), entries@, *ctx).1.len() == 0,
            Err(errs) => errs@ == spec_update(*old(t), entries@, *ctx).1 && errs@.len() > 0,
        },
{
    let mut entries = entries;
    t.load_context(&mut entries);
    let ghost loaded = *t;
    let ghost rest = entries@;
    let mut errors: Vec<ConfigError> = Vec::new();
    while entries.len() > 0
        invariant
            assign_all(loaded, rest, *ctx) == ({
                let (last, errs) = assign_all(*t, entries@, *ctx);
                (last, errors@ + errs)
            }),
        decreases entries.len(),
    {
        let ghost before = entries@;
        let ghost t_before = *t;
        let ghost errs_before = errors@;
        let (key, value) = entries.remove(0);
        proof {
            assert(before.drop_first() =~= entries@);
        }
        match T::Field::parse(key.as_str()) {
            None => {
                errors.push(ConfigError::NoField(T::Field::table(), key));
                proof {
                    let (last, errs) = assign_all(*t, entries@, *ctx);
                    assert(errs_before + (seq![ConfigError::NoField(T::Field::spec_table(), key)] + errs) =~= errors@ + errs);
                }
            },
            Some(f) => {
                let mut es = t.assign(&f, value, ctx);
                let ghost es_view = es@;
                errors.append(&mut es);
                proof {
                    let (last, errs) = assign_all(*t, entries@, *ctx);
                    assert(errs_before + (es_view + errs) =~= errors@ + errs);
                }
            },
        }
    }
    proof {
        assert(errors@ + Seq::<ConfigError>::empty() =~= errors@);
    }
    if errors.len() > 0 {
        Err(errors)
    } else {
        Ok(())
    }
}

/// A new table read from `entries`, with the problems met.
pub fn from_table<C, T: UserAssign<C> + Blank>(entries: Vec<(String, ConfigValue)>, ctx: &C) -> (r: (T, Result<(), Vec<ConfigError>>))
    ensures
        r.0 == spec_update(T::spec_initial(), entries@, *ctx).0,
        match r.1 {
            Ok(_) => spec_update(T::spec_initial(), entries@, *ctx).1.len() == 0,
            Err(errs) => errs@ == spec_update(T::spec_initial(), entries@, *ctx).1 && errs@.len() > 0,
        },
{
    let mut t = T::initial();
    let r = update_from_table(&mut t, entries, ctx);
    (t, r)
}

/// Reading two runs of entries one after the other is reading them as one
/// run: the table ends the same, and the problems of the first run come
/// before those of the second.
pub proof fn lemma_assign_all_append<C, T: UserAssign<C>>(t: T, a: Seq<(String, ConfigValue)>, b: Seq<(String, ConfigValue)>, ctx: C)
    ensures
        assign_all(t, a + b, ctx) == ({
            let (mid, ea) = assign_all(t, a, ctx);
            let (last, eb) = assign_all(mid, b, ctx);
            (last, ea + eb)
        }),
    decreases a.len(),
{
    if a.len() == 0 {
        assert(a + b =~= b);
        assert(Seq::<ConfigError>::empty() + assign_all(t, b, ctx).1 =~= assign_all(t, b, ctx).1);
    } else {
        assert((a + b).drop_first() =~= a.drop_first() + b);
        assert((a + b)[0] == a[0]);
        let key = a[0].0;
        let value = a[0].1;
        match T::Field::spec_parse(key@) {
            None => {
                lemma_assign_all_append(t, a.drop_first(), b, ctx);
                let (mid, ea) = assign_all(t, a.drop_first(), ctx);
                let (last, eb) = assign_all(mid, b, ctx);
                assert(seq![ConfigError::NoField(T::Field::spec_table(), key)] + (ea + eb)
                    =~= (seq![ConfigError::NoField(T::Field::spec_table(), key)] + ea) + eb);
            },
            Some(f) => {
                let (next, es) = t.spec_assign(f, value, ctx);
                lemma_assign_all_append(next, a.drop_first(), b, ctx);
                let (mid, ea) = assign_all(next, a.drop_first(), ctx);
                let (last, eb) = assign_all(mid, b, ctx);
                assert(es + (ea + eb) =~= (es + ea) + eb);
            },
        }
    }
}

/// The entries of the table that `toml` parses the text `s` into, in the
/// table's order (its keys sorted), each value as a configuration value;
/// `None` where `s` is no TOML table.
pub uninterp spec fn toml_entries(s: Seq<char>) -> Option<Seq<(String, ConfigValue)>>;

/// Turns a `toml::Value` into a configuration value, variant by variant;
/// floats and dates become the text that shows them. Nothing is stated of it: it is the
/// conversion step of `parse_entries`.
#[verifier::external_body]
fn value_of(v: toml::Value) -> ConfigValue {
    match v {
        toml::Value::String(s) => ConfigValue::String(s),
        toml::Value::Integer(i) => ConfigValue::Integer(i),
        toml::Value::Float(f) => ConfigValue::Float(f.to_string()),
        toml::Value::Boolean(b) => ConfigValue::Boolean(b),
        toml::Value::Datetime(d) => ConfigValue::Datetime(d.to_string()),
        toml::Value::Array(a) => ConfigValue::Array(a.into_iter().map(value_of).collect()),
        toml::Value::Table(t) => ConfigValue::Table(t.into_iter().map(|(k, v)| (k, value_of(v))).collect()),
    }
}

/// Calls `str::parse::<toml::Table>` on `s` and turns the table's entries into
/// configuration values. The entries are a function of `s`, named
/// `toml_entries`; the error's text is not stated.
#[verifier::external_body]
pub fn parse_entries(s: &str) -> (r: Result<Vec<(String, ConfigValue)>, String>)
    ensures
        r is Ok <==> toml_entries(s@) is Some,
        r matches Ok(es) ==> toml_entries(s@) == Some(es@),
{
    match s.parse::<toml::Table>() {
        Ok(t) => Ok(t.into_iter().map(|(k, v)| (k, value_of(v))).collect()),
        Err(e) => Err(e.to_string()),
    }
}

/// Reads the settings text `s` into `t`: where `s` is a TOML table, as
/// `update_from_table` reads its entries; else `t` stays as it was and the
/// parse error is the one problem.
pub fn update_from_str<C, T: UserAssign<C>>(t: &mut T, s: &str, ctx: &C) -> (r: Result<(), Vec<ConfigError>>)
    ensures
        match toml_entries(s@) {
            None => *final(t) == *old(t) && (r matches Err(es) && es@.len() == 1 && es@[0] is Parse),
            Some(es) => {
                &&& *final(t) == spec_update(*old(t), es, *ctx).0
                &&& match r {
                    Ok(_) => spec_update(*old(t), es, *ctx).1.len() == 0,
                    Err(errs) => errs@ == spec_update(*old(t), es, *ctx).1 && errs@.len() > 0,
                }
            },
        },
{
    match parse_entries(s) {
        Err(e) => {
            let mut errs: Vec<ConfigError> = Vec::new();
            errs.push(ConfigError::Parse(e));
            Err(errs)
        },
        Ok(entries) => update_from_table(t, entries, ctx),
    }
}

/// A new table read from the settings text `s`, with the problems met.
pub fn from_str<C, T: UserAssign<C> + Blank>(s: &str, ctx: &C) -> (r: (T, Result<(), Vec<ConfigError>>))
    ensures
        match toml_entries(s@) {
            None => r.0 == T::spec_initial() && (r.1 matches Err(es) && es@.len() == 1 && es@[0] is Parse),
            Some(es) => {
                &&& r.0 == spec_update(T::spec_initial(), es, *ctx).0
                &&& match r.1 {
                    Ok(_) => spec_update(T::spec_initial(), es, *ctx).1.len() == 0,
                    Err(errs) => errs@ == spec_update(T::spec_initial(), es, *ctx).1 && errs@.len() > 0,
                }
            },
        },
{
    let mut t = T::initial();
    let r = update_from_str(&mut t, s, ctx);
    (t, r)
}

} // verus!
