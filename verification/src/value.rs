//! The values of configuration files, in the shape of TOML's.
use vstd::prelude::*;

verus! {

/// A configuration value. Floating-point numbers and dates are held as the
/// text that shows them: no setting reads one, so they only ever make a
/// setting fail, and the problem shows the value.
#[derive(Debug)]
pub enum ConfigValue {
    String(String),
    Integer(i64),
    Float(String),
    Boolean(bool),
    Datetime(String),
    Array(Vec<ConfigValue>),
    Table(Vec<(String, ConfigValue)>),
}

} // verus!
