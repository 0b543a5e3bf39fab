//! The values of a parsed TOML table, as the `toml` crate gives them.
use vstd::prelude::*;

verus! {

/// Declares `toml::Value`, which the settings reader turns into its own
/// values.
#[verifier::external_type_specification]
#[verifier::external_body]
pub struct ExTomlValue(toml::Value);

} // verus!
