//! Settings from the command line, once they are parsed: keys with values that are
//! carried through the library whole.

use vstd::prelude::*;

verus! {

/// `toml::Value`, as an opaque value.
#[verifier::external_type_specification]
#[verifier::external_body]
pub struct ExTomlValue(toml::Value);

/// The `-c` overrides, parsed.
pub type Settings = Vec<(String, toml::Value)>;

} // verus!
