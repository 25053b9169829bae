//! Where the registry keeps a package's metadata.

use vstd::prelude::*;
use vstd::string::StringExecFns;

verus! {

/// The address of the registry's metadata document for `crate_name`:
/// the fixed prefix followed by the name, unchanged.
pub open spec fn spec_build_url(crate_name: Seq<char>) -> Seq<char> {
    "https://crates.io/api/v1/crates/"@ + crate_name
}

/// Builds the address that is fetched for `crate_name`.
pub fn build_url(crate_name: &str) -> (url: String)
    ensures
        url@ == spec_build_url(crate_name@),
{
    String::from_str("https://crates.io/api/v1/crates/").concat(crate_name)
}

} // verus!
