//! The two code tables consulted by the strict language check.
use vstd::prelude::*;

verus! {

/// Whether a code is listed in the ISO 639-3 table of base languages.
pub uninterp spec fn known_language_code(code: Seq<char>) -> bool;

/// Whether a code is listed in the ISO 15924 table of scripts.
pub uninterp spec fn known_script_code(code: Seq<char>) -> bool;

/// Relies on `rust_iso639::from_code_3`: it lowercases the code and looks it up
/// in a fixed table, so whether it finds an entry depends on the code alone.
#[verifier::external_body]
pub(crate) fn lookup_language_code(code: &str) -> (r: bool)
    ensures
        r == known_language_code(code@),
{
    rust_iso639::from_code_3(code).is_some()
}

/// Relies on `rust_iso15924::from_code`: it lowercases the code and looks it up
/// in a fixed table, so whether it finds an entry depends on the code alone.
#[verifier::external_body]
pub(crate) fn lookup_script_code(code: &str) -> (r: bool)
    ensures
        r == known_script_code(code@),
{
    rust_iso15924::from_code(code).is_some()
}

} // verus!
