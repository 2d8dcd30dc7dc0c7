//! Small string helpers shared by the name tables and the message builders.

use vstd::prelude::*;
use vstd::string::StringExecFns;

verus! {

/// Whether two string slices hold the same characters.
pub fn str_eq(a: &str, b: &str) -> (r: bool)
    ensures
        r == (a@ == b@),
{
    let x = String::from_str(a);
    let y = String::from_str(b);
    x == y
}

/// A name that is none of the spellings of any variant.
#[derive(Debug, Clone, Copy, Eq, PartialEq)]
pub enum NameParseError {
    VariantNotFound,
}

} // verus!
