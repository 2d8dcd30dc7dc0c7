//! Options of the readability passes.

use vstd::prelude::*;

verus! {

/// Complexity limits under which the readability passes inline an expression.
#[derive(Debug, Clone, Copy, Eq, PartialEq, Structural)]
pub struct ReadabilityOptions {
    pub return_inline_max_complexity: usize,
    pub index_inline_max_complexity: usize,
    pub args_inline_max_complexity: usize,
    pub access_base_inline_max_complexity: usize,
}

} // verus!
