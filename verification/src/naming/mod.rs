//! Options of the naming layer.

use vstd::prelude::*;

verus! {

/// How the naming layer chooses names for locals.
#[derive(Debug, Clone, Copy, Eq, PartialEq, Structural)]
pub enum NamingMode {
    /// Names shaped like those of a debug build (`l_1`, `f_2`, ...).
    DebugLike,
    /// Names derived from how a value is used.
    Simple,
}

/// Options of the naming layer.
#[derive(Debug, Clone, Copy, Eq, PartialEq, Structural)]
pub struct NamingOptions {
    pub mode: NamingMode,
    pub debug_like_include_function: bool,
}

} // verus!
