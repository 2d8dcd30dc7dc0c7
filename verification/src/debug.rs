//! Shared vocabulary of the debug dumps: colouring, level of detail, filters
//! and the one-line summary rows of elided functions.

use vstd::prelude::*;

verus! {

/// When a dump colours its output.
#[derive(Debug, Clone, Copy, Eq, PartialEq, Structural)]
pub enum DebugColorMode {
    Auto,
    Always,
    Never,
}

impl Default for DebugColorMode {
    fn default() -> (r: Self)
        ensures
            r == DebugColorMode::Auto,
    {
        DebugColorMode::Auto
    }
}

/// How much a dump shows.
#[derive(Debug, Clone, Copy, Eq, PartialEq, Structural)]
pub enum DebugDetail {
    Summary,
    Normal,
    Verbose,
}

impl Default for DebugDetail {
    fn default() -> (r: Self)
        ensures
            r == DebugDetail::Normal,
    {
        DebugDetail::Normal
    }
}

/// Which functions a dump focuses on.
#[derive(Debug, Clone, Copy, Eq, PartialEq, Structural)]
pub struct DebugFilters {
    /// Only the function with this id and its descendants, when set.
    pub proto: Option<usize>,
}

impl Default for DebugFilters {
    fn default() -> (r: Self)
        ensures
            r.proto is None,
    {
        DebugFilters { proto: None }
    }
}

/// The one-line summary of a function that a dump elides.
#[derive(Debug, Clone, Eq, PartialEq)]
pub struct ProtoSummaryRow {
    pub id: usize,
    pub depth_below_focus: usize,
    pub name: Option<String>,
    pub first: Option<u32>,
    pub lines: Option<(u32, u32)>,
    pub instrs: Option<usize>,
    pub children: Option<usize>,
}

} // verus!
