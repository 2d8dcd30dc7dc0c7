//! HIR-layer vocabulary used by the pipeline: the per-function facts that
//! generated comments describe and the dump settings of the simplifier.

pub mod analyze;

use vstd::prelude::*;
use crate::debug::DebugFilters;
use crate::generate::ProtoSignature;
use crate::parser::ProtoLineRange;

verus! {

/// What the generator's comments say about one HIR function.
#[derive(Debug, Clone, Eq, PartialEq)]
pub struct HirProtoSummary {
    pub id: usize,
    pub source: Option<String>,
    pub line_range: ProtoLineRange,
    pub signature: ProtoSignature,
    pub local_count: usize,
    pub upvalue_count: usize,
}

/// Which simplification passes dump their intermediate result, and how.
#[derive(Debug, Clone, Eq, PartialEq)]
pub struct PassDumpConfig {
    pub pass_names: Vec<String>,
    pub filters: DebugFilters,
}

} // verus!
