//! Debug options of the main pipeline and the text a stage dump produces.

use vstd::prelude::*;
use crate::debug::{DebugColorMode, DebugDetail, DebugFilters};
use crate::parser::debug::dump_parser_chunk;
use super::backend::DecompileBackend;
use super::products::stage_dump_ok;
use super::state::{DecompileStage, DecompileState};

verus! {

/// Debug options shared by the pipeline and its callers.
#[derive(Debug, Clone, Eq, PartialEq)]
pub struct DebugOptions {
    /// Whether any debug output is produced at all.
    pub enable: bool,
    /// The stages whose product is dumped.
    pub output_stages: Vec<DecompileStage>,
    /// Whether the stages are timed.
    pub timing: bool,
    pub color: DebugColorMode,
    pub detail: DebugDetail,
    pub filters: DebugFilters,
    /// Names of the simplification passes whose intermediate result is dumped.
    pub dump_passes: Vec<String>,
}

impl Default for DebugOptions {
    fn default() -> (r: Self)
        ensures
            !r.enable,
            r.output_stages@ == Seq::<DecompileStage>::empty(),
            !r.timing,
            r.color == DebugColorMode::Auto,
            r.detail == DebugDetail::Normal,
            r.filters.proto is None,
            r.dump_passes@ == Seq::<String>::empty(),
    {
        DebugOptions {
            enable: false,
            output_stages: Vec::new(),
            timing: false,
            color: DebugColorMode::default(),
            detail: DebugDetail::default(),
            filters: DebugFilters::default(),
            dump_passes: Vec::new(),
        }
    }
}

/// The debug text one stage dumped.
#[derive(Debug, Clone, Eq, PartialEq)]
pub struct StageDebugOutput {
    pub stage: DecompileStage,
    pub detail: DebugDetail,
    pub content: String,
}

/// Wraps a stage's dump text with the stage and the level of detail it was
/// rendered at.
pub fn stage_debug_output(stage: DecompileStage, options: &DebugOptions, content: String) -> (r:
    StageDebugOutput)
    ensures
        r.stage == stage,
        r.detail == options.detail,
        r.content == content,
{
    StageDebugOutput { stage, detail: options.detail, content }
}

/// Dump of the product of `stage`, which must be present in `state`; the
/// dataflow dump also shows the IR and the graphs it annotates.
pub fn dump_stage<B: DecompileBackend>(
    backend: &B,
    state: &DecompileState<B>,
    stage: DecompileStage,
    options: &DebugOptions,
) -> (r: StageDebugOutput)
    requires
        state.has_output(stage),
        stage == DecompileStage::Dataflow ==> state.lowered is Some && state.cfg is Some,
    ensures
        r.stage == stage,
        r.detail == options.detail,
        stage_dump_ok(backend, *state, stage, options.detail, options.filters, options.color, r.content@),
{
    let detail = options.detail;
    let filters = &options.filters;
    let color = options.color;
    let content = match stage {
        DecompileStage::Parse => dump_parser_chunk(backend, state.raw_chunk(), detail, filters, color),
        DecompileStage::Transform => backend.dump_lir(state.lowered(), detail, filters, color),
        DecompileStage::Cfg => backend.dump_cfg(state.cfg(), detail, filters, color),
        DecompileStage::GraphFacts => backend.dump_graph_facts(
            state.graph_facts(),
            detail,
            filters,
            color,
        ),
        DecompileStage::Dataflow => backend.dump_dataflow(
            state.lowered(),
            state.cfg(),
            state.dataflow(),
            detail,
            filters,
            color,
        ),
        DecompileStage::StructureFacts => backend.dump_structure(
            state.structure_facts(),
            detail,
            filters,
            color,
        ),
        DecompileStage::Hir => backend.dump_hir(state.hir(), detail, filters, color),
        DecompileStage::Ast => backend.dump_ast(state.ast(), detail, filters, color),
        DecompileStage::Readability => backend.dump_readability(
            state.readability(),
            detail,
            filters,
            color,
        ),
        DecompileStage::Naming => backend.dump_naming(state.naming(), detail, filters, color),
        DecompileStage::Generate => backend.dump_generate(state.generated(), detail, filters, color),
    };
    stage_debug_output(stage, options, content)
}

} // verus!
