//! The layers the pipeline drives.
//!
//! Each stage of the pipeline hands its inputs to one layer of the
//! decompiler (parser, transformer, CFG builder, structure analysis, HIR,
//! AST, naming, generator) and stores what comes back. A layer's behaviour is
//! named by a relation between its inputs and its outcome; the pipeline's
//! contracts say, over these relations, which layer received which products
//! and options and what each slot of the state holds. The relations make no
//! claim that a layer is deterministic. An implementation defines the
//! relations of its layers; one it leaves undefined states nothing about
//! that layer.

use vstd::prelude::*;
use crate::ast::{AstDialectVersion, AstTargetDialect};
use crate::debug::{DebugColorMode, DebugDetail, DebugFilters};
use crate::generate::{GenerateCommentMetadata, GenerateMode, GenerateOptions};
use crate::hir::{HirProtoSummary, PassDumpConfig};
use crate::naming::NamingOptions;
use crate::parser::ParseOptions;
use crate::readability::ReadabilityOptions;
use super::options::{DecompileDialect, DecompileOptions};
use super::pipeline::string_views;

verus! {

/// The decompiler layers, one method per operation the pipeline calls.
pub trait DecompileBackend: Sized {
    /// Parser product.
    type RawChunk;
    /// Low-level IR of the transformer.
    type LoweredChunk;
    /// Control-flow graphs of every function.
    type CfgGraph;
    /// Dominator and loop facts of the graphs.
    type GraphFacts;
    /// Def-use facts.
    type DataflowFacts;
    /// Recovered control structure.
    type StructureFacts;
    /// High-level IR.
    type HirModule;
    /// Source-level syntax tree.
    type AstModule;
    /// A language feature that some dialects lack.
    type AstFeature;
    /// Evidence the naming layer gathers from the HIR.
    type NamingEvidence;
    /// Chosen names.
    type NameMap;
    /// Generated source.
    type GeneratedChunk;
    /// Stage timings.
    type TimingReport;
    /// A collector of timing marks.
    type Timings;
    /// Failure of a layer.
    type Error;

    /// `r` is an outcome of parsing `bytes` as `dialect`.
    closed spec fn parses(
        &self,
        dialect: DecompileDialect,
        bytes: Seq<u8>,
        options: ParseOptions,
        r: Result<Self::RawChunk, Self::Error>,
    ) -> bool {
        arbitrary()
    }

    fn parse_lua51_chunk(&self, bytes: &[u8], options: ParseOptions) -> (r: Result<Self::RawChunk, Self::Error>)
        ensures
            self.parses(DecompileDialect::Lua51, bytes@, options, r),
    ;

    fn parse_lua52_chunk(&self, bytes: &[u8], options: ParseOptions) -> (r: Result<Self::RawChunk, Self::Error>)
        ensures
            self.parses(DecompileDialect::Lua52, bytes@, options, r),
    ;

    fn parse_lua53_chunk(&self, bytes: &[u8], options: ParseOptions) -> (r: Result<Self::RawChunk, Self::Error>)
        ensures
            self.parses(DecompileDialect::Lua53, bytes@, options, r),
    ;

    fn parse_lua54_chunk(&self, bytes: &[u8], options: ParseOptions) -> (r: Result<Self::RawChunk, Self::Error>)
        ensures
            self.parses(DecompileDialect::Lua54, bytes@, options, r),
    ;

    fn parse_lua55_chunk(&self, bytes: &[u8], options: ParseOptions) -> (r: Result<Self::RawChunk, Self::Error>)
        ensures
            self.parses(DecompileDialect::Lua55, bytes@, options, r),
    ;

    fn parse_luajit_chunk(&self, bytes: &[u8], options: ParseOptions) -> (r: Result<Self::RawChunk, Self::Error>)
        ensures
            self.parses(DecompileDialect::Luajit, bytes@, options, r),
    ;

    fn parse_luau_chunk(&self, bytes: &[u8], options: ParseOptions) -> (r: Result<Self::RawChunk, Self::Error>)
        ensures
            self.parses(DecompileDialect::Luau, bytes@, options, r),
    ;

    /// The dialect recorded in a chunk's header.
    closed spec fn recorded_dialect(&self, chunk: Self::RawChunk) -> DecompileDialect {
        arbitrary()
    }

    fn chunk_dialect(&self, chunk: &Self::RawChunk) -> (r: DecompileDialect)
        ensures
            r == self.recorded_dialect(*chunk),
    ;

    /// `text` is a dump of `chunk` by the dumper of `dialect`.
    closed spec fn dumps_chunk(&self, dialect: DecompileDialect, chunk: Self::RawChunk, detail: DebugDetail, filters: DebugFilters, color: DebugColorMode, text: Seq<char>) -> bool {
        arbitrary()
    }

    fn dump_lua51_chunk(&self, chunk: &Self::RawChunk, detail: DebugDetail, filters: &DebugFilters, color: DebugColorMode) -> (r: String)
        ensures
            self.dumps_chunk(DecompileDialect::Lua51, *chunk, detail, *filters, color, r@),
    ;

    fn dump_lua52_chunk(&self, chunk: &Self::RawChunk, detail: DebugDetail, filters: &DebugFilters, color: DebugColorMode) -> (r: String)
        ensures
            self.dumps_chunk(DecompileDialect::Lua52, *chunk, detail, *filters, color, r@),
    ;

    fn dump_lua53_chunk(&self, chunk: &Self::RawChunk, detail: DebugDetail, filters: &DebugFilters, color: DebugColorMode) -> (r: String)
        ensures
            self.dumps_chunk(DecompileDialect::Lua53, *chunk, detail, *filters, color, r@),
    ;

    fn dump_lua54_chunk(&self, chunk: &Self::RawChunk, detail: DebugDetail, filters: &DebugFilters, color: DebugColorMode) -> (r: String)
        ensures
            self.dumps_chunk(DecompileDialect::Lua54, *chunk, detail, *filters, color, r@),
    ;

    fn dump_lua55_chunk(&self, chunk: &Self::RawChunk, detail: DebugDetail, filters: &DebugFilters, color: DebugColorMode) -> (r: String)
        ensures
            self.dumps_chunk(DecompileDialect::Lua55, *chunk, detail, *filters, color, r@),
    ;

    fn dump_luajit_chunk(&self, chunk: &Self::RawChunk, detail: DebugDetail, filters: &DebugFilters, color: DebugColorMode) -> (r: String)
        ensures
            self.dumps_chunk(DecompileDialect::Luajit, *chunk, detail, *filters, color, r@),
    ;

    fn dump_luau_chunk(&self, chunk: &Self::RawChunk, detail: DebugDetail, filters: &DebugFilters, color: DebugColorMode) -> (r: String)
        ensures
            self.dumps_chunk(DecompileDialect::Luau, *chunk, detail, *filters, color, r@),
    ;

    /// `r` is an outcome of lowering `raw` to the low-level IR.
    closed spec fn lowers(&self, raw: Self::RawChunk, r: Result<Self::LoweredChunk, Self::Error>) -> bool {
        arbitrary()
    }

    fn lower_chunk(&self, raw: &Self::RawChunk) -> (r: Result<Self::LoweredChunk, Self::Error>)
        ensures
            self.lowers(*raw, r),
    ;

    /// `text` is a dump of the low-level IR.
    closed spec fn dumps_lir(&self, lowered: Self::LoweredChunk, detail: DebugDetail, filters: DebugFilters, color: DebugColorMode, text: Seq<char>) -> bool {
        arbitrary()
    }

    fn dump_lir(&self, lowered: &Self::LoweredChunk, detail: DebugDetail, filters: &DebugFilters, color: DebugColorMode) -> (r: String)
        ensures
            self.dumps_lir(*lowered, detail, *filters, color, r@),
    ;

    /// `cfg` is a set of graphs built from `lowered`.
    closed spec fn builds_cfg(&self, lowered: Self::LoweredChunk, cfg: Self::CfgGraph) -> bool {
        arbitrary()
    }

    fn build_cfg(&self, lowered: &Self::LoweredChunk) -> (r: Self::CfgGraph)
        ensures
            self.builds_cfg(*lowered, r),
    ;

    /// `text` is a dump of the graphs.
    closed spec fn dumps_cfg(&self, cfg: Self::CfgGraph, detail: DebugDetail, filters: DebugFilters, color: DebugColorMode, text: Seq<char>) -> bool {
        arbitrary()
    }

    fn dump_cfg(&self, cfg: &Self::CfgGraph, detail: DebugDetail, filters: &DebugFilters, color: DebugColorMode) -> (r: String)
        ensures
            self.dumps_cfg(*cfg, detail, *filters, color, r@),
    ;

    /// `facts` are the graph facts of `cfg`.
    closed spec fn analyzes_graph(&self, cfg: Self::CfgGraph, facts: Self::GraphFacts) -> bool {
        arbitrary()
    }

    fn analyze_graph_facts(&self, cfg: &Self::CfgGraph) -> (r: Self::GraphFacts)
        ensures
            self.analyzes_graph(*cfg, r),
    ;

    /// `text` is a dump of the graph facts.
    closed spec fn dumps_graph_facts(&self, facts: Self::GraphFacts, detail: DebugDetail, filters: DebugFilters, color: DebugColorMode, text: Seq<char>) -> bool {
        arbitrary()
    }

    fn dump_graph_facts(&self, facts: &Self::GraphFacts, detail: DebugDetail, filters: &DebugFilters, color: DebugColorMode) -> (r: String)
        ensures
            self.dumps_graph_facts(*facts, detail, *filters, color, r@),
    ;

    /// `facts` are the dataflow facts of the IR over its graphs.
    closed spec fn analyzes_dataflow(
        &self,
        lowered: Self::LoweredChunk,
        cfg: Self::CfgGraph,
        graph_facts: Self::GraphFacts,
        facts: Self::DataflowFacts,
    ) -> bool {
        arbitrary()
    }

    fn analyze_dataflow(
        &self,
        lowered: &Self::LoweredChunk,
        cfg: &Self::CfgGraph,
        graph_facts: &Self::GraphFacts,
    ) -> (r: Self::DataflowFacts)
        ensures
            self.analyzes_dataflow(*lowered, *cfg, *graph_facts, r),
    ;

    /// `text` is a dump of the dataflow facts over the IR and its graphs.
    closed spec fn dumps_dataflow(
        &self,
        lowered: Self::LoweredChunk,
        cfg: Self::CfgGraph,
        facts: Self::DataflowFacts,
        detail: DebugDetail, filters: DebugFilters, color: DebugColorMode, text: Seq<char>,
    ) -> bool {
        arbitrary()
    }

    fn dump_dataflow(
        &self,
        lowered: &Self::LoweredChunk,
        cfg: &Self::CfgGraph,
        dataflow: &Self::DataflowFacts,
        detail: DebugDetail,
        filters: &DebugFilters,
        color: DebugColorMode,
    ) -> (r: String)
        ensures
            self.dumps_dataflow(*lowered, *cfg, *dataflow, detail, *filters, color, r@),
    ;

    /// `facts` is the control structure recovered from the earlier products.
    closed spec fn analyzes_structure(
        &self,
        lowered: Self::LoweredChunk,
        cfg: Self::CfgGraph,
        graph_facts: Self::GraphFacts,
        dataflow: Self::DataflowFacts,
        options: DecompileOptions,
        facts: Self::StructureFacts,
    ) -> bool {
        arbitrary()
    }

    fn analyze_structure(
        &self,
        lowered: &Self::LoweredChunk,
        cfg: &Self::CfgGraph,
        graph_facts: &Self::GraphFacts,
        dataflow: &Self::DataflowFacts,
        options: &DecompileOptions,
    ) -> (r: Self::StructureFacts)
        ensures
            self.analyzes_structure(*lowered, *cfg, *graph_facts, *dataflow, *options, r),
    ;

    /// `text` is a dump of the structure facts.
    closed spec fn dumps_structure(&self, facts: Self::StructureFacts, detail: DebugDetail, filters: DebugFilters, color: DebugColorMode, text: Seq<char>) -> bool {
        arbitrary()
    }

    fn dump_structure(&self, facts: &Self::StructureFacts, detail: DebugDetail, filters: &DebugFilters, color: DebugColorMode) -> (r: String)
        ensures
            self.dumps_structure(*facts, detail, *filters, color, r@),
    ;

    /// `module` is a first HIR recovered from the earlier products.
    closed spec fn lowers_hir(
        &self,
        lowered: Self::LoweredChunk,
        cfg: Self::CfgGraph,
        graph_facts: Self::GraphFacts,
        dataflow: Self::DataflowFacts,
        structure: Self::StructureFacts,
        module: Self::HirModule,
    ) -> bool {
        arbitrary()
    }

    fn lower_hir(
        &self,
        lowered: &Self::LoweredChunk,
        cfg: &Self::CfgGraph,
        graph_facts: &Self::GraphFacts,
        dataflow: &Self::DataflowFacts,
        structure: &Self::StructureFacts,
    ) -> (r: Self::HirModule)
        ensures
            self.lowers_hir(*lowered, *cfg, *graph_facts, *dataflow, *structure, r),
    ;

    /// `after` is `before` simplified with these settings.
    closed spec fn simplifies_hir(
        &self,
        before: Self::HirModule,
        readability: ReadabilityOptions,
        mode: GenerateMode,
        dialect: AstDialectVersion,
        pass_names: Seq<String>,
        filters: DebugFilters,
        after: Self::HirModule,
    ) -> bool {
        arbitrary()
    }

    /// The HIR simplification passes, in place.
    fn simplify_hir(
        &self,
        module: &mut Self::HirModule,
        readability: ReadabilityOptions,
        mode: GenerateMode,
        dialect: AstDialectVersion,
        dump: &PassDumpConfig,
    )
        ensures
            self.simplifies_hir(
                *old(module),
                readability,
                mode,
                dialect,
                dump.pass_names@,
                dump.filters,
                *final(module),
            ),
    ;

    /// `text` is a dump of the HIR.
    closed spec fn dumps_hir(&self, module: Self::HirModule, detail: DebugDetail, filters: DebugFilters, color: DebugColorMode, text: Seq<char>) -> bool {
        arbitrary()
    }

    fn dump_hir(&self, module: &Self::HirModule, detail: DebugDetail, filters: &DebugFilters, color: DebugColorMode) -> (r: String)
        ensures
            self.dumps_hir(*module, detail, *filters, color, r@),
    ;

    /// Index of the entry function among the HIR functions.
    closed spec fn hir_entry_of(&self, module: Self::HirModule) -> usize {
        arbitrary()
    }

    fn hir_entry(&self, module: &Self::HirModule) -> (r: usize)
        ensures
            r == self.hir_entry_of(*module),
    ;

    /// What generated comments describe of each HIR function, in order.
    closed spec fn hir_protos_of(&self, module: Self::HirModule) -> Seq<HirProtoSummary> {
        arbitrary()
    }

    fn hir_proto_summaries(&self, module: &Self::HirModule) -> (r: Vec<HirProtoSummary>)
        ensures
            r@ == self.hir_protos_of(*module),
    ;

    /// `r` is an outcome of lowering the HIR to an AST for `target`.
    closed spec fn lowers_ast(
        &self,
        hir: Self::HirModule,
        target: AstTargetDialect,
        mode: GenerateMode,
        r: Result<Self::AstModule, Self::Error>,
    ) -> bool {
        arbitrary()
    }

    fn lower_ast(&self, hir: &Self::HirModule, target: AstTargetDialect, mode: GenerateMode) -> (r: Result<Self::AstModule, Self::Error>)
        ensures
            self.lowers_ast(*hir, target, mode, r),
    ;

    /// `text` is a dump of the AST.
    closed spec fn dumps_ast(&self, module: Self::AstModule, detail: DebugDetail, filters: DebugFilters, color: DebugColorMode, text: Seq<char>) -> bool {
        arbitrary()
    }

    fn dump_ast(&self, module: &Self::AstModule, detail: DebugDetail, filters: &DebugFilters, color: DebugColorMode) -> (r: String)
        ensures
            self.dumps_ast(*module, detail, *filters, color, r@),
    ;

    /// `r` is `module` after the readability passes.
    closed spec fn makes_readable(
        &self,
        module: Self::AstModule,
        target: AstTargetDialect,
        options: ReadabilityOptions,
        dump_passes: Seq<String>,
        r: Self::AstModule,
    ) -> bool {
        arbitrary()
    }

    fn make_readable(
        &self,
        module: &Self::AstModule,
        target: AstTargetDialect,
        options: ReadabilityOptions,
        dump_passes: &Vec<String>,
    ) -> (r: Self::AstModule)
        ensures
            self.makes_readable(*module, target, options, dump_passes@, r),
    ;

    /// `text` is a dump of the readable AST.
    closed spec fn dumps_readability(&self, module: Self::AstModule, detail: DebugDetail, filters: DebugFilters, color: DebugColorMode, text: Seq<char>) -> bool {
        arbitrary()
    }

    fn dump_readability(&self, module: &Self::AstModule, detail: DebugDetail, filters: &DebugFilters, color: DebugColorMode) -> (r: String)
        ensures
            self.dumps_readability(*module, detail, *filters, color, r@),
    ;

    /// `features` are the features `module` uses.
    closed spec fn collects_features(&self, module: Self::AstModule, features: Seq<Self::AstFeature>) -> bool {
        arbitrary()
    }

    fn collect_ast_features(&self, module: &Self::AstModule) -> (r: Vec<Self::AstFeature>)
        ensures
            self.collects_features(*module, r@),
    ;

    /// Whether the target dialect has the feature.
    closed spec fn supports(&self, target: AstTargetDialect, feature: Self::AstFeature) -> bool {
        arbitrary()
    }

    fn supports_feature(&self, target: AstTargetDialect, feature: &Self::AstFeature) -> (r: bool)
        ensures
            r == self.supports(target, *feature),
    ;

    /// Name of a feature, as warnings print it.
    closed spec fn feature_name(&self, feature: Self::AstFeature) -> Seq<char> {
        arbitrary()
    }

    fn ast_feature_name(&self, feature: &Self::AstFeature) -> (r: String)
        ensures
            r@ == self.feature_name(*feature),
    ;

    /// Name of a dialect, as warnings print it.
    closed spec fn dialect_name(&self, version: AstDialectVersion) -> Seq<char> {
        arbitrary()
    }

    fn ast_dialect_name(&self, version: AstDialectVersion) -> (r: String)
        ensures
            r@ == self.dialect_name(version),
    ;

    /// `r` is an outcome of gathering naming evidence from the HIR.
    closed spec fn collects_evidence(&self, hir: Self::HirModule, r: Result<Self::NamingEvidence, Self::Error>) -> bool {
        arbitrary()
    }

    fn collect_naming_evidence(&self, hir: &Self::HirModule) -> (r: Result<Self::NamingEvidence, Self::Error>)
        ensures
            self.collects_evidence(*hir, r),
    ;

    /// `r` is an outcome of choosing names.
    closed spec fn assigns_names(
        &self,
        readable: Self::AstModule,
        hir: Self::HirModule,
        evidence: Self::NamingEvidence,
        options: NamingOptions,
        r: Result<Self::NameMap, Self::Error>,
    ) -> bool {
        arbitrary()
    }

    fn assign_names_with_evidence(
        &self,
        readable: &Self::AstModule,
        hir: &Self::HirModule,
        evidence: &Self::NamingEvidence,
        options: NamingOptions,
    ) -> (r: Result<Self::NameMap, Self::Error>)
        ensures
            self.assigns_names(*readable, *hir, *evidence, options, r),
    ;

    /// `text` is a dump of the names.
    closed spec fn dumps_naming(&self, names: Self::NameMap, detail: DebugDetail, filters: DebugFilters, color: DebugColorMode, text: Seq<char>) -> bool {
        arbitrary()
    }

    fn dump_naming(&self, names: &Self::NameMap, detail: DebugDetail, filters: &DebugFilters, color: DebugColorMode) -> (r: String)
        ensures
            self.dumps_naming(*names, detail, *filters, color, r@),
    ;

    /// `r` is an outcome of generating source.
    closed spec fn generates(
        &self,
        readable: Self::AstModule,
        names: Self::NameMap,
        target: AstTargetDialect,
        comments: Option<GenerateCommentMetadata>,
        options: GenerateOptions,
        r: Result<Self::GeneratedChunk, Self::Error>,
    ) -> bool {
        arbitrary()
    }

    fn generate_chunk(
        &self,
        readable: &Self::AstModule,
        names: &Self::NameMap,
        target: AstTargetDialect,
        comments: &Option<GenerateCommentMetadata>,
        options: GenerateOptions,
    ) -> (r: Result<Self::GeneratedChunk, Self::Error>)
        ensures
            self.generates(*readable, *names, target, *comments, options, r),
    ;

    /// `after` is `before` carrying `warnings` in place of its own.
    closed spec fn attaches_warnings(
        &self,
        before: Self::GeneratedChunk,
        warnings: Seq<Seq<char>>,
        after: Self::GeneratedChunk,
    ) -> bool {
        arbitrary()
    }

    /// Replaces the warnings the generated chunk carries.
    fn set_generated_warnings(&self, chunk: &mut Self::GeneratedChunk, warnings: Vec<String>)
        ensures
            self.attaches_warnings(*old(chunk), string_views(warnings@), *final(chunk)),
    ;

    /// `text` is a dump of the generated chunk.
    closed spec fn dumps_generate(&self, chunk: Self::GeneratedChunk, detail: DebugDetail, filters: DebugFilters, color: DebugColorMode, text: Seq<char>) -> bool {
        arbitrary()
    }

    fn dump_generate(&self, chunk: &Self::GeneratedChunk, detail: DebugDetail, filters: &DebugFilters, color: DebugColorMode) -> (r: String)
        ensures
            self.dumps_generate(*chunk, detail, *filters, color, r@),
    ;

    /// The marks recorded in a timing collector, in order: `(true, label)`
    /// opens the span named `label`, `(false, label)` closes it.
    closed spec fn timing_marks(&self, timings: Self::Timings) -> Seq<(bool, Seq<char>)> {
        arbitrary()
    }

    /// Whether a timing collector was started enabled.
    closed spec fn timing_enabled(&self, timings: Self::Timings) -> bool {
        arbitrary()
    }

    /// A collector with no marks.
    fn start_timing(&self, enabled: bool) -> (r: Self::Timings)
        ensures
            self.timing_marks(r) == Seq::<(bool, Seq<char>)>::empty(),
            self.timing_enabled(r) == enabled,
    ;

    /// Opens the span named `label`.
    fn begin_timing(&self, timings: &mut Self::Timings, label: &str)
        ensures
            self.timing_marks(*final(timings)) == self.timing_marks(*old(timings)).push(
                (true, label@),
            ),
            self.timing_enabled(*final(timings)) == self.timing_enabled(*old(timings)),
    ;

    /// Closes the span named `label`.
    fn end_timing(&self, timings: &mut Self::Timings, label: &str)
        ensures
            self.timing_marks(*final(timings)) == self.timing_marks(*old(timings)).push(
                (false, label@),
            ),
            self.timing_enabled(*final(timings)) == self.timing_enabled(*old(timings)),
    ;

    /// `r` is the report of the recorded `marks`.
    closed spec fn reports_timing(&self, marks: Seq<(bool, Seq<char>)>, r: Option<Self::TimingReport>) -> bool {
        arbitrary()
    }

    /// The report of the recorded spans; there is one exactly when the
    /// collector was started enabled.
    fn finish_timing(&self, timings: &Self::Timings) -> (r: Option<Self::TimingReport>)
        ensures
            self.reports_timing(self.timing_marks(*timings), r),
            r is Some <==> self.timing_enabled(*timings),
    ;
}

} // verus!
