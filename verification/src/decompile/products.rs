//! What each slot of the state holds after its stage ran, what a failed
//! stage returns and what each dump shows, all stated over the layers'
//! relations.

use vstd::prelude::*;
use crate::ast::AstTargetDialect;
use crate::debug::{DebugColorMode, DebugDetail, DebugFilters};
use crate::generate::{GenerateCommentMetadata, GenerateMode, GenerateOptions};
use super::backend::DecompileBackend;
use super::debug::{DebugOptions, StageDebugOutput};
use super::options::DecompileOptions;
use super::pipeline::{feature_warnings, function_comment_metadata};
use super::state::{DecompileStage, DecompileState, stage_at};

verus! {

/// The dialect the pipeline asks the AST layer and the generator for.
pub open spec fn requested_target(options: DecompileOptions) -> AstTargetDialect {
    AstTargetDialect { version: options.dialect.ast_version(), relaxed: false }
}

/// The requested target is never relaxed, whatever the generate mode: the
/// readability passes, the generator and the feature check are held to the
/// requested dialect's version. Only the AST lowering target is relaxed, and
/// only in permissive mode.
pub proof fn law_requested_target_is_strict(options: DecompileOptions)
    ensures
        !requested_target(options).relaxed,
        requested_target(options).version == options.dialect.ast_version(),
        lowering_target_of(requested_target(options), GenerateMode::Strict) == requested_target(
            options,
        ),
        lowering_target_of(requested_target(options), GenerateMode::Permissive).relaxed,
        lowering_target_of(requested_target(options), GenerateMode::Permissive).version
            == options.dialect.ast_version(),
{
}

/// The dialect the AST is lowered for: the requested one in strict mode, a
/// relaxed target of the same version in permissive mode.
pub open spec fn lowering_target_of(requested: AstTargetDialect, mode: GenerateMode) -> AstTargetDialect {
    if mode == GenerateMode::Strict {
        requested
    } else {
        AstTargetDialect { version: requested.version, relaxed: true }
    }
}

/// `c` describes the functions of `hir`: the chunk's file name is the
/// source of the entry function when that function exists, and there is
/// one entry per function, in order.
pub open spec fn comments_describe<B: DecompileBackend>(
    backend: &B,
    hir: B::HirModule,
    encoding: Seq<char>,
    c: GenerateCommentMetadata,
) -> bool {
    let protos = backend.hir_protos_of(hir);
    let entry = backend.hir_entry_of(hir);
    &&& c.chunk.file_name == (if entry < protos.len() {
        protos[entry as int].source
    } else {
        None
    })
    &&& c.chunk.encoding@ == encoding
    &&& c.functions@.len() == protos.len()
    &&& forall|i: int|
        0 <= i < protos.len() ==> #[trigger] c.functions@[i] == function_comment_metadata(protos[i])
}

/// The comment metadata handed to the generator: none unless comments are
/// asked for, otherwise a description of the HIR's functions.
pub open spec fn comment_choice<B: DecompileBackend>(
    backend: &B,
    hir: B::HirModule,
    options: DecompileOptions,
    c: Option<GenerateCommentMetadata>,
) -> bool {
    if options.generate.comment {
        c matches Some(m) && comments_describe(
            backend,
            hir,
            options.parse.string_encoding.label_view(),
            m,
        )
    } else {
        c is None
    }
}

/// `w` are the warnings of generating `readable` for `target` in `mode`:
/// none in strict mode, otherwise those of the features the layer reports,
/// by whether the target supports each.
pub open spec fn warnings_for<B: DecompileBackend>(
    backend: &B,
    readable: B::AstModule,
    target: AstTargetDialect,
    mode: GenerateMode,
    w: Seq<Seq<char>>,
) -> bool {
    if mode == GenerateMode::Strict {
        w == Seq::<Seq<char>>::empty()
    } else {
        exists|features: Seq<B::AstFeature>|
            #[trigger] backend.collects_features(readable, features) && w == feature_warnings(
                mode,
                backend.dialect_name(target.version),
                features.map_values(|f: B::AstFeature| backend.feature_name(f)),
                features.map_values(|f: B::AstFeature| backend.supports(target, f)),
            )
    }
}

/// `generated` is a chunk the generator made from these products for
/// `target` in `mode` (the other generate options as configured), with the
/// comment metadata the options call for, and then made to carry
/// `warnings`.
pub open spec fn generated_with<B: DecompileBackend>(
    backend: &B,
    options: DecompileOptions,
    hir: B::HirModule,
    readable: B::AstModule,
    names: B::NameMap,
    target: AstTargetDialect,
    mode: GenerateMode,
    warnings: Seq<Seq<char>>,
    generated: B::GeneratedChunk,
) -> bool {
    exists|comments: Option<GenerateCommentMetadata>, produced: B::GeneratedChunk|
        #![trigger backend.attaches_warnings(produced, warnings, generated), comment_choice(backend, hir, options, comments)]
        comment_choice(backend, hir, options, comments) && backend.generates(
            readable,
            names,
            target,
            comments,
            GenerateOptions { mode, ..options.generate },
            Ok(produced),
        ) && backend.attaches_warnings(produced, warnings, generated)
}

/// `e` is an error the generator can return on these products for `target`
/// in `mode`, with the comment metadata the options call for.
pub open spec fn generation_fails<B: DecompileBackend>(
    backend: &B,
    options: DecompileOptions,
    hir: B::HirModule,
    readable: B::AstModule,
    names: B::NameMap,
    target: AstTargetDialect,
    mode: GenerateMode,
    e: B::Error,
) -> bool {
    exists|comments: Option<GenerateCommentMetadata>|
        #[trigger] comment_choice(backend, hir, options, comments) && backend.generates(
            readable,
            names,
            target,
            comments,
            GenerateOptions { mode, ..options.generate },
            Err(e),
        )
}

/// The slot of `stage` holds an outcome of its layer on the products of
/// the stages before it, with the options the pipeline hands that layer
/// and `target` as the requested dialect.
pub open spec fn stage_product_for<B: DecompileBackend>(
    backend: &B,
    bytes: Seq<u8>,
    options: DecompileOptions,
    target: AstTargetDialect,
    state: DecompileState<B>,
    stage: DecompileStage,
) -> bool {
    match stage {
        DecompileStage::Parse => state.raw_chunk is Some && backend.parses(
            options.dialect,
            bytes,
            options.parse,
            Ok(state.raw_chunk->0),
        ),
        DecompileStage::Transform => state.lowered is Some && backend.lowers(
            state.raw_chunk->0,
            Ok(state.lowered->0),
        ),
        DecompileStage::Cfg => state.cfg is Some && backend.builds_cfg(
            state.lowered->0,
            state.cfg->0,
        ),
        DecompileStage::GraphFacts => state.graph_facts is Some && backend.analyzes_graph(
            state.cfg->0,
            state.graph_facts->0,
        ),
        DecompileStage::Dataflow => state.dataflow is Some && backend.analyzes_dataflow(
            state.lowered->0,
            state.cfg->0,
            state.graph_facts->0,
            state.dataflow->0,
        ),
        DecompileStage::StructureFacts => state.structure_facts is Some
            && backend.analyzes_structure(
            state.lowered->0,
            state.cfg->0,
            state.graph_facts->0,
            state.dataflow->0,
            options,
            state.structure_facts->0,
        ),
        DecompileStage::Hir => state.hir is Some && exists|lowered: B::HirModule|
            #[trigger] backend.lowers_hir(
                state.lowered->0,
                state.cfg->0,
                state.graph_facts->0,
                state.dataflow->0,
                state.structure_facts->0,
                lowered,
            ) && backend.simplifies_hir(
                lowered,
                options.readability,
                options.generate.mode,
                options.dialect.ast_version(),
                options.debug.dump_passes@,
                options.debug.filters,
                state.hir->0,
            ),
        DecompileStage::Ast => state.ast is Some && backend.lowers_ast(
            state.hir->0,
            lowering_target_of(target, options.generate.mode),
            options.generate.mode,
            Ok(state.ast->0),
        ),
        DecompileStage::Readability => state.readability is Some && backend.makes_readable(
            state.ast->0,
            target,
            options.readability,
            options.debug.dump_passes@,
            state.readability->0,
        ),
        DecompileStage::Naming => state.naming is Some && exists|evidence: B::NamingEvidence|
            #[trigger] backend.collects_evidence(state.hir->0, Ok(evidence))
                && backend.assigns_names(
                state.readability->0,
                state.hir->0,
                evidence,
                options.naming,
                Ok(state.naming->0),
            ),
        DecompileStage::Generate => state.generated is Some && exists|warnings: Seq<Seq<char>>|
            #[trigger] warnings_for(
                backend,
                state.readability->0,
                target,
                options.generate.mode,
                warnings,
            ) && generated_with(
                backend,
                options,
                state.hir->0,
                state.readability->0,
                state.naming->0,
                target,
                options.generate.mode,
                warnings,
                state.generated->0,
            ),
    }
}

/// The slot of `stage` holds an outcome of its layer on the products of
/// the stages before it, with the options the pipeline hands that layer.
pub open spec fn stage_product_ok<B: DecompileBackend>(
    backend: &B,
    bytes: Seq<u8>,
    options: DecompileOptions,
    state: DecompileState<B>,
    stage: DecompileStage,
) -> bool {
    stage_product_for(backend, bytes, options, requested_target(options), state, stage)
}

/// Every stage before position `n` holds its layer's outcome.
pub open spec fn products_ok_before<B: DecompileBackend>(
    backend: &B,
    bytes: Seq<u8>,
    options: DecompileOptions,
    state: DecompileState<B>,
    n: nat,
) -> bool {
    forall|s: DecompileStage|
        s.index() < n ==> #[trigger] stage_product_ok(backend, bytes, options, state, s)
}

/// `e` is an error the layer of `stage` can return on the products in
/// `state`, with `target` as the requested dialect; stages whose layer
/// cannot fail have no such error.
pub open spec fn stage_fails_for<B: DecompileBackend>(
    backend: &B,
    bytes: Seq<u8>,
    options: DecompileOptions,
    target: AstTargetDialect,
    state: DecompileState<B>,
    stage: DecompileStage,
    e: B::Error,
) -> bool {
    match stage {
        DecompileStage::Parse => backend.parses(options.dialect, bytes, options.parse, Err(e)),
        DecompileStage::Transform => backend.lowers(state.raw_chunk->0, Err(e)),
        DecompileStage::Ast => backend.lowers_ast(
            state.hir->0,
            lowering_target_of(target, options.generate.mode),
            options.generate.mode,
            Err(e),
        ),
        DecompileStage::Naming => backend.collects_evidence(state.hir->0, Err(e)) || exists|
            evidence: B::NamingEvidence,
        |
            #[trigger] backend.collects_evidence(state.hir->0, Ok(evidence))
                && backend.assigns_names(
                state.readability->0,
                state.hir->0,
                evidence,
                options.naming,
                Err(e),
            ),
        DecompileStage::Generate => generation_fails(
            backend,
            options,
            state.hir->0,
            state.readability->0,
            state.naming->0,
            target,
            options.generate.mode,
            e,
        ),
        _ => false,
    }
}

/// `e` is an error the layer of `stage` can return on the products in
/// `state`, with the requested dialect of the options.
pub open spec fn stage_fails<B: DecompileBackend>(
    backend: &B,
    bytes: Seq<u8>,
    options: DecompileOptions,
    state: DecompileState<B>,
    stage: DecompileStage,
    e: B::Error,
) -> bool {
    stage_fails_for(backend, bytes, options, requested_target(options), state, stage, e)
}

/// The spans a stage's layer opens inside the stage's own span: HIR
/// recovery times its lowering and its simplification, naming times its
/// evidence collection.
pub open spec fn inner_spans(stage: DecompileStage) -> Seq<(bool, Seq<char>)> {
    match stage {
        DecompileStage::Hir => seq![
            (true, "lower"@),
            (false, "lower"@),
            (true, "simplify"@),
            (false, "simplify"@),
        ],
        DecompileStage::Naming => seq![(true, "collect-evidence"@), (false, "collect-evidence"@)],
        _ => Seq::empty(),
    }
}

/// The marks a stage records with timing on: its own span, named after
/// the stage, around the spans of its layer; nothing with timing off.
pub open spec fn stage_spans(stage: DecompileStage, timing: bool) -> Seq<(bool, Seq<char>)> {
    if timing {
        seq![(true, stage.name_view())] + inner_spans(stage) + seq![(false, stage.name_view())]
    } else {
        Seq::empty()
    }
}

/// The marks of running the first `n` stages in order.
pub open spec fn schedule_spans(timing: bool, n: nat) -> Seq<(bool, Seq<char>)>
    decreases n,
{
    if n == 0 {
        Seq::empty()
    } else {
        match stage_at((n - 1) as nat) {
            Some(s) => schedule_spans(timing, (n - 1) as nat) + stage_spans(s, timing),
            None => schedule_spans(timing, (n - 1) as nat),
        }
    }
}

/// `text` is a dump of the product of `stage` in `state`, rendered with
/// these settings; the parser's dump is chosen by the dialect the chunk
/// records.
pub open spec fn stage_dump_ok<B: DecompileBackend>(
    backend: &B,
    state: DecompileState<B>,
    stage: DecompileStage,
    detail: DebugDetail,
    filters: DebugFilters,
    color: DebugColorMode,
    text: Seq<char>,
) -> bool {
    match stage {
        DecompileStage::Parse => backend.dumps_chunk(
            backend.recorded_dialect(state.raw_chunk->0),
            state.raw_chunk->0,
            detail,
            filters,
            color,
            text,
        ),
        DecompileStage::Transform => backend.dumps_lir(state.lowered->0, detail, filters, color, text),
        DecompileStage::Cfg => backend.dumps_cfg(state.cfg->0, detail, filters, color, text),
        DecompileStage::GraphFacts => backend.dumps_graph_facts(
            state.graph_facts->0,
            detail,
            filters,
            color,
            text,
        ),
        DecompileStage::Dataflow => backend.dumps_dataflow(
            state.lowered->0,
            state.cfg->0,
            state.dataflow->0,
            detail,
            filters,
            color,
            text,
        ),
        DecompileStage::StructureFacts => backend.dumps_structure(
            state.structure_facts->0,
            detail,
            filters,
            color,
            text,
        ),
        DecompileStage::Hir => backend.dumps_hir(state.hir->0, detail, filters, color, text),
        DecompileStage::Ast => backend.dumps_ast(state.ast->0, detail, filters, color, text),
        DecompileStage::Readability => backend.dumps_readability(
            state.readability->0,
            detail,
            filters,
            color,
            text,
        ),
        DecompileStage::Naming => backend.dumps_naming(state.naming->0, detail, filters, color, text),
        DecompileStage::Generate => backend.dumps_generate(
            state.generated->0,
            detail,
            filters,
            color,
            text,
        ),
    }
}

/// Every dump in `outputs` shows the product of its stage in `state`,
/// rendered with the debug settings.
pub open spec fn dumps_show_state<B: DecompileBackend>(
    backend: &B,
    state: DecompileState<B>,
    outputs: Seq<StageDebugOutput>,
    debug: DebugOptions,
) -> bool {
    forall|i: int|
        0 <= i < outputs.len() ==> #[trigger] stage_dump_ok(
            backend,
            state,
            outputs[i].stage,
            debug.detail,
            debug.filters,
            debug.color,
            outputs[i].content@,
        )
}

/// A stage's product, failure and dump only read the slots up to it, so
/// running a later stage leaves them as they were.
pub proof fn lemma_later_stage_frame<B: DecompileBackend>(
    backend: &B,
    bytes: Seq<u8>,
    options: DecompileOptions,
    before: DecompileState<B>,
    after: DecompileState<B>,
    stage: DecompileStage,
    s: DecompileStage,
)
    requires
        after.agrees_except(&before, stage),
        s.index() < stage.index(),
    ensures
        stage_product_ok(backend, bytes, options, after, s) == stage_product_ok(
            backend,
            bytes,
            options,
            before,
            s,
        ),
        forall|detail: DebugDetail, filters: DebugFilters, color: DebugColorMode, text: Seq<char>|
            #[trigger] stage_dump_ok(backend, after, s, detail, filters, color, text)
                == stage_dump_ok(backend, before, s, detail, filters, color, text),
{
    match s {
        DecompileStage::Parse => {},
        DecompileStage::Transform => {},
        DecompileStage::Cfg => {},
        DecompileStage::GraphFacts => {},
        DecompileStage::Dataflow => {},
        DecompileStage::StructureFacts => {},
        DecompileStage::Hir => {},
        DecompileStage::Ast => {},
        DecompileStage::Readability => {},
        DecompileStage::Naming => {},
        DecompileStage::Generate => {},
    }
}

} // verus!
