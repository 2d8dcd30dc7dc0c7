//! The main decompilation pipeline: one entry point that normalises the
//! options, runs the stages in their fixed order, dumps the stages the
//! caller asked for and stops after the target stage.

use vstd::prelude::*;
use vstd::string::StringExecFns;
use crate::ast::{AstDialectVersion, AstTargetDialect};
use crate::generate::{
    GenerateOptions,
    GenerateChunkCommentMetadata,
    GenerateCommentMetadata,
    GenerateFunctionCommentMetadata,
    GenerateMode,
};
use crate::hir::HirProtoSummary;
use crate::hir::analyze::analyze_hir;
use super::backend::DecompileBackend;
use super::debug::{DebugOptions, StageDebugOutput, dump_stage};
use super::options::DecompileOptions;
use super::products::{
    comment_choice,
    generated_with,
    generation_fails,
    inner_spans,
    schedule_spans,
    stage_fails_for,
    stage_product_for,
    dumps_show_state,
    lowering_target_of,
    products_ok_before,
    requested_target,
    stage_dump_ok,
    stage_fails,
    stage_product_ok,
    warnings_for,
};
use super::stages::{ran_stages_before, run_decompile_stages, stage_can_fail};
use super::state::{DecompileStage, DecompileState, stage_at};

verus! {

/// What one call of the pipeline returns.
pub struct DecompileResult<B: DecompileBackend> {
    pub state: DecompileState<B>,
    pub debug_output: Vec<StageDebugOutput>,
    pub timing_report: Option<B::TimingReport>,
}

/// The stages a sequence of dumps belongs to, in order.
pub open spec fn dump_stages(outputs: Seq<StageDebugOutput>) -> Seq<DecompileStage> {
    outputs.map_values(|o: StageDebugOutput| o.stage)
}

/// Every dump was rendered at `detail`.
pub open spec fn dumps_rendered_at(outputs: Seq<StageDebugOutput>, detail: crate::debug::DebugDetail) -> bool {
    forall|i: int| 0 <= i < outputs.len() ==> #[trigger] outputs[i].detail == detail
}

/// Whether a run with these debug settings dumps `stage`.
pub open spec fn wants_dump(enable: bool, output_stages: Seq<DecompileStage>, stage: DecompileStage) -> bool {
    enable && output_stages.contains(stage)
}

/// The stages dumped by a run that executed the first `n` stages: those
/// requested, in pipeline order, each once.
pub open spec fn requested_dumps(enable: bool, output_stages: Seq<DecompileStage>, n: nat) -> Seq<DecompileStage>
    decreases n,
{
    if n == 0 {
        Seq::empty()
    } else {
        let prev = requested_dumps(enable, output_stages, (n - 1) as nat);
        match stage_at((n - 1) as nat) {
            Some(s) => if wants_dump(enable, output_stages, s) {
                prev.push(s)
            } else {
                prev
            },
            None => prev,
        }
    }
}

/// The dumps of a run that executed the first `n` stages are exactly the
/// requested stages among them, each once and in pipeline order; a run with
/// debugging off dumps nothing.
pub proof fn law_requested_dumps(enable: bool, output_stages: Seq<DecompileStage>, n: nat)
    ensures
        forall|s: DecompileStage|
            #![trigger requested_dumps(enable, output_stages, n).contains(s)]
            requested_dumps(enable, output_stages, n).contains(s) <==> (s.index() < n
                && wants_dump(enable, output_stages, s)),
        forall|i: int, j: int|
            0 <= i < j < requested_dumps(enable, output_stages, n).len() ==> (#[trigger] requested_dumps(
                enable,
                output_stages,
                n,
            )[i]).index() < (#[trigger] requested_dumps(enable, output_stages, n)[j]).index(),
        forall|i: int|
            0 <= i < requested_dumps(enable, output_stages, n).len() ==> (#[trigger] requested_dumps(
                enable,
                output_stages,
                n,
            )[i]).index() < n,
        !enable ==> requested_dumps(enable, output_stages, n).len() == 0,
    decreases n,
{
    if n > 0 {
        law_requested_dumps(enable, output_stages, (n - 1) as nat);
        let prev = requested_dumps(enable, output_stages, (n - 1) as nat);
        let cur = requested_dumps(enable, output_stages, n);
        if n - 1 < 11 {
            let t = stage_at((n - 1) as nat)->0;
            assert(t.index() == n - 1);
            if wants_dump(enable, output_stages, t) {
                assert(cur == prev.push(t));
                assert forall|s: DecompileStage| #[trigger] cur.contains(s) <==> (s.index() < n
                    && wants_dump(enable, output_stages, s)) by {
                    if s == t {
                        assert(cur[prev.len() as int] == t);
                    } else if cur.contains(s) {
                        let k = choose|k: int| 0 <= k < cur.len() && cur[k] == s;
                        assert(k < prev.len());
                        assert(prev[k] == s);
                        assert(prev.contains(s));
                    } else if s.index() < n && wants_dump(enable, output_stages, s) {
                        assert(s.index() != n - 1);
                        assert(prev.contains(s));
                        let k = choose|k: int| 0 <= k < prev.len() && prev[k] == s;
                        assert(cur[k] == s);
                    }
                }
            } else {
                assert forall|s: DecompileStage| #[trigger] cur.contains(s) <==> (s.index() < n
                    && wants_dump(enable, output_stages, s)) by {
                    if s.index() == n - 1 {
                        assert(s == t);
                    }
                }
            }
        } else {
            assert forall|s: DecompileStage| #[trigger] cur.contains(s) <==> (s.index() < n
                && wants_dump(enable, output_stages, s)) by {
                assert(s.index() < 11);
            }
        }
    }
}

/// A debug run that names no stage and does not time dumps exactly its
/// target stage.
pub proof fn law_default_dump_is_target(
    output_stages: Seq<DecompileStage>,
    timing: bool,
    target: DecompileStage,
)
    requires
        output_stages.len() == 0,
        !timing,
    ensures
        requested_dumps(
            true,
            crate::decompile::options::normalized_output_stages(true, timing, output_stages, target),
            target.index() + 1,
        ) == seq![target],
{
    let stages = crate::decompile::options::normalized_output_stages(true, timing, output_stages, target);
    assert(stages == seq![target]);
    law_requested_dumps(true, stages, target.index() + 1);
    let r = requested_dumps(true, stages, target.index() + 1);
    assert(stages[0] == target);
    assert(stages.contains(target));
    assert(r.contains(target));
    assert forall|i: int| 0 <= i < r.len() implies r[i] == target by {
        assert(r.contains(r[i]));
        assert(stages.contains(r[i]));
        assert(stages[0] == r[i]);
    }
    if r.len() > 1 {
        assert(r[0] == target && r[1] == target);
        assert(r[0].index() < r[1].index());
    }
    assert(r =~= seq![target]);
}

impl DecompileOptions {
    /// `self` is `options` after normalisation: only the dump list may
    /// differ, and it is the normalised one.
    pub open spec fn normalizes(&self, options: &DecompileOptions) -> bool {
        &&& self.debug.output_stages@ == options.normalized_stages()
        &&& self.dialect == options.dialect
        &&& self.parse == options.parse
        &&& self.target_stage == options.target_stage
        &&& self.debug.enable == options.debug.enable
        &&& self.debug.timing == options.debug.timing
        &&& self.debug.color == options.debug.color
        &&& self.debug.detail == options.debug.detail
        &&& self.debug.filters == options.debug.filters
        &&& self.debug.dump_passes == options.debug.dump_passes
        &&& self.readability == options.readability
        &&& self.naming == options.naming
        &&& self.generate == options.generate
    }
}

impl<B: DecompileBackend> DecompileResult<B> {
    /// The result is that of a successful run of `backend` on `bytes` with
    /// `options`: every stage up to the target ran, in order, on the
    /// products of the stages before it, and no later one; the requested
    /// stages among them were dumped in order, each dump showing its stage's
    /// product; and the timing report is the timing layer's report of each
    /// stage's span (around the spans of its layer), present exactly when
    /// debugging and timing are both on.
    pub open spec fn finished_for(&self, backend: &B, bytes: Seq<u8>, options: &DecompileOptions) -> bool {
        let n = options.target_stage.index() + 1;
        let timing = options.debug.enable && options.debug.timing;
        &&& self.state.dialect == options.dialect
        &&& self.state.target_stage == options.target_stage
        &&& self.state.completed_stage == Some(options.target_stage)
        &&& self.state.outputs_exactly_before(n)
        &&& exists|normalized: DecompileOptions|
            #[trigger] normalized.normalizes(options) && products_ok_before(
                backend,
                bytes,
                normalized,
                self.state,
                n,
            )
        &&& dump_stages(self.debug_output@) == requested_dumps(
            options.debug.enable,
            options.normalized_stages(),
            n,
        )
        &&& dumps_rendered_at(self.debug_output@, options.debug.detail)
        &&& dumps_show_state(backend, self.state, self.debug_output@, options.debug)
        &&& backend.reports_timing(schedule_spans(timing, n), self.timing_report)
        &&& (self.timing_report is Some <==> timing)
    }
}

/// `e` ends a run of `backend` on `bytes` with `options`: it is the error
/// of a layer that can fail, at a stage no later than the target, on
/// products of the earlier stages that their layers produced.
pub open spec fn run_fails_with<B: DecompileBackend>(
    backend: &B,
    bytes: Seq<u8>,
    options: DecompileOptions,
    e: B::Error,
) -> bool {
    exists|normalized: DecompileOptions, state: DecompileState<B>, failed: DecompileStage|
        #![trigger stage_fails(backend, bytes, normalized, state, failed, e)]
        {
            &&& normalized.normalizes(&options)
            &&& stage_can_fail(failed)
            &&& failed.index() <= options.target_stage.index()
            &&& products_ok_before(backend, bytes, normalized, state, failed.index())
            &&& stage_fails(backend, bytes, normalized, state, failed, e)
        }
}

/// The outcome of decompiling `bytes` with `options`: on success a result
/// as `finished_for` describes, on failure an error as `run_fails_with`
/// describes.
pub open spec fn decompile_outcome<B: DecompileBackend>(
    backend: &B,
    bytes: Seq<u8>,
    options: DecompileOptions,
    r: Result<DecompileResult<B>, B::Error>,
) -> bool {
    match r {
        Ok(res) => res.finished_for(backend, bytes, &options),
        Err(e) => run_fails_with(backend, bytes, options, e),
    }
}

/// When the parser of the requested dialect can only fail on `bytes`, the
/// whole run fails with a parse error, whatever the target and debug
/// settings.
pub proof fn law_parse_failure_is_run_error<B: DecompileBackend>(
    backend: &B,
    bytes: Seq<u8>,
    options: DecompileOptions,
    r: Result<DecompileResult<B>, B::Error>,
)
    requires
        decompile_outcome(backend, bytes, options, r),
        forall|x: B::RawChunk| !#[trigger] backend.parses(options.dialect, bytes, options.parse, Ok(x)),
    ensures
        r matches Err(e) && backend.parses(options.dialect, bytes, options.parse, Err(e)),
{
    match r {
        Ok(res) => {
            let normalized = choose|normalized: DecompileOptions|
                #[trigger] normalized.normalizes(&options) && products_ok_before(
                    backend,
                    bytes,
                    normalized,
                    res.state,
                    options.target_stage.index() + 1,
                );
            assert(stage_product_ok(backend, bytes, normalized, res.state, DecompileStage::Parse));
            assert(backend.parses(options.dialect, bytes, options.parse, Ok(res.state.raw_chunk->0)));
        },
        Err(e) => {
            let (normalized, state, failed) = choose|
                normalized: DecompileOptions,
                state: DecompileState<B>,
                failed: DecompileStage,
            |
                #![trigger stage_fails(backend, bytes, normalized, state, failed, e)]
                {
                    &&& normalized.normalizes(&options)
                    &&& stage_can_fail(failed)
                    &&& failed.index() <= options.target_stage.index()
                    &&& products_ok_before(backend, bytes, normalized, state, failed.index())
                    &&& stage_fails(backend, bytes, normalized, state, failed, e)
                };
            if failed != DecompileStage::Parse {
                assert(stage_product_ok(backend, bytes, normalized, state, DecompileStage::Parse));
                assert(backend.parses(options.dialect, bytes, options.parse, Ok(state.raw_chunk->0)));
            }
        },
    }
}

/// Decompiles `bytes` with `options`, running the decompiler's layers
/// through `backend`. Default filling and stage scheduling happen here once.
pub fn decompile<B: DecompileBackend>(backend: &B, bytes: &[u8], options: DecompileOptions) -> (r:
    Result<DecompileResult<B>, B::Error>)
    ensures
        decompile_outcome(backend, bytes@, options, r),
{
    DecompilerPipeline.run(backend, bytes, options)
}

pub(crate) struct DecompilerPipeline;

/// What every stage of one run reads besides the state.
pub(crate) struct PipelineContext<'a> {
    pub(crate) bytes: &'a [u8],
    pub(crate) options: &'a DecompileOptions,
    pub(crate) timing: bool,
    pub(crate) requested_target: AstTargetDialect,
}

impl<'a> PipelineContext<'a> {
    /// The derived fields agree with the options.
    pub(crate) open spec fn wf(&self) -> bool {
        &&& self.timing == (self.options.debug.enable && self.options.debug.timing)
        &&& self.requested_target == requested_target(*self.options)
    }

    /// The context of a run on `bytes` with `options`.
    pub(crate) fn new(bytes: &'a [u8], options: &'a DecompileOptions) -> (r: Self)
        ensures
            r.wf(),
            !r.requested_target.relaxed,
            r.requested_target.version == options.dialect.ast_version(),
            r.bytes == bytes,
            r.options == options,
    {
        PipelineContext {
            bytes,
            options,
            timing: options.debug.enable && options.debug.timing,
            requested_target: AstTargetDialect::new(AstDialectVersion::from(options.dialect)),
        }
    }
}

/// What the generate stage needs from the readability stage.
pub(crate) struct GenerateStagePlan {
    pub(crate) target: AstTargetDialect,
    pub(crate) mode: GenerateMode,
    pub(crate) warnings: Vec<String>,
}

/// Whether `stages` holds `stage`.
pub(crate) fn contains_stage(stages: &Vec<DecompileStage>, stage: DecompileStage) -> (r: bool)
    ensures
        r == stages@.contains(stage),
{
    let mut i: usize = 0;
    while i < stages.len()
        invariant
            i <= stages@.len(),
            forall|j: int| 0 <= j < i ==> stages@[j] != stage,
        decreases stages@.len() - i,
    {
        if stages[i] == stage {
            assert(stages@[i as int] == stage);
            return true;
        }
        i = i + 1;
    }
    false
}

/// Appends the dump of `stage` when the debug options ask for it.
pub(crate) fn push_stage_dump<B: DecompileBackend>(
    debug_output: &mut Vec<StageDebugOutput>,
    stage: DecompileStage,
    options: &DebugOptions,
    backend: &B,
    state: &DecompileState<B>,
)
    requires
        wants_dump(options.enable, options.output_stages@, stage) ==> state.has_output(stage),
        wants_dump(options.enable, options.output_stages@, stage) && stage
            == DecompileStage::Dataflow ==> state.lowered is Some && state.cfg is Some,
    ensures
        wants_dump(options.enable, options.output_stages@, stage) ==> {
            &&& final(debug_output)@.len() == old(debug_output)@.len() + 1
            &&& final(debug_output)@.drop_last() == old(debug_output)@
            &&& final(debug_output)@.last().stage == stage
            &&& final(debug_output)@.last().detail == options.detail
            &&& stage_dump_ok(
                backend,
                *state,
                stage,
                options.detail,
                options.filters,
                options.color,
                final(debug_output)@.last().content@,
            )
        },
        !wants_dump(options.enable, options.output_stages@, stage) ==> final(debug_output)@ == old(
            debug_output,
        )@,
{
    if !options.enable || !contains_stage(&options.output_stages, stage) {
        return;
    }
    let out = dump_stage(backend, state, stage, options);
    debug_output.push(out);
    assert(debug_output@.drop_last() =~= old(debug_output)@);
}

/// One more stage ran and perhaps dumped: the dumps collected since `base`
/// are then those requested among the first `n + 1` stages.
pub proof fn lemma_dumps_step(
    before: Seq<StageDebugOutput>,
    after: Seq<StageDebugOutput>,
    base: nat,
    debug: DebugOptions,
    stage: DecompileStage,
)
    requires
        base <= before.len(),
        dump_stages(before.skip(base as int)) == requested_dumps(
            debug.enable,
            debug.output_stages@,
            stage.index(),
        ),
        dumps_rendered_at(before.skip(base as int), debug.detail),
        wants_dump(debug.enable, debug.output_stages@, stage) ==> {
            &&& after.len() == before.len() + 1
            &&& after.drop_last() == before
            &&& after.last().stage == stage
            &&& after.last().detail == debug.detail
        },
        !wants_dump(debug.enable, debug.output_stages@, stage) ==> after == before,
    ensures
        base <= after.len(),
        after.take(base as int) == before.take(base as int),
        dump_stages(after.skip(base as int)) == requested_dumps(
            debug.enable,
            debug.output_stages@,
            stage.index() + 1,
        ),
        dumps_rendered_at(after.skip(base as int), debug.detail),
        wants_dump(debug.enable, debug.output_stages@, stage) ==> after.skip(base as int)
            == before.skip(base as int).push(after.last()),
{
    assert(stage_at(stage.index()) == Some(stage));
    if wants_dump(debug.enable, debug.output_stages@, stage) {
        assert(after.skip(base as int) =~= before.skip(base as int).push(after.last()));
        assert(after.take(base as int) =~= before.take(base as int));
        assert(dump_stages(after.skip(base as int)) =~= dump_stages(before.skip(base as int)).push(
            stage,
        ));
    }
}

impl DecompilerPipeline {
    /// Normalises the options, runs the stages from `Parse` to the target
    /// stage on a fresh state, dumping each requested stage right after it
    /// ran, and packs the state, the dumps and the timings.
    fn run<B: DecompileBackend>(self, backend: &B, bytes: &[u8], options: DecompileOptions) -> (r:
        Result<DecompileResult<B>, B::Error>)
        ensures
            decompile_outcome(backend, bytes@, options, r),
    {
        let ghost original = options;
        let options = options.normalized();
        let mut state = DecompileState::new(options.dialect, options.target_stage);
        let ghost fresh = state;
        let mut debug_output: Vec<StageDebugOutput> = Vec::new();
        let ghost no_output = debug_output@;
        let mut timings = backend.start_timing(options.debug.enable && options.debug.timing);
        let result = run_decompile_stages(
            backend,
            bytes,
            &options,
            &mut state,
            &mut debug_output,
            &mut timings,
        );
        match result {
            Err(e) => {
                proof {
                    let failed = choose|failed: DecompileStage|
                        #![trigger stage_can_fail(failed)]
                        {
                            &&& stage_can_fail(failed)
                            &&& failed.index() <= options.target_stage.index()
                            &&& ran_stages_before(
                                state,
                                fresh,
                                debug_output@,
                                no_output,
                                options,
                                failed.index(),
                            )
                            &&& products_ok_before(backend, bytes@, options, state, failed.index())
                            &&& stage_fails(backend, bytes@, options, state, failed, e)
                        };
                    assert(options.normalizes(&original));
                    assert(stage_fails(backend, bytes@, options, state, failed, e));
                    assert(run_fails_with(backend, bytes@, original, e));
                }
                Err(e)
            },
            Ok(()) => {
                proof {
                    let n = options.target_stage.index() + 1;
                    assert(debug_output@.skip(0) =~= debug_output@);
                    assert(backend.timing_marks(timings) =~= schedule_spans(
                        options.debug.enable && options.debug.timing,
                        n,
                    ));
                    assert forall|s: DecompileStage| #[trigger] state.has_output(s) <==> s.index() < n by {
                        if s.index() >= n {
                            assert(state.same_slot(&fresh, s));
                            assert(!fresh.has_output(s));
                        } else {
                            assert(state.outputs_before(n));
                        }
                    }
                    assert(options.normalizes(&original));
                }
                Ok(finish_result(state, debug_output, &timings, backend))
            },
        }
    }

    pub(crate) fn parse_stage<B: DecompileBackend>(
        &self,
        backend: &B,
        state: &mut DecompileState<B>,
        context: &PipelineContext,
    ) -> (r: Result<(), B::Error>)
        ensures
            r is Ok ==> final(state).advanced_from(old(state), DecompileStage::Parse)
                && stage_product_for(
                backend,
                context.bytes@,
                *context.options,
                context.requested_target,
                *final(state),
                DecompileStage::Parse,
            ),
            r matches Err(e) ==> *final(state) == *old(state) && stage_fails_for(
                backend,
                context.bytes@,
                *context.options,
                context.requested_target,
                *old(state),
                DecompileStage::Parse,
                e,
            ),
    {
        let raw = match context.options.dialect.parse_chunk(backend, context.bytes, context.options.parse) {
            Ok(raw) => raw,
            Err(e) => return Err(e),
        };
        state.raw_chunk = Some(raw);
        state.mark_completed(DecompileStage::Parse);
        Ok(())
    }

    pub(crate) fn transform_stage<B: DecompileBackend>(
        &self,
        backend: &B,
        state: &mut DecompileState<B>,
        context: &PipelineContext,
    ) -> (r: Result<(), B::Error>)
        requires
            old(state).raw_chunk is Some,
        ensures
            r is Ok ==> final(state).advanced_from(old(state), DecompileStage::Transform)
                && stage_product_for(
                backend,
                context.bytes@,
                *context.options,
                context.requested_target,
                *final(state),
                DecompileStage::Transform,
            ),
            r matches Err(e) ==> *final(state) == *old(state) && stage_fails_for(
                backend,
                context.bytes@,
                *context.options,
                context.requested_target,
                *old(state),
                DecompileStage::Transform,
                e,
            ),
    {
        let lowered = match backend.lower_chunk(state.raw_chunk()) {
            Ok(lowered) => lowered,
            Err(e) => return Err(e),
        };
        state.lowered = Some(lowered);
        state.mark_completed(DecompileStage::Transform);
        Ok(())
    }

    pub(crate) fn cfg_stage<B: DecompileBackend>(
        &self,
        backend: &B,
        state: &mut DecompileState<B>,
        context: &PipelineContext,
    )
        requires
            old(state).lowered is Some,
        ensures
            final(state).advanced_from(old(state), DecompileStage::Cfg),
            stage_product_for(
                backend,
                context.bytes@,
                *context.options,
                context.requested_target,
                *final(state),
                DecompileStage::Cfg,
            ),
    {
        let cfg = backend.build_cfg(state.lowered());
        state.cfg = Some(cfg);
        state.mark_completed(DecompileStage::Cfg);
    }

    pub(crate) fn graph_facts_stage<B: DecompileBackend>(
        &self,
        backend: &B,
        state: &mut DecompileState<B>,
        context: &PipelineContext,
    )
        requires
            old(state).cfg is Some,
        ensures
            final(state).advanced_from(old(state), DecompileStage::GraphFacts),
            stage_product_for(
                backend,
                context.bytes@,
                *context.options,
                context.requested_target,
                *final(state),
                DecompileStage::GraphFacts,
            ),
    {
        let graph_facts = backend.analyze_graph_facts(state.cfg());
        state.graph_facts = Some(graph_facts);
        state.mark_completed(DecompileStage::GraphFacts);
    }

    pub(crate) fn dataflow_stage<B: DecompileBackend>(
        &self,
        backend: &B,
        state: &mut DecompileState<B>,
        context: &PipelineContext,
    )
        requires
            old(state).lowered is Some,
            old(state).cfg is Some,
            old(state).graph_facts is Some,
        ensures
            final(state).advanced_from(old(state), DecompileStage::Dataflow),
            stage_product_for(
                backend,
                context.bytes@,
                *context.options,
                context.requested_target,
                *final(state),
                DecompileStage::Dataflow,
            ),
    {
        let dataflow = backend.analyze_dataflow(state.lowered(), state.cfg(), state.graph_facts());
        state.dataflow = Some(dataflow);
        state.mark_completed(DecompileStage::Dataflow);
    }

    pub(crate) fn structure_stage<B: DecompileBackend>(
        &self,
        backend: &B,
        state: &mut DecompileState<B>,
        context: &PipelineContext,
    )
        requires
            old(state).lowered is Some,
            old(state).cfg is Some,
            old(state).graph_facts is Some,
            old(state).dataflow is Some,
        ensures
            final(state).advanced_from(old(state), DecompileStage::StructureFacts),
            stage_product_for(
                backend,
                context.bytes@,
                *context.options,
                context.requested_target,
                *final(state),
                DecompileStage::StructureFacts,
            ),
    {
        let structure_facts = backend.analyze_structure(
            state.lowered(),
            state.cfg(),
            state.graph_facts(),
            state.dataflow(),
            context.options,
        );
        state.structure_facts = Some(structure_facts);
        state.mark_completed(DecompileStage::StructureFacts);
    }

    pub(crate) fn hir_stage<B: DecompileBackend>(
        &self,
        backend: &B,
        state: &mut DecompileState<B>,
        context: &PipelineContext,
        timings: &mut B::Timings,
    )
        requires
            old(state).lowered is Some,
            old(state).cfg is Some,
            old(state).graph_facts is Some,
            old(state).dataflow is Some,
            old(state).structure_facts is Some,
        ensures
            final(state).advanced_from(old(state), DecompileStage::Hir),
            stage_product_for(
                backend,
                context.bytes@,
                *context.options,
                context.requested_target,
                *final(state),
                DecompileStage::Hir,
            ),
            backend.timing_marks(*final(timings)) == backend.timing_marks(*old(timings)) + (if context.timing {
                inner_spans(DecompileStage::Hir)
            } else {
                Seq::empty()
            }),
            backend.timing_enabled(*final(timings)) == backend.timing_enabled(*old(timings)),
    {
        let hir = analyze_hir(backend, state, context.options, context.timing, timings);
        state.hir = Some(hir);
        state.mark_completed(DecompileStage::Hir);
    }

    pub(crate) fn ast_stage<B: DecompileBackend>(
        &self,
        backend: &B,
        state: &mut DecompileState<B>,
        context: &PipelineContext,
    ) -> (r: Result<(), B::Error>)
        requires
            old(state).hir is Some,
        ensures
            r is Ok ==> final(state).advanced_from(old(state), DecompileStage::Ast)
                && stage_product_for(
                backend,
                context.bytes@,
                *context.options,
                context.requested_target,
                *final(state),
                DecompileStage::Ast,
            ),
            r matches Err(e) ==> *final(state) == *old(state) && stage_fails_for(
                backend,
                context.bytes@,
                *context.options,
                context.requested_target,
                *old(state),
                DecompileStage::Ast,
                e,
            ),
    {
        let target = lowering_target(context.requested_target, context.options.generate.mode);
        let ast = match backend.lower_ast(state.hir(), target, context.options.generate.mode) {
            Ok(ast) => ast,
            Err(e) => return Err(e),
        };
        state.ast = Some(ast);
        state.mark_completed(DecompileStage::Ast);
        Ok(())
    }

    pub(crate) fn readability_stage<B: DecompileBackend>(
        &self,
        backend: &B,
        state: &mut DecompileState<B>,
        context: &PipelineContext,
    )
        requires
            old(state).ast is Some,
        ensures
            final(state).advanced_from(old(state), DecompileStage::Readability),
            stage_product_for(
                backend,
                context.bytes@,
                *context.options,
                context.requested_target,
                *final(state),
                DecompileStage::Readability,
            ),
    {
        let readability = backend.make_readable(
            state.ast(),
            context.requested_target,
            context.options.readability,
            &context.options.debug.dump_passes,
        );
        state.readability = Some(readability);
        state.mark_completed(DecompileStage::Readability);
    }

    pub(crate) fn naming_stage<B: DecompileBackend>(
        &self,
        backend: &B,
        state: &mut DecompileState<B>,
        context: &PipelineContext,
        timings: &mut B::Timings,
    ) -> (r: Result<(), B::Error>)
        requires
            old(state).hir is Some,
            old(state).readability is Some,
        ensures
            r is Ok ==> final(state).advanced_from(old(state), DecompileStage::Naming)
                && stage_product_for(
                backend,
                context.bytes@,
                *context.options,
                context.requested_target,
                *final(state),
                DecompileStage::Naming,
            ),
            r matches Err(e) ==> *final(state) == *old(state) && stage_fails_for(
                backend,
                context.bytes@,
                *context.options,
                context.requested_target,
                *old(state),
                DecompileStage::Naming,
                e,
            ),
            backend.timing_marks(*final(timings)) == backend.timing_marks(*old(timings)) + (if context.timing {
                inner_spans(DecompileStage::Naming)
            } else {
                Seq::empty()
            }),
            backend.timing_enabled(*final(timings)) == backend.timing_enabled(*old(timings)),
    {
        if context.timing {
            backend.begin_timing(timings, "collect-evidence");
        }
        let evidence = backend.collect_naming_evidence(state.hir());
        if context.timing {
            backend.end_timing(timings, "collect-evidence");
        }
        proof {
            if context.timing {
                assert(backend.timing_marks(*timings) =~= backend.timing_marks(*old(timings)) + inner_spans(
                    DecompileStage::Naming,
                ));
            } else {
                assert(backend.timing_marks(*timings) =~= backend.timing_marks(*old(timings)) + Seq::empty());
            }
        }
        let evidence = match evidence {
            Ok(evidence) => evidence,
            Err(e) => return Err(e),
        };
        let ghost gathered = evidence;
        let naming = match backend.assign_names_with_evidence(
            state.readability(),
            state.hir(),
            &evidence,
            context.options.naming,
        ) {
            Ok(naming) => naming,
            Err(e) => {
                proof {
                    assert(backend.collects_evidence(state.hir->0, Ok(gathered)));
                }
                return Err(e);
            },
        };
        state.naming = Some(naming);
        state.mark_completed(DecompileStage::Naming);
        proof {
            assert(backend.collects_evidence(state.hir->0, Ok(gathered)));
        }
        Ok(())
    }

    /// Generates the chunk for the plan's target in the plan's mode and
    /// makes it carry the plan's warnings.
    pub(crate) fn generate_stage<B: DecompileBackend>(
        &self,
        backend: &B,
        state: &mut DecompileState<B>,
        plan: GenerateStagePlan,
        context: &PipelineContext,
    ) -> (r: Result<(), B::Error>)
        requires
            old(state).hir is Some,
            old(state).readability is Some,
            old(state).naming is Some,
        ensures
            r is Ok ==> final(state).advanced_from(old(state), DecompileStage::Generate)
                && generated_with(
                backend,
                *context.options,
                old(state).hir->0,
                old(state).readability->0,
                old(state).naming->0,
                plan.target,
                plan.mode,
                string_views(plan.warnings@),
                final(state).generated->0,
            ),
            r matches Err(e) ==> *final(state) == *old(state) && generation_fails(
                backend,
                *context.options,
                old(state).hir->0,
                old(state).readability->0,
                old(state).naming->0,
                plan.target,
                plan.mode,
                e,
            ),
    {
        let mut generate_options = context.options.generate;
        generate_options.mode = plan.mode;
        let comment_metadata = if generate_options.comment {
            let hir = state.hir();
            let entry = backend.hir_entry(hir);
            let protos = backend.hir_proto_summaries(hir);
            Some(
                build_generate_comment_metadata(
                    entry,
                    &protos,
                    context.options.parse.string_encoding.as_str(),
                ),
            )
        } else {
            None
        };
        proof {
            assert(generate_options == (GenerateOptions { mode: plan.mode, ..context.options.generate }));
            assert(comment_choice(backend, state.hir->0, *context.options, comment_metadata));
        }
        let mut generated = match backend.generate_chunk(
            state.readability(),
            state.naming(),
            plan.target,
            &comment_metadata,
            generate_options,
        ) {
            Ok(generated) => generated,
            Err(e) => return Err(e),
        };
        let ghost produced = generated;
        let ghost warnings = string_views(plan.warnings@);
        backend.set_generated_warnings(&mut generated, plan.warnings);
        state.generated = Some(generated);
        state.mark_completed(DecompileStage::Generate);
        proof {
            assert(backend.attaches_warnings(produced, warnings, state.generated->0));
            assert(comment_choice(backend, state.hir->0, *context.options, comment_metadata));
        }
        Ok(())
    }
}

/// The dialect the AST is lowered for: the requested one in strict mode, a
/// relaxed target of the same version in permissive mode.
fn lowering_target(requested: AstTargetDialect, mode: GenerateMode) -> (r: AstTargetDialect)
    ensures
        r == lowering_target_of(requested, mode),
{
    match mode {
        GenerateMode::Strict => requested,
        GenerateMode::Permissive => AstTargetDialect::relaxed_for_lowering(requested.version),
    }
}

/// The warning that permissive output carries when the requested dialect
/// lacks features the program uses.
pub open spec fn unsupported_features_message(dialect: Seq<char>, features: Seq<char>) -> Seq<char> {
    "requested target dialect `"@ + dialect + "` does not support feature(s) "@ + features
        + "; emitting permissive output."@
}

/// `parts` joined with `sep` between neighbours.
pub open spec fn join_with(parts: Seq<Seq<char>>, sep: Seq<char>) -> Seq<char>
    decreases parts.len(),
{
    if parts.len() == 0 {
        Seq::empty()
    } else if parts.len() == 1 {
        parts[0]
    } else {
        join_with(parts.drop_last(), sep) + sep + parts.last()
    }
}

/// The views of a list of strings.
pub open spec fn string_views(v: Seq<String>) -> Seq<Seq<char>> {
    v.map_values(|s: String| s@)
}

/// Feature names separated by commas, as the warning lists them.
pub fn format_ast_features(names: &Vec<String>) -> (r: String)
    ensures
        r@ == join_with(string_views(names@), ", "@),
{
    let mut out = String::new();
    let mut i: usize = 0;
    while i < names.len()
        invariant
            i <= names@.len(),
            out@ == join_with(string_views(names@.take(i as int)), ", "@),
        decreases names@.len() - i,
    {
        let ghost prev = string_views(names@.take(i as int));
        if i > 0 {
            out.append(", ");
        }
        out.append(names[i].as_str());
        proof {
            let next = string_views(names@.take(i + 1));
            assert(next.drop_last() =~= prev);
            assert(next.last() == names@[i as int]@);
            if i == 0 {
                assert(out@ =~= next[0]);
            }
        }
        i = i + 1;
    }
    assert(names@.take(names@.len() as int) =~= names@);
    out
}

/// The warnings of a permissive run whose program uses the features named
/// in `unsupported`, which `dialect` lacks: none when it lacks none.
pub fn unsupported_feature_warnings(dialect: &str, unsupported: &Vec<String>) -> (r: Vec<String>)
    ensures
        unsupported@.len() == 0 ==> r@.len() == 0,
        unsupported@.len() > 0 ==> r@.len() == 1 && r@[0]@ == unsupported_features_message(
            dialect@,
            join_with(string_views(unsupported@), ", "@),
        ),
{
    if unsupported.len() == 0 {
        return Vec::new();
    }
    let mut message = String::from_str("requested target dialect `");
    message.append(dialect);
    message.append("` does not support feature(s) ");
    let features = format_ast_features(unsupported);
    message.append(features.as_str());
    message.append("; emitting permissive output.");
    let mut r = Vec::new();
    r.push(message);
    r
}

/// The names among the first `n` of `names` whose feature is not supported,
/// in order.
pub open spec fn unsupported_names(names: Seq<Seq<char>>, supported: Seq<bool>, n: nat) -> Seq<
    Seq<char>,
>
    decreases n,
{
    if n == 0 {
        Seq::empty()
    } else {
        let prev = unsupported_names(names, supported, (n - 1) as nat);
        if supported[n - 1] {
            prev
        } else {
            prev.push(names[n - 1])
        }
    }
}

/// The warnings of the generate stage for a module whose features have
/// `names`, of which those flagged in `supported` exist in `dialect`: none
/// in strict mode or when every feature is supported, otherwise one listing
/// the unsupported ones.
pub open spec fn feature_warnings(
    mode: GenerateMode,
    dialect: Seq<char>,
    names: Seq<Seq<char>>,
    supported: Seq<bool>,
) -> Seq<Seq<char>> {
    let missing = unsupported_names(names, supported, names.len());
    if mode == GenerateMode::Strict || missing.len() == 0 {
        Seq::empty()
    } else {
        seq![unsupported_features_message(dialect, join_with(missing, ", "@))]
    }
}

/// The generate-stage warnings, given each feature's name and whether the
/// target dialect supports it.
pub fn permissive_feature_warnings(
    mode: GenerateMode,
    dialect: &str,
    names: &Vec<String>,
    supported: &Vec<bool>,
) -> (r: Vec<String>)
    requires
        names@.len() == supported@.len(),
    ensures
        string_views(r@) == feature_warnings(mode, dialect@, string_views(names@), supported@),
{
    if mode != GenerateMode::Permissive {
        let r: Vec<String> = Vec::new();
        assert(string_views(r@) =~= Seq::<Seq<char>>::empty());
        return r;
    }
    let ghost views = string_views(names@);
    let mut unsupported: Vec<String> = Vec::new();
    let mut i: usize = 0;
    while i < names.len()
        invariant
            i <= names@.len(),
            names@.len() == supported@.len(),
            views == string_views(names@),
            string_views(unsupported@) == unsupported_names(views, supported@, i as nat),
        decreases names@.len() - i,
    {
        if !supported[i] {
            let ghost before = unsupported@;
            unsupported.push(names[i].clone());
            assert(string_views(unsupported@) =~= string_views(before).push(views[i as int]));
        }
        i = i + 1;
    }
    let r = unsupported_feature_warnings(dialect, &unsupported);
    if r.len() == 0 {
        assert(string_views(r@) =~= Seq::<Seq<char>>::empty());
    } else {
        assert(string_views(r@) =~= seq![r@[0]@]);
    }
    r
}

/// Warnings for the generate stage: in permissive mode, one naming the
/// features the module uses that the target dialect lacks, if any.
fn generate_stage_warnings<B: DecompileBackend>(
    backend: &B,
    module: &B::AstModule,
    target: AstTargetDialect,
    mode: GenerateMode,
) -> (r: Vec<String>)
    ensures
        warnings_for(backend, *module, target, mode, string_views(r@)),
        r@.len() <= 1,
{
    if mode != GenerateMode::Permissive {
        let r: Vec<String> = Vec::new();
        assert(string_views(r@) =~= Seq::<Seq<char>>::empty());
        return r;
    }
    let features = backend.collect_ast_features(module);
    let mut names: Vec<String> = Vec::new();
    let mut supported: Vec<bool> = Vec::new();
    let mut i: usize = 0;
    while i < features.len()
        invariant
            i <= features@.len(),
            names@.len() == i,
            supported@.len() == i,
            forall|j: int|
                0 <= j < i ==> #[trigger] names@[j]@ == backend.feature_name(features@[j]),
            forall|j: int|
                0 <= j < i ==> #[trigger] supported@[j] == backend.supports(target, features@[j]),
        decreases features@.len() - i,
    {
        supported.push(backend.supports_feature(target, &features[i]));
        names.push(backend.ast_feature_name(&features[i]));
        i = i + 1;
    }
    let dialect = backend.ast_dialect_name(target.version);
    let r = permissive_feature_warnings(mode, dialect.as_str(), &names, &supported);
    proof {
        let fs = features@;
        assert(string_views(names@) =~= fs.map_values(|f: B::AstFeature| backend.feature_name(f)));
        assert(supported@ =~= fs.map_values(|f: B::AstFeature| backend.supports(target, f)));
        assert(backend.collects_features(*module, fs));
        assert(string_views(r@).len() == r@.len());
    }
    r
}

/// The plan of the generate stage: the requested target, the configured
/// mode and the warnings the readable module calls for.
pub(crate) fn generate_stage_plan<B: DecompileBackend>(
    backend: &B,
    readable: &B::AstModule,
    context: &PipelineContext,
) -> (plan: GenerateStagePlan)
    ensures
        plan.target == context.requested_target,
        plan.mode == context.options.generate.mode,
        warnings_for(backend, *readable, plan.target, plan.mode, string_views(plan.warnings@)),
{
    let warnings = generate_stage_warnings(
        backend,
        readable,
        context.requested_target,
        context.options.generate.mode,
    );
    GenerateStagePlan {
        target: context.requested_target,
        mode: context.options.generate.mode,
        warnings,
    }
}

/// An owned copy of an optional string.
fn clone_optional_string(s: &Option<String>) -> (r: Option<String>)
    ensures
        r == *s,
{
    match s {
        Some(s) => Some(s.clone()),
        None => None,
    }
}

/// The comment metadata of one function.
pub open spec fn function_comment_metadata(proto: HirProtoSummary) -> GenerateFunctionCommentMetadata {
    GenerateFunctionCommentMetadata {
        function: proto.id,
        source: proto.source,
        line_range: proto.line_range,
        signature: proto.signature,
        local_count: proto.local_count,
        upvalue_count: proto.upvalue_count,
    }
}

/// A function's comment metadata copies its summary field for field: the
/// function id, source, lines, signature (vararg flag included) and the
/// local and upvalue counts.
pub proof fn law_comment_metadata_copies_summary(proto: HirProtoSummary)
    ensures
        function_comment_metadata(proto).function == proto.id,
        function_comment_metadata(proto).source == proto.source,
        function_comment_metadata(proto).line_range == proto.line_range,
        function_comment_metadata(proto).signature == proto.signature,
        function_comment_metadata(proto).signature.is_vararg == proto.signature.is_vararg,
        function_comment_metadata(proto).signature.num_params == proto.signature.num_params,
        function_comment_metadata(proto).local_count == proto.local_count,
        function_comment_metadata(proto).upvalue_count == proto.upvalue_count,
{
}

/// Comment metadata of a chunk: its file name is the source of the entry
/// function, when that function exists; then one entry per function.
fn build_generate_comment_metadata(entry: usize, protos: &Vec<HirProtoSummary>, encoding: &str) -> (r:
    GenerateCommentMetadata)
    ensures
        r.chunk.file_name == (if entry < protos@.len() {
            protos@[entry as int].source
        } else {
            None
        }),
        r.chunk.encoding@ == encoding@,
        r.functions@.len() == protos@.len(),
        forall|i: int|
            0 <= i < protos@.len() ==> #[trigger] r.functions@[i] == function_comment_metadata(
                protos@[i],
            ),
        forall|i: int|
            0 <= i < protos@.len() ==> {
                &&& (#[trigger] r.functions@[i]).function == protos@[i].id
                &&& r.functions@[i].source == protos@[i].source
                &&& r.functions@[i].line_range == protos@[i].line_range
                &&& r.functions@[i].signature == protos@[i].signature
                &&& r.functions@[i].local_count == protos@[i].local_count
                &&& r.functions@[i].upvalue_count == protos@[i].upvalue_count
            },
{
    let file_name = if entry < protos.len() {
        clone_optional_string(&protos[entry].source)
    } else {
        None
    };
    let mut functions: Vec<GenerateFunctionCommentMetadata> = Vec::new();
    let mut i: usize = 0;
    while i < protos.len()
        invariant
            i <= protos@.len(),
            functions@.len() == i,
            forall|j: int|
                0 <= j < i ==> #[trigger] functions@[j] == function_comment_metadata(protos@[j]),
        decreases protos@.len() - i,
    {
        let proto = &protos[i];
        functions.push(
            GenerateFunctionCommentMetadata {
                function: proto.id,
                source: clone_optional_string(&proto.source),
                line_range: proto.line_range,
                signature: proto.signature,
                local_count: proto.local_count,
                upvalue_count: proto.upvalue_count,
            },
        );
        i = i + 1;
    }
    GenerateCommentMetadata {
        chunk: GenerateChunkCommentMetadata { file_name, encoding: String::from_str(encoding) },
        functions,
    }
}

/// Packs the final state, the dumps and the timing layer's report of the
/// collected marks, which exists exactly when the collector is enabled.
fn finish_result<B: DecompileBackend>(
    state: DecompileState<B>,
    debug_output: Vec<StageDebugOutput>,
    timings: &B::Timings,
    backend: &B,
) -> (r: DecompileResult<B>)
    ensures
        r.state == state,
        r.debug_output == debug_output,
        backend.reports_timing(backend.timing_marks(*timings), r.timing_report),
        r.timing_report is Some <==> backend.timing_enabled(*timings),
{
    let timing_report = backend.finish_timing(timings);
    DecompileResult { state, debug_output, timing_report }
}

} // verus!
