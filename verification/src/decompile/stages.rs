//! Table-driven form of the stage schedule: one loop walks the stages in
//! their fixed order, runs each, records it as completed, dumps it when
//! asked and stops at the target stage.

use vstd::prelude::*;
use super::backend::DecompileBackend;
use super::debug::{DebugOptions, StageDebugOutput};
use super::options::DecompileOptions;
use super::pipeline::{
    DecompilerPipeline,
    PipelineContext,
    dump_stages,
    dumps_rendered_at,
    generate_stage_plan,
    lemma_dumps_step,
    law_requested_dumps,
    push_stage_dump,
    requested_dumps,
    string_views,
};
use crate::generate::GenerateOptions;
use super::products::{
    dumps_show_state,
    schedule_spans,
    stage_spans,
    warnings_for,
    lemma_later_stage_frame,
    products_ok_before,
    stage_dump_ok,
    stage_fails,
    stage_product_ok,
};
use super::state::{DecompileStage, DecompileState, stage_at};

verus! {

/// Whether a stage's layer can fail: parsing, lowering to IR, lowering to
/// the AST, naming and generation can; the analyses in between cannot.
pub open spec fn stage_can_fail(stage: DecompileStage) -> bool {
    match stage {
        DecompileStage::Parse => true,
        DecompileStage::Transform => true,
        DecompileStage::Ast => true,
        DecompileStage::Naming => true,
        DecompileStage::Generate => true,
        _ => false,
    }
}

/// Runs `stage` on `state`; a stage's inputs are the products of the
/// stages before it. With timing on, the stage is timed under its name.
fn run_stage<B: DecompileBackend>(
    backend: &B,
    stage: DecompileStage,
    state: &mut DecompileState<B>,
    context: &PipelineContext,
    timings: &mut B::Timings,
) -> (r: Result<(), B::Error>)
    requires
        old(state).outputs_before(stage.index()),
        context.wf(),
    ensures
        r is Ok ==> final(state).advanced_from(old(state), stage) && stage_product_ok(
            backend,
            context.bytes@,
            *context.options,
            *final(state),
            stage,
        ),
        r matches Err(e) ==> *final(state) == *old(state) && stage_can_fail(stage) && stage_fails(
            backend,
            context.bytes@,
            *context.options,
            *old(state),
            stage,
            e,
        ),
        !stage_can_fail(stage) ==> r is Ok,
        backend.timing_marks(*final(timings)) == backend.timing_marks(*old(timings)) + stage_spans(
            stage,
            context.timing,
        ),
        backend.timing_enabled(*final(timings)) == backend.timing_enabled(*old(timings)),
{
    proof {
        assert forall|s: DecompileStage| s.index() < stage.index() implies #[trigger] state.has_output(s) by {}
        assert(stage.index() > 0 ==> state.has_output(DecompileStage::Parse));
        assert(stage.index() > 1 ==> state.has_output(DecompileStage::Transform));
        assert(stage.index() > 2 ==> state.has_output(DecompileStage::Cfg));
        assert(stage.index() > 3 ==> state.has_output(DecompileStage::GraphFacts));
        assert(stage.index() > 4 ==> state.has_output(DecompileStage::Dataflow));
        assert(stage.index() > 5 ==> state.has_output(DecompileStage::StructureFacts));
        assert(stage.index() > 6 ==> state.has_output(DecompileStage::Hir));
        assert(stage.index() > 7 ==> state.has_output(DecompileStage::Ast));
        assert(stage.index() > 8 ==> state.has_output(DecompileStage::Readability));
        assert(stage.index() > 9 ==> state.has_output(DecompileStage::Naming));
    }
    if context.timing {
        backend.begin_timing(timings, stage.as_str());
    }
    let ghost opened = backend.timing_marks(*timings);
    let pipeline = DecompilerPipeline;
    let r = match stage {
        DecompileStage::Parse => pipeline.parse_stage(backend, state, context),
        DecompileStage::Transform => pipeline.transform_stage(backend, state, context),
        DecompileStage::Cfg => {
            pipeline.cfg_stage(backend, state, context);
            Ok(())
        },
        DecompileStage::GraphFacts => {
            pipeline.graph_facts_stage(backend, state, context);
            Ok(())
        },
        DecompileStage::Dataflow => {
            pipeline.dataflow_stage(backend, state, context);
            Ok(())
        },
        DecompileStage::StructureFacts => {
            pipeline.structure_stage(backend, state, context);
            Ok(())
        },
        DecompileStage::Hir => {
            pipeline.hir_stage(backend, state, context, timings);
            Ok(())
        },
        DecompileStage::Ast => pipeline.ast_stage(backend, state, context),
        DecompileStage::Readability => {
            pipeline.readability_stage(backend, state, context);
            Ok(())
        },
        DecompileStage::Naming => pipeline.naming_stage(backend, state, context, timings),
        DecompileStage::Generate => {
            // The generate warnings are computed here, from the final
            // readability product.
            let plan = generate_stage_plan(backend, state.readability(), context);
            let ghost warnings = string_views(plan.warnings@);
            let ghost readable = state.readability->0;
            let r = pipeline.generate_stage(backend, state, plan, context);
            proof {
                if r is Ok {
                    assert(warnings_for(
                        backend,
                        readable,
                        context.requested_target,
                        context.options.generate.mode,
                        warnings,
                    ));
                    assert(GenerateOptions {
                        mode: context.options.generate.mode,
                        ..context.options.generate
                    } == context.options.generate);
                }
            }
            r
        },
    };
    if context.timing {
        backend.end_timing(timings, stage.as_str());
    }
    proof {
        if context.timing {
            assert(backend.timing_marks(*timings) =~= backend.timing_marks(*old(timings))
                + stage_spans(stage, context.timing));
        } else {
            assert(backend.timing_marks(*timings) =~= backend.timing_marks(*old(timings))
                + stage_spans(stage, context.timing));
        }
    }
    r
}

/// After a schedule run that started from `before` and `outputs_before`,
/// the stages before position `n` have run in order: each filled its slot,
/// the last of them is the completed stage (the old one when none ran),
/// later slots hold what they held before, and the dumps requested among
/// them were appended in order.
pub open spec fn ran_stages_before<B: DecompileBackend>(
    after: DecompileState<B>,
    before: DecompileState<B>,
    outputs_after: Seq<StageDebugOutput>,
    outputs_before: Seq<StageDebugOutput>,
    options: DecompileOptions,
    n: nat,
) -> bool {
    let base = outputs_before.len() as int;
    &&& after.outputs_before(n)
    &&& n > 0 ==> after.completed_stage == stage_at((n - 1) as nat)
    &&& n == 0 ==> after.completed_stage == before.completed_stage
    &&& after.dialect == before.dialect
    &&& after.target_stage == before.target_stage
    &&& forall|s: DecompileStage| s.index() >= n ==> #[trigger] after.same_slot(&before, s)
    &&& base <= outputs_after.len()
    &&& outputs_after.take(base) == outputs_before
    &&& dump_stages(outputs_after.skip(base)) == requested_dumps(
        options.debug.enable,
        options.debug.output_stages@,
        n,
    )
    &&& dumps_rendered_at(outputs_after.skip(base), options.debug.detail)
}

/// Running `stage` keeps the earlier products and dumps valid: they only
/// read slots before it.
proof fn lemma_stage_frame<B: DecompileBackend>(
    backend: &B,
    bytes: Seq<u8>,
    options: DecompileOptions,
    before: DecompileState<B>,
    after: DecompileState<B>,
    stage: DecompileStage,
    outputs: Seq<StageDebugOutput>,
)
    requires
        after.agrees_except(&before, stage),
        products_ok_before(backend, bytes, options, before, stage.index()),
        dump_stages(outputs) == requested_dumps(
            options.debug.enable,
            options.debug.output_stages@,
            stage.index(),
        ),
        dumps_show_state(backend, before, outputs, options.debug),
    ensures
        products_ok_before(backend, bytes, options, after, stage.index()),
        dumps_show_state(backend, after, outputs, options.debug),
{
    assert forall|s: DecompileStage| s.index() < stage.index() implies #[trigger] stage_product_ok(
        backend,
        bytes,
        options,
        after,
        s,
    ) by {
        lemma_later_stage_frame(backend, bytes, options, before, after, stage, s);
    }
    law_requested_dumps(options.debug.enable, options.debug.output_stages@, stage.index());
    let debug = options.debug;
    assert forall|i: int| 0 <= i < outputs.len() implies #[trigger] stage_dump_ok(
        backend,
        after,
        outputs[i].stage,
        debug.detail,
        debug.filters,
        debug.color,
        outputs[i].content@,
    ) by {
        assert(dump_stages(outputs)[i] == outputs[i].stage);
        lemma_later_stage_frame(backend, bytes, options, before, after, stage, outputs[i].stage);
        assert(stage_dump_ok(
            backend,
            before,
            outputs[i].stage,
            debug.detail,
            debug.filters,
            debug.color,
            outputs[i].content@,
        ));
    }
}

/// Runs the stages in order from `Parse` up to the target stage of
/// `options`, appending to `debug_output` the dumps the options ask for.
/// Each stage's layer gets the products of the stages before it; a failure
/// is the error of a layer that can fail, returned after every earlier
/// stage ran and dumped as on success.
pub fn run_decompile_stages<B: DecompileBackend>(
    backend: &B,
    bytes: &[u8],
    options: &DecompileOptions,
    state: &mut DecompileState<B>,
    debug_output: &mut Vec<StageDebugOutput>,
    timings: &mut B::Timings,
) -> (r: Result<(), B::Error>)
    ensures
        backend.timing_enabled(*final(timings)) == backend.timing_enabled(*old(timings)),
        r is Ok ==> final(state).completed_stage == Some(options.target_stage),
        r is Ok ==> backend.timing_marks(*final(timings)) == backend.timing_marks(*old(timings))
            + schedule_spans(
            options.debug.enable && options.debug.timing,
            options.target_stage.index() + 1,
        ),
        r is Ok ==> ran_stages_before(
            *final(state),
            *old(state),
            final(debug_output)@,
            old(debug_output)@,
            *options,
            options.target_stage.index() + 1,
        ),
        r is Ok ==> products_ok_before(
            backend,
            bytes@,
            *options,
            *final(state),
            options.target_stage.index() + 1,
        ),
        r is Ok ==> dumps_show_state(
            backend,
            *final(state),
            final(debug_output)@.skip(old(debug_output)@.len() as int),
            options.debug,
        ),
        r matches Err(e) ==> exists|failed: DecompileStage|
            #![trigger stage_can_fail(failed)]
            {
                &&& stage_can_fail(failed)
                &&& failed.index() <= options.target_stage.index()
                &&& ran_stages_before(
                    *final(state),
                    *old(state),
                    final(debug_output)@,
                    old(debug_output)@,
                    *options,
                    failed.index(),
                )
                &&& products_ok_before(backend, bytes@, *options, *final(state), failed.index())
                &&& dumps_show_state(
                    backend,
                    *final(state),
                    final(debug_output)@.skip(old(debug_output)@.len() as int),
                    options.debug,
                )
                &&& stage_fails(backend, bytes@, *options, *final(state), failed, e)
                &&& backend.timing_marks(*final(timings)) == backend.timing_marks(*old(timings))
                    + schedule_spans(
                    options.debug.enable && options.debug.timing,
                    failed.index() + 1,
                )
            },
{
    let context = PipelineContext::new(bytes, options);
    let ghost base = debug_output@.len();
    let ghost debug = options.debug;
    let mut stage = DecompileStage::Parse;
    proof {
        assert(dump_stages(debug_output@.skip(base as int)) =~= requested_dumps(
            debug.enable,
            debug.output_stages@,
            0,
        ));
        assert(debug_output@.take(base as int) =~= debug_output@);
    }
    loop
        invariant
            context.wf(),
            context.bytes == bytes,
            context.options == options,
            stage.index() <= options.target_stage.index(),
            ran_stages_before(
                *state,
                *old(state),
                debug_output@,
                old(debug_output)@,
                *options,
                stage.index(),
            ),
            products_ok_before(backend, bytes@, *options, *state, stage.index()),
            dumps_show_state(backend, *state, debug_output@.skip(base as int), debug),
            debug == options.debug,
            base == old(debug_output)@.len(),
            backend.timing_marks(*timings) == backend.timing_marks(*old(timings)) + schedule_spans(
                context.timing,
                stage.index(),
            ),
            backend.timing_enabled(*timings) == backend.timing_enabled(*old(timings)),
        decreases 11 - stage.index(),
    {
        let ghost before = *state;
        let ghost dumped = debug_output@;
        let ghost marks = backend.timing_marks(*timings);
        let outcome = run_stage(backend, stage, state, &context, timings);
        proof {
            assert(stage_at(stage.index()) == Some(stage));
            assert(backend.timing_marks(*timings) =~= backend.timing_marks(*old(timings))
                + schedule_spans(context.timing, stage.index() + 1));
        }
        match outcome {
            Ok(()) => {},
            Err(e) => {
                proof {
                    assert(stage_can_fail(stage));
                }
                return Err(e);
            },
        }
        proof {
            assert forall|s: DecompileStage| s.index() < stage.index() + 1 implies #[trigger] state.has_output(s) by {
                if s != stage {
                    assert(before.has_output(s));
                }
            }
            assert forall|s: DecompileStage| s.index() >= stage.index() + 1 implies #[trigger] state.same_slot(
                &*old(state),
                s,
            ) by {
                assert(s != stage);
                assert(before.same_slot(&*old(state), s));
            }
            assert(state.has_output(DecompileStage::Transform) && state.has_output(DecompileStage::Cfg)
                || stage != DecompileStage::Dataflow);
            assert(stage_at(stage.index()) == Some(stage));
            lemma_stage_frame(
                backend,
                bytes@,
                *options,
                before,
                *state,
                stage,
                dumped.skip(base as int),
            );
            assert forall|s: DecompileStage| s.index() < stage.index() + 1 implies #[trigger] stage_product_ok(
                backend,
                bytes@,
                *options,
                *state,
                s,
            ) by {
                if s != stage {
                    assert(s.index() < stage.index());
                }
            }
        }
        push_stage_dump(debug_output, stage, &options.debug, backend, state);
        proof {
            lemma_dumps_step(dumped, debug_output@, base, debug, stage);
            if debug.enable && debug.output_stages@.contains(stage) {
                let outs = debug_output@.skip(base as int);
                assert forall|i: int| 0 <= i < outs.len() implies #[trigger] stage_dump_ok(
                    backend,
                    *state,
                    outs[i].stage,
                    debug.detail,
                    debug.filters,
                    debug.color,
                    outs[i].content@,
                ) by {
                    if i < outs.len() - 1 {
                        assert(outs[i] == dumped.skip(base as int)[i]);
                    } else {
                        assert(outs[i] == debug_output@.last());
                    }
                }
            }
        }
        if stage == options.target_stage {
            return Ok(());
        }
        match stage.next() {
            Some(next) => {
                proof {
                    assert(next.index() == stage.index() + 1);
                }
                stage = next;
            },
            None => {
                // Only the last stage has no successor, and the target
                // stage is never after it.
                proof {
                    assert(stage == DecompileStage::Generate);
                    assert(options.target_stage.index() <= 10);
                }
                return Ok(());
            },
        }
    }
}

} // verus!
