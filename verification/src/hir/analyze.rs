//! Entry of the HIR recovery: the first lowering from the earlier products,
//! then the simplification passes.

use vstd::prelude::*;
use crate::ast::AstDialectVersion;
use crate::decompile::backend::DecompileBackend;
use crate::decompile::debug::DebugOptions;
use crate::decompile::options::DecompileOptions;
use crate::decompile::products::inner_spans;
use crate::decompile::state::{DecompileStage, DecompileState};
use super::PassDumpConfig;

verus! {

/// The dump settings the simplifier takes from the debug options.
pub fn pass_dump_config(debug: &DebugOptions) -> (r: PassDumpConfig)
    ensures
        r.pass_names@ == debug.dump_passes@,
        r.filters == debug.filters,
{
    let pass_names = debug.dump_passes.clone();
    assert(pass_names@ =~= debug.dump_passes@);
    PassDumpConfig { pass_names, filters: debug.filters }
}

/// Recovers the HIR of the whole chunk from the products of the stages
/// before it, then simplifies it for the requested dialect and mode; with
/// `timing`, the lowering and the simplification are timed as "lower" and
/// "simplify".
pub(crate) fn analyze_hir<B: DecompileBackend>(
    backend: &B,
    state: &DecompileState<B>,
    options: &DecompileOptions,
    timing: bool,
    timings: &mut B::Timings,
) -> (r: B::HirModule)
    requires
        state.lowered is Some,
        state.cfg is Some,
        state.graph_facts is Some,
        state.dataflow is Some,
        state.structure_facts is Some,
    ensures
        exists|lowered: B::HirModule|
            #[trigger] backend.lowers_hir(
                state.lowered->0,
                state.cfg->0,
                state.graph_facts->0,
                state.dataflow->0,
                state.structure_facts->0,
                lowered,
            ) && backend.simplifies_hir(
                lowered,
                options.readability,
                options.generate.mode,
                options.dialect.ast_version(),
                options.debug.dump_passes@,
                options.debug.filters,
                r,
            ),
        backend.timing_marks(*final(timings)) == backend.timing_marks(*old(timings)) + (if timing {
            inner_spans(DecompileStage::Hir)
        } else {
            Seq::empty()
        }),
        backend.timing_enabled(*final(timings)) == backend.timing_enabled(*old(timings)),
{
    if timing {
        backend.begin_timing(timings, "lower");
    }
    let mut module = backend.lower_hir(
        state.lowered(),
        state.cfg(),
        state.graph_facts(),
        state.dataflow(),
        state.structure_facts(),
    );
    if timing {
        backend.end_timing(timings, "lower");
    }
    let ghost lowered = module;
    let dump_config = pass_dump_config(&options.debug);
    if timing {
        backend.begin_timing(timings, "simplify");
    }
    backend.simplify_hir(
        &mut module,
        options.readability,
        options.generate.mode,
        AstDialectVersion::from(options.dialect),
        &dump_config,
    );
    if timing {
        backend.end_timing(timings, "simplify");
    }
    proof {
        if timing {
            assert(backend.timing_marks(*timings) =~= backend.timing_marks(*old(timings)) + inner_spans(
                DecompileStage::Hir,
            ));
        } else {
            assert(backend.timing_marks(*timings) =~= backend.timing_marks(*old(timings)) + Seq::empty());
        }
    }
    assert(backend.lowers_hir(
        state.lowered->0,
        state.cfg->0,
        state.graph_facts->0,
        state.dataflow->0,
        state.structure_facts->0,
        lowered,
    ));
    module
}

} // verus!
