//! The optimization pipeline for `VIEW` statements.
//!
//! A view is optimized locally: its raw expression is lowered to an
//! optimized mid-level expression, which the catalog then caches. The
//! re-optimization hook re-runs this pipeline's terminal stage to refresh
//! cached view plans under the current config.

use vstd::prelude::*;

use crate::config::{HirToMirConfig, OptimizerConfig};
use crate::error::OptimizerError;
use crate::ir::{MirExpr, RawExpr};
use crate::lower::{is_empty_expr_error, lower_raw_expr, lower_raw_seq, raw_wf};
use crate::stage::Optimize;

verus! {

/// The pipeline assembler for `VIEW` statements, bundling the config
/// snapshot its stages need.
pub struct Optimizer {
    /// The config of this instance, fixed for its whole lifetime.
    config: OptimizerConfig,
}

impl Optimizer {
    /// The config snapshot this instance was constructed with.
    pub closed spec fn config(&self) -> OptimizerConfig {
        self.config
    }

    /// Construct a view pipeline running under `config`.
    pub fn new(config: OptimizerConfig) -> (r: Self)
        ensures
            r.config() == config,
    {
        Self { config }
    }

    /// The mid-level expression this pipeline's terminal stage produces
    /// from the raw expression `s` under `config`.
    pub open spec fn optimized_view(config: OptimizerConfig, s: Seq<crate::ir::RawOp>) -> Seq<
        crate::ir::MirOp,
    > {
        lower_raw_seq(
            HirToMirConfig {
                enable_new_outer_join_lowering: config.enable_new_outer_join_lowering,
            },
            s,
        )
    }
}

impl Optimize<RawExpr> for Optimizer {
    type To = MirExpr;

    open spec fn stage_ok(&self, plan: RawExpr) -> bool {
        raw_wf(plan@)
    }

    open spec fn stage_post(&self, plan: RawExpr, r: Result<MirExpr, OptimizerError>) -> bool {
        match r {
            Ok(m) => raw_wf(plan@) && m@ == Optimizer::optimized_view(self.config(), plan@),
            Err(e) => !raw_wf(plan@) && is_empty_expr_error(e),
        }
    }

    fn optimize(&mut self, plan: RawExpr) -> (r: Result<MirExpr, OptimizerError>) {
        let h2m = lowering_config(&self.config);
        lower_raw_expr(&h2m, &plan)
    }
}

/// Project the full config onto the subset the HIR to MIR lowering reads.
fn lowering_config(config: &OptimizerConfig) -> (r: HirToMirConfig)
    ensures
        r == crate::config::hir_to_mir_config_of(*config),
{
    HirToMirConfig { enable_new_outer_join_lowering: config.enable_new_outer_join_lowering }
}

/// Law: two runs of the view stage under equal configs and on inputs with
/// equal contents yield structurally identical outcomes.
pub proof fn lemma_view_stage_deterministic(
    o1: Optimizer,
    o2: Optimizer,
    p1: RawExpr,
    p2: RawExpr,
    r1: Result<MirExpr, OptimizerError>,
    r2: Result<MirExpr, OptimizerError>,
)
    requires
        o1.config() == o2.config(),
        p1@ == p2@,
        o1.stage_post(p1, r1),
        o2.stage_post(p2, r2),
    ensures
        r1 is Ok <==> r2 is Ok,
        r1 matches Ok(m1) ==> (r2 matches Ok(m2) && m1@ == m2@),
        r1 matches Err(e1) ==> (r2 matches Err(e2) && e1.text() == e2.text()),
{
}

} // verus!
