//! The optimization pipeline for `SUBSCRIBE` statements.
//!
//! Like the peek pipeline, a subscription's plan is resolved against an
//! externally supplied timestamp before the terminal lowering, but its
//! stage results are distinct nominal types and a subscription always
//! builds a dataflow.

use vstd::prelude::*;

use crate::config::{hir_to_mir_config_of, OptimizerConfig};
use crate::error::OptimizerError;
use crate::ir::{BuildDesc, GlobalId, LirDataflowDescription, LirPlan, MirExpr, RawExpr};
use crate::lower::{
    is_empty_expr_error, lower_mir_expr, lower_raw_expr, lower_raw_seq, lowers_to_lir, raw_wf,
};
use crate::stage::Optimize;

verus! {

/// The pipeline assembler for `SUBSCRIBE` statements.
pub struct Optimizer {
    /// The transient id given to the subscription's dataflow.
    sink_id: GlobalId,
    /// The config of this instance, fixed for its whole lifetime.
    config: OptimizerConfig,
}

impl Optimizer {
    /// The id given to the subscription's dataflow.
    pub closed spec fn id(&self) -> GlobalId {
        self.sink_id
    }

    /// The config snapshot this instance was constructed with.
    pub closed spec fn config(&self) -> OptimizerConfig {
        self.config
    }

    /// Construct a subscribe pipeline for `sink_id` running under
    /// `config`.
    pub fn new(sink_id: GlobalId, config: OptimizerConfig) -> (r: Self)
        ensures
            r.id() == sink_id,
            r.config() == config,
    {
        Self { sink_id, config }
    }
}

/// The opaque result of the local optimization stage of a subscription.
/// Only running the first stage of [`Optimizer`] produces one.
pub struct LocalMirPlan {
    expr: MirExpr,
}

impl LocalMirPlan {
    /// The locally optimized expression.
    pub closed spec fn mir(&self) -> MirExpr {
        self.expr
    }

    /// The timestamp/resolution step of the subscribe pipeline.
    pub fn resolve(self, timestamp: u64) -> (r: GlobalMirPlan)
        ensures
            r.mir() == self.mir(),
            r.ts() == timestamp,
    {
        GlobalMirPlan { expr: self.expr, timestamp }
    }
}

/// The opaque result of the timestamp/resolution step of a subscription.
/// Only [`LocalMirPlan::resolve`] produces one.
pub struct GlobalMirPlan {
    expr: MirExpr,
    timestamp: u64,
}

impl GlobalMirPlan {
    /// The optimized expression.
    pub closed spec fn mir(&self) -> MirExpr {
        self.expr
    }

    /// The resolved timestamp.
    pub closed spec fn ts(&self) -> u64 {
        self.timestamp
    }
}

/// The opaque terminal result of the subscribe pipeline. Only running
/// the terminal stage of [`Optimizer`] produces one.
pub struct GlobalLirPlan {
    df_desc: LirDataflowDescription,
    timestamp: u64,
}

impl GlobalLirPlan {
    /// The wrapped dataflow description.
    pub closed spec fn df(&self) -> LirDataflowDescription {
        self.df_desc
    }

    /// The resolved timestamp.
    pub closed spec fn ts(&self) -> u64 {
        self.timestamp
    }

    /// Unpack the terminal result into the dataflow description and the
    /// resolved timestamp: the sole sanctioned pipeline exit point.
    pub fn unapply(self) -> (r: (LirDataflowDescription, u64))
        ensures
            r.0 == self.df(),
            r.1 == self.ts(),
    {
        (self.df_desc, self.timestamp)
    }
}

impl Optimize<RawExpr> for Optimizer {
    type To = LocalMirPlan;

    open spec fn stage_ok(&self, plan: RawExpr) -> bool {
        raw_wf(plan@)
    }

    open spec fn stage_post(&self, plan: RawExpr, r: Result<LocalMirPlan, OptimizerError>) -> bool {
        match r {
            Ok(lmp) => raw_wf(plan@) && lmp.mir()@ == lower_raw_seq(
                hir_to_mir_config_of(self.config()),
                plan@,
            ),
            Err(e) => !raw_wf(plan@) && is_empty_expr_error(e),
        }
    }

    fn optimize(&mut self, plan: RawExpr) -> (r: Result<LocalMirPlan, OptimizerError>) {
        let h2m = crate::config::HirToMirConfig {
            enable_new_outer_join_lowering: self.config.enable_new_outer_join_lowering,
        };
        match lower_raw_expr(&h2m, &plan) {
            Ok(expr) => Ok(LocalMirPlan { expr }),
            Err(e) => Err(e),
        }
    }
}

impl Optimize<GlobalMirPlan> for Optimizer {
    type To = GlobalLirPlan;

    open spec fn stage_ok(&self, plan: GlobalMirPlan) -> bool {
        true
    }

    open spec fn stage_post(&self, plan: GlobalMirPlan, r: Result<GlobalLirPlan, OptimizerError>) -> bool {
        match r {
            Ok(glp) => {
                &&& glp.ts() == plan.ts()
                &&& glp.df().objects_to_build@.len() == 1
                &&& glp.df().objects_to_build@[0].id == self.id()
                &&& lowers_to_lir(
                    self.config(),
                    plan.mir()@,
                    glp.df().objects_to_build@[0].plan,
                )
            },
            Err(_) => false,
        }
    }

    fn optimize(&mut self, plan: GlobalMirPlan) -> (r: Result<GlobalLirPlan, OptimizerError>) {
        let timestamp = plan.timestamp;
        let lir: LirPlan = lower_mir_expr(&self.config, &plan.expr);
        let mut objects_to_build: Vec<BuildDesc<LirPlan>> = Vec::new();
        objects_to_build.push(BuildDesc { id: self.sink_id, plan: lir });
        Ok(
            GlobalLirPlan {
                df_desc: LirDataflowDescription { objects_to_build },
                timestamp,
            },
        )
    }
}

/// Law: a valid input runs the subscribe pipeline's declared stage
/// sequence to its terminal result.
pub proof fn lemma_subscribe_pipeline_total(o: Optimizer, raw: RawExpr)
    requires
        raw_wf(raw@),
    ensures
        <Optimizer as Optimize<RawExpr>>::stage_ok(&o, raw),
        forall|g: GlobalMirPlan| <Optimizer as Optimize<GlobalMirPlan>>::stage_ok(&o, g),
{
}

} // verus!
