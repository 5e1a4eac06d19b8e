//! The optimization pipeline for ad-hoc `SELECT` (peek) statements.
//!
//! The raw expression is first optimized locally into the opaque
//! [`LocalMirPlan`]. Timestamp selection is modeled as a conversion
//! between structs adjacent in the pipeline: [`LocalMirPlan::resolve`]
//! takes the externally supplied timestamp and produces the opaque
//! [`GlobalMirPlan`], isolating the one runtime-state-dependent decision
//! from the otherwise pure rewrite stages. The terminal stage decides
//! between a fast-path peek — a constant result small enough to return
//! directly — and a full dataflow, and [`GlobalLirPlan::unapply`] is the
//! sole sanctioned pipeline exit point.

use vstd::prelude::*;

use crate::config::{hir_to_mir_config_of, OptimizerConfig};
use crate::error::OptimizerError;
use crate::ir::{BuildDesc, GlobalId, LirDataflowDescription, LirPlan, MirExpr, MirOp, RawExpr};
use crate::lower::{
    is_empty_expr_error, lower_mir_expr, lower_raw_expr, lower_raw_seq, lowers_to_lir, raw_wf,
};
use crate::stage::Optimize;

verus! {

/// Whether the optimized expression qualifies for a fast-path peek: a
/// single constant collection with fewer rows than the configured
/// exclusive fast-path bound.
pub open spec fn fast_path_eligible(config: OptimizerConfig, s: Seq<MirOp>) -> bool {
    &&& s.len() == 1
    &&& s[0] matches MirOp::Constant(n) && (n as int) < (config.persist_fast_path_limit as int)
}

/// The pipeline assembler for ad-hoc query (peek) statements.
pub struct Optimizer {
    /// The transient id given to the peek's dataflow, if one is built.
    select_id: GlobalId,
    /// The config of this instance, fixed for its whole lifetime.
    config: OptimizerConfig,
}

impl Optimizer {
    /// The id given to the peek's dataflow.
    pub closed spec fn id(&self) -> GlobalId {
        self.select_id
    }

    /// The config snapshot this instance was constructed with.
    pub closed spec fn config(&self) -> OptimizerConfig {
        self.config
    }

    /// Construct a peek pipeline for `select_id` running under `config`.
    pub fn new(select_id: GlobalId, config: OptimizerConfig) -> (r: Self)
        ensures
            r.id() == select_id,
            r.config() == config,
    {
        Self { select_id, config }
    }
}

/// The opaque result of the local optimization stage. Only running the
/// first stage of [`Optimizer`] produces one.
pub struct LocalMirPlan {
    expr: MirExpr,
}

impl LocalMirPlan {
    /// The locally optimized expression.
    pub closed spec fn mir(&self) -> MirExpr {
        self.expr
    }

    /// Read the locally optimized expression.
    pub fn expr(&self) -> (r: &MirExpr)
        ensures
            *r == self.mir(),
    {
        &self.expr
    }

    /// The timestamp/resolution step: a dedicated conversion between two
    /// adjacent stage results, taking the externally supplied
    /// timestamp/consistency decision and producing the next stage's
    /// input.
    pub fn resolve(self, timestamp: u64) -> (r: GlobalMirPlan)
        ensures
            r.mir() == self.mir(),
            r.ts() == timestamp,
    {
        GlobalMirPlan { expr: self.expr, timestamp }
    }
}

/// The opaque result of the timestamp/resolution step. Only
/// [`LocalMirPlan::resolve`] produces one.
pub struct GlobalMirPlan {
    expr: MirExpr,
    timestamp: u64,
}

impl GlobalMirPlan {
    /// The optimized expression.
    pub closed spec fn mir(&self) -> MirExpr {
        self.expr
    }

    /// The resolved timestamp.
    pub closed spec fn ts(&self) -> u64 {
        self.timestamp
    }

    /// Read the resolved timestamp.
    pub fn timestamp(&self) -> (r: u64)
        ensures
            r == self.ts(),
    {
        self.timestamp
    }
}

/// How a peek is executed: directly from a small constant result, or
/// through a full dataflow.
pub enum PeekPlan {
    /// Return the rows of a constant collection directly.
    FastPath(u64),
    /// Build and run a dataflow.
    SlowPath(LirDataflowDescription),
}

/// The opaque terminal result of the peek pipeline. Only running the
/// terminal stage of [`Optimizer`] produces one.
pub struct GlobalLirPlan {
    plan: PeekPlan,
    timestamp: u64,
}

impl GlobalLirPlan {
    /// The chosen peek plan.
    pub closed spec fn plan(&self) -> PeekPlan {
        self.plan
    }

    /// The resolved timestamp.
    pub closed spec fn ts(&self) -> u64 {
        self.timestamp
    }

    /// Unpack the terminal result into the peek plan and the resolved
    /// timestamp: the sole sanctioned pipeline exit point.
    pub fn unapply(self) -> (r: (PeekPlan, u64))
        ensures
            r.0 == self.plan(),
            r.1 == self.ts(),
    {
        (self.plan, self.timestamp)
    }
}

impl Optimize<RawExpr> for Optimizer {
    type To = LocalMirPlan;

    open spec fn stage_ok(&self, plan: RawExpr) -> bool {
        raw_wf(plan@)
    }

    open spec fn stage_post(&self, plan: RawExpr, r: Result<LocalMirPlan, OptimizerError>) -> bool {
        match r {
            Ok(lmp) => raw_wf(plan@) && lmp.mir()@ == lower_raw_seq(
                hir_to_mir_config_of(self.config()),
                plan@,
            ),
            Err(e) => !raw_wf(plan@) && is_empty_expr_error(e),
        }
    }

    fn optimize(&mut self, plan: RawExpr) -> (r: Result<LocalMirPlan, OptimizerError>) {
        let h2m = crate::config::HirToMirConfig {
            enable_new_outer_join_lowering: self.config.enable_new_outer_join_lowering,
        };
        match lower_raw_expr(&h2m, &plan) {
            Ok(expr) => Ok(LocalMirPlan { expr }),
            Err(e) => Err(e),
        }
    }
}

impl Optimize<GlobalMirPlan> for Optimizer {
    type To = GlobalLirPlan;

    open spec fn stage_ok(&self, plan: GlobalMirPlan) -> bool {
        true
    }

    open spec fn stage_post(&self, plan: GlobalMirPlan, r: Result<GlobalLirPlan, OptimizerError>) -> bool {
        match r {
            Ok(glp) => {
                &&& glp.ts() == plan.ts()
                &&& if fast_path_eligible(self.config(), plan.mir()@) {
                    glp.plan() matches PeekPlan::FastPath(rows) && plan.mir()@[0]
                        == MirOp::Constant(rows)
                } else {
                    glp.plan() matches PeekPlan::SlowPath(df) && {
                        &&& df.objects_to_build@.len() == 1
                        &&& df.objects_to_build@[0].id == self.id()
                        &&& lowers_to_lir(
                            self.config(),
                            plan.mir()@,
                            df.objects_to_build@[0].plan,
                        )
                    }
                }
            },
            Err(_) => false,
        }
    }

    fn optimize(&mut self, plan: GlobalMirPlan) -> (r: Result<GlobalLirPlan, OptimizerError>) {
        let timestamp = plan.timestamp;
        let expr = plan.expr;
        let fast_rows: Option<u64> = if expr.ops.len() == 1 {
            match expr.ops[0] {
                MirOp::Constant(n) => {
                    if (n as u128) < (self.config.persist_fast_path_limit as u128) {
                        Some(n)
                    } else {
                        None
                    }
                },
                _ => None,
            }
        } else {
            None
        };
        match fast_rows {
            Some(rows) => Ok(GlobalLirPlan { plan: PeekPlan::FastPath(rows), timestamp }),
            None => {
                let lir: LirPlan = lower_mir_expr(&self.config, &expr);
                let mut objects_to_build: Vec<BuildDesc<LirPlan>> = Vec::new();
                objects_to_build.push(BuildDesc { id: self.select_id, plan: lir });
                Ok(
                    GlobalLirPlan {
                        plan: PeekPlan::SlowPath(LirDataflowDescription { objects_to_build }),
                        timestamp,
                    },
                )
            },
        }
    }
}

/// Law: a valid input runs the peek pipeline's declared stage sequence
/// to its terminal result: the local stage succeeds exactly on well
/// formed raw expressions, the timestamp step is total, and the terminal
/// stage succeeds on every resolved plan.
pub proof fn lemma_peek_pipeline_total(o: Optimizer, raw: RawExpr)
    requires
        raw_wf(raw@),
    ensures
        <Optimizer as Optimize<RawExpr>>::stage_ok(&o, raw),
        forall|g: GlobalMirPlan| <Optimizer as Optimize<GlobalMirPlan>>::stage_ok(&o, g),
{
}

/// Law: two runs of the terminal peek stage under equal configs and on
/// resolved plans with equal contents yield structurally identical
/// outcomes.
pub proof fn lemma_peek_stage_deterministic(
    o1: Optimizer,
    o2: Optimizer,
    p1: GlobalMirPlan,
    p2: GlobalMirPlan,
    r1: Result<GlobalLirPlan, OptimizerError>,
    r2: Result<GlobalLirPlan, OptimizerError>,
)
    requires
        o1.config() == o2.config(),
        o1.id() == o2.id(),
        p1.mir()@ == p2.mir()@,
        p1.ts() == p2.ts(),
        <Optimizer as Optimize<GlobalMirPlan>>::stage_post(&o1, p1, r1),
        <Optimizer as Optimize<GlobalMirPlan>>::stage_post(&o2, p2, r2),
    ensures
        r1 is Ok && r2 is Ok,
        ({
            let g1 = r1->Ok_0;
            let g2 = r2->Ok_0;
            &&& g1.ts() == g2.ts()
            &&& (g1.plan() is FastPath <==> g2.plan() is FastPath)
            &&& (g1.plan() is FastPath ==> g1.plan()->FastPath_0 == g2.plan()->FastPath_0)
        }),
{
}

} // verus!
