//! The optimization pipeline for `CREATE INDEX` statements.
//!
//! The pipeline has two entry points: from the raw expression of the
//! indexed collection, or from an already-optimized mid-level expression
//! obtained from another pipeline run. Either entry produces the opaque
//! [`GlobalMirPlan`], which the second stage lowers to the terminal
//! [`GlobalLirPlan`]; its consuming [`GlobalLirPlan::unapply`] is the
//! sole sanctioned pipeline exit point.

use vstd::prelude::*;

use crate::config::{hir_to_mir_config_of, OptimizerConfig};
use crate::error::OptimizerError;
use crate::ir::{BuildDesc, GlobalId, LirDataflowDescription, MirDataflowDescription, MirExpr, RawExpr};
use crate::lower::{
    is_empty_expr_error, lower_mir_expr, lower_raw_expr, lower_raw_seq, lowers_to_lir, raw_wf,
};
use crate::stage::Optimize;

verus! {

/// The pipeline assembler for `CREATE INDEX` statements.
pub struct Optimizer {
    /// The id the new index is exported under.
    exported_index_id: GlobalId,
    /// The config of this instance, fixed for its whole lifetime.
    config: OptimizerConfig,
}

impl Optimizer {
    /// The id the new index is exported under.
    pub closed spec fn id(&self) -> GlobalId {
        self.exported_index_id
    }

    /// The config snapshot this instance was constructed with.
    pub closed spec fn config(&self) -> OptimizerConfig {
        self.config
    }

    /// Construct an index pipeline for `exported_index_id` running under
    /// `config`.
    pub fn new(exported_index_id: GlobalId, config: OptimizerConfig) -> (r: Self)
        ensures
            r.id() == exported_index_id,
            r.config() == config,
    {
        Self { exported_index_id, config }
    }
}

/// The opaque result of the mid-level half of the index pipeline: the
/// dataflow description of the index backed by mid-level plans. Only
/// running a stage of [`Optimizer`] produces one.
pub struct GlobalMirPlan {
    df_desc: MirDataflowDescription,
}

impl GlobalMirPlan {
    /// The wrapped dataflow description.
    pub closed spec fn df(&self) -> MirDataflowDescription {
        self.df_desc
    }

    /// Read the wrapped dataflow description.
    pub fn df_desc(&self) -> (r: &MirDataflowDescription)
        ensures
            *r == self.df(),
    {
        &self.df_desc
    }
}

/// The opaque terminal result of the index pipeline: the dataflow
/// description backed by physical plans. Only running the terminal stage
/// of [`Optimizer`] produces one.
pub struct GlobalLirPlan {
    df_desc: LirDataflowDescription,
    exported_index_id: GlobalId,
}

impl GlobalLirPlan {
    /// The wrapped dataflow description.
    pub closed spec fn df(&self) -> LirDataflowDescription {
        self.df_desc
    }

    /// The id the index is exported under.
    pub closed spec fn id(&self) -> GlobalId {
        self.exported_index_id
    }

    /// Read the wrapped dataflow description.
    pub fn df_desc(&self) -> (r: &LirDataflowDescription)
        ensures
            *r == self.df(),
    {
        &self.df_desc
    }

    /// Unpack the terminal result into the dataflow description and the
    /// exported object id: the sole sanctioned pipeline exit point.
    pub fn unapply(self) -> (r: (LirDataflowDescription, GlobalId))
        ensures
            r.0 == self.df(),
            r.1 == self.id(),
    {
        (self.df_desc, self.exported_index_id)
    }
}

impl Optimize<RawExpr> for Optimizer {
    type To = GlobalMirPlan;

    open spec fn stage_ok(&self, plan: RawExpr) -> bool {
        raw_wf(plan@)
    }

    open spec fn stage_post(&self, plan: RawExpr, r: Result<GlobalMirPlan, OptimizerError>) -> bool {
        match r {
            Ok(gmp) => {
                &&& raw_wf(plan@)
                &&& gmp.df().objects_to_build@.len() == 1
                &&& gmp.df().objects_to_build@[0].id == self.id()
                &&& gmp.df().objects_to_build@[0].plan@ == lower_raw_seq(
                    hir_to_mir_config_of(self.config()),
                    plan@,
                )
            },
            Err(e) => !raw_wf(plan@) && is_empty_expr_error(e),
        }
    }

    fn optimize(&mut self, plan: RawExpr) -> (r: Result<GlobalMirPlan, OptimizerError>) {
        let h2m = crate::config::HirToMirConfig {
            enable_new_outer_join_lowering: self.config.enable_new_outer_join_lowering,
        };
        match lower_raw_expr(&h2m, &plan) {
            Ok(expr) => {
                let desc = BuildDesc { id: self.exported_index_id, plan: expr };
                let mut objects_to_build: Vec<BuildDesc<MirExpr>> = Vec::new();
                objects_to_build.push(desc);
                Ok(GlobalMirPlan { df_desc: MirDataflowDescription { objects_to_build } })
            },
            Err(e) => Err(e),
        }
    }
}

impl Optimize<MirExpr> for Optimizer {
    type To = GlobalMirPlan;

    open spec fn stage_ok(&self, plan: MirExpr) -> bool {
        true
    }

    open spec fn stage_post(&self, plan: MirExpr, r: Result<GlobalMirPlan, OptimizerError>) -> bool {
        match r {
            Ok(gmp) => {
                &&& gmp.df().objects_to_build@.len() == 1
                &&& gmp.df().objects_to_build@[0].id == self.id()
                &&& gmp.df().objects_to_build@[0].plan@ == plan@
            },
            Err(_) => false,
        }
    }

    fn optimize(&mut self, plan: MirExpr) -> (r: Result<GlobalMirPlan, OptimizerError>) {
        let desc = BuildDesc { id: self.exported_index_id, plan };
        let mut objects_to_build: Vec<BuildDesc<MirExpr>> = Vec::new();
        objects_to_build.push(desc);
        Ok(GlobalMirPlan { df_desc: MirDataflowDescription { objects_to_build } })
    }
}

impl Optimize<GlobalMirPlan> for Optimizer {
    type To = GlobalLirPlan;

    open spec fn stage_ok(&self, plan: GlobalMirPlan) -> bool {
        true
    }

    open spec fn stage_post(&self, plan: GlobalMirPlan, r: Result<GlobalLirPlan, OptimizerError>) -> bool {
        match r {
            Ok(glp) => {
                &&& glp.id() == self.id()
                &&& glp.df().objects_to_build@.len() == plan.df().objects_to_build@.len()
                &&& forall|j: int|
                    0 <= j < plan.df().objects_to_build@.len() ==> {
                        &&& (#[trigger] glp.df().objects_to_build@[j]).id
                            == plan.df().objects_to_build@[j].id
                        &&& lowers_to_lir(
                            self.config(),
                            plan.df().objects_to_build@[j].plan@,
                            glp.df().objects_to_build@[j].plan,
                        )
                    }
            },
            Err(_) => false,
        }
    }

    fn optimize(&mut self, plan: GlobalMirPlan) -> (r: Result<GlobalLirPlan, OptimizerError>) {
        let mut objects_to_build: Vec<BuildDesc<crate::ir::LirPlan>> = Vec::new();
        let src = &plan.df_desc.objects_to_build;
        let mut j: usize = 0;
        while j < src.len()
            invariant
                j <= src@.len(),
                src == &plan.df_desc.objects_to_build,
                objects_to_build@.len() == j,
                forall|t: int|
                    0 <= t < j ==> {
                        &&& (#[trigger] objects_to_build@[t]).id == src@[t].id
                        &&& lowers_to_lir(self.config, src@[t].plan@, objects_to_build@[t].plan)
                    },
            decreases src@.len() - j,
        {
            let lir = lower_mir_expr(&self.config, &src[j].plan);
            objects_to_build.push(BuildDesc { id: src[j].id, plan: lir });
            j = j + 1;
        }
        Ok(
            GlobalLirPlan {
                df_desc: LirDataflowDescription { objects_to_build },
                exported_index_id: self.exported_index_id,
            },
        )
    }
}

/// Law: a valid input runs the index pipeline's declared stage sequence
/// to its terminal result: the first stage succeeds exactly on well
/// formed raw expressions (the mid-level entry point always succeeds),
/// and the terminal stage succeeds on every intermediate result.
pub proof fn lemma_index_pipeline_total(o: Optimizer, raw: RawExpr)
    requires
        raw_wf(raw@),
    ensures
        <Optimizer as Optimize<RawExpr>>::stage_ok(&o, raw),
        forall|m: MirExpr| <Optimizer as Optimize<MirExpr>>::stage_ok(&o, m),
        forall|g: GlobalMirPlan| <Optimizer as Optimize<GlobalMirPlan>>::stage_ok(&o, g),
{
}

} // verus!
