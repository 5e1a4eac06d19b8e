//! Optimizer configuration: an immutable snapshot of mode and feature flags,
//! built from system configuration and optionally overlaid with explain-time
//! overrides.

use vstd::prelude::*;

verus! {

/// The mode in which the optimizer runs.
#[derive(Clone, Copy, Debug, PartialEq, Eq, Structural)]
pub enum OptimizeMode {
    /// A mode where the optimized statement is executed.
    Execute,
    /// A mode where the optimized statement is explained.
    Explain,
}

/// Feature flags for the optimizer.
///
/// A config is fixed for the lifetime of one pipeline instance; no stage
/// mutates it. Running under a different config requires a new instance.
#[derive(Clone, Copy, Debug, PartialEq, Eq, Structural)]
pub struct OptimizerConfig {
    /// The mode in which the optimizer runs.
    pub mode: OptimizeMode,
    /// Enable consolidation of unions that happen immediately after negate.
    ///
    /// The refinement happens in the LIR to LIR phase.
    pub enable_consolidate_after_union_negate: bool,
    /// Enable collecting type information so that rendering can
    /// type-specialize arrangements.
    ///
    /// The collection of type information happens in MIR to LIR lowering.
    pub enable_specialized_arrangements: bool,
    /// An exclusive upper bound on the number of results we may return from
    /// a fast-path peek.
    pub persist_fast_path_limit: usize,
    /// Enable the new outer join lowering.
    pub enable_new_outer_join_lowering: bool,
}

/// A snapshot of the system configuration, read once when an
/// [`OptimizerConfig`] is constructed and never re-read mid-pipeline.
#[derive(Clone, Debug)]
pub struct SystemVars {
    /// Current system value of the union/negate consolidation flag.
    pub enable_consolidate_after_union_negate: bool,
    /// Current system value of the arrangement specialization flag.
    pub enable_specialized_arrangements: bool,
    /// Current system value of the fast-path result-count threshold.
    pub persist_fast_path_limit: usize,
    /// Current system value of the outer join lowering flag.
    pub enable_new_outer_join_lowering: bool,
}

impl SystemVars {
    /// Named getter for the union/negate consolidation flag.
    pub fn enable_consolidate_after_union_negate(&self) -> (r: bool)
        ensures
            r == self.enable_consolidate_after_union_negate,
    {
        self.enable_consolidate_after_union_negate
    }

    /// Named getter for the arrangement specialization flag.
    pub fn enable_specialized_arrangements(&self) -> (r: bool)
        ensures
            r == self.enable_specialized_arrangements,
    {
        self.enable_specialized_arrangements
    }

    /// Named getter for the fast-path result-count threshold.
    pub fn persist_fast_path_limit(&self) -> (r: usize)
        ensures
            r == self.persist_fast_path_limit,
    {
        self.persist_fast_path_limit
    }

    /// Named getter for the outer join lowering flag.
    pub fn enable_new_outer_join_lowering(&self) -> (r: bool)
        ensures
            r == self.enable_new_outer_join_lowering,
    {
        self.enable_new_outer_join_lowering
    }
}

/// Explain-time overrides: each flag the override explicitly sets replaces
/// the base value; unset fields retain the base value.
#[derive(Clone, Copy, Debug)]
pub struct ExplainConfig {
    /// Optional override for the outer join lowering flag.
    pub enable_new_outer_join_lowering: Option<bool>,
}

/// The subset of the configuration consumed by the HIR to MIR lowering.
#[derive(Clone, Debug, PartialEq, Eq, Structural)]
pub struct HirToMirConfig {
    /// Whether the new outer join lowering is enabled.
    pub enable_new_outer_join_lowering: bool,
}

/// The config constructed from a system-configuration snapshot alone:
/// mode defaults to [`OptimizeMode::Execute`] and each feature flag takes
/// the corresponding current system value.
pub open spec fn config_from_vars(vars: SystemVars) -> OptimizerConfig {
    OptimizerConfig {
        mode: OptimizeMode::Execute,
        enable_consolidate_after_union_negate: vars.enable_consolidate_after_union_negate,
        enable_specialized_arrangements: vars.enable_specialized_arrangements,
        persist_fast_path_limit: vars.persist_fast_path_limit,
        enable_new_outer_join_lowering: vars.enable_new_outer_join_lowering,
    }
}

/// The config obtained by overlaying explain-time overrides on a base
/// config: mode is forced to [`OptimizeMode::Explain`], each flag the
/// override explicitly sets is substituted, and unset override fields
/// retain the base value.
pub open spec fn config_overlay(base: OptimizerConfig, ec: ExplainConfig) -> OptimizerConfig {
    OptimizerConfig {
        mode: OptimizeMode::Explain,
        enable_consolidate_after_union_negate: base.enable_consolidate_after_union_negate,
        enable_specialized_arrangements: base.enable_specialized_arrangements,
        persist_fast_path_limit: base.persist_fast_path_limit,
        enable_new_outer_join_lowering: match ec.enable_new_outer_join_lowering {
            Some(flag) => flag,
            None => base.enable_new_outer_join_lowering,
        },
    }
}

impl<'a> From<&'a SystemVars> for OptimizerConfig {
    fn from(vars: &'a SystemVars) -> (r: Self) {
        Self {
            mode: OptimizeMode::Execute,
            enable_consolidate_after_union_negate: vars.enable_consolidate_after_union_negate(),
            enable_specialized_arrangements: vars.enable_specialized_arrangements(),
            persist_fast_path_limit: vars.persist_fast_path_limit(),
            enable_new_outer_join_lowering: vars.enable_new_outer_join_lowering(),
        }
    }
}

impl<'a> vstd::std_specs::convert::FromSpecImpl<&'a SystemVars> for OptimizerConfig {
    open spec fn obeys_from_spec() -> bool {
        true
    }

    open spec fn from_spec(vars: &'a SystemVars) -> OptimizerConfig {
        config_from_vars(*vars)
    }
}

impl<'a, 'b> From<(&'a SystemVars, &'b ExplainConfig)> for OptimizerConfig {
    fn from(pair: (&'a SystemVars, &'b ExplainConfig)) -> (r: Self) {
        let (vars, explain_config) = pair;
        // Construct the base config from the system snapshot.
        let mut config = Self::from(vars);
        // This constructor is only reached from an explain context.
        config.mode = OptimizeMode::Explain;
        // Override the feature flags that the explain config sets.
        if let Some(explain_flag) = explain_config.enable_new_outer_join_lowering {
            config.enable_new_outer_join_lowering = explain_flag;
        }
        config
    }
}

impl<'a, 'b> vstd::std_specs::convert::FromSpecImpl<(&'a SystemVars, &'b ExplainConfig)> for OptimizerConfig {
    open spec fn obeys_from_spec() -> bool {
        true
    }

    open spec fn from_spec(pair: (&'a SystemVars, &'b ExplainConfig)) -> OptimizerConfig {
        config_overlay(config_from_vars(*pair.0), *pair.1)
    }
}

/// The lowering config the full optimizer config projects to.
pub open spec fn hir_to_mir_config_of(config: OptimizerConfig) -> HirToMirConfig {
    HirToMirConfig { enable_new_outer_join_lowering: config.enable_new_outer_join_lowering }
}

impl<'a> From<&'a OptimizerConfig> for HirToMirConfig {
    fn from(config: &'a OptimizerConfig) -> (r: Self) {
        Self {
            enable_new_outer_join_lowering: config.enable_new_outer_join_lowering,
        }
    }
}

impl<'a> vstd::std_specs::convert::FromSpecImpl<&'a OptimizerConfig> for HirToMirConfig {
    open spec fn obeys_from_spec() -> bool {
        true
    }

    open spec fn from_spec(config: &'a OptimizerConfig) -> HirToMirConfig {
        hir_to_mir_config_of(*config)
    }
}

/// Law: overlaying an explain override that sets no flags yields the base
/// config with only the mode forced to [`OptimizeMode::Explain`]; an
/// override that sets the outer join lowering flag yields that flag's value
/// while all unset override fields retain the base values.
pub proof fn lemma_config_overlay(vars: SystemVars, ec: ExplainConfig)
    ensures
        ({
            let base = config_from_vars(vars);
            let overlaid = config_overlay(base, ec);
            &&& overlaid.mode == OptimizeMode::Explain
            &&& overlaid.enable_consolidate_after_union_negate
                == base.enable_consolidate_after_union_negate
            &&& overlaid.enable_specialized_arrangements == base.enable_specialized_arrangements
            &&& overlaid.persist_fast_path_limit == base.persist_fast_path_limit
            &&& ec.enable_new_outer_join_lowering is None ==> overlaid
                == OptimizerConfig { mode: OptimizeMode::Explain, ..base }
            &&& ec.enable_new_outer_join_lowering matches Some(flag) ==> overlaid
                .enable_new_outer_join_lowering == flag
        }),
{
}

} // verus!
