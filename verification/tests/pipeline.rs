use optimizer::cloud::{parse_size, mz_version_or_latest, DeploymentSize};
use optimizer::config::{ExplainConfig, HirToMirConfig, OptimizeMode, OptimizerConfig, SystemVars};
use optimizer::error::{AdapterError, OptimizerError, PlanError, TransformError};
use optimizer::index;
use optimizer::ir::{GlobalId, LirOp, MirOp, RawExpr, RawOp};
use optimizer::peek;
use optimizer::peek::PeekPlan;
use optimizer::stage::Optimize;
use optimizer::view;

fn vars() -> SystemVars {
    SystemVars {
        enable_consolidate_after_union_negate: false,
        enable_specialized_arrangements: false,
        persist_fast_path_limit: 10,
        enable_new_outer_join_lowering: false,
    }
}

#[test]
fn config_from_vars_defaults_to_execute() {
    let config = OptimizerConfig::from(&vars());
    assert_eq!(config.mode, OptimizeMode::Execute);
    assert!(!config.enable_consolidate_after_union_negate);
    assert!(!config.enable_specialized_arrangements);
    assert_eq!(config.persist_fast_path_limit, 10);
    assert!(!config.enable_new_outer_join_lowering);
}

#[test]
fn config_overlay_no_flags_only_changes_mode() {
    let base = OptimizerConfig::from(&vars());
    let ec = ExplainConfig { enable_new_outer_join_lowering: None };
    let overlaid = OptimizerConfig::from((&vars(), &ec));
    let mut expected = base.clone();
    expected.mode = OptimizeMode::Explain;
    assert_eq!(overlaid, expected);
}

#[test]
fn config_overlay_set_flag_wins() {
    let ec = ExplainConfig { enable_new_outer_join_lowering: Some(true) };
    let overlaid = OptimizerConfig::from((&vars(), &ec));
    assert_eq!(overlaid.mode, OptimizeMode::Explain);
    assert!(overlaid.enable_new_outer_join_lowering);
    assert!(!overlaid.enable_consolidate_after_union_negate);
    assert!(!overlaid.enable_specialized_arrangements);
    assert_eq!(overlaid.persist_fast_path_limit, 10);
}

#[test]
fn hir_to_mir_config_projects_flag() {
    let mut config = OptimizerConfig::from(&vars());
    config.enable_new_outer_join_lowering = true;
    let h2m = HirToMirConfig::from(&config);
    assert!(h2m.enable_new_outer_join_lowering);
}

#[test]
fn adapter_error_round_trips() {
    let original = AdapterError::Catalog(String::from("unknown catalog item 'u1'"));
    let wrapped = OptimizerError::from(original.clone());
    let back = AdapterError::from(wrapped);
    assert_eq!(back, original);
    assert_eq!(back.message(), original.message());
}

#[test]
fn other_errors_flatten_to_internal() {
    let plan_err = OptimizerError::from(PlanError { detail: String::from("no such column") });
    assert_eq!(plan_err.message(), "no such column");
    let flattened = AdapterError::from(plan_err);
    assert_eq!(flattened, AdapterError::Internal(String::from("no such column")));

    let t = OptimizerError::from(TransformError::Internal(String::from("bad rewrite")));
    assert_eq!(t.message(), "bad rewrite");

    let internal = OptimizerError::Internal(String::from("oops"));
    assert_eq!(internal.message(), "internal optimizer error: oops");
    let flattened = AdapterError::from(internal);
    assert_eq!(
        flattened,
        AdapterError::Internal(String::from("internal optimizer error: oops"))
    );
}

#[test]
fn view_pipeline_lowers_outer_joins_old_way() {
    let config = OptimizerConfig::from(&vars());
    let mut opt = view::Optimizer::new(config);
    let raw = RawExpr { ops: vec![RawOp::Constant(4), RawOp::OuterJoin] };
    let mir = opt.optimize(raw).expect("well-formed expression");
    assert_eq!(
        mir.ops,
        vec![MirOp::Constant(4), MirOp::Join, MirOp::Union, MirOp::Negate]
    );
}

#[test]
fn view_pipeline_lowers_outer_joins_new_way() {
    let mut config = OptimizerConfig::from(&vars());
    config.enable_new_outer_join_lowering = true;
    let mut opt = view::Optimizer::new(config);
    let raw = RawExpr { ops: vec![RawOp::Constant(4), RawOp::OuterJoin] };
    let mir = opt.optimize(raw).expect("well-formed expression");
    assert_eq!(mir.ops, vec![MirOp::Constant(4), MirOp::Join, MirOp::Filter]);
}

#[test]
fn view_pipeline_rejects_empty_expression() {
    let config = OptimizerConfig::from(&vars());
    let mut opt = view::Optimizer::new(config);
    let raw = RawExpr { ops: vec![] };
    match opt.optimize(raw) {
        Err(OptimizerError::TransformError(TransformError::Internal(s))) => {
            assert_eq!(s, "cannot lower an empty expression");
        }
        other => panic!("expected a transform error, got {:?}", other.map(|m| m.ops)),
    }
}

#[test]
fn view_stage_is_deterministic() {
    let config = OptimizerConfig::from(&vars());
    let raw = || RawExpr { ops: vec![RawOp::Get(GlobalId::User(1)), RawOp::OuterJoin, RawOp::Filter] };
    let mut opt1 = view::Optimizer::new(config.clone());
    let mut opt2 = view::Optimizer::new(config);
    let m1 = opt1.optimize(raw()).unwrap();
    let m2 = opt2.optimize(raw()).unwrap();
    assert_eq!(m1.ops, m2.ops);
}

#[test]
fn must_optimize_succeeds_on_valid_input() {
    let config = OptimizerConfig::from(&vars());
    let mut opt = view::Optimizer::new(config);
    let raw = RawExpr { ops: vec![RawOp::Filter] };
    let mir = opt.must_optimize(raw);
    assert_eq!(mir.ops, vec![MirOp::Filter]);
}

#[test]
fn index_pipeline_runs_to_terminal_result() {
    let mut config = OptimizerConfig::from(&vars());
    config.enable_specialized_arrangements = true;
    let id = GlobalId::User(7);
    let mut opt = index::Optimizer::new(id, config);
    let raw = RawExpr { ops: vec![RawOp::Get(GlobalId::User(1)), RawOp::Filter] };
    let gmp = opt.optimize(raw).expect("stage one");
    let glp: index::GlobalLirPlan = opt.optimize(gmp).expect("stage two");
    let (df, exported) = glp.unapply();
    assert_eq!(exported, id);
    assert_eq!(df.objects_to_build.len(), 1);
    assert_eq!(df.objects_to_build[0].id, id);
    assert_eq!(
        df.objects_to_build[0].plan.ops,
        vec![LirOp::Get(GlobalId::User(1)), LirOp::Filter]
    );
    assert!(df.objects_to_build[0].plan.specialized_arrangements);
}

#[test]
fn index_pipeline_mid_level_entry_point() {
    let config = OptimizerConfig::from(&vars());
    let id = GlobalId::User(9);
    let mut view_opt = view::Optimizer::new(config.clone());
    let body = view_opt
        .optimize(RawExpr { ops: vec![RawOp::Negate, RawOp::Union] })
        .expect("view body");
    let mut opt = index::Optimizer::new(id, config);
    let gmp = opt.optimize(body).expect("mid-level entry");
    assert_eq!(gmp.df_desc().objects_to_build.len(), 1);
    assert_eq!(
        gmp.df_desc().objects_to_build[0].plan.ops,
        vec![MirOp::Negate, MirOp::Union]
    );
}

#[test]
fn index_pipeline_consolidates_union_after_negate() {
    let mut config = OptimizerConfig::from(&vars());
    config.enable_consolidate_after_union_negate = true;
    let id = GlobalId::User(3);
    let mut opt = index::Optimizer::new(id, config);
    let raw = RawExpr { ops: vec![RawOp::Negate, RawOp::Union, RawOp::Filter] };
    let gmp = opt.optimize(raw).expect("stage one");
    let glp: index::GlobalLirPlan = opt.optimize(gmp).expect("stage two");
    let (df, _) = glp.unapply();
    assert_eq!(
        df.objects_to_build[0].plan.ops,
        vec![LirOp::Negate, LirOp::Union, LirOp::Consolidate, LirOp::Filter]
    );
}

#[test]
fn peek_pipeline_takes_fast_path_under_limit() {
    let config = OptimizerConfig::from(&vars());
    let mut opt = peek::Optimizer::new(GlobalId::Transient(1), config);
    let lmp = opt
        .optimize(RawExpr { ops: vec![RawOp::Constant(3)] })
        .expect("local stage");
    let gmp = lmp.resolve(42);
    assert_eq!(gmp.timestamp(), 42);
    let glp: peek::GlobalLirPlan = opt.optimize(gmp).expect("global stage");
    let (plan, ts) = glp.unapply();
    assert_eq!(ts, 42);
    match plan {
        PeekPlan::FastPath(rows) => assert_eq!(rows, 3),
        PeekPlan::SlowPath(_) => panic!("expected the fast path"),
    }
}

#[test]
fn peek_pipeline_builds_dataflow_over_limit() {
    let config = OptimizerConfig::from(&vars());
    let select_id = GlobalId::Transient(8);
    let mut opt = peek::Optimizer::new(select_id, config);
    let lmp = opt
        .optimize(RawExpr { ops: vec![RawOp::Constant(10)] })
        .expect("local stage");
    let glp: peek::GlobalLirPlan = opt.optimize(lmp.resolve(7)).expect("global stage");
    let (plan, ts) = glp.unapply();
    assert_eq!(ts, 7);
    match plan {
        PeekPlan::SlowPath(df) => {
            assert_eq!(df.objects_to_build.len(), 1);
            assert_eq!(df.objects_to_build[0].id, select_id);
            assert_eq!(df.objects_to_build[0].plan.ops, vec![LirOp::Constant(10)]);
        }
        PeekPlan::FastPath(_) => panic!("expected a dataflow"),
    }
}

#[test]
fn parse_size_accepts_the_five_sizes() {
    assert_eq!(parse_size("XS"), Ok(DeploymentSize::XS));
    assert_eq!(parse_size("S"), Ok(DeploymentSize::S));
    assert_eq!(parse_size("M"), Ok(DeploymentSize::M));
    assert_eq!(parse_size("L"), Ok(DeploymentSize::L));
    assert_eq!(parse_size("XL"), Ok(DeploymentSize::XL));
}

#[test]
fn parse_size_rejects_everything_else() {
    assert_eq!(parse_size("XXL"), Err(String::from("Invalid size.")));
    assert_eq!(parse_size(""), Err(String::from("Invalid size.")));
    assert_eq!(parse_size("xs"), Err(String::from("Invalid size.")));
}

#[test]
fn version_or_latest_prefers_explicit_version() {
    let available = vec![String::from("0.8.0"), String::from("0.9.1")];
    let v = mz_version_or_latest(Some(String::from("0.7.2")), &available);
    assert_eq!(v, "0.7.2");
}

#[test]
fn version_or_latest_falls_back_to_last() {
    let available = vec![String::from("0.8.0"), String::from("0.9.1")];
    let v = mz_version_or_latest(None, &available);
    assert_eq!(v, "0.9.1");
}
