use optimizer::config::{OptimizerConfig, SystemVars};
use optimizer::ir::{GlobalId, LirOp, RawExpr, RawOp};
use optimizer::materialized_view;
use optimizer::stage::Optimize;
use optimizer::subscribe;

fn config() -> OptimizerConfig {
    OptimizerConfig::from(&SystemVars {
        enable_consolidate_after_union_negate: false,
        enable_specialized_arrangements: false,
        persist_fast_path_limit: 10,
        enable_new_outer_join_lowering: true,
    })
}

#[test]
fn materialized_view_pipeline_runs_to_terminal_result() {
    let id = GlobalId::User(11);
    let mut opt = materialized_view::Optimizer::new(id, config());
    let raw = RawExpr { ops: vec![RawOp::Get(GlobalId::User(4)), RawOp::OuterJoin] };
    let gmp = opt.optimize(raw).expect("stage one");
    let glp: materialized_view::GlobalLirPlan = opt.optimize(gmp).expect("stage two");
    let (df, exported) = glp.unapply();
    assert_eq!(exported, id);
    assert_eq!(df.objects_to_build.len(), 1);
    assert_eq!(
        df.objects_to_build[0].plan.ops,
        vec![LirOp::Get(GlobalId::User(4)), LirOp::Join, LirOp::Filter]
    );
}

#[test]
fn materialized_view_pipeline_rejects_empty_expression() {
    let mut opt = materialized_view::Optimizer::new(GlobalId::User(11), config());
    assert!(opt.optimize(RawExpr { ops: vec![] }).is_err());
}

#[test]
fn subscribe_pipeline_carries_timestamp_to_terminal_result() {
    let id = GlobalId::Transient(5);
    let mut opt = subscribe::Optimizer::new(id, config());
    let lmp = opt
        .optimize(RawExpr { ops: vec![RawOp::Constant(2)] })
        .expect("local stage");
    let glp: subscribe::GlobalLirPlan = opt.optimize(lmp.resolve(99)).expect("global stage");
    let (df, ts) = glp.unapply();
    assert_eq!(ts, 99);
    assert_eq!(df.objects_to_build.len(), 1);
    assert_eq!(df.objects_to_build[0].id, id);
    assert_eq!(df.objects_to_build[0].plan.ops, vec![LirOp::Constant(2)]);
}
