use optimizer::config::{OptimizeMode, OptimizerConfig, SystemVars};
use optimizer::dataflows::{Catalog, CatalogEntry, CatalogItem, DataflowBuilder, ViewDef};
use optimizer::error::{OptimizerError, TransformError};
use optimizer::ir::{BuildDesc, DataflowDescription, GlobalId, MirOp, RawExpr, RawOp};
use optimizer::stage::Optimize;
use optimizer::view;

fn explain_config() -> OptimizerConfig {
    let vars = SystemVars {
        enable_consolidate_after_union_negate: false,
        enable_specialized_arrangements: false,
        persist_fast_path_limit: 10,
        enable_new_outer_join_lowering: true,
    };
    let mut config = OptimizerConfig::from(&vars);
    config.mode = OptimizeMode::Explain;
    config
}

fn stale_plan(raw: &[RawOp]) -> optimizer::ir::MirExpr {
    // A plan cached under an older config, with the old outer join lowering.
    let vars = SystemVars {
        enable_consolidate_after_union_negate: false,
        enable_specialized_arrangements: false,
        persist_fast_path_limit: 10,
        enable_new_outer_join_lowering: false,
    };
    let mut opt = view::Optimizer::new(OptimizerConfig::from(&vars));
    opt.must_optimize(RawExpr { ops: raw.to_vec() })
}

fn view_entry(id: GlobalId, raw: &[RawOp]) -> CatalogEntry {
    CatalogEntry {
        id,
        item: CatalogItem::View(ViewDef { raw_expr: RawExpr { ops: raw.to_vec() } }),
    }
}

#[test]
fn reoptimize_refreshes_dependency_chain_and_skips_target() {
    let a = GlobalId::User(1);
    let b = GlobalId::User(2);
    let c = GlobalId::User(3);
    let raw_a = [RawOp::Constant(1), RawOp::OuterJoin];
    let raw_b = [RawOp::Get(a), RawOp::OuterJoin];
    let raw_c = [RawOp::Get(b), RawOp::OuterJoin];
    let catalog = Catalog {
        entries: vec![view_entry(a, &raw_a), view_entry(b, &raw_b), view_entry(c, &raw_c)],
    };
    let builder = DataflowBuilder { catalog: &catalog };

    // Declarations are dependents-first: the explain target, then C, B, A.
    let target_plan = stale_plan(&[RawOp::Get(c)]);
    let mut df_desc = DataflowDescription {
        objects_to_build: vec![
            BuildDesc { id: GlobalId::Explain, plan: stale_plan(&[RawOp::Get(c)]) },
            BuildDesc { id: c, plan: stale_plan(&raw_c) },
            BuildDesc { id: b, plan: stale_plan(&raw_b) },
            BuildDesc { id: a, plan: stale_plan(&raw_a) },
        ],
    };

    let config = explain_config();
    builder
        .reoptimize_imported_views(&mut df_desc, &config)
        .expect("all raw definitions are well formed");

    // Every real view's plan now reflects the current config: outer joins
    // are lowered the new way ([Join, Filter]).
    assert_eq!(
        df_desc.objects_to_build[1].plan.ops,
        vec![MirOp::Get(b), MirOp::Join, MirOp::Filter]
    );
    assert_eq!(
        df_desc.objects_to_build[2].plan.ops,
        vec![MirOp::Get(a), MirOp::Join, MirOp::Filter]
    );
    assert_eq!(
        df_desc.objects_to_build[3].plan.ops,
        vec![MirOp::Constant(1), MirOp::Join, MirOp::Filter]
    );
    // The explain target's own transient entry is untouched.
    assert_eq!(df_desc.objects_to_build[0].plan.ops, target_plan.ops);
}

#[test]
fn reoptimize_failure_leaves_unprocessed_plans_unchanged() {
    let a = GlobalId::User(1);
    let b = GlobalId::User(2);
    let c = GlobalId::User(3);
    let raw_a = [RawOp::Constant(1)];
    let raw_c = [RawOp::Get(b), RawOp::Filter];
    let catalog = Catalog {
        entries: vec![
            view_entry(a, &raw_a),
            // B's stored raw definition is ill formed: recomputing it fails.
            view_entry(b, &[]),
            view_entry(c, &raw_c),
        ],
    };
    let builder = DataflowBuilder { catalog: &catalog };

    let stale_c = stale_plan(&raw_c);
    let mut df_desc = DataflowDescription {
        objects_to_build: vec![
            BuildDesc { id: c, plan: stale_plan(&raw_c) },
            BuildDesc { id: b, plan: stale_plan(&[RawOp::Get(a)]) },
            BuildDesc { id: a, plan: stale_plan(&raw_a) },
        ],
    };

    let config = explain_config();
    let result = builder.reoptimize_imported_views(&mut df_desc, &config);
    match result {
        Err(OptimizerError::TransformError(TransformError::Internal(s))) => {
            assert_eq!(s, "cannot lower an empty expression");
        }
        other => panic!("expected a transform error, got {:?}", other),
    }
    // A (processed before the failure) was refreshed; C (a dependent of B,
    // not yet processed) keeps its cached plan, not a fresh uncommitted one.
    assert_eq!(df_desc.objects_to_build[2].plan.ops, vec![MirOp::Constant(1)]);
    assert_eq!(df_desc.objects_to_build[0].plan.ops, stale_c.ops);
}

#[test]
fn reoptimize_is_a_no_op_outside_explain_mode() {
    let a = GlobalId::User(1);
    let catalog = Catalog { entries: vec![view_entry(a, &[RawOp::OuterJoin])] };
    let builder = DataflowBuilder { catalog: &catalog };
    let stale = stale_plan(&[RawOp::OuterJoin]);
    let mut df_desc = DataflowDescription {
        objects_to_build: vec![BuildDesc { id: a, plan: stale_plan(&[RawOp::OuterJoin]) }],
    };
    let mut config = explain_config();
    config.mode = OptimizeMode::Execute;
    builder
        .reoptimize_imported_views(&mut df_desc, &config)
        .expect("nothing to do");
    assert_eq!(df_desc.objects_to_build[0].plan.ops, stale.ops);
}

#[test]
fn catalog_lookup_finds_entries() {
    let a = GlobalId::User(1);
    let t = GlobalId::System(2);
    let catalog = Catalog {
        entries: vec![
            view_entry(a, &[RawOp::Filter]),
            CatalogEntry { id: t, item: CatalogItem::Table },
        ],
    };
    let entry = catalog.get_entry(&t);
    assert_eq!(entry.id, t);
    assert!(matches!(entry.item, CatalogItem::Table));
}
