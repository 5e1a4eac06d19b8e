//! The lowering steps between IR levels, invoked inside stage bodies.
//!
//! Each step is deterministic given (config, input): the raw-to-MIR step
//! lowers outer joins according to the configured lowering strategy, and
//! the MIR-to-LIR step produces the physical plan, optionally refining it
//! by consolidating unions that happen immediately after negate.

use vstd::prelude::*;

use crate::config::{HirToMirConfig, OptimizerConfig};
use crate::error::{OptimizerError, TransformError};
use crate::ir::{LirOp, LirPlan, MirExpr, MirOp, RawExpr, RawOp};

verus! {

/// A raw expression is well formed when it has at least one operator;
/// planning never hands the optimizer an empty operator list.
pub open spec fn raw_wf(s: Seq<RawOp>) -> bool {
    s.len() > 0
}

/// The mid-level operators one raw operator lowers to: outer joins lower
/// to an inner join refined either by a filter (new lowering) or by a
/// union/negate correction (old lowering); every other operator is kept.
pub open spec fn lower_raw_op(c: HirToMirConfig, op: RawOp) -> Seq<MirOp> {
    match op {
        RawOp::Constant(n) => seq![MirOp::Constant(n)],
        RawOp::Get(id) => seq![MirOp::Get(id)],
        RawOp::Filter => seq![MirOp::Filter],
        RawOp::Negate => seq![MirOp::Negate],
        RawOp::Union => seq![MirOp::Union],
        RawOp::OuterJoin => if c.enable_new_outer_join_lowering {
            seq![MirOp::Join, MirOp::Filter]
        } else {
            seq![MirOp::Join, MirOp::Union, MirOp::Negate]
        },
    }
}

/// The mid-level operator sequence a raw operator sequence lowers to.
pub open spec fn lower_raw_seq(c: HirToMirConfig, s: Seq<RawOp>) -> Seq<MirOp>
    decreases s.len(),
{
    if s.len() == 0 {
        Seq::empty()
    } else {
        lower_raw_seq(c, s.drop_last()) + lower_raw_op(c, s.last())
    }
}

/// The error reported when lowering is asked to process an empty raw
/// expression.
pub open spec fn is_empty_expr_error(e: OptimizerError) -> bool {
    &&& e matches OptimizerError::TransformError(TransformError::Internal(s))
    &&& s@ == "cannot lower an empty expression"@
}

/// Lower a raw expression to its optimized mid-level form.
///
/// Succeeds exactly on well-formed (non-empty) raw expressions and then
/// returns precisely the configured lowering of the input.
pub fn lower_raw_expr(config: &HirToMirConfig, raw: &RawExpr) -> (r: Result<
    MirExpr,
    OptimizerError,
>)
    ensures
        r is Ok <==> raw_wf(raw@),
        r matches Ok(m) ==> m@ == lower_raw_seq(*config, raw@),
        r matches Err(e) ==> is_empty_expr_error(e),
{
    if raw.ops.len() == 0 {
        return Err(
            OptimizerError::TransformError(
                TransformError::Internal(String::from_str("cannot lower an empty expression")),
            ),
        );
    }
    let mut ops: Vec<MirOp> = Vec::new();
    let mut i: usize = 0;
    while i < raw.ops.len()
        invariant
            i <= raw.ops.len(),
            ops@ == lower_raw_seq(*config, raw.ops@.take(i as int)),
        decreases raw.ops.len() - i,
    {
        let op = raw.ops[i];
        match op {
            RawOp::Constant(n) => ops.push(MirOp::Constant(n)),
            RawOp::Get(id) => ops.push(MirOp::Get(id)),
            RawOp::Filter => ops.push(MirOp::Filter),
            RawOp::Negate => ops.push(MirOp::Negate),
            RawOp::Union => ops.push(MirOp::Union),
            RawOp::OuterJoin => {
                ops.push(MirOp::Join);
                if config.enable_new_outer_join_lowering {
                    ops.push(MirOp::Filter);
                } else {
                    ops.push(MirOp::Union);
                    ops.push(MirOp::Negate);
                }
            },
        }
        i = i + 1;
        proof {
            assert(raw.ops@.take(i as int).drop_last() =~= raw.ops@.take(i as int - 1));
            assert(ops@ =~= lower_raw_seq(*config, raw.ops@.take(i as int)));
        }
    }
    proof {
        assert(raw.ops@.take(raw.ops@.len() as int) =~= raw.ops@);
    }
    Ok(MirExpr { ops })
}

/// The physical operator one mid-level operator lowers to.
pub open spec fn lower_mir_op(op: MirOp) -> LirOp {
    match op {
        MirOp::Constant(n) => LirOp::Constant(n),
        MirOp::Get(id) => LirOp::Get(id),
        MirOp::Filter => LirOp::Filter,
        MirOp::Negate => LirOp::Negate,
        MirOp::Union => LirOp::Union,
        MirOp::Join => LirOp::Join,
    }
}

/// The physical operator sequence a mid-level operator sequence lowers to,
/// before any LIR-to-LIR refinement.
pub open spec fn lower_mir_seq(s: Seq<MirOp>) -> Seq<LirOp>
    decreases s.len(),
{
    if s.len() == 0 {
        Seq::empty()
    } else {
        lower_mir_seq(s.drop_last()) + seq![lower_mir_op(s.last())]
    }
}

/// The LIR-to-LIR refinement that consolidates each union happening
/// immediately after a negate, leaving every other operator unchanged.
pub open spec fn consolidate_seq(s: Seq<LirOp>) -> Seq<LirOp>
    decreases s.len(),
{
    if s.len() == 0 {
        Seq::empty()
    } else if s.len() >= 2 && s.last() is Union && s[s.len() - 2] is Negate {
        consolidate_seq(s.drop_last()) + seq![LirOp::Union, LirOp::Consolidate]
    } else {
        consolidate_seq(s.drop_last()) + seq![s.last()]
    }
}

/// The physical operator sequence the MIR-to-LIR stage produces under the
/// given config.
pub open spec fn lir_ops_of(config: OptimizerConfig, s: Seq<MirOp>) -> Seq<LirOp> {
    if config.enable_consolidate_after_union_negate {
        consolidate_seq(lower_mir_seq(s))
    } else {
        lower_mir_seq(s)
    }
}

/// Whether `p` is exactly the physical plan the MIR-to-LIR stage produces
/// from the mid-level operators `m` under `config`.
pub open spec fn lowers_to_lir(config: OptimizerConfig, m: Seq<MirOp>, p: LirPlan) -> bool {
    &&& p.ops@ == lir_ops_of(config, m)
    &&& p.specialized_arrangements == config.enable_specialized_arrangements
}

/// Lower an optimized mid-level expression to its physical plan, applying
/// the configured LIR-to-LIR refinements. This step is total.
pub fn lower_mir_expr(config: &OptimizerConfig, mir: &MirExpr) -> (r: LirPlan)
    ensures
        lowers_to_lir(*config, mir@, r),
{
    let mut mapped: Vec<LirOp> = Vec::new();
    let mut i: usize = 0;
    while i < mir.ops.len()
        invariant
            i <= mir.ops.len(),
            mapped@ == lower_mir_seq(mir.ops@.take(i as int)),
        decreases mir.ops.len() - i,
    {
        let lir_op = match mir.ops[i] {
            MirOp::Constant(n) => LirOp::Constant(n),
            MirOp::Get(id) => LirOp::Get(id),
            MirOp::Filter => LirOp::Filter,
            MirOp::Negate => LirOp::Negate,
            MirOp::Union => LirOp::Union,
            MirOp::Join => LirOp::Join,
        };
        mapped.push(lir_op);
        i = i + 1;
        proof {
            assert(mir.ops@.take(i as int).drop_last() =~= mir.ops@.take(i as int - 1));
            assert(mapped@ =~= lower_mir_seq(mir.ops@.take(i as int)));
        }
    }
    proof {
        assert(mir.ops@.take(mir.ops@.len() as int) =~= mir.ops@);
    }
    let ops = if config.enable_consolidate_after_union_negate {
        let mut refined: Vec<LirOp> = Vec::new();
        let mut j: usize = 0;
        while j < mapped.len()
            invariant
                j <= mapped.len(),
                refined@ == consolidate_seq(mapped@.take(j as int)),
            decreases mapped.len() - j,
        {
            let is_union_after_negate = j >= 1 && matches!(mapped[j], LirOp::Union) && matches!(
                mapped[j - 1],
                LirOp::Negate,
            );
            if is_union_after_negate {
                refined.push(LirOp::Union);
                refined.push(LirOp::Consolidate);
            } else {
                refined.push(mapped[j]);
            }
            j = j + 1;
            proof {
                assert(mapped@.take(j as int).drop_last() =~= mapped@.take(j as int - 1));
                assert(refined@ =~= consolidate_seq(mapped@.take(j as int)));
            }
        }
        proof {
            assert(mapped@.take(mapped@.len() as int) =~= mapped@);
        }
        refined
    } else {
        mapped
    };
    LirPlan { ops, specialized_arrangements: config.enable_specialized_arrangements }
}

} // verus!
