//! Typed containers for the intermediate representation levels of the
//! pipeline: the raw relational expression produced by planning, the
//! optimized mid-level representation, the physical plan, and a generic
//! dataflow-description wrapper parameterized by the plan type it carries.

use vstd::prelude::*;

verus! {

/// Identifies a catalog entity or a transient/explain pseudo-entity.
///
/// Real persisted objects are eligible for re-optimization; synthetic ids
/// have no stable raw definition to re-derive from and are skipped.
#[derive(Clone, Copy, Debug, PartialEq, Eq, Structural)]
pub enum GlobalId {
    /// The id of a built-in system object.
    System(u64),
    /// The id of a user-created, durably cataloged object.
    User(u64),
    /// The id of a scratch object that lives only inside one dataflow.
    Transient(u64),
    /// The pseudo-id given to the target of an explain request.
    Explain,
}

impl GlobalId {
    /// Whether this id denotes a transient/explain pseudo-entity rather
    /// than a real persisted object.
    pub open spec fn is_synthetic(self) -> bool {
        self is Transient || self is Explain
    }

    /// Whether this id denotes a transient/explain pseudo-entity.
    pub fn synthetic(&self) -> (r: bool)
        ensures
            r == self.is_synthetic(),
    {
        matches!(self, GlobalId::Transient(_) | GlobalId::Explain)
    }
}

/// One operator of the raw relational expression, as handed over by the
/// SQL-to-relational planning layer.
#[derive(Clone, Copy, Debug, PartialEq, Eq, Structural)]
pub enum RawOp {
    /// A constant collection of the given number of rows.
    Constant(u64),
    /// A reference to another cataloged collection.
    Get(GlobalId),
    /// A filter over the input collection.
    Filter,
    /// A negation of the multiplicities of the input collection.
    Negate,
    /// A union of input collections.
    Union,
    /// An outer join, still awaiting lowering to inner plan operators.
    OuterJoin,
}

/// One operator of the optimized mid-level representation.
#[derive(Clone, Copy, Debug, PartialEq, Eq, Structural)]
pub enum MirOp {
    /// A constant collection of the given number of rows.
    Constant(u64),
    /// A reference to another cataloged collection.
    Get(GlobalId),
    /// A filter over the input collection.
    Filter,
    /// A negation of the multiplicities of the input collection.
    Negate,
    /// A union of input collections.
    Union,
    /// An inner join, the result of lowering an outer join.
    Join,
}

/// One operator of the physical plan.
#[derive(Clone, Copy, Debug, PartialEq, Eq, Structural)]
pub enum LirOp {
    /// A constant collection of the given number of rows.
    Constant(u64),
    /// A reference to another cataloged collection.
    Get(GlobalId),
    /// A filter over the input collection.
    Filter,
    /// A negation of the multiplicities of the input collection.
    Negate,
    /// A union of input collections.
    Union,
    /// An inner join.
    Join,
    /// A consolidation of the multiplicities of the input collection.
    Consolidate,
}

/// The raw relational expression of a statement, in evaluation order.
#[derive(Debug)]
pub struct RawExpr {
    /// The operators of the expression.
    pub ops: Vec<RawOp>,
}

impl View for RawExpr {
    type V = Seq<RawOp>;

    open spec fn view(&self) -> Seq<RawOp> {
        self.ops@
    }
}

impl Clone for RawExpr {
    fn clone(&self) -> (r: Self)
        ensures
            r@ == self@,
    {
        let mut ops: Vec<RawOp> = Vec::new();
        let mut i: usize = 0;
        while i < self.ops.len()
            invariant
                i <= self.ops.len(),
                ops@ == self.ops@.take(i as int),
            decreases self.ops.len() - i,
        {
            ops.push(self.ops[i]);
            i = i + 1;
            proof {
                assert(ops@ =~= self.ops@.take(i as int));
            }
        }
        proof {
            assert(ops@ =~= self.ops@);
        }
        RawExpr { ops }
    }
}

/// An optimized mid-level expression: the output of the raw-to-MIR
/// lowering stage.
#[derive(Clone, Debug)]
pub struct MirExpr {
    /// The operators of the expression.
    pub ops: Vec<MirOp>,
}

impl View for MirExpr {
    type V = Seq<MirOp>;

    open spec fn view(&self) -> Seq<MirOp> {
        self.ops@
    }
}

/// A physical plan: the output of the MIR-to-LIR lowering stage.
#[derive(Clone, Debug)]
pub struct LirPlan {
    /// The operators of the plan.
    pub ops: Vec<LirOp>,
    /// Whether type information was collected during lowering so that
    /// rendering can type-specialize arrangements.
    pub specialized_arrangements: bool,
}

/// One object a dataflow has to materialize: its id and its plan at the
/// dataflow's IR level.
#[derive(Clone, Debug)]
pub struct BuildDesc<P> {
    /// The id of the object.
    pub id: GlobalId,
    /// The plan of the object at this dataflow's IR level.
    pub plan: P,
}

/// A description of a dataflow, generic over the IR level of the plans it
/// carries.
///
/// Objects are declared dependents-first: every object precedes the
/// objects it depends on, so walking the declarations in reverse visits
/// each dependency before its dependents. The object-id set is
/// structurally stable across IR-level transitions except for
/// synthetic/transient ids introduced for explain targets or scratch
/// objects.
#[derive(Clone, Debug)]
pub struct DataflowDescription<P> {
    /// The objects this dataflow has to materialize.
    pub objects_to_build: Vec<BuildDesc<P>>,
}

/// A [`DataflowDescription`] backed by mid-level plans.
pub type MirDataflowDescription = DataflowDescription<MirExpr>;

/// A [`DataflowDescription`] backed by physical plans.
pub type LirDataflowDescription = DataflowDescription<LirPlan>;

} // verus!
