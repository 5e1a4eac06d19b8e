//! The generic single-step transformation contract that all pipeline
//! stages implement.
//!
//! Implementors are structs that encapsulate all context required to
//! optimize a statement of one kind end-to-end. Each struct implements
//! [`Optimize`] once for each optimization stage: the `Input` parameter is
//! the input of the stage and `Self::To` the associated stage output,
//! which allows a pipeline to have more than one entry point. The `Send`
//! bounds ensure that a pipeline instance together with its exchanged
//! values can be handed to a dedicated optimization worker.

use vstd::prelude::*;

use crate::error::OptimizerError;

verus! {

/// A trait that represents an optimization stage.
///
/// Each implementation is a concrete optimization stage for a fixed
/// statement kind that consumes an input of type `Input` and produces
/// output of type `Self::To`.
pub trait Optimize<Input>: Send + Sized where Input: Send {
    /// The output of this stage.
    type To: Send;

    /// Whether this stage succeeds on `plan`.
    spec fn stage_ok(&self, plan: Input) -> bool;

    /// The exact characterization of this stage's outcome on `plan`:
    /// deterministic given (config, input), with no hidden randomness at
    /// this layer.
    spec fn stage_post(&self, plan: Input, r: Result<Self::To, OptimizerError>) -> bool;

    /// Execute the optimization stage, transforming the input plan of
    /// type `Input` to an output plan of type `Self::To`.
    fn optimize(&mut self, plan: Input) -> (r: Result<Self::To, OptimizerError>)
        ensures
            *final(self) == *old(self),
            r is Ok <==> old(self).stage_ok(plan),
            old(self).stage_post(plan, r),
    ;

    /// Execute the optimization stage on an input the caller has already
    /// proven the stage succeeds on.
    ///
    /// See [`Optimize::optimize`]. A failure here would be an
    /// unrecoverable contract violation, so this entry point is reserved
    /// for call sites where success is guaranteed (for example re-running
    /// a stage on data that was validated upstream) and is never used as
    /// ordinary control flow.
    fn must_optimize(&mut self, expr: Input) -> (r: Self::To)
        requires
            old(self).stage_ok(expr),
        ensures
            *final(self) == *old(self),
            old(self).stage_post(expr, Ok(r)),
    {
        match self.optimize(expr) {
            Ok(ok) => ok,
            Err(_) => vstd::pervasive::unreached(),
        }
    }
}

} // verus!
