//! Error types that can be generated during optimization.
//!
//! [`OptimizerError`] unifies the heterogeneous failure sources of the
//! pipeline: catalog/session errors, planning errors and transformation
//! errors are wrapped losslessly, while optimizer-detected invariant
//! violations carry a free-form diagnostic string. A reverse conversion
//! flattens an [`OptimizerError`] back into the caller's top-level
//! [`AdapterError`].

use vstd::prelude::*;

verus! {

/// The caller's top-level error type: failures originating in the
/// adapter/session layer, including catalog lookups.
#[derive(Clone, Debug, PartialEq, Eq)]
pub enum AdapterError {
    /// A failure reported by the catalog or the session layer.
    Catalog(String),
    /// An unstructured internal failure, carrying its diagnostic text.
    Internal(String),
}

impl AdapterError {
    /// The diagnostic text of this error.
    pub open spec fn text(self) -> Seq<char> {
        match self {
            AdapterError::Catalog(s) => s@,
            AdapterError::Internal(s) => "internal error: "@ + s@,
        }
    }

    /// Render the diagnostic text of this error.
    pub fn message(&self) -> (r: String)
        ensures
            r@ == self.text(),
    {
        match self {
            AdapterError::Catalog(s) => s.clone(),
            AdapterError::Internal(s) => {
                let mut m = String::from_str("internal error: ");
                m.append(s.as_str());
                m
            },
        }
    }
}

/// A failure reported by the SQL-to-relational planning layer.
#[derive(Clone, Debug, PartialEq, Eq)]
pub struct PlanError {
    /// The diagnostic text reported by the planner.
    pub detail: String,
}

impl PlanError {
    /// The diagnostic text of this error.
    pub open spec fn text(self) -> Seq<char> {
        self.detail@
    }

    /// Render the diagnostic text of this error.
    pub fn message(&self) -> (r: String)
        ensures
            r@ == self.text(),
    {
        self.detail.clone()
    }
}

/// A failure reported by the transformation/rewrite layer.
#[derive(Clone, Debug, PartialEq, Eq)]
pub enum TransformError {
    /// An internal invariant of the rewrite layer was violated.
    Internal(String),
}

impl TransformError {
    /// The diagnostic text of this error.
    pub open spec fn text(self) -> Seq<char> {
        match self {
            TransformError::Internal(s) => s@,
        }
    }

    /// Render the diagnostic text of this error.
    pub fn message(&self) -> (r: String)
        ensures
            r@ == self.text(),
    {
        match self {
            TransformError::Internal(s) => s.clone(),
        }
    }
}

/// Error types that can be generated during optimization.
///
/// Each wrapping variant preserves the originating error verbatim; the
/// [`OptimizerError::Internal`] variant carries a free-form diagnostic
/// string for optimizer-detected invariant violations.
#[derive(Clone, Debug, PartialEq, Eq)]
pub enum OptimizerError {
    /// A catalog/session error, preserved verbatim.
    AdapterError(AdapterError),
    /// A planning error, preserved verbatim.
    PlanError(PlanError),
    /// A transformation error, preserved verbatim.
    TransformError(TransformError),
    /// An optimizer-detected invariant violation.
    Internal(String),
}

impl OptimizerError {
    /// The diagnostic text of this error: wrapped errors keep their own
    /// text, internal diagnostics are prefixed.
    pub open spec fn text(self) -> Seq<char> {
        match self {
            OptimizerError::AdapterError(e) => e.text(),
            OptimizerError::PlanError(e) => e.text(),
            OptimizerError::TransformError(e) => e.text(),
            OptimizerError::Internal(s) => "internal optimizer error: "@ + s@,
        }
    }

    /// Render the diagnostic text of this error.
    pub fn message(&self) -> (r: String)
        ensures
            r@ == self.text(),
    {
        match self {
            OptimizerError::AdapterError(e) => e.message(),
            OptimizerError::PlanError(e) => e.message(),
            OptimizerError::TransformError(e) => e.message(),
            OptimizerError::Internal(s) => {
                let mut m = String::from_str("internal optimizer error: ");
                m.append(s.as_str());
                m
            },
        }
    }
}

impl From<AdapterError> for OptimizerError {
    fn from(value: AdapterError) -> (r: Self) {
        OptimizerError::AdapterError(value)
    }
}

impl vstd::std_specs::convert::FromSpecImpl<AdapterError> for OptimizerError {
    open spec fn obeys_from_spec() -> bool {
        true
    }

    open spec fn from_spec(value: AdapterError) -> OptimizerError {
        OptimizerError::AdapterError(value)
    }
}

impl From<PlanError> for OptimizerError {
    fn from(value: PlanError) -> (r: Self) {
        OptimizerError::PlanError(value)
    }
}

impl vstd::std_specs::convert::FromSpecImpl<PlanError> for OptimizerError {
    open spec fn obeys_from_spec() -> bool {
        true
    }

    open spec fn from_spec(value: PlanError) -> OptimizerError {
        OptimizerError::PlanError(value)
    }
}

impl From<TransformError> for OptimizerError {
    fn from(value: TransformError) -> (r: Self) {
        OptimizerError::TransformError(value)
    }
}

impl vstd::std_specs::convert::FromSpecImpl<TransformError> for OptimizerError {
    open spec fn obeys_from_spec() -> bool {
        true
    }

    open spec fn from_spec(value: TransformError) -> OptimizerError {
        OptimizerError::TransformError(value)
    }
}

/// How the reverse conversion relates an [`OptimizerError`] to the
/// [`AdapterError`] it flattens into: the catalog/session variant
/// round-trips to its original form; every other variant becomes a generic
/// internal failure carrying the formatted diagnostic text.
pub open spec fn unwraps_to(value: OptimizerError, r: AdapterError) -> bool {
    match value {
        OptimizerError::AdapterError(e) => r == e,
        _ => r matches AdapterError::Internal(s) && s@ == value.text(),
    }
}

impl From<OptimizerError> for AdapterError {
    fn from(value: OptimizerError) -> (r: Self)
        ensures
            unwraps_to(value, r),
    {
        match value {
            OptimizerError::AdapterError(err) => err,
            err => AdapterError::Internal(err.message()),
        }
    }
}

impl vstd::std_specs::convert::FromSpecImpl<OptimizerError> for AdapterError {
    // The flattening direction allocates a freshly formatted string, so the
    // result is pinned relationally (see `unwraps_to`), not as a pure value
    // function of the input.
    open spec fn obeys_from_spec() -> bool {
        false
    }

    open spec fn from_spec(value: OptimizerError) -> AdapterError {
        arbitrary()
    }
}

/// Law: wrapping a catalog/session error into [`OptimizerError`] and
/// converting it back yields the original error, and in particular a value
/// whose diagnostic text equals the original's.
pub proof fn lemma_adapter_error_round_trip(e: AdapterError, r: AdapterError)
    requires
        unwraps_to(OptimizerError::AdapterError(e), r),
    ensures
        r == e,
        r.text() == e.text(),
{
}

} // verus!
