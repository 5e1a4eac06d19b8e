//! A staged query-optimization pipeline framework.
//!
//! A relational statement is compiled through an ordered sequence of
//! transformation stages, each consuming one typed intermediate
//! representation and producing the next, until a dataflow description is
//! ready for execution or explanation. The crate provides:
//!
//! - typed containers for each intermediate representation level and a
//!   generic dataflow-description wrapper ([`ir`]);
//! - an immutable optimizer configuration snapshot built from system
//!   configuration, optionally overlaid with explain-time overrides
//!   ([`config`]);
//! - a unified error taxonomy folding catalog/session, planning and
//!   transformation failures ([`error`]);
//! - the generic single-step stage contract that all pipeline stages
//!   implement ([`stage`]);
//! - per-statement-kind pipeline assemblers with opaque stage results
//!   ([`view`], [`index`], [`materialized_view`], [`subscribe`], [`peek`]);
//! - a re-optimization hook that refreshes cached dependency plans when a
//!   dataflow graph is assembled for explanation ([`dataflows`]).

pub mod cloud;
pub mod config;
pub mod dataflows;
pub mod error;
pub mod index;
pub mod ir;
pub mod lower;
pub mod materialized_view;
pub mod peek;
pub mod prof;
pub mod stage;
pub mod subscribe;
pub mod text;
pub mod view;
