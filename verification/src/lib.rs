//! Turns declarative contracts over symbolic inputs into concrete assertions.
//!
//! A contract states a precondition and a postcondition over named inputs.
//! Contracts are gathered in pools, which pass through three phases: the
//! types of the inputs are resolved, values are drawn for the inputs, and
//! the parts marked for it are computed by running them. What is left of a
//! contract then is an assertion without free names.

pub mod contract;
pub mod decimal;
pub mod generate;
pub mod krate;
pub mod marshalling;
pub mod names;
pub mod ordering;
pub mod pool;
pub mod prelude;
pub mod subst;
pub mod syntax;
pub mod utils;

pub use crate::contract::{
    Contract, DependencySpec, Input, InputInstance, InputKind, InputName, Precondition, Span,
};
