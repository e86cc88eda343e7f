//! What most users of the library need, in one import.

pub use crate::contract::{
    default_expr, ComplexInputValue, Contract, ContractError, Dependencies, DependencySpec, Input,
    InputInstance, InputKind, Precondition, Span,
};
pub use crate::names::NameSet;
pub use crate::subst::partial::{Binding, ClosedTerm, EvalNode, PartialCompute};
pub use crate::subst::syn_utils::{ExpectIdent, NAryCall};
pub use crate::subst::visitors::{
    KeepAll, ReplaceExpr, ReplaceNames, ReplaceType, Substituer, SubstituerControl,
};
pub use crate::subst::{ETSubst, Subst, SubstHelper, UnsupportedSyntax};
pub use crate::syntax::{
    Arm, Expr, GenericParam, Pat, Path, Segment, Stmt, Type, WhereClause, WherePredicate,
};
pub use crate::utils::dependencies_to_string;
