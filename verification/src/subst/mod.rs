//! Scope-aware rewriting of names inside expressions and types.

pub mod laws;
pub mod literal;
pub mod partial;
pub mod scope;
pub mod syn_utils;
pub mod visitors;

use crate::names::NameSet;
use crate::subst::scope::{expr_subst, expr_supported, type_subst, where_subst, PolicyV};
use crate::subst::visitors::{
    is_supported, rewrite_expr, rewrite_type, rewrite_where, ReplaceExpr, ReplaceType,
};
use crate::syntax::{Expr, Type, WhereClause};
use vstd::prelude::*;

verus! {

/// The walk met syntax that it does not accept: a nested item, a `let` that
/// is not the condition of an `if`, or an `if let` without an `else` branch.
#[derive(Debug, PartialEq, Eq)]
pub struct UnsupportedSyntax;

/// Replacements that can be put into a subject of some kind.
pub trait Subst<Subject>: Clone + Sized {
    /// Whether the walk accepts the subject.
    spec fn accepts(subject: Subject) -> bool;

    /// Whether `after` is `before` with `replacement` in place of the free
    /// occurrences of `binding`.
    spec fn applied(before: Subject, binding: Seq<char>, replacement: Self, after: Subject) -> bool;

    /// Whether the walk accepts the subject.
    fn supports(subject: &Subject) -> (r: bool)
        ensures
            r == Self::accepts(*subject),
    ;

    /// Puts `replacement` in place of every free occurrence of `binding` in
    /// `subject`, and of none that a binder inside `subject` shadows. The
    /// subject is one that the walk accepts.
    fn subst(subject: &mut Subject, binding: &str, replacement: Self)
        requires
            Self::accepts(*old(subject)),
        ensures
            Self::applied(*old(subject), binding@, replacement, *final(subject)),
    ;
}

impl Subst<Expr> for Expr {
    open spec fn accepts(subject: Expr) -> bool {
        expr_supported(subject@)
    }

    open spec fn applied(before: Expr, binding: Seq<char>, replacement: Expr, after: Expr) -> bool {
        after@ == expr_subst(
            before@,
            Set::empty(),
            PolicyV::Expr { name: binding, expr: replacement@ },
        )
    }

    fn supports(subject: &Expr) -> (r: bool) {
        is_supported(subject)
    }

    fn subst(subject: &mut Expr, binding: &str, replacement: Self) {
        let policy = ReplaceExpr { name: binding.to_owned(), value: replacement };
        let bound = NameSet::new();
        let rewritten = rewrite_expr(&policy, &bound, subject);
        *subject = rewritten;
    }
}

impl Subst<Type> for Expr {
    open spec fn accepts(subject: Type) -> bool {
        true
    }

    open spec fn applied(before: Type, binding: Seq<char>, replacement: Expr, after: Type) -> bool {
        after@ == type_subst(
            before@,
            Set::empty(),
            PolicyV::Expr { name: binding, expr: replacement@ },
        )
    }

    fn supports(subject: &Type) -> (r: bool) {
        true
    }

    fn subst(subject: &mut Type, binding: &str, replacement: Self) {
        let policy = ReplaceExpr { name: binding.to_owned(), value: replacement };
        let bound = NameSet::new();
        let rewritten = rewrite_type(&policy, &bound, subject);
        *subject = rewritten;
    }
}

impl Subst<WhereClause> for Expr {
    open spec fn accepts(subject: WhereClause) -> bool {
        true
    }

    open spec fn applied(
        before: WhereClause,
        binding: Seq<char>,
        replacement: Expr,
        after: WhereClause,
    ) -> bool {
        after@ == where_subst(
            before@,
            Set::empty(),
            PolicyV::Expr { name: binding, expr: replacement@ },
        )
    }

    fn supports(subject: &WhereClause) -> (r: bool) {
        true
    }

    fn subst(subject: &mut WhereClause, binding: &str, replacement: Self) {
        let policy = ReplaceExpr { name: binding.to_owned(), value: replacement };
        let bound = NameSet::new();
        let rewritten = rewrite_where(&policy, &bound, subject);
        *subject = rewritten;
    }
}

impl Subst<Expr> for Type {
    open spec fn accepts(subject: Expr) -> bool {
        expr_supported(subject@)
    }

    open spec fn applied(before: Expr, binding: Seq<char>, replacement: Type, after: Expr) -> bool {
        after@ == expr_subst(
            before@,
            Set::empty(),
            PolicyV::Type { name: binding, ty: replacement@ },
        )
    }

    fn supports(subject: &Expr) -> (r: bool) {
        is_supported(subject)
    }

    fn subst(subject: &mut Expr, binding: &str, replacement: Self) {
        let policy = ReplaceType { name: binding.to_owned(), value: replacement };
        let bound = NameSet::new();
        let rewritten = rewrite_expr(&policy, &bound, subject);
        *subject = rewritten;
    }
}

impl Subst<Type> for Type {
    open spec fn accepts(subject: Type) -> bool {
        true
    }

    open spec fn applied(before: Type, binding: Seq<char>, replacement: Type, after: Type) -> bool {
        after@ == type_subst(
            before@,
            Set::empty(),
            PolicyV::Type { name: binding, ty: replacement@ },
        )
    }

    fn supports(subject: &Type) -> (r: bool) {
        true
    }

    fn subst(subject: &mut Type, binding: &str, replacement: Self) {
        let policy = ReplaceType { name: binding.to_owned(), value: replacement };
        let bound = NameSet::new();
        let rewritten = rewrite_type(&policy, &bound, subject);
        *subject = rewritten;
    }
}

impl Subst<WhereClause> for Type {
    open spec fn accepts(subject: WhereClause) -> bool {
        true
    }

    open spec fn applied(
        before: WhereClause,
        binding: Seq<char>,
        replacement: Type,
        after: WhereClause,
    ) -> bool {
        after@ == where_subst(
            before@,
            Set::empty(),
            PolicyV::Type { name: binding, ty: replacement@ },
        )
    }

    fn supports(subject: &WhereClause) -> (r: bool) {
        true
    }

    fn subst(subject: &mut WhereClause, binding: &str, replacement: Self) {
        let policy = ReplaceType { name: binding.to_owned(), value: replacement };
        let bound = NameSet::new();
        let rewritten = rewrite_where(&policy, &bound, subject);
        *subject = rewritten;
    }
}

/// Subjects into which a replacement of some kind can be put.
pub trait SubstHelper<Replacement: Subst<Self>>: Sized {
    /// Puts `replacement` in place of every free occurrence of `binding`. The
    /// subject is one that the walk accepts.
    fn subst(&mut self, binding: &str, replacement: Replacement)
        requires
            Replacement::accepts(*old(self)),
        ensures
            Replacement::applied(*old(self), binding@, replacement, *final(self)),
    ;

    /// Puts `replacement` in place of every free occurrence of `binding`,
    /// where the walk accepts the subject. Fails, and leaves the subject as
    /// it is, where the walk does not accept it.
    fn try_subst(&mut self, binding: &str, replacement: Replacement) -> (r: Result<
        (),
        UnsupportedSyntax,
    >)
        ensures
            match r {
                Ok(_) => Replacement::accepts(*old(self)) && Replacement::applied(
                    *old(self),
                    binding@,
                    replacement,
                    *final(self),
                ),
                Err(_) => !Replacement::accepts(*old(self)) && *final(self) == *old(self),
            },
    ;
}

impl<Subject, Replacement: Subst<Subject>> SubstHelper<Replacement> for Subject {
    fn subst(&mut self, binding: &str, replacement: Replacement) {
        Replacement::subst(self, binding, replacement)
    }

    fn try_subst(&mut self, binding: &str, replacement: Replacement) -> (r: Result<
        (),
        UnsupportedSyntax,
    >) {
        if Replacement::supports(self) {
            Replacement::subst(self, binding, replacement);
            Ok(())
        } else {
            Err(UnsupportedSyntax)
        }
    }
}

/// Replacements that can be put into expressions, types and `where` clauses.
pub trait ETSubst: Subst<Type> + Subst<Expr> + Subst<WhereClause> {

}

impl ETSubst for Expr {

}

impl ETSubst for Type {

}

} // verus!
