//! Small questions put to single nodes of the syntax.

use crate::subst::literal::index_of_literal;
use crate::names::same_text;
use crate::subst::scope::{expr_ident, input_reference, path_ident, type_ident};
use crate::syntax::{
    copy_expr, copy_exprs, exprs_view, Expr, Pat, PatV, Path, Type, WhereClause, WherePredicate,
    WherePredicateV,
};
use vstd::prelude::*;

verus! {

/// The name a path stands for when it has exactly one segment.
pub fn path_name(p: &Path) -> (r: Option<&String>)
    ensures
        match r {
            Some(s) => path_ident(p@) == Some(s@),
            None => path_ident(p@).is_none(),
        },
{
    if p.segments.len() == 1 {
        Some(&p.segments[0].ident)
    } else {
        None
    }
}

/// The name a pattern stands for when it is a plain binding: no `ref`, no
/// `mut`, no sub-pattern.
pub open spec fn pat_ident(p: PatV) -> Option<Seq<char>> {
    match p {
        PatV::Ident { name, by_ref, mutable, subpat } => if !by_ref && !mutable
            && subpat.is_none() {
            Some(name)
        } else {
            None
        },
        _ => None,
    }
}

/// Nodes that may stand for a single name.
pub trait ExpectIdent {
    /// The name the node stands for, if it stands for one.
    spec fn ident(&self) -> Option<Seq<char>>;

    /// The name the node stands for, if it stands for one.
    fn expect_ident(&self) -> (r: Option<String>)
        ensures
            match r {
                Some(s) => self.ident() == Some(s@),
                None => self.ident().is_none(),
            },
    ;

    /// Whether the node stands for the name `name`.
    fn is_ident(&self, name: &str) -> (r: bool)
        ensures
            r == (self.ident() == Some(name@)),
    ;
}

impl ExpectIdent for Path {
    open spec fn ident(&self) -> Option<Seq<char>> {
        path_ident(self@)
    }

    fn expect_ident(&self) -> (r: Option<String>) {
        match path_name(self) {
            Some(s) => Some(s.clone()),
            None => None,
        }
    }

    fn is_ident(&self, name: &str) -> (r: bool) {
        match path_name(self) {
            Some(s) => {
                let wanted = name.to_owned();
                same_text(s, &wanted)
            },
            None => false,
        }
    }
}

impl ExpectIdent for Expr {
    open spec fn ident(&self) -> Option<Seq<char>> {
        expr_ident(self@)
    }

    fn expect_ident(&self) -> (r: Option<String>) {
        match self {
            Expr::Path(p) => p.expect_ident(),
            _ => None,
        }
    }

    fn is_ident(&self, name: &str) -> (r: bool) {
        match self {
            Expr::Path(p) => p.is_ident(name),
            _ => false,
        }
    }
}

impl ExpectIdent for Type {
    open spec fn ident(&self) -> Option<Seq<char>> {
        type_ident(self@)
    }

    fn expect_ident(&self) -> (r: Option<String>) {
        match self {
            Type::Path(p) => p.expect_ident(),
            _ => None,
        }
    }

    fn is_ident(&self, name: &str) -> (r: bool) {
        match self {
            Type::Path(p) => p.is_ident(name),
            _ => false,
        }
    }
}

impl ExpectIdent for Pat {
    open spec fn ident(&self) -> Option<Seq<char>> {
        pat_ident(self@)
    }

    fn expect_ident(&self) -> (r: Option<String>) {
        match self {
            Pat::Ident { name, by_ref, mutable, subpat } => {
                if !*by_ref && !*mutable && subpat.is_none() {
                    Some(name.clone())
                } else {
                    None
                }
            },
            _ => None,
        }
    }

    fn is_ident(&self, name: &str) -> (r: bool) {
        match self {
            Pat::Ident { name: own, by_ref, mutable, subpat } => {
                if !*by_ref && !*mutable && subpat.is_none() {
                    let wanted = name.to_owned();
                    same_text(own, &wanted)
                } else {
                    false
                }
            },
            _ => false,
        }
    }
}

/// A call with exactly `N` arguments.
#[derive(Debug)]
pub struct NAryCall<const N: usize> {
    pub func: Box<Expr>,
    pub args: Vec<Expr>,
}

impl<const N: usize> NAryCall<N> {
    /// Whether the parts are those of some call with `N` arguments.
    pub open spec fn well_formed(&self) -> bool {
        self.args@.len() == N
    }

    /// The call that `expr` is, if it is a call with exactly `N` arguments.
    pub fn try_from(expr: &Expr) -> (r: Option<Self>)
        ensures
            match r {
                Some(call) => call.well_formed() && expr@ is Call && *expr@->Call_func
                    == call.func@ && expr@->Call_args == exprs_view(call.args@),
                None => !(expr@ is Call && expr@->Call_args.len() == N),
            },
    {
        match expr {
            Expr::Call { func, args } => {
                if args.len() == N {
                    let call: NAryCall<N> = NAryCall {
                        func: Box::new(copy_expr(func)),
                        args: copy_exprs(args),
                    };
                    assert(exprs_view(call.args@).len() == call.args@.len());
                    assert(exprs_view(args@).len() == args@.len());
                    assert(expr@->Call_args == exprs_view(args@));
                    assert(*expr@->Call_func == func@);
                    Some(call)
                } else {
                    assert(exprs_view(args@).len() == args@.len());
                    None
                }
            },
            _ => None,
        }
    }
}

/// The instance that `expr` asks for when it refers to the input
/// `input_name` by position: `x()` asks for instance 0, `x(k)` for instance
/// `k`.
pub fn expect_input_reference(input_name: &String, expr: &Expr) -> (r: Option<u32>)
    ensures
        match r {
            Some(k) => input_reference(expr@, input_name@) == Some(k as nat),
            None => input_reference(expr@, input_name@).is_none(),
        },
{
    match expr {
        Expr::Call { func, args } => {
            let callee = match &**func {
                Expr::Path(p) => match path_name(p) {
                    Some(s) => same_text(s, input_name),
                    None => false,
                },
                _ => false,
            };
            assert(expr@->Call_args == exprs_view(args@));
            assert(*expr@->Call_func == func@);
            assert(callee == (expr_ident(func@) == Some(input_name@)));
            if !callee {
                None
            } else if args.len() == 0 {
                Some(0)
            } else if args.len() == 1 {
                assert(expr@->Call_args[0] == args@[0]@);
                match &args[0] {
                    Expr::Lit(text) => index_of_literal(text.as_str()),
                    _ => None,
                }
            } else {
                None
            }
        },
        _ => None,
    }
}

/// The predicates of the clauses `clauses`, those of an earlier clause first.
pub open spec fn merged_predicates(clauses: Seq<WhereClause>, n: int) -> Seq<WherePredicateV>
    decreases n,
{
    if n <= 0 {
        Seq::empty()
    } else {
        merged_predicates(clauses, n - 1) + clauses[n - 1]@.predicates
    }
}

impl WhereClause {
    /// The clause that holds the predicates of `clauses`, those of an earlier
    /// clause first.
    pub fn merge_many(clauses: &[WhereClause]) -> (r: WhereClause)
        ensures
            r@.predicates == merged_predicates(clauses@, clauses@.len() as int),
    {
        let mut merged = WhereClause { predicates: Vec::new() };
        let mut i: usize = 0;
        while i < clauses.len()
            invariant
                i <= clauses.len(),
                merged@.predicates == merged_predicates(clauses@, i as int),
            decreases clauses.len() - i,
        {
            merged = merged.merge_one(&clauses[i]);
            i += 1;
        }
        merged
    }

    /// The clause that holds the predicates of the clause, and after them
    /// those of `other`.
    pub fn merge_one(&self, other: &WhereClause) -> (r: WhereClause)
        ensures
            r@.predicates == self@.predicates + other@.predicates,
    {
        let mut predicates: Vec<WherePredicate> = Vec::new();
        let mut i: usize = 0;
        while i < self.predicates.len()
            invariant
                i <= self.predicates.len(),
                predicates@.len() == i,
                forall|j: int| 0 <= j < i ==> predicates@[j]@ == self.predicates@[j]@,
            decreases self.predicates.len() - i,
        {
            predicates.push(self.predicates[i].clone());
            i += 1;
        }
        let mut k: usize = 0;
        while k < other.predicates.len()
            invariant
                k <= other.predicates.len(),
                predicates@.len() == self.predicates.len() + k,
                forall|j: int|
                    0 <= j < self.predicates.len() ==> predicates@[j]@ == self.predicates@[j]@,
                forall|j: int|
                    0 <= j < k ==> predicates@[self.predicates.len() + j]@ == other.predicates@[j]@,
            decreases other.predicates.len() - k,
        {
            predicates.push(other.predicates[k].clone());
            k += 1;
        }
        let r = WhereClause { predicates };
        assert(r@.predicates =~= self@.predicates + other@.predicates);
        r
    }
}

} // verus!
