//! The walks over the syntax: collecting binders and free names, and
//! rewriting under a policy.

use crate::names::{same_text, NameSet};
use crate::subst::syn_utils::{expect_input_reference, path_name};
use crate::subst::scope::{
    arm_refers, arm_subst, arm_supported, arms_subst, expr_supported, exprs_supported,
    stmt_supported, stmts_supported, expr_refers, expr_subst, expr_verdict, exprs_subst,
    pat_binders, pat_binds, pat_refers, pat_subst, path_refers, path_subst, pats_binders,
    segments_subst, pats_subst, scope_before, segment_refers, segment_subst,
    lemma_scope_before_next, stmt_refers, stmt_subst, stmts_refer, stmts_subst, type_refers,
    type_subst, type_verdict, types_subst, PolicyV, param_subst, params_names, predicate_subst,
    predicates_names, where_subst, table_lookup,
};
use crate::syntax::{
    arms_view, exprs_view, pats_view, stmts_view, types_view, Arm, Expr, ExprV, Pat, Path, Segment,
    Stmt, Type, GenericParam, WhereClause, WherePredicate,
};
use vstd::prelude::*;

verus! {

/// Adds to `into` the names that pattern `p` binds.
pub fn add_pat_binders(p: &Pat, into: &mut NameSet)
    ensures
        final(into)@ == old(into)@.union(pat_binders(p@)),
    decreases p,
{
    match p {
        Pat::Wild => {
            assert(into@ =~= old(into)@.union(pat_binders(p@)));
        },
        Pat::Ident { name, by_ref, mutable, subpat } => {
            into.insert(name.clone());
            match subpat {
                Some(q) => {
                    add_pat_binders(q, into);
                },
                None => {},
            }
            assert(into@ =~= old(into)@.union(pat_binders(p@)));
        },
        Pat::Lit(_) => {
            assert(into@ =~= old(into)@.union(pat_binders(p@)));
        },
        Pat::Typed { pat, ty } => {
            add_pat_binders(pat, into);
            assert(into@ =~= old(into)@.union(pat_binders(p@)));
        },
        Pat::Compound { label, path, elems } => {
            add_pats_binders(elems, into);
            assert(into@ =~= old(into)@.union(pat_binders(p@))) by {
                assert forall|n: Seq<char>| pats_binders(pats_view(elems@)).contains(n) == pat_binds(
                    p@,
                    n,
                ) by {
                    let es = pats_view(elems@);
                    if pats_binders(es).contains(n) {
                        let i = choose|i: int| 0 <= i < es.len() && pat_binds(#[trigger] es[i], n);
                        assert(pat_binds(p@->Compound_elems[i], n));
                    }
                }
            }
        },
    }
}

/// Adds to `into` the names that the patterns `ps` bind.
pub fn add_pats_binders(ps: &Vec<Pat>, into: &mut NameSet)
    ensures
        final(into)@ == old(into)@.union(pats_binders(pats_view(ps@))),
    decreases ps,
{
    let mut i: usize = 0;
    while i < ps.len()
        invariant
            i <= ps.len(),
            into@ == old(into)@.union(pats_binders(pats_view(ps@).take(i as int))),
        decreases ps.len() - i,
    {
        add_pat_binders(&ps[i], into);
        proof {
            let all = pats_view(ps@);
            let before = all.take(i as int);
            let after = all.take(i + 1);
            assert(after[i as int] == ps@[i as int]@);
            assert forall|n: Seq<char>|
                pats_binders(after).contains(n) == (pats_binders(before).contains(n) || pat_binds(
                    ps@[i as int]@,
                    n,
                )) by {
                if pats_binders(after).contains(n) {
                    let j = choose|j: int| 0 <= j < after.len() && pat_binds(#[trigger] after[j], n);
                    if j < i {
                        assert(pat_binds(before[j], n));
                    }
                }
                if pats_binders(before).contains(n) {
                    let j = choose|j: int|
                        0 <= j < before.len() && pat_binds(#[trigger] before[j], n);
                    assert(pat_binds(after[j], n));
                }
            }
            assert(into@ =~= old(into)@.union(pats_binders(after)));
        }
        i += 1;
    }
    proof {
        assert(pats_view(ps@).take(ps@.len() as int) =~= pats_view(ps@));
    }
}

/// The names that pattern `p` binds.
pub fn bound_vars_of_pat(p: &Pat) -> (r: NameSet)
    ensures
        r@ == pat_binders(p@),
{
    let mut r = NameSet::new();
    add_pat_binders(p, &mut r);
    assert(r@ =~= pat_binders(p@));
    r
}

/// Adds to `free` the names that type `t`, met in scope `bound`, refers to.
pub fn collect_type(t: &Type, bound: &NameSet, free: &mut NameSet)
    ensures
        final(free)@ == old(free)@.union(Set::new(|n: Seq<char>| type_refers(t@, bound@, n))),
    decreases t,
{
    match t {
        Type::Path(p) => {
            match path_name(p) {
                Some(name) => {
                    if !bound.contains(name) {
                        free.insert(name.clone());
                    }
                },
                None => {},
            }
            collect_path(p, bound, free);
            assert(free@ =~= old(free)@.union(Set::new(|n: Seq<char>| type_refers(t@, bound@, n))));
        },
        Type::Compound { label, args } => {
            collect_types(args, bound, free);
            assert(t@->Compound_args == types_view(args@));
            assert(free@ =~= old(free)@.union(Set::new(|n: Seq<char>| type_refers(t@, bound@, n))));
        },
        Type::Opaque(_) => {
            assert(free@ =~= old(free)@.union(Set::new(|n: Seq<char>| type_refers(t@, bound@, n))));
        },
    }
}

/// Adds to `free` the names that the types `ts` refer to.
pub fn collect_types(ts: &Vec<Type>, bound: &NameSet, free: &mut NameSet)
    ensures
        final(free)@ == old(free)@.union(
            Set::new(
                |n: Seq<char>|
                    exists|j: int|
                        0 <= j < ts@.len() && type_refers(#[trigger] types_view(ts@)[j], bound@, n),
            ),
        ),
    decreases ts,
{
    let mut i: usize = 0;
    while i < ts.len()
        invariant
            i <= ts.len(),
            free@ == old(free)@.union(
                Set::new(
                    |n: Seq<char>|
                        exists|j: int|
                            0 <= j < i && type_refers(#[trigger] types_view(ts@)[j], bound@, n),
                ),
            ),
        decreases ts.len() - i,
    {
        let ghost before = free@;
        collect_type(&ts[i], bound, free);
        proof {
            assert(types_view(ts@)[i as int] == ts@[i as int]@);
            assert(free@ =~= old(free)@.union(
                Set::new(
                    |n: Seq<char>|
                        exists|j: int|
                            0 <= j < i + 1 && type_refers(#[trigger] types_view(ts@)[j], bound@, n),
                ),
            ));
        }
        i += 1;
    }
}

/// Adds to `free` the names that the generic arguments of path `p` refer to.
pub fn collect_path(p: &Path, bound: &NameSet, free: &mut NameSet)
    ensures
        final(free)@ == old(free)@.union(Set::new(|n: Seq<char>| path_refers(p@, bound@, n))),
    decreases p,
{
    let mut i: usize = 0;
    while i < p.segments.len()
        invariant
            i <= p.segments.len(),
            free@ == old(free)@.union(
                Set::new(
                    |n: Seq<char>|
                        exists|j: int|
                            0 <= j < i && segment_refers(#[trigger] p@.segments[j], bound@, n),
                ),
            ),
        decreases p.segments.len() - i,
    {
        collect_types(&p.segments[i].args, bound, free);
        proof {
            assert(p@.segments[i as int] == p.segments@[i as int]@);
            assert(p@.segments[i as int].args == types_view(p.segments@[i as int].args@));
            assert(free@ =~= old(free)@.union(
                Set::new(
                    |n: Seq<char>|
                        exists|j: int|
                            0 <= j < i + 1 && segment_refers(#[trigger] p@.segments[j], bound@, n),
                ),
            ));
        }
        i += 1;
    }
    assert(free@ =~= old(free)@.union(Set::new(|n: Seq<char>| path_refers(p@, bound@, n))));
}

/// Adds to `free` the names that the annotations and constructor paths of
/// pattern `p` refer to.
pub fn collect_pat(p: &Pat, bound: &NameSet, free: &mut NameSet)
    ensures
        final(free)@ == old(free)@.union(Set::new(|n: Seq<char>| pat_refers(p@, bound@, n))),
    decreases p,
{
    match p {
        Pat::Wild => {
            assert(free@ =~= old(free)@.union(Set::new(|n: Seq<char>| pat_refers(p@, bound@, n))));
        },
        Pat::Ident { name, by_ref, mutable, subpat } => {
            match subpat {
                Some(q) => {
                    collect_pat(q, bound, free);
                },
                None => {},
            }
            assert(free@ =~= old(free)@.union(Set::new(|n: Seq<char>| pat_refers(p@, bound@, n))));
        },
        Pat::Lit(_) => {
            assert(free@ =~= old(free)@.union(Set::new(|n: Seq<char>| pat_refers(p@, bound@, n))));
        },
        Pat::Typed { pat, ty } => {
            collect_pat(pat, bound, free);
            collect_type(ty, bound, free);
            assert(free@ =~= old(free)@.union(Set::new(|n: Seq<char>| pat_refers(p@, bound@, n))));
        },
        Pat::Compound { label, path, elems } => {
            match path {
                Some(q) => {
                    match path_name(q) {
                        Some(name) => {
                            if !bound.contains(name) {
                                free.insert(name.clone());
                            }
                        },
                        None => {},
                    }
                    collect_path(q, bound, free);
                },
                None => {},
            }
            collect_pats(elems, bound, free);
            assert(p@->Compound_elems == pats_view(elems@));
            assert(free@ =~= old(free)@.union(Set::new(|n: Seq<char>| pat_refers(p@, bound@, n))));
        },
    }
}

/// Adds to `free` the names that the patterns `ps` refer to.
pub fn collect_pats(ps: &Vec<Pat>, bound: &NameSet, free: &mut NameSet)
    ensures
        final(free)@ == old(free)@.union(
            Set::new(
                |n: Seq<char>|
                    exists|j: int|
                        0 <= j < ps@.len() && pat_refers(#[trigger] pats_view(ps@)[j], bound@, n),
            ),
        ),
    decreases ps,
{
    let mut i: usize = 0;
    while i < ps.len()
        invariant
            i <= ps.len(),
            free@ == old(free)@.union(
                Set::new(
                    |n: Seq<char>|
                        exists|j: int|
                            0 <= j < i && pat_refers(#[trigger] pats_view(ps@)[j], bound@, n),
                ),
            ),
        decreases ps.len() - i,
    {
        collect_pat(&ps[i], bound, free);
        proof {
            assert(pats_view(ps@)[i as int] == ps@[i as int]@);
            assert(free@ =~= old(free)@.union(
                Set::new(
                    |n: Seq<char>|
                        exists|j: int|
                            0 <= j < i + 1 && pat_refers(#[trigger] pats_view(ps@)[j], bound@, n),
                ),
            ));
        }
        i += 1;
    }
}

/// Adds to `free` the names that expression `e`, met in scope `bound`, refers
/// to from outside.
pub fn collect_expr(e: &Expr, bound: &NameSet, free: &mut NameSet)
    ensures
        final(free)@ == old(free)@.union(Set::new(|n: Seq<char>| expr_refers(e@, bound@, n))),
    decreases e,
{
    match e {
        Expr::Path(p) => {
            match path_name(p) {
                Some(name) => {
                    if !bound.contains(name) {
                        free.insert(name.clone());
                    }
                },
                None => {},
            }
            collect_path(p, bound, free);
            assert(free@ =~= old(free)@.union(Set::new(|n: Seq<char>| expr_refers(e@, bound@, n))));
        },
        Expr::Lit(_) => {
            assert(free@ =~= old(free)@.union(Set::new(|n: Seq<char>| expr_refers(e@, bound@, n))));
        },
        Expr::Call { func, args } => {
            collect_expr(func, bound, free);
            collect_exprs(args, bound, free);
            assert(e@->Call_args == exprs_view(args@));
            assert(free@ =~= old(free)@.union(Set::new(|n: Seq<char>| expr_refers(e@, bound@, n))));
        },
        Expr::Compound { label, types, operands } => {
            collect_types(types, bound, free);
            collect_exprs(operands, bound, free);
            assert(e@->Compound_types == types_view(types@));
            assert(e@->Compound_operands == exprs_view(operands@));
            assert(free@ =~= old(free)@.union(Set::new(|n: Seq<char>| expr_refers(e@, bound@, n))));
        },
        Expr::Closure { params, body } => {
            collect_pats(params, bound, free);
            let mut inner = bound.copy();
            add_pats_binders(params, &mut inner);
            collect_expr(body, &inner, free);
            assert(e@->Closure_params == pats_view(params@));
            assert(free@ =~= old(free)@.union(Set::new(|n: Seq<char>| expr_refers(e@, bound@, n))));
        },
        Expr::Block(stmts) => {
            collect_stmts(stmts, bound, free);
        },
        Expr::If { cond, then_branch, else_branch } => {
            let ghost want = Set::new(|n: Seq<char>| expr_refers(e@, bound@, n));
            let ghost tail = Set::new(
                |n: Seq<char>|
                    match e@->If_else_branch {
                        Some(x) => expr_refers(*x, bound@, n),
                        None => false,
                    },
            );
            match else_branch {
                Some(x) => {
                    collect_expr(x, bound, free);
                },
                None => {},
            }
            assert(free@ =~= old(free)@.union(tail));
            match &**cond {
                Expr::Let { pat, scrutinee } => {
                    collect_expr(scrutinee, bound, free);
                    collect_pat(pat, bound, free);
                    let mut inner = bound.copy();
                    add_pat_binders(pat, &mut inner);
                    collect_stmts(then_branch, &inner, free);
                    assert(*e@->If_cond == ExprV::Let {
                        pat: pat@,
                        scrutinee: Box::new(scrutinee@),
                    });
                    assert(free@ =~= old(free)@.union(want));
                },
                _ => {
                    collect_expr(cond, bound, free);
                    collect_stmts(then_branch, bound, free);
                    assert(*e@->If_cond == cond@);
                    assert(!(cond@ is Let));
                    assert(free@ =~= old(free)@.union(want));
                },
            }
        },
        Expr::Let { pat, scrutinee } => {
            collect_expr(scrutinee, bound, free);
            collect_pat(pat, bound, free);
            assert(free@ =~= old(free)@.union(Set::new(|n: Seq<char>| expr_refers(e@, bound@, n))));
        },
        Expr::Match { scrutinee, arms } => {
            collect_expr(scrutinee, bound, free);
            collect_arms(arms, bound, free);
            assert(e@->Match_arms == arms_view(arms@));
            assert(free@ =~= old(free)@.union(Set::new(|n: Seq<char>| expr_refers(e@, bound@, n))));
        },
        Expr::Macro { path, tokens } => {
            collect_path(path, bound, free);
            assert(free@ =~= old(free)@.union(Set::new(|n: Seq<char>| expr_refers(e@, bound@, n))));
        },
    }
}

/// Adds to `free` the names that the expressions `es` refer to from outside.
pub fn collect_exprs(es: &Vec<Expr>, bound: &NameSet, free: &mut NameSet)
    ensures
        final(free)@ == old(free)@.union(
            Set::new(
                |n: Seq<char>|
                    exists|j: int|
                        0 <= j < es@.len() && expr_refers(#[trigger] exprs_view(es@)[j], bound@, n),
            ),
        ),
    decreases es,
{
    let mut i: usize = 0;
    while i < es.len()
        invariant
            i <= es.len(),
            free@ == old(free)@.union(
                Set::new(
                    |n: Seq<char>|
                        exists|j: int|
                            0 <= j < i && expr_refers(#[trigger] exprs_view(es@)[j], bound@, n),
                ),
            ),
        decreases es.len() - i,
    {
        collect_expr(&es[i], bound, free);
        proof {
            assert(exprs_view(es@)[i as int] == es@[i as int]@);
            assert(free@ =~= old(free)@.union(
                Set::new(
                    |n: Seq<char>|
                        exists|j: int|
                            0 <= j < i + 1 && expr_refers(#[trigger] exprs_view(es@)[j], bound@, n),
                ),
            ));
        }
        i += 1;
    }
}

/// Adds to `free` the names that the arms `arms` refer to from outside.
pub fn collect_arms(arms: &Vec<Arm>, bound: &NameSet, free: &mut NameSet)
    ensures
        final(free)@ == old(free)@.union(
            Set::new(
                |n: Seq<char>|
                    exists|j: int|
                        0 <= j < arms@.len() && arm_refers(#[trigger] arms_view(arms@)[j], bound@, n),
            ),
        ),
    decreases arms,
{
    let mut i: usize = 0;
    while i < arms.len()
        invariant
            i <= arms.len(),
            free@ == old(free)@.union(
                Set::new(
                    |n: Seq<char>|
                        exists|j: int|
                            0 <= j < i && arm_refers(#[trigger] arms_view(arms@)[j], bound@, n),
                ),
            ),
        decreases arms.len() - i,
    {
        let arm = &arms[i];
        collect_pat(&arm.pat, bound, free);
        let mut inner = bound.copy();
        add_pat_binders(&arm.pat, &mut inner);
        match &arm.guard {
            Some(g) => {
                collect_expr(g, &inner, free);
            },
            None => {},
        }
        collect_expr(&arm.body, &inner, free);
        proof {
            assert(arms_view(arms@)[i as int] == arms@[i as int]@);
            assert(free@ =~= old(free)@.union(
                Set::new(
                    |n: Seq<char>|
                        exists|j: int|
                            0 <= j < i + 1 && arm_refers(#[trigger] arms_view(arms@)[j], bound@, n),
                ),
            ));
        }
        i += 1;
    }
}

/// Adds to `free` the names that the statements of a block entered with
/// `bound` refer to from outside the block.
pub fn collect_stmts(stmts: &Vec<Stmt>, bound: &NameSet, free: &mut NameSet)
    ensures
        final(free)@ == old(free)@.union(
            Set::new(|n: Seq<char>| stmts_refer(stmts_view(stmts@), bound@, n)),
        ),
    decreases stmts,
{
    let ghost sv = stmts_view(stmts@);
    let mut scope = bound.copy();
    assert(scope@ =~= scope_before(sv, 0, bound@));
    let mut i: usize = 0;
    while i < stmts.len()
        invariant
            i <= stmts.len(),
            sv == stmts_view(stmts@),
            scope@ == scope_before(sv, i as int, bound@),
            free@ == old(free)@.union(
                Set::new(
                    |n: Seq<char>|
                        exists|j: int|
                            0 <= j < i && stmt_refers(
                                #[trigger] sv[j],
                                scope_before(sv, j, bound@),
                                n,
                            ),
                ),
            ),
        decreases stmts.len() - i,
    {
        match &stmts[i] {
            Stmt::Let { pat, init } => {
                collect_pat(pat, &scope, free);
                match init {
                    Some(x) => {
                        collect_expr(x, &scope, free);
                    },
                    None => {},
                }
                add_pat_binders(pat, &mut scope);
            },
            Stmt::Expr { expr, semi } => {
                collect_expr(expr, &scope, free);
            },
            Stmt::Item(_) => {},
        }
        proof {
            assert(sv[i as int] == stmts@[i as int]@);
            lemma_scope_before_next(sv, i as int, bound@);
            assert(scope@ =~= scope_before(sv, i + 1, bound@));
            assert(free@ =~= old(free)@.union(
                Set::new(
                    |n: Seq<char>|
                        exists|j: int|
                            0 <= j < i + 1 && stmt_refers(
                                #[trigger] sv[j],
                                scope_before(sv, j, bound@),
                                n,
                            ),
                ),
            ));
        }
        i += 1;
    }
    assert(free@ =~= old(free)@.union(Set::new(|n: Seq<char>| stmts_refer(sv, bound@, n))));
}

/// The free names of expression `e`.
pub fn free_vars_of_expr(e: &Expr) -> (r: NameSet)
    ensures
        r@ == crate::subst::scope::free_vars(e@),
{
    let mut r = NameSet::new();
    let bound = NameSet::new();
    collect_expr(e, &bound, &mut r);
    assert(r@ =~= crate::subst::scope::free_vars(e@));
    r
}

/// What a policy says of a node that a walk is about to enter.
#[derive(Debug)]
pub enum SubstituerControl<T> {
    /// Enter the node.
    Continue,
    /// Put this in place of the node, and do not enter it.
    Stop(T),
}

/// A policy that a walk consults at every expression and every type before it
/// enters it.
pub trait Substituer {
    /// What the policy does, as a value.
    spec fn policy(&self) -> PolicyV;

    /// The verdict on expression `expr`, met with the names `context` bound.
    fn subst_expr(&self, context: &NameSet, expr: &Expr) -> (r: SubstituerControl<Expr>)
        ensures
            match r {
                SubstituerControl::Stop(x) => expr_verdict(self.policy(), context@, expr@) == Some(
                    x@,
                ),
                SubstituerControl::Continue => expr_verdict(
                    self.policy(),
                    context@,
                    expr@,
                ).is_none(),
            },
    ;

    /// The verdict on type `typ`, met with the names `context` bound.
    fn subst_type(&self, context: &NameSet, typ: &Type) -> (r: SubstituerControl<Type>)
        ensures
            match r {
                SubstituerControl::Stop(x) => type_verdict(self.policy(), context@, typ@) == Some(
                    x@,
                ),
                SubstituerControl::Continue => type_verdict(
                    self.policy(),
                    context@,
                    typ@,
                ).is_none(),
            },
    ;
}

/// The policy that changes nothing.
#[derive(Debug)]
pub struct KeepAll;

/// The policy that puts `value` in place of the expression `name`.
#[derive(Debug)]
pub struct ReplaceExpr {
    pub name: String,
    pub value: Expr,
}

/// The policy that puts `value` in place of the type `name`.
#[derive(Debug)]
pub struct ReplaceType {
    pub name: String,
    pub value: Type,
}

impl Substituer for KeepAll {
    open spec fn policy(&self) -> PolicyV {
        PolicyV::Keep
    }

    fn subst_expr(&self, context: &NameSet, expr: &Expr) -> (r: SubstituerControl<Expr>) {
        SubstituerControl::Continue
    }

    fn subst_type(&self, context: &NameSet, typ: &Type) -> (r: SubstituerControl<Type>) {
        SubstituerControl::Continue
    }
}

impl Substituer for ReplaceExpr {
    open spec fn policy(&self) -> PolicyV {
        PolicyV::Expr { name: self.name@, expr: self.value@ }
    }

    fn subst_expr(&self, context: &NameSet, expr: &Expr) -> (r: SubstituerControl<Expr>) {
        let named = match expr {
            Expr::Path(p) => match path_name(p) {
                Some(name) => same_text(name, &self.name),
                None => false,
            },
            _ => expect_input_reference(&self.name, expr).is_some(),
        };
        if named && !context.contains(&self.name) {
            SubstituerControl::Stop(self.value.clone())
        } else {
            SubstituerControl::Continue
        }
    }

    fn subst_type(&self, context: &NameSet, typ: &Type) -> (r: SubstituerControl<Type>) {
        SubstituerControl::Continue
    }
}

impl Substituer for ReplaceType {
    open spec fn policy(&self) -> PolicyV {
        PolicyV::Type { name: self.name@, ty: self.value@ }
    }

    fn subst_expr(&self, context: &NameSet, expr: &Expr) -> (r: SubstituerControl<Expr>) {
        SubstituerControl::Continue
    }

    fn subst_type(&self, context: &NameSet, typ: &Type) -> (r: SubstituerControl<Type>) {
        match typ {
            Type::Path(p) => match path_name(p) {
                Some(name) => {
                    if same_text(name, &self.name) && !context.contains(&self.name) {
                        SubstituerControl::Stop(self.value.clone())
                    } else {
                        SubstituerControl::Continue
                    }
                },
                None => SubstituerControl::Continue,
            },
            _ => SubstituerControl::Continue,
        }
    }
}

/// Type `t`, met in scope `bound`, rewritten under policy `s`.
pub fn rewrite_type<S: Substituer>(s: &S, bound: &NameSet, t: &Type) -> (r: Type)
    ensures
        r@ == type_subst(t@, bound@, s.policy()),
    decreases t,
{
    match s.subst_type(bound, t) {
        SubstituerControl::Stop(x) => x,
        SubstituerControl::Continue => match t {
            Type::Path(p) => Type::Path(rewrite_path(s, bound, p)),
            Type::Compound { label, args } => {
                let r = Type::Compound { label: label.clone(), args: rewrite_types(s, bound, args) };
                assert(t@->Compound_args == types_view(args@));
                r
            },
            Type::Opaque(text) => Type::Opaque(text.clone()),
        },
    }
}

/// The types `ts` rewritten under policy `s`.
pub fn rewrite_types<S: Substituer>(s: &S, bound: &NameSet, ts: &Vec<Type>) -> (r: Vec<Type>)
    ensures
        types_view(r@) == types_subst(types_view(ts@), bound@, s.policy()),
    decreases ts,
{
    let mut r: Vec<Type> = Vec::new();
    let mut i: usize = 0;
    while i < ts.len()
        invariant
            i <= ts.len(),
            r@.len() == i,
            forall|j: int| 0 <= j < i ==> r@[j]@ == type_subst(ts@[j]@, bound@, s.policy()),
        decreases ts.len() - i,
    {
        r.push(rewrite_type(s, bound, &ts[i]));
        i += 1;
    }
    assert(types_view(r@) =~= types_subst(types_view(ts@), bound@, s.policy()));
    r
}

/// Path `p` rewritten under policy `s`.
pub fn rewrite_path<S: Substituer>(s: &S, bound: &NameSet, p: &Path) -> (r: Path)
    ensures
        r@ == path_subst(p@, bound@, s.policy()),
    decreases p,
{
    let mut segments: Vec<Segment> = Vec::new();
    let mut i: usize = 0;
    while i < p.segments.len()
        invariant
            i <= p.segments.len(),
            segments@.len() == i,
            forall|j: int|
                0 <= j < i ==> segments@[j]@ == segment_subst(
                    p.segments@[j]@,
                    bound@,
                    s.policy(),
                ),
        decreases p.segments.len() - i,
    {
        let seg = &p.segments[i];
        segments.push(Segment { ident: seg.ident.clone(), args: rewrite_types(s, bound, &seg.args) });
        i += 1;
    }
    let r = Path { segments };
    assert(r@.segments =~= segments_subst(p@.segments, bound@, s.policy()));
    r
}

/// Pattern `p` rewritten under policy `s`.
pub fn rewrite_pat<S: Substituer>(s: &S, bound: &NameSet, p: &Pat) -> (r: Pat)
    ensures
        r@ == pat_subst(p@, bound@, s.policy()),
    decreases p,
{
    match p {
        Pat::Wild => Pat::Wild,
        Pat::Ident { name, by_ref, mutable, subpat } => Pat::Ident {
            name: name.clone(),
            by_ref: *by_ref,
            mutable: *mutable,
            subpat: match subpat {
                Some(q) => Some(Box::new(rewrite_pat(s, bound, q))),
                None => None,
            },
        },
        Pat::Lit(text) => Pat::Lit(text.clone()),
        Pat::Typed { pat, ty } => Pat::Typed {
            pat: Box::new(rewrite_pat(s, bound, pat)),
            ty: rewrite_type(s, bound, ty),
        },
        Pat::Compound { label, path, elems } => {
            let r = Pat::Compound {
                label: label.clone(),
                path: match path {
                    Some(q) => Some(rewrite_path(s, bound, q)),
                    None => None,
                },
                elems: rewrite_pats(s, bound, elems),
            };
            assert(p@->Compound_elems == pats_view(elems@));
            r
        },
    }
}

/// The patterns `ps` rewritten under policy `s`.
pub fn rewrite_pats<S: Substituer>(s: &S, bound: &NameSet, ps: &Vec<Pat>) -> (r: Vec<Pat>)
    ensures
        pats_view(r@) == pats_subst(pats_view(ps@), bound@, s.policy()),
    decreases ps,
{
    let mut r: Vec<Pat> = Vec::new();
    let mut i: usize = 0;
    while i < ps.len()
        invariant
            i <= ps.len(),
            r@.len() == i,
            forall|j: int| 0 <= j < i ==> r@[j]@ == pat_subst(ps@[j]@, bound@, s.policy()),
        decreases ps.len() - i,
    {
        r.push(rewrite_pat(s, bound, &ps[i]));
        i += 1;
    }
    assert(pats_view(r@) =~= pats_subst(pats_view(ps@), bound@, s.policy()));
    r
}

/// Expression `e`, met in scope `bound`, rewritten under policy `s`.
pub fn rewrite_expr<S: Substituer>(s: &S, bound: &NameSet, e: &Expr) -> (r: Expr)
    ensures
        r@ == expr_subst(e@, bound@, s.policy()),
    decreases e,
{
    match s.subst_expr(bound, e) {
        SubstituerControl::Stop(x) => x,
        SubstituerControl::Continue => match e {
            Expr::Path(p) => Expr::Path(rewrite_path(s, bound, p)),
            Expr::Lit(text) => Expr::Lit(text.clone()),
            Expr::Call { func, args } => {
                let r = Expr::Call {
                    func: Box::new(rewrite_expr(s, bound, func)),
                    args: rewrite_exprs(s, bound, args),
                };
                assert(e@->Call_args == exprs_view(args@));
                r
            },
            Expr::Compound { label, types, operands } => {
                let r = Expr::Compound {
                    label: label.clone(),
                    types: rewrite_types(s, bound, types),
                    operands: rewrite_exprs(s, bound, operands),
                };
                assert(e@->Compound_types == types_view(types@));
                assert(e@->Compound_operands == exprs_view(operands@));
                r
            },
            Expr::Closure { params, body } => {
                let mut inner = bound.copy();
                add_pats_binders(params, &mut inner);
                let r = Expr::Closure {
                    params: rewrite_pats(s, bound, params),
                    body: Box::new(rewrite_expr(s, &inner, body)),
                };
                assert(e@->Closure_params == pats_view(params@));
                r
            },
            Expr::Block(stmts) => Expr::Block(rewrite_stmts(s, bound, stmts)),
            Expr::If { cond, then_branch, else_branch } => {
                let new_cond = rewrite_expr(s, bound, cond);
                let new_then = match &**cond {
                    Expr::Let { pat, scrutinee } => {
                        let mut inner = bound.copy();
                        add_pat_binders(pat, &mut inner);
                        assert(*e@->If_cond == ExprV::Let {
                            pat: pat@,
                            scrutinee: Box::new(scrutinee@),
                        });
                        rewrite_stmts(s, &inner, then_branch)
                    },
                    _ => {
                        assert(*e@->If_cond == cond@);
                        assert(!(cond@ is Let));
                        rewrite_stmts(s, bound, then_branch)
                    },
                };
                let new_else = match else_branch {
                    Some(x) => Some(Box::new(rewrite_expr(s, bound, x))),
                    None => None,
                };
                Expr::If { cond: Box::new(new_cond), then_branch: new_then, else_branch: new_else }
            },
            Expr::Let { pat, scrutinee } => Expr::Let {
                pat: rewrite_pat(s, bound, pat),
                scrutinee: Box::new(rewrite_expr(s, bound, scrutinee)),
            },
            Expr::Match { scrutinee, arms } => {
                let r = Expr::Match {
                    scrutinee: Box::new(rewrite_expr(s, bound, scrutinee)),
                    arms: rewrite_arms(s, bound, arms),
                };
                assert(e@->Match_arms == arms_view(arms@));
                r
            },
            Expr::Macro { path, tokens } => Expr::Macro {
                path: rewrite_path(s, bound, path),
                tokens: tokens.clone(),
            },
        },
    }
}

/// The expressions `es` rewritten under policy `s`.
pub fn rewrite_exprs<S: Substituer>(s: &S, bound: &NameSet, es: &Vec<Expr>) -> (r: Vec<Expr>)
    ensures
        exprs_view(r@) == exprs_subst(exprs_view(es@), bound@, s.policy()),
    decreases es,
{
    let mut r: Vec<Expr> = Vec::new();
    let mut i: usize = 0;
    while i < es.len()
        invariant
            i <= es.len(),
            r@.len() == i,
            forall|j: int| 0 <= j < i ==> r@[j]@ == expr_subst(es@[j]@, bound@, s.policy()),
        decreases es.len() - i,
    {
        r.push(rewrite_expr(s, bound, &es[i]));
        i += 1;
    }
    assert(exprs_view(r@) =~= exprs_subst(exprs_view(es@), bound@, s.policy()));
    r
}

/// The arms `arms` rewritten under policy `s`.
pub fn rewrite_arms<S: Substituer>(s: &S, bound: &NameSet, arms: &Vec<Arm>) -> (r: Vec<Arm>)
    ensures
        arms_view(r@) == arms_subst(arms_view(arms@), bound@, s.policy()),
    decreases arms,
{
    let mut r: Vec<Arm> = Vec::new();
    let mut i: usize = 0;
    while i < arms.len()
        invariant
            i <= arms.len(),
            r@.len() == i,
            forall|j: int|
                0 <= j < i ==> (#[trigger] r@[j])@ == arm_subst(arms@[j]@, bound@, s.policy()),
        decreases arms.len() - i,
    {
        let arm = &arms[i];
        let mut inner = bound.copy();
        add_pat_binders(&arm.pat, &mut inner);
        let guard = match &arm.guard {
            Some(g) => Some(rewrite_expr(s, &inner, g)),
            None => None,
        };
        r.push(
            Arm {
                pat: rewrite_pat(s, bound, &arm.pat),
                guard,
                body: rewrite_expr(s, &inner, &arm.body),
            },
        );
        i += 1;
    }
    assert(arms_view(r@) =~= arms_subst(arms_view(arms@), bound@, s.policy()));
    r
}

/// The statements of a block entered with `bound`, rewritten under policy `s`.
pub fn rewrite_stmts<S: Substituer>(s: &S, bound: &NameSet, stmts: &Vec<Stmt>) -> (r: Vec<Stmt>)
    ensures
        stmts_view(r@) == stmts_subst(stmts_view(stmts@), bound@, s.policy()),
    decreases stmts,
{
    let ghost sv = stmts_view(stmts@);
    let mut r: Vec<Stmt> = Vec::new();
    let mut scope = bound.copy();
    assert(scope@ =~= scope_before(sv, 0, bound@));
    let mut i: usize = 0;
    while i < stmts.len()
        invariant
            i <= stmts.len(),
            r@.len() == i,
            sv == stmts_view(stmts@),
            scope@ == scope_before(sv, i as int, bound@),
            forall|j: int|
                0 <= j < i ==> (#[trigger] r@[j])@ == stmt_subst(
                    sv[j],
                    scope_before(sv, j, bound@),
                    s.policy(),
                ),
        decreases stmts.len() - i,
    {
        proof {
            assert(sv[i as int] == stmts@[i as int]@);
            lemma_scope_before_next(sv, i as int, bound@);
        }
        match &stmts[i] {
            Stmt::Let { pat, init } => {
                let new_init = match init {
                    Some(x) => Some(rewrite_expr(s, &scope, x)),
                    None => None,
                };
                r.push(Stmt::Let { pat: rewrite_pat(s, &scope, pat), init: new_init });
                add_pat_binders(pat, &mut scope);
            },
            Stmt::Expr { expr, semi } => {
                r.push(Stmt::Expr { expr: rewrite_expr(s, &scope, expr), semi: *semi });
                assert(scope@ =~= scope_before(sv, i + 1, bound@));
            },
            Stmt::Item(text) => {
                r.push(Stmt::Item(text.clone()));
                assert(scope@ =~= scope_before(sv, i + 1, bound@));
            },
        }
        i += 1;
    }
    assert(stmts_view(r@) =~= stmts_subst(sv, bound@, s.policy()));
    r
}

/// Whether a walk accepts expression `e`.
pub fn is_supported(e: &Expr) -> (r: bool)
    ensures
        r == expr_supported(e@),
    decreases e,
{
    match e {
        Expr::Path(_) => true,
        Expr::Lit(_) => true,
        Expr::Call { func, args } => {
            assert(e@->Call_args == exprs_view(args@));
            is_supported(func) && are_supported(args)
        },
        Expr::Compound { label, types, operands } => {
            assert(e@->Compound_operands == exprs_view(operands@));
            are_supported(operands)
        },
        Expr::Closure { params, body } => is_supported(body),
        Expr::Block(stmts) => stmts_are_supported(stmts),
        Expr::If { cond, then_branch, else_branch } => {
            let head = match &**cond {
                Expr::Let { pat, scrutinee } => {
                    assert(*e@->If_cond == ExprV::Let {
                        pat: pat@,
                        scrutinee: Box::new(scrutinee@),
                    });
                    is_supported(scrutinee) && else_branch.is_some()
                },
                _ => {
                    assert(*e@->If_cond == cond@);
                    assert(!(cond@ is Let));
                    is_supported(cond)
                },
            };
            let tail = match else_branch {
                Some(x) => is_supported(x),
                None => true,
            };
            head && stmts_are_supported(then_branch) && tail
        },
        Expr::Let { pat, scrutinee } => false,
        Expr::Match { scrutinee, arms } => {
            if !is_supported(scrutinee) {
                return false;
            }
            let ghost av = arms_view(arms@);
            assert(e@->Match_arms == av);
            let mut i: usize = 0;
            while i < arms.len()
                invariant
                    i <= arms.len(),
                    av == arms_view(arms@),
                    e is Match,
                    e->Match_arms == *arms,
                    e@ is Match,
                    e@->Match_arms == av,
                    expr_supported(*e@->Match_scrutinee),
                    forall|j: int| 0 <= j < i ==> arm_supported(#[trigger] av[j]),
                decreases arms.len() - i,
            {
                let arm = &arms[i];
                assert(av[i as int] == arm@);
                let guard = match &arm.guard {
                    Some(g) => is_supported(g),
                    None => true,
                };
                if !guard || !is_supported(&arm.body) {
                    assert(!arm_supported(av[i as int]));
                    return false;
                }
                i += 1;
            }
            true
        },
        Expr::Macro { path, tokens } => true,
    }
}

/// Whether a walk accepts each expression of `es`.
pub fn are_supported(es: &Vec<Expr>) -> (r: bool)
    ensures
        r == exprs_supported(exprs_view(es@)),
    decreases es,
{
    let ghost ev = exprs_view(es@);
    let mut i: usize = 0;
    while i < es.len()
        invariant
            i <= es.len(),
            ev == exprs_view(es@),
            forall|j: int| 0 <= j < i ==> expr_supported(#[trigger] ev[j]),
        decreases es.len() - i,
    {
        assert(ev[i as int] == es@[i as int]@);
        if !is_supported(&es[i]) {
            return false;
        }
        i += 1;
    }
    true
}

/// Whether a walk accepts each statement of `stmts`.
pub fn stmts_are_supported(stmts: &Vec<Stmt>) -> (r: bool)
    ensures
        r == stmts_supported(stmts_view(stmts@)),
    decreases stmts,
{
    let ghost sv = stmts_view(stmts@);
    let mut i: usize = 0;
    while i < stmts.len()
        invariant
            i <= stmts.len(),
            sv == stmts_view(stmts@),
            forall|j: int| 0 <= j < i ==> stmt_supported(#[trigger] sv[j]),
        decreases stmts.len() - i,
    {
        assert(sv[i as int] == stmts@[i as int]@);
        let ok = match &stmts[i] {
            Stmt::Let { pat, init } => match init {
                Some(x) => is_supported(x),
                None => true,
            },
            Stmt::Expr { expr, semi } => is_supported(expr),
            Stmt::Item(_) => false,
        };
        if !ok {
            return false;
        }
        i += 1;
    }
    true
}

/// Predicate `p`, met in scope `bound`, rewritten under policy `s`.
pub fn rewrite_predicate<S: Substituer>(s: &S, bound: &NameSet, p: &WherePredicate) -> (r:
    WherePredicate)
    ensures
        r@ == predicate_subst(p@, bound@, s.policy()),
{
    let ghost pv = p@.params;
    let mut scope = bound.copy();
    let mut params: Vec<GenericParam> = Vec::new();
    let mut k: usize = 0;
    assert(scope@ =~= bound@.union(params_names(pv, 0)));
    while k < p.params.len()
        invariant
            k <= p.params.len(),
            pv == p@.params,
            params@.len() == k,
            scope@ == bound@.union(params_names(pv, k as int)),
            forall|j: int| 0 <= j < k ==> params@[j]@ == param_subst(pv, j, bound@, s.policy()),
        decreases p.params.len() - k,
    {
        let param = &p.params[k];
        assert(pv[k as int] == param@);
        params.push(
            GenericParam { name: param.name.clone(), bounds: rewrite_types(s, &scope, &param.bounds) },
        );
        scope.insert(param.name.clone());
        proof {
            let next = bound@.union(params_names(pv, k + 1));
            assert forall|n: Seq<char>| scope@.contains(n) == next.contains(n) by {
                if params_names(pv, k + 1).contains(n) {
                    let j = choose|j: int|
                        0 <= j < k + 1 && j < pv.len() && (#[trigger] pv[j]).name == n;
                    if j < k {
                        assert(params_names(pv, k as int).contains(n));
                    }
                }
                if params_names(pv, k as int).contains(n) {
                    let j = choose|j: int| 0 <= j < k && j < pv.len() && (#[trigger] pv[j]).name == n;
                    assert(params_names(pv, k + 1).contains(n));
                }
                if n == param.name@ {
                    assert(pv[k as int].name == n);
                    assert(params_names(pv, k + 1).contains(n));
                }
            }
            assert(scope@ =~= next);
        }
        k += 1;
    }
    let r = WherePredicate {
        params,
        bounded: rewrite_type(s, &scope, &p.bounded),
        bounds: rewrite_types(s, &scope, &p.bounds),
    };
    assert(r@.params =~= predicate_subst(p@, bound@, s.policy()).params);
    r
}

/// Adds to `into` the names of the parameters of predicate `p`.
pub fn add_predicate_names(p: &WherePredicate, into: &mut NameSet)
    ensures
        final(into)@ == old(into)@.union(params_names(p@.params, p@.params.len() as int)),
{
    let ghost pv = p@.params;
    let mut k: usize = 0;
    assert(into@ =~= old(into)@.union(params_names(pv, 0)));
    while k < p.params.len()
        invariant
            k <= p.params.len(),
            pv == p@.params,
            into@ == old(into)@.union(params_names(pv, k as int)),
        decreases p.params.len() - k,
    {
        let param = &p.params[k];
        assert(pv[k as int] == param@);
        into.insert(param.name.clone());
        proof {
            let next = old(into)@.union(params_names(pv, k + 1));
            assert forall|n: Seq<char>| into@.contains(n) == next.contains(n) by {
                if params_names(pv, k + 1).contains(n) {
                    let j = choose|j: int|
                        0 <= j < k + 1 && j < pv.len() && (#[trigger] pv[j]).name == n;
                    if j < k {
                        assert(params_names(pv, k as int).contains(n));
                    }
                }
                if params_names(pv, k as int).contains(n) {
                    let j = choose|j: int| 0 <= j < k && j < pv.len() && (#[trigger] pv[j]).name == n;
                    assert(params_names(pv, k + 1).contains(n));
                }
                if n == param.name@ {
                    assert(pv[k as int].name == n);
                    assert(params_names(pv, k + 1).contains(n));
                }
            }
            assert(into@ =~= next);
        }
        k += 1;
    }
}

/// A `where` clause, met in scope `bound`, rewritten under policy `s`.
pub fn rewrite_where<S: Substituer>(s: &S, bound: &NameSet, w: &WhereClause) -> (r: WhereClause)
    ensures
        r@ == where_subst(w@, bound@, s.policy()),
{
    let ghost wv = w@.predicates;
    let mut scope = bound.copy();
    let mut predicates: Vec<WherePredicate> = Vec::new();
    let mut i: usize = 0;
    assert(scope@ =~= bound@.union(predicates_names(wv, 0)));
    while i < w.predicates.len()
        invariant
            i <= w.predicates.len(),
            wv == w@.predicates,
            predicates@.len() == i,
            scope@ == bound@.union(predicates_names(wv, i as int)),
            forall|j: int|
                0 <= j < i ==> predicates@[j]@ == predicate_subst(
                    wv[j],
                    bound@.union(predicates_names(wv, j)),
                    s.policy(),
                ),
        decreases w.predicates.len() - i,
    {
        let p = &w.predicates[i];
        assert(wv[i as int] == p@);
        predicates.push(rewrite_predicate(s, &scope, p));
        add_predicate_names(p, &mut scope);
        proof {
            let own = params_names(p@.params, p@.params.len() as int);
            let next = bound@.union(predicates_names(wv, i + 1));
            assert forall|n: Seq<char>| scope@.contains(n) == next.contains(n) by {
                if predicates_names(wv, i + 1).contains(n) {
                    let j = choose|j: int|
                        0 <= j < i + 1 && j < wv.len() && params_names(
                            (#[trigger] wv[j]).params,
                            wv[j].params.len() as int,
                        ).contains(n);
                    if j < i {
                        assert(predicates_names(wv, i as int).contains(n));
                    }
                }
                if predicates_names(wv, i as int).contains(n) {
                    let j = choose|j: int|
                        0 <= j < i && j < wv.len() && params_names(
                            (#[trigger] wv[j]).params,
                            wv[j].params.len() as int,
                        ).contains(n);
                    assert(predicates_names(wv, i + 1).contains(n));
                }
                if own.contains(n) {
                    assert(params_names(wv[i as int].params, wv[i as int].params.len() as int).contains(n));
                    assert(predicates_names(wv, i + 1).contains(n));
                }
            }
            assert(scope@ =~= next);
        }
        i += 1;
    }
    let r = WhereClause { predicates };
    assert(r@.predicates =~= where_subst(w@, bound@, s.policy()).predicates);
    r
}

/// The view of a table from names to expressions.
pub open spec fn table_view(v: Seq<(String, Expr)>) -> Seq<(Seq<char>, ExprV)> {
    Seq::new(v.len(), |i: int| (v[i].0@, v[i].1@))
}

/// The policy that puts in place of every bare name of `table` the
/// expression that `table` gives for it.
#[derive(Debug)]
pub struct ReplaceNames {
    pub table: Vec<(String, Expr)>,
}

/// The expression that `table` gives for `name`.
pub fn lookup_name<'a>(table: &'a Vec<(String, Expr)>, name: &String) -> (r: Option<&'a Expr>)
    ensures
        match r {
            Some(e) => table_lookup(table_view(table@), name@) == Some(e@),
            None => table_lookup(table_view(table@), name@).is_none(),
        },
{
    let ghost tv = table_view(table@);
    let mut i: usize = 0;
    assert(tv.subrange(0, tv.len() as int) =~= tv);
    while i < table.len()
        invariant
            i <= table.len(),
            tv == table_view(table@),
            table_lookup(tv, name@) == table_lookup(tv.subrange(i as int, tv.len() as int), name@),
        decreases table.len() - i,
    {
        let ghost rest = tv.subrange(i as int, tv.len() as int);
        assert(rest[0] == tv[i as int]);
        assert(rest.drop_first() =~= tv.subrange(i + 1, tv.len() as int));
        if same_text(&table[i].0, name) {
            return Some(&table[i].1);
        }
        i += 1;
    }
    assert(tv.subrange(i as int, tv.len() as int).len() == 0);
    None
}

impl Substituer for ReplaceNames {
    open spec fn policy(&self) -> PolicyV {
        PolicyV::Names { table: table_view(self.table@) }
    }

    fn subst_expr(&self, context: &NameSet, expr: &Expr) -> (r: SubstituerControl<Expr>) {
        match expr {
            Expr::Path(p) => match path_name(p) {
                Some(name) => match lookup_name(&self.table, name) {
                    Some(e) => SubstituerControl::Stop(e.clone()),
                    None => SubstituerControl::Continue,
                },
                None => SubstituerControl::Continue,
            },
            _ => SubstituerControl::Continue,
        }
    }

    fn subst_type(&self, context: &NameSet, typ: &Type) -> (r: SubstituerControl<Type>) {
        SubstituerControl::Continue
    }
}

/// A walk in progress: the names bound around the place where it stands, the
/// free names it has met, and the policy it consults.
pub struct CollectedIntroducedVariables<S: Substituer> {
    bound_vars: NameSet,
    free_vars: NameSet,
    substituer: S,
}

impl<S: Substituer> CollectedIntroducedVariables<S> {
    /// The names bound around the place where the walk stands.
    pub closed spec fn bound(&self) -> Set<Seq<char>> {
        self.bound_vars@
    }

    /// The free names that the walk has met.
    pub closed spec fn free(&self) -> Set<Seq<char>> {
        self.free_vars@
    }

    /// What the policy of the walk does.
    pub closed spec fn policy(&self) -> PolicyV {
        self.substituer.policy()
    }

    /// A walk under the policy `substituer` that stands outside of every
    /// binder and has met nothing.
    pub fn new(substituer: S) -> (r: Self)
        ensures
            r.bound() == Set::<Seq<char>>::empty(),
            r.free() == Set::<Seq<char>>::empty(),
            r.policy() == substituer.policy(),
    {
        CollectedIntroducedVariables {
            bound_vars: NameSet::new(),
            free_vars: NameSet::new(),
            substituer,
        }
    }

    /// The free names that the walk has met.
    pub fn free_vars(&self) -> (r: &NameSet)
        ensures
            r@ == self.free(),
    {
        &self.free_vars
    }

    /// The names bound around the place where the walk stands.
    pub fn bound_vars(&self) -> (r: &NameSet)
        ensures
            r@ == self.bound(),
    {
        &self.bound_vars
    }

    /// Walks the expression `expr`: rewrites it under the policy of the walk,
    /// and adds the names that are free in it, as it was, to the free names
    /// that the walk has met.
    pub fn visit_expr_mut(&mut self, expr: &mut Expr)
        ensures
            final(expr)@ == expr_subst(old(expr)@, old(self).bound(), old(self).policy()),
            final(self).free() == old(self).free().union(
                Set::new(|n: Seq<char>| expr_refers(old(expr)@, old(self).bound(), n)),
            ),
            final(self).bound() == old(self).bound(),
            final(self).policy() == old(self).policy(),
    {
        collect_expr(expr, &self.bound_vars, &mut self.free_vars);
        let rewritten = rewrite_expr(&self.substituer, &self.bound_vars, expr);
        *expr = rewritten;
    }

    /// Walks the type `typ`: rewrites it under the policy of the walk, and
    /// adds the names that are free in it, as it was, to the free names that
    /// the walk has met.
    pub fn visit_type_mut(&mut self, typ: &mut Type)
        ensures
            final(typ)@ == type_subst(old(typ)@, old(self).bound(), old(self).policy()),
            final(self).free() == old(self).free().union(
                Set::new(|n: Seq<char>| type_refers(old(typ)@, old(self).bound(), n)),
            ),
            final(self).bound() == old(self).bound(),
            final(self).policy() == old(self).policy(),
    {
        collect_type(typ, &self.bound_vars, &mut self.free_vars);
        let rewritten = rewrite_type(&self.substituer, &self.bound_vars, typ);
        *typ = rewritten;
    }

    /// Walks the pattern `pat`: rewrites its annotations under the policy of
    /// the walk, adds the names that are free in them to the free names that
    /// the walk has met, and then the names that the pattern binds to the
    /// names bound around the place where the walk stands.
    pub fn visit_pat_mut(&mut self, pat: &mut Pat)
        ensures
            final(pat)@ == pat_subst(old(pat)@, old(self).bound(), old(self).policy()),
            final(self).free() == old(self).free().union(
                Set::new(|n: Seq<char>| pat_refers(old(pat)@, old(self).bound(), n)),
            ),
            final(self).bound() == old(self).bound().union(pat_binders(old(pat)@)),
            final(self).policy() == old(self).policy(),
    {
        collect_pat(pat, &self.bound_vars, &mut self.free_vars);
        let rewritten = rewrite_pat(&self.substituer, &self.bound_vars, pat);
        add_pat_binders(pat, &mut self.bound_vars);
        *pat = rewritten;
    }
}

} // verus!
