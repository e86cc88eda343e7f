//! What holds of every walk: hygiene of the substitution.

use crate::subst::scope::{
    arm_refers, arm_subst, arms_subst, expr_refers, expr_subst, expr_verdict, exprs_subst,
    pat_binders, pat_binds, pat_refers, pat_subst, path_ident, path_refers, path_subst,
    pats_binders, pats_subst, scope_before, segment_refers, segment_subst, segments_subst,
    stmt_binders, stmt_refers, stmt_subst, stmts_refer, stmts_subst, type_refers, type_subst,
    type_verdict, types_subst, PolicyV,
};
use crate::subst::scope::{
    arm_occurs, expr_ident, expr_occurs, names_input, params_names, predicate_subst, stmt_occurs,
    stmts_occur,
};
use crate::syntax::{ArmV, ExprV, PatV, PathV, StmtV, TypeV, WherePredicateV};
use vstd::prelude::*;

verus! {

/// The name that a policy looks for, if it looks for one.
pub open spec fn policy_name(policy: PolicyV) -> Option<Seq<char>> {
    match policy {
        PolicyV::Keep => None,
        PolicyV::Expr { name, expr } => Some(name),
        PolicyV::Type { name, ty } => Some(name),
        PolicyV::Names { table } => None,
    }
}

/// A walk leaves a type as it is where the name it looks for is bound around
/// the type or does not occur free in it.
proof fn lemma_type_untouched(t: TypeV, bound: Set<Seq<char>>, policy: PolicyV)
    requires
        match policy_name(policy) {
            Some(n) => bound.contains(n) || !type_refers(t, bound, n),
            None => policy is Keep,
        },
    ensures
        type_subst(t, bound, policy) == t,
    decreases t, 1nat,
{
    match t {
        TypeV::Path(p) => {
            lemma_path_untouched(p, bound, policy);
        },
        TypeV::Compound { label, args } => {
            lemma_types_untouched(args, bound, policy);
        },
        TypeV::Opaque(_) => {},
    }
}

/// A walk leaves types as they are where the name it looks for is bound
/// around them or occurs free in none of them.
proof fn lemma_types_untouched(ts: Seq<TypeV>, bound: Set<Seq<char>>, policy: PolicyV)
    requires
        match policy_name(policy) {
            Some(n) => bound.contains(n) || forall|i: int|
                0 <= i < ts.len() ==> !type_refers(#[trigger] ts[i], bound, n),
            None => policy is Keep,
        },
    ensures
        types_subst(ts, bound, policy) == ts,
    decreases ts, 0nat,
{
    assert forall|i: int| 0 <= i < ts.len() implies type_subst(ts[i], bound, policy) == ts[i] by {
        lemma_type_untouched(ts[i], bound, policy);
    }
    assert(types_subst(ts, bound, policy) =~= ts);
}

/// A walk leaves a path as it is where the name it looks for is bound around
/// the path or does not occur free in its arguments.
proof fn lemma_path_untouched(p: PathV, bound: Set<Seq<char>>, policy: PolicyV)
    requires
        match policy_name(policy) {
            Some(n) => bound.contains(n) || !path_refers(p, bound, n),
            None => policy is Keep,
        },
    ensures
        path_subst(p, bound, policy) == p,
    decreases p, 1nat,
{
    let ss = p.segments;
    assert forall|i: int| 0 <= i < ss.len() implies segment_subst(ss[i], bound, policy)
        == ss[i] by {
        let s = ss[i];
        match policy_name(policy) {
            Some(n) => {
                if !bound.contains(n) {
                    assert(!segment_refers(ss[i], bound, n));
                }
            },
            None => {},
        }
        lemma_types_untouched(s.args, bound, policy);
    }
    assert(segments_subst(ss, bound, policy) =~= ss);
}

/// A walk leaves a pattern as it is where the name it looks for is bound
/// around the pattern or does not occur free in it.
proof fn lemma_pat_untouched(p: PatV, bound: Set<Seq<char>>, policy: PolicyV)
    requires
        match policy_name(policy) {
            Some(n) => bound.contains(n) || !pat_refers(p, bound, n),
            None => policy is Keep,
        },
    ensures
        pat_subst(p, bound, policy) == p,
    decreases p, 1nat,
{
    match p {
        PatV::Wild => {},
        PatV::Ident { name, by_ref, mutable, subpat } => {
            match subpat {
                Some(q) => {
                    lemma_pat_untouched(*q, bound, policy);
                },
                None => {},
            }
        },
        PatV::Lit(_) => {},
        PatV::Typed { pat, ty } => {
            lemma_pat_untouched(*pat, bound, policy);
            lemma_type_untouched(ty, bound, policy);
        },
        PatV::Compound { label, path, elems } => {
            match path {
                Some(q) => {
                    lemma_path_untouched(q, bound, policy);
                },
                None => {},
            }
            lemma_pats_untouched(elems, bound, policy);
        },
    }
}

/// A walk leaves patterns as they are where the name it looks for is bound
/// around them or occurs free in none of them.
proof fn lemma_pats_untouched(ps: Seq<PatV>, bound: Set<Seq<char>>, policy: PolicyV)
    requires
        match policy_name(policy) {
            Some(n) => bound.contains(n) || forall|i: int|
                0 <= i < ps.len() ==> !pat_refers(#[trigger] ps[i], bound, n),
            None => policy is Keep,
        },
    ensures
        pats_subst(ps, bound, policy) == ps,
    decreases ps, 0nat,
{
    assert forall|i: int| 0 <= i < ps.len() implies pat_subst(ps[i], bound, policy) == ps[i] by {
        lemma_pat_untouched(ps[i], bound, policy);
    }
    assert(pats_subst(ps, bound, policy) =~= ps);
}

/// A walk leaves an expression as it is where the name it looks for is bound
/// around the expression or does not occur free in it.
proof fn lemma_expr_untouched(e: ExprV, bound: Set<Seq<char>>, policy: PolicyV)
    requires
        match policy_name(policy) {
            Some(n) => bound.contains(n) || !expr_refers(e, bound, n),
            None => policy is Keep,
        },
    ensures
        expr_subst(e, bound, policy) == e,
    decreases e, 1nat,
{
    match e {
        ExprV::Path(p) => {
            lemma_path_untouched(p, bound, policy);
        },
        ExprV::Lit(_) => {},
        ExprV::Call { func, args } => {
            if expr_verdict(policy, bound, e).is_some() {
                assert(expr_refers(*func, bound, policy->Expr_name));
            }
            lemma_expr_untouched(*func, bound, policy);
            lemma_exprs_untouched(args, bound, policy);
        },
        ExprV::Compound { label, types, operands } => {
            lemma_types_untouched(types, bound, policy);
            lemma_exprs_untouched(operands, bound, policy);
        },
        ExprV::Closure { params, body } => {
            lemma_pats_untouched(params, bound, policy);
            lemma_expr_untouched(*body, bound.union(pats_binders(params)), policy);
        },
        ExprV::Block(stmts) => {
            lemma_stmts_untouched(stmts, bound, policy);
        },
        ExprV::If { cond, then_branch, else_branch } => {
            lemma_expr_untouched(*cond, bound, policy);
            match *cond {
                ExprV::Let { pat, scrutinee } => {
                    lemma_stmts_untouched(then_branch, bound.union(pat_binders(pat)), policy);
                },
                _ => {
                    lemma_stmts_untouched(then_branch, bound, policy);
                },
            }
            match else_branch {
                Some(x) => {
                    lemma_expr_untouched(*x, bound, policy);
                },
                None => {},
            }
        },
        ExprV::Let { pat, scrutinee } => {
            lemma_pat_untouched(pat, bound, policy);
            lemma_expr_untouched(*scrutinee, bound, policy);
        },
        ExprV::Match { scrutinee, arms } => {
            lemma_expr_untouched(*scrutinee, bound, policy);
            assert forall|i: int| 0 <= i < arms.len() implies arm_subst(arms[i], bound, policy)
                == arms[i] by {
                let a = arms[i];
                match policy_name(policy) {
                    Some(n) => {
                        if !bound.contains(n) {
                            assert(!arm_refers(arms[i], bound, n));
                        }
                    },
                    None => {},
                }
                lemma_pat_untouched(a.pat, bound, policy);
                match a.guard {
                    Some(g) => {
                        lemma_expr_untouched(g, bound.union(pat_binders(a.pat)), policy);
                    },
                    None => {},
                }
                lemma_expr_untouched(a.body, bound.union(pat_binders(a.pat)), policy);
            }
            assert(arms_subst(arms, bound, policy) =~= arms);
        },
        ExprV::Macro { path, tokens } => {
            lemma_path_untouched(path, bound, policy);
        },
    }
}

/// A walk leaves expressions as they are where the name it looks for is bound
/// around them or occurs free in none of them.
proof fn lemma_exprs_untouched(es: Seq<ExprV>, bound: Set<Seq<char>>, policy: PolicyV)
    requires
        match policy_name(policy) {
            Some(n) => bound.contains(n) || forall|i: int|
                0 <= i < es.len() ==> !expr_refers(#[trigger] es[i], bound, n),
            None => policy is Keep,
        },
    ensures
        exprs_subst(es, bound, policy) == es,
    decreases es, 0nat,
{
    assert forall|i: int| 0 <= i < es.len() implies expr_subst(es[i], bound, policy) == es[i] by {
        lemma_expr_untouched(es[i], bound, policy);
    }
    assert(exprs_subst(es, bound, policy) =~= es);
}

/// A walk leaves the statements of a block as they are where the name it
/// looks for is bound around the block or does not occur free in it.
proof fn lemma_stmts_untouched(stmts: Seq<StmtV>, bound: Set<Seq<char>>, policy: PolicyV)
    requires
        match policy_name(policy) {
            Some(n) => bound.contains(n) || !stmts_refer(stmts, bound, n),
            None => policy is Keep,
        },
    ensures
        stmts_subst(stmts, bound, policy) == stmts,
    decreases stmts, 0nat,
{
    assert forall|i: int| 0 <= i < stmts.len() implies stmt_subst(
        stmts[i],
        scope_before(stmts, i, bound),
        policy,
    ) == stmts[i] by {
        let scope = scope_before(stmts, i, bound);
        match policy_name(policy) {
            Some(n) => {
                if !bound.contains(n) {
                    assert(!stmt_refers(stmts[i], scope, n));
                }
            },
            None => {},
        }
        match stmts[i] {
            StmtV::Let { pat, init } => {
                lemma_pat_untouched(pat, scope, policy);
                match init {
                    Some(x) => {
                        lemma_expr_untouched(x, scope, policy);
                    },
                    None => {},
                }
            },
            StmtV::Expr { expr, semi } => {
                lemma_expr_untouched(expr, scope, policy);
            },
            StmtV::Item(_) => {},
        }
    }
    assert(stmts_subst(stmts, bound, policy) =~= stmts);
}

/// A name that is free in a type in a scope is free in it in every smaller
/// scope.
proof fn lemma_type_refers_wider(
    t: TypeV,
    small: Set<Seq<char>>,
    big: Set<Seq<char>>,
    n: Seq<char>,
)
    requires
        small.subset_of(big),
        type_refers(t, big, n),
    ensures
        type_refers(t, small, n),
    decreases t, 1nat,
{
    match t {
        TypeV::Path(p) => {
            if path_refers(p, big, n) {
                lemma_path_refers_wider(p, small, big, n);
            }
        },
        TypeV::Compound { label, args } => {
            let i = choose|i: int| 0 <= i < args.len() && type_refers(#[trigger] args[i], big, n);
            lemma_type_refers_wider(args[i], small, big, n);
        },
        TypeV::Opaque(_) => {},
    }
}

/// A name that is free in a path in a scope is free in it in every smaller
/// scope.
proof fn lemma_path_refers_wider(
    p: PathV,
    small: Set<Seq<char>>,
    big: Set<Seq<char>>,
    n: Seq<char>,
)
    requires
        small.subset_of(big),
        path_refers(p, big, n),
    ensures
        path_refers(p, small, n),
    decreases p, 1nat,
{
    let i = choose|i: int|
        0 <= i < p.segments.len() && segment_refers(#[trigger] p.segments[i], big, n);
    let s = p.segments[i];
    let j = choose|j: int| 0 <= j < s.args.len() && type_refers(#[trigger] s.args[j], big, n);
    lemma_type_refers_wider(s.args[j], small, big, n);
    assert(segment_refers(p.segments[i], small, n));
}

/// A name that is free in a pattern in a scope is free in it in every
/// smaller scope.
proof fn lemma_pat_refers_wider(p: PatV, small: Set<Seq<char>>, big: Set<Seq<char>>, n: Seq<char>)
    requires
        small.subset_of(big),
        pat_refers(p, big, n),
    ensures
        pat_refers(p, small, n),
    decreases p, 1nat,
{
    match p {
        PatV::Wild => {},
        PatV::Ident { name, by_ref, mutable, subpat } => {
            match subpat {
                Some(q) => {
                    lemma_pat_refers_wider(*q, small, big, n);
                },
                None => {},
            }
        },
        PatV::Lit(_) => {},
        PatV::Typed { pat, ty } => {
            if pat_refers(*pat, big, n) {
                lemma_pat_refers_wider(*pat, small, big, n);
            } else {
                lemma_type_refers_wider(ty, small, big, n);
            }
        },
        PatV::Compound { label, path, elems } => {
            if exists|i: int| 0 <= i < elems.len() && pat_refers(#[trigger] elems[i], big, n) {
                let i = choose|i: int|
                    0 <= i < elems.len() && pat_refers(#[trigger] elems[i], big, n);
                lemma_pat_refers_wider(elems[i], small, big, n);
            } else {
                match path {
                    Some(q) => {
                        if path_refers(q, big, n) {
                            lemma_path_refers_wider(q, small, big, n);
                        }
                    },
                    None => {},
                }
            }
        },
    }
}

/// A name that is free in an expression in a scope is free in it in every
/// smaller scope.
proof fn lemma_expr_refers_wider(
    e: ExprV,
    small: Set<Seq<char>>,
    big: Set<Seq<char>>,
    n: Seq<char>,
)
    requires
        small.subset_of(big),
        expr_refers(e, big, n),
    ensures
        expr_refers(e, small, n),
    decreases e, 1nat,
{
    match e {
        ExprV::Path(p) => {
            if path_refers(p, big, n) {
                lemma_path_refers_wider(p, small, big, n);
            }
        },
        ExprV::Lit(_) => {},
        ExprV::Call { func, args } => {
            if expr_refers(*func, big, n) {
                lemma_expr_refers_wider(*func, small, big, n);
            } else {
                let i = choose|i: int|
                    0 <= i < args.len() && expr_refers(#[trigger] args[i], big, n);
                lemma_expr_refers_wider(args[i], small, big, n);
            }
        },
        ExprV::Compound { label, types, operands } => {
            if exists|i: int| 0 <= i < types.len() && type_refers(#[trigger] types[i], big, n) {
                let i = choose|i: int|
                    0 <= i < types.len() && type_refers(#[trigger] types[i], big, n);
                lemma_type_refers_wider(types[i], small, big, n);
            } else {
                let i = choose|i: int|
                    0 <= i < operands.len() && expr_refers(#[trigger] operands[i], big, n);
                lemma_expr_refers_wider(operands[i], small, big, n);
            }
        },
        ExprV::Closure { params, body } => {
            if exists|i: int| 0 <= i < params.len() && pat_refers(#[trigger] params[i], big, n) {
                let i = choose|i: int|
                    0 <= i < params.len() && pat_refers(#[trigger] params[i], big, n);
                lemma_pat_refers_wider(params[i], small, big, n);
            } else {
                lemma_expr_refers_wider(
                    *body,
                    small.union(pats_binders(params)),
                    big.union(pats_binders(params)),
                    n,
                );
            }
        },
        ExprV::Block(stmts) => {
            lemma_stmts_refer_wider(stmts, small, big, n);
        },
        ExprV::If { cond, then_branch, else_branch } => {
            let in_else = match else_branch {
                Some(x) => expr_refers(*x, big, n),
                None => false,
            };
            if in_else {
                lemma_expr_refers_wider(*else_branch->0, small, big, n);
            } else {
                match *cond {
                    ExprV::Let { pat, scrutinee } => {
                        if expr_refers(*scrutinee, big, n) {
                            lemma_expr_refers_wider(*scrutinee, small, big, n);
                        } else if pat_refers(pat, big, n) {
                            lemma_pat_refers_wider(pat, small, big, n);
                        } else {
                            lemma_stmts_refer_wider(
                                then_branch,
                                small.union(pat_binders(pat)),
                                big.union(pat_binders(pat)),
                                n,
                            );
                        }
                    },
                    _ => {
                        if expr_refers(*cond, big, n) {
                            lemma_expr_refers_wider(*cond, small, big, n);
                        } else {
                            lemma_stmts_refer_wider(then_branch, small, big, n);
                        }
                    },
                }
            }
        },
        ExprV::Let { pat, scrutinee } => {
            if expr_refers(*scrutinee, big, n) {
                lemma_expr_refers_wider(*scrutinee, small, big, n);
            } else {
                lemma_pat_refers_wider(pat, small, big, n);
            }
        },
        ExprV::Match { scrutinee, arms } => {
            if expr_refers(*scrutinee, big, n) {
                lemma_expr_refers_wider(*scrutinee, small, big, n);
            } else {
                let i = choose|i: int| 0 <= i < arms.len() && arm_refers(#[trigger] arms[i], big, n);
                let a = arms[i];
                let inner_small = small.union(pat_binders(a.pat));
                let inner_big = big.union(pat_binders(a.pat));
                let in_guard = match a.guard {
                    Some(g) => expr_refers(g, inner_big, n),
                    None => false,
                };
                if pat_refers(a.pat, big, n) {
                    lemma_pat_refers_wider(a.pat, small, big, n);
                } else if in_guard {
                    lemma_expr_refers_wider(a.guard->0, inner_small, inner_big, n);
                } else {
                    lemma_expr_refers_wider(a.body, inner_small, inner_big, n);
                }
                assert(arm_refers(arms[i], small, n));
            }
        },
        ExprV::Macro { path, tokens } => {
            lemma_path_refers_wider(path, small, big, n);
        },
    }
}

/// A name that is free in a statement of a block in a scope is free in it in
/// every smaller scope.
proof fn lemma_stmts_refer_wider(
    stmts: Seq<StmtV>,
    small: Set<Seq<char>>,
    big: Set<Seq<char>>,
    n: Seq<char>,
)
    requires
        small.subset_of(big),
        stmts_refer(stmts, big, n),
    ensures
        stmts_refer(stmts, small, n),
    decreases stmts, 0nat,
{
    let i = choose|i: int|
        0 <= i < stmts.len() && stmt_refers(#[trigger] stmts[i], scope_before(stmts, i, big), n);
    let inner_small = scope_before(stmts, i, small);
    let inner_big = scope_before(stmts, i, big);
    assert(inner_small.subset_of(inner_big));
    match stmts[i] {
        StmtV::Let { pat, init } => {
            if pat_refers(pat, inner_big, n) {
                lemma_pat_refers_wider(pat, inner_small, inner_big, n);
            } else {
                lemma_expr_refers_wider(init->0, inner_small, inner_big, n);
            }
        },
        StmtV::Expr { expr, semi } => {
            lemma_expr_refers_wider(expr, inner_small, inner_big, n);
        },
        StmtV::Item(_) => {},
    }
    assert(stmt_refers(stmts[i], scope_before(stmts, i, small), n));
}

/// A walk changes no name that a pattern binds.
proof fn lemma_pat_subst_binders(p: PatV, bound: Set<Seq<char>>, policy: PolicyV, n: Seq<char>)
    ensures
        pat_binds(pat_subst(p, bound, policy), n) == pat_binds(p, n),
    decreases p,
{
    match p {
        PatV::Wild => {},
        PatV::Ident { name, by_ref, mutable, subpat } => {
            match subpat {
                Some(q) => {
                    lemma_pat_subst_binders(*q, bound, policy, n);
                },
                None => {},
            }
        },
        PatV::Lit(_) => {},
        PatV::Typed { pat, ty } => {
            lemma_pat_subst_binders(*pat, bound, policy, n);
        },
        PatV::Compound { label, path, elems } => {
            let after = pats_subst(elems, bound, policy);
            assert(pat_subst(p, bound, policy)->Compound_elems == after);
            assert forall|i: int| 0 <= i < elems.len() implies pat_binds(#[trigger] after[i], n)
                == pat_binds(elems[i], n) by {
                lemma_pat_subst_binders(elems[i], bound, policy, n);
            }
            if pat_binds(p, n) {
                let i = choose|i: int| 0 <= i < elems.len() && pat_binds(#[trigger] elems[i], n);
                assert(pat_binds(after[i], n));
                assert(pat_binds(pat_subst(p, bound, policy), n));
            }
            if pat_binds(pat_subst(p, bound, policy), n) {
                let i = choose|i: int| 0 <= i < after.len() && pat_binds(#[trigger] after[i], n);
                assert(pat_binds(elems[i], n));
                assert(pat_binds(p, n));
            }
        },
    }
}

/// A walk leaves the binders of a pattern as they are.
pub proof fn lemma_pat_binders_kept(p: PatV, bound: Set<Seq<char>>, policy: PolicyV)
    ensures
        pat_binders(pat_subst(p, bound, policy)) == pat_binders(p),
{
    assert forall|n: Seq<char>|
        pat_binders(pat_subst(p, bound, policy)).contains(n) == pat_binders(p).contains(n) by {
        lemma_pat_subst_binders(p, bound, policy, n);
    }
    assert(pat_binders(pat_subst(p, bound, policy)) =~= pat_binders(p));
}

/// A walk leaves the binders of a list of patterns as they are.
pub proof fn lemma_pats_binders_kept(ps: Seq<PatV>, bound: Set<Seq<char>>, policy: PolicyV)
    ensures
        pats_binders(pats_subst(ps, bound, policy)) == pats_binders(ps),
{
    let after = pats_subst(ps, bound, policy);
    assert forall|n: Seq<char>| pats_binders(after).contains(n) == pats_binders(ps).contains(
        n,
    ) by {
        assert forall|i: int| 0 <= i < ps.len() implies pat_binds(#[trigger] after[i], n)
            == pat_binds(ps[i], n) by {
            lemma_pat_subst_binders(ps[i], bound, policy, n);
        }
        if pats_binders(ps).contains(n) {
            let i = choose|i: int| 0 <= i < ps.len() && pat_binds(#[trigger] ps[i], n);
            assert(pat_binds(after[i], n));
        }
        if pats_binders(after).contains(n) {
            let i = choose|i: int| 0 <= i < after.len() && pat_binds(#[trigger] after[i], n);
            assert(pat_binds(ps[i], n));
        }
    }
    assert(pats_binders(after) =~= pats_binders(ps));
}

/// A walk leaves the scope of every statement of a block as it is.
pub proof fn lemma_stmts_scope_kept(
    stmts: Seq<StmtV>,
    bound: Set<Seq<char>>,
    policy: PolicyV,
    i: int,
    outer: Set<Seq<char>>,
)
    ensures
        scope_before(stmts_subst(stmts, bound, policy), i, outer) == scope_before(stmts, i, outer),
{
    let after = stmts_subst(stmts, bound, policy);
    assert forall|j: int| 0 <= j < stmts.len() implies #[trigger] stmt_binders(after[j])
        == stmt_binders(stmts[j]) by {
        match stmts[j] {
            StmtV::Let { pat, init } => {
                lemma_pat_binders_kept(pat, scope_before(stmts, j, bound), policy);
            },
            _ => {},
        }
    }
    let left = scope_before(after, i, outer);
    let right = scope_before(stmts, i, outer);
    assert forall|n: Seq<char>| left.contains(n) == right.contains(n) by {
        if left.contains(n) && !outer.contains(n) {
            let j = choose|j: int|
                0 <= j < i && j < after.len() && (#[trigger] stmt_binders(after[j])).contains(n);
            assert(stmt_binders(stmts[j]).contains(n));
        }
        if right.contains(n) && !outer.contains(n) {
            let j = choose|j: int|
                0 <= j < i && j < stmts.len() && (#[trigger] stmt_binders(stmts[j])).contains(n);
            assert(stmt_binders(after[j]).contains(n));
        }
    }
    assert(left =~= right);
}

/// Whether a second walk under `again` looks for what a first walk under
/// `policy` has replaced, while the replacement itself is free of that name
/// (and is no `let` condition, which would bind names of its own).
pub open spec fn settles(policy: PolicyV, again: PolicyV) -> bool {
    match policy {
        PolicyV::Keep => false,
        PolicyV::Names { table } => false,
        PolicyV::Expr { name, expr } => again is Expr && again->Expr_name == name && !(expr is Let)
            && !expr_refers(expr, Set::empty(), name),
        PolicyV::Type { name, ty } => again is Type && again->Type_name == name && !type_refers(
            ty,
            Set::empty(),
            name,
        ),
    }
}

/// A second walk for the same name leaves a type as the first walk left it.
proof fn lemma_type_settled(t: TypeV, bound: Set<Seq<char>>, policy: PolicyV, again: PolicyV)
    requires
        settles(policy, again),
    ensures
        type_subst(type_subst(t, bound, policy), bound, again) == type_subst(t, bound, policy),
    decreases t, 1nat,
{
    match type_verdict(policy, bound, t) {
        Some(r) => {
            let name = policy->Type_name;
            if type_refers(r, bound, name) {
                lemma_type_refers_wider(r, Set::empty(), bound, name);
            }
            lemma_type_untouched(r, bound, again);
        },
        None => {
            match t {
                TypeV::Path(p) => {
                    lemma_path_settled(p, bound, policy, again);
                },
                TypeV::Compound { label, args } => {
                    lemma_types_settled(args, bound, policy, again);
                },
                TypeV::Opaque(_) => {},
            }
        },
    }
}

/// A second walk for the same name leaves types as the first walk left them.
proof fn lemma_types_settled(ts: Seq<TypeV>, bound: Set<Seq<char>>, policy: PolicyV, again: PolicyV)
    requires
        settles(policy, again),
    ensures
        types_subst(types_subst(ts, bound, policy), bound, again) == types_subst(ts, bound, policy),
    decreases ts, 0nat,
{
    let once = types_subst(ts, bound, policy);
    assert forall|i: int| 0 <= i < ts.len() implies type_subst(once[i], bound, again)
        == once[i] by {
        lemma_type_settled(ts[i], bound, policy, again);
    }
    assert(types_subst(once, bound, again) =~= once);
}

/// A second walk for the same name leaves a path as the first walk left it,
/// and neither changes the name that the path stands for.
proof fn lemma_path_settled(p: PathV, bound: Set<Seq<char>>, policy: PolicyV, again: PolicyV)
    requires
        settles(policy, again),
    ensures
        path_subst(path_subst(p, bound, policy), bound, again) == path_subst(p, bound, policy),
        path_ident(path_subst(p, bound, policy)) == path_ident(p),
    decreases p, 1nat,
{
    let ss = p.segments;
    let once = segments_subst(ss, bound, policy);
    assert forall|i: int| 0 <= i < ss.len() implies segment_subst(once[i], bound, again)
        == once[i] by {
        lemma_types_settled(ss[i].args, bound, policy, again);
    }
    assert(segments_subst(once, bound, again) =~= once);
}

/// A second walk for the same name leaves a pattern as the first walk left
/// it.
proof fn lemma_pat_settled(p: PatV, bound: Set<Seq<char>>, policy: PolicyV, again: PolicyV)
    requires
        settles(policy, again),
    ensures
        pat_subst(pat_subst(p, bound, policy), bound, again) == pat_subst(p, bound, policy),
    decreases p, 1nat,
{
    match p {
        PatV::Wild => {},
        PatV::Ident { name, by_ref, mutable, subpat } => {
            match subpat {
                Some(q) => {
                    lemma_pat_settled(*q, bound, policy, again);
                },
                None => {},
            }
        },
        PatV::Lit(_) => {},
        PatV::Typed { pat, ty } => {
            lemma_pat_settled(*pat, bound, policy, again);
            lemma_type_settled(ty, bound, policy, again);
        },
        PatV::Compound { label, path, elems } => {
            match path {
                Some(q) => {
                    lemma_path_settled(q, bound, policy, again);
                },
                None => {},
            }
            lemma_pats_settled(elems, bound, policy, again);
        },
    }
}

/// A second walk for the same name leaves patterns as the first walk left
/// them.
proof fn lemma_pats_settled(ps: Seq<PatV>, bound: Set<Seq<char>>, policy: PolicyV, again: PolicyV)
    requires
        settles(policy, again),
    ensures
        pats_subst(pats_subst(ps, bound, policy), bound, again) == pats_subst(ps, bound, policy),
    decreases ps, 0nat,
{
    let once = pats_subst(ps, bound, policy);
    assert forall|i: int| 0 <= i < ps.len() implies pat_subst(once[i], bound, again)
        == once[i] by {
        lemma_pat_settled(ps[i], bound, policy, again);
    }
    assert(pats_subst(once, bound, again) =~= once);
}

/// A second walk for the same name leaves an expression as the first walk
/// left it.
proof fn lemma_expr_settled(e: ExprV, bound: Set<Seq<char>>, policy: PolicyV, again: PolicyV)
    requires
        settles(policy, again),
    ensures
        expr_subst(expr_subst(e, bound, policy), bound, again) == expr_subst(e, bound, policy),
    decreases e, 1nat,
{
    match expr_verdict(policy, bound, e) {
        Some(r) => {
            let name = policy->Expr_name;
            if expr_refers(r, bound, name) {
                lemma_expr_refers_wider(r, Set::empty(), bound, name);
            }
            lemma_expr_untouched(r, bound, again);
        },
        None => {
            match e {
                ExprV::Path(p) => {
                    lemma_path_settled(p, bound, policy, again);
                },
                ExprV::Lit(_) => {},
                ExprV::Call { func, args } => {
                    lemma_expr_settled(*func, bound, policy, again);
                    lemma_exprs_settled(args, bound, policy, again);
                },
                ExprV::Compound { label, types, operands } => {
                    lemma_types_settled(types, bound, policy, again);
                    lemma_exprs_settled(operands, bound, policy, again);
                },
                ExprV::Closure { params, body } => {
                    lemma_pats_settled(params, bound, policy, again);
                    lemma_pats_binders_kept(params, bound, policy);
                    lemma_expr_settled(*body, bound.union(pats_binders(params)), policy, again);
                },
                ExprV::Block(stmts) => {
                    lemma_stmts_settled(stmts, bound, policy, again);
                },
                ExprV::If { cond, then_branch, else_branch } => {
                    lemma_expr_settled(*cond, bound, policy, again);
                    match *cond {
                        ExprV::Let { pat, scrutinee } => {
                            lemma_pat_binders_kept(pat, bound, policy);
                            lemma_stmts_settled(
                                then_branch,
                                bound.union(pat_binders(pat)),
                                policy,
                                again,
                            );
                        },
                        _ => {
                            lemma_subst_keeps_let(*cond, bound, policy);
                            lemma_stmts_settled(then_branch, bound, policy, again);
                        },
                    }
                    match else_branch {
                        Some(x) => {
                            lemma_expr_settled(*x, bound, policy, again);
                        },
                        None => {},
                    }
                },
                ExprV::Let { pat, scrutinee } => {
                    lemma_pat_settled(pat, bound, policy, again);
                    lemma_expr_settled(*scrutinee, bound, policy, again);
                },
                ExprV::Match { scrutinee, arms } => {
                    lemma_expr_settled(*scrutinee, bound, policy, again);
                    let once = arms_subst(arms, bound, policy);
                    assert forall|i: int| 0 <= i < arms.len() implies arm_subst(
                        once[i],
                        bound,
                        again,
                    ) == once[i] by {
                        let a = arms[i];
                        let inner = bound.union(pat_binders(a.pat));
                        lemma_pat_settled(a.pat, bound, policy, again);
                        lemma_pat_binders_kept(a.pat, bound, policy);
                        match a.guard {
                            Some(g) => {
                                lemma_expr_settled(g, inner, policy, again);
                            },
                            None => {},
                        }
                        lemma_expr_settled(a.body, inner, policy, again);
                    }
                    assert(arms_subst(once, bound, again) =~= once);
                },
                ExprV::Macro { path, tokens } => {
                    lemma_path_settled(path, bound, policy, again);
                },
            }
        },
    }
}

/// A walk puts a `let` condition only where one was, unless the replacement
/// itself is one.
proof fn lemma_subst_keeps_let(e: ExprV, bound: Set<Seq<char>>, policy: PolicyV)
    requires
        !(e is Let),
        policy is Expr ==> !(policy->Expr_expr is Let),
        !(policy is Names),
    ensures
        !(expr_subst(e, bound, policy) is Let),
{
}

/// A second walk for the same name leaves expressions as the first walk left
/// them.
proof fn lemma_exprs_settled(es: Seq<ExprV>, bound: Set<Seq<char>>, policy: PolicyV, again: PolicyV)
    requires
        settles(policy, again),
    ensures
        exprs_subst(exprs_subst(es, bound, policy), bound, again) == exprs_subst(es, bound, policy),
    decreases es, 0nat,
{
    let once = exprs_subst(es, bound, policy);
    assert forall|i: int| 0 <= i < es.len() implies expr_subst(once[i], bound, again)
        == once[i] by {
        lemma_expr_settled(es[i], bound, policy, again);
    }
    assert(exprs_subst(once, bound, again) =~= once);
}

/// A second walk for the same name leaves the statements of a block as the
/// first walk left them.
proof fn lemma_stmts_settled(
    stmts: Seq<StmtV>,
    bound: Set<Seq<char>>,
    policy: PolicyV,
    again: PolicyV,
)
    requires
        settles(policy, again),
    ensures
        stmts_subst(stmts_subst(stmts, bound, policy), bound, again) == stmts_subst(
            stmts,
            bound,
            policy,
        ),
    decreases stmts, 0nat,
{
    let once = stmts_subst(stmts, bound, policy);
    assert forall|i: int| 0 <= i < stmts.len() implies stmt_subst(
        once[i],
        scope_before(once, i, bound),
        again,
    ) == once[i] by {
        lemma_stmts_scope_kept(stmts, bound, policy, i, bound);
        let scope = scope_before(stmts, i, bound);
        match stmts[i] {
            StmtV::Let { pat, init } => {
                lemma_pat_settled(pat, scope, policy, again);
                match init {
                    Some(x) => {
                        lemma_expr_settled(x, scope, policy, again);
                    },
                    None => {},
                }
            },
            StmtV::Expr { expr, semi } => {
                lemma_expr_settled(expr, scope, policy, again);
            },
            StmtV::Item(_) => {},
        }
    }
    assert(stmts_subst(once, bound, again) =~= once);
}

/// A free occurrence of an input is a free name: where the input `n` occurs
/// free in an expression, the expression refers to `n` from outside.
pub proof fn lemma_expr_occurs_refers(e: ExprV, bound: Set<Seq<char>>, n: Seq<char>)
    requires
        expr_occurs(e, bound, n),
    ensures
        expr_refers(e, bound, n),
    decreases e,
{
    if names_input(e, n) && !bound.contains(n) {
        match e {
            ExprV::Call { func, args } => {
                assert(expr_ident(*func) == Some(n));
                assert(expr_refers(*func, bound, n));
            },
            _ => {},
        }
    } else {
        match e {
            ExprV::Path(_) => {},
            ExprV::Lit(_) => {},
            ExprV::Call { func, args } => {
                if expr_occurs(*func, bound, n) {
                    lemma_expr_occurs_refers(*func, bound, n);
                } else {
                    let i = choose|i: int|
                        0 <= i < args.len() && expr_occurs(#[trigger] args[i], bound, n);
                    lemma_expr_occurs_refers(args[i], bound, n);
                }
            },
            ExprV::Compound { label, types, operands } => {
                let i = choose|i: int|
                    0 <= i < operands.len() && expr_occurs(#[trigger] operands[i], bound, n);
                lemma_expr_occurs_refers(operands[i], bound, n);
            },
            ExprV::Closure { params, body } => {
                lemma_expr_occurs_refers(*body, bound.union(pats_binders(params)), n);
            },
            ExprV::Block(stmts) => {
                lemma_stmts_occur_refer(stmts, bound, n);
            },
            ExprV::If { cond, then_branch, else_branch } => {
                if expr_occurs(*cond, bound, n) {
                    lemma_expr_occurs_refers(*cond, bound, n);
                    match *cond {
                        ExprV::Let { pat, scrutinee } => {
                            assert(!names_input(*cond, n));
                            lemma_expr_occurs_refers(*scrutinee, bound, n);
                        },
                        _ => {},
                    }
                } else {
                    let inner = match *cond {
                        ExprV::Let { pat, scrutinee } => bound.union(pat_binders(pat)),
                        _ => bound,
                    };
                    if stmts_occur(then_branch, inner, n) {
                        lemma_stmts_occur_refer(then_branch, inner, n);
                    } else {
                        match else_branch {
                            Some(x) => {
                                lemma_expr_occurs_refers(*x, bound, n);
                            },
                            None => {},
                        }
                    }
                }
            },
            ExprV::Let { pat, scrutinee } => {
                lemma_expr_occurs_refers(*scrutinee, bound, n);
            },
            ExprV::Match { scrutinee, arms } => {
                if expr_occurs(*scrutinee, bound, n) {
                    lemma_expr_occurs_refers(*scrutinee, bound, n);
                } else {
                    let i = choose|i: int|
                        0 <= i < arms.len() && arm_occurs(#[trigger] arms[i], bound, n);
                    let a = arms[i];
                    let inner = bound.union(pat_binders(a.pat));
                    if expr_occurs(a.body, inner, n) {
                        lemma_expr_occurs_refers(a.body, inner, n);
                    } else {
                        match a.guard {
                            Some(g) => {
                                lemma_expr_occurs_refers(g, inner, n);
                            },
                            None => {},
                        }
                    }
                    assert(arm_refers(arms[i], bound, n));
                }
            },
            ExprV::Macro { path, tokens } => {},
        }
    }
}

/// A free occurrence of an input in a statement of a block is a free name of
/// the block.
pub proof fn lemma_stmts_occur_refer(stmts: Seq<StmtV>, bound: Set<Seq<char>>, n: Seq<char>)
    requires
        stmts_occur(stmts, bound, n),
    ensures
        stmts_refer(stmts, bound, n),
    decreases stmts,
{
    let i = choose|i: int|
        0 <= i < stmts.len() && stmt_occurs(#[trigger] stmts[i], scope_before(stmts, i, bound), n);
    let scope = scope_before(stmts, i, bound);
    match stmts[i] {
        StmtV::Let { pat, init } => {
            match init {
                Some(e) => {
                    lemma_expr_occurs_refers(e, scope, n);
                },
                None => {},
            }
        },
        StmtV::Expr { expr, semi } => {
            lemma_expr_occurs_refers(expr, scope, n);
        },
        StmtV::Item(_) => {},
    }
    assert(stmt_refers(stmts[i], scope, n));
}

/// A walk for the input `n` that puts in an expression free of `n` leaves no
/// expression that stands for `n` by its bare name.
proof fn lemma_subst_ident(e: ExprV, bound: Set<Seq<char>>, n: Seq<char>, r: ExprV)
    requires
        !bound.contains(n),
        !expr_refers(r, Set::empty(), n),
    ensures
        expr_ident(expr_subst(e, bound, PolicyV::Expr { name: n, expr: r })) != Some(n),
{
    let policy = PolicyV::Expr { name: n, expr: r };
    match expr_verdict(policy, bound, e) {
        Some(x) => {
            assert(x == r);
        },
        None => {
            match e {
                ExprV::Path(p) => {
                    assert(path_ident(p) != Some(n));
                    assert(path_subst(p, bound, policy).segments.len() == p.segments.len());
                    if p.segments.len() == 1 {
                        assert(path_subst(p, bound, policy).segments[0].ident == p.segments[0].ident);
                    }
                },
                _ => {},
            }
        },
    }
}

/// A walk for the input `n` that puts in an expression free of `n`, which is
/// no `let` condition, leaves no free occurrence of `n`.
proof fn lemma_expr_cleared(e: ExprV, bound: Set<Seq<char>>, n: Seq<char>, r: ExprV)
    requires
        !(r is Let),
        !expr_refers(r, Set::empty(), n),
    ensures
        !expr_occurs(expr_subst(e, bound, PolicyV::Expr { name: n, expr: r }), bound, n),
    decreases e, 1nat,
{
    let policy = PolicyV::Expr { name: n, expr: r };
    let after = expr_subst(e, bound, policy);
    match expr_verdict(policy, bound, e) {
        Some(x) => {
            if expr_occurs(r, bound, n) {
                lemma_expr_occurs_refers(r, bound, n);
                lemma_expr_refers_wider(r, Set::empty(), bound, n);
            }
        },
        None => {
            match e {
                ExprV::Path(p) => {
                    if !bound.contains(n) {
                        lemma_subst_ident(e, bound, n, r);
                    }
                },
                ExprV::Lit(_) => {},
                ExprV::Call { func, args } => {
                    if !bound.contains(n) {
                        lemma_subst_ident(*func, bound, n, r);
                    }
                    assert(!(names_input(after, n) && !bound.contains(n)));
                    lemma_expr_cleared(*func, bound, n, r);
                    lemma_exprs_cleared(args, bound, n, r);
                    let once = exprs_subst(args, bound, policy);
                    assert(after->Call_args == once);
                    assert forall|i: int| 0 <= i < once.len() implies !expr_occurs(
                        #[trigger] once[i],
                        bound,
                        n,
                    ) by {}
                },
                ExprV::Compound { label, types, operands } => {
                    lemma_exprs_cleared(operands, bound, n, r);
                    let once = exprs_subst(operands, bound, policy);
                    assert(after->Compound_operands == once);
                    assert forall|i: int| 0 <= i < once.len() implies !expr_occurs(
                        #[trigger] once[i],
                        bound,
                        n,
                    ) by {}
                },
                ExprV::Closure { params, body } => {
                    lemma_pats_binders_kept(params, bound, policy);
                    lemma_expr_cleared(*body, bound.union(pats_binders(params)), n, r);
                },
                ExprV::Block(stmts) => {
                    lemma_stmts_cleared(stmts, bound, n, r);
                },
                ExprV::If { cond, then_branch, else_branch } => {
                    lemma_expr_cleared(*cond, bound, n, r);
                    match *cond {
                        ExprV::Let { pat, scrutinee } => {
                            lemma_pat_binders_kept(pat, bound, policy);
                            lemma_stmts_cleared(then_branch, bound.union(pat_binders(pat)), n, r);
                        },
                        _ => {
                            lemma_subst_keeps_let(*cond, bound, policy);
                            lemma_stmts_cleared(then_branch, bound, n, r);
                        },
                    }
                    match else_branch {
                        Some(x) => {
                            lemma_expr_cleared(*x, bound, n, r);
                        },
                        None => {},
                    }
                },
                ExprV::Let { pat, scrutinee } => {
                    lemma_expr_cleared(*scrutinee, bound, n, r);
                },
                ExprV::Match { scrutinee, arms } => {
                    lemma_expr_cleared(*scrutinee, bound, n, r);
                    let once = arms_subst(arms, bound, policy);
                    assert forall|i: int| 0 <= i < once.len() implies !arm_occurs(
                        #[trigger] once[i],
                        bound,
                        n,
                    ) by {
                        let a = arms[i];
                        let inner = bound.union(pat_binders(a.pat));
                        lemma_pat_binders_kept(a.pat, bound, policy);
                        match a.guard {
                            Some(g) => {
                                lemma_expr_cleared(g, inner, n, r);
                            },
                            None => {},
                        }
                        lemma_expr_cleared(a.body, inner, n, r);
                    }
                },
                ExprV::Macro { path, tokens } => {},
            }
        },
    }
}

/// A walk for the input `n` leaves no free occurrence of `n` in any of the
/// expressions.
proof fn lemma_exprs_cleared(es: Seq<ExprV>, bound: Set<Seq<char>>, n: Seq<char>, r: ExprV)
    requires
        !(r is Let),
        !expr_refers(r, Set::empty(), n),
    ensures
        forall|i: int|
            0 <= i < es.len() ==> !expr_occurs(
                #[trigger] exprs_subst(es, bound, PolicyV::Expr { name: n, expr: r })[i],
                bound,
                n,
            ),
    decreases es, 0nat,
{
    let policy = PolicyV::Expr { name: n, expr: r };
    assert forall|i: int| 0 <= i < es.len() implies !expr_occurs(
        #[trigger] exprs_subst(es, bound, policy)[i],
        bound,
        n,
    ) by {
        lemma_expr_cleared(es[i], bound, n, r);
    }
}

/// A walk for the input `n` leaves no free occurrence of `n` in the
/// statements of a block.
proof fn lemma_stmts_cleared(stmts: Seq<StmtV>, bound: Set<Seq<char>>, n: Seq<char>, r: ExprV)
    requires
        !(r is Let),
        !expr_refers(r, Set::empty(), n),
    ensures
        !stmts_occur(stmts_subst(stmts, bound, PolicyV::Expr { name: n, expr: r }), bound, n),
    decreases stmts, 0nat,
{
    let policy = PolicyV::Expr { name: n, expr: r };
    let once = stmts_subst(stmts, bound, policy);
    assert forall|i: int| 0 <= i < once.len() implies !stmt_occurs(
        #[trigger] once[i],
        scope_before(once, i, bound),
        n,
    ) by {
        lemma_stmts_scope_kept(stmts, bound, policy, i, bound);
        let scope = scope_before(stmts, i, bound);
        match stmts[i] {
            StmtV::Let { pat, init } => {
                match init {
                    Some(x) => {
                        lemma_expr_cleared(x, scope, n, r);
                    },
                    None => {},
                }
            },
            StmtV::Expr { expr, semi } => {
                lemma_expr_cleared(expr, scope, n, r);
            },
            StmtV::Item(_) => {},
        }
    }
}

/// Hygiene, as one statement: a walk that puts `r` in place of the input `n`
/// replaces every free occurrence of `n`, and none that a binder shadows.
/// Where `n` is bound around the expression, the expression stays as it is;
/// and where `r` is itself free of `n` and is no `let` condition, no free
/// occurrence of `n` is left after the walk, whether as the bare name or by
/// position.
pub proof fn law_every_free_occurrence_is_replaced(
    e: ExprV,
    bound: Set<Seq<char>>,
    n: Seq<char>,
    r: ExprV,
)
    requires
        !(r is Let),
        !expr_refers(r, Set::empty(), n),
    ensures
        !expr_occurs(expr_subst(e, bound, PolicyV::Expr { name: n, expr: r }), bound, n),
        bound.contains(n) ==> expr_subst(e, bound, PolicyV::Expr { name: n, expr: r }) == e,
{
    lemma_expr_cleared(e, bound, n, r);
    if bound.contains(n) {
        lemma_expr_untouched(e, bound, PolicyV::Expr { name: n, expr: r });
    }
}

/// Hygiene, inside a binder: where the name that a policy looks for is bound
/// by a binder around an expression, the walk leaves the expression as it is.
pub proof fn law_shadowed_name_is_kept(e: ExprV, bound: Set<Seq<char>>, policy: PolicyV)
    requires
        policy_name(policy).is_some(),
        bound.contains(policy_name(policy).unwrap()),
    ensures
        expr_subst(e, bound, policy) == e,
{
    lemma_expr_untouched(e, bound, policy);
}

/// Hygiene, inside a binder, for types: where the name that a policy looks
/// for is bound around a type, the walk leaves the type as it is.
pub proof fn law_shadowed_name_is_kept_in_type(t: TypeV, bound: Set<Seq<char>>, policy: PolicyV)
    requires
        policy_name(policy).is_some(),
        bound.contains(policy_name(policy).unwrap()),
    ensures
        type_subst(t, bound, policy) == t,
{
    lemma_type_untouched(t, bound, policy);
}

/// A closure whose parameters bind the name shadows it: the walk keeps the
/// body, whatever the scope around the closure.
pub proof fn law_closure_shadows(
    params: Seq<PatV>,
    body: ExprV,
    bound: Set<Seq<char>>,
    policy: PolicyV,
)
    requires
        policy_name(policy).is_some(),
        pats_binders(params).contains(policy_name(policy).unwrap()),
    ensures
        expr_subst(ExprV::Closure { params, body: Box::new(body) }, bound, policy)
            == (ExprV::Closure {
            params: pats_subst(params, bound, policy),
            body: Box::new(body),
        }),
{
    lemma_expr_untouched(body, bound.union(pats_binders(params)), policy);
}

/// An arm whose pattern binds the name shadows it in its guard and its body.
pub proof fn law_arm_shadows(arm: ArmV, bound: Set<Seq<char>>, policy: PolicyV)
    requires
        policy_name(policy).is_some(),
        pat_binds(arm.pat, policy_name(policy).unwrap()),
    ensures
        arm_subst(arm, bound, policy) == (ArmV {
            pat: pat_subst(arm.pat, bound, policy),
            guard: arm.guard,
            body: arm.body,
        }),
{
    let inner = bound.union(pat_binders(arm.pat));
    lemma_expr_untouched(arm.body, inner, policy);
    match arm.guard {
        Some(g) => {
            lemma_expr_untouched(g, inner, policy);
        },
        None => {},
    }
}

/// An `if let` whose pattern binds the name shadows it in the `then` branch
/// only: the scrutinee and the `else` branch are walked in the scope around.
pub proof fn law_if_let_shadows(
    pat: PatV,
    scrutinee: ExprV,
    then_branch: Seq<StmtV>,
    else_branch: ExprV,
    bound: Set<Seq<char>>,
    policy: PolicyV,
)
    requires
        policy_name(policy).is_some(),
        pat_binds(pat, policy_name(policy).unwrap()),
    ensures
        expr_subst(
            ExprV::If {
                cond: Box::new(ExprV::Let { pat, scrutinee: Box::new(scrutinee) }),
                then_branch,
                else_branch: Some(Box::new(else_branch)),
            },
            bound,
            policy,
        ) == (ExprV::If {
            cond: Box::new(
                ExprV::Let {
                    pat: pat_subst(pat, bound, policy),
                    scrutinee: Box::new(expr_subst(scrutinee, bound, policy)),
                },
            ),
            then_branch,
            else_branch: Some(Box::new(expr_subst(else_branch, bound, policy))),
        }),
{
    lemma_stmts_untouched(then_branch, bound.union(pat_binders(pat)), policy);
    let cond = ExprV::Let { pat, scrutinee: Box::new(scrutinee) };
    assert(expr_subst(cond, bound, policy) == ExprV::Let {
        pat: pat_subst(pat, bound, policy),
        scrutinee: Box::new(expr_subst(scrutinee, bound, policy)),
    });
}

/// A `let` statement whose pattern binds the name shadows it in every
/// statement after it in the block, and in none before it.
pub proof fn law_let_shadows(
    stmts: Seq<StmtV>,
    at: int,
    later: int,
    bound: Set<Seq<char>>,
    policy: PolicyV,
)
    requires
        policy_name(policy).is_some(),
        0 <= at < later < stmts.len(),
        stmt_binders(stmts[at]).contains(policy_name(policy).unwrap()),
    ensures
        stmts_subst(stmts, bound, policy)[later] == stmts[later],
        stmts_subst(stmts, bound, policy)[at] == stmt_subst(
            stmts[at],
            scope_before(stmts, at, bound),
            policy,
        ),
{
    let scope = scope_before(stmts, later, bound);
    assert(scope.contains(policy_name(policy).unwrap()));
    match stmts[later] {
        StmtV::Let { pat, init } => {
            lemma_pat_untouched(pat, scope, policy);
            match init {
                Some(x) => {
                    lemma_expr_untouched(x, scope, policy);
                },
                None => {},
            }
        },
        StmtV::Expr { expr, semi } => {
            lemma_expr_untouched(expr, scope, policy);
        },
        StmtV::Item(_) => {},
    }
}

/// Hygiene, outside every binder: a free occurrence of the name is replaced.
pub proof fn law_free_name_is_replaced(
    p: PathV,
    bound: Set<Seq<char>>,
    name: Seq<char>,
    value: ExprV,
)
    requires
        path_ident(p) == Some(name),
        !bound.contains(name),
    ensures
        expr_subst(ExprV::Path(p), bound, PolicyV::Expr { name, expr: value }) == value,
{
}

/// Hygiene, outside every binder, for types: a free occurrence of the type
/// name is replaced.
pub proof fn law_free_type_name_is_replaced(
    p: PathV,
    bound: Set<Seq<char>>,
    name: Seq<char>,
    value: TypeV,
)
    requires
        path_ident(p) == Some(name),
        !bound.contains(name),
    ensures
        type_subst(TypeV::Path(p), bound, PolicyV::Type { name, ty: value }) == value,
{
}

/// Every free occurrence is replaced: once a walk has put in a replacement
/// that is itself free of the name, a second walk for the same name finds
/// nothing left to replace.
pub proof fn law_free_occurrences_all_replaced(
    e: ExprV,
    bound: Set<Seq<char>>,
    policy: PolicyV,
    again: PolicyV,
)
    requires
        settles(policy, again),
    ensures
        expr_subst(expr_subst(e, bound, policy), bound, again) == expr_subst(e, bound, policy),
{
    lemma_expr_settled(e, bound, policy, again);
}

/// Every free occurrence of a type name is replaced, in a type.
pub proof fn law_free_occurrences_all_replaced_in_type(
    t: TypeV,
    bound: Set<Seq<char>>,
    policy: PolicyV,
    again: PolicyV,
)
    requires
        settles(policy, again),
    ensures
        type_subst(type_subst(t, bound, policy), bound, again) == type_subst(t, bound, policy),
{
    lemma_type_settled(t, bound, policy, again);
}

/// Substituting a name that does not occur free changes nothing.
pub proof fn law_no_free_occurrence_no_change(e: ExprV, bound: Set<Seq<char>>, policy: PolicyV)
    requires
        policy_name(policy).is_some(),
        !expr_refers(e, bound, policy_name(policy).unwrap()),
    ensures
        expr_subst(e, bound, policy) == e,
{
    lemma_expr_untouched(e, bound, policy);
}

/// Substituting a name that does not occur free in a type changes nothing.
pub proof fn law_no_free_occurrence_no_change_in_type(
    t: TypeV,
    bound: Set<Seq<char>>,
    policy: PolicyV,
)
    requires
        policy_name(policy).is_some(),
        !type_refers(t, bound, policy_name(policy).unwrap()),
    ensures
        type_subst(t, bound, policy) == t,
{
    lemma_type_untouched(t, bound, policy);
}

/// The policy that changes nothing changes nothing.
pub proof fn law_keep_changes_nothing(e: ExprV, bound: Set<Seq<char>>)
    ensures
        expr_subst(e, bound, PolicyV::Keep) == e,
{
    lemma_expr_untouched(e, bound, PolicyV::Keep);
}

/// A name that is free in a scope is free in every smaller scope.
pub proof fn law_free_in_smaller_scope(
    e: ExprV,
    small: Set<Seq<char>>,
    big: Set<Seq<char>>,
    n: Seq<char>,
)
    requires
        small.subset_of(big),
        expr_refers(e, big, n),
    ensures
        expr_refers(e, small, n),
{
    lemma_expr_refers_wider(e, small, big, n);
}

/// A predicate whose parameters include the name shadows it in the type it
/// bounds and in the bounds.
pub proof fn law_generic_param_shadows(p: WherePredicateV, bound: Set<Seq<char>>, policy: PolicyV)
    requires
        policy_name(policy).is_some(),
        params_names(p.params, p.params.len() as int).contains(policy_name(policy).unwrap()),
    ensures
        predicate_subst(p, bound, policy).bounded == p.bounded,
        predicate_subst(p, bound, policy).bounds == p.bounds,
{
    let inner = bound.union(params_names(p.params, p.params.len() as int));
    lemma_type_untouched(p.bounded, inner, policy);
    lemma_types_untouched(p.bounds, inner, policy);
}

} // verus!
