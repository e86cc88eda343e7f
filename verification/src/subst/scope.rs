//! Scoping and substitution, stated over the views of the syntax.
//!
//! A walk carries the set of names bound by the binders around the current
//! node. A binder's names are in scope in the part it governs and nowhere
//! else: a closure's parameters in its body, an arm's pattern in its guard and
//! body, the pattern of an `if let` in the `then` branch, the pattern of a
//! `let` statement in the statements after it, a generic parameter in the
//! parameters and the predicate after it. Type annotations and constructor
//! paths inside a pattern belong to the scope around the binder.

use crate::subst::literal::literal_index;
use crate::syntax::{
    ArmV, ExprV, GenericParamV, PatV, PathV, SegmentV, StmtV, TypeV, WhereClauseV,
    WherePredicateV,
};
use vstd::prelude::*;

verus! {

/// The name a path stands for when it has exactly one segment.
pub open spec fn path_ident(p: PathV) -> Option<Seq<char>> {
    if p.segments.len() == 1 {
        Some(p.segments[0].ident)
    } else {
        None
    }
}

/// The name an expression stands for when it is a path of one segment.
pub open spec fn expr_ident(e: ExprV) -> Option<Seq<char>> {
    match e {
        ExprV::Path(p) => path_ident(p),
        _ => None,
    }
}

/// The name a type stands for when it is a path of one segment.
pub open spec fn type_ident(t: TypeV) -> Option<Seq<char>> {
    match t {
        TypeV::Path(p) => path_ident(p),
        _ => None,
    }
}

/// The instance that `e` asks for when it refers to the input `name` by
/// position: `name()` asks for instance 0, `name(k)` for instance `k`, where
/// `k` is an integer literal whose value fits 32 bits.
pub open spec fn input_reference(e: ExprV, name: Seq<char>) -> Option<nat> {
    match e {
        ExprV::Call { func, args } => if expr_ident(*func) == Some(name) {
            if args.len() == 0 {
                Some(0nat)
            } else if args.len() == 1 {
                match args[0] {
                    ExprV::Lit(text) => literal_index(text),
                    _ => None,
                }
            } else {
                None
            }
        } else {
            None
        },
        _ => None,
    }
}

/// Whether `e` stands for the input `name`: as the bare name, or by position.
pub open spec fn names_input(e: ExprV, name: Seq<char>) -> bool {
    expr_ident(e) == Some(name) || input_reference(e, name).is_some()
}

/// Whether pattern `p` binds the name `n`.
pub open spec fn pat_binds(p: PatV, n: Seq<char>) -> bool
    decreases p,
{
    match p {
        PatV::Wild => false,
        PatV::Ident { name, by_ref, mutable, subpat } => name == n || match subpat {
            Some(q) => pat_binds(*q, n),
            None => false,
        },
        PatV::Lit(_) => false,
        PatV::Typed { pat, ty } => pat_binds(*pat, n),
        PatV::Compound { label, path, elems } => exists|i: int|
            0 <= i < elems.len() && pat_binds(#[trigger] elems[i], n),
    }
}

/// The names that pattern `p` binds.
pub open spec fn pat_binders(p: PatV) -> Set<Seq<char>> {
    Set::new(|n: Seq<char>| pat_binds(p, n))
}

/// The names that the patterns `ps` bind together.
pub open spec fn pats_binders(ps: Seq<PatV>) -> Set<Seq<char>> {
    Set::new(|n: Seq<char>| exists|i: int| 0 <= i < ps.len() && pat_binds(#[trigger] ps[i], n))
}

/// The names that a statement brings into scope for the statements after it.
pub open spec fn stmt_binders(s: StmtV) -> Set<Seq<char>> {
    match s {
        StmtV::Let { pat, init } => pat_binders(pat),
        _ => Set::empty(),
    }
}

/// The scope of statement `i` of a block entered with `bound`: `bound` and
/// what the `let` statements before `i` bind.
pub open spec fn scope_before(stmts: Seq<StmtV>, i: int, bound: Set<Seq<char>>) -> Set<Seq<char>> {
    bound.union(
        Set::new(
            |n: Seq<char>|
                exists|j: int|
                    0 <= j < i && j < stmts.len() && (#[trigger] stmt_binders(stmts[j])).contains(n),
        ),
    )
}

/// Entering the next statement extends the scope by what the current one binds.
pub proof fn lemma_scope_before_next(stmts: Seq<StmtV>, i: int, bound: Set<Seq<char>>)
    requires
        0 <= i < stmts.len(),
    ensures
        scope_before(stmts, i + 1, bound) == scope_before(stmts, i, bound).union(
            stmt_binders(stmts[i]),
        ),
        scope_before(stmts, 0, bound) == bound,
{
    let next = scope_before(stmts, i + 1, bound);
    let here = scope_before(stmts, i, bound).union(stmt_binders(stmts[i]));
    assert forall|n: Seq<char>| next.contains(n) == here.contains(n) by {
        if next.contains(n) && !bound.contains(n) {
            let j = choose|j: int|
                0 <= j < i + 1 && j < stmts.len() && (#[trigger] stmt_binders(stmts[j])).contains(n);
            if j < i {
                assert(scope_before(stmts, i, bound).contains(n));
            }
        }
        if here.contains(n) && !bound.contains(n) {
            if stmt_binders(stmts[i]).contains(n) {
                assert(next.contains(n));
            } else {
                let j = choose|j: int|
                    0 <= j < i && j < stmts.len() && (#[trigger] stmt_binders(stmts[j])).contains(n);
                assert(next.contains(n));
            }
        }
    }
    assert(next =~= here);
    assert(scope_before(stmts, 0, bound) =~= bound);
}

/// Whether `n` is referred to by a name that may or may not be in scope.
pub open spec fn ident_refers(id: Option<Seq<char>>, bound: Set<Seq<char>>, n: Seq<char>) -> bool {
    id == Some(n) && !bound.contains(n)
}

/// Whether type `t`, met in scope `bound`, refers to `n` from outside.
pub open spec fn type_refers(t: TypeV, bound: Set<Seq<char>>, n: Seq<char>) -> bool
    decreases t,
{
    match t {
        TypeV::Path(p) => ident_refers(path_ident(p), bound, n) || path_refers(p, bound, n),
        TypeV::Compound { label, args } => exists|i: int|
            0 <= i < args.len() && type_refers(#[trigger] args[i], bound, n),
        TypeV::Opaque(_) => false,
    }
}

/// Whether a generic argument of segment `s` refers to `n` from outside.
pub open spec fn segment_refers(s: SegmentV, bound: Set<Seq<char>>, n: Seq<char>) -> bool
    decreases s,
{
    exists|i: int| 0 <= i < s.args.len() && type_refers(#[trigger] s.args[i], bound, n)
}

/// Whether a generic argument of path `p` refers to `n` from outside.
pub open spec fn path_refers(p: PathV, bound: Set<Seq<char>>, n: Seq<char>) -> bool
    decreases p,
{
    exists|i: int| 0 <= i < p.segments.len() && segment_refers(#[trigger] p.segments[i], bound, n)
}

/// Whether an annotation or a constructor path of pattern `p` refers to `n`.
pub open spec fn pat_refers(p: PatV, bound: Set<Seq<char>>, n: Seq<char>) -> bool
    decreases p,
{
    match p {
        PatV::Wild => false,
        PatV::Ident { name, by_ref, mutable, subpat } => match subpat {
            Some(q) => pat_refers(*q, bound, n),
            None => false,
        },
        PatV::Lit(_) => false,
        PatV::Typed { pat, ty } => pat_refers(*pat, bound, n) || type_refers(ty, bound, n),
        PatV::Compound { label, path, elems } => (match path {
            Some(q) => ident_refers(path_ident(q), bound, n) || path_refers(q, bound, n),
            None => false,
        }) || exists|i: int| 0 <= i < elems.len() && pat_refers(#[trigger] elems[i], bound, n),
    }
}

/// Whether expression `e`, met in scope `bound`, refers to `n` from outside:
/// whether `n` occurs free in it.
pub open spec fn expr_refers(e: ExprV, bound: Set<Seq<char>>, n: Seq<char>) -> bool
    decreases e,
{
    match e {
        ExprV::Path(p) => ident_refers(path_ident(p), bound, n) || path_refers(p, bound, n),
        ExprV::Lit(_) => false,
        ExprV::Call { func, args } => expr_refers(*func, bound, n) || exists|i: int|
            0 <= i < args.len() && expr_refers(#[trigger] args[i], bound, n),
        ExprV::Compound { label, types, operands } => (exists|i: int|
            0 <= i < types.len() && type_refers(#[trigger] types[i], bound, n)) || (exists|i: int|
            0 <= i < operands.len() && expr_refers(#[trigger] operands[i], bound, n)),
        ExprV::Closure { params, body } => (exists|i: int|
            0 <= i < params.len() && pat_refers(#[trigger] params[i], bound, n)) || expr_refers(
            *body,
            bound.union(pats_binders(params)),
            n,
        ),
        ExprV::Block(stmts) => stmts_refer(stmts, bound, n),
        ExprV::If { cond, then_branch, else_branch } => (match *cond {
            ExprV::Let { pat, scrutinee } => expr_refers(*scrutinee, bound, n) || pat_refers(
                pat,
                bound,
                n,
            ) || stmts_refer(then_branch, bound.union(pat_binders(pat)), n),
            _ => expr_refers(*cond, bound, n) || stmts_refer(then_branch, bound, n),
        }) || match else_branch {
            Some(x) => expr_refers(*x, bound, n),
            None => false,
        },
        ExprV::Let { pat, scrutinee } => expr_refers(*scrutinee, bound, n) || pat_refers(
            pat,
            bound,
            n,
        ),
        ExprV::Match { scrutinee, arms } => expr_refers(*scrutinee, bound, n) || exists|i: int|
            0 <= i < arms.len() && arm_refers(#[trigger] arms[i], bound, n),
        ExprV::Macro { path, tokens } => path_refers(path, bound, n),
    }
}

/// Whether arm `a` refers to `n` from outside.
pub open spec fn arm_refers(a: ArmV, bound: Set<Seq<char>>, n: Seq<char>) -> bool
    decreases a,
{
    pat_refers(a.pat, bound, n) || (match a.guard {
        Some(g) => expr_refers(g, bound.union(pat_binders(a.pat)), n),
        None => false,
    }) || expr_refers(a.body, bound.union(pat_binders(a.pat)), n)
}

/// Whether statement `s`, met in scope `bound`, refers to `n` from outside.
pub open spec fn stmt_refers(s: StmtV, bound: Set<Seq<char>>, n: Seq<char>) -> bool
    decreases s,
{
    match s {
        StmtV::Let { pat, init } => pat_refers(pat, bound, n) || match init {
            Some(e) => expr_refers(e, bound, n),
            None => false,
        },
        StmtV::Expr { expr, semi } => expr_refers(expr, bound, n),
        StmtV::Item(_) => false,
    }
}

/// Whether a statement of a block entered with `bound` refers to `n` from
/// outside the block.
pub open spec fn stmts_refer(stmts: Seq<StmtV>, bound: Set<Seq<char>>, n: Seq<char>) -> bool
    decreases stmts,
{
    exists|i: int|
        0 <= i < stmts.len() && stmt_refers(#[trigger] stmts[i], scope_before(stmts, i, bound), n)
}

/// Whether the input `n` occurs free in expression `e`, met in scope
/// `bound`: `e` or a part of it stands for the input, as the bare name or by
/// position, where no binder around that part binds `n`.
pub open spec fn expr_occurs(e: ExprV, bound: Set<Seq<char>>, n: Seq<char>) -> bool
    decreases e,
{
    (names_input(e, n) && !bound.contains(n)) || match e {
        ExprV::Path(_) => false,
        ExprV::Lit(_) => false,
        ExprV::Call { func, args } => expr_occurs(*func, bound, n) || exists|i: int|
            0 <= i < args.len() && expr_occurs(#[trigger] args[i], bound, n),
        ExprV::Compound { label, types, operands } => exists|i: int|
            0 <= i < operands.len() && expr_occurs(#[trigger] operands[i], bound, n),
        ExprV::Closure { params, body } => expr_occurs(*body, bound.union(pats_binders(params)), n),
        ExprV::Block(stmts) => stmts_occur(stmts, bound, n),
        ExprV::If { cond, then_branch, else_branch } => expr_occurs(*cond, bound, n) || (match *cond {
            ExprV::Let { pat, scrutinee } => stmts_occur(
                then_branch,
                bound.union(pat_binders(pat)),
                n,
            ),
            _ => stmts_occur(then_branch, bound, n),
        }) || match else_branch {
            Some(x) => expr_occurs(*x, bound, n),
            None => false,
        },
        ExprV::Let { pat, scrutinee } => expr_occurs(*scrutinee, bound, n),
        ExprV::Match { scrutinee, arms } => expr_occurs(*scrutinee, bound, n) || exists|i: int|
            0 <= i < arms.len() && arm_occurs(#[trigger] arms[i], bound, n),
        ExprV::Macro { path, tokens } => false,
    }
}

/// Whether the input `n` occurs free in the guard or the body of arm `a`.
pub open spec fn arm_occurs(a: ArmV, bound: Set<Seq<char>>, n: Seq<char>) -> bool
    decreases a,
{
    (match a.guard {
        Some(g) => expr_occurs(g, bound.union(pat_binders(a.pat)), n),
        None => false,
    }) || expr_occurs(a.body, bound.union(pat_binders(a.pat)), n)
}

/// Whether the input `n` occurs free in statement `s`, met in scope `bound`.
pub open spec fn stmt_occurs(s: StmtV, bound: Set<Seq<char>>, n: Seq<char>) -> bool
    decreases s,
{
    match s {
        StmtV::Let { pat, init } => match init {
            Some(e) => expr_occurs(e, bound, n),
            None => false,
        },
        StmtV::Expr { expr, semi } => expr_occurs(expr, bound, n),
        StmtV::Item(_) => false,
    }
}

/// Whether the input `n` occurs free in a statement of a block entered with
/// `bound`.
pub open spec fn stmts_occur(stmts: Seq<StmtV>, bound: Set<Seq<char>>, n: Seq<char>) -> bool
    decreases stmts,
{
    exists|i: int|
        0 <= i < stmts.len() && stmt_occurs(#[trigger] stmts[i], scope_before(stmts, i, bound), n)
}

/// The free names of an expression.
pub open spec fn free_vars(e: ExprV) -> Set<Seq<char>> {
    Set::new(|n: Seq<char>| expr_refers(e, Set::empty(), n))
}

/// What a walk does at a node it is about to enter.
pub enum PolicyV {
    /// Enter every node.
    Keep,
    /// Put `expr` in place of every expression that stands for the input
    /// `name`, where `name` is not bound.
    Expr { name: Seq<char>, expr: ExprV },
    /// Put `ty` in place of the type `name`, where `name` is not bound.
    Type { name: Seq<char>, ty: TypeV },
    /// Put in place of every expression that is a bare name of `table` the
    /// expression that `table` gives for it, whatever is bound.
    Names { table: Seq<(Seq<char>, ExprV)> },
}

/// The expression that `table` gives for the name `n`: that of the first
/// entry for `n`.
pub open spec fn table_lookup(table: Seq<(Seq<char>, ExprV)>, n: Seq<char>) -> Option<ExprV>
    decreases table.len(),
{
    if table.len() == 0 {
        None
    } else if table[0].0 == n {
        Some(table[0].1)
    } else {
        table_lookup(table.drop_first(), n)
    }
}

/// The expression that `policy` puts in place of `e`, if any.
pub open spec fn expr_verdict(policy: PolicyV, bound: Set<Seq<char>>, e: ExprV) -> Option<ExprV> {
    match policy {
        PolicyV::Expr { name, expr } => if names_input(e, name) && !bound.contains(name) {
            Some(expr)
        } else {
            None
        },
        PolicyV::Names { table } => match expr_ident(e) {
            Some(n) => table_lookup(table, n),
            None => None,
        },
        _ => None,
    }
}

/// The type that `policy` puts in place of `t`, if any.
pub open spec fn type_verdict(policy: PolicyV, bound: Set<Seq<char>>, t: TypeV) -> Option<TypeV> {
    match policy {
        PolicyV::Type { name, ty } => if type_ident(t) == Some(name) && !bound.contains(name) {
            Some(ty)
        } else {
            None
        },
        _ => None,
    }
}

/// Type `t` after the walk.
pub open spec fn type_subst(t: TypeV, bound: Set<Seq<char>>, policy: PolicyV) -> TypeV
    decreases t, 1nat,
{
    match type_verdict(policy, bound, t) {
        Some(r) => r,
        None => match t {
            TypeV::Path(p) => TypeV::Path(path_subst(p, bound, policy)),
            TypeV::Compound { label, args } => TypeV::Compound {
                label,
                args: types_subst(args, bound, policy),
            },
            TypeV::Opaque(_) => t,
        },
    }
}

/// Each type of `ts` after the walk.
pub open spec fn types_subst(ts: Seq<TypeV>, bound: Set<Seq<char>>, policy: PolicyV) -> Seq<TypeV>
    decreases ts, 0nat,
{
    Seq::new(
        ts.len(),
        |i: int|
            if 0 <= i < ts.len() {
                type_subst(ts[i], bound, policy)
            } else {
                arbitrary()
            },
    )
}

/// Segment `s` after the walk.
pub open spec fn segment_subst(s: SegmentV, bound: Set<Seq<char>>, policy: PolicyV) -> SegmentV
    decreases s, 1nat,
{
    SegmentV { ident: s.ident, args: types_subst(s.args, bound, policy) }
}

/// Path `p` after the walk.
pub open spec fn path_subst(p: PathV, bound: Set<Seq<char>>, policy: PolicyV) -> PathV
    decreases p, 1nat,
{
    PathV { segments: segments_subst(p.segments, bound, policy) }
}

/// Each segment of `ss` after the walk.
pub open spec fn segments_subst(ss: Seq<SegmentV>, bound: Set<Seq<char>>, policy: PolicyV) -> Seq<
    SegmentV,
>
    decreases ss, 0nat,
{
    Seq::new(
        ss.len(),
        |i: int|
            if 0 <= i < ss.len() {
                segment_subst(ss[i], bound, policy)
            } else {
                arbitrary()
            },
    )
}

/// Pattern `p` after the walk: its binders stay, its annotations are walked.
pub open spec fn pat_subst(p: PatV, bound: Set<Seq<char>>, policy: PolicyV) -> PatV
    decreases p, 1nat,
{
    match p {
        PatV::Wild => p,
        PatV::Ident { name, by_ref, mutable, subpat } => PatV::Ident {
            name,
            by_ref,
            mutable,
            subpat: match subpat {
                Some(q) => Some(Box::new(pat_subst(*q, bound, policy))),
                None => None,
            },
        },
        PatV::Lit(_) => p,
        PatV::Typed { pat, ty } => PatV::Typed {
            pat: Box::new(pat_subst(*pat, bound, policy)),
            ty: type_subst(ty, bound, policy),
        },
        PatV::Compound { label, path, elems } => PatV::Compound {
            label,
            path: match path {
                Some(q) => Some(path_subst(q, bound, policy)),
                None => None,
            },
            elems: pats_subst(elems, bound, policy),
        },
    }
}

/// Each pattern of `ps` after the walk.
pub open spec fn pats_subst(ps: Seq<PatV>, bound: Set<Seq<char>>, policy: PolicyV) -> Seq<PatV>
    decreases ps, 0nat,
{
    Seq::new(
        ps.len(),
        |i: int|
            if 0 <= i < ps.len() {
                pat_subst(ps[i], bound, policy)
            } else {
                arbitrary()
            },
    )
}

/// Expression `e`, met in scope `bound`, after the walk.
pub open spec fn expr_subst(e: ExprV, bound: Set<Seq<char>>, policy: PolicyV) -> ExprV
    decreases e, 1nat,
{
    match expr_verdict(policy, bound, e) {
        Some(r) => r,
        None => match e {
            ExprV::Path(p) => ExprV::Path(path_subst(p, bound, policy)),
            ExprV::Lit(_) => e,
            ExprV::Call { func, args } => ExprV::Call {
                func: Box::new(expr_subst(*func, bound, policy)),
                args: exprs_subst(args, bound, policy),
            },
            ExprV::Compound { label, types, operands } => ExprV::Compound {
                label,
                types: types_subst(types, bound, policy),
                operands: exprs_subst(operands, bound, policy),
            },
            ExprV::Closure { params, body } => ExprV::Closure {
                params: pats_subst(params, bound, policy),
                body: Box::new(expr_subst(*body, bound.union(pats_binders(params)), policy)),
            },
            ExprV::Block(stmts) => ExprV::Block(stmts_subst(stmts, bound, policy)),
            ExprV::If { cond, then_branch, else_branch } => ExprV::If {
                cond: Box::new(expr_subst(*cond, bound, policy)),
                then_branch: match *cond {
                    ExprV::Let { pat, scrutinee } => stmts_subst(
                        then_branch,
                        bound.union(pat_binders(pat)),
                        policy,
                    ),
                    _ => stmts_subst(then_branch, bound, policy),
                },
                else_branch: match else_branch {
                    Some(x) => Some(Box::new(expr_subst(*x, bound, policy))),
                    None => None,
                },
            },
            ExprV::Let { pat, scrutinee } => ExprV::Let {
                pat: pat_subst(pat, bound, policy),
                scrutinee: Box::new(expr_subst(*scrutinee, bound, policy)),
            },
            ExprV::Match { scrutinee, arms } => ExprV::Match {
                scrutinee: Box::new(expr_subst(*scrutinee, bound, policy)),
                arms: arms_subst(arms, bound, policy),
            },
            ExprV::Macro { path, tokens } => ExprV::Macro {
                path: path_subst(path, bound, policy),
                tokens,
            },
        },
    }
}

/// Each expression of `es` after the walk.
pub open spec fn exprs_subst(es: Seq<ExprV>, bound: Set<Seq<char>>, policy: PolicyV) -> Seq<ExprV>
    decreases es, 0nat,
{
    Seq::new(
        es.len(),
        |i: int|
            if 0 <= i < es.len() {
                expr_subst(es[i], bound, policy)
            } else {
                arbitrary()
            },
    )
}

/// Each arm of `arms` after the walk.
pub open spec fn arms_subst(arms: Seq<ArmV>, bound: Set<Seq<char>>, policy: PolicyV) -> Seq<ArmV>
    decreases arms, 0nat,
{
    Seq::new(
        arms.len(),
        |i: int|
            if 0 <= i < arms.len() {
                arm_subst(arms[i], bound, policy)
            } else {
                arbitrary()
            },
    )
}

/// Arm `a` after the walk.
pub open spec fn arm_subst(a: ArmV, bound: Set<Seq<char>>, policy: PolicyV) -> ArmV
    decreases a, 1nat,
{
    ArmV {
        pat: pat_subst(a.pat, bound, policy),
        guard: match a.guard {
            Some(g) => Some(expr_subst(g, bound.union(pat_binders(a.pat)), policy)),
            None => None,
        },
        body: expr_subst(a.body, bound.union(pat_binders(a.pat)), policy),
    }
}

/// Statement `s`, met in scope `bound`, after the walk.
pub open spec fn stmt_subst(s: StmtV, bound: Set<Seq<char>>, policy: PolicyV) -> StmtV
    decreases s, 1nat,
{
    match s {
        StmtV::Let { pat, init } => StmtV::Let {
            pat: pat_subst(pat, bound, policy),
            init: match init {
                Some(e) => Some(expr_subst(e, bound, policy)),
                None => None,
            },
        },
        StmtV::Expr { expr, semi } => StmtV::Expr { expr: expr_subst(expr, bound, policy), semi },
        StmtV::Item(_) => s,
    }
}

/// The statements of a block entered with `bound`, after the walk.
pub open spec fn stmts_subst(stmts: Seq<StmtV>, bound: Set<Seq<char>>, policy: PolicyV) -> Seq<
    StmtV,
>
    decreases stmts, 0nat,
{
    Seq::new(
        stmts.len(),
        |i: int|
            if 0 <= i < stmts.len() {
                stmt_subst(stmts[i], scope_before(stmts, i, bound), policy)
            } else {
                arbitrary()
            },
    )
}

/// Whether a walk accepts expression `e`: it holds no nested item, no `let`
/// but as the condition of an `if`, and no `if let` without an `else` branch.
pub open spec fn expr_supported(e: ExprV) -> bool
    decreases e, 1nat,
{
    match e {
        ExprV::Path(_) => true,
        ExprV::Lit(_) => true,
        ExprV::Call { func, args } => expr_supported(*func) && exprs_supported(args),
        ExprV::Compound { label, types, operands } => exprs_supported(operands),
        ExprV::Closure { params, body } => expr_supported(*body),
        ExprV::Block(stmts) => stmts_supported(stmts),
        ExprV::If { cond, then_branch, else_branch } => (match *cond {
            ExprV::Let { pat, scrutinee } => expr_supported(*scrutinee) && else_branch.is_some(),
            _ => expr_supported(*cond),
        }) && stmts_supported(then_branch) && match else_branch {
            Some(x) => expr_supported(*x),
            None => true,
        },
        ExprV::Let { pat, scrutinee } => false,
        ExprV::Match { scrutinee, arms } => expr_supported(*scrutinee) && forall|i: int|
            0 <= i < arms.len() ==> arm_supported(#[trigger] arms[i]),
        ExprV::Macro { path, tokens } => true,
    }
}

/// Whether a walk accepts each expression of `es`.
pub open spec fn exprs_supported(es: Seq<ExprV>) -> bool
    decreases es, 0nat,
{
    forall|i: int| 0 <= i < es.len() ==> expr_supported(#[trigger] es[i])
}

/// Whether a walk accepts arm `a`.
pub open spec fn arm_supported(a: ArmV) -> bool
    decreases a, 1nat,
{
    expr_supported(a.body) && match a.guard {
        Some(g) => expr_supported(g),
        None => true,
    }
}

/// Whether a walk accepts statement `s`.
pub open spec fn stmt_supported(s: StmtV) -> bool
    decreases s, 1nat,
{
    match s {
        StmtV::Let { pat, init } => match init {
            Some(e) => expr_supported(e),
            None => true,
        },
        StmtV::Expr { expr, semi } => expr_supported(expr),
        StmtV::Item(_) => false,
    }
}

/// Whether a walk accepts each statement of `stmts`.
pub open spec fn stmts_supported(stmts: Seq<StmtV>) -> bool
    decreases stmts, 0nat,
{
    forall|i: int| 0 <= i < stmts.len() ==> stmt_supported(#[trigger] stmts[i])
}

/// The names of the first `k` of the parameters `params`.
pub open spec fn params_names(params: Seq<GenericParamV>, k: int) -> Set<Seq<char>> {
    Set::new(|n: Seq<char>| exists|j: int| 0 <= j < k && j < params.len() && (#[trigger] params[j]).name == n)
}

/// The names of the parameters that the first `i` of the predicates `preds`
/// introduce.
pub open spec fn predicates_names(preds: Seq<WherePredicateV>, i: int) -> Set<Seq<char>> {
    Set::new(
        |n: Seq<char>|
            exists|j: int|
                0 <= j < i && j < preds.len() && params_names(
                    (#[trigger] preds[j]).params,
                    preds[j].params.len() as int,
                ).contains(n),
    )
}

/// Parameter `k` of `params` after the walk: its bounds are walked in the
/// scope before it, which holds the parameters declared before it.
pub open spec fn param_subst(
    params: Seq<GenericParamV>,
    k: int,
    bound: Set<Seq<char>>,
    policy: PolicyV,
) -> GenericParamV {
    GenericParamV {
        name: params[k].name,
        bounds: types_subst(params[k].bounds, bound.union(params_names(params, k)), policy),
    }
}

/// Predicate `p`, met in scope `bound`, after the walk: the type it bounds
/// and the bounds are walked in the scope of all its parameters.
pub open spec fn predicate_subst(p: WherePredicateV, bound: Set<Seq<char>>, policy: PolicyV) -> WherePredicateV {
    let inner = bound.union(params_names(p.params, p.params.len() as int));
    WherePredicateV {
        params: Seq::new(p.params.len(), |k: int| param_subst(p.params, k, bound, policy)),
        bounded: type_subst(p.bounded, inner, policy),
        bounds: types_subst(p.bounds, inner, policy),
    }
}

/// A `where` clause after the walk: a parameter is bound from its declaration
/// on, in its own predicate and in the predicates after it.
pub open spec fn where_subst(w: WhereClauseV, bound: Set<Seq<char>>, policy: PolicyV) -> WhereClauseV {
    WhereClauseV {
        predicates: Seq::new(
            w.predicates.len(),
            |i: int|
                predicate_subst(
                    w.predicates[i],
                    bound.union(predicates_names(w.predicates, i)),
                    policy,
                ),
        ),
    }
}

} // verus!
