//! Hoisting the marked parts of an expression into closed terms.
//!
//! A call `eval(inner)` marks `inner` as something to compute by running it.
//! The walk puts a placeholder name in place of each such call and hands out,
//! for each, the term to run: `inner` behind the smallest run of the bindings
//! met on the way that `inner` depends on.

use crate::decimal::{decimal_text, to_decimal};
use crate::subst::scope::{expr_ident, free_vars, pat_binds};
use crate::subst::syn_utils::path_name;
use crate::subst::visitors::{bound_vars_of_pat, free_vars_of_expr};
use crate::syntax::{
    arms_view, copy_expr, copy_pat, copy_path, copy_pats, copy_types, exprs_view, stmts_view,
    types_view, Arm, ArmV, Expr, ExprV, Pat, PatV, Path, PathV, Segment, SegmentV, Stmt, StmtV,
};
use vstd::prelude::*;
use vstd::string::StringExecFns;

verus! {

/// A binding met on the way to a marked expression.
pub struct BindingV {
    pub pat: PatV,
    pub value: ExprV,
}

/// An expression behind the bindings it depends on.
pub struct ClosedTermV {
    pub bindings: Seq<BindingV>,
    pub body: ExprV,
}

/// A term to run, and the placeholder that stands where it was.
pub struct EvalNodeV {
    pub placeholder: Seq<char>,
    pub term: ClosedTermV,
}

/// A binding met on the way to a marked expression.
#[derive(Debug, PartialEq, Eq)]
pub struct Binding {
    pub pat: Pat,
    pub value: Expr,
}

/// An expression behind the bindings it depends on.
#[derive(Debug, PartialEq, Eq)]
pub struct ClosedTerm {
    pub bindings: Vec<Binding>,
    pub body: Expr,
}

/// A term to run, and the placeholder that stands where it was.
#[derive(Debug, PartialEq, Eq)]
pub struct EvalNode {
    pub placeholder: String,
    pub term: ClosedTerm,
}

impl View for Binding {
    type V = BindingV;

    open spec fn view(&self) -> BindingV {
        BindingV { pat: self.pat@, value: self.value@ }
    }
}

/// The views of a sequence of bindings, in order.
pub open spec fn bindings_view(v: Seq<Binding>) -> Seq<BindingV> {
    Seq::new(v.len(), |i: int| v[i]@)
}

impl View for ClosedTerm {
    type V = ClosedTermV;

    open spec fn view(&self) -> ClosedTermV {
        ClosedTermV { bindings: bindings_view(self.bindings@), body: self.body@ }
    }
}

impl View for EvalNode {
    type V = EvalNodeV;

    open spec fn view(&self) -> EvalNodeV {
        EvalNodeV { placeholder: self.placeholder@, term: self.term@ }
    }
}

/// The views of a sequence of nodes, in order.
pub open spec fn nodes_view(v: Seq<EvalNode>) -> Seq<EvalNodeV> {
    Seq::new(v.len(), |i: int| v[i]@)
}

impl Clone for Binding {
    fn clone(&self) -> (r: Self)
        ensures
            r@ == self@,
    {
        Binding { pat: copy_pat(&self.pat), value: copy_expr(&self.value) }
    }
}

/// A copy of a sequence of bindings.
pub fn copy_bindings(v: &Vec<Binding>) -> (r: Vec<Binding>)
    ensures
        bindings_view(r@) == bindings_view(v@),
{
    let mut r: Vec<Binding> = Vec::new();
    let mut i: usize = 0;
    while i < v.len()
        invariant
            i <= v.len(),
            r@.len() == i,
            forall|j: int| 0 <= j < i ==> r@[j]@ == v@[j]@,
        decreases v.len() - i,
    {
        r.push(v[i].clone());
        i += 1;
    }
    assert(bindings_view(r@) =~= bindings_view(v@));
    r
}

impl Clone for ClosedTerm {
    fn clone(&self) -> (r: Self)
        ensures
            r@ == self@,
    {
        ClosedTerm { bindings: copy_bindings(&self.bindings), body: copy_expr(&self.body) }
    }
}

impl Clone for EvalNode {
    fn clone(&self) -> (r: Self)
        ensures
            r@ == self@,
    {
        EvalNode { placeholder: self.placeholder.clone(), term: self.term.clone() }
    }
}

/// Whether binding `b` binds one of the names `wanted`.
pub open spec fn keeps(b: BindingV, wanted: Set<Seq<char>>) -> bool {
    exists|n: Seq<char>| pat_binds(b.pat, n) && wanted.contains(n)
}

/// The names wanted at the moment binding `i` is examined, the bindings being
/// examined from the last to the first: the names `vars`, and the free names
/// of the value of every later binding that was kept.
pub open spec fn demand(bs: Seq<BindingV>, vars: Set<Seq<char>>, i: int) -> Set<Seq<char>>
    decreases bs.len() - i,
{
    if i >= bs.len() - 1 {
        vars
    } else {
        let later = demand(bs, vars, i + 1);
        if keeps(bs[i + 1], later) {
            later.union(free_vars(bs[i + 1].value))
        } else {
            later
        }
    }
}

/// Whether binding `i` is kept: whether it binds a name wanted when it is
/// examined.
pub open spec fn kept(bs: Seq<BindingV>, vars: Set<Seq<char>>, i: int) -> bool {
    keeps(bs[i], demand(bs, vars, i))
}

/// The bindings from `i` on that are kept, in their order.
pub open spec fn select_from(bs: Seq<BindingV>, vars: Set<Seq<char>>, i: int) -> Seq<BindingV>
    decreases bs.len() - i,
{
    if i >= bs.len() || i < 0 {
        Seq::empty()
    } else if kept(bs, vars, i) {
        seq![bs[i]] + select_from(bs, vars, i + 1)
    } else {
        select_from(bs, vars, i + 1)
    }
}

/// The bindings of `bs` that an expression with the free names `vars`
/// depends on.
pub open spec fn select(bs: Seq<BindingV>, vars: Set<Seq<char>>) -> Seq<BindingV> {
    select_from(bs, vars, 0)
}

/// All that an expression with the free names `vars` depends on through the
/// bindings `bs`: `vars`, closed under the free names of the values of the
/// bindings that are kept.
pub open spec fn closure(bs: Seq<BindingV>, vars: Set<Seq<char>>) -> Set<Seq<char>> {
    demand(bs, vars, -1)
}

/// The term that runs `inner` behind the bindings of `stack` it depends on.
pub open spec fn close(stack: Seq<BindingV>, inner: ExprV) -> ClosedTermV {
    ClosedTermV { bindings: select(stack, free_vars(inner)), body: inner }
}

/// The name of the marker.
pub open spec fn marker() -> Seq<char> {
    "eval"@
}

/// What a marked expression asks to compute: `inner` in `eval(inner)`.
pub open spec fn marked(e: ExprV) -> Option<ExprV> {
    match e {
        ExprV::Call { func, args } => if expr_ident(*func) == Some(marker()) && args.len() == 1 {
            Some(args[0])
        } else {
            None
        },
        _ => None,
    }
}

/// The name of the placeholder of node `k`.
pub open spec fn placeholder_name(k: nat) -> Seq<char> {
    "__testify_placeholder__"@ + decimal_text(k)
}

/// The expression that stands for node `k`.
pub open spec fn placeholder_expr(k: nat) -> ExprV {
    ExprV::Path(
        PathV { segments: seq![SegmentV { ident: placeholder_name(k), args: Seq::empty() }] },
    )
}

/// Expression `e` with its marked parts hoisted, and the nodes hoisted from
/// it, `count` nodes having been hoisted before and `stack` being the
/// bindings met on the way.
pub open spec fn extract_expr(e: ExprV, stack: Seq<BindingV>, count: nat) -> (ExprV, Seq<EvalNodeV>)
    decreases e, 1nat,
{
    match marked(e) {
        Some(inner) => (
            placeholder_expr(count),
            seq![EvalNodeV { placeholder: placeholder_name(count), term: close(stack, inner) }],
        ),
        None => match e {
            ExprV::Path(_) => (e, Seq::empty()),
            ExprV::Lit(_) => (e, Seq::empty()),
            ExprV::Call { func, args } => {
                let (f, n1) = extract_expr(*func, stack, count);
                let (a, n2) = extract_exprs(args, stack, count + n1.len());
                (ExprV::Call { func: Box::new(f), args: a }, n1 + n2)
            },
            ExprV::Compound { label, types, operands } => {
                let (a, n) = extract_exprs(operands, stack, count);
                (ExprV::Compound { label, types, operands: a }, n)
            },
            ExprV::Closure { params, body } => {
                let (b, n) = extract_expr(*body, stack, count);
                (ExprV::Closure { params, body: Box::new(b) }, n)
            },
            ExprV::Block(stmts) => {
                let (s, n, _) = extract_stmts(stmts, stack, count);
                (ExprV::Block(s), n)
            },
            ExprV::If { cond, then_branch, else_branch } => {
                let (c, n1) = extract_expr(*cond, stack, count);
                let inner = match c {
                    ExprV::Let { pat, scrutinee } => stack.push(
                        BindingV { pat, value: *scrutinee },
                    ),
                    _ => stack,
                };
                let (t, n2, _) = extract_stmts(then_branch, inner, count + n1.len());
                match else_branch {
                    Some(x) => {
                        let (el, n3) = extract_expr(*x, stack, count + n1.len() + n2.len());
                        (
                            ExprV::If {
                                cond: Box::new(c),
                                then_branch: t,
                                else_branch: Some(Box::new(el)),
                            },
                            n1 + n2 + n3,
                        )
                    },
                    None => (
                        ExprV::If { cond: Box::new(c), then_branch: t, else_branch: None },
                        n1 + n2,
                    ),
                }
            },
            ExprV::Let { pat, scrutinee } => {
                let (s, n) = extract_expr(*scrutinee, stack, count);
                (ExprV::Let { pat, scrutinee: Box::new(s) }, n)
            },
            ExprV::Match { scrutinee, arms } => {
                let (s, n1) = extract_expr(*scrutinee, stack, count);
                let (a, n2) = extract_arms(arms, s, stack, count + n1.len());
                (ExprV::Match { scrutinee: Box::new(s), arms: a }, n1 + n2)
            },
            ExprV::Macro { path, tokens } => (e, Seq::empty()),
        },
    }
}

/// The expressions `es` with their marked parts hoisted, from first to last.
pub open spec fn extract_exprs(es: Seq<ExprV>, stack: Seq<BindingV>, count: nat) -> (
    Seq<ExprV>,
    Seq<EvalNodeV>,
)
    decreases es, 0nat,
{
    if es.len() == 0 {
        (Seq::empty(), Seq::empty())
    } else {
        let (head, n1) = extract_exprs(es.subrange(0, es.len() - 1), stack, count);
        let (x, n2) = extract_expr(es[es.len() - 1], stack, count + n1.len());
        (head.push(x), n1 + n2)
    }
}

/// The arms of a `match` on `scrutinee` with their marked parts hoisted: each
/// arm is walked behind the binding of its pattern to the scrutinee.
pub open spec fn extract_arms(
    arms: Seq<ArmV>,
    scrutinee: ExprV,
    stack: Seq<BindingV>,
    count: nat,
) -> (Seq<ArmV>, Seq<EvalNodeV>)
    decreases arms, 0nat,
{
    if arms.len() == 0 {
        (Seq::empty(), Seq::empty())
    } else {
        let (head, n1) = extract_arms(arms.subrange(0, arms.len() - 1), scrutinee, stack, count);
        let a = arms[arms.len() - 1];
        let inner = stack.push(BindingV { pat: a.pat, value: scrutinee });
        let (g, n2) = match a.guard {
            Some(x) => {
                let (y, n) = extract_expr(x, inner, count + n1.len());
                (Some(y), n)
            },
            None => (None, Seq::empty()),
        };
        let (b, n3) = extract_expr(a.body, inner, count + n1.len() + n2.len());
        (head.push(ArmV { pat: a.pat, guard: g, body: b }), n1 + n2 + n3)
    }
}

/// The statements of a block with their marked parts hoisted, the nodes
/// hoisted from them, and the bindings in force after the last statement:
/// each `let` with a value adds its binding for the statements after it.
pub open spec fn extract_stmts(stmts: Seq<StmtV>, stack: Seq<BindingV>, count: nat) -> (
    Seq<StmtV>,
    Seq<EvalNodeV>,
    Seq<BindingV>,
)
    decreases stmts, 0nat,
{
    if stmts.len() == 0 {
        (Seq::empty(), Seq::empty(), stack)
    } else {
        let (head, n1, st) = extract_stmts(stmts.subrange(0, stmts.len() - 1), stack, count);
        match stmts[stmts.len() - 1] {
            StmtV::Let { pat, init } => match init {
                Some(x) => {
                    let (y, n2) = extract_expr(x, st, count + n1.len());
                    (
                        head.push(StmtV::Let { pat, init: Some(y) }),
                        n1 + n2,
                        st.push(BindingV { pat, value: y }),
                    )
                },
                None => (head.push(StmtV::Let { pat, init: None }), n1, st),
            },
            StmtV::Expr { expr, semi } => {
                let (y, n2) = extract_expr(expr, st, count + n1.len());
                (head.push(StmtV::Expr { expr: y, semi }), n1 + n2, st)
            },
            StmtV::Item(text) => (head.push(StmtV::Item(text)), n1, st),
        }
    }
}

/// The bindings of `stack` that `inner` depends on, in their order.
pub fn select_bindings(stack: &Vec<Binding>, inner: &Expr) -> (r: Vec<Binding>)
    ensures
        bindings_view(r@) == select(bindings_view(stack@), free_vars(inner@)),
{
    let ghost bs = bindings_view(stack@);
    let ghost vars = free_vars(inner@);
    let mut wanted = free_vars_of_expr(inner);
    let mut picked: Vec<Binding> = Vec::new();
    let mut k: usize = stack.len();
    assert(bindings_view(picked@) =~= select_from(bs, vars, k as int));
    while k > 0
        invariant
            k <= stack.len(),
            bs == bindings_view(stack@),
            vars == free_vars(inner@),
            bindings_view(picked@) == select_from(bs, vars, k as int),
            k > 0 ==> wanted@ == demand(bs, vars, k - 1),
        decreases k,
    {
        k -= 1;
        let b = &stack[k];
        assert(bs[k as int] == b@);
        let binders = bound_vars_of_pat(&b.pat);
        let keep = binders.intersects(&wanted);
        proof {
            if keep {
                let n = choose|n: Seq<char>| binders@.contains(n) && wanted@.contains(n);
                assert(pat_binds(b@.pat, n));
                assert(keeps(bs[k as int], demand(bs, vars, k as int)));
            } else {
                assert forall|n: Seq<char>| pat_binds(b@.pat, n) implies !wanted@.contains(n) by {
                    assert(binders@.contains(n));
                }
            }
            assert(keep == kept(bs, vars, k as int));
        }
        if keep {
            let more = free_vars_of_expr(&b.value);
            wanted.extend(&more);
            let ghost before = picked@;
            picked.insert(0, b.clone());
            assert(bindings_view(picked@) =~= seq![bs[k as int]] + bindings_view(before));
        }
    }
    picked
}

/// The name of the placeholder of node `k`.
pub fn placeholder(k: usize) -> (r: String)
    ensures
        r@ == placeholder_name(k as nat),
{
    let mut r = String::from_str("__testify_placeholder__");
    let digits = to_decimal(k as u128);
    r.append(digits.as_str());
    r
}

/// The expression that is the bare name `name`.
pub fn name_expr(name: String) -> (r: Expr)
    ensures
        r@ == ExprV::Path(
            PathV { segments: seq![SegmentV { ident: name@, args: Seq::empty() }] },
        ),
{
    let mut segments: Vec<Segment> = Vec::new();
    segments.push(Segment { ident: name, args: Vec::new() });
    let r = Expr::Path(Path { segments });
    assert(r@->Path_0.segments =~= seq![SegmentV { ident: name@, args: Seq::empty() }]) by {
        assert(types_view(Seq::<crate::syntax::Type>::empty()) =~= Seq::<
            crate::syntax::TypeV,
        >::empty());
    }
    r
}

/// What a marked expression asks to compute: `inner` in `eval(inner)`.
pub fn marked_part(e: &Expr) -> (r: Option<&Expr>)
    ensures
        match r {
            Some(inner) => marked(e@) == Some(inner@),
            None => marked(e@).is_none(),
        },
{
    match e {
        Expr::Call { func, args } => {
            assert(e@->Call_args == exprs_view(args@));
            assert(*e@->Call_func == func@);
            let callee = match &**func {
                Expr::Path(p) => match path_name(p) {
                    Some(s) => crate::names::is_text(s, "eval"),
                    None => false,
                },
                _ => false,
            };
            if callee && args.len() == 1 {
                assert(e@->Call_args[0] == args@[0]@);
                Some(&args[0])
            } else {
                None
            }
        },
        _ => None,
    }
}

/// Expression `e` with its marked parts hoisted into `queue`, `stack` being
/// the bindings met on the way.
pub fn hoist_expr(e: &Expr, stack: &Vec<Binding>, queue: &mut Vec<EvalNode>) -> (r: Expr)
    ensures
        r@ == extract_expr(e@, bindings_view(stack@), old(queue)@.len()).0,
        nodes_view(final(queue)@) == nodes_view(old(queue)@) + extract_expr(
            e@,
            bindings_view(stack@),
            old(queue)@.len(),
        ).1,
    decreases e, 1nat,
{
    let ghost st = bindings_view(stack@);
    let ghost count = queue@.len();
    let ghost q0 = nodes_view(queue@);
    match marked_part(e) {
        Some(inner) => {
            let name = placeholder(queue.len());
            let term = ClosedTerm { bindings: select_bindings(stack, inner), body: copy_expr(inner) };
            let r = name_expr(name.clone());
            queue.push(EvalNode { placeholder: name, term });
            assert(nodes_view(queue@) =~= q0 + extract_expr(e@, st, count).1);
            r
        },
        None => match e {
            Expr::Path(p) => {
                assert(nodes_view(queue@) =~= q0 + extract_expr(e@, st, count).1);
                Expr::Path(copy_path(p))
            },
            Expr::Lit(text) => {
                assert(nodes_view(queue@) =~= q0 + extract_expr(e@, st, count).1);
                Expr::Lit(text.clone())
            },
            Expr::Call { func, args } => {
                assert(e@->Call_args == exprs_view(args@));
                let f = hoist_expr(func, stack, queue);
                let ghost n1 = extract_expr(func@, st, count).1;
                assert(nodes_view(queue@).len() == count + n1.len());
                let a = hoist_exprs(args, stack, queue);
                let ghost n2 = extract_exprs(exprs_view(args@), st, count + n1.len()).1;
                assert(nodes_view(queue@) =~= q0 + (n1 + n2));
                Expr::Call { func: Box::new(f), args: a }
            },
            Expr::Compound { label, types, operands } => {
                assert(e@->Compound_operands == exprs_view(operands@));
                assert(e@->Compound_types == types_view(types@));
                let a = hoist_exprs(operands, stack, queue);
                Expr::Compound { label: label.clone(), types: copy_types(types), operands: a }
            },
            Expr::Closure { params, body } => {
                let b = hoist_expr(body, stack, queue);
                Expr::Closure { params: copy_pats(params), body: Box::new(b) }
            },
            Expr::Block(stmts) => {
                let s = hoist_stmts(stmts, stack, queue);
                Expr::Block(s)
            },
            Expr::If { cond, then_branch, else_branch } => {
                let c = hoist_expr(cond, stack, queue);
                let ghost n1 = extract_expr(cond@, st, count).1;
                assert(nodes_view(queue@).len() == count + n1.len());
                let t = match &c {
                    Expr::Let { pat, scrutinee } => {
                        let mut inner = copy_bindings(stack);
                        inner.push(Binding { pat: copy_pat(pat), value: copy_expr(scrutinee) });
                        assert(bindings_view(inner@) =~= st.push(
                            BindingV { pat: pat@, value: scrutinee@ },
                        ));
                        hoist_stmts(then_branch, &inner, queue)
                    },
                    _ => hoist_stmts(then_branch, stack, queue),
                };
                let ghost inner_st = match c@ {
                    ExprV::Let { pat, scrutinee } => st.push(BindingV { pat, value: *scrutinee }),
                    _ => st,
                };
                let ghost n2 = extract_stmts(
                    stmts_view(then_branch@),
                    inner_st,
                    count + n1.len(),
                ).1;
                assert(nodes_view(queue@) =~= q0 + (n1 + n2));
                assert(nodes_view(queue@).len() == count + n1.len() + n2.len());
                match else_branch {
                    Some(x) => {
                        let el = hoist_expr(x, stack, queue);
                        let ghost n3 = extract_expr(x@, st, count + n1.len() + n2.len()).1;
                        assert(nodes_view(queue@) =~= q0 + (n1 + n2 + n3));
                        Expr::If {
                            cond: Box::new(c),
                            then_branch: t,
                            else_branch: Some(Box::new(el)),
                        }
                    },
                    None => Expr::If { cond: Box::new(c), then_branch: t, else_branch: None },
                }
            },
            Expr::Let { pat, scrutinee } => {
                let s = hoist_expr(scrutinee, stack, queue);
                Expr::Let { pat: copy_pat(pat), scrutinee: Box::new(s) }
            },
            Expr::Match { scrutinee, arms } => {
                assert(e@->Match_arms == arms_view(arms@));
                let s = hoist_expr(scrutinee, stack, queue);
                let ghost n1 = extract_expr(scrutinee@, st, count).1;
                assert(nodes_view(queue@).len() == count + n1.len());
                let a = hoist_arms(arms, &s, stack, queue);
                let ghost n2 = extract_arms(arms_view(arms@), s@, st, count + n1.len()).1;
                assert(nodes_view(queue@) =~= q0 + (n1 + n2));
                Expr::Match { scrutinee: Box::new(s), arms: a }
            },
            Expr::Macro { path, tokens } => {
                assert(nodes_view(queue@) =~= q0 + extract_expr(e@, st, count).1);
                Expr::Macro { path: copy_path(path), tokens: tokens.clone() }
            },
        },
    }
}

/// The expressions `es` with their marked parts hoisted into `queue`.
pub fn hoist_exprs(es: &Vec<Expr>, stack: &Vec<Binding>, queue: &mut Vec<EvalNode>) -> (r: Vec<
    Expr,
>)
    ensures
        exprs_view(r@) == extract_exprs(
            exprs_view(es@),
            bindings_view(stack@),
            old(queue)@.len(),
        ).0,
        nodes_view(final(queue)@) == nodes_view(old(queue)@) + extract_exprs(
            exprs_view(es@),
            bindings_view(stack@),
            old(queue)@.len(),
        ).1,
    decreases es, 0nat,
{
    let ghost st = bindings_view(stack@);
    let ghost count = queue@.len();
    let ghost q0 = nodes_view(queue@);
    let ghost ev = exprs_view(es@);
    let mut r: Vec<Expr> = Vec::new();
    let mut i: usize = 0;
    assert(exprs_view(r@) =~= extract_exprs(ev.take(0), st, count).0);
    assert(nodes_view(queue@) =~= q0 + extract_exprs(ev.take(0), st, count).1);
    while i < es.len()
        invariant
            i <= es.len(),
            ev == exprs_view(es@),
            st == bindings_view(stack@),
            exprs_view(r@) == extract_exprs(ev.take(i as int), st, count).0,
            nodes_view(queue@) == q0 + extract_exprs(ev.take(i as int), st, count).1,
            q0.len() == count,
        decreases es.len() - i,
    {
        let ghost before = exprs_view(r@);
        let ghost n1 = extract_exprs(ev.take(i as int), st, count).1;
        assert(nodes_view(queue@).len() == queue@.len());
        let x = hoist_expr(&es[i], stack, queue);
        r.push(x);
        proof {
            let longer = ev.take(i + 1);
            assert(longer.subrange(0, longer.len() - 1) =~= ev.take(i as int));
            assert(longer[longer.len() - 1] == es@[i as int]@);
            let n2 = extract_expr(es@[i as int]@, st, count + n1.len()).1;
            assert(exprs_view(r@) =~= before.push(x@));
            assert(nodes_view(queue@) =~= q0 + (n1 + n2));
        }
        i += 1;
    }
    assert(ev.take(es@.len() as int) =~= ev);
    r
}

/// The arms of a `match` on `scrutinee` with their marked parts hoisted into
/// `queue`.
pub fn hoist_arms(
    arms: &Vec<Arm>,
    scrutinee: &Expr,
    stack: &Vec<Binding>,
    queue: &mut Vec<EvalNode>,
) -> (r: Vec<Arm>)
    ensures
        arms_view(r@) == extract_arms(
            arms_view(arms@),
            scrutinee@,
            bindings_view(stack@),
            old(queue)@.len(),
        ).0,
        nodes_view(final(queue)@) == nodes_view(old(queue)@) + extract_arms(
            arms_view(arms@),
            scrutinee@,
            bindings_view(stack@),
            old(queue)@.len(),
        ).1,
    decreases arms, 0nat,
{
    let ghost st = bindings_view(stack@);
    let ghost count = queue@.len();
    let ghost q0 = nodes_view(queue@);
    let ghost av = arms_view(arms@);
    let mut r: Vec<Arm> = Vec::new();
    let mut i: usize = 0;
    assert(arms_view(r@) =~= extract_arms(av.take(0), scrutinee@, st, count).0);
    assert(nodes_view(queue@) =~= q0 + extract_arms(av.take(0), scrutinee@, st, count).1);
    while i < arms.len()
        invariant
            i <= arms.len(),
            av == arms_view(arms@),
            st == bindings_view(stack@),
            arms_view(r@) == extract_arms(av.take(i as int), scrutinee@, st, count).0,
            nodes_view(queue@) == q0 + extract_arms(av.take(i as int), scrutinee@, st, count).1,
            q0.len() == count,
        decreases arms.len() - i,
    {
        let ghost before = arms_view(r@);
        let ghost n1 = extract_arms(av.take(i as int), scrutinee@, st, count).1;
        assert(nodes_view(queue@).len() == queue@.len());
        let arm = &arms[i];
        let mut inner = copy_bindings(stack);
        inner.push(Binding { pat: copy_pat(&arm.pat), value: copy_expr(scrutinee) });
        assert(bindings_view(inner@) =~= st.push(BindingV { pat: arm@.pat, value: scrutinee@ }));
        let ghost inner_st = bindings_view(inner@);
        let guard = match &arm.guard {
            Some(g) => Some(hoist_expr(g, &inner, queue)),
            None => None,
        };
        let ghost n2 = match arm@.guard {
            Some(x) => extract_expr(x, inner_st, count + n1.len()).1,
            None => Seq::empty(),
        };
        assert(nodes_view(queue@) =~= q0 + (n1 + n2));
        assert(nodes_view(queue@).len() == queue@.len());
        let body = hoist_expr(&arm.body, &inner, queue);
        let ghost n3 = extract_expr(arm@.body, inner_st, count + n1.len() + n2.len()).1;
        let new_arm = Arm { pat: copy_pat(&arm.pat), guard, body };
        r.push(new_arm);
        proof {
            let longer = av.take(i + 1);
            assert(longer.subrange(0, longer.len() - 1) =~= av.take(i as int));
            assert(longer[longer.len() - 1] == arm@);
            assert(arms_view(r@) =~= before.push(new_arm@));
            assert(nodes_view(queue@) =~= q0 + (n1 + n2 + n3));
        }
        i += 1;
    }
    assert(av.take(arms@.len() as int) =~= av);
    r
}

/// The statements of a block with their marked parts hoisted into `queue`.
pub fn hoist_stmts(stmts: &Vec<Stmt>, stack: &Vec<Binding>, queue: &mut Vec<EvalNode>) -> (r: Vec<
    Stmt,
>)
    ensures
        stmts_view(r@) == extract_stmts(
            stmts_view(stmts@),
            bindings_view(stack@),
            old(queue)@.len(),
        ).0,
        nodes_view(final(queue)@) == nodes_view(old(queue)@) + extract_stmts(
            stmts_view(stmts@),
            bindings_view(stack@),
            old(queue)@.len(),
        ).1,
    decreases stmts, 0nat,
{
    let ghost st = bindings_view(stack@);
    let ghost count = queue@.len();
    let ghost q0 = nodes_view(queue@);
    let ghost sv = stmts_view(stmts@);
    let mut local = copy_bindings(stack);
    let mut r: Vec<Stmt> = Vec::new();
    let mut i: usize = 0;
    assert(stmts_view(r@) =~= extract_stmts(sv.take(0), st, count).0);
    assert(nodes_view(queue@) =~= q0 + extract_stmts(sv.take(0), st, count).1);
    while i < stmts.len()
        invariant
            i <= stmts.len(),
            sv == stmts_view(stmts@),
            st == bindings_view(stack@),
            stmts_view(r@) == extract_stmts(sv.take(i as int), st, count).0,
            nodes_view(queue@) == q0 + extract_stmts(sv.take(i as int), st, count).1,
            bindings_view(local@) == extract_stmts(sv.take(i as int), st, count).2,
            q0.len() == count,
        decreases stmts.len() - i,
    {
        let ghost before = stmts_view(r@);
        let ghost n1 = extract_stmts(sv.take(i as int), st, count).1;
        let ghost cur = bindings_view(local@);
        assert(nodes_view(queue@).len() == queue@.len());
        proof {
            let longer = sv.take(i + 1);
            assert(longer.subrange(0, longer.len() - 1) =~= sv.take(i as int));
            assert(longer[longer.len() - 1] == stmts@[i as int]@);
        }
        match &stmts[i] {
            Stmt::Let { pat, init } => match init {
                Some(x) => {
                    let y = hoist_expr(x, &local, queue);
                    let ghost n2 = extract_expr(x@, cur, count + n1.len()).1;
                    local.push(Binding { pat: copy_pat(pat), value: copy_expr(&y) });
                    let s = Stmt::Let { pat: copy_pat(pat), init: Some(y) };
                    r.push(s);
                    proof {
                        assert(stmts_view(r@) =~= before.push(s@));
                        assert(nodes_view(queue@) =~= q0 + (n1 + n2));
                        assert(bindings_view(local@) =~= cur.push(
                            BindingV { pat: pat@, value: s@->Let_init->0 },
                        ));
                    }
                },
                None => {
                    let s = Stmt::Let { pat: copy_pat(pat), init: None };
                    r.push(s);
                    proof {
                        assert(stmts_view(r@) =~= before.push(s@));
                    }
                },
            },
            Stmt::Expr { expr, semi } => {
                let y = hoist_expr(expr, &local, queue);
                let ghost n2 = extract_expr(expr@, cur, count + n1.len()).1;
                let s = Stmt::Expr { expr: y, semi: *semi };
                r.push(s);
                proof {
                    assert(stmts_view(r@) =~= before.push(s@));
                    assert(nodes_view(queue@) =~= q0 + (n1 + n2));
                }
            },
            Stmt::Item(text) => {
                let s = Stmt::Item(text.clone());
                r.push(s);
                proof {
                    assert(stmts_view(r@) =~= before.push(s@));
                }
            },
        }
        i += 1;
    }
    assert(sv.take(stmts@.len() as int) =~= sv);
    r
}

/// The walk that hoists the marked parts of expressions.
pub struct PartialCompute {
    bindings: Vec<Binding>,
    compute_queue: Vec<EvalNode>,
}

impl PartialCompute {
    /// The bindings met so far, as a value.
    pub closed spec fn stack(&self) -> Seq<BindingV> {
        bindings_view(self.bindings@)
    }

    /// The nodes hoisted so far, as a value.
    pub closed spec fn nodes(&self) -> Seq<EvalNodeV> {
        nodes_view(self.compute_queue@)
    }

    /// A walk that has met no binding and hoisted nothing.
    pub fn new() -> (r: Self)
        ensures
            r.stack() == Seq::<BindingV>::empty(),
            r.nodes() == Seq::<EvalNodeV>::empty(),
    {
        let r = PartialCompute { bindings: Vec::new(), compute_queue: Vec::new() };
        assert(r.stack() =~= Seq::<BindingV>::empty());
        assert(r.nodes() =~= Seq::<EvalNodeV>::empty());
        r
    }

    /// The nodes hoisted so far, in the order in which they were hoisted.
    pub fn get_nodes(self) -> (r: Vec<EvalNode>)
        ensures
            nodes_view(r@) == self.nodes(),
    {
        self.compute_queue
    }

    /// Hoists the marked parts of `expr`: each is replaced by the placeholder
    /// of its node, and the nodes are added to those hoisted so far.
    pub fn visit_expr_mut(&mut self, expr: &mut Expr)
        ensures
            final(expr)@ == extract_expr(old(expr)@, old(self).stack(), old(self).nodes().len()).0,
            final(self).nodes() == old(self).nodes() + extract_expr(
                old(expr)@,
                old(self).stack(),
                old(self).nodes().len(),
            ).1,
            final(self).stack() == old(self).stack(),
    {
        let r = hoist_expr(expr, &self.bindings, &mut self.compute_queue);
        *expr = r;
    }
}

/// The names wanted grow as the examination goes back through the bindings.
pub proof fn lemma_demand_grows(bs: Seq<BindingV>, vars: Set<Seq<char>>, i: int, j: int)
    requires
        i <= j,
    ensures
        demand(bs, vars, j).subset_of(demand(bs, vars, i)),
    decreases j - i,
{
    if i < j {
        lemma_demand_grows(bs, vars, i + 1, j);
        if i < bs.len() - 1 {
            let later = demand(bs, vars, i + 1);
            assert(later.subset_of(demand(bs, vars, i)));
        } else {
            assert(demand(bs, vars, i) == vars);
            assert(demand(bs, vars, j) == vars);
        }
    }
}

/// Every binding selected from `i` on is one of the bindings from `i` on that
/// are kept.
pub proof fn lemma_selected_are_kept(bs: Seq<BindingV>, vars: Set<Seq<char>>, i: int, j: int)
    requires
        0 <= i,
        0 <= j < select_from(bs, vars, i).len(),
    ensures
        exists|k: int|
            i <= k < bs.len() && select_from(bs, vars, i)[j] == bs[k] && kept(bs, vars, k),
    decreases bs.len() - i,
{
    if i < bs.len() {
        if kept(bs, vars, i) {
            if j == 0 {
                assert(select_from(bs, vars, i)[0] == bs[i]);
            } else {
                lemma_selected_are_kept(bs, vars, i + 1, j - 1);
                let k = choose|k: int|
                    i + 1 <= k < bs.len() && select_from(bs, vars, i + 1)[j - 1] == bs[k] && kept(
                        bs,
                        vars,
                        k,
                    );
                assert(select_from(bs, vars, i)[j] == bs[k]);
            }
        } else {
            lemma_selected_are_kept(bs, vars, i + 1, j);
            let k = choose|k: int|
                i + 1 <= k < bs.len() && select_from(bs, vars, i + 1)[j] == bs[k] && kept(
                    bs,
                    vars,
                    k,
                );
            assert(select_from(bs, vars, i)[j] == bs[k]);
        }
    }
}

/// Every binding that is kept is among those selected.
pub proof fn lemma_kept_are_selected(bs: Seq<BindingV>, vars: Set<Seq<char>>, i: int, k: int)
    requires
        0 <= i <= k < bs.len(),
        kept(bs, vars, k),
    ensures
        select_from(bs, vars, i).contains(bs[k]),
    decreases k - i,
{
    let here = select_from(bs, vars, i);
    let rest = select_from(bs, vars, i + 1);
    if i == k {
        assert(here[0] == bs[k]);
    } else {
        lemma_kept_are_selected(bs, vars, i + 1, k);
        let j = choose|j: int| 0 <= j < rest.len() && rest[j] == bs[k];
        if kept(bs, vars, i) {
            assert(here[j + 1] == bs[k]);
        } else {
            assert(here[j] == bs[k]);
        }
    }
}

/// Minimality of what is hoisted: no binding hoisted for an expression with
/// the free names `vars` has a pattern disjoint from all that the expression
/// depends on, that is from `vars` closed under the free names of the values
/// of the bindings kept.
pub proof fn law_hoisted_bindings_are_needed(bs: Seq<BindingV>, vars: Set<Seq<char>>, j: int)
    requires
        0 <= j < select(bs, vars).len(),
    ensures
        keeps(select(bs, vars)[j], closure(bs, vars)),
{
    lemma_selected_are_kept(bs, vars, 0, j);
    let k = choose|k: int|
        0 <= k < bs.len() && select_from(bs, vars, 0)[j] == bs[k] && kept(bs, vars, k);
    lemma_demand_grows(bs, vars, -1, k);
    let n = choose|n: Seq<char>| pat_binds(bs[k].pat, n) && demand(bs, vars, k).contains(n);
    assert(closure(bs, vars).contains(n));
}

/// What is hoisted is enough: a binding whose pattern binds a name wanted
/// when it is examined is hoisted, and a binding that is not hoisted binds no
/// such name.
pub proof fn law_needed_bindings_are_hoisted(bs: Seq<BindingV>, vars: Set<Seq<char>>, k: int)
    requires
        0 <= k < bs.len(),
    ensures
        keeps(bs[k], demand(bs, vars, k)) ==> select(bs, vars).contains(bs[k]),
{
    if kept(bs, vars, k) {
        lemma_kept_are_selected(bs, vars, 0, k);
    }
}

/// An expression that depends on nothing takes no binding with it.
pub proof fn law_closed_expression_hoists_nothing(bs: Seq<BindingV>, i: int)
    requires
        0 <= i,
    ensures
        select_from(bs, Set::empty(), i) == Seq::<BindingV>::empty(),
    decreases bs.len() - i,
{
    if i < bs.len() {
        lemma_demand_of_nothing(bs, i);
        law_closed_expression_hoists_nothing(bs, i + 1);
    }
}

/// Where nothing is needed, nothing is needed of the bindings before.
proof fn lemma_demand_of_nothing(bs: Seq<BindingV>, i: int)
    ensures
        demand(bs, Set::empty(), i) == Set::<Seq<char>>::empty(),
    decreases bs.len() - i,
{
    if i < bs.len() - 1 {
        lemma_demand_of_nothing(bs, i + 1);
    }
}

} // verus!
