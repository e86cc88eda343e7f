//! The expression language of contracts: types, patterns, expressions.
//!
//! Every node exists twice. The executable form ([`Expr`], [`Type`], ...)
//! owns strings and vectors; its view ([`ExprV`], [`TypeV`], ...) is the
//! mathematical tree over which substitution and scoping are specified.

use vstd::prelude::*;

verus! {

/// One segment of a path, with its generic arguments.
pub struct SegmentV {
    pub ident: Seq<char>,
    pub args: Seq<TypeV>,
}

/// A path such as `a`, `a::b` or `Vec::<T>::new`.
pub struct PathV {
    pub segments: Seq<SegmentV>,
}

/// A type.
pub enum TypeV {
    /// A named type; a path of one segment refers to a type name in scope.
    Path(PathV),
    /// A type built from other types (a tuple, a reference, a slice, ...).
    Compound { label: Seq<char>, args: Seq<TypeV> },
    /// A type without parts of interest, by its source text.
    Opaque(Seq<char>),
}

/// A pattern.
pub enum PatV {
    /// `_` or `..`: binds nothing.
    Wild,
    /// A binding, possibly `ref` or `mut`, possibly with a sub-pattern.
    Ident { name: Seq<char>, by_ref: bool, mutable: bool, subpat: Option<Box<PatV>> },
    /// A literal, constant or range, by its source text.
    Lit(Seq<char>),
    /// A pattern with a type annotation.
    Typed { pat: Box<PatV>, ty: TypeV },
    /// A pattern made of patterns, with the path of its constructor if it has one.
    Compound { label: Seq<char>, path: Option<PathV>, elems: Seq<PatV> },
}

/// One arm of a `match`.
pub struct ArmV {
    pub pat: PatV,
    pub guard: Option<ExprV>,
    pub body: ExprV,
}

/// A statement of a block.
pub enum StmtV {
    /// `let pat = init;`
    Let { pat: PatV, init: Option<ExprV> },
    /// An expression, with or without a closing semicolon.
    Expr { expr: ExprV, semi: bool },
    /// A nested item, by its source text.
    Item(Seq<char>),
}

/// An expression.
pub enum ExprV {
    /// A path; a path of one segment refers to a name in scope.
    Path(PathV),
    /// A literal, by its source text.
    Lit(Seq<char>),
    /// `func(args)`
    Call { func: Box<ExprV>, args: Seq<ExprV> },
    /// Any other form without binders: an operator, a method call, a tuple, a cast, ...
    Compound { label: Seq<char>, types: Seq<TypeV>, operands: Seq<ExprV> },
    /// `|params| body`
    Closure { params: Seq<PatV>, body: Box<ExprV> },
    /// `{ stmts }`
    Block(Seq<StmtV>),
    /// `if cond { then_branch } else else_branch`; `cond` may be a `let`.
    If { cond: Box<ExprV>, then_branch: Seq<StmtV>, else_branch: Option<Box<ExprV>> },
    /// `let pat = scrutinee`, as the condition of an `if`.
    Let { pat: PatV, scrutinee: Box<ExprV> },
    /// `match scrutinee { arms }`
    Match { scrutinee: Box<ExprV>, arms: Seq<ArmV> },
    /// A macro invocation; its tokens are not looked into.
    Macro { path: PathV, tokens: Seq<char> },
}

/// One segment of a path, with its generic arguments.
#[derive(Debug, PartialEq, Eq)]
pub struct Segment {
    pub ident: String,
    pub args: Vec<Type>,
}

/// A path such as `a`, `a::b` or `Vec::<T>::new`.
#[derive(Debug, PartialEq, Eq)]
pub struct Path {
    pub segments: Vec<Segment>,
}

/// A type.
#[derive(Debug, PartialEq, Eq)]
pub enum Type {
    /// A named type; a path of one segment refers to a type name in scope.
    Path(Path),
    /// A type built from other types (a tuple, a reference, a slice, ...).
    Compound { label: String, args: Vec<Type> },
    /// A type without parts of interest, by its source text.
    Opaque(String),
}

/// A pattern.
#[derive(Debug, PartialEq, Eq)]
pub enum Pat {
    /// `_` or `..`: binds nothing.
    Wild,
    /// A binding, possibly `ref` or `mut`, possibly with a sub-pattern.
    Ident { name: String, by_ref: bool, mutable: bool, subpat: Option<Box<Pat>> },
    /// A literal, constant or range, by its source text.
    Lit(String),
    /// A pattern with a type annotation.
    Typed { pat: Box<Pat>, ty: Type },
    /// A pattern made of patterns, with the path of its constructor if it has one.
    Compound { label: String, path: Option<Path>, elems: Vec<Pat> },
}

/// One arm of a `match`.
#[derive(Debug, PartialEq, Eq)]
pub struct Arm {
    pub pat: Pat,
    pub guard: Option<Expr>,
    pub body: Expr,
}

/// A statement of a block.
#[derive(Debug, PartialEq, Eq)]
pub enum Stmt {
    /// `let pat = init;`
    Let { pat: Pat, init: Option<Expr> },
    /// An expression, with or without a closing semicolon.
    Expr { expr: Expr, semi: bool },
    /// A nested item, by its source text.
    Item(String),
}

/// An expression.
#[derive(Debug, PartialEq, Eq)]
pub enum Expr {
    /// A path; a path of one segment refers to a name in scope.
    Path(Path),
    /// A literal, by its source text.
    Lit(String),
    /// `func(args)`
    Call { func: Box<Expr>, args: Vec<Expr> },
    /// Any other form without binders: an operator, a method call, a tuple, a cast, ...
    Compound { label: String, types: Vec<Type>, operands: Vec<Expr> },
    /// `|params| body`
    Closure { params: Vec<Pat>, body: Box<Expr> },
    /// `{ stmts }`
    Block(Vec<Stmt>),
    /// `if cond { then_branch } else else_branch`; `cond` may be a `let`.
    If { cond: Box<Expr>, then_branch: Vec<Stmt>, else_branch: Option<Box<Expr>> },
    /// `let pat = scrutinee`, as the condition of an `if`.
    Let { pat: Pat, scrutinee: Box<Expr> },
    /// `match scrutinee { arms }`
    Match { scrutinee: Box<Expr>, arms: Vec<Arm> },
    /// A macro invocation; its tokens are not looked into.
    Macro { path: Path, tokens: String },
}

/// The views of a sequence of types, in order.
pub open spec fn types_view(v: Seq<Type>) -> Seq<TypeV>
    decreases v,
{
    Seq::new(v.len(), |i: int| if 0 <= i < v.len() { type_view(v[i]) } else { arbitrary() })
}

/// The views of a sequence of segments, in order.
pub open spec fn segments_view(v: Seq<Segment>) -> Seq<SegmentV>
    decreases v,
{
    Seq::new(v.len(), |i: int| if 0 <= i < v.len() { segment_view(v[i]) } else { arbitrary() })
}

/// The view of a segment.
pub open spec fn segment_view(s: Segment) -> SegmentV
    decreases s,
{
    SegmentV { ident: s.ident@, args: types_view(s.args@) }
}

/// The view of a path.
pub open spec fn path_view(p: Path) -> PathV
    decreases p,
{
    PathV { segments: segments_view(p.segments@) }
}

/// The view of a type.
pub open spec fn type_view(t: Type) -> TypeV
    decreases t,
{
    match t {
        Type::Path(p) => TypeV::Path(path_view(p)),
        Type::Compound { label, args } => TypeV::Compound { label: label@, args: types_view(args@) },
        Type::Opaque(s) => TypeV::Opaque(s@),
    }
}

/// The views of a sequence of patterns, in order.
pub open spec fn pats_view(v: Seq<Pat>) -> Seq<PatV>
    decreases v,
{
    Seq::new(v.len(), |i: int| if 0 <= i < v.len() { pat_view(v[i]) } else { arbitrary() })
}

/// The view of a pattern.
pub open spec fn pat_view(p: Pat) -> PatV
    decreases p,
{
    match p {
        Pat::Wild => PatV::Wild,
        Pat::Ident { name, by_ref, mutable, subpat } => PatV::Ident {
            name: name@,
            by_ref,
            mutable,
            subpat: match subpat {
                Some(q) => Some(Box::new(pat_view(*q))),
                None => None,
            },
        },
        Pat::Lit(s) => PatV::Lit(s@),
        Pat::Typed { pat, ty } => PatV::Typed { pat: Box::new(pat_view(*pat)), ty: type_view(ty) },
        Pat::Compound { label, path, elems } => PatV::Compound {
            label: label@,
            path: match path {
                Some(q) => Some(path_view(q)),
                None => None,
            },
            elems: pats_view(elems@),
        },
    }
}

/// The views of a sequence of expressions, in order.
pub open spec fn exprs_view(v: Seq<Expr>) -> Seq<ExprV>
    decreases v,
{
    Seq::new(v.len(), |i: int| if 0 <= i < v.len() { expr_view(v[i]) } else { arbitrary() })
}

/// The views of a sequence of statements, in order.
pub open spec fn stmts_view(v: Seq<Stmt>) -> Seq<StmtV>
    decreases v,
{
    Seq::new(v.len(), |i: int| if 0 <= i < v.len() { stmt_view(v[i]) } else { arbitrary() })
}

/// The views of a sequence of arms, in order.
pub open spec fn arms_view(v: Seq<Arm>) -> Seq<ArmV>
    decreases v,
{
    Seq::new(v.len(), |i: int| if 0 <= i < v.len() { arm_view(v[i]) } else { arbitrary() })
}

/// The view of an optional expression.
pub open spec fn opt_expr_view(o: Option<Expr>) -> Option<ExprV>
    decreases o,
{
    match o {
        Some(e) => Some(expr_view(e)),
        None => None,
    }
}

/// The view of an arm.
pub open spec fn arm_view(a: Arm) -> ArmV
    decreases a,
{
    ArmV { pat: pat_view(a.pat), guard: opt_expr_view(a.guard), body: expr_view(a.body) }
}

/// The view of a statement.
pub open spec fn stmt_view(s: Stmt) -> StmtV
    decreases s,
{
    match s {
        Stmt::Let { pat, init } => StmtV::Let { pat: pat_view(pat), init: opt_expr_view(init) },
        Stmt::Expr { expr, semi } => StmtV::Expr { expr: expr_view(expr), semi },
        Stmt::Item(text) => StmtV::Item(text@),
    }
}

/// The view of an expression.
pub open spec fn expr_view(e: Expr) -> ExprV
    decreases e,
{
    match e {
        Expr::Path(p) => ExprV::Path(path_view(p)),
        Expr::Lit(s) => ExprV::Lit(s@),
        Expr::Call { func, args } => ExprV::Call {
            func: Box::new(expr_view(*func)),
            args: exprs_view(args@),
        },
        Expr::Compound { label, types, operands } => ExprV::Compound {
            label: label@,
            types: types_view(types@),
            operands: exprs_view(operands@),
        },
        Expr::Closure { params, body } => ExprV::Closure {
            params: pats_view(params@),
            body: Box::new(expr_view(*body)),
        },
        Expr::Block(stmts) => ExprV::Block(stmts_view(stmts@)),
        Expr::If { cond, then_branch, else_branch } => ExprV::If {
            cond: Box::new(expr_view(*cond)),
            then_branch: stmts_view(then_branch@),
            else_branch: match else_branch {
                Some(x) => Some(Box::new(expr_view(*x))),
                None => None,
            },
        },
        Expr::Let { pat, scrutinee } => ExprV::Let {
            pat: pat_view(pat),
            scrutinee: Box::new(expr_view(*scrutinee)),
        },
        Expr::Match { scrutinee, arms } => ExprV::Match {
            scrutinee: Box::new(expr_view(*scrutinee)),
            arms: arms_view(arms@),
        },
        Expr::Macro { path, tokens } => ExprV::Macro { path: path_view(path), tokens: tokens@ },
    }
}

impl View for Segment {
    type V = SegmentV;

    open spec fn view(&self) -> SegmentV {
        segment_view(*self)
    }
}

impl View for Path {
    type V = PathV;

    open spec fn view(&self) -> PathV {
        path_view(*self)
    }
}

impl View for Type {
    type V = TypeV;

    open spec fn view(&self) -> TypeV {
        type_view(*self)
    }
}

impl View for Pat {
    type V = PatV;

    open spec fn view(&self) -> PatV {
        pat_view(*self)
    }
}

impl View for Arm {
    type V = ArmV;

    open spec fn view(&self) -> ArmV {
        arm_view(*self)
    }
}

impl View for Stmt {
    type V = StmtV;

    open spec fn view(&self) -> StmtV {
        stmt_view(*self)
    }
}

impl View for Expr {
    type V = ExprV;

    open spec fn view(&self) -> ExprV {
        expr_view(*self)
    }
}

/// A copy of a sequence of types.
pub fn copy_types(v: &Vec<Type>) -> (r: Vec<Type>)
    ensures
        types_view(r@) == types_view(v@),
    decreases v,
{
    let mut r: Vec<Type> = Vec::new();
    let mut i: usize = 0;
    while i < v.len()
        invariant
            i <= v.len(),
            r@.len() == i,
            forall|j: int| 0 <= j < i ==> type_view(r@[j]) == type_view(v@[j]),
        decreases v.len() - i,
    {
        r.push(copy_type(&v[i]));
        i += 1;
    }
    assert(types_view(r@) =~= types_view(v@));
    r
}

/// A copy of a sequence of segments.
pub fn copy_segments(v: &Vec<Segment>) -> (r: Vec<Segment>)
    ensures
        segments_view(r@) == segments_view(v@),
    decreases v,
{
    let mut r: Vec<Segment> = Vec::new();
    let mut i: usize = 0;
    while i < v.len()
        invariant
            i <= v.len(),
            r@.len() == i,
            forall|j: int| 0 <= j < i ==> segment_view(r@[j]) == segment_view(v@[j]),
        decreases v.len() - i,
    {
        let seg = &v[i];
        r.push(Segment { ident: seg.ident.clone(), args: copy_types(&seg.args) });
        i += 1;
    }
    assert(segments_view(r@) =~= segments_view(v@));
    r
}

/// A copy of a path.
pub fn copy_path(p: &Path) -> (r: Path)
    ensures
        r@ == p@,
    decreases p,
{
    Path { segments: copy_segments(&p.segments) }
}

/// A copy of a type.
pub fn copy_type(t: &Type) -> (r: Type)
    ensures
        r@ == t@,
    decreases t,
{
    match t {
        Type::Path(p) => Type::Path(copy_path(p)),
        Type::Compound { label, args } => Type::Compound {
            label: label.clone(),
            args: copy_types(args),
        },
        Type::Opaque(s) => Type::Opaque(s.clone()),
    }
}

/// A copy of a sequence of patterns.
pub fn copy_pats(v: &Vec<Pat>) -> (r: Vec<Pat>)
    ensures
        pats_view(r@) == pats_view(v@),
    decreases v,
{
    let mut r: Vec<Pat> = Vec::new();
    let mut i: usize = 0;
    while i < v.len()
        invariant
            i <= v.len(),
            r@.len() == i,
            forall|j: int| 0 <= j < i ==> pat_view(r@[j]) == pat_view(v@[j]),
        decreases v.len() - i,
    {
        r.push(copy_pat(&v[i]));
        i += 1;
    }
    assert(pats_view(r@) =~= pats_view(v@));
    r
}

/// A copy of a pattern.
pub fn copy_pat(p: &Pat) -> (r: Pat)
    ensures
        r@ == p@,
    decreases p,
{
    match p {
        Pat::Wild => Pat::Wild,
        Pat::Ident { name, by_ref, mutable, subpat } => Pat::Ident {
            name: name.clone(),
            by_ref: *by_ref,
            mutable: *mutable,
            subpat: match subpat {
                Some(q) => Some(Box::new(copy_pat(q))),
                None => None,
            },
        },
        Pat::Lit(s) => Pat::Lit(s.clone()),
        Pat::Typed { pat, ty } => Pat::Typed { pat: Box::new(copy_pat(pat)), ty: copy_type(ty) },
        Pat::Compound { label, path, elems } => Pat::Compound {
            label: label.clone(),
            path: match path {
                Some(q) => Some(copy_path(q)),
                None => None,
            },
            elems: copy_pats(elems),
        },
    }
}

/// A copy of a sequence of expressions.
pub fn copy_exprs(v: &Vec<Expr>) -> (r: Vec<Expr>)
    ensures
        exprs_view(r@) == exprs_view(v@),
    decreases v,
{
    let mut r: Vec<Expr> = Vec::new();
    let mut i: usize = 0;
    while i < v.len()
        invariant
            i <= v.len(),
            r@.len() == i,
            forall|j: int| 0 <= j < i ==> expr_view(r@[j]) == expr_view(v@[j]),
        decreases v.len() - i,
    {
        r.push(copy_expr(&v[i]));
        i += 1;
    }
    assert(exprs_view(r@) =~= exprs_view(v@));
    r
}

/// A copy of a sequence of statements.
pub fn copy_stmts(v: &Vec<Stmt>) -> (r: Vec<Stmt>)
    ensures
        stmts_view(r@) == stmts_view(v@),
    decreases v,
{
    let mut r: Vec<Stmt> = Vec::new();
    let mut i: usize = 0;
    while i < v.len()
        invariant
            i <= v.len(),
            r@.len() == i,
            forall|j: int| 0 <= j < i ==> stmt_view(r@[j]) == stmt_view(v@[j]),
        decreases v.len() - i,
    {
        r.push(copy_stmt(&v[i]));
        i += 1;
    }
    assert(stmts_view(r@) =~= stmts_view(v@));
    r
}

/// A copy of a sequence of arms.
pub fn copy_arms(v: &Vec<Arm>) -> (r: Vec<Arm>)
    ensures
        arms_view(r@) == arms_view(v@),
    decreases v,
{
    let mut r: Vec<Arm> = Vec::new();
    let mut i: usize = 0;
    while i < v.len()
        invariant
            i <= v.len(),
            r@.len() == i,
            forall|j: int| 0 <= j < i ==> arm_view(r@[j]) == arm_view(v@[j]),
        decreases v.len() - i,
    {
        let arm = &v[i];
        r.push(
            Arm {
                pat: copy_pat(&arm.pat),
                guard: copy_opt_expr(&arm.guard),
                body: copy_expr(&arm.body),
            },
        );
        i += 1;
    }
    assert(arms_view(r@) =~= arms_view(v@));
    r
}

/// A copy of an optional expression.
pub fn copy_opt_expr(o: &Option<Expr>) -> (r: Option<Expr>)
    ensures
        opt_expr_view(r) == opt_expr_view(*o),
    decreases o,
{
    match o {
        Some(e) => Some(copy_expr(e)),
        None => None,
    }
}

/// A copy of a statement.
pub fn copy_stmt(s: &Stmt) -> (r: Stmt)
    ensures
        r@ == s@,
    decreases s,
{
    match s {
        Stmt::Let { pat, init } => Stmt::Let { pat: copy_pat(pat), init: copy_opt_expr(init) },
        Stmt::Expr { expr, semi } => Stmt::Expr { expr: copy_expr(expr), semi: *semi },
        Stmt::Item(text) => Stmt::Item(text.clone()),
    }
}

/// A copy of an expression.
pub fn copy_expr(e: &Expr) -> (r: Expr)
    ensures
        r@ == e@,
    decreases e,
{
    match e {
        Expr::Path(p) => Expr::Path(copy_path(p)),
        Expr::Lit(s) => Expr::Lit(s.clone()),
        Expr::Call { func, args } => Expr::Call {
            func: Box::new(copy_expr(func)),
            args: copy_exprs(args),
        },
        Expr::Compound { label, types, operands } => Expr::Compound {
            label: label.clone(),
            types: copy_types(types),
            operands: copy_exprs(operands),
        },
        Expr::Closure { params, body } => Expr::Closure {
            params: copy_pats(params),
            body: Box::new(copy_expr(body)),
        },
        Expr::Block(stmts) => Expr::Block(copy_stmts(stmts)),
        Expr::If { cond, then_branch, else_branch } => Expr::If {
            cond: Box::new(copy_expr(cond)),
            then_branch: copy_stmts(then_branch),
            else_branch: match else_branch {
                Some(x) => Some(Box::new(copy_expr(x))),
                None => None,
            },
        },
        Expr::Let { pat, scrutinee } => Expr::Let {
            pat: copy_pat(pat),
            scrutinee: Box::new(copy_expr(scrutinee)),
        },
        Expr::Match { scrutinee, arms } => Expr::Match {
            scrutinee: Box::new(copy_expr(scrutinee)),
            arms: copy_arms(arms),
        },
        Expr::Macro { path, tokens } => Expr::Macro { path: copy_path(path), tokens: tokens.clone() },
    }
}

impl Clone for Segment {
    fn clone(&self) -> (r: Self)
        ensures
            r@ == self@,
    {
        Segment { ident: self.ident.clone(), args: copy_types(&self.args) }
    }
}

impl Clone for Path {
    fn clone(&self) -> (r: Self)
        ensures
            r@ == self@,
    {
        copy_path(self)
    }
}

impl Clone for Type {
    fn clone(&self) -> (r: Self)
        ensures
            r@ == self@,
    {
        copy_type(self)
    }
}

impl Clone for Pat {
    fn clone(&self) -> (r: Self)
        ensures
            r@ == self@,
    {
        copy_pat(self)
    }
}

impl Clone for Arm {
    fn clone(&self) -> (r: Self)
        ensures
            r@ == self@,
    {
        Arm {
            pat: copy_pat(&self.pat),
            guard: copy_opt_expr(&self.guard),
            body: copy_expr(&self.body),
        }
    }
}

impl Clone for Stmt {
    fn clone(&self) -> (r: Self)
        ensures
            r@ == self@,
    {
        copy_stmt(self)
    }
}

impl Clone for Expr {
    fn clone(&self) -> (r: Self)
        ensures
            r@ == self@,
    {
        copy_expr(self)
    }
}

/// A generic parameter, with its bounds.
pub struct GenericParamV {
    pub name: Seq<char>,
    pub bounds: Seq<TypeV>,
}

/// One predicate of a `where` clause: the parameters it introduces, the type
/// it bounds, and the bounds.
pub struct WherePredicateV {
    pub params: Seq<GenericParamV>,
    pub bounded: TypeV,
    pub bounds: Seq<TypeV>,
}

/// A `where` clause.
pub struct WhereClauseV {
    pub predicates: Seq<WherePredicateV>,
}

/// A generic parameter, with its bounds.
#[derive(Debug, PartialEq, Eq)]
pub struct GenericParam {
    pub name: String,
    pub bounds: Vec<Type>,
}

/// One predicate of a `where` clause: the parameters it introduces, the type
/// it bounds, and the bounds.
#[derive(Debug, PartialEq, Eq)]
pub struct WherePredicate {
    pub params: Vec<GenericParam>,
    pub bounded: Type,
    pub bounds: Vec<Type>,
}

/// A `where` clause.
#[derive(Debug, PartialEq, Eq)]
pub struct WhereClause {
    pub predicates: Vec<WherePredicate>,
}

impl View for GenericParam {
    type V = GenericParamV;

    open spec fn view(&self) -> GenericParamV {
        GenericParamV { name: self.name@, bounds: types_view(self.bounds@) }
    }
}

/// The views of a sequence of generic parameters, in order.
pub open spec fn params_view(v: Seq<GenericParam>) -> Seq<GenericParamV> {
    Seq::new(v.len(), |i: int| v[i]@)
}

impl View for WherePredicate {
    type V = WherePredicateV;

    open spec fn view(&self) -> WherePredicateV {
        WherePredicateV {
            params: params_view(self.params@),
            bounded: self.bounded@,
            bounds: types_view(self.bounds@),
        }
    }
}

/// The views of a sequence of predicates, in order.
pub open spec fn predicates_view(v: Seq<WherePredicate>) -> Seq<WherePredicateV> {
    Seq::new(v.len(), |i: int| v[i]@)
}

impl View for WhereClause {
    type V = WhereClauseV;

    open spec fn view(&self) -> WhereClauseV {
        WhereClauseV { predicates: predicates_view(self.predicates@) }
    }
}

impl Clone for GenericParam {
    fn clone(&self) -> (r: Self)
        ensures
            r@ == self@,
    {
        GenericParam { name: self.name.clone(), bounds: copy_types(&self.bounds) }
    }
}

impl Clone for WherePredicate {
    fn clone(&self) -> (r: Self)
        ensures
            r@ == self@,
    {
        let mut params: Vec<GenericParam> = Vec::new();
        let mut i: usize = 0;
        while i < self.params.len()
            invariant
                i <= self.params.len(),
                params@.len() == i,
                forall|j: int| 0 <= j < i ==> params@[j]@ == self.params@[j]@,
            decreases self.params.len() - i,
        {
            params.push(self.params[i].clone());
            i += 1;
        }
        assert(params_view(params@) =~= params_view(self.params@));
        WherePredicate {
            params,
            bounded: copy_type(&self.bounded),
            bounds: copy_types(&self.bounds),
        }
    }
}

impl Clone for WhereClause {
    fn clone(&self) -> (r: Self)
        ensures
            r@ == self@,
    {
        let mut predicates: Vec<WherePredicate> = Vec::new();
        let mut i: usize = 0;
        while i < self.predicates.len()
            invariant
                i <= self.predicates.len(),
                predicates@.len() == i,
                forall|j: int| 0 <= j < i ==> predicates@[j]@ == self.predicates@[j]@,
            decreases self.predicates.len() - i,
        {
            predicates.push(self.predicates[i].clone());
            i += 1;
        }
        assert(predicates_view(predicates@) =~= predicates_view(self.predicates@));
        WhereClause { predicates }
    }
}

/// The path of the one segment `name`, without generic arguments.
pub open spec fn ident_path(name: Seq<char>) -> PathV {
    PathV { segments: seq![SegmentV { ident: name, args: Seq::empty() }] }
}

impl Path {
    /// The path of the one segment `name`.
    pub fn ident(name: &str) -> (r: Self)
        ensures
            r@ == ident_path(name@),
    {
        let mut segments: Vec<Segment> = Vec::new();
        segments.push(Segment { ident: name.to_owned(), args: Vec::new() });
        let r = Path { segments };
        assert(types_view(Seq::<Type>::empty()) =~= Seq::<TypeV>::empty());
        assert(r@.segments =~= ident_path(name@).segments);
        r
    }

    /// The path of the segments `names`, without generic arguments.
    pub fn of(names: &[&str]) -> (r: Self)
        ensures
            r@.segments.len() == names@.len(),
            forall|i: int|
                0 <= i < names@.len() ==> (#[trigger] r@.segments[i]) == (SegmentV {
                    ident: names@[i]@,
                    args: Seq::empty(),
                }),
    {
        let mut segments: Vec<Segment> = Vec::new();
        let mut i: usize = 0;
        assert(types_view(Seq::<Type>::empty()) =~= Seq::<TypeV>::empty());
        while i < names.len()
            invariant
                i <= names.len(),
                segments@.len() == i,
                forall|j: int|
                    0 <= j < i ==> segment_view(#[trigger] segments@[j]) == (SegmentV {
                        ident: names@[j]@,
                        args: Seq::empty(),
                    }),
            decreases names.len() - i,
        {
            let segment = Segment { ident: names[i].to_owned(), args: Vec::new() };
            assert(segment_view(segment).args =~= Seq::<TypeV>::empty());
            segments.push(segment);
            i += 1;
        }
        Path { segments }
    }
}

impl Type {
    /// The type named `name`.
    pub fn ident(name: &str) -> (r: Self)
        ensures
            r@ == TypeV::Path(ident_path(name@)),
    {
        Type::Path(Path::ident(name))
    }
}

impl Pat {
    /// The pattern that binds `name`.
    pub fn ident(name: &str) -> (r: Self)
        ensures
            r@ == (PatV::Ident { name: name@, by_ref: false, mutable: false, subpat: None }),
    {
        Pat::Ident { name: name.to_owned(), by_ref: false, mutable: false, subpat: None }
    }
}

impl Expr {
    /// The expression that is the bare name `name`.
    pub fn ident(name: &str) -> (r: Self)
        ensures
            r@ == ExprV::Path(ident_path(name@)),
    {
        Expr::Path(Path::ident(name))
    }

    /// The literal written `text`.
    pub fn lit(text: &str) -> (r: Self)
        ensures
            r@ == ExprV::Lit(text@),
    {
        Expr::Lit(text.to_owned())
    }

    /// The call of `func` on `args`.
    pub fn call(func: Expr, args: Vec<Expr>) -> (r: Self)
        ensures
            r@ == (ExprV::Call { func: Box::new(func@), args: exprs_view(args@) }),
    {
        Expr::Call { func: Box::new(func), args }
    }

    /// The form `label` over the operands `operands`, without types.
    pub fn compound(label: &str, operands: Vec<Expr>) -> (r: Self)
        ensures
            r@ == (ExprV::Compound {
                label: label@,
                types: Seq::empty(),
                operands: exprs_view(operands@),
            }),
    {
        let r = Expr::Compound { label: label.to_owned(), types: Vec::new(), operands };
        assert(r@->Compound_types =~= Seq::empty());
        r
    }

    /// The binary form `lhs op rhs`.
    pub fn binary(op: &str, lhs: Expr, rhs: Expr) -> (r: Self)
        ensures
            r@ == (ExprV::Compound {
                label: op@,
                types: Seq::empty(),
                operands: seq![lhs@, rhs@],
            }),
    {
        let ghost l = lhs@;
        let ghost rr = rhs@;
        let mut operands: Vec<Expr> = Vec::new();
        operands.push(lhs);
        operands.push(rhs);
        assert(exprs_view(operands@) =~= seq![l, rr]);
        Expr::compound(op, operands)
    }

    /// The closure `|params| body`.
    pub fn closure(params: Vec<Pat>, body: Expr) -> (r: Self)
        ensures
            r@ == (ExprV::Closure { params: pats_view(params@), body: Box::new(body@) }),
    {
        Expr::Closure { params, body: Box::new(body) }
    }

    /// The block of the statements `stmts`.
    pub fn block(stmts: Vec<Stmt>) -> (r: Self)
        ensures
            r@ == ExprV::Block(stmts_view(stmts@)),
    {
        Expr::Block(stmts)
    }
}

impl Stmt {
    /// The statement `let pat = init;`.
    pub fn local(pat: Pat, init: Expr) -> (r: Self)
        ensures
            r@ == (StmtV::Let { pat: pat@, init: Some(init@) }),
    {
        Stmt::Let { pat, init: Some(init) }
    }

    /// The expression `expr` as the last statement of a block.
    pub fn tail(expr: Expr) -> (r: Self)
        ensures
            r@ == (StmtV::Expr { expr: expr@, semi: false }),
    {
        Stmt::Expr { expr, semi: false }
    }
}

} // verus!
