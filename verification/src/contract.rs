//! Contracts: a precondition and a postcondition over named inputs.

use crate::names::{same_text, is_text, NameSet};
use crate::subst::partial::{
    bindings_view, copy_bindings, extract_expr, hoist_expr, nodes_view, Binding, BindingV,
    EvalNode, EvalNodeV,
};
use crate::subst::scope::{
    expr_subst, expr_supported, free_vars, type_subst, where_subst, PolicyV,
};
use crate::subst::visitors::{
    collect_expr, is_supported, rewrite_expr, rewrite_type, rewrite_where, table_view,
    ReplaceExpr, ReplaceNames, ReplaceType,
};
use crate::syntax::{
    copy_expr, copy_pat, copy_path, copy_type, exprs_view, segments_view,
    stmts_view, types_view, Expr, ExprV, Pat, PatV, Path, PathV, Stmt, StmtV, Type, TypeV,
    WhereClause, WhereClauseV,
};
use vstd::prelude::*;
use vstd::string::StringExecFns;

verus! {

/// The name of an input.
pub type InputName = String;

/// What an input is.
pub enum InputKindV {
    /// A value of the type `typ`, also known by the names `aliases`.
    Value { typ: TypeV, aliases: Seq<Seq<char>> },
    /// A type that meets `bounds`.
    Type { bounds: WhereClauseV },
}

/// A named input of a contract.
pub struct InputV {
    pub name: Seq<char>,
    pub kind: InputKindV,
}

/// What an input is.
#[derive(Debug, PartialEq, Eq)]
pub enum InputKind {
    /// A value of the type `typ`, also known by the names `aliases`.
    Value { typ: Type, aliases: Vec<InputName> },
    /// A type that meets `bounds`.
    Type { bounds: WhereClause },
}

/// A named input of a contract.
#[derive(Debug, PartialEq, Eq)]
pub struct Input {
    pub name: InputName,
    pub kind: InputKind,
}

/// The texts of a sequence of strings, in order.
pub open spec fn strings_view(v: Seq<String>) -> Seq<Seq<char>> {
    Seq::new(v.len(), |i: int| v[i]@)
}

impl View for InputKind {
    type V = InputKindV;

    open spec fn view(&self) -> InputKindV {
        match self {
            InputKind::Value { typ, aliases } => InputKindV::Value {
                typ: typ@,
                aliases: strings_view(aliases@),
            },
            InputKind::Type { bounds } => InputKindV::Type { bounds: bounds@ },
        }
    }
}

impl View for Input {
    type V = InputV;

    open spec fn view(&self) -> InputV {
        InputV { name: self.name@, kind: self.kind@ }
    }
}

/// The views of a sequence of inputs, in order.
pub open spec fn inputs_view(v: Seq<Input>) -> Seq<InputV> {
    Seq::new(v.len(), |i: int| v[i]@)
}

/// A copy of a sequence of strings.
pub fn copy_strings(v: &Vec<String>) -> (r: Vec<String>)
    ensures
        strings_view(r@) == strings_view(v@),
{
    let mut r: Vec<String> = Vec::new();
    let mut i: usize = 0;
    while i < v.len()
        invariant
            i <= v.len(),
            r@.len() == i,
            forall|j: int| 0 <= j < i ==> r@[j]@ == v@[j]@,
        decreases v.len() - i,
    {
        r.push(v[i].clone());
        i += 1;
    }
    assert(strings_view(r@) =~= strings_view(v@));
    r
}

impl Clone for InputKind {
    fn clone(&self) -> (r: Self)
        ensures
            r@ == self@,
    {
        match self {
            InputKind::Value { typ, aliases } => InputKind::Value {
                typ: copy_type(typ),
                aliases: copy_strings(aliases),
            },
            InputKind::Type { bounds } => InputKind::Type { bounds: bounds.clone() },
        }
    }
}

impl Clone for Input {
    fn clone(&self) -> (r: Self)
        ensures
            r@ == self@,
    {
        Input { name: self.name.clone(), kind: self.kind.clone() }
    }
}

/// A copy of a sequence of inputs.
pub fn copy_inputs(v: &Vec<Input>) -> (r: Vec<Input>)
    ensures
        inputs_view(r@) == inputs_view(v@),
{
    let mut r: Vec<Input> = Vec::new();
    let mut i: usize = 0;
    while i < v.len()
        invariant
            i <= v.len(),
            r@.len() == i,
            forall|j: int| 0 <= j < i ==> r@[j]@ == v@[j]@,
        decreases v.len() - i,
    {
        r.push(v[i].clone());
        i += 1;
    }
    assert(inputs_view(r@) =~= inputs_view(v@));
    r
}

/// A line and a column of a source file.
#[derive(Clone, Copy, Debug, PartialEq, Eq)]
pub struct LineColumn {
    pub line: usize,
    pub column: usize,
}

/// Where a contract was written down.
#[derive(Debug, PartialEq, Eq)]
pub struct Span {
    /// Where the span starts.
    pub start: LineColumn,
    /// The number of bytes of the span.
    pub bytes: usize,
    /// The file of the span, if it is known.
    pub file: Option<String>,
}

impl Span {
    /// A span that stands for no place.
    pub fn dummy() -> (r: Self)
        ensures
            r.start == (LineColumn { line: 0, column: 0 }),
            r.bytes == 0,
            r.file.is_none(),
    {
        Span { start: LineColumn { line: 0, column: 0 }, bytes: 0, file: None }
    }
}

impl Clone for Span {
    fn clone(&self) -> (r: Self)
        ensures
            r.start == self.start,
            r.bytes == self.bytes,
            r.file.is_some() == self.file.is_some(),
            r.file.is_some() ==> r.file.unwrap()@ == self.file.unwrap()@,
    {
        Span {
            start: self.start,
            bytes: self.bytes,
            file: match &self.file {
                Some(f) => Some(f.clone()),
                None => None,
            },
        }
    }
}

/// What a contract asks of one of the crates it depends on, in the words of
/// a manifest: a version requirement, or a table.
#[derive(Debug, PartialEq, Eq)]
pub struct DependencySpec(pub String);

impl View for DependencySpec {
    type V = Seq<char>;

    open spec fn view(&self) -> Seq<char> {
        self.0@
    }
}

impl Clone for DependencySpec {
    fn clone(&self) -> (r: Self)
        ensures
            r@ == self@,
    {
        DependencySpec(self.0.clone())
    }
}

impl Default for DependencySpec {
    /// The empty table.
    fn default() -> (r: Self)
        ensures
            r@ == "{}"@,
    {
        DependencySpec(String::from_str("{}"))
    }
}

/// What `deps` asks of the crate `name`: what its first entry for `name`
/// says.
pub open spec fn requirement(deps: Seq<(Seq<char>, Seq<char>)>, name: Seq<char>) -> Option<
    Seq<char>,
>
    decreases deps.len(),
{
    if deps.len() == 0 {
        None
    } else if deps[0].0 == name {
        Some(deps[0].1)
    } else {
        requirement(deps.drop_first(), name)
    }
}

/// Whether two sets of dependencies ask the same of every crate that both
/// name.
pub open spec fn compatible(a: Seq<(Seq<char>, Seq<char>)>, b: Seq<(Seq<char>, Seq<char>)>) -> bool {
    forall|name: Seq<char>|
        (#[trigger] requirement(a, name)).is_some() && requirement(b, name).is_some()
            ==> requirement(a, name) == requirement(b, name)
}

/// What a dependency set asks once the requirements of `b` are added to
/// those of `a`: the entries of `a`, then the entries of `b` for the crates
/// that no entry before them names.
pub open spec fn merged(a: Seq<(Seq<char>, Seq<char>)>, b: Seq<(Seq<char>, Seq<char>)>) -> Seq<
    (Seq<char>, Seq<char>),
>
    decreases b.len(),
{
    if b.len() == 0 {
        a
    } else {
        let before = merged(a, b.drop_last());
        if requirement(before, b.last().0).is_some() {
            before
        } else {
            before.push(b.last())
        }
    }
}

/// The crates that a contract depends on, each with what is asked of it.
#[derive(Debug, PartialEq, Eq)]
pub struct Dependencies {
    entries: Vec<(String, DependencySpec)>,
}

impl View for Dependencies {
    type V = Seq<(Seq<char>, Seq<char>)>;

    closed spec fn view(&self) -> Seq<(Seq<char>, Seq<char>)> {
        Seq::new(self.entries@.len(), |i: int| (self.entries@[i].0@, self.entries@[i].1@))
    }
}

/// The requirement on a name that heads the list is the first entry's.
pub proof fn lemma_requirement_suffix(deps: Seq<(Seq<char>, Seq<char>)>, i: int, name: Seq<char>)
    requires
        0 <= i <= deps.len(),
        forall|j: int| 0 <= j < i ==> (#[trigger] deps[j]).0 != name,
    ensures
        requirement(deps, name) == requirement(deps.subrange(i, deps.len() as int), name),
    decreases i,
{
    if i == 0 {
        assert(deps.subrange(0, deps.len() as int) =~= deps);
    } else {
        lemma_requirement_suffix(deps, i - 1, name);
        let rest = deps.subrange(i - 1, deps.len() as int);
        assert(rest[0] == deps[i - 1]);
        assert(rest.drop_first() =~= deps.subrange(i, deps.len() as int));
    }
}

/// Adding an entry at the end changes the requirement on the crate it names
/// only where no entry named it before.
pub proof fn lemma_requirement_push(
    deps: Seq<(Seq<char>, Seq<char>)>,
    entry: (Seq<char>, Seq<char>),
    name: Seq<char>,
)
    ensures
        requirement(deps.push(entry), name) == (if requirement(deps, name).is_some() {
            requirement(deps, name)
        } else if entry.0 == name {
            Some(entry.1)
        } else {
            None
        }),
    decreases deps.len(),
{
    let longer = deps.push(entry);
    if deps.len() == 0 {
        assert(longer[0] == entry);
        assert(longer.drop_first().len() == 0);
        assert(requirement(longer.drop_first(), name).is_none());
    } else {
        assert(longer[0] == deps[0]);
        if deps[0].0 != name {
            assert(longer.drop_first() =~= deps.drop_first().push(entry));
            lemma_requirement_push(deps.drop_first(), entry, name);
            assert(requirement(longer, name) == requirement(longer.drop_first(), name));
            assert(requirement(deps, name) == requirement(deps.drop_first(), name));
        }
    }
}

impl Dependencies {
    /// No dependencies.
    pub fn new() -> (r: Self)
        ensures
            r@ == Seq::<(Seq<char>, Seq<char>)>::empty(),
    {
        let r = Dependencies { entries: Vec::new() };
        assert(r@ =~= Seq::<(Seq<char>, Seq<char>)>::empty());
        r
    }

    /// The number of entries.
    pub fn len(&self) -> (r: usize)
        ensures
            r == self@.len(),
    {
        self.entries.len()
    }

    /// The name of entry `i`.
    pub fn name(&self, i: usize) -> (r: &String)
        requires
            i < self@.len(),
        ensures
            r@ == self@[i as int].0,
    {
        &self.entries[i].0
    }

    /// What entry `i` asks.
    pub fn spec(&self, i: usize) -> (r: &DependencySpec)
        requires
            i < self@.len(),
        ensures
            r@ == self@[i as int].1,
    {
        &self.entries[i].1
    }

    /// What is asked of the crate `name`.
    pub fn get(&self, name: &String) -> (r: Option<&DependencySpec>)
        ensures
            match r {
                Some(spec) => requirement(self@, name@) == Some(spec@),
                None => requirement(self@, name@).is_none(),
            },
    {
        let mut i: usize = 0;
        while i < self.entries.len()
            invariant
                i <= self.entries.len(),
                forall|j: int| 0 <= j < i ==> (#[trigger] self@[j]).0 != name@,
            decreases self.entries.len() - i,
        {
            proof {
                lemma_requirement_suffix(self@, i as int, name@);
                let rest = self@.subrange(i as int, self@.len() as int);
                assert(rest[0] == self@[i as int]);
            }
            if same_text(&self.entries[i].0, name) {
                return Some(&self.entries[i].1);
            }
            i += 1;
        }
        proof {
            lemma_requirement_suffix(self@, i as int, name@);
        }
        None
    }

    /// Asks `spec` of the crate `name`, unless something is asked of it
    /// already. Says whether the entry was added.
    pub fn insert(&mut self, name: String, spec: DependencySpec) -> (r: bool)
        ensures
            r == requirement(old(self)@, name@).is_none(),
            r ==> final(self)@ == old(self)@.push((name@, spec@)),
            !r ==> final(self)@ == old(self)@,
    {
        if self.get(&name).is_some() {
            false
        } else {
            self.entries.push((name, spec));
            assert(self@ =~= old(self)@.push((name@, spec@)));
            true
        }
    }

    /// A copy of the dependencies.
    pub fn copy(&self) -> (r: Self)
        ensures
            r@ == self@,
    {
        let mut entries: Vec<(String, DependencySpec)> = Vec::new();
        let mut i: usize = 0;
        while i < self.entries.len()
            invariant
                i <= self.entries.len(),
                entries@.len() == i,
                forall|j: int|
                    0 <= j < i ==> entries@[j].0@ == self.entries@[j].0@ && entries@[j].1@
                        == self.entries@[j].1@,
            decreases self.entries.len() - i,
        {
            entries.push((self.entries[i].0.clone(), self.entries[i].1.clone()));
            i += 1;
        }
        let r = Dependencies { entries };
        assert(r@ =~= self@);
        r
    }

    /// Whether the dependencies and `other` ask the same of every crate that
    /// both name.
    pub fn compatible_with(&self, other: &Dependencies) -> (r: bool)
        ensures
            r == compatible(self@, other@),
    {
        let mut i: usize = 0;
        while i < self.entries.len()
            invariant
                i <= self.entries.len(),
                forall|j: int|
                    0 <= j < i ==> requirement(other@, (#[trigger] self@[j]).0).is_none()
                        || requirement(other@, self@[j].0) == requirement(self@, self@[j].0),
            decreases self.entries.len() - i,
        {
            let name = &self.entries[i].0;
            assert(self@[i as int].0 == name@);
            match other.get(name) {
                Some(theirs) => {
                    let ours = self.get(name);
                    let same = match ours {
                        Some(spec) => same_text(&spec.0, &theirs.0),
                        None => false,
                    };
                    proof {
                        lemma_requirement_present(self@, i as int);
                    }
                    if !same {
                        assert(requirement(self@, name@).is_some());
                        return false;
                    }
                },
                None => {},
            }
            i += 1;
        }
        proof {
            assert forall|name: Seq<char>|
                (#[trigger] requirement(self@, name)).is_some() && requirement(
                    other@,
                    name,
                ).is_some() implies requirement(self@, name) == requirement(other@, name) by {
                let j = lemma_requirement_witness(self@, name);
                assert(self@[j].0 == name);
            }
        }
        true
    }

    /// Adds the requirements of `other` on the crates that the dependencies do
    /// not name yet.
    pub fn merge(&mut self, other: &Dependencies)
        ensures
            final(self)@ == merged(old(self)@, other@),
    {
        let mut i: usize = 0;
        assert(other@.take(0) =~= Seq::empty());
        while i < other.entries.len()
            invariant
                i <= other.entries.len(),
                self@ == merged(old(self)@, other@.take(i as int)),
            decreases other.entries.len() - i,
        {
            proof {
                let longer = other@.take(i + 1);
                assert(longer.drop_last() =~= other@.take(i as int));
                assert(longer.last() == other@[i as int]);
            }
            let name = other.entries[i].0.clone();
            let spec = other.entries[i].1.clone();
            self.insert(name, spec);
            i += 1;
        }
        assert(other@.take(other@.len() as int) =~= other@);
    }
}

/// A name that has a requirement has an entry.
pub proof fn lemma_requirement_witness(deps: Seq<(Seq<char>, Seq<char>)>, name: Seq<char>) -> (j:
    int)
    requires
        requirement(deps, name).is_some(),
    ensures
        0 <= j < deps.len(),
        deps[j].0 == name,
        requirement(deps, name) == Some(deps[j].1),
    decreases deps.len(),
{
    if deps[0].0 == name {
        0
    } else {
        let k = lemma_requirement_witness(deps.drop_first(), name);
        k + 1
    }
}

/// The name of an entry has a requirement.
pub proof fn lemma_requirement_present(deps: Seq<(Seq<char>, Seq<char>)>, i: int)
    requires
        0 <= i < deps.len(),
    ensures
        requirement(deps, deps[i].0).is_some(),
    decreases i,
{
    if deps[0].0 != deps[i].0 {
        assert(deps.drop_first()[i - 1] == deps[i]);
        lemma_requirement_present(deps.drop_first(), i - 1);
    }
}

/// What merged dependencies ask of a crate is what the first set asks of
/// it, and what the second asks where the first asks nothing.
pub proof fn lemma_requirement_merged(
    a: Seq<(Seq<char>, Seq<char>)>,
    b: Seq<(Seq<char>, Seq<char>)>,
    name: Seq<char>,
)
    ensures
        requirement(merged(a, b), name) == (if requirement(a, name).is_some() {
            requirement(a, name)
        } else {
            requirement(b, name)
        }),
    decreases b.len(),
{
    if b.len() > 0 {
        let before = merged(a, b.drop_last());
        lemma_requirement_merged(a, b.drop_last(), name);
        lemma_requirement_push(before, b.last(), name);
        lemma_requirement_push(b.drop_last(), b.last(), name);
        assert(b.drop_last().push(b.last()) =~= b);
        if requirement(before, b.last().0).is_some() {
            lemma_requirement_merged(a, b.drop_last(), b.last().0);
        }
    }
}

/// An input value that needs a setup before it can be used: it is brought
/// in by a binding, after the bindings of its setup.
pub struct ComplexInputValueV {
    pub bindings: Seq<BindingV>,
    pub mutable: bool,
    pub rhs: ExprV,
}

/// An input value that needs a setup before it can be used: it is brought
/// in by a binding, after the bindings of its setup.
#[derive(Debug, PartialEq, Eq)]
pub struct ComplexInputValue {
    /// The bindings of the setup, in order.
    pub bindings: Vec<Binding>,
    /// Whether the binding of the value is mutable.
    pub mutable: bool,
    /// The value that is bound.
    pub rhs: Expr,
}

impl View for ComplexInputValue {
    type V = ComplexInputValueV;

    open spec fn view(&self) -> ComplexInputValueV {
        ComplexInputValueV {
            bindings: bindings_view(self.bindings@),
            mutable: self.mutable,
            rhs: self.rhs@,
        }
    }
}

impl Clone for ComplexInputValue {
    fn clone(&self) -> (r: Self)
        ensures
            r@ == self@,
    {
        ComplexInputValue {
            bindings: copy_bindings(&self.bindings),
            mutable: self.mutable,
            rhs: copy_expr(&self.rhs),
        }
    }
}

/// What is put in place of an input.
pub enum InputInstanceV {
    ComplexValue(ComplexInputValueV),
    SimpleValue(ExprV),
    SimpleType(TypeV),
}

/// What is put in place of an input.
#[derive(Debug, PartialEq, Eq)]
pub enum InputInstance {
    /// A value that is brought in by bindings.
    ComplexValue(ComplexInputValue),
    /// An expression that takes the place of the input.
    SimpleValue(Expr),
    /// A type that takes the place of the input.
    SimpleType(Type),
}

impl View for InputInstance {
    type V = InputInstanceV;

    open spec fn view(&self) -> InputInstanceV {
        match self {
            InputInstance::ComplexValue(c) => InputInstanceV::ComplexValue(c@),
            InputInstance::SimpleValue(e) => InputInstanceV::SimpleValue(e@),
            InputInstance::SimpleType(t) => InputInstanceV::SimpleType(t@),
        }
    }
}

impl Clone for InputInstance {
    fn clone(&self) -> (r: Self)
        ensures
            r@ == self@,
    {
        match self {
            InputInstance::ComplexValue(c) => InputInstance::ComplexValue(c.clone()),
            InputInstance::SimpleValue(e) => InputInstance::SimpleValue(copy_expr(e)),
            InputInstance::SimpleType(t) => InputInstance::SimpleType(copy_type(t)),
        }
    }
}

/// The precondition of a contract whose inputs are all values: the inputs
/// with their types, and the predicate over them.
#[derive(Debug, PartialEq, Eq)]
pub struct Precondition {
    pub inputs: Vec<(String, Type)>,
    pub predicate: Expr,
}

/// A contract, as a value.
pub struct ContractV {
    pub inputs: Seq<InputV>,
    pub description: Seq<char>,
    pub precondition: ExprV,
    pub postcondition: ExprV,
    pub dependencies: Seq<(Seq<char>, Seq<char>)>,
    pub use_statements: Seq<Seq<char>>,
    pub function_tested: Option<PathV>,
    pub tests: nat,
}

/// A contract: what a function is expected to do, as a precondition and a
/// postcondition over named inputs.
#[derive(Debug, PartialEq, Eq)]
pub struct Contract {
    /// The inputs of the contract.
    pub inputs: Vec<Input>,
    /// What the contract says, in words.
    pub description: String,
    /// What must hold of the inputs.
    pub precondition: Expr,
    /// What then holds.
    pub postcondition: Expr,
    /// Where the contract was written down.
    pub span: Span,
    /// The crates that the contract depends on.
    pub dependencies: Dependencies,
    /// The imports in whose scope the contract is read, each as source text.
    pub use_statements: Vec<String>,
    /// The function that the contract is about, if it names one.
    pub function_tested: Option<Path>,
    /// The number of instances wanted.
    pub tests: usize,
}

impl View for Contract {
    type V = ContractV;

    open spec fn view(&self) -> ContractV {
        ContractV {
            inputs: inputs_view(self.inputs@),
            description: self.description@,
            precondition: self.precondition@,
            postcondition: self.postcondition@,
            dependencies: self.dependencies@,
            use_statements: strings_view(self.use_statements@),
            function_tested: match self.function_tested {
                Some(p) => Some(p@),
                None => None,
            },
            tests: self.tests as nat,
        }
    }
}

impl Clone for Contract {
    fn clone(&self) -> (r: Self)
        ensures
            r@ == self@,
    {
        Contract {
            inputs: copy_inputs(&self.inputs),
            description: self.description.clone(),
            precondition: copy_expr(&self.precondition),
            postcondition: copy_expr(&self.postcondition),
            span: self.span.clone(),
            dependencies: self.dependencies.copy(),
            use_statements: copy_strings(&self.use_statements),
            function_tested: match &self.function_tested {
                Some(p) => Some(copy_path(p)),
                None => None,
            },
            tests: self.tests,
        }
    }
}

/// The expression `true`, the condition of a contract that says nothing.
pub open spec fn default_condition() -> ExprV {
    ExprV::Lit("true"@)
}

/// The expression `true`.
pub fn default_expr() -> (r: Expr)
    ensures
        r@ == default_condition(),
{
    Expr::Lit(String::from_str("true"))
}

/// The names by which an input is known: its name, then its aliases.
pub open spec fn input_names(input: InputV) -> Seq<Seq<char>> {
    match input.kind {
        InputKindV::Value { typ, aliases } => seq![input.name] + aliases,
        InputKindV::Type { bounds } => seq![input.name],
    }
}

/// The index of the first input named `name`.
pub open spec fn find_input(inputs: Seq<InputV>, name: Seq<char>) -> Option<int> {
    if exists|i: int| 0 <= i < inputs.len() && (#[trigger] inputs[i]).name == name {
        Some(first_named(inputs, name, 0))
    } else {
        None
    }
}

/// The least index from `from` on of an input named `name`.
pub open spec fn first_named(inputs: Seq<InputV>, name: Seq<char>, from: int) -> int
    decreases inputs.len() - from,
{
    if from >= inputs.len() {
        from
    } else if inputs[from].name == name {
        from
    } else {
        first_named(inputs, name, from + 1)
    }
}

/// The policy that puts the instance `value` in place of `name`.
pub open spec fn replacing(name: Seq<char>, value: InputInstanceV) -> PolicyV {
    match value {
        InputInstanceV::SimpleValue(e) => PolicyV::Expr { name, expr: e },
        InputInstanceV::SimpleType(t) => PolicyV::Type { name, ty: t },
        InputInstanceV::ComplexValue(_) => PolicyV::Keep,
    }
}

/// Expression `e` with `value` put in place of each of `names` in turn.
pub open spec fn subst_all(e: ExprV, names: Seq<Seq<char>>, value: InputInstanceV) -> ExprV
    decreases names.len(),
{
    if names.len() == 0 {
        e
    } else {
        expr_subst(
            subst_all(e, names.drop_last(), value),
            Set::empty(),
            replacing(names.last(), value),
        )
    }
}

/// An input with `value` put in place of each of `names` in turn, in its
/// type or its bounds.
pub open spec fn input_subst_all(input: InputV, names: Seq<Seq<char>>, value: InputInstanceV) -> InputV
    decreases names.len(),
{
    if names.len() == 0 {
        input
    } else {
        let before = input_subst_all(input, names.drop_last(), value);
        let policy = replacing(names.last(), value);
        InputV {
            name: before.name,
            kind: match before.kind {
                InputKindV::Value { typ, aliases } => InputKindV::Value {
                    typ: type_subst(typ, Set::empty(), policy),
                    aliases,
                },
                InputKindV::Type { bounds } => InputKindV::Type {
                    bounds: where_subst(bounds, Set::empty(), policy),
                },
            },
        }
    }
}

/// Expression `e` behind the statement `stmt`: the statement becomes the
/// first of the block that `e` is, or of a new block around `e`.
pub open spec fn prepend_local(e: ExprV, stmt: StmtV) -> ExprV {
    match e {
        ExprV::Block(stmts) => ExprV::Block(seq![stmt] + stmts),
        _ => ExprV::Block(seq![stmt, StmtV::Expr { expr: e, semi: false }]),
    }
}

/// The statement `let pat = value;`.
pub open spec fn let_stmt(pat: PatV, value: ExprV) -> StmtV {
    StmtV::Let { pat, init: Some(value) }
}

/// The pattern `mut name`.
pub open spec fn mut_binding(name: Seq<char>) -> PatV {
    PatV::Ident { name, by_ref: false, mutable: true, subpat: None }
}

/// Expression `e` behind the first `k` of the bindings `bindings`, in order.
pub open spec fn prepend_bindings(e: ExprV, bindings: Seq<BindingV>, k: int) -> ExprV
    decreases bindings.len() - k,
{
    if k >= bindings.len() || k < 0 {
        e
    } else {
        prepend_local(
            prepend_bindings(e, bindings, k + 1),
            let_stmt(bindings[k].pat, bindings[k].value),
        )
    }
}

/// Expression `e` behind what brings in a complex value under `name`: the
/// binding of `name` to the value, then the bindings of the setup.
pub open spec fn prepend_complex(e: ExprV, name: Seq<char>, value: ComplexInputValueV) -> ExprV {
    prepend_local(
        prepend_bindings(e, value.bindings, 0),
        let_stmt(mut_binding(name), value.rhs),
    )
}

/// Expression `e` behind what brings in a complex value under each of
/// `names` in turn.
pub open spec fn prepend_all(e: ExprV, names: Seq<Seq<char>>, value: ComplexInputValueV) -> ExprV
    decreases names.len(),
{
    if names.len() == 0 {
        e
    } else {
        prepend_complex(prepend_all(e, names.drop_last(), value), names.last(), value)
    }
}

/// The condition `e` once the instance `value` stands for `names`.
pub open spec fn condition_instantiated(e: ExprV, names: Seq<Seq<char>>, value: InputInstanceV) -> ExprV {
    match value {
        InputInstanceV::ComplexValue(c) => prepend_all(e, names, c),
        _ => subst_all(e, names, value),
    }
}

/// The inputs left once input `idx` was instantiated with `value`: the
/// inputs before it as they are, those after it with `value` in place of the
/// names of the input, where the value takes the place of names.
pub open spec fn inputs_instantiated(inputs: Seq<InputV>, idx: int, value: InputInstanceV) -> Seq<
    InputV,
> {
    let names = input_names(inputs[idx]);
    Seq::new(
        (inputs.len() - 1) as nat,
        |i: int|
            if i < idx {
                inputs[i]
            } else {
                match value {
                    InputInstanceV::ComplexValue(_) => inputs[i + 1],
                    _ => input_subst_all(inputs[i + 1], names, value),
                }
            },
    )
}

/// The contract `c` once input `idx` was instantiated with `value`.
pub open spec fn instantiated(c: ContractV, idx: int, value: InputInstanceV) -> ContractV {
    let names = input_names(c.inputs[idx]);
    ContractV {
        inputs: inputs_instantiated(c.inputs, idx, value),
        precondition: condition_instantiated(c.precondition, names, value),
        postcondition: condition_instantiated(c.postcondition, names, value),
        ..c
    }
}

/// Whether instantiating an input of `c` with `value` walks the conditions
/// of `c` and finds syntax that the walk does not accept.
pub open spec fn instantiation_refused(c: ContractV, value: InputInstanceV) -> bool {
    !(value is ComplexValue) && !(expr_supported(c.precondition) && expr_supported(
        c.postcondition,
    ))
}

/// Why a contract could not be worked on.
#[derive(Debug, PartialEq, Eq)]
pub enum ContractError {
    /// The contract has no input of the name given.
    NoSuchInput,
    /// A condition of the contract holds syntax that the walk does not accept.
    UnsupportedSyntax,
    /// The values given are not as many as the inputs of the contract.
    WrongNumberOfValues,
}

/// Instantiating an input that has one alias puts the one value in place of
/// the name of the input and of its alias, in the one call.
pub proof fn law_dual_name_consumption(c: ContractV, idx: int, value: ExprV)
    requires
        0 <= idx < c.inputs.len(),
        c.inputs[idx].kind is Value,
        c.inputs[idx].kind->aliases.len() == 1,
    ensures
        instantiated(c, idx, InputInstanceV::SimpleValue(value)).precondition == expr_subst(
            expr_subst(
                c.precondition,
                Set::empty(),
                PolicyV::Expr { name: c.inputs[idx].name, expr: value },
            ),
            Set::empty(),
            PolicyV::Expr { name: c.inputs[idx].kind->aliases[0], expr: value },
        ),
        instantiated(c, idx, InputInstanceV::SimpleValue(value)).postcondition == expr_subst(
            expr_subst(
                c.postcondition,
                Set::empty(),
                PolicyV::Expr { name: c.inputs[idx].name, expr: value },
            ),
            Set::empty(),
            PolicyV::Expr { name: c.inputs[idx].kind->aliases[0], expr: value },
        ),
        instantiated(c, idx, InputInstanceV::SimpleValue(value)).inputs.len() == c.inputs.len()
            - 1,
{
    let v = InputInstanceV::SimpleValue(value);
    let names = input_names(c.inputs[idx]);
    assert(names.len() == 2);
    assert(names[0] == c.inputs[idx].name);
    assert(names[1] == c.inputs[idx].kind->aliases[0]);
    assert(names.drop_last().len() == 1);
    assert(names.drop_last().drop_last().len() == 0);
    assert(names.drop_last().last() == names[0]);
    reveal_with_fuel(subst_all, 3);
}

/// Expression `e` behind the statement `stmt`.
pub fn with_local(e: Expr, stmt: Stmt) -> (r: Expr)
    ensures
        r@ == prepend_local(e@, stmt@),
{
    match e {
        Expr::Block(mut stmts) => {
            let ghost before = stmts_view(stmts@);
            stmts.insert(0, stmt);
            assert(stmts_view(stmts@) =~= seq![stmt@] + before);
            Expr::Block(stmts)
        },
        other => {
            let mut stmts: Vec<Stmt> = Vec::new();
            let ghost ov = other@;
            stmts.push(stmt);
            stmts.push(Stmt::Expr { expr: other, semi: false });
            assert(stmts_view(stmts@) =~= seq![stmt@, StmtV::Expr { expr: ov, semi: false }]);
            Expr::Block(stmts)
        },
    }
}

/// Expression `e` behind what brings in the complex value `value` under
/// `name`.
pub fn with_complex(e: Expr, name: &String, value: &ComplexInputValue) -> (r: Expr)
    ensures
        r@ == prepend_complex(e@, name@, value@),
{
    let ghost bs = bindings_view(value.bindings@);
    let ghost start = e@;
    let mut cur = e;
    let mut k: usize = value.bindings.len();
    while k > 0
        invariant
            k <= value.bindings.len(),
            bs == bindings_view(value.bindings@),
            cur@ == prepend_bindings(start, bs, k as int),
        decreases k,
    {
        k -= 1;
        let b = &value.bindings[k];
        assert(bs[k as int] == b@);
        cur = with_local(cur, Stmt::Let { pat: copy_pat(&b.pat), init: Some(copy_expr(&b.value)) });
    }
    let pat = Pat::Ident { name: name.clone(), by_ref: false, mutable: true, subpat: None };
    with_local(cur, Stmt::Let { pat, init: Some(copy_expr(&value.rhs)) })
}

/// The condition `e` once the instance `value` stands for `names`.
pub fn instantiate_condition(e: &Expr, names: &Vec<String>, value: &InputInstance) -> (r: Expr)
    ensures
        r@ == condition_instantiated(e@, strings_view(names@), value@),
{
    let ghost nv = strings_view(names@);
    let mut cur = copy_expr(e);
    let mut i: usize = 0;
    let bound = NameSet::new();
    assert(nv.take(0) =~= Seq::<Seq<char>>::empty());
    while i < names.len()
        invariant
            i <= names.len(),
            nv == strings_view(names@),
            bound@ == Set::<Seq<char>>::empty(),
            cur@ == condition_instantiated(e@, nv.take(i as int), value@),
        decreases names.len() - i,
    {
        proof {
            let longer = nv.take(i + 1);
            assert(longer.drop_last() =~= nv.take(i as int));
            assert(longer.last() == names@[i as int]@);
        }
        let name = &names[i];
        cur = match value {
            InputInstance::ComplexValue(c) => with_complex(cur, name, c),
            InputInstance::SimpleValue(v) => {
                let policy = ReplaceExpr { name: name.clone(), value: copy_expr(v) };
                rewrite_expr(&policy, &bound, &cur)
            },
            InputInstance::SimpleType(t) => {
                let policy = ReplaceType { name: name.clone(), value: copy_type(t) };
                rewrite_expr(&policy, &bound, &cur)
            },
        };
        i += 1;
    }
    assert(nv.take(names@.len() as int) =~= nv);
    cur
}

/// An input with a simple instance `value` put in place of each of `names`
/// in turn, in its type or its bounds.
pub fn instantiate_in_input(input: &Input, names: &Vec<String>, value: &InputInstance) -> (r:
    Input)
    requires
        !(value@ is ComplexValue),
    ensures
        r@ == input_subst_all(input@, strings_view(names@), value@),
{
    let ghost nv = strings_view(names@);
    let mut cur = input.clone();
    let mut i: usize = 0;
    let bound = NameSet::new();
    assert(nv.take(0) =~= Seq::<Seq<char>>::empty());
    while i < names.len()
        invariant
            i <= names.len(),
            nv == strings_view(names@),
            !(value@ is ComplexValue),
            bound@ == Set::<Seq<char>>::empty(),
            cur@ == input_subst_all(input@, nv.take(i as int), value@),
        decreases names.len() - i,
    {
        proof {
            let longer = nv.take(i + 1);
            assert(longer.drop_last() =~= nv.take(i as int));
            assert(longer.last() == names@[i as int]@);
        }
        let name = &names[i];
        let kind = match value {
            InputInstance::SimpleValue(v) => {
                let policy = ReplaceExpr { name: name.clone(), value: copy_expr(v) };
                match &cur.kind {
                    InputKind::Value { typ, aliases } => InputKind::Value {
                        typ: rewrite_type(&policy, &bound, typ),
                        aliases: copy_strings(aliases),
                    },
                    InputKind::Type { bounds } => InputKind::Type {
                        bounds: rewrite_where(&policy, &bound, bounds),
                    },
                }
            },
            InputInstance::SimpleType(t) => {
                let policy = ReplaceType { name: name.clone(), value: copy_type(t) };
                match &cur.kind {
                    InputKind::Value { typ, aliases } => InputKind::Value {
                        typ: rewrite_type(&policy, &bound, typ),
                        aliases: copy_strings(aliases),
                    },
                    InputKind::Type { bounds } => InputKind::Type {
                        bounds: rewrite_where(&policy, &bound, bounds),
                    },
                }
            },
            InputInstance::ComplexValue(_) => cur.kind.clone(),
        };
        cur = Input { name: cur.name.clone(), kind };
        i += 1;
    }
    assert(nv.take(names@.len() as int) =~= nv);
    cur
}

/// The index of the first of `inputs` named `name`.
pub fn position_of(inputs: &Vec<Input>, name: &str) -> (r: Option<usize>)
    ensures
        match r {
            Some(i) => find_input(inputs_view(inputs@), name@) == Some(i as int) && i
                < inputs@.len() && inputs@[i as int]@.name == name@,
            None => find_input(inputs_view(inputs@), name@).is_none(),
        },
{
    let ghost iv = inputs_view(inputs@);
    let mut i: usize = 0;
    while i < inputs.len()
        invariant
            i <= inputs.len(),
            iv == inputs_view(inputs@),
            forall|j: int| 0 <= j < i ==> (#[trigger] iv[j]).name != name@,
            first_named(iv, name@, 0) == first_named(iv, name@, i as int),
        decreases inputs.len() - i,
    {
        assert(iv[i as int] == inputs@[i as int]@);
        if is_text(&inputs[i].name, name) {
            assert(iv[i as int].name == name@);
            return Some(i);
        }
        i += 1;
    }
    None
}

/// The names of the segments of a path, in order.
pub open spec fn segment_names(p: PathV) -> Seq<Seq<char>> {
    Seq::new(p.segments.len(), |i: int| p.segments[i].ident)
}

/// Whether no segment of a path has arguments.
pub open spec fn plain_path(p: PathV) -> bool {
    forall|i: int| 0 <= i < p.segments.len() ==> (#[trigger] p.segments[i]).args.len() == 0
}

impl Contract {
    /// The names of the segments of the path of the function that the
    /// contract is about, where it names one.
    pub fn function_tested(&self) -> (r: Option<Vec<String>>)
        requires
            self@.function_tested is Some ==> plain_path(self@.function_tested->Some_0),
        ensures
            match r {
                Some(names) => self@.function_tested is Some && strings_view(names@)
                    == segment_names(self@.function_tested->Some_0),
                None => self@.function_tested is None,
            },
    {
        match &self.function_tested {
            None => None,
            Some(path) => {
                let mut names: Vec<String> = Vec::new();
                let mut i: usize = 0;
                while i < path.segments.len()
                    invariant
                        i <= path.segments.len(),
                        names@.len() == i,
                        forall|j: int| 0 <= j < i ==> names@[j]@ == path.segments@[j].ident@,
                    decreases path.segments.len() - i,
                {
                    names.push(path.segments[i].ident.clone());
                    i += 1;
                }
                assert(strings_view(names@) =~= segment_names(path@)) by {
                    assert forall|j: int| 0 <= j < path.segments@.len() implies path@.segments[j].ident
                        == path.segments@[j].ident@ by {
                        assert(path@.segments == segments_view(path.segments@));
                    }
                }
                Some(names)
            },
        }
    }

    /// Whether the contract and `other` ask the same of every crate that both
    /// depend on.
    pub fn dependencies_compatible_with(&self, other: &Self) -> (r: bool)
        ensures
            r == compatible(self@.dependencies, other@.dependencies),
    {
        self.dependencies.compatible_with(&other.dependencies)
    }

    /// The statement that asserts the postcondition.
    pub fn as_assertion(&self) -> (r: Stmt)
        ensures
            r@ == (StmtV::Expr {
                expr: ExprV::Compound {
                    label: "assert!"@,
                    types: Seq::empty(),
                    operands: seq![self@.postcondition],
                },
                semi: true,
            }),
    {
        let mut operands: Vec<Expr> = Vec::new();
        operands.push(copy_expr(&self.postcondition));
        let expr = Expr::Compound {
            label: String::from_str("assert!"),
            types: Vec::new(),
            operands,
        };
        assert(expr@->Compound_operands == exprs_view(expr->Compound_operands@));
        assert(expr@->Compound_types == types_view(expr->Compound_types@));
        assert(expr->Compound_operands@[0]@ == self@.postcondition);
        assert(expr@->Compound_operands =~= seq![self@.postcondition]);
        assert(expr@->Compound_types =~= Seq::empty());
        Stmt::Expr { expr, semi: true }
    }

    /// Whether the contract says nothing: it has no input, and its
    /// conditions are both `true`.
    pub fn is_default(&self) -> (r: bool)
        ensures
            r == (self@.inputs.len() == 0 && self@.precondition == default_condition()
                && self@.postcondition == default_condition()),
    {
        let pre = match &self.precondition {
            Expr::Lit(text) => is_text(text, "true"),
            _ => false,
        };
        let post = match &self.postcondition {
            Expr::Lit(text) => is_text(text, "true"),
            _ => false,
        };
        self.inputs.len() == 0 && pre && post
    }

    /// The free names of the two conditions.
    pub fn concrete_idents(&self) -> (r: NameSet)
        ensures
            r@ == free_vars(self@.precondition).union(free_vars(self@.postcondition)),
    {
        let mut r = NameSet::new();
        let bound = NameSet::new();
        collect_expr(&self.precondition, &bound, &mut r);
        collect_expr(&self.postcondition, &bound, &mut r);
        assert(r@ =~= free_vars(self@.precondition).union(free_vars(self@.postcondition)));
        r
    }

    /// Puts the instance `value` in place of the name `name` in the two
    /// conditions. Fails, and changes nothing, where a condition must be
    /// walked and holds syntax that the walk does not accept.
    pub fn subst_in_body(&mut self, name: &str, value: &InputInstance) -> (r: Result<
        (),
        ContractError,
    >)
        ensures
            match r {
                Ok(_) => !instantiation_refused(old(self)@, value@) && final(self)@ == (ContractV {
                    precondition: condition_instantiated(
                        old(self)@.precondition,
                        seq![name@],
                        value@,
                    ),
                    postcondition: condition_instantiated(
                        old(self)@.postcondition,
                        seq![name@],
                        value@,
                    ),
                    ..old(self)@
                }),
                Err(e) => e == ContractError::UnsupportedSyntax && instantiation_refused(
                    old(self)@,
                    value@,
                ) && *final(self) == *old(self),
            },
    {
        let mut names: Vec<String> = Vec::new();
        names.push(name.to_owned());
        assert(strings_view(names@) =~= seq![name@]);
        self.multi_subst_in_body(&names, value)
    }

    /// Puts the instance `value` in place of each of the names `aliases`, in
    /// turn, in the two conditions. Fails, and changes nothing, where a
    /// condition must be walked and holds syntax that the walk does not
    /// accept.
    pub fn multi_subst_in_body(&mut self, aliases: &Vec<String>, value: &InputInstance) -> (r:
        Result<(), ContractError>)
        ensures
            match r {
                Ok(_) => !instantiation_refused(old(self)@, value@) && final(self)@ == (ContractV {
                    precondition: condition_instantiated(
                        old(self)@.precondition,
                        strings_view(aliases@),
                        value@,
                    ),
                    postcondition: condition_instantiated(
                        old(self)@.postcondition,
                        strings_view(aliases@),
                        value@,
                    ),
                    ..old(self)@
                }),
                Err(e) => e == ContractError::UnsupportedSyntax && instantiation_refused(
                    old(self)@,
                    value@,
                ) && *final(self) == *old(self),
            },
    {
        let walks = match value {
            InputInstance::ComplexValue(_) => false,
            _ => true,
        };
        if walks && !(is_supported(&self.precondition) && is_supported(&self.postcondition)) {
            return Err(ContractError::UnsupportedSyntax);
        }
        let pre = instantiate_condition(&self.precondition, aliases, value);
        let post = instantiate_condition(&self.postcondition, aliases, value);
        self.precondition = pre;
        self.postcondition = post;
        Ok(())
    }

    /// Takes the first input named `input` out of the contract, and says what
    /// it was and where it stood. Fails, and changes nothing, where the
    /// contract has no such input.
    pub fn retain_input(&mut self, input: &str) -> (r: Option<(InputKind, usize)>)
        ensures
            match r {
                Some(found) => find_input(old(self)@.inputs, input@) == Some(found.1 as int)
                    && found.0@ == old(self)@.inputs[found.1 as int].kind && final(self)@
                    == (ContractV {
                    inputs: old(self)@.inputs.remove(found.1 as int),
                    ..old(self)@
                }),
                None => find_input(old(self)@.inputs, input@).is_none() && *final(self) == *old(
                    self,
                ),
            },
    {
        match position_of(&self.inputs, input) {
            Some(idx) => {
                let ghost before = inputs_view(self.inputs@);
                let removed = self.inputs.remove(idx);
                assert(inputs_view(self.inputs@) =~= before.remove(idx as int));
                assert(removed@ == before[idx as int]);
                Some((removed.kind, idx))
            },
            None => None,
        }
    }

    /// Puts `value` in place of the first input named `input`: the input
    /// leaves the contract, and `value` stands for its name and for each of
    /// its aliases in the two conditions and in the inputs after it. A
    /// complex value is brought in by bindings at the head of the two
    /// conditions instead.
    ///
    /// The contract has an input named `input`, and where the conditions
    /// must be walked, they hold only syntax that the walk accepts.
    pub fn instantiate_input(&mut self, input: &str, value: InputInstance)
        requires
            find_input(old(self)@.inputs, input@).is_some(),
            !instantiation_refused(old(self)@, value@),
        ensures
            final(self)@ == instantiated(
                old(self)@,
                find_input(old(self)@.inputs, input@).unwrap(),
                value@,
            ),
    {
        let idx = match position_of(&self.inputs, input) {
            Some(idx) => idx,
            None => vstd::pervasive::unreached(),
        };
        let walks = match &value {
            InputInstance::ComplexValue(_) => false,
            _ => true,
        };
        let ghost before = inputs_view(self.inputs@);
        let mut names: Vec<String> = Vec::new();
        names.push(input.to_owned());
        match &self.inputs[idx].kind {
            InputKind::Value { typ, aliases } => {
                let mut k: usize = 0;
                while k < aliases.len()
                    invariant
                        k <= aliases.len(),
                        strings_view(names@) == seq![input@] + strings_view(aliases@).take(
                            k as int,
                        ),
                    decreases aliases.len() - k,
                {
                    let ghost sofar = strings_view(names@);
                    names.push(aliases[k].clone());
                    assert(strings_view(names@) =~= sofar.push(aliases@[k as int]@));
                    assert(strings_view(aliases@).take(k + 1) =~= strings_view(aliases@).take(
                        k as int,
                    ).push(aliases@[k as int]@));
                    assert(strings_view(names@) =~= seq![input@] + strings_view(aliases@).take(
                        k + 1,
                    ));
                    k += 1;
                }
                assert(strings_view(aliases@).take(aliases@.len() as int) =~= strings_view(
                    aliases@,
                ));
            },
            InputKind::Type { bounds } => {
                assert(strings_view(names@) =~= seq![input@]);
            },
        }
        assert(before[idx as int] == self.inputs@[idx as int]@);
        assert(strings_view(names@) =~= input_names(before[idx as int]));
        let mut inputs: Vec<Input> = Vec::new();
        let mut i: usize = 0;
        while i < self.inputs.len()
            invariant
                i <= self.inputs.len(),
                idx < self.inputs.len(),
                before == inputs_view(self.inputs@),
                inputs@.len() == (if i <= idx {
                    i as int
                } else {
                    i - 1
                }),
                forall|j: int|
                    0 <= j < inputs@.len() ==> inputs@[j]@ == inputs_instantiated(
                        before,
                        idx as int,
                        value@,
                    )[j],
                strings_view(names@) == input_names(before[idx as int]),
                walks == !(value@ is ComplexValue),
            decreases self.inputs.len() - i,
        {
            assert(before[i as int] == self.inputs@[i as int]@);
            if i < idx {
                inputs.push(self.inputs[i].clone());
            } else if i > idx {
                if walks {
                    inputs.push(instantiate_in_input(&self.inputs[i], &names, &value));
                } else {
                    inputs.push(self.inputs[i].clone());
                }
            }
            i += 1;
        }
        assert(inputs_view(inputs@) =~= inputs_instantiated(before, idx as int, value@));
        let pre = instantiate_condition(&self.precondition, &names, &value);
        let post = instantiate_condition(&self.postcondition, &names, &value);
        self.inputs = inputs;
        self.precondition = pre;
        self.postcondition = post;
    }

    /// Puts `value` in place of the first input named `input`, as
    /// `instantiate_input` does, where it can be done.
    ///
    /// Fails, and changes nothing, where the contract has no input named
    /// `input`, or where the conditions must be walked and hold syntax that
    /// the walk does not accept.
    pub fn try_instantiate_input(&mut self, input: &str, value: InputInstance) -> (r: Result<
        (),
        ContractError,
    >)
        ensures
            match r {
                Ok(_) => find_input(old(self)@.inputs, input@).is_some() && !instantiation_refused(
                    old(self)@,
                    value@,
                ) && final(self)@ == instantiated(
                    old(self)@,
                    find_input(old(self)@.inputs, input@).unwrap(),
                    value@,
                ),
                Err(ContractError::NoSuchInput) => find_input(old(self)@.inputs, input@).is_none()
                    && *final(self) == *old(self),
                Err(ContractError::UnsupportedSyntax) => find_input(
                    old(self)@.inputs,
                    input@,
                ).is_some() && instantiation_refused(old(self)@, value@) && *final(self) == *old(
                    self,
                ),
                Err(ContractError::WrongNumberOfValues) => false,
            },
    {
        if position_of(&self.inputs, input).is_none() {
            return Err(ContractError::NoSuchInput);
        }
        let walks = match &value {
            InputInstance::ComplexValue(_) => false,
            _ => true,
        };
        if walks && !(is_supported(&self.precondition) && is_supported(&self.postcondition)) {
            return Err(ContractError::UnsupportedSyntax);
        }
        self.instantiate_input(input, value);
        Ok(())
    }

    /// The inputs with their types, where every input is a value.
    pub fn expect_concrete_inputs(&self) -> (r: Option<Vec<(String, Type)>>)
        ensures
            match r {
                Some(v) => v@.len() == self@.inputs.len() && forall|i: int|
                    0 <= i < v@.len() ==> self@.inputs[i].kind is Value && (#[trigger] v@[i]).0@
                        == self@.inputs[i].name && v@[i].1@ == self@.inputs[i].kind->typ,
                None => exists|i: int|
                    0 <= i < self@.inputs.len() && (#[trigger] self@.inputs[i]).kind is Type,
            },
    {
        let ghost iv = inputs_view(self.inputs@);
        let mut r: Vec<(String, Type)> = Vec::new();
        let mut i: usize = 0;
        while i < self.inputs.len()
            invariant
                i <= self.inputs.len(),
                iv == inputs_view(self.inputs@),
                r@.len() == i,
                forall|j: int|
                    0 <= j < i ==> iv[j].kind is Value && (#[trigger] r@[j]).0@ == iv[j].name
                        && r@[j].1@ == iv[j].kind->typ,
            decreases self.inputs.len() - i,
        {
            assert(iv[i as int] == self.inputs@[i as int]@);
            match &self.inputs[i].kind {
                InputKind::Value { typ, aliases } => {
                    r.push((self.inputs[i].name.clone(), copy_type(typ)));
                },
                InputKind::Type { bounds } => {
                    assert(iv[i as int].kind is Type);
                    return None;
                },
            }
            i += 1;
        }
        Some(r)
    }

    /// The precondition of the contract, where every input is a value.
    pub fn precondition(&self) -> (r: Option<Precondition>)
        ensures
            match r {
                Some(p) => p.predicate@ == self@.precondition && p.inputs@.len()
                    == self@.inputs.len() && forall|i: int|
                    0 <= i < p.inputs@.len() ==> self@.inputs[i].kind is Value && (
                    #[trigger] p.inputs@[i]).0@ == self@.inputs[i].name && p.inputs@[i].1@
                        == self@.inputs[i].kind->typ,
                None => exists|i: int|
                    0 <= i < self@.inputs.len() && (#[trigger] self@.inputs[i]).kind is Type,
            },
    {
        match self.expect_concrete_inputs() {
            Some(inputs) => Some(Precondition { inputs, predicate: copy_expr(&self.precondition) }),
            None => None,
        }
    }

    /// Hoists the marked parts of the postcondition, then of the
    /// precondition: each is replaced by a placeholder, and the terms to run
    /// are handed out in the order of their placeholders.
    pub fn extract_eval_nodes(&mut self) -> (r: Vec<EvalNode>)
        ensures
            nodes_view(r@) == extract_expr(old(self)@.postcondition, Seq::empty(), 0).1
                + extract_expr(
                old(self)@.precondition,
                Seq::empty(),
                extract_expr(old(self)@.postcondition, Seq::empty(), 0).1.len(),
            ).1,
            final(self)@ == (ContractV {
                postcondition: extract_expr(old(self)@.postcondition, Seq::empty(), 0).0,
                precondition: extract_expr(
                    old(self)@.precondition,
                    Seq::empty(),
                    extract_expr(old(self)@.postcondition, Seq::empty(), 0).1.len(),
                ).0,
                ..old(self)@
            }),
    {
        let stack: Vec<Binding> = Vec::new();
        let mut queue: Vec<EvalNode> = Vec::new();
        assert(bindings_view(stack@) =~= Seq::<BindingV>::empty());
        assert(nodes_view(queue@) =~= Seq::<EvalNodeV>::empty());
        let post = hoist_expr(&self.postcondition, &stack, &mut queue);
        assert(nodes_view(queue@).len() == queue@.len());
        let pre = hoist_expr(&self.precondition, &stack, &mut queue);
        self.postcondition = post;
        self.precondition = pre;
        queue
    }

    /// Puts in place of every bare name of `substs`, in the two conditions,
    /// the expression that `substs` gives for it.
    pub fn subst_names_with_exprs(&mut self, substs: Vec<(String, Expr)>)
        ensures
            final(self)@ == (ContractV {
                postcondition: expr_subst(
                    old(self)@.postcondition,
                    Set::empty(),
                    PolicyV::Names { table: table_view(substs@) },
                ),
                precondition: expr_subst(
                    old(self)@.precondition,
                    Set::empty(),
                    PolicyV::Names { table: table_view(substs@) },
                ),
                ..old(self)@
            }),
    {
        let policy = ReplaceNames { table: substs };
        let bound = NameSet::new();
        let post = rewrite_expr(&policy, &bound, &self.postcondition);
        let pre = rewrite_expr(&policy, &bound, &self.precondition);
        self.postcondition = post;
        self.precondition = pre;
    }
}

/// The contract `c` once `value` was put in place of its first input named
/// `name`; `None` where it has no such input, or where its conditions hold
/// syntax that the walk does not accept.
pub open spec fn consumed(c: ContractV, name: Seq<char>, value: ExprV) -> Option<ContractV> {
    match find_input(c.inputs, name) {
        Some(idx) => if instantiation_refused(c, InputInstanceV::SimpleValue(value)) {
            None
        } else {
            Some(instantiated(c, idx, InputInstanceV::SimpleValue(value)))
        },
        None => None,
    }
}

/// The contract `c` once the first `k` of the `values` were put in place of
/// its first `k` inputs, one after the other.
pub open spec fn instance(c: ContractV, values: Seq<ExprV>, k: int) -> Option<ContractV>
    decreases k,
{
    if k <= 0 {
        Some(c)
    } else {
        match instance(c, values, k - 1) {
            Some(prev) => consumed(prev, c.inputs[k - 1].name, values[k - 1]),
            None => None,
        }
    }
}

/// An instance depends on what its contract depends on, is read behind the
/// same imports, and has as many inputs fewer as values were put in.
pub proof fn lemma_instance_keeps(c: ContractV, values: Seq<ExprV>, k: int)
    requires
        0 <= k <= c.inputs.len(),
        instance(c, values, k).is_some(),
    ensures
        instance(c, values, k).unwrap().dependencies == c.dependencies,
        instance(c, values, k).unwrap().use_statements == c.use_statements,
        instance(c, values, k).unwrap().tests == c.tests,
        instance(c, values, k).unwrap().inputs.len() == c.inputs.len() - k,
    decreases k,
{
    if k > 0 {
        lemma_instance_keeps(c, values, k - 1);
    }
}

/// The instance of `contract` in which the `values` stand for its inputs,
/// one for each, in their order.
///
/// Fails where the values are not as many as the inputs, and where putting
/// one of them in fails.
pub fn instance_of(contract: &Contract, values: &Vec<Expr>) -> (r: Result<Contract, ContractError>)
    ensures
        match r {
            Ok(inst) => values@.len() == contract@.inputs.len() && instance(
                contract@,
                exprs_view(values@),
                values@.len() as int,
            ) == Some(inst@),
            Err(ContractError::WrongNumberOfValues) => values@.len() != contract@.inputs.len(),
            Err(_) => values@.len() == contract@.inputs.len() && instance(
                contract@,
                exprs_view(values@),
                values@.len() as int,
            ).is_none(),
        },
{
    if values.len() != contract.inputs.len() {
        return Err(ContractError::WrongNumberOfValues);
    }
    let ghost vv = exprs_view(values@);
    let mut cur = contract.clone();
    let mut k: usize = 0;
    while k < values.len()
        invariant
            k <= values.len(),
            values@.len() == contract@.inputs.len(),
            vv == exprs_view(values@),
            instance(contract@, vv, k as int) == Some(cur@),
        decreases values.len() - k,
    {
        assert(vv[k as int] == values@[k as int]@);
        assert(contract@.inputs[k as int] == contract.inputs@[k as int]@);
        let value = InputInstance::SimpleValue(copy_expr(&values[k]));
        match cur.try_instantiate_input(contract.inputs[k].name.as_str(), value) {
            Ok(_) => {},
            Err(e) => {
                proof {
                    lemma_instance_none(contract@, vv, k + 1, values@.len() as int);
                }
                return Err(
                    match e {
                        ContractError::NoSuchInput => ContractError::NoSuchInput,
                        _ => ContractError::UnsupportedSyntax,
                    },
                );
            },
        }
        k += 1;
    }
    Ok(cur)
}

/// Where putting in a value fails, putting in the values after it fails.
pub proof fn lemma_instance_none(c: ContractV, values: Seq<ExprV>, k: int, n: int)
    requires
        0 <= k <= n,
        instance(c, values, k).is_none(),
    ensures
        instance(c, values, n).is_none(),
    decreases n - k,
{
    if k < n {
        lemma_instance_none(c, values, k, n - 1);
    }
}

/// The contract `c` with its marked parts hoisted, and the terms to run.
pub open spec fn extracted(c: ContractV) -> (ContractV, Seq<EvalNodeV>) {
    let post = extract_expr(c.postcondition, Seq::empty(), 0);
    let pre = extract_expr(c.precondition, Seq::empty(), post.1.len());
    (ContractV { postcondition: post.0, precondition: pre.0, ..c }, post.1 + pre.1)
}

/// The table that gives for each of the names `ids` the result that goes
/// with it, where it has one.
pub open spec fn table_of(ids: Seq<Seq<char>>, results: Seq<Option<ExprV>>) -> Seq<
    (Seq<char>, ExprV),
>
    decreases ids.len(),
{
    if ids.len() == 0 || results.len() == 0 {
        Seq::empty()
    } else {
        let before = table_of(ids.drop_last(), results.drop_last());
        match results.last() {
            Some(e) => before.push((ids.last(), e)),
            None => before,
        }
    }
}

/// The contract `c` with the results put in place of the placeholders `ids`.
pub open spec fn with_results(c: ContractV, ids: Seq<Seq<char>>, results: Seq<Option<ExprV>>) -> ContractV {
    let policy = PolicyV::Names { table: table_of(ids, results) };
    ContractV {
        postcondition: expr_subst(c.postcondition, Set::empty(), policy),
        precondition: expr_subst(c.precondition, Set::empty(), policy),
        ..c
    }
}

/// The views of a sequence of optional expressions, in order.
pub open spec fn opt_exprs_view(v: Seq<Option<Expr>>) -> Seq<Option<ExprV>> {
    Seq::new(
        v.len(),
        |i: int|
            match v[i] {
                Some(e) => Some(e@),
                None => None,
            },
    )
}

/// The table that gives for each of the names `ids` the result that goes
/// with it, where it has one.
pub fn make_table(ids: &[String], results: &[Option<Expr>]) -> (r: Vec<(String, Expr)>)
    requires
        ids@.len() == results@.len(),
    ensures
        table_view(r@) == table_of(strings_view(ids@), opt_exprs_view(results@)),
{
    let ghost iv = strings_view(ids@);
    let ghost rv = opt_exprs_view(results@);
    let mut r: Vec<(String, Expr)> = Vec::new();
    let mut i: usize = 0;
    assert(table_view(r@) =~= table_of(iv.take(0), rv.take(0)));
    while i < ids.len()
        invariant
            i <= ids.len(),
            ids@.len() == results@.len(),
            iv == strings_view(ids@),
            rv == opt_exprs_view(results@),
            table_view(r@) == table_of(iv.take(i as int), rv.take(i as int)),
        decreases ids.len() - i,
    {
        proof {
            assert(iv.take(i + 1).drop_last() =~= iv.take(i as int));
            assert(rv.take(i + 1).drop_last() =~= rv.take(i as int));
            assert(iv.take(i + 1).last() == ids@[i as int]@);
            assert(rv.take(i + 1).last() == rv[i as int]);
        }
        match &results[i] {
            Some(e) => {
                let ghost before = table_view(r@);
                r.push((ids[i].clone(), copy_expr(e)));
                assert(table_view(r@) =~= before.push((ids@[i as int]@, e@)));
            },
            None => {},
        }
        i += 1;
    }
    assert(iv.take(ids@.len() as int) =~= iv);
    assert(rv.take(ids@.len() as int) =~= rv);
    r
}

} // verus!
