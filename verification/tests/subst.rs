use testify::names::NameSet;
use testify::subst::partial::{select_bindings, Binding, PartialCompute};
use testify::subst::literal::{digits_index, index_of_literal};
use testify::subst::syn_utils::{expect_input_reference, ExpectIdent, NAryCall};
use testify::subst::visitors::{
    bound_vars_of_pat, free_vars_of_expr, is_supported, rewrite_expr, rewrite_where,
    CollectedIntroducedVariables, KeepAll,
    ReplaceExpr, ReplaceNames, ReplaceType, Substituer, SubstituerControl,
};
use testify::subst::{Subst, SubstHelper, UnsupportedSyntax};
use testify::syntax::{
    Arm, Expr, GenericParam, Pat, Path, Stmt, Type, WhereClause, WherePredicate,
};

fn x() -> Expr {
    Expr::ident("x")
}

fn five() -> Expr {
    Expr::lit("5u8")
}

fn plus(a: Expr, b: Expr) -> Expr {
    Expr::binary("+", a, b)
}

fn names(set: &NameSet) -> Vec<String> {
    let mut v = set.to_vec();
    v.sort();
    v
}

#[test]
fn a_free_name_is_replaced() {
    let mut e = plus(x(), Expr::ident("y"));
    Subst::subst(&mut e, "x", five());
    assert_eq!(e, plus(five(), Expr::ident("y")));
}

#[test]
fn every_free_occurrence_is_replaced() {
    let mut e = Expr::call(Expr::ident("f"), vec![x(), plus(x(), x())]);
    e.subst("x", five());
    assert_eq!(e, Expr::call(Expr::ident("f"), vec![five(), plus(five(), five())]));
}

#[test]
fn a_name_that_does_not_occur_changes_nothing() {
    let before = plus(Expr::ident("a"), Expr::call(Expr::ident("f"), vec![Expr::ident("b")]));
    let mut e = before.clone();
    e.subst("x", five());
    assert_eq!(e, before);
}

#[test]
fn a_closure_parameter_shadows_the_name() {
    // |x| x + 1, next to a free x
    let closure = Expr::closure(vec![Pat::ident("x")], plus(x(), Expr::lit("1")));
    let mut e = plus(closure.clone(), x());
    e.subst("x", five());
    assert_eq!(e, plus(closure, five()));
}

#[test]
fn a_closure_that_binds_another_name_is_entered() {
    let mut e = Expr::closure(vec![Pat::ident("y")], plus(x(), Expr::ident("y")));
    e.subst("x", five());
    assert_eq!(e, Expr::closure(vec![Pat::ident("y")], plus(five(), Expr::ident("y"))));
}

#[test]
fn a_let_shadows_the_name_in_what_follows_only() {
    // { let x = x; x } : the value that is bound is outside the scope of the binding
    let mut e = Expr::block(vec![Stmt::local(Pat::ident("x"), x()), Stmt::tail(x())]);
    e.subst("x", five());
    assert_eq!(e, Expr::block(vec![Stmt::local(Pat::ident("x"), five()), Stmt::tail(x())]));
}

#[test]
fn a_block_gives_the_name_back_at_its_end() {
    // { let x = 1; x } + x
    let block = Expr::block(vec![Stmt::local(Pat::ident("x"), Expr::lit("1")), Stmt::tail(x())]);
    let mut e = plus(block.clone(), x());
    e.subst("x", five());
    assert_eq!(e, plus(block, five()));
}

#[test]
fn an_arm_shadows_the_name_in_guard_and_body() {
    let some_x = Pat::Compound {
        label: "tuple_struct".to_string(),
        path: Some(Path::ident("Some")),
        elems: vec![Pat::ident("x")],
    };
    let shadowing = Arm { pat: some_x, guard: Some(x()), body: x() };
    let open = Arm { pat: Pat::Wild, guard: None, body: x() };
    let mut e = Expr::Match {
        scrutinee: Box::new(x()),
        arms: vec![shadowing.clone(), open.clone()],
    };
    e.subst("x", five());
    assert_eq!(
        e,
        Expr::Match {
            scrutinee: Box::new(five()),
            arms: vec![shadowing, Arm { pat: Pat::Wild, guard: None, body: five() }],
        }
    );
}

#[test]
fn an_if_let_shadows_the_name_in_the_then_branch_only() {
    // if let x = x { x } else { x }
    let mut e = Expr::If {
        cond: Box::new(Expr::Let { pat: Pat::ident("x"), scrutinee: Box::new(x()) }),
        then_branch: vec![Stmt::tail(x())],
        else_branch: Some(Box::new(Expr::block(vec![Stmt::tail(x())]))),
    };
    e.subst("x", five());
    assert_eq!(
        e,
        Expr::If {
            cond: Box::new(Expr::Let { pat: Pat::ident("x"), scrutinee: Box::new(five()) }),
            then_branch: vec![Stmt::tail(x())],
            else_branch: Some(Box::new(Expr::block(vec![Stmt::tail(five())]))),
        }
    );
}

#[test]
fn the_replacement_is_not_walked() {
    // the replacement mentions x itself: it is put in as it is
    let mut e = plus(x(), x());
    let replacement = plus(x(), Expr::lit("1"));
    e.subst("x", replacement.clone());
    assert_eq!(e, plus(replacement.clone(), replacement));
}

#[test]
fn an_input_is_also_named_by_position() {
    let mut e = plus(
        Expr::call(x(), vec![]),
        plus(Expr::call(x(), vec![Expr::lit("0")]), Expr::call(x(), vec![Expr::lit("3")])),
    );
    e.subst("x", five());
    assert_eq!(e, plus(five(), plus(five(), five())));
}

#[test]
fn a_reference_by_position_is_recognised() {
    let name = "x".to_string();
    assert_eq!(expect_input_reference(&name, &Expr::call(x(), vec![])), Some(0));
    assert_eq!(expect_input_reference(&name, &Expr::call(x(), vec![Expr::lit("7")])), Some(7));
    assert_eq!(
        expect_input_reference(&name, &Expr::call(x(), vec![Expr::lit("4294967295")])),
        Some(u32::MAX)
    );
    assert_eq!(
        expect_input_reference(&name, &Expr::call(x(), vec![Expr::lit("4294967296")])),
        None
    );
    assert_eq!(expect_input_reference(&name, &Expr::call(x(), vec![Expr::ident("n")])), None);
    assert_eq!(
        expect_input_reference(&name, &Expr::call(x(), vec![Expr::lit("1"), Expr::lit("2")])),
        None
    );
    assert_eq!(expect_input_reference(&name, &Expr::call(Expr::ident("y"), vec![])), None);
    assert_eq!(expect_input_reference(&name, &x()), None);
}

#[test]
fn a_call_of_another_arity_has_its_callee_replaced() {
    let mut e = Expr::call(x(), vec![Expr::lit("1"), Expr::lit("2")]);
    e.subst("x", Expr::ident("f"));
    assert_eq!(e, Expr::call(Expr::ident("f"), vec![Expr::lit("1"), Expr::lit("2")]));
}

#[test]
fn a_nested_item_is_refused() {
    let before = Expr::block(vec![Stmt::Item("fn f() {}".to_string()), Stmt::tail(x())]);
    let mut e = before.clone();
    assert_eq!(e.try_subst("x", five()), Err(UnsupportedSyntax));
    assert_eq!(e, before);
    assert!(!is_supported(&before));
}

#[test]
fn an_if_let_without_else_is_refused() {
    let before = Expr::If {
        cond: Box::new(Expr::Let { pat: Pat::ident("y"), scrutinee: Box::new(x()) }),
        then_branch: vec![Stmt::tail(x())],
        else_branch: None,
    };
    let mut e = before.clone();
    assert_eq!(e.try_subst("x", five()), Err(UnsupportedSyntax));
    assert_eq!(e, before);
}

#[test]
fn a_let_that_is_no_condition_is_refused() {
    let stray = Expr::Let { pat: Pat::ident("y"), scrutinee: Box::new(x()) };
    assert!(!is_supported(&stray));
    let mut e = plus(stray, x());
    assert_eq!(e.try_subst("x", five()), Err(UnsupportedSyntax));
}

#[test]
fn a_type_is_put_in_place_of_a_type_name() {
    let cast = |t: Type| Expr::Compound {
        label: "as".to_string(),
        types: vec![t],
        operands: vec![Expr::ident("T")],
    };
    let mut e = cast(Type::ident("T"));
    e.subst("T", Type::ident("u8"));
    // the expression `T` is no type: it stays
    assert_eq!(e, cast(Type::ident("u8")));
    let mut t = Type::Compound {
        label: "tuple".to_string(),
        args: vec![Type::ident("T"), Type::ident("U")],
    };
    t.subst("T", Type::ident("u8"));
    assert_eq!(
        t,
        Type::Compound { label: "tuple".to_string(), args: vec![Type::ident("u8"), Type::ident("U")] }
    );
}

#[test]
fn a_generic_parameter_shadows_a_type_name() {
    let predicate = |params: Vec<GenericParam>, bounded: Type| WherePredicate {
        params,
        bounded,
        bounds: vec![Type::ident("T")],
    };
    let t_param = GenericParam { name: "T".to_string(), bounds: vec![Type::ident("T")] };
    let clause = WhereClause {
        predicates: vec![
            predicate(vec![], Type::ident("T")),
            predicate(vec![t_param], Type::ident("T")),
            predicate(vec![], Type::ident("T")),
        ],
    };
    let policy = ReplaceType { name: "T".to_string(), value: Type::ident("u8") };
    let rewritten = rewrite_where(&policy, &NameSet::new(), &clause);
    let u8_param = GenericParam { name: "T".to_string(), bounds: vec![Type::ident("u8")] };
    assert_eq!(
        rewritten,
        WhereClause {
            predicates: vec![
                WherePredicate {
                    params: vec![],
                    bounded: Type::ident("u8"),
                    bounds: vec![Type::ident("u8")],
                },
                // the bounds of the parameter are outside its scope, the rest is inside
                predicate(vec![u8_param], Type::ident("T")),
                // and the parameter stays bound after its predicate
                predicate(vec![], Type::ident("T")),
            ],
        }
    );
}

#[test]
fn the_policy_that_keeps_all_changes_nothing() {
    let e = plus(x(), Expr::closure(vec![Pat::ident("x")], x()));
    assert_eq!(rewrite_expr(&KeepAll, &NameSet::new(), &e), e);
    assert!(matches!(KeepAll.subst_expr(&NameSet::new(), &x()), SubstituerControl::Continue));
}

#[test]
fn a_policy_stops_at_the_name_unless_it_is_bound() {
    let policy = ReplaceExpr { name: "x".to_string(), value: five() };
    let free = NameSet::new();
    assert!(matches!(policy.subst_expr(&free, &x()), SubstituerControl::Stop(e) if e == five()));
    assert!(matches!(policy.subst_expr(&free, &Expr::ident("y")), SubstituerControl::Continue));
    let mut bound = NameSet::new();
    bound.insert("x".to_string());
    assert!(matches!(policy.subst_expr(&bound, &x()), SubstituerControl::Continue));
    assert_eq!(rewrite_expr(&policy, &bound, &plus(x(), x())), plus(x(), x()));
}

#[test]
fn names_of_a_table_are_replaced_whatever_is_bound() {
    let policy = ReplaceNames {
        table: vec![("a".to_string(), Expr::lit("1")), ("b".to_string(), Expr::lit("2"))],
    };
    let e = Expr::closure(vec![Pat::ident("a")], plus(Expr::ident("a"), Expr::ident("b")));
    assert_eq!(
        rewrite_expr(&policy, &NameSet::new(), &e),
        Expr::closure(vec![Pat::ident("a")], plus(Expr::lit("1"), Expr::lit("2")))
    );
}

#[test]
fn free_names_leave_out_what_is_bound() {
    // { let a = b; a + c } + (|d| d + e)
    let e = plus(
        Expr::block(vec![
            Stmt::local(Pat::ident("a"), Expr::ident("b")),
            Stmt::tail(plus(Expr::ident("a"), Expr::ident("c"))),
        ]),
        Expr::closure(vec![Pat::ident("d")], plus(Expr::ident("d"), Expr::ident("e"))),
    );
    assert_eq!(names(&free_vars_of_expr(&e)), vec!["b", "c", "e"]);
}

#[test]
fn free_names_hold_type_names_and_leave_out_longer_paths() {
    let e = Expr::Compound {
        label: "as".to_string(),
        types: vec![Type::ident("T")],
        operands: vec![Expr::call(Expr::Path(Path::of(&["u8", "down"])), vec![x()])],
    };
    assert_eq!(names(&free_vars_of_expr(&e)), vec!["T", "x"]);
}

#[test]
fn a_pattern_binds_its_names() {
    let p = Pat::Compound {
        label: "tuple".to_string(),
        path: None,
        elems: vec![
            Pat::ident("a"),
            Pat::Wild,
            Pat::Typed { pat: Box::new(Pat::ident("b")), ty: Type::ident("T") },
            Pat::Ident {
                name: "c".to_string(),
                by_ref: true,
                mutable: false,
                subpat: Some(Box::new(Pat::ident("d"))),
            },
            Pat::Lit("3".to_string()),
        ],
    };
    assert_eq!(names(&bound_vars_of_pat(&p)), vec!["a", "b", "c", "d"]);
}

#[test]
fn nodes_say_which_name_they_stand_for() {
    assert_eq!(x().expect_ident(), Some("x".to_string()));
    assert!(x().is_ident("x"));
    assert!(!x().is_ident("y"));
    assert_eq!(Expr::Path(Path::of(&["a", "b"])).expect_ident(), None);
    assert_eq!(five().expect_ident(), None);
    assert_eq!(Type::ident("T").expect_ident(), Some("T".to_string()));
    assert_eq!(Pat::ident("p").expect_ident(), Some("p".to_string()));
    let by_ref = Pat::Ident { name: "p".to_string(), by_ref: true, mutable: false, subpat: None };
    assert_eq!(by_ref.expect_ident(), None);
    assert!(!by_ref.is_ident("p"));
}

#[test]
fn a_call_is_taken_apart_by_its_arity() {
    let call = Expr::call(Expr::ident("f"), vec![x(), five()]);
    let two = NAryCall::<2>::try_from(&call).expect("a call of two arguments");
    assert_eq!(*two.func, Expr::ident("f"));
    assert_eq!(two.args, vec![x(), five()]);
    assert!(NAryCall::<1>::try_from(&call).is_none());
    assert!(NAryCall::<0>::try_from(&x()).is_none());
}

fn eval(inner: Expr) -> Expr {
    Expr::call(Expr::ident("eval"), vec![inner])
}

fn placeholder(k: usize) -> Expr {
    Expr::ident(&format!("__testify_placeholder__{k}"))
}

#[test]
fn a_marked_part_becomes_a_placeholder() {
    let mut e = Expr::binary("==", plus(x(), Expr::lit("1")), eval(plus(x(), Expr::lit("1"))));
    let mut walk = PartialCompute::new();
    walk.visit_expr_mut(&mut e);
    assert_eq!(e, Expr::binary("==", plus(x(), Expr::lit("1")), placeholder(0)));
    let nodes = walk.get_nodes();
    assert_eq!(nodes.len(), 1);
    assert_eq!(nodes[0].placeholder, "__testify_placeholder__0");
    assert_eq!(nodes[0].term.body, plus(x(), Expr::lit("1")));
    assert!(nodes[0].term.bindings.is_empty());
}

#[test]
fn placeholders_are_numbered_in_the_order_of_the_walk() {
    let mut e = plus(eval(Expr::ident("a")), plus(eval(Expr::ident("b")), eval(Expr::ident("c"))));
    let mut walk = PartialCompute::new();
    walk.visit_expr_mut(&mut e);
    assert_eq!(e, plus(placeholder(0), plus(placeholder(1), placeholder(2))));
    let mut second = eval(Expr::ident("d"));
    walk.visit_expr_mut(&mut second);
    assert_eq!(second, placeholder(3));
    let bodies: Vec<Expr> = walk.get_nodes().into_iter().map(|n| n.term.body).collect();
    assert_eq!(
        bodies,
        vec![Expr::ident("a"), Expr::ident("b"), Expr::ident("c"), Expr::ident("d")]
    );
}

#[test]
fn a_marked_part_is_not_looked_into() {
    let inner = plus(eval(Expr::ident("a")), Expr::lit("1"));
    let mut e = eval(inner.clone());
    let mut walk = PartialCompute::new();
    walk.visit_expr_mut(&mut e);
    assert_eq!(e, placeholder(0));
    let nodes = walk.get_nodes();
    assert_eq!(nodes.len(), 1);
    assert_eq!(nodes[0].term.body, inner);
}

#[test]
fn only_the_bindings_that_are_needed_are_hoisted() {
    // let a = x; let e = a; let b = a; let d = b; let c = b; eval(c + 1)
    let local = |name: &str, value: &str| Stmt::local(Pat::ident(name), Expr::ident(value));
    let mut e = Expr::block(vec![
        local("a", "x"),
        local("e", "a"),
        local("b", "a"),
        local("d", "b"),
        local("c", "b"),
        Stmt::tail(eval(plus(Expr::ident("c"), Expr::lit("1")))),
    ]);
    let mut walk = PartialCompute::new();
    walk.visit_expr_mut(&mut e);
    let nodes = walk.get_nodes();
    assert_eq!(nodes.len(), 1);
    let binding = |name: &str, value: &str| Binding {
        pat: Pat::ident(name),
        value: Expr::ident(value),
    };
    assert_eq!(
        nodes[0].term.bindings,
        vec![binding("a", "x"), binding("b", "a"), binding("c", "b")]
    );
    assert_eq!(nodes[0].term.body, plus(Expr::ident("c"), Expr::lit("1")));
}

#[test]
fn a_closed_part_takes_no_binding() {
    let stack = vec![
        Binding { pat: Pat::ident("a"), value: Expr::lit("1") },
        Binding { pat: Pat::ident("b"), value: Expr::ident("a") },
    ];
    assert!(select_bindings(&stack, &plus(Expr::lit("1"), Expr::lit("2"))).is_empty());
    assert_eq!(select_bindings(&stack, &Expr::ident("b")), stack);
    assert_eq!(select_bindings(&stack, &Expr::ident("a")), vec![stack[0].clone()]);
}

#[test]
fn branches_do_not_see_the_bindings_of_each_other() {
    // if c { let a = 1; eval(a) } else { eval(a) }
    let mut e = Expr::If {
        cond: Box::new(Expr::ident("c")),
        then_branch: vec![
            Stmt::local(Pat::ident("a"), Expr::lit("1")),
            Stmt::tail(eval(Expr::ident("a"))),
        ],
        else_branch: Some(Box::new(Expr::block(vec![Stmt::tail(eval(Expr::ident("a")))]))),
    };
    let mut walk = PartialCompute::new();
    walk.visit_expr_mut(&mut e);
    let nodes = walk.get_nodes();
    assert_eq!(nodes.len(), 2);
    assert_eq!(
        nodes[0].term.bindings,
        vec![Binding { pat: Pat::ident("a"), value: Expr::lit("1") }]
    );
    assert!(nodes[1].term.bindings.is_empty());
}

#[test]
fn an_arm_is_walked_behind_the_binding_of_its_pattern() {
    // match s { a => eval(a), b => eval(a) }
    let mut e = Expr::Match {
        scrutinee: Box::new(Expr::ident("s")),
        arms: vec![
            Arm { pat: Pat::ident("a"), guard: None, body: eval(Expr::ident("a")) },
            Arm { pat: Pat::ident("b"), guard: None, body: eval(Expr::ident("a")) },
        ],
    };
    let mut walk = PartialCompute::new();
    walk.visit_expr_mut(&mut e);
    let nodes = walk.get_nodes();
    assert_eq!(nodes.len(), 2);
    assert_eq!(
        nodes[0].term.bindings,
        vec![Binding { pat: Pat::ident("a"), value: Expr::ident("s") }]
    );
    assert!(nodes[1].term.bindings.is_empty());
}

#[test]
fn a_walk_collects_the_free_names_and_the_binders() {
    let mut walk = CollectedIntroducedVariables::new(ReplaceExpr {
        name: "x".to_string(),
        value: five(),
    });
    assert!(walk.free_vars().is_empty());
    assert!(walk.bound_vars().is_empty());

    let mut e = plus(x(), Expr::ident("y"));
    walk.visit_expr_mut(&mut e);
    assert_eq!(e, plus(five(), Expr::ident("y")));
    assert_eq!(names(walk.free_vars()), vec!["x".to_string(), "y".to_string()]);
    assert!(walk.bound_vars().is_empty());

    let mut p = Pat::ident("x");
    walk.visit_pat_mut(&mut p);
    assert_eq!(p, Pat::ident("x"));
    assert_eq!(names(walk.bound_vars()), vec!["x".to_string()]);

    let mut shadowed = plus(x(), Expr::ident("z"));
    walk.visit_expr_mut(&mut shadowed);
    assert_eq!(shadowed, plus(x(), Expr::ident("z")));
    assert_eq!(
        names(walk.free_vars()),
        vec!["x".to_string(), "y".to_string(), "z".to_string()]
    );
}

#[test]
fn a_walk_rewrites_a_type() {
    let mut walk = CollectedIntroducedVariables::new(ReplaceType {
        name: "T".to_string(),
        value: Type::ident("u8"),
    });
    let mut t = Type::Compound {
        label: "tuple".to_string(),
        args: vec![Type::ident("T"), Type::ident("U")],
    };
    walk.visit_type_mut(&mut t);
    assert_eq!(
        t,
        Type::Compound {
            label: "tuple".to_string(),
            args: vec![Type::ident("u8"), Type::ident("U")],
        }
    );
    assert_eq!(names(walk.free_vars()), vec!["T".to_string(), "U".to_string()]);
}

#[test]
fn where_clauses_are_merged_in_order() {
    let predicate = |name: &str| WherePredicate {
        params: vec![],
        bounded: Type::ident(name),
        bounds: vec![Type::ident("Copy")],
    };
    let first = WhereClause { predicates: vec![predicate("A"), predicate("B")] };
    let second = WhereClause { predicates: vec![predicate("C")] };
    assert_eq!(
        first.merge_one(&second),
        WhereClause { predicates: vec![predicate("A"), predicate("B"), predicate("C")] }
    );
    assert_eq!(WhereClause::merge_many(&[]), WhereClause { predicates: vec![] });
    assert_eq!(
        WhereClause::merge_many(&[second.clone(), first.clone(), second.clone()]),
        WhereClause {
            predicates: vec![predicate("C"), predicate("A"), predicate("B"), predicate("C")]
        }
    );
}

#[test]
fn a_subject_that_is_accepted_is_rewritten_by_the_checked_form_too() {
    let mut e = plus(x(), Expr::ident("y"));
    assert!(<Expr as Subst<Expr>>::supports(&e));
    assert_eq!(e.try_subst("x", five()), Ok(()));
    assert_eq!(e, plus(five(), Expr::ident("y")));
    let nested = Expr::block(vec![Stmt::Item("fn f() {}".to_string()), Stmt::tail(x())]);
    assert!(!<Expr as Subst<Expr>>::supports(&nested));
    assert!(!<Type as Subst<Expr>>::supports(&nested));
    assert!(<Expr as Subst<Type>>::supports(&Type::ident("T")));
}

fn reference(literal: &str) -> Option<u32> {
    expect_input_reference(&"x".to_string(), &Expr::call(x(), vec![Expr::lit(literal)]))
}

#[test]
fn a_reference_by_position_takes_every_form_of_integer_literal() {
    assert_eq!(reference("3"), Some(3));
    assert_eq!(reference("3u32"), Some(3));
    assert_eq!(reference("0u32"), Some(0));
    assert_eq!(reference("1_0"), Some(10));
    assert_eq!(reference("0x10"), Some(16));
    assert_eq!(reference("0o17"), Some(15));
    assert_eq!(reference("0b101"), Some(5));
    assert_eq!(reference("007"), Some(7));
    assert_eq!(reference("0xFFFF_FFFF"), Some(u32::MAX));
    assert_eq!(reference("0x1_0000_0000"), None);
    assert_eq!(reference("1.0"), None);
    assert_eq!(reference("1e3"), None);
    assert_eq!(reference("\"a\""), None);
    assert_eq!(reference("'a'"), None);
    assert_eq!(reference("true"), None);
    assert_eq!(reference(""), None);
    assert_eq!(reference("0b2"), None);
}

#[test]
fn the_digits_of_a_literal_give_its_index() {
    assert_eq!(digits_index(Some("16")), Some(16));
    assert_eq!(digits_index(Some("+16")), Some(16));
    assert_eq!(digits_index(Some("-16")), None);
    assert_eq!(digits_index(Some("4294967295")), Some(u32::MAX));
    assert_eq!(digits_index(Some("4294967296")), None);
    assert_eq!(digits_index(Some("")), None);
    assert_eq!(digits_index(Some("0x10")), None);
    assert_eq!(digits_index(None), None);
    assert_eq!(index_of_literal("0x10"), Some(16));
    assert_eq!(index_of_literal("x"), None);
}

#[test]
fn a_reference_with_a_suffixed_literal_is_replaced_as_a_whole() {
    let mut e = plus(Expr::call(x(), vec![Expr::lit("0u32")]), Expr::call(x(), vec![Expr::lit("0x1")]));
    e.subst("x", five());
    assert_eq!(e, plus(five(), five()));
}
