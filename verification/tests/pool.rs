use testify::contract::{
    default_expr, instance_of, ComplexInputValue, Contract, ContractError, Dependencies,
    DependencySpec, Input, InputInstance, InputKind, Span,
};
use testify::generate::{IntTy, Ty, UintTy};
use testify::krate::hax::{HaxQueryError, HaxQueryWithId, ResolvedItem};
use testify::marshalling::Value;
use testify::pool::{
    merge_dependencies, ContractPool, EvalFailure, EvalTerm, GenericContracts, IsState,
    InstantiatedContracts, ParametricContracts, PoolError, TrialStep, Trials,
};
use testify::subst::partial::Binding;
use testify::syntax::{Expr, Pat, Stmt, Type, WhereClause};

fn value_input(name: &str, typ: &str, aliases: &[&str]) -> Input {
    Input {
        name: name.to_string(),
        kind: InputKind::Value {
            typ: Type::ident(typ),
            aliases: aliases.iter().map(|a| a.to_string()).collect(),
        },
    }
}

fn type_input(name: &str) -> Input {
    Input { name: name.to_string(), kind: InputKind::Type { bounds: WhereClause { predicates: vec![] } } }
}

fn deps(entries: &[(&str, &str)]) -> Dependencies {
    let mut d = Dependencies::new();
    for (name, spec) in entries {
        d.insert(name.to_string(), DependencySpec(spec.to_string()));
    }
    d
}

fn contract(inputs: Vec<Input>, pre: Expr, post: Expr) -> Contract {
    Contract {
        inputs,
        description: String::new(),
        precondition: pre,
        postcondition: post,
        span: Span::dummy(),
        dependencies: Dependencies::new(),
        use_statements: vec![],
        function_tested: None,
        tests: 10,
    }
}

fn with_deps(entries: &[(&str, &str)]) -> Contract {
    let mut c = contract(vec![], default_expr(), default_expr());
    c.dependencies = deps(entries);
    c
}

fn x() -> Expr {
    Expr::ident("x")
}

fn call(f: &str, args: Vec<Expr>) -> Expr {
    Expr::call(Expr::ident(f), args)
}

fn u8_oracle(queries: &[HaxQueryWithId]) -> Result<Vec<ResolvedItem>, String> {
    Ok(queries
        .iter()
        .map(|q| ResolvedItem { name: format!("item_{}", q.1), ty: Ty::Uint(UintTy::U8) })
        .collect())
}

fn number(v: &Value) -> i128 {
    match v {
        Value::Number(n) => *n,
        other => panic!("a number was expected, not {other:?}"),
    }
}

fn u8_literal(e: &Expr) -> u32 {
    match e {
        Expr::Lit(text) => text.strip_suffix("u8").expect("a literal of type u8").parse().unwrap(),
        other => panic!("a literal was expected, not {other:?}"),
    }
}

#[test]
fn disjoint_dependencies_go_into_one_pool() {
    let a = with_deps(&[("abstractions", "{ path = \"a\" }")]);
    let b = with_deps(&[("example-crate", "\"1\"")]);
    let pools = ContractPool::new_pools(vec![a.clone(), b.clone()]);
    assert_eq!(pools.len(), 1);
    assert_eq!(pools[0].contracts(), &[a, b][..]);
    assert_eq!(
        pools[0].dependencies(),
        deps(&[("abstractions", "{ path = \"a\" }"), ("example-crate", "\"1\"")])
    );
}

#[test]
fn shared_dependencies_that_agree_go_into_one_pool() {
    let a = with_deps(&[("serde", "\"1\""), ("rand", "\"0.8\"")]);
    let b = with_deps(&[("rand", "\"0.8\""), ("syn", "\"2\"")]);
    let pools = ContractPool::new_pools(vec![a, b]);
    assert_eq!(pools.len(), 1);
    assert_eq!(
        pools[0].dependencies(),
        deps(&[("serde", "\"1\""), ("rand", "\"0.8\""), ("syn", "\"2\"")])
    );
}

#[test]
fn conflicting_dependencies_go_into_two_pools() {
    let a = with_deps(&[("rand", "\"0.8\"")]);
    let b = with_deps(&[("rand", "\"0.9\"")]);
    let c = with_deps(&[("rand", "\"0.8\""), ("syn", "\"2\"")]);
    let d = with_deps(&[("syn", "\"1\"")]);
    let pools = ContractPool::new_pools(vec![a.clone(), b.clone(), c.clone(), d.clone()]);
    assert_eq!(pools.len(), 2);
    assert_eq!(pools[0].contracts(), &[a, c][..]);
    // `d` conflicts with the first pool since `c` has joined it
    assert_eq!(pools[1].contracts(), &[b, d][..]);
    assert_eq!(pools[1].dependencies(), deps(&[("rand", "\"0.9\""), ("syn", "\"1\"")]));
}

#[test]
fn conflicting_dependencies_do_not_merge() {
    let a = with_deps(&[("rand", "\"0.8\"")]);
    let b = with_deps(&[("rand", "\"0.9\"")]);
    assert!(!a.dependencies_compatible_with(&b));
    assert_eq!(merge_dependencies(&[a.clone(), b.clone()]), None);
    assert!(ContractPool::new(vec![a.clone(), b]).is_none());
    assert_eq!(merge_dependencies(&[a.clone(), a.clone()]), Some(deps(&[("rand", "\"0.8\"")])));
    assert!(ContractPool::new(vec![a.clone(), a]).is_some());
}

#[test]
fn no_contract_makes_no_pool() {
    assert!(ContractPool::new_pools(vec![]).is_empty());
}

#[test]
fn the_dependencies_of_a_pool_are_written_as_a_manifest() {
    let pools = ContractPool::new_pools(vec![with_deps(&[("rand", "\"0.8\""), ("syn", "\"2\"")])]);
    assert_eq!(pools[0].dependencies_string(), "[dependencies]\nrand = \"0.8\"\nsyn = \"2\"\n");
    assert!(pools[0].check());
    pools[0].assert_checked();
}

#[test]
fn a_phase_admits_what_it_should() {
    let with_type = contract(vec![type_input("T"), value_input("x", "T", &[])], x(), x());
    let with_value = contract(vec![value_input("x", "u8", &[])], x(), x());
    let closed = contract(vec![], default_expr(), default_expr());
    assert!(GenericContracts::check(&with_type));
    assert!(!ParametricContracts::check(&with_type));
    assert!(ParametricContracts::check(&with_value));
    assert!(ParametricContracts::check(&closed));
    assert!(!InstantiatedContracts::check(&with_value));
    assert!(InstantiatedContracts::check(&closed));
}

#[test]
fn both_names_of_an_input_are_replaced_in_one_call() {
    let mut c = contract(
        vec![value_input("x", "u8", &["x1"]), value_input("y", "u8", &[])],
        Expr::binary(">", Expr::binary("+", x(), Expr::ident("x1")), Expr::ident("y")),
        Expr::binary("==", Expr::ident("x1"), x()),
    );
    c.instantiate_input("x", InputInstance::SimpleValue(Expr::lit("3u8")));
    let three = || Expr::lit("3u8");
    assert_eq!(c.inputs, vec![value_input("y", "u8", &[])]);
    assert_eq!(
        c.precondition,
        Expr::binary(">", Expr::binary("+", three(), three()), Expr::ident("y"))
    );
    assert_eq!(c.postcondition, Expr::binary("==", three(), three()));
}

#[test]
fn an_input_that_is_a_type_is_replaced_in_the_inputs_after_it() {
    let mut c = contract(
        vec![value_input("a", "T", &[]), type_input("T"), value_input("x", "T", &[])],
        default_expr(),
        Expr::Compound { label: "as".to_string(), types: vec![Type::ident("T")], operands: vec![x()] },
    );
    c.instantiate_input("T", InputInstance::SimpleType(Type::ident("u8")));
    // the input before stays as it is
    assert_eq!(c.inputs, vec![value_input("a", "T", &[]), value_input("x", "u8", &[])]);
    assert_eq!(
        c.postcondition,
        Expr::Compound { label: "as".to_string(), types: vec![Type::ident("u8")], operands: vec![x()] }
    );
}

#[test]
fn an_input_that_is_missing_is_reported() {
    let before = contract(vec![value_input("x", "u8", &[])], x(), x());
    let mut c = before.clone();
    assert_eq!(
        c.try_instantiate_input("z", InputInstance::SimpleValue(Expr::lit("1"))),
        Err(ContractError::NoSuchInput)
    );
    assert_eq!(c, before);
}

#[test]
fn syntax_that_is_not_accepted_is_reported() {
    let before = contract(
        vec![value_input("x", "u8", &[])],
        Expr::block(vec![Stmt::Item("fn f() {}".to_string()), Stmt::tail(x())]),
        x(),
    );
    let mut c = before.clone();
    assert_eq!(
        c.try_instantiate_input("x", InputInstance::SimpleValue(Expr::lit("1"))),
        Err(ContractError::UnsupportedSyntax)
    );
    assert_eq!(c, before);
    assert_eq!(
        c.subst_in_body("x", &InputInstance::SimpleValue(Expr::lit("1"))),
        Err(ContractError::UnsupportedSyntax)
    );
}

#[test]
fn a_complex_value_is_brought_in_by_bindings() {
    let mut c = contract(
        vec![value_input("v", "Vec<u8>", &[])],
        Expr::block(vec![Stmt::tail(Expr::ident("v"))]),
        Expr::ident("v"),
    );
    let value = ComplexInputValue {
        bindings: vec![
            Binding { pat: Pat::ident("a"), value: Expr::lit("1") },
            Binding { pat: Pat::ident("b"), value: Expr::lit("2") },
        ],
        mutable: true,
        rhs: Expr::ident("b"),
    };
    c.instantiate_input("v", InputInstance::ComplexValue(value));
    let bring = |tail: Expr| {
        Expr::block(vec![
            Stmt::local(
                Pat::Ident { name: "v".to_string(), by_ref: false, mutable: true, subpat: None },
                Expr::ident("b"),
            ),
            Stmt::local(Pat::ident("a"), Expr::lit("1")),
            Stmt::local(Pat::ident("b"), Expr::lit("2")),
            Stmt::tail(tail),
        ])
    };
    assert!(c.inputs.is_empty());
    assert_eq!(c.precondition, bring(Expr::ident("v")));
    assert_eq!(c.postcondition, bring(Expr::ident("v")));
}

#[test]
fn an_instance_has_a_value_for_each_input() {
    let c = contract(
        vec![value_input("x", "u8", &["x1"]), value_input("y", "i8", &[])],
        Expr::binary("<", x(), Expr::ident("y")),
        Expr::binary("==", Expr::ident("x1"), Expr::ident("y")),
    );
    let inst = instance_of(&c, &vec![Expr::lit("1u8"), Expr::lit("2i8")]).unwrap();
    assert!(inst.inputs.is_empty());
    assert_eq!(inst.precondition, Expr::binary("<", Expr::lit("1u8"), Expr::lit("2i8")));
    assert_eq!(inst.postcondition, Expr::binary("==", Expr::lit("1u8"), Expr::lit("2i8")));
    assert_eq!(
        instance_of(&c, &vec![Expr::lit("1u8")]),
        Err(ContractError::WrongNumberOfValues)
    );
}

#[test]
fn a_contract_says_what_it_is() {
    let said = contract(vec![value_input("x", "u8", &[])], x(), Expr::binary("==", x(), x()));
    assert!(!said.is_default());
    assert!(contract(vec![], default_expr(), default_expr()).is_default());
    assert!(!contract(vec![], default_expr(), x()).is_default());
    assert_eq!(
        said.as_assertion(),
        Stmt::Expr {
            expr: Expr::compound("assert!", vec![Expr::binary("==", x(), x())]),
            semi: true,
        }
    );
    let pre = said.precondition().expect("every input is a value");
    assert_eq!(pre.inputs, vec![("x".to_string(), Type::ident("u8"))]);
    assert_eq!(pre.predicate, x());
    assert!(contract(vec![type_input("T")], x(), x()).precondition().is_none());
    let mut free = said.concrete_idents().to_vec();
    free.sort();
    assert_eq!(free, vec!["x"]);
}

#[test]
fn marked_parts_are_hoisted_from_the_postcondition_first() {
    let eval = |e: Expr| call("eval", vec![e]);
    let mut c = contract(vec![], eval(Expr::lit("1")), eval(Expr::lit("2")));
    let nodes = c.extract_eval_nodes();
    assert_eq!(nodes.len(), 2);
    assert_eq!(nodes[0].term.body, Expr::lit("2"));
    assert_eq!(nodes[1].term.body, Expr::lit("1"));
    assert_eq!(c.postcondition, Expr::ident("__testify_placeholder__0"));
    assert_eq!(c.precondition, Expr::ident("__testify_placeholder__1"));
    c.subst_names_with_exprs(vec![
        ("__testify_placeholder__0".to_string(), Expr::lit("20")),
        ("__testify_placeholder__1".to_string(), Expr::lit("10")),
    ]);
    assert_eq!(c.postcondition, Expr::lit("20"));
    assert_eq!(c.precondition, Expr::lit("10"));
}

#[test]
fn a_pool_with_a_type_for_input_does_not_become_parametric() {
    let pool = ContractPool::new(vec![contract(vec![type_input("T")], x(), x())]).unwrap();
    assert!(!pool.is_resolvable());
    assert_eq!(pool.type_queries(), Err(PoolError::GenericNotSupported));
    assert!(matches!(pool.with_types(vec![]), Err(PoolError::GenericNotSupported)));
}

#[test]
fn a_pool_with_a_contract_without_input_does_not_become_parametric() {
    let pool =
        ContractPool::new(vec![contract(vec![], default_expr(), default_expr())]).unwrap();
    assert!(!pool.is_resolvable());
    assert_eq!(pool.type_queries(), Err(PoolError::GenericNotSupported));
    assert!(matches!(pool.with_types(vec![]), Err(PoolError::GenericNotSupported)));
}

#[test]
fn a_pool_whose_inputs_are_all_values_can_become_parametric() {
    let pool = ContractPool::new(vec![
        contract(vec![value_input("x", "u8", &[])], x(), x()),
        contract(vec![value_input("a", "u8", &[]), value_input("b", "u8", &[])], x(), x()),
    ])
    .unwrap();
    assert!(pool.is_resolvable());
    assert!(pool.instantiate_types(u8_oracle).is_ok());
}

#[test]
fn the_types_are_filed_contract_by_contract() {
    let one = contract(vec![value_input("a", "A", &[]), value_input("b", "B", &[])], x(), x());
    let two = contract(vec![value_input("c", "C", &[])], x(), x());
    let pool = ContractPool::new(vec![one.clone(), two.clone()]).unwrap();
    let queries = pool.type_queries().unwrap();
    assert_eq!(queries.len(), 3);
    let types = vec![Ty::Uint(UintTy::U8), Ty::Int(IntTy::I16), Ty::Other("C".to_string())];
    assert!(matches!(
        ContractPool::new(vec![one.clone(), two.clone()]).unwrap().with_types(vec![]),
        Err(PoolError::WrongNumberOfTypes)
    ));
    let pool = pool.with_types(types).unwrap();
    assert_eq!(pool.contracts(), &[one, two][..]);
    assert!(pool.check());
}

#[test]
fn an_oracle_that_fails_names_the_queries_that_are_responsible() {
    let good = |name: &str| contract(vec![value_input(name, "u8", &[])], x(), x());
    let bad = contract(vec![value_input("b", "Broken", &[])], x(), x());
    let pool = ContractPool::new(vec![good("a"), bad, good("c")]).unwrap();
    let oracle = |queries: &[HaxQueryWithId]| -> Result<Vec<ResolvedItem>, String> {
        if queries.iter().any(|q| q.1 == 1) {
            Err("cannot find type `Broken`".to_string())
        } else {
            u8_oracle(queries)
        }
    };
    match pool.instantiate_types(oracle) {
        Err(PoolError::TypeResolution(HaxQueryError::HaxError { queries, stderr })) => {
            assert_eq!(stderr, "cannot find type `Broken`");
            assert_eq!(queries.len(), 1);
        },
        other => panic!("the oracle failed, yet: {:?}", other.map(|p| p.contracts().len())),
    }
}

#[test]
fn an_oracle_that_forgets_an_item_is_found_out() {
    let pool = ContractPool::new(vec![contract(
        vec![value_input("a", "u8", &[]), value_input("b", "u8", &[])],
        x(),
        x(),
    )])
    .unwrap();
    let oracle = |queries: &[HaxQueryWithId]| -> Result<Vec<ResolvedItem>, String> {
        Ok(u8_oracle(queries)?.into_iter().filter(|item| item.name != "item_1").collect())
    };
    assert!(matches!(
        pool.instantiate_types(oracle),
        Err(PoolError::TypeResolution(HaxQueryError::MissingItem { index: 1 }))
    ));
}

#[test]
fn trials_stop_at_the_target_or_at_the_budget() {
    let mut trials = Trials::new(2);
    let mut attempts = 0;
    while trials.wanted() {
        trials.record(false);
        attempts += 1;
    }
    assert_eq!(attempts, 40);
    let mut trials = Trials::new(2);
    trials.record(true);
    assert!(trials.wanted());
    trials.record(true);
    assert!(!trials.wanted());
    assert!(!Trials::new(0).wanted());
}

#[test]
fn a_precondition_without_verdict_stops_the_pool() {
    let pool = ContractPool::new(vec![contract(vec![value_input("x", "u8", &[])], x(), x())])
        .unwrap()
        .instantiate_types(u8_oracle)
        .unwrap();
    assert!(matches!(
        pool.instantiate_values(|_, _| None),
        Err(PoolError::PreconditionPanicked { contract: 0 })
    ));
}

#[test]
fn a_type_of_which_no_value_can_be_drawn_stops_the_pool() {
    let pool = ContractPool::new(vec![contract(vec![value_input("x", "Vec<u8>", &[])], x(), x())])
        .unwrap()
        .with_types(vec![Ty::Other("Vec<u8>".to_string())])
        .unwrap();
    assert!(matches!(
        pool.instantiate_values(|_, _| Some(true)),
        Err(PoolError::UnsupportedType { contract: 0, input: 0 })
    ));
}

#[test]
fn a_precondition_that_never_holds_gives_no_instance() {
    let pool = ContractPool::new(vec![contract(vec![value_input("x", "u8", &[])], x(), x())])
        .unwrap()
        .instantiate_types(u8_oracle)
        .unwrap();
    let asked = std::cell::Cell::new(0);
    let pool = pool
        .instantiate_values(|_, _| {
            asked.set(asked.get() + 1);
            Some(false)
        })
        .unwrap();
    assert!(pool.contracts().is_empty());
    assert_eq!(asked.get(), 200);
}

/// A contract with one `u8` input `x`, the precondition
/// `lift(x) + lift(x) < 256`, and the postcondition
/// `add_or_zero(x, x) == eval(lower(lift(x) + lift(x)))`.
fn add_or_zero_contract() -> Contract {
    let lifted_sum = || Expr::binary("+", call("lift", vec![x()]), call("lift", vec![x()]));
    contract(
        vec![value_input("x", "u8", &[])],
        Expr::binary("<", lifted_sum(), Expr::lit("256")),
        Expr::binary(
            "==",
            call("add_or_zero", vec![x(), x()]),
            call("eval", vec![call("lower", vec![lifted_sum()])]),
        ),
    )
}

/// Runs `lower(lift(a) + lift(b))` for literals `a` and `b` of type `u8`.
fn run_lowered_sum(term: &EvalTerm) -> Option<Expr> {
    let Expr::Call { func, args } = &term.node.term.body else { return None };
    assert_eq!(**func, Expr::ident("lower"));
    let Expr::Compound { label, operands, .. } = &args[0] else { return None };
    assert_eq!(label, "+");
    let operand = |e: &Expr| match e {
        Expr::Call { func, args } => {
            assert_eq!(**func, Expr::ident("lift"));
            u8_literal(&args[0])
        },
        other => panic!("a lifted literal was expected, not {other:?}"),
    };
    let sum = operand(&operands[0]) + operand(&operands[1]);
    u8::try_from(sum).ok().map(|v| Expr::lit(&format!("{v}u8")))
}

#[test]
fn a_contract_passes_through_every_phase() {
    let pools = ContractPool::new_pools(vec![add_or_zero_contract()]);
    assert_eq!(pools.len(), 1);
    for pool in pools {
        let pool = pool.instantiate_types(u8_oracle).unwrap();
        let pool = pool
            .instantiate_values(|nth, values| {
                assert_eq!(nth, 0);
                assert_eq!(values.len(), 1);
                let x = number(&values[0]);
                Some(x + x < 256)
            })
            .unwrap();
        assert!(!pool.contracts().is_empty());
        assert!(pool.contracts().len() <= 10);
        let pool = match pool
            .compute_eval_nodes(|terms: &[EvalTerm]| -> Result<Vec<Option<Expr>>, String> {
                Ok(terms.iter().map(run_lowered_sum).collect())
            }) {
            Ok(pool) => pool,
            Err(_) => panic!("the terms could not be run"),
        };
        for contract in pool.contracts() {
            assert!(contract.inputs.is_empty());
            let Stmt::Expr { expr: Expr::Compound { label, operands, .. }, semi: true } =
                contract.as_assertion()
            else {
                panic!("an assertion was expected")
            };
            assert_eq!(label, "assert!");
            let Expr::Compound { label, operands, .. } = &operands[0] else {
                panic!("an equation was expected")
            };
            assert_eq!(label, "==");
            let Expr::Call { func, args } = &operands[0] else { panic!("a call was expected") };
            assert_eq!(**func, Expr::ident("add_or_zero"));
            let (a, b, sum) = (u8_literal(&args[0]), u8_literal(&args[1]), u8_literal(&operands[1]));
            assert_eq!(a, b);
            assert!(a <= 127);
            assert_eq!(sum, a + b);
            assert_eq!(contract.precondition, {
                let lifted = || call("lift", vec![Expr::lit(&format!("{a}u8"))]);
                Expr::binary("<", Expr::binary("+", lifted(), lifted()), Expr::lit("256"))
            });
        }
    }
}

#[test]
fn concretization() {
    let contract = Contract {
        inputs: vec![value_input("x", "u8", &["x1"]), value_input("y", "u8", &[])],
        description: "".to_string(),
        precondition: Expr::block(vec![Stmt::tail(Expr::binary(">", x(), Expr::lit("10")))]),
        postcondition: Expr::binary(
            "==",
            Expr::binary("+", x(), Expr::lit("1")),
            call("eval", vec![Expr::binary("+", x(), Expr::lit("1"))]),
        ),
        span: Span::dummy(),
        dependencies: Dependencies::new(),
        function_tested: None,
        use_statements: vec![],
        tests: 10,
    };

    for pool in ContractPool::new_pools(vec![contract]) {
        let pool = pool.instantiate_types(u8_oracle).unwrap();
        let pool = pool
            .instantiate_values(|_, values| Some(number(&values[0]) > 10))
            .unwrap();
        println!("contracts = {:#?}", pool.contracts());
        assert!(!pool.contracts().is_empty());
        let evaluated = pool.compute_eval_nodes(
            |terms: &[EvalTerm]| -> Result<Vec<Option<Expr>>, String> {
                Ok(terms
                    .iter()
                    .map(|term| match &term.node.term.body {
                        Expr::Compound { operands, .. } => u8::try_from(u8_literal(&operands[0]) + 1)
                            .ok()
                            .map(|v| Expr::lit(&format!("{v}u8"))),
                        _ => None,
                    })
                    .collect())
            },
        );
        let pool = match evaluated {
            Ok(pool) => pool,
            Err(_) => panic!("the terms could not be run"),
        };
        println!("evaluated contracts = {:#?}", pool.contracts());
        for contract in pool.contracts() {
            let Expr::Compound { operands, .. } = &contract.postcondition else {
                panic!("an equation was expected")
            };
            let Expr::Compound { operands: sum, .. } = &operands[0] else {
                panic!("a sum was expected")
            };
            let v = u8_literal(&sum[0]);
            assert!(v > 10);
            if v < 255 {
                assert_eq!(u8_literal(&operands[1]), v + 1);
            } else {
                // the term failed: its placeholder stays
                assert_eq!(operands[1], Expr::ident("__testify_placeholder__0"));
            }
        }
    }
}

#[test]
fn a_batch_that_fails_names_the_terms_that_are_responsible() {
    let eval = |e: Expr| call("eval", vec![e]);
    let closed = |post: Expr| contract(vec![], default_expr(), post);
    let pool = ContractPool::new(vec![
        closed(eval(Expr::lit("1"))),
        closed(Expr::binary("+", eval(Expr::lit("2")), eval(Expr::ident("broken")))),
        closed(eval(Expr::lit("3"))),
    ])
    .unwrap()
    .into_instantiated()
    .unwrap();
    let outcome = pool.compute_eval_nodes(|terms: &[EvalTerm]| {
        if terms.iter().any(|t| t.node.term.body == Expr::ident("broken")) {
            Err("cannot find value `broken`")
        } else {
            Ok(terms.iter().map(|t| Some(t.node.term.body.clone())).collect())
        }
    });
    match outcome {
        Err(EvalFailure::Batch { responsible, error }) => {
            assert_eq!(error, "cannot find value `broken`");
            assert_eq!(responsible.len(), 1);
            assert_eq!(responsible[0].node.term.body, Expr::ident("broken"));
            assert_eq!(responsible[0].node.placeholder, "__testify_placeholder__1");
        },
        _ => panic!("the batch fails"),
    }
}

#[test]
fn results_are_filed_contract_by_contract() {
    let eval = |e: Expr| call("eval", vec![e]);
    let closed = |post: Expr| contract(vec![], default_expr(), post);
    let pool = ContractPool::new(vec![
        closed(Expr::binary("+", eval(Expr::lit("1")), eval(Expr::lit("2")))),
        closed(Expr::lit("none")),
        closed(eval(Expr::lit("3"))),
    ])
    .unwrap()
    .into_instantiated()
    .unwrap();
    let (pool, terms, ids) = pool.extract_eval_nodes();
    assert_eq!(terms.len(), 3);
    assert_eq!(
        ids,
        vec![
            vec!["__testify_placeholder__0".to_string(), "__testify_placeholder__1".to_string()],
            vec![],
            vec!["__testify_placeholder__0".to_string()],
        ]
    );
    let results = vec![Some(Expr::lit("a")), None, Some(Expr::lit("c"))];
    let pool = pool.substitute_results(&ids, &results).unwrap();
    let posts: Vec<Expr> = pool.contracts().iter().map(|c| c.postcondition.clone()).collect();
    assert_eq!(
        posts,
        vec![
            Expr::binary("+", Expr::lit("a"), Expr::ident("__testify_placeholder__1")),
            Expr::lit("none"),
            Expr::lit("c"),
        ]
    );
    let (pool, _, ids) = pool.extract_eval_nodes();
    assert!(matches!(
        pool.substitute_results(&ids, &vec![None]),
        Err(PoolError::WrongNumberOfResults)
    ));
}

#[test]
fn an_input_is_taken_out_of_a_contract() {
    let mut c = contract(
        vec![value_input("x", "u8", &[]), value_input("y", "u16", &["z"])],
        x(),
        x(),
    );
    let before = c.clone();
    assert_eq!(c.retain_input("w"), None);
    assert_eq!(c, before);
    match c.retain_input("y") {
        Some((InputKind::Value { typ, aliases }, at)) => {
            assert_eq!(at, 1);
            assert_eq!(typ, Type::ident("u16"));
            assert_eq!(aliases, vec!["z".to_string()]);
        }
        other => panic!("not found: {:?}", other),
    }
    assert_eq!(c.inputs, vec![value_input("x", "u8", &[])]);
    assert_eq!(c.precondition, before.precondition);
}

#[test]
fn a_contract_names_the_function_it_is_about() {
    let mut c = contract(vec![value_input("x", "u8", &[])], x(), x());
    assert_eq!(c.function_tested(), None);
    c.function_tested = Some(testify::syntax::Path::of(&["core", "num", "add"]));
    assert_eq!(
        c.function_tested(),
        Some(vec!["core".to_string(), "num".to_string(), "add".to_string()])
    );
}

#[test]
fn the_twentieth_trial_gives_the_one_instance() {
    let mut c = contract(vec![value_input("x", "u8", &[])], x(), call("f", vec![x()]));
    c.tests = 1;
    let pool = ContractPool::new(vec![c]).unwrap().instantiate_types(u8_oracle).unwrap();
    let asked = std::cell::Cell::new(0);
    let accepted = std::cell::Cell::new(None);
    let pool = pool
        .instantiate_values(|_, values| {
            asked.set(asked.get() + 1);
            if asked.get() == 20 {
                accepted.set(Some(number(&values[0])));
                Some(true)
            } else {
                Some(false)
            }
        })
        .unwrap();
    assert_eq!(asked.get(), 20);
    assert_eq!(pool.contracts().len(), 1);
    let literal = Expr::lit(&format!("{}u8", accepted.get().unwrap()));
    assert_eq!(pool.contracts()[0].precondition, literal);
    assert_eq!(pool.contracts()[0].postcondition, call("f", vec![literal.clone()]));
}

#[test]
fn a_missing_verdict_after_an_accepted_trial_stops_the_pool() {
    let pool = ContractPool::new(vec![contract(vec![value_input("x", "u8", &[])], x(), x())])
        .unwrap()
        .instantiate_types(u8_oracle)
        .unwrap();
    let asked = std::cell::Cell::new(0);
    let result = pool.instantiate_values(|_, _| {
        asked.set(asked.get() + 1);
        if asked.get() < 3 {
            Some(true)
        } else {
            None
        }
    });
    assert!(matches!(result, Err(PoolError::PreconditionPanicked { contract: 0 })));
    assert_eq!(asked.get(), 3);
}

#[test]
fn the_instances_come_contract_by_contract() {
    let mut first = contract(vec![value_input("x", "u8", &[])], x(), call("f", vec![x()]));
    first.tests = 2;
    let mut second = contract(vec![value_input("x", "u8", &[])], x(), call("g", vec![x()]));
    second.tests = 3;
    let pool = ContractPool::new(vec![first, second])
        .unwrap()
        .instantiate_types(u8_oracle)
        .unwrap();
    let asked = std::cell::RefCell::new(vec![]);
    let pool = pool
        .instantiate_values(|nth, values| {
            asked.borrow_mut().push((nth, number(&values[0])));
            Some(true)
        })
        .unwrap();
    let asked = asked.into_inner();
    assert_eq!(asked.iter().map(|(nth, _)| *nth).collect::<Vec<_>>(), vec![0, 0, 1, 1, 1]);
    let expected: Vec<Expr> = asked
        .iter()
        .map(|(nth, v)| {
            call(if *nth == 0 { "f" } else { "g" }, vec![Expr::lit(&format!("{v}u8"))])
        })
        .collect();
    let got: Vec<Expr> = pool.contracts().iter().map(|c| c.postcondition.clone()).collect();
    assert_eq!(got, expected);
}

#[test]
fn a_verdict_says_what_follows_a_trial() {
    let trials = Trials::new(2);
    assert_eq!(trials.step(None), TrialStep::Stop);
    assert_eq!(
        trials.step(Some(false)),
        TrialStep::Skip(Trials { target: 2, accepted: 0, attempted: 1 })
    );
    assert_eq!(
        trials.step(Some(true)),
        TrialStep::Accept(Trials { target: 2, accepted: 1, attempted: 1 })
    );
}
