use testify::contract::{Dependencies, DependencySpec};
use testify::generate::{draw_from_bytes, generate_for_type, value_for_type, IntTy, Ty, UintTy};
use testify::krate::hax::{
    execute_hax_queries, find_answer, item_name_of, results_from_items, HaxQuery,
    HaxQueryError, HaxQueryRes, HaxQueryWithId, ResolvedItem,
};
use testify::krate::server::{
    batch_outcomes, decode_outcome, precondition_request, precondition_verdict, request_line,
};
use testify::krate::tarpaulin::{
    BadCoverageReport, FileReport, LineReport, Stats, TarpaulinReport, Trace,
};
use testify::krate::workspace::{join_path, KrateId, Workspace};
use testify::krate::Krate;
use testify::marshalling::{ExpectError, Value};
use testify::syntax::{Expr, Type};
use testify::utils::dependencies_to_string;

#[test]
fn crates_are_named_by_their_number() {
    assert_eq!(KrateId(0).name(), "crate_0");
    assert_eq!(KrateId(42).name(), "crate_42");
}

#[test]
fn paths_are_joined_with_one_separator() {
    assert_eq!(join_path("/tmp/testify", "crate_0"), "/tmp/testify/crate_0");
    assert_eq!(join_path("/tmp/testify/", "crate_0"), "/tmp/testify/crate_0");
    assert_eq!(join_path("", "crate_0"), "crate_0");
    assert_eq!(join_path("/", "crate_0"), "/crate_0");
}

#[test]
fn a_new_crate_takes_the_least_free_number() {
    let mut workspace = Workspace::new("/tmp/testify".to_string());
    assert_eq!(workspace.add_crate(), KrateId(0));
    assert_eq!(workspace.add_crate(), KrateId(1));
    assert_eq!(workspace.add_crate(), KrateId(2));
    assert!(workspace.contains(KrateId(1)));
    assert!(!workspace.contains(KrateId(3)));
    workspace.remove_crate(KrateId(1));
    assert!(workspace.contains(KrateId(1)));
    assert_eq!(workspace.crates, vec![KrateId(0), KrateId(1), KrateId(2)]);

    let mut gaps = Workspace::new("w".to_string());
    gaps.crates = vec![KrateId(0), KrateId(3), KrateId(1)];
    assert_eq!(gaps.add_crate(), KrateId(2));
    assert_eq!(gaps.add_crate(), KrateId(4));
    assert_eq!(gaps.crate_path(KrateId(4)), "w/crate_4");
}

#[test]
fn the_workspace_names_its_members() {
    let mut workspace = Workspace::new("/tmp/testify".to_string());
    assert_eq!(workspace.workspace_manifest(), "\n[workspace]\nresolver = \"2\"\nmembers = [\n]");
    workspace.add_crate();
    workspace.add_crate();
    assert_eq!(
        workspace.workspace_manifest(),
        "\n[workspace]\nresolver = \"2\"\nmembers = [\n    \"crate_0\",\n    \"crate_1\",\n]"
    );
}

#[test]
fn a_crate_knows_its_place_and_its_dependencies() {
    let mut workspace = Workspace::new("/tmp/testify".to_string());
    let _first = Krate::new(&mut workspace);
    let mut krate = Krate::new(&mut workspace);
    assert_eq!(krate.name(), "crate_1");
    assert_eq!(krate.path(&workspace), "/tmp/testify/crate_1");
    assert_eq!(krate.workspace_path(&workspace), "/tmp/testify");
    let mut deps = Dependencies::new();
    deps.insert("rand".to_string(), DependencySpec("\"0.8\"".to_string()));
    krate.add_dependencies(&deps);
    krate.use_serde();
    krate.add_dependency("syn = \"2\"");
    assert_eq!(
        krate.manifest("/lib"),
        "[package]\nname = \"crate_1\"\nversion = \"0.1.0\"\nedition = \"2021\"\n\n\
         [[bin]]\nname = \"crate_1\"\npath = \"main.rs\"\n\n\
         [dependencies]\nrand = \"0.8\"\nserde_json = \"1\"\n\
         serde = { version = \"1.0\", features = [\"derive\"] }\nsyn = \"2\"\n\n\
         [dependencies.testify]\npath = \"/lib\"\n"
    );
}

#[test]
fn dependencies_are_written_one_to_a_line() {
    let mut deps = Dependencies::new();
    assert_eq!(dependencies_to_string(&deps), "[dependencies]\n");
    assert!(deps.insert("a".to_string(), DependencySpec("\"1\"".to_string())));
    assert!(deps.insert("b".to_string(), DependencySpec("{ path = \"../b\" }".to_string())));
    // the first requirement on a crate stays
    assert!(!deps.insert("a".to_string(), DependencySpec("\"2\"".to_string())));
    assert_eq!(deps.get(&"a".to_string()), Some(&DependencySpec("\"1\"".to_string())));
    assert_eq!(deps.get(&"c".to_string()), None);
    assert_eq!(deps.len(), 2);
    assert_eq!(dependencies_to_string(&deps), "[dependencies]\na = \"1\"\nb = { path = \"../b\" }\n");
    assert_eq!(DependencySpec::default(), DependencySpec("{}".to_string()));
}

fn trace(line: usize, hits: usize) -> Trace {
    Trace { line, stats: Stats { line: hits } }
}

fn path(components: &[&str]) -> Vec<String> {
    components.iter().map(|c| c.to_string()).collect()
}

fn report() -> TarpaulinReport {
    TarpaulinReport {
        files: vec![
            FileReport { path: path(&["/", "src", "lib.rs"]), traces: vec![trace(2, 1), trace(3, 0)] },
            FileReport { path: path(&["/", "src", "other.rs"]), traces: vec![trace(2, 5)] },
            FileReport { path: path(&["/", "src", "lib.rs"]), traces: vec![trace(5, 2)] },
        ],
    }
}

#[test]
fn the_lines_of_a_file_are_found_by_its_path() {
    assert_eq!(LineReport::from(trace(7, 0)), LineReport { line: 7, covered: false });
    assert_eq!(LineReport::from(trace(7, 3)), LineReport { line: 7, covered: true });
    assert_eq!(
        report().lines_for_file(&path(&["/", "src", "lib.rs"])),
        vec![
            LineReport { line: 2, covered: true },
            LineReport { line: 3, covered: false },
            LineReport { line: 5, covered: true },
        ]
    );
    assert!(report().lines_for_file(&path(&["src", "lib.rs"])).is_empty());
}

#[test]
fn the_coverage_of_a_span_names_each_of_its_lines() {
    let source: Vec<String> =
        ["fn f() {", "    a();", "    b();", "}", "fn g() {}"].iter().map(|l| l.to_string()).collect();
    let file = path(&["/", "src", "lib.rs"]);
    let found = report().coverage_for_span(
        "krate::f".to_string(),
        &file,
        "src/lib.rs".to_string(),
        1,
        4,
        &source,
    );
    assert_eq!(
        found,
        Some(BadCoverageReport {
            relative_path: "src/lib.rs".to_string(),
            item_path: "krate::f".to_string(),
            lines: vec![
                (1, "fn f() {".to_string(), None),
                (2, "    a();".to_string(), Some(true)),
                (3, "    b();".to_string(), Some(false)),
                (4, "}".to_string(), None),
            ],
        })
    );
    let nothing = |lo, hi| {
        report().coverage_for_span("i".to_string(), &file, "p".to_string(), lo, hi, &source)
    };
    // no line of the span is in the report
    assert_eq!(nothing(4, 4), None);
    // the span is not in the file
    assert_eq!(nothing(0, 2), None);
    assert_eq!(nothing(3, 2), None);
    assert_eq!(nothing(2, 6), None);
}

#[test]
fn a_question_to_a_precondition_names_the_contract() {
    assert_eq!(
        precondition_request(3, vec![Value::Number(1), Value::Bool(true)]),
        Value::Object(vec![
            ("id".to_string(), Value::Number(3)),
            ("contents".to_string(), Value::Array(vec![Value::Number(1), Value::Bool(true)])),
        ])
    );
}

#[test]
fn a_verdict_is_yes_or_no_or_nothing() {
    assert_eq!(precondition_verdict(&Value::Bool(true)), Ok(Some(true)));
    assert_eq!(precondition_verdict(&Value::Bool(false)), Ok(Some(false)));
    assert_eq!(precondition_verdict(&Value::Null), Ok(None));
    assert_eq!(
        precondition_verdict(&Value::Number(1)),
        Err(ExpectError::BadVariant { repr: Value::Number(1) })
    );
}

#[test]
fn the_outcomes_of_a_batch_come_one_for_each_term() {
    let ok = |s: &str| Value::Object(vec![("Ok".to_string(), Value::String(s.to_string()))]);
    let err = |s: &str| Value::Object(vec![("Err".to_string(), Value::String(s.to_string()))]);
    assert_eq!(decode_outcome(&ok("1u8")), Ok(Ok("1u8".to_string())));
    assert_eq!(decode_outcome(&err("overflow")), Ok(Err("overflow".to_string())));
    assert!(decode_outcome(&Value::Null).is_err());
    assert!(decode_outcome(&Value::Object(vec![("Ok".to_string(), Value::Number(1))])).is_err());
    assert!(decode_outcome(&Value::Object(vec![("Maybe".to_string(), Value::Null)])).is_err());
    assert_eq!(
        batch_outcomes(&Value::Array(vec![ok("1u8"), err("overflow"), ok("3u8")])),
        Ok(vec![Ok("1u8".to_string()), Err("overflow".to_string()), Ok("3u8".to_string())])
    );
    assert_eq!(batch_outcomes(&Value::Array(vec![])), Ok(vec![]));
    assert!(batch_outcomes(&Value::Array(vec![ok("1u8"), Value::Null])).is_err());
    assert!(batch_outcomes(&Value::Bool(true)).is_err());
}

#[test]
fn a_request_is_one_line() {
    assert_eq!(request_line("{\"id\":0}"), Some("{\"id\":0}\n".to_string()));
    assert_eq!(request_line(""), Some("\n".to_string()));
    assert_eq!(request_line("a\nb"), None);
}

fn query(typ: &str) -> HaxQuery {
    HaxQuery::Type { generics: vec![], typ: Type::ident(typ), use_statements: vec![] }
}

fn item(name: &str, ty: Ty) -> ResolvedItem {
    ResolvedItem { name: name.to_string(), ty }
}

#[test]
fn answers_are_found_by_the_number_of_their_query() {
    assert_eq!(item_name_of(0), "item_0");
    assert_eq!(item_name_of(12), "item_12");
    let items = vec![
        item("item_1", Ty::Uint(UintTy::U16)),
        item("main", Ty::Other("()".to_string())),
        item("item_0", Ty::Uint(UintTy::U8)),
        item("item_1", Ty::Int(IntTy::I16)),
    ];
    assert_eq!(find_answer(&items, &"item_0".to_string()), Some(&Ty::Uint(UintTy::U8)));
    // of two items of one name the last counts
    assert_eq!(find_answer(&items, &"item_1".to_string()), Some(&Ty::Int(IntTy::I16)));
    assert_eq!(find_answer(&items, &"item_2".to_string()), None);
    assert_eq!(
        results_from_items(2, &items),
        Ok(vec![HaxQueryRes::Type(Ty::Uint(UintTy::U8)), HaxQueryRes::Type(Ty::Int(IntTy::I16))])
    );
    assert_eq!(results_from_items(3, &items), Err(HaxQueryError::MissingItem { index: 2 }));
    assert_eq!(results_from_items(0, &items), Ok(vec![]));
}

#[test]
fn no_query_asks_nothing_of_the_oracle() {
    let asked = std::cell::Cell::new(false);
    let r = execute_hax_queries(&vec![], |_: &[HaxQueryWithId]| {
        asked.set(true);
        Err("the oracle was asked".to_string())
    });
    assert_eq!(r, Ok(vec![]));
    assert!(!asked.get());
}

#[test]
fn queries_go_to_the_oracle_under_their_numbers() {
    let r = execute_hax_queries(&vec![query("u8"), query("i64")], |queries: &[HaxQueryWithId]| {
        Ok(queries
            .iter()
            .map(|q| {
                let HaxQuery::Type { typ, .. } = &q.0;
                let ty = if *typ == Type::ident("u8") {
                    Ty::Uint(UintTy::U8)
                } else {
                    Ty::Int(IntTy::I64)
                };
                item(&format!("item_{}", q.1), ty)
            })
            .rev()
            .collect())
    });
    assert_eq!(
        r,
        Ok(vec![HaxQueryRes::Type(Ty::Uint(UintTy::U8)), HaxQueryRes::Type(Ty::Int(IntTy::I64))])
    );
}

#[test]
fn a_draw_gives_the_low_bits_of_the_raw_number() {
    let drawn = value_for_type(&Ty::Uint(UintTy::U8), 0x1234).unwrap();
    assert_eq!(drawn.repr, Value::Number(0x34));
    assert_eq!(drawn.text, "52u8");
    assert_eq!(drawn.expr, Expr::lit("52u8"));

    let drawn = value_for_type(&Ty::Int(IntTy::I8), 0x12fb).unwrap();
    assert_eq!(drawn.repr, Value::Number(-5));
    assert_eq!(drawn.text, "-5i8");
    assert_eq!(drawn.expr, Expr::compound("-", vec![Expr::lit("5i8")]));

    let drawn = value_for_type(&Ty::Int(IntTy::I8), 0x80).unwrap();
    assert_eq!(drawn.repr, Value::Number(-128));
    assert_eq!(drawn.text, "-128i8");

    let drawn = value_for_type(&Ty::Uint(UintTy::U16), 0xabcd_ffff).unwrap();
    assert_eq!(drawn.text, "65535u16");
    let drawn = value_for_type(&Ty::Int(IntTy::I32), 0xffff_ffff).unwrap();
    assert_eq!(drawn.text, "-1i32");
    let drawn = value_for_type(&Ty::Uint(UintTy::Usize), u128::MAX).unwrap();
    assert_eq!(drawn.text, "18446744073709551615usize");
    assert_eq!(drawn.repr, Value::Number(18446744073709551615));
    let drawn = value_for_type(&Ty::Int(IntTy::I64), 1u128 << 63).unwrap();
    assert_eq!(drawn.text, "-9223372036854775808i64");

    let drawn = value_for_type(&Ty::Uint(UintTy::U128), u128::MAX).unwrap();
    assert_eq!(drawn.repr, Value::String("340282366920938463463374607431768211455".to_string()));
    assert_eq!(drawn.text, "340282366920938463463374607431768211455u128");
    let drawn = value_for_type(&Ty::Int(IntTy::I128), 1u128 << 127).unwrap();
    assert_eq!(drawn.repr, Value::String("-170141183460469231731687303715884105728".to_string()));
    assert_eq!(drawn.text, "-170141183460469231731687303715884105728i128");
    let drawn = value_for_type(&Ty::Int(IntTy::I128), u128::MAX).unwrap();
    assert_eq!(drawn.text, "-1i128");

    assert!(value_for_type(&Ty::Other("Vec<u8>".to_string()), 1).is_none());
}

#[test]
fn random_draws_are_of_their_type_and_differ() {
    let mut seen = std::collections::HashSet::new();
    for _ in 0..64 {
        let drawn = generate_for_type(&Ty::Uint(UintTy::U64)).unwrap();
        let text = drawn.text.strip_suffix("u64").expect("a literal of type u64").to_string();
        let value: u64 = text.parse().unwrap();
        assert_eq!(drawn.repr, Value::Number(value as i128));
        assert_eq!(drawn.expr, Expr::lit(&drawn.text));
        seen.insert(value);
    }
    // a generator that handed its zeroed buffer back would draw 0 every time
    assert!(seen.len() > 32);
    for _ in 0..64 {
        let drawn = generate_for_type(&Ty::Int(IntTy::I8)).unwrap();
        let value: i8 = drawn.text.strip_suffix("i8").unwrap().parse().unwrap();
        assert_eq!(drawn.repr, Value::Number(value as i128));
    }
    assert!(generate_for_type(&Ty::Other("T".to_string())).is_none());
}

#[test]
fn raw_bytes_are_read_least_significant_first() {
    let bytes = [0x34u8, 0x12, 0xff, 0x00, 0x01];
    assert_eq!(draw_from_bytes(&Ty::Uint(UintTy::U8), &bytes).unwrap().text, "52u8");
    assert_eq!(draw_from_bytes(&Ty::Uint(UintTy::U16), &bytes).unwrap().text, "4660u16");
    assert_eq!(draw_from_bytes(&Ty::Uint(UintTy::U32), &bytes).unwrap().text, "16716340u32");
    // bytes that are missing count as zero
    assert_eq!(draw_from_bytes(&Ty::Uint(UintTy::U64), &bytes).unwrap().text, "4311683636u64");
    assert_eq!(draw_from_bytes(&Ty::Uint(UintTy::U128), &bytes).unwrap().text, "4311683636u128");
    assert_eq!(draw_from_bytes(&Ty::Uint(UintTy::U128), &[]).unwrap().text, "0u128");
    assert_eq!(draw_from_bytes(&Ty::Int(IntTy::I8), &[0xff]).unwrap().text, "-1i8");
    // only the first sixteen bytes count
    let mut long = [0u8; 20];
    long[16] = 1;
    assert_eq!(draw_from_bytes(&Ty::Uint(UintTy::U128), &long).unwrap().text, "0u128");
    long[15] = 0x80;
    assert_eq!(
        draw_from_bytes(&Ty::Int(IntTy::I128), &long).unwrap().text,
        "-170141183460469231731687303715884105728i128"
    );
    assert!(draw_from_bytes(&Ty::Other("T".to_string()), &bytes).is_none());
}

#[test]
fn a_workspace_that_holds_a_crate_twice_is_not_well_formed() {
    let mut workspace = Workspace::new("w".to_string());
    assert!(workspace.is_well_formed());
    workspace.add_crate();
    workspace.add_crate();
    assert!(workspace.is_well_formed());
    workspace.crates.push(KrateId(0));
    assert!(!workspace.is_well_formed());
}
