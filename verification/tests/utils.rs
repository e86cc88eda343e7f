use testify::utils::{add_or_zero, join_lines, lines, split_at_line_col, DefId, DefPathItem};

fn texts(v: &[&str]) -> Vec<String> {
    v.iter().map(|s| s.to_string()).collect()
}

#[test]
fn a_text_is_cut_into_its_lines() {
    assert_eq!(lines(""), Vec::<String>::new());
    assert_eq!(lines("a"), texts(&["a"]));
    assert_eq!(lines("a\n"), texts(&["a"]));
    assert_eq!(lines("a\nb"), texts(&["a", "b"]));
    assert_eq!(lines("a\n\nb\n"), texts(&["a", "", "b"]));
    assert_eq!(lines("\n"), texts(&[""]));
    assert_eq!(lines("a\r\nb\r"), texts(&["a", "b\r"]));
    assert_eq!(lines("\r\n\r\n"), texts(&["", ""]));
    assert_eq!(lines("é\nü"), texts(&["é", "ü"]));
    for text in ["", "a", "a\n", "a\nb", "\n\n", "a\r\nb", "x\ry\n", "end\r\n"] {
        let std_lines: Vec<String> = text.lines().map(|l| l.to_string()).collect();
        assert_eq!(lines(text), std_lines, "{text:?}");
    }
}

#[test]
fn lines_are_joined_with_a_separator() {
    assert_eq!(join_lines(&texts(&[]), "\n"), "");
    assert_eq!(join_lines(&texts(&["a"]), "\n"), "a");
    assert_eq!(join_lines(&texts(&["a", "b", "c"]), "::"), "a::b::c");
}

#[test]
fn a_text_is_cut_at_a_line_and_a_column() {
    let text = "one\ntwo\nthree\nfour\nfive";
    assert_eq!(
        split_at_line_col(text, 2, 1),
        Some(("onet".to_string(), "wofour\nfive".to_string()))
    );
    assert_eq!(split_at_line_col(text, 1, 0), Some(("".to_string(), "onethree\nfour\nfive".to_string())));
    // a column behind the end of the line is the end of the line
    assert_eq!(split_at_line_col(text, 4, 9), Some(("one\ntwo\nthreefour".to_string(), "".to_string())));
    assert_eq!(split_at_line_col(text, 5, 2), Some(("one\ntwo\nthree\nfourfi".to_string(), "ve".to_string())));
    assert_eq!(split_at_line_col(text, 0, 0), None);
    assert_eq!(split_at_line_col(text, 6, 0), None);
    assert_eq!(split_at_line_col("", 1, 0), None);
}

#[test]
fn a_definition_is_named_by_its_path() {
    let id = DefId {
        krate: "example_crate".to_string(),
        path: vec![
            DefPathItem::TypeNs("module".to_string()),
            DefPathItem::Impl,
            DefPathItem::Other,
            DefPathItem::ValueNs("add_or_zero".to_string()),
        ],
    };
    assert_eq!(id.into_string(), "example_crate::module::r#impl::add_or_zero");
    let odd = DefId {
        krate: "k".to_string(),
        path: vec![
            DefPathItem::Use,
            DefPathItem::AnonConst,
            DefPathItem::LifetimeNs("a".to_string()),
            DefPathItem::ForeignMod,
        ],
    };
    assert_eq!(odd.into_string(), "k::r#use::r#_::'lifetime::r#foreign_mod");
    assert_eq!(DefId { krate: "k".to_string(), path: vec![] }.into_string(), "k");
}

#[test]
fn the_example_adds_or_gives_zero() {
    assert_eq!(add_or_zero(1, 2), 3);
    assert_eq!(add_or_zero(127, 128), 255);
    assert_eq!(add_or_zero(128, 128), 0);
    assert_eq!(add_or_zero(255, 255), 0);
    assert_eq!(add_or_zero(0, 0), 0);
}
