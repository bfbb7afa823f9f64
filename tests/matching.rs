use regex::Regex;
use retoco::{
    check_identifier, compile_pattern, implement_parser, regex_to_code, unit_from_tree, ByteRange,
    CharRange, Class, CompileError, Ir, IrKind, Matcher, NodeKind, ParseOptions,
};

fn compile(pattern: &str) -> Result<Matcher, CompileError> {
    compile_pattern(pattern, ParseOptions::default())
}

const INPUTS: [&str; 12] = [
    "", "a", "foo", "xxfooyy", "bar", "1", " ", "\n", "é", "日本語", "ab12 cd", "\u{7f}\u{80}",
];

#[test]
fn empty_pattern_matches_everything() {
    let m = compile("").unwrap();
    assert!(m.is_match(""));
    assert!(m.is_match("anything"));
}

#[test]
fn unmatchable_pattern_matches_nothing() {
    let m = compile(r"\P{any}").unwrap();
    assert!(!m.is_match(""));
    assert!(!m.is_match("nonempty"));
    let m = compile(r"[^\x00-\x{10FFFF}]").unwrap();
    assert!(!m.is_match(""));
    assert!(!m.is_match("nonempty"));
}

#[test]
fn unmatchable_short_circuits_unsupported_kinds() {
    let m = compile(r"a\P{any}").unwrap();
    assert!(!m.is_match("a"));
    assert!(!m.is_match(""));
}

#[test]
fn literal_foo() {
    let m = compile("foo").unwrap();
    assert!(m.is_match("foo"));
    assert!(m.is_match("xxfooyy"));
    assert!(!m.is_match("bar"));
    assert!(!m.is_match(""));
    assert!(!m.is_match("fo"));
    assert!(m.is_match("fofoo"));
}

#[test]
fn literal_multibyte() {
    let m = compile("日本").unwrap();
    assert!(m.is_match("こんにちは日本語"));
    assert!(!m.is_match("日"));
}

#[test]
fn digit_class() {
    let m = compile(r"\d").unwrap();
    assert!(m.is_match("1"));
    assert!(!m.is_match("a"));
    assert!(!m.is_match(""));
    assert!(m.is_match("abc٣"));
}

#[test]
fn byte_class() {
    let m = compile(r"(?-u:[a-c])").unwrap();
    assert!(matches!(m, Matcher::Bytes(_)));
    assert!(m.is_match("xxb"));
    assert!(!m.is_match("xyz"));
    assert!(!m.is_match(""));
}

#[test]
fn unicode_class_reads_scalars() {
    let m = compile("[é-ë]").unwrap();
    assert!(matches!(m, Matcher::Unicode(_)));
    assert!(m.is_match("café"));
    assert!(!m.is_match("cafe"));
}

#[test]
fn compiling_twice_agrees() {
    for p in ["", "foo", r"\d", r"\w", r"(?-u:\s)", r"\P{any}", "(foo)"] {
        let a = compile(p).unwrap();
        let b = compile(p).unwrap();
        for s in INPUTS {
            assert_eq!(a.is_match(s), b.is_match(s));
        }
    }
}

#[test]
fn capture_is_transparent() {
    for p in ["", "foo", r"\d", r"\s", r"\P{any}", "é"] {
        let plain = compile(p).unwrap();
        let wrapped = compile(&format!("({})", p)).unwrap();
        let named = compile(&format!("((?P<x>{}))", p)).unwrap();
        for s in INPUTS {
            assert_eq!(plain.is_match(s), wrapped.is_match(s));
            assert_eq!(plain.is_match(s), named.is_match(s));
        }
    }
}

#[test]
fn agrees_with_regex_engine() {
    for p in [
        "", "foo", "a", r"\d", r"\w", r"\s", r"\p{any}", r"\P{any}", "(foo)", "[a-c]",
        r"(?-u:[a-c])", "日", "[^a]", "(?i)f", "(?i)é",
    ] {
        let ours = compile(p).unwrap();
        let theirs = Regex::new(p).unwrap();
        for s in INPUTS.iter().copied().chain(["FOO", "É", "Foo!"]) {
            assert_eq!(ours.is_match(s), theirs.is_match(s), "pattern {:?} on {:?}", p, s);
        }
    }
}

#[test]
fn unsupported_kinds_are_errors() {
    assert!(matches!(compile("a*"), Err(CompileError::Unsupported(NodeKind::Repetition))));
    assert!(matches!(compile("^"), Err(CompileError::Unsupported(NodeKind::Look))));
    assert!(matches!(compile(r"a\d"), Err(CompileError::Unsupported(NodeKind::Concat))));
    assert!(matches!(compile("foo|bar"), Err(CompileError::Unsupported(NodeKind::Alternation))));
    assert!(matches!(compile("(a+)"), Err(CompileError::Unsupported(NodeKind::Repetition))));
}

#[test]
fn syntax_error() {
    assert!(matches!(compile("("), Err(CompileError::Syntax(_))));
    assert!(matches!(compile(r"\"), Err(CompileError::Syntax(_))));
}

#[test]
fn hand_built_tree() {
    let lit = Ir { kind: IrKind::Literal(b"ab".to_vec()), minimum_len: Some(2) };
    let cap = Ir {
        kind: IrKind::Capture { index: 1, name: None, sub: Box::new(lit) },
        minimum_len: Some(2),
    };
    let m = implement_parser(&cap).unwrap();
    assert!(m.is_match("xaby"));
    assert!(!m.is_match("ba"));

    let cls = Ir {
        kind: IrKind::Class(Class::Unicode(vec![CharRange { start: 'x', end: 'z' }])),
        minimum_len: Some(1),
    };
    assert!(implement_parser(&cls).unwrap().is_match("y"));

    let bytes = Ir {
        kind: IrKind::Class(Class::Bytes(vec![ByteRange { start: 0x80, end: 0xff }])),
        minimum_len: Some(1),
    };
    let m = implement_parser(&bytes).unwrap();
    assert!(m.is_match("é"));
    assert!(!m.is_match("e"));

    let none = Ir { kind: IrKind::Concat(vec![]), minimum_len: None };
    assert!(!implement_parser(&none).unwrap().is_match(""));
    let concat = Ir { kind: IrKind::Concat(vec![]), minimum_len: Some(0) };
    assert!(matches!(implement_parser(&concat), Err(CompileError::Unsupported(NodeKind::Concat))));
}

#[test]
fn code_for_literal() {
    let code = regex_to_code("foo", "foo", ParseOptions::default()).unwrap();
    assert!(code.contains("\nmod foo {\n    pub fn is_match(input: &str) -> bool {\n"));
    assert!(code.contains("const LITERAL: [u8; 3] = [102, 111, 111, ];"));
    assert!(code.starts_with(
        "#[doc = \"Regex:\"]\n#[doc = \"```text\"]\n#[doc = \"foo\"]\n#[doc = \"```\"]\n"
    ));
}

#[test]
fn code_for_classes() {
    let code = regex_to_code("d", r"(?-u:[a-c])", ParseOptions::default()).unwrap();
    assert!(code.contains("any(|&c| false || (97 <= c && c <= 99))"));
    let code = regex_to_code("d", "[é-ë]", ParseOptions::default()).unwrap();
    assert!(code.contains("any(|c| false || ('\\u{e9}' <= c && c <= '\\u{eb}'))"));
    let code = regex_to_code("n", r"\P{any}", ParseOptions::default()).unwrap();
    assert!(code.contains("let _ = input;\n        false\n"));
    let code = regex_to_code("e", "", ParseOptions::default()).unwrap();
    assert!(code.contains("let _ = input;\n        true\n"));
}

#[test]
fn code_documents_multiline_pattern() {
    let mut opts = ParseOptions::default();
    opts.ignore_whitespace = true;
    let code = regex_to_code("x", "fo\"o\\x6f\r\n", opts).unwrap();
    assert!(code.starts_with(
        "#[doc = \"Regex:\"]\n#[doc = \"```text\"]\n#[doc = \"fo\\\"o\\\\x6f\\r\\n\"]\n"
    ));
    assert!(code.contains("#[doc = \"HIR:\"]\n#[doc = \"```text\"]\n#[doc = \"Literal(\\n"));
}

#[test]
fn code_errors() {
    assert!(!check_identifier("1x"));
    assert!(!check_identifier(""));
    assert!(!check_identifier("a-b"));
    assert!(check_identifier("_x1"));
    assert!(check_identifier("Foo"));
    assert!(matches!(regex_to_code("x", "(", ParseOptions::default()), Err(CompileError::Syntax(_))));
    assert!(matches!(
        regex_to_code("x", "a+", ParseOptions::default()),
        Err(CompileError::Unsupported(NodeKind::Repetition))
    ));
}

#[test]
fn default_options() {
    let o = ParseOptions::default();
    assert!(o.unicode);
    assert!(!o.case_insensitive && !o.multi_line && !o.dot_matches_new_line);
    assert!(!o.ignore_whitespace && !o.crlf);
    let mut ascii = ParseOptions::default();
    ascii.unicode = false;
    let m = compile_pattern(r"\w", ascii).unwrap();
    assert!(!m.is_match("é"));
    assert!(m.is_match("a"));
}

#[test]
fn deep_nesting_is_refused_by_the_parser() {
    let pattern = format!("{}a{}", "(".repeat(300), ")".repeat(300));
    assert!(matches!(compile(&pattern), Err(CompileError::Syntax(_))));
    let pattern = format!("{}a{}", "(".repeat(100), ")".repeat(100));
    assert!(compile(&pattern).unwrap().is_match("xa"));
}

fn literal_tree(bytes: &[u8]) -> Ir {
    Ir { kind: IrKind::Literal(bytes.to_vec()), minimum_len: Some(bytes.len()) }
}

fn capture(index: u32, name: Option<&str>, sub: Ir) -> Ir {
    let minimum_len = sub.minimum_len;
    Ir {
        kind: IrKind::Capture { index, name: name.map(String::from), sub: Box::new(sub) },
        minimum_len,
    }
}

#[test]
fn capture_label_does_not_change_the_unit() {
    let plain = unit_from_tree("m", "ab", &literal_tree(b"ab"), "k", "p").unwrap();
    let first = unit_from_tree("m", "ab", &capture(1, None, literal_tree(b"ab")), "k", "p").unwrap();
    let named =
        unit_from_tree("m", "ab", &capture(7, Some("x"), literal_tree(b"ab")), "k", "p").unwrap();
    assert_eq!(plain, first);
    assert_eq!(plain, named);
    assert!(plain.contains("const LITERAL: [u8; 2] = [97, 98, ];"));
}

#[test]
fn unit_from_tree_errors() {
    let look = Ir { kind: IrKind::Look(1), minimum_len: Some(0) };
    assert!(matches!(
        unit_from_tree("m", "^", &capture(1, None, look), "k", "p"),
        Err(CompileError::Unsupported(NodeKind::Look))
    ));
    let none = Ir { kind: IrKind::Look(1), minimum_len: None };
    let text = unit_from_tree("m", "x", &none, "k", "p").unwrap();
    assert!(text.contains("let _ = input;\n        false\n"));
}

#[test]
fn unit_text_is_exact() {
    let text = unit_from_tree("m", "a\r\n\"b\\", &literal_tree(b"a"), "K\nk", "P").unwrap();
    let expected = [
        "#[doc = \"Regex:\"]",
        "#[doc = \"```text\"]",
        "#[doc = \"a\\r\\n\\\"b\\\\\"]",
        "#[doc = \"```\"]",
        "#[doc = \"HIR:\"]",
        "#[doc = \"```text\"]",
        "#[doc = \"K\\nk\"]",
        "#[doc = \"```\"]",
        "#[doc = \"HIR properties:\"]",
        "#[doc = \"```text\"]",
        "#[doc = \"P\"]",
        "#[doc = \"```\"]",
        "mod m {",
        "    pub fn is_match(input: &str) -> bool {",
        "        const LITERAL: [u8; 1] = [97, ];",
        "        input.as_bytes().windows(LITERAL.len()).any(|window| window == LITERAL)",
        "    }",
        "}",
        "",
    ]
    .join("\n");
    assert_eq!(text, expected);
}

#[test]
fn code_is_deterministic() {
    for p in ["", "foo", r"\d", "(?-u:[a-c])", r"\P{any}", "((?P<n>é))"] {
        let a = regex_to_code("m", p, ParseOptions::default()).unwrap();
        let b = regex_to_code("m", p, ParseOptions::default()).unwrap();
        assert_eq!(a, b);
    }
}
