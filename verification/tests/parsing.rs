use ast_engine::parse_code;
use ast_engine::AstNode;

fn walk<'a>(n: &'a AstNode, found: &mut Vec<&'a AstNode>) {
    found.push(n);
    for c in &n.children {
        walk(c, found);
    }
}

fn all_nodes(root: &AstNode) -> Vec<&AstNode> {
    let mut found = Vec::new();
    walk(root, &mut found);
    found
}

#[test]
fn test_json_parsing() {
    let result = parse_code(r#"{"key": "value"}"#, "json");
    assert!(result.success);
    assert!(result.ast.is_some());
}

#[test]
fn test_rust_parsing() {
    let result = parse_code("fn main() { println!(\"Hello\"); }", "rust");
    assert!(result.success);
    assert!(result.ast.is_some());
}

#[test]
fn test_unsupported_language() {
    let result = parse_code("print('hello')", "python");
    assert!(!result.success);
    assert!(result.error.is_some());
}

#[test]
fn minimal_snippet_per_registry_language() {
    let cases = [
        ("json", "{}"),
        ("rust", "fn main() {}"),
        ("javascript", "var x = 1;"),
        ("typescript", "let x: number = 1;"),
        ("go", "package main"),
        ("ocaml", "let x = 1"),
    ];
    for (lang, code) in cases {
        let result = parse_code(code, lang);
        assert!(result.success, "{lang} did not parse");
        let root = result.ast.expect("no root");
        assert_eq!(root.start, 0, "{lang} root start");
        assert!(result.error.is_none());
        assert_eq!(result.language, lang);
    }
}

#[test]
fn unsupported_identifier_named_in_error() {
    for lang in ["", "cobol", "Python3"] {
        let result = parse_code("x", lang);
        assert!(!result.success);
        assert!(result.ast.is_none());
        let err = result.error.expect("no error");
        assert!(!err.is_empty());
        assert!(err.contains(lang));
        assert_eq!(err, format!("Unsupported language: {lang}"));
        assert_eq!(result.language, lang);
    }
}

#[test]
fn python_reported_as_unsupported() {
    let result = parse_code("print('hello')", "python");
    assert!(!result.success);
    assert_eq!(result.error.as_deref(), Some("Unsupported language: python"));
    assert_eq!(result.language, "python");
}

#[test]
fn lookup_is_case_insensitive_but_echo_is_not() {
    let result = parse_code("{}", "JSON");
    assert!(result.success);
    assert_eq!(result.language, "JSON");
    let result = parse_code("fn main() {}", "Rust");
    assert!(result.success);
    assert_eq!(result.language, "Rust");
}

#[test]
fn leaf_text_round_trips_to_source() {
    let source = "fn main() { let s = \"Hello\"; }";
    let result = parse_code(source, "rust");
    assert!(result.success);
    let root = result.ast.expect("no root");
    let mut leaves = 0;
    for n in all_nodes(&root) {
        if n.children.is_empty() {
            if let Some(slice) = source.get(n.start..n.end) {
                assert_eq!(n.text.as_deref(), Some(slice));
                leaves += 1;
            } else {
                assert!(n.text.is_none());
            }
        } else {
            assert!(n.text.is_none());
        }
    }
    assert!(leaves > 0);
}

#[test]
fn trees_are_well_formed() {
    let cases = [
        ("json", r#"{"key": [1, 2, {"deep": true}], "other": null}"#),
        ("rust", "fn main() { println!(\"Hello\"); }"),
        ("javascript", "function f(a, b) { return a + b; }"),
        ("go", "package main\nfunc main() {}\n"),
    ];
    for (lang, code) in cases {
        let result = parse_code(code, lang);
        assert!(result.success, "{lang} did not parse");
        let root = result.ast.expect("no root");
        assert!(root.check_well_formed(), "{lang} tree not well formed");
    }
}

#[test]
fn json_scenario_finds_value_leaf() {
    let result = parse_code(r#"{"key": "value"}"#, "json");
    assert!(result.success);
    let root = result.ast.expect("no root");
    assert_eq!(root.kind, "document");
    let nodes = all_nodes(&root);
    assert!(nodes
        .iter()
        .any(|n| n.children.is_empty() && n.text.as_deref() == Some("value")
            && n.kind == "string_content"));
    assert!(nodes.iter().any(|n| n.kind == "string" && n.start == 8 && n.end == 15));
}

#[test]
fn rust_scenario_finds_hello_under_function() {
    let result = parse_code("fn main() { println!(\"Hello\"); }", "rust");
    assert!(result.success);
    let root = result.ast.expect("no root");
    let functions: Vec<&AstNode> = all_nodes(&root)
        .into_iter()
        .filter(|n| n.kind == "function_item")
        .collect();
    assert!(!functions.is_empty());
    let has_hello = all_nodes(functions[0])
        .iter()
        .any(|n| n.children.is_empty()
            && n.text.as_deref().map(|t| t.contains("Hello")).unwrap_or(false));
    assert!(has_hello);
}

#[test]
fn empty_source_is_an_empty_success() {
    let result = parse_code("", "json");
    assert!(result.success);
    let root = result.ast.expect("no root");
    assert_eq!(root.start, 0);
    assert_eq!(root.end, 0);
    assert!(root.children.is_empty());
}

#[test]
fn deep_nesting_does_not_overflow() {
    let depth = 20_000;
    let mut code = String::new();
    for _ in 0..depth {
        code.push('[');
    }
    code.push('1');
    for _ in 0..depth {
        code.push(']');
    }
    let result = parse_code(&code, "json");
    assert!(result.success);
    assert!(result.ast.is_some());
}

#[test]
fn broken_source_is_still_a_tree() {
    let result = parse_code("{\"key\": ", "json");
    assert!(result.success, "syntax errors are nodes, not failures");
    let root = result.ast.expect("no root");
    assert!(root.check_well_formed());
}
