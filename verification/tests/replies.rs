use ast_engine::generate_ast;
use ast_engine::get_supported_languages;
use serde_json::Value;

fn texts_of(v: &Value, out: &mut Vec<String>) {
    if let Some(t) = v.get("text").and_then(Value::as_str) {
        out.push(t.to_string());
    }
    if let Some(children) = v.get("children").and_then(Value::as_array) {
        for c in children {
            texts_of(c, out);
        }
    }
}

#[test]
fn supported_languages_reply_is_exact() {
    let reply = get_supported_languages();
    assert_eq!(
        reply,
        r#"["json","rust","javascript","typescript","python","go","ocaml"]"#
    );
}

#[test]
fn reply_is_valid_json_on_success() {
    let reply = generate_ast(r#"{"key": "value"}"#, "json");
    let v: Value = serde_json::from_str(&reply).expect("reply is not valid JSON");
    assert_eq!(v.get("success"), Some(&Value::Bool(true)));
    assert_eq!(v.get("language").and_then(Value::as_str), Some("json"));
    assert!(v.get("error").is_none(), "error must be omitted on success");
    let ast = v.get("ast").expect("ast missing");
    assert_eq!(ast.get("kind").and_then(Value::as_str), Some("document"));
    assert_eq!(ast.get("start").and_then(Value::as_u64), Some(0));
    assert_eq!(ast.get("end").and_then(Value::as_u64), Some(16));
    assert_eq!(
        ast.get("start_position").map(Value::to_string),
        Some("[0,0]".to_string())
    );
    let mut texts = Vec::new();
    texts_of(ast, &mut texts);
    assert!(texts.iter().any(|t| t == "value"));
}

#[test]
fn reply_is_valid_json_on_failure() {
    let reply = generate_ast("print('hello')", "python");
    let v: Value = serde_json::from_str(&reply).expect("reply is not valid JSON");
    assert_eq!(v.get("success"), Some(&Value::Bool(false)));
    assert!(v.get("ast").is_none(), "ast must be omitted on failure");
    assert_eq!(
        v.get("error").and_then(Value::as_str),
        Some("Unsupported language: python")
    );
    assert_eq!(v.get("language").and_then(Value::as_str), Some("python"));
}

#[test]
fn failure_reply_is_exact_bytes() {
    let reply = generate_ast("x", "cobol");
    assert_eq!(
        reply,
        r#"{"success":false,"error":"Unsupported language: cobol","language":"cobol"}"#
    );
}

#[test]
fn identical_requests_get_identical_replies() {
    let cases = [
        (r#"{"key": "value"}"#, "json"),
        ("fn main() { println!(\"Hello\"); }", "rust"),
        ("print('hello')", "python"),
        ("", "json"),
        ("let x = 1", "ocaml"),
    ];
    for (code, lang) in cases {
        let first = generate_ast(code, lang);
        let second = generate_ast(code, lang);
        assert_eq!(first, second, "{lang} reply not reproducible");
    }
}

#[test]
fn escaped_text_survives_a_json_round_trip() {
    let source = "fn f() { let s = \"a\\\"b\\n\"; }";
    let reply = generate_ast(source, "rust");
    let v: Value = serde_json::from_str(&reply).expect("reply is not valid JSON");
    assert_eq!(v.get("success"), Some(&Value::Bool(true)));
    let mut texts = Vec::new();
    texts_of(v.get("ast").expect("ast missing"), &mut texts);
    assert!(
        texts.iter().any(|t| t == "\\\""),
        "no leaf carried the quote escape: {texts:?}"
    );
    assert!(
        texts.iter().any(|t| t == "\\n"),
        "no leaf carried the newline escape: {texts:?}"
    );
    assert!(reply.contains(r#""text":"\\\"""#));
}

#[test]
fn control_characters_are_escaped_like_the_decoder_expects() {
    let source = "var s = \"a\u{1}\u{8}\tb\";";
    let reply = generate_ast(source, "javascript");
    let v: Value = serde_json::from_str(&reply).expect("reply is not valid JSON");
    assert_eq!(v.get("success"), Some(&Value::Bool(true)));
    assert!(reply.contains("\\u0001"), "control characters get the u-form");
    assert!(reply.contains("\\b"), "backspace gets its named escape");
    assert!(reply.contains("\\t"), "tab gets its named escape");
    let mut texts = Vec::new();
    texts_of(v.get("ast").expect("ast missing"), &mut texts);
    assert!(texts.iter().any(|t| t == "a\u{1}\u{8}\tb"));
}

#[test]
fn language_is_echoed_verbatim_in_the_reply() {
    let reply = generate_ast("{}", "JsOn");
    let v: Value = serde_json::from_str(&reply).expect("reply is not valid JSON");
    assert_eq!(v.get("success"), Some(&Value::Bool(true)));
    assert_eq!(v.get("language").and_then(Value::as_str), Some("JsOn"));
}

#[test]
fn multi_byte_text_passes_through_unescaped() {
    let source = "{\"k\": \"h\u{e9}llo \u{1f600}\"}";
    let reply = generate_ast(source, "json");
    let v: Value = serde_json::from_str(&reply).expect("reply is not valid JSON");
    assert_eq!(v.get("success"), Some(&Value::Bool(true)));
    let mut texts = Vec::new();
    texts_of(v.get("ast").expect("ast missing"), &mut texts);
    assert!(texts.iter().any(|t| t == "h\u{e9}llo \u{1f600}"), "{texts:?}");
    assert!(reply.contains("h\u{e9}llo \u{1f600}"), "non-ASCII stays raw");
}
