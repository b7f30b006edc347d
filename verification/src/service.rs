//! The service entry points: dispatch a request to the registry, drive the
//! engine, project the tree, and serialize one reply for every request.
use vstd::prelude::*;

use crate::engine::language_error_text;
use crate::engine::lower_of;
use crate::engine::parser_parse;
use crate::engine::push_char;
use crate::engine::to_lowercase;
use crate::json::emit_string;
use crate::json::ser_failure;
use crate::json::ser_result;
use crate::json::ser_string;
use crate::json::to_json;
use crate::node::text_ok;
use crate::node::ParseResult;
use crate::project::project_tree;
use crate::registry::grammar_of;
use crate::registry::lookup_language;
use crate::registry::spec_lookup;
use vstd::string::StringExecFns;

verus! {

/// The diagnostic for an identifier the registry has no grammar for.
pub open spec fn unsupported_message(lang: Seq<char>) -> Seq<char> {
    "Unsupported language: "@ + lang
}

/// What the envelope of one parse request states: the requested identifier
/// echoed back unchanged; a tree exactly on success and a diagnostic exactly
/// on failure; faithful leaf text throughout the tree; a registry miss
/// reported as unsupported, and on a registry hit either a tree or one of
/// the two engine diagnostics.
pub open spec fn parse_outcome_ok(r: ParseResult, code: Seq<char>, lang: Seq<char>) -> bool {
    &&& r.language@ == lang
    &&& (r.success <==> r.ast is Some)
    &&& (r.success <==> r.error is None)
    &&& (r.ast matches Some(n) ==> text_ok(n, code))
    &&& (spec_lookup(lower_of(lang)) is None ==> (r.error matches Some(e) && (!r.success && e@
        == unsupported_message(lang))))
    &&& (spec_lookup(lower_of(lang)) is Some ==> (match r.error {
        Some(e) => !r.success && (e@ == "Failed to parse code"@ || exists|d: Seq<char>|
            e@ == #[trigger] ("Failed to set language: "@ + d)),
        None => r.success,
    }))
}

/// Parses source text in the requested language and wraps the result.
///
/// A fresh engine instance is created per call; nothing is shared or reused
/// across calls. Failures are reported in-band: an identifier outside the
/// registry, a grammar the engine refuses to load, and an engine run that
/// produces no tree each yield a failure envelope, never a panic.
pub fn parse_code(code: &str, language: &str) -> (r: ParseResult)
    ensures
        parse_outcome_ok(r, code@, language@),
{
    let lower = to_lowercase(language);
    match lookup_language(lower.as_str()) {
        None => ParseResult {
            success: false,
            ast: None,
            error: Some(String::from_str("Unsupported language: ").concat(language)),
            language: language.to_owned(),
        },
        Some(l) => {
            let grammar = grammar_of(l);
            let mut parser = tree_sitter::Parser::new();
            match parser.set_language(&grammar) {
                Err(e) => {
                    let detail = language_error_text(&e);
                    ParseResult {
                        success: false,
                        ast: None,
                        error: Some(
                            String::from_str("Failed to set language: ").concat(detail.as_str()),
                        ),
                        language: language.to_owned(),
                    }
                },
                Ok(()) => {
                    match parser_parse(&mut parser, code) {
                        None => ParseResult {
                            success: false,
                            ast: None,
                            error: Some(String::from_str("Failed to parse code")),
                            language: language.to_owned(),
                        },
                        Some(tree) => {
                            match project_tree(tree.root_node(), code) {
                                Some(ast) => ParseResult {
                                    success: true,
                                    ast: Some(ast),
                                    error: None,
                                    language: language.to_owned(),
                                },
                                // Only a walk past the step budget lands here;
                                // no tree the machine can hold does.
                                None => ParseResult {
                                    success: false,
                                    ast: None,
                                    error: Some(String::from_str("Failed to parse code")),
                                    language: language.to_owned(),
                                },
                            }
                        },
                    }
                },
            }
        },
    }
}

/// What the one reply string of a request states: it serializes an envelope
/// that answers the request, and on a registry miss it is pinned down to the
/// exact failure reply.
pub open spec fn reply_ok(out: Seq<char>, code: Seq<char>, lang: Seq<char>) -> bool {
    &&& exists|o: ParseResult| parse_outcome_ok(o, code, lang) && out == #[trigger] ser_result(o)
    &&& (spec_lookup(lower_of(lang)) is None ==> out == ser_failure(
        unsupported_message(lang),
        lang,
    ))
}

/// Parses the code and returns the serialized envelope. The emitter is a
/// total function of the envelope, so every request gets a well-formed
/// reply and no serialization fallback is ever needed.
pub fn generate_ast(code: &str, language: &str) -> (out: String)
    ensures
        reply_ok(out@, code@, language@),
{
    let r = parse_code(code, language);
    let out = to_json(&r);
    proof {
        assert(parse_outcome_ok(r, code@, language@) && out@ == ser_result(r));
        if spec_lookup(lower_of(language@)) is None {
            assert(out@ =~= ser_failure(unsupported_message(language@), language@));
        }
    }
    out
}

/// The reply of the language listing: the fixed, ordered enumeration of
/// advertised identifiers, as one JSON array of strings.
pub open spec fn supported_reply() -> Seq<char> {
    seq!['['] + ser_string("json"@) + seq![','] + ser_string("rust"@) + seq![','] + ser_string(
        "javascript"@,
    ) + seq![','] + ser_string("typescript"@) + seq![','] + ser_string("python"@) + seq![',']
        + ser_string("go"@) + seq![','] + ser_string("ocaml"@) + seq![']']
}

/// Lists the advertised language identifiers, serialized in definition order.
pub fn get_supported_languages() -> (out: String)
    ensures
        out@ == supported_reply(),
{
    let mut out = String::new();
    push_char(&mut out, '[');
    emit_string("json", &mut out);
    push_char(&mut out, ',');
    emit_string("rust", &mut out);
    push_char(&mut out, ',');
    emit_string("javascript", &mut out);
    push_char(&mut out, ',');
    emit_string("typescript", &mut out);
    push_char(&mut out, ',');
    emit_string("python", &mut out);
    push_char(&mut out, ',');
    emit_string("go", &mut out);
    push_char(&mut out, ',');
    emit_string("ocaml", &mut out);
    push_char(&mut out, ']');
    assert(out@ =~= supported_reply());
    out
}

/// Law: a request whose identifier misses the registry is answered with a
/// failure envelope whose error text is nonempty and holds the offending
/// identifier verbatim at its end.
pub proof fn lemma_unsupported_identifier_reported(
    r: ParseResult,
    code: Seq<char>,
    lang: Seq<char>,
)
    requires
        parse_outcome_ok(r, code, lang),
        spec_lookup(lower_of(lang)) is None,
    ensures
        !r.success,
        r.error matches Some(e) && e@.len() == 22 + lang.len(),
        r.error matches Some(e) && e@.subrange(22, e@.len() as int) == lang,
{
    reveal_strlit("Unsupported language: ");
    let e = r.error->0;
    assert(e@ == "Unsupported language: "@ + lang);
    assert(e@.subrange(22, e@.len() as int) =~= lang);
}

/// Law: on the registry-miss path the reply is a function of the request
/// alone, so two calls with identical inputs give byte-identical replies.
pub proof fn lemma_miss_replies_identical(
    out1: Seq<char>,
    out2: Seq<char>,
    code: Seq<char>,
    lang: Seq<char>,
)
    requires
        reply_ok(out1, code, lang),
        reply_ok(out2, code, lang),
        spec_lookup(lower_of(lang)) is None,
    ensures
        out1 == out2,
{
}

} // verus!
