//! Trusted boundary around the tree-sitter parsing engine, the grammar
//! crates, and the few string operations of std that vstd leaves
//! unspecified. Everything else in this crate is verified against the
//! contracts stated here.
use vstd::prelude::*;

verus! {

#[verifier::external_type_specification]
#[verifier::external_body]
pub struct ExLanguage(tree_sitter::Language);

#[verifier::external_type_specification]
#[verifier::external_body]
pub struct ExLanguageError(tree_sitter::LanguageError);

#[verifier::external_type_specification]
#[verifier::external_body]
pub struct ExParser(tree_sitter::Parser);

#[verifier::external_type_specification]
#[verifier::external_body]
pub struct ExTree(tree_sitter::Tree);

#[verifier::external_type_specification]
#[verifier::external_body]
pub struct ExNode<'tree>(tree_sitter::Node<'tree>);

/// Relies on tree_sitter_json::LANGUAGE, converted into an engine grammar handle.
#[verifier::external_body]
pub(crate) fn grammar_json() -> tree_sitter::Language {
    tree_sitter::Language::from(tree_sitter_json::LANGUAGE)
}

/// Relies on tree_sitter_rust::LANGUAGE, converted into an engine grammar handle.
#[verifier::external_body]
pub(crate) fn grammar_rust() -> tree_sitter::Language {
    tree_sitter::Language::from(tree_sitter_rust::LANGUAGE)
}

/// Relies on tree_sitter_javascript::LANGUAGE, converted into an engine grammar handle.
#[verifier::external_body]
pub(crate) fn grammar_javascript() -> tree_sitter::Language {
    tree_sitter::Language::from(tree_sitter_javascript::LANGUAGE)
}

/// Relies on tree_sitter_typescript::LANGUAGE_TYPESCRIPT, converted into an engine grammar handle.
#[verifier::external_body]
pub(crate) fn grammar_typescript() -> tree_sitter::Language {
    tree_sitter::Language::from(tree_sitter_typescript::LANGUAGE_TYPESCRIPT)
}

/// Relies on tree_sitter_go::LANGUAGE, converted into an engine grammar handle.
#[verifier::external_body]
pub(crate) fn grammar_go() -> tree_sitter::Language {
    tree_sitter::Language::from(tree_sitter_go::LANGUAGE)
}

/// Relies on tree_sitter_ocaml::LANGUAGE_OCAML, converted into an engine grammar handle.
#[verifier::external_body]
pub(crate) fn grammar_ocaml() -> tree_sitter::Language {
    tree_sitter::Language::from(tree_sitter_ocaml::LANGUAGE_OCAML)
}

/// Relies on tree_sitter::Parser::new: a fresh engine instance per call.
pub assume_specification[ tree_sitter::Parser::new ]() -> tree_sitter::Parser;

/// Relies on tree_sitter::Parser::set_language: binds a grammar to the
/// engine, or reports why the grammar cannot be used.
pub assume_specification[ tree_sitter::Parser::set_language ](
    p: &mut tree_sitter::Parser,
    language: &tree_sitter::Language,
) -> Result<(), tree_sitter::LanguageError>;

/// Relies on tree_sitter::Parser::parse over one UTF-8 buffer, with no
/// previous tree: `None` when the engine could not run at all.
#[verifier::external_body]
pub(crate) fn parser_parse(p: &mut tree_sitter::Parser, code: &str) -> Option<tree_sitter::Tree> {
    p.parse(code, None)
}

/// Relies on tree_sitter::Tree::root_node: every tree has a root.
pub assume_specification<'tree>[ tree_sitter::Tree::root_node ](
    t: &'tree tree_sitter::Tree,
) -> tree_sitter::Node<'tree>;

/// Relies on tree_sitter::Node::kind: the grammar rule or token name of
/// the node, which the engine keeps non-null and UTF-8.
pub assume_specification<'tree>[ tree_sitter::Node::<'tree>::kind ](
    n: &tree_sitter::Node<'tree>,
) -> &'tree str;

/// Relies on tree_sitter::Node::is_named: named grammar rule versus anonymous token.
pub assume_specification<'tree>[ tree_sitter::Node::<'tree>::is_named ](
    n: &tree_sitter::Node<'tree>,
) -> bool;

/// Relies on tree_sitter::Node::start_byte.
pub assume_specification<'tree>[ tree_sitter::Node::<'tree>::start_byte ](
    n: &tree_sitter::Node<'tree>,
) -> usize;

/// Relies on tree_sitter::Node::end_byte.
pub assume_specification<'tree>[ tree_sitter::Node::<'tree>::end_byte ](
    n: &tree_sitter::Node<'tree>,
) -> usize;

/// Relies on tree_sitter::Node::child_count.
pub assume_specification<'tree>[ tree_sitter::Node::<'tree>::child_count ](
    n: &tree_sitter::Node<'tree>,
) -> u32;

/// Relies on tree_sitter::Node::child: the child at the given index, if any.
pub assume_specification<'tree>[ tree_sitter::Node::<'tree>::child ](
    n: &tree_sitter::Node<'tree>,
    i: u32,
) -> Option<tree_sitter::Node<'tree>>;

/// Relies on tree_sitter::Node::start_position: the zero-based row and
/// column where the node starts.
#[verifier::external_body]
pub(crate) fn node_start_position(n: &tree_sitter::Node<'_>) -> (usize, usize) {
    let p = n.start_position();
    (p.row, p.column)
}

/// Relies on tree_sitter::Node::end_position: the zero-based row and
/// column where the node ends.
#[verifier::external_body]
pub(crate) fn node_end_position(n: &tree_sitter::Node<'_>) -> (usize, usize) {
    let p = n.end_position();
    (p.row, p.column)
}

/// Relies on the Display impl of tree_sitter::LanguageError for its
/// diagnostic text.
#[verifier::external_body]
pub(crate) fn language_error_text(e: &tree_sitter::LanguageError) -> String {
    format!("{}", e)
}

/// What str::to_lowercase returns: a function of the characters alone.
pub uninterp spec fn lower_of(s: Seq<char>) -> Seq<char>;

/// Relies on str::to_lowercase: the Unicode lowercase form of the slice,
/// depending on its characters alone.
#[verifier::external_body]
pub(crate) fn to_lowercase(s: &str) -> (r: String)
    ensures
        r@ == lower_of(s@),
{
    s.to_lowercase()
}

/// What str::get returns on a byte range: the substring when the range is
/// in bounds and on character boundaries, and nothing otherwise.
pub uninterp spec fn sub_of(s: Seq<char>, start: int, end: int) -> Option<Seq<char>>;

/// Relies on str::get: `Some` holds exactly the requested substring, and on
/// an all-ASCII string, where byte and character offsets coincide, every
/// in-bounds range decodes.
#[verifier::external_body]
pub(crate) fn slice_text(source: &str, start: usize, end: usize) -> (r: Option<String>)
    ensures
        r is Some <==> sub_of(source@, start as int, end as int) is Some,
        r matches Some(t) ==> sub_of(source@, start as int, end as int) == Some(t@),
        (r is Some && (r->0)@ == source@.subrange(start as int, end as int)) <== (
        source.is_ascii() && start <= end && end <= source@.len()),
{
    match source.get(start..end) {
        Some(s) => Some(s.to_string()),
        None => None,
    }
}

/// Relies on String::push: appends one character at the end.
#[verifier::external_body]
pub(crate) fn push_char(s: &mut String, c: char)
    ensures
        final(s)@ == old(s)@.push(c),
{
    s.push(c)
}

/// Relies on str's PartialEq: slices compare equal exactly when their
/// character sequences do.
#[verifier::external_body]
pub(crate) fn str_eq(a: &str, b: &str) -> (r: bool)
    ensures
        r == (a@ == b@),
{
    a == b
}

} // verus!
