//! The closed grammar registry: a fixed, build-time mapping from a
//! lowercased language identifier to a compiled grammar.
//!
//! The advertised language list also names `python`; the registry binds no
//! grammar for it, so a request for it is reported as unsupported. This gap
//! between the advertised list and the registry is kept deliberately, as the
//! service's observed behaviour.
use vstd::prelude::*;

use crate::engine::grammar_go;
use crate::engine::grammar_javascript;
use crate::engine::grammar_json;
use crate::engine::grammar_ocaml;
use crate::engine::grammar_rust;
use crate::engine::grammar_typescript;
use crate::engine::str_eq;

verus! {

/// A language the registry binds a grammar for.
#[derive(Clone, Copy)]
pub enum Lang {
    Json,
    Rust,
    Javascript,
    Typescript,
    Go,
    Ocaml,
}

/// The registry as a mapping: which grammar a lowercased identifier names.
pub open spec fn spec_lookup(l: Seq<char>) -> Option<Lang> {
    if l == "json"@ {
        Some(Lang::Json)
    } else if l == "rust"@ {
        Some(Lang::Rust)
    } else if l == "javascript"@ {
        Some(Lang::Javascript)
    } else if l == "typescript"@ {
        Some(Lang::Typescript)
    } else if l == "go"@ {
        Some(Lang::Go)
    } else if l == "ocaml"@ {
        Some(Lang::Ocaml)
    } else {
        None
    }
}

/// Looks an already-lowercased identifier up in the registry.
pub fn lookup_language(lower: &str) -> (r: Option<Lang>)
    ensures
        r == spec_lookup(lower@),
{
    if str_eq(lower, "json") {
        Some(Lang::Json)
    } else if str_eq(lower, "rust") {
        Some(Lang::Rust)
    } else if str_eq(lower, "javascript") {
        Some(Lang::Javascript)
    } else if str_eq(lower, "typescript") {
        Some(Lang::Typescript)
    } else if str_eq(lower, "go") {
        Some(Lang::Go)
    } else if str_eq(lower, "ocaml") {
        Some(Lang::Ocaml)
    } else {
        None
    }
}

/// The advertised language identifiers, in definition order.
pub open spec fn advertised_names() -> Seq<Seq<char>> {
    seq!["json"@, "rust"@, "javascript"@, "typescript"@, "python"@, "go"@, "ocaml"@]
}

/// Law: every identifier the registry binds a grammar for is advertised.
/// The converse does not hold: the advertised list also names `python`,
/// which the registry leaves unbound.
pub proof fn lemma_registry_entries_advertised(l: Seq<char>)
    requires
        spec_lookup(l) is Some,
    ensures
        advertised_names().contains(l),
{
    if l == "json"@ {
        assert(advertised_names()[0] == l);
    } else if l == "rust"@ {
        assert(advertised_names()[1] == l);
    } else if l == "javascript"@ {
        assert(advertised_names()[2] == l);
    } else if l == "typescript"@ {
        assert(advertised_names()[3] == l);
    } else if l == "go"@ {
        assert(advertised_names()[5] == l);
    } else {
        assert(advertised_names()[6] == l);
    }
}

/// The compiled grammar for a registry entry.
pub(crate) fn grammar_of(l: Lang) -> tree_sitter::Language {
    match l {
        Lang::Json => grammar_json(),
        Lang::Rust => grammar_rust(),
        Lang::Javascript => grammar_javascript(),
        Lang::Typescript => grammar_typescript(),
        Lang::Go => grammar_go(),
        Lang::Ocaml => grammar_ocaml(),
    }
}

} // verus!
