//! A multi-language source-code parsing service: given raw source text and a
//! language identifier, it drives a grammar engine over the text and returns
//! the syntax tree as one self-describing JSON string, with every failure
//! reported in-band as a well-formed reply.
pub mod engine;
pub mod json;
pub mod node;
pub mod project;
pub mod registry;
pub mod service;

pub use node::AstNode;
pub use node::ParseResult;
pub use service::generate_ast;
pub use service::get_supported_languages;
pub use service::parse_code;
