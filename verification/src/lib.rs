//! A layout-driven pretty-printer for a JavaScript/TypeScript syntax tree.
//!
//! The crate lowers a syntax tree ([`syntax::SyntaxNode`]) into an
//! intermediate document ([`format_element::FormatElement`]) and lays that
//! document out as text, choosing for every group between a flat and a
//! broken rendering against a configured line width.

pub mod ast_classes;
pub mod ast_decls;
pub mod ast_exprs;
pub mod ast_stmts;
pub mod ast_ts;
pub mod ast_unions;
pub mod format_element;
pub mod formatter;
pub mod laws;
pub mod options;
pub mod printer;
pub mod quotes;
pub mod rules;
pub mod support;
pub mod syntax;
