//! Front end for the OpenSCAD modelling language: reads a document into its
//! raw syntax tree, and binds every name of the tree to a slot of a lexical
//! scope.

pub mod ast;
pub mod context;
pub mod diagnostic;
pub mod duplicate;
pub mod grammar;
pub mod laws;
pub mod lexer;
pub mod parser;
pub mod progress;
pub mod resolution;
pub mod syntax;
pub mod tokens;

use vstd::prelude::*;

verus! {

/// Parse an OpenSCAD document and outputs the AST.
///
/// The result is the document that [`grammar::document_of`] reads in the
/// text, or the error that it runs into first.
pub fn parse<'a>(content: &'a str) -> (r: Result<Vec<ast::Statement<'a>>, tokens::SyntaxError>)
    ensures
        match r {
            Ok(statements) => grammar::document_of(content@) == Ok::<
                Seq<ast::StatementView>,
                tokens::SyntaxError,
            >(ast::statements_view(statements@)),
            Err(e) => grammar::document_of(content@) == Err::<
                Seq<ast::StatementView>,
                tokens::SyntaxError,
            >(e),
        },
{
    match syntax::Parser::new(content) {
        Ok(parser) => parser.document(),
        Err(e) => Err(e),
    }
}

} // verus!
