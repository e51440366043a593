//! A small expression-language evaluator with a verified semantics.
//!
//! The language has booleans, integers, binary operators, conditionals,
//! variable references, function literals and function application, with
//! lexically scoped closures.  Evaluation of an expression against an
//! environment yields a runtime value or a typed error; a presentation
//! layer renders that result as text.

pub mod ast;
pub mod env;
pub mod equality;
pub mod eval;
pub mod laws;
pub mod parse;
pub mod render;
pub mod semantics;
