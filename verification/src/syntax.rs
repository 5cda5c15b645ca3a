//! The lexical front end: source text in, tokens or diagnostics out.

pub mod ast;
pub mod chars;
pub mod keywords;
pub mod lexer;
pub mod lexer_error;
pub mod lexing;
pub mod token;
pub mod token_stream;
pub mod token_type;

pub use crate::syntax::token::Token;
pub use crate::syntax::token_stream::TokenStream;
