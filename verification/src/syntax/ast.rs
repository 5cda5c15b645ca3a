//! The expression shape a parser builds from the token stream.
//!
//! The parser itself lives downstream of this crate; only the data shape is
//! fixed here so the token vocabulary and the tree agree.

use vstd::prelude::*;

use crate::syntax::token::Token;
use crate::syntax::token_type::Literal;

verus! {

/// An expression tree over scanned tokens.
pub enum Expr {
    Binary { l: Box<Expr>, op: Token, r: Box<Expr> },
    Grouping(Box<Expr>),
    Unary { op: Token, r: Box<Expr> },
    // Terminals
    Literal(Literal),
}

} // verus!
