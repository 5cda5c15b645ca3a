//! A single token: a kind anchored to the source line where it begins.

use vstd::prelude::*;

use crate::syntax::token_type::{TokenType, TokenTypeView};

verus! {

/// The smallest named lexical unit produced by scanning.
///
/// `line` is the 1-based line on which the token's first character appears;
/// for a string literal spanning several lines it is the line where the
/// literal begins.
#[derive(Debug, PartialEq)]
pub struct Token {
    pub symbol: TokenType,
    pub line: usize,
}

/// The view of a [`Token`].
pub struct TokenView {
    pub symbol: TokenTypeView,
    pub line: nat,
}

impl View for Token {
    type V = TokenView;

    open spec fn view(&self) -> TokenView {
        TokenView { symbol: self.symbol@, line: self.line as nat }
    }
}

impl DeepView for Token {
    type V = TokenView;

    open spec fn deep_view(&self) -> TokenView {
        self.view()
    }
}

impl Token {
    pub fn new(symbol: TokenType, line: usize) -> (r: Token)
        ensures
            r@ == (TokenView { symbol: symbol@, line: line as nat }),
    {
        Token { symbol, line }
    }
}

} // verus!
