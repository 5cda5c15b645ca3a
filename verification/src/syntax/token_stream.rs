//! The ordered, append-only container of scanned tokens.

use vstd::prelude::*;

use crate::syntax::lexer::Lexer;
use crate::syntax::lexer_error::LexicalError;
use crate::syntax::token::{Token, TokenView};
use core::str::FromStr;

verus! {

/// The complete ordered output of a successful scan. Tokens are appended
/// during scanning and handed to a parser as a plain ordered sequence; the
/// container never reorders or drops anything.
#[derive(Debug, PartialEq)]
pub struct TokenStream {
    pub tokens: Vec<Token>,
}

impl View for TokenStream {
    type V = Seq<TokenView>;

    open spec fn view(&self) -> Seq<TokenView> {
        self.tokens.deep_view()
    }
}

impl TokenStream {
    pub fn new() -> (r: TokenStream)
        ensures
            r@ == Seq::<TokenView>::empty(),
    {
        let r = TokenStream { tokens: Vec::new() };
        proof {
            assert(r@ =~= Seq::<TokenView>::empty());
        }
        r
    }

    pub fn append(&mut self, token: Token)
        ensures
            final(self)@ == old(self)@.push(token@),
    {
        let ghost t = token@;
        self.tokens.push(token);
        proof {
            assert(self@ =~= old(self)@.push(t));
        }
    }
}

impl FromStr for TokenStream {
    type Err = Vec<LexicalError>;

    /// Scans a whole chunk of source text; the contract of
    /// [`Lexer::scan`] says exactly what comes back.
    fn from_str(src: &str) -> Result<TokenStream, Vec<LexicalError>> {
        let lexer = Lexer::new(src);
        lexer.scan()
    }
}

impl From<TokenStream> for Vec<Token> {
    /// Hands the stream to a parser as a plain ordered sequence.
    fn from(value: TokenStream) -> (r: Vec<Token>) {
        value.tokens
    }
}

impl vstd::std_specs::convert::FromSpecImpl<TokenStream> for Vec<Token> {
    open spec fn obeys_from_spec() -> bool {
        true
    }

    open spec fn from_spec(value: TokenStream) -> Vec<Token> {
        value.tokens
    }
}

} // verus!
