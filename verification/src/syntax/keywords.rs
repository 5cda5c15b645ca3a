//! The fixed table of reserved words and their token kinds.

use vstd::prelude::*;

use crate::syntax::token_type::{Literal, LiteralView, TokenType, TokenTypeView};
use vstd::string::StrSliceExecFns;

verus! {

/// The reserved-word table as a mathematical function: which token kind, if
/// any, a whole word maps to. Total, fixed, and independent of scan state.
pub open spec fn spec_keyword(w: Seq<char>) -> Option<TokenTypeView> {
    if w == "and"@ {
        Some(TokenTypeView::And)
    } else if w == "class"@ {
        Some(TokenTypeView::Class)
    } else if w == "else"@ {
        Some(TokenTypeView::Else)
    } else if w == "false"@ {
        Some(TokenTypeView::Literal(LiteralView::False))
    } else if w == "for"@ {
        Some(TokenTypeView::For)
    } else if w == "fun"@ {
        Some(TokenTypeView::Fun)
    } else if w == "if"@ {
        Some(TokenTypeView::If)
    } else if w == "nil"@ {
        Some(TokenTypeView::Literal(LiteralView::Nil))
    } else if w == "or"@ {
        Some(TokenTypeView::Or)
    } else if w == "print"@ {
        Some(TokenTypeView::Print)
    } else if w == "return"@ {
        Some(TokenTypeView::Return)
    } else if w == "super"@ {
        Some(TokenTypeView::Super)
    } else if w == "this"@ {
        Some(TokenTypeView::This)
    } else if w == "true"@ {
        Some(TokenTypeView::Literal(LiteralView::True))
    } else if w == "var"@ {
        Some(TokenTypeView::Var)
    } else if w == "while"@ {
        Some(TokenTypeView::While)
    } else {
        None
    }
}

/// The view of an optional token kind, for stating what a lookup returned.
pub open spec fn keyword_result_view(r: Option<TokenType>) -> Option<TokenTypeView> {
    match r {
        Some(t) => Some(t@),
        None => None,
    }
}

/// Looks a whole word up in the reserved-word table.
pub fn match_reserved_word(keyword: &str) -> (r: Option<TokenType>)
    ensures
        keyword_result_view(r) == spec_keyword(keyword@),
{
    if str_eq(keyword, "and") {
        Some(TokenType::And)
    } else if str_eq(keyword, "class") {
        Some(TokenType::Class)
    } else if str_eq(keyword, "else") {
        Some(TokenType::Else)
    } else if str_eq(keyword, "false") {
        Some(TokenType::Literal(Literal::False))
    } else if str_eq(keyword, "for") {
        Some(TokenType::For)
    } else if str_eq(keyword, "fun") {
        Some(TokenType::Fun)
    } else if str_eq(keyword, "if") {
        Some(TokenType::If)
    } else if str_eq(keyword, "nil") {
        Some(TokenType::Literal(Literal::Nil))
    } else if str_eq(keyword, "or") {
        Some(TokenType::Or)
    } else if str_eq(keyword, "print") {
        Some(TokenType::Print)
    } else if str_eq(keyword, "return") {
        Some(TokenType::Return)
    } else if str_eq(keyword, "super") {
        Some(TokenType::Super)
    } else if str_eq(keyword, "this") {
        Some(TokenType::This)
    } else if str_eq(keyword, "true") {
        Some(TokenType::Literal(Literal::True))
    } else if str_eq(keyword, "var") {
        Some(TokenType::Var)
    } else if str_eq(keyword, "while") {
        Some(TokenType::While)
    } else {
        None
    }
}

/// Character-for-character equality of two string slices.
fn str_eq(a: &str, b: &str) -> (r: bool)
    ensures
        r == (a@ == b@),
{
    let na = a.unicode_len();
    let nb = b.unicode_len();
    if na != nb {
        return false;
    }
    let mut i: usize = 0;
    while i < na
        invariant
            na == a@.len(),
            nb == b@.len(),
            na == nb,
            i <= na,
            forall|j: int| 0 <= j < i ==> a@[j] == b@[j],
        decreases na - i,
    {
        if a.get_char(i) != b.get_char(i) {
            return false;
        }
        i += 1;
    }
    proof {
        assert(a@ =~= b@);
    }
    true
}

} // verus!
