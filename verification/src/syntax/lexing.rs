//! The mathematical scan: what one pass over the source text yields.
//!
//! [`lex`] maps a sequence of characters to the ordered tokens and ordered
//! diagnostics that scanning it produces. The executable scanner in
//! [`crate::syntax::lexer`] is proved to return exactly this.

use vstd::prelude::*;

use crate::syntax::chars::{is_digit_char, is_digit_or_dot_char, is_space_char, is_word_char};
use crate::syntax::keywords::spec_keyword;
use crate::syntax::lexer_error::LexicalErrorView;
use crate::syntax::token::TokenView;
use crate::syntax::token_type::{LiteralView, TokenTypeView};

verus! {

// ---------------------------------------------------------------------------
// Maximal runs of characters, and character counts over ranges.
// ---------------------------------------------------------------------------

/// First index at or after `i` holding a `"` (or the end of the text): where
/// the body of a string literal opened before `i` stops.
pub open spec fn string_end(s: Seq<char>, i: int) -> int
    decreases s.len() - i,
{
    if 0 <= i < s.len() && s[i] != '"' {
        string_end(s, i + 1)
    } else {
        i
    }
}

/// First index at or after `i` holding a newline (or the end of the text):
/// where a line comment stops.
pub open spec fn comment_end(s: Seq<char>, i: int) -> int
    decreases s.len() - i,
{
    if 0 <= i < s.len() && s[i] != '\n' {
        comment_end(s, i + 1)
    } else {
        i
    }
}

/// First index at or after `i` holding neither a digit nor a dot.
pub open spec fn number_end(s: Seq<char>, i: int) -> int
    decreases s.len() - i,
{
    if 0 <= i < s.len() && is_digit_or_dot_char(s[i]) {
        number_end(s, i + 1)
    } else {
        i
    }
}

/// First index at or after `i` holding a character no identifier may contain.
pub open spec fn word_end(s: Seq<char>, i: int) -> int
    decreases s.len() - i,
{
    if 0 <= i < s.len() && is_word_char(s[i]) {
        word_end(s, i + 1)
    } else {
        i
    }
}

/// How many newline characters `s` holds in the index range `[i, j)`.
pub open spec fn newline_count(s: Seq<char>, i: int, j: int) -> nat
    decreases j - i,
{
    if i >= j {
        0
    } else {
        newline_count(s, i, j - 1) + (if 0 <= j - 1 < s.len() && s[j - 1] == '\n' {
            1nat
        } else {
            0nat
        })
    }
}

/// How many dots a scanned numeral holds; at most one may appear in a
/// numeral that denotes a value.
pub open spec fn dot_count(w: Seq<char>) -> nat
    decreases w.len(),
{
    if w.len() == 0 {
        0
    } else {
        dot_count(w.drop_last()) + (if w.last() == '.' {
            1nat
        } else {
            0nat
        })
    }
}

pub proof fn lemma_string_end(s: Seq<char>, i: int)
    requires
        0 <= i <= s.len(),
    ensures
        i <= string_end(s, i) <= s.len(),
        forall|j: int| i <= j < string_end(s, i) ==> s[j] != '"',
        string_end(s, i) < s.len() ==> s[string_end(s, i)] == '"',
    decreases s.len() - i,
{
    if i < s.len() && s[i] != '"' {
        lemma_string_end(s, i + 1);
    }
}

pub proof fn lemma_comment_end(s: Seq<char>, i: int)
    requires
        0 <= i <= s.len(),
    ensures
        i <= comment_end(s, i) <= s.len(),
        forall|j: int| i <= j < comment_end(s, i) ==> s[j] != '\n',
        comment_end(s, i) < s.len() ==> s[comment_end(s, i)] == '\n',
    decreases s.len() - i,
{
    if i < s.len() && s[i] != '\n' {
        lemma_comment_end(s, i + 1);
    }
}

pub proof fn lemma_number_end(s: Seq<char>, i: int)
    requires
        0 <= i <= s.len(),
    ensures
        i <= number_end(s, i) <= s.len(),
        forall|j: int| i <= j < number_end(s, i) ==> is_digit_or_dot_char(s[j]),
        number_end(s, i) < s.len() ==> !is_digit_or_dot_char(s[number_end(s, i)]),
    decreases s.len() - i,
{
    if i < s.len() && is_digit_or_dot_char(s[i]) {
        lemma_number_end(s, i + 1);
    }
}

pub proof fn lemma_word_end(s: Seq<char>, i: int)
    requires
        0 <= i <= s.len(),
    ensures
        i <= word_end(s, i) <= s.len(),
        forall|j: int| i <= j < word_end(s, i) ==> is_word_char(s[j]),
        word_end(s, i) < s.len() ==> !is_word_char(s[word_end(s, i)]),
    decreases s.len() - i,
{
    if i < s.len() && is_word_char(s[i]) {
        lemma_word_end(s, i + 1);
    }
}

// ---------------------------------------------------------------------------
// One dispatch step of the scan.
// ---------------------------------------------------------------------------

/// What one top-level step of the scan does: where the cursor and the line
/// counter move, and the token or diagnostic the step yields, if any.
pub struct LexStep {
    /// Cursor position after the step.
    pub next: int,
    /// Line counter after the step.
    pub line: nat,
    /// The token this step emits, if any.
    pub token: Option<TokenView>,
    /// The diagnostic this step records, if any.
    pub error: Option<LexicalErrorView>,
}

/// A step that emits one token at `line` and moves the cursor to `next`.
pub open spec fn emit(next: int, line: nat, symbol: TokenTypeView) -> LexStep {
    LexStep {
        next,
        line,
        token: Some(TokenView { symbol, line }),
        error: None,
    }
}

/// A step that consumes up to `next` without emitting anything.
pub open spec fn skip_to(next: int, line: nat) -> LexStep {
    LexStep { next, line, token: None, error: None }
}

/// A step that records one diagnostic at `line`.
pub open spec fn report(next: int, line: nat, at: nat, msg: Seq<char>) -> LexStep {
    LexStep {
        next,
        line,
        token: None,
        error: Some(LexicalErrorView { line: at, msg }),
    }
}

/// An operator that is one character on its own and two when the next
/// character is `=`.
pub open spec fn lex_operator(
    s: Seq<char>,
    i: int,
    line: nat,
    single: TokenTypeView,
    double: TokenTypeView,
) -> LexStep {
    if i + 1 < s.len() && s[i + 1] == '=' {
        emit(i + 2, line, double)
    } else {
        emit(i + 1, line, single)
    }
}

/// A string literal whose opening quote stands at `i`. The body runs to the
/// next quote; each newline in it advances the line counter, and the token —
/// or the unterminated-string diagnostic — is anchored at the opening line.
pub open spec fn lex_string(s: Seq<char>, i: int, line: nat) -> LexStep {
    let body_end = string_end(s, i + 1);
    let end_line = line + newline_count(s, i + 1, body_end);
    if body_end == s.len() {
        report(body_end, end_line, line, "Unterminated string"@)
    } else {
        LexStep {
            next: body_end + 1,
            line: end_line,
            token: Some(
                TokenView {
                    symbol: TokenTypeView::Literal(
                        LiteralView::String(s.subrange(i + 1, body_end)),
                    ),
                    line,
                },
            ),
            error: None,
        }
    }
}

/// A numeral whose first digit stands at `i`: a maximal run of digits and
/// dots, kept permissively and then checked — a numeral with more than one
/// dot denotes no value and is reported instead.
pub open spec fn lex_number(s: Seq<char>, i: int, line: nat) -> LexStep {
    let end = number_end(s, i + 1);
    let text = s.subrange(i, end);
    if dot_count(text) <= 1 {
        emit(end, line, TokenTypeView::Literal(LiteralView::Number(text)))
    } else {
        report(end, line, line, "Invalid number"@)
    }
}

/// An identifier or keyword whose first character stands at `i`.
pub open spec fn lex_word(s: Seq<char>, i: int, line: nat) -> LexStep {
    let end = word_end(s, i + 1);
    let text = s.subrange(i, end);
    match spec_keyword(text) {
        Some(symbol) => emit(end, line, symbol),
        None => emit(end, line, TokenTypeView::Identifier(text)),
    }
}

/// One top-level step of the scan, dispatching on the character at `i`.
pub open spec fn lex_step(s: Seq<char>, i: int, line: nat) -> LexStep
    recommends
        0 <= i < s.len(),
{
    let c = s[i];
    if c == '(' {
        emit(i + 1, line, TokenTypeView::LeftParen)
    } else if c == ')' {
        emit(i + 1, line, TokenTypeView::RightParen)
    } else if c == '{' {
        emit(i + 1, line, TokenTypeView::LeftBrace)
    } else if c == '}' {
        emit(i + 1, line, TokenTypeView::RightBrace)
    } else if c == ',' {
        emit(i + 1, line, TokenTypeView::Comma)
    } else if c == '.' {
        emit(i + 1, line, TokenTypeView::Dot)
    } else if c == '-' {
        emit(i + 1, line, TokenTypeView::Minus)
    } else if c == '+' {
        emit(i + 1, line, TokenTypeView::Plus)
    } else if c == ';' {
        emit(i + 1, line, TokenTypeView::Semicolon)
    } else if c == '*' {
        emit(i + 1, line, TokenTypeView::Star)
    } else if c == '"' {
        lex_string(s, i, line)
    } else if c == '/' {
        if i + 1 < s.len() && s[i + 1] == '/' {
            skip_to(comment_end(s, i + 2), line)
        } else {
            emit(i + 1, line, TokenTypeView::Slash)
        }
    } else if c == '!' {
        lex_operator(s, i, line, TokenTypeView::Bang, TokenTypeView::BangEqual)
    } else if c == '=' {
        lex_operator(s, i, line, TokenTypeView::Equal, TokenTypeView::EqualEqual)
    } else if c == '>' {
        lex_operator(s, i, line, TokenTypeView::Greater, TokenTypeView::GreaterEqual)
    } else if c == '<' {
        lex_operator(s, i, line, TokenTypeView::Less, TokenTypeView::LessEqual)
    } else if c == '\n' {
        skip_to(i + 1, line + 1)
    } else if c == ' ' || c == '\t' || c == '\r' {
        skip_to(i + 1, line)
    } else if is_digit_char(c) {
        lex_number(s, i, line)
    } else if is_word_char(c) {
        lex_word(s, i, line)
    } else {
        report(i + 1, line, line, "Unknown token "@ + seq![c])
    }
}

/// Every step consumes at least one character and stays within the text.
pub proof fn lemma_lex_step_bounds(s: Seq<char>, i: int, line: nat)
    requires
        0 <= i < s.len(),
    ensures
        i < lex_step(s, i, line).next <= s.len(),
{
    lemma_string_end(s, i + 1);
    lemma_number_end(s, i + 1);
    lemma_word_end(s, i + 1);
    if i + 2 <= s.len() {
        lemma_comment_end(s, i + 2);
    }
}

// ---------------------------------------------------------------------------
// The whole scan.
// ---------------------------------------------------------------------------

/// An optional value as a sequence of zero or one elements.
pub open spec fn opt_seq<A>(o: Option<A>) -> Seq<A> {
    match o {
        Some(a) => seq![a],
        None => Seq::empty(),
    }
}

/// The tokens and diagnostics that scanning `s` from position `i` at line
/// `line` yields, in source order.
pub open spec fn lex_from(s: Seq<char>, i: int, line: nat) -> (Seq<TokenView>, Seq<
    LexicalErrorView,
>)
    decreases s.len() - i,
    via lex_from_decreases
{
    if !(0 <= i < s.len()) {
        (Seq::empty(), Seq::empty())
    } else {
        let st = lex_step(s, i, line);
        let rest = lex_from(s, st.next, st.line);
        (opt_seq(st.token) + rest.0, opt_seq(st.error) + rest.1)
    }
}

#[via_fn]
proof fn lex_from_decreases(s: Seq<char>, i: int, line: nat) {
    if 0 <= i < s.len() {
        lemma_lex_step_bounds(s, i, line);
    }
}

/// The full scan of `s`: one pass from the start, at line 1.
pub open spec fn lex(s: Seq<char>) -> (Seq<TokenView>, Seq<LexicalErrorView>) {
    lex_from(s, 0, 1)
}

// ---------------------------------------------------------------------------
// Laws of the scan.
// ---------------------------------------------------------------------------

/// Text that holds only whitespace — the empty text included — scans to no
/// tokens and no diagnostics, so scanning it succeeds with an empty stream.
pub proof fn lemma_lex_whitespace(s: Seq<char>)
    requires
        forall|j: int| 0 <= j < s.len() ==> is_space_char(s[j]),
    ensures
        lex(s).0 == Seq::<TokenView>::empty(),
        lex(s).1 == Seq::<LexicalErrorView>::empty(),
{
    lemma_lex_from_whitespace(s, 0, 1);
}

proof fn lemma_lex_from_whitespace(s: Seq<char>, i: int, line: nat)
    requires
        forall|j: int| 0 <= j < s.len() ==> is_space_char(s[j]),
    ensures
        lex_from(s, i, line).0 == Seq::<TokenView>::empty(),
        lex_from(s, i, line).1 == Seq::<LexicalErrorView>::empty(),
    decreases s.len() - i,
{
    if 0 <= i < s.len() {
        let st = lex_step(s, i, line);
        assert(is_space_char(s[i]));
        assert(st.next == i + 1 && st.token is None && st.error is None);
        lemma_lex_from_whitespace(s, i + 1, st.line);
        assert(lex_from(s, i, line).0 =~= Seq::<TokenView>::empty());
        assert(lex_from(s, i, line).1 =~= Seq::<LexicalErrorView>::empty());
    }
}

/// Scanning is a pure function of the text: identical text scans to
/// identical token sequences and identical diagnostic sequences.
pub proof fn lemma_lex_deterministic(a: Seq<char>, b: Seq<char>)
    requires
        a == b,
    ensures
        lex(a) == lex(b),
{
}

/// Line numbers across the produced stream are monotonically non-decreasing,
/// and every token is anchored at line 1 or later. The recorded diagnostics
/// obey the same order.
pub proof fn lemma_lex_lines_monotonic(s: Seq<char>)
    ensures
        forall|p: int, q: int|
            0 <= p <= q < lex(s).0.len() ==> #[trigger] lex(s).0[p].line
                <= #[trigger] lex(s).0[q].line,
        forall|p: int| 0 <= p < lex(s).0.len() ==> #[trigger] lex(s).0[p].line >= 1,
        forall|p: int, q: int|
            0 <= p <= q < lex(s).1.len() ==> #[trigger] lex(s).1[p].line
                <= #[trigger] lex(s).1[q].line,
        forall|p: int| 0 <= p < lex(s).1.len() ==> #[trigger] lex(s).1[p].line >= 1,
{
    lemma_lex_from_lines(s, 0, 1);
}

proof fn lemma_lex_from_lines(s: Seq<char>, i: int, line: nat)
    ensures
        forall|p: int|
            0 <= p < lex_from(s, i, line).0.len() ==> #[trigger] lex_from(s, i, line).0[p].line
                >= line,
        forall|p: int, q: int|
            0 <= p <= q < lex_from(s, i, line).0.len() ==> #[trigger] lex_from(s, i, line).0[p].line
                <= #[trigger] lex_from(s, i, line).0[q].line,
        forall|p: int|
            0 <= p < lex_from(s, i, line).1.len() ==> #[trigger] lex_from(s, i, line).1[p].line
                >= line,
        forall|p: int, q: int|
            0 <= p <= q < lex_from(s, i, line).1.len() ==> #[trigger] lex_from(s, i, line).1[p].line
                <= #[trigger] lex_from(s, i, line).1[q].line,
    decreases s.len() - i,
{
    if 0 <= i < s.len() {
        lemma_lex_step_bounds(s, i, line);
        let st = lex_step(s, i, line);
        assert(st.line >= line);
        assert(match st.token {
            Some(t) => t.line == line,
            None => true,
        });
        assert(match st.error {
            Some(e) => e.line == line,
            None => true,
        });
        lemma_lex_from_lines(s, st.next, st.line);
    }
}

} // verus!

