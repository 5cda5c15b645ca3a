//! The diagnostic value a failed scan reports: a source line and a message.

use vstd::prelude::*;

use crate::syntax::chars::push_char;
use vstd::string::StringExecFns;

verus! {

/// One lexical diagnostic. A scan that fails reports an ordered, non-empty
/// list of these, in the order the problems were detected.
#[derive(Debug, PartialEq)]
pub struct LexicalError {
    pub line: usize,
    pub msg: String,
}

/// The view of a [`LexicalError`].
pub struct LexicalErrorView {
    pub line: nat,
    pub msg: Seq<char>,
}

impl View for LexicalError {
    type V = LexicalErrorView;

    open spec fn view(&self) -> LexicalErrorView {
        LexicalErrorView { line: self.line as nat, msg: self.msg@ }
    }
}

impl DeepView for LexicalError {
    type V = LexicalErrorView;

    open spec fn deep_view(&self) -> LexicalErrorView {
        self.view()
    }
}

impl LexicalError {
    pub fn new(line: usize, msg: String) -> (r: LexicalError)
        ensures
            r@ == (LexicalErrorView { line: line as nat, msg: msg@ }),
    {
        LexicalError { line, msg }
    }

    /// The single-line form a caller prints for this diagnostic.
    pub fn render(&self) -> (r: String)
        ensures
            r@ == spec_render(self@),
    {
        let mut out = "[error: ".to_owned();
        push_decimal(&mut out, self.line);
        out.append("] ");
        out.append(self.msg.as_str());
        out
    }
}

/// How a diagnostic renders: `[error: {line}] {message}`.
pub open spec fn spec_render(e: LexicalErrorView) -> Seq<char> {
    "[error: "@ + decimal_digits(e.line) + "] "@ + e.msg
}

/// The character for one decimal digit.
pub open spec fn digit_char(d: nat) -> char {
    if d == 0 {
        '0'
    } else if d == 1 {
        '1'
    } else if d == 2 {
        '2'
    } else if d == 3 {
        '3'
    } else if d == 4 {
        '4'
    } else if d == 5 {
        '5'
    } else if d == 6 {
        '6'
    } else if d == 7 {
        '7'
    } else if d == 8 {
        '8'
    } else {
        '9'
    }
}

/// The usual decimal spelling of `n`, most significant digit first, with no
/// leading zeros except for `0` itself.
pub open spec fn decimal_digits(n: nat) -> Seq<char>
    decreases n,
{
    if n < 10 {
        seq![digit_char(n)]
    } else {
        decimal_digits(n / 10) + seq![digit_char(n % 10)]
    }
}

fn exec_digit_char(d: usize) -> (c: char)
    requires
        d < 10,
    ensures
        c == digit_char(d as nat),
{
    match d {
        0 => '0',
        1 => '1',
        2 => '2',
        3 => '3',
        4 => '4',
        5 => '5',
        6 => '6',
        7 => '7',
        8 => '8',
        _ => '9',
    }
}

/// Appends the decimal spelling of `n` to `out`.
pub fn push_decimal(out: &mut String, n: usize)
    ensures
        final(out)@ == old(out)@ + decimal_digits(n as nat),
    decreases n,
{
    if n < 10 {
        push_char(out, exec_digit_char(n));
    } else {
        push_decimal(out, n / 10);
        push_char(out, exec_digit_char(n % 10));
        proof {
            assert(old(out)@ + decimal_digits((n / 10) as nat) + seq![digit_char((n % 10) as nat)]
                =~= old(out)@ + decimal_digits(n as nat));
        }
    }
}

} // verus!
