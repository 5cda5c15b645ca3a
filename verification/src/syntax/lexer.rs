//! The scanning engine: one left-to-right pass over the source text.

use vstd::prelude::*;

use crate::syntax::chars::{is_digit, is_digit_char, is_digit_or_dot, is_word_char, push_char};
use crate::syntax::keywords;
use crate::syntax::lexer_error::{LexicalError, LexicalErrorView};
use crate::syntax::lexing::{
    comment_end, dot_count, lex, lex_from, lex_number, lex_step, lex_string, lex_word,
    newline_count, number_end, opt_seq, string_end, word_end, LexStep,
};
use crate::syntax::token::{Token, TokenView};
use crate::syntax::token_stream::TokenStream;
use crate::syntax::token_type::{Literal, TokenType};
use vstd::string::{StrSliceExecFns, StringExecFns};

verus! {

/// The stateful scanner. It is built around one immutable snapshot of
/// source text, consumed by [`Lexer::scan`], and never reused.
pub struct Lexer<'a> {
    src: &'a str,
    pos: usize,
    token_stream: TokenStream,
    current_line: usize,
    errors: Vec<LexicalError>,
}

type TokenScanResult = Result<Option<Token>, LexicalError>;

/// How one executable step's outcome corresponds to one mathematical step.
spec fn step_matches(r: TokenScanResult, st: LexStep) -> bool {
    match r {
        Ok(Some(t)) => st.token == Some(t@) && st.error is None,
        Ok(None) => st.token is None && st.error is None,
        Err(e) => st.token is None && st.error == Some(e@),
    }
}

impl<'a> View for Lexer<'a> {
    type V = Seq<char>;

    /// The source snapshot this scanner walks.
    closed spec fn view(&self) -> Seq<char> {
        self.src@
    }
}

impl<'a> Lexer<'a> {
    /// The cursor stays within the text, and the line counter never gets
    /// ahead of what has been consumed (it starts at 1 and each consumed
    /// character advances it at most once).
    pub closed spec fn inv(&self) -> bool {
        &&& self.pos <= self.src@.len()
        &&& 1 <= self.current_line
        &&& self.current_line <= 1 + self.pos
    }

    /// A freshly constructed scanner: nothing consumed, nothing produced.
    pub closed spec fn at_start(&self) -> bool {
        &&& self.pos == 0
        &&& self.current_line == 1
        &&& self.token_stream@ == Seq::<TokenView>::empty()
        &&& self.errors@ == Seq::<LexicalError>::empty()
    }

    pub fn new(src: &'a str) -> (l: Lexer<'a>)
        ensures
            l.inv(),
            l.at_start(),
            l@ == src@,
    {
        Lexer {
            src,
            pos: 0,
            token_stream: TokenStream::new(),
            errors: Vec::new(),
            current_line: 1,
        }
    }

    pub fn is_identifier_char(c: char) -> (r: bool)
        ensures
            r == is_word_char(c),
    {
        c.is_alphanumeric() || c == '_'
    }

    /// Consumes the next character exactly when it equals `expected`.
    fn next_if_eq(&mut self, expected: char) -> (r: bool)
        requires
            old(self).inv(),
        ensures
            final(self).inv(),
            final(self).src == old(self).src,
            final(self).token_stream == old(self).token_stream,
            final(self).errors == old(self).errors,
            final(self).current_line == old(self).current_line,
            r == (old(self).pos < old(self).src@.len() && old(self).src@[old(self).pos as int]
                == expected),
            r ==> final(self).pos == old(self).pos + 1,
            !r ==> final(self).pos == old(self).pos,
    {
        if self.pos < self.src.unicode_len() {
            let c = self.src.get_char(self.pos);
            if c == expected {
                self.pos = self.pos + 1;
                return true;
            }
        }
        false
    }

    /// Scans a string literal whose opening quote has just been consumed.
    fn scan_string(&mut self) -> (r: TokenScanResult)
        requires
            old(self).inv(),
            1 <= old(self).pos,
        ensures
            final(self).inv(),
            final(self).src == old(self).src,
            final(self).token_stream == old(self).token_stream,
            final(self).errors == old(self).errors,
            old(self).pos <= final(self).pos <= final(self).src@.len(),
            final(self).src@.len() < usize::MAX ==> ({
                let st = lex_string(
                    old(self).src@,
                    old(self).pos - 1,
                    old(self).current_line as nat,
                );
                &&& final(self).pos == st.next
                &&& final(self).current_line as nat == st.line
                &&& step_matches(r, st)
            }),
    {
        let ghost s = self.src@;
        let n = self.src.unicode_len();
        let start_line = self.current_line;
        let body_start = self.pos;
        while self.pos < n && self.src.get_char(self.pos) != '"'
            invariant
                self.inv(),
                self.src == old(self).src,
                self.src@ == s,
                n == s.len(),
                body_start == old(self).pos,
                start_line == old(self).current_line,
                body_start <= self.pos <= n,
                self.token_stream == old(self).token_stream,
                self.errors == old(self).errors,
                string_end(s, body_start as int) == string_end(s, self.pos as int),
                s.len() < usize::MAX ==> self.current_line as nat == start_line as nat
                    + newline_count(s, body_start as int, self.pos as int),
            decreases n - self.pos,
        {
            let c = self.src.get_char(self.pos);
            self.pos = self.pos + 1;
            if c == '\n' {
                self.current_line = self.current_line.saturating_add(1);
            }
        }
        if self.pos == n {
            Err(LexicalError::new(start_line, "Unterminated string".to_owned()))
        } else {
            let text = self.src.substring_char(body_start, self.pos);
            let token = Token::new(
                TokenType::Literal(Literal::String(text.to_owned())),
                start_line,
            );
            self.pos = self.pos + 1;
            Ok(Some(token))
        }
    }

    /// Scans a numeral whose first digit has just been consumed: a maximal
    /// run of digits and dots, reported instead of emitted when more than
    /// one dot appears.
    fn scan_number(&mut self) -> (r: TokenScanResult)
        requires
            old(self).inv(),
            1 <= old(self).pos,
            is_digit_char(old(self).src@[old(self).pos - 1]),
        ensures
            final(self).inv(),
            final(self).src == old(self).src,
            final(self).token_stream == old(self).token_stream,
            final(self).errors == old(self).errors,
            final(self).current_line == old(self).current_line,
            old(self).pos <= final(self).pos <= final(self).src@.len(),
            final(self).src@.len() < usize::MAX ==> ({
                let st = lex_number(
                    old(self).src@,
                    old(self).pos - 1,
                    old(self).current_line as nat,
                );
                &&& final(self).pos == st.next
                &&& final(self).current_line as nat == st.line
                &&& step_matches(r, st)
            }),
    {
        let ghost s = self.src@;
        let n = self.src.unicode_len();
        let start = self.pos - 1;
        let mut dots: usize = 0;
        proof {
            let w = s.subrange(start as int, start as int + 1);
            assert(w.len() == 1);
            assert(w.last() == s[start as int]);
            assert(w.drop_last() =~= Seq::<char>::empty());
            assert(dot_count(w.drop_last()) == 0);
            assert(s[start as int] != '.');
            assert(dot_count(w) == 0);
        }
        while self.pos < n && is_digit_or_dot(self.src.get_char(self.pos))
            invariant
                self.inv(),
                self.src == old(self).src,
                self.src@ == s,
                n == s.len(),
                start == old(self).pos - 1,
                start as int + 1 <= self.pos <= n,
                self.current_line == old(self).current_line,
                self.token_stream == old(self).token_stream,
                self.errors == old(self).errors,
                number_end(s, start as int + 1) == number_end(s, self.pos as int),
                dots as nat == dot_count(
                    s.subrange(start as int, self.pos as int),
                ),
                dots <= self.pos,
            decreases n - self.pos,
        {
            let c = self.src.get_char(self.pos);
            self.pos = self.pos + 1;
            if c == '.' {
                dots = dots + 1;
            }
            proof {
                assert(s.subrange(start as int, self.pos as int).drop_last() =~= s.subrange(
                    start as int,
                    self.pos as int - 1,
                ));
                assert(s.subrange(start as int, self.pos as int).last() == s[self.pos - 1]);
            }
        }
        if dots <= 1 {
            let text = self.src.substring_char(start, self.pos);
            Ok(Some(Token::new(
                TokenType::Literal(Literal::Number(text.to_owned())),
                self.current_line,
            )))
        } else {
            Err(LexicalError::new(self.current_line, "Invalid number".to_owned()))
        }
    }

    /// Scans an identifier or keyword whose first character has just been
    /// consumed.
    fn scan_identifier(&mut self) -> (r: TokenScanResult)
        requires
            old(self).inv(),
            1 <= old(self).pos,
        ensures
            final(self).inv(),
            final(self).src == old(self).src,
            final(self).token_stream == old(self).token_stream,
            final(self).errors == old(self).errors,
            final(self).current_line == old(self).current_line,
            old(self).pos <= final(self).pos <= final(self).src@.len(),
            final(self).src@.len() < usize::MAX ==> ({
                let st = lex_word(old(self).src@, old(self).pos - 1, old(self).current_line as nat);
                &&& final(self).pos == st.next
                &&& final(self).current_line as nat == st.line
                &&& step_matches(r, st)
            }),
    {
        let ghost s = self.src@;
        let n = self.src.unicode_len();
        let start = self.pos - 1;
        while self.pos < n && Lexer::is_identifier_char(self.src.get_char(self.pos))
            invariant
                self.inv(),
                self.src == old(self).src,
                self.src@ == s,
                n == s.len(),
                start == old(self).pos - 1,
                start as int + 1 <= self.pos <= n,
                self.current_line == old(self).current_line,
                self.token_stream == old(self).token_stream,
                self.errors == old(self).errors,
                word_end(s, start as int + 1) == word_end(s, self.pos as int),
            decreases n - self.pos,
        {
            self.pos = self.pos + 1;
        }
        let text = self.src.substring_char(start, self.pos);
        match keywords::match_reserved_word(text) {
            Some(symbol) => Ok(Some(Token::new(symbol, self.current_line))),
            None => Ok(Some(Token::new(TokenType::Identifier(text.to_owned()), self.current_line))),
        }
    }

    /// Dispatches on one just-consumed character, scanning whatever lexical
    /// unit it opens.
    fn scan_token(&mut self, c: char) -> (r: TokenScanResult)
        requires
            old(self).inv(),
            1 <= old(self).pos <= old(self).src@.len(),
            old(self).current_line <= old(self).pos,
            c == old(self).src@[old(self).pos - 1],
        ensures
            final(self).inv(),
            final(self).src == old(self).src,
            final(self).token_stream == old(self).token_stream,
            final(self).errors == old(self).errors,
            old(self).pos <= final(self).pos <= final(self).src@.len(),
            final(self).src@.len() < usize::MAX ==> ({
                let st = lex_step(old(self).src@, old(self).pos - 1, old(self).current_line as nat);
                &&& final(self).pos == st.next
                &&& final(self).current_line as nat == st.line
                &&& step_matches(r, st)
            }),
    {
        match c {
            '(' => Ok(Some(Token::new(TokenType::LeftParen, self.current_line))),
            ')' => Ok(Some(Token::new(TokenType::RightParen, self.current_line))),
            '{' => Ok(Some(Token::new(TokenType::LeftBrace, self.current_line))),
            '}' => Ok(Some(Token::new(TokenType::RightBrace, self.current_line))),
            ',' => Ok(Some(Token::new(TokenType::Comma, self.current_line))),
            '.' => Ok(Some(Token::new(TokenType::Dot, self.current_line))),
            '-' => Ok(Some(Token::new(TokenType::Minus, self.current_line))),
            '+' => Ok(Some(Token::new(TokenType::Plus, self.current_line))),
            ';' => Ok(Some(Token::new(TokenType::Semicolon, self.current_line))),
            '*' => Ok(Some(Token::new(TokenType::Star, self.current_line))),
            '"' => self.scan_string(),
            '/' => {
                if self.next_if_eq('/') {
                    let ghost s = self.src@;
                    let ghost cstart = self.pos as int;
                    let n = self.src.unicode_len();
                    while self.pos < n && self.src.get_char(self.pos) != '\n'
                        invariant
                            self.inv(),
                            self.src == old(self).src,
                            self.src@ == s,
                            n == s.len(),
                            cstart <= self.pos <= n,
                            self.current_line == old(self).current_line,
                            self.token_stream == old(self).token_stream,
                            self.errors == old(self).errors,
                            comment_end(s, cstart) == comment_end(s, self.pos as int),
                        decreases n - self.pos,
                    {
                        self.pos = self.pos + 1;
                    }
                    Ok(None)
                } else {
                    Ok(Some(Token::new(TokenType::Slash, self.current_line)))
                }
            },
            '!' => {
                let symbol = if self.next_if_eq('=') {
                    TokenType::BangEqual
                } else {
                    TokenType::Bang
                };
                Ok(Some(Token::new(symbol, self.current_line)))
            },
            '=' => {
                let symbol = if self.next_if_eq('=') {
                    TokenType::EqualEqual
                } else {
                    TokenType::Equal
                };
                Ok(Some(Token::new(symbol, self.current_line)))
            },
            '>' => {
                let symbol = if self.next_if_eq('=') {
                    TokenType::GreaterEqual
                } else {
                    TokenType::Greater
                };
                Ok(Some(Token::new(symbol, self.current_line)))
            },
            '<' => {
                let symbol = if self.next_if_eq('=') {
                    TokenType::LessEqual
                } else {
                    TokenType::Less
                };
                Ok(Some(Token::new(symbol, self.current_line)))
            },
            '\n' => {
                self.current_line = self.current_line.saturating_add(1);
                Ok(None)
            },
            ' ' | '\t' | '\r' => Ok(None),
            _ => {
                if is_digit(c) {
                    self.scan_number()
                } else if Lexer::is_identifier_char(c) {
                    self.scan_identifier()
                } else {
                    let mut msg = "Unknown token ".to_owned();
                    push_char(&mut msg, c);
                    Err(LexicalError::new(self.current_line, msg))
                }
            },
        }
    }

    /// Transforms the source this scanner was built over into a
    /// [`TokenStream`].
    ///
    /// This consumes the scanner. For better error reporting the whole
    /// source is scanned regardless of errors, so one invocation surfaces
    /// every lexical error at once instead of revealing them one fix at a
    /// time; a failed scan returns the full ordered error list and never a
    /// partial stream.
    pub fn scan(self) -> (r: Result<TokenStream, Vec<LexicalError>>)
        requires
            self.inv(),
            self.at_start(),
        ensures
            r is Err ==> r->Err_0@.len() > 0,
            self@.len() < usize::MAX ==> ({
                let m = lex(self@);
                &&& (m.1.len() == 0 <==> r is Ok)
                &&& (r is Ok ==> r->Ok_0@ == m.0)
                &&& (r is Err ==> r->Err_0.deep_view() == m.1)
            }),
    {
        let mut this = self;
        let ghost s = this.src@;
        let n = this.src.unicode_len();
        while this.pos < n
            invariant
                this.inv(),
                this.src@ == s,
                n == s.len(),
                s.len() < usize::MAX ==> ({
                    let rest = lex_from(s, this.pos as int, this.current_line as nat);
                    &&& this.token_stream@ + rest.0 == lex(s).0
                    &&& this.errors.deep_view() + rest.1 == lex(s).1
                }),
            decreases n - this.pos,
        {
            let ghost i = this.pos as int;
            let ghost prev_line = this.current_line as nat;
            let ghost prev_tokens = this.token_stream@;
            let ghost prev_errors = this.errors.deep_view();
            let c = this.src.get_char(this.pos);
            this.pos = this.pos + 1;
            let res = this.scan_token(c);
            match res {
                Ok(Some(token)) => {
                    let ghost t = token@;
                    this.token_stream.append(token);
                    proof {
                        assert(this.token_stream@ =~= prev_tokens + seq![t]);
                    }
                },
                Ok(None) => {},
                Err(err) => {
                    let ghost e = err@;
                    this.errors.push(err);
                    proof {
                        assert(this.errors.deep_view() =~= prev_errors + seq![e]);
                    }
                },
            }
            proof {
                if s.len() < usize::MAX {
                    let st = lex_step(s, i, prev_line);
                    let rest = lex_from(s, st.next, st.line);
                    assert(lex_from(s, i, prev_line).0 == opt_seq(st.token) + rest.0);
                    assert(lex_from(s, i, prev_line).1 == opt_seq(st.error) + rest.1);
                    assert(this.token_stream@ =~= prev_tokens + opt_seq(st.token));
                    assert(this.errors.deep_view() =~= prev_errors + opt_seq(st.error));
                    assert(this.token_stream@ + rest.0 =~= prev_tokens + lex_from(
                        s,
                        i,
                        prev_line,
                    ).0);
                    assert(this.errors.deep_view() + rest.1 =~= prev_errors + lex_from(
                        s,
                        i,
                        prev_line,
                    ).1);
                }
            }
        }
        proof {
            if s.len() < usize::MAX {
                assert(lex_from(s, this.pos as int, this.current_line as nat).0
                    =~= Seq::<TokenView>::empty());
                assert(lex_from(s, this.pos as int, this.current_line as nat).1
                    =~= Seq::<LexicalErrorView>::empty());
                assert(this.token_stream@ + Seq::<TokenView>::empty() =~= this.token_stream@);
                assert(this.errors.deep_view()
                    + Seq::<LexicalErrorView>::empty()
                    =~= this.errors.deep_view());
                assert(this.errors.deep_view().len() == this.errors@.len());
            }
        }
        if this.errors.len() > 0 {
            Err(this.errors)
        } else {
            Ok(this.token_stream)
        }
    }
}

} // verus!
