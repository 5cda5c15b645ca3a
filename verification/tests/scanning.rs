use std::str::FromStr;

use ent::syntax::keywords::match_reserved_word;
use ent::syntax::lexer::Lexer;
use ent::syntax::token_type::{Literal, TokenType};
use ent::syntax::{Token, TokenStream};

fn scan_tokens(src: &str) -> Vec<Token> {
    TokenStream::from_str(src).unwrap().into()
}

#[test]
fn empty_input_scans_to_empty_stream() {
    let tokens = scan_tokens("");
    assert!(tokens.is_empty());
}

#[test]
fn whitespace_only_input_scans_to_empty_stream() {
    let tokens = scan_tokens(" \t\r \n  \n\t");
    assert!(tokens.is_empty());
}

#[test]
fn scanning_twice_gives_identical_results() {
    let src = "var x = 1.5; // set\nprint x";
    let first = TokenStream::from_str(src).unwrap();
    let second = TokenStream::from_str(src).unwrap();
    assert_eq!(first, second);

    let bad = "#\n@";
    let first_errs = TokenStream::from_str(bad).unwrap_err();
    let second_errs = TokenStream::from_str(bad).unwrap_err();
    assert_eq!(first_errs, second_errs);
}

#[test]
fn identifiers_and_plus_with_lines() {
    let tokens = scan_tokens("a + b");
    assert_eq!(
        tokens,
        vec![
            Token::new(TokenType::Identifier("a".to_string()), 1),
            Token::new(TokenType::Plus, 1),
            Token::new(TokenType::Identifier("b".to_string()), 1),
        ]
    );
}

#[test]
fn lone_quote_reports_unterminated_string() {
    let errors = TokenStream::from_str("\"").unwrap_err();
    assert!(!errors.is_empty());
    assert_eq!(errors[0].render(), "[error: 1] Unterminated string");
}

#[test]
fn bang_equal_is_one_token() {
    let tokens = scan_tokens("!=");
    assert_eq!(tokens, vec![Token::new(TokenType::BangEqual, 1)]);
}

#[test]
fn bang_at_end_of_input_is_bang() {
    let tokens = scan_tokens("!");
    assert_eq!(tokens, vec![Token::new(TokenType::Bang, 1)]);
}

#[test]
fn decimal_number_is_one_literal_token() {
    let tokens = scan_tokens("123.45");
    assert_eq!(
        tokens,
        vec![Token::new(
            TokenType::Literal(Literal::Number("123.45".to_string())),
            1
        )]
    );
    match &tokens[0].symbol {
        TokenType::Literal(Literal::Number(spelling)) => {
            assert_eq!(spelling.parse::<f64>().unwrap(), 123.45);
        }
        other => panic!("expected a number literal, got {:?}", other),
    }
}

#[test]
fn comment_is_discarded_and_line_advances() {
    let tokens = scan_tokens("1 // comment\n2");
    assert_eq!(
        tokens,
        vec![
            Token::new(TokenType::Literal(Literal::Number("1".to_string())), 1),
            Token::new(TokenType::Literal(Literal::Number("2".to_string())), 2),
        ]
    );
    assert_eq!(tokens[1].line, tokens[0].line + 1);
    match (&tokens[0].symbol, &tokens[1].symbol) {
        (
            TokenType::Literal(Literal::Number(first)),
            TokenType::Literal(Literal::Number(second)),
        ) => {
            assert_eq!(first.parse::<f64>().unwrap(), 1.0);
            assert_eq!(second.parse::<f64>().unwrap(), 2.0);
        }
        other => panic!("expected two number literals, got {:?}", other),
    }
}

#[test]
fn true_is_a_boolean_literal_not_an_identifier() {
    let tokens = scan_tokens("true");
    assert_eq!(
        tokens,
        vec![Token::new(TokenType::Literal(Literal::True), 1)]
    );
}

#[test]
fn unknown_characters_on_two_lines_give_two_errors() {
    let errors = TokenStream::from_str("#\n@").unwrap_err();
    assert_eq!(errors.len(), 2);
    assert_eq!(errors[0].line, 1);
    assert_eq!(errors[0].msg, "Unknown token #");
    assert_eq!(errors[1].line, 2);
    assert_eq!(errors[1].msg, "Unknown token @");
    assert_eq!(errors[0].render(), "[error: 1] Unknown token #");
    assert_eq!(errors[1].render(), "[error: 2] Unknown token @");
}

#[test]
fn multi_line_string_is_anchored_at_its_start() {
    let tokens = scan_tokens("\"a\nb\nc\" x");
    assert_eq!(
        tokens,
        vec![
            Token::new(
                TokenType::Literal(Literal::String("a\nb\nc".to_string())),
                1
            ),
            Token::new(TokenType::Identifier("x".to_string()), 3),
        ]
    );
}

#[test]
fn unterminated_string_is_anchored_at_its_opening_line() {
    let errors = TokenStream::from_str("x\n\"a\nb").unwrap_err();
    assert_eq!(errors.len(), 1);
    assert_eq!(errors[0].line, 2);
    assert_eq!(errors[0].msg, "Unterminated string");
}

#[test]
fn numeral_with_two_dots_is_invalid() {
    let errors = TokenStream::from_str("1.2.3").unwrap_err();
    assert_eq!(errors.len(), 1);
    assert_eq!(errors[0].render(), "[error: 1] Invalid number");
}

#[test]
fn number_may_end_with_a_dot() {
    let tokens = scan_tokens("1.");
    assert_eq!(
        tokens,
        vec![Token::new(
            TokenType::Literal(Literal::Number("1.".to_string())),
            1
        )]
    );
}

#[test]
fn leading_dot_is_punctuation_not_number() {
    let tokens = scan_tokens(".5");
    assert_eq!(
        tokens,
        vec![
            Token::new(TokenType::Dot, 1),
            Token::new(TokenType::Literal(Literal::Number("5".to_string())), 1),
        ]
    );
}

#[test]
fn empty_string_literal() {
    let tokens = scan_tokens("\"\"");
    assert_eq!(
        tokens,
        vec![Token::new(
            TokenType::Literal(Literal::String(String::new())),
            1
        )]
    );
}

#[test]
fn slash_alone_is_a_token_and_comment_swallows_the_line() {
    assert_eq!(scan_tokens("/"), vec![Token::new(TokenType::Slash, 1)]);
    assert!(scan_tokens("// nothing here").is_empty());
}

#[test]
fn comparison_operators_resolve_with_one_lookahead() {
    let tokens = scan_tokens("< <= > >= = == ! !=");
    assert_eq!(
        tokens,
        vec![
            Token::new(TokenType::Less, 1),
            Token::new(TokenType::LessEqual, 1),
            Token::new(TokenType::Greater, 1),
            Token::new(TokenType::GreaterEqual, 1),
            Token::new(TokenType::Equal, 1),
            Token::new(TokenType::EqualEqual, 1),
            Token::new(TokenType::Bang, 1),
            Token::new(TokenType::BangEqual, 1),
        ]
    );
}

#[test]
fn single_character_punctuation() {
    let tokens = scan_tokens("(){},.-+;*");
    assert_eq!(
        tokens,
        vec![
            Token::new(TokenType::LeftParen, 1),
            Token::new(TokenType::RightParen, 1),
            Token::new(TokenType::LeftBrace, 1),
            Token::new(TokenType::RightBrace, 1),
            Token::new(TokenType::Comma, 1),
            Token::new(TokenType::Dot, 1),
            Token::new(TokenType::Minus, 1),
            Token::new(TokenType::Plus, 1),
            Token::new(TokenType::Semicolon, 1),
            Token::new(TokenType::Star, 1),
        ]
    );
}

#[test]
fn every_reserved_word_maps_to_its_token() {
    assert_eq!(match_reserved_word("and"), Some(TokenType::And));
    assert_eq!(match_reserved_word("class"), Some(TokenType::Class));
    assert_eq!(match_reserved_word("else"), Some(TokenType::Else));
    assert_eq!(
        match_reserved_word("false"),
        Some(TokenType::Literal(Literal::False))
    );
    assert_eq!(match_reserved_word("for"), Some(TokenType::For));
    assert_eq!(match_reserved_word("fun"), Some(TokenType::Fun));
    assert_eq!(match_reserved_word("if"), Some(TokenType::If));
    assert_eq!(
        match_reserved_word("nil"),
        Some(TokenType::Literal(Literal::Nil))
    );
    assert_eq!(match_reserved_word("or"), Some(TokenType::Or));
    assert_eq!(match_reserved_word("print"), Some(TokenType::Print));
    assert_eq!(match_reserved_word("return"), Some(TokenType::Return));
    assert_eq!(match_reserved_word("super"), Some(TokenType::Super));
    assert_eq!(match_reserved_word("this"), Some(TokenType::This));
    assert_eq!(
        match_reserved_word("true"),
        Some(TokenType::Literal(Literal::True))
    );
    assert_eq!(match_reserved_word("var"), Some(TokenType::Var));
    assert_eq!(match_reserved_word("while"), Some(TokenType::While));
    assert_eq!(match_reserved_word("variable"), None);
    assert_eq!(match_reserved_word(""), None);
}

#[test]
fn keywords_inside_a_statement() {
    let tokens = scan_tokens("var x = 1;");
    assert_eq!(
        tokens,
        vec![
            Token::new(TokenType::Var, 1),
            Token::new(TokenType::Identifier("x".to_string()), 1),
            Token::new(TokenType::Equal, 1),
            Token::new(TokenType::Literal(Literal::Number("1".to_string())), 1),
            Token::new(TokenType::Semicolon, 1),
        ]
    );
}

#[test]
fn identifiers_may_hold_underscores_and_unicode_letters() {
    let tokens = scan_tokens("_tmp caf\u{e9}");
    assert_eq!(
        tokens,
        vec![
            Token::new(TokenType::Identifier("_tmp".to_string()), 1),
            Token::new(TokenType::Identifier("caf\u{e9}".to_string()), 1),
        ]
    );
}

#[test]
fn errors_suppress_the_token_stream_entirely() {
    // Valid tokens stand both before and after the bad character; the
    // caller still receives only the error list.
    let errors = TokenStream::from_str("a + b\n# c").unwrap_err();
    assert_eq!(errors.len(), 1);
    assert_eq!(errors[0].line, 2);
}

#[test]
fn lexer_drives_the_same_scan_as_from_str() {
    let via_lexer = Lexer::new("a + b").scan().unwrap();
    let via_from_str = TokenStream::from_str("a + b").unwrap();
    assert_eq!(via_lexer, via_from_str);
}

#[test]
fn is_identifier_char_matches_the_usual_classes() {
    assert!(Lexer::is_identifier_char('a'));
    assert!(Lexer::is_identifier_char('Z'));
    assert!(Lexer::is_identifier_char('0'));
    assert!(Lexer::is_identifier_char('_'));
    assert!(Lexer::is_identifier_char('\u{e9}'));
    assert!(!Lexer::is_identifier_char(' '));
    assert!(!Lexer::is_identifier_char('#'));
}

#[test]
fn number_followed_by_word_splits_at_the_letter() {
    let tokens = scan_tokens("1abc");
    assert_eq!(
        tokens,
        vec![
            Token::new(TokenType::Literal(Literal::Number("1".to_string())), 1),
            Token::new(TokenType::Identifier("abc".to_string()), 1),
        ]
    );
}
