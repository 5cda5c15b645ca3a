use std::str::FromStr;

use ent::syntax::lexer_error::LexicalError;
use ent::syntax::token_type::{Literal, TokenType};
use ent::syntax::{Token, TokenStream};

#[test]
fn create_token() {
    let symbol = TokenType::Literal(Literal::Number("1234".to_string()));
    let same_symbol = TokenType::Literal(Literal::Number("1234".to_string()));
    let line = 2;
    assert!(Token { symbol, line } == Token::new(same_symbol, line))
}

#[test]
fn create_from_str() {
    let src = "a + b";
    let expected = TokenStream {
        tokens: vec![
            Token::new(TokenType::Identifier("a".to_string()), 1),
            Token::new(TokenType::Plus, 1),
            Token::new(TokenType::Identifier("b".to_string()), 1),
        ],
    };
    assert_eq!(expected, TokenStream::from_str(&src).unwrap());
}

#[test]
fn fail_creation_from_str() {
    let src = "\"";
    assert!(TokenStream::from_str(&src).is_err());
}

#[test]
fn from_token_stream_to_token_vec() {
    let expected = vec![
        Token::new(TokenType::Identifier("a".to_string()), 0),
        Token::new(TokenType::Plus, 0),
        Token::new(TokenType::Identifier("b".to_string()), 0),
    ];
    let token_stream = TokenStream {
        tokens: vec![
            Token::new(TokenType::Identifier("a".to_string()), 0),
            Token::new(TokenType::Plus, 0),
            Token::new(TokenType::Identifier("b".to_string()), 0),
        ],
    };

    let vec: Vec<Token> = Vec::from(token_stream);
    assert_eq!(vec, expected);
}

#[test]
fn token_stream_append_keeps_order() {
    let mut stream = TokenStream::new();
    stream.append(Token::new(TokenType::LeftParen, 1));
    stream.append(Token::new(TokenType::RightParen, 1));
    let tokens: Vec<Token> = stream.into();
    assert_eq!(
        tokens,
        vec![
            Token::new(TokenType::LeftParen, 1),
            Token::new(TokenType::RightParen, 1),
        ]
    );
}

#[test]
fn lexical_error_fields() {
    let err = LexicalError::new(3, "boom".to_string());
    assert_eq!(err.line, 3);
    assert_eq!(err.msg, "boom");
}

#[test]
fn lexical_error_render() {
    let err = LexicalError::new(7, "boom".to_string());
    assert_eq!(err.render(), "[error: 7] boom");
}

#[test]
fn lexical_error_render_multi_digit_line() {
    let err = LexicalError::new(1203, "Invalid number".to_string());
    assert_eq!(err.render(), "[error: 1203] Invalid number");
}
