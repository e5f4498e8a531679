use std::fmt::Debug;
use wasm_interpreter::lexer::{lexer, mk_identifier, Token};

fn foo<T, U>(lhs: T, rhs: U)
where
    T: Debug + PartialEq<U>,
    U: Debug,
{
    assert_eq!(lhs, rhs)
}

fn bar<'b, T>(lhs: T, rhs: Token<'b>)
where
    T: Debug + for<'a> PartialEq<Token<'a>>,
{
    foo(lhs, rhs)
}

fn written(input: &str) -> Vec<String> {
    lexer(input).into_iter().map(String::from).collect()
}

#[test]
fn test_partial_eq() {
    let hi = String::from("hi");
    bar(Token::Identifier("hi"), Token::Identifier(&*hi));
    bar(Token::Identifier(&*hi), Token::Identifier("hi"));
}

#[test]
fn test_lexer() {
    assert_eq!(
        written("(a123  bcd)"),
        vec!["(", "a123", "<space>", "<space>", "bcd", ")"]
    );
}

#[test]
fn tokens_differ_by_kind_and_by_name() {
    assert_ne!(Token::LParen, Token::RParen);
    assert_ne!(Token::Whitespace, Token::LParen);
    assert_ne!(Token::Identifier("hi"), Token::Identifier("ho"));
    assert_ne!(Token::Identifier("hi"), Token::Identifier("h"));
    assert_ne!(Token::Identifier("("), Token::LParen);
    assert_eq!(Token::Whitespace, Token::Whitespace);
}

#[test]
fn mk_identifier_wraps_the_name() {
    assert_eq!(mk_identifier("abc"), Token::Identifier("abc"));
    assert_eq!(String::from(mk_identifier("abc")), "abc");
}

#[test]
fn tokens_are_written_out() {
    assert_eq!(String::from(Token::LParen), "(");
    assert_eq!(String::from(Token::RParen), ")");
    assert_eq!(String::from(Token::Whitespace), "<space>");
    assert_eq!(String::from(Token::Identifier("x1")), "x1");
}

#[test]
fn empty_input_has_no_tokens() {
    assert_eq!(lexer(""), Vec::<Token>::new());
}

#[test]
fn identifier_runs_to_the_end_of_the_input() {
    assert_eq!(lexer("abc"), vec![Token::Identifier("abc")]);
    assert_eq!(
        lexer("(x y9"),
        vec![
            Token::LParen,
            Token::Identifier("x"),
            Token::Whitespace,
            Token::Identifier("y9"),
        ]
    );
}

#[test]
fn scanning_stops_at_a_character_that_starts_no_token() {
    assert_eq!(lexer("9a"), Vec::<Token>::new());
    assert_eq!(
        lexer("(a-b)"),
        vec![Token::LParen, Token::Identifier("a")]
    );
    assert_eq!(lexer("a1 +("), vec![Token::Identifier("a1"), Token::Whitespace]);
}

#[test]
fn each_whitespace_character_is_a_token() {
    assert_eq!(
        lexer(" \t\n"),
        vec![Token::Whitespace, Token::Whitespace, Token::Whitespace]
    );
    assert_eq!(lexer("\u{2003}"), vec![Token::Whitespace]);
}

#[test]
fn identifiers_hold_letters_and_digits_of_any_script() {
    assert_eq!(
        lexer("été٣(β2)"),
        vec![
            Token::Identifier("été٣"),
            Token::LParen,
            Token::Identifier("β2"),
            Token::RParen,
        ]
    );
}
