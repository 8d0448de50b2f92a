use rocks_lang::literal::Literal;
use rocks_lang::token::{Location, Token, Type};

use std::collections::hash_map::DefaultHasher;
use std::hash::{Hash, Hasher};

#[test]
fn create_token() {
    let token = Token::new(Type::LeftParen, "(".to_string(), None, Location::new(1, 3));

    assert_eq!(token.kind, Type::LeftParen);
    assert_eq!(token.lexeme, "(");
    assert!(token.literal.is_none());
    assert_eq!(token.location.line, 1);
    assert_eq!(token.location.column, 3);
}

#[test]
fn create_token_from_str() {
    let token = Token::from_name("init");

    assert_eq!(token.kind, Type::Identifier);
    assert_eq!(token.lexeme, "init");
    assert!(token.literal.is_none());
    assert_eq!(token.location.line, 0);
    assert_eq!(token.location.column, 0);
}

#[test]
fn display_token() {
    let token = Token::new(Type::LeftParen, "(".to_string(), None, Location::new(1, 3));

    assert_eq!(token.to_display_string(), "LeftParen ( None @ [1:3]");
}

#[test]
fn same_hash_for_same_token() {
    let token = Token::from_name("init");
    let token_copy = Token::from_name("init");

    let mut hasher = DefaultHasher::new();
    token.hash(&mut hasher);
    let hash = hasher.finish();

    let mut hasher_copy = DefaultHasher::new();
    token_copy.hash(&mut hasher_copy);
    let hash_copy = hasher_copy.finish();

    assert_eq!(hash, hash_copy);
}

#[test]
fn different_hash_for_different_name() {
    let token = Token::from_name("init");
    let token_copy = Token::from_name("init2");

    let mut hasher = DefaultHasher::new();
    token.hash(&mut hasher);
    let hash = hasher.finish();

    let mut hasher_copy = DefaultHasher::new();
    token_copy.hash(&mut hasher_copy);
    let hash_copy = hasher_copy.finish();

    assert_ne!(hash, hash_copy);
}

#[test]
fn different_hash_for_different_type() {
    let token = Token::new(Type::Semicolon, ";".to_string(), None, Location::new(1, 3));
    let token_copy = Token::new(Type::LeftParen, "(".to_string(), None, Location::new(1, 3));

    let mut hasher = DefaultHasher::new();
    token.hash(&mut hasher);
    let hash = hasher.finish();

    let mut hasher_copy = DefaultHasher::new();
    token_copy.hash(&mut hasher_copy);
    let hash_copy = hasher_copy.finish();

    assert_ne!(hash, hash_copy);
}

#[test]
fn different_hash_for_different_row() {
    let token = Token::new(Type::Semicolon, ";".to_string(), None, Location::new(2, 4));
    let token_copy = Token::new(Type::Semicolon, ";".to_string(), None, Location::new(1, 4));

    let mut hasher = DefaultHasher::new();
    token.hash(&mut hasher);
    let hash = hasher.finish();

    let mut hasher_copy = DefaultHasher::new();
    token_copy.hash(&mut hasher_copy);
    let hash_copy = hasher_copy.finish();

    assert_ne!(hash, hash_copy);
}

#[test]
fn different_hash_for_different_column() {
    let token = Token::new(Type::Semicolon, ";".to_string(), None, Location::new(1, 3));
    let token_copy = Token::new(Type::Semicolon, ";".to_string(), None, Location::new(1, 4));

    let mut hasher = DefaultHasher::new();
    token.hash(&mut hasher);
    let hash = hasher.finish();

    let mut hasher_copy = DefaultHasher::new();
    token_copy.hash(&mut hasher_copy);
    let hash_copy = hasher_copy.finish();

    assert_ne!(hash, hash_copy);
}

#[test]
fn literal_token_display() {
    let token = Token::new(
        Type::Number,
        "42".to_string(),
        Some(Literal::Num(42)),
        Location::new(7, 12),
    );

    assert_eq!(token.to_display_string(), "Number 42 42 @ [7:12]");
}
