use rocks_lang::literal::Literal;
use rocks_lang::scanner::Scanner;
use rocks_lang::token::{Token, Type};

fn scan(source: &str) -> (Vec<Token>, Vec<String>) {
    let mut scanner = Scanner::new(source.chars().collect());
    let tokens = scanner.scan_tokens();
    let errors = scanner.errors.iter().map(|e| e.message.clone()).collect();
    (tokens, errors)
}

fn kinds(tokens: &[Token]) -> Vec<Type> {
    tokens.iter().map(|t| t.kind).collect()
}

#[test]
fn scans_a_declaration() {
    let (tokens, errors) = scan("var a = 1;");
    assert!(errors.is_empty());
    assert_eq!(
        kinds(&tokens),
        vec![Type::Var, Type::Identifier, Type::Equal, Type::Number, Type::Semicolon, Type::EOF]
    );
    assert_eq!(tokens[1].lexeme, "a");
    assert!(matches!(tokens[3].literal, Some(Literal::Num(1))));
}

#[test]
fn scans_keywords_and_identifiers() {
    let (tokens, errors) = scan("class while whale fun fund");
    assert!(errors.is_empty());
    assert_eq!(
        kinds(&tokens),
        vec![
            Type::Class,
            Type::While,
            Type::Identifier,
            Type::Fun,
            Type::Identifier,
            Type::EOF
        ]
    );
    assert_eq!(tokens[2].lexeme, "whale");
    assert_eq!(tokens[4].lexeme, "fund");
}

#[test]
fn scans_one_and_two_character_operators() {
    let (tokens, errors) = scan("! != = == < <= > >= + - * /");
    assert!(errors.is_empty());
    assert_eq!(
        kinds(&tokens),
        vec![
            Type::Bang,
            Type::BangEqual,
            Type::Equal,
            Type::EqualEqual,
            Type::Less,
            Type::LessEqual,
            Type::Greater,
            Type::GreaterEqual,
            Type::Plus,
            Type::Minus,
            Type::Star,
            Type::Slash,
            Type::EOF
        ]
    );
}

#[test]
fn scans_string_literals() {
    let (tokens, errors) = scan("\"hello world\"");
    assert!(errors.is_empty());
    assert_eq!(tokens[0].kind, Type::Str);
    assert_eq!(tokens[0].lexeme, "hello world");
    assert!(matches!(&tokens[0].literal, Some(Literal::Str(s)) if s == "hello world"));
}

#[test]
fn unterminated_string_is_an_error() {
    let (tokens, errors) = scan("\"oops");
    assert_eq!(errors, vec!["Unterminated string"]);
    assert_eq!(kinds(&tokens), vec![Type::EOF]);
}

#[test]
fn comments_and_whitespace_produce_no_tokens() {
    let (tokens, errors) = scan("// a comment\n  \t\r\n1");
    assert!(errors.is_empty());
    assert_eq!(kinds(&tokens), vec![Type::Number, Type::EOF]);
    assert_eq!(tokens[0].location.line, 2);
}

#[test]
fn fractional_literal_is_an_error() {
    let (tokens, errors) = scan("1.5;");
    assert_eq!(errors, vec!["Fractional number literals are not supported"]);
    assert_eq!(kinds(&tokens), vec![Type::Semicolon, Type::EOF]);
}

#[test]
fn oversized_number_is_an_error() {
    let (_, errors) = scan("99999999999999999999");
    assert_eq!(errors, vec!["Number too large"]);
    let (tokens, errors2) = scan("9223372036854775807");
    assert!(errors2.is_empty());
    assert!(matches!(tokens[0].literal, Some(Literal::Num(i64::MAX))));
}

#[test]
fn unexpected_character_is_an_error() {
    let (tokens, errors) = scan("@");
    assert_eq!(errors, vec!["Unexpected character"]);
    assert_eq!(kinds(&tokens), vec![Type::EOF]);
}

#[test]
fn positions_count_lines_and_columns() {
    let (tokens, errors) = scan("var\n  x");
    assert!(errors.is_empty());
    assert_eq!(tokens[0].location.line, 0);
    assert_eq!(tokens[0].location.column, 0);
    assert_eq!(tokens[1].location.line, 1);
    assert_eq!(tokens[1].location.column, 2);
}

#[test]
fn dot_after_number_without_digit_is_property_access() {
    let (tokens, errors) = scan("f.x");
    assert!(errors.is_empty());
    assert_eq!(
        kinds(&tokens),
        vec![Type::Identifier, Type::Dot, Type::Identifier, Type::EOF]
    );
}
