use rocks_lang::error::ErrorKind;
use rocks_lang::literal::Literal;
use rocks_lang::object::{apply_binary, apply_unary, Object, TypeTag};
use rocks_lang::token::Type;

fn num(n: i64) -> Object {
    Object::Literal(Literal::Num(n))
}

fn text(s: &str) -> Object {
    Object::Literal(Literal::Str(s.to_string()))
}

fn boolean(b: bool) -> Object {
    Object::Literal(Literal::Bool(b))
}

fn null() -> Object {
    Object::Literal(Literal::Null)
}

fn expect_num(r: Result<Object, ErrorKind>) -> i64 {
    match r {
        Ok(Object::Literal(Literal::Num(n))) => n,
        other => panic!("expected a number, got {:?}", other),
    }
}

fn expect_bool(r: Result<Object, ErrorKind>) -> bool {
    match r {
        Ok(Object::Literal(Literal::Bool(b))) => b,
        other => panic!("expected a boolean, got {:?}", other),
    }
}

#[test]
fn arithmetic_on_numbers() {
    assert_eq!(expect_num(apply_binary(Type::Plus, num(1), num(2))), 3);
    assert_eq!(expect_num(apply_binary(Type::Minus, num(1), num(2))), -1);
    assert_eq!(expect_num(apply_binary(Type::Star, num(6), num(7))), 42);
    assert_eq!(expect_num(apply_binary(Type::Slash, num(7), num(2))), 3);
}

#[test]
fn division_truncates_toward_zero() {
    assert_eq!(expect_num(apply_binary(Type::Slash, num(-7), num(2))), -3);
    assert_eq!(expect_num(apply_binary(Type::Slash, num(7), num(-2))), -3);
    assert_eq!(expect_num(apply_binary(Type::Slash, num(-7), num(-2))), 3);
    assert_eq!(
        expect_num(apply_binary(Type::Slash, num(i64::MIN), num(-1))),
        i64::MIN
    );
}

#[test]
fn division_by_zero_is_an_error() {
    assert_eq!(
        apply_binary(Type::Slash, num(1), num(0)).unwrap_err(),
        ErrorKind::DivisionByZero
    );
}

#[test]
fn arithmetic_wraps_at_the_edges() {
    assert_eq!(
        expect_num(apply_binary(Type::Plus, num(i64::MAX), num(1))),
        i64::MIN
    );
    assert_eq!(
        expect_num(apply_binary(Type::Minus, num(i64::MIN), num(1))),
        i64::MAX
    );
}

#[test]
fn plus_joins_strings() {
    match apply_binary(Type::Plus, text("foo"), text("bar")) {
        Ok(Object::Literal(Literal::Str(s))) => assert_eq!(s, "foobar"),
        other => panic!("expected a string, got {:?}", other),
    }
}

#[test]
fn mixed_operands_are_a_type_error_naming_both_kinds() {
    assert_eq!(
        apply_binary(Type::Plus, text("1"), num(1)).unwrap_err(),
        ErrorKind::BinaryType(TypeTag::Str, TypeTag::Number)
    );
    assert_eq!(
        apply_binary(Type::Less, text("a"), text("b")).unwrap_err(),
        ErrorKind::BinaryType(TypeTag::Str, TypeTag::Str)
    );
    assert_eq!(
        apply_binary(Type::Star, boolean(true), num(2)).unwrap_err(),
        ErrorKind::BinaryType(TypeTag::Boolean, TypeTag::Number)
    );
    assert_eq!(
        apply_binary(Type::Minus, Object::Class(0), Object::Instance(1)).unwrap_err(),
        ErrorKind::BinaryType(TypeTag::Class, TypeTag::Instance)
    );
}

#[test]
fn comparisons_on_numbers() {
    assert!(expect_bool(apply_binary(Type::Less, num(1), num(2))));
    assert!(!expect_bool(apply_binary(Type::Greater, num(1), num(2))));
    assert!(expect_bool(apply_binary(Type::LessEqual, num(2), num(2))));
    assert!(expect_bool(apply_binary(Type::GreaterEqual, num(2), num(2))));
}

#[test]
fn equality_is_by_value_within_a_kind() {
    assert!(expect_bool(apply_binary(Type::EqualEqual, num(1), num(1))));
    assert!(expect_bool(apply_binary(
        Type::EqualEqual,
        text("a"),
        text("a")
    )));
    assert!(expect_bool(apply_binary(Type::EqualEqual, null(), null())));
    assert!(expect_bool(apply_binary(Type::BangEqual, num(1), num(2))));
}

#[test]
fn mismatched_kinds_are_unequal_not_an_error() {
    assert!(!expect_bool(apply_binary(Type::EqualEqual, num(1), text("1"))));
    assert!(!expect_bool(apply_binary(Type::EqualEqual, null(), num(0))));
}

#[test]
fn functions_and_instances_compare_by_identity() {
    assert!(expect_bool(apply_binary(
        Type::EqualEqual,
        Object::Function(3),
        Object::Function(3)
    )));
    assert!(!expect_bool(apply_binary(
        Type::EqualEqual,
        Object::Function(3),
        Object::Function(4)
    )));
    assert!(!expect_bool(apply_binary(
        Type::EqualEqual,
        Object::Instance(0),
        Object::Class(0)
    )));
}

#[test]
fn unary_minus_negates_numbers_only() {
    assert_eq!(expect_num(apply_unary(Type::Minus, num(3))), -3);
    assert_eq!(
        apply_unary(Type::Minus, text("3")).unwrap_err(),
        ErrorKind::UnaryType(TypeTag::Str)
    );
}

#[test]
fn unary_bang_negates_the_truthiness_of_any_value() {
    assert!(!expect_bool(apply_unary(Type::Bang, boolean(true))));
    assert!(expect_bool(apply_unary(Type::Bang, null())));
    assert!(expect_bool(apply_unary(Type::Bang, num(0))));
    assert!(!expect_bool(apply_unary(Type::Bang, num(5))));
    assert!(expect_bool(apply_unary(Type::Bang, text(""))));
    assert!(!expect_bool(apply_unary(Type::Bang, text("x"))));
    assert!(!expect_bool(apply_unary(Type::Bang, Object::Function(0))));
    assert!(!expect_bool(apply_unary(Type::Bang, Object::Instance(2))));
}

#[test]
fn truthiness_of_values() {
    assert!(!null().truthy());
    assert!(boolean(true).truthy());
    assert!(!boolean(false).truthy());
    assert!(num(1).truthy());
    assert!(!num(0).truthy());
    assert!(text("x").truthy());
    assert!(!text("").truthy());
    assert!(Object::Function(0).truthy());
    assert!(Object::Class(0).truthy());
    assert!(Object::Instance(0).truthy());
    assert!(
        Object::NativeFunction(rocks_lang::object::NativeFunction { name: "clock".to_string() })
            .truthy()
    );
}

#[test]
fn type_names() {
    assert_eq!(num(1).type_str(), "number");
    assert_eq!(text("").type_str(), "string");
    assert_eq!(boolean(true).type_str(), "boolean");
    assert_eq!(null().type_str(), "null");
    assert_eq!(Object::Class(0).type_str(), "class");
}
