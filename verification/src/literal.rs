use vstd::prelude::*;

verus! {

/// Ghost model of a literal: strings are abstracted to their character
/// sequences so that contracts speak of mathematical values only.
pub ghost enum LitV {
    Null,
    Bool(bool),
    Num(i64),
    Str(Seq<char>),
}

/// A literal value of the language: `null`, a boolean, a number (a 64-bit
/// signed integer with wrapping arithmetic) or a string.
#[derive(Debug, Hash)]
pub enum Literal {
    Null,
    Bool(bool),
    Num(i64),
    Str(String),
}

impl View for Literal {
    type V = LitV;

    open spec fn view(&self) -> LitV {
        match self {
            Literal::Null => LitV::Null,
            Literal::Bool(b) => LitV::Bool(*b),
            Literal::Num(n) => LitV::Num(*n),
            Literal::Str(s) => LitV::Str(s@),
        }
    }
}

/// Truthiness of a literal: `null` is false, a boolean is itself, a number
/// is true unless zero, a string is true unless empty.
pub open spec fn sp_lit_truthy(l: LitV) -> bool {
    match l {
        LitV::Null => false,
        LitV::Bool(b) => b,
        LitV::Num(n) => n != 0,
        LitV::Str(s) => s.len() != 0,
    }
}

impl Literal {
    /// Returns the truthiness of the literal.
    pub fn as_bool(&self) -> (r: bool)
        ensures
            r == sp_lit_truthy(self@),
    {
        match self {
            Literal::Bool(b) => *b,
            Literal::Num(n) => *n != 0,
            Literal::Null => false,
            Literal::Str(s) => !s.as_str().is_empty(),
        }
    }

    /// Returns the name of the literal's kind.
    pub fn type_str(&self) -> (r: &'static str)
        ensures
            r@ == sp_lit_type_name(self@),
    {
        match self {
            Literal::Str(_) => "string",
            Literal::Num(_) => "number",
            Literal::Bool(_) => "boolean",
            Literal::Null => "null",
        }
    }
}

/// The name of a literal's kind, as reported in type errors.
pub open spec fn sp_lit_type_name(l: LitV) -> Seq<char> {
    match l {
        LitV::Str(_) => "string"@,
        LitV::Num(_) => "number"@,
        LitV::Bool(_) => "boolean"@,
        LitV::Null => "null"@,
    }
}

impl Clone for Literal {
    /// Cloning a literal preserves its value.
    fn clone(&self) -> (res: Literal)
        ensures
            res == *self,
    {
        match self {
            Literal::Null => Literal::Null,
            Literal::Bool(b) => Literal::Bool(*b),
            Literal::Num(n) => Literal::Num(*n),
            Literal::Str(s) => Literal::Str(s.clone()),
        }
    }
}

/// Equality of two literals: values of different kinds are unequal, values
/// of one kind compare by value.
pub open spec fn sp_lit_equals(a: LitV, b: LitV) -> bool {
    match (a, b) {
        (LitV::Null, LitV::Null) => true,
        (LitV::Bool(x), LitV::Bool(y)) => x == y,
        (LitV::Num(x), LitV::Num(y)) => x == y,
        (LitV::Str(x), LitV::Str(y)) => x == y,
        _ => false,
    }
}

} // verus!
