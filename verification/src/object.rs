use vstd::prelude::*;

use crate::error::ErrorKind;
use crate::literal::{sp_lit_equals, sp_lit_truthy, sp_lit_type_name, LitV, Literal};
use crate::token::Type;

verus! {

/// Ghost model of a runtime value. Functions, classes and instances are
/// handles into the interpreter's arenas, so their identity is the handle.
pub ghost enum ValueV {
    Lit(LitV),
    Fun(int),
    Native(Seq<char>),
    Class(int),
    Inst(int),
}

/// A native function: a host-provided primitive installed in the global
/// scope. The core never runs its body; the host supplies its results.
#[derive(Debug)]
pub struct NativeFunction {
    /// The global name under which the host installed it.
    pub name: String,
}

impl Clone for NativeFunction {
    /// Cloning a native function preserves its value.
    fn clone(&self) -> (res: NativeFunction)
        ensures
            res == *self,
    {
        NativeFunction { name: self.name.clone() }
    }
}

/// A runtime value: a literal, or a handle to a function, native function,
/// class or instance held in the interpreter's arenas.
#[derive(Debug)]
pub enum Object {
    Literal(Literal),
    Function(usize),
    NativeFunction(NativeFunction),
    Class(usize),
    Instance(usize),
}

impl View for Object {
    type V = ValueV;

    open spec fn view(&self) -> ValueV {
        match self {
            Object::Literal(l) => ValueV::Lit(l@),
            Object::Function(i) => ValueV::Fun(*i as int),
            Object::NativeFunction(n) => ValueV::Native(n.name@),
            Object::Class(i) => ValueV::Class(*i as int),
            Object::Instance(i) => ValueV::Inst(*i as int),
        }
    }
}

impl Clone for Object {
    /// Cloning a value preserves it; handles still name the same object.
    fn clone(&self) -> (res: Object)
        ensures
            res@ == self@,
    {
        match self {
            Object::Literal(l) => Object::Literal(l.clone()),
            Object::Function(i) => Object::Function(*i),
            Object::NativeFunction(n) => Object::NativeFunction(n.clone()),
            Object::Class(i) => Object::Class(*i),
            Object::Instance(i) => Object::Instance(*i),
        }
    }
}

/// Truthiness of a value: literals go by their own rule; functions, native
/// functions, classes and instances are always true, since only `null`,
/// false, zero and the empty string count against a condition.
pub open spec fn sp_truthy(v: ValueV) -> bool {
    match v {
        ValueV::Lit(l) => sp_lit_truthy(l),
        _ => true,
    }
}

/// Equality of two values: literals compare by value within one kind,
/// functions, classes and instances by identity of their handle, native
/// functions by name; values of different kinds are unequal.
pub open spec fn sp_equals(a: ValueV, b: ValueV) -> bool {
    match (a, b) {
        (ValueV::Lit(x), ValueV::Lit(y)) => sp_lit_equals(x, y),
        (ValueV::Fun(x), ValueV::Fun(y)) => x == y,
        (ValueV::Native(x), ValueV::Native(y)) => x == y,
        (ValueV::Class(x), ValueV::Class(y)) => x == y,
        (ValueV::Inst(x), ValueV::Inst(y)) => x == y,
        _ => false,
    }
}

/// The kind of a value, as a plain tag: what a type error reports of its
/// operands.
#[derive(Debug, PartialEq, Eq, Clone, Copy, Structural)]
pub enum TypeTag {
    Null,
    Boolean,
    Number,
    Str,
    Function,
    NativeFunction,
    Class,
    Instance,
}

/// The tag of a value's kind.
pub open spec fn sp_tag(v: ValueV) -> TypeTag {
    match v {
        ValueV::Lit(LitV::Null) => TypeTag::Null,
        ValueV::Lit(LitV::Bool(_)) => TypeTag::Boolean,
        ValueV::Lit(LitV::Num(_)) => TypeTag::Number,
        ValueV::Lit(LitV::Str(_)) => TypeTag::Str,
        ValueV::Fun(_) => TypeTag::Function,
        ValueV::Native(_) => TypeTag::NativeFunction,
        ValueV::Class(_) => TypeTag::Class,
        ValueV::Inst(_) => TypeTag::Instance,
    }
}

/// The name a tag reads as, in error reports.
pub open spec fn sp_tag_name(t: TypeTag) -> Seq<char> {
    match t {
        TypeTag::Null => "null"@,
        TypeTag::Boolean => "boolean"@,
        TypeTag::Number => "number"@,
        TypeTag::Str => "string"@,
        TypeTag::Function => "function"@,
        TypeTag::NativeFunction => "native function"@,
        TypeTag::Class => "class"@,
        TypeTag::Instance => "instance"@,
    }
}

/// The name a tag reads as; it agrees with the value's own type name.
pub fn tag_name(t: TypeTag) -> (r: &'static str)
    ensures
        r@ == sp_tag_name(t),
        forall|v: ValueV| sp_tag(v) == t ==> sp_tag_name(t) == sp_type_name(v),
{
    match t {
        TypeTag::Null => "null",
        TypeTag::Boolean => "boolean",
        TypeTag::Number => "number",
        TypeTag::Str => "string",
        TypeTag::Function => "function",
        TypeTag::NativeFunction => "native function",
        TypeTag::Class => "class",
        TypeTag::Instance => "instance",
    }
}

/// The name of a value's kind, as reported in type errors.
pub open spec fn sp_type_name(v: ValueV) -> Seq<char> {
    match v {
        ValueV::Lit(l) => sp_lit_type_name(l),
        ValueV::Fun(_) => "function"@,
        ValueV::Native(_) => "native function"@,
        ValueV::Class(_) => "class"@,
        ValueV::Inst(_) => "instance"@,
    }
}

impl Object {
    /// Returns the truthiness of the value if it is a literal.
    pub fn as_bool(&self) -> (r: Option<bool>)
        ensures
            match self@ {
                ValueV::Lit(l) => r == Option::Some(sp_lit_truthy(l)),
                _ => r is None,
            },
    {
        match self {
            Object::Literal(literal) => Option::Some(literal.as_bool()),
            _ => Option::None,
        }
    }

    /// Returns the truthiness of the value under the evaluator's rule.
    pub fn truthy(&self) -> (r: bool)
        ensures
            r == sp_truthy(self@),
    {
        match self {
            Object::Literal(literal) => literal.as_bool(),
            _ => true,
        }
    }

    /// Returns the name of the value's kind.
    pub fn type_str(&self) -> (r: &'static str)
        ensures
            r@ == sp_type_name(self@),
    {
        match self {
            Object::Literal(literal) => literal.type_str(),
            Object::Function(_) => "function",
            Object::NativeFunction(_) => "native function",
            Object::Class(_) => "class",
            Object::Instance(_) => "instance",
        }
    }

    /// Returns the tag of the value's kind.
    pub fn tag(&self) -> (r: TypeTag)
        ensures
            r == sp_tag(self@),
    {
        match self {
            Object::Literal(Literal::Null) => TypeTag::Null,
            Object::Literal(Literal::Bool(_)) => TypeTag::Boolean,
            Object::Literal(Literal::Num(_)) => TypeTag::Number,
            Object::Literal(Literal::Str(_)) => TypeTag::Str,
            Object::Function(_) => TypeTag::Function,
            Object::NativeFunction(_) => TypeTag::NativeFunction,
            Object::Class(_) => TypeTag::Class,
            Object::Instance(_) => TypeTag::Instance,
        }
    }

    /// Decides equality of two values, as `==` of the language does.
    pub fn equals(&self, other: &Object) -> (r: bool)
        ensures
            r == sp_equals(self@, other@),
    {
        match (self, other) {
            (Object::Literal(Literal::Null), Object::Literal(Literal::Null)) => true,
            (Object::Literal(Literal::Bool(x)), Object::Literal(Literal::Bool(y))) => *x == *y,
            (Object::Literal(Literal::Num(x)), Object::Literal(Literal::Num(y))) => *x == *y,
            (Object::Literal(Literal::Str(x)), Object::Literal(Literal::Str(y))) => x.eq(y),
            (Object::Function(x), Object::Function(y)) => *x == *y,
            (Object::NativeFunction(x), Object::NativeFunction(y)) => x.name.eq(&y.name),
            (Object::Class(x), Object::Class(y)) => *x == *y,
            (Object::Instance(x), Object::Instance(y)) => *x == *y,
            _ => false,
        }
    }
}

/// Truncated 64-bit division, the `/` of the language: the quotient is cut
/// toward zero, and the one overflowing case wraps back to the minimum.
/// Unused when the divisor is zero; the evaluator reports that as an error.
pub open spec fn sp_div_i64(a: i64, b: i64) -> i64 {
    if b == 0 {
        0
    } else if a == i64::MIN && b == -1 {
        i64::MIN
    } else {
        let q = vstd::math::abs(a as int) as int / vstd::math::abs(b as int) as int;
        (if (a < 0) != (b < 0) {
            -q
        } else {
            q
        }) as i64
    }
}

/// The result of a unary operator: `-` negates a number (wrapping at the
/// minimum) and names the operand's kind in the error for anything else;
/// `!` negates the truthiness of any value whatever. Operators other than
/// `-` and `!` never reach this.
pub open spec fn sp_unary(op: Type, v: ValueV) -> Result<ValueV, ErrorKind> {
    match op {
        Type::Minus => match v {
            ValueV::Lit(LitV::Num(n)) => Result::Ok(
                ValueV::Lit(LitV::Num(vstd::wrapping::i64_specs::wrapping_sub(0, n))),
            ),
            _ => Result::Err(ErrorKind::UnaryType(sp_tag(v))),
        },
        Type::Bang => Result::Ok(ValueV::Lit(LitV::Bool(!sp_truthy(v)))),
        _ => Result::Err(ErrorKind::UnaryType(sp_tag(v))),
    }
}

/// The result of a binary operator on two evaluated operands. Arithmetic
/// and comparisons ask for two numbers, except `+`, which also joins two
/// strings; `==` and `!=` use the language's equality; division by zero is
/// its own error; any other combination is a type error naming both
/// operand kinds.
pub open spec fn sp_binary(op: Type, l: ValueV, r: ValueV) -> Result<ValueV, ErrorKind> {
    match op {
        Type::Plus => match (l, r) {
            (ValueV::Lit(LitV::Num(x)), ValueV::Lit(LitV::Num(y))) => Result::Ok(
                ValueV::Lit(LitV::Num(vstd::wrapping::i64_specs::wrapping_add(x, y))),
            ),
            (ValueV::Lit(LitV::Str(x)), ValueV::Lit(LitV::Str(y))) => Result::Ok(
                ValueV::Lit(LitV::Str(x + y)),
            ),
            _ => Result::Err(ErrorKind::BinaryType(sp_tag(l), sp_tag(r))),
        },
        Type::Minus => match (l, r) {
            (ValueV::Lit(LitV::Num(x)), ValueV::Lit(LitV::Num(y))) => Result::Ok(
                ValueV::Lit(LitV::Num(vstd::wrapping::i64_specs::wrapping_sub(x, y))),
            ),
            _ => Result::Err(ErrorKind::BinaryType(sp_tag(l), sp_tag(r))),
        },
        Type::Star => match (l, r) {
            (ValueV::Lit(LitV::Num(x)), ValueV::Lit(LitV::Num(y))) => Result::Ok(
                ValueV::Lit(LitV::Num(vstd::wrapping::i64_specs::wrapping_mul(x, y))),
            ),
            _ => Result::Err(ErrorKind::BinaryType(sp_tag(l), sp_tag(r))),
        },
        Type::Slash => match (l, r) {
            (ValueV::Lit(LitV::Num(x)), ValueV::Lit(LitV::Num(y))) => if y == 0 {
                Result::Err(ErrorKind::DivisionByZero)
            } else {
                Result::Ok(ValueV::Lit(LitV::Num(sp_div_i64(x, y))))
            },
            _ => Result::Err(ErrorKind::BinaryType(sp_tag(l), sp_tag(r))),
        },
        Type::EqualEqual => Result::Ok(ValueV::Lit(LitV::Bool(sp_equals(l, r)))),
        Type::BangEqual => Result::Ok(ValueV::Lit(LitV::Bool(!sp_equals(l, r)))),
        Type::Greater => match (l, r) {
            (ValueV::Lit(LitV::Num(x)), ValueV::Lit(LitV::Num(y))) => Result::Ok(
                ValueV::Lit(LitV::Bool(x > y)),
            ),
            _ => Result::Err(ErrorKind::BinaryType(sp_tag(l), sp_tag(r))),
        },
        Type::GreaterEqual => match (l, r) {
            (ValueV::Lit(LitV::Num(x)), ValueV::Lit(LitV::Num(y))) => Result::Ok(
                ValueV::Lit(LitV::Bool(x >= y)),
            ),
            _ => Result::Err(ErrorKind::BinaryType(sp_tag(l), sp_tag(r))),
        },
        Type::Less => match (l, r) {
            (ValueV::Lit(LitV::Num(x)), ValueV::Lit(LitV::Num(y))) => Result::Ok(
                ValueV::Lit(LitV::Bool(x < y)),
            ),
            _ => Result::Err(ErrorKind::BinaryType(sp_tag(l), sp_tag(r))),
        },
        Type::LessEqual => match (l, r) {
            (ValueV::Lit(LitV::Num(x)), ValueV::Lit(LitV::Num(y))) => Result::Ok(
                ValueV::Lit(LitV::Bool(x <= y)),
            ),
            _ => Result::Err(ErrorKind::BinaryType(sp_tag(l), sp_tag(r))),
        },
        _ => Result::Err(ErrorKind::BinaryType(sp_tag(l), sp_tag(r))),
    }
}

/// Truncated division of two machine numbers.
fn div_i64(a: i64, b: i64) -> (r: i64)
    requires
        b != 0,
    ensures
        r == sp_div_i64(a, b),
{
    if a == i64::MIN && b == -1 {
        i64::MIN
    } else {
        let ua: u64 = if a == i64::MIN {
            9223372036854775808u64
        } else if a < 0 {
            (-a) as u64
        } else {
            a as u64
        };
        let ub: u64 = if b == i64::MIN {
            9223372036854775808u64
        } else if b < 0 {
            (-b) as u64
        } else {
            b as u64
        };
        let q: u64 = ua / ub;
        proof {
            assert(ua == vstd::math::abs(a as int));
            assert(ub == vstd::math::abs(b as int));
        }
        if (a < 0) != (b < 0) {
            if q == 9223372036854775808u64 {
                i64::MIN
            } else {
                -(q as i64)
            }
        } else {
            q as i64
        }
    }
}

/// Applies a unary operator to its evaluated operand.
pub fn apply_unary(op: Type, v: Object) -> (r: Result<Object, ErrorKind>)
    ensures
        match (r, sp_unary(op, v@)) {
            (Result::Ok(o), Result::Ok(sv)) => o@ == sv,
            (Result::Err(k1), Result::Err(k2)) => k1 == k2,
            _ => false,
        },
{
    match op {
        Type::Minus => match v {
            Object::Literal(Literal::Num(n)) => Result::Ok(
                Object::Literal(Literal::Num(0i64.wrapping_sub(n))),
            ),
            other => Result::Err(ErrorKind::UnaryType(other.tag())),
        },
        Type::Bang => Result::Ok(Object::Literal(Literal::Bool(!v.truthy()))),
        _ => Result::Err(ErrorKind::UnaryType(v.tag())),
    }
}

/// Applies a binary operator to its evaluated operands.
pub fn apply_binary(op: Type, l: Object, r: Object) -> (res: Result<Object, ErrorKind>)
    ensures
        match (res, sp_binary(op, l@, r@)) {
            (Result::Ok(o), Result::Ok(sv)) => o@ == sv,
            (Result::Err(k1), Result::Err(k2)) => k1 == k2,
            _ => false,
        },
{
    match op {
        Type::Plus => match (l, r) {
            (Object::Literal(Literal::Num(x)), Object::Literal(Literal::Num(y))) => Result::Ok(
                Object::Literal(Literal::Num(x.wrapping_add(y))),
            ),
            (Object::Literal(Literal::Str(x)), Object::Literal(Literal::Str(y))) => Result::Ok(
                Object::Literal(Literal::Str(x.concat(y.as_str()))),
            ),
            other => Result::Err(ErrorKind::BinaryType(other.0.tag(), other.1.tag())),
        },
        Type::Minus => match (l, r) {
            (Object::Literal(Literal::Num(x)), Object::Literal(Literal::Num(y))) => Result::Ok(
                Object::Literal(Literal::Num(x.wrapping_sub(y))),
            ),
            other => Result::Err(ErrorKind::BinaryType(other.0.tag(), other.1.tag())),
        },
        Type::Star => match (l, r) {
            (Object::Literal(Literal::Num(x)), Object::Literal(Literal::Num(y))) => Result::Ok(
                Object::Literal(Literal::Num(x.wrapping_mul(y))),
            ),
            other => Result::Err(ErrorKind::BinaryType(other.0.tag(), other.1.tag())),
        },
        Type::Slash => match (l, r) {
            (Object::Literal(Literal::Num(x)), Object::Literal(Literal::Num(y))) => if y == 0 {
                Result::Err(ErrorKind::DivisionByZero)
            } else {
                Result::Ok(Object::Literal(Literal::Num(div_i64(x, y))))
            },
            other => Result::Err(ErrorKind::BinaryType(other.0.tag(), other.1.tag())),
        },
        Type::EqualEqual => Result::Ok(Object::Literal(Literal::Bool(l.equals(&r)))),
        Type::BangEqual => Result::Ok(Object::Literal(Literal::Bool(!l.equals(&r)))),
        Type::Greater => match (l, r) {
            (Object::Literal(Literal::Num(x)), Object::Literal(Literal::Num(y))) => Result::Ok(
                Object::Literal(Literal::Bool(x > y)),
            ),
            other => Result::Err(ErrorKind::BinaryType(other.0.tag(), other.1.tag())),
        },
        Type::GreaterEqual => match (l, r) {
            (Object::Literal(Literal::Num(x)), Object::Literal(Literal::Num(y))) => Result::Ok(
                Object::Literal(Literal::Bool(x >= y)),
            ),
            other => Result::Err(ErrorKind::BinaryType(other.0.tag(), other.1.tag())),
        },
        Type::Less => match (l, r) {
            (Object::Literal(Literal::Num(x)), Object::Literal(Literal::Num(y))) => Result::Ok(
                Object::Literal(Literal::Bool(x < y)),
            ),
            other => Result::Err(ErrorKind::BinaryType(other.0.tag(), other.1.tag())),
        },
        Type::LessEqual => match (l, r) {
            (Object::Literal(Literal::Num(x)), Object::Literal(Literal::Num(y))) => Result::Ok(
                Object::Literal(Literal::Bool(x <= y)),
            ),
            other => Result::Err(ErrorKind::BinaryType(other.0.tag(), other.1.tag())),
        },
        _ => Result::Err(ErrorKind::BinaryType(l.tag(), r.tag())),
    }
}

} // verus!
