use vstd::prelude::*;

use crate::object::TypeTag;
use crate::token::{Location, Token, TokenV};

verus! {

/// What went wrong during evaluation. Each variant corresponds to one
/// dynamic semantic violation; the offending token stands beside it in the
/// `RuntimeError`.
#[derive(Debug, PartialEq, Eq, Clone, Copy, Structural)]
pub enum ErrorKind {
    /// The operand, of the named kind, does not support the unary
    /// operator.
    UnaryType(TypeTag),
    /// The operands, of the two named kinds in order, do not support the
    /// binary operator.
    BinaryType(TypeTag, TypeTag),
    /// The divisor of a division was zero.
    DivisionByZero,
    /// The variable is not defined in any reachable scope.
    UndefinedVariable,
    /// The callee is neither a function, a native function nor a class.
    NotCallable,
    /// A call supplied the wrong number of arguments: expected, then got.
    WrongArity(usize, usize),
    /// A property was read on a value that is not an instance.
    OnlyInstancesHaveProperties,
    /// A field was written on a value that is not an instance.
    OnlyInstancesHaveFields,
    /// The instance has neither a field nor a method of that name.
    UndefinedProperty,
    /// The superclass expression did not evaluate to a class.
    SuperclassMustBeClass,
    /// A `break` unwound past every enclosing loop.
    StrayBreak,
    /// A `return` unwound past every enclosing function call.
    StrayReturn,
    /// The evaluation budget that stands for the host's call stack ran out.
    Exhausted,
    /// An environment or object handle did not point where it should; this
    /// cannot happen for states built by the interpreter itself.
    Corrupt,
}

/// Ghost model of a runtime error.
pub ghost struct ErrV {
    pub token: TokenV,
    pub kind: ErrorKind,
}

/// A dynamic semantic violation. It aborts the run and is reported to the
/// driver; it is distinct from the control-flow signals, which never escape
/// the evaluator.
#[derive(Debug)]
pub struct RuntimeError {
    /// The token at which the violation was detected.
    pub token: Token,
    /// Which violation it was.
    pub kind: ErrorKind,
}

impl View for RuntimeError {
    type V = ErrV;

    open spec fn view(&self) -> ErrV {
        ErrV { token: self.token@, kind: self.kind }
    }
}

impl RuntimeError {
    /// Creates a new runtime error at the given token.
    pub fn new(token: Token, kind: ErrorKind) -> (r: RuntimeError)
        ensures
            r@ == (ErrV { token: token@, kind }),
    {
        RuntimeError { token, kind }
    }
}

impl Clone for RuntimeError {
    /// Cloning an error preserves its value.
    fn clone(&self) -> (res: RuntimeError)
        ensures
            res@ == self@,
    {
        RuntimeError { token: self.token.clone(), kind: self.kind }
    }
}

/// A statically detectable scoping violation, found by the resolver.
/// Resolution continues past it so that one run surfaces many errors.
#[derive(Debug, PartialEq, Eq, Clone, Copy, Structural)]
pub enum ResolveErrorKind {
    /// The name is already defined in the same scope.
    AlreadyDefined,
    /// A local variable's initializer reads the variable itself.
    ReadInInitializer,
    /// `this` stood outside any class.
    ThisOutsideClass,
    /// `super` stood outside any class.
    SuperOutsideClass,
    /// `super` stood in a class without a superclass.
    SuperWithoutSuperclass,
    /// `return` stood outside any function.
    ReturnOutsideFunction,
    /// `return` carried a value inside an `init` method.
    ReturnValueFromInitializer,
    /// A class named itself as its superclass.
    InheritFromItself,
}

/// Ghost model of a resolve error.
pub ghost struct ResolveErrV {
    pub token: TokenV,
    pub kind: ResolveErrorKind,
}

/// A statically detectable scoping violation, with the offending token.
#[derive(Debug)]
pub struct ResolveError {
    pub token: Token,
    pub kind: ResolveErrorKind,
}

impl View for ResolveError {
    type V = ResolveErrV;

    open spec fn view(&self) -> ResolveErrV {
        ResolveErrV { token: self.token@, kind: self.kind }
    }
}

/// Ghost model of a scan error.
pub ghost struct ScanErrV {
    pub location: Location,
    pub message: Seq<char>,
}

/// A malformed piece of lexical input, found by the scanner. Scanning
/// continues past it, so one pass surfaces many.
#[derive(Debug)]
pub struct ScanError {
    pub location: Location,
    pub message: String,
}

impl View for ScanError {
    type V = ScanErrV;

    open spec fn view(&self) -> ScanErrV {
        ScanErrV { location: self.location, message: self.message@ }
    }
}

/// Ghost model of a parse error.
pub ghost struct ParseErrV {
    pub token: TokenV,
    pub message: Seq<char>,
}

/// A malformed piece of grammar, found by the parser, with the token at
/// which it was noticed. The parser resynchronizes and continues, so one
/// pass surfaces many.
#[derive(Debug)]
pub struct ParseError {
    pub token: Token,
    pub message: String,
}

impl View for ParseError {
    type V = ParseErrV;

    open spec fn view(&self) -> ParseErrV {
        ParseErrV { token: self.token@, message: self.message@ }
    }
}

impl Clone for ParseError {
    /// Cloning an error preserves its value.
    fn clone(&self) -> (res: ParseError)
        ensures
            res@ == self@,
    {
        ParseError { token: self.token.clone(), message: self.message.clone() }
    }
}

} // verus!
