use vstd::prelude::*;

use crate::literal::{LitV, Literal};
use crate::token::{Token, TokenV};

verus! {

/// Ghost model of an expression: the same shape as `Expr`, over ghost
/// token and literal values, so that contracts can speak of whole syntax
/// trees as mathematical values.
pub ghost enum ExprV {
    Literal(LitV),
    Logical { left: Box<ExprV>, operator: TokenV, right: Box<ExprV> },
    Unary { operator: TokenV, expr: Box<ExprV> },
    Binary { left: Box<ExprV>, operator: TokenV, right: Box<ExprV> },
    Grouping(Box<ExprV>),
    Variable { name: TokenV, slot: usize },
    Assign { name: TokenV, value: Box<ExprV>, slot: usize },
    Call { callee: Box<ExprV>, paren: TokenV, arguments: Seq<ExprV> },
    Get { object: Box<ExprV>, name: TokenV },
    SetProp { object: Box<ExprV>, name: TokenV, value: Box<ExprV> },
    This { keyword: TokenV, slot: usize },
    Super { keyword: TokenV, method: TokenV, slot: usize },
}

/// The ghost value of an expression.
pub open spec fn expr_view(e: Expr) -> ExprV
    decreases e, 0nat,
{
    match e {
        Expr::Literal(l) => ExprV::Literal(l@),
        Expr::Logical(d) => ExprV::Logical {
            left: Box::new(expr_view(*d.left)),
            operator: d.operator@,
            right: Box::new(expr_view(*d.right)),
        },
        Expr::Unary(d) => ExprV::Unary {
            operator: d.operator@,
            expr: Box::new(expr_view(*d.expr)),
        },
        Expr::Binary(d) => ExprV::Binary {
            left: Box::new(expr_view(*d.left)),
            operator: d.operator@,
            right: Box::new(expr_view(*d.right)),
        },
        Expr::Grouping(d) => ExprV::Grouping(Box::new(expr_view(*d.expr))),
        Expr::Variable(d) => ExprV::Variable { name: d.name@, slot: d.slot },
        Expr::Assign(d) => ExprV::Assign {
            name: d.name@,
            value: Box::new(expr_view(*d.value)),
            slot: d.slot,
        },
        Expr::Call(d) => ExprV::Call {
            callee: Box::new(expr_view(*d.callee)),
            paren: d.paren@,
            arguments: exprs_view(d.arguments@),
        },
        Expr::Get(d) => ExprV::Get { object: Box::new(expr_view(*d.object)), name: d.name@ },
        Expr::SetProp(d) => ExprV::SetProp {
            object: Box::new(expr_view(*d.object)),
            name: d.name@,
            value: Box::new(expr_view(*d.value)),
        },
        Expr::This(d) => ExprV::This { keyword: d.keyword@, slot: d.slot },
        Expr::Super(d) => ExprV::Super { keyword: d.keyword@, method: d.method@, slot: d.slot },
    }
}

/// The ghost values of a list of expressions.
pub open spec fn exprs_view(es: Seq<Expr>) -> Seq<ExprV>
    decreases es, es.len() + 1,
{
    if es.len() == 0 {
        Seq::empty()
    } else {
        exprs_view(es.drop_last()).push(expr_view(es.last()))
    }
}

/// A logical expression: `and` or `or`, short-circuiting.
#[derive(Debug)]
pub struct LogicalData {
    pub left: Box<Expr>,
    pub operator: Token,
    pub right: Box<Expr>,
}

/// A unary expression: `-` or `!` applied to an operand.
#[derive(Debug)]
pub struct UnaryData {
    pub operator: Token,
    pub expr: Box<Expr>,
}

/// A binary expression: arithmetic, comparison or equality.
#[derive(Debug)]
pub struct BinaryData {
    pub left: Box<Expr>,
    pub operator: Token,
    pub right: Box<Expr>,
}

/// A parenthesized expression.
#[derive(Debug)]
pub struct GroupingData {
    pub expr: Box<Expr>,
}

/// A variable read. The slot is this reference's own index into the
/// resolution table; the resolver treats every occurrence of a name as a
/// distinct reference, so every reference carries a distinct slot.
#[derive(Debug)]
pub struct VariableData {
    pub name: Token,
    pub slot: usize,
}

/// An assignment to a variable. The slot is this reference's index into
/// the resolution table, as for a variable read.
#[derive(Debug)]
pub struct AssignData {
    pub name: Token,
    pub value: Box<Expr>,
    pub slot: usize,
}

/// A call: callee, the closing parenthesis (for error reports), arguments.
#[derive(Debug)]
pub struct CallData {
    pub callee: Box<Expr>,
    pub paren: Token,
    pub arguments: Vec<Expr>,
}

/// A property read on an object.
#[derive(Debug)]
pub struct GetData {
    pub object: Box<Expr>,
    pub name: Token,
}

/// A field write on an object.
#[derive(Debug)]
pub struct SetData {
    pub object: Box<Expr>,
    pub name: Token,
    pub value: Box<Expr>,
}

/// A `this` expression, resolved like a variable through its slot.
#[derive(Debug)]
pub struct ThisData {
    pub keyword: Token,
    pub slot: usize,
}

/// A `super.method` expression, resolved like a variable through its slot.
#[derive(Debug)]
pub struct SuperData {
    pub keyword: Token,
    pub method: Token,
    pub slot: usize,
}

/// An expression of the language. Dispatch is by plain `match`.
#[derive(Debug)]
pub enum Expr {
    /// A literal value: `1`, `"hello"`, `true`, `null`.
    Literal(Literal),
    /// A short-circuiting logical expression: `a and b`, `a or b`.
    Logical(LogicalData),
    /// A unary expression: `-a`, `!a`.
    Unary(UnaryData),
    /// A binary expression: `a + b`, `a != b`, `a <= b`.
    Binary(BinaryData),
    /// A grouping: `(a + b)`.
    Grouping(GroupingData),
    /// A variable read: `x`.
    Variable(VariableData),
    /// An assignment: `x = 1`.
    Assign(AssignData),
    /// A call: `f(a, b)`.
    Call(CallData),
    /// A property read: `point.x`.
    Get(GetData),
    /// A field write: `point.x = 1`.
    SetProp(SetData),
    /// The receiver of the enclosing method: `this`.
    This(ThisData),
    /// A superclass method reference: `super.method`.
    Super(SuperData),
}

} // verus!
