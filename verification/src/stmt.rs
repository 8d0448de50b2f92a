use vstd::prelude::*;

use std::rc::Rc;

use crate::expr::{expr_view, Expr, ExprV};
use crate::token::{Token, TokenV};

verus! {

/// Ghost model of a statement: the same shape as `Stmt`, over ghost
/// values throughout.
pub ghost enum StmtV {
    Expression(ExprV),
    Function { name: TokenV, params: Seq<TokenV>, body: Seq<StmtV> },
    If { condition: ExprV, then_branch: Box<StmtV>, else_branch: Option<Box<StmtV>> },
    Print(ExprV),
    Return { keyword: TokenV, value: Option<ExprV> },
    Break(TokenV),
    Var { name: TokenV, initializer: Option<ExprV> },
    While { condition: ExprV, body: Box<StmtV> },
    Block(Seq<StmtV>),
    Class { name: TokenV, superclass: Option<ExprV>, methods: Seq<StmtV> },
}

/// The ghost value of a statement.
pub open spec fn stmt_view(s: Stmt) -> StmtV
    decreases s, 0nat,
{
    match s {
        Stmt::Expression(d) => StmtV::Expression(expr_view(d.expr)),
        Stmt::Function(d) => StmtV::Function {
            name: d.name@,
            params: d.params@.map_values(|t: Token| t@),
            body: stmts_view(d.body@),
        },
        Stmt::If(d) => StmtV::If {
            condition: expr_view(d.condition),
            then_branch: Box::new(stmt_view(*d.then_branch)),
            else_branch: match d.else_branch {
                Option::Some(e) => Option::Some(Box::new(stmt_view(*e))),
                Option::None => Option::None,
            },
        },
        Stmt::Print(d) => StmtV::Print(expr_view(d.expr)),
        Stmt::Return(d) => StmtV::Return {
            keyword: d.keyword@,
            value: match d.value {
                Option::Some(e) => Option::Some(expr_view(e)),
                Option::None => Option::None,
            },
        },
        Stmt::Break(d) => StmtV::Break(d.keyword@),
        Stmt::Var(d) => StmtV::Var {
            name: d.name@,
            initializer: match d.initializer {
                Option::Some(e) => Option::Some(expr_view(e)),
                Option::None => Option::None,
            },
        },
        Stmt::While(d) => StmtV::While {
            condition: expr_view(d.condition),
            body: Box::new(stmt_view(*d.body)),
        },
        Stmt::Block(d) => StmtV::Block(stmts_view(d.statements@)),
        Stmt::Class(d) => StmtV::Class {
            name: d.name@,
            superclass: match d.superclass {
                Option::Some(e) => Option::Some(expr_view(e)),
                Option::None => Option::None,
            },
            methods: stmts_view(d.methods@),
        },
    }
}

/// The ghost values of a list of statements.
pub open spec fn stmts_view(ss: Seq<Stmt>) -> Seq<StmtV>
    decreases ss, ss.len() + 1,
{
    if ss.len() == 0 {
        Seq::empty()
    } else {
        stmts_view(ss.drop_last()).push(stmt_view(ss.last()))
    }
}

/// An expression evaluated for its side effects.
#[derive(Debug)]
pub struct ExpressionData {
    pub expr: Expr,
}

/// A function declaration. The body is shared, because every closure made
/// from this declaration carries it.
#[derive(Debug)]
pub struct FunctionData {
    /// The function's name.
    pub name: Token,
    /// The function's parameters.
    pub params: Vec<Token>,
    /// The function's body.
    pub body: Rc<Vec<Stmt>>,
}

/// An `if` statement.
#[derive(Debug)]
pub struct IfData {
    /// The condition to check.
    pub condition: Expr,
    /// The statement to execute when the condition is truthy.
    pub then_branch: Box<Stmt>,
    /// The statement to execute otherwise, if any.
    pub else_branch: Option<Box<Stmt>>,
}

/// A `print` statement.
#[derive(Debug)]
pub struct PrintData {
    /// The expression whose value is printed.
    pub expr: Expr,
}

/// A `return` statement.
#[derive(Debug)]
pub struct ReturnData {
    /// The `return` keyword.
    pub keyword: Token,
    /// The value to return, if any; `null` otherwise.
    pub value: Option<Expr>,
}

/// A `break` statement.
#[derive(Debug)]
pub struct BreakData {
    pub keyword: Token,
}

/// A variable declaration.
#[derive(Debug)]
pub struct VarData {
    /// The variable's name.
    pub name: Token,
    /// The variable's initializer; without one the variable is `null`.
    pub initializer: Option<Expr>,
}

/// A `while` statement.
#[derive(Debug)]
pub struct WhileData {
    /// The condition checked before every iteration.
    pub condition: Expr,
    /// The loop body.
    pub body: Box<Stmt>,
}

/// A block of statements in its own scope.
#[derive(Debug)]
pub struct BlockData {
    /// The statements in the block.
    pub statements: Vec<Stmt>,
}

/// A class declaration.
#[derive(Debug)]
pub struct ClassData {
    /// The class's name.
    pub name: Token,
    /// The superclass expression, if any; always a variable reference.
    pub superclass: Option<Expr>,
    /// The class's methods, each a function declaration.
    pub methods: Vec<Stmt>,
}

/// A statement of the language. Dispatch is by plain `match`.
#[derive(Debug)]
pub enum Stmt {
    /// An expression statement.
    Expression(ExpressionData),
    /// A function declaration; also the shape of every method.
    Function(FunctionData),
    /// An `if` statement.
    If(IfData),
    /// A `print` statement.
    Print(PrintData),
    /// A `return` statement.
    Return(ReturnData),
    /// A `break` statement.
    Break(BreakData),
    /// A variable declaration.
    Var(VarData),
    /// A `while` statement.
    While(WhileData),
    /// A block in its own scope.
    Block(BlockData),
    /// A class declaration.
    Class(ClassData),
}

} // verus!
