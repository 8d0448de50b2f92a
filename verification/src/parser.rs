use vstd::prelude::*;

use crate::error::{ParseErrV, ParseError};
use crate::expr::{expr_view, Expr, ExprV};
use crate::literal::{LitV, Literal};
use crate::stmt::{stmt_view, stmts_view, Stmt, StmtV};
use crate::token::{Location, Token, TokenV, Type};

verus! {

/// Ghost model of the parser: the token stream, the cursor into it, the
/// next free resolution slot, and the errors found so far.
pub ghost struct ParsV {
    pub tokens: Seq<TokenV>,
    pub current: int,
    pub slots: int,
    pub errors: Seq<ParseErrV>,
}

/// The token reported when the cursor stands nowhere meaningful.
pub open spec fn sp_no_token() -> TokenV {
    TokenV {
        kind: Type::EOF,
        lexeme: Seq::empty(),
        literal: Option::None,
        location: Location { line: 0, column: 0 },
    }
}

/// Whether the cursor stands at the end of the stream.
pub open spec fn sp_at_end(st: ParsV) -> bool {
    st.current >= st.tokens.len() || st.tokens[st.current].kind == Type::EOF
}

/// The token under the cursor.
pub open spec fn sp_peek(st: ParsV) -> TokenV {
    if 0 <= st.current < st.tokens.len() {
        st.tokens[st.current]
    } else {
        sp_no_token()
    }
}

/// The token just consumed.
pub open spec fn sp_prev(st: ParsV) -> TokenV {
    if 1 <= st.current <= st.tokens.len() {
        st.tokens[st.current - 1]
    } else {
        sp_no_token()
    }
}

/// Whether the token under the cursor has the given kind; the end of the
/// stream has none.
pub open spec fn sp_check(st: ParsV, kind: Type) -> bool {
    !sp_at_end(st) && sp_peek(st).kind == kind
}

/// The cursor moved past one token, unless the stream is spent.
pub open spec fn sp_adv(st: ParsV) -> ParsV {
    if sp_at_end(st) {
        st
    } else {
        ParsV { current: st.current + 1, ..st }
    }
}

/// A fresh resolution slot.
pub open spec fn sp_next_slot(st: ParsV) -> (ParsV, usize) {
    if st.slots < usize::MAX {
        (ParsV { slots: st.slots + 1, ..st }, st.slots as usize)
    } else {
        (st, st.slots as usize)
    }
}

/// A recorded parse error.
pub open spec fn sp_perr(st: ParsV, token: TokenV, message: Seq<char>) -> ParsV {
    ParsV { errors: st.errors.push(ParseErrV { token, message }), ..st }
}

/// The token under the cursor, consumed if it has the wanted kind;
/// otherwise the given error, at the unconsumed token.
pub open spec fn sp_consume(st: ParsV, kind: Type, message: Seq<char>) -> (
    ParsV,
    Result<TokenV, ParseErrV>,
) {
    if sp_check(st, kind) {
        (sp_adv(st), Result::Ok(sp_peek(st)))
    } else {
        (st, Result::Err(ParseErrV { token: sp_peek(st), message }))
    }
}

/// The error that stands for the parsing budget running out; the budget
/// grows with the source, so only a program nested deeper than the budget
/// covers is refused this way.
pub open spec fn sp_too_deep(st: ParsV) -> ParseErrV {
    ParseErrV { token: sp_peek(st), message: "Too deeply nested"@ }
}

/// The parsing budget for a stream: generous enough for every nesting a
/// stream of that length can spell.
pub open spec fn sp_parse_fuel(len: nat) -> nat {
    if len < 0x0100000000000000 {
        64 * len + 64
    } else {
        0xFFFFFFFFFFFFFFFF
    }
}

/// A whole program: declarations until the stream is spent; a declaration
/// that fails parsing is dropped after resynchronization.
pub open spec fn sp_parse(st: ParsV, fuel: nat) -> (ParsV, Seq<StmtV>)
    decreases fuel,
{
    if fuel == 0 || sp_at_end(st) {
        (st, Seq::empty())
    } else {
        let (st1, d) = sp_declaration(st, (fuel - 1) as nat);
        let (st2, rest) = sp_parse(st1, (fuel - 1) as nat);
        match d {
            Option::Some(stmt) => (st2, seq![stmt] + rest),
            Option::None => (st2, rest),
        }
    }
}

/// One declaration: a class, function or variable declaration, or a
/// statement. A parse error is recorded, the parser resynchronizes at the
/// next statement boundary, and nothing is produced.
pub open spec fn sp_declaration(st: ParsV, fuel: nat) -> (ParsV, Option<StmtV>)
    decreases fuel,
{
    if fuel == 0 {
        (sp_perr(st, sp_too_deep(st).token, sp_too_deep(st).message), Option::None)
    } else {
        let (st1, r) = if sp_check(st, Type::Class) {
            sp_class_declaration(sp_adv(st), (fuel - 1) as nat)
        } else if sp_check(st, Type::Fun) {
            sp_function(sp_adv(st), true, (fuel - 1) as nat)
        } else if sp_check(st, Type::Var) {
            sp_var_declaration(sp_adv(st), (fuel - 1) as nat)
        } else {
            sp_statement(st, (fuel - 1) as nat)
        };
        match r {
            Result::Ok(stmt) => (st1, Option::Some(stmt)),
            Result::Err(err) => (
                sp_synchronize(sp_adv(sp_perr(st1, err.token, err.message)), st1.tokens.len() as nat),
                Option::None,
            ),
        }
    }
}

/// Resynchronization after a parse error: tokens are passed over until a
/// statement boundary — just past a semicolon, or just before a keyword
/// that starts a declaration.
pub open spec fn sp_synchronize(st: ParsV, fuel: nat) -> ParsV
    decreases fuel,
{
    if fuel == 0 || sp_at_end(st) {
        st
    } else if sp_prev(st).kind == Type::Semicolon {
        st
    } else if sp_peek(st).kind == Type::Class || sp_peek(st).kind == Type::Fun || sp_peek(st).kind
        == Type::Var || sp_peek(st).kind == Type::For || sp_peek(st).kind == Type::If || sp_peek(
        st,
    ).kind == Type::While || sp_peek(st).kind == Type::Print || sp_peek(st).kind == Type::Return {
        st
    } else {
        sp_synchronize(sp_adv(st), (fuel - 1) as nat)
    }
}

/// A class declaration: name, optional superclass reference, brace, the
/// methods, brace.
pub open spec fn sp_class_declaration(st: ParsV, fuel: nat) -> (ParsV, Result<StmtV, ParseErrV>)
    decreases fuel,
{
    if fuel == 0 {
        (st, Result::Err(sp_too_deep(st)))
    } else {
        let (st1, r1) = sp_consume(st, Type::Identifier, "Expect class name"@);
        match r1 {
            Result::Err(err) => (st1, Result::Err(err)),
            Result::Ok(name) => {
                let (st2, sup) = if sp_check(st1, Type::Less) {
                    let (sta, r2) = sp_consume(
                        sp_adv(st1),
                        Type::Identifier,
                        "Expect superclass name"@,
                    );
                    match r2 {
                        Result::Err(err) => (sta, Result::Err(err)),
                        Result::Ok(sup_name) => {
                            let (stb, slot) = sp_next_slot(sta);
                            (
                                stb,
                                Result::Ok(
                                    Option::Some(ExprV::Variable { name: sup_name, slot }),
                                ),
                            )
                        },
                    }
                } else {
                    (st1, Result::Ok(Option::None))
                };
                match sup {
                    Result::Err(err) => (st2, Result::Err(err)),
                    Result::Ok(superclass) => {
                        let (st3, r3) = sp_consume(
                            st2,
                            Type::LeftBrace,
                            "Expect '{' before class body"@,
                        );
                        match r3 {
                            Result::Err(err) => (st3, Result::Err(err)),
                            Result::Ok(_) => {
                                let (st4, r4) = sp_methods(st3, (fuel - 1) as nat);
                                match r4 {
                                    Result::Err(err) => (st4, Result::Err(err)),
                                    Result::Ok(methods) => {
                                        let (st5, r5) = sp_consume(
                                            st4,
                                            Type::RightBrace,
                                            "Expect '}' after class body"@,
                                        );
                                        match r5 {
                                            Result::Err(err) => (st5, Result::Err(err)),
                                            Result::Ok(_) => (
                                                st5,
                                                Result::Ok(
                                                    StmtV::Class { name, superclass, methods },
                                                ),
                                            ),
                                        }
                                    },
                                }
                            },
                        }
                    },
                }
            },
        }
    }
}

/// The methods of a class body, up to its closing brace.
pub open spec fn sp_methods(st: ParsV, fuel: nat) -> (ParsV, Result<Seq<StmtV>, ParseErrV>)
    decreases fuel,
{
    if fuel == 0 {
        (st, Result::Err(sp_too_deep(st)))
    } else if !sp_check(st, Type::RightBrace) && !sp_at_end(st) {
        let (st1, r1) = sp_function(st, false, (fuel - 1) as nat);
        match r1 {
            Result::Err(err) => (st1, Result::Err(err)),
            Result::Ok(m) => {
                let (st2, r2) = sp_methods(st1, (fuel - 1) as nat);
                match r2 {
                    Result::Err(err) => (st2, Result::Err(err)),
                    Result::Ok(rest) => (st2, Result::Ok(seq![m] + rest)),
                }
            },
        }
    } else {
        (st, Result::Ok(Seq::empty()))
    }
}

/// A variable declaration after its `var`: name, optional initializer,
/// semicolon.
pub open spec fn sp_var_declaration(st: ParsV, fuel: nat) -> (ParsV, Result<StmtV, ParseErrV>)
    decreases fuel,
{
    if fuel == 0 {
        (st, Result::Err(sp_too_deep(st)))
    } else {
        let (st1, r1) = sp_consume(st, Type::Identifier, "Expect variable name"@);
        match r1 {
            Result::Err(err) => (st1, Result::Err(err)),
            Result::Ok(name) => {
                let (st2, init) = if sp_check(st1, Type::Equal) {
                    let (sta, r2) = sp_expression(sp_adv(st1), (fuel - 1) as nat);
                    match r2 {
                        Result::Err(err) => (sta, Result::Err(err)),
                        Result::Ok(e) => (sta, Result::Ok(Option::Some(e))),
                    }
                } else {
                    (st1, Result::Ok(Option::None))
                };
                match init {
                    Result::Err(err) => (st2, Result::Err(err)),
                    Result::Ok(initializer) => {
                        let (st3, r3) = sp_consume(
                            st2,
                            Type::Semicolon,
                            "Expect ';' after variable declaration"@,
                        );
                        match r3 {
                            Result::Err(err) => (st3, Result::Err(err)),
                            Result::Ok(_) => (st3, Result::Ok(StmtV::Var { name, initializer })),
                        }
                    },
                }
            },
        }
    }
}

/// One statement of any kind.
pub open spec fn sp_statement(st: ParsV, fuel: nat) -> (ParsV, Result<StmtV, ParseErrV>)
    decreases fuel,
{
    if fuel == 0 {
        (st, Result::Err(sp_too_deep(st)))
    } else if sp_check(st, Type::For) {
        sp_for_statement(sp_adv(st), (fuel - 1) as nat)
    } else if sp_check(st, Type::If) {
        sp_if_statement(sp_adv(st), (fuel - 1) as nat)
    } else if sp_check(st, Type::Print) {
        sp_print_statement(sp_adv(st), (fuel - 1) as nat)
    } else if sp_check(st, Type::Return) {
        sp_return_statement(sp_adv(st), (fuel - 1) as nat)
    } else if sp_check(st, Type::Break) {
        let keyword = sp_peek(st);
        let (st1, r1) = sp_consume(sp_adv(st), Type::Semicolon, "Expect ';' after 'break'"@);
        match r1 {
            Result::Err(err) => (st1, Result::Err(err)),
            Result::Ok(_) => (st1, Result::Ok(StmtV::Break(keyword))),
        }
    } else if sp_check(st, Type::While) {
        sp_while_statement(sp_adv(st), (fuel - 1) as nat)
    } else if sp_check(st, Type::LeftBrace) {
        let (st1, r1) = sp_block(sp_adv(st), (fuel - 1) as nat);
        match r1 {
            Result::Err(err) => (st1, Result::Err(err)),
            Result::Ok(stmts) => (st1, Result::Ok(StmtV::Block(stmts))),
        }
    } else {
        sp_expression_statement(st, (fuel - 1) as nat)
    }
}

/// A `for` statement after its keyword, desugared: the initializer runs
/// once before a `while` whose condition defaults to true and whose body
/// ends with the increment.
pub open spec fn sp_for_statement(st: ParsV, fuel: nat) -> (ParsV, Result<StmtV, ParseErrV>)
    decreases fuel,
{
    if fuel == 0 {
        (st, Result::Err(sp_too_deep(st)))
    } else {
        let (st1, r1) = sp_consume(st, Type::LeftParen, "Expect '(' after 'for'"@);
        match r1 {
            Result::Err(err) => (st1, Result::Err(err)),
            Result::Ok(_) => {
                let (st2, init) = if sp_check(st1, Type::Semicolon) {
                    (sp_adv(st1), Result::Ok(Option::None))
                } else if sp_check(st1, Type::Var) {
                    let (sta, r) = sp_var_declaration(sp_adv(st1), (fuel - 1) as nat);
                    match r {
                        Result::Err(err) => (sta, Result::Err(err)),
                        Result::Ok(s) => (sta, Result::Ok(Option::Some(s))),
                    }
                } else {
                    let (sta, r) = sp_expression_statement(st1, (fuel - 1) as nat);
                    match r {
                        Result::Err(err) => (sta, Result::Err(err)),
                        Result::Ok(s) => (sta, Result::Ok(Option::Some(s))),
                    }
                };
                match init {
                    Result::Err(err) => (st2, Result::Err(err)),
                    Result::Ok(initializer) => {
                        let (st3, cond) = if !sp_check(st2, Type::Semicolon) {
                            let (sta, r) = sp_expression(st2, (fuel - 1) as nat);
                            match r {
                                Result::Err(err) => (sta, Result::Err(err)),
                                Result::Ok(e) => (sta, Result::Ok(Option::Some(e))),
                            }
                        } else {
                            (st2, Result::Ok(Option::None))
                        };
                        match cond {
                            Result::Err(err) => (st3, Result::Err(err)),
                            Result::Ok(condition) => {
                                let (st4, r4) = sp_consume(
                                    st3,
                                    Type::Semicolon,
                                    "Expect ';' after loop condition"@,
                                );
                                match r4 {
                                    Result::Err(err) => (st4, Result::Err(err)),
                                    Result::Ok(_) => {
                                        let (st5, inc) = if !sp_check(st4, Type::RightParen) {
                                            let (sta, r) = sp_expression(st4, (fuel - 1) as nat);
                                            match r {
                                                Result::Err(err) => (sta, Result::Err(err)),
                                                Result::Ok(e) => (
                                                    sta,
                                                    Result::Ok(Option::Some(e)),
                                                ),
                                            }
                                        } else {
                                            (st4, Result::Ok(Option::None))
                                        };
                                        match inc {
                                            Result::Err(err) => (st5, Result::Err(err)),
                                            Result::Ok(increment) => {
                                                let (st6, r6) = sp_consume(
                                                    st5,
                                                    Type::RightParen,
                                                    "Expect ')' after loop clauses"@,
                                                );
                                                match r6 {
                                                    Result::Err(err) => (st6, Result::Err(err)),
                                                    Result::Ok(_) => {
                                                        let (st7, r7) = sp_statement(
                                                            st6,
                                                            (fuel - 1) as nat,
                                                        );
                                                        match r7 {
                                                            Result::Err(err) => (
                                                                st7,
                                                                Result::Err(err),
                                                            ),
                                                            Result::Ok(body) => (
                                                                st7,
                                                                Result::Ok(
                                                                    sp_desugar_for(
                                                                        initializer,
                                                                        condition,
                                                                        increment,
                                                                        body,
                                                                    ),
                                                                ),
                                                            ),
                                                        }
                                                    },
                                                }
                                            },
                                        }
                                    },
                                }
                            },
                        }
                    },
                }
            },
        }
    }
}

/// The desugaring of a `for` loop into blocks and a `while`.
pub open spec fn sp_desugar_for(
    initializer: Option<StmtV>,
    condition: Option<ExprV>,
    increment: Option<ExprV>,
    body: StmtV,
) -> StmtV {
    let body1 = match increment {
        Option::Some(inc) => StmtV::Block(seq![body, StmtV::Expression(inc)]),
        Option::None => body,
    };
    let body2 = StmtV::While {
        condition: match condition {
            Option::Some(c) => c,
            Option::None => ExprV::Literal(LitV::Bool(true)),
        },
        body: Box::new(body1),
    };
    match initializer {
        Option::Some(init) => StmtV::Block(seq![init, body2]),
        Option::None => body2,
    }
}

/// An `if` statement after its keyword.
pub open spec fn sp_if_statement(st: ParsV, fuel: nat) -> (ParsV, Result<StmtV, ParseErrV>)
    decreases fuel,
{
    if fuel == 0 {
        (st, Result::Err(sp_too_deep(st)))
    } else {
        let (st1, r1) = sp_consume(st, Type::LeftParen, "Expect '(' after 'if'"@);
        match r1 {
            Result::Err(err) => (st1, Result::Err(err)),
            Result::Ok(_) => {
                let (st2, r2) = sp_expression(st1, (fuel - 1) as nat);
                match r2 {
                    Result::Err(err) => (st2, Result::Err(err)),
                    Result::Ok(condition) => {
                        let (st3, r3) = sp_consume(
                            st2,
                            Type::RightParen,
                            "Expect ')' after if condition"@,
                        );
                        match r3 {
                            Result::Err(err) => (st3, Result::Err(err)),
                            Result::Ok(_) => {
                                let (st4, r4) = sp_statement(st3, (fuel - 1) as nat);
                                match r4 {
                                    Result::Err(err) => (st4, Result::Err(err)),
                                    Result::Ok(then_branch) => {
                                        if sp_check(st4, Type::Else) {
                                            let (st5, r5) = sp_statement(
                                                sp_adv(st4),
                                                (fuel - 1) as nat,
                                            );
                                            match r5 {
                                                Result::Err(err) => (st5, Result::Err(err)),
                                                Result::Ok(els) => (
                                                    st5,
                                                    Result::Ok(
                                                        StmtV::If {
                                                            condition,
                                                            then_branch: Box::new(then_branch),
                                                            else_branch: Option::Some(
                                                                Box::new(els),
                                                            ),
                                                        },
                                                    ),
                                                ),
                                            }
                                        } else {
                                            (
                                                st4,
                                                Result::Ok(
                                                    StmtV::If {
                                                        condition,
                                                        then_branch: Box::new(then_branch),
                                                        else_branch: Option::None,
                                                    },
                                                ),
                                            )
                                        }
                                    },
                                }
                            },
                        }
                    },
                }
            },
        }
    }
}

/// A `print` statement after its keyword.
pub open spec fn sp_print_statement(st: ParsV, fuel: nat) -> (ParsV, Result<StmtV, ParseErrV>)
    decreases fuel,
{
    if fuel == 0 {
        (st, Result::Err(sp_too_deep(st)))
    } else {
        let (st1, r1) = sp_expression(st, (fuel - 1) as nat);
        match r1 {
            Result::Err(err) => (st1, Result::Err(err)),
            Result::Ok(e) => {
                let (st2, r2) = sp_consume(st1, Type::Semicolon, "Expect ';' after value"@);
                match r2 {
                    Result::Err(err) => (st2, Result::Err(err)),
                    Result::Ok(_) => (st2, Result::Ok(StmtV::Print(e))),
                }
            },
        }
    }
}

/// A `return` statement after its keyword, with an optional value.
pub open spec fn sp_return_statement(st: ParsV, fuel: nat) -> (ParsV, Result<StmtV, ParseErrV>)
    decreases fuel,
{
    if fuel == 0 {
        (st, Result::Err(sp_too_deep(st)))
    } else {
        let keyword = sp_prev(st);
        let (st1, value) = if !sp_check(st, Type::Semicolon) {
            let (sta, r) = sp_expression(st, (fuel - 1) as nat);
            match r {
                Result::Err(err) => (sta, Result::Err(err)),
                Result::Ok(e) => (sta, Result::Ok(Option::Some(e))),
            }
        } else {
            (st, Result::Ok(Option::None))
        };
        match value {
            Result::Err(err) => (st1, Result::Err(err)),
            Result::Ok(v) => {
                let (st2, r2) = sp_consume(st1, Type::Semicolon, "Expect ';' after return value"@);
                match r2 {
                    Result::Err(err) => (st2, Result::Err(err)),
                    Result::Ok(_) => (st2, Result::Ok(StmtV::Return { keyword, value: v })),
                }
            },
        }
    }
}

/// A `while` statement after its keyword.
pub open spec fn sp_while_statement(st: ParsV, fuel: nat) -> (ParsV, Result<StmtV, ParseErrV>)
    decreases fuel,
{
    if fuel == 0 {
        (st, Result::Err(sp_too_deep(st)))
    } else {
        let (st1, r1) = sp_consume(st, Type::LeftParen, "Expect '(' after while."@);
        match r1 {
            Result::Err(err) => (st1, Result::Err(err)),
            Result::Ok(_) => {
                let (st2, r2) = sp_expression(st1, (fuel - 1) as nat);
                match r2 {
                    Result::Err(err) => (st2, Result::Err(err)),
                    Result::Ok(condition) => {
                        let (st3, r3) = sp_consume(
                            st2,
                            Type::RightParen,
                            "Expect ')' after condition."@,
                        );
                        match r3 {
                            Result::Err(err) => (st3, Result::Err(err)),
                            Result::Ok(_) => {
                                let (st4, r4) = sp_statement(st3, (fuel - 1) as nat);
                                match r4 {
                                    Result::Err(err) => (st4, Result::Err(err)),
                                    Result::Ok(body) => (
                                        st4,
                                        Result::Ok(
                                            StmtV::While { condition, body: Box::new(body) },
                                        ),
                                    ),
                                }
                            },
                        }
                    },
                }
            },
        }
    }
}

/// An expression statement: an expression, then its semicolon.
pub open spec fn sp_expression_statement(st: ParsV, fuel: nat) -> (ParsV, Result<StmtV, ParseErrV>)
    decreases fuel,
{
    if fuel == 0 {
        (st, Result::Err(sp_too_deep(st)))
    } else {
        let (st1, r1) = sp_expression(st, (fuel - 1) as nat);
        match r1 {
            Result::Err(err) => (st1, Result::Err(err)),
            Result::Ok(e) => {
                let (st2, r2) = sp_consume(st1, Type::Semicolon, "Expect ';' after expression"@);
                match r2 {
                    Result::Err(err) => (st2, Result::Err(err)),
                    Result::Ok(_) => (st2, Result::Ok(StmtV::Expression(e))),
                }
            },
        }
    }
}

/// A function or method declaration after any introducing keyword: name,
/// parameter list, body block. `top` tells a function from a method, for
/// the error wording.
pub open spec fn sp_function(st: ParsV, top: bool, fuel: nat) -> (ParsV, Result<StmtV, ParseErrV>)
    decreases fuel,
{
    if fuel == 0 {
        (st, Result::Err(sp_too_deep(st)))
    } else {
        let name_msg = if top {
            "Expect function name"@
        } else {
            "Expect method name"@
        };
        let paren_msg = if top {
            "Expect '(' after function name"@
        } else {
            "Expect '(' after method name"@
        };
        let brace_msg = if top {
            "Expect '{' before function body"@
        } else {
            "Expect '{' before method body"@
        };
        let (st1, r1) = sp_consume(st, Type::Identifier, name_msg);
        match r1 {
            Result::Err(err) => (st1, Result::Err(err)),
            Result::Ok(name) => {
                let (st2, r2) = sp_consume(st1, Type::LeftParen, paren_msg);
                match r2 {
                    Result::Err(err) => (st2, Result::Err(err)),
                    Result::Ok(_) => {
                        let (st3, params) = if !sp_check(st2, Type::RightParen) {
                            sp_params(st2, Seq::empty(), (fuel - 1) as nat)
                        } else {
                            (st2, Result::Ok(Seq::empty()))
                        };
                        match params {
                            Result::Err(err) => (st3, Result::Err(err)),
                            Result::Ok(ps) => {
                                let (st4, r4) = sp_consume(
                                    st3,
                                    Type::RightParen,
                                    "Expect ')' after parameters"@,
                                );
                                match r4 {
                                    Result::Err(err) => (st4, Result::Err(err)),
                                    Result::Ok(_) => {
                                        let (st5, r5) = sp_consume(st4, Type::LeftBrace, brace_msg);
                                        match r5 {
                                            Result::Err(err) => (st5, Result::Err(err)),
                                            Result::Ok(_) => {
                                                let (st6, r6) = sp_block(st5, (fuel - 1) as nat);
                                                match r6 {
                                                    Result::Err(err) => (st6, Result::Err(err)),
                                                    Result::Ok(body) => (
                                                        st6,
                                                        Result::Ok(
                                                            StmtV::Function {
                                                                name,
                                                                params: ps,
                                                                body,
                                                            },
                                                        ),
                                                    ),
                                                }
                                            },
                                        }
                                    },
                                }
                            },
                        }
                    },
                }
            },
        }
    }
}

/// A parameter list of at least one name; more than 255 parameters are
/// refused.
pub open spec fn sp_params(st: ParsV, acc: Seq<TokenV>, fuel: nat) -> (
    ParsV,
    Result<Seq<TokenV>, ParseErrV>,
)
    decreases fuel,
{
    if fuel == 0 {
        (st, Result::Err(sp_too_deep(st)))
    } else if acc.len() >= 255 {
        (
            st,
            Result::Err(
                ParseErrV {
                    token: sp_peek(st),
                    message: "Cannot have more than 255 parameters"@,
                },
            ),
        )
    } else {
        let (st1, r1) = sp_consume(st, Type::Identifier, "Expect parameter name"@);
        match r1 {
            Result::Err(err) => (st1, Result::Err(err)),
            Result::Ok(p) => {
                if sp_check(st1, Type::Comma) {
                    sp_params(sp_adv(st1), acc.push(p), (fuel - 1) as nat)
                } else {
                    (st1, Result::Ok(acc.push(p)))
                }
            },
        }
    }
}

/// The statements of a block, up to its closing brace; a statement that
/// fails parsing is dropped after resynchronization.
pub open spec fn sp_block(st: ParsV, fuel: nat) -> (ParsV, Result<Seq<StmtV>, ParseErrV>)
    decreases fuel,
{
    if fuel == 0 {
        (st, Result::Err(sp_too_deep(st)))
    } else if !sp_check(st, Type::RightBrace) && !sp_at_end(st) {
        let (st1, d) = sp_declaration(st, (fuel - 1) as nat);
        let (st2, rest) = sp_block(st1, (fuel - 1) as nat);
        match rest {
            Result::Err(err) => (st2, Result::Err(err)),
            Result::Ok(stmts) => match d {
                Option::Some(stmt) => (st2, Result::Ok(seq![stmt] + stmts)),
                Option::None => (st2, Result::Ok(stmts)),
            },
        }
    } else {
        let (st1, r1) = sp_consume(st, Type::RightBrace, "Expect '}' after block"@);
        match r1 {
            Result::Err(err) => (st1, Result::Err(err)),
            Result::Ok(_) => (st1, Result::Ok(Seq::empty())),
        }
    }
}

/// An expression.
pub open spec fn sp_expression(st: ParsV, fuel: nat) -> (ParsV, Result<ExprV, ParseErrV>)
    decreases fuel,
{
    if fuel == 0 {
        (st, Result::Err(sp_too_deep(st)))
    } else {
        sp_assignment(st, (fuel - 1) as nat)
    }
}

/// An assignment, or anything of higher precedence. An assignment target
/// that is neither a variable nor a property is an error the parser
/// records and reads past, keeping the assigned value.
pub open spec fn sp_assignment(st: ParsV, fuel: nat) -> (ParsV, Result<ExprV, ParseErrV>)
    decreases fuel,
{
    if fuel == 0 {
        (st, Result::Err(sp_too_deep(st)))
    } else {
        let (st1, r1) = sp_or(st, (fuel - 1) as nat);
        match r1 {
            Result::Err(err) => (st1, Result::Err(err)),
            Result::Ok(e) => {
                if sp_check(st1, Type::Equal) {
                    let equals = sp_peek(st1);
                    let (st2, r2) = sp_assignment(sp_adv(st1), (fuel - 1) as nat);
                    match r2 {
                        Result::Err(err) => (st2, Result::Err(err)),
                        Result::Ok(value) => match e {
                            ExprV::Variable { name, slot: _ } => {
                                let (st3, slot) = sp_next_slot(st2);
                                (
                                    st3,
                                    Result::Ok(
                                        ExprV::Assign { name, value: Box::new(value), slot },
                                    ),
                                )
                            },
                            ExprV::Get { object, name } => (
                                st2,
                                Result::Ok(
                                    ExprV::SetProp { object, name, value: Box::new(value) },
                                ),
                            ),
                            _ => (
                                sp_perr(st2, equals, "Invalid assignment target"@),
                                Result::Ok(value),
                            ),
                        },
                    }
                } else {
                    (st1, Result::Ok(e))
                }
            },
        }
    }
}

/// One rung of the precedence ladder of binary and logical operators,
/// from loosest to tightest.
#[derive(Debug, PartialEq, Eq, Clone, Copy, Structural)]
pub enum Level {
    LOr,
    LAnd,
    LEquality,
    LComparison,
    LTerm,
    LFactor,
}

/// Whether a token kind is an operator of the given rung.
pub open spec fn sp_level_matches(level: Level, k: Type) -> bool {
    match level {
        Level::LOr => k == Type::Or,
        Level::LAnd => k == Type::And,
        Level::LEquality => k == Type::BangEqual || k == Type::EqualEqual,
        Level::LComparison => k == Type::Greater || k == Type::GreaterEqual || k == Type::Less
            || k == Type::LessEqual,
        Level::LTerm => k == Type::Minus || k == Type::Plus,
        Level::LFactor => k == Type::Slash || k == Type::Star,
    }
}

/// Whether a rung's operators join their operands as short-circuiting
/// logical expressions rather than binary ones.
pub open spec fn sp_level_logical(level: Level) -> bool {
    level == Level::LOr || level == Level::LAnd
}

/// A left-associative run of one rung's operators over the rung below:
/// `acc` is what has been parsed so far.
pub open spec fn sp_binary_rest(st: ParsV, acc: ExprV, level: Level, fuel: nat) -> (
    ParsV,
    Result<ExprV, ParseErrV>,
)
    decreases fuel,
{
    if fuel == 0 {
        (st, Result::Err(sp_too_deep(st)))
    } else if !sp_at_end(st) && sp_level_matches(level, sp_peek(st).kind) {
        let operator = sp_peek(st);
        let (st1, r1) = sp_level_below(sp_adv(st), level, (fuel - 1) as nat);
        match r1 {
            Result::Err(err) => (st1, Result::Err(err)),
            Result::Ok(right) => {
                let joined = if sp_level_logical(level) {
                    ExprV::Logical { left: Box::new(acc), operator, right: Box::new(right) }
                } else {
                    ExprV::Binary { left: Box::new(acc), operator, right: Box::new(right) }
                };
                sp_binary_rest(st1, joined, level, (fuel - 1) as nat)
            },
        }
    } else {
        (st, Result::Ok(acc))
    }
}

/// The rung below a given rung.
pub open spec fn sp_level_below(st: ParsV, level: Level, fuel: nat) -> (
    ParsV,
    Result<ExprV, ParseErrV>,
)
    decreases fuel,
{
    if fuel == 0 {
        (st, Result::Err(sp_too_deep(st)))
    } else {
        match level {
            Level::LOr => sp_ladder(st, Level::LAnd, (fuel - 1) as nat),
            Level::LAnd => sp_ladder(st, Level::LEquality, (fuel - 1) as nat),
            Level::LEquality => sp_ladder(st, Level::LComparison, (fuel - 1) as nat),
            Level::LComparison => sp_ladder(st, Level::LTerm, (fuel - 1) as nat),
            Level::LTerm => sp_ladder(st, Level::LFactor, (fuel - 1) as nat),
            Level::LFactor => sp_unary(st, (fuel - 1) as nat),
        }
    }
}

/// One rung: the rung below, then a run of this rung's operators.
pub open spec fn sp_ladder(st: ParsV, level: Level, fuel: nat) -> (ParsV, Result<ExprV, ParseErrV>)
    decreases fuel,
{
    if fuel == 0 {
        (st, Result::Err(sp_too_deep(st)))
    } else {
        let (st1, r1) = sp_level_below(st, level, (fuel - 1) as nat);
        match r1 {
            Result::Err(err) => (st1, Result::Err(err)),
            Result::Ok(e) => sp_binary_rest(st1, e, level, (fuel - 1) as nat),
        }
    }
}

/// The loosest rung of the ladder.
pub open spec fn sp_or(st: ParsV, fuel: nat) -> (ParsV, Result<ExprV, ParseErrV>)
    decreases fuel,
{
    if fuel == 0 {
        (st, Result::Err(sp_too_deep(st)))
    } else {
        sp_ladder(st, Level::LOr, (fuel - 1) as nat)
    }
}

/// A unary expression: `!` or `-` over another unary expression, or a
/// call.
pub open spec fn sp_unary(st: ParsV, fuel: nat) -> (ParsV, Result<ExprV, ParseErrV>)
    decreases fuel,
{
    if fuel == 0 {
        (st, Result::Err(sp_too_deep(st)))
    } else if sp_check(st, Type::Bang) || sp_check(st, Type::Minus) {
        let operator = sp_peek(st);
        let (st1, r1) = sp_unary(sp_adv(st), (fuel - 1) as nat);
        match r1 {
            Result::Err(err) => (st1, Result::Err(err)),
            Result::Ok(e) => (st1, Result::Ok(ExprV::Unary { operator, expr: Box::new(e) })),
        }
    } else {
        sp_call(st, (fuel - 1) as nat)
    }
}

/// A call expression: a primary followed by any run of argument lists and
/// property reads.
pub open spec fn sp_call(st: ParsV, fuel: nat) -> (ParsV, Result<ExprV, ParseErrV>)
    decreases fuel,
{
    if fuel == 0 {
        (st, Result::Err(sp_too_deep(st)))
    } else {
        let (st1, r1) = sp_primary(st, (fuel - 1) as nat);
        match r1 {
            Result::Err(err) => (st1, Result::Err(err)),
            Result::Ok(e) => sp_postfix(st1, e, (fuel - 1) as nat),
        }
    }
}

/// The postfix part of a call expression.
pub open spec fn sp_postfix(st: ParsV, acc: ExprV, fuel: nat) -> (ParsV, Result<ExprV, ParseErrV>)
    decreases fuel,
{
    if fuel == 0 {
        (st, Result::Err(sp_too_deep(st)))
    } else if sp_check(st, Type::LeftParen) {
        let (st1, r1) = sp_finish_call(sp_adv(st), acc, (fuel - 1) as nat);
        match r1 {
            Result::Err(err) => (st1, Result::Err(err)),
            Result::Ok(e) => sp_postfix(st1, e, (fuel - 1) as nat),
        }
    } else if sp_check(st, Type::Dot) {
        let (st1, r1) = sp_consume(sp_adv(st), Type::Identifier, "Expected property name after '.'"@);
        match r1 {
            Result::Err(err) => (st1, Result::Err(err)),
            Result::Ok(name) => sp_postfix(
                st1,
                ExprV::Get { object: Box::new(acc), name },
                (fuel - 1) as nat,
            ),
        }
    } else {
        (st, Result::Ok(acc))
    }
}

/// The argument list of a call, after its opening parenthesis. An
/// argument past the 255th is an error the parser records while reading
/// on.
pub open spec fn sp_finish_call(st: ParsV, callee: ExprV, fuel: nat) -> (
    ParsV,
    Result<ExprV, ParseErrV>,
)
    decreases fuel,
{
    if fuel == 0 {
        (st, Result::Err(sp_too_deep(st)))
    } else {
        let (st1, args) = if !sp_check(st, Type::RightParen) {
            sp_args(st, Seq::empty(), (fuel - 1) as nat)
        } else {
            (st, Result::Ok(Seq::empty()))
        };
        match args {
            Result::Err(err) => (st1, Result::Err(err)),
            Result::Ok(arguments) => {
                let (st2, r2) = sp_consume(st1, Type::RightParen, "Expect ')' after arguments"@);
                match r2 {
                    Result::Err(err) => (st2, Result::Err(err)),
                    Result::Ok(paren) => (
                        st2,
                        Result::Ok(
                            ExprV::Call { callee: Box::new(callee), paren, arguments },
                        ),
                    ),
                }
            },
        }
    }
}

/// The arguments of a call, at least one.
pub open spec fn sp_args(st: ParsV, acc: Seq<ExprV>, fuel: nat) -> (
    ParsV,
    Result<Seq<ExprV>, ParseErrV>,
)
    decreases fuel,
{
    if fuel == 0 {
        (st, Result::Err(sp_too_deep(st)))
    } else {
        let st0 = if acc.len() >= 255 {
            sp_perr(st, sp_peek(st), "Cannot have more than 255 arguments"@)
        } else {
            st
        };
        let (st1, r1) = sp_expression(st0, (fuel - 1) as nat);
        match r1 {
            Result::Err(err) => (st1, Result::Err(err)),
            Result::Ok(e) => {
                if sp_check(st1, Type::Comma) {
                    sp_args(sp_adv(st1), acc.push(e), (fuel - 1) as nat)
                } else {
                    (st1, Result::Ok(acc.push(e)))
                }
            },
        }
    }
}

/// A primary expression: a literal, `this`, `super.name`, a variable, or
/// a parenthesized expression.
pub open spec fn sp_primary(st: ParsV, fuel: nat) -> (ParsV, Result<ExprV, ParseErrV>)
    decreases fuel,
{
    if fuel == 0 {
        (st, Result::Err(sp_too_deep(st)))
    } else if sp_check(st, Type::False) {
        (sp_adv(st), Result::Ok(ExprV::Literal(LitV::Bool(false))))
    } else if sp_check(st, Type::True) {
        (sp_adv(st), Result::Ok(ExprV::Literal(LitV::Bool(true))))
    } else if sp_check(st, Type::Null) {
        (sp_adv(st), Result::Ok(ExprV::Literal(LitV::Null)))
    } else if sp_check(st, Type::Number) || sp_check(st, Type::Str) {
        let t = sp_peek(st);
        match t.literal {
            Option::Some(l) => (sp_adv(st), Result::Ok(ExprV::Literal(l))),
            Option::None => (
                st,
                Result::Err(
                    ParseErrV { token: t, message: "Literal token carries no value"@ },
                ),
            ),
        }
    } else if sp_check(st, Type::Super) {
        let keyword = sp_peek(st);
        let (st1, r1) = sp_consume(sp_adv(st), Type::Dot, "Expect '.' after 'super'"@);
        match r1 {
            Result::Err(err) => (st1, Result::Err(err)),
            Result::Ok(_) => {
                let (st2, r2) = sp_consume(
                    st1,
                    Type::Identifier,
                    "Expect superclass method name"@,
                );
                match r2 {
                    Result::Err(err) => (st2, Result::Err(err)),
                    Result::Ok(method) => {
                        let (st3, slot) = sp_next_slot(st2);
                        (st3, Result::Ok(ExprV::Super { keyword, method, slot }))
                    },
                }
            },
        }
    } else if sp_check(st, Type::This) {
        let keyword = sp_peek(st);
        let (st1, slot) = sp_next_slot(sp_adv(st));
        (st1, Result::Ok(ExprV::This { keyword, slot }))
    } else if sp_check(st, Type::Identifier) {
        let name = sp_peek(st);
        let (st1, slot) = sp_next_slot(sp_adv(st));
        (st1, Result::Ok(ExprV::Variable { name, slot }))
    } else if sp_check(st, Type::LeftParen) {
        let (st1, r1) = sp_expression(sp_adv(st), (fuel - 1) as nat);
        match r1 {
            Result::Err(err) => (st1, Result::Err(err)),
            Result::Ok(e) => {
                let (st2, r2) = sp_consume(
                    st1,
                    Type::RightParen,
                    "Expected ')' after expression"@,
                );
                match r2 {
                    Result::Err(err) => (st2, Result::Err(err)),
                    Result::Ok(_) => (st2, Result::Ok(ExprV::Grouping(Box::new(e)))),
                }
            },
        }
    } else {
        (st, Result::Err(ParseErrV { token: sp_peek(st), message: "Expected expression"@ }))
    }
}


/// The ghost value of an expression result.
pub open spec fn pe(r: Result<Expr, ParseError>) -> Result<ExprV, ParseErrV> {
    match r {
        Result::Ok(e) => Result::Ok(expr_view(e)),
        Result::Err(x) => Result::Err(x@),
    }
}

/// The ghost value of a statement result.
pub open spec fn ps(r: Result<Stmt, ParseError>) -> Result<StmtV, ParseErrV> {
    match r {
        Result::Ok(st) => Result::Ok(stmt_view(st)),
        Result::Err(x) => Result::Err(x@),
    }
}

/// The ghost value of a statement-list result.
pub open spec fn pss(r: Result<Vec<Stmt>, ParseError>) -> Result<Seq<StmtV>, ParseErrV> {
    match r {
        Result::Ok(v) => Result::Ok(stmts_view(v@)),
        Result::Err(x) => Result::Err(x@),
    }
}

/// The recursive-descent parser: token stream in, statement list out,
/// with the grammar errors collected on the side. It also hands every
/// variable reference a fresh resolution slot, the key under which the
/// resolver later records that reference's distance.
pub struct Parser {
    /// The token stream, ending with the EOF sentinel.
    pub tokens: Vec<Token>,
    /// The cursor into the stream.
    pub current: usize,
    /// The next free resolution slot.
    pub slots: usize,
    /// The grammar errors found so far.
    pub errors: Vec<ParseError>,
}

impl View for Parser {
    type V = ParsV;

    open spec fn view(&self) -> ParsV {
        ParsV {
            tokens: self.tokens@.map_values(|t: Token| t@),
            current: self.current as int,
            slots: self.slots as int,
            errors: self.errors@.map_values(|e: ParseError| e@),
        }
    }
}

/// The token reported when the cursor stands nowhere meaningful.
fn no_token() -> (r: Token)
    ensures
        r@ == sp_no_token(),
{
    Token::new(Type::EOF, String::new(), Option::None, Location::new(0, 0))
}

impl Parser {
    /// Creates a parser over the given tokens.
    pub fn new(tokens: Vec<Token>) -> (r: Parser)
        ensures
            r@ == (ParsV {
                tokens: tokens@.map_values(|t: Token| t@),
                current: 0,
                slots: 0,
                errors: Seq::empty(),
            }),
    {
        let r = Parser { tokens, current: 0, slots: 0, errors: Vec::new() };
        proof {
            assert(r@.errors =~= Seq::<ParseErrV>::empty());
        }
        r
    }

    /// Whether the cursor stands at the end of the stream.
    fn at_end(&self) -> (r: bool)
        ensures
            r == sp_at_end(self@),
    {
        self.current >= self.tokens.len() || self.tokens[self.current].kind == Type::EOF
    }

    /// The token under the cursor.
    fn peek_clone(&self) -> (t: Token)
        ensures
            t@ == sp_peek(self@),
    {
        if self.current < self.tokens.len() {
            self.tokens[self.current].clone()
        } else {
            no_token()
        }
    }

    /// The kind of the token under the cursor.
    fn peek_kind(&self) -> (k: Type)
        ensures
            k == sp_peek(self@).kind,
    {
        if self.current < self.tokens.len() {
            self.tokens[self.current].kind
        } else {
            Type::EOF
        }
    }

    /// The token just consumed.
    fn prev_clone(&self) -> (t: Token)
        ensures
            t@ == sp_prev(self@),
    {
        if 1 <= self.current && self.current <= self.tokens.len() {
            self.tokens[self.current - 1].clone()
        } else {
            no_token()
        }
    }

    /// Whether the token under the cursor has the given kind.
    fn check(&self, kind: Type) -> (r: bool)
        ensures
            r == sp_check(self@, kind),
    {
        !self.at_end() && self.peek_kind() == kind
    }

    /// Moves the cursor past one token, unless the stream is spent.
    fn advance(&mut self)
        ensures
            final(self)@ == sp_adv(old(self)@),
    {
        let n = self.tokens.len();
        if !self.at_end() {
            self.current = self.current + 1;
        }
    }

    /// Hands out a fresh resolution slot.
    fn next_slot(&mut self) -> (r: usize)
        ensures
            ({
                let (st2, slot) = sp_next_slot(old(self)@);
                final(self)@ == st2 && r == slot
            }),
    {
        let s = self.slots;
        if self.slots < usize::MAX {
            self.slots = self.slots + 1;
        }
        s
    }

    /// Records a grammar error; parsing continues past it.
    fn perr(&mut self, token: Token, message: String)
        ensures
            final(self)@ == sp_perr(old(self)@, token@, message@),
    {
        let ghost e0 = self@.errors;
        self.errors.push(ParseError { token, message });
        proof {
            assert(self@.errors =~= e0.push(self.errors@.last()@));
        }
    }

    /// Consumes the token under the cursor if it has the wanted kind;
    /// otherwise the given error, at the unconsumed token.
    fn consume(&mut self, kind: Type, message: &str) -> (r: Result<Token, ParseError>)
        ensures
            ({
                let (st2, r2) = sp_consume(old(self)@, kind, message@);
                final(self)@ == st2 && (match (r, r2) {
                    (Result::Ok(t), Result::Ok(tv)) => t@ == tv,
                    (Result::Err(a), Result::Err(b)) => a@ == b,
                    _ => false,
                })
            }),
    {
        if self.check(kind) {
            let t = self.peek_clone();
            self.advance();
            Result::Ok(t)
        } else {
            Result::Err(ParseError { token: self.peek_clone(), message: message.to_owned() })
        }
    }

    /// The error that stands for the parsing budget running out.
    fn too_deep(&self) -> (r: ParseError)
        ensures
            r@ == sp_too_deep(self@),
    {
        ParseError { token: self.peek_clone(), message: "Too deeply nested".to_owned() }
    }

    /// Parses a whole program: declarations until the stream is spent. The
    /// budget grows with the stream and covers every nesting it can spell;
    /// errors are collected on the parser, and the statements they spoiled
    /// are dropped.
    pub fn parse(&mut self) -> (r: Vec<Stmt>)
        ensures
            ({
                let (st2, out) = sp_parse(old(self)@, sp_parse_fuel(old(self)@.tokens.len()));
                final(self)@ == st2 && stmts_view(r@) == out
            }),
    {
        let len = self.tokens.len();
        let fuel: u64 = if (len as u64) < 0x0100000000000000u64 {
            64 * (len as u64) + 64
        } else {
            0xFFFFFFFFFFFFFFFFu64
        };
        self.parse_decls(fuel)
    }

    /// Parses declarations until the stream is spent.
    #[verifier::spinoff_prover]
    fn parse_decls(&mut self, fuel: u64) -> (r: Vec<Stmt>)
        ensures
            ({
                let (st2, out) = sp_parse(old(self)@, fuel as nat);
                final(self)@ == st2 && stmts_view(r@) == out
            }),
        decreases fuel,
    {
        if fuel == 0 || self.at_end() {
            let r: Vec<Stmt> = Vec::new();
            proof {
                assert(stmts_view(r@) =~= Seq::<StmtV>::empty());
            }
            r
        } else {
            let d = self.declaration(fuel - 1);
            let rest = self.parse_decls(fuel - 1);
            match d {
                Option::Some(stmt) => {
                    let ghost restv = stmts_view(rest@);
                    let ghost rest_seq = rest@;
                    let mut out: Vec<Stmt> = Vec::new();
                    out.push(stmt);
                    let mut rest2 = rest;
                    out.append(&mut rest2);
                    proof {
                        assert(out@.subrange(1, out@.len() as int) =~= rest_seq);
                        lemma_stmts_view_push_front(out@, restv);
                    }
                    out
                },
                Option::None => rest,
            }
        }
    }

    /// Parses one declaration; on a grammar error, records it, drops the
    /// declaration and resynchronizes.
    #[verifier::spinoff_prover]
    fn declaration(&mut self, fuel: u64) -> (r: Option<Stmt>)
        ensures
            ({
                let (st2, out) = sp_declaration(old(self)@, fuel as nat);
                final(self)@ == st2 && (match (r, out) {
                    (Option::Some(s), Option::Some(sv)) => stmt_view(s) == sv,
                    (Option::None, Option::None) => true,
                    _ => false,
                })
            }),
        decreases fuel,
    {
        if fuel == 0 {
            let e = self.too_deep();
            self.perr(e.token, e.message);
            return Option::None;
        }
        let parsed: Result<Stmt, ParseError> = if self.check(Type::Class) {
            self.advance();
            self.class_declaration(fuel - 1)
        } else if self.check(Type::Fun) {
            self.advance();
            self.function(true, fuel - 1)
        } else if self.check(Type::Var) {
            self.advance();
            self.var_declaration(fuel - 1)
        } else {
            self.statement(fuel - 1)
        };
        match parsed {
            Result::Ok(stmt) => Option::Some(stmt),
            Result::Err(err) => {
                let len = self.tokens.len() as u64;
                self.perr(err.token, err.message);
                self.advance();
                self.synchronize(len);
                Option::None
            },
        }
    }

    /// Passes tokens over until a statement boundary.
    fn synchronize(&mut self, fuel: u64)
        ensures
            final(self)@ == sp_synchronize(old(self)@, fuel as nat),
        decreases fuel,
    {
        if fuel == 0 || self.at_end() {
            return ;
        }
        let prev = self.prev_clone();
        if prev.kind == Type::Semicolon {
            return ;
        }
        let k = self.peek_kind();
        if k == Type::Class || k == Type::Fun || k == Type::Var || k == Type::For || k == Type::If
            || k == Type::While || k == Type::Print || k == Type::Return {
            return ;
        }
        self.advance();
        self.synchronize(fuel - 1);
    }

    /// Parses a class declaration after its keyword.
    #[verifier::spinoff_prover]
    #[verifier::rlimit(100)]
    fn class_declaration(&mut self, fuel: u64) -> (r: Result<Stmt, ParseError>)
        ensures
            ({
                let (st2, r2) = sp_class_declaration(old(self)@, fuel as nat);
                final(self)@ == st2 && ps(r) == r2
            }),
        decreases fuel,
    {
        if fuel == 0 {
            return Result::Err(self.too_deep());
        }
        let name = match self.consume(Type::Identifier, "Expect class name") {
            Result::Ok(t) => t,
            Result::Err(err) => {
                return Result::Err(err);
            },
        };
        let superclass: Option<Expr> = if self.check(Type::Less) {
            self.advance();
            match self.consume(Type::Identifier, "Expect superclass name") {
                Result::Ok(sup_name) => {
                    let slot = self.next_slot();
                    Option::Some(Expr::Variable(crate::expr::VariableData { name: sup_name, slot }))
                },
                Result::Err(err) => {
                    return Result::Err(err);
                },
            }
        } else {
            Option::None
        };
        match self.consume(Type::LeftBrace, "Expect '{' before class body") {
            Result::Ok(_) => (),
            Result::Err(err) => {
                return Result::Err(err);
            },
        }
        let methods = match self.methods(fuel - 1) {
            Result::Ok(ms) => ms,
            Result::Err(err) => {
                return Result::Err(err);
            },
        };
        match self.consume(Type::RightBrace, "Expect '}' after class body") {
            Result::Ok(_) => (),
            Result::Err(err) => {
                return Result::Err(err);
            },
        }
        Result::Ok(Stmt::Class(crate::stmt::ClassData { name, superclass, methods }))
    }

    /// Parses the methods of a class body.
    #[verifier::spinoff_prover]
    fn methods(&mut self, fuel: u64) -> (r: Result<Vec<Stmt>, ParseError>)
        ensures
            ({
                let (st2, r2) = sp_methods(old(self)@, fuel as nat);
                final(self)@ == st2 && pss(r) == r2
            }),
        decreases fuel,
    {
        if fuel == 0 {
            return Result::Err(self.too_deep());
        }
        if !self.check(Type::RightBrace) && !self.at_end() {
            let m = match self.function(false, fuel - 1) {
                Result::Ok(m) => m,
                Result::Err(err) => {
                    return Result::Err(err);
                },
            };
            let rest = match self.methods(fuel - 1) {
                Result::Ok(ms) => ms,
                Result::Err(err) => {
                    return Result::Err(err);
                },
            };
            let ghost restv = stmts_view(rest@);
            let ghost rest_seq = rest@;
            let mut out: Vec<Stmt> = Vec::new();
            out.push(m);
            let mut rest2 = rest;
            out.append(&mut rest2);
            proof {
                assert(out@.subrange(1, out@.len() as int) =~= rest_seq);
                lemma_stmts_view_push_front(out@, restv);
            }
            Result::Ok(out)
        } else {
            let r: Vec<Stmt> = Vec::new();
            proof {
                assert(stmts_view(r@) =~= Seq::<StmtV>::empty());
            }
            Result::Ok(r)
        }
    }

    /// Parses a variable declaration after its keyword.
    #[verifier::spinoff_prover]
    fn var_declaration(&mut self, fuel: u64) -> (r: Result<Stmt, ParseError>)
        ensures
            ({
                let (st2, r2) = sp_var_declaration(old(self)@, fuel as nat);
                final(self)@ == st2 && ps(r) == r2
            }),
        decreases fuel,
    {
        if fuel == 0 {
            return Result::Err(self.too_deep());
        }
        let name = match self.consume(Type::Identifier, "Expect variable name") {
            Result::Ok(t) => t,
            Result::Err(err) => {
                return Result::Err(err);
            },
        };
        let initializer: Option<Expr> = if self.check(Type::Equal) {
            self.advance();
            match self.expression(fuel - 1) {
                Result::Ok(e) => Option::Some(e),
                Result::Err(err) => {
                    return Result::Err(err);
                },
            }
        } else {
            Option::None
        };
        match self.consume(Type::Semicolon, "Expect ';' after variable declaration") {
            Result::Ok(_) => (),
            Result::Err(err) => {
                return Result::Err(err);
            },
        }
        Result::Ok(Stmt::Var(crate::stmt::VarData { name, initializer }))
    }

    /// Parses one statement of any kind.
    #[verifier::spinoff_prover]
    fn statement(&mut self, fuel: u64) -> (r: Result<Stmt, ParseError>)
        ensures
            ({
                let (st2, r2) = sp_statement(old(self)@, fuel as nat);
                final(self)@ == st2 && ps(r) == r2
            }),
        decreases fuel,
    {
        if fuel == 0 {
            return Result::Err(self.too_deep());
        }
        if self.check(Type::For) {
            self.advance();
            return self.for_statement(fuel - 1);
        }
        if self.check(Type::If) {
            self.advance();
            return self.if_statement(fuel - 1);
        }
        if self.check(Type::Print) {
            self.advance();
            return self.print_statement(fuel - 1);
        }
        if self.check(Type::Return) {
            self.advance();
            return self.return_statement(fuel - 1);
        }
        if self.check(Type::Break) {
            let keyword = self.peek_clone();
            self.advance();
            return match self.consume(Type::Semicolon, "Expect ';' after 'break'") {
                Result::Ok(_) => Result::Ok(Stmt::Break(crate::stmt::BreakData { keyword })),
                Result::Err(err) => Result::Err(err),
            };
        }
        if self.check(Type::While) {
            self.advance();
            return self.while_statement(fuel - 1);
        }
        if self.check(Type::LeftBrace) {
            self.advance();
            return match self.block(fuel - 1) {
                Result::Ok(statements) => Result::Ok(
                    Stmt::Block(crate::stmt::BlockData { statements }),
                ),
                Result::Err(err) => Result::Err(err),
            };
        }
        self.expression_statement(fuel - 1)
    }

    /// Parses a `for` statement after its keyword and desugars it.
    #[verifier::spinoff_prover]
    #[verifier::rlimit(100)]
    fn for_statement(&mut self, fuel: u64) -> (r: Result<Stmt, ParseError>)
        ensures
            ({
                let (st2, r2) = sp_for_statement(old(self)@, fuel as nat);
                final(self)@ == st2 && ps(r) == r2
            }),
        decreases fuel,
    {
        if fuel == 0 {
            return Result::Err(self.too_deep());
        }
        match self.consume(Type::LeftParen, "Expect '(' after 'for'") {
            Result::Ok(_) => (),
            Result::Err(err) => {
                return Result::Err(err);
            },
        }
        let initializer: Option<Stmt> = if self.check(Type::Semicolon) {
            self.advance();
            Option::None
        } else if self.check(Type::Var) {
            self.advance();
            match self.var_declaration(fuel - 1) {
                Result::Ok(s) => Option::Some(s),
                Result::Err(err) => {
                    return Result::Err(err);
                },
            }
        } else {
            match self.expression_statement(fuel - 1) {
                Result::Ok(s) => Option::Some(s),
                Result::Err(err) => {
                    return Result::Err(err);
                },
            }
        };
        let condition: Option<Expr> = if !self.check(Type::Semicolon) {
            match self.expression(fuel - 1) {
                Result::Ok(e) => Option::Some(e),
                Result::Err(err) => {
                    return Result::Err(err);
                },
            }
        } else {
            Option::None
        };
        match self.consume(Type::Semicolon, "Expect ';' after loop condition") {
            Result::Ok(_) => (),
            Result::Err(err) => {
                return Result::Err(err);
            },
        }
        let increment: Option<Expr> = if !self.check(Type::RightParen) {
            match self.expression(fuel - 1) {
                Result::Ok(e) => Option::Some(e),
                Result::Err(err) => {
                    return Result::Err(err);
                },
            }
        } else {
            Option::None
        };
        match self.consume(Type::RightParen, "Expect ')' after loop clauses") {
            Result::Ok(_) => (),
            Result::Err(err) => {
                return Result::Err(err);
            },
        }
        let body = match self.statement(fuel - 1) {
            Result::Ok(s) => s,
            Result::Err(err) => {
                return Result::Err(err);
            },
        };
        let ghost iv = match &initializer {
            Option::Some(s_) => Option::Some(stmt_view(*s_)),
            Option::None => Option::None,
        };
        let ghost cv = match &condition {
            Option::Some(e_) => Option::Some(expr_view(*e_)),
            Option::None => Option::None,
        };
        let ghost nv = match &increment {
            Option::Some(e_) => Option::Some(expr_view(*e_)),
            Option::None => Option::None,
        };
        let ghost bv = stmt_view(body);
        let body1: Stmt = match increment {
            Option::Some(inc) => {
                let ghost incv = expr_view(inc);
                let mut statements: Vec<Stmt> = Vec::new();
                statements.push(body);
                statements.push(Stmt::Expression(crate::stmt::ExpressionData { expr: inc }));
                proof {
                    lemma_stmts_view_index(statements@);
                    assert(stmt_view(statements@[0]) == bv);
                    assert(stmt_view(statements@[1]) == StmtV::Expression(incv));
                    assert(stmts_view(statements@) =~= seq![bv, StmtV::Expression(incv)]);
                }
                Stmt::Block(crate::stmt::BlockData { statements })
            },
            Option::None => body,
        };
        let ghost b1v = stmt_view(body1);
        proof {
            assert(b1v == (match nv {
                Option::Some(i) => StmtV::Block(seq![bv, StmtV::Expression(i)]),
                Option::None => bv,
            }));
        }
        let body2: Stmt = Stmt::While(
            crate::stmt::WhileData {
                condition: match condition {
                    Option::Some(c) => c,
                    Option::None => Expr::Literal(Literal::Bool(true)),
                },
                body: Box::new(body1),
            },
        );
        let ghost b2v = stmt_view(body2);
        let result: Stmt = match initializer {
            Option::Some(init) => {
                let mut statements: Vec<Stmt> = Vec::new();
                statements.push(init);
                statements.push(body2);
                proof {
                    lemma_stmts_view_index(statements@);
                    assert(stmt_view(statements@[0]) == iv->Some_0);
                    assert(stmt_view(statements@[1]) == b2v);
                    assert(stmts_view(statements@) =~= seq![iv->Some_0, b2v]);
                }
                Stmt::Block(crate::stmt::BlockData { statements })
            },
            Option::None => body2,
        };
        proof {
            assert(stmt_view(result) == sp_desugar_for(iv, cv, nv, bv));
        }
                Result::Ok(result)
    }

    /// Parses an `if` statement after its keyword.
    #[verifier::spinoff_prover]
    fn if_statement(&mut self, fuel: u64) -> (r: Result<Stmt, ParseError>)
        ensures
            ({
                let (st2, r2) = sp_if_statement(old(self)@, fuel as nat);
                final(self)@ == st2 && ps(r) == r2
            }),
        decreases fuel,
    {
        if fuel == 0 {
            return Result::Err(self.too_deep());
        }
        match self.consume(Type::LeftParen, "Expect '(' after 'if'") {
            Result::Ok(_) => (),
            Result::Err(err) => {
                return Result::Err(err);
            },
        }
        let condition = match self.expression(fuel - 1) {
            Result::Ok(e) => e,
            Result::Err(err) => {
                return Result::Err(err);
            },
        };
        match self.consume(Type::RightParen, "Expect ')' after if condition") {
            Result::Ok(_) => (),
            Result::Err(err) => {
                return Result::Err(err);
            },
        }
        let then_branch = match self.statement(fuel - 1) {
            Result::Ok(s) => s,
            Result::Err(err) => {
                return Result::Err(err);
            },
        };
        if self.check(Type::Else) {
            self.advance();
            match self.statement(fuel - 1) {
                Result::Ok(els) => Result::Ok(
                    Stmt::If(
                        crate::stmt::IfData {
                            condition,
                            then_branch: Box::new(then_branch),
                            else_branch: Option::Some(Box::new(els)),
                        },
                    ),
                ),
                Result::Err(err) => Result::Err(err),
            }
        } else {
            Result::Ok(
                Stmt::If(
                    crate::stmt::IfData {
                        condition,
                        then_branch: Box::new(then_branch),
                        else_branch: Option::None,
                    },
                ),
            )
        }
    }

    /// Parses a `print` statement after its keyword.
    fn print_statement(&mut self, fuel: u64) -> (r: Result<Stmt, ParseError>)
        ensures
            ({
                let (st2, r2) = sp_print_statement(old(self)@, fuel as nat);
                final(self)@ == st2 && ps(r) == r2
            }),
        decreases fuel,
    {
        if fuel == 0 {
            return Result::Err(self.too_deep());
        }
        let e = match self.expression(fuel - 1) {
            Result::Ok(e) => e,
            Result::Err(err) => {
                return Result::Err(err);
            },
        };
        match self.consume(Type::Semicolon, "Expect ';' after value") {
            Result::Ok(_) => Result::Ok(Stmt::Print(crate::stmt::PrintData { expr: e })),
            Result::Err(err) => Result::Err(err),
        }
    }

    /// Parses a `return` statement after its keyword.
    #[verifier::spinoff_prover]
    fn return_statement(&mut self, fuel: u64) -> (r: Result<Stmt, ParseError>)
        ensures
            ({
                let (st2, r2) = sp_return_statement(old(self)@, fuel as nat);
                final(self)@ == st2 && ps(r) == r2
            }),
        decreases fuel,
    {
        if fuel == 0 {
            return Result::Err(self.too_deep());
        }
        let keyword = self.prev_clone();
        let value: Option<Expr> = if !self.check(Type::Semicolon) {
            match self.expression(fuel - 1) {
                Result::Ok(e) => Option::Some(e),
                Result::Err(err) => {
                    return Result::Err(err);
                },
            }
        } else {
            Option::None
        };
        match self.consume(Type::Semicolon, "Expect ';' after return value") {
            Result::Ok(_) => Result::Ok(Stmt::Return(crate::stmt::ReturnData { keyword, value })),
            Result::Err(err) => Result::Err(err),
        }
    }

    /// Parses a `while` statement after its keyword.
    #[verifier::spinoff_prover]
    fn while_statement(&mut self, fuel: u64) -> (r: Result<Stmt, ParseError>)
        ensures
            ({
                let (st2, r2) = sp_while_statement(old(self)@, fuel as nat);
                final(self)@ == st2 && ps(r) == r2
            }),
        decreases fuel,
    {
        if fuel == 0 {
            return Result::Err(self.too_deep());
        }
        match self.consume(Type::LeftParen, "Expect '(' after while.") {
            Result::Ok(_) => (),
            Result::Err(err) => {
                return Result::Err(err);
            },
        }
        let condition = match self.expression(fuel - 1) {
            Result::Ok(e) => e,
            Result::Err(err) => {
                return Result::Err(err);
            },
        };
        match self.consume(Type::RightParen, "Expect ')' after condition.") {
            Result::Ok(_) => (),
            Result::Err(err) => {
                return Result::Err(err);
            },
        }
        match self.statement(fuel - 1) {
            Result::Ok(body) => Result::Ok(
                Stmt::While(crate::stmt::WhileData { condition, body: Box::new(body) }),
            ),
            Result::Err(err) => Result::Err(err),
        }
    }

    /// Parses an expression statement.
    fn expression_statement(&mut self, fuel: u64) -> (r: Result<Stmt, ParseError>)
        ensures
            ({
                let (st2, r2) = sp_expression_statement(old(self)@, fuel as nat);
                final(self)@ == st2 && ps(r) == r2
            }),
        decreases fuel,
    {
        if fuel == 0 {
            return Result::Err(self.too_deep());
        }
        let e = match self.expression(fuel - 1) {
            Result::Ok(e) => e,
            Result::Err(err) => {
                return Result::Err(err);
            },
        };
        match self.consume(Type::Semicolon, "Expect ';' after expression") {
            Result::Ok(_) => Result::Ok(Stmt::Expression(crate::stmt::ExpressionData { expr: e })),
            Result::Err(err) => Result::Err(err),
        }
    }

    /// Parses a function or method declaration: name, parameters, body.
    #[verifier::spinoff_prover]
    #[verifier::rlimit(100)]
    fn function(&mut self, top: bool, fuel: u64) -> (r: Result<Stmt, ParseError>)
        ensures
            ({
                let (st2, r2) = sp_function(old(self)@, top, fuel as nat);
                final(self)@ == st2 && ps(r) == r2
            }),
        decreases fuel,
    {
        if fuel == 0 {
            return Result::Err(self.too_deep());
        }
        let name_msg: &str = if top {
            "Expect function name"
        } else {
            "Expect method name"
        };
        let paren_msg: &str = if top {
            "Expect '(' after function name"
        } else {
            "Expect '(' after method name"
        };
        let brace_msg: &str = if top {
            "Expect '{' before function body"
        } else {
            "Expect '{' before method body"
        };
        let name = match self.consume(Type::Identifier, name_msg) {
            Result::Ok(t) => t,
            Result::Err(err) => {
                return Result::Err(err);
            },
        };
        match self.consume(Type::LeftParen, paren_msg) {
            Result::Ok(_) => (),
            Result::Err(err) => {
                return Result::Err(err);
            },
        }
        let params: Vec<Token> = if !self.check(Type::RightParen) {
            let fresh: Vec<Token> = Vec::new();
            proof {
                assert(fresh@.map_values(|t: Token| t@) =~= Seq::<TokenV>::empty());
            }
            match self.params(fresh, fuel - 1) {
                Result::Ok(ps_) => ps_,
                Result::Err(err) => {
                    return Result::Err(err);
                },
            }
        } else {
            let empty: Vec<Token> = Vec::new();
            proof {
                assert(empty@.map_values(|t: Token| t@) =~= Seq::<TokenV>::empty());
            }
            empty
        };
        match self.consume(Type::RightParen, "Expect ')' after parameters") {
            Result::Ok(_) => (),
            Result::Err(err) => {
                return Result::Err(err);
            },
        }
        match self.consume(Type::LeftBrace, brace_msg) {
            Result::Ok(_) => (),
            Result::Err(err) => {
                return Result::Err(err);
            },
        }
        match self.block(fuel - 1) {
            Result::Ok(body) => Result::Ok(
                Stmt::Function(
                    crate::stmt::FunctionData { name, params, body: std::rc::Rc::new(body) },
                ),
            ),
            Result::Err(err) => Result::Err(err),
        }
    }

    /// Parses a parameter list of at least one name.
    fn params(&mut self, acc: Vec<Token>, fuel: u64) -> (r: Result<Vec<Token>, ParseError>)
        ensures
            ({
                let (st2, r2) = sp_params(old(self)@, acc@.map_values(|t: Token| t@), fuel as nat);
                final(self)@ == st2 && (match (r, r2) {
                    (Result::Ok(v), Result::Ok(sv)) => v@.map_values(|t: Token| t@) == sv,
                    (Result::Err(a), Result::Err(b)) => a@ == b,
                    _ => false,
                })
            }),
        decreases fuel,
    {
        if fuel == 0 {
            return Result::Err(self.too_deep());
        }
        if acc.len() >= 255 {
            return Result::Err(
                ParseError {
                    token: self.peek_clone(),
                    message: "Cannot have more than 255 parameters".to_owned(),
                },
            );
        }
        let p = match self.consume(Type::Identifier, "Expect parameter name") {
            Result::Ok(t) => t,
            Result::Err(err) => {
                return Result::Err(err);
            },
        };
        let ghost accv = acc@.map_values(|t: Token| t@);
        let mut acc2 = acc;
        acc2.push(p);
        proof {
            assert(acc2@.drop_last() =~= acc@);
            assert(acc2@.map_values(|t: Token| t@) =~= accv.push(acc2@.last()@));
        }
        if self.check(Type::Comma) {
            self.advance();
            self.params(acc2, fuel - 1)
        } else {
            Result::Ok(acc2)
        }
    }

    /// Parses the statements of a block, up to its closing brace.
    #[verifier::spinoff_prover]
    fn block(&mut self, fuel: u64) -> (r: Result<Vec<Stmt>, ParseError>)
        ensures
            ({
                let (st2, r2) = sp_block(old(self)@, fuel as nat);
                final(self)@ == st2 && pss(r) == r2
            }),
        decreases fuel,
    {
        if fuel == 0 {
            return Result::Err(self.too_deep());
        }
        if !self.check(Type::RightBrace) && !self.at_end() {
            let d = self.declaration(fuel - 1);
            let rest = match self.block(fuel - 1) {
                Result::Ok(stmts) => stmts,
                Result::Err(err) => {
                    return Result::Err(err);
                },
            };
            match d {
                Option::Some(stmt) => {
                    let ghost restv = stmts_view(rest@);
                    let ghost rest_seq = rest@;
                    let mut out: Vec<Stmt> = Vec::new();
                    out.push(stmt);
                    let mut rest2 = rest;
                    out.append(&mut rest2);
                    proof {
                        assert(out@.subrange(1, out@.len() as int) =~= rest_seq);
                        lemma_stmts_view_push_front(out@, restv);
                    }
                    Result::Ok(out)
                },
                Option::None => Result::Ok(rest),
            }
        } else {
            match self.consume(Type::RightBrace, "Expect '}' after block") {
                Result::Ok(_) => {
                    let r: Vec<Stmt> = Vec::new();
                    proof {
                        assert(stmts_view(r@) =~= Seq::<StmtV>::empty());
                    }
                    Result::Ok(r)
                },
                Result::Err(err) => Result::Err(err),
            }
        }
    }

    /// Parses an expression.
    fn expression(&mut self, fuel: u64) -> (r: Result<Expr, ParseError>)
        ensures
            ({
                let (st2, r2) = sp_expression(old(self)@, fuel as nat);
                final(self)@ == st2 && pe(r) == r2
            }),
        decreases fuel,
    {
        if fuel == 0 {
            return Result::Err(self.too_deep());
        }
        self.assignment(fuel - 1)
    }

    /// Parses an assignment, or anything of higher precedence.
    #[verifier::spinoff_prover]
    #[verifier::rlimit(100)]
    fn assignment(&mut self, fuel: u64) -> (r: Result<Expr, ParseError>)
        ensures
            ({
                let (st2, r2) = sp_assignment(old(self)@, fuel as nat);
                final(self)@ == st2 && pe(r) == r2
            }),
        decreases fuel,
    {
        if fuel == 0 {
            return Result::Err(self.too_deep());
        }
        let e = match self.or_level(fuel - 1) {
            Result::Ok(e) => e,
            Result::Err(err) => {
                return Result::Err(err);
            },
        };
        if self.check(Type::Equal) {
            let equals = self.peek_clone();
            self.advance();
            let value = match self.assignment(fuel - 1) {
                Result::Ok(v) => v,
                Result::Err(err) => {
                    return Result::Err(err);
                },
            };
            match e {
                Expr::Variable(data) => {
                    let slot = self.next_slot();
                    Result::Ok(
                        Expr::Assign(
                            crate::expr::AssignData {
                                name: data.name,
                                value: Box::new(value),
                                slot,
                            },
                        ),
                    )
                },
                Expr::Get(data) => Result::Ok(
                    Expr::SetProp(
                        crate::expr::SetData {
                            object: data.object,
                            name: data.name,
                            value: Box::new(value),
                        },
                    ),
                ),
                _ => {
                    self.perr(equals, "Invalid assignment target".to_owned());
                    Result::Ok(value)
                },
            }
        } else {
            Result::Ok(e)
        }
    }

    /// Parses the loosest rung of the ladder.
    #[verifier::spinoff_prover]
    fn or_level(&mut self, fuel: u64) -> (r: Result<Expr, ParseError>)
        ensures
            ({
                let (st2, r2) = sp_or(old(self)@, fuel as nat);
                final(self)@ == st2 && pe(r) == r2
            }),
        decreases fuel,
    {
        if fuel == 0 {
            return Result::Err(self.too_deep());
        }
        self.ladder(Level::LOr, fuel - 1)
    }

    /// Parses a left-associative run of one rung's operators.
    #[verifier::spinoff_prover]
    fn binary_rest(&mut self, acc: Expr, level: Level, fuel: u64) -> (r: Result<Expr, ParseError>)
        ensures
            ({
                let (st2, r2) = sp_binary_rest(old(self)@, expr_view(acc), level, fuel as nat);
                final(self)@ == st2 && pe(r) == r2
            }),
        decreases fuel,
    {
        if fuel == 0 {
            return Result::Err(self.too_deep());
        }
        let k = self.peek_kind();
        let matched = !self.at_end() && (match level {
            Level::LOr => k == Type::Or,
            Level::LAnd => k == Type::And,
            Level::LEquality => k == Type::BangEqual || k == Type::EqualEqual,
            Level::LComparison => k == Type::Greater || k == Type::GreaterEqual || k == Type::Less
                || k == Type::LessEqual,
            Level::LTerm => k == Type::Minus || k == Type::Plus,
            Level::LFactor => k == Type::Slash || k == Type::Star,
        });
        if matched {
            let operator = self.peek_clone();
            self.advance();
            let right = match self.level_below(level, fuel - 1) {
                Result::Ok(e) => e,
                Result::Err(err) => {
                    return Result::Err(err);
                },
            };
            let logical = match level {
                Level::LOr => true,
                Level::LAnd => true,
                _ => false,
            };
            let joined = if logical {
                Expr::Logical(
                    crate::expr::LogicalData {
                        left: Box::new(acc),
                        operator,
                        right: Box::new(right),
                    },
                )
            } else {
                Expr::Binary(
                    crate::expr::BinaryData {
                        left: Box::new(acc),
                        operator,
                        right: Box::new(right),
                    },
                )
            };
            self.binary_rest(joined, level, fuel - 1)
        } else {
            Result::Ok(acc)
        }
    }

    /// Parses the rung below a given rung.
    fn level_below(&mut self, level: Level, fuel: u64) -> (r: Result<Expr, ParseError>)
        ensures
            ({
                let (st2, r2) = sp_level_below(old(self)@, level, fuel as nat);
                final(self)@ == st2 && pe(r) == r2
            }),
        decreases fuel,
    {
        if fuel == 0 {
            return Result::Err(self.too_deep());
        }
        match level {
            Level::LOr => self.ladder(Level::LAnd, fuel - 1),
            Level::LAnd => self.ladder(Level::LEquality, fuel - 1),
            Level::LEquality => self.ladder(Level::LComparison, fuel - 1),
            Level::LComparison => self.ladder(Level::LTerm, fuel - 1),
            Level::LTerm => self.ladder(Level::LFactor, fuel - 1),
            Level::LFactor => self.unary(fuel - 1),
        }
    }

    /// Parses one rung: the rung below, then a run of its operators.
    fn ladder(&mut self, level: Level, fuel: u64) -> (r: Result<Expr, ParseError>)
        ensures
            ({
                let (st2, r2) = sp_ladder(old(self)@, level, fuel as nat);
                final(self)@ == st2 && pe(r) == r2
            }),
        decreases fuel,
    {
        if fuel == 0 {
            return Result::Err(self.too_deep());
        }
        let e = match self.level_below(level, fuel - 1) {
            Result::Ok(e) => e,
            Result::Err(err) => {
                return Result::Err(err);
            },
        };
        self.binary_rest(e, level, fuel - 1)
    }

    /// Parses a unary expression.
    fn unary(&mut self, fuel: u64) -> (r: Result<Expr, ParseError>)
        ensures
            ({
                let (st2, r2) = sp_unary(old(self)@, fuel as nat);
                final(self)@ == st2 && pe(r) == r2
            }),
        decreases fuel,
    {
        if fuel == 0 {
            return Result::Err(self.too_deep());
        }
        if self.check(Type::Bang) || self.check(Type::Minus) {
            let operator = self.peek_clone();
            self.advance();
            match self.unary(fuel - 1) {
                Result::Ok(e) => Result::Ok(
                    Expr::Unary(crate::expr::UnaryData { operator, expr: Box::new(e) }),
                ),
                Result::Err(err) => Result::Err(err),
            }
        } else {
            self.call(fuel - 1)
        }
    }

    /// Parses a call expression.
    fn call(&mut self, fuel: u64) -> (r: Result<Expr, ParseError>)
        ensures
            ({
                let (st2, r2) = sp_call(old(self)@, fuel as nat);
                final(self)@ == st2 && pe(r) == r2
            }),
        decreases fuel,
    {
        if fuel == 0 {
            return Result::Err(self.too_deep());
        }
        let e = match self.primary(fuel - 1) {
            Result::Ok(e) => e,
            Result::Err(err) => {
                return Result::Err(err);
            },
        };
        self.postfix(e, fuel - 1)
    }

    /// Parses the postfix part of a call expression.
    #[verifier::spinoff_prover]
    fn postfix(&mut self, acc: Expr, fuel: u64) -> (r: Result<Expr, ParseError>)
        ensures
            ({
                let (st2, r2) = sp_postfix(old(self)@, expr_view(acc), fuel as nat);
                final(self)@ == st2 && pe(r) == r2
            }),
        decreases fuel,
    {
        if fuel == 0 {
            return Result::Err(self.too_deep());
        }
        if self.check(Type::LeftParen) {
            self.advance();
            let e = match self.finish_call(acc, fuel - 1) {
                Result::Ok(e) => e,
                Result::Err(err) => {
                    return Result::Err(err);
                },
            };
            self.postfix(e, fuel - 1)
        } else if self.check(Type::Dot) {
            self.advance();
            let name = match self.consume(Type::Identifier, "Expected property name after '.'") {
                Result::Ok(t) => t,
                Result::Err(err) => {
                    return Result::Err(err);
                },
            };
            self.postfix(
                Expr::Get(crate::expr::GetData { object: Box::new(acc), name }),
                fuel - 1,
            )
        } else {
            Result::Ok(acc)
        }
    }

    /// Parses a call's argument list after its opening parenthesis.
    #[verifier::spinoff_prover]
    fn finish_call(&mut self, callee: Expr, fuel: u64) -> (r: Result<Expr, ParseError>)
        ensures
            ({
                let (st2, r2) = sp_finish_call(old(self)@, expr_view(callee), fuel as nat);
                final(self)@ == st2 && pe(r) == r2
            }),
        decreases fuel,
    {
        if fuel == 0 {
            return Result::Err(self.too_deep());
        }
        let arguments: Vec<Expr> = if !self.check(Type::RightParen) {
            let fresh: Vec<Expr> = Vec::new();
            proof {
                assert(crate::expr::exprs_view(fresh@) =~= Seq::<ExprV>::empty());
            }
            match self.args(fresh, fuel - 1) {
                Result::Ok(a) => a,
                Result::Err(err) => {
                    return Result::Err(err);
                },
            }
        } else {
            let empty: Vec<Expr> = Vec::new();
            proof {
                assert(crate::expr::exprs_view(empty@) =~= Seq::<ExprV>::empty());
            }
            empty
        };
        match self.consume(Type::RightParen, "Expect ')' after arguments") {
            Result::Ok(paren) => Result::Ok(
                Expr::Call(
                    crate::expr::CallData { callee: Box::new(callee), paren, arguments },
                ),
            ),
            Result::Err(err) => Result::Err(err),
        }
    }

    /// Parses a call's arguments, at least one.
    #[verifier::spinoff_prover]
    fn args(&mut self, acc: Vec<Expr>, fuel: u64) -> (r: Result<Vec<Expr>, ParseError>)
        ensures
            ({
                let (st2, r2) = sp_args(old(self)@, crate::expr::exprs_view(acc@), fuel as nat);
                final(self)@ == st2 && (match (r, r2) {
                    (Result::Ok(v), Result::Ok(sv)) => crate::expr::exprs_view(v@) == sv,
                    (Result::Err(a), Result::Err(b)) => a@ == b,
                    _ => false,
                })
            }),
        decreases fuel,
    {
        if fuel == 0 {
            return Result::Err(self.too_deep());
        }
        proof {
            lemma_exprs_view_index(acc@);
        }
        if acc.len() >= 255 {
            let t = self.peek_clone();
            self.perr(t, "Cannot have more than 255 arguments".to_owned());
        }
        let e = match self.expression(fuel - 1) {
            Result::Ok(e) => e,
            Result::Err(err) => {
                return Result::Err(err);
            },
        };
        let ghost accv = crate::expr::exprs_view(acc@);
        let mut acc2 = acc;
        acc2.push(e);
        proof {
            assert(acc2@.drop_last() =~= acc@);
            assert(crate::expr::exprs_view(acc2@) =~= accv.push(expr_view(acc2@.last())));
        }
        if self.check(Type::Comma) {
            self.advance();
            self.args(acc2, fuel - 1)
        } else {
            Result::Ok(acc2)
        }
    }

    /// Parses a primary expression.
    #[verifier::spinoff_prover]
    #[verifier::rlimit(100)]
    fn primary(&mut self, fuel: u64) -> (r: Result<Expr, ParseError>)
        ensures
            ({
                let (st2, r2) = sp_primary(old(self)@, fuel as nat);
                final(self)@ == st2 && pe(r) == r2
            }),
        decreases fuel,
    {
        if fuel == 0 {
            return Result::Err(self.too_deep());
        }
        if self.check(Type::False) {
            self.advance();
            return Result::Ok(Expr::Literal(Literal::Bool(false)));
        }
        if self.check(Type::True) {
            self.advance();
            return Result::Ok(Expr::Literal(Literal::Bool(true)));
        }
        if self.check(Type::Null) {
            self.advance();
            return Result::Ok(Expr::Literal(Literal::Null));
        }
        if self.check(Type::Number) || self.check(Type::Str) {
            let t = self.peek_clone();
            match t.literal {
                Option::Some(l) => {
                    self.advance();
                    return Result::Ok(Expr::Literal(l));
                },
                Option::None => {
                    return Result::Err(
                        ParseError {
                            token: t,
                            message: "Literal token carries no value".to_owned(),
                        },
                    );
                },
            }
        }
        if self.check(Type::Super) {
            let keyword = self.peek_clone();
            self.advance();
            match self.consume(Type::Dot, "Expect '.' after 'super'") {
                Result::Ok(_) => (),
                Result::Err(err) => {
                    return Result::Err(err);
                },
            }
            let method = match self.consume(Type::Identifier, "Expect superclass method name") {
                Result::Ok(t) => t,
                Result::Err(err) => {
                    return Result::Err(err);
                },
            };
            let slot = self.next_slot();
            return Result::Ok(Expr::Super(crate::expr::SuperData { keyword, method, slot }));
        }
        if self.check(Type::This) {
            let keyword = self.peek_clone();
            self.advance();
            let slot = self.next_slot();
            return Result::Ok(Expr::This(crate::expr::ThisData { keyword, slot }));
        }
        if self.check(Type::Identifier) {
            let name = self.peek_clone();
            self.advance();
            let slot = self.next_slot();
            return Result::Ok(Expr::Variable(crate::expr::VariableData { name, slot }));
        }
        if self.check(Type::LeftParen) {
            self.advance();
            let e = match self.expression(fuel - 1) {
                Result::Ok(e) => e,
                Result::Err(err) => {
                    return Result::Err(err);
                },
            };
            return match self.consume(Type::RightParen, "Expected ')' after expression") {
                Result::Ok(_) => Result::Ok(
                    Expr::Grouping(crate::expr::GroupingData { expr: Box::new(e) }),
                ),
                Result::Err(err) => Result::Err(err),
            };
        }
        Result::Err(
            ParseError { token: self.peek_clone(), message: "Expected expression".to_owned() },
        )
    }
}

/// The ghost value of an expression list is its expressions' ghost
/// values, in order.
proof fn lemma_exprs_view_index(es: Seq<Expr>)
    ensures
        crate::expr::exprs_view(es).len() == es.len(),
        forall|i: int| 0 <= i < es.len() ==> crate::expr::exprs_view(es)[i] == expr_view(
            #[trigger] es[i],
        ),
    decreases es.len(),
{
    if es.len() > 0 {
        lemma_exprs_view_index(es.drop_last());
        assert forall|i: int| 0 <= i < es.len() implies crate::expr::exprs_view(es)[i]
            == expr_view(#[trigger] es[i]) by {
            if i < es.len() - 1 {
                assert(es.drop_last()[i] == es[i]);
            } else {
                assert(es[i] == es.last());
            }
        }
    }
}

/// A statement list whose tail reads as `rest` and whose head was pushed
/// in front reads as the head followed by `rest`.
proof fn lemma_stmts_view_push_front(out: Seq<Stmt>, restv: Seq<StmtV>)
    requires
        out.len() >= 1,
        stmts_view(out.subrange(1, out.len() as int)) == restv,
    ensures
        stmts_view(out) == seq![stmt_view(out[0])] + restv,
    decreases out.len(),
{
    let sub = out.subrange(1, out.len() as int);
    lemma_stmts_view_index(out);
    lemma_stmts_view_index(sub);
    assert forall|i: int| 0 <= i < out.len() implies stmts_view(out)[i] == (seq![
        stmt_view(out[0]),
    ] + restv)[i] by {
        if i >= 1 {
            assert(sub[i - 1] == out[i]);
            assert(restv[i - 1] == stmt_view(sub[i - 1]));
        }
    }
    assert(stmts_view(out) =~= seq![stmt_view(out[0])] + restv);
}

/// The ghost value of a statement list is its statements' ghost values,
/// in order.
proof fn lemma_stmts_view_index(ss: Seq<Stmt>)
    ensures
        stmts_view(ss).len() == ss.len(),
        forall|i: int| 0 <= i < ss.len() ==> stmts_view(ss)[i] == stmt_view(#[trigger] ss[i]),
    decreases ss.len(),
{
    if ss.len() > 0 {
        lemma_stmts_view_index(ss.drop_last());
        assert forall|i: int| 0 <= i < ss.len() implies stmts_view(ss)[i] == stmt_view(
            #[trigger] ss[i],
        ) by {
            if i < ss.len() - 1 {
                assert(ss.drop_last()[i] == ss[i]);
            } else {
                assert(ss[i] == ss.last());
            }
        }
    }
}

} // verus!
