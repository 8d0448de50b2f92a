//! A tree-walking interpreter for a small dynamically typed language with
//! lexical scoping, closures, classes and single inheritance.
//!
//! The pipeline has two verified passes. The resolver walks the parsed
//! program once and records, for every variable reference, how many scopes
//! lie between the reference and the declaration it denotes. The
//! interpreter then walks the same program and evaluates it against a chain
//! of environments, consulting the resolver's table for every resolved
//! variable; closures, bound methods and `super` all reuse that chain.
//!
//! Scope frames, functions, classes and instances live in arenas inside the
//! interpreter and are named by handles, so that many closures can share
//! one frame and many instances one class. The behaviour of both passes is
//! specified by spec-level functions over a ghost model of that state, and
//! each executable step is proved to agree with its spec.

use vstd::prelude::*;

use crate::error::{ResolveErrV, ResolveError, RuntimeError};
use crate::interpreter::{sp_initial, sp_interpret, Interpreter, StateV, FUEL};
use crate::resolver::{sp_resolve_stmts, sp_resolver_initial, Resolver};
use crate::stmt::Stmt;

pub mod class;
pub mod display;
pub mod environment;
pub mod error;
pub mod expr;
pub mod function;
pub mod interpreter;
pub mod literal;
pub mod object;
pub mod parser;
pub mod resolver;
pub mod scanner;
pub mod stmt;
pub mod token;

verus! {

/// Why a run produced no result: the program failed resolution, with the
/// scoping violations found, or it failed while running, with the first
/// runtime error. A program that fails resolution is never executed.
#[derive(Debug)]
pub enum RunError {
    Resolve(Vec<ResolveError>),
    Runtime(RuntimeError),
}

/// The language front: one interpreter, fed one resolved program after
/// another, as a file run or a prompt loop hands them over.
#[allow(non_camel_case_types)]
pub struct rocks {
    /// The interpreter that carries state across runs.
    pub interpreter: Interpreter,
}

impl rocks {
    /// Creates a fresh front whose global scope holds the host's native
    /// functions.
    pub fn new() -> (r: rocks)
        ensures
            r.interpreter@ == sp_initial(),
    {
        rocks { interpreter: Interpreter::new() }
    }

    /// Runs a parsed program: a fresh resolver walks it, and a program
    /// with any scoping violation is rejected without being executed;
    /// otherwise the resolver's table is installed and the program is
    /// interpreted to its end or to its first runtime error.
    pub fn run(&mut self, statements: &Vec<Stmt>) -> (r: Result<(), RunError>)
        ensures
            ({
                let rsv = sp_resolve_stmts(sp_resolver_initial(), statements@, 0);
                let st0 = StateV { locals: rsv.table, ..old(self).interpreter@ };
                let (st2, res) = sp_interpret(st0, statements@, FUEL as nat);
                match r {
                    Result::Ok(_) => rsv.errors.len() == 0 && final(self).interpreter@ == st2
                        && res is None,
                    Result::Err(RunError::Resolve(es)) => rsv.errors.len() > 0 && es@.map_values(
                        |e: ResolveError| e@,
                    ) == rsv.errors && *final(self) == *old(self),
                    Result::Err(RunError::Runtime(e)) => rsv.errors.len() == 0
                        && final(self).interpreter@ == st2 && res == Option::Some(e@),
                }
            }),
    {
        let mut resolver = Resolver::new();
        resolver.resolve(statements);
        if resolver.errors.len() > 0 {
            return Result::Err(RunError::Resolve(resolver.errors));
        }
        self.interpreter.set_table(resolver.table);
        match self.interpreter.interpret(statements) {
            Result::Ok(_) => Result::Ok(()),
            Result::Err(e) => Result::Err(RunError::Runtime(e)),
        }
    }
}

} // verus!
