use vstd::prelude::*;

use std::rc::Rc;

use crate::class::{
    classes_view, instances_view, sp_get_method, ClassV, Class, InstV, Instance,
};
use crate::environment::{
    frames_view, sp_env_assign, sp_env_assign_at, sp_env_get, sp_env_get_at, sp_lookup,
    Environment, FrameV,
};
use crate::error::{ErrV, ErrorKind, RuntimeError};
use crate::expr::Expr;
use crate::function::{FunV, Function};
use crate::literal::LitV;
use crate::object::{sp_binary, sp_truthy, sp_unary, Object, ValueV};
use crate::stmt::Stmt;
use crate::token::{Location, Token, TokenV, Type};

verus! {

/// Ghost model of the whole runtime state: the four arenas, the handles of
/// the current and the global frame, the resolution table, the values
/// printed so far, and the queue of host-supplied native results.
pub ghost struct StateV {
    pub frames: Seq<FrameV>,
    pub funs: Seq<FunV>,
    pub classes: Seq<ClassV>,
    pub instances: Seq<InstV>,
    pub current: int,
    pub globals: int,
    pub locals: Seq<Option<usize>>,
    pub output: Seq<ValueV>,
    pub natives: Seq<ValueV>,
    pub native_pos: int,
}

/// How the execution of a statement ended. The `Ret` and `Brk` signals
/// thread through ordinary execution and are caught at function-call and
/// loop boundaries; they are not errors and never reach the driver.
pub ghost enum FlowV {
    Norm,
    Ret(ValueV),
    Brk,
    Fail(ErrV),
}

/// The token reported with conditions that have no token of their own.
pub open spec fn sp_dummy_token() -> TokenV {
    TokenV {
        kind: Type::Identifier,
        lexeme: Seq::<char>::empty(),
        literal: Option::None,
        location: Location { line: 0, column: 0 },
    }
}

/// The error that stands for the evaluation budget running out; it plays
/// the role of the host's stack exhaustion and is not catchable.
pub open spec fn sp_exhausted() -> ErrV {
    ErrV { token: sp_dummy_token(), kind: ErrorKind::Exhausted }
}

/// The resolved distance of a reference: its table entry, or `None` both
/// for a reference the resolver left global and for a slot beyond the
/// table.
pub open spec fn sp_slot(locals: Seq<Option<usize>>, slot: usize) -> Option<usize> {
    if slot < locals.len() {
        locals[slot as int]
    } else {
        Option::None
    }
}

/// Reading a variable: at its resolved distance when the table has one,
/// else by chain lookup from the global frame.
pub open spec fn sp_lookup_var(st: StateV, name: Seq<char>, slot: usize) -> Result<
    ValueV,
    ErrorKind,
> {
    match sp_slot(st.locals, slot) {
        Option::Some(d) => sp_env_get_at(st.frames, st.current, d as nat, name),
        Option::None => sp_env_get(st.frames, st.globals, name),
    }
}

/// Writing a variable: at its resolved distance when the table has one,
/// else by chain assignment from the global frame.
pub open spec fn sp_assign_var(st: StateV, name: Seq<char>, slot: usize, v: ValueV) -> Result<
    Seq<FrameV>,
    ErrorKind,
> {
    match sp_slot(st.locals, slot) {
        Option::Some(d) => sp_env_assign_at(st.frames, st.current, d as nat, name, v),
        Option::None => sp_env_assign(st.frames, st.globals, name, v),
    }
}

/// Binding a name in the current frame; misses only on a corrupt current
/// handle, which the interpreter never produces.
pub open spec fn sp_define_cur(st: StateV, name: Seq<char>, v: ValueV) -> Option<StateV> {
    if 0 <= st.current < st.frames.len() {
        Option::Some(
            StateV {
                frames: st.frames.update(
                    st.current,
                    FrameV {
                        enclosing: st.frames[st.current].enclosing,
                        entries: st.frames[st.current].entries.push((name, v)),
                    },
                ),
                ..st
            },
        )
    } else {
        Option::None
    }
}

/// The parameter frame of a call: each parameter bound to its argument, in
/// order.
pub open spec fn sp_param_entries(params: Seq<Seq<char>>, args: Seq<ValueV>) -> Seq<
    (Seq<char>, ValueV),
> {
    Seq::new(params.len(), |i: int| (params[i], args[i]))
}

/// Binding a closure to a receiver: a fresh frame defining `this` as the
/// receiver is pushed over the closure's captured frame, and a fresh
/// closure capturing that frame is made. Returns the new state and the new
/// closure's handle.
pub open spec fn sp_bind(st: StateV, fid: int, recv: ValueV) -> (StateV, int) {
    let f = st.funs[fid];
    let frame = FrameV {
        enclosing: Option::Some(f.closure),
        entries: seq![("this"@, recv)],
    };
    let nf = FunV { closure: st.frames.len() as int, ..f };
    (
        StateV { frames: st.frames.push(frame), funs: st.funs.push(nf), ..st },
        st.funs.len() as int,
    )
}

/// The arity of a callable class: its initializer's arity, or zero without
/// an initializer.
pub open spec fn sp_class_arity(st: StateV, cid: int) -> Option<nat> {
    match sp_get_method(st.classes, cid, "init"@) {
        Option::Some(fid) => if 0 <= fid < st.funs.len() {
            Option::Some(st.funs[fid].params.len())
        } else {
            Option::None
        },
        Option::None => Option::Some(0),
    }
}

/// The methods a class statement declares, walked from index `i`: each
/// function declaration among them becomes a closure over `closure`, the
/// one named `init` marked as initializer. Returns the closure arena after
/// the walk and the class's method list. Anything that is not a function
/// declaration cannot come out of the parser and is passed over.
pub open spec fn sp_make_methods(funs: Seq<FunV>, methods: Seq<Stmt>, i: int, closure: int) -> (
    Seq<FunV>,
    Seq<(Seq<char>, int)>,
)
    decreases methods.len() - i,
{
    if i < 0 || i >= methods.len() {
        (funs, Seq::empty())
    } else {
        match methods[i] {
            Stmt::Function(f) => {
                let nf = FunV {
                    name: f.name.lexeme@,
                    params: f.params@.map_values(|t: Token| t.lexeme@),
                    body: f.body@,
                    closure,
                    is_init: f.name.lexeme@ == "init"@,
                };
                let (funs2, rest) = sp_make_methods(funs.push(nf), methods, i + 1, closure);
                (funs2, seq![(f.name.lexeme@, funs.len() as int)] + rest)
            },
            _ => sp_make_methods(funs, methods, i + 1, closure),
        }
    }
}

/// Evaluation of an expression: the state after it and its value or the
/// error that aborted it. Every level of evaluation spends one unit of
/// fuel; `sp_exhausted` stands for the budget running out and plays the
/// role of the host's stack exhaustion.
pub open spec fn sp_eval(st: StateV, e: Expr, fuel: nat) -> (StateV, Result<ValueV, ErrV>)
    decreases fuel, 6nat,
{
    if fuel == 0 {
        (st, Result::Err(sp_exhausted()))
    } else {
        let rem = (fuel - 1) as nat;
        match e {
            Expr::Literal(l) => (st, Result::Ok(ValueV::Lit(l@))),
            Expr::Grouping(g) => sp_eval(st, *g.expr, rem),
            Expr::Logical(l) => sp_eval_logical(st, l, rem),
            Expr::Unary(u) => sp_eval_unary(st, u, rem),
            Expr::Binary(b) => sp_eval_binary(st, b, rem),
            Expr::Variable(v) => sp_eval_variable(st, v),
            Expr::Assign(a) => sp_eval_assign(st, a, rem),
            Expr::Call(c) => sp_eval_call(st, c, rem),
            Expr::Get(g) => sp_eval_get(st, g, rem),
            Expr::SetProp(sp) => sp_eval_set(st, sp, rem),
            Expr::This(t) => sp_eval_this(st, t),
            Expr::Super(su) => sp_eval_super(st, su),
        }
    }
}

/// A short-circuiting logical expression: the left operand decides whether
/// the right one is evaluated at all, and an operand's own value, not a
/// canonicalized boolean, is the result.
pub open spec fn sp_eval_logical(st: StateV, l: crate::expr::LogicalData, rem: nat) -> (
    StateV,
    Result<ValueV, ErrV>,
)
    decreases rem, 7nat,
{
    let (st1, r1) = sp_eval(st, *l.left, rem);
    match r1 {
        Result::Ok(v) => match l.operator.kind {
            Type::Or => if sp_truthy(v) {
                (st1, Result::Ok(v))
            } else {
                sp_eval(st1, *l.right, rem)
            },
            Type::And => if !sp_truthy(v) {
                (st1, Result::Ok(v))
            } else {
                sp_eval(st1, *l.right, rem)
            },
            _ => (st1, Result::Err(ErrV { token: l.operator@, kind: ErrorKind::Corrupt })),
        },
        Result::Err(err) => (st1, Result::Err(err)),
    }
}

/// A unary expression: the operand, then the operator on it.
pub open spec fn sp_eval_unary(st: StateV, u: crate::expr::UnaryData, rem: nat) -> (
    StateV,
    Result<ValueV, ErrV>,
)
    decreases rem, 7nat,
{
    let (st1, r1) = sp_eval(st, *u.expr, rem);
    match r1 {
        Result::Ok(v) => match sp_unary(u.operator.kind, v) {
            Result::Ok(v2) => (st1, Result::Ok(v2)),
            Result::Err(k) => (st1, Result::Err(ErrV { token: u.operator@, kind: k })),
        },
        Result::Err(err) => (st1, Result::Err(err)),
    }
}

/// A binary expression: the left operand, the right one, then the
/// operator on both.
pub open spec fn sp_eval_binary(st: StateV, b: crate::expr::BinaryData, rem: nat) -> (
    StateV,
    Result<ValueV, ErrV>,
)
    decreases rem, 7nat,
{
    let (st1, r1) = sp_eval(st, *b.left, rem);
    match r1 {
        Result::Ok(lv) => {
            let (st2, r2) = sp_eval(st1, *b.right, rem);
            match r2 {
                Result::Ok(rv) => match sp_binary(b.operator.kind, lv, rv) {
                    Result::Ok(v) => (st2, Result::Ok(v)),
                    Result::Err(k) => (st2, Result::Err(ErrV { token: b.operator@, kind: k })),
                },
                Result::Err(err) => (st2, Result::Err(err)),
            }
        },
        Result::Err(err) => (st1, Result::Err(err)),
    }
}

/// A variable read, through the resolution table.
pub open spec fn sp_eval_variable(st: StateV, v: crate::expr::VariableData) -> (
    StateV,
    Result<ValueV, ErrV>,
) {
    match sp_lookup_var(st, v.name.lexeme@, v.slot) {
        Result::Ok(val) => (st, Result::Ok(val)),
        Result::Err(k) => (st, Result::Err(ErrV { token: v.name@, kind: k })),
    }
}

/// A `this` read, resolved exactly like a variable.
pub open spec fn sp_eval_this(st: StateV, t: crate::expr::ThisData) -> (
    StateV,
    Result<ValueV, ErrV>,
) {
    match sp_lookup_var(st, "this"@, t.slot) {
        Result::Ok(val) => (st, Result::Ok(val)),
        Result::Err(k) => (st, Result::Err(ErrV { token: t.keyword@, kind: k })),
    }
}

/// An assignment: the value, then the write through the resolution table;
/// the value is also the expression's result.
pub open spec fn sp_eval_assign(st: StateV, a: crate::expr::AssignData, rem: nat) -> (
    StateV,
    Result<ValueV, ErrV>,
)
    decreases rem, 7nat,
{
    let (st1, r1) = sp_eval(st, *a.value, rem);
    match r1 {
        Result::Ok(v) => match sp_assign_var(st1, a.name.lexeme@, a.slot, v) {
            Result::Ok(frames) => (StateV { frames, ..st1 }, Result::Ok(v)),
            Result::Err(k) => (st1, Result::Err(ErrV { token: a.name@, kind: k })),
        },
        Result::Err(err) => (st1, Result::Err(err)),
    }
}

/// A call: the callee, the arguments left to right, then the call itself.
pub open spec fn sp_eval_call(st: StateV, c: crate::expr::CallData, rem: nat) -> (
    StateV,
    Result<ValueV, ErrV>,
)
    decreases rem, c.arguments.len() + 9,
{
    let (st1, r1) = sp_eval(st, *c.callee, rem);
    match r1 {
        Result::Ok(cv) => {
            let (st2, r2) = sp_eval_args(st1, c.arguments@, 0, rem);
            match r2 {
                Result::Ok(vs) => sp_call(st2, cv, vs, c.paren@, rem),
                Result::Err(err) => (st2, Result::Err(err)),
            }
        },
        Result::Err(err) => (st1, Result::Err(err)),
    }
}

/// A property read: the instance's own field of the name when it has one,
/// else the class's method of the name, bound to the instance; reading a
/// property of anything but an instance is an error.
pub open spec fn sp_eval_get(st: StateV, g: crate::expr::GetData, rem: nat) -> (
    StateV,
    Result<ValueV, ErrV>,
)
    decreases rem, 7nat,
{
    let (st1, r1) = sp_eval(st, *g.object, rem);
    match r1 {
        Result::Ok(ov) => match ov {
            ValueV::Inst(iid) => if 0 <= iid < st1.instances.len() {
                match sp_lookup(st1.instances[iid].fields, g.name.lexeme@) {
                    Option::Some(v) => (st1, Result::Ok(v)),
                    Option::None => {
                        match sp_get_method(st1.classes, st1.instances[iid].class, g.name.lexeme@) {
                            Option::Some(fid) => if 0 <= fid < st1.funs.len() {
                                let (st2, bid) = sp_bind(st1, fid, ov);
                                (st2, Result::Ok(ValueV::Fun(bid)))
                            } else {
                                (
                                    st1,
                                    Result::Err(ErrV { token: g.name@, kind: ErrorKind::Corrupt }),
                                )
                            },
                            Option::None => (
                                st1,
                                Result::Err(
                                    ErrV { token: g.name@, kind: ErrorKind::UndefinedProperty },
                                ),
                            ),
                        }
                    },
                }
            } else {
                (st1, Result::Err(ErrV { token: g.name@, kind: ErrorKind::Corrupt }))
            },
            _ => (
                st1,
                Result::Err(
                    ErrV { token: g.name@, kind: ErrorKind::OnlyInstancesHaveProperties },
                ),
            ),
        },
        Result::Err(err) => (st1, Result::Err(err)),
    }
}

/// A field write: the target is evaluated and must be an instance before
/// the value is evaluated; the written value is also the result.
pub open spec fn sp_eval_set(st: StateV, s: crate::expr::SetData, rem: nat) -> (
    StateV,
    Result<ValueV, ErrV>,
)
    decreases rem, 7nat,
{
    let (st1, r1) = sp_eval(st, *s.object, rem);
    match r1 {
        Result::Ok(ov) => match ov {
            ValueV::Inst(iid) => if 0 <= iid < st1.instances.len() {
                let (st2, r2) = sp_eval(st1, *s.value, rem);
                match r2 {
                    Result::Ok(v) => if 0 <= iid < st2.instances.len() {
                        let inst = st2.instances[iid];
                        let st3 = StateV {
                            instances: st2.instances.update(
                                iid,
                                InstV {
                                    class: inst.class,
                                    fields: inst.fields.push((s.name.lexeme@, v)),
                                },
                            ),
                            ..st2
                        };
                        (st3, Result::Ok(v))
                    } else {
                        (st2, Result::Err(ErrV { token: s.name@, kind: ErrorKind::Corrupt }))
                    },
                    Result::Err(err) => (st2, Result::Err(err)),
                }
            } else {
                (st1, Result::Err(ErrV { token: s.name@, kind: ErrorKind::Corrupt }))
            },
            _ => (
                st1,
                Result::Err(ErrV { token: s.name@, kind: ErrorKind::OnlyInstancesHaveFields }),
            ),
        },
        Result::Err(err) => (st1, Result::Err(err)),
    }
}

/// A `super.method` reference: the superclass stored at the resolved
/// distance, the receiver one frame below it, and the method looked up
/// from that superclass — not from the receiver's own class — and bound to
/// the receiver.
pub open spec fn sp_eval_super(st: StateV, s: crate::expr::SuperData) -> (
    StateV,
    Result<ValueV, ErrV>,
) {
    match sp_slot(st.locals, s.slot) {
        Option::Some(d) => {
            match sp_env_get_at(st.frames, st.current, d as nat, "super"@) {
                Result::Ok(sv) => match sv {
                    ValueV::Class(cid) => if d >= 1 {
                        match sp_env_get_at(st.frames, st.current, (d - 1) as nat, "this"@) {
                            Result::Ok(recv) => {
                                match sp_get_method(st.classes, cid, s.method.lexeme@) {
                                    Option::Some(fid) => if 0 <= fid < st.funs.len() {
                                        let (st2, bid) = sp_bind(st, fid, recv);
                                        (st2, Result::Ok(ValueV::Fun(bid)))
                                    } else {
                                        (
                                            st,
                                            Result::Err(
                                                ErrV {
                                                    token: s.method@,
                                                    kind: ErrorKind::Corrupt,
                                                },
                                            ),
                                        )
                                    },
                                    Option::None => (
                                        st,
                                        Result::Err(
                                            ErrV {
                                                token: s.method@,
                                                kind: ErrorKind::UndefinedProperty,
                                            },
                                        ),
                                    ),
                                }
                            },
                            Result::Err(k) => (
                                st,
                                Result::Err(ErrV { token: s.keyword@, kind: k }),
                            ),
                        }
                    } else {
                        (st, Result::Err(ErrV { token: s.keyword@, kind: ErrorKind::Corrupt }))
                    },
                    _ => (st, Result::Err(ErrV { token: s.keyword@, kind: ErrorKind::Corrupt })),
                },
                Result::Err(k) => (st, Result::Err(ErrV { token: s.keyword@, kind: k })),
            }
        },
        Option::None => (st, Result::Err(ErrV { token: s.keyword@, kind: ErrorKind::Corrupt })),
    }
}

/// Evaluation of a call's arguments from index `i` on, left to right,
/// aborting at the first error.
pub open spec fn sp_eval_args(st: StateV, args: Seq<Expr>, i: int, fuel: nat) -> (
    StateV,
    Result<Seq<ValueV>, ErrV>,
)
    decreases fuel, args.len() - i + 8,
{
    if i < 0 || i >= args.len() {
        (st, Result::Ok(Seq::empty()))
    } else {
        let (st1, r1) = sp_eval(st, args[i], fuel);
        match r1 {
            Result::Ok(v) => {
                let (st2, r2) = sp_eval_args(st1, args, i + 1, fuel);
                match r2 {
                    Result::Ok(vs) => (st2, Result::Ok(seq![v] + vs)),
                    Result::Err(err) => (st2, Result::Err(err)),
                }
            },
            Result::Err(err) => (st1, Result::Err(err)),
        }
    }
}

/// A call on an evaluated callee and arguments. Only closures, native
/// functions and classes are callable, each after an arity check; the
/// error names the expected and the supplied count. A native function
/// yields the next host-supplied result, or `null` when none is queued.
pub open spec fn sp_call(st: StateV, callee: ValueV, args: Seq<ValueV>, paren: TokenV, fuel: nat) -> (
    StateV,
    Result<ValueV, ErrV>,
)
    decreases fuel, 4nat,
{
    match callee {
        ValueV::Fun(fid) => if 0 <= fid < st.funs.len() {
            if args.len() != st.funs[fid].params.len() {
                (
                    st,
                    Result::Err(
                        ErrV {
                            token: paren,
                            kind: ErrorKind::WrongArity(
                                st.funs[fid].params.len() as usize,
                                args.len() as usize,
                            ),
                        },
                    ),
                )
            } else {
                sp_call_function(st, fid, args, paren, fuel)
            }
        } else {
            (st, Result::Err(ErrV { token: paren, kind: ErrorKind::Corrupt }))
        },
        ValueV::Native(_) => if args.len() != 0 {
            (
                st,
                Result::Err(
                    ErrV { token: paren, kind: ErrorKind::WrongArity(0, args.len() as usize) },
                ),
            )
        } else if 0 <= st.native_pos < st.natives.len() {
            (
                StateV { native_pos: st.native_pos + 1, ..st },
                Result::Ok(st.natives[st.native_pos]),
            )
        } else {
            (st, Result::Ok(ValueV::Lit(LitV::Null)))
        },
        ValueV::Class(cid) => sp_call_class(st, cid, args, paren, fuel),
        _ => (st, Result::Err(ErrV { token: paren, kind: ErrorKind::NotCallable })),
    }
}

/// A call on a class: arity-checked against its initializer, a fresh
/// instance made, and the initializer run on it when there is one; the
/// instance is the result either way.
pub open spec fn sp_call_class(st: StateV, cid: int, args: Seq<ValueV>, paren: TokenV, fuel: nat) -> (
    StateV,
    Result<ValueV, ErrV>,
)
    decreases fuel, 3nat,
{
    if 0 <= cid < st.classes.len() {
        match sp_class_arity(st, cid) {
            Option::Some(arity) => if args.len() != arity {
                (
                    st,
                    Result::Err(
                        ErrV {
                            token: paren,
                            kind: ErrorKind::WrongArity(arity as usize, args.len() as usize),
                        },
                    ),
                )
            } else {
                let iid = st.instances.len() as int;
                let st1 = StateV {
                    instances: st.instances.push(InstV { class: cid, fields: Seq::empty() }),
                    ..st
                };
                match sp_get_method(st1.classes, cid, "init"@) {
                    Option::Some(fid) => {
                        let (st2, bid) = sp_bind(st1, fid, ValueV::Inst(iid));
                        let (st3, r) = sp_call_function(st2, bid, args, paren, fuel);
                        match r {
                            Result::Ok(_) => (st3, Result::Ok(ValueV::Inst(iid))),
                            Result::Err(err) => (st3, Result::Err(err)),
                        }
                    },
                    Option::None => (st1, Result::Ok(ValueV::Inst(iid))),
                }
            },
            Option::None => (st, Result::Err(ErrV { token: paren, kind: ErrorKind::Corrupt })),
        }
    } else {
        (st, Result::Err(ErrV { token: paren, kind: ErrorKind::Corrupt }))
    }
}

/// A call of a closure whose arity was already checked: a fresh frame over
/// the captured frame binds each parameter to its argument, the body runs
/// in it, and the caller's frame is current again afterwards. A normal end
/// yields `null`, a `return` its value; an initializer yields its `this`
/// in both cases. A `break` escaping the body is an error.
pub open spec fn sp_call_function(
    st: StateV,
    fid: int,
    args: Seq<ValueV>,
    paren: TokenV,
    fuel: nat,
) -> (StateV, Result<ValueV, ErrV>)
    decreases fuel, 2nat,
{
    if fuel == 0 {
        (st, Result::Err(sp_exhausted()))
    } else {
        let f = st.funs[fid];
        let frame = FrameV {
            enclosing: Option::Some(f.closure),
            entries: sp_param_entries(f.params, args),
        };
        let st1 = StateV { frames: st.frames.push(frame), current: st.frames.len() as int, ..st };
        let (st2, flow) = sp_exec_stmts(st1, f.body, 0, (fuel - 1) as nat);
        let st3 = StateV { current: st.current, ..st2 };
        match flow {
            FlowV::Norm => if f.is_init {
                match sp_env_get_at(st3.frames, f.closure, 0, "this"@) {
                    Result::Ok(v) => (st3, Result::Ok(v)),
                    Result::Err(k) => (st3, Result::Err(ErrV { token: paren, kind: k })),
                }
            } else {
                (st3, Result::Ok(ValueV::Lit(LitV::Null)))
            },
            FlowV::Ret(v) => if f.is_init {
                match sp_env_get_at(st3.frames, f.closure, 0, "this"@) {
                    Result::Ok(tv) => (st3, Result::Ok(tv)),
                    Result::Err(k) => (st3, Result::Err(ErrV { token: paren, kind: k })),
                }
            } else {
                (st3, Result::Ok(v))
            },
            FlowV::Brk => (st3, Result::Err(ErrV { token: paren, kind: ErrorKind::StrayBreak })),
            FlowV::Fail(err) => (st3, Result::Err(err)),
        }
    }
}

/// Execution of a statement: the state after it and how it ended.
pub open spec fn sp_exec_stmt(st: StateV, s: Stmt, fuel: nat) -> (StateV, FlowV)
    decreases fuel, 6nat,
{
    if fuel == 0 {
        (st, FlowV::Fail(sp_exhausted()))
    } else {
        let rem = (fuel - 1) as nat;
        match s {
            Stmt::Expression(d) => {
                let (st1, r) = sp_eval(st, d.expr, rem);
                match r {
                    Result::Ok(_) => (st1, FlowV::Norm),
                    Result::Err(err) => (st1, FlowV::Fail(err)),
                }
            },
            Stmt::Print(d) => sp_stmt_print(st, d, rem),
            Stmt::Var(d) => sp_stmt_var(st, d, rem),
            Stmt::Function(d) => sp_stmt_fun(st, d),
            Stmt::If(d) => sp_stmt_if(st, d, rem),
            Stmt::While(d) => sp_while(st, d.condition, *d.body, rem),
            Stmt::Return(d) => {
                match d.value {
                    Option::Some(e) => {
                        let (st1, r) = sp_eval(st, e, rem);
                        match r {
                            Result::Ok(v) => (st1, FlowV::Ret(v)),
                            Result::Err(err) => (st1, FlowV::Fail(err)),
                        }
                    },
                    Option::None => (st, FlowV::Ret(ValueV::Lit(LitV::Null))),
                }
            },
            Stmt::Break(_) => (st, FlowV::Brk),
            Stmt::Block(d) => sp_stmt_block(st, d, rem),
            Stmt::Class(d) => sp_exec_class_body(st, d, rem),
        }
    }
}

/// A `print` statement: the value joins the output.
pub open spec fn sp_stmt_print(st: StateV, d: crate::stmt::PrintData, rem: nat) -> (StateV, FlowV)
    decreases rem, 7nat,
{
    let (st1, r) = sp_eval(st, d.expr, rem);
    match r {
        Result::Ok(v) => (StateV { output: st1.output.push(v), ..st1 }, FlowV::Norm),
        Result::Err(err) => (st1, FlowV::Fail(err)),
    }
}

/// A variable declaration: the initializer's value, or `null`, bound in
/// the current frame.
pub open spec fn sp_stmt_var(st: StateV, d: crate::stmt::VarData, rem: nat) -> (StateV, FlowV)
    decreases rem, 7nat,
{
    let (st1, r) = match d.initializer {
        Option::Some(e) => sp_eval(st, e, rem),
        Option::None => (st, Result::Ok(ValueV::Lit(LitV::Null))),
    };
    match r {
        Result::Ok(v) => match sp_define_cur(st1, d.name.lexeme@, v) {
            Option::Some(st2) => (st2, FlowV::Norm),
            Option::None => (st1, FlowV::Fail(ErrV { token: d.name@, kind: ErrorKind::Corrupt })),
        },
        Result::Err(err) => (st1, FlowV::Fail(err)),
    }
}

/// A function declaration: a closure over the current frame, bound under
/// the function's name; the name is bound after the closure captures the
/// frame, so the body can call the name recursively.
pub open spec fn sp_stmt_fun(st: StateV, d: crate::stmt::FunctionData) -> (StateV, FlowV) {
    let nf = FunV {
        name: d.name.lexeme@,
        params: d.params@.map_values(|t: Token| t.lexeme@),
        body: d.body@,
        closure: st.current,
        is_init: false,
    };
    let fid = st.funs.len() as int;
    let st1 = StateV { funs: st.funs.push(nf), ..st };
    match sp_define_cur(st1, d.name.lexeme@, ValueV::Fun(fid)) {
        Option::Some(st2) => (st2, FlowV::Norm),
        Option::None => (st1, FlowV::Fail(ErrV { token: d.name@, kind: ErrorKind::Corrupt })),
    }
}

/// An `if` statement, on the truthiness of its condition.
pub open spec fn sp_stmt_if(st: StateV, d: crate::stmt::IfData, rem: nat) -> (StateV, FlowV)
    decreases rem, 7nat,
{
    let (st1, r) = sp_eval(st, d.condition, rem);
    match r {
        Result::Ok(v) => if sp_truthy(v) {
            sp_exec_stmt(st1, *d.then_branch, rem)
        } else {
            match d.else_branch {
                Option::Some(e) => sp_exec_stmt(st1, *e, rem),
                Option::None => (st1, FlowV::Norm),
            }
        },
        Result::Err(err) => (st1, FlowV::Fail(err)),
    }
}

/// A block: its statements run in a fresh child frame, and the previous
/// frame is current again afterwards, whatever way the block ended — an
/// unwinding `return`, `break` or error does not leak the frame.
pub open spec fn sp_stmt_block(st: StateV, d: crate::stmt::BlockData, rem: nat) -> (StateV, FlowV)
    decreases rem, d.statements.len() + 10,
{
    let frame = FrameV { enclosing: Option::Some(st.current), entries: Seq::empty() };
    let st1 = StateV { frames: st.frames.push(frame), current: st.frames.len() as int, ..st };
    let (st2, flow) = sp_exec_stmts(st1, d.statements@, 0, rem);
    (StateV { current: st.current, ..st2 }, flow)
}

/// The work of a class statement; `rem` is the budget left for its
/// superclass expression, which must evaluate to a class.
pub open spec fn sp_exec_class_body(st: StateV, d: crate::stmt::ClassData, rem: nat) -> (
    StateV,
    FlowV,
)
    decreases rem, 8nat,
{
    match d.superclass {
        Option::Some(e) => {
            let (st1, r) = sp_eval(st, e, rem);
            match r {
                Result::Err(err) => (st1, FlowV::Fail(err)),
                Result::Ok(sv) => match sv {
                    ValueV::Class(sid) => sp_class_finish(st1, d, Option::Some(sid)),
                    _ => (
                        st1,
                        FlowV::Fail(
                            ErrV { token: d.name@, kind: ErrorKind::SuperclassMustBeClass },
                        ),
                    ),
                },
            }
        },
        Option::None => sp_class_finish(st, d, Option::None),
    }
}

/// The rest of a class statement, once its superclass is settled: the
/// class's name is first bound to `null` in the current frame; with a
/// superclass, a frame binding `super` is pushed for the methods to
/// capture; the methods become closures; and the finished class is
/// assigned over the placeholder binding.
pub open spec fn sp_class_finish(st: StateV, d: crate::stmt::ClassData, superclass: Option<int>) -> (
    StateV,
    FlowV,
) {
    match sp_define_cur(st, d.name.lexeme@, ValueV::Lit(LitV::Null)) {
        Option::Some(st2) => {
            let (st3, method_closure) = match superclass {
                Option::Some(sid) => (
                    StateV {
                        frames: st2.frames.push(
                            FrameV {
                                enclosing: Option::Some(st2.current),
                                entries: seq![("super"@, ValueV::Class(sid))],
                            },
                        ),
                        ..st2
                    },
                    st2.frames.len() as int,
                ),
                Option::None => (st2, st2.current),
            };
            let (funs2, mlist) = sp_make_methods(st3.funs, d.methods@, 0, method_closure);
            let cid = st3.classes.len() as int;
            let cls = ClassV { name: d.name.lexeme@, superclass, methods: mlist };
            let st4 = StateV { funs: funs2, classes: st3.classes.push(cls), ..st3 };
            match sp_env_assign(st4.frames, st4.current, d.name.lexeme@, ValueV::Class(cid)) {
                Result::Ok(frames) => (StateV { frames, ..st4 }, FlowV::Norm),
                Result::Err(k) => (st4, FlowV::Fail(ErrV { token: d.name@, kind: k })),
            }
        },
        Option::None => (st, FlowV::Fail(ErrV { token: d.name@, kind: ErrorKind::Corrupt })),
    }
}

/// A `while` loop: the condition is evaluated before each iteration; a
/// `break` from the body ends the loop silently; a `return` or an error
/// passes through.
pub open spec fn sp_while(st: StateV, cond: Expr, body: Stmt, rem: nat) -> (StateV, FlowV)
    decreases rem, 0nat,
{
    if rem == 0 {
        (st, FlowV::Fail(sp_exhausted()))
    } else {
        let (st1, r) = sp_eval(st, cond, (rem - 1) as nat);
        match r {
            Result::Ok(v) => if !sp_truthy(v) {
                (st1, FlowV::Norm)
            } else {
                let (st2, flow) = sp_exec_stmt(st1, body, (rem - 1) as nat);
                match flow {
                    FlowV::Norm => sp_while(st2, cond, body, (rem - 1) as nat),
                    FlowV::Brk => (st2, FlowV::Norm),
                    FlowV::Ret(rv) => (st2, FlowV::Ret(rv)),
                    FlowV::Fail(err) => (st2, FlowV::Fail(err)),
                }
            },
            Result::Err(err) => (st1, FlowV::Fail(err)),
        }
    }
}

/// Execution of a statement list from index `i` on, in the current frame,
/// stopping at the first signal or error.
pub open spec fn sp_exec_stmts(st: StateV, stmts: Seq<Stmt>, i: int, fuel: nat) -> (StateV, FlowV)
    decreases fuel, stmts.len() - i + 8,
{
    if i < 0 || i >= stmts.len() {
        (st, FlowV::Norm)
    } else {
        let (st1, flow) = sp_exec_stmt(st, stmts[i], fuel);
        match flow {
            FlowV::Norm => sp_exec_stmts(st1, stmts, i + 1, fuel),
            _ => (st1, flow),
        }
    }
}

/// A whole program run: the statements in order, ending at the first
/// runtime error. A `return` or `break` that unwinds to the top is itself
/// an error: the signals never reach the driver.
pub open spec fn sp_interpret(st: StateV, stmts: Seq<Stmt>, fuel: nat) -> (StateV, Option<ErrV>) {
    let (st1, flow) = sp_exec_stmts(st, stmts, 0, fuel);
    match flow {
        FlowV::Norm => (st1, Option::None),
        FlowV::Ret(_) => (
            st1,
            Option::Some(ErrV { token: sp_dummy_token(), kind: ErrorKind::StrayReturn }),
        ),
        FlowV::Brk => (
            st1,
            Option::Some(ErrV { token: sp_dummy_token(), kind: ErrorKind::StrayBreak }),
        ),
        FlowV::Fail(err) => (st1, Option::Some(err)),
    }
}

/// The evaluation budget of one program run. It stands for the host's
/// finite call stack: a run that spends it all fails with `Exhausted`, as
/// unbounded recursion would by stack overflow. No terminating program of
/// realistic size comes near it.
pub const FUEL: u64 = 0xFFFF_FFFF_FFFF_FFFF;

/// How the execution of a statement ended, at the executable level.
#[derive(Debug)]
pub enum Flow {
    /// The statement ran to its end.
    Norm,
    /// A `return` is unwinding with its value.
    Ret(Object),
    /// A `break` is unwinding.
    Brk,
    /// A runtime error is unwinding.
    Fail(RuntimeError),
}

impl View for Flow {
    type V = FlowV;

    open spec fn view(&self) -> FlowV {
        match self {
            Flow::Norm => FlowV::Norm,
            Flow::Ret(v) => FlowV::Ret(v@),
            Flow::Brk => FlowV::Brk,
            Flow::Fail(e) => FlowV::Fail(e@),
        }
    }
}

/// The token reported with conditions that have no token of their own.
fn dummy_token() -> (r: Token)
    ensures
        r@ == sp_dummy_token(),
{
    Token::new(Type::Identifier, String::new(), Option::None, Location::new(0, 0))
}

/// The tree-walking evaluator. It owns the arenas every runtime object
/// lives in, the handle of the frame execution stands in, the resolver's
/// table, the output sink, and the queue of host-supplied native results.
pub struct Interpreter {
    /// The arena of scope frames; the global frame is made first.
    pub frames: Vec<Environment>,
    /// The arena of closures.
    pub funs: Vec<Function>,
    /// The arena of classes.
    pub classes: Vec<Class>,
    /// The arena of instances.
    pub instances: Vec<Instance>,
    /// Handle of the frame execution currently stands in.
    pub current: usize,
    /// Handle of the global frame.
    pub globals: usize,
    /// The resolver's table: distance by reference slot.
    pub locals: Vec<Option<usize>>,
    /// The values printed so far, in order.
    pub output: Vec<Object>,
    /// Results the host queued for native function calls.
    pub natives: Vec<Object>,
    /// How many queued native results were consumed.
    pub native_pos: usize,
}

impl View for Interpreter {
    type V = StateV;

    open spec fn view(&self) -> StateV {
        StateV {
            frames: frames_view(self.frames@),
            funs: self.funs@.map_values(|f: Function| f@),
            classes: classes_view(self.classes@),
            instances: instances_view(self.instances@),
            current: self.current as int,
            globals: self.globals as int,
            locals: self.locals@,
            output: self.output@.map_values(|o: Object| o@),
            natives: self.natives@.map_values(|o: Object| o@),
            native_pos: self.native_pos as int,
        }
    }
}

/// The state a fresh interpreter starts in: one global frame binding the
/// host's native functions — a clock and a line-input reader — and
/// nothing else. The host queues what the natives return; a call past the
/// queue yields `null`.
pub open spec fn sp_initial() -> StateV {
    StateV {
        frames: seq![
            FrameV {
                enclosing: Option::None,
                entries: seq![
                    ("clock"@, ValueV::Native("clock"@)),
                    ("input"@, ValueV::Native("input"@)),
                ],
            },
        ],
        funs: Seq::empty(),
        classes: Seq::empty(),
        instances: Seq::empty(),
        current: 0,
        globals: 0,
        locals: Seq::empty(),
        output: Seq::empty(),
        natives: Seq::empty(),
        native_pos: 0,
    }
}

/// The resolution table after recording `depth` for `slot`, growing the
/// table as needed.
pub open spec fn sp_set_slot(locals: Seq<Option<usize>>, slot: usize, depth: usize) -> Seq<
    Option<usize>,
> {
    if slot < locals.len() {
        locals.update(slot as int, Option::Some(depth))
    } else {
        locals + Seq::new((slot - locals.len()) as nat, |i: int| Option::None).push(Option::Some(depth))
    }
}

impl Interpreter {
    /// Creates an interpreter whose global scope holds the two native
    /// functions of the host, `clock` and `input`.
    pub fn new() -> (r: Interpreter)
        ensures
            r@ == sp_initial(),
    {
        let mut globals_frame = Environment::new(Option::None);
        globals_frame.define(
            "clock".to_owned(),
            Object::NativeFunction(crate::object::NativeFunction { name: "clock".to_owned() }),
        );
        globals_frame.define(
            "input".to_owned(),
            Object::NativeFunction(crate::object::NativeFunction { name: "input".to_owned() }),
        );
        proof {
            assert(globals_frame@.entries =~= seq![
                ("clock"@, ValueV::Native("clock"@)),
                ("input"@, ValueV::Native("input"@)),
            ]);
        }
        let mut frames: Vec<Environment> = Vec::new();
        frames.push(globals_frame);
        let r = Interpreter {
            frames,
            funs: Vec::new(),
            classes: Vec::new(),
            instances: Vec::new(),
            current: 0,
            globals: 0,
            locals: Vec::new(),
            output: Vec::new(),
            natives: Vec::new(),
            native_pos: 0,
        };
        proof {
            assert(r@.frames =~= sp_initial().frames);
            assert(r@.funs =~= sp_initial().funs);
            assert(r@.classes =~= sp_initial().classes);
            assert(r@.instances =~= sp_initial().instances);
            assert(r@.output =~= sp_initial().output);
            assert(r@.natives =~= sp_initial().natives);
            assert(r@.locals =~= sp_initial().locals);
        }
        r
    }

    /// Binds a name in the global scope. The driver installs native
    /// functions and other host values through this.
    pub fn define_global(&mut self, name: String, value: Object)
        ensures
            old(self)@.globals < old(self)@.frames.len() ==> final(self)@ == (StateV {
                frames: old(self)@.frames.update(
                    old(self)@.globals,
                    FrameV {
                        enclosing: old(self)@.frames[old(self)@.globals].enclosing,
                        entries: old(self)@.frames[old(self)@.globals].entries.push(
                            (name@, value@),
                        ),
                    },
                ),
                ..old(self)@
            }),
            old(self)@.globals >= old(self)@.frames.len() ==> *final(self) == *old(self),
    {
        let g = self.globals;
        if g < self.frames.len() {
            let ghost fv0 = frames_view(self.frames@);
            let fr = &mut self.frames[g];
            fr.define(name, value);
            proof {
                assert(frames_view(self.frames@) =~= fv0.update(
                    g as int,
                    FrameV {
                        enclosing: fv0[g as int].enclosing,
                        entries: self.frames@[g as int]@.entries,
                    },
                ));
            }
        }
    }

    /// Queues a result for the next native function call. The host
    /// supplies what its primitives would return; the evaluator hands the
    /// queued values out in order.
    pub fn provide_native_result(&mut self, value: Object)
        ensures
            final(self)@ == (StateV {
                natives: old(self)@.natives.push(value@),
                ..old(self)@
            }),
    {
        self.natives.push(value);
        proof {
            assert(self@.natives =~= old(self)@.natives.push(value@));
        }
    }

    /// Records a resolved distance for a reference slot: the hook the
    /// resolver calls for every reference it resolves.
    pub fn resolve(&mut self, slot: usize, depth: usize)
        ensures
            final(self)@ == (StateV {
                locals: sp_set_slot(old(self)@.locals, slot, depth),
                ..old(self)@
            }),
    {
        if slot < self.locals.len() {
            self.locals.set(slot, Option::Some(depth));
        } else {
            let ghost locals0 = self.locals@;
            while self.locals.len() < slot
                invariant
                    locals0.len() <= slot,
                    self.locals@.len() <= slot,
                    self.frames == old(self).frames,
                    self.funs == old(self).funs,
                    self.classes == old(self).classes,
                    self.instances == old(self).instances,
                    self.current == old(self).current,
                    self.globals == old(self).globals,
                    self.output == old(self).output,
                    self.natives == old(self).natives,
                    self.native_pos == old(self).native_pos,
                    self.locals@ == locals0 + Seq::new(
                        (self.locals@.len() - locals0.len()) as nat,
                        |i: int| Option::<usize>::None,
                    ),
                decreases slot - self.locals.len(),
            {
                self.locals.push(Option::None);
                proof {
                    assert(self.locals@ =~= locals0 + Seq::new(
                        (self.locals@.len() - locals0.len()) as nat,
                        |i: int| Option::<usize>::None,
                    ));
                }
            }
            self.locals.push(Option::Some(depth));
            proof {
                assert(self.locals@ =~= sp_set_slot(locals0, slot, depth));
            }
        }
        proof {
            assert(self@.frames == old(self)@.frames);
            assert(self@.locals == sp_set_slot(old(self)@.locals, slot, depth));
            assert(self@ == (StateV {
                locals: sp_set_slot(old(self)@.locals, slot, depth),
                ..old(self)@
            }));
        }
    }

    /// Reads a variable through the resolution table.
    fn lookup_variable(&self, name: &String, slot: usize) -> (r: Result<Object, ErrorKind>)
        ensures
            match r {
                Result::Ok(o) => sp_lookup_var(self@, name@, slot) == Result::<
                    ValueV,
                    ErrorKind,
                >::Ok(o@),
                Result::Err(k) => sp_lookup_var(self@, name@, slot) == Result::<
                    ValueV,
                    ErrorKind,
                >::Err(k),
            },
    {
        let d = if slot < self.locals.len() {
            self.locals[slot]
        } else {
            Option::None
        };
        match d {
            Option::Some(distance) => crate::environment::get_at(
                &self.frames,
                self.current,
                distance,
                name,
            ),
            Option::None => crate::environment::get(&self.frames, self.globals, name),
        }
    }

    /// Writes a variable through the resolution table.
    fn assign_variable(&mut self, name: &String, slot: usize, value: Object) -> (r: Result<
        (),
        ErrorKind,
    >)
        ensures
            match r {
                Result::Ok(_) => sp_assign_var(old(self)@, name@, slot, value@) == Result::<
                    Seq<FrameV>,
                    ErrorKind,
                >::Ok(final(self)@.frames) && final(self)@ == (StateV {
                    frames: final(self)@.frames,
                    ..old(self)@
                }),
                Result::Err(k) => sp_assign_var(old(self)@, name@, slot, value@) == Result::<
                    Seq<FrameV>,
                    ErrorKind,
                >::Err(k) && final(self)@ == old(self)@,
            },
    {
        let d = if slot < self.locals.len() {
            self.locals[slot]
        } else {
            Option::None
        };
        let cur = self.current;
        let glob = self.globals;
        let r = match d {
            Option::Some(distance) => crate::environment::assign_at(
                &mut self.frames,
                cur,
                distance,
                name,
                value,
            ),
            Option::None => crate::environment::assign(&mut self.frames, glob, name, value),
        };
        proof {
            if !(r is Ok) {
                assert(self@ == old(self)@);
            }
        }
        r
    }

    /// Binds a name in the current frame.
    fn define_cur(&mut self, name: String, value: Object) -> (r: Result<(), ErrorKind>)
        ensures
            match r {
                Result::Ok(_) => sp_define_cur(old(self)@, name@, value@) matches Option::Some(st2)
                    && final(self)@ == st2,
                Result::Err(k) => sp_define_cur(old(self)@, name@, value@) is None && k
                    == ErrorKind::Corrupt && *final(self) == *old(self),
            },
    {
        let c = self.current;
        if c < self.frames.len() {
            let ghost fv0 = frames_view(self.frames@);
            let fr = &mut self.frames[c];
            fr.define(name, value);
            proof {
                assert(frames_view(self.frames@) =~= fv0.update(
                    c as int,
                    FrameV {
                        enclosing: fv0[c as int].enclosing,
                        entries: self.frames@[c as int]@.entries,
                    },
                ));
            }
            Result::Ok(())
        } else {
            Result::Err(ErrorKind::Corrupt)
        }
    }

    /// Binds a closure to a receiver, yielding the bound closure's handle.
    fn bind_method(&mut self, fid: usize, recv: Object) -> (r: usize)
        requires
            fid < old(self)@.funs.len(),
        ensures
            ({
                let (st2, bid) = sp_bind(old(self)@, fid as int, recv@);
                final(self)@ == st2 && r as int == bid
            }),
    {
        let bf = self.funs[fid].clone();
        let nid = self.frames.len();
        let mut env = Environment::new(Option::Some(bf.closure));
        env.define("this".to_owned(), recv);
        self.frames.push(env);
        let r = self.funs.len();
        self.funs.push(
            Function {
                name: bf.name,
                params: bf.params,
                body: bf.body,
                closure: nid,
                is_initializer: bf.is_initializer,
            },
        );
        proof {
            let (st2, bid) = sp_bind(old(self)@, fid as int, recv@);
            assert(self@.frames =~= st2.frames) by {
                assert(self@.frames[st2.frames.len() - 1].entries =~= seq![("this"@, recv@)]);
                assert(frames_view(self.frames@) =~= frames_view(old(self).frames@).push(
                    self.frames@.last()@,
                ));
            }
            assert(self@.funs =~= st2.funs);
        }
        r
    }

    /// The arity a class call must match: its initializer's, or zero.
    fn class_arity(&self, cid: usize) -> (r: Result<usize, ErrorKind>)
        ensures
            match r {
                Result::Ok(n) => sp_class_arity(self@, cid as int) == Option::Some(n as nat),
                Result::Err(k) => sp_class_arity(self@, cid as int) is None && k
                    == ErrorKind::Corrupt,
            },
    {
        let init_name: String = "init".to_owned();
        match crate::class::get_method(&self.classes, cid, &init_name) {
            Option::Some(fid) => {
                if fid < self.funs.len() {
                    Result::Ok(self.funs[fid].arity())
                } else {
                    Result::Err(ErrorKind::Corrupt)
                }
            },
            Option::None => Result::Ok(0),
        }
    }
}


/// The ghost value of an evaluation result.
pub open spec fn evr(r: Result<Object, RuntimeError>) -> Result<ValueV, ErrV> {
    match r {
        Result::Ok(o) => Result::Ok(o@),
        Result::Err(e) => Result::Err(e@),
    }
}

/// The ghost value of an argument-list result.
pub open spec fn avr(r: Result<Vec<Object>, RuntimeError>) -> Result<Seq<ValueV>, ErrV> {
    match r {
        Result::Ok(vs) => Result::Ok(vs@.map_values(|o: Object| o@)),
        Result::Err(e) => Result::Err(e@),
    }
}

/// The lexemes of a token list, as the parameter names of a declaration.
fn lexemes_of(params: &Vec<Token>) -> (r: Vec<String>)
    ensures
        r@.map_values(|s: String| s@) == params@.map_values(|t: Token| t.lexeme@),
{
    let mut r: Vec<String> = Vec::new();
    let mut i: usize = 0;
    while i < params.len()
        invariant
            i <= params.len(),
            r@.len() == i,
            forall|j: int| 0 <= j < i ==> r@[j]@ == params@[j].lexeme@,
        decreases params.len() - i,
    {
        r.push(params[i].lexeme.clone());
        i = i + 1;
    }
    proof {
        assert(r@.map_values(|s: String| s@) =~= params@.map_values(|t: Token| t.lexeme@));
    }
    r
}

/// The bindings of a call frame: each parameter bound to its argument.
fn param_entries(params: &Vec<String>, args: &Vec<Object>) -> (r: Vec<(String, Object)>)
    requires
        params@.len() == args@.len(),
    ensures
        crate::environment::entries_view(r@) == sp_param_entries(
            params@.map_values(|s: String| s@),
            args@.map_values(|o: Object| o@),
        ),
{
    let mut r: Vec<(String, Object)> = Vec::new();
    let mut i: usize = 0;
    while i < params.len()
        invariant
            i <= params.len(),
            params@.len() == args@.len(),
            r@.len() == i,
            forall|j: int| 0 <= j < i ==> #[trigger] r@[j] == (params@[j], args@[j])
                || r@[j].0@ == params@[j]@ && r@[j].1@ == args@[j]@,
        decreases params.len() - i,
    {
        r.push((params[i].clone(), args[i].clone()));
        i = i + 1;
    }
    proof {
        assert(crate::environment::entries_view(r@) =~= sp_param_entries(
            params@.map_values(|s: String| s@),
            args@.map_values(|o: Object| o@),
        ));
    }
    r
}

impl Interpreter {
    /// Writes a field of an instance, shadowing any older binding of the
    /// name there.
    fn set_field(&mut self, iid: usize, name: String, value: Object)
        requires
            iid < old(self)@.instances.len(),
        ensures
            final(self)@ == (StateV {
                instances: old(self)@.instances.update(
                    iid as int,
                    InstV {
                        class: old(self)@.instances[iid as int].class,
                        fields: old(self)@.instances[iid as int].fields.push((name@, value@)),
                    },
                ),
                ..old(self)@
            }),
    {
        let ghost iv0 = instances_view(self.instances@);
        let inst = &mut self.instances[iid];
        let ghost f0 = inst@.fields;
        inst.fields.push((name, value));
        proof {
            assert(inst@.fields =~= f0.push((name@, value@)));
        }
        proof {
            assert(instances_view(self.instances@) =~= iv0.update(
                iid as int,
                InstV { class: iv0[iid as int].class, fields: self.instances@[iid as int]@.fields },
            ));
        }
    }

    /// Hands out the next host-supplied native result, or `null` when the
    /// queue is spent.
    fn native_result(&mut self) -> (r: Object)
        ensures
            ({
                let st0 = old(self)@;
                if 0 <= st0.native_pos < st0.natives.len() {
                    final(self)@ == (StateV { native_pos: st0.native_pos + 1, ..st0 }) && r@
                        == st0.natives[st0.native_pos]
                } else {
                    *final(self) == *old(self) && r@ == ValueV::Lit(LitV::Null)
                }
            }),
    {
        if self.native_pos < self.natives.len() {
            let v = self.natives[self.native_pos].clone();
            self.native_pos = self.native_pos + 1;
            v
        } else {
            Object::Literal(crate::literal::Literal::Null)
        }
    }
}


impl Interpreter {
    /// Evaluates an expression, mutating the state as the expression
    /// demands, and agreeing exactly with `sp_eval`.
    #[verifier::spinoff_prover]
    pub fn eval(&mut self, e: &Expr, fuel: u64) -> (r: Result<Object, RuntimeError>)
        ensures
            ({
                let (st2, r2) = sp_eval(old(self)@, *e, fuel as nat);
                final(self)@ == st2 && evr(r) == r2
            }),
        decreases fuel, 6nat,
    {
        if fuel == 0 {
            return Result::Err(RuntimeError::new(dummy_token(), ErrorKind::Exhausted));
        }
        match e {
            Expr::Literal(l) => Result::Ok(Object::Literal(l.clone())),
            Expr::Grouping(g) => self.eval(&g.expr, fuel - 1),
            Expr::Logical(lo) => self.eval_logical(lo, fuel - 1),
            Expr::Unary(u) => self.eval_unary(u, fuel - 1),
            Expr::Binary(b) => self.eval_binary(b, fuel - 1),
            Expr::Variable(v) => {
                match self.lookup_variable(&v.name.lexeme, v.slot) {
                    Result::Ok(val) => Result::Ok(val),
                    Result::Err(k) => Result::Err(RuntimeError::new(v.name.clone(), k)),
                }
            },
            Expr::Assign(a) => self.eval_assign(a, fuel - 1),
            Expr::Call(c) => self.eval_call(c, fuel - 1),
            Expr::Get(g) => self.eval_get(g, fuel - 1),
            Expr::SetProp(sp) => self.eval_set(sp, fuel - 1),
            Expr::This(t) => {
                let this_name: String = "this".to_owned();
                match self.lookup_variable(&this_name, t.slot) {
                    Result::Ok(val) => Result::Ok(val),
                    Result::Err(k) => Result::Err(RuntimeError::new(t.keyword.clone(), k)),
                }
            },
            Expr::Super(su) => self.eval_super(su),
        }
    }

    /// Evaluates a short-circuiting logical expression.
    #[verifier::spinoff_prover]
    fn eval_logical(&mut self, lo: &crate::expr::LogicalData, rem: u64) -> (r: Result<
        Object,
        RuntimeError,
    >)
        ensures
            ({
                let (st2, r2) = sp_eval_logical(old(self)@, *lo, rem as nat);
                final(self)@ == st2 && evr(r) == r2
            }),
        decreases rem, 7nat,
    {
        let lv = match self.eval(&lo.left, rem) {
            Result::Ok(v) => v,
            Result::Err(err) => {
                return Result::Err(err);
            },
        };
        match lo.operator.kind {
            Type::Or => {
                if lv.truthy() {
                    Result::Ok(lv)
                } else {
                    self.eval(&lo.right, rem)
                }
            },
            Type::And => {
                if !lv.truthy() {
                    Result::Ok(lv)
                } else {
                    self.eval(&lo.right, rem)
                }
            },
            _ => Result::Err(RuntimeError::new(lo.operator.clone(), ErrorKind::Corrupt)),
        }
    }

    /// Evaluates a unary expression.
    #[verifier::spinoff_prover]
    fn eval_unary(&mut self, u: &crate::expr::UnaryData, rem: u64) -> (r: Result<
        Object,
        RuntimeError,
    >)
        ensures
            ({
                let (st2, r2) = sp_eval_unary(old(self)@, *u, rem as nat);
                final(self)@ == st2 && evr(r) == r2
            }),
        decreases rem, 7nat,
    {
        let v = match self.eval(&u.expr, rem) {
            Result::Ok(v) => v,
            Result::Err(err) => {
                return Result::Err(err);
            },
        };
        match crate::object::apply_unary(u.operator.kind, v) {
            Result::Ok(v2) => Result::Ok(v2),
            Result::Err(k) => Result::Err(RuntimeError::new(u.operator.clone(), k)),
        }
    }

    /// Evaluates a binary expression: left operand, right operand, then
    /// the operator.
    #[verifier::spinoff_prover]
    fn eval_binary(&mut self, b: &crate::expr::BinaryData, rem: u64) -> (r: Result<
        Object,
        RuntimeError,
    >)
        ensures
            ({
                let (st2, r2) = sp_eval_binary(old(self)@, *b, rem as nat);
                final(self)@ == st2 && evr(r) == r2
            }),
        decreases rem, 7nat,
    {
        let lv = match self.eval(&b.left, rem) {
            Result::Ok(v) => v,
            Result::Err(err) => {
                return Result::Err(err);
            },
        };
        let rv = match self.eval(&b.right, rem) {
            Result::Ok(v) => v,
            Result::Err(err) => {
                return Result::Err(err);
            },
        };
        match crate::object::apply_binary(b.operator.kind, lv, rv) {
            Result::Ok(v2) => Result::Ok(v2),
            Result::Err(k) => Result::Err(RuntimeError::new(b.operator.clone(), k)),
        }
    }

    /// Evaluates an assignment and yields the assigned value.
    #[verifier::spinoff_prover]
    fn eval_assign(&mut self, a: &crate::expr::AssignData, rem: u64) -> (r: Result<
        Object,
        RuntimeError,
    >)
        ensures
            ({
                let (st2, r2) = sp_eval_assign(old(self)@, *a, rem as nat);
                final(self)@ == st2 && evr(r) == r2
            }),
        decreases rem, 7nat,
    {
        let v = match self.eval(&a.value, rem) {
            Result::Ok(v) => v,
            Result::Err(err) => {
                return Result::Err(err);
            },
        };
        match self.assign_variable(&a.name.lexeme, a.slot, v.clone()) {
            Result::Ok(_) => Result::Ok(v),
            Result::Err(k) => Result::Err(RuntimeError::new(a.name.clone(), k)),
        }
    }

    /// Evaluates a call: callee, then arguments, then the call itself.
    #[verifier::spinoff_prover]
    fn eval_call(&mut self, c: &crate::expr::CallData, rem: u64) -> (r: Result<
        Object,
        RuntimeError,
    >)
        ensures
            ({
                let (st2, r2) = sp_eval_call(old(self)@, *c, rem as nat);
                final(self)@ == st2 && evr(r) == r2
            }),
        decreases rem, c.arguments.len() + 9,
    {
        let cv = match self.eval(&c.callee, rem) {
            Result::Ok(v) => v,
            Result::Err(err) => {
                return Result::Err(err);
            },
        };
        let args = match self.eval_args(&c.arguments, 0, rem) {
            Result::Ok(vs) => vs,
            Result::Err(err) => {
                return Result::Err(err);
            },
        };
        self.call_value(cv, args, &c.paren, rem)
    }

    /// Evaluates a property read: a field when the instance has one of
    /// the name, else a method bound to the instance.
    #[verifier::spinoff_prover]
    fn eval_get(&mut self, g: &crate::expr::GetData, rem: u64) -> (r: Result<
        Object,
        RuntimeError,
    >)
        ensures
            ({
                let (st2, r2) = sp_eval_get(old(self)@, *g, rem as nat);
                final(self)@ == st2 && evr(r) == r2
            }),
        decreases rem, 7nat,
    {
        let ov = match self.eval(&g.object, rem) {
            Result::Ok(v) => v,
            Result::Err(err) => {
                return Result::Err(err);
            },
        };
        match ov {
            Object::Instance(iid) => {
                if iid < self.instances.len() {
                    proof {
                        assert(instances_view(self.instances@)[iid as int]
                            == self.instances@[iid as int]@);
                    }
                    match crate::environment::lookup_entries(
                        &self.instances[iid].fields,
                        &g.name.lexeme,
                    ) {
                        Option::Some(v) => Result::Ok(v),
                        Option::None => {
                            let cid = self.instances[iid].class;
                            match crate::class::get_method(&self.classes, cid, &g.name.lexeme) {
                                Option::Some(fid) => {
                                    if fid < self.funs.len() {
                                        let bid = self.bind_method(fid, Object::Instance(iid));
                                        Result::Ok(Object::Function(bid))
                                    } else {
                                        Result::Err(
                                            RuntimeError::new(g.name.clone(), ErrorKind::Corrupt),
                                        )
                                    }
                                },
                                Option::None => Result::Err(
                                    RuntimeError::new(
                                        g.name.clone(),
                                        ErrorKind::UndefinedProperty,
                                    ),
                                ),
                            }
                        },
                    }
                } else {
                    Result::Err(RuntimeError::new(g.name.clone(), ErrorKind::Corrupt))
                }
            },
            _ => Result::Err(
                RuntimeError::new(g.name.clone(), ErrorKind::OnlyInstancesHaveProperties),
            ),
        }
    }

    /// Evaluates a field write and yields the written value. The target
    /// is checked to be an instance before the value is evaluated.
    #[verifier::spinoff_prover]
    fn eval_set(&mut self, sp: &crate::expr::SetData, rem: u64) -> (r: Result<
        Object,
        RuntimeError,
    >)
        ensures
            ({
                let (st2, r2) = sp_eval_set(old(self)@, *sp, rem as nat);
                final(self)@ == st2 && evr(r) == r2
            }),
        decreases rem, 7nat,
    {
        let ov = match self.eval(&sp.object, rem) {
            Result::Ok(v) => v,
            Result::Err(err) => {
                return Result::Err(err);
            },
        };
        match ov {
            Object::Instance(iid) => {
                if iid < self.instances.len() {
                    let v = match self.eval(&sp.value, rem) {
                        Result::Ok(v) => v,
                        Result::Err(err) => {
                            return Result::Err(err);
                        },
                    };
                    if iid < self.instances.len() {
                        self.set_field(iid, sp.name.lexeme.clone(), v.clone());
                        Result::Ok(v)
                    } else {
                        Result::Err(RuntimeError::new(sp.name.clone(), ErrorKind::Corrupt))
                    }
                } else {
                    Result::Err(RuntimeError::new(sp.name.clone(), ErrorKind::Corrupt))
                }
            },
            _ => Result::Err(
                RuntimeError::new(sp.name.clone(), ErrorKind::OnlyInstancesHaveFields),
            ),
        }
    }

    /// Evaluates a `super.method` reference: the superclass stored at the
    /// resolved distance, the receiver one frame below it, and the method
    /// looked up from that superclass and bound to the receiver.
    #[verifier::spinoff_prover]
    fn eval_super(&mut self, s: &crate::expr::SuperData) -> (r: Result<Object, RuntimeError>)
        ensures
            ({
                let (st2, r2) = sp_eval_super(old(self)@, *s);
                final(self)@ == st2 && evr(r) == r2
            }),
    {
        let d = if s.slot < self.locals.len() {
            self.locals[s.slot]
        } else {
            Option::None
        };
        let distance = match d {
            Option::Some(distance) => distance,
            Option::None => {
                return Result::Err(RuntimeError::new(s.keyword.clone(), ErrorKind::Corrupt));
            },
        };
        let super_name: String = "super".to_owned();
        let sv = match crate::environment::get_at(
            &self.frames,
            self.current,
            distance,
            &super_name,
        ) {
            Result::Ok(sv) => sv,
            Result::Err(k) => {
                return Result::Err(RuntimeError::new(s.keyword.clone(), k));
            },
        };
        let cid = match sv {
            Object::Class(cid) => cid,
            _ => {
                return Result::Err(RuntimeError::new(s.keyword.clone(), ErrorKind::Corrupt));
            },
        };
        if distance < 1 {
            return Result::Err(RuntimeError::new(s.keyword.clone(), ErrorKind::Corrupt));
        }
        let this_name: String = "this".to_owned();
        let recv = match crate::environment::get_at(
            &self.frames,
            self.current,
            distance - 1,
            &this_name,
        ) {
            Result::Ok(recv) => recv,
            Result::Err(k) => {
                return Result::Err(RuntimeError::new(s.keyword.clone(), k));
            },
        };
        match crate::class::get_method(&self.classes, cid, &s.method.lexeme) {
            Option::Some(fid) => {
                if fid < self.funs.len() {
                    let bid = self.bind_method(fid, recv);
                    Result::Ok(Object::Function(bid))
                } else {
                    Result::Err(RuntimeError::new(s.method.clone(), ErrorKind::Corrupt))
                }
            },
            Option::None => Result::Err(
                RuntimeError::new(s.method.clone(), ErrorKind::UndefinedProperty),
            ),
        }
    }

    /// Evaluates a call's arguments from index `i` on, left to right.
    #[verifier::spinoff_prover]
    fn eval_args(&mut self, args: &Vec<Expr>, i: usize, fuel: u64) -> (r: Result<
        Vec<Object>,
        RuntimeError,
    >)
        ensures
            ({
                let (st2, r2) = sp_eval_args(old(self)@, args@, i as int, fuel as nat);
                final(self)@ == st2 && avr(r) == r2
            }),
        decreases fuel, args.len() - i + 8,
    {
        if i >= args.len() {
            let r: Vec<Object> = Vec::new();
            proof {
                assert(r@.map_values(|o: Object| o@) =~= Seq::<ValueV>::empty());
            }
            Result::Ok(r)
        } else {
            let v = match self.eval(&args[i], fuel) {
                Result::Ok(v) => v,
                Result::Err(err) => {
                    return Result::Err(err);
                },
            };
            let mut rest = match self.eval_args(args, i + 1, fuel) {
                Result::Ok(vs) => vs,
                Result::Err(err) => {
                    return Result::Err(err);
                },
            };
            let ghost restv = rest@.map_values(|o: Object| o@);
            let mut out: Vec<Object> = Vec::new();
            out.push(v);
            out.append(&mut rest);
            proof {
                assert(out@.map_values(|o: Object| o@) =~= seq![out@[0]@] + restv);
            }
            Result::Ok(out)
        }
    }

    /// Calls an evaluated callee on evaluated arguments.
    #[verifier::spinoff_prover]
    #[verifier::rlimit(80)]
    fn call_value(&mut self, callee: Object, args: Vec<Object>, paren: &Token, fuel: u64) -> (r:
        Result<Object, RuntimeError>)
        ensures
            ({
                let (st2, r2) = sp_call(
                    old(self)@,
                    callee@,
                    args@.map_values(|o: Object| o@),
                    paren@,
                    fuel as nat,
                );
                final(self)@ == st2 && evr(r) == r2
            }),
        decreases fuel, 4nat,
    {
        match callee {
            Object::Function(fid) => {
                if fid < self.funs.len() {
                    proof {
                        assert(self@.funs[fid as int] == self.funs@[fid as int]@);
                    }
                    let arity = self.funs[fid].arity();
                    if args.len() != arity {
                        Result::Err(
                            RuntimeError::new(
                                paren.clone(),
                                ErrorKind::WrongArity(arity, args.len()),
                            ),
                        )
                    } else {
                        self.call_function(fid, args, paren, fuel)
                    }
                } else {
                    Result::Err(RuntimeError::new(paren.clone(), ErrorKind::Corrupt))
                }
            },
            Object::NativeFunction(_) => {
                if args.len() != 0 {
                    Result::Err(
                        RuntimeError::new(paren.clone(), ErrorKind::WrongArity(0, args.len())),
                    )
                } else {
                    Result::Ok(self.native_result())
                }
            },
            Object::Class(cid) => self.call_class(cid, args, paren, fuel),
            _ => Result::Err(RuntimeError::new(paren.clone(), ErrorKind::NotCallable)),
        }
    }


    /// Calls a class: makes the instance and runs its initializer on it.
    #[verifier::spinoff_prover]
    #[verifier::rlimit(60)]
    fn call_class(&mut self, cid: usize, args: Vec<Object>, paren: &Token, fuel: u64) -> (r: Result<
        Object,
        RuntimeError,
    >)
        ensures
            ({
                let (st2, r2) = sp_call_class(
                    old(self)@,
                    cid as int,
                    args@.map_values(|o: Object| o@),
                    paren@,
                    fuel as nat,
                );
                final(self)@ == st2 && evr(r) == r2
            }),
        decreases fuel, 3nat,
    {
        if cid >= self.classes.len() {
            return Result::Err(RuntimeError::new(paren.clone(), ErrorKind::Corrupt));
        }
        match self.class_arity(cid) {
            Result::Ok(arity) => {
                if args.len() != arity {
                    Result::Err(
                        RuntimeError::new(
                            paren.clone(),
                            ErrorKind::WrongArity(arity, args.len()),
                        ),
                    )
                } else {
                    let iid = self.instances.len();
                    let ghost iv0 = instances_view(self.instances@);
                    self.instances.push(Instance { class: cid, fields: Vec::new() });
                    proof {
                        assert(self.instances@.last()@.fields =~= Seq::<
                            (Seq<char>, ValueV),
                        >::empty());
                        assert(instances_view(self.instances@) =~= iv0.push(
                            InstV { class: cid as int, fields: Seq::empty() },
                        ));
                    }
                    let init_name: String = "init".to_owned();
                    match crate::class::get_method(&self.classes, cid, &init_name) {
                        Option::Some(fid) => {
                            proof {
                                assert(fid < self.funs.len());
                            }
                            let bid = self.bind_method(fid, Object::Instance(iid));
                            proof {
                                assert(args@.map_values(|o: Object| o@).len() == self@.funs[
                                    bid as int].params.len());
                            }
                            match self.call_function(bid, args, paren, fuel) {
                                Result::Ok(_) => Result::Ok(Object::Instance(iid)),
                                Result::Err(err) => Result::Err(err),
                            }
                        },
                        Option::None => Result::Ok(Object::Instance(iid)),
                    }
                }
            },
            Result::Err(k) => Result::Err(RuntimeError::new(paren.clone(), k)),
        }
    }

    /// Calls a closure whose arity was already checked against the
    /// arguments.
    #[verifier::spinoff_prover]
    #[verifier::rlimit(60)]
    fn call_function(&mut self, fid: usize, args: Vec<Object>, paren: &Token, fuel: u64) -> (r:
        Result<Object, RuntimeError>)
        requires
            fid < old(self)@.funs.len(),
            args@.len() == old(self)@.funs[fid as int].params.len(),
        ensures
            ({
                let (st2, r2) = sp_call_function(
                    old(self)@,
                    fid as int,
                    args@.map_values(|o: Object| o@),
                    paren@,
                    fuel as nat,
                );
                final(self)@ == st2 && evr(r) == r2
            }),
        decreases fuel, 2nat,
    {
        if fuel == 0 {
            return Result::Err(RuntimeError::new(dummy_token(), ErrorKind::Exhausted));
        }
        let f = self.funs[fid].clone();
        proof {
            assert(f@ == old(self)@.funs[fid as int]);
        }
        let entries = param_entries(&f.params, &args);
        let nid = self.frames.len();
        let ghost fv0 = frames_view(self.frames@);
        self.frames.push(Environment { enclosing: Option::Some(f.closure), entries });
        proof {
            assert(frames_view(self.frames@) =~= fv0.push(self.frames@.last()@));
        }
        let prev = self.current;
        self.current = nid;
        let ghost st_in = StateV {
            frames: old(self)@.frames.push(
                FrameV {
                    enclosing: Option::Some(f@.closure),
                    entries: sp_param_entries(f@.params, args@.map_values(|o: Object| o@)),
                },
            ),
            current: old(self)@.frames.len() as int,
            ..old(self)@
        };
        proof {
            assert(self@.frames =~= st_in.frames);
            assert(self@ == st_in);
        }
        let flow = self.exec_stmts_rc(&f.body, 0, fuel - 1);
        self.current = prev;
                match flow {
            Flow::Norm => {
                if f.is_initializer {
                    let this_name: String = "this".to_owned();
                    match crate::environment::get_at(&self.frames, f.closure, 0, &this_name) {
                        Result::Ok(v) => Result::Ok(v),
                        Result::Err(k) => Result::Err(RuntimeError::new(paren.clone(), k)),
                    }
                } else {
                    Result::Ok(Object::Literal(crate::literal::Literal::Null))
                }
            },
            Flow::Ret(v) => {
                if f.is_initializer {
                    let this_name: String = "this".to_owned();
                    match crate::environment::get_at(&self.frames, f.closure, 0, &this_name) {
                        Result::Ok(tv) => Result::Ok(tv),
                        Result::Err(k) => Result::Err(RuntimeError::new(paren.clone(), k)),
                    }
                } else {
                    Result::Ok(v)
                }
            },
            Flow::Brk => Result::Err(RuntimeError::new(paren.clone(), ErrorKind::StrayBreak)),
            Flow::Fail(err) => Result::Err(err),
        }
    }

    /// Executes a shared statement list from index `i` on, in the current
    /// frame.
    #[verifier::spinoff_prover]
    fn exec_stmts_rc(&mut self, stmts: &Rc<Vec<Stmt>>, i: usize, fuel: u64) -> (flow: Flow)
        ensures
            ({
                let (st2, f2) = sp_exec_stmts(old(self)@, stmts@, i as int, fuel as nat);
                final(self)@ == st2 && flow@ == f2
            }),
        decreases fuel, stmts.len() - i + 8,
    {
        if i >= stmts.len() {
            Flow::Norm
        } else {
            let flow = self.exec_stmt(&stmts[i], fuel);
            match flow {
                Flow::Norm => self.exec_stmts_rc(stmts, i + 1, fuel),
                other => other,
            }
        }
    }

    /// Executes a statement list from index `i` on, in the current frame.
    #[verifier::spinoff_prover]
    fn exec_stmts(&mut self, stmts: &Vec<Stmt>, i: usize, fuel: u64) -> (flow: Flow)
        ensures
            ({
                let (st2, f2) = sp_exec_stmts(old(self)@, stmts@, i as int, fuel as nat);
                final(self)@ == st2 && flow@ == f2
            }),
        decreases fuel, stmts.len() - i + 8,
    {
        if i >= stmts.len() {
            Flow::Norm
        } else {
            let flow = self.exec_stmt(&stmts[i], fuel);
            match flow {
                Flow::Norm => self.exec_stmts(stmts, i + 1, fuel),
                other => other,
            }
        }
    }

    /// Executes the statements of a block in the frame named by
    /// `environment`, and stands in the previous frame again afterwards,
    /// whatever way the block ended.
    #[verifier::spinoff_prover]
    pub fn execute_block(&mut self, statements: &Vec<Stmt>, environment: usize, fuel: u64) -> (flow:
        Flow)
        ensures
            ({
                let st_in = StateV { current: environment as int, ..old(self)@ };
                let (st2, f2) = sp_exec_stmts(st_in, statements@, 0, fuel as nat);
                final(self)@ == (StateV { current: old(self)@.current, ..st2 }) && flow@ == f2
            }),
        decreases fuel, statements.len() + 9,
    {
        let prev = self.current;
        self.current = environment;
        let flow = self.exec_stmts(statements, 0, fuel);
        self.current = prev;
        flow
    }

    /// Executes a statement, agreeing exactly with `sp_exec_stmt`.
    #[verifier::spinoff_prover]
    pub fn exec_stmt(&mut self, s: &Stmt, fuel: u64) -> (flow: Flow)
        ensures
            ({
                let (st2, f2) = sp_exec_stmt(old(self)@, *s, fuel as nat);
                final(self)@ == st2 && flow@ == f2
            }),
        decreases fuel, 6nat,
    {
        if fuel == 0 {
            return Flow::Fail(RuntimeError::new(dummy_token(), ErrorKind::Exhausted));
        }
        match s {
            Stmt::Expression(d) => {
                match self.eval(&d.expr, fuel - 1) {
                    Result::Ok(_) => Flow::Norm,
                    Result::Err(err) => Flow::Fail(err),
                }
            },
            Stmt::Print(d) => self.exec_print(d, fuel - 1),
            Stmt::Var(d) => self.exec_var(d, fuel - 1),
            Stmt::Function(d) => self.exec_fun_decl(d),
            Stmt::If(d) => self.exec_if(d, fuel - 1),
            Stmt::While(d) => self.exec_while(&d.condition, &d.body, fuel - 1),
            Stmt::Return(d) => {
                match &d.value {
                    Option::Some(e) => match self.eval(e, fuel - 1) {
                        Result::Ok(v) => Flow::Ret(v),
                        Result::Err(err) => Flow::Fail(err),
                    },
                    Option::None => Flow::Ret(Object::Literal(crate::literal::Literal::Null)),
                }
            },
            Stmt::Break(_) => Flow::Brk,
            Stmt::Block(d) => self.exec_block_stmt(d, fuel - 1),
            Stmt::Class(d) => self.exec_class(d, fuel - 1),
        }
    }

    /// Executes a `print` statement: the value joins the output.
    #[verifier::spinoff_prover]
    fn exec_print(&mut self, d: &crate::stmt::PrintData, rem: u64) -> (flow: Flow)
        ensures
            ({
                let (st2, f2) = sp_stmt_print(old(self)@, *d, rem as nat);
                final(self)@ == st2 && flow@ == f2
            }),
        decreases rem, 7nat,
    {
        match self.eval(&d.expr, rem) {
            Result::Ok(v) => {
                let ghost out0 = self.output@.map_values(|o: Object| o@);
                self.output.push(v);
                proof {
                    assert(self.output@.map_values(|o: Object| o@) =~= out0.push(
                        self.output@.last()@,
                    ));
                }
                Flow::Norm
            },
            Result::Err(err) => Flow::Fail(err),
        }
    }

    /// Executes a variable declaration: the initializer's value, or
    /// `null`, is bound in the current frame.
    #[verifier::spinoff_prover]
    fn exec_var(&mut self, d: &crate::stmt::VarData, rem: u64) -> (flow: Flow)
        ensures
            ({
                let (st2, f2) = sp_stmt_var(old(self)@, *d, rem as nat);
                final(self)@ == st2 && flow@ == f2
            }),
        decreases rem, 7nat,
    {
        let v = match &d.initializer {
            Option::Some(e) => match self.eval(e, rem) {
                Result::Ok(v) => v,
                Result::Err(err) => {
                    return Flow::Fail(err);
                },
            },
            Option::None => Object::Literal(crate::literal::Literal::Null),
        };
        match self.define_cur(d.name.lexeme.clone(), v) {
            Result::Ok(_) => Flow::Norm,
            Result::Err(k) => Flow::Fail(RuntimeError::new(d.name.clone(), k)),
        }
    }

    /// Executes a function declaration: a closure over the current frame
    /// is bound under the function's name, so that the body can call the
    /// name recursively.
    #[verifier::spinoff_prover]
    fn exec_fun_decl(&mut self, d: &crate::stmt::FunctionData) -> (flow: Flow)
        ensures
            ({
                let (st2, f2) = sp_stmt_fun(old(self)@, *d);
                final(self)@ == st2 && flow@ == f2
            }),
    {
        let ps = lexemes_of(&d.params);
        let nf = crate::function::Function::new(&d.name.lexeme, &ps, &d.body, self.current, false);
        let fid = self.funs.len();
        let ghost funs0 = self@.funs;
        self.funs.push(nf);
        proof {
            assert(self@.funs =~= funs0.push(self.funs@.last()@));
        }
        match self.define_cur(d.name.lexeme.clone(), Object::Function(fid)) {
            Result::Ok(_) => Flow::Norm,
            Result::Err(k) => Flow::Fail(RuntimeError::new(d.name.clone(), k)),
        }
    }

    /// Executes an `if` statement on the truthiness of its condition.
    #[verifier::spinoff_prover]
    fn exec_if(&mut self, d: &crate::stmt::IfData, rem: u64) -> (flow: Flow)
        ensures
            ({
                let (st2, f2) = sp_stmt_if(old(self)@, *d, rem as nat);
                final(self)@ == st2 && flow@ == f2
            }),
        decreases rem, 7nat,
    {
        match self.eval(&d.condition, rem) {
            Result::Ok(v) => {
                if v.truthy() {
                    self.exec_stmt(&d.then_branch, rem)
                } else {
                    match &d.else_branch {
                        Option::Some(e) => self.exec_stmt(e, rem),
                        Option::None => Flow::Norm,
                    }
                }
            },
            Result::Err(err) => Flow::Fail(err),
        }
    }

    /// Executes a block: its statements run in a fresh child frame, and
    /// the previous frame is current again afterwards.
    #[verifier::spinoff_prover]
    fn exec_block_stmt(&mut self, d: &crate::stmt::BlockData, rem: u64) -> (flow: Flow)
        ensures
            ({
                let (st2, f2) = sp_stmt_block(old(self)@, *d, rem as nat);
                final(self)@ == st2 && flow@ == f2
            }),
        decreases rem, d.statements.len() + 10,
    {
        let nid = self.frames.len();
        let ghost fv0 = frames_view(self.frames@);
        self.frames.push(Environment::new(Option::Some(self.current)));
        proof {
            assert(frames_view(self.frames@) =~= fv0.push(self.frames@.last()@));
        }
        self.execute_block(&d.statements, nid, rem)
    }

    /// Executes a `while` loop by checking its condition before each
    /// iteration.
    #[verifier::spinoff_prover]
    fn exec_while(&mut self, cond: &Expr, body: &Stmt, rem: u64) -> (flow: Flow)
        ensures
            ({
                let (st2, f2) = sp_while(old(self)@, *cond, *body, rem as nat);
                final(self)@ == st2 && flow@ == f2
            }),
        decreases rem, 0nat,
    {
        if rem == 0 {
            return Flow::Fail(RuntimeError::new(dummy_token(), ErrorKind::Exhausted));
        }
        match self.eval(cond, rem - 1) {
            Result::Ok(v) => {
                if !v.truthy() {
                    Flow::Norm
                } else {
                    let flow = self.exec_stmt(body, rem - 1);
                    match flow {
                        Flow::Norm => self.exec_while(cond, body, rem - 1),
                        Flow::Brk => Flow::Norm,
                        Flow::Ret(rv) => Flow::Ret(rv),
                        Flow::Fail(err) => Flow::Fail(err),
                    }
                }
            },
            Result::Err(err) => Flow::Fail(err),
        }
    }

    /// Turns a class statement's method declarations, from index `i` on,
    /// into closures over `closure`, and returns the class's method list.
    #[verifier::spinoff_prover]
    fn make_methods(&mut self, methods: &Vec<Stmt>, i: usize, closure: usize) -> (r: Vec<
        (String, usize),
    >)
        ensures
            ({
                let (funs2, ml) = sp_make_methods(
                    old(self)@.funs,
                    methods@,
                    i as int,
                    closure as int,
                );
                final(self)@ == (StateV { funs: funs2, ..old(self)@ }) && r@.map_values(
                    |p: (String, usize)| (p.0@, p.1 as int),
                ) == ml
            }),
        decreases methods.len() - i,
    {
        if i >= methods.len() {
            let r: Vec<(String, usize)> = Vec::new();
            proof {
                assert(r@.map_values(|p: (String, usize)| (p.0@, p.1 as int)) =~= Seq::<
                    (Seq<char>, int),
                >::empty());
            }
            r
        } else {
            match &methods[i] {
                Stmt::Function(f) => {
                    let ps = lexemes_of(&f.params);
                    let init_name: String = "init".to_owned();
                    let is_init = f.name.lexeme.eq(&init_name);
                    let nf = crate::function::Function::new(
                        &f.name.lexeme,
                        &ps,
                        &f.body,
                        closure,
                        is_init,
                    );
                    let fid = self.funs.len();
                    let ghost funs0 = self@.funs;
                    self.funs.push(nf);
                    proof {
                        assert(self@.funs =~= funs0.push(self.funs@.last()@));
                    }
                    let mut rest = self.make_methods(methods, i + 1, closure);
                    let ghost restv = rest@.map_values(|p: (String, usize)| (p.0@, p.1 as int));
                    let mut out: Vec<(String, usize)> = Vec::new();
                    out.push((f.name.lexeme.clone(), fid));
                    out.append(&mut rest);
                    proof {
                        assert(out@.map_values(|p: (String, usize)| (p.0@, p.1 as int)) =~= seq![
                            (out@[0].0@, out@[0].1 as int),
                        ] + restv);
                    }
                    out
                },
                _ => self.make_methods(methods, i + 1, closure),
            }
        }
    }

    /// Executes a class statement.
    #[verifier::spinoff_prover]
    fn exec_class(&mut self, d: &crate::stmt::ClassData, rem: u64) -> (flow: Flow)
        ensures
            ({
                let (st2, f2) = sp_exec_class_body(old(self)@, *d, rem as nat);
                final(self)@ == st2 && flow@ == f2
            }),
        decreases rem, 8nat,
    {
        let superclass: Option<usize> = match &d.superclass {
            Option::Some(e) => {
                match self.eval(e, rem) {
                    Result::Ok(sv) => match sv {
                        Object::Class(sid) => Option::Some(sid),
                        _ => {
                            return Flow::Fail(
                                RuntimeError::new(
                                    d.name.clone(),
                                    ErrorKind::SuperclassMustBeClass,
                                ),
                            );
                        },
                    },
                    Result::Err(err) => {
                        return Flow::Fail(err);
                    },
                }
            },
            Option::None => Option::None,
        };
        self.class_finish(d, superclass)
    }

    /// Finishes a class statement once its superclass is settled.
    #[verifier::spinoff_prover]
    #[verifier::rlimit(60)]
    fn class_finish(&mut self, d: &crate::stmt::ClassData, superclass: Option<usize>) -> (flow:
        Flow)
        ensures
            ({
                let (st2, f2) = sp_class_finish(
                    old(self)@,
                    *d,
                    match superclass {
                        Option::Some(sid) => Option::Some(sid as int),
                        Option::None => Option::None,
                    },
                );
                final(self)@ == st2 && flow@ == f2
            }),
    {
        match self.define_cur(
            d.name.lexeme.clone(),
            Object::Literal(crate::literal::Literal::Null),
        ) {
            Result::Ok(_) => {},
            Result::Err(k) => {
                return Flow::Fail(RuntimeError::new(d.name.clone(), k));
            },
        }
        let method_closure: usize = match superclass {
            Option::Some(sid) => {
                let nid = self.frames.len();
                let ghost fv0 = frames_view(self.frames@);
                let mut env = Environment::new(Option::Some(self.current));
                env.define("super".to_owned(), Object::Class(sid));
                self.frames.push(env);
                proof {
                    assert(self.frames@.last()@.entries =~= seq![
                        ("super"@, ValueV::Class(sid as int)),
                    ]);
                    assert(frames_view(self.frames@) =~= fv0.push(self.frames@.last()@));
                }
                nid
            },
            Option::None => self.current,
        };
        let mlist = self.make_methods(&d.methods, 0, method_closure);
        let cid = self.classes.len();
        let ghost cls0 = classes_view(self.classes@);
        self.classes.push(
            Class { name: d.name.lexeme.clone(), superclass, methods: mlist },
        );
        proof {
            assert(classes_view(self.classes@) =~= cls0.push(self.classes@.last()@));
        }
        let cur = self.current;
        match crate::environment::assign(
            &mut self.frames,
            cur,
            &d.name.lexeme,
            Object::Class(cid),
        ) {
            Result::Ok(_) => Flow::Norm,
            Result::Err(k) => Flow::Fail(RuntimeError::new(d.name.clone(), k)),
        }
    }

    /// Runs a whole program: the statements in order, stopping at the
    /// first runtime error, which is returned. The budget stands for the
    /// host's call stack; a `return` or `break` that unwinds to the top is
    /// itself an error.
    #[verifier::spinoff_prover]
    pub fn interpret(&mut self, statements: &Vec<Stmt>) -> (r: Result<(), RuntimeError>)
        ensures
            ({
                let (st2, r2) = sp_interpret(old(self)@, statements@, FUEL as nat);
                final(self)@ == st2 && (match (r, r2) {
                    (Result::Ok(_), Option::None) => true,
                    (Result::Err(e), Option::Some(e2)) => e@ == e2,
                    _ => false,
                })
            }),
    {
        match self.exec_stmts(statements, 0, FUEL) {
            Flow::Norm => Result::Ok(()),
            Flow::Ret(_) => Result::Err(
                RuntimeError::new(dummy_token(), ErrorKind::StrayReturn),
            ),
            Flow::Brk => Result::Err(RuntimeError::new(dummy_token(), ErrorKind::StrayBreak)),
            Flow::Fail(err) => Result::Err(err),
        }
    }
}


/// Whether an expression is pure: free of assignments, field writes,
/// calls, and property or `super` reads. Evaluating a pure expression has
/// no effect on the state. Property and `super` reads are left out because
/// reading a method binds a fresh closure, which is itself a new object.
pub open spec fn sp_pure_expr(e: Expr) -> bool
    decreases e,
{
    match e {
        Expr::Literal(_) => true,
        Expr::Grouping(g) => sp_pure_expr(*g.expr),
        Expr::Logical(l) => sp_pure_expr(*l.left) && sp_pure_expr(*l.right),
        Expr::Unary(u) => sp_pure_expr(*u.expr),
        Expr::Binary(b) => sp_pure_expr(*b.left) && sp_pure_expr(*b.right),
        Expr::Variable(_) => true,
        Expr::This(_) => true,
        _ => false,
    }
}

/// Evaluating a pure expression leaves the state exactly as it was; with
/// evaluation a function of the state and the expression, it follows that
/// evaluating the same pure expression twice yields the same value both
/// times, which the second conclusion spells out.
pub proof fn lemma_pure_eval_idempotent(st: StateV, e: Expr, fuel: nat)
    requires
        sp_pure_expr(e),
    ensures
        sp_eval(st, e, fuel).0 == st,
        sp_eval(sp_eval(st, e, fuel).0, e, fuel) == sp_eval(st, e, fuel),
    decreases fuel,
{
    if fuel > 0 {
        let rem = (fuel - 1) as nat;
        match e {
            Expr::Grouping(g) => {
                lemma_pure_eval_idempotent(st, *g.expr, rem);
                assert(sp_eval(st, e, fuel) == sp_eval(st, *g.expr, rem));
            },
            Expr::Logical(l) => {
                lemma_pure_eval_idempotent(st, *l.left, rem);
                lemma_pure_eval_idempotent(st, *l.right, rem);
                assert(sp_eval(st, e, fuel) == sp_eval_logical(st, l, rem));
                assert(sp_eval_logical(st, l, rem).0 == st);
            },
            Expr::Unary(u) => {
                lemma_pure_eval_idempotent(st, *u.expr, rem);
                assert(sp_eval(st, e, fuel) == sp_eval_unary(st, u, rem));
                assert(sp_eval_unary(st, u, rem).0 == st);
            },
            Expr::Binary(b) => {
                lemma_pure_eval_idempotent(st, *b.left, rem);
                lemma_pure_eval_idempotent(st, *b.right, rem);
                assert(sp_eval(st, e, fuel) == sp_eval_binary(st, b, rem));
                assert(sp_eval_binary(st, b, rem).0 == st);
            },
            Expr::Literal(_) => {
                assert(sp_eval(st, e, fuel).0 == st);
            },
            Expr::Variable(v) => {
                assert(sp_eval(st, e, fuel) == sp_eval_variable(st, v));
                assert(sp_eval_variable(st, v).0 == st);
            },
            Expr::This(t) => {
                assert(sp_eval(st, e, fuel) == sp_eval_this(st, t));
                assert(sp_eval_this(st, t).0 == st);
            },
            _ => {},
        }
    }
}

/// Calling a closure with the wrong number of arguments fails with an
/// error naming the expected and the supplied count, and the state is left
/// untouched: the body is never entered. This holds for every arity.
pub proof fn lemma_call_arity_checked(
    st: StateV,
    fid: int,
    args: Seq<ValueV>,
    paren: TokenV,
    fuel: nat,
)
    requires
        0 <= fid < st.funs.len(),
        args.len() != st.funs[fid].params.len(),
    ensures
        sp_call(st, ValueV::Fun(fid), args, paren, fuel) == (
            st,
            Result::<ValueV, ErrV>::Err(
                ErrV {
                    token: paren,
                    kind: ErrorKind::WrongArity(
                        st.funs[fid].params.len() as usize,
                        args.len() as usize,
                    ),
                },
            ),
        ),
{
}

/// Calling a class with the wrong number of arguments for its initializer
/// fails the same way, before any instance is made.
pub proof fn lemma_class_arity_checked(
    st: StateV,
    cid: int,
    args: Seq<ValueV>,
    paren: TokenV,
    fuel: nat,
    arity: nat,
)
    requires
        0 <= cid < st.classes.len(),
        sp_class_arity(st, cid) == Option::Some(arity),
        args.len() != arity,
    ensures
        sp_call(st, ValueV::Class(cid), args, paren, fuel) == (
            st,
            Result::<ValueV, ErrV>::Err(
                ErrV {
                    token: paren,
                    kind: ErrorKind::WrongArity(arity as usize, args.len() as usize),
                },
            ),
        ),
{
}

/// Every call runs its body in a fresh parameter frame: its handle is one
/// past every frame that existed before the call, so no earlier call's
/// frame is reused, and it holds exactly the parameters bound to the
/// arguments over the closure's captured frame — no binding from any
/// earlier call, aborted or not, is in it.
pub proof fn lemma_call_runs_body_in_fresh_frame(
    st: StateV,
    fid: int,
    args: Seq<ValueV>,
    paren: TokenV,
    fuel: nat,
)
    requires
        fuel >= 1,
    ensures
        ({
            let f = st.funs[fid];
            let fresh = st.frames.len() as int;
            let frame = FrameV {
                enclosing: Option::Some(f.closure),
                entries: sp_param_entries(f.params, args),
            };
            let started = StateV { frames: st.frames.push(frame), current: fresh, ..st };
            &&& started.frames[fresh] == frame
            &&& forall|i: int| 0 <= i < fresh ==> #[trigger] started.frames[i] == st.frames[i]
            &&& sp_call_function(st, fid, args, paren, fuel) == ({
                let (st2, flow) = sp_exec_stmts(started, f.body, 0, (fuel - 1) as nat);
                let st3 = StateV { current: st.current, ..st2 };
                match flow {
                    FlowV::Norm => if f.is_init {
                        match sp_env_get_at(st3.frames, f.closure, 0, "this"@) {
                            Result::Ok(v) => (st3, Result::<ValueV, ErrV>::Ok(v)),
                            Result::Err(k) => (st3, Result::Err(ErrV { token: paren, kind: k })),
                        }
                    } else {
                        (st3, Result::Ok(ValueV::Lit(LitV::Null)))
                    },
                    FlowV::Ret(v) => if f.is_init {
                        match sp_env_get_at(st3.frames, f.closure, 0, "this"@) {
                            Result::Ok(tv) => (st3, Result::Ok(tv)),
                            Result::Err(k) => (st3, Result::Err(ErrV { token: paren, kind: k })),
                        }
                    } else {
                        (st3, Result::Ok(v))
                    },
                    FlowV::Brk => (
                        st3,
                        Result::Err(ErrV { token: paren, kind: ErrorKind::StrayBreak }),
                    ),
                    FlowV::Fail(err) => (st3, Result::Err(err)),
                }
            })
        }),
{
}

/// However a call ends — normally, through a `return` unwinding out of
/// nested blocks and loops, or with an error — the caller stands in the
/// same frame afterwards as before: an unwinding `return` does not leak
/// the environments it unwound through.
pub proof fn lemma_call_restores_frame(
    st: StateV,
    fid: int,
    args: Seq<ValueV>,
    paren: TokenV,
    fuel: nat,
)
    ensures
        sp_call_function(st, fid, args, paren, fuel).0.current == st.current,
{
}

/// However a block ends, execution stands in the enclosing frame
/// afterwards.
pub proof fn lemma_block_restores_frame(st: StateV, d: crate::stmt::BlockData, rem: nat)
    ensures
        sp_stmt_block(st, d, rem).0.current == st.current,
{
}


impl Interpreter {
    /// Installs a resolution table wholesale, replacing any previous one:
    /// the driver hands over what the resolver computed before running the
    /// program.
    pub fn set_table(&mut self, table: Vec<Option<usize>>)
        ensures
            final(self)@ == (StateV { locals: table@, ..old(self)@ }),
    {
        self.locals = table;
    }
}

} // verus!
