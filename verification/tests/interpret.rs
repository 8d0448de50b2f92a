use rocks_lang::error::{ErrorKind, ResolveErrorKind};
use rocks_lang::expr::{
    AssignData, BinaryData, CallData, Expr, GetData, GroupingData, LogicalData, SetData,
    SuperData, ThisData, UnaryData, VariableData,
};
use rocks_lang::interpreter::Interpreter;
use rocks_lang::literal::Literal;
use rocks_lang::object::{NativeFunction, Object};
use rocks_lang::rocks;
use rocks_lang::stmt::{
    BlockData, BreakData, ClassData, ExpressionData, FunctionData, IfData, PrintData, ReturnData,
    Stmt, VarData, WhileData,
};
use rocks_lang::token::{Location, Token, Type};
use rocks_lang::RunError;

use std::rc::Rc;

/// Hands out one fresh resolution slot per variable reference.
struct Slots(usize);

impl Slots {
    fn new() -> Slots {
        Slots(0)
    }

    fn next(&mut self) -> usize {
        self.0 += 1;
        self.0 - 1
    }
}

fn ident(name: &str) -> Token {
    Token::from_name(name)
}

fn op(t: Type) -> Token {
    Token::new(t, String::new(), None, Location::new(0, 0))
}

fn num(n: i64) -> Expr {
    Expr::Literal(Literal::Num(n))
}

fn text(s: &str) -> Expr {
    Expr::Literal(Literal::Str(s.to_string()))
}

fn truth(b: bool) -> Expr {
    Expr::Literal(Literal::Bool(b))
}

fn null() -> Expr {
    Expr::Literal(Literal::Null)
}

fn var(s: &mut Slots, name: &str) -> Expr {
    Expr::Variable(VariableData { name: ident(name), slot: s.next() })
}

fn assign(s: &mut Slots, name: &str, value: Expr) -> Expr {
    Expr::Assign(AssignData { name: ident(name), value: Box::new(value), slot: s.next() })
}

fn this_(s: &mut Slots) -> Expr {
    Expr::This(ThisData { keyword: ident("this"), slot: s.next() })
}

fn super_(s: &mut Slots, method: &str) -> Expr {
    Expr::Super(SuperData { keyword: ident("super"), method: ident(method), slot: s.next() })
}

fn bin(t: Type, l: Expr, r: Expr) -> Expr {
    Expr::Binary(BinaryData { left: Box::new(l), operator: op(t), right: Box::new(r) })
}

fn logic(t: Type, l: Expr, r: Expr) -> Expr {
    Expr::Logical(LogicalData { left: Box::new(l), operator: op(t), right: Box::new(r) })
}

fn unary(t: Type, e: Expr) -> Expr {
    Expr::Unary(UnaryData { operator: op(t), expr: Box::new(e) })
}

fn group(e: Expr) -> Expr {
    Expr::Grouping(GroupingData { expr: Box::new(e) })
}

fn call(callee: Expr, args: Vec<Expr>) -> Expr {
    Expr::Call(CallData { callee: Box::new(callee), paren: op(Type::RightParen), arguments: args })
}

fn get(object: Expr, name: &str) -> Expr {
    Expr::Get(GetData { object: Box::new(object), name: ident(name) })
}

fn set(object: Expr, name: &str, value: Expr) -> Expr {
    Expr::SetProp(SetData { object: Box::new(object), name: ident(name), value: Box::new(value) })
}

fn print_(e: Expr) -> Stmt {
    Stmt::Print(PrintData { expr: e })
}

fn expr_(e: Expr) -> Stmt {
    Stmt::Expression(ExpressionData { expr: e })
}

fn var_(name: &str, init: Option<Expr>) -> Stmt {
    Stmt::Var(VarData { name: ident(name), initializer: init })
}

fn ret(value: Option<Expr>) -> Stmt {
    Stmt::Return(ReturnData { keyword: ident("return"), value })
}

fn brk() -> Stmt {
    Stmt::Break(BreakData { keyword: ident("break") })
}

fn if_(cond: Expr, then: Stmt, els: Option<Stmt>) -> Stmt {
    Stmt::If(IfData {
        condition: cond,
        then_branch: Box::new(then),
        else_branch: els.map(Box::new),
    })
}

fn while_(cond: Expr, body: Stmt) -> Stmt {
    Stmt::While(WhileData { condition: cond, body: Box::new(body) })
}

fn block(stmts: Vec<Stmt>) -> Stmt {
    Stmt::Block(BlockData { statements: stmts })
}

fn fun_(name: &str, params: Vec<&str>, body: Vec<Stmt>) -> Stmt {
    Stmt::Function(FunctionData {
        name: ident(name),
        params: params.into_iter().map(ident).collect(),
        body: Rc::new(body),
    })
}

fn class_(name: &str, superclass: Option<Expr>, methods: Vec<Stmt>) -> Stmt {
    Stmt::Class(ClassData { name: ident(name), superclass, methods })
}

fn run(stmts: Vec<Stmt>) -> (rocks, Result<(), RunError>) {
    let mut r = rocks::new();
    let result = r.run(&stmts);
    (r, result)
}

fn outputs(interp: &Interpreter) -> Vec<String> {
    let mut out = Vec::new();
    for v in interp.output.iter() {
        out.push(interp.render(v));
    }
    out
}

fn run_ok(stmts: Vec<Stmt>) -> Vec<String> {
    let (r, result) = run(stmts);
    if let Err(e) = result {
        panic!("run failed: {:?}", e);
    }
    outputs(&r.interpreter)
}

fn runtime_error(result: Result<(), RunError>) -> ErrorKind {
    match result {
        Err(RunError::Runtime(e)) => e.kind,
        other => panic!("expected a runtime error, got {:?}", other),
    }
}

fn resolve_errors(result: Result<(), RunError>) -> Vec<ResolveErrorKind> {
    match result {
        Err(RunError::Resolve(es)) => es.into_iter().map(|e| e.kind).collect(),
        other => panic!("expected resolve errors, got {:?}", other),
    }
}

#[test]
fn prints_literals() {
    let out = run_ok(vec![
        print_(num(1)),
        print_(text("hi")),
        print_(truth(true)),
        print_(null()),
    ]);
    assert_eq!(out, vec!["1", "hi", "true", "null"]);
}

#[test]
fn global_variables_and_assignment() {
    let mut s = Slots::new();
    let a1 = var(&mut s, "a");
    let a2 = assign(&mut s, "a", num(2));
    let a3 = var(&mut s, "a");
    let out = run_ok(vec![var_("a", Some(num(1))), print_(a1), expr_(a2), print_(a3)]);
    assert_eq!(out, vec!["1", "2"]);
}

#[test]
fn nested_shadowing_reads_nearest_declaration() {
    let mut s = Slots::new();
    let inner_read = var(&mut s, "a");
    let middle_read = var(&mut s, "a");
    let global_read = var(&mut s, "a");
    let out = run_ok(vec![
        var_("a", Some(text("global"))),
        block(vec![
            var_("a", Some(text("outer"))),
            block(vec![var_("a", Some(text("inner"))), print_(inner_read)]),
            print_(middle_read),
        ]),
        print_(global_read),
    ]);
    assert_eq!(out, vec!["inner", "outer", "global"]);
}

#[test]
fn function_reference_is_bound_statically() {
    let mut s = Slots::new();
    let a_in_f = var(&mut s, "a");
    let f1 = var(&mut s, "f");
    let f2 = var(&mut s, "f");
    let out = run_ok(vec![
        var_("a", Some(text("outer"))),
        block(vec![
            fun_("f", vec![], vec![print_(a_in_f)]),
            expr_(call(f1, vec![])),
            var_("a", Some(text("inner"))),
            expr_(call(f2, vec![])),
        ]),
    ]);
    assert_eq!(out, vec!["outer", "outer"]);
}

#[test]
fn counter_closure_observes_shared_scope() {
    let mut s = Slots::new();
    let i_read = var(&mut s, "i");
    let i_target = assign(&mut s, "i", bin(Type::Plus, i_read, num(1)));
    let i_ret = var(&mut s, "i");
    let inc_ref = var(&mut s, "inc");
    let counter_ref = var(&mut s, "counter");
    let c1 = var(&mut s, "c");
    let c2 = var(&mut s, "c");
    let out = run_ok(vec![
        fun_(
            "counter",
            vec![],
            vec![
                var_("i", Some(num(0))),
                fun_("inc", vec![], vec![expr_(i_target), ret(Some(i_ret))]),
                ret(Some(inc_ref)),
            ],
        ),
        var_("c", Some(call(counter_ref, vec![]))),
        print_(call(c1, vec![])),
        print_(call(c2, vec![])),
    ]);
    assert_eq!(out, vec!["1", "2"]);
}

#[test]
fn mutation_through_one_closure_is_seen_by_another() {
    let mut s = Slots::new();
    let x_set = assign(&mut s, "x", text("after"));
    let x_get = var(&mut s, "x");
    let setter = var(&mut s, "setter");
    let getter = var(&mut s, "getter");
    let outer_ref = var(&mut s, "outer");
    let out = run_ok(vec![
        fun_(
            "outer",
            vec![],
            vec![
                var_("x", Some(text("before"))),
                fun_("setter", vec![], vec![expr_(x_set)]),
                fun_("getter", vec![], vec![ret(Some(x_get))]),
                expr_(call(setter, vec![])),
                ret(Some(call(getter, vec![]))),
            ],
        ),
        print_(call(outer_ref, vec![])),
    ]);
    assert_eq!(out, vec!["after"]);
}

#[test]
fn fields_settable_and_gettable() {
    let mut s = Slots::new();
    let foo_ref = var(&mut s, "Foo");
    let f_set = var(&mut s, "f");
    let f_get = var(&mut s, "f");
    let out = run_ok(vec![
        class_("Foo", None, vec![]),
        var_("f", Some(call(foo_ref, vec![]))),
        expr_(set(f_set, "x", num(1))),
        print_(get(f_get, "x")),
    ]);
    assert_eq!(out, vec!["1"]);
}

#[test]
fn self_inheritance_fails_resolution() {
    let mut s = Slots::new();
    let a_ref = var(&mut s, "A");
    let (r, result) = run(vec![class_("A", Some(a_ref), vec![])]);
    let kinds = resolve_errors(result);
    assert!(kinds.contains(&ResolveErrorKind::InheritFromItself));
    assert!(r.interpreter.output.is_empty());
}

#[test]
fn super_skips_to_nearest_definition_above() {
    // A defines the method, B inherits it silently, C overrides and calls
    // super: the call must reach A's implementation through B.
    let mut s = Slots::new();
    let sup_m = super_(&mut s, "m");
    let a_ref = var(&mut s, "A");
    let b_ref = var(&mut s, "B");
    let c_ref = var(&mut s, "c");
    let out = run_ok(vec![
        class_("A", None, vec![fun_("m", vec![], vec![ret(Some(text("A")))])]),
        class_("B", Some(a_ref), vec![]),
        {
            let mut s2 = Slots(100);
            let b2 = var(&mut s2, "B");
            class_(
                "C",
                Some(b2),
                vec![fun_("m", vec![], vec![ret(Some(call(sup_m, vec![])))])],
            )
        },
        var_("c", Some(call(var(&mut Slots(200), "C"), vec![]))),
        print_(call(get(c_ref, "m"), vec![])),
    ]);
    let _ = b_ref;
    assert_eq!(out, vec!["A"]);
}

#[test]
fn super_starts_at_the_defining_class_not_the_instance() {
    // Both A and B define the method; C overrides and calls super, which
    // must reach B's implementation, the defining class's superclass.
    let mut s = Slots::new();
    let sup_m = super_(&mut s, "m");
    let a_ref = var(&mut s, "A");
    let b_ref = var(&mut s, "B");
    let c_ref = var(&mut s, "C");
    let inst = var(&mut s, "c");
    let out = run_ok(vec![
        class_("A", None, vec![fun_("m", vec![], vec![ret(Some(text("A")))])]),
        class_(
            "B",
            Some(a_ref),
            vec![fun_("m", vec![], vec![ret(Some(text("B")))])],
        ),
        class_(
            "C",
            Some(b_ref),
            vec![fun_("m", vec![], vec![ret(Some(call(sup_m, vec![])))])],
        ),
        var_("c", Some(call(c_ref, vec![]))),
        print_(call(get(inst, "m"), vec![])),
    ]);
    assert_eq!(out, vec!["B"]);
}

#[test]
fn wrong_arity_zero_parameters() {
    let mut s = Slots::new();
    let f_ref = var(&mut s, "f");
    let (_, result) = run(vec![
        fun_("f", vec![], vec![]),
        expr_(call(f_ref, vec![num(1)])),
    ]);
    assert_eq!(runtime_error(result), ErrorKind::WrongArity(0, 1));
}

#[test]
fn wrong_arity_one_parameter() {
    let mut s = Slots::new();
    let f_ref = var(&mut s, "f");
    let (_, result) = run(vec![fun_("f", vec!["a"], vec![]), expr_(call(f_ref, vec![]))]);
    assert_eq!(runtime_error(result), ErrorKind::WrongArity(1, 0));
}

#[test]
fn wrong_arity_two_parameters() {
    let mut s = Slots::new();
    let f_ref = var(&mut s, "f");
    let (_, result) = run(vec![
        fun_("f", vec!["a", "b"], vec![]),
        expr_(call(f_ref, vec![num(1), num(2), num(3)])),
    ]);
    assert_eq!(runtime_error(result), ErrorKind::WrongArity(2, 3));
}

#[test]
fn wrong_arity_class_initializer() {
    let mut s = Slots::new();
    let v_param = var(&mut s, "v");
    let t = this_(&mut s);
    let p_ref = var(&mut s, "P");
    let (_, result) = run(vec![
        class_(
            "P",
            None,
            vec![fun_("init", vec!["v"], vec![expr_(set(t, "v", v_param))])],
        ),
        expr_(call(p_ref, vec![])),
    ]);
    assert_eq!(runtime_error(result), ErrorKind::WrongArity(1, 0));
}

#[test]
fn return_unwinds_loops_and_blocks_without_leaking() {
    let mut s = Slots::new();
    let f1 = var(&mut s, "f");
    let f2 = var(&mut s, "f");
    let out = run_ok(vec![
        fun_(
            "f",
            vec![],
            vec![
                var_("r", Some(num(0))),
                while_(truth(true), block(vec![block(vec![ret(Some(text("done")))])])),
            ],
        ),
        print_(call(f1, vec![])),
        print_(call(f2, vec![])),
    ]);
    assert_eq!(out, vec!["done", "done"]);
}

#[test]
fn pure_expression_evaluates_the_same_twice() {
    let out = run_ok(vec![
        print_(bin(Type::Plus, num(1), bin(Type::Star, num(2), num(3)))),
        print_(bin(Type::Plus, num(1), bin(Type::Star, num(2), num(3)))),
    ]);
    assert_eq!(out, vec!["7", "7"]);
}

#[test]
fn root_method_found_through_any_number_of_hops() {
    let mut s = Slots::new();
    let a_ref = var(&mut s, "A");
    let b_ref = var(&mut s, "B");
    let c_ref = var(&mut s, "C");
    let out = run_ok(vec![
        class_("A", None, vec![fun_("hello", vec![], vec![ret(Some(text("hi")))])]),
        class_("B", Some(a_ref), vec![]),
        class_("C", Some(b_ref), vec![]),
        print_(call(get(call(c_ref, vec![]), "hello"), vec![])),
    ]);
    assert_eq!(out, vec!["hi"]);
}

#[test]
fn logical_operators_short_circuit_and_keep_operand_values() {
    let out = run_ok(vec![
        print_(logic(Type::Or, num(1), num(2))),
        print_(logic(Type::Or, num(0), num(2))),
        print_(logic(Type::And, num(0), num(2))),
        print_(logic(Type::And, num(1), num(2))),
        print_(logic(Type::Or, null(), text("x"))),
    ]);
    assert_eq!(out, vec!["1", "2", "0", "2", "x"]);
}

#[test]
fn while_loop_accumulates() {
    let mut s = Slots::new();
    let i_cond = var(&mut s, "i");
    let sum_read = var(&mut s, "sum");
    let i_in_sum = var(&mut s, "i");
    let sum_upd = assign(&mut s, "sum", bin(Type::Plus, sum_read, i_in_sum));
    let i_read2 = var(&mut s, "i");
    let i_upd = assign(&mut s, "i", bin(Type::Plus, i_read2, num(1)));
    let sum_print = var(&mut s, "sum");
    let out = run_ok(vec![
        var_("i", Some(num(0))),
        var_("sum", Some(num(0))),
        while_(
            bin(Type::Less, i_cond, num(3)),
            block(vec![expr_(sum_upd), expr_(i_upd)]),
        ),
        print_(sum_print),
    ]);
    assert_eq!(out, vec!["3"]);
}

#[test]
fn break_leaves_the_loop_silently() {
    let mut s = Slots::new();
    let i_read3 = var(&mut s, "i");
    let i_upd = assign(&mut s, "i", bin(Type::Plus, i_read3, num(1)));
    let i_check = var(&mut s, "i");
    let i_read = var(&mut s, "i");
    let out = run_ok(vec![
        var_("i", Some(num(0))),
        while_(
            truth(true),
            block(vec![
                expr_(i_upd),
                if_(bin(Type::Greater, i_check, num(2)), brk(), None),
            ]),
        ),
        print_(i_read),
    ]);
    assert_eq!(out, vec!["3"]);
}

#[test]
fn break_outside_a_loop_is_a_runtime_error() {
    let (_, result) = run(vec![brk()]);
    assert_eq!(runtime_error(result), ErrorKind::StrayBreak);
}

#[test]
fn return_at_top_level_fails_resolution() {
    let (_, result) = run(vec![ret(None)]);
    assert!(resolve_errors(result).contains(&ResolveErrorKind::ReturnOutsideFunction));
}

#[test]
fn this_outside_a_class_fails_resolution() {
    let mut s = Slots::new();
    let t = this_(&mut s);
    let (_, result) = run(vec![print_(t)]);
    assert!(resolve_errors(result).contains(&ResolveErrorKind::ThisOutsideClass));
}

#[test]
fn super_without_a_superclass_fails_resolution() {
    let mut s = Slots::new();
    let sup = super_(&mut s, "m");
    let (_, result) = run(vec![class_(
        "A",
        None,
        vec![fun_("m", vec![], vec![ret(Some(call(sup, vec![])))])],
    )]);
    assert!(resolve_errors(result).contains(&ResolveErrorKind::SuperWithoutSuperclass));
}

#[test]
fn super_outside_a_class_fails_resolution() {
    let mut s = Slots::new();
    let sup = super_(&mut s, "m");
    let (_, result) = run(vec![expr_(sup)]);
    assert!(resolve_errors(result).contains(&ResolveErrorKind::SuperOutsideClass));
}

#[test]
fn duplicate_declaration_in_one_scope_fails_resolution() {
    let (_, result) = run(vec![block(vec![
        var_("a", Some(num(1))),
        var_("a", Some(num(2))),
    ])]);
    assert!(resolve_errors(result).contains(&ResolveErrorKind::AlreadyDefined));
}

#[test]
fn reading_a_variable_in_its_own_initializer_fails_resolution() {
    let mut s = Slots::new();
    let a_read = var(&mut s, "a");
    let (_, result) = run(vec![
        var_("a", Some(num(1))),
        block(vec![var_("a", Some(a_read))]),
    ]);
    assert!(resolve_errors(result).contains(&ResolveErrorKind::ReadInInitializer));
}

#[test]
fn returning_a_value_from_an_initializer_fails_resolution() {
    let (_, result) = run(vec![class_(
        "A",
        None,
        vec![fun_("init", vec![], vec![ret(Some(num(1)))])],
    )]);
    assert!(resolve_errors(result).contains(&ResolveErrorKind::ReturnValueFromInitializer));
}

#[test]
fn undefined_variable_is_a_runtime_error() {
    let mut s = Slots::new();
    let x = var(&mut s, "x");
    let (_, result) = run(vec![print_(x)]);
    assert_eq!(runtime_error(result), ErrorKind::UndefinedVariable);
}

#[test]
fn assigning_an_undefined_variable_is_a_runtime_error() {
    let mut s = Slots::new();
    let x = assign(&mut s, "x", num(1));
    let (_, result) = run(vec![expr_(x)]);
    assert_eq!(runtime_error(result), ErrorKind::UndefinedVariable);
}

#[test]
fn calling_a_number_is_a_runtime_error() {
    let (_, result) = run(vec![expr_(call(num(1), vec![]))]);
    assert_eq!(runtime_error(result), ErrorKind::NotCallable);
}

#[test]
fn properties_exist_only_on_instances() {
    let (_, result) = run(vec![print_(get(num(1), "x"))]);
    assert_eq!(runtime_error(result), ErrorKind::OnlyInstancesHaveProperties);
    let (_, result2) = run(vec![expr_(set(num(1), "x", num(2)))]);
    assert_eq!(runtime_error(result2), ErrorKind::OnlyInstancesHaveFields);
}

#[test]
fn undefined_property_is_a_runtime_error() {
    let mut s = Slots::new();
    let foo_ref = var(&mut s, "Foo");
    let (_, result) = run(vec![
        class_("Foo", None, vec![]),
        print_(get(call(foo_ref, vec![]), "missing")),
    ]);
    assert_eq!(runtime_error(result), ErrorKind::UndefinedProperty);
}

#[test]
fn superclass_must_be_a_class() {
    let mut s = Slots::new();
    let x_ref = var(&mut s, "x");
    let (_, result) = run(vec![
        var_("x", Some(num(1))),
        class_("A", Some(x_ref), vec![]),
    ]);
    assert_eq!(runtime_error(result), ErrorKind::SuperclassMustBeClass);
}

#[test]
fn division_by_zero_aborts_the_run() {
    let (_, result) = run(vec![print_(bin(Type::Slash, num(1), num(0)))]);
    assert_eq!(runtime_error(result), ErrorKind::DivisionByZero);
}

#[test]
fn initializer_binds_fields_and_yields_the_instance() {
    let mut s = Slots::new();
    let v_param = var(&mut s, "v");
    let t = this_(&mut s);
    let p_ref = var(&mut s, "P");
    let p_read = var(&mut s, "p");
    let out = run_ok(vec![
        class_(
            "P",
            None,
            vec![fun_("init", vec!["v"], vec![expr_(set(t, "v", v_param))])],
        ),
        var_("p", Some(call(p_ref, vec![num(5)]))),
        print_(get(p_read, "v")),
    ]);
    assert_eq!(out, vec!["5"]);
}

#[test]
fn bare_return_in_initializer_still_yields_the_instance() {
    let mut s = Slots::new();
    let t = this_(&mut s);
    let q_ref = var(&mut s, "Q");
    let q_read = var(&mut s, "q");
    let out = run_ok(vec![
        class_(
            "Q",
            None,
            vec![fun_(
                "init",
                vec![],
                vec![expr_(set(t, "x", num(1))), ret(None)],
            )],
        ),
        var_("q", Some(call(q_ref, vec![]))),
        print_(get(q_read, "x")),
    ]);
    assert_eq!(out, vec!["1"]);
}

#[test]
fn native_functions_hand_out_queued_results_then_null() {
    // The clock native is installed by the interpreter itself; the host
    // queues what it returns.
    let mut s = Slots::new();
    let c1 = var(&mut s, "clock");
    let c2 = var(&mut s, "clock");
    let mut r = rocks::new();
    r.interpreter
        .provide_native_result(Object::Literal(Literal::Num(42)));
    let stmts = vec![print_(call(c1, vec![])), print_(call(c2, vec![]))];
    r.run(&stmts).unwrap();
    assert_eq!(outputs(&r.interpreter), vec!["42", "null"]);
}

#[test]
fn hosts_can_install_their_own_natives() {
    let mut s = Slots::new();
    let b1 = var(&mut s, "beep");
    let mut r = rocks::new();
    r.interpreter.define_global(
        "beep".to_string(),
        Object::NativeFunction(NativeFunction { name: "beep".to_string() }),
    );
    r.interpreter
        .provide_native_result(Object::Literal(Literal::Str("pong".to_string())));
    let stmts = vec![print_(call(b1, vec![]))];
    r.run(&stmts).unwrap();
    assert_eq!(outputs(&r.interpreter), vec!["pong"]);
}

#[test]
fn input_native_is_installed_too() {
    let mut s = Slots::new();
    let i1 = var(&mut s, "input");
    let mut r = rocks::new();
    r.interpreter
        .provide_native_result(Object::Literal(Literal::Str("a line".to_string())));
    let stmts = vec![print_(call(i1, vec![]))];
    r.run(&stmts).unwrap();
    assert_eq!(outputs(&r.interpreter), vec!["a line"]);
}

#[test]
fn bang_negates_truthiness_of_any_value() {
    let out = run_ok(vec![
        print_(unary(Type::Bang, num(5))),
        print_(unary(Type::Bang, num(0))),
        print_(unary(Type::Bang, text(""))),
        print_(unary(Type::Bang, text("x"))),
    ]);
    assert_eq!(out, vec!["false", "true", "true", "false"]);
}

#[test]
fn functions_and_classes_are_truthy_in_conditions() {
    let mut s = Slots::new();
    let f_cond = var(&mut s, "f");
    let foo_cond = var(&mut s, "Foo");
    let f_and = var(&mut s, "f");
    let out = run_ok(vec![
        fun_("f", vec![], vec![]),
        class_("Foo", None, vec![]),
        if_(f_cond, print_(text("fun taken")), Some(print_(text("fun skipped")))),
        if_(foo_cond, print_(text("class taken")), Some(print_(text("class skipped")))),
        print_(logic(Type::And, f_and, text("right"))),
    ]);
    assert_eq!(out, vec!["fun taken", "class taken", "right"]);
}

#[test]
fn classes_and_functions_print_by_name() {
    let mut s = Slots::new();
    let foo_ref = var(&mut s, "Foo");
    let f_ref = var(&mut s, "f");
    let inst_ref = var(&mut s, "Foo");
    let out = run_ok(vec![
        class_("Foo", None, vec![]),
        fun_("f", vec![], vec![]),
        print_(foo_ref),
        print_(f_ref),
        print_(call(inst_ref, vec![])),
    ]);
    assert_eq!(out, vec!["<class Foo>", "<function f>", "<instance Foo>"]);
}

#[test]
fn instances_are_shared_by_reference() {
    let mut s = Slots::new();
    let foo_ref = var(&mut s, "Foo");
    let a_read = var(&mut s, "a");
    let b_write = var(&mut s, "b");
    let a_field = var(&mut s, "a");
    let out = run_ok(vec![
        class_("Foo", None, vec![]),
        var_("a", Some(call(foo_ref, vec![]))),
        var_("b", Some(a_read)),
        expr_(set(b_write, "x", num(9))),
        print_(get(a_field, "x")),
    ]);
    assert_eq!(out, vec!["9"]);
}

#[test]
fn recursive_functions_work() {
    let mut s = Slots::new();
    let n_cond = var(&mut s, "n");
    let n_base = var(&mut s, "n");
    let fib1 = var(&mut s, "fib");
    let n1 = var(&mut s, "n");
    let fib2 = var(&mut s, "fib");
    let n2 = var(&mut s, "n");
    let fib_top = var(&mut s, "fib");
    let out = run_ok(vec![
        fun_(
            "fib",
            vec!["n"],
            vec![
                if_(bin(Type::Less, n_cond, num(2)), ret(Some(n_base)), None),
                ret(Some(bin(
                    Type::Plus,
                    call(fib1, vec![bin(Type::Minus, n1, num(1))]),
                    call(fib2, vec![bin(Type::Minus, n2, num(2))]),
                ))),
            ],
        ),
        print_(call(fib_top, vec![num(10)])),
    ]);
    assert_eq!(out, vec!["55"]);
}

#[test]
fn grouping_and_unary_evaluate() {
    let out = run_ok(vec![
        print_(bin(Type::Star, group(bin(Type::Plus, num(1), num(2))), num(3))),
        print_(unary(Type::Minus, num(5))),
        print_(unary(Type::Bang, truth(false))),
    ]);
    assert_eq!(out, vec!["9", "-5", "true"]);
}

#[test]
fn runtime_error_stops_later_statements() {
    let mut s = Slots::new();
    let x = var(&mut s, "x");
    let (r, result) = run(vec![print_(num(1)), print_(x), print_(num(2))]);
    assert_eq!(runtime_error(result), ErrorKind::UndefinedVariable);
    assert_eq!(outputs(&r.interpreter), vec!["1"]);
}
