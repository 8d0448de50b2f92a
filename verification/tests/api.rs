use rocks_lang::class::{get_method, Class};
use rocks_lang::display::{i64_to_string, u64_to_string};
use rocks_lang::environment::{ancestor, assign, assign_at, get, get_at, Environment};
use rocks_lang::error::ErrorKind;
use rocks_lang::expr::{Expr, VariableData};
use rocks_lang::interpreter::{Interpreter, Flow, FUEL};
use rocks_lang::literal::Literal;
use rocks_lang::object::Object;
use rocks_lang::stmt::{PrintData, Stmt, VarData};
use rocks_lang::token::Token;

fn num(n: i64) -> Object {
    Object::Literal(Literal::Num(n))
}

fn as_num(o: &Object) -> i64 {
    match o {
        Object::Literal(Literal::Num(n)) => *n,
        other => panic!("expected a number, got {:?}", other),
    }
}

#[test]
fn chain_lookup_walks_enclosing_frames() {
    let mut frames = Vec::new();
    let mut global = Environment::new(None);
    global.define("a".to_string(), num(1));
    frames.push(global);
    frames.push(Environment::new(Some(0)));

    let found = get(&frames, 1, &"a".to_string()).unwrap();
    assert_eq!(as_num(&found), 1);
    assert_eq!(
        get(&frames, 1, &"missing".to_string()).unwrap_err(),
        ErrorKind::UndefinedVariable
    );
}

#[test]
fn resolved_lookup_stays_in_its_frame() {
    let mut frames = Vec::new();
    let mut global = Environment::new(None);
    global.define("a".to_string(), num(1));
    frames.push(global);
    let mut child = Environment::new(Some(0));
    child.define("a".to_string(), num(2));
    frames.push(child);

    assert_eq!(as_num(&get_at(&frames, 1, 0, &"a".to_string()).unwrap()), 2);
    assert_eq!(as_num(&get_at(&frames, 1, 1, &"a".to_string()).unwrap()), 1);
    // At a resolved distance the lookup is frame-local: a name the target
    // frame does not bind is not chased further out.
    assert_eq!(
        get_at(&frames, 1, 0, &"only_global".to_string()).unwrap_err(),
        ErrorKind::UndefinedVariable
    );
}

#[test]
fn assignment_replaces_and_never_creates() {
    let mut frames = Vec::new();
    let mut global = Environment::new(None);
    global.define("a".to_string(), num(1));
    frames.push(global);
    frames.push(Environment::new(Some(0)));

    assign(&mut frames, 1, &"a".to_string(), num(5)).unwrap();
    assert_eq!(as_num(&get(&frames, 1, &"a".to_string()).unwrap()), 5);
    assert_eq!(
        assign(&mut frames, 1, &"fresh".to_string(), num(9)).unwrap_err(),
        ErrorKind::UndefinedVariable
    );

    assign_at(&mut frames, 1, 1, &"a".to_string(), num(7)).unwrap();
    assert_eq!(as_num(&get_at(&frames, 1, 1, &"a".to_string()).unwrap()), 7);
}

#[test]
fn redeclaration_overwrites_within_a_frame() {
    let mut frame = Environment::new(None);
    frame.define("a".to_string(), num(1));
    frame.define("a".to_string(), num(2));
    assert_eq!(as_num(&frame.get_here(&"a".to_string()).unwrap()), 2);
}

#[test]
fn ancestor_walks_exact_distances() {
    let mut frames = Vec::new();
    frames.push(Environment::new(None));
    frames.push(Environment::new(Some(0)));
    frames.push(Environment::new(Some(1)));

    assert_eq!(ancestor(&frames, 2, 0).unwrap(), 2);
    assert_eq!(ancestor(&frames, 2, 1).unwrap(), 1);
    assert_eq!(ancestor(&frames, 2, 2).unwrap(), 0);
    assert_eq!(ancestor(&frames, 2, 3).unwrap_err(), ErrorKind::Corrupt);
}

#[test]
fn method_lookup_walks_the_superclass_chain() {
    let classes = vec![
        Class { name: "A".to_string(), superclass: None, methods: vec![("m".to_string(), 0)] },
        Class { name: "B".to_string(), superclass: Some(0), methods: Vec::new() },
        Class {
            name: "C".to_string(),
            superclass: Some(1),
            methods: vec![("m".to_string(), 7)],
        },
    ];

    assert_eq!(get_method(&classes, 0, &"m".to_string()), Some(0));
    assert_eq!(get_method(&classes, 1, &"m".to_string()), Some(0));
    assert_eq!(get_method(&classes, 2, &"m".to_string()), Some(7));
    assert_eq!(get_method(&classes, 2, &"missing".to_string()), None);
}

#[test]
fn resolve_hook_records_distances_for_the_interpreter() {
    // One block: the reference to `a` inside it is resolved by hand to
    // distance zero, the way the resolver drives the hook.
    let program = vec![Stmt::Block(rocks_lang::stmt::BlockData {
        statements: vec![
            Stmt::Var(VarData {
                name: Token::from_name("a"),
                initializer: Some(Expr::Literal(Literal::Num(3))),
            }),
            Stmt::Print(PrintData {
                expr: Expr::Variable(VariableData { name: Token::from_name("a"), slot: 0 }),
            }),
        ],
    })];

    let mut interp = Interpreter::new();
    interp.resolve(0, 0);
    interp.interpret(&program).unwrap();
    assert_eq!(interp.output.len(), 1);
    assert_eq!(as_num(&interp.output[0]), 3);
}

#[test]
fn execute_block_runs_in_the_given_frame_and_returns() {
    let mut interp = Interpreter::new();
    interp.frames.push(Environment::new(Some(0)));
    let stmts = vec![Stmt::Var(VarData {
        name: Token::from_name("local"),
        initializer: Some(Expr::Literal(Literal::Num(8))),
    })];

    let flow = interp.execute_block(&stmts, 1, FUEL);
    assert!(matches!(flow, Flow::Norm));
    assert_eq!(interp.current, 0);
    assert_eq!(as_num(&interp.frames[1].get_here(&"local".to_string()).unwrap()), 8);
    assert!(interp.frames[0].get_here(&"local".to_string()).is_none());
}

#[test]
fn numbers_render_in_decimal() {
    assert_eq!(u64_to_string(0), "0");
    assert_eq!(u64_to_string(10), "10");
    assert_eq!(u64_to_string(9007), "9007");
    assert_eq!(i64_to_string(-42), "-42");
    assert_eq!(i64_to_string(i64::MIN), "-9223372036854775808");
    assert_eq!(i64_to_string(i64::MAX), "9223372036854775807");
}

#[test]
fn values_render_like_their_sources() {
    let interp = Interpreter::new();
    assert_eq!(interp.render(&num(12)), "12");
    assert_eq!(interp.render(&Object::Literal(Literal::Null)), "null");
    assert_eq!(
        interp.render(&Object::Literal(Literal::Str("text".to_string()))),
        "text"
    );
    assert_eq!(interp.render(&Object::Literal(Literal::Bool(false))), "false");
}
