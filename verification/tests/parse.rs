use rocks_lang::expr::Expr;
use rocks_lang::literal::Literal;
use rocks_lang::parser::Parser;
use rocks_lang::scanner::Scanner;
use rocks_lang::stmt::Stmt;
use rocks_lang::rocks;

fn parse(source: &str) -> (Vec<Stmt>, Vec<String>) {
    let mut scanner = Scanner::new(source.chars().collect());
    let tokens = scanner.scan_tokens();
    assert!(scanner.errors.is_empty());
    let mut parser = Parser::new(tokens);
    let stmts = parser.parse();
    let errors = parser.errors.iter().map(|e| e.message.clone()).collect();
    (stmts, errors)
}

fn run_source(source: &str) -> Vec<String> {
    let (stmts, errors) = parse(source);
    assert!(errors.is_empty(), "parse errors: {:?}", errors);
    let mut front = rocks::new();
    front.run(&stmts).unwrap();
    let mut out = Vec::new();
    for v in front.interpreter.output.iter() {
        out.push(front.interpreter.render(v));
    }
    out
}

#[test]
fn parses_a_print_statement() {
    let (stmts, errors) = parse("print 1 + 2 * 3;");
    assert!(errors.is_empty());
    assert_eq!(stmts.len(), 1);
    assert!(matches!(stmts[0], Stmt::Print(_)));
}

#[test]
fn parses_precedence_correctly() {
    assert_eq!(run_source("print 1 + 2 * 3;"), vec!["7"]);
    assert_eq!(run_source("print (1 + 2) * 3;"), vec!["9"]);
    assert_eq!(run_source("print 2 - 3 - 4;"), vec!["-5"]);
}

#[test]
fn parses_literals() {
    let (stmts, _) = parse("true;");
    match &stmts[0] {
        Stmt::Expression(d) => assert!(matches!(d.expr, Expr::Literal(Literal::Bool(true)))),
        other => panic!("unexpected statement {:?}", other),
    }
}

#[test]
fn missing_semicolon_is_reported_and_skipped() {
    let (stmts, errors) = parse("print 1");
    assert_eq!(errors, vec!["Expect ';' after value"]);
    assert!(stmts.is_empty());
}

#[test]
fn recovers_at_statement_boundaries() {
    let (stmts, errors) = parse("var = 1; print 2;");
    assert_eq!(errors, vec!["Expect variable name"]);
    assert_eq!(stmts.len(), 1);
}

#[test]
fn whole_pipeline_runs_classes_and_closures() {
    let source = "
        class Counter {
            init(start) { this.n = start; }
            bump() { this.n = this.n + 1; return this.n; }
        }
        var c = Counter(10);
        c.bump();
        print c.bump();
        fun make() {
            var x = 0;
            fun inc() { x = x + 1; return x; }
            return inc;
        }
        var f = make();
        f();
        print f();
        for (var i = 0; i < 3; i = i + 1) { print i; }
    ";
    assert_eq!(run_source(source), vec!["12", "2", "0", "1", "2"]);
}

#[test]
fn super_calls_through_parsed_source() {
    let source = "
        class A { m() { return \"A\"; } }
        class B < A { m() { return \"B and \" + super.m(); } }
        print B().m();
    ";
    assert_eq!(run_source(source), vec!["B and A"]);
}
