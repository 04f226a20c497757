use solpact::ast::{Expr, Stmt};
use solpact::format::Formatter;
use solpact::printer::{visit_expression, visit_statement};

fn increment_call() -> Expr {
    Expr::FunctionCall(
        Box::new(Expr::MemberAccess(
            Box::new(Expr::Variable(String::from("round"))),
            String::from("increment"),
        )),
        vec![Expr::NumberLiteral(String::from("1"))],
    )
}

#[test]
fn renders_identifier() {
    let mut f = Formatter::new();
    assert_eq!(visit_expression(&Expr::Variable(String::from("x")), &mut f), "x");
}

#[test]
fn renders_member_access_call_with_argument() {
    let mut f = Formatter::new();
    assert_eq!(visit_expression(&increment_call(), &mut f), "round.increment(1)");
}

#[test]
fn renders_zero_argument_call() {
    let e = Expr::FunctionCall(Box::new(Expr::Variable(String::from("f"))), vec![]);
    let mut f = Formatter::new();
    assert_eq!(visit_expression(&e, &mut f), "f()");
}

#[test]
fn renders_multiple_arguments_comma_joined() {
    let e = Expr::FunctionCall(
        Box::new(Expr::Variable(String::from("g"))),
        vec![
            Expr::Variable(String::from("a")),
            Expr::NumberLiteral(String::from("2")),
            Expr::Variable(String::from("b")),
        ],
    );
    let mut f = Formatter::new();
    assert_eq!(visit_expression(&e, &mut f), "g(a, 2, b)");
}

#[test]
fn unsupported_expression_renders_empty() {
    let mut f = Formatter::new();
    assert_eq!(visit_expression(&Expr::Other, &mut f), "");
}

#[test]
fn block_renders_indented_statement() {
    let block = Stmt::Block(vec![Stmt::Expression(increment_call())]);
    let mut f = Formatter::new();
    assert_eq!(visit_statement(&block, &mut f), "    round.increment(1);");
}

#[test]
fn empty_block_renders_empty() {
    let block = Stmt::Block(vec![]);
    let mut f = Formatter::new();
    assert_eq!(visit_statement(&block, &mut f), "");
}

#[test]
fn unsupported_statement_renders_empty() {
    let mut f = Formatter::new();
    assert_eq!(visit_statement(&Stmt::Other, &mut f), "");
}

#[test]
fn printing_twice_from_fresh_state_is_identical() {
    let block = Stmt::Block(vec![
        Stmt::Expression(increment_call()),
        Stmt::Expression(Expr::Variable(String::from("x"))),
    ]);
    let mut f1 = Formatter::new();
    let first = visit_statement(&block, &mut f1);
    let mut f2 = Formatter::new();
    let second = visit_statement(&block, &mut f2);
    assert_eq!(first, second);
}

#[test]
fn formatter_line_indents_four_spaces_per_level() {
    let mut f = Formatter::new();
    f.line("a");
    f.indent();
    f.line("b");
    f.dedent();
    f.line("c");
    assert_eq!(f.print(), "a\n    b\nc\n");
}

#[test]
fn formatter_dedent_stops_at_zero() {
    let mut f = Formatter::new();
    f.dedent();
    f.line("x");
    assert_eq!(f.print(), "x\n");
}
