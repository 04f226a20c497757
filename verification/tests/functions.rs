use solpact::ast::{
    Expr, FunctionAttribute, FunctionDefinition, Param, Stmt, TranspileError, TypeExpr,
};
use solpact::transpile::transpile_function;

fn named(name: &str) -> Option<String> {
    Some(String::from(name))
}

fn plain_function(name: &str) -> FunctionDefinition {
    FunctionDefinition {
        name: named(name),
        params: vec![],
        returns: vec![],
        attributes: vec![],
        body: None,
    }
}

#[test]
fn public_function_without_params_or_returns() {
    let mut f = plain_function("increment");
    f.attributes = vec![FunctionAttribute::Visibility(String::from("public"))];
    let fragments = transpile_function(&f).unwrap();
    assert_eq!(fragments[0], "export circuit increment(): [] {");
    assert_eq!(fragments[1], "");
    assert_eq!(fragments[2], "}\n");
    assert_eq!(fragments.len(), 3);
}

#[test]
fn two_uint_returns_render_bracketed_pair() {
    let mut f = plain_function("current");
    f.returns = vec![
        Param { ty: TypeExpr::Primitive(String::from("uint")), name: named("a") },
        Param { ty: TypeExpr::Primitive(String::from("uint")), name: named("b") },
    ];
    let fragments = transpile_function(&f).unwrap();
    assert_eq!(fragments[0], "circuit current(): [Uint<256>, Uint<256>] {");
}

#[test]
fn single_return_renders_bare_type() {
    let mut f = plain_function("get");
    f.returns = vec![Param { ty: TypeExpr::Primitive(String::from("bool")), name: named("r") }];
    let fragments = transpile_function(&f).unwrap();
    assert_eq!(fragments[0], "circuit get(): Boolean {");
}

#[test]
fn parameters_render_name_and_mapped_type() {
    let mut f = plain_function("set");
    f.params = vec![
        Param { ty: TypeExpr::Primitive(String::from("uint8")), name: named("x") },
        Param { ty: TypeExpr::Primitive(String::from("bytes4")), name: named("y") },
    ];
    let fragments = transpile_function(&f).unwrap();
    assert_eq!(fragments[0], "circuit set(x: Uint<8>, y: Bytes<4>): [] {");
}

#[test]
fn body_renders_through_printer() {
    let mut f = plain_function("increment");
    f.attributes = vec![FunctionAttribute::Visibility(String::from("public"))];
    f.body = Some(Stmt::Block(vec![Stmt::Expression(Expr::FunctionCall(
        Box::new(Expr::MemberAccess(
            Box::new(Expr::Variable(String::from("round"))),
            String::from("increment"),
        )),
        vec![Expr::NumberLiteral(String::from("1"))],
    ))]));
    let fragments = transpile_function(&f).unwrap();
    assert_eq!(fragments[1], "    round.increment(1);");
}

#[test]
fn unnamed_function_is_malformed_input() {
    let mut f = plain_function("x");
    f.name = None;
    assert_eq!(transpile_function(&f), Err(TranspileError::MalformedInput));
}

#[test]
fn unsupported_parameter_type_is_unmappable() {
    let mut f = plain_function("transfer");
    f.params = vec![Param { ty: TypeExpr::Primitive(String::from("address")), name: named("to") }];
    assert_eq!(transpile_function(&f), Err(TranspileError::UnmappableType));
}

#[test]
fn unnamed_parameter_is_malformed_input() {
    let mut f = plain_function("set");
    f.params = vec![Param { ty: TypeExpr::Primitive(String::from("uint")), name: None }];
    assert_eq!(transpile_function(&f), Err(TranspileError::MalformedInput));
}

#[test]
fn non_primitive_parameter_type_is_unsupported() {
    let mut f = plain_function("set");
    f.params = vec![Param { ty: TypeExpr::Ident(String::from("Counter")), name: named("c") }];
    assert_eq!(transpile_function(&f), Err(TranspileError::UnsupportedConstruct));
}

#[test]
fn unnamed_return_binding_is_unsupported() {
    let mut f = plain_function("get");
    f.returns = vec![Param { ty: TypeExpr::Primitive(String::from("uint")), name: None }];
    assert_eq!(transpile_function(&f), Err(TranspileError::UnsupportedConstruct));
}

#[test]
fn unmappable_return_type_is_unmappable() {
    let mut f = plain_function("owner");
    f.returns = vec![Param { ty: TypeExpr::Primitive(String::from("address")), name: named("o") }];
    assert_eq!(transpile_function(&f), Err(TranspileError::UnmappableType));
}
