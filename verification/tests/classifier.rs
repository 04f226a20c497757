use solpact::ast::{TranspileError, TypeExpr, VariableAttribute, VariableDefinition};
use solpact::transpile::classify_variable;

fn counter_var(attrs: Vec<VariableAttribute>) -> VariableDefinition {
    VariableDefinition {
        name: Some(String::from("round")),
        ty: TypeExpr::Ident(String::from("Counter")),
        attrs,
    }
}

#[test]
fn public_top_level_variable_is_exported_ledger() {
    let v = counter_var(vec![VariableAttribute::Visibility(String::from("public"))]);
    assert_eq!(
        classify_variable(&v, true),
        Ok(String::from("export ledger round: Counter;\n"))
    );
}

#[test]
fn private_top_level_variable_is_plain_ledger() {
    let v = counter_var(vec![]);
    assert_eq!(classify_variable(&v, true), Ok(String::from("ledger round: Counter;\n")));
}

#[test]
fn other_visibility_is_not_exported() {
    let v = counter_var(vec![VariableAttribute::Visibility(String::from("internal"))]);
    assert_eq!(classify_variable(&v, true), Ok(String::from("ledger round: Counter;\n")));
}

#[test]
fn nested_variable_is_let_binding_regardless_of_visibility() {
    let v = counter_var(vec![VariableAttribute::Visibility(String::from("public"))]);
    assert_eq!(classify_variable(&v, false), Ok(String::from("let round: Counter;\n")));
}

#[test]
fn unnamed_variable_is_malformed_input() {
    let v = VariableDefinition {
        name: None,
        ty: TypeExpr::Ident(String::from("Counter")),
        attrs: vec![],
    };
    assert_eq!(classify_variable(&v, true), Err(TranspileError::MalformedInput));
}

#[test]
fn composite_type_is_unsupported_construct() {
    let v = VariableDefinition {
        name: Some(String::from("round")),
        ty: TypeExpr::Other,
        attrs: vec![],
    };
    assert_eq!(classify_variable(&v, true), Err(TranspileError::UnsupportedConstruct));
}

#[test]
fn primitive_spelling_is_not_an_identifier_reference() {
    let v = VariableDefinition {
        name: Some(String::from("count")),
        ty: TypeExpr::Primitive(String::from("uint")),
        attrs: vec![],
    };
    assert_eq!(classify_variable(&v, true), Err(TranspileError::UnsupportedConstruct));
}
