use solpact::ast::{
    ContractDefinition, ContractPart, Expr, FunctionAttribute, FunctionDefinition, Param,
    ProjectConfig, SourceUnit, SourceUnitPart, Stmt, TranspileError, TypeExpr,
    VariableAttribute, VariableDefinition,
};
use solpact::transpile::{resolve_pragma, transpile};

fn counter_contract() -> SourceUnit {
    let round = VariableDefinition {
        name: Some(String::from("round")),
        ty: TypeExpr::Ident(String::from("Counter")),
        attrs: vec![VariableAttribute::Visibility(String::from("public"))],
    };
    let increment = FunctionDefinition {
        name: Some(String::from("increment")),
        params: vec![],
        returns: vec![],
        attributes: vec![FunctionAttribute::Visibility(String::from("public"))],
        body: Some(Stmt::Block(vec![Stmt::Expression(Expr::FunctionCall(
            Box::new(Expr::MemberAccess(
                Box::new(Expr::Variable(String::from("round"))),
                String::from("increment"),
            )),
            vec![Expr::NumberLiteral(String::from("1"))],
        ))])),
    };
    SourceUnit {
        parts: vec![SourceUnitPart::ContractDefinition(ContractDefinition {
            name: Some(String::from("CounterContract")),
            parts: vec![
                ContractPart::VariableDefinition(round),
                ContractPart::FunctionDefinition(increment),
            ],
        })],
    }
}

fn strip_ws(s: &str) -> String {
    s.chars().filter(|c| !c.is_whitespace()).collect()
}

#[test]
fn counter_contract_end_to_end() {
    let comments = vec![String::from("// language_version >= 0.16 && <= 0.18")];
    let output = transpile(&counter_contract(), &comments, None).unwrap();
    let expected = "pragma language_version >= 0.16 && <= 0.18;\n\
                    \n\
                    import CompactStandardLibrary;\n\
                    \n\
                    export ledger round: Counter;\n\
                    \n\
                    export circuit increment(): [] {\n\
                    \x20   round.increment(1);\n\
                    }\n";
    assert_eq!(output, expected);
    let normalized = "\
        pragma language_version >= 0.16 && <= 0.18;\
        import CompactStandardLibrary;\
        export ledger round: Counter;\
        export circuit increment(): [] { round.increment(1); }";
    assert_eq!(strip_ws(&output), strip_ws(normalized));
}

#[test]
fn version_falls_back_to_config_default() {
    let config = ProjectConfig { default_language_version: String::from("1.0.0") };
    let output = transpile(&counter_contract(), &vec![], Some(&config)).unwrap();
    assert!(output.starts_with("pragma language_version 1.0.0;\n"));
}

#[test]
fn no_comment_and_no_config_emits_no_pragma() {
    let output = transpile(&counter_contract(), &vec![], None).unwrap();
    assert!(output.starts_with("import CompactStandardLibrary;\n"));
}

#[test]
fn unsupported_parameter_type_aborts_whole_transpilation() {
    let bad = FunctionDefinition {
        name: Some(String::from("transfer")),
        params: vec![Param {
            ty: TypeExpr::Primitive(String::from("address")),
            name: Some(String::from("to")),
        }],
        returns: vec![],
        attributes: vec![],
        body: None,
    };
    let unit = SourceUnit {
        parts: vec![SourceUnitPart::ContractDefinition(ContractDefinition {
            name: Some(String::from("Token")),
            parts: vec![ContractPart::FunctionDefinition(bad)],
        })],
    };
    assert_eq!(transpile(&unit, &vec![], None), Err(TranspileError::UnmappableType));
}

#[test]
fn unnamed_variable_aborts_whole_transpilation() {
    let unit = SourceUnit {
        parts: vec![SourceUnitPart::ContractDefinition(ContractDefinition {
            name: Some(String::from("C")),
            parts: vec![ContractPart::VariableDefinition(VariableDefinition {
                name: None,
                ty: TypeExpr::Ident(String::from("Counter")),
                attrs: vec![],
            })],
        })],
    };
    assert_eq!(transpile(&unit, &vec![], None), Err(TranspileError::MalformedInput));
}

#[test]
fn non_contract_items_and_other_parts_are_ignored() {
    let unit = SourceUnit {
        parts: vec![
            SourceUnitPart::Other,
            SourceUnitPart::ContractDefinition(ContractDefinition {
                name: Some(String::from("C")),
                parts: vec![ContractPart::Other],
            }),
        ],
    };
    assert_eq!(transpile(&unit, &vec![], None).unwrap(), "import CompactStandardLibrary;\n");
}

#[test]
fn first_matching_comment_wins() {
    let comments = vec![
        String::from("// an ordinary comment"),
        String::from("//   language_version 0.16   "),
        String::from("// language_version 0.99"),
    ];
    assert_eq!(
        resolve_pragma(&comments, None),
        Some(String::from("pragma language_version 0.16;\n"))
    );
}

#[test]
fn block_comment_marker_is_not_stripped() {
    let comments = vec![String::from("/* language_version 0.16 */")];
    assert_eq!(resolve_pragma(&comments, None), None);
}

#[test]
fn config_used_only_without_directive() {
    let config = ProjectConfig { default_language_version: String::from("2.3.4") };
    let comments = vec![String::from("/// language_version 0.16")];
    assert_eq!(
        resolve_pragma(&comments, Some(&config)),
        Some(String::from("pragma language_version 0.16;\n"))
    );
    assert_eq!(
        resolve_pragma(&vec![], Some(&config)),
        Some(String::from("pragma language_version 2.3.4;\n"))
    );
    assert_eq!(resolve_pragma(&vec![], None), None);
}
