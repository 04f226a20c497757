use solang_parser::parse;

#[test]
fn test_parse() {
    let source = r#"
            contract Test {
                function foo(uint x) public returns (uint) {
                    return x + 1;
                }
            }
        "#;
    let result = parse(source, 0);
    assert!(result.is_ok());
}
