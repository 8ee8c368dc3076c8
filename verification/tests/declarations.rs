use flint_codegen::ast::{Attribute, Identifier, LineInfo, Type};
use flint_codegen::parser::declarations::{
    parse_attribute, parse_attributes, parse_caller_binding, parse_caller_protection_group,
    parse_conformances, parse_mutates, parse_protection_binding, parse_result,
    parse_variable_declaration,
};
use flint_codegen::parser::utils::Span;

fn named(token: &str, line: u32, offset: usize) -> Identifier {
    Identifier { token: token.to_string(), enclosing_type: None, line_info: LineInfo { line, offset } }
}

#[test]
fn caller_binding_needs_an_arrow() {
    let (rest, id) = parse_caller_binding(Span::new("caller <- rest")).expect("binding");
    assert_eq!(id, named("caller", 1, 0));
    assert_eq!(rest.fragment(), " rest");
    assert_eq!(rest.offset, 9);
    assert!(parse_caller_binding(Span::new("caller -> x")).is_err());
    assert!(parse_caller_binding(Span::new("<- x")).is_err());
}

#[test]
fn protection_binding_takes_no_space() {
    let (rest, id) = parse_protection_binding(Span::new("owner<-x")).expect("binding");
    assert_eq!(id, named("owner", 1, 0));
    assert_eq!(rest.fragment(), "x");
    assert!(parse_protection_binding(Span::new("owner <-x")).is_err());
}

#[test]
fn caller_protection_group_wraps_identifiers() {
    let (rest, protections) = parse_caller_protection_group(Span::new("(owner, any) ::")).expect("group");
    assert_eq!(protections.len(), 2);
    assert_eq!(protections[0].identifier, named("owner", 1, 1));
    assert_eq!(protections[1].identifier, named("any", 1, 8));
    assert_eq!(rest.fragment(), " ::");
    assert!(parse_caller_protection_group(Span::new("owner")).is_err());
}

#[test]
fn conformances_follow_a_colon() {
    let (rest, conformances) = parse_conformances(Span::new(": Asset, Ownable {")).expect("conformances");
    assert_eq!(conformances.len(), 2);
    assert_eq!(conformances[0].identifier, named("Asset", 1, 2));
    assert_eq!(conformances[1].identifier, named("Ownable", 1, 9));
    assert_eq!(rest.fragment(), " {");
    let (rest, conformances) = parse_conformances(Span::new("{")).expect("none");
    assert!(conformances.is_empty());
    assert_eq!(rest.fragment(), "{");
}

#[test]
fn attributes_are_at_names() {
    let (rest, attribute) = parse_attribute(Span::new("@payable func")).expect("attribute");
    assert_eq!(attribute, Attribute { at_token: "@".to_string(), identifier_token: "payable".to_string() });
    assert_eq!(rest.fragment(), " func");
    assert!(parse_attribute(Span::new("payable")).is_err());
    let (rest, attributes) = parse_attributes(Span::new("@payable  @other\nfunc")).expect("attributes");
    assert_eq!(attributes.len(), 2);
    assert_eq!(attributes[1].identifier_token, "other");
    assert_eq!(rest.fragment(), "func");
    let (_, none) = parse_attributes(Span::new("func")).expect("no attributes");
    assert!(none.is_empty());
}

#[test]
fn result_types_follow_an_arrow() {
    let (rest, result) = parse_result(Span::new("-> Int {")).expect("result");
    assert_eq!(result, Some(Type::Int));
    assert_eq!(rest.fragment(), " {");
    let (_, result) = parse_result(Span::new("->Wallet")).expect("result");
    assert_eq!(result, Some(Type::UserDefinedType(named("Wallet", 1, 2))));
    let (rest, result) = parse_result(Span::new("{")).expect("no result");
    assert_eq!(result, None);
    assert_eq!(rest.fragment(), "{");
    assert!(parse_result(Span::new("-> [Int]")).is_err());
}

#[test]
fn mutates_lists_names() {
    let (rest, names) = parse_mutates(Span::new("mutates (balance, Bank.owner ) {")).expect("mutates");
    assert_eq!(names.len(), 2);
    assert_eq!(names[0], named("balance", 1, 9));
    assert_eq!(names[1].token, "owner");
    assert_eq!(names[1].enclosing_type, Some("Bank".to_string()));
    assert_eq!(names[1].line_info, LineInfo { line: 1, offset: 18 });
    assert_eq!(rest.fragment(), " {");
    let (rest, names) = parse_mutates(Span::new("{")).expect("nothing mutated");
    assert!(names.is_empty());
    assert_eq!(rest.fragment(), "{");
    assert!(parse_mutates(Span::new("mutates ()")).is_err());
    assert!(parse_mutates(Span::new("mutates (a, b")).is_err());
    assert!(parse_mutates(Span::new("mutates a")).is_err());
}

#[test]
fn variable_declarations_have_a_type() {
    let (rest, declaration) = parse_variable_declaration(Span::new("public var count: Int\nnext")).expect("declaration");
    assert_eq!(declaration.declaration_token, Some("var".to_string()));
    assert_eq!(declaration.identifier, named("count", 1, 11));
    assert_eq!(declaration.variable_type, Type::Int);
    assert!(declaration.expression.is_none());
    assert_eq!(rest.fragment(), "next");
    assert_eq!(rest.line, 2);
    let (_, declaration) = parse_variable_declaration(Span::new("let owner: Address")).expect("let");
    assert_eq!(declaration.declaration_token, Some("let".to_string()));
    assert_eq!(declaration.variable_type, Type::Address);
    assert!(parse_variable_declaration(Span::new("var count Int")).is_err());
    assert!(parse_variable_declaration(Span::new("const count: Int")).is_err());
}

#[test]
fn test_parse_caller_binding() {
    let input = Span::new("caller <-");
    let result = parse_caller_binding(input);
    match result {
        Ok((_c, b)) => assert_eq!(b, named("caller", 0, 0)),
        Err(_) => assert_eq!(1, 0),
    }
}
