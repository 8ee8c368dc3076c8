use flint_codegen::ast::{
    ArrayType, BinOp, DictionaryType, FixedSizedArrayType, Identifier, InoutType, LineInfo, Literal,
    Modifier, SolidityType, Type, TypeState,
};
use flint_codegen::parser::identifiers::{
    parse_enclosing_identifier, parse_identifier, parse_identifier_group, parse_identifier_list,
};
use flint_codegen::parser::literals::{
    address_literal, integer, parse_boolean_literal, parse_literal, string_literal,
};
use flint_codegen::parser::operators::{
    half_open_range, left_arrow, parse_binary_op, parse_comment, plus_equal_operator, right_arrow,
};
use flint_codegen::parser::modifiers::{parse_modifier, parse_modifiers};
use flint_codegen::parser::type_states::{parse_type_state, parse_type_states};
use flint_codegen::parser::types::{parse_identifier_type, parse_type, parse_type_annotation};
use flint_codegen::parser::utils::{multi_whitespace, whitespace, Span};

fn create_states(state_names: Vec<&str>, line_info: Vec<(u32, usize)>) -> Vec<TypeState> {
    state_names
        .into_iter()
        .zip(line_info.into_iter())
        .map(|(token, (line, offset))| TypeState {
            identifier: Identifier {
                token: token.to_string(),
                enclosing_type: None,
                line_info: LineInfo { line, offset },
            },
        })
        .collect::<Vec<TypeState>>()
}

fn ident(token: &str) -> Identifier {
    Identifier {
        token: String::from(token),
        enclosing_type: None,
        line_info: LineInfo { line: 1, offset: 0 },
    }
}

#[test]
fn test_parse_whitespace() {
    let input = Span::new("");
    let (rest, result) = whitespace(input);
    assert_eq!(rest, Span::new(""));
    assert_eq!(result, Span::new(""));

    let input = Span::new("   ");
    let (_rest, result) = whitespace(input);
    assert_eq!(result, Span::new(""));
}

#[test]
fn test_parse_identifier() {
    let input = Span::new("id");
    let (_rest, result) = parse_identifier(input).expect("Error with parsing identifier");
    assert_eq!(
        result,
        Identifier {
            token: String::from("id"),
            enclosing_type: None,
            line_info: LineInfo { line: 1, offset: 0 },
        }
    );
}

#[test]
fn test_parse_identifier_list() {
    let input = Span::new("first, second, third");
    let (_rest, result) =
        parse_identifier_list(input).expect("Error with parsing identifier list");
    assert_eq!(result, vec![ident("first"), ident("second"), ident("third")]);
}

#[test]
fn test_parse_identifier_group() {
    let input = Span::new("(first, second, third)");
    let (_rest, result) =
        parse_identifier_group(input).expect("Error with parsing identifier group");
    assert_eq!(result, vec![ident("first"), ident("second"), ident("third")]);
}

#[test]
fn test_parse_type_states() {
    let input = Span::new("(S1, S2, S3) {");
    let (remains, states) =
        parse_type_states(input).unwrap_or_else(|_| panic!("Failure parsing type states"));
    assert_eq!(remains.fragment(), " {");
    assert_eq!(
        states,
        create_states(vec!["S1", "S2", "S3"], vec![(1, 1), (1, 5), (1, 9)])
    );

    let input = Span::new("(s1, s2, s3) {");
    parse_type_states(input).expect_err("Should not allow lowercase starting states");

    let input = Span::new("(S1, S2, S1, S3)");
    parse_type_states(input).expect_err("Should not allow duplicate typestates");
}

#[test]
fn test_parse_type_state() {
    let input = Span::new("S1");
    let (remains, state) =
        parse_type_state(input).unwrap_or_else(|_| panic!("Could not parse type state"));
    assert!(remains.fragment().is_empty());
    assert_eq!(vec![state], create_states(vec!["S1"], vec![(1, 0)]));

    let input = Span::new("s1");
    parse_type_state(input).expect_err("Should not allow non upper case starting state");

    let input = Span::new("_1");
    parse_type_state(input).expect_err("Should not allow non alpha starting state");
}

#[test]
fn test_parse_int_type() {
    let input = "Int";
    let input = Span::new(input);
    let result = parse_type(input);
    match result {
        Ok((_c, b)) => assert_eq!(b, Type::Int),
        Err(_) => assert_eq!(1, 0),
    }
}

#[test]
fn test_parse_address_type() {
    let input = "Address";
    let input = Span::new(input);
    let result = parse_type(input);
    match result {
        Ok((_c, b)) => assert_eq!(b, Type::Address),
        Err(_) => assert_eq!(1, 0),
    }
}

#[test]
fn test_parse_bool_type() {
    let input = "Bool";
    let input = Span::new(input);
    let result = parse_type(input);
    match result {
        Ok((_c, b)) => assert_eq!(b, Type::Bool),
        Err(_) => assert_eq!(1, 0),
    }
}

#[test]
fn test_parse_string_type() {
    let input = "String";
    let input = Span::new(input);
    let result = parse_type(input);
    match result {
        Ok((_c, b)) => assert_eq!(b, Type::String),
        Err(_) => assert_eq!(1, 0),
    }
}

#[test]
fn whitespace_skips_comments_and_counts_lines() {
    let (rest, _) = whitespace(Span::new("  // note\n\tx"));
    assert_eq!(rest.fragment(), "x");
    assert_eq!(rest.offset, 11);
    assert_eq!(rest.line, 2);
    // a comment without a line break at its end is not whitespace
    let (rest, _) = whitespace(Span::new(" // end"));
    assert_eq!(rest.fragment(), "// end");
    // a lone carriage return is whitespace only to `multi_whitespace`
    let (rest, _) = whitespace(Span::new("\r x"));
    assert_eq!(rest.fragment(), "\r x");
    let (rest, _) = multi_whitespace(Span::new("\r x"));
    assert_eq!(rest.fragment(), "x");
}

#[test]
fn identifiers_take_underscores_digits_and_dollars() {
    let (rest, id) = parse_identifier(Span::new("_a1$b c")).unwrap();
    assert_eq!(id.token, "_a1$b");
    assert_eq!(rest.fragment(), " c");
    assert!(parse_identifier(Span::new("1abc")).is_err());
    assert!(parse_identifier(Span::new("")).is_err());
}

#[test]
fn identifier_lines_and_offsets() {
    let (_rest, ids) = parse_identifier_list(Span::new("a,\n  b")).unwrap();
    assert_eq!(ids.len(), 2);
    assert_eq!(ids[1].token, "b");
    assert_eq!(ids[1].line_info.line, 2);
    assert_eq!(ids[1].line_info.offset, 5);
}

#[test]
fn identifier_list_stops_before_a_dangling_comma() {
    let (rest, ids) = parse_identifier_list(Span::new("a, b, 3")).unwrap();
    assert_eq!(ids.len(), 2);
    assert_eq!(rest.fragment(), ", 3");
    let (rest, ids) = parse_identifier_list(Span::new("9")).unwrap();
    assert!(ids.is_empty());
    assert_eq!(rest.fragment(), "9");
}

#[test]
fn identifier_group_needs_both_parentheses() {
    assert!(parse_identifier_group(Span::new("first, second)")).is_err());
    assert!(parse_identifier_group(Span::new("(first, second")).is_err());
    let (rest, ids) = parse_identifier_group(Span::new("()")).unwrap();
    assert!(ids.is_empty());
    assert!(rest.fragment().is_empty());
}

#[test]
fn enclosing_identifier_is_qualified() {
    let (rest, id) = parse_enclosing_identifier(Span::new("Coin.minter = 3")).unwrap();
    assert_eq!(id.token, "minter");
    assert_eq!(id.enclosing_type, Some("Coin".to_string()));
    assert_eq!(rest.fragment(), " = 3");
    assert!(parse_enclosing_identifier(Span::new("Coin minter")).is_err());
}

#[test]
fn type_states_reject_duplicates_as_failure() {
    let err = parse_type_states(Span::new("(S1, S1)")).unwrap_err();
    assert!(err.failure);
    let err = parse_type_states(Span::new("S1, S2)")).unwrap_err();
    assert!(!err.failure);
    let err = parse_type_states(Span::new("(S1, s2)")).unwrap_err();
    assert!(err.failure);
}

#[test]
fn literals_of_each_kind() {
    let (_, l) = integer(Span::new("123abc")).unwrap();
    assert_eq!(l, Literal::IntLiteral(123));
    assert!(integer(Span::new("18446744073709551616")).is_err());
    let (_, l) = integer(Span::new("18446744073709551615")).unwrap();
    assert_eq!(l, Literal::IntLiteral(u64::MAX));
    let (_, l) = address_literal(Span::new("0xdeadBEEF,")).unwrap();
    assert_eq!(l, Literal::AddressLiteral("0xdeadBEEF".to_string()));
    assert!(address_literal(Span::new("0x")).is_err());
    let (rest, l) = parse_boolean_literal(Span::new("false)")).unwrap();
    assert_eq!(l, Literal::BooleanLiteral(false));
    assert_eq!(rest.fragment(), ")");
    let (rest, l) = string_literal(Span::new("\"hi there\" x")).unwrap();
    assert_eq!(l, Literal::StringLiteral("hi there".to_string()));
    assert_eq!(rest.fragment(), " x");
    assert!(string_literal(Span::new("\"open")).is_err());
    let (_, l) = parse_literal(Span::new("true")).unwrap();
    assert_eq!(l, Literal::BooleanLiteral(true));
    let (_, l) = parse_literal(Span::new("0x1f")).unwrap();
    assert_eq!(l, Literal::AddressLiteral("0x1f".to_string()));
    let (_, l) = parse_literal(Span::new("42")).unwrap();
    assert_eq!(l, Literal::IntLiteral(42));
    let (_, l) = parse_literal(Span::new("\"s\"")).unwrap();
    assert_eq!(l, Literal::StringLiteral("s".to_string()));
}

#[test]
fn compound_types() {
    let (_, t) = parse_type(Span::new("[Address: Int]")).unwrap();
    assert_eq!(
        t,
        Type::DictionaryType(DictionaryType {
            key_type: Box::new(Type::Address),
            value_type: Box::new(Type::Int),
        })
    );
    let (_, t) = parse_type(Span::new("[Bool]")).unwrap();
    assert_eq!(t, Type::ArrayType(ArrayType { key_type: Box::new(Type::Bool) }));
    let (_, t) = parse_type(Span::new("Int[4]")).unwrap();
    assert_eq!(
        t,
        Type::FixedSizedArrayType(FixedSizedArrayType { key_type: Box::new(Type::Int), size: 4 })
    );
    let (_, t) = parse_type(Span::new("inout Coin")).unwrap();
    assert_eq!(
        t,
        Type::InoutType(InoutType { key_type: Box::new(Type::UserDefinedType(ident("Coin"))) })
    );
    let (_, t) = parse_type(Span::new("Self")).unwrap();
    assert_eq!(t, Type::SelfType);
    assert!(parse_type(Span::new("[Int")).is_err());
}

#[test]
fn solidity_keywords_are_tried_in_order() {
    let (_, t) = parse_type(Span::new("uint256")).unwrap();
    assert_eq!(t, Type::Solidity(SolidityType::UINT256));
    let (rest, t) = parse_type(Span::new("int80")).unwrap();
    assert_eq!(t, Type::Solidity(SolidityType::INT8));
    assert_eq!(rest.fragment(), "0");
    let (_, t) = parse_type(Span::new("address")).unwrap();
    assert_eq!(t, Type::Solidity(SolidityType::ADDRESS));
}

#[test]
fn identifier_types_name_basic_types() {
    let (_, t) = parse_identifier_type(Span::new("Void")).unwrap();
    assert_eq!(t, Type::Address);
    let (_, t) = parse_identifier_type(Span::new("Bool")).unwrap();
    assert_eq!(t, Type::Bool);
    let (_, t) = parse_identifier_type(Span::new("Wallet")).unwrap();
    assert_eq!(t, Type::UserDefinedType(ident("Wallet")));
}

#[test]
fn binary_operators_prefer_longer_tokens() {
    let (rest, op) = parse_binary_op(Span::new("**2")).unwrap();
    assert_eq!(op, BinOp::Power);
    assert_eq!(rest.fragment(), "2");
    let (_, op) = parse_binary_op(Span::new("<= x")).unwrap();
    assert_eq!(op, BinOp::LessThanOrEqual);
    let (_, op) = parse_binary_op(Span::new("= x")).unwrap();
    assert_eq!(op, BinOp::Equal);
    let (_, op) = parse_binary_op(Span::new("|| x")).unwrap();
    assert_eq!(op, BinOp::Or);
    assert!(parse_binary_op(Span::new("% 2")).is_err());
}

#[test]
fn modifiers_before_a_function() {
    let (rest, ms) = parse_modifiers(Span::new("public visible  func f")).unwrap();
    assert_eq!(ms, vec![Modifier::Public, Modifier::Visible]);
    assert_eq!(rest.fragment(), "func f");
    let (rest, ms) = parse_modifiers(Span::new("func f")).unwrap();
    assert!(ms.is_empty());
    assert_eq!(rest.fragment(), "func f");
    assert!(parse_modifier(Span::new("private")).is_err());
}

#[test]
fn single_tokens() {
    let (rest, m) = right_arrow(Span::new("-> Int")).unwrap();
    assert_eq!(m.fragment(), "->");
    assert_eq!(rest.fragment(), " Int");
    assert!(left_arrow(Span::new("-> Int")).is_err());
    let (_, m) = half_open_range(Span::new("..<3")).unwrap();
    assert_eq!(m.fragment(), "..<");
    let (_, op) = plus_equal_operator(Span::new("+= 1")).unwrap();
    assert_eq!(op, BinOp::PlusEqual);
    let (rest, same) = parse_comment(Span::new("// note\nnext")).unwrap();
    assert_eq!(rest.fragment(), "next");
    assert_eq!(rest, same);
    assert_eq!(rest.line, 2);
    assert!(parse_comment(Span::new("// no end")).is_err());
}

#[test]
fn type_annotations() {
    let (rest, a) = parse_type_annotation(Span::new(":  Address = x")).unwrap();
    assert_eq!(a.type_assigned, Type::Address);
    assert_eq!(a.colon, ":");
    assert_eq!(rest.fragment(), " = x");
    assert!(parse_type_annotation(Span::new("Address")).is_err());
}
