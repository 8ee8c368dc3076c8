use flint_codegen::ast::{
    BinOp, BinaryExpression, CastExpression, Expression, FunctionArgument, FunctionCall, Identifier,
    LineInfo, Literal, Type, VariableDeclaration,
};
use flint_codegen::equality::{expressions_equal, identifiers_equal, types_equal};
use flint_codegen::moveir::preprocessor::utils::cmp_expressions;

fn at(token: &str, line: u32, offset: usize) -> Identifier {
    Identifier { token: token.to_string(), enclosing_type: None, line_info: LineInfo { line, offset } }
}

fn var(token: &str, line: u32) -> Expression {
    Expression::Identifier(at(token, line, 0))
}

fn number(value: u64) -> Expression {
    Expression::Literal(Literal::IntLiteral(value))
}

fn binary(lhs: Expression, op: BinOp, rhs: Expression, line: u32) -> Expression {
    Expression::BinaryExpression(BinaryExpression {
        lhs_expression: Box::new(lhs),
        rhs_expression: Box::new(rhs),
        op,
        line_info: LineInfo { line, offset: 4 },
    })
}

fn declaration(token: &str, value: Option<Expression>) -> Expression {
    Expression::VariableDeclaration(VariableDeclaration {
        declaration_token: Some("let".to_string()),
        identifier: at(token, 1, 1),
        variable_type: Type::Int,
        expression: value.map(Box::new),
    })
}

fn call(name: &str, argument: Expression, line: u32) -> Expression {
    Expression::FunctionCall(FunctionCall {
        identifier: at(name, line, 2),
        arguments: vec![FunctionArgument { identifier: None, expression: argument }],
        mangled_identifier: None,
    })
}

#[test]
fn identifiers_compare_without_their_positions() {
    assert!(cmp_expressions(&var("x", 1), &var("x", 7)));
    assert!(!cmp_expressions(&var("x", 1), &var("y", 1)));
    let mut enclosed = at("x", 1, 0);
    enclosed.enclosing_type = Some("Bank".to_string());
    assert!(!cmp_expressions(&var("x", 1), &Expression::Identifier(enclosed)));
}

#[test]
fn binary_expressions_compare_operands_and_operator() {
    let a = binary(var("a", 1), BinOp::Plus, number(2), 1);
    let b = binary(var("a", 5), BinOp::Plus, number(2), 9);
    let c = binary(var("a", 1), BinOp::Minus, number(2), 1);
    let d = binary(var("a", 1), BinOp::Plus, number(3), 1);
    assert!(cmp_expressions(&a, &b));
    assert!(!cmp_expressions(&a, &c));
    assert!(!cmp_expressions(&a, &d));
}

#[test]
fn different_kinds_of_expression_do_not_match() {
    assert!(!cmp_expressions(&var("a", 1), &Expression::SelfExpression));
    assert!(!cmp_expressions(&Expression::SelfExpression, &var("a", 1)));
    assert!(cmp_expressions(&Expression::SelfExpression, &Expression::SelfExpression));
    assert!(!cmp_expressions(&number(1), &var("a", 1)));
}

#[test]
fn declarations_match_only_with_initial_values() {
    assert!(cmp_expressions(&declaration("x", Some(number(1))), &declaration("x", Some(number(1)))));
    assert!(!cmp_expressions(&declaration("x", Some(number(1))), &declaration("x", Some(number(2)))));
    assert!(!cmp_expressions(&declaration("x", None), &declaration("x", None)));
    assert!(!cmp_expressions(&declaration("x", Some(number(1))), &declaration("x", None)));
}

#[test]
fn array_literals_match_when_each_element_is_found() {
    let first = Expression::ArrayLiteral(vec![var("a", 1), var("b", 1)]);
    let wider = Expression::ArrayLiteral(vec![var("b", 2), var("c", 2), var("a", 2)]);
    let narrower = Expression::ArrayLiteral(vec![var("a", 3)]);
    assert!(cmp_expressions(&first, &wider));
    assert!(!cmp_expressions(&first, &narrower));
    assert!(cmp_expressions(&narrower, &first));
    assert!(cmp_expressions(&Expression::ArrayLiteral(vec![]), &narrower));
    assert!(!cmp_expressions(&first, &Expression::Sequence(vec![var("a", 1), var("b", 1)])));
}

#[test]
fn dictionary_literals_match_pair_by_pair() {
    let first = Expression::DictionaryLiteral(vec![(var("k", 1), number(1))]);
    let same = Expression::DictionaryLiteral(vec![(var("j", 2), number(1)), (var("k", 2), number(1))]);
    let other = Expression::DictionaryLiteral(vec![(var("k", 2), number(2)), (var("j", 2), number(1))]);
    assert!(cmp_expressions(&first, &same));
    assert!(!cmp_expressions(&first, &other));
}

#[test]
fn calls_and_literals_match_when_equal() {
    assert!(cmp_expressions(&call("f", number(1), 1), &call("f", number(1), 8)));
    assert!(!cmp_expressions(&call("f", number(1), 1), &call("f", number(2), 1)));
    assert!(!cmp_expressions(&call("f", number(1), 1), &call("g", number(1), 1)));
    assert!(cmp_expressions(&number(4), &number(4)));
    assert!(!cmp_expressions(&number(4), &Expression::Literal(Literal::U8Literal(4))));
}

#[test]
fn casts_compare_their_target_types() {
    let cast = |t: Type| {
        Expression::CastExpression(CastExpression { expression: Box::new(var("a", 1)), cast_type: t })
    };
    assert!(cmp_expressions(&cast(Type::Int), &cast(Type::Int)));
    assert!(!cmp_expressions(&cast(Type::Int), &cast(Type::Bool)));
}

#[test]
fn equality_leaves_positions_out() {
    assert!(identifiers_equal(&at("x", 1, 2), &at("x", 9, 9)));
    assert!(!identifiers_equal(&at("x", 1, 2), &at("y", 1, 2)));
    assert!(types_equal(&Type::UserDefinedType(at("Coin", 1, 1)), &Type::UserDefinedType(at("Coin", 4, 4))));
    assert!(!types_equal(&Type::Int, &Type::Address));
    let a = binary(call("f", var("x", 1), 1), BinOp::Dot, var("y", 1), 1);
    let b = binary(call("f", var("x", 6), 6), BinOp::Dot, var("y", 6), 6);
    assert!(expressions_equal(&a, &b));
    assert_eq!(expressions_equal(&a, &b), a == b);
    let c = binary(call("f", var("z", 6), 6), BinOp::Dot, var("y", 6), 6);
    assert!(!expressions_equal(&a, &c));
    assert_eq!(expressions_equal(&a, &c), a == c);
    assert!(expressions_equal(&declaration("x", None), &declaration("x", None)));
}
