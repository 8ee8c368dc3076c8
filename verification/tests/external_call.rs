use flint_codegen::ast::{
    BinOp, BinaryExpression, Expression, ExternalCall, FunctionArgument, FunctionCall, Identifier,
    LineInfo, Literal, ScopeContext, SolidityType, Type,
};
use flint_codegen::solidity::external_call::SolidityExternalCall;
use flint_codegen::solidity::function::FunctionContext;
use flint_codegen::solidity::yul::{YulBlock, YulExpression, YulLiteral};

fn named(token: &str) -> Identifier {
    Identifier { token: token.to_string(), enclosing_type: None, line_info: LineInfo { line: 1, offset: 0 } }
}

fn external_call(arguments: usize) -> SolidityExternalCall {
    let call = FunctionCall {
        identifier: named("transfer"),
        arguments: (0..arguments)
            .map(|_| FunctionArgument { identifier: None, expression: Expression::Literal(Literal::IntLiteral(5)) })
            .collect(),
        mangled_identifier: None,
    };
    SolidityExternalCall {
        call: ExternalCall {
            arguments: vec![],
            function_call: BinaryExpression {
                lhs_expression: Box::new(Expression::Identifier(named("token"))),
                rhs_expression: Box::new(Expression::FunctionCall(call)),
                op: BinOp::Dot,
                line_info: LineInfo { line: 1, offset: 0 },
            },
            external_trait_name: Some("ERC20".to_string()),
        },
    }
}

fn context(counter: u64) -> FunctionContext {
    FunctionContext {
        scope_context: ScopeContext { parameters: vec![], local_variables: vec![], counter: 0 },
        in_struct_function: false,
        block_stack: vec![YulBlock { statements: vec![] }],
        enclosing_type: "Wallet".to_string(),
        counter,
    }
}

#[test]
fn external_calls_lay_out_the_selector_and_arguments() {
    let mut ctx = context(3);
    let result = external_call(2).generate(
        "a9059cbb",
        &vec![Type::Solidity(SolidityType::ADDRESS), Type::Solidity(SolidityType::UINT256)],
        YulExpression::Identifier("_token".to_string()),
        vec![YulExpression::Identifier("_to".to_string()), YulExpression::Literal(YulLiteral::Num(5))],
        &mut ctx,
    );
    assert!(matches!(result, YulExpression::Identifier(ref n) if n == "$temp5"));
    assert_eq!(ctx.counter, 6);
    let lines: Vec<String> = ctx.block_stack[0].statements.iter().map(|s| s.to_string()).collect();
    assert_eq!(
        lines,
        vec![
            "let $temp3 := Quartz$AllocateMemory(68)",
            "mstore8($temp3, 0xa9)",
            "mstore8(add($temp3, 1), 0x05)",
            "mstore8(add($temp3, 2), 0x9c)",
            "mstore8(add($temp3, 3), 0xbb)",
            "mstore(add($temp3, 4), _to)",
            "mstore(add($temp3, 36), 5)",
            "let $temp5 := Quartz$AllocateMemory(32)",
            "let $temp4 := call(2300, _token, 0, $temp3, 68, $temp5, 32)",
            "$temp5 := mload($temp5)",
        ]
    );
}

#[test]
fn external_calls_without_arguments_send_the_selector_alone() {
    let mut ctx = context(0);
    let result = external_call(0).generate(
        "18160ddd",
        &vec![],
        YulExpression::Identifier("_token".to_string()),
        vec![],
        &mut ctx,
    );
    assert!(matches!(result, YulExpression::Identifier(ref n) if n == "$temp2"));
    assert_eq!(ctx.block_stack[0].statements.len(), 8);
    assert_eq!(ctx.block_stack[0].statements[0].to_string(), "let $temp0 := Quartz$AllocateMemory(4)");
}
