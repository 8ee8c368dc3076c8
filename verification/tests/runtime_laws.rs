use flint_codegen::ast::Literal;
use flint_codegen::moveir::ir::MoveIRExpression;
use flint_codegen::moveir::runtime_function::MoveRuntimeFunction;
use flint_codegen::solidity::literal::SolidityLiteral;
use flint_codegen::solidity::runtime_function::SolidityRuntimeFunction;
use flint_codegen::solidity::yul::{YulExpression, YulLiteral};

#[test]
fn checked_addition_calls_a_defined_helper() {
    let call = SolidityRuntimeFunction::add(
        YulExpression::Identifier("x".to_string()),
        YulExpression::Literal(YulLiteral::Num(1)),
    );
    assert_eq!(call.to_string(), "Quartz$Add(x, 1)");
    let definitions = SolidityRuntimeFunction::get_all_functions();
    assert!(definitions.iter().any(|d| d.starts_with("function Quartz$Add(a, b) -> ret")
        && d.contains("if lt(c, a) { revert(0, 0) }")));
}

#[test]
fn power_calls_a_defined_helper() {
    let call = MoveRuntimeFunction::power(
        MoveIRExpression::Identifier("b".to_string()),
        MoveIRExpression::Identifier("e".to_string()),
    );
    assert_eq!(call.to_string(), "Self._Power(b, e)");
    let definitions = MoveRuntimeFunction::get_all_functions();
    assert!(definitions.iter().any(|d| d.starts_with("_Power(b: u64, e: u64): u64")));
}

#[test]
fn u8_literals_become_numbers() {
    assert!(matches!(SolidityLiteral { literal: Literal::U8Literal(7) }.generate(), YulLiteral::Num(7)));
}
