use flint_codegen::ast::{
    FunctionDeclaration, FunctionSignatureDeclaration, Identifier, InoutType, LineInfo, Modifier,
    Parameter, ScopeContext, Type,
};
use flint_codegen::moveir::function::MoveFunction;
use flint_codegen::moveir::ir::{MoveIRExpression, MoveIRStatement, MoveIRTransfer, MoveIRType};

fn named(token: &str) -> Identifier {
    Identifier { token: token.to_string(), enclosing_type: None, line_info: LineInfo { line: 1, offset: 0 } }
}

fn parameter(token: &str, t: Type) -> Parameter {
    Parameter { identifier: named(token), type_assignment: t, expression: None, line_info: LineInfo { line: 1, offset: 0 } }
}

fn declaration(modifiers: Vec<Modifier>, mangled: Option<&str>, scope: Vec<Parameter>) -> FunctionDeclaration {
    FunctionDeclaration {
        head: FunctionSignatureDeclaration {
            func_token: "func".to_string(),
            attributes: vec![],
            modifiers,
            mutates: vec![],
            identifier: named("deposit"),
            parameters: vec![parameter("amount", Type::Int)],
            result_type: Some(Type::Int),
            payable: false,
        },
        body: vec![],
        scope_context: Some(ScopeContext { parameters: scope, local_variables: vec![], counter: 0 }),
        tags: vec!["acquires T".to_string()],
        mangled_identifier: mangled.map(|m| m.to_string()),
        is_external: false,
    }
}

fn copy_of(name: &str) -> MoveIRExpression {
    MoveIRExpression::Transfer(MoveIRTransfer::Copy(Box::new(MoveIRExpression::Identifier(name.to_string()))))
}

#[test]
fn functions_render_with_their_last_use_moved() {
    let wallet = Type::InoutType(InoutType { key_type: Box::new(Type::UserDefinedType(named("Wallet"))) });
    let function = MoveFunction {
        function_declaration: declaration(vec![Modifier::Public], None, vec![parameter("w", wallet)]),
        is_contract_function: true,
        enclosing_type: named("Bank"),
    };
    let text = function.generate(
        true,
        &vec![(MoveIRExpression::Identifier("_amount".to_string()), MoveIRType::U64)],
        Some(MoveIRType::U64),
        vec![MoveIRStatement::Inline("x = 1".to_string()), MoveIRStatement::Expression(copy_of("_w"))],
    );
    assert_eq!(text, " public deposit (_amount: u64): u64 acquires T { \n x = 1;\nmove(_w); \n }");
}

#[test]
fn functions_without_results_use_their_mangled_name() {
    let function = MoveFunction {
        function_declaration: declaration(vec![Modifier::Visible, Modifier::Public], Some("Bank$deposit"), vec![]),
        is_contract_function: false,
        enclosing_type: named("Bank"),
    };
    let text = function.generate(
        false,
        &vec![
            (MoveIRExpression::Identifier("_amount".to_string()), MoveIRType::U64),
            (MoveIRExpression::Identifier("_to".to_string()), MoveIRType::Address),
        ],
        Some(MoveIRType::U64),
        vec![MoveIRStatement::Expression(copy_of("_w"))],
    );
    assert_eq!(text, " public Bank$deposit (_amount: u64, _to: address) acquires T { \n copy(_w); \n }");
}
