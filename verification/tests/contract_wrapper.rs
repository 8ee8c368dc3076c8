use flint_codegen::ast::{
    BinOp, BinaryExpression, CallerProtection, ContractBehaviourDeclaration, Expression,
    FunctionDeclaration, FunctionSignatureDeclaration, Identifier, InoutType, LineInfo, Parameter,
    ReturnStatement, Statement, Type, TypeState,
};
use flint_codegen::moveir::preprocessor::utils::{generate_contract_wrapper, ProtectionTarget};

fn named(token: &str) -> Identifier {
    Identifier { token: token.to_string(), enclosing_type: None, line_info: LineInfo { line: 4, offset: 2 } }
}

fn parameter(token: &str, t: Type) -> Parameter {
    Parameter { identifier: named(token), type_assignment: t, expression: None, line_info: LineInfo { line: 4, offset: 2 } }
}

fn bank() -> Type {
    Type::InoutType(InoutType { key_type: Box::new(Type::UserDefinedType(named("Bank"))) })
}

fn function(result_type: Option<Type>, body: Vec<Statement>) -> FunctionDeclaration {
    FunctionDeclaration {
        head: FunctionSignatureDeclaration {
            func_token: "func".to_string(),
            attributes: vec![],
            modifiers: vec![],
            mutates: vec![],
            identifier: named("deposit"),
            parameters: vec![parameter("self", bank()), parameter("amount", Type::Int)],
            result_type,
            payable: false,
        },
        body,
        scope_context: None,
        tags: vec![],
        mangled_identifier: Some("Bank$deposit".to_string()),
        is_external: false,
    }
}

fn behaviour(type_states: Vec<&str>, protections: Vec<&str>) -> ContractBehaviourDeclaration {
    ContractBehaviourDeclaration {
        identifier: named("Bank"),
        type_states: type_states.into_iter().map(|s| TypeState { identifier: named(s) }).collect(),
        caller_binding: None,
        caller_protections: protections.into_iter().map(|p| CallerProtection { identifier: named(p) }).collect(),
    }
}

fn is_call_of_deposit(e: &Expression) -> bool {
    match e {
        Expression::FunctionCall(call) => {
            call.identifier.token == "Bank$deposit"
                && call.arguments.len() == 2
                && call.arguments[0].expression == Expression::Identifier(named("self"))
                && call.arguments[1].expression == Expression::Identifier(named("amount"))
        }
        _ => false,
    }
}

#[test]
fn wrappers_take_the_contract_address_and_call_the_function() {
    let wrapper = generate_contract_wrapper(
        function(None, vec![Statement::Expression(Expression::SelfExpression)]),
        &behaviour(vec![], vec!["any"]),
        "Bank$deposit$wrapper".to_string(),
        &vec![],
        vec![],
        &vec![],
        vec![],
        "_contract_state",
        None,
    );
    assert_eq!(wrapper.mangled_identifier, Some("Bank$deposit$wrapper".to_string()));
    assert_eq!(wrapper.tags, vec!["acquires T".to_string()]);
    assert_eq!(wrapper.head.parameters[0].identifier.token, "address_this");
    assert_eq!(wrapper.head.parameters[0].type_assignment, Type::Address);
    assert_eq!(wrapper.head.parameters[1].identifier.token, "amount");
    assert_eq!(wrapper.body.len(), 4);
    match &wrapper.body[0] {
        Statement::Expression(Expression::VariableDeclaration(v)) => {
            assert_eq!(v.identifier.token, "self");
            assert_eq!(v.variable_type, bank());
        }
        _ => panic!("expected the declaration of self"),
    }
    match &wrapper.body[1] {
        Statement::Expression(Expression::BinaryExpression(b)) => {
            assert_eq!(*b.lhs_expression, Expression::SelfExpression);
            assert_eq!(
                *b.rhs_expression,
                Expression::RawAssembly("borrow_global_mut<T>(copy(address_this))".to_string(), Some(bank()))
            );
        }
        _ => panic!("expected the binding of self"),
    }
    match &wrapper.body[2] {
        Statement::Expression(e) => assert!(is_call_of_deposit(e)),
        _ => panic!("expected the call"),
    }
    assert_eq!(
        wrapper.body[3],
        Statement::ReturnStatement(ReturnStatement { expression: None, cleanup: vec![], line_info: LineInfo { line: 0, offset: 0 } })
    );
}

#[test]
fn wrappers_check_callers_and_states() {
    let condition = BinaryExpression {
        lhs_expression: Box::new(Expression::Identifier(named("contract_state"))),
        rhs_expression: Box::new(Expression::SelfExpression),
        op: BinOp::DoubleEqual,
        line_info: LineInfo { line: 0, offset: 0 },
    };
    let first = Statement::Expression(Expression::Identifier(named("first")));
    let wrapper = generate_contract_wrapper(
        function(Some(Type::Int), vec![first, Statement::Expression(Expression::SelfExpression)]),
        &behaviour(vec!["Open"], vec!["owner"]),
        "Bank$deposit$wrapper".to_string(),
        &vec![CallerProtection { identifier: named("owner") }],
        vec![ProtectionTarget::Address],
        &vec![],
        vec![],
        "_contract_state",
        Some(condition),
    );
    assert_eq!(wrapper.body.len(), 8);
    assert_eq!(wrapper.body[0], Statement::Expression(Expression::Identifier(named("first"))));
    match &wrapper.body[2] {
        Statement::Expression(Expression::VariableDeclaration(v)) => {
            assert_eq!(v.identifier.token, "_contract_state");
            assert_eq!(v.variable_type, Type::TypeState);
        }
        _ => panic!("expected the declaration of the state"),
    }
    assert!(matches!(&wrapper.body[4], Statement::Assertion(_)));
    match &wrapper.body[5] {
        Statement::Expression(Expression::BinaryExpression(b)) => {
            assert_eq!(*b.lhs_expression, Expression::Identifier(named("contract_state")));
        }
        _ => panic!("expected the reading of the state"),
    }
    assert!(matches!(&wrapper.body[6], Statement::Assertion(_)));
    match &wrapper.body[7] {
        Statement::ReturnStatement(r) => assert!(is_call_of_deposit(r.expression.as_ref().unwrap())),
        _ => panic!("expected the return"),
    }
}
