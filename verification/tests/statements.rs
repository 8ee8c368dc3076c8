use flint_codegen::ast::{
    ArrayType, Conformance, DictionaryType, Expression, Identifier, IfStatement, InoutType, LineInfo,
    Parameter, ReturnStatement, ScopeContext, Statement, Type, TypeState, VariableDeclaration,
};
use flint_codegen::moveir::function::FunctionContext;
use flint_codegen::moveir::identifier::MoveSelf;
use flint_codegen::moveir::ir::{MoveIRBlock, MoveIRExpression, MoveIRStatement, MoveIRType};
use flint_codegen::moveir::statement::{
    MoveEmitStatement, MoveFieldDeclaration, MoveIfStatement, MoveReturnStatement,
    MoveVariableDeclaration,
};
use flint_codegen::moveir::types::{MoveType, UserTypeKind};
use flint_codegen::moveir::MovePosition;
use flint_codegen::semantic_analysis::{
    check_if_correct_type_state_possible, code_block_returns, is_conformance_repeated,
};
use flint_codegen::solidity::statement::{SolidityIdentifier, SolidityIfStatement, SolidityReturnStatement};
use flint_codegen::solidity::yul::{YulExpression, YulStatement};

fn id(token: &str) -> Identifier {
    Identifier { token: token.to_string(), enclosing_type: None, line_info: LineInfo { line: 3, offset: 9 } }
}

fn move_context(parameters: Vec<Parameter>, is_constructor: bool) -> FunctionContext {
    FunctionContext {
        scope_context: ScopeContext { parameters, local_variables: vec![], counter: 0 },
        enclosing_type: "Coin".to_string(),
        block_stack: vec![MoveIRBlock { statements: vec![] }],
        in_struct_function: false,
        is_constructor,
    }
}

fn inout(name: &str, t: Type) -> Parameter {
    Parameter {
        identifier: id(name),
        type_assignment: Type::InoutType(InoutType { key_type: Box::new(t) }),
        expression: None,
        line_info: LineInfo { line: 0, offset: 0 },
    }
}

fn plain(name: &str, t: Type) -> Parameter {
    Parameter { identifier: id(name), type_assignment: t, expression: None, line_info: LineInfo { line: 0, offset: 0 } }
}

fn ret(expression: Option<Expression>) -> Statement {
    Statement::ReturnStatement(ReturnStatement { expression, cleanup: vec![], line_info: LineInfo { line: 0, offset: 0 } })
}

fn branch(body: Vec<Statement>, else_body: Vec<Statement>) -> Statement {
    Statement::IfStatement(IfStatement { condition: Expression::SelfExpression, body, else_body })
}

fn state(name: &str) -> TypeState {
    TypeState { identifier: id(name) }
}

#[test]
fn move_if_collects_its_branches() {
    let mut ctx = move_context(vec![], false);
    let statement = MoveIfStatement {
        statement: IfStatement {
            condition: Expression::SelfExpression,
            body: vec![ret(None)],
            else_body: vec![ret(None)],
        },
    };
    let res = statement.generate(
        MoveIRExpression::Inline("c".to_string()),
        vec![MoveIRStatement::Inline("a".to_string()), MoveIRStatement::Inline("b".to_string())],
        vec![MoveIRStatement::Inline("e".to_string())],
        &mut ctx,
    );
    assert_eq!(res.to_string(), "if (c) { \n a;\nb; \n } else { \n e; \n } ");
    assert_eq!(ctx.block_stack.len(), 1);
    assert!(ctx.block_stack[0].statements.is_empty());
}

#[test]
fn move_return_assigns_ret() {
    let mut ctx = move_context(vec![], false);
    let statement = MoveReturnStatement {
        statement: ReturnStatement { expression: Some(Expression::SelfExpression), cleanup: vec![], line_info: LineInfo { line: 0, offset: 0 } },
    };
    let (cleanup, res) = statement.generate(Some(MoveIRExpression::Inline("v".to_string())), &mut ctx);
    assert!(cleanup.is_empty());
    assert_eq!(res.to_string(), "return move(ret);");
    assert_eq!(ctx.block_stack[0].statements.len(), 1);
    assert_eq!(ctx.block_stack[0].statements[0].to_string(), "ret = v;");
    let bare = MoveReturnStatement { statement: ReturnStatement { expression: None, cleanup: vec![], line_info: LineInfo { line: 0, offset: 0 } } };
    let (_, res) = bare.generate(None, &mut ctx);
    assert_eq!(res.to_string(), "return;");
}

#[test]
fn move_declarations() {
    let emit = MoveEmitStatement {
        statement: flint_codegen::ast::EmitStatement {
            function_call: flint_codegen::ast::FunctionCall { identifier: id("Sent"), arguments: vec![], mangled_identifier: None },
        },
    };
    assert_eq!(emit.generate(&MoveIRExpression::Inline("Self.Sent()".to_string())).to_string(), "Self.Sent();");
    let variable = MoveVariableDeclaration {
        declaration: VariableDeclaration { declaration_token: None, identifier: id("self"), variable_type: Type::Int, expression: None },
    };
    assert_eq!(variable.generate(MoveIRType::U64).to_string(), "let this: u64");
    let field = MoveFieldDeclaration {
        declaration: VariableDeclaration { declaration_token: None, identifier: id("balance"), variable_type: Type::Int, expression: None },
    };
    assert_eq!(field.generate(MoveIRType::U64).to_string(), "balance: u64");
}

#[test]
fn move_self_by_position() {
    let ctx = move_context(vec![], false);
    let inout_self = Type::InoutType(InoutType { key_type: Box::new(Type::UserDefinedType(id("Coin"))) });
    let s = MoveSelf { token: "self".to_string(), position: MovePosition::Accessed };
    assert_eq!(s.generate(&ctx, false, &inout_self).to_string(), "*&mut copy(this)");
    assert_eq!(s.generate(&ctx, true, &inout_self).to_string(), "move(this)");
    assert_eq!(s.generate(&ctx, false, &Type::UserDefinedType(id("Coin"))).to_string(), "this");
    let left = MoveSelf { token: "self".to_string(), position: MovePosition::Left };
    assert_eq!(left.generate(&ctx, false, &inout_self).to_string(), "this");
    assert_eq!(left.name(), "this");
    let constructor = move_context(vec![], true);
    let normal = MoveSelf { token: "self".to_string(), position: MovePosition::Normal };
    assert_eq!(normal.generate(&constructor, true, &inout_self).to_string(), "copy(this)");
}

#[test]
fn reference_parameters_are_released() {
    let mut ctx = move_context(vec![inout("self", Type::UserDefinedType(id("Coin"))), plain("amount", Type::Int), inout("other", Type::Int)], false);
    let releases = ctx.get_release_references();
    assert_eq!(releases.len(), 2);
    ctx.emit_release_references();
    let statements: Vec<String> = ctx.block_stack[0].statements.iter().map(|s| s.to_string()).collect();
    assert_eq!(statements, vec!["_ = move(this);".to_string(), "_ = move(other);".to_string()]);
}

#[test]
fn move_types_of_flint_types() {
    let table = vec![("Coin".to_string(), UserTypeKind::Resource), ("Bank".to_string(), UserTypeKind::ExternalContract)];
    let t = MoveType::move_type(Type::UserDefinedType(id("Coin")), true, &table);
    assert!(matches!(t, MoveType::Resource(ref n) if n == "Coin"));
    let t = MoveType::move_type(Type::UserDefinedType(id("Bank")), true, &table);
    assert!(matches!(t, MoveType::Address));
    let t = MoveType::move_type(Type::UserDefinedType(id("Coin")), false, &table);
    assert!(matches!(t, MoveType::StructType(ref n) if n == "Coin"));
    let t = MoveType::move_type(Type::UserDefinedType(id("signer")), true, &table);
    assert!(matches!(t, MoveType::Signer));
    let t = MoveType::move_type(Type::ArrayType(ArrayType { key_type: Box::new(Type::UserDefinedType(id("Coin"))) }), true, &table);
    assert!(matches!(t, MoveType::Vector(ref b) if matches!(**b, MoveType::StructType(_))));
    let t = MoveType::move_type(
        Type::DictionaryType(DictionaryType { key_type: Box::new(Type::Address), value_type: Box::new(Type::Int) }),
        true,
        &table,
    );
    assert!(matches!(t, MoveType::U64));
    let t = MoveType::move_type(Type::InoutType(InoutType { key_type: Box::new(Type::String) }), true, &table);
    assert!(matches!(t, MoveType::MutableReference(ref b) if matches!(**b, MoveType::ByteArray)));
}

#[test]
fn solidity_statements() {
    let r = SolidityReturnStatement {
        statement: ReturnStatement { expression: Some(Expression::SelfExpression), cleanup: vec![], line_info: LineInfo { line: 0, offset: 0 } },
    };
    assert!(matches!(r.generate(Some(YulExpression::Identifier("x".to_string()))), YulStatement::Inline(ref t) if t == "ret := x"));
    let bare = SolidityReturnStatement { statement: ReturnStatement { expression: None, cleanup: vec![], line_info: LineInfo { line: 0, offset: 0 } } };
    assert!(matches!(bare.generate(None), YulStatement::Inline(ref t) if t.is_empty()));
    let mut ctx = flint_codegen::solidity::function::FunctionContext {
        scope_context: ScopeContext { parameters: vec![], local_variables: vec![], counter: 0 },
        in_struct_function: false,
        block_stack: vec![],
        enclosing_type: "Coin".to_string(),
        counter: 0,
    };
    let i = SolidityIfStatement { statement: IfStatement { condition: Expression::SelfExpression, body: vec![], else_body: vec![] } };
    let s = i.generate(YulExpression::Identifier("c".to_string()), vec![YulStatement::Inline("x".to_string())], &mut ctx);
    assert_eq!(s.to_string(), "switch c \n case 1 { \n x \n }");
    assert!(ctx.block_stack.is_empty());
    let local = SolidityIdentifier { identifier: id("amount"), is_lvalue: false };
    assert!(matches!(local.generate(None), YulExpression::Identifier(ref n) if n == "_amount"));
}

#[test]
fn blocks_return_on_every_path() {
    assert!(code_block_returns(&[ret(None)]));
    assert!(!code_block_returns(&[]));
    assert!(code_block_returns(&[branch(vec![ret(None)], vec![ret(None)])]));
    assert!(!code_block_returns(&[branch(vec![ret(None)], vec![])]));
    assert!(!code_block_returns(&[Statement::Expression(Expression::SelfExpression)]));
    assert!(code_block_returns(&[branch(vec![branch(vec![ret(None)], vec![ret(None)])], vec![ret(None)])]));
}

#[test]
fn repeated_conformances() {
    let c = |n: &str| Conformance { identifier: id(n) };
    assert!(is_conformance_repeated(&vec![c("A"), c("B"), c("A")]));
    assert!(!is_conformance_repeated(&vec![c("A"), c("B")]));
    assert!(!is_conformance_repeated(&vec![]));
}

#[test]
fn type_state_calls() {
    let all = vec![state("Open"), state("Closed")];
    assert!(check_if_correct_type_state_possible(&all, &None, &vec![], &id("f")).is_ok());
    assert!(check_if_correct_type_state_possible(&all, &Some(state("Open")), &vec![state("Open")], &id("f")).is_ok());
    assert!(check_if_correct_type_state_possible(&vec![], &None, &vec![state("Open")], &id("f")).is_ok());
    let err = check_if_correct_type_state_possible(&all, &None, &vec![state("Open")], &id("close")).unwrap_err();
    assert_eq!(
        err,
        "Must definitely be in one of the following states to make function call close on LineInfo { line: 3, offset: 9 }: [\"Open\"]."
    );
}

#[test]
fn type_states_of_another_type_are_not_allowed() {
    let mut enclosed = state("Open");
    enclosed.identifier.enclosing_type = Some("Bank".to_string());
    let all = vec![state("Open")];
    assert!(check_if_correct_type_state_possible(&all, &Some(enclosed), &vec![state("Open")], &id("f")).is_err());
    let mut allowed = state("Open");
    allowed.identifier.enclosing_type = Some("Bank".to_string());
    let mut current = state("Open");
    current.identifier.enclosing_type = Some("Bank".to_string());
    assert!(check_if_correct_type_state_possible(&all, &Some(current), &vec![allowed], &id("f")).is_ok());
}

#[test]
fn mutation_outside_functions_is_allowed() {
    assert_eq!(flint_codegen::semantic_analysis::ensure_mutation_declared("x", None, true), Ok(()));
}

#[test]
fn mutation_of_undeclared_identifier_is_refused() {
    let mutates = vec![Identifier { token: "y".to_string(), enclosing_type: None, line_info: LineInfo::default() }];
    assert_eq!(
        flint_codegen::semantic_analysis::ensure_mutation_declared("x", Some((&mutates, 12)), true),
        Err("Mutating identifier `x` which is not declared mutating at line 12".to_string())
    );
    assert_eq!(flint_codegen::semantic_analysis::ensure_mutation_declared("y", Some((&mutates, 12)), true), Ok(()));
    assert_eq!(flint_codegen::semantic_analysis::ensure_mutation_declared("x", Some((&mutates, 12)), false), Ok(()));
}
