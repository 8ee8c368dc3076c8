use flint_codegen::ast::{
    BinOp, BinaryExpression, CallerProtection, CastExpression, Expression, Identifier, LineInfo,
    ScopeContext, Statement, Type, VariableDeclaration,
};
use flint_codegen::moveir::expression::{MoveBinaryExpression, MoveCastExpression};
use flint_codegen::moveir::function::{reorder_statements, FunctionContext};
use flint_codegen::moveir::ir::{MoveIRBlock, MoveIRExpression, MoveIRStatement, MoveIRType, MoveIRVariableDeclaration};
use flint_codegen::moveir::preprocessor::utils::{
    construct_expression, delete_declarations, generate_caller_protections_predicate, release,
    ProtectionTarget,
};

fn id(token: &str) -> Identifier {
    Identifier { token: token.to_string(), enclosing_type: None, line_info: LineInfo { line: 4, offset: 7 } }
}

fn binary(op: BinOp) -> MoveBinaryExpression {
    MoveBinaryExpression {
        expression: BinaryExpression {
            lhs_expression: Box::new(Expression::SelfExpression),
            rhs_expression: Box::new(Expression::SelfExpression),
            op,
            line_info: LineInfo { line: 0, offset: 0 },
        },
    }
}

fn inline(s: &str) -> MoveIRExpression {
    MoveIRExpression::Inline(s.to_string())
}

#[test]
fn move_maximum_values_in_decimal() {
    assert_eq!(MoveCastExpression::maximum_value(8), "255");
    assert_eq!(MoveCastExpression::maximum_value(32), "4294967295");
    assert_eq!(MoveCastExpression::maximum_value(64), "18446744073709551615");
}

#[test]
fn move_casts_keep_the_expression() {
    assert_eq!(MoveCastExpression::get_type_info(&Type::Int), (256, true));
    assert_eq!(MoveCastExpression::get_type_info(&Type::Address), (256, false));
    let cast = MoveCastExpression {
        expression: CastExpression { expression: Box::new(Expression::SelfExpression), cast_type: Type::Bool },
    };
    assert_eq!(cast.generate(&Type::Int, inline("x")).to_string(), "x");
}

#[test]
fn move_operators() {
    assert_eq!(binary(BinOp::Plus).generate(inline("a"), inline("b")).to_string(), "(a + b)");
    assert_eq!(binary(BinOp::OverflowingPlus).generate(inline("a"), inline("b")).to_string(), "(a + b)");
    assert_eq!(binary(BinOp::NotEqual).generate(inline("a"), inline("b")).to_string(), "(a != b)");
    assert_eq!(binary(BinOp::Power).generate(inline("a"), inline("b")).to_string(), "Self._Power(a, b)");
}

#[test]
fn caller_protection_predicates() {
    let protections = vec![
        CallerProtection { identifier: id("owner") },
        CallerProtection { identifier: id("admins") },
        CallerProtection { identifier: id("transfer") },
    ];
    let targets = vec![
        ProtectionTarget::Address,
        ProtectionTarget::AddressList(vec![Expression::RawAssembly("0x1".to_string(), None), Expression::RawAssembly("0x2".to_string(), None)]),
        ProtectionTarget::Predicate,
    ];
    let enclosing = id("Coin");
    let predicate = generate_caller_protections_predicate(&protections, targets, "caller", &enclosing, "transfer").unwrap();
    let signer = || Box::new(Expression::RawAssembly("Signer.address_of(copy(caller))".to_string(), None));
    let compare = |lhs: Expression| Expression::BinaryExpression(BinaryExpression {
        lhs_expression: Box::new(lhs),
        rhs_expression: signer(),
        op: BinOp::DoubleEqual,
        line_info: LineInfo { line: 0, offset: 0 },
    });
    let or = |l: Expression, r: Expression| Expression::BinaryExpression(BinaryExpression {
        lhs_expression: Box::new(l),
        rhs_expression: Box::new(r),
        op: BinOp::Or,
        line_info: LineInfo { line: 0, offset: 0 },
    });
    let owner = Identifier { token: "owner".to_string(), enclosing_type: Some("Coin".to_string()), line_info: LineInfo { line: 4, offset: 7 } };
    let expected = or(
        compare(Expression::Identifier(owner)),
        or(
            compare(Expression::RawAssembly("0x1".to_string(), None)),
            compare(Expression::RawAssembly("0x2".to_string(), None)),
        ),
    );
    assert_eq!(predicate, expected);

    let only_itself = generate_caller_protections_predicate(
        &vec![CallerProtection { identifier: id("transfer") }],
        vec![ProtectionTarget::ZeroAryFunction],
        "caller",
        &enclosing,
        "transfer",
    );
    assert!(only_itself.is_none());
    let none = generate_caller_protections_predicate(&vec![], vec![], "caller", &enclosing, "f");
    assert!(none.is_none());
}

#[test]
fn member_chains_nest_to_the_right() {
    let e = construct_expression(vec![Expression::SelfExpression, Expression::Identifier(id("a")), Expression::Identifier(id("b"))]);
    match e {
        Expression::BinaryExpression(b) => {
            assert_eq!(*b.lhs_expression, Expression::SelfExpression);
            assert_eq!(b.op, BinOp::Dot);
            assert!(matches!(*b.rhs_expression, Expression::BinaryExpression(_)));
        }
        _ => panic!("expected a member access"),
    }
}

#[test]
fn deleting_declarations_twice_is_deleting_once() {
    let statements = vec![
        Statement::Expression(Expression::VariableDeclaration(VariableDeclaration {
            declaration_token: None,
            identifier: id("x"),
            variable_type: Type::Int,
            expression: None,
        })),
        release(Expression::Identifier(id("x")), Type::Int),
    ];
    let once = delete_declarations(statements);
    assert_eq!(once.len(), 1);
    let twice = delete_declarations(once);
    assert_eq!(twice.len(), 1);
    assert!(matches!(twice[0], Statement::Expression(Expression::BinaryExpression(_))));
}

#[test]
fn declarations_move_to_the_front() {
    let declaration = MoveIRStatement::Expression(MoveIRExpression::VariableDeclaration(MoveIRVariableDeclaration {
        identifier: "x".to_string(),
        declaration_type: MoveIRType::U64,
    }));
    let statements = vec![MoveIRStatement::Expression(inline("f()")), declaration];
    let reordered = reorder_statements(&statements);
    assert_eq!(reordered.len(), 2);
    assert!(matches!(reordered[0], MoveIRStatement::Expression(MoveIRExpression::VariableDeclaration(_))));
    assert!(matches!(reordered[1], MoveIRStatement::Expression(MoveIRExpression::Inline(_))));
}

#[test]
fn move_blocks_open_and_close() {
    let mut ctx = FunctionContext {
        scope_context: ScopeContext { parameters: vec![], local_variables: vec![], counter: 0 },
        enclosing_type: "Coin".to_string(),
        block_stack: vec![MoveIRBlock { statements: vec![] }],
        in_struct_function: false,
        is_constructor: false,
    };
    let count = ctx.push_block();
    ctx.emit(MoveIRStatement::Expression(inline("a()")));
    let block = ctx.with_new_block(count);
    assert_eq!(block.statements.len(), 1);
    assert_eq!(ctx.block_stack.len(), 1);
    ctx.emit(MoveIRStatement::Expression(inline("b()")));
    let last = ctx.pop_block();
    assert_eq!(last.statements.len(), 1);
    assert!(ctx.block_stack.is_empty());
}
