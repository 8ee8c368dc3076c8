use flint_codegen::ast::{
    BinOp, BinaryExpression, Expression, Identifier, InoutType, LineInfo, Statement, Type,
};
use flint_codegen::ast::{CallerProtection, FunctionArgument};
use flint_codegen::moveir::call::{caller_protections_is_any, contains_caller_argument};
use flint_codegen::moveir::contract::replace_borrowed_references;
use flint_codegen::moveir::function::absorb_releases;
use flint_codegen::moveir::ir::{
    MoveIRExpression, MoveIROperation, MoveIRStatement, MoveIRStructConstructor, MoveIRTransfer,
};
use flint_codegen::moveir::utils::remove_moves;

fn copy_of(name: &str) -> MoveIRExpression {
    MoveIRExpression::Transfer(MoveIRTransfer::Copy(Box::new(MoveIRExpression::Identifier(
        name.to_string(),
    ))))
}

fn move_of(name: &str) -> MoveIRExpression {
    MoveIRExpression::Transfer(MoveIRTransfer::Move(Box::new(MoveIRExpression::Identifier(
        name.to_string(),
    ))))
}

fn field(base: MoveIRExpression, name: &str) -> MoveIRExpression {
    MoveIRExpression::Operation(MoveIROperation::Access(
        Box::new(MoveIRExpression::Operation(MoveIROperation::Dereference(Box::new(
            MoveIRExpression::Operation(MoveIROperation::MutableReference(Box::new(base))),
        )))),
        name.to_string(),
    ))
}

fn release(variable: &str) -> Statement {
    Statement::Expression(Expression::BinaryExpression(BinaryExpression {
        lhs_expression: Box::new(Expression::RawAssembly(
            "_".to_string(),
            Some(Type::InoutType(InoutType {
                key_type: Box::new(Type::UserDefinedType(Identifier {
                    token: "Rectangle".to_string(),
                    enclosing_type: None,
                    line_info: LineInfo { line: 2, offset: 37 },
                })),
            })),
        )),
        rhs_expression: Box::new(Expression::Identifier(Identifier {
            token: variable.to_string(),
            enclosing_type: None,
            line_info: LineInfo { line: 18, offset: 377 },
        })),
        op: BinOp::Equal,
        line_info: LineInfo { line: 18, offset: 377 },
    }))
}

#[test]
fn test_remove_moves() {
    let expr = MoveIRExpression::Operation(MoveIROperation::Add(
        Box::new(field(copy_of("_temp__3"), "width")),
        Box::new(field(copy_of("_temp__3"), "height")),
    ));
    let statement = release("temp__3");

    let result = remove_moves(vec![statement], expr);

    assert_eq!(
        result.1,
        MoveIRExpression::Operation(MoveIROperation::Add(
            Box::new(field(copy_of("_temp__3"), "width")),
            Box::new(field(move_of("_temp__3"), "height")),
        ))
    );
    assert!(result.0.is_empty());
}

#[test]
fn remove_moves_keeps_unrelated_statements() {
    let expr = copy_of("_a");
    let result = remove_moves(vec![release("b"), release("a"), release("c")], expr);
    assert_eq!(result.1, move_of("_a"));
    assert_eq!(result.0, vec![release("b"), release("c")]);
}

#[test]
fn remove_moves_without_match_returns_expression() {
    let expr = copy_of("_a");
    let result = remove_moves(vec![release("b")], expr);
    assert_eq!(result.1, copy_of("_a"));
    assert_eq!(result.0.len(), 1);
}

#[test]
fn remove_moves_self_is_this() {
    let expr = copy_of("this");
    let result = remove_moves(vec![release("self")], expr);
    assert_eq!(result.1, move_of("this"));
}

#[test]
fn absorption_moves_the_last_use_of_a_released_reference() {
    let statements = vec![
        MoveIRStatement::Expression(copy_of("_a")),
        MoveIRStatement::Inline("x = 1".to_string()),
        MoveIRStatement::Expression(copy_of("_a")),
    ];
    let (body, left) = absorb_releases(statements, vec![release("a"), release("b")]);
    assert_eq!(body.len(), 3);
    assert!(matches!(&body[0], MoveIRStatement::Expression(e) if *e == copy_of("_a")));
    assert!(matches!(&body[1], MoveIRStatement::Inline(t) if t == "x = 1"));
    assert!(matches!(&body[2], MoveIRStatement::Expression(e) if *e == move_of("_a")));
    assert_eq!(left, vec![release("b")]);
}

#[test]
fn absorption_without_releases_changes_nothing() {
    let statements = vec![MoveIRStatement::Expression(copy_of("_a"))];
    let (body, left) = absorb_releases(statements, vec![release("c")]);
    assert_eq!(body.len(), 1);
    assert!(matches!(&body[0], MoveIRStatement::Expression(e) if *e == copy_of("_a")));
    assert_eq!(left, vec![release("c")]);
}

#[test]
fn borrowed_references_become_dereferenced_moves() {
    let mut constructor = MoveIRExpression::StructConstructor(MoveIRStructConstructor {
        identifier: Identifier { token: "Wallet".to_string(), enclosing_type: None, line_info: LineInfo { line: 1, offset: 1 } },
        fields: vec![
            ("owner".to_string(), move_of("__temp_owner")),
            ("balance".to_string(), copy_of("__temp_owner")),
            ("count".to_string(), move_of("other")),
        ],
    });
    replace_borrowed_references(&mut constructor, "__temp_owner", "owner_ref");
    let expected = MoveIRExpression::StructConstructor(MoveIRStructConstructor {
        identifier: Identifier { token: "Wallet".to_string(), enclosing_type: None, line_info: LineInfo { line: 1, offset: 1 } },
        fields: vec![
            (
                "owner".to_string(),
                MoveIRExpression::Operation(MoveIROperation::Dereference(Box::new(move_of("owner_ref")))),
            ),
            ("balance".to_string(), copy_of("__temp_owner")),
            ("count".to_string(), move_of("other")),
        ],
    });
    assert_eq!(constructor, expected);

    let mut other = copy_of("__temp_owner");
    replace_borrowed_references(&mut other, "__temp_owner", "owner_ref");
    assert_eq!(other, copy_of("__temp_owner"));
}

fn named(token: &str) -> Identifier {
    Identifier { token: token.to_string(), enclosing_type: None, line_info: LineInfo { line: 0, offset: 0 } }
}

#[test]
fn caller_arguments_are_found_by_label() {
    let plain = FunctionArgument { identifier: None, expression: Expression::SelfExpression };
    let labelled = |label: &str| FunctionArgument {
        identifier: Some(named(label)),
        expression: Expression::SelfExpression,
    };
    assert!(!contains_caller_argument(&vec![]));
    assert!(!contains_caller_argument(&vec![plain, labelled("to")]));
    assert!(contains_caller_argument(&vec![labelled("to"), labelled("caller")]));
}

#[test]
fn protections_are_any_only_when_all_are() {
    let protection = |token: &str| CallerProtection { identifier: named(token) };
    assert!(caller_protections_is_any(&vec![]));
    assert!(caller_protections_is_any(&vec![protection("any"), protection("any")]));
    assert!(!caller_protections_is_any(&vec![protection("any"), protection("owner")]));
}
