use flint_codegen::ast::{
    BinOp, BinaryExpression, Expression, Identifier, LineInfo, Literal, ScopeContext, SpecialDeclaration,
    SpecialSignatureDeclaration, Statement, Type, VariableDeclaration,
};
use flint_codegen::moveir::ir::{MoveIRExpression, MoveIRStatement, MoveIRType};
use flint_codegen::moveir::structs::MoveStructInitialiser;

fn named(token: &str, enclosing: Option<&str>) -> Identifier {
    Identifier {
        token: token.to_string(),
        enclosing_type: enclosing.map(|e| e.to_string()),
        line_info: LineInfo { line: 1, offset: 0 },
    }
}

fn assign(lhs: Expression) -> Statement {
    Statement::Expression(Expression::BinaryExpression(BinaryExpression {
        lhs_expression: Box::new(lhs),
        rhs_expression: Box::new(Expression::Literal(Literal::IntLiteral(1))),
        op: BinOp::Equal,
        line_info: LineInfo { line: 1, offset: 0 },
    }))
}

fn self_field(name: &str) -> Expression {
    Expression::BinaryExpression(BinaryExpression {
        lhs_expression: Box::new(Expression::SelfExpression),
        rhs_expression: Box::new(Expression::Identifier(named(name, None))),
        op: BinOp::Dot,
        line_info: LineInfo { line: 1, offset: 0 },
    })
}

fn property(name: &str) -> VariableDeclaration {
    VariableDeclaration {
        declaration_token: Some("var".to_string()),
        identifier: named(name, None),
        variable_type: Type::Int,
        expression: None,
    }
}

fn initialiser(body: Vec<Statement>) -> MoveStructInitialiser {
    MoveStructInitialiser {
        declaration: SpecialDeclaration {
            head: SpecialSignatureDeclaration {
                attributes: vec![],
                modifiers: vec![],
                mutates: vec![],
                parameters: vec![],
                special_token: "init".to_string(),
                enclosing_type: None,
            },
            body,
            scope_context: ScopeContext { parameters: vec![], local_variables: vec![], counter: 0 },
            generated: false,
        },
        identifier: named("Point", None),
        properties: vec![property("x"), property("y")],
    }
}

fn inline(text: &str) -> MoveIRStatement {
    MoveIRStatement::Inline(text.to_string())
}

fn point() -> MoveIRType {
    MoveIRType::StructType("Point".to_string())
}

fn generate(body: Vec<Statement>, code: Vec<MoveIRStatement>) -> String {
    initialiser(body).generate(
        &vec![(MoveIRExpression::Identifier("_x".to_string()), MoveIRType::U64)],
        vec![MoveIRType::U64, MoveIRType::U64],
        point(),
        point(),
        code,
    )
}

#[test]
fn initialisers_return_the_struct_once_every_statement_is_taken() {
    let text = generate(
        vec![assign(self_field("x")), assign(Expression::Identifier(named("y", Some("Point"))))],
        vec![inline("a"), inline("b")],
    );
    assert_eq!(
        text,
        " Point_init(_x: u64): Point { \n\n let __this_x: u64;\nlet __this_y: u64;\na;\nb;\nreturn Point { \n x: move(__this_x),\ny: move(__this_y) }; \n\n }"
    );
}

#[test]
fn initialisers_declare_the_receiver_when_statements_remain() {
    let text = generate(
        vec![
            assign(self_field("x")),
            assign(Expression::Identifier(named("y", Some("Point")))),
            assign(self_field("x")),
        ],
        vec![inline("a"), inline("b"), inline("c")],
    );
    assert_eq!(
        text,
        " Point_init(_x: u64): Point { \n\n let __this_x: u64;\nlet __this_y: u64;\nlet this: &mut Point;\nlet : Point;\na;\nb; \n\n }"
    );
}

#[test]
fn initialisers_stop_at_assignments_they_cannot_read() {
    let text = generate(
        vec![assign(Expression::SelfExpression), assign(self_field("x"))],
        vec![inline("a"), inline("b")],
    );
    assert_eq!(
        text,
        " Point_init(_x: u64): Point { \n\n let __this_x: u64;\nlet __this_y: u64;\nlet this: &mut Point;\nlet : Point; \n\n }"
    );
}

#[test]
fn initialisers_without_a_body_have_an_empty_body() {
    let text = generate(vec![], vec![]);
    assert_eq!(text, " Point_init(_x: u64): Point { \n\n  \n\n }");
}
