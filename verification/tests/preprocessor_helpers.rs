use flint_codegen::ast::{
    ArrayType, BinOp, BinaryExpression, CallerProtection, Expression, Identifier, LineInfo, Literal,
    Statement, Type, VariableDeclaration, FunctionDeclaration, FunctionSignatureDeclaration, ReturnStatement,
    Parameter, ScopeContext, SpecialDeclaration, SpecialSignatureDeclaration,
};
use flint_codegen::moveir::preprocessor::utils::split_caller_protections;
use flint_codegen::moveir::preprocessor::MovePreProcessor;
use flint_codegen::solidity::preprocessor::utils::{default_assignments, mangle_solidity_function_name};

fn id(token: &str) -> Identifier {
    Identifier { token: token.to_string(), enclosing_type: None, line_info: LineInfo::default() }
}

fn protection(token: &str) -> CallerProtection {
    CallerProtection { identifier: id(token) }
}

#[test]
fn solidity_name_with_parameters() {
    assert_eq!(
        mangle_solidity_function_name(
            "transfer".to_string(),
            vec!["Address".to_string(), "Int".to_string()],
            "Coin"
        ),
        "Coin$transfer$Address_Int"
    );
}

#[test]
fn solidity_name_without_parameters() {
    assert_eq!(mangle_solidity_function_name("init".to_string(), vec![], "Coin"), "Coin$init");
}

#[test]
fn protections_split_by_the_type_of_their_name() {
    let protections = vec![protection("owner"), protection("isAdmin"), protection("admins"), protection("any")];
    let types = vec![
        Type::Address,
        Type::Bool,
        Type::ArrayType(ArrayType { key_type: Box::new(Type::Address) }),
        Type::Error,
    ];
    let (state, functions) = split_caller_protections(protections, &types);
    assert_eq!(state, vec![protection("owner"), protection("admins")]);
    assert_eq!(functions, vec![protection("isAdmin"), protection("any")]);
}

#[test]
fn properties_with_values_get_assignments() {
    let properties = vec![
        (id("count"), Some(Expression::Literal(Literal::BooleanLiteral(true)))),
        (id("owner"), None),
    ];
    let statements = default_assignments("Counter", properties);
    let mut lhs = id("count");
    lhs.enclosing_type = Some("Counter".to_string());
    assert_eq!(
        statements,
        vec![Statement::Expression(Expression::BinaryExpression(BinaryExpression {
            lhs_expression: Box::new(Expression::Identifier(lhs)),
            rhs_expression: Box::new(Expression::Literal(Literal::BooleanLiteral(true))),
            op: BinOp::Equal,
            line_info: LineInfo::default(),
        }))]
    );
}

fn declaration(token: &str, t: Type) -> VariableDeclaration {
    VariableDeclaration {
        declaration_token: Some("let".to_string()),
        identifier: id(token),
        variable_type: t,
        expression: None,
    }
}

fn assignment(lhs: Expression, rhs: Expression) -> Expression {
    Expression::BinaryExpression(BinaryExpression {
        lhs_expression: Box::new(lhs),
        rhs_expression: Box::new(rhs),
        op: BinOp::Equal,
        line_info: LineInfo::default(),
    })
}

#[test]
fn declaring_assignment_becomes_an_assignment_and_a_local() {
    let value = || Expression::Literal(Literal::IntLiteral(3));
    let e = assignment(Expression::VariableDeclaration(declaration("x", Type::Int)), value());
    let mut locals = vec![];
    let res = MovePreProcessor::start_expression(e, None, &mut locals, true);
    assert_eq!(res, assignment(Expression::Identifier(id("x")), value()));
    assert_eq!(locals, vec![declaration("x", Type::Int)]);

    let e = assignment(Expression::VariableDeclaration(declaration("x", Type::Int)), value());
    let res = MovePreProcessor::start_expression(e, None, &mut locals, true);
    assert_eq!(res, assignment(Expression::Identifier(id("x")), value()));
    assert_eq!(locals.len(), 1);

    let e = assignment(Expression::VariableDeclaration(declaration("x", Type::Int)), value());
    MovePreProcessor::start_expression(e, None, &mut locals, false);
    assert_eq!(locals.len(), 2);

    let e = assignment(Expression::VariableDeclaration(declaration("self", Type::Int)), value());
    let res = MovePreProcessor::start_expression(e, None, &mut locals, true);
    assert_eq!(res, assignment(Expression::SelfExpression, value()));
}

#[test]
fn enum_case_becomes_its_value() {
    let access = Expression::BinaryExpression(BinaryExpression {
        lhs_expression: Box::new(Expression::Identifier(id("Colour"))),
        rhs_expression: Box::new(Expression::Identifier(id("red"))),
        op: BinOp::Dot,
        line_info: LineInfo::default(),
    });
    let mut locals = vec![];
    let res = MovePreProcessor::start_expression(
        access,
        Some(Expression::Literal(Literal::IntLiteral(0))),
        &mut locals,
        true,
    );
    assert_eq!(res, Expression::Literal(Literal::IntLiteral(0)));
    assert!(locals.is_empty());
}

fn function(result_type: Option<Type>, body: Vec<Statement>) -> FunctionDeclaration {
    FunctionDeclaration {
        head: FunctionSignatureDeclaration {
            func_token: "func".to_string(),
            attributes: vec![],
            modifiers: vec![],
            mutates: vec![],
            identifier: id("f"),
            parameters: vec![],
            result_type,
            payable: false,
        },
        body,
        scope_context: None,
        tags: vec!["a".to_string()],
        mangled_identifier: None,
        is_external: false,
    }
}

fn call_statement(name: &str) -> Statement {
    Statement::Expression(Expression::Identifier(id(name)))
}

fn bare_return() -> Statement {
    Statement::ReturnStatement(ReturnStatement { expression: None, cleanup: vec![], line_info: LineInfo::default() })
}

#[test]
fn void_function_gets_declarations_first_and_a_final_return() {
    let body = vec![
        Statement::Expression(Expression::VariableDeclaration(declaration("x", Type::Int))),
        call_statement("g"),
    ];
    let res = MovePreProcessor::finish_function_declaration(
        function(None, body),
        vec![call_statement("decl")],
        vec!["b".to_string()],
    );
    assert_eq!(res.body, vec![call_statement("decl"), call_statement("g"), bare_return()]);
    assert_eq!(res.tags, vec!["a".to_string(), "b".to_string()]);

    let res = MovePreProcessor::finish_function_declaration(function(None, vec![bare_return()]), vec![], vec![]);
    assert_eq!(res.body, vec![bare_return()]);
}

#[test]
fn function_with_result_declares_ret() {
    let res = MovePreProcessor::finish_function_declaration(
        function(Some(Type::Int), vec![call_statement("g")]),
        vec![],
        vec![],
    );
    let ret = VariableDeclaration {
        declaration_token: None,
        identifier: id("ret"),
        variable_type: Type::Int,
        expression: None,
    };
    assert_eq!(res.body, vec![Statement::Expression(Expression::VariableDeclaration(ret)), call_statement("g")]);
}

fn initialiser(body: Vec<Statement>) -> SpecialDeclaration {
    SpecialDeclaration {
        head: SpecialSignatureDeclaration {
            attributes: vec![],
            modifiers: vec![],
            mutates: vec![],
            parameters: vec![],
            special_token: "init".to_string(),
            enclosing_type: Some("Bank".to_string()),
        },
        body,
        scope_context: ScopeContext { parameters: vec![], local_variables: vec![], counter: 0 },
        generated: false,
    }
}

#[test]
fn initialiser_reads_caller_as_address_and_drops_dictionary_literals() {
    let body = vec![
        Statement::Expression(assignment(
            Expression::Identifier(id("owner")),
            Expression::Identifier(id("_contract_caller")),
        )),
        Statement::Expression(assignment(
            Expression::Identifier(id("balances")),
            Expression::DictionaryLiteral(vec![]),
        )),
        call_statement("g"),
    ];
    let res = MovePreProcessor::start_special_declaration(initialiser(body), true);
    assert_eq!(
        res.body,
        vec![
            Statement::Expression(assignment(
                Expression::Identifier(id("owner")),
                Expression::RawAssembly("Signer.address_of(copy(_contract_caller))".to_string(), None)
            )),
            call_statement("g"),
        ]
    );
    assert_eq!(
        res.head.parameters,
        vec![Parameter {
            identifier: id("_contract_caller"),
            type_assignment: Type::UserDefinedType(id("&signer")),
            expression: None,
            line_info: LineInfo::default(),
        }]
    );
    let res = MovePreProcessor::start_special_declaration(initialiser(vec![call_statement("g")]), false);
    assert!(res.head.parameters.is_empty());
    assert_eq!(res.body, vec![call_statement("g")]);
}
