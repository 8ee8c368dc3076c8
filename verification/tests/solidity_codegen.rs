use flint_codegen::ast::{
    BinOp, BinaryExpression, CallerProtection, CastExpression, Expression, FunctionDeclaration,
    FunctionSignatureDeclaration, Identifier, LineInfo, Modifier, Parameter, ScopeContext,
    SolidityType, SubscriptExpression, Type, VariableDeclaration,
};
use flint_codegen::solidity::expression::{
    SolidityBinaryExpression, SolidityCastExpression, SoliditySelfExpression,
    SoliditySubscriptExpression, SolidityVariableDeclaration,
};
use flint_codegen::solidity::function::{FunctionContext, SolidityFunction};
use flint_codegen::solidity::function_selector::{
    function_selector, SolidityCallerProtectionCheck, SolidityFunctionSelector,
    SolidityWrapperFunction,
};
use flint_codegen::solidity::interface::SolidityInterface;
use flint_codegen::solidity::yul::{YulExpression, YulLiteral, YulStatement};

fn id(token: &str) -> Identifier {
    Identifier { token: token.to_string(), enclosing_type: None, line_info: LineInfo { line: 0, offset: 0 } }
}

fn param(name: &str, t: Type) -> Parameter {
    Parameter { identifier: id(name), type_assignment: t, expression: None, line_info: LineInfo { line: 0, offset: 0 } }
}

fn declaration(name: &str, params: Vec<Parameter>, result: Option<Type>, public: bool, mutates: bool, payable: bool) -> FunctionDeclaration {
    FunctionDeclaration {
        head: FunctionSignatureDeclaration {
            func_token: "func".to_string(),
            attributes: vec![],
            modifiers: if public { vec![Modifier::Public] } else { vec![] },
            mutates: if mutates { vec![id("balance")] } else { vec![] },
            identifier: id(name),
            parameters: params,
            result_type: result,
            payable,
        },
        body: vec![],
        scope_context: None,
        tags: vec![],
        mangled_identifier: Some(format!("Coin${}", name)),
        is_external: false,
    }
}

fn context(in_struct: bool) -> FunctionContext {
    FunctionContext {
        scope_context: ScopeContext { parameters: vec![], local_variables: vec![], counter: 0 },
        in_struct_function: in_struct,
        block_stack: vec![],
        enclosing_type: "Coin".to_string(),
        counter: 0,
    }
}

fn ident_expr(name: &str) -> YulExpression {
    YulExpression::Identifier(name.to_string())
}

#[test]
fn type_info_of_solidity_integers() {
    assert_eq!(SolidityCastExpression::get_type_info(&Type::Solidity(SolidityType::UINT8)), (8, false));
    assert_eq!(SolidityCastExpression::get_type_info(&Type::Solidity(SolidityType::INT64)), (64, true));
    assert_eq!(SolidityCastExpression::get_type_info(&Type::Solidity(SolidityType::INT144)), (152, true));
    assert_eq!(SolidityCastExpression::get_type_info(&Type::Int), (256, true));
    assert_eq!(SolidityCastExpression::get_type_info(&Type::Bool), (256, false));
    assert_eq!(SolidityCastExpression::get_type_info(&Type::Solidity(SolidityType::ADDRESS)), (256, false));
}

#[test]
fn maximum_values_in_hexadecimal() {
    assert_eq!(SolidityCastExpression::maximum_value(8), "0xFF");
    assert_eq!(SolidityCastExpression::maximum_value(12), "0xFFF");
    assert_eq!(SolidityCastExpression::maximum_value(256), format!("0x{}", "F".repeat(64)));
}

#[test]
fn narrowing_cast_reverts_when_too_large() {
    let cast = SolidityCastExpression {
        expression: CastExpression { expression: Box::new(Expression::SelfExpression), cast_type: Type::Solidity(SolidityType::UINT16) },
    };
    let res = cast.generate(&Type::Int, ident_expr("x"));
    assert_eq!(res.to_string(), "Quartz$RevertIfGreater(x, 0xFFFF)");
    let widening = SolidityCastExpression {
        expression: CastExpression { expression: Box::new(Expression::SelfExpression), cast_type: Type::Int },
    };
    let res = widening.generate(&Type::Solidity(SolidityType::UINT16), ident_expr("x"));
    assert_eq!(res.to_string(), "x");
}

#[test]
fn self_lowers_by_context() {
    let s = SoliditySelfExpression { is_lvalue: false };
    assert_eq!(s.generate(&context(true)).to_string(), "_QuartzSelf");
    assert_eq!(s.generate(&context(false)).to_string(), "");
    let s = SoliditySelfExpression { is_lvalue: true };
    assert_eq!(s.generate(&context(false)).to_string(), "0");
}

#[test]
fn subscripts_load_unless_assigned() {
    let subscript = SubscriptExpression { base_expression: id("balances"), index_expression: Box::new(Expression::SelfExpression) };
    let read = SoliditySubscriptExpression { expression: subscript, is_lvalue: false };
    assert_eq!(read.generate(ident_expr("slot")).to_string(), "sload(slot)");
    let base = SoliditySubscriptExpression::base_identifier(Expression::SubscriptExpression(SubscriptExpression {
        base_expression: id("balances"),
        index_expression: Box::new(Expression::SelfExpression),
    }));
    assert_eq!(base.token, "balances");
    let slot = SoliditySubscriptExpression::nested_offset(
        &Type::DictionaryType(flint_codegen::ast::DictionaryType { key_type: Box::new(Type::Address), value_type: Box::new(Type::Int) }),
        3,
        ident_expr("k"),
        0,
    );
    assert_eq!(slot.to_string(), "Quartz$StorageDictionaryOffsetForKey(3, k)");
}

#[test]
fn operators_lower_to_helpers_and_builtins() {
    let binary = |op: BinOp| SolidityBinaryExpression {
        expression: BinaryExpression {
            lhs_expression: Box::new(Expression::SelfExpression),
            rhs_expression: Box::new(Expression::SelfExpression),
            op,
            line_info: LineInfo { line: 0, offset: 0 },
        },
        is_lvalue: false,
    };
    assert_eq!(binary(BinOp::Plus).generate(ident_expr("a"), ident_expr("b")).to_string(), "Quartz$Add(a, b)");
    assert_eq!(binary(BinOp::OverflowingPlus).generate(ident_expr("a"), ident_expr("b")).to_string(), "add(a, b)");
    assert_eq!(binary(BinOp::NotEqual).generate(ident_expr("a"), ident_expr("b")).to_string(), "iszero(eq(a, b))");
    assert_eq!(binary(BinOp::Percent).generate(ident_expr("a"), ident_expr("b")).to_string(), "mod(a, b)");
    assert_eq!(binary(BinOp::Power).generate(ident_expr("a"), ident_expr("b")).to_string(), "Quartz$Power(a, b)");
}

#[test]
fn variable_declarations_allocate_words() {
    let d = SolidityVariableDeclaration {
        declaration: VariableDeclaration { declaration_token: None, identifier: id("x"), variable_type: Type::Int, expression: None },
    };
    assert_eq!(d.generate(2).to_string(), "let _x := Quartz$AllocateMemory(64)");
}

#[test]
fn selectors_are_the_first_four_bytes_of_the_hash() {
    assert_eq!(function_selector("transfer(address,uint256)"), "0xa9059cbb");
    assert_eq!(function_selector("balanceOf(address)"), "0x70a08231");
}

#[test]
fn signatures_name_solidity_types() {
    let f = SolidityFunction {
        declaration: declaration("transfer", vec![param("to", Type::Address), param("value", Type::Int)], None, true, true, false),
        identifier: id("Coin"),
        caller_binding: None,
        caller_protections: vec![CallerProtection { identifier: id("any") }],
        is_contract_function: true,
    };
    assert_eq!(f.mangled_signature(), "transfer(address,uint256)");
    assert!(f.has_any_caller());
    assert_eq!(SolidityWrapperFunction::get_prefix_hard(), "quartzAttemptCallWrapperHard$");
}

#[test]
fn caller_checks_read_protecting_properties() {
    let check = SolidityCallerProtectionCheck {
        caller_protections: vec![CallerProtection { identifier: id("owner") }, CallerProtection { identifier: id("any") }],
        revert: true,
        variable: "_QuartzCallerCheck".to_string(),
    };
    assert_eq!(
        check.generate(&vec![Type::Address, Type::Int], &vec![3, 0]),
        "let _QuartzCallerCheck := 0 \n _QuartzCallerCheck := add(_QuartzCallerCheck, Quartz$IsValidCallerProtection(sload(3))) if eq(_QuartzCallerCheck, 0) { revert(0, 0) }"
    );
    let anyone = SolidityCallerProtectionCheck {
        caller_protections: vec![CallerProtection { identifier: id("any") }],
        revert: true,
        variable: "_QuartzCallerCheck".to_string(),
    };
    assert_eq!(anyone.generate(&vec![Type::Int], &vec![0]), "");
}

#[test]
fn dispatcher_has_a_case_per_function() {
    let f = SolidityFunction {
        declaration: declaration("balanceOf", vec![param("owner", Type::Address)], Some(Type::Int), true, false, false),
        identifier: id("Coin"),
        caller_binding: None,
        caller_protections: vec![CallerProtection { identifier: id("any") }],
        is_contract_function: true,
    };
    let selector = SolidityFunctionSelector { functions: vec![f], enclosing: id("Coin") };
    let text = selector.generate(&ident_expr("state"), &vec![String::new()]);
    assert_eq!(
        text,
        "if eq(state, 10000) { revert(0, 0)} \n switch Quartz$Selector() \ncase 0x70a08231 {  \n Quartz$CheckNoValue(callvalue()) \nQuartz$Return32Bytes(Coin$balanceOf(Quartz$DecodeAsAddress(0))) } \ndefault { \n revert(0, 0) \n}"
    );
}

#[test]
fn interfaces_declare_public_functions() {
    let public = declaration("transfer", vec![param("to", Type::Address), param("value", Type::Int)], Some(Type::Bool), true, true, false);
    assert_eq!(
        SolidityInterface::render_function(public),
        Some("function transfer(address _to, uint256 _value) external returns ( uint256 ret);".to_string())
    );
    let view = declaration("name", vec![], Some(Type::String), true, false, false);
    assert_eq!(
        SolidityInterface::render_function(view),
        Some("function name() view external returns ( bytes32 ret);".to_string())
    );
    let private = declaration("helper", vec![], None, false, false, false);
    assert_eq!(SolidityInterface::render_function(private), None);
    let interface = SolidityInterface {
        contract_identifier: id("Coin"),
        functions: vec![
            declaration("helper", vec![], None, false, false, false),
            declaration("mint", vec![param("amount", Type::Int)], None, true, true, false),
        ],
    };
    assert_eq!(interface.generate(), "interface _InterfaceCoin {  \n function mint(uint256 _amount) external; \n }");
}

#[test]
fn blocks_open_and_close() {
    let mut ctx = context(false);
    ctx.block_stack.push(flint_codegen::solidity::yul::YulBlock { statements: vec![] });
    let count = ctx.push_block();
    assert_eq!(count, 2);
    ctx.emit(YulStatement::Inline("x".to_string()));
    let block = ctx.with_new_block(count);
    assert_eq!(block.statements.len(), 1);
    assert_eq!(ctx.block_stack.len(), 1);
    ctx.push_block();
    let empty = ctx.pop_block();
    assert!(empty.statements.is_empty());
    assert_eq!(ctx.block_stack.len(), 1);
    let a = ctx.fresh_variable();
    let b = ctx.fresh_variable();
    assert_eq!(a, "$temp0");
    assert_eq!(b, "$temp1");
    assert_ne!(a, b);
}

#[test]
fn literal_hex_renders_as_written() {
    assert_eq!(YulExpression::Literal(YulLiteral::Hex("0x1".to_string())).to_string(), "0x1");
}
