use flint_codegen::ast::{Identifier, LineInfo};
use flint_codegen::moveir::contract::{
    contract_constructor, generate_imports, get_dict_code, initialiser_and_publisher, MoveContract,
};
use flint_codegen::moveir::ir::{
    MoveIRAssignment, MoveIRExpression, MoveIROperation, MoveIRStatement, MoveIRTransfer,
};
use flint_codegen::moveir::runtime_function::MoveRuntimeFunction;
use flint_codegen::solidity::contract::SolidityContract;
use flint_codegen::solidity::function_selector::SolidityFunctionSelector;
use flint_codegen::solidity::runtime_function::SolidityRuntimeFunction;
use flint_codegen::solidity::yul::YulExpression;

fn dict_runtime(r_name: &str, r_type: &str) -> String {
    format!(
        "_get_{r_name}(_address_this: address): {r_type} acquires {r_name} {{
    let this: &mut Self.{r_name};
    let temp: &{r_type};
    let result: {r_type};
    this = borrow_global_mut<{r_name}>(move(_address_this));
    temp = &copy(this).value;
    result = *copy(temp);
    return move(result);
  }}

        _insert_{r_name}(_address_this: address, v: {r_type}, _contract_caller: &signer) acquires {r_name} {{
    let new_value: Self.{r_name};
    let cur: &mut Self.{r_name};
    let b: bool;
    b = exists<{r_name}>(copy(_address_this));
    if (move(b)) {{
      cur = borrow_global_mut<{r_name}>(move(_address_this));
      *(&mut move(cur).value) = move(v);
    }} else {{
       new_value = {r_name} {{
      value: move(v)
    }};
    move_to<{r_name}>(move(_contract_caller), move(new_value));
    }}
    return;
  }}",
        r_name = r_name,
        r_type = r_type
    )
}

fn move_of(name: &str) -> MoveIRExpression {
    MoveIRExpression::Transfer(MoveIRTransfer::Move(Box::new(MoveIRExpression::Identifier(
        name.to_string(),
    ))))
}

fn borrow(target: &str, local: &str) -> MoveIRStatement {
    MoveIRStatement::Expression(MoveIRExpression::Assignment(MoveIRAssignment {
        identifier: target.to_string(),
        expression: Box::new(MoveIRExpression::Operation(MoveIROperation::MutableReference(
            Box::new(MoveIRExpression::Identifier(local.to_string())),
        ))),
    }))
}

fn dereference_of(name: &str) -> MoveIRExpression {
    MoveIRExpression::Operation(MoveIROperation::Dereference(Box::new(move_of(name))))
}

#[test]
fn constructor_moves_each_property_local() {
    let c = contract_constructor(&vec!["a".to_string(), "b".to_string()], &vec![]);
    match c {
        MoveIRExpression::StructConstructor(s) => {
            assert_eq!(s.identifier.token, "T");
            assert_eq!(
                s.fields,
                vec![("a".to_string(), move_of("__this_a")), ("b".to_string(), move_of("__this_b"))]
            );
        }
        _ => panic!("not a constructor"),
    }
}

#[test]
fn constructor_dereferences_the_first_borrow_of_a_local() {
    let statements = vec![
        borrow("r1", "__this_b"),
        borrow("r2", "__this_b"),
        borrow("r3", "other"),
        MoveIRStatement::Expression(MoveIRExpression::Identifier("x".to_string())),
    ];
    let c = contract_constructor(&vec!["a".to_string(), "b".to_string()], &statements);
    match c {
        MoveIRExpression::StructConstructor(s) => {
            assert_eq!(
                s.fields,
                vec![("a".to_string(), move_of("__this_a")), ("b".to_string(), dereference_of("r1"))]
            );
        }
        _ => panic!("not a constructor"),
    }
}

#[test]
fn dictionaries_give_resources_and_accessors() {
    let dicts = vec![
        ("_dict_m".to_string(), "u64".to_string()),
        ("_dict_n".to_string(), "bool".to_string()),
    ];
    let (names, resources, runtime) = get_dict_code(&dicts);
    assert_eq!(names, "_dict_m, _dict_n");
    assert_eq!(resources, "resource _dict_m { \n value: u64 \n }\n\nresource _dict_n { \n value: bool \n }");
    assert_eq!(runtime, format!("{}\n\n{}", dict_runtime("_dict_m", "u64"), dict_runtime("_dict_n", "bool")));
}

#[test]
fn no_dictionaries_give_empty_code() {
    let (names, resources, runtime) = get_dict_code(&vec![]);
    assert_eq!(names, "");
    assert_eq!(resources, "");
    assert_eq!(runtime, "");
}

#[test]
fn imports_list_traits_with_an_address_then_the_runtime() {
    let traits = vec![
        ("Token".to_string(), Some("0x2".to_string())),
        ("Local".to_string(), None),
    ];
    assert_eq!(
        generate_imports(&traits),
        "import 0x2.Token;\nimport 0x1.Signer;\nimport 0x1.Vector;\nimport 0x1.LBR;\nimport 0x1.LibraAccount;"
    );
}

#[test]
fn initialiser_without_dictionaries_takes_no_account() {
    let params = vec![("a".to_string(), "u64".to_string()), ("b".to_string(), "bool".to_string())];
    let values = vec!["move(a)".to_string(), "move(b)".to_string()];
    let (init, publish) = initialiser_and_publisher(&params, &values, "&signer", "", "return T {};");
    assert_eq!(init, "new(a: u64, b: bool): Self.T { \nreturn T {};\n } \n");
    assert_eq!(
        publish,
        "public publish(a: u64, b: bool, account: &signer) { \n let t: Self.T; \nt = Self.new(move(a), move(b));\n move_to<T>(move(account), move(t)); \nreturn; \n }"
    );
}

#[test]
fn initialiser_with_dictionaries_acquires_them() {
    let params = vec![("a".to_string(), "u64".to_string())];
    let values = vec!["move(a)".to_string()];
    let (init, publish) = initialiser_and_publisher(&params, &values, "&signer", "_dict_m", "body");
    assert_eq!(init, "new(a: u64, account: &signer): Self.T acquires _dict_m { \nbody\n } \n");
    assert_eq!(
        publish,
        "public publish(a: u64, account: &signer) acquires _dict_m { \n let t: Self.T; \nt = Self.new(move(a), copy(account));\n move_to<T>(move(account), move(t)); \nreturn; \n }"
    );
    let (_, publish) = initialiser_and_publisher(&vec![], &vec![], "&signer", "_dict_m", "body");
    assert_eq!(
        publish,
        "public publish(account: &signer) acquires _dict_m { \n let t: Self.T; \nt = Self.new(copy(account));\n move_to<T>(move(account), move(t)); \nreturn; \n }"
    );
}

#[test]
fn move_contract_module() {
    let contract = MoveContract {
        name: "Counter".to_string(),
        members: vec!["value: u64".to_string(), "owner: address".to_string()],
        dictionaries: vec![("_dict_m".to_string(), "u64".to_string())],
        assets: vec![],
        asset_functions: vec![],
        structs: vec!["struct S { x: u64 }".to_string()],
        struct_functions: vec!["S_init() {}".to_string()],
        functions: vec!["public f() {}".to_string(), "public g() {}".to_string()],
        external_traits: vec![],
        parameters: vec![("v".to_string(), "u64".to_string())],
        parameter_values: vec!["move(v)".to_string()],
        body: "return T {};".to_string(),
        signer_type: "&signer".to_string(),
    };
    let imports = "import 0x1.Signer;\nimport 0x1.Vector;\nimport 0x1.LBR;\nimport 0x1.LibraAccount;";
    let init = "new(v: u64, account: &signer): Self.T acquires _dict_m { \nreturn T {};\n } \n";
    let publish = "public publish(v: u64, account: &signer) acquires _dict_m { \n let t: Self.T; \nt = Self.new(move(v), copy(account));\n move_to<T>(move(account), move(t)); \nreturn; \n }";
    let expected = format!("module {name} {{ \n  {imports} \n resource T {{ \n {members} \n }} {dict_resources} \n {assets}  \n {structs} \n {init} \n {publish}\n {asset_functions} \n \n {struct_functions} \n {functions} \n {runtime} \n {dict_runtime} }}",
        name = "Counter",
        imports = imports,
        members = "value: u64,\nowner: address",
        dict_resources = "resource _dict_m { \n value: u64 \n }",
        assets = "",
        structs = "struct S { x: u64 }",
        init = init,
        publish = publish,
        asset_functions = "",
        struct_functions = "S_init() {}",
        functions = "public f() {}\n\npublic g() {}",
        runtime = MoveRuntimeFunction::get_all_functions().join("\n\n"),
        dict_runtime = dict_runtime("_dict_m", "u64"),
    );
    assert_eq!(contract.generate(), expected);
}

#[test]
fn solidity_contract_text() {
    let contract = SolidityContract {
        name: "Counter".to_string(),
        functions: vec![],
        function_code: vec!["function f() {}".to_string()],
        structs: vec![],
        init_parameters: vec![("_a".to_string(), 1), ("_b".to_string(), 2)],
        caller_binding: Some("caller".to_string()),
        body: "sstore(0, _a)".to_string(),
    };
    let selector = SolidityFunctionSelector {
        functions: vec![],
        enclosing: Identifier {
            token: "Counter".to_string(),
            enclosing_type: None,
            line_info: LineInfo::default(),
        },
    };
    let state = YulExpression::Identifier("state".to_string());
    let dispatcher = selector.generate(&state, &vec![]);
    let runtime = SolidityRuntimeFunction::get_all_functions().join("\n\n");
    let public_initialiser = format!(
        "init() \n\n function init() {{ \n {params} \n {body} \n }}",
        params = "codecopy(0x0), sub(codesize, 1), 32) \n let _a := mload(0)\ncodecopy(0x0), sub(codesize, 2), 64) \n let _b := mload(0)",
        body = "let _caller := caller()\n sstore(0, _a)"
    );
    let constructor = format!(
        "constructor({params}) public {{ \n\n assembly {{ \n mstore(0x40, 0x60) \n\n {init} \n /////////////////////////////// \n //STRUCT FUNCTIONS \n  /////////////////////////////// \n {structs} \n\n /////////////////////////////// \n //RUNTIME FUNCTIONS \n  /////////////////////////////// \n {runtime} \n }} \n }}",
        params = ", ",
        init = public_initialiser,
        structs = "",
        runtime = runtime
    );
    let expected = format!(
        "pragma solidity ^0.5.12; \n contract {name} {{ \n\n {init} \n\n function () external payable {{ \n assembly {{ \n\n                    mstore(0x40, 0x60) \n\n /////////////////////////////// \n //SELECTOR \n  /////////////////////////////// \n {selector} \n\n /////////////////////////////// \n //USER DEFINED FUNCTIONS \n  /////////////////////////////// \n {functions} \n\n /////////////////////////////// \n //WRAPPER FUNCTIONS \n  /////////////////////////////// \n /////////////////////////////// \n //STRUCT FUNCTIONS \n  /////////////////////////////// \n {structs} \n\n /////////////////////////////// \n //RUNTIME FUNCTIONS \n  /////////////////////////////// \n {runtime} \n }} \n }} \n }}",
        name = "Counter",
        init = constructor,
        functions = "function f() {}",
        structs = "",
        runtime = runtime,
        selector = dispatcher
    );
    assert_eq!(contract.generate(&selector, &state, &vec![]), expected);
}
