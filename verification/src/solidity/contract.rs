//! The Solidity contract that wraps a Flint contract: its constructor, which
//! runs the initialiser in assembly, and its fallback function, which
//! dispatches calls to the contract's functions.

use vstd::prelude::*;
use crate::ast::{mangle, mangled};
use crate::text::{decimal, join, join_strings, texts, write_decimal};
use super::function::{has_any_protection, params_map_to_solidity, SolidityFunction};
use super::function_selector::{dispatcher_cases, dispatcher_text, SolidityFunctionSelector};
use super::runtime_function::{all_functions_text, SolidityRuntimeFunction};
use super::yul::{yul_expression_text, yul_renderable, YulExpression};

verus! {

/// The code that copies an initialiser argument of `size` words from the
/// end of the deployed code into memory and binds it to `name`.
pub open spec fn parameter_binding_text(name: Seq<char>, size: nat) -> Seq<char> {
    "codecopy(0x0), sub(codesize, "@ + decimal(size) + "), "@ + decimal(size * 32) + ") \n let "@ + name
        + " := mload(0)"@
}

/// The bindings of the initialiser's arguments, one per line.
pub open spec fn parameter_bindings(params: Seq<(String, u64)>) -> Seq<char> {
    join(Seq::new(params.len(), |i: int| parameter_binding_text(params[i].0@, params[i].1 as nat)), "\n"@)
}

/// The binding of the caller to the name that the contract behaviour gives
/// it, if it gives one.
pub open spec fn caller_binding_text(binding: Option<String>) -> Seq<char> {
    match binding {
        Some(b) => "let "@ + mangled(b@) + " := caller()\n"@,
        None => Seq::empty(),
    }
}

/// The Solidity constructor: in assembly it binds the initialiser's
/// arguments, runs the initialiser and defines the struct and runtime
/// functions that the initialiser may call.
pub open spec fn constructor_text(
    params: Seq<(String, u64)>,
    binding: Option<String>,
    body: Seq<char>,
    structs: Seq<char>,
    runtime: Seq<char>,
) -> Seq<char> {
    let init = "init() \n\n function init() { \n "@ + parameter_bindings(params) + " \n "@ + caller_binding_text(binding)
        + " "@ + body + " \n }"@;
    "constructor("@ + join(Seq::new(params.len(), |i: int| Seq::<char>::empty()), ", "@)
        + ") public { \n\n assembly { \n mstore(0x40, 0x60) \n\n "@ + init
        + " \n /////////////////////////////// \n //STRUCT FUNCTIONS \n  /////////////////////////////// \n "@
        + structs
        + " \n\n /////////////////////////////// \n //RUNTIME FUNCTIONS \n  /////////////////////////////// \n "@
        + runtime + " \n } \n }"@
}

/// The Solidity contract `name` with the given constructor, dispatcher,
/// user-defined functions, struct functions and runtime functions.
pub open spec fn contract_text(
    name: Seq<char>,
    constructor: Seq<char>,
    selector: Seq<char>,
    functions: Seq<char>,
    structs: Seq<char>,
    runtime: Seq<char>,
) -> Seq<char> {
    "pragma solidity ^0.5.12; \n contract "@ + name + " { \n\n "@ + constructor
        + " \n\n function () external payable { \n assembly { \n\n                    mstore(0x40, 0x60) \n\n /////////////////////////////// \n //SELECTOR \n  /////////////////////////////// \n "@
        + selector
        + " \n\n /////////////////////////////// \n //USER DEFINED FUNCTIONS \n  /////////////////////////////// \n "@
        + functions
        + " \n\n /////////////////////////////// \n //WRAPPER FUNCTIONS \n  /////////////////////////////// \n /////////////////////////////// \n //STRUCT FUNCTIONS \n  /////////////////////////////// \n "@
        + structs
        + " \n\n /////////////////////////////// \n //RUNTIME FUNCTIONS \n  /////////////////////////////// \n "@
        + runtime + " \n } \n } \n }"@
}

/// A contract to be emitted as Solidity, with what the environment and the
/// other generators give of it: its name, its functions with the code
/// generated for each, the code of its structs' functions, the public
/// initialiser's parameters (each the name it is bound to and the size of
/// its type in words), the caller binding of the behaviour that declares the
/// initialiser and the code generated for the initialiser's body.
pub struct SolidityContract {
    pub name: String,
    pub functions: Vec<SolidityFunction>,
    pub function_code: Vec<String>,
    pub structs: Vec<String>,
    pub init_parameters: Vec<(String, u64)>,
    pub caller_binding: Option<String>,
    pub body: String,
}

/// The Solidity contract, given the text of its dispatcher.
pub open spec fn solidity_contract_text(c: SolidityContract, selector: Seq<char>) -> Seq<char> {
    let structs = join(texts(c.structs@), "\n\n"@);
    let runtime = join(all_functions_text(), "\n\n"@);
    contract_text(
        c.name@,
        constructor_text(c.init_parameters@, c.caller_binding, c.body@, structs, runtime),
        selector,
        join(texts(c.function_code@), "\n"@),
        structs,
        runtime,
    )
}

fn parameter_binding(name: &str, size: u64) -> (res: String)
    requires
        size * 32 <= u64::MAX,
    ensures
        res@ == parameter_binding_text(name@, size as nat),
{
    let mut out = String::from_str("codecopy(0x0), sub(codesize, ");
    write_decimal(&mut out, size);
    out.append("), ");
    write_decimal(&mut out, size * 32);
    out.append(") \n let ");
    out.append(name);
    out.append(" := mload(0)");
    out
}

fn constructor_string(
    params: &Vec<(String, u64)>,
    binding: &Option<String>,
    body: &str,
    structs: &str,
    runtime: &str,
) -> (res: String)
    requires
        forall|i: int| 0 <= i < params@.len() ==> #[trigger] params@[i].1 * 32 <= u64::MAX,
    ensures
        res@ == constructor_text(params@, *binding, body@, structs@, runtime@),
{
    let mut bindings: Vec<String> = Vec::new();
    let mut blanks: Vec<String> = Vec::new();
    let mut i: usize = 0;
    while i < params.len()
        invariant
            i <= params@.len(),
            bindings@.len() == i,
            blanks@.len() == i,
            forall|j: int| 0 <= j < params@.len() ==> #[trigger] params@[j].1 * 32 <= u64::MAX,
            forall|j: int|
                0 <= j < i ==> #[trigger] bindings@[j]@ == parameter_binding_text(params@[j].0@, params@[j].1 as nat),
            forall|j: int| 0 <= j < i ==> #[trigger] blanks@[j]@ == Seq::<char>::empty(),
        decreases params@.len() - i,
    {
        bindings.push(parameter_binding(params[i].0.as_str(), params[i].1));
        blanks.push(String::new());
        i = i + 1;
    }
    assert(texts(bindings@) =~= Seq::new(
        params@.len(),
        |i: int| parameter_binding_text(params@[i].0@, params@[i].1 as nat),
    ));
    assert(texts(blanks@) =~= Seq::new(params@.len(), |i: int| Seq::<char>::empty()));
    let bindings = join_strings(&bindings, "\n");
    let blanks = join_strings(&blanks, ", ");
    let mut init = String::from_str("init() \n\n function init() { \n ");
    init.append(bindings.as_str());
    init.append(" \n ");
    if let Some(b) = binding {
        init.append("let ");
        let name = mangle(b.as_str());
        init.append(name.as_str());
        init.append(" := caller()\n");
    }
    init.append(" ");
    init.append(body);
    init.append(" \n }");
    let mut out = String::from_str("constructor(");
    out.append(blanks.as_str());
    out.append(") public { \n\n assembly { \n mstore(0x40, 0x60) \n\n ");
    out.append(init.as_str());
    out.append(" \n /////////////////////////////// \n //STRUCT FUNCTIONS \n  /////////////////////////////// \n ");
    out.append(structs);
    out.append(" \n\n /////////////////////////////// \n //RUNTIME FUNCTIONS \n  /////////////////////////////// \n ");
    out.append(runtime);
    out.append(" \n } \n }");
    out
}

impl SolidityContract {
    /// The Solidity contract: a constructor that binds the initialiser's
    /// arguments and runs it, and a fallback function that dispatches with
    /// `selector` (built over the contract's public functions, given the
    /// code that reads the contract's state and each function's caller
    /// check) and holds the functions' code, the struct functions and the
    /// runtime functions. A function with no `any` caller protection would
    /// need a wrapper, which this generator does not write; every function
    /// must have one.
    pub fn generate(&self, selector: &SolidityFunctionSelector, state: &YulExpression, caller_checks: &Vec<String>) -> (res:
        String)
        requires
            forall|i: int|
                0 <= i < self.functions@.len() ==> has_any_protection(
                    #[trigger] self.functions@[i].caller_protections@,
                ),
            forall|i: int| 0 <= i < self.init_parameters@.len() ==> #[trigger] self.init_parameters@[i].1 * 32 <= u64::MAX,
            yul_renderable(*state),
            caller_checks@.len() == selector.functions@.len(),
            forall|i: int|
                0 <= i < selector.functions@.len() ==> params_map_to_solidity(
                    #[trigger] selector.functions@[i].declaration.head.parameters@,
                ),
        ensures
            res@ == solidity_contract_text(
                *self,
                dispatcher_text(yul_expression_text(*state), dispatcher_cases(selector.functions@, caller_checks@)),
            ),
    {
        let functions = join_strings(&self.function_code, "\n");
        let selector_code = selector.generate(state, caller_checks);
        let structs = join_strings(&self.structs, "\n\n");
        let runtime = SolidityRuntimeFunction::get_all_functions();
        assert(texts(runtime@) =~= all_functions_text());
        let runtime = join_strings(&runtime, "\n\n");
        let constructor = constructor_string(
            &self.init_parameters,
            &self.caller_binding,
            self.body.as_str(),
            structs.as_str(),
            runtime.as_str(),
        );
        let mut out = String::from_str("pragma solidity ^0.5.12; \n contract ");
        out.append(self.name.as_str());
        out.append(" { \n\n ");
        out.append(constructor.as_str());
        out.append(
            " \n\n function () external payable { \n assembly { \n\n                    mstore(0x40, 0x60) \n\n /////////////////////////////// \n //SELECTOR \n  /////////////////////////////// \n ",
        );
        out.append(selector_code.as_str());
        out.append(" \n\n /////////////////////////////// \n //USER DEFINED FUNCTIONS \n  /////////////////////////////// \n ");
        out.append(functions.as_str());
        out.append(
            " \n\n /////////////////////////////// \n //WRAPPER FUNCTIONS \n  /////////////////////////////// \n /////////////////////////////// \n //STRUCT FUNCTIONS \n  /////////////////////////////// \n ",
        );
        out.append(structs.as_str());
        out.append(" \n\n /////////////////////////////// \n //RUNTIME FUNCTIONS \n  /////////////////////////////// \n ");
        out.append(runtime.as_str());
        out.append(" \n } \n } \n }");
        out
    }
}

} // verus!
