//! Lowering of calls to functions of other contracts into Yul: the call's
//! input is laid out in memory (the function selector, then one word per
//! argument), the contract is called, and its one-word output is loaded.

use vstd::prelude::*;
use vstd::string::StrSliceExecFns;
use crate::ast::{Expression, ExternalCall, Type};
use crate::text::decimal;
use super::function::{same_settings, FunctionContext};
use super::runtime_function::{is_runtime_call, SolidityRuntimeFunction};
use super::yul::{YulAssignment, YulExpression, YulFunctionCall, YulLiteral, YulStatement, YulType, YulVariableDeclaration};

verus! {

/// `e` is the name `n`.
pub open spec fn names(e: YulExpression, n: Seq<char>) -> bool {
    e matches YulExpression::Identifier(s) && s@ == n
}

/// `e` is the number `v`.
pub open spec fn is_num(e: YulExpression, v: u64) -> bool {
    e == YulExpression::Literal(YulLiteral::Num(v))
}

/// `s` declares `n`, of any type, with an initial value of which `init` holds.
pub open spec fn declares_yul(s: YulStatement, n: Seq<char>, init: spec_fn(YulExpression) -> bool) -> bool {
    &&& s matches YulStatement::Expression(YulExpression::VariableDeclaration(v))
    &&& v.declaration@ == n
    &&& v.declaration_type is Any
    &&& v.expression matches Some(x)
    &&& init(*x)
}

/// `e` is the address `k` bytes into the memory named `input`: the name
/// itself for 0, else `add(input, k)`.
pub open spec fn address_in(e: YulExpression, input: Seq<char>, k: u64) -> bool {
    if k == 0 {
        names(e, input)
    } else {
        &&& e matches YulExpression::FunctionCall(fc)
        &&& fc.name@ == "add"@
        &&& fc.arguments@.len() == 2
        &&& names(fc.arguments@[0], input)
        &&& is_num(fc.arguments@[1], k)
    }
}

/// `s` stores the byte written in hexadecimal as `hex` at `k` bytes into `input`.
pub open spec fn stores_byte(s: YulStatement, input: Seq<char>, k: u64, hex: Seq<char>) -> bool {
    &&& s matches YulStatement::Expression(YulExpression::FunctionCall(fc))
    &&& fc.name@ == "mstore8"@
    &&& fc.arguments@.len() == 2
    &&& address_in(fc.arguments@[0], input, k)
    &&& fc.arguments@[1] matches YulExpression::Literal(YulLiteral::Hex(h))
    &&& h@ == "0x"@ + hex
}

/// `s` stores the word `value` at `k` bytes into `input`.
pub open spec fn stores_word(s: YulStatement, input: Seq<char>, k: u64, value: YulExpression) -> bool {
    &&& s matches YulStatement::Expression(YulExpression::FunctionCall(fc))
    &&& fc.name@ == "mstore"@
    &&& fc.arguments@.len() == 2
    &&& address_in(fc.arguments@[0], input, k)
    &&& fc.arguments@[1] == value
}

/// `e` calls the contract at `address` with 2300 gas and no value, the
/// input `input` of `input_size` bytes and the output `output` of one word.
pub open spec fn is_contract_call(e: YulExpression, address: YulExpression, input: Seq<char>, input_size: u64, output: Seq<char>) -> bool {
    &&& e matches YulExpression::FunctionCall(fc)
    &&& fc.name@ == "call"@
    &&& fc.arguments@.len() == 7
    &&& is_num(fc.arguments@[0], 2300)
    &&& fc.arguments@[1] == address
    &&& is_num(fc.arguments@[2], 0)
    &&& names(fc.arguments@[3], input)
    &&& is_num(fc.arguments@[4], input_size)
    &&& names(fc.arguments@[5], output)
    &&& is_num(fc.arguments@[6], 32)
}

/// `s` loads the word at `output` into `output`.
pub open spec fn loads_output(s: YulStatement, output: Seq<char>) -> bool {
    &&& s matches YulStatement::Expression(YulExpression::Assignment(a))
    &&& a.identifiers@.len() == 1
    &&& a.identifiers@[0]@ == output
    &&& *a.expression matches YulExpression::FunctionCall(fc)
    &&& fc.name@ == "mload"@
    &&& fc.arguments@.len() == 1
    &&& names(fc.arguments@[0], output)
}

/// The name of the temporary variable numbered `c`.
pub open spec fn temp_name(c: u64) -> Seq<char> {
    "$temp"@ + decimal(c as nat)
}

/// `code` is the Yul that performs an external call, with `c` the first of
/// the three temporaries it uses (the input, the success flag, the output):
/// allocate the input; store the four bytes of `selector`; store `slots`, a
/// word each, after them; allocate the output; make the call; load the output.
pub open spec fn is_external_call_code(
    code: Seq<YulStatement>,
    c: u64,
    selector: Seq<char>,
    address: YulExpression,
    slots: Seq<YulExpression>,
    input_size: u64,
) -> bool {
    let input = temp_name(c);
    let success = temp_name((c + 1) as u64);
    let output = temp_name((c + 2) as u64);
    let n = slots.len() as int;
    &&& code.len() == 8 + n
    &&& declares_yul(
        code[0],
        input,
        |e: YulExpression| is_runtime_call(e, SolidityRuntimeFunction::AllocateMemory, seq![YulExpression::Literal(YulLiteral::Num(input_size))]),
    )
    &&& forall|b: int| 0 <= b < 4 ==> stores_byte(#[trigger] code[1 + b], input, b as u64, selector.subrange(2 * b, 2 * b + 2))
    &&& forall|k: int| 0 <= k < n ==> stores_word(#[trigger] code[5 + k], input, (4 + 32 * k) as u64, slots[k])
    &&& declares_yul(
        code[5 + n],
        output,
        |e: YulExpression| is_runtime_call(e, SolidityRuntimeFunction::AllocateMemory, seq![YulExpression::Literal(YulLiteral::Num(32))]),
    )
    &&& declares_yul(code[6 + n], success, |e: YulExpression| is_contract_call(e, address, input, input_size, output))
    &&& loads_output(code[7 + n], output)
}

/// A call of a function of another contract.
pub struct SolidityExternalCall {
    pub call: ExternalCall,
}

/// Emits the statements into the innermost open block, in order.
fn emit_all(context: &mut FunctionContext, statements: Vec<YulStatement>)
    requires
        old(context).block_stack@.len() > 0,
    ensures
        same_settings(*final(context), *old(context)),
        final(context).block_stack@.len() == old(context).block_stack@.len(),
        forall|i: int|
            0 <= i < old(context).block_stack@.len() - 1 ==> #[trigger] final(context).block_stack@[i]
                == old(context).block_stack@[i],
        final(context).block_stack@.last().statements@ == old(context).block_stack@.last().statements@
            + statements@,
{
    let ghost start = *context;
    let ghost all = statements@;
    let total = statements.len();
    let mut rest = statements;
    let mut i: usize = 0;
    while rest.len() > 0
        invariant
            total == all.len(),
            i + rest@.len() == all.len(),
            rest@ == all.skip(i as int),
            context.block_stack@.len() == start.block_stack@.len(),
            start.block_stack@.len() > 0,
            same_settings(*context, start),
            forall|j: int|
                0 <= j < start.block_stack@.len() - 1 ==> #[trigger] context.block_stack@[j] == start.block_stack@[j],
            context.block_stack@.last().statements@ == start.block_stack@.last().statements@ + all.take(i as int),
        decreases rest@.len(),
    {
        let st = rest.remove(0);
        assert(st == all[i as int]);
        context.emit(st);
        assert(all.take(i as int + 1) =~= all.take(i as int).push(all[i as int]));
        assert(rest@ =~= all.skip(i as int + 1));
        i = i + 1;
    }
    assert(all.take(i as int) =~= all);
}

/// The name `n` as an expression.
fn name_of(n: &String) -> (res: YulExpression)
    ensures
        names(res, n@),
{
    YulExpression::Identifier(n.clone())
}

/// The address `k` bytes into the memory named `input`.
fn address_of(input: &String, k: u64) -> (res: YulExpression)
    ensures
        address_in(res, input@, k),
{
    proof {
        reveal_strlit("add");
    }
    if k == 0 {
        name_of(input)
    } else {
        YulExpression::FunctionCall(
            YulFunctionCall {
                name: String::from_str("add"),
                arguments: vec![name_of(input), YulExpression::Literal(YulLiteral::Num(k))],
            },
        )
    }
}

/// A declaration of `n`, of any type, with the initial value `init`.
fn declaration_of(n: &String, init: YulExpression) -> (res: YulStatement)
    ensures
        res matches YulStatement::Expression(YulExpression::VariableDeclaration(v)) && v.declaration@ == n@
            && v.declaration_type is Any && v.expression == Some(Box::new(init)),
{
    YulStatement::Expression(
        YulExpression::VariableDeclaration(
            YulVariableDeclaration { declaration: n.clone(), declaration_type: YulType::Any, expression: Some(Box::new(init)) },
        ),
    )
}

impl SolidityExternalCall {
    /// Lowers the call. What the declarations of the called contract say is
    /// handed in: `function_selector`, the hexadecimal selector of the called
    /// function; `parameter_types`, the types of its parameters; and the code
    /// of the contract's address and of the arguments that have a parameter.
    /// Emits the call's code (see `is_external_call_code`) into the innermost
    /// open block, using three fresh temporaries, and returns the name of the
    /// call's output.
    pub fn generate(
        &self,
        function_selector: &str,
        parameter_types: &Vec<Type>,
        address_expression: YulExpression,
        arguments: Vec<YulExpression>,
        function_context: &mut FunctionContext,
    ) -> (res: YulExpression)
        requires
            *self.call.function_call.rhs_expression is FunctionCall,
            forall|k: int| 0 <= k < parameter_types@.len() ==> #[trigger] parameter_types@[k] is Solidity,
            arguments@.len() == (if parameter_types@.len() <= (*self.call.function_call.rhs_expression)->FunctionCall_0.arguments@.len() {
                parameter_types@.len()
            } else {
                (*self.call.function_call.rhs_expression)->FunctionCall_0.arguments@.len()
            }),
            function_selector@.len() >= 8,
            4 + 32 * parameter_types@.len() <= u64::MAX,
            old(function_context).block_stack@.len() > 0,
            old(function_context).counter + 3 <= u64::MAX,
        ensures
            final(function_context).counter == old(function_context).counter + 3,
            final(function_context).scope_context == old(function_context).scope_context,
            final(function_context).in_struct_function == old(function_context).in_struct_function,
            final(function_context).enclosing_type == old(function_context).enclosing_type,
            final(function_context).block_stack@.len() == old(function_context).block_stack@.len(),
            forall|i: int|
                0 <= i < old(function_context).block_stack@.len() - 1 ==> #[trigger] final(function_context).block_stack@[i]
                    == old(function_context).block_stack@[i],
            final(function_context).block_stack@.last().statements@.take(
                old(function_context).block_stack@.last().statements@.len() as int,
            ) == old(function_context).block_stack@.last().statements@,
            is_external_call_code(
                final(function_context).block_stack@.last().statements@.skip(
                    old(function_context).block_stack@.last().statements@.len() as int,
                ),
                old(function_context).counter,
                function_selector@,
                address_expression,
                arguments@,
                (4 + 32 * parameter_types@.len()) as u64,
            ),
            names(res, temp_name((old(function_context).counter + 2) as u64)),
    {
        proof {
            reveal_strlit("0x");
            reveal_strlit("mstore8");
            reveal_strlit("mstore");
            reveal_strlit("call");
            reveal_strlit("mload");
            reveal_strlit("add");
        }
        let ghost c = function_context.counter;
        let ghost args = arguments@;
        let n = parameter_types.len();
        let input_size: u64 = 4 + 32 * (n as u64);
        let call_input = function_context.fresh_variable();
        let call_success = function_context.fresh_variable();
        let call_output = function_context.fresh_variable();
        let mut code: Vec<YulStatement> = Vec::new();
        code.push(declaration_of(&call_input, SolidityRuntimeFunction::allocate_memory(input_size)));
        let mut b: usize = 0;
        while b < 4
            invariant
                b <= 4,
                function_selector@.len() >= 8,
                call_input@ == temp_name(c),
                code@.len() == 1 + b,
                declares_yul(
                    code@[0],
                    call_input@,
                    |e: YulExpression| is_runtime_call(e, SolidityRuntimeFunction::AllocateMemory, seq![YulExpression::Literal(YulLiteral::Num(input_size))]),
                ),
                forall|j: int|
                    0 <= j < b ==> stores_byte(#[trigger] code@[1 + j], call_input@, j as u64, function_selector@.subrange(2 * j, 2 * j + 2)),
            decreases 4 - b,
        {
            let mut hex = String::from_str("0x");
            hex.append(function_selector.substring_char(2 * b, 2 * b + 2));
            let target = address_of(&call_input, b as u64);
            code.push(
                YulStatement::Expression(
                    YulExpression::FunctionCall(
                        YulFunctionCall {
                            name: String::from_str("mstore8"),
                            arguments: vec![target, YulExpression::Literal(YulLiteral::Hex(hex))],
                        },
                    ),
                ),
            );
            b = b + 1;
        }
        let mut rest = arguments;
        let mut k: usize = 0;
        let mut position: u64 = 4;
        while rest.len() > 0
            invariant
                args.len() <= n,
                4 + 32 * n <= u64::MAX,
                k + rest@.len() == args.len(),
                rest@ == args.skip(k as int),
                position == 4 + 32 * k,
                call_input@ == temp_name(c),
                code@.len() == 5 + k,
                declares_yul(
                    code@[0],
                    call_input@,
                    |e: YulExpression| is_runtime_call(e, SolidityRuntimeFunction::AllocateMemory, seq![YulExpression::Literal(YulLiteral::Num(input_size))]),
                ),
                forall|j: int|
                    0 <= j < 4 ==> stores_byte(#[trigger] code@[1 + j], call_input@, j as u64, function_selector@.subrange(2 * j, 2 * j + 2)),
                forall|j: int| 0 <= j < k ==> stores_word(#[trigger] code@[5 + j], call_input@, (4 + 32 * j) as u64, args[j]),
            decreases rest@.len(),
        {
            let slot = rest.remove(0);
            assert(slot == args[k as int]);
            let target = address_of(&call_input, position);
            code.push(
                YulStatement::Expression(
                    YulExpression::FunctionCall(
                        YulFunctionCall { name: String::from_str("mstore"), arguments: vec![target, slot] },
                    ),
                ),
            );
            assert(rest@ =~= args.skip(k as int + 1));
            k = k + 1;
            position = position + 32;
        }
        code.push(declaration_of(&call_output, SolidityRuntimeFunction::allocate_memory(32)));
        let call = YulExpression::FunctionCall(
            YulFunctionCall {
                name: String::from_str("call"),
                arguments: vec![
                    YulExpression::Literal(YulLiteral::Num(2300)),
                    address_expression,
                    YulExpression::Literal(YulLiteral::Num(0)),
                    name_of(&call_input),
                    YulExpression::Literal(YulLiteral::Num(input_size)),
                    name_of(&call_output),
                    YulExpression::Literal(YulLiteral::Num(32)),
                ],
            },
        );
        code.push(declaration_of(&call_success, call));
        code.push(
            YulStatement::Expression(
                YulExpression::Assignment(
                    YulAssignment {
                        identifiers: vec![call_output.clone()],
                        expression: Box::new(
                            YulExpression::FunctionCall(
                                YulFunctionCall { name: String::from_str("mload"), arguments: vec![name_of(&call_output)] },
                            ),
                        ),
                    },
                ),
            ),
        );
        let ghost old_last = function_context.block_stack@.last().statements@;
        let ghost emitted = code@;
        assert(is_external_call_code(emitted, c, function_selector@, address_expression, args, input_size));
        emit_all(function_context, code);
        proof {
            assert(function_context.block_stack@.last().statements@.take(old_last.len() as int) =~= old_last);
            assert(function_context.block_stack@.last().statements@.skip(old_last.len() as int) =~= emitted);
        }
        name_of(&call_output)
    }
}

} // verus!
