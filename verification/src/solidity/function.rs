//! The state of Yul code generation inside one function: a stack of open
//! blocks that statements are emitted into, and a counter for fresh names.

use vstd::prelude::*;
use crate::ast::{CallerProtection, FunctionDeclaration, Identifier, Parameter, ScopeContext};
use crate::text::{decimal, join, lemma_decimal_injective, lemma_join_push, write_decimal};
use super::ir_type::{maps_to_solidity, solidity_type, solidity_type_name, SolidityIRType};
use super::yul::{write_yul_statements, yul_block_renderable, yul_statements_text, YulBlock, YulStatement};

verus! {

/// The state of code generation inside one function.
#[derive(Debug)]
pub struct FunctionContext {
    pub scope_context: ScopeContext,
    pub in_struct_function: bool,
    pub block_stack: Vec<YulBlock>,
    pub enclosing_type: String,
    pub counter: u64,
}

/// Whether two contexts agree on everything but their block stacks.
pub open spec fn same_settings(a: FunctionContext, b: FunctionContext) -> bool {
    &&& a.scope_context == b.scope_context
    &&& a.in_struct_function == b.in_struct_function
    &&& a.enclosing_type == b.enclosing_type
    &&& a.counter == b.counter
}

/// `b` is the block at position `i` of `stack` with every later block of the
/// stack nested into it: each block gets the next one, itself so nested, as
/// its last statement.
pub open spec fn nested(stack: Seq<YulBlock>, i: int, b: YulBlock) -> bool
    decreases stack.len() - i,
{
    if i < 0 || i >= stack.len() {
        false
    } else if i == stack.len() - 1 {
        b == stack[i]
    } else {
        &&& b.statements@.len() > 0
        &&& b.statements@.drop_last() == stack[i].statements@
        &&& b.statements@.last() matches YulStatement::Block(inner)
        &&& nested(stack, i + 1, inner)
    }
}

/// `after` is `before` with one more block open, an empty one.
pub open spec fn opened_block(before: FunctionContext, after: FunctionContext) -> bool {
    &&& same_settings(after, before)
    &&& after.block_stack@.len() == before.block_stack@.len() + 1
    &&& after.block_stack@.drop_last() == before.block_stack@
    &&& after.block_stack@.last().statements@.len() == 0
}

/// `after` is `before` with `statement` appended to its innermost open block.
pub open spec fn emitted(before: FunctionContext, after: FunctionContext, statement: YulStatement) -> bool {
    &&& same_settings(after, before)
    &&& after.block_stack@.len() == before.block_stack@.len()
    &&& forall|i: int|
        0 <= i < before.block_stack@.len() - 1 ==> #[trigger] after.block_stack@[i] == before.block_stack@[i]
    &&& after.block_stack@.last().statements@ == before.block_stack@.last().statements@.push(statement)
}

/// `after` is `before` with its innermost open block, `block`, closed.
pub open spec fn closed_block(before: FunctionContext, after: FunctionContext, block: YulBlock) -> bool {
    &&& same_settings(after, before)
    &&& block == before.block_stack@.last()
    &&& after.block_stack@ == before.block_stack@.drop_last()
}

/// `after` is `before` with the blocks from position `count - 1` on closed,
/// each nested into the one below, and `block` the outermost of them.
pub open spec fn closed_blocks_from(before: FunctionContext, after: FunctionContext, count: int, block: YulBlock) -> bool {
    &&& same_settings(after, before)
    &&& after.block_stack@ == before.block_stack@.subrange(0, count - 1)
    &&& nested(before.block_stack@, count - 1, block)
}

/// Opening a block and closing it again gives back an empty block and
/// leaves the open blocks as they were.
pub proof fn law_open_then_close(before: FunctionContext, opened: FunctionContext, after: FunctionContext, block: YulBlock)
    requires
        opened_block(before, opened),
        closed_block(opened, after, block),
    ensures
        same_settings(after, before),
        after.block_stack@ == before.block_stack@,
        block.statements@.len() == 0,
{
}

/// Closing the innermost block right after emitting a statement gives back
/// that block with the statement last, and the blocks below it unchanged.
pub proof fn law_emit_then_close(before: FunctionContext, filled: FunctionContext, after: FunctionContext, statement: YulStatement, block: YulBlock)
    requires
        before.block_stack@.len() > 0,
        emitted(before, filled, statement),
        closed_block(filled, after, block),
    ensures
        same_settings(after, before),
        block.statements@ == before.block_stack@.last().statements@.push(statement),
        after.block_stack@ == before.block_stack@.drop_last(),
{
    assert(after.block_stack@ =~= before.block_stack@.drop_last());
}

/// A statement emitted into a freshly opened block comes back alone when the
/// blocks are closed from that one on, and the open blocks are those from
/// before.
pub proof fn law_new_block_collects(before: FunctionContext, opened: FunctionContext, filled: FunctionContext, after: FunctionContext, statement: YulStatement, block: YulBlock)
    requires
        opened_block(before, opened),
        emitted(opened, filled, statement),
        closed_blocks_from(filled, after, opened.block_stack@.len() as int, block),
    ensures
        same_settings(after, before),
        after.block_stack@ == before.block_stack@,
        block.statements@ == seq![statement],
{
    assert(block == filled.block_stack@.last());
    assert(block.statements@ =~= seq![statement]);
    assert(after.block_stack@ =~= before.block_stack@);
}

/// Temporary names are fresh: different counter values give different names.
pub proof fn law_fresh_variables_differ(a: u64, b: u64)
    requires
        a != b,
    ensures
        "$temp"@ + decimal(a as nat) != "$temp"@ + decimal(b as nat),
{
    if "$temp"@ + decimal(a as nat) == "$temp"@ + decimal(b as nat) {
        let p = "$temp"@;
        assert(decimal(a as nat) =~= (p + decimal(a as nat)).skip(p.len() as int));
        assert(decimal(b as nat) =~= (p + decimal(b as nat)).skip(p.len() as int));
        lemma_decimal_injective(a as nat, b as nat);
    }
}

impl FunctionContext {
    /// Appends a statement to the innermost open block.
    pub fn emit(&mut self, statement: YulStatement)
        requires
            old(self).block_stack@.len() > 0,
        ensures
            emitted(*old(self), *final(self), statement),
    {
        let mut block = self.block_stack.pop().unwrap();
        block.statements.push(statement);
        self.block_stack.push(block);
    }

    /// Opens a new empty block; returns the number of open blocks.
    pub fn push_block(&mut self) -> (res: usize)
        ensures
            opened_block(*old(self), *final(self)),
            res == final(self).block_stack@.len(),
    {
        self.block_stack.push(YulBlock { statements: Vec::new() });
        proof {
            assert(self.block_stack@.drop_last() =~= old(self).block_stack@);
        }
        self.block_stack.len()
    }

    /// Closes the innermost block and returns it.
    pub fn pop_block(&mut self) -> (res: YulBlock)
        requires
            old(self).block_stack@.len() > 0,
        ensures
            closed_block(*old(self), *final(self), res),
    {
        self.block_stack.pop().unwrap()
    }

    /// Closes the blocks above the first `count` ones, each nested as a block
    /// statement into the one below, then closes block `count` itself and
    /// returns it.
    pub fn with_new_block(&mut self, count: usize) -> (res: YulBlock)
        requires
            1 <= count <= old(self).block_stack@.len(),
        ensures
            closed_blocks_from(*old(self), *final(self), count as int, res),
    {
        let ghost stack = self.block_stack@;
        while self.block_stack.len() != count
            invariant
                same_settings(*self, *old(self)),
                stack == old(self).block_stack@,
                1 <= count <= self.block_stack@.len() <= stack.len(),
                forall|i: int|
                    0 <= i < self.block_stack@.len() - 1 ==> #[trigger] self.block_stack@[i]
                        == stack[i],
                nested(stack, self.block_stack@.len() - 1, self.block_stack@.last()),
            decreases self.block_stack@.len(),
        {
            let ghost top = self.block_stack@.len() - 1;
            let block = self.pop_block();
            let ghost inner = block;
            self.emit(YulStatement::Block(block));
            proof {
                let b = self.block_stack@.last();
                assert(b.statements@.drop_last() =~= stack[top - 1].statements@);
                assert(b.statements@.last() == YulStatement::Block(inner));
            }
        }
        let res = self.pop_block();
        proof {
            assert(self.block_stack@ =~= stack.subrange(0, count - 1));
        }
        res
    }

    /// The code of the innermost open block: its statements one per line
    /// (nothing when no block is open).
    pub fn generate(&self) -> (res: String)
        requires
            self.block_stack@.len() > 0 ==> yul_block_renderable(self.block_stack@.last()),
        ensures
            self.block_stack@.len() == 0 ==> res@ == Seq::<char>::empty(),
            self.block_stack@.len() > 0 ==> res@ == yul_statements_text(
                self.block_stack@.last().statements@,
            ),
    {
        let mut out = String::new();
        let n = self.block_stack.len();
        if n > 0 {
            write_yul_statements(&self.block_stack[n - 1].statements, &mut out);
        }
        out
    }

    /// A fresh name for a temporary variable: `$temp` and the counter, which
    /// goes up by one.
    pub fn fresh_variable(&mut self) -> (res: String)
        requires
            old(self).counter < u64::MAX,
        ensures
            res@ == "$temp"@ + decimal(old(self).counter as nat),
            final(self).counter == old(self).counter + 1,
            final(self).block_stack == old(self).block_stack,
            final(self).scope_context == old(self).scope_context,
            final(self).in_struct_function == old(self).in_struct_function,
            final(self).enclosing_type == old(self).enclosing_type,
    {
        let mut name = String::from_str("$temp");
        write_decimal(&mut name, self.counter);
        self.counter = self.counter + 1;
        name
    }

}

/// Two successive calls of `fresh_variable` on the same context, the first
/// taking it from `before` to `middle` and the second from `middle` to
/// `after`, never return the same name, and the counter only goes up.
pub proof fn law_successive_fresh_names_differ(
    before: FunctionContext,
    middle: FunctionContext,
    after: FunctionContext,
    first: Seq<char>,
    second: Seq<char>,
)
    requires
        first == "$temp"@ + decimal(before.counter as nat),
        middle.counter == before.counter + 1,
        second == "$temp"@ + decimal(middle.counter as nat),
        after.counter == middle.counter + 1,
    ensures
        first != second,
        after.counter > before.counter,
{
    law_fresh_variables_differ(before.counter, middle.counter);
}

/// A function of a contract or struct, together with the caller
/// protections of the block that declares it.
pub struct SolidityFunction {
    pub declaration: FunctionDeclaration,
    pub identifier: Identifier,
    pub caller_binding: Option<Identifier>,
    pub caller_protections: Vec<CallerProtection>,
    pub is_contract_function: bool,
}

/// Whether one of the protections is `any`.
pub open spec fn has_any_protection(protections: Seq<CallerProtection>) -> bool {
    exists|i: int| 0 <= i < protections.len() && (#[trigger] protections[i]).identifier.token@ == "any"@
}

/// Whether every parameter has a Solidity type.
pub open spec fn params_map_to_solidity(params: Seq<Parameter>) -> bool {
    forall|i: int| 0 <= i < params.len() ==> maps_to_solidity(#[trigger] params[i].type_assignment)
}

/// The Solidity type names of the parameters, in order.
pub open spec fn param_type_names(params: Seq<Parameter>) -> Seq<Seq<char>> {
    params.map_values(|p: Parameter| solidity_type_name(solidity_type(p.type_assignment)))
}

/// The signature a function is selected by: its name and the Solidity types
/// of its parameters, comma-separated in parentheses.
pub open spec fn signature_text(name: Seq<char>, params: Seq<Parameter>) -> Seq<char> {
    name + "("@ + join(param_type_names(params), ","@) + ")"@
}

impl SolidityFunction {
    /// Whether one of the function's caller protections is `any`.
    pub fn has_any_caller(&self) -> (res: bool)
        ensures
            res == has_any_protection(self.caller_protections@),
    {
        let mut i: usize = 0;
        while i < self.caller_protections.len()
            invariant
                i <= self.caller_protections@.len(),
                forall|j: int| 0 <= j < i ==> (#[trigger] self.caller_protections@[j]).identifier.token@ != "any"@,
            decreases self.caller_protections@.len() - i,
        {
            if self.caller_protections[i].is_any() {
                return true;
            }
            i = i + 1;
        }
        false
    }

    /// The signature the function is selected by, such as `transfer(address,uint256)`.
    pub fn mangled_signature(&self) -> (res: String)
        requires
            params_map_to_solidity(self.declaration.head.parameters@),
        ensures
            res@ == signature_text(self.declaration.head.identifier.token@, self.declaration.head.parameters@),
    {
        let params = &self.declaration.head.parameters;
        let ghost names = param_type_names(params@);
        let mut res = self.declaration.head.identifier.token.clone();
        res.append("(");
        let ghost start = res@;
        let mut i: usize = 0;
        while i < params.len()
            invariant
                i <= params@.len(),
                names == param_type_names(params@),
                params_map_to_solidity(params@),
                res@ == start + join(names.subrange(0, i as int), ","@),
            decreases params@.len() - i,
        {
            proof {
                assert(names.subrange(0, i as int + 1) =~= names.subrange(0, i as int).push(names[i as int]));
                lemma_join_push(names.subrange(0, i as int), ","@, names[i as int]);
            }
            if i > 0 {
                res.append(",");
            }
            let t = SolidityIRType::map_to_solidity_type(params[i].type_assignment.deep_clone());
            let name = t.generate();
            res.append(name.as_str());
            i = i + 1;
        }
        proof {
            assert(names.subrange(0, params@.len() as int) =~= names);
        }
        res.append(")");
        res
    }
}

} // verus!
