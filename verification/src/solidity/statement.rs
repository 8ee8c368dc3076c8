//! Lowering of Flint statements and identifiers to Yul.
//!
//! The code already generated for subexpressions and nested statements is
//! handed to these lowerings as arguments.

use vstd::prelude::*;
use crate::ast::{mangle, mangled, Identifier, IfStatement, ReturnStatement};
use super::function::{same_settings, FunctionContext, opened_block};
use super::yul::{yul_expression_text, yul_renderable, YulBlock, YulExpression, YulLiteral, YulStatement, YulSwitch};

verus! {

/// Opens a block, emits `statements` into it in order and closes it again.
fn generate_block(function_context: &mut FunctionContext, statements: Vec<YulStatement>) -> (res: YulBlock)
    ensures
        same_settings(*final(function_context), *old(function_context)),
        final(function_context).block_stack@ == old(function_context).block_stack@,
        res.statements@ == statements@,
{
    let ghost original = statements@;
    let ghost ctx0 = *function_context;
    let count = function_context.push_block();
    let ghost opened = *function_context;
    assert(original.len() == statements.len());
    let mut rest = statements;
    let mut i: usize = 0;
    while rest.len() > 0
        invariant
            i + rest@.len() == original.len(),
            original.len() <= usize::MAX,
            rest@ == original.subrange(i as int, original.len() as int),
            opened_block(ctx0, opened),
            count == opened.block_stack@.len(),
            same_settings(*function_context, opened),
            function_context.block_stack@.len() == opened.block_stack@.len(),
            forall|j: int|
                0 <= j < opened.block_stack@.len() - 1 ==> #[trigger] function_context.block_stack@[j]
                    == opened.block_stack@[j],
            function_context.block_stack@.last().statements@ == original.subrange(0, i as int),
        decreases rest@.len(),
    {
        let s = rest.remove(0);
        function_context.emit(s);
        i = i + 1;
        assert(function_context.block_stack@.last().statements@ =~= original.subrange(0, i as int));
        assert(rest@ =~= original.subrange(i as int, original.len() as int));
    }
    let ghost filled = *function_context;
    let block = function_context.with_new_block(count);
    proof {
        assert(block == filled.block_stack@.last());
        assert(original.subrange(0, i as int) =~= original);
        assert(function_context.block_stack@ =~= ctx0.block_stack@);
    }
    block
}

/// `s` is the inline code `text`.
pub open spec fn is_inline(s: YulStatement, text: Seq<char>) -> bool {
    s matches YulStatement::Inline(t) && t@ == text
}

/// `e` is the name `name`.
pub open spec fn is_named(e: YulExpression, name: Seq<char>) -> bool {
    e matches YulExpression::Identifier(n) && n@ == name
}

/// A return statement.
pub struct SolidityReturnStatement {
    pub statement: ReturnStatement,
}

impl SolidityReturnStatement {
    /// The return, given the code of the returned value: an assignment to
    /// `ret`, or nothing where no value is returned.
    pub fn generate(&self, expression_code: Option<YulExpression>) -> (res: YulStatement)
        requires
            self.statement.expression is Some ==> expression_code is Some && yul_renderable(expression_code->0),
        ensures
            self.statement.expression is None ==> is_inline(res, ""@),
            self.statement.expression is Some ==> is_inline(res, "ret := "@ + yul_expression_text(expression_code->0)),
    {
        match (&self.statement.expression, expression_code) {
            (Some(_), Some(code)) => {
                let mut text = String::from_str("ret := ");
                code.write(&mut text);
                YulStatement::Inline(text)
            },
            _ => YulStatement::Inline(String::from_str("")),
        }
    }
}

/// A conditional.
pub struct SolidityIfStatement {
    pub statement: IfStatement,
}

impl SolidityIfStatement {
    /// The conditional as a switch on its condition with the single case
    /// `1`, given the code of the condition and of the statements of its
    /// body. The open blocks of the context are left as they were.
    pub fn generate(&self, condition: YulExpression, body: Vec<YulStatement>, function_context: &mut FunctionContext) -> (res: YulStatement)
        ensures
            same_settings(*final(function_context), *old(function_context)),
            final(function_context).block_stack@ == old(function_context).block_stack@,
            res matches YulStatement::Switch(s) && s.expression == condition && s.default is None && s.cases@.len()
                == 1 && s.cases@[0].0 == YulLiteral::Num(1) && s.cases@[0].1.statements@ == body@,
    {
        let block = generate_block(function_context, body);
        let cases = vec![(YulLiteral::Num(1), block)];
        YulStatement::Switch(YulSwitch { expression: condition, cases, default: None })
    }
}

/// An identifier used as an expression.
pub struct SolidityIdentifier {
    pub identifier: Identifier,
    pub is_lvalue: bool,
}

impl SolidityIdentifier {
    /// The identifier: a local name is mangled; a property of the enclosing
    /// type is accessed through `self`, whose code is given.
    pub fn generate(&self, property_access: Option<YulExpression>) -> (res: YulExpression)
        requires
            self.identifier.enclosing_type is Some ==> property_access is Some,
        ensures
            self.identifier.enclosing_type is Some ==> res == property_access->0,
            self.identifier.enclosing_type is None ==> is_named(res, mangled(self.identifier.token@)),
    {
        match (&self.identifier.enclosing_type, property_access) {
            (Some(_), Some(code)) => code,
            _ => YulExpression::Identifier(mangle(self.identifier.token.as_str())),
        }
    }
}

} // verus!
