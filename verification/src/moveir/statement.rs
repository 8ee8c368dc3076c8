//! Lowering of Flint statements to MoveIR: conditionals, returns, event
//! emission and declarations.
//!
//! The code already generated for the subexpressions and nested statements
//! is handed to these lowerings as arguments; where a statement opens a
//! block, the lowering opens it in the function's context, emits the nested
//! statements into it and closes it again.

use vstd::prelude::*;
use crate::ast::{IfStatement, ReturnStatement, Statement, VariableDeclaration};
use super::function::{emitted, opened_block, same_settings, FunctionContext};
use super::ir::{
    expression_text, renderable, MoveIRAssignment, MoveIRBlock, MoveIRExpression, MoveIRFieldDeclaration,
    MoveIRIf, MoveIRStatement, MoveIRType, MoveIRVariableDeclaration,
};
use super::utils::{last_release, moved, released_variable, releases_into, remove_moves};

verus! {

/// Opens a block, emits `statements` into it in order and closes it again.
fn generate_block(function_context: &mut FunctionContext, statements: Vec<MoveIRStatement>) -> (res: MoveIRBlock)
    ensures
        same_settings(*final(function_context), *old(function_context)),
        final(function_context).block_stack@ == old(function_context).block_stack@,
        res.statements@ == statements@,
{
    let ghost original = statements@;
    let ghost ctx0 = *function_context;
    let count = function_context.push_block();
    let ghost opened = *function_context;
    assert(original.len() == statements.len());
    let mut rest = statements;
    let mut i: usize = 0;
    while rest.len() > 0
        invariant
            i + rest@.len() == original.len(),
            original.len() <= usize::MAX,
            rest@ == original.subrange(i as int, original.len() as int),
            opened_block(ctx0, opened),
            count == opened.block_stack@.len(),
            same_settings(*function_context, opened),
            function_context.block_stack@.len() == opened.block_stack@.len(),
            forall|j: int|
                0 <= j < opened.block_stack@.len() - 1 ==> #[trigger] function_context.block_stack@[j]
                    == opened.block_stack@[j],
            function_context.block_stack@.last().statements@ == original.subrange(0, i as int),
        decreases rest@.len(),
    {
        let s = rest.remove(0);
        function_context.emit(s);
        i = i + 1;
        assert(function_context.block_stack@.last().statements@ =~= original.subrange(0, i as int));
        assert(rest@ =~= original.subrange(i as int, original.len() as int));
    }
    let ghost filled = *function_context;
    let block = function_context.with_new_block(count);
    proof {
        assert(block == filled.block_stack@.last());
        assert(original.subrange(0, i as int) =~= original);
        assert(function_context.block_stack@ =~= ctx0.block_stack@);
    }
    block
}

/// A conditional.
pub struct MoveIfStatement {
    pub statement: IfStatement,
}

impl MoveIfStatement {
    /// The conditional, given the code of its condition and of the
    /// statements of its two branches; there is an else block only where the
    /// conditional has an else branch. The open blocks of the context are
    /// left as they were.
    pub fn generate(
        &self,
        condition: MoveIRExpression,
        body: Vec<MoveIRStatement>,
        else_body: Vec<MoveIRStatement>,
        function_context: &mut FunctionContext,
    ) -> (res: MoveIRStatement)
        requires
            else_body@.len() == self.statement.else_body@.len(),
        ensures
            same_settings(*final(function_context), *old(function_context)),
            final(function_context).block_stack@ == old(function_context).block_stack@,
            res matches MoveIRStatement::If(i) && i.expression == condition && i.block.statements@ == body@
                && (if self.statement.else_body@.len() == 0 {
                i.else_block is None
            } else {
                i.else_block matches Some(b) && b.statements@ == else_body@
            }),
    {
        let block = generate_block(function_context, body);
        if self.statement.else_body.len() == 0 {
            MoveIRStatement::If(MoveIRIf { expression: condition, block, else_block: None })
        } else {
            let else_block = generate_block(function_context, else_body);
            MoveIRStatement::If(MoveIRIf { expression: condition, block, else_block: Some(else_block) })
        }
    }
}

/// A return statement, with the statements that clean up before it.
pub struct MoveReturnStatement {
    pub statement: ReturnStatement,
}

impl MoveReturnStatement {
    /// The return, given the code of the returned value. The value is
    /// assigned to `ret` in the innermost open block, the cleanup releases
    /// that the value can absorb folded into it; the cleanup statements left
    /// come back, to be emitted before the `return move(ret)` that comes back
    /// with them. Without a value there is a bare `return` and no cleanup.
    pub fn generate(self, expression_code: Option<MoveIRExpression>, function_context: &mut FunctionContext) -> (res: (
        Vec<Statement>,
        MoveIRStatement,
    ))
        requires
            old(function_context).block_stack@.len() > 0,
            self.statement.expression is Some ==> expression_code is Some,
        ensures
            self.statement.expression is None ==> {
                &&& res.0@.len() == 0
                &&& res.1 matches MoveIRStatement::Inline(t) && t@ == "return"@
                &&& *final(function_context) == *old(function_context)
            },
            self.statement.expression is Some ==> {
                let code = expression_code->0;
                let cleanup = self.statement.cleanup@;
                &&& res.0@ == cleanup.filter(|s: Statement| !releases_into(s, code))
                &&& res.1 matches MoveIRStatement::Inline(t) && t@ == "return move(ret)"@
                &&& exists|value: MoveIRExpression, name: String|
                    {
                        &&& name@ == "ret"@
                        &&& (last_release(cleanup, code) < 0 ==> value == code)
                        &&& (last_release(cleanup, code) >= 0 ==> moved(
                            released_variable(cleanup[last_release(cleanup, code)]).unwrap(),
                            code,
                            value,
                        ))
                        &&& emitted(
                            *old(function_context),
                            *final(function_context),
                            MoveIRStatement::Expression(
                                MoveIRExpression::Assignment(
                                    MoveIRAssignment { identifier: name, expression: Box::new(value) },
                                ),
                            ),
                        )
                    }
            },
    {
        match (self.statement.expression, expression_code) {
            (Some(_), Some(code)) => {
                let (cleanup, value) = remove_moves(self.statement.cleanup, code);
                let name = String::from_str("ret");
                function_context.emit(
                    MoveIRStatement::Expression(
                        MoveIRExpression::Assignment(MoveIRAssignment { identifier: name, expression: Box::new(value) }),
                    ),
                );
                (cleanup, MoveIRStatement::Inline(String::from_str("return move(ret)")))
            },
            _ => (Vec::new(), MoveIRStatement::Inline(String::from_str("return"))),
        }
    }
}

/// The emission of an event.
pub struct MoveEmitStatement {
    pub statement: crate::ast::EmitStatement,
}

impl MoveEmitStatement {
    /// The emission, given the code of the call that emits the event.
    pub fn generate(&self, call: &MoveIRExpression) -> (res: MoveIRStatement)
        requires
            renderable(*call),
        ensures
            res matches MoveIRStatement::Inline(t) && t@ == expression_text(*call),
    {
        MoveIRStatement::Inline(call.to_string())
    }
}

/// The declaration of a field of a struct or contract.
pub struct MoveFieldDeclaration {
    pub declaration: VariableDeclaration,
}

impl MoveFieldDeclaration {
    /// The field, given its MoveIR type, with its initial value if it has one.
    pub fn generate(self, ir_type: MoveIRType) -> (res: MoveIRExpression)
        ensures
            res matches MoveIRExpression::FieldDeclaration(fd) && fd.identifier == self.declaration.identifier.token
                && fd.declaration_type == ir_type && fd.expression == (match self.declaration.expression {
                Some(e) => Some(*e),
                None => None,
            }),
    {
        let expression = match self.declaration.expression {
            Some(e) => Some(*e),
            None => None,
        };
        MoveIRExpression::FieldDeclaration(
            MoveIRFieldDeclaration {
                identifier: self.declaration.identifier.token,
                declaration_type: ir_type,
                expression,
            },
        )
    }
}

/// The declaration of a local variable.
pub struct MoveVariableDeclaration {
    pub declaration: VariableDeclaration,
}

impl MoveVariableDeclaration {
    /// The variable, given its MoveIR type; the receiver `self` is called
    /// `this` in MoveIR.
    pub fn generate(&self, ir_type: MoveIRType) -> (res: MoveIRExpression)
        ensures
            res matches MoveIRExpression::VariableDeclaration(v) && v.declaration_type == ir_type && (if self.declaration.identifier.token@
                == "self"@ {
                v.identifier@ == "this"@
            } else {
                v.identifier@ == self.declaration.identifier.token@
            }),
    {
        let identifier = if self.declaration.identifier.token == String::from_str("self") {
            String::from_str("this")
        } else {
            self.declaration.identifier.token.clone()
        };
        MoveIRExpression::VariableDeclaration(MoveIRVariableDeclaration { identifier, declaration_type: ir_type })
    }
}

} // verus!
