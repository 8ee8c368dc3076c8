//! The state of MoveIR code generation inside one function: a stack of open
//! blocks that statements are emitted into.

use vstd::prelude::*;
use vstd::string::StrSliceExecFns;
use crate::seqs::{lemma_filter_all_pass, lemma_filter_kept_pass, lemma_filter_none_pass};
use crate::ast::{
    Expression, FunctionDeclaration, Identifier, InoutType, Modifier, Parameter, ScopeContext, Statement, Type,
};
use crate::text::{join, lemma_join_push};
use super::ir::{
    expression_text, renderable, statement_renderable, statements_renderable, statements_text, type_text,
    MoveIRBlock, MoveIRExpression, MoveIRStatement, MoveIRType,
};
use super::preprocessor::utils::{is_release, release};
use super::utils::{
    last_release, lemma_moved_renderable, moved, released_variable, releases_into, remove_moves,
};

verus! {

/// Whether a statement declares a local variable.
pub open spec fn is_variable_declaration(s: MoveIRStatement) -> bool {
    s matches MoveIRStatement::Expression(MoveIRExpression::VariableDeclaration(_))
}

/// The statements with the variable declarations moved to the front, each
/// group keeping its order.
pub open spec fn reordered(s: Seq<MoveIRStatement>) -> Seq<MoveIRStatement> {
    s.filter(|x: MoveIRStatement| is_variable_declaration(x)) + s.filter(
        |x: MoveIRStatement| !is_variable_declaration(x),
    )
}

/// Reordering loses and adds no statement: the reordered statements are a
/// permutation of the originals.
pub proof fn law_reorder_is_permutation(s: Seq<MoveIRStatement>)
    ensures
        reordered(s).to_multiset() == s.to_multiset(),
    decreases s.len(),
{
    broadcast use vstd::multiset::group_multiset_axioms;
    broadcast use vstd::seq_lib::group_to_multiset_ensures;

    let d = |x: MoveIRStatement| is_variable_declaration(x);
    let o = |x: MoveIRStatement| !is_variable_declaration(x);
    if s.len() == 0 {
        reveal_with_fuel(Seq::<_>::filter, 1);
        assert(reordered(s) =~= s);
    } else {
        let p = s.drop_last();
        let x = s.last();
        law_reorder_is_permutation(p);
        assert(p.push(x) =~= s);
        p.lemma_filter_push(x, d);
        p.lemma_filter_push(x, o);
        vstd::seq_lib::lemma_multiset_commutative(p.filter(d), p.filter(o));
        vstd::seq_lib::lemma_multiset_commutative(s.filter(d), s.filter(o));
        if d(x) {
            vstd::seq_lib::to_multiset_build(p.filter(d), x);
        } else {
            vstd::seq_lib::to_multiset_build(p.filter(o), x);
        }
        vstd::seq_lib::to_multiset_build(p, x);
        assert(reordered(s).to_multiset() =~= s.to_multiset());
    }
}

/// Reordering twice is reordering once: once the declarations are in front,
/// there is nothing left to move.
pub proof fn law_reorder_idempotent(s: Seq<MoveIRStatement>)
    ensures
        reordered(reordered(s)) == reordered(s),
{
    let d = |x: MoveIRStatement| is_variable_declaration(x);
    let o = |x: MoveIRStatement| !is_variable_declaration(x);
    let ds = s.filter(d);
    let os = s.filter(o);
    Seq::filter_distributes_over_add(ds, os, d);
    Seq::filter_distributes_over_add(ds, os, o);
    lemma_filter_kept_pass(s, d);
    lemma_filter_kept_pass(s, o);
    lemma_filter_all_pass(ds, d);
    lemma_filter_all_pass(os, o);
    assert forall|i: int| 0 <= i < ds.len() implies !o(#[trigger] ds[i]) by {
        assert(d(ds[i]));
    }
    assert forall|i: int| 0 <= i < os.len() implies !d(#[trigger] os[i]) by {
        assert(o(os[i]));
    }
    lemma_filter_none_pass(ds, o);
    lemma_filter_none_pass(os, d);
    assert(reordered(reordered(s)) =~= reordered(s));
}

/// The statements with the variable declarations moved to the front, each
/// group keeping its order (MoveIR wants declarations first).
pub fn reorder_statements(statements: &[MoveIRStatement]) -> (res: Vec<&MoveIRStatement>)
    ensures
        res@.map_values(|r: &MoveIRStatement| *r) == reordered(statements@),
{
    let ghost decl = |x: MoveIRStatement| is_variable_declaration(x);
    let ghost other = |x: MoveIRStatement| !is_variable_declaration(x);
    let mut declarations: Vec<&MoveIRStatement> = Vec::new();
    let mut others: Vec<&MoveIRStatement> = Vec::new();
    let n = statements.len();
    let mut i: usize = 0;
    while i < n
        invariant
            n == statements@.len(),
            0 <= i <= n,
            decl == (|x: MoveIRStatement| is_variable_declaration(x)),
            other == (|x: MoveIRStatement| !is_variable_declaration(x)),
            declarations@.map_values(|r: &MoveIRStatement| *r) == statements@.subrange(
                0,
                i as int,
            ).filter(decl),
            others@.map_values(|r: &MoveIRStatement| *r) == statements@.subrange(
                0,
                i as int,
            ).filter(other),
        decreases n - i,
    {
        let statement = &statements[i];
        let is_declaration = match statement {
            MoveIRStatement::Expression(MoveIRExpression::VariableDeclaration(_)) => true,
            _ => false,
        };
        proof {
            let prefix = statements@.subrange(0, i as int);
            let next = statements@.subrange(0, i as int + 1);
            assert(next.drop_last() =~= prefix);
            assert(next.last() == *statement);
            reveal_with_fuel(Seq::<_>::filter, 1);
            assert(next.filter(decl) == if decl(*statement) {
                prefix.filter(decl).push(*statement)
            } else {
                prefix.filter(decl)
            });
            assert(next.filter(other) == if other(*statement) {
                prefix.filter(other).push(*statement)
            } else {
                prefix.filter(other)
            });
        }
        if is_declaration {
            declarations.push(statement);
            proof {
                assert(declarations@.map_values(|r: &MoveIRStatement| *r) =~= statements@.subrange(
                    0,
                    i as int + 1,
                ).filter(decl));
            }
        } else {
            others.push(statement);
            proof {
                assert(others@.map_values(|r: &MoveIRStatement| *r) =~= statements@.subrange(
                    0,
                    i as int + 1,
                ).filter(other));
            }
        }
        i = i + 1;
    }
    proof {
        assert(statements@.subrange(0, n as int) =~= statements@);
    }
    let ghost d = declarations@;
    let ghost o = others@;
    declarations.append(&mut others);
    proof {
        assert(declarations@.map_values(|r: &MoveIRStatement| *r) =~= d.map_values(
            |r: &MoveIRStatement| *r,
        ) + o.map_values(|r: &MoveIRStatement| *r));
    }
    declarations
}

/// The state of code generation inside one function.
#[derive(Debug)]
pub struct FunctionContext {
    pub scope_context: ScopeContext,
    pub enclosing_type: String,
    pub block_stack: Vec<MoveIRBlock>,
    pub in_struct_function: bool,
    pub is_constructor: bool,
}

/// Whether two contexts agree on everything but their block stacks.
pub open spec fn same_settings(a: FunctionContext, b: FunctionContext) -> bool {
    &&& a.scope_context == b.scope_context
    &&& a.enclosing_type == b.enclosing_type
    &&& a.in_struct_function == b.in_struct_function
    &&& a.is_constructor == b.is_constructor
}

/// `b` is the block at position `i` of `stack` with every later block of the
/// stack nested into it: each block gets the next one, itself so nested, as
/// its last statement.
pub open spec fn nested(stack: Seq<MoveIRBlock>, i: int, b: MoveIRBlock) -> bool
    decreases stack.len() - i,
{
    if i < 0 || i >= stack.len() {
        false
    } else if i == stack.len() - 1 {
        b == stack[i]
    } else {
        &&& b.statements@.len() > 0
        &&& b.statements@.drop_last() == stack[i].statements@
        &&& b.statements@.last() matches MoveIRStatement::Block(inner)
        &&& nested(stack, i + 1, inner)
    }
}

/// `after` is `before` with one more block open, an empty one.
pub open spec fn opened_block(before: FunctionContext, after: FunctionContext) -> bool {
    &&& same_settings(after, before)
    &&& after.block_stack@.len() == before.block_stack@.len() + 1
    &&& after.block_stack@.drop_last() == before.block_stack@
    &&& after.block_stack@.last().statements@.len() == 0
}

/// `after` is `before` with `statement` appended to its innermost open block.
pub open spec fn emitted(before: FunctionContext, after: FunctionContext, statement: MoveIRStatement) -> bool {
    &&& same_settings(after, before)
    &&& after.block_stack@.len() == before.block_stack@.len()
    &&& forall|i: int|
        0 <= i < before.block_stack@.len() - 1 ==> #[trigger] after.block_stack@[i] == before.block_stack@[i]
    &&& after.block_stack@.last().statements@ == before.block_stack@.last().statements@.push(statement)
}

/// `after` is `before` with its innermost open block, `block`, closed.
pub open spec fn closed_block(before: FunctionContext, after: FunctionContext, block: MoveIRBlock) -> bool {
    &&& same_settings(after, before)
    &&& block == before.block_stack@.last()
    &&& after.block_stack@ == before.block_stack@.drop_last()
}

/// `after` is `before` with the blocks from position `count - 1` on closed,
/// each nested into the one below, and `block` the outermost of them.
pub open spec fn closed_blocks_from(before: FunctionContext, after: FunctionContext, count: int, block: MoveIRBlock) -> bool {
    &&& same_settings(after, before)
    &&& after.block_stack@ == before.block_stack@.subrange(0, count - 1)
    &&& nested(before.block_stack@, count - 1, block)
}

/// Opening a block and closing it again gives back an empty block and
/// leaves the open blocks as they were.
pub proof fn law_open_then_close(before: FunctionContext, opened: FunctionContext, after: FunctionContext, block: MoveIRBlock)
    requires
        opened_block(before, opened),
        closed_block(opened, after, block),
    ensures
        same_settings(after, before),
        after.block_stack@ == before.block_stack@,
        block.statements@.len() == 0,
{
}

/// Closing the innermost block right after emitting a statement gives back
/// that block with the statement last, and the blocks below it unchanged.
pub proof fn law_emit_then_close(before: FunctionContext, filled: FunctionContext, after: FunctionContext, statement: MoveIRStatement, block: MoveIRBlock)
    requires
        before.block_stack@.len() > 0,
        emitted(before, filled, statement),
        closed_block(filled, after, block),
    ensures
        same_settings(after, before),
        block.statements@ == before.block_stack@.last().statements@.push(statement),
        after.block_stack@ == before.block_stack@.drop_last(),
{
    assert(after.block_stack@ =~= before.block_stack@.drop_last());
}

/// A statement emitted into a freshly opened block comes back alone when the
/// blocks are closed from that one on, and the open blocks are those from
/// before.
pub proof fn law_new_block_collects(before: FunctionContext, opened: FunctionContext, filled: FunctionContext, after: FunctionContext, statement: MoveIRStatement, block: MoveIRBlock)
    requires
        opened_block(before, opened),
        emitted(opened, filled, statement),
        closed_blocks_from(filled, after, opened.block_stack@.len() as int, block),
    ensures
        same_settings(after, before),
        after.block_stack@ == before.block_stack@,
        block.statements@ == seq![statement],
{
    assert(block == filled.block_stack@.last());
    assert(block.statements@ =~= seq![statement]);
    assert(after.block_stack@ =~= before.block_stack@);
}

impl FunctionContext {
    /// Appends a statement to the innermost open block.
    pub fn emit(&mut self, statement: MoveIRStatement)
        requires
            old(self).block_stack@.len() > 0,
        ensures
            emitted(*old(self), *final(self), statement),
    {
        let mut block = self.block_stack.pop().unwrap();
        block.statements.push(statement);
        self.block_stack.push(block);
    }

    /// Opens a new empty block; returns the number of open blocks.
    pub fn push_block(&mut self) -> (res: usize)
        ensures
            opened_block(*old(self), *final(self)),
            res == final(self).block_stack@.len(),
    {
        self.block_stack.push(MoveIRBlock { statements: Vec::new() });
        proof {
            assert(self.block_stack@.drop_last() =~= old(self).block_stack@);
        }
        self.block_stack.len()
    }

    /// Closes the innermost block and returns it.
    pub fn pop_block(&mut self) -> (res: MoveIRBlock)
        requires
            old(self).block_stack@.len() > 0,
        ensures
            closed_block(*old(self), *final(self), res),
    {
        self.block_stack.pop().unwrap()
    }

    /// Closes the blocks above the first `count` ones, each nested as a block
    /// statement into the one below, then closes block `count` itself and
    /// returns it.
    pub fn with_new_block(&mut self, count: usize) -> (res: MoveIRBlock)
        requires
            1 <= count <= old(self).block_stack@.len(),
        ensures
            closed_blocks_from(*old(self), *final(self), count as int, res),
    {
        let ghost stack = self.block_stack@;
        while self.block_stack.len() != count
            invariant
                same_settings(*self, *old(self)),
                stack == old(self).block_stack@,
                1 <= count <= self.block_stack@.len() <= stack.len(),
                forall|i: int|
                    0 <= i < self.block_stack@.len() - 1 ==> #[trigger] self.block_stack@[i]
                        == stack[i],
                nested(stack, self.block_stack@.len() - 1, self.block_stack@.last()),
            decreases self.block_stack@.len(),
        {
            let ghost top = self.block_stack@.len() - 1;
            let block = self.pop_block();
            let ghost inner = block;
            self.emit(MoveIRStatement::Block(block));
            proof {
                let b = self.block_stack@.last();
                assert(b.statements@.drop_last() =~= stack[top - 1].statements@);
                assert(b.statements@.last() == MoveIRStatement::Block(inner));
            }
        }
        let res = self.pop_block();
        proof {
            assert(self.block_stack@ =~= stack.subrange(0, count - 1));
        }
        res
    }

    /// The code of the innermost open block: its statements, declarations
    /// first, one per line (nothing when no block is open).
    pub fn generate(&self) -> (res: String)
        requires
            self.block_stack@.len() > 0 ==> statements_renderable(self.block_stack@.last().statements@),
        ensures
            self.block_stack@.len() == 0 ==> res@ == Seq::<char>::empty(),
            self.block_stack@.len() > 0 ==> res@ == statements_text(
                reordered(self.block_stack@.last().statements@),
            ),
    {
        let mut out = String::new();
        let n = self.block_stack.len();
        if n > 0 {
            let statements = reorder_statements(self.block_stack[n - 1].statements.as_slice());
            proof {
                let r = reordered(self.block_stack@.last().statements@);
                lemma_reordered_renderable(self.block_stack@.last().statements@);
                assert forall|i: int| 0 <= i < statements@.len() implies statement_renderable(
                    *#[trigger] statements@[i],
                ) by {
                    assert(statements@.map_values(|r: &MoveIRStatement| *r)[i] == *statements@[i]);
                }
            }
            write_statement_refs(&statements, &mut out);
        }
        out
    }

}

pub proof fn lemma_statements_renderable_all(s: Seq<MoveIRStatement>)
    requires
        statements_renderable(s),
    ensures
        forall|i: int| 0 <= i < s.len() ==> statement_renderable(#[trigger] s[i]),
    decreases s.len(),
{
    if s.len() > 0 {
        let p = s.subrange(0, s.len() - 1);
        lemma_statements_renderable_all(p);
        assert forall|i: int| 0 <= i < s.len() implies statement_renderable(#[trigger] s[i]) by {
            if i < s.len() - 1 {
                assert(s[i] == p[i]);
            }
        }
    }
}

proof fn lemma_filter_renderable(s: Seq<MoveIRStatement>, pred: spec_fn(MoveIRStatement) -> bool)
    requires
        forall|i: int| 0 <= i < s.len() ==> statement_renderable(#[trigger] s[i]),
    ensures
        forall|i: int| 0 <= i < s.filter(pred).len() ==> statement_renderable(#[trigger] s.filter(pred)[i]),
    decreases s.len(),
{
    reveal_with_fuel(Seq::<_>::filter, 1);
    if s.len() > 0 {
        let p = s.drop_last();
        assert forall|i: int| 0 <= i < p.len() implies statement_renderable(#[trigger] p[i]) by {
            assert(p[i] == s[i]);
        }
        lemma_filter_renderable(p, pred);
        let f = s.filter(pred);
        let g = p.filter(pred);
        assert forall|i: int| 0 <= i < f.len() implies statement_renderable(#[trigger] f[i]) by {
            if i < g.len() {
                assert(f[i] == g[i]);
            } else {
                assert(f[i] == s.last());
            }
        }
    }
}

proof fn lemma_reordered_renderable(s: Seq<MoveIRStatement>)
    requires
        statements_renderable(s),
    ensures
        forall|i: int| 0 <= i < reordered(s).len() ==> statement_renderable(#[trigger] reordered(s)[i]),
{
    lemma_statements_renderable_all(s);
    let decl = |x: MoveIRStatement| is_variable_declaration(x);
    let other = |x: MoveIRStatement| !is_variable_declaration(x);
    lemma_filter_renderable(s, decl);
    lemma_filter_renderable(s, other);
    let r = reordered(s);
    let a = s.filter(decl);
    let b = s.filter(other);
    assert forall|i: int| 0 <= i < r.len() implies statement_renderable(#[trigger] r[i]) by {
        if i < a.len() {
            assert(r[i] == a[i]);
        } else {
            assert(r[i] == b[i - a.len()]);
        }
    }
}

/// Appends the texts of the referenced statements, one per line, to `out`.
fn write_statement_refs(v: &Vec<&MoveIRStatement>, out: &mut String)
    requires
        forall|i: int| 0 <= i < v@.len() ==> statement_renderable(*#[trigger] v@[i]),
    ensures
        final(out)@ == old(out)@ + statements_text(v@.map_values(|r: &MoveIRStatement| *r)),
{
    let ghost start = out@;
    let ghost s = v@.map_values(|r: &MoveIRStatement| *r);
    let n = v.len();
    let mut i: usize = 0;
    while i < n
        invariant
            n == v@.len(),
            0 <= i <= n,
            s == v@.map_values(|r: &MoveIRStatement| *r),
            forall|i: int| 0 <= i < v@.len() ==> statement_renderable(*#[trigger] v@[i]),
            out@ == start + statements_text(s.subrange(0, i as int)),
        decreases n - i,
    {
        proof {
            assert(s.subrange(0, i as int + 1).subrange(0, i as int) =~= s.subrange(0, i as int));
            assert(s[i as int] == *v@[i as int]);
        }
        if i > 0 {
            out.append("\n");
        }
        v[i].write(out);
        i = i + 1;
    }
    proof {
        assert(s.subrange(0, n as int) =~= s);
    }
}

/// The parameters passed by reference, in order.
pub open spec fn inout_parameters(ps: Seq<Parameter>) -> Seq<Parameter> {
    ps.filter(|p: Parameter| p.type_assignment is InoutType)
}

/// `s` releases the reference parameter `p` at the end of a function.
pub open spec fn releases_parameter(s: Statement, p: Parameter) -> bool {
    is_release(
        s,
        Expression::Identifier(p.identifier),
        Type::InoutType(InoutType { key_type: Box::new(p.type_assignment) }),
    )
}

/// The code that gives up a reference parameter: the receiver, `this`, is
/// copied in a constructor and moved elsewhere; other parameters are moved.
pub open spec fn released_reference_text(p: Parameter, is_constructor: bool) -> Seq<char> {
    if p.identifier.token@ == "self"@ {
        if is_constructor {
            "copy(this)"@
        } else {
            "move(this)"@
        }
    } else {
        "move("@ + p.identifier.token@ + ")"@
    }
}

/// `s` is the statement `_ = code`, giving up the reference parameter `p`.
pub open spec fn is_reference_release(s: MoveIRStatement, p: Parameter, is_constructor: bool) -> bool {
    s matches MoveIRStatement::Inline(t) && t@ == "_ = "@ + released_reference_text(p, is_constructor)
}

/// The statements that release the reference parameters among
/// `parameters`, in order.
pub fn release_references_of(parameters: &Vec<Parameter>) -> (res: Vec<Statement>)
    ensures
        res@.len() == inout_parameters(parameters@).len(),
        forall|k: int|
            0 <= k < res@.len() ==> releases_parameter(#[trigger] res@[k], inout_parameters(parameters@)[k]),
{
    let ps = parameters;
    let ghost pred = |p: Parameter| p.type_assignment is InoutType;
    let mut res: Vec<Statement> = Vec::new();
    let mut i: usize = 0;
    while i < ps.len()
        invariant
            i <= ps@.len(),
            pred == (|p: Parameter| p.type_assignment is InoutType),
            res@.len() == ps@.subrange(0, i as int).filter(pred).len(),
            forall|k: int|
                0 <= k < res@.len() ==> releases_parameter(#[trigger] res@[k], ps@.subrange(0, i as int).filter(pred)[k]),
        decreases ps@.len() - i,
    {
        proof {
            assert(ps@.subrange(0, i as int + 1) =~= ps@.subrange(0, i as int).push(ps@[i as int]));
            ps@.subrange(0, i as int).lemma_filter_push(ps@[i as int], pred);
        }
        if ps[i].is_inout() {
            let p = &ps[i];
            let statement = release(
                Expression::Identifier(p.identifier.deep_clone()),
                Type::InoutType(InoutType { key_type: Box::new(p.type_assignment.deep_clone()) }),
            );
            res.push(statement);
        }
        i = i + 1;
    }
    proof {
        assert(ps@.subrange(0, ps@.len() as int) =~= ps@);
    }
    res
}

impl FunctionContext {
    /// The statements that release the function's reference parameters, in
    /// order.
    pub fn get_release_references(&self) -> (res: Vec<Statement>)
        ensures
            res@.len() == inout_parameters(self.scope_context.parameters@).len(),
            forall|k: int|
                0 <= k < res@.len() ==> releases_parameter(
                    #[trigger] res@[k],
                    inout_parameters(self.scope_context.parameters@)[k],
                ),
    {
        release_references_of(&self.scope_context.parameters)
    }

    /// Emits, into the innermost open block, a statement giving up each
    /// reference parameter, in order. Parameters that name a property of the
    /// enclosing type are not among them.
    pub fn emit_release_references(&mut self)
        requires
            old(self).block_stack@.len() > 0,
            forall|k: int|
                0 <= k < inout_parameters(old(self).scope_context.parameters@).len() ==> (
                #[trigger] inout_parameters(old(self).scope_context.parameters@)[k]).identifier.enclosing_type
                    != Some(old(self).enclosing_type),
        ensures
            same_settings(*final(self), *old(self)),
            final(self).block_stack@.len() == old(self).block_stack@.len(),
            forall|i: int|
                0 <= i < old(self).block_stack@.len() - 1 ==> #[trigger] final(self).block_stack@[i]
                    == old(self).block_stack@[i],
            final(self).block_stack@.last().statements@.len() == old(self).block_stack@.last().statements@.len()
                + inout_parameters(old(self).scope_context.parameters@).len(),
            forall|k: int|
                0 <= k < old(self).block_stack@.last().statements@.len() ==> #[trigger] final(self).block_stack@.last().statements@[k]
                    == old(self).block_stack@.last().statements@[k],
            forall|k: int|
                0 <= k < inout_parameters(old(self).scope_context.parameters@).len() ==> is_reference_release(
                    #[trigger] final(self).block_stack@.last().statements@[old(self).block_stack@.last().statements@.len() + k],
                    inout_parameters(old(self).scope_context.parameters@)[k],
                    old(self).is_constructor,
                ),
    {
        let ghost pred = |p: Parameter| p.type_assignment is InoutType;
        let ghost ps = self.scope_context.parameters@;
        let ghost start = self.block_stack@.last().statements@;
        let ghost stack0 = self.block_stack@;
        let ghost ctx0 = *self;
        let n = self.scope_context.parameters.len();
        let mut i: usize = 0;
        while i < n
            invariant
                n == ps.len(),
                i <= n,
                pred == (|p: Parameter| p.type_assignment is InoutType),
                ps == self.scope_context.parameters@,
                same_settings(*self, ctx0),
                ctx0.is_constructor == self.is_constructor,
                self.block_stack@.len() == stack0.len(),
                stack0.len() > 0,
                forall|j: int| 0 <= j < stack0.len() - 1 ==> #[trigger] self.block_stack@[j] == stack0[j],
                stack0.last().statements@ == start,
                self.block_stack@.last().statements@.len() == start.len() + ps.subrange(0, i as int).filter(pred).len(),
                forall|k: int| 0 <= k < start.len() ==> #[trigger] self.block_stack@.last().statements@[k] == start[k],
                forall|k: int|
                    0 <= k < ps.subrange(0, i as int).filter(pred).len() ==> is_reference_release(
                        #[trigger] self.block_stack@.last().statements@[start.len() + k],
                        ps.subrange(0, i as int).filter(pred)[k],
                        self.is_constructor,
                    ),
            decreases n - i,
        {
            proof {
                assert(ps.subrange(0, i as int + 1) =~= ps.subrange(0, i as int).push(ps[i as int]));
                ps.subrange(0, i as int).lemma_filter_push(ps[i as int], pred);
            }
            if self.scope_context.parameters[i].is_inout() {
                let mut text = String::from_str("_ = ");
                let p = &self.scope_context.parameters[i];
                if p.identifier.token == String::from_str("self") {
                    if self.is_constructor {
                        text.append("copy(this)");
                    } else {
                        text.append("move(this)");
                    }
                } else {
                    text.append("move(");
                    text.append(p.identifier.token.as_str());
                    text.append(")");
                }
                assert(text@ =~= "_ = "@ + released_reference_text(ps[i as int], self.is_constructor));
                let ghost before = *self;
                self.emit(MoveIRStatement::Inline(text));
                proof {
                    let done = ps.subrange(0, i as int).filter(pred);
                    assert forall|k: int| 0 <= k < done.len() + 1 implies is_reference_release(
                        #[trigger] self.block_stack@.last().statements@[start.len() + k],
                        done.push(ps[i as int])[k],
                        self.is_constructor,
                    ) by {
                        if k < done.len() {
                            assert(self.block_stack@.last().statements@[start.len() + k] == before.block_stack@.last().statements@[start.len() + k]);
                        }
                    }
                }
            }
            i = i + 1;
        }
        proof {
            assert(ps.subrange(0, n as int) =~= ps);
        }
    }
}

/// The release statements of `refs` left after the expression statement `s`
/// has absorbed those it can.
pub open spec fn refs_after(s: MoveIRStatement, refs: Seq<Statement>) -> Seq<Statement> {
    match s {
        MoveIRStatement::Expression(e) => refs.filter(|r: Statement| !releases_into(r, e)),
        _ => refs,
    }
}

/// The release statements of `refs` left after the statements of `stmts`
/// from index `k` on have absorbed theirs, the last statement first.
pub open spec fn unabsorbed_from(stmts: Seq<MoveIRStatement>, refs: Seq<Statement>, k: int) -> Seq<Statement>
    decreases stmts.len() - k,
{
    if 0 <= k < stmts.len() {
        refs_after(stmts[k], unabsorbed_from(stmts, refs, k + 1))
    } else {
        refs
    }
}

/// `res` is `e` after absorbing a release of `refs`: the last release that
/// changes `e` turns the copy it names into a move; with none, `e` is kept.
pub open spec fn absorbs(refs: Seq<Statement>, e: MoveIRExpression, res: MoveIRExpression) -> bool {
    &&& last_release(refs, e) < 0 ==> res == e
    &&& last_release(refs, e) >= 0 ==> moved(
        released_variable(refs[last_release(refs, e)]).unwrap(),
        e,
        res,
    )
}

/// `out` is the statement `s` after it has absorbed a release of `refs`:
/// only expression statements change.
pub open spec fn absorbed_statement(s: MoveIRStatement, refs: Seq<Statement>, out: MoveIRStatement) -> bool {
    match s {
        MoveIRStatement::Expression(e) => out matches MoveIRStatement::Expression(e2) && absorbs(refs, e, e2),
        _ => out == s,
    }
}

/// `out` is `stmts` with every expression statement having absorbed a
/// release of those that the statements after it left.
pub open spec fn absorbed(stmts: Seq<MoveIRStatement>, refs: Seq<Statement>, out: Seq<MoveIRStatement>) -> bool {
    &&& out.len() == stmts.len()
    &&& forall|k: int|
        0 <= k < stmts.len() ==> absorbed_statement(#[trigger] stmts[k], unabsorbed_from(stmts, refs, k + 1), out[k])
}

/// Lets the statements of a function body absorb the releases of its
/// reference parameters, from the last statement back: each expression
/// statement turns the copy of a released variable into a move and drops the
/// releases it absorbed. Returns the new statements and the releases left.
pub fn absorb_releases(statements: Vec<MoveIRStatement>, release_references: Vec<Statement>) -> (res: (
    Vec<MoveIRStatement>,
    Vec<Statement>,
))
    ensures
        absorbed(statements@, release_references@, res.0@),
        res.1@ == unabsorbed_from(statements@, release_references@, 0),
{
    let ghost stmts = statements@;
    let ghost refs0 = release_references@;
    let mut rest = statements;
    let mut refs = release_references;
    let mut reversed: Vec<MoveIRStatement> = Vec::new();
    while rest.len() > 0
        invariant
            rest@.len() <= stmts.len(),
            rest@ == stmts.subrange(0, rest@.len() as int),
            refs@ == unabsorbed_from(stmts, refs0, rest@.len() as int),
            reversed@.len() + rest@.len() == stmts.len(),
            forall|t: int|
                0 <= t < reversed@.len() ==> absorbed_statement(
                    stmts[stmts.len() - 1 - t],
                    unabsorbed_from(stmts, refs0, stmts.len() - t),
                    #[trigger] reversed@[t],
                ),
        decreases rest@.len(),
    {
        let ghost k = rest@.len() - 1;
        let s = rest.pop().unwrap();
        assert(s == stmts[k]);
        match s {
            MoveIRStatement::Expression(e) => {
                let (remaining, new_expr) = remove_moves(refs, e);
                reversed.push(MoveIRStatement::Expression(new_expr));
                refs = remaining;
            },
            other => {
                reversed.push(other);
            },
        }
        assert(rest@ =~= stmts.subrange(0, rest@.len() as int));
    }
    let ghost r0 = reversed@;
    let mut out: Vec<MoveIRStatement> = Vec::new();
    while reversed.len() > 0
        invariant
            r0.len() == stmts.len(),
            reversed@.len() <= r0.len(),
            reversed@ == r0.subrange(0, reversed@.len() as int),
            out@.len() + reversed@.len() == stmts.len(),
            forall|t: int|
                0 <= t < r0.len() ==> absorbed_statement(
                    stmts[stmts.len() - 1 - t],
                    unabsorbed_from(stmts, refs0, stmts.len() - t),
                    #[trigger] r0[t],
                ),
            forall|k: int|
                0 <= k < out@.len() ==> absorbed_statement(
                    stmts[k],
                    unabsorbed_from(stmts, refs0, k + 1),
                    #[trigger] out@[k],
                ),
        decreases reversed@.len(),
    {
        let ghost t = reversed@.len() - 1;
        let s = reversed.pop().unwrap();
        assert(s == r0[t]);
        out.push(s);
        assert(reversed@ =~= r0.subrange(0, reversed@.len() as int));
    }
    (out, refs)
}

/// Releases left at a later index include those left at an earlier one.
proof fn lemma_unabsorbed_shrinks(stmts: Seq<MoveIRStatement>, refs: Seq<Statement>, j: int, k: int, r: Statement)
    requires
        0 <= j <= k,
        unabsorbed_from(stmts, refs, j).contains(r),
    ensures
        unabsorbed_from(stmts, refs, k).contains(r),
    decreases k - j,
{
    if j < k {
        if j < stmts.len() {
            let later = unabsorbed_from(stmts, refs, j + 1);
            if let MoveIRStatement::Expression(e) = stmts[j] {
                later.lemma_filter_contains_rev(|x: Statement| !releases_into(x, e), r);
            }
        }
        lemma_unabsorbed_shrinks(stmts, refs, j + 1, k, r);
    }
}

/// No release left over after absorption could have been absorbed by any
/// expression statement of the body.
pub proof fn law_absorption_leaves_nothing_to_absorb(
    stmts: Seq<MoveIRStatement>,
    refs: Seq<Statement>,
    r: Statement,
    k: int,
)
    requires
        unabsorbed_from(stmts, refs, 0).contains(r),
        0 <= k < stmts.len(),
        stmts[k] is Expression,
    ensures
        !releases_into(r, stmts[k]->Expression_0),
{
    lemma_unabsorbed_shrinks(stmts, refs, 0, k, r);
    let e = stmts[k]->Expression_0;
    let pred = |x: Statement| !releases_into(x, e);
    let later = unabsorbed_from(stmts, refs, k + 1);
    assert(unabsorbed_from(stmts, refs, k) == later.filter(pred));
    let i = choose|i: int| 0 <= i < later.filter(pred).len() && later.filter(pred)[i] == r;
    later.lemma_filter_pred(pred, i);
}

/// A sequence of statements can be rendered when each of them can.
pub proof fn lemma_statements_renderable_from_all(s: Seq<MoveIRStatement>)
    requires
        forall|i: int| 0 <= i < s.len() ==> statement_renderable(#[trigger] s[i]),
    ensures
        statements_renderable(s),
    decreases s.len(),
{
    if s.len() > 0 {
        let p = s.subrange(0, s.len() - 1);
        assert forall|i: int| 0 <= i < p.len() implies statement_renderable(#[trigger] p[i]) by {
            assert(p[i] == s[i]);
        }
        lemma_statements_renderable_from_all(p);
    }
}

/// Absorbing releases keeps the statements of a body renderable.
proof fn lemma_absorbed_renderable(stmts: Seq<MoveIRStatement>, refs: Seq<Statement>, out: Seq<MoveIRStatement>)
    requires
        absorbed(stmts, refs, out),
        statements_renderable(stmts),
    ensures
        statements_renderable(out),
{
    lemma_statements_renderable_all(stmts);
    assert forall|k: int| 0 <= k < out.len() implies statement_renderable(#[trigger] out[k]) by {
        assert(absorbed_statement(stmts[k], unabsorbed_from(stmts, refs, k + 1), out[k]));
        if let MoveIRStatement::Expression(e) = stmts[k] {
            let r = unabsorbed_from(stmts, refs, k + 1);
            let e2 = out[k]->Expression_0;
            if last_release(r, e) >= 0 {
                lemma_moved_renderable(released_variable(r[last_release(r, e)]).unwrap(), e, e2);
            }
        }
    }
    lemma_statements_renderable_from_all(out);
}

/// A function of a contract or of a struct, to be generated as MoveIR.
pub struct MoveFunction {
    pub function_declaration: FunctionDeclaration,
    pub is_contract_function: bool,
    pub enclosing_type: Identifier,
}

/// The pieces of the modifier list of a generated function: `public` for
/// each `public` modifier; other modifiers are left out.
pub open spec fn modifier_parts(ms: Seq<Modifier>) -> Seq<Seq<char>>
    decreases ms.len(),
{
    if ms.len() == 0 {
        Seq::empty()
    } else if ms.last() is Public {
        modifier_parts(ms.drop_last()).push("public"@)
    } else {
        modifier_parts(ms.drop_last())
    }
}

/// The text of one parameter: its name, a colon and its type.
pub open spec fn parameter_part(p: (MoveIRExpression, MoveIRType)) -> Seq<char> {
    expression_text(p.0) + ": "@ + type_text(p.1)
}

/// The texts of the parameters, in order.
pub open spec fn parameter_parts(ps: Seq<(MoveIRExpression, MoveIRType)>) -> Seq<Seq<char>> {
    Seq::new(ps.len(), |i: int| parameter_part(ps[i]))
}

/// The texts of the tags, in order.
pub open spec fn tag_parts(tags: Seq<String>) -> Seq<Seq<char>> {
    Seq::new(tags.len(), |i: int| tags[i]@)
}

/// The name under which a function is generated: its mangled name where it
/// has one, else its own.
pub open spec fn generated_name(d: FunctionDeclaration) -> Seq<char> {
    match d.mangled_identifier {
        Some(m) => m@,
        None => d.head.identifier.token@,
    }
}

/// The text of the result type of a generated function: that of
/// `result_type` where results are returned and the function declares one,
/// else nothing.
pub open spec fn result_text(d: FunctionDeclaration, returns: bool, result_type: Option<MoveIRType>) -> Seq<char> {
    if returns && d.head.result_type is Some && result_type is Some {
        type_text(result_type->0)
    } else {
        Seq::empty()
    }
}

/// The text of a generated function from its pieces: modifiers, name,
/// parameters, result type (left out with its colon where it is empty),
/// tags and body.
pub open spec fn function_text(
    modifiers: Seq<char>,
    name: Seq<char>,
    parameters: Seq<char>,
    result: Seq<char>,
    tags: Seq<char>,
    body: Seq<char>,
) -> Seq<char> {
    if result.len() == 0 {
        " "@ + modifiers + " "@ + name + " ("@ + parameters + ") "@ + tags + " { \n "@ + body + " \n }"@
    } else {
        " "@ + modifiers + " "@ + name + " ("@ + parameters + "): "@ + result + " "@ + tags + " { \n "@ + body
            + " \n }"@
    }
}

/// The parameters of the scope of a function, none where it has no scope.
pub open spec fn scope_parameters(d: FunctionDeclaration) -> Seq<Parameter> {
    match d.scope_context {
        Some(s) => s.parameters@,
        None => Seq::empty(),
    }
}

/// `refs` are the statements that release the reference parameters of
/// `d`'s scope, in order.
pub open spec fn are_scope_releases(d: FunctionDeclaration, refs: Seq<Statement>) -> bool {
    &&& refs.len() == inout_parameters(scope_parameters(d)).len()
    &&& forall|k: int|
        0 <= k < refs.len() ==> releases_parameter(#[trigger] refs[k], inout_parameters(scope_parameters(d))[k])
}

/// The modifier list of a generated function: `public` for each `public`
/// modifier, separated by commas.
pub fn modifiers_string(ms: &Vec<Modifier>) -> (res: String)
    ensures
        res@ == join(modifier_parts(ms@), ","@),
{
    let mut modifiers = String::new();
    let ghost mut mparts: Seq<Seq<char>> = Seq::empty();
    let mut publics: usize = 0;
    let mut i: usize = 0;
    while i < ms.len()
        invariant
            i <= ms@.len(),
            publics == mparts.len(),
            publics <= i,
            mparts == modifier_parts(ms@.take(i as int)),
            modifiers@ == join(mparts, ","@),
        decreases ms@.len() - i,
    {
        proof {
            assert(ms@.take(i as int + 1).drop_last() =~= ms@.take(i as int));
        }
        if let Modifier::Public = ms[i] {
            proof {
                lemma_join_push(mparts, ","@, "public"@);
                reveal_strlit("public");
            }
            if publics > 0 {
                modifiers.append(",");
            }
            modifiers.append("public");
            proof {
                mparts = mparts.push("public"@);
            }
            publics = publics + 1;
        }
        i = i + 1;
    }
    proof {
        assert(ms@.take(ms@.len() as int) =~= ms@);
    }
    modifiers
}

/// The parameter list of a generated function: each parameter's name, a
/// colon and its type, separated by commas.
pub fn parameters_string(parameters: &Vec<(MoveIRExpression, MoveIRType)>) -> (res: String)
    requires
        forall|k: int| 0 <= k < parameters@.len() ==> renderable(#[trigger] parameters@[k].0),
    ensures
        res@ == join(parameter_parts(parameters@), ", "@),
{
    let mut params = String::new();
    let ghost pparts = parameter_parts(parameters@);
    let mut j: usize = 0;
    while j < parameters.len()
        invariant
            j <= parameters@.len(),
            pparts == parameter_parts(parameters@),
            forall|k: int| 0 <= k < parameters@.len() ==> renderable(#[trigger] parameters@[k].0),
            params@ == join(pparts.take(j as int), ", "@),
        decreases parameters@.len() - j,
    {
        proof {
            assert(pparts.take(j as int + 1) =~= pparts.take(j as int).push(pparts[j as int]));
            lemma_join_push(pparts.take(j as int), ", "@, pparts[j as int]);
            reveal_strlit(", ");
            reveal_strlit(": ");
        }
        if j > 0 {
            params.append(", ");
        }
        parameters[j].0.write(&mut params);
        params.append(": ");
        parameters[j].1.write(&mut params);
        j = j + 1;
    }
    proof {
        assert(pparts.take(parameters@.len() as int) =~= pparts);
    }
    params
}

impl MoveFunction {
    /// Generates the function. `parameters` holds the code of each
    /// parameter of the declaration, its name and its Move type, and
    /// `result_type` the Move type of the declared result; `body` holds the
    /// statements generated for the body. The body's statements absorb the
    /// releases of the reference parameters (see `absorb_releases`), are
    /// ordered declarations first and written one per line; the releases left
    /// over are statements, never bare names, so nothing more is emitted for
    /// them.
    pub fn generate(
        &self,
        _return: bool,
        parameters: &Vec<(MoveIRExpression, MoveIRType)>,
        result_type: Option<MoveIRType>,
        body: Vec<MoveIRStatement>,
    ) -> (res: String)
        requires
            statements_renderable(body@),
            forall|k: int| 0 <= k < parameters@.len() ==> renderable(#[trigger] parameters@[k].0),
        ensures
            exists|refs: Seq<Statement>, out: Seq<MoveIRStatement>|
                #![trigger absorbed(body@, refs, out)]
                are_scope_releases(self.function_declaration, refs) && absorbed(body@, refs, out) && res@
                    == function_text(
                    join(modifier_parts(self.function_declaration.head.modifiers@), ","@),
                    generated_name(self.function_declaration),
                    join(parameter_parts(parameters@), ", "@),
                    result_text(self.function_declaration, _return, result_type),
                    join(tag_parts(self.function_declaration.tags@), ""@),
                    statements_text(reordered(out)),
                ),
    {
        let d = &self.function_declaration;
        let modifiers = modifiers_string(&d.head.modifiers);
        // Name.
        let name = match &d.mangled_identifier {
            Some(m) => m.clone(),
            None => d.head.identifier.token.clone(),
        };
        let params = parameters_string(parameters);
        // Result type.
        let mut result = String::new();
        if _return && d.head.result_type.is_some() {
            if let Some(t) = &result_type {
                t.write(&mut result);
            }
        }
        // Tags.
        let tags = &d.tags;
        let mut tag_text = String::new();
        let ghost tparts = tag_parts(tags@);
        let mut t: usize = 0;
        while t < tags.len()
            invariant
                t <= tags@.len(),
                tparts == tag_parts(tags@),
                tag_text@ == join(tparts.take(t as int), ""@),
            decreases tags@.len() - t,
        {
            proof {
                assert(tparts.take(t as int + 1) =~= tparts.take(t as int).push(tparts[t as int]));
                lemma_join_push(tparts.take(t as int), ""@, tparts[t as int]);
                reveal_strlit("");
                assert(join(tparts.take(t as int), ""@) + ""@ =~= join(tparts.take(t as int), ""@));
            }
            tag_text.append(tags[t].as_str());
            t = t + 1;
        }
        proof {
            assert(tparts.take(tags@.len() as int) =~= tparts);
        }
        // Body.
        let references = match &d.scope_context {
            Some(scope) => release_references_of(&scope.parameters),
            None => Vec::new(),
        };
        let ghost refs = references@;
        let ghost stmts = body@;
        let (statements, _remaining) = absorb_releases(body, references);
        let ghost out = statements@;
        proof {
            lemma_absorbed_renderable(stmts, refs, out);
        }
        let context = FunctionContext {
            scope_context: ScopeContext { parameters: Vec::new(), local_variables: Vec::new(), counter: 0 },
            enclosing_type: self.enclosing_type.token.clone(),
            block_stack: vec![MoveIRBlock { statements }],
            in_struct_function: !self.is_contract_function,
            is_constructor: false,
        };
        let body_text = context.generate();
        // The whole.
        let mut res = String::new();
        proof {
            reveal_strlit(" ");
            reveal_strlit(" (");
            reveal_strlit(") ");
            reveal_strlit("): ");
            reveal_strlit(" { \n ");
            reveal_strlit(" \n }");
        }
        res.append(" ");
        res.append(modifiers.as_str());
        res.append(" ");
        res.append(name.as_str());
        res.append(" (");
        res.append(params.as_str());
        if result.as_str().unicode_len() == 0 {
            res.append(") ");
        } else {
            res.append("): ");
            res.append(result.as_str());
            res.append(" ");
        }
        res.append(tag_text.as_str());
        res.append(" { \n ");
        res.append(body_text.as_str());
        res.append(" \n }");
        proof {
            assert(are_scope_releases(self.function_declaration, refs));
            assert(absorbed(stmts, refs, out));
        }
        res
    }
}

} // verus!
