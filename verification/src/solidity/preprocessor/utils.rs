//! Expression-building helpers of the Solidity preprocessing pass.

use vstd::prelude::*;
use crate::ast::{BinOp, BinaryExpression, Expression, FunctionCall, Identifier, LineInfo, Parameter, Type};
use crate::text::{join, join_strings, starts_with, texts};
use crate::ast::Statement;

verus! {

/// Whether a call names one of the runtime helpers (`Quartz$...`).
pub fn is_ether_runtime_function_call(function_call: &FunctionCall) -> (res: bool)
    ensures
        res == "Quartz$"@.is_prefix_of(function_call.identifier.token@),
{
    starts_with(function_call.identifier.token.as_str(), "Quartz$")
}

/// The member access chain `e0.e1. ... .en`, nested to the right.
pub open spec fn dot_chain(s: Seq<Expression>) -> Expression
    decreases s.len(),
{
    if s.len() > 1 {
        Expression::BinaryExpression(
            BinaryExpression {
                lhs_expression: Box::new(s[0]),
                rhs_expression: Box::new(dot_chain(s.subrange(1, s.len() as int))),
                op: BinOp::Dot,
                line_info: LineInfo { line: 0, offset: 0 },
            },
        )
    } else {
        s[0]
    }
}

/// The member access chain of the given expressions, nested to the right.
pub fn construct_expression(expressions: Vec<Expression>) -> (res: Expression)
    requires
        expressions@.len() > 0,
    ensures
        res == dot_chain(expressions@),
    decreases expressions@.len(),
{
    let mut expression = expressions;
    if expression.len() > 1 {
        let ghost all = expression@;
        let first = expression.remove(0);
        proof {
            assert(expression@ =~= all.subrange(1, all.len() as int));
        }
        Expression::BinaryExpression(
            BinaryExpression {
                lhs_expression: Box::new(first),
                rhs_expression: Box::new(construct_expression(expression)),
                op: BinOp::Dot,
                line_info: LineInfo { line: 0, offset: 0 },
            },
        )
    } else {
        expression.remove(0)
    }
}

/// A parameter of the given name and type, with no default value.
pub fn construct_parameter(name: String, t: Type) -> (res: Parameter)
    ensures
        res.identifier.token == name,
        res.identifier.enclosing_type is None,
        res.identifier.line_info == (LineInfo { line: 0, offset: 0 }),
        res.type_assignment == t,
        res.expression is None,
        res.line_info == (LineInfo { line: 0, offset: 0 }),
{
    let identifier = Identifier {
        token: name,
        enclosing_type: None,
        line_info: LineInfo { line: 0, offset: 0 },
    };
    Parameter {
        identifier,
        type_assignment: t,
        expression: None,
        line_info: LineInfo { line: 0, offset: 0 },
    }
}


/// The name a function `name` of type `type_id` is emitted under:
/// `type_id$name`, then, where it has parameters, `$` and the names of their
/// types joined by `_`.
pub open spec fn solidity_function_name(name: Seq<char>, type_names: Seq<Seq<char>>, type_id: Seq<char>) -> Seq<char> {
    type_id + "$"@ + name + (if type_names.len() == 0 {
        Seq::empty()
    } else {
        "$"@
    }) + join(type_names, "_"@)
}

/// The name a function is emitted under, from its name, the names of its
/// parameters' types and the type it belongs to.
pub fn mangle_solidity_function_name(string: String, param_type_names: Vec<String>, type_id: &str) -> (res: String)
    ensures
        res@ == solidity_function_name(string@, texts(param_type_names@), type_id@),
{
    let parameters = join_strings(&param_type_names, "_");
    let mut res = String::from_str(type_id);
    res.append("$");
    res.append(string.as_str());
    if param_type_names.len() > 0 {
        res.append("$");
    }
    res.append(parameters.as_str());
    res
}

/// The properties that have a default value, each with that value, in
/// their order.
pub open spec fn valued_properties(properties: Seq<(Identifier, Option<Expression>)>) -> Seq<(Identifier, Expression)>
    decreases properties.len(),
{
    if properties.len() == 0 {
        Seq::empty()
    } else {
        let rest = valued_properties(properties.drop_last());
        match properties.last().1 {
            Some(v) => rest.push((properties.last().0, v)),
            None => rest,
        }
    }
}

/// `s` assigns `value` to the property `id` of the type `enclosing`:
/// `enclosing.id = value`.
pub open spec fn is_default_assignment(s: Statement, enclosing: Seq<char>, id: Identifier, value: Expression) -> bool {
    &&& s matches Statement::Expression(Expression::BinaryExpression(b))
    &&& b.op is Equal
    &&& *b.rhs_expression == value
    &&& b.line_info == (LineInfo { line: 0, offset: 0 })
    &&& *b.lhs_expression matches Expression::Identifier(i)
    &&& i.token == id.token
    &&& i.line_info == id.line_info
    &&& i.enclosing_type matches Some(e)
    &&& e@ == enclosing
}

/// The assignments of their default values to the properties of the type
/// `enclosing` that have one (each property given by its identifier and its
/// default value, if any), in their order.
pub fn default_assignments(enclosing: &str, properties: Vec<(Identifier, Option<Expression>)>) -> (res: Vec<Statement>)
    ensures
        res@.len() == valued_properties(properties@).len(),
        forall|k: int|
            0 <= k < res@.len() ==> is_default_assignment(
                #[trigger] res@[k],
                enclosing@,
                valued_properties(properties@)[k].0,
                valued_properties(properties@)[k].1,
            ),
{
    let ghost all = properties@;
    let mut rest = properties;
    let mut res: Vec<Statement> = Vec::new();
    let total: usize = rest.len();
    assert(all.len() == total);
    let mut i: usize = 0;
    while rest.len() > 0
        invariant
            i <= all.len() <= usize::MAX,
            rest@ == all.subrange(i as int, all.len() as int),
            res@.len() == valued_properties(all.take(i as int)).len(),
            forall|k: int|
                0 <= k < res@.len() ==> is_default_assignment(
                    #[trigger] res@[k],
                    enclosing@,
                    valued_properties(all.take(i as int))[k].0,
                    valued_properties(all.take(i as int))[k].1,
                ),
        decreases rest@.len(),
    {
        let (identifier, value) = rest.remove(0);
        proof {
            assert(all.take(i as int + 1).drop_last() =~= all.take(i as int));
            assert(all.take(i as int + 1).last() == all[i as int]);
        }
        if let Some(v) = value {
            let lhs = Identifier {
                token: identifier.token,
                enclosing_type: Some(String::from_str(enclosing)),
                line_info: identifier.line_info,
            };
            res.push(
                Statement::Expression(
                    Expression::BinaryExpression(
                        BinaryExpression {
                            lhs_expression: Box::new(Expression::Identifier(lhs)),
                            rhs_expression: Box::new(v),
                            op: BinOp::Equal,
                            line_info: LineInfo { line: 0, offset: 0 },
                        },
                    ),
                ),
            );
        }
        i = i + 1;
        assert(rest@ =~= all.subrange(i as int, all.len() as int));
    }
    proof {
        assert(all.take(all.len() as int) =~= all);
    }
    res
}

} // verus!
