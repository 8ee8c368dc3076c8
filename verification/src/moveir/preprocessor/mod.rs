//! The MoveIR preprocessing pass: rewrites applied to the syntax tree before
//! MoveIR is generated from it.

pub mod utils;

use vstd::prelude::*;
use crate::ast::{
    BinOp, BinaryExpression, Expression, FunctionDeclaration, Identifier, LineInfo, Parameter, ReturnStatement,
    SpecialDeclaration, SpecialSignatureDeclaration, Statement, Type, VariableDeclaration,
};
use crate::equality::{identifiers_equal, same_identifier, same_type, types_equal};
use self::utils::{declares, delete_declarations, is_declaration};

verus! {

/// The expression that an assignment to a declared variable becomes: the
/// variable (`self` where it is named so) assigned the same value.
pub open spec fn declared_assignment(v: VariableDeclaration, b: BinaryExpression) -> Expression {
    Expression::BinaryExpression(
        BinaryExpression {
            lhs_expression: Box::new(
                if v.identifier.token@ == "self"@ {
                    Expression::SelfExpression
                } else {
                    Expression::Identifier(v.identifier)
                },
            ),
            rhs_expression: b.rhs_expression,
            op: BinOp::Equal,
            line_info: b.line_info,
        },
    )
}

/// Whether a variable of the same name and type as `v` is among `locals`.
pub open spec fn declared_among(locals: Seq<VariableDeclaration>, v: VariableDeclaration) -> bool {
    exists|i: int|
        0 <= i < locals.len() && same_identifier(#[trigger] locals[i].identifier, v.identifier) && same_type(
            locals[i].variable_type,
            v.variable_type,
        )
}

/// `s` assigns a dictionary literal: such assignments leave an
/// initialiser's body, the dictionaries being published on their own.
pub open spec fn assigns_dictionary_literal(s: Statement) -> bool {
    s matches Statement::Expression(Expression::BinaryExpression(be)) && be.op is Equal
        && *be.rhs_expression is DictionaryLiteral
}

/// `t` is the statement `s` of an initialiser once the caller's signer is
/// read as an address: an assignment from the parameter `_contract_caller`
/// assigns `Signer.address_of(copy(_contract_caller))` instead; any other
/// statement is kept.
pub open spec fn caller_read_as_address(s: Statement, t: Statement) -> bool {
    match s {
        Statement::Expression(Expression::BinaryExpression(be)) => {
            if *be.rhs_expression matches Expression::Identifier(id) && id.token@ == "_contract_caller"@ {
                &&& t matches Statement::Expression(Expression::BinaryExpression(b))
                &&& b.lhs_expression == be.lhs_expression
                &&& b.op == be.op
                &&& b.line_info == be.line_info
                &&& *b.rhs_expression matches Expression::RawAssembly(a, None)
                &&& a@ == "Signer.address_of(copy(_contract_caller))"@
            } else {
                t == s
            }
        },
        _ => t == s,
    }
}

/// `p` is the parameter `_contract_caller: &signer` that carries the caller.
pub open spec fn is_caller_parameter(p: Parameter) -> bool {
    &&& p.identifier.token@ == "_contract_caller"@
    &&& p.identifier.enclosing_type is None
    &&& p.identifier.line_info == (LineInfo { line: 0, offset: 0 })
    &&& p.type_assignment matches Type::UserDefinedType(t)
    &&& t.token@ == "&signer"@
    &&& t.enclosing_type is None
    &&& t.line_info == (LineInfo { line: 0, offset: 0 })
    &&& p.expression is None
    &&& p.line_info == (LineInfo { line: 0, offset: 0 })
}

/// The preprocessing pass.
pub struct MovePreProcessor {}

impl MovePreProcessor {
    /// Rewrites an expression on entering it. An access `E.c` to a case of an
    /// enumeration becomes the case's value, which the environment gives
    /// (`enum_value`) when `E` is a declared enumeration with a case `c` of a
    /// known type. An assignment `let v: T = e` becomes `v = e` (`self = e`
    /// for a variable named `self`), and the declaration joins the locals of
    /// the enclosing declaration: in a function only where no local of the
    /// same name and type is there yet (`check_present`), elsewhere always.
    /// Any other expression is left as it is.
    pub fn start_expression(
        expression: Expression,
        enum_value: Option<Expression>,
        locals: &mut Vec<VariableDeclaration>,
        check_present: bool,
    ) -> (res: Expression)
        ensures
            match expression {
                Expression::BinaryExpression(b) => {
                    if b.op is Dot && *b.lhs_expression is Identifier && *b.rhs_expression is Identifier
                        && enum_value is Some {
                        &&& res == enum_value.unwrap()
                        &&& final(locals)@ == old(locals)@
                    } else if b.op is Equal && *b.lhs_expression is VariableDeclaration {
                        let v = b.lhs_expression->VariableDeclaration_0;
                        &&& res == declared_assignment(v, b)
                        &&& final(locals)@ == if check_present && declared_among(old(locals)@, v) {
                            old(locals)@
                        } else {
                            old(locals)@.push(v)
                        }
                    } else {
                        &&& res == expression
                        &&& final(locals)@ == old(locals)@
                    }
                },
                _ => {
                    &&& res == expression
                    &&& final(locals)@ == old(locals)@
                },
            },
    {
        match expression {
            Expression::BinaryExpression(b) => {
                let is_enum_access = match (&b.op, &*b.lhs_expression, &*b.rhs_expression) {
                    (BinOp::Dot, Expression::Identifier(_), Expression::Identifier(_)) => true,
                    _ => false,
                };
                if is_enum_access {
                    if let Some(value) = enum_value {
                        return value;
                    }
                    return Expression::BinaryExpression(b);
                }
                let is_equal = match b.op {
                    BinOp::Equal => true,
                    _ => false,
                };
                if !is_equal {
                    return Expression::BinaryExpression(b);
                }
                let BinaryExpression { lhs_expression, rhs_expression, op, line_info } = b;
                match *lhs_expression {
                    Expression::VariableDeclaration(v) => {
                        let lhs = if v.identifier.token == String::from_str("self") {
                            Expression::SelfExpression
                        } else {
                            Expression::Identifier(v.identifier.deep_clone())
                        };
                        let mut present = false;
                        if check_present {
                            let mut i: usize = 0;
                            while i < locals.len()
                                invariant
                                    i <= locals@.len(),
                                    present <==> exists|j: int|
                                        0 <= j < i && same_identifier(
                                            #[trigger] locals@[j].identifier,
                                            v.identifier,
                                        ) && same_type(locals@[j].variable_type, v.variable_type),
                                decreases locals@.len() - i,
                            {
                                if identifiers_equal(&locals[i].identifier, &v.identifier) && types_equal(
                                    &locals[i].variable_type,
                                    &v.variable_type,
                                ) {
                                    present = true;
                                }
                                i = i + 1;
                            }
                        }
                        if !present {
                            locals.push(v);
                        }
                        Expression::BinaryExpression(
                            BinaryExpression {
                                lhs_expression: Box::new(lhs),
                                rhs_expression,
                                op: BinOp::Equal,
                                line_info,
                            },
                        )
                    },
                    other => Expression::BinaryExpression(
                        BinaryExpression { lhs_expression: Box::new(other), rhs_expression, op, line_info },
                    ),
                }
            },
            _ => expression,
        }
    }

    /// Completes a function declaration on leaving it: its body becomes the
    /// declarations that the pass gathered for it (`declarations`) followed
    /// by its statements without their variable declarations, and it takes
    /// on the tags gathered for it. A function without a result type then
    /// ends in `return;` (unless its body already ends in a return); one with
    /// a result type starts by declaring the variable `ret` of that type.
    pub fn finish_function_declaration(
        declaration: FunctionDeclaration,
        declarations: Vec<Statement>,
        tags: Vec<String>,
    ) -> (res: FunctionDeclaration)
        ensures
            res.head == declaration.head,
            res.scope_context == declaration.scope_context,
            res.mangled_identifier == declaration.mangled_identifier,
            res.is_external == declaration.is_external,
            res.tags@ == declaration.tags@ + tags@,
            ({
                let kept = declarations@ + declaration.body@.filter(|s: Statement| !is_declaration(s));
                match declaration.head.result_type {
                    None => res.body@.len() == (if kept.len() > 0 && kept.last() is ReturnStatement {
                        kept.len()
                    } else {
                        kept.len() + 1
                    }) && res.body@.subrange(0, kept.len() as int) == kept && (res.body@.len() > kept.len()
                        ==> (res.body@.last() matches Statement::ReturnStatement(r) && r.expression is None
                        && r.cleanup@.len() == 0 && r.line_info == (LineInfo { line: 0, offset: 0 }))),
                    Some(t) => {
                        &&& res.body@.len() == kept.len() + 1
                        &&& declares(res.body@[0], "ret"@, t)
                        &&& res.body@.subrange(1, res.body@.len() as int) == kept
                    },
                }
            }),
    {
        let FunctionDeclaration { head, body, scope_context, tags: mut own_tags, mangled_identifier, is_external } =
            declaration;
        let mut tags = tags;
        own_tags.append(&mut tags);
        let mut statements = declarations;
        let mut deletions = delete_declarations(body);
        statements.append(&mut deletions);
        let ghost kept = statements@;
        match &head.result_type {
            None => {
                let ends_in_return = statements.len() > 0 && match &statements[statements.len() - 1] {
                    Statement::ReturnStatement(_) => true,
                    _ => false,
                };
                if !ends_in_return {
                    statements.push(
                        Statement::ReturnStatement(
                            ReturnStatement {
                                expression: None,
                                cleanup: Vec::new(),
                                line_info: LineInfo { line: 0, offset: 0 },
                            },
                        ),
                    );
                }
                assert(statements@.subrange(0, kept.len() as int) =~= kept);
            },
            Some(t) => {
                let ret = VariableDeclaration {
                    declaration_token: None,
                    identifier: Identifier {
                        token: String::from_str("ret"),
                        enclosing_type: None,
                        line_info: LineInfo { line: 0, offset: 0 },
                    },
                    variable_type: t.deep_clone(),
                    expression: None,
                };
                statements.insert(0, Statement::Expression(Expression::VariableDeclaration(ret)));
                assert(statements@.subrange(1, statements@.len() as int) =~= kept);
            },
        }
        FunctionDeclaration { head, body: statements, scope_context, tags: own_tags, mangled_identifier, is_external }
    }

    /// Prepares an initialiser or fallback on entering it: assignments of
    /// dictionary literals leave its body, the caller's signer is read as an
    /// address where the body assigns it, and where the enclosing contract
    /// behaviour binds the caller (`binds_caller`) the declaration takes the
    /// caller's signer as a last parameter.
    pub fn start_special_declaration(declaration: SpecialDeclaration, binds_caller: bool) -> (res: SpecialDeclaration)
        ensures
            res.head.attributes == declaration.head.attributes,
            res.head.modifiers == declaration.head.modifiers,
            res.head.mutates == declaration.head.mutates,
            res.head.special_token == declaration.head.special_token,
            res.head.enclosing_type == declaration.head.enclosing_type,
            res.scope_context == declaration.scope_context,
            res.generated == declaration.generated,
            !binds_caller ==> res.head.parameters@ == declaration.head.parameters@,
            binds_caller ==> res.head.parameters@.len() == declaration.head.parameters@.len() + 1
                && res.head.parameters@.drop_last() == declaration.head.parameters@ && is_caller_parameter(
                res.head.parameters@.last(),
            ),
            ({
                let kept = declaration.body@.filter(|s: Statement| !assigns_dictionary_literal(s));
                &&& res.body@.len() == kept.len()
                &&& forall|i: int| 0 <= i < kept.len() ==> caller_read_as_address(#[trigger] kept[i], res.body@[i])
            }),
    {
        let SpecialDeclaration { head, body, scope_context, generated } = declaration;
        let ghost original = body@;
        let ghost pred = |s: Statement| !assigns_dictionary_literal(s);
        let caller = String::from_str("_contract_caller");
        let mut rest = body;
        let total: usize = rest.len();
        let mut members: Vec<Statement> = Vec::new();
        let mut i: usize = 0;
        while i < total
            invariant
                total == original.len(),
                i <= total,
                caller@ == "_contract_caller"@,
                pred == (|s: Statement| !assigns_dictionary_literal(s)),
                rest@ == original.subrange(i as int, original.len() as int),
                members@.len() == original.subrange(0, i as int).filter(pred).len(),
                forall|k: int|
                    0 <= k < members@.len() ==> caller_read_as_address(
                        #[trigger] original.subrange(0, i as int).filter(pred)[k],
                        members@[k],
                    ),
            decreases total - i,
        {
            let ghost prefix = original.subrange(0, i as int);
            let statement = rest.remove(0);
            let ghost st = statement;
            proof {
                let next = original.subrange(0, i as int + 1);
                assert(next.drop_last() =~= prefix);
                assert(next.last() == statement);
                reveal_with_fuel(Seq::<_>::filter, 1);
                assert(next.filter(pred) == if pred(statement) {
                    prefix.filter(pred).push(statement)
                } else {
                    prefix.filter(pred)
                });
            }
            match statement {
                Statement::Expression(Expression::BinaryExpression(be)) => {
                    let is_dictionary = match (&be.op, &*be.rhs_expression) {
                        (BinOp::Equal, Expression::DictionaryLiteral(_)) => true,
                        _ => false,
                    };
                    let from_caller = match &*be.rhs_expression {
                        Expression::Identifier(id) => id.token == caller,
                        _ => false,
                    };
                    if !is_dictionary {
                        if from_caller {
                            let BinaryExpression { lhs_expression, rhs_expression, op, line_info } = be;
                            members.push(
                                Statement::Expression(
                                    Expression::BinaryExpression(
                                        BinaryExpression {
                                            lhs_expression,
                                            rhs_expression: Box::new(
                                                Expression::RawAssembly(
                                                    String::from_str("Signer.address_of(copy(_contract_caller))"),
                                                    None,
                                                ),
                                            ),
                                            op,
                                            line_info,
                                        },
                                    ),
                                ),
                            );
                        } else {
                            members.push(Statement::Expression(Expression::BinaryExpression(be)));
                        }
                    }
                },
                other => members.push(other),
            }
            i = i + 1;
            assert(rest@ =~= original.subrange(i as int, original.len() as int));
        }
        proof {
            assert(original.subrange(0, original.len() as int) =~= original);
        }
        let SpecialSignatureDeclaration { attributes, modifiers, mutates, mut parameters, special_token, enclosing_type } =
            head;
        if binds_caller {
            parameters.push(
                Parameter {
                    identifier: Identifier {
                        token: String::from_str("_contract_caller"),
                        enclosing_type: None,
                        line_info: LineInfo { line: 0, offset: 0 },
                    },
                    type_assignment: Type::UserDefinedType(
                        Identifier {
                            token: String::from_str("&signer"),
                            enclosing_type: None,
                            line_info: LineInfo { line: 0, offset: 0 },
                        },
                    ),
                    expression: None,
                    line_info: LineInfo { line: 0, offset: 0 },
                },
            );
        }
        SpecialDeclaration {
            head: SpecialSignatureDeclaration { attributes, modifiers, mutates, parameters, special_token, enclosing_type },
            body: members,
            scope_context,
            generated,
        }
    }
}

} // verus!
