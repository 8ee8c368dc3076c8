//! Statement-level helpers of the MoveIR preprocessing pass.

use vstd::prelude::*;
use crate::seqs::lemma_filter_idempotent;
use crate::ast::{
    line_info_of, Assertion, BinOp, BinaryExpression, CallerProtection, ContractBehaviourDeclaration,
    Expression, FunctionArgument, FunctionCall, FunctionDeclaration, Identifier, LineInfo, Parameter,
    ReturnStatement, Statement, Type, VariableDeclaration,
};
use vstd::string::StrSliceExecFns;
use crate::solidity::preprocessor::utils::dot_chain;
use crate::equality::{
    arguments_equal, calls_equal, identifiers_equal, opt_strings_equal, same_arguments, same_binary, same_call, same_expressions, same_pairs,
    same_expression, same_identifier, same_opt_string, same_type, types_equal, expressions_equal,
    lemma_same_expression_reflexive,
};

verus! {

/// `s` is the statement `_ = expression`, its left side raw assembly `_`
/// typed with `expression_type`, that releases a reference at the end of a
/// function.
pub open spec fn is_release(s: Statement, expression: Expression, expression_type: Type) -> bool {
    &&& s matches Statement::Expression(Expression::BinaryExpression(be))
    &&& *be.lhs_expression matches Expression::RawAssembly(name, t)
    &&& name@ == "_"@
    &&& t == Some(expression_type)
    &&& *be.rhs_expression == expression
    &&& be.op == BinOp::Equal
    &&& be.line_info == line_info_of(expression)
}

/// The statement that releases `expression` of type `expression_type`.
pub fn release(expression: Expression, expression_type: Type) -> (res: Statement)
    ensures
        is_release(res, expression, expression_type),
{
    let line_info = expression.get_line_info();
    Statement::Expression(
        Expression::BinaryExpression(
            BinaryExpression {
                lhs_expression: Box::new(
                    Expression::RawAssembly(String::from_str("_"), Some(expression_type)),
                ),
                rhs_expression: Box::new(expression),
                op: BinOp::Equal,
                line_info,
            },
        ),
    )
}

/// Whether a statement only declares a variable.
pub open spec fn is_declaration(s: Statement) -> bool {
    s matches Statement::Expression(Expression::VariableDeclaration(_))
}

/// The statements without the variable declarations, in their order.
pub fn delete_declarations(statements: Vec<Statement>) -> (res: Vec<Statement>)
    ensures
        res@ == statements@.filter(|s: Statement| !is_declaration(s)),
{
    let ghost original = statements@;
    let ghost pred = |s: Statement| !is_declaration(s);
    assert(original.len() == statements.len());
    let mut rest = statements;
    let mut kept: Vec<Statement> = Vec::new();
    let mut i: usize = 0;
    while rest.len() > 0
        invariant
            i + rest@.len() == original.len(),
            original.len() <= usize::MAX,
            pred == (|s: Statement| !is_declaration(s)),
            rest@ == original.subrange(i as int, original.len() as int),
            kept@ == original.subrange(0, i as int).filter(pred),
        decreases rest@.len(),
    {
        let ghost prefix = original.subrange(0, i as int);
        let statement = rest.remove(0);
        let declaration = match &statement {
            Statement::Expression(Expression::VariableDeclaration(_)) => true,
            _ => false,
        };
        proof {
            let next = original.subrange(0, i as int + 1);
            assert(next.drop_last() =~= prefix);
            assert(next.last() == statement);
            assert(rest@ =~= original.subrange(i as int + 1, original.len() as int));
            reveal_with_fuel(Seq::<_>::filter, 1);
            assert(next.filter(pred) == if pred(statement) {
                prefix.filter(pred).push(statement)
            } else {
                prefix.filter(pred)
            });
        }
        if !declaration {
            kept.push(statement);
        }
        i = i + 1;
    }
    proof {
        assert(original.subrange(0, i as int) =~= original);
    }
    kept
}

/// Deleting the declarations twice deletes no more than deleting them once.
pub proof fn law_delete_declarations_idempotent(statements: Seq<Statement>)
    ensures
        statements.filter(|s: Statement| !is_declaration(s)).filter(|s: Statement| !is_declaration(s))
            == statements.filter(|s: Statement| !is_declaration(s)),
{
    lemma_filter_idempotent(statements, |s: Statement| !is_declaration(s));
}

/// Release statements are not declarations: deleting the declarations keeps
/// every release.
pub proof fn law_releases_survive_delete_declarations(s: Statement, expression: Expression, expression_type: Type)
    requires
        is_release(s, expression, expression_type),
    ensures
        !is_declaration(s),
{
}

/// The member access chain of the given expressions, nested to the right.
pub fn construct_expression(expressions: Vec<Expression>) -> (res: Expression)
    requires
        expressions@.len() > 0,
    ensures
        res == dot_chain(expressions@),
{
    crate::solidity::preprocessor::utils::construct_expression(expressions)
}

/// What the declarations of a contract say of the name in a caller
/// protection: a property holding an address; a property initialised with a
/// literal list of addresses (the elements of an array, or the values of a
/// dictionary, in order); a predicate function, called with the contract's
/// address and the caller's; or a function of the contract's address alone
/// that returns the allowed caller.
pub enum ProtectionTarget {
    Address,
    AddressList(Vec<Expression>),
    Predicate,
    ZeroAryFunction,
}

/// The text of the caller's address in generated code.
pub open spec fn signer_text(caller_id: Seq<char>) -> Seq<char> {
    "Signer.address_of(copy("@ + caller_id + "))"@
}

/// The origin of the file, the position of generated code.
pub open spec fn no_line() -> LineInfo {
    LineInfo { line: 0, offset: 0 }
}

/// `lhs == signer`: the comparison of an address with the caller's.
pub open spec fn caller_comparison(lhs: Expression, signer: String) -> Expression {
    Expression::BinaryExpression(
        BinaryExpression {
            lhs_expression: Box::new(lhs),
            rhs_expression: Box::new(Expression::RawAssembly(signer, None)),
            op: BinOp::DoubleEqual,
            line_info: no_line(),
        },
    )
}

/// The disjunction of the expressions, grouped to the left.
pub open spec fn or_fold(items: Seq<Expression>) -> Expression
    decreases items.len(),
{
    if items.len() <= 1 {
        items[0]
    } else {
        Expression::BinaryExpression(
            BinaryExpression {
                lhs_expression: Box::new(or_fold(items.drop_last())),
                rhs_expression: Box::new(items.last()),
                op: BinOp::Or,
                line_info: no_line(),
            },
        )
    }
}

/// The name of a caller protection, qualified by the contract's type.
pub open spec fn protection_identifier(c: CallerProtection, en_ident: Identifier) -> Identifier {
    Identifier {
        token: c.identifier.token,
        enclosing_type: Some(en_ident.token),
        line_info: c.identifier.line_info,
    }
}

/// `a` passes the contract's address, `address_this`, by position.
pub open spec fn is_address_this_argument(a: FunctionArgument) -> bool {
    &&& a.identifier is None
    &&& a.expression matches Expression::Identifier(i)
    &&& i.token@ == "address_this"@
    &&& i.enclosing_type is None
    &&& i.line_info == no_line()
}

/// `e` calls the protection's function with the contract's address, and,
/// for a predicate, the caller's.
pub open spec fn is_protection_call(e: Expression, c: CallerProtection, en_ident: Identifier, signer: String, predicate: bool) -> bool {
    &&& e matches Expression::FunctionCall(fc)
    &&& fc.identifier == protection_identifier(c, en_ident)
    &&& fc.mangled_identifier is None
    &&& fc.arguments@.len() == (if predicate { 2int } else { 1int })
    &&& is_address_this_argument(fc.arguments@[0])
    &&& predicate ==> fc.arguments@[1] == (FunctionArgument {
        identifier: None,
        expression: Expression::RawAssembly(signer, None),
    })
}

/// Whether the protection adds nothing: a function protecting itself.
pub open spec fn protects_itself(c: CallerProtection, t: ProtectionTarget, function_name: Seq<char>) -> bool {
    (t is Predicate || t is ZeroAryFunction) && c.identifier.token@ == function_name
}

/// `e` is the condition that protection `c` puts on the caller: equality
/// with the property's address, with one of the listed addresses, the
/// predicate's verdict, or equality with the function's result.
pub open spec fn is_protection_predicate(e: Expression, c: CallerProtection, t: ProtectionTarget, en_ident: Identifier, signer: String) -> bool {
    match t {
        ProtectionTarget::Address => e == caller_comparison(
            Expression::Identifier(protection_identifier(c, en_ident)),
            signer,
        ),
        ProtectionTarget::AddressList(elements) => e == or_fold(
            elements@.map_values(|x: Expression| caller_comparison(x, signer)),
        ),
        ProtectionTarget::Predicate => is_protection_call(e, c, en_ident, signer, true),
        ProtectionTarget::ZeroAryFunction => {
            &&& e matches Expression::BinaryExpression(b)
            &&& is_protection_call(*b.lhs_expression, c, en_ident, signer, false)
            &&& *b.rhs_expression == Expression::RawAssembly(signer, None)
            &&& b.op == BinOp::DoubleEqual
            &&& b.line_info == no_line()
        },
    }
}

/// `items` are the conditions of the protections, in order, leaving out the
/// functions that protect themselves.
pub open spec fn are_protection_predicates(
    protections: Seq<CallerProtection>,
    targets: Seq<ProtectionTarget>,
    items: Seq<Expression>,
    en_ident: Identifier,
    signer: String,
    function_name: Seq<char>,
) -> bool
    decreases protections.len(),
{
    if protections.len() == 0 {
        items.len() == 0
    } else {
        let c = protections.last();
        let t = targets[protections.len() - 1];
        if protects_itself(c, t, function_name) {
            are_protection_predicates(protections.drop_last(), targets, items, en_ident, signer, function_name)
        } else {
            &&& items.len() > 0
            &&& is_protection_predicate(items.last(), c, t, en_ident, signer)
            &&& are_protection_predicates(
                protections.drop_last(),
                targets,
                items.drop_last(),
                en_ident,
                signer,
                function_name,
            )
        }
    }
}

/// A function protecting only itself asks nothing of its callers: where
/// every protection names the function being protected, there are no
/// conditions, and the predicate is `None`.
pub proof fn law_self_protection_asks_nothing(
    protections: Seq<CallerProtection>,
    targets: Seq<ProtectionTarget>,
    items: Seq<Expression>,
    en_ident: Identifier,
    signer: String,
    function_name: Seq<char>,
)
    requires
        protections.len() <= targets.len(),
        forall|i: int| 0 <= i < protections.len() ==> protects_itself(#[trigger] protections[i], targets[i], function_name),
        are_protection_predicates(protections, targets, items, en_ident, signer, function_name),
    ensures
        items.len() == 0,
    decreases protections.len(),
{
    if protections.len() > 0 {
        let p = protections.drop_last();
        assert(protects_itself(protections[protections.len() - 1], targets[protections.len() - 1], function_name));
        assert forall|i: int| 0 <= i < p.len() implies protects_itself(#[trigger] p[i], targets[i], function_name) by {
            assert(p[i] == protections[i]);
        }
        law_self_protection_asks_nothing(p, targets, items, en_ident, signer, function_name);
    }
}

/// Every list of allowed addresses is non-empty.
pub open spec fn address_lists_nonempty(targets: Seq<ProtectionTarget>) -> bool {
    forall|i: int|
        0 <= i < targets.len() ==> (#[trigger] targets[i] matches ProtectionTarget::AddressList(l) ==> l@.len()
            > 0)
}

/// The comparison of `lhs` with the caller's address.
fn make_caller_comparison(lhs: Expression, signer: &String) -> (res: Expression)
    ensures
        res == caller_comparison(lhs, *signer),
{
    Expression::BinaryExpression(
        BinaryExpression {
            lhs_expression: Box::new(lhs),
            rhs_expression: Box::new(Expression::RawAssembly(signer.clone(), None)),
            op: BinOp::DoubleEqual,
            line_info: LineInfo { line: 0, offset: 0 },
        },
    )
}

/// Adds one more disjunct to a disjunction being built from the left.
fn or_push(acc: Option<Expression>, e: Expression, Ghost(items): Ghost<Seq<Expression>>) -> (res: Expression)
    requires
        items.len() == 0 ==> acc is None,
        items.len() > 0 ==> acc == Some(or_fold(items)),
    ensures
        res == or_fold(items.push(e)),
{
    proof {
        assert(items.push(e).drop_last() =~= items);
    }
    match acc {
        None => e,
        Some(a) => Expression::BinaryExpression(
            BinaryExpression {
                lhs_expression: Box::new(a),
                rhs_expression: Box::new(e),
                op: BinOp::Or,
                line_info: LineInfo { line: 0, offset: 0 },
            },
        ),
    }
}

/// The identifier `address_this`, passed by position.
fn address_this_argument() -> (res: FunctionArgument)
    ensures
        is_address_this_argument(res),
{
    FunctionArgument {
        identifier: None,
        expression: Expression::Identifier(
            Identifier {
                token: String::from_str("address_this"),
                enclosing_type: None,
                line_info: LineInfo { line: 0, offset: 0 },
            },
        ),
    }
}

/// The condition that one protection puts on the caller.
fn protection_predicate(c: &CallerProtection, t: ProtectionTarget, en_ident: &Identifier, signer: &String) -> (res: Expression)
    requires
        t matches ProtectionTarget::AddressList(l) ==> l@.len() > 0,
    ensures
        is_protection_predicate(res, *c, t, *en_ident, *signer),
{
    let ident = Identifier {
        token: c.identifier.token.clone(),
        enclosing_type: Some(en_ident.token.clone()),
        line_info: c.identifier.line_info.deep_clone(),
    };
    match t {
        ProtectionTarget::Address => make_caller_comparison(Expression::Identifier(ident), signer),
        ProtectionTarget::AddressList(elements) => {
            let ghost original = elements@;
            assert(original.len() == elements.len());
            let ghost compared = original.map_values(|x: Expression| caller_comparison(x, *signer));
            let mut rest = elements;
            let mut acc: Option<Expression> = None;
            let mut i: usize = 0;
            while rest.len() > 0
                invariant
                    i + rest@.len() == original.len(),
                    original.len() <= usize::MAX,
                    original.len() > 0,
                    rest@ == original.subrange(i as int, original.len() as int),
                    compared == original.map_values(|x: Expression| caller_comparison(x, *signer)),
                    i == 0 ==> acc is None,
                    i > 0 ==> acc == Some(or_fold(compared.subrange(0, i as int))),
                decreases rest@.len(),
            {
                let x = rest.remove(0);
                assert(x == original[i as int]);
                let e = make_caller_comparison(x, signer);
                assert(compared.subrange(0, i as int + 1) =~= compared.subrange(0, i as int).push(e));
                let next = or_push(acc, e, Ghost(compared.subrange(0, i as int)));
                acc = Some(next);
                i = i + 1;
                assert(rest@ =~= original.subrange(i as int, original.len() as int));
            }
            assert(compared.subrange(0, i as int) =~= compared);
            match acc {
                Some(a) => a,
                None => {
                    assert(false);
                    Expression::SelfExpression
                },
            }
        },
        ProtectionTarget::Predicate => {
            let arguments = vec![
                address_this_argument(),
                FunctionArgument { identifier: None, expression: Expression::RawAssembly(signer.clone(), None) },
            ];
            Expression::FunctionCall(FunctionCall { identifier: ident, arguments, mangled_identifier: None })
        },
        ProtectionTarget::ZeroAryFunction => {
            let arguments = vec![address_this_argument()];
            let call = Expression::FunctionCall(FunctionCall { identifier: ident, arguments, mangled_identifier: None });
            make_caller_comparison(call, signer)
        },
    }
}

/// The condition that a caller satisfies at least one of the protections:
/// the disjunction, grouped to the left, of what each protection asks of
/// it; `None` when no protection asks anything. A function named by a
/// protection asks nothing of calls to itself. `caller_id` names the
/// caller's signer, `en_ident` the contract, `function_name` the function
/// being protected, and `targets[i]` says what the name in `protections[i]`
/// stands for.
pub fn generate_caller_protections_predicate(
    protections: &Vec<CallerProtection>,
    targets: Vec<ProtectionTarget>,
    caller_id: &str,
    en_ident: &Identifier,
    function_name: &str,
) -> (res: Option<Expression>)
    requires
        targets@.len() == protections@.len(),
        address_lists_nonempty(targets@),
    ensures
        exists|signer: String, items: Seq<Expression>|
            {
                &&& signer@ == signer_text(caller_id@)
                &&& are_protection_predicates(protections@, targets@, items, *en_ident, signer, function_name@)
                &&& items.len() == 0 ==> res is None
                &&& items.len() > 0 ==> res == Some(or_fold(items))
            },
{
    let mut signer = String::from_str("Signer.address_of(copy(");
    signer.append(caller_id);
    signer.append("))");
    let ghost original = targets@;
    assert(original.len() == targets.len());
    let fname = function_name.to_owned();
    let mut rest = targets;
    let mut acc: Option<Expression> = None;
    let ghost mut items: Seq<Expression> = Seq::empty();
    let mut i: usize = 0;
    while rest.len() > 0
        invariant
            i + rest@.len() == original.len(),
            original.len() <= usize::MAX,
            original.len() == protections@.len(),
            fname@ == function_name@,
            address_lists_nonempty(original),
            rest@ == original.subrange(i as int, original.len() as int),
            signer@ == signer_text(caller_id@),
            are_protection_predicates(protections@.subrange(0, i as int), original, items, *en_ident, signer, function_name@),
            items.len() == 0 ==> acc is None,
            items.len() > 0 ==> acc == Some(or_fold(items)),
        decreases rest@.len(),
    {
        let t = rest.remove(0);
        assert(t == original[i as int]);
        let c = &protections[i];
        proof {
            assert(protections@.subrange(0, i as int + 1).drop_last() =~= protections@.subrange(0, i as int));
        }
        let skip = match t {
            ProtectionTarget::Predicate | ProtectionTarget::ZeroAryFunction => c.identifier.token == fname,
            _ => false,
        };
        if !skip {
            let e = protection_predicate(c, t, en_ident, &signer);
            let next = or_push(acc, e, Ghost(items));
            acc = Some(next);
            proof {
                assert(items.push(e).drop_last() =~= items);
                items = items.push(e);
            }
        }
        i = i + 1;
        assert(rest@ =~= original.subrange(i as int, original.len() as int));
    }
    assert(protections@.subrange(0, i as int) =~= protections@);
    acc
}

/// Whether `first` and `second` match as the preprocessor compares
/// expressions: by their structure, with positions left out. A variable
/// declaration matches only one with an initial value on both sides; an
/// array, sequence or dictionary literal matches another whose elements cover
/// each of its own (each element matches some element of the other); calls,
/// literals and raw assembly match when they are equal.
pub open spec fn expressions_match(first: Expression, second: Expression) -> bool
    decreases first, 0int, 0int,
{
    match first {
        Expression::SelfExpression => second is SelfExpression,
        Expression::Identifier(e1) => second matches Expression::Identifier(e2) && same_identifier(e1, e2),
        Expression::InoutExpression(e1) => second matches Expression::InoutExpression(e2)
            && expressions_match(*e1.expression, *e2.expression),
        Expression::BinaryExpression(e1) => second matches Expression::BinaryExpression(e2)
            && expressions_match(*e1.lhs_expression, *e2.lhs_expression) && expressions_match(
            *e1.rhs_expression,
            *e2.rhs_expression,
        ) && e1.op == e2.op,
        Expression::BracketedExpression(e1) => second matches Expression::BracketedExpression(e2)
            && expressions_match(*e1.expression, *e2.expression),
        Expression::CastExpression(e1) => second matches Expression::CastExpression(e2) && same_type(
            e1.cast_type,
            e2.cast_type,
        ) && expressions_match(*e1.expression, *e2.expression),
        Expression::SubscriptExpression(e1) => second matches Expression::SubscriptExpression(e2)
            && same_identifier(e1.base_expression, e2.base_expression) && expressions_match(
            *e1.index_expression,
            *e2.index_expression,
        ),
        Expression::AttemptExpression(e1) => second matches Expression::AttemptExpression(e2)
            && e1.kind@ == e2.kind@ && same_call(e1.function_call, e2.function_call),
        Expression::RangeExpression(e1) => second matches Expression::RangeExpression(e2) && e1.op@
            == e2.op@ && expressions_match(*e1.start_expression, *e2.start_expression)
            && expressions_match(*e1.end_expression, *e2.end_expression),
        Expression::VariableDeclaration(v1) => {
            &&& second matches Expression::VariableDeclaration(v2)
            &&& same_opt_string(v1.declaration_token, v2.declaration_token)
            &&& same_identifier(v1.identifier, v2.identifier)
            &&& same_type(v1.variable_type, v2.variable_type)
            &&& v1.expression matches Some(x)
            &&& v2.expression matches Some(y)
            &&& expressions_match(*x, *y)
        },
        Expression::ExternalCall(e1) => second matches Expression::ExternalCall(e2) && same_arguments(
            e1.arguments@,
            e2.arguments@,
        ) && same_opt_string(e1.external_trait_name, e2.external_trait_name) && expressions_match(
            *e1.function_call.lhs_expression,
            *e2.function_call.lhs_expression,
        ) && expressions_match(*e1.function_call.rhs_expression, *e2.function_call.rhs_expression)
            && e1.function_call.op == e2.function_call.op,
        Expression::ArrayLiteral(x) => second matches Expression::ArrayLiteral(y) && covered_from(x@, y@, 0),
        Expression::Sequence(x) => second matches Expression::Sequence(y) && covered_from(x@, y@, 0),
        Expression::DictionaryLiteral(x) => second matches Expression::DictionaryLiteral(y)
            && pairs_covered_from(x@, y@, 0),
        Expression::FunctionCall(_) => same_expression(first, second),
        Expression::Literal(_) => same_expression(first, second),
        Expression::RawAssembly(_, _) => same_expression(first, second),
    }
}

/// `e` matches some expression of `b` at index `j` or later.
pub open spec fn matched_from(e: Expression, b: Seq<Expression>, j: int) -> bool
    decreases e, 1int, b.len() - j,
{
    if 0 <= j < b.len() {
        expressions_match(e, b[j]) || matched_from(e, b, j + 1)
    } else {
        false
    }
}

/// Each expression of `a` at index `i` or later matches some expression of `b`.
pub open spec fn covered_from(a: Seq<Expression>, b: Seq<Expression>, i: int) -> bool
    decreases a, 2int, a.len() - i,
{
    if 0 <= i < a.len() {
        matched_from(a[i], b, 0) && covered_from(a, b, i + 1)
    } else {
        true
    }
}

/// The pair `p` matches, key and value, some pair of `b` at index `j` or later.
pub open spec fn pair_matched_from(p: (Expression, Expression), b: Seq<(Expression, Expression)>, j: int) -> bool
    decreases p, 1int, b.len() - j,
{
    if 0 <= j < b.len() {
        (expressions_match(p.0, b[j].0) && expressions_match(p.1, b[j].1))
            || pair_matched_from(p, b, j + 1)
    } else {
        false
    }
}

/// Each pair of `a` at index `i` or later matches some pair of `b`.
pub open spec fn pairs_covered_from(a: Seq<(Expression, Expression)>, b: Seq<(Expression, Expression)>, i: int) -> bool
    decreases a, 2int, a.len() - i,
{
    if 0 <= i < a.len() {
        pair_matched_from(a[i], b, 0) && pairs_covered_from(a, b, i + 1)
    } else {
        true
    }
}

/// The index `i` as a mathematical integer.
spec fn position(i: usize) -> int {
    i as int
}

/// Whether each expression of `first` matches some expression of `second`.
fn cover(first: &Vec<Expression>, second: &Vec<Expression>) -> (res: bool)
    ensures
        res == covered_from(first@, second@, 0),
    decreases first,
{
    let mut i: usize = 0;
    while i < first.len()
        invariant
            i <= first@.len(),
            covered_from(first@, second@, 0) == covered_from(first@, second@, position(i)),
        decreases first@.len() - i,
    {
        let ghost cur: int = position(i);
        let mut found = false;
        let mut j: usize = 0;
        while j < second.len()
            invariant
                cur == i,
                i < first@.len(),
                j <= second@.len(),
                matched_from(first@[cur], second@, 0) == (found || matched_from(
                    first@[cur],
                    second@,
                    position(j),
                )),
            decreases second@.len() - j,
        {
            let m = cmp_expressions(&first[i], &second[j]);
            found = found || m;
            j = j + 1;
        }
        if !found {
            return false;
        }
        i = i + 1;
    }
    true
}

/// Whether each pair of `first` matches some pair of `second`.
fn cover_pairs(first: &Vec<(Expression, Expression)>, second: &Vec<(Expression, Expression)>) -> (res: bool)
    ensures
        res == pairs_covered_from(first@, second@, 0),
    decreases first,
{
    let mut i: usize = 0;
    while i < first.len()
        invariant
            i <= first@.len(),
            pairs_covered_from(first@, second@, 0) == pairs_covered_from(first@, second@, position(i)),
        decreases first@.len() - i,
    {
        let ghost cur: int = position(i);
        let mut found = false;
        let mut j: usize = 0;
        while j < second.len()
            invariant
                cur == i,
                i < first@.len(),
                j <= second@.len(),
                pair_matched_from(first@[cur], second@, 0) == (found || pair_matched_from(
                    first@[cur],
                    second@,
                    position(j),
                )),
            decreases second@.len() - j,
        {
            let m = cmp_expressions(&first[i].0, &second[j].0) && cmp_expressions(&first[i].1, &second[j].1);
            found = found || m;
            j = j + 1;
        }
        if !found {
            return false;
        }
        i = i + 1;
    }
    true
}

/// Every variable declaration inside `e` that the preprocessor's comparison
/// looks at has an initial value.
pub open spec fn declarations_initialised(e: Expression) -> bool
    decreases e,
{
    match e {
        Expression::InoutExpression(x) => declarations_initialised(*x.expression),
        Expression::BinaryExpression(x) => declarations_initialised(*x.lhs_expression)
            && declarations_initialised(*x.rhs_expression),
        Expression::BracketedExpression(x) => declarations_initialised(*x.expression),
        Expression::CastExpression(x) => declarations_initialised(*x.expression),
        Expression::SubscriptExpression(x) => declarations_initialised(*x.index_expression),
        Expression::RangeExpression(x) => declarations_initialised(*x.start_expression)
            && declarations_initialised(*x.end_expression),
        Expression::VariableDeclaration(v) => v.expression matches Some(x) && declarations_initialised(*x),
        Expression::ExternalCall(x) => declarations_initialised(*x.function_call.lhs_expression)
            && declarations_initialised(*x.function_call.rhs_expression),
        Expression::ArrayLiteral(x) => forall|i: int|
            0 <= i < x@.len() ==> declarations_initialised(#[trigger] x@[i]),
        Expression::Sequence(x) => forall|i: int|
            0 <= i < x@.len() ==> declarations_initialised(#[trigger] x@[i]),
        Expression::DictionaryLiteral(x) => forall|i: int|
            #![trigger x@[i]]
            0 <= i < x@.len() ==> declarations_initialised(x@[i].0) && declarations_initialised(x@[i].1),
        _ => true,
    }
}

/// A match at index `k` makes `e` matched from every index up to `k`.
proof fn lemma_matched_from_witness(e: Expression, b: Seq<Expression>, j: int, k: int)
    requires
        0 <= j <= k < b.len(),
        expressions_match(e, b[k]),
    ensures
        matched_from(e, b, j),
    decreases k - j,
{
    if j < k {
        lemma_matched_from_witness(e, b, j + 1, k);
    }
}

/// A match at index `k` makes the pair `p` matched from every index up to `k`.
proof fn lemma_pair_matched_from_witness(p: (Expression, Expression), b: Seq<(Expression, Expression)>, j: int, k: int)
    requires
        0 <= j <= k < b.len(),
        expressions_match(p.0, b[k].0),
        expressions_match(p.1, b[k].1),
    ensures
        pair_matched_from(p, b, j),
    decreases k - j,
{
    if j < k {
        lemma_pair_matched_from_witness(p, b, j + 1, k);
    }
}

/// Equal element lists whose declarations are initialised cover each other
/// from index `i` on.
proof fn lemma_equal_lists_cover(a: Seq<Expression>, b: Seq<Expression>, i: int)
    requires
        0 <= i <= a.len(),
        a.len() == b.len(),
        forall|k: int| 0 <= k < a.len() ==> same_expression(#[trigger] a[k], b[k]),
        forall|k: int| 0 <= k < a.len() ==> declarations_initialised(#[trigger] a[k]),
    ensures
        covered_from(a, b, i),
    decreases a, 1int, a.len() - i,
{
    if i < a.len() {
        assert(same_expression(a[i], b[i]));
        assert(declarations_initialised(a[i]));
        law_equal_expressions_match(a[i], b[i]);
        lemma_matched_from_witness(a[i], b, 0, i);
        lemma_equal_lists_cover(a, b, i + 1);
    }
}

/// Equal pair lists whose declarations are initialised cover each other from
/// index `i` on.
proof fn lemma_equal_pairs_cover(a: Seq<(Expression, Expression)>, b: Seq<(Expression, Expression)>, i: int)
    requires
        0 <= i <= a.len(),
        a.len() == b.len(),
        forall|k: int|
            #![trigger a[k]]
            0 <= k < a.len() ==> same_expression(a[k].0, b[k].0) && same_expression(a[k].1, b[k].1),
        forall|k: int|
            #![trigger a[k]]
            0 <= k < a.len() ==> declarations_initialised(a[k].0) && declarations_initialised(a[k].1),
    ensures
        pairs_covered_from(a, b, i),
    decreases a, 1int, a.len() - i,
{
    if i < a.len() {
        assert(same_expression(a[i].0, b[i].0) && same_expression(a[i].1, b[i].1));
        assert(declarations_initialised(a[i].0) && declarations_initialised(a[i].1));
        law_equal_expressions_match(a[i].0, b[i].0);
        law_equal_expressions_match(a[i].1, b[i].1);
        lemma_pair_matched_from_witness(a[i], b, 0, i);
        lemma_equal_pairs_cover(a, b, i + 1);
    }
}

/// The comparison leaves positions out: two expressions that are equal apart
/// from their positions match, provided every variable declaration inside
/// them that the comparison looks at has an initial value.
pub proof fn law_equal_expressions_match(a: Expression, b: Expression)
    requires
        same_expression(a, b),
        declarations_initialised(a),
    ensures
        expressions_match(a, b),
    decreases a, 0int, 0int,
{
    match a {
        Expression::InoutExpression(x) => {
            let y = b->InoutExpression_0;
            law_equal_expressions_match(*x.expression, *y.expression);
        },
        Expression::BinaryExpression(x) => {
            let y = b->BinaryExpression_0;
            assert(same_binary(x, y));
            law_equal_expressions_match(*x.lhs_expression, *y.lhs_expression);
            law_equal_expressions_match(*x.rhs_expression, *y.rhs_expression);
        },
        Expression::BracketedExpression(x) => {
            let y = b->BracketedExpression_0;
            law_equal_expressions_match(*x.expression, *y.expression);
        },
        Expression::CastExpression(x) => {
            let y = b->CastExpression_0;
            law_equal_expressions_match(*x.expression, *y.expression);
        },
        Expression::SubscriptExpression(x) => {
            let y = b->SubscriptExpression_0;
            law_equal_expressions_match(*x.index_expression, *y.index_expression);
        },
        Expression::RangeExpression(x) => {
            let y = b->RangeExpression_0;
            law_equal_expressions_match(*x.start_expression, *y.start_expression);
            law_equal_expressions_match(*x.end_expression, *y.end_expression);
        },
        Expression::VariableDeclaration(v) => {
            let w = b->VariableDeclaration_0;
            law_equal_expressions_match(*v.expression.unwrap(), *w.expression.unwrap());
        },
        Expression::ExternalCall(x) => {
            let y = b->ExternalCall_0;
            assert(same_binary(x.function_call, y.function_call));
            law_equal_expressions_match(*x.function_call.lhs_expression, *y.function_call.lhs_expression);
            law_equal_expressions_match(*x.function_call.rhs_expression, *y.function_call.rhs_expression);
        },
        Expression::ArrayLiteral(x) => {
            let y = b->ArrayLiteral_0;
            assert(same_expressions(x@, y@));
            lemma_equal_lists_cover(x@, y@, 0);
        },
        Expression::Sequence(x) => {
            let y = b->Sequence_0;
            assert(same_expressions(x@, y@));
            lemma_equal_lists_cover(x@, y@, 0);
        },
        Expression::DictionaryLiteral(x) => {
            let y = b->DictionaryLiteral_0;
            assert(same_pairs(x@, y@));
            lemma_equal_pairs_cover(x@, y@, 0);
        },
        _ => {},
    }
}

/// An expression matches itself, provided every variable declaration inside
/// it that the comparison looks at has an initial value.
pub proof fn law_expression_matches_itself(e: Expression)
    requires
        declarations_initialised(e),
    ensures
        expressions_match(e, e),
{
    lemma_same_expression_reflexive(e);
    law_equal_expressions_match(e, e);
}

/// `res` is what `generate_caller_protections_predicate` gives for these
/// arguments: the disjunction of the checks of the protections, or nothing
/// where no protection asks for a check.
pub open spec fn is_caller_predicate(
    res: Option<Expression>,
    protections: Seq<CallerProtection>,
    targets: Seq<ProtectionTarget>,
    caller_id: Seq<char>,
    en_ident: Identifier,
    function_name: Seq<char>,
) -> bool {
    exists|signer: String, items: Seq<Expression>|
        #![trigger are_protection_predicates(protections, targets, items, en_ident, signer, function_name)]
        {
            &&& signer@ == signer_text(caller_id)
            &&& are_protection_predicates(protections, targets, items, en_ident, signer, function_name)
            &&& items.len() == 0 ==> res is None
            &&& items.len() > 0 ==> res == Some(or_fold(items))
        }
}

/// `id` is a name made by the generator: no enclosing type.
pub open spec fn is_generated(id: Identifier, name: Seq<char>) -> bool {
    id.token@ == name && id.enclosing_type is None
}

/// `s` declares the variable `name` of type `t`, without a value.
pub open spec fn declares(s: Statement, name: Seq<char>, t: Type) -> bool {
    &&& s matches Statement::Expression(Expression::VariableDeclaration(v))
    &&& v.declaration_token is None
    &&& is_generated(v.identifier, name)
    &&& v.variable_type == t
    &&& v.expression is None
}

/// `s` binds `self` to the contract's storage, of type `t`.
pub open spec fn binds_self(s: Statement, t: Type) -> bool {
    &&& s matches Statement::Expression(Expression::BinaryExpression(b))
    &&& *b.lhs_expression is SelfExpression
    &&& *b.rhs_expression matches Expression::RawAssembly(code, Some(u))
    &&& code@ == "borrow_global_mut<T>(copy(address_this))"@
    &&& u == t
    &&& b.op == BinOp::Equal
}

/// `s` asserts `e`, at position `li`.
pub open spec fn asserts(s: Statement, e: Expression, li: LineInfo) -> bool {
    s matches Statement::Assertion(a) && a.expression == e && a.line_info == li
}

/// `s` copies the contract's state, the field `var` of `self`, into the
/// variable named `var` without its first character.
pub open spec fn reads_type_state(s: Statement, var: Seq<char>) -> bool {
    &&& s matches Statement::Expression(Expression::BinaryExpression(b))
    &&& *b.lhs_expression matches Expression::Identifier(x)
    &&& is_generated(x, var.skip(1))
    &&& *b.rhs_expression matches Expression::BinaryExpression(c)
    &&& *c.lhs_expression is SelfExpression
    &&& *c.rhs_expression matches Expression::Identifier(y)
    &&& is_generated(y, var)
    &&& c.op == BinOp::Dot
    &&& b.op == BinOp::Equal
}

/// `e` calls the function `f` that a wrapper wraps: by its mangled name (the
/// empty name where it has none), with its parameters as arguments.
pub open spec fn calls_wrapped(e: Expression, f: FunctionDeclaration) -> bool {
    &&& e matches Expression::FunctionCall(fc)
    &&& fc.identifier.token@ == (match f.mangled_identifier {
        Some(m) => m@,
        None => Seq::empty(),
    })
    &&& fc.identifier.enclosing_type is None
    &&& fc.mangled_identifier is None
    &&& fc.arguments@.len() == f.head.parameters@.len()
    &&& forall|k: int|
        0 <= k < fc.arguments@.len() ==> (#[trigger] fc.arguments@[k]).identifier is None
            && fc.arguments@[k].expression == Expression::Identifier(f.head.parameters@[k].identifier)
}

/// Whether a wrapper checks its callers: the behaviour declaration names
/// caller protections and none of them is `any`.
pub open spec fn protections_checked(d: ContractBehaviourDeclaration) -> bool {
    d.caller_protections@.len() > 0 && (forall|k: int|
        0 <= k < d.caller_protections@.len() ==> (#[trigger] d.caller_protections@[k]).identifier.token@
            != "any"@)
}

/// The name of the caller in the checks of a wrapper: the one the
/// behaviour declaration binds, else `caller`.
pub open spec fn caller_name(d: ContractBehaviourDeclaration) -> Seq<char> {
    match d.caller_binding {
        Some(c) => c.token@,
        None => "caller"@,
    }
}

/// The number of a flag: 1 where it is set.
pub open spec fn one_if(b: bool) -> int {
    if b {
        1
    } else {
        0
    }
}

/// The body of a contract wrapper of `f` and the checks it makes: the first
/// statement of `f` where `f` returns a value and has a body; the declaration
/// of `self`; the check of the protections that are functions (`pf`), where
/// one is made; with type states, the declaration of the state variable
/// `ts`; the binding of `self`; the check of the protections that are
/// properties (`ps`), where one is made; with type states, the reading of
/// the state and the check of `condition`; a call of `f` where it returns
/// nothing; and the return, of the call's value where there is one.
pub open spec fn is_wrapper_body(
    body: Seq<Statement>,
    f: FunctionDeclaration,
    d: ContractBehaviourDeclaration,
    pf: Option<Expression>,
    ps: Option<Expression>,
    ts: Seq<char>,
    condition: Option<BinaryExpression>,
) -> bool {
    let checked = protections_checked(d);
    let void = f.head.result_type is None;
    let self_type = f.head.parameters@[0].type_assignment;
    let stateful = d.type_states@.len() > 0;
    let li = d.identifier.line_info;
    let p_self = one_if(!void && f.body@.len() > 0);
    let p_pf = p_self + 1;
    let p_ts = p_pf + one_if(checked && pf is Some);
    let p_bind = p_ts + one_if(stateful);
    let p_ps = p_bind + 1;
    let p_read = p_ps + one_if(checked && ps is Some);
    let p_call = p_read + 2 * one_if(stateful);
    let p_ret = p_call + one_if(void);
    &&& body.len() == p_ret + 1
    &&& p_self == 1 ==> body[0] == f.body@[0]
    &&& declares(body[p_self], "self"@, self_type)
    &&& checked && pf is Some ==> asserts(body[p_pf], pf->0, li)
    &&& stateful ==> declares(body[p_ts], ts, Type::TypeState)
    &&& binds_self(body[p_bind], self_type)
    &&& checked && ps is Some ==> asserts(body[p_ps], ps->0, li)
    &&& stateful ==> reads_type_state(body[p_read], ts)
    &&& stateful ==> condition is Some && asserts(body[p_read + 1], Expression::BinaryExpression(condition->0), li)
    &&& void ==> calls_statement(body[p_call], f)
    &&& returns_call(body[p_ret], f, void)
}

/// `s` is the statement that calls `f`.
pub open spec fn calls_statement(s: Statement, f: FunctionDeclaration) -> bool {
    s matches Statement::Expression(e) && calls_wrapped(e, f)
}

/// `s` returns: nothing where `void`, else the value of a call of `f`.
pub open spec fn returns_call(s: Statement, f: FunctionDeclaration, void: bool) -> bool {
    &&& s matches Statement::ReturnStatement(r)
    &&& r.cleanup@.len() == 0
    &&& if void {
        r.expression is None
    } else {
        r.expression matches Some(e) && calls_wrapped(e, f)
    }
}

/// Builds the wrapper through which a contract function is called from
/// outside: it takes the contract's address in place of the receiver,
/// borrows the contract's storage as `self`, checks the callers and states
/// that the behaviour declaration allows, and calls the function.
///
/// What the contract's declarations say is handed in: `wrapper_name`, the
/// wrapper's mangled name; the caller protections that name properties
/// (`state_properties`) and those that name functions
/// (`protection_functions`), each with what its name stands for;
/// `type_state_variable`, the name of the contract's state field; and
/// `type_state_condition`, the check that the current state is one the
/// declaration allows.
pub fn generate_contract_wrapper(
    function: FunctionDeclaration,
    contract_behaviour_declaration: &ContractBehaviourDeclaration,
    wrapper_name: String,
    state_properties: &Vec<CallerProtection>,
    state_targets: Vec<ProtectionTarget>,
    protection_functions: &Vec<CallerProtection>,
    function_targets: Vec<ProtectionTarget>,
    type_state_variable: &str,
    type_state_condition: Option<BinaryExpression>,
) -> (res: FunctionDeclaration)
    requires
        function.head.parameters@.len() > 0,
        state_targets@.len() == state_properties@.len(),
        address_lists_nonempty(state_targets@),
        function_targets@.len() == protection_functions@.len(),
        address_lists_nonempty(function_targets@),
        type_state_variable@.len() >= 1,
        contract_behaviour_declaration.type_states@.len() > 0 ==> type_state_condition is Some,
    ensures
        exists|pf: Option<Expression>, ps: Option<Expression>|
            #![trigger is_wrapper_body(res.body@, function, *contract_behaviour_declaration, pf, ps, type_state_variable@, type_state_condition)]
            {
                &&& (protections_checked(*contract_behaviour_declaration) && protection_functions@.len() > 0)
                    ==> is_caller_predicate(
                    pf,
                    protection_functions@,
                    function_targets@,
                    caller_name(*contract_behaviour_declaration),
                    contract_behaviour_declaration.identifier,
                    function.head.identifier.token@,
                )
                &&& !(protections_checked(*contract_behaviour_declaration) && protection_functions@.len() > 0)
                    ==> pf is None
                &&& protections_checked(*contract_behaviour_declaration) ==> is_caller_predicate(
                    ps,
                    state_properties@,
                    state_targets@,
                    caller_name(*contract_behaviour_declaration),
                    contract_behaviour_declaration.identifier,
                    function.head.identifier.token@,
                )
                &&& is_wrapper_body(
                    res.body@,
                    function,
                    *contract_behaviour_declaration,
                    pf,
                    ps,
                    type_state_variable@,
                    type_state_condition,
                )
            },
        res.mangled_identifier matches Some(m) && m@ == wrapper_name@,
        res.tags@.len() == function.tags@.len() + 1,
        forall|k: int| 0 <= k < function.tags@.len() ==> #[trigger] res.tags@[k] == function.tags@[k],
        res.tags@[function.tags@.len() as int]@ == "acquires T"@,
        res.head.parameters@.len() == function.head.parameters@.len(),
        is_generated(res.head.parameters@[0].identifier, "address_this"@),
        res.head.parameters@[0].type_assignment == Type::Address,
        res.head.parameters@[0].expression is None,
        forall|k: int|
            1 <= k < res.head.parameters@.len() ==> #[trigger] res.head.parameters@[k]
                == function.head.parameters@[k],
        res.head.func_token == function.head.func_token,
        res.head.attributes == function.head.attributes,
        res.head.modifiers == function.head.modifiers,
        res.head.mutates == function.head.mutates,
        res.head.identifier == function.head.identifier,
        res.head.result_type == function.head.result_type,
        res.head.payable == function.head.payable,
        res.scope_context == function.scope_context,
        res.is_external == function.is_external,
{
    let ghost f = function;
    let d = contract_behaviour_declaration;
    let void = function.head.result_type.is_none();
    let stateful = d.type_states.len() > 0;
    let li = d.identifier.line_info.deep_clone();
    // Whether any protection lets every caller through.
    let mut any = false;
    let mut k: usize = 0;
    while k < d.caller_protections.len()
        invariant
            k <= d.caller_protections@.len(),
            any == exists|j: int| 0 <= j < k && (#[trigger] d.caller_protections@[j]).identifier.token@ == "any"@,
        decreases d.caller_protections@.len() - k,
    {
        if d.caller_protections[k].is_any() {
            any = true;
        }
        k = k + 1;
    }
    let checked = d.caller_protections.len() > 0 && !any;
    let caller_id: String = match &d.caller_binding {
        Some(c) => c.token.clone(),
        None => String::from_str("caller"),
    };
    // The call of the wrapped function.
    let mut arguments: Vec<FunctionArgument> = Vec::new();
    let mut j: usize = 0;
    while j < function.head.parameters.len()
        invariant
            f == function,
            j <= function.head.parameters@.len(),
            arguments@.len() == j,
            forall|k: int|
                0 <= k < j ==> (#[trigger] arguments@[k]).identifier is None && arguments@[k].expression
                    == Expression::Identifier(function.head.parameters@[k].identifier),
        decreases function.head.parameters@.len() - j,
    {
        arguments.push(
            FunctionArgument {
                identifier: None,
                expression: Expression::Identifier(function.head.parameters[j].identifier.deep_clone()),
            },
        );
        j = j + 1;
    }
    let call_name = match &function.mangled_identifier {
        Some(m) => m.clone(),
        None => String::new(),
    };
    let call = Expression::FunctionCall(
        FunctionCall {
            identifier: Identifier { token: call_name, enclosing_type: None, line_info: LineInfo { line: 0, offset: 0 } },
            arguments,
            mangled_identifier: None,
        },
    );
    // Head and tags.
    let FunctionDeclaration { head, body: fbody, scope_context, mut tags, mangled_identifier: _, is_external } = function;
    let mut head = head;
    tags.push(String::from_str("acquires T"));
    let original_parameter = head.parameters.remove(0);
    head.parameters.insert(
        0,
        Parameter {
            identifier: Identifier {
                token: String::from_str("address_this"),
                enclosing_type: None,
                line_info: LineInfo { line: 0, offset: 0 },
            },
            type_assignment: Type::Address,
            expression: None,
            line_info: LineInfo { line: 0, offset: 0 },
        },
    );
    let self_type = original_parameter.type_assignment;
    // Body.
    let mut body: Vec<Statement> = Vec::new();
    let mut fbody = fbody;
    if !void && fbody.len() > 0 {
        body.push(fbody.remove(0));
    }
    body.push(
        Statement::Expression(
            Expression::VariableDeclaration(
                VariableDeclaration {
                    declaration_token: None,
                    identifier: Identifier {
                        token: String::from_str("self"),
                        enclosing_type: None,
                        line_info: LineInfo { line: 0, offset: 0 },
                    },
                    variable_type: self_type.deep_clone(),
                    expression: None,
                },
            ),
        ),
    );
    let pf = if checked && protection_functions.len() > 0 {
        generate_caller_protections_predicate(
            protection_functions,
            function_targets,
            caller_id.as_str(),
            &d.identifier,
            head.identifier.token.as_str(),
        )
    } else {
        None
    };
    let ghost pf_g = pf;
    let ghost spec_caller = caller_name(*d);
    assert(caller_id@ == spec_caller);
    assert(checked && protection_functions@.len() > 0 ==> is_caller_predicate(
        pf_g,
        protection_functions@,
        function_targets@,
        spec_caller,
        d.identifier,
        f.head.identifier.token@,
    ));
    if checked {
        if let Some(predicate) = pf {
            body.push(Statement::Assertion(Assertion { expression: predicate, line_info: li.deep_clone() }));
        }
    }
    if stateful {
        body.push(
            Statement::Expression(
                Expression::VariableDeclaration(
                    VariableDeclaration {
                        declaration_token: None,
                        identifier: Identifier {
                            token: String::from_str(type_state_variable),
                            enclosing_type: None,
                            line_info: LineInfo { line: 0, offset: 0 },
                        },
                        variable_type: Type::TypeState,
                        expression: None,
                    },
                ),
            ),
        );
    }
    body.push(
        Statement::Expression(
            Expression::BinaryExpression(
                BinaryExpression {
                    lhs_expression: Box::new(Expression::SelfExpression),
                    rhs_expression: Box::new(
                        Expression::RawAssembly(
                            String::from_str("borrow_global_mut<T>(copy(address_this))"),
                            Some(self_type),
                        ),
                    ),
                    op: BinOp::Equal,
                    line_info: LineInfo { line: 0, offset: 0 },
                },
            ),
        ),
    );
    let ps = if checked {
        generate_caller_protections_predicate(
            state_properties,
            state_targets,
            caller_id.as_str(),
            &d.identifier,
            head.identifier.token.as_str(),
        )
    } else {
        None
    };
    let ghost ps_g = ps;
    assert(checked ==> is_caller_predicate(
        ps_g,
        state_properties@,
        state_targets@,
        spec_caller,
        d.identifier,
        f.head.identifier.token@,
    ));
    assert(checked == protections_checked(*d));
    if checked {
        if let Some(predicate) = ps {
            body.push(Statement::Assertion(Assertion { expression: predicate, line_info: li.deep_clone() }));
        }
    }
    if stateful {
        let n = type_state_variable.unicode_len();
        let short = type_state_variable.substring_char(1, n);
        body.push(
            Statement::Expression(
                Expression::BinaryExpression(
                    BinaryExpression {
                        lhs_expression: Box::new(
                            Expression::Identifier(
                                Identifier {
                                    token: String::from_str(short),
                                    enclosing_type: None,
                                    line_info: LineInfo { line: 0, offset: 0 },
                                },
                            ),
                        ),
                        rhs_expression: Box::new(
                            Expression::BinaryExpression(
                                BinaryExpression {
                                    lhs_expression: Box::new(Expression::SelfExpression),
                                    rhs_expression: Box::new(
                                        Expression::Identifier(
                                            Identifier {
                                                token: String::from_str(type_state_variable),
                                                enclosing_type: None,
                                                line_info: LineInfo { line: 0, offset: 0 },
                                            },
                                        ),
                                    ),
                                    op: BinOp::Dot,
                                    line_info: LineInfo { line: 0, offset: 0 },
                                },
                            ),
                        ),
                        op: BinOp::Equal,
                        line_info: LineInfo { line: 0, offset: 0 },
                    },
                ),
            ),
        );
        if let Some(condition) = type_state_condition {
            body.push(
                Statement::Assertion(
                    Assertion { expression: Expression::BinaryExpression(condition), line_info: li.deep_clone() },
                ),
            );
        }
    }
    let returned = if void {
        body.push(Statement::Expression(call));
        None
    } else {
        Some(call)
    };
    body.push(
        Statement::ReturnStatement(
            ReturnStatement { expression: returned, cleanup: Vec::new(), line_info: LineInfo { line: 0, offset: 0 } },
        ),
    );
    let wrapper = FunctionDeclaration {
        head,
        body,
        scope_context,
        tags,
        mangled_identifier: Some(wrapper_name),
        is_external,
    };
    proof {
        assert(is_wrapper_body(wrapper.body@, f, *d, pf_g, ps_g, type_state_variable@, type_state_condition));
        assert(!(checked && protection_functions@.len() > 0) ==> pf_g is None);
        assert(f == function);
    }
    wrapper
}

/// Compares two expressions by their structure, leaving positions out: see
/// `expressions_match`.
pub fn cmp_expressions(first: &Expression, second: &Expression) -> (res: bool)
    ensures
        res == expressions_match(*first, *second),
    decreases first,
{
    match first {
        Expression::SelfExpression => {
            if let Expression::SelfExpression = second {
                return true;
            }
        },
        Expression::Identifier(e1) => {
            if let Expression::Identifier(e2) = second {
                return identifiers_equal(e1, e2);
            }
        },
        Expression::InoutExpression(e1) => {
            if let Expression::InoutExpression(e2) = second {
                return cmp_expressions(&e1.expression, &e2.expression);
            }
        },
        Expression::BinaryExpression(e1) => {
            if let Expression::BinaryExpression(e2) = second {
                return cmp_expressions(&e1.lhs_expression, &e2.lhs_expression) && cmp_expressions(
                    &e1.rhs_expression,
                    &e2.rhs_expression,
                ) && e1.op == e2.op;
            }
        },
        Expression::BracketedExpression(e1) => {
            if let Expression::BracketedExpression(e2) = second {
                return cmp_expressions(&e1.expression, &e2.expression);
            }
        },
        Expression::CastExpression(e1) => {
            if let Expression::CastExpression(e2) = second {
                return types_equal(&e1.cast_type, &e2.cast_type) && cmp_expressions(
                    &e1.expression,
                    &e2.expression,
                );
            }
        },
        Expression::SubscriptExpression(e1) => {
            if let Expression::SubscriptExpression(e2) = second {
                return identifiers_equal(&e1.base_expression, &e2.base_expression) && cmp_expressions(
                    &e1.index_expression,
                    &e2.index_expression,
                );
            }
        },
        Expression::AttemptExpression(e1) => {
            if let Expression::AttemptExpression(e2) = second {
                return e1.kind == e2.kind && calls_equal(&e1.function_call, &e2.function_call);
            }
        },
        Expression::RangeExpression(e1) => {
            if let Expression::RangeExpression(e2) = second {
                return e1.op == e2.op && cmp_expressions(&e1.start_expression, &e2.start_expression)
                    && cmp_expressions(&e1.end_expression, &e2.end_expression);
            }
        },
        Expression::VariableDeclaration(v1) => {
            if let Expression::VariableDeclaration(v2) = second {
                if opt_strings_equal(&v1.declaration_token, &v2.declaration_token) && identifiers_equal(
                    &v1.identifier,
                    &v2.identifier,
                ) && types_equal(&v1.variable_type, &v2.variable_type) {
                    if let Some(e1) = &v1.expression {
                        if let Some(e2) = &v2.expression {
                            return cmp_expressions(e1, e2);
                        }
                    }
                }
            }
        },
        Expression::ExternalCall(e1) => {
            if let Expression::ExternalCall(e2) = second {
                return arguments_equal(&e1.arguments, &e2.arguments) && opt_strings_equal(
                    &e1.external_trait_name,
                    &e2.external_trait_name,
                ) && cmp_expressions(
                    &e1.function_call.lhs_expression,
                    &e2.function_call.lhs_expression,
                ) && cmp_expressions(
                    &e1.function_call.rhs_expression,
                    &e2.function_call.rhs_expression,
                ) && e1.function_call.op == e2.function_call.op;
            }
        },
        Expression::ArrayLiteral(first_exprs) => {
            if let Expression::ArrayLiteral(second_exprs) = second {
                return cover(first_exprs, second_exprs);
            }
        },
        Expression::Sequence(first_exprs) => {
            if let Expression::Sequence(second_exprs) = second {
                return cover(first_exprs, second_exprs);
            }
        },
        Expression::DictionaryLiteral(first_mappings) => {
            if let Expression::DictionaryLiteral(second_mappings) = second {
                return cover_pairs(first_mappings, second_mappings);
            }
        },
        _ => return expressions_equal(first, second),
    }
    false
}


/// Whether a caller protection of this type names the callers by a state
/// property (an address, or an array or dictionary of addresses) rather than
/// by a predicate function.
pub open spec fn is_state_property_type(t: Type) -> bool {
    t is Address || t is ArrayType || t is DictionaryType
}

/// The caller protections split in two, in their order: those whose type
/// (at the same index of `types`) is a state property, and the others.
pub open spec fn split_by_type(protections: Seq<CallerProtection>, types: Seq<Type>) -> (Seq<CallerProtection>, Seq<
    CallerProtection,
>)
    decreases protections.len(),
{
    if protections.len() == 0 {
        (Seq::empty(), Seq::empty())
    } else {
        let (state, functions) = split_by_type(protections.drop_last(), types);
        if is_state_property_type(types[protections.len() - 1]) {
            (state.push(protections.last()), functions)
        } else {
            (state, functions.push(protections.last()))
        }
    }
}

/// Splits the caller protections of a contract behaviour, given the type
/// that the environment gives each one's name in the contract, into those
/// that name state properties holding the permitted callers and those that
/// name predicate functions.
pub fn split_caller_protections(protections: Vec<CallerProtection>, protection_types: &Vec<Type>) -> (res: (
    Vec<CallerProtection>,
    Vec<CallerProtection>,
))
    requires
        protection_types@.len() == protections@.len(),
    ensures
        res.0@ == split_by_type(protections@, protection_types@).0,
        res.1@ == split_by_type(protections@, protection_types@).1,
{
    let ghost all = protections@;
    let mut rest = protections;
    let total: usize = rest.len();
    let mut state_properties: Vec<CallerProtection> = Vec::new();
    let mut functions: Vec<CallerProtection> = Vec::new();
    let mut i: usize = 0;
    while i < total
        invariant
            total == all.len(),
            protection_types@.len() == all.len(),
            i <= total,
            rest@ == all.subrange(i as int, all.len() as int),
            state_properties@ == split_by_type(all.take(i as int), protection_types@).0,
            functions@ == split_by_type(all.take(i as int), protection_types@).1,
        decreases total - i,
    {
        let protection = rest.remove(0);
        proof {
            assert(all.take(i as int + 1).drop_last() =~= all.take(i as int));
            assert(all.take(i as int + 1).last() == all[i as int]);
        }
        match &protection_types[i] {
            Type::Address | Type::ArrayType(_) | Type::DictionaryType(_) => state_properties.push(protection),
            _ => functions.push(protection),
        }
        i = i + 1;
        assert(rest@ =~= all.subrange(i as int, all.len() as int));
    }
    proof {
        assert(all.take(all.len() as int) =~= all);
    }
    (state_properties, functions)
}


/// Splitting the caller protections loses none and adds none: the two parts
/// together hold as many protections as there were.
pub proof fn law_split_keeps_every_protection(protections: Seq<CallerProtection>, types: Seq<Type>)
    ensures
        split_by_type(protections, types).0.len() + split_by_type(protections, types).1.len() == protections.len(),
    decreases protections.len(),
{
    if protections.len() > 0 {
        law_split_keeps_every_protection(protections.drop_last(), types);
    }
}

} // verus!
