//! Equality of syntax trees as `==` computes it on them: field by field, with
//! source positions left out (any two positions compare equal).

use vstd::prelude::*;
use crate::ast::{
    BinaryExpression, Expression, FunctionArgument, FunctionCall, Identifier, Literal, Type,
};

verus! {

/// Two optional strings hold the same text, or are both absent.
pub open spec fn same_opt_string(a: Option<String>, b: Option<String>) -> bool {
    match a {
        Some(x) => b matches Some(y) && x@ == y@,
        None => b is None,
    }
}

/// Two identifiers have the same name and enclosing type.
pub open spec fn same_identifier(a: Identifier, b: Identifier) -> bool {
    a.token@ == b.token@ && same_opt_string(a.enclosing_type, b.enclosing_type)
}

/// Two optional identifiers are the same identifier, or are both absent.
pub open spec fn same_opt_identifier(a: Option<Identifier>, b: Option<Identifier>) -> bool {
    match a {
        Some(x) => b matches Some(y) && same_identifier(x, y),
        None => b is None,
    }
}

/// Two types are built alike from the same parts.
pub open spec fn same_type(a: Type, b: Type) -> bool
    decreases a,
{
    match a {
        Type::InoutType(x) => b matches Type::InoutType(y) && same_type(*x.key_type, *y.key_type),
        Type::ArrayType(x) => b matches Type::ArrayType(y) && same_type(*x.key_type, *y.key_type),
        Type::RangeType(x) => b matches Type::RangeType(y) && same_type(*x.key_type, *y.key_type),
        Type::FixedSizedArrayType(x) => b matches Type::FixedSizedArrayType(y) && x.size == y.size
            && same_type(*x.key_type, *y.key_type),
        Type::DictionaryType(x) => b matches Type::DictionaryType(y) && same_type(
            *x.key_type,
            *y.key_type,
        ) && same_type(*x.value_type, *y.value_type),
        Type::UserDefinedType(x) => b matches Type::UserDefinedType(y) && same_identifier(x, y),
        Type::Bool => b is Bool,
        Type::Int => b is Int,
        Type::String => b is String,
        Type::Address => b is Address,
        Type::Error => b is Error,
        Type::SelfType => b is SelfType,
        Type::Solidity(x) => b matches Type::Solidity(y) && x == y,
        Type::TypeState => b is TypeState,
    }
}

/// Two optional types are the same type, or are both absent.
pub open spec fn same_opt_type(a: Option<Type>, b: Option<Type>) -> bool {
    match a {
        Some(x) => b matches Some(y) && same_type(x, y),
        None => b is None,
    }
}

/// Two literals are of the same kind and hold the same value.
pub open spec fn same_literal(a: Literal, b: Literal) -> bool {
    match a {
        Literal::BooleanLiteral(x) => b matches Literal::BooleanLiteral(y) && x == y,
        Literal::AddressLiteral(x) => b matches Literal::AddressLiteral(y) && x@ == y@,
        Literal::StringLiteral(x) => b matches Literal::StringLiteral(y) && x@ == y@,
        Literal::U8Literal(x) => b matches Literal::U8Literal(y) && x == y,
        Literal::IntLiteral(x) => b matches Literal::IntLiteral(y) && x == y,
    }
}

/// Two argument lists have the same labels and expressions, one by one.
pub open spec fn same_arguments(a: Seq<FunctionArgument>, b: Seq<FunctionArgument>) -> bool
    decreases a,
{
    &&& a.len() == b.len()
    &&& forall|i: int|
        0 <= i < a.len() ==> same_opt_identifier(#[trigger] a[i].identifier, b[i].identifier)
            && same_expression(a[i].expression, b[i].expression)
}

/// Two calls name the same function with the same arguments.
pub open spec fn same_call(a: FunctionCall, b: FunctionCall) -> bool
    decreases a,
{
    &&& same_identifier(a.identifier, b.identifier)
    &&& same_arguments(a.arguments@, b.arguments@)
    &&& same_opt_identifier(a.mangled_identifier, b.mangled_identifier)
}

/// Two binary expressions apply the same operator to the same operands.
pub open spec fn same_binary(a: BinaryExpression, b: BinaryExpression) -> bool
    decreases a,
{
    &&& same_expression(*a.lhs_expression, *b.lhs_expression)
    &&& same_expression(*a.rhs_expression, *b.rhs_expression)
    &&& a.op == b.op
}

/// Two sequences of expressions agree element by element.
pub open spec fn same_expressions(a: Seq<Expression>, b: Seq<Expression>) -> bool
    decreases a,
{
    &&& a.len() == b.len()
    &&& forall|i: int| 0 <= i < a.len() ==> same_expression(#[trigger] a[i], b[i])
}

/// Two sequences of key-value pairs agree pair by pair.
pub open spec fn same_pairs(a: Seq<(Expression, Expression)>, b: Seq<(Expression, Expression)>) -> bool
    decreases a,
{
    &&& a.len() == b.len()
    &&& forall|i: int|
        #![trigger a[i]]
        0 <= i < a.len() ==> same_expression(a[i].0, b[i].0) && same_expression(a[i].1, b[i].1)
}

/// Two expressions are built alike from the same parts.
pub open spec fn same_expression(a: Expression, b: Expression) -> bool
    decreases a,
{
    match a {
        Expression::Identifier(x) => b matches Expression::Identifier(y) && same_identifier(x, y),
        Expression::BinaryExpression(x) => b matches Expression::BinaryExpression(y) && same_binary(x, y),
        Expression::InoutExpression(x) => b matches Expression::InoutExpression(y)
            && x.ampersand_token@ == y.ampersand_token@ && same_expression(*x.expression, *y.expression),
        Expression::ExternalCall(x) => b matches Expression::ExternalCall(y) && same_arguments(
            x.arguments@,
            y.arguments@,
        ) && same_binary(x.function_call, y.function_call) && same_opt_string(
            x.external_trait_name,
            y.external_trait_name,
        ),
        Expression::FunctionCall(x) => b matches Expression::FunctionCall(y) && same_call(x, y),
        Expression::VariableDeclaration(x) => b matches Expression::VariableDeclaration(y)
            && same_opt_string(x.declaration_token, y.declaration_token) && same_identifier(
            x.identifier,
            y.identifier,
        ) && same_type(x.variable_type, y.variable_type) && match x.expression {
            Some(e) => y.expression matches Some(f) && same_expression(*e, *f),
            None => y.expression is None,
        },
        Expression::BracketedExpression(x) => b matches Expression::BracketedExpression(y)
            && same_expression(*x.expression, *y.expression),
        Expression::AttemptExpression(x) => b matches Expression::AttemptExpression(y) && x.kind@
            == y.kind@ && same_call(x.function_call, y.function_call),
        Expression::Literal(x) => b matches Expression::Literal(y) && same_literal(x, y),
        Expression::ArrayLiteral(x) => b matches Expression::ArrayLiteral(y) && same_expressions(x@, y@),
        Expression::DictionaryLiteral(x) => b matches Expression::DictionaryLiteral(y) && same_pairs(x@, y@),
        Expression::SelfExpression => b is SelfExpression,
        Expression::SubscriptExpression(x) => b matches Expression::SubscriptExpression(y)
            && same_identifier(x.base_expression, y.base_expression) && same_expression(
            *x.index_expression,
            *y.index_expression,
        ),
        Expression::RangeExpression(x) => b matches Expression::RangeExpression(y) && same_expression(
            *x.start_expression,
            *y.start_expression,
        ) && same_expression(*x.end_expression, *y.end_expression) && x.op@ == y.op@,
        Expression::RawAssembly(x, t) => b matches Expression::RawAssembly(y, u) && x@ == y@
            && same_opt_type(t, u),
        Expression::CastExpression(x) => b matches Expression::CastExpression(y) && same_expression(
            *x.expression,
            *y.expression,
        ) && same_type(x.cast_type, y.cast_type),
        Expression::Sequence(x) => b matches Expression::Sequence(y) && same_expressions(x@, y@),
    }
}

/// Every type is the same as itself.
pub proof fn lemma_same_type_reflexive(t: Type)
    ensures
        same_type(t, t),
    decreases t,
{
    match t {
        Type::InoutType(x) => lemma_same_type_reflexive(*x.key_type),
        Type::ArrayType(x) => lemma_same_type_reflexive(*x.key_type),
        Type::RangeType(x) => lemma_same_type_reflexive(*x.key_type),
        Type::FixedSizedArrayType(x) => lemma_same_type_reflexive(*x.key_type),
        Type::DictionaryType(x) => {
            lemma_same_type_reflexive(*x.key_type);
            lemma_same_type_reflexive(*x.value_type);
        },
        _ => {},
    }
}

/// Every call is the same as itself.
pub proof fn lemma_same_call_reflexive(c: FunctionCall)
    ensures
        same_call(c, c),
    decreases c,
{
    assert forall|i: int| 0 <= i < c.arguments@.len() implies same_opt_identifier(
        #[trigger] c.arguments@[i].identifier,
        c.arguments@[i].identifier,
    ) && same_expression(c.arguments@[i].expression, c.arguments@[i].expression) by {
        lemma_same_expression_reflexive(c.arguments@[i].expression);
    }
    assert(same_arguments(c.arguments@, c.arguments@));
}

/// Every expression is the same as itself.
pub proof fn lemma_same_expression_reflexive(e: Expression)
    ensures
        same_expression(e, e),
    decreases e,
{
    match e {
        Expression::BinaryExpression(x) => {
            lemma_same_expression_reflexive(*x.lhs_expression);
            lemma_same_expression_reflexive(*x.rhs_expression);
            assert(same_binary(x, x));
        },
        Expression::InoutExpression(x) => lemma_same_expression_reflexive(*x.expression),
        Expression::ExternalCall(x) => {
            assert forall|i: int| 0 <= i < x.arguments@.len() implies same_opt_identifier(
                #[trigger] x.arguments@[i].identifier,
                x.arguments@[i].identifier,
            ) && same_expression(x.arguments@[i].expression, x.arguments@[i].expression) by {
                lemma_same_expression_reflexive(x.arguments@[i].expression);
            }
            assert(same_arguments(x.arguments@, x.arguments@));
            lemma_same_expression_reflexive(*x.function_call.lhs_expression);
            lemma_same_expression_reflexive(*x.function_call.rhs_expression);
            assert(same_binary(x.function_call, x.function_call));
        },
        Expression::FunctionCall(x) => lemma_same_call_reflexive(x),
        Expression::VariableDeclaration(x) => {
            lemma_same_type_reflexive(x.variable_type);
            if let Some(inner) = x.expression {
                lemma_same_expression_reflexive(*inner);
            }
        },
        Expression::BracketedExpression(x) => lemma_same_expression_reflexive(*x.expression),
        Expression::AttemptExpression(x) => lemma_same_call_reflexive(x.function_call),
        Expression::ArrayLiteral(x) => {
            assert forall|i: int| 0 <= i < x@.len() implies same_expression(#[trigger] x@[i], x@[i]) by {
                lemma_same_expression_reflexive(x@[i]);
            }
            assert(same_expressions(x@, x@));
        },
        Expression::DictionaryLiteral(x) => {
            assert forall|i: int| #![trigger x@[i]] 0 <= i < x@.len() implies same_expression(x@[i].0, x@[i].0)
                && same_expression(x@[i].1, x@[i].1) by {
                lemma_same_expression_reflexive(x@[i].0);
                lemma_same_expression_reflexive(x@[i].1);
            }
            assert(same_pairs(x@, x@));
        },
        Expression::SubscriptExpression(x) => lemma_same_expression_reflexive(*x.index_expression),
        Expression::RangeExpression(x) => {
            lemma_same_expression_reflexive(*x.start_expression);
            lemma_same_expression_reflexive(*x.end_expression);
        },
        Expression::RawAssembly(_, t) => {
            if let Some(u) = t {
                lemma_same_type_reflexive(u);
            }
        },
        Expression::CastExpression(x) => {
            lemma_same_expression_reflexive(*x.expression);
            lemma_same_type_reflexive(x.cast_type);
        },
        Expression::Sequence(x) => {
            assert forall|i: int| 0 <= i < x@.len() implies same_expression(#[trigger] x@[i], x@[i]) by {
                lemma_same_expression_reflexive(x@[i]);
            }
            assert(same_expressions(x@, x@));
        },
        _ => {},
    }
}

/// Whether two optional strings compare equal.
pub fn opt_strings_equal(a: &Option<String>, b: &Option<String>) -> (res: bool)
    ensures
        res == same_opt_string(*a, *b),
{
    match (a, b) {
        (Some(x), Some(y)) => *x == *y,
        (None, None) => true,
        _ => false,
    }
}

/// Whether two identifiers compare equal.
pub fn identifiers_equal(a: &Identifier, b: &Identifier) -> (res: bool)
    ensures
        res == same_identifier(*a, *b),
{
    a.token == b.token && opt_strings_equal(&a.enclosing_type, &b.enclosing_type)
}

/// Whether two optional identifiers compare equal.
pub fn opt_identifiers_equal(a: &Option<Identifier>, b: &Option<Identifier>) -> (res: bool)
    ensures
        res == same_opt_identifier(*a, *b),
{
    match (a, b) {
        (Some(x), Some(y)) => identifiers_equal(x, y),
        (None, None) => true,
        _ => false,
    }
}

/// Whether two types compare equal.
pub fn types_equal(a: &Type, b: &Type) -> (res: bool)
    ensures
        res == same_type(*a, *b),
    decreases a,
{
    match (a, b) {
        (Type::InoutType(x), Type::InoutType(y)) => types_equal(&x.key_type, &y.key_type),
        (Type::ArrayType(x), Type::ArrayType(y)) => types_equal(&x.key_type, &y.key_type),
        (Type::RangeType(x), Type::RangeType(y)) => types_equal(&x.key_type, &y.key_type),
        (Type::FixedSizedArrayType(x), Type::FixedSizedArrayType(y)) => x.size == y.size
            && types_equal(&x.key_type, &y.key_type),
        (Type::DictionaryType(x), Type::DictionaryType(y)) => types_equal(&x.key_type, &y.key_type)
            && types_equal(&x.value_type, &y.value_type),
        (Type::UserDefinedType(x), Type::UserDefinedType(y)) => identifiers_equal(x, y),
        (Type::Bool, Type::Bool) => true,
        (Type::Int, Type::Int) => true,
        (Type::String, Type::String) => true,
        (Type::Address, Type::Address) => true,
        (Type::Error, Type::Error) => true,
        (Type::SelfType, Type::SelfType) => true,
        (Type::Solidity(x), Type::Solidity(y)) => *x == *y,
        (Type::TypeState, Type::TypeState) => true,
        _ => false,
    }
}

/// Whether two optional types compare equal.
pub fn opt_types_equal(a: &Option<Type>, b: &Option<Type>) -> (res: bool)
    ensures
        res == same_opt_type(*a, *b),
{
    match (a, b) {
        (Some(x), Some(y)) => types_equal(x, y),
        (None, None) => true,
        _ => false,
    }
}

/// Whether two literals compare equal.
pub fn literals_equal(a: &Literal, b: &Literal) -> (res: bool)
    ensures
        res == same_literal(*a, *b),
{
    match (a, b) {
        (Literal::BooleanLiteral(x), Literal::BooleanLiteral(y)) => *x == *y,
        (Literal::AddressLiteral(x), Literal::AddressLiteral(y)) => *x == *y,
        (Literal::StringLiteral(x), Literal::StringLiteral(y)) => *x == *y,
        (Literal::U8Literal(x), Literal::U8Literal(y)) => *x == *y,
        (Literal::IntLiteral(x), Literal::IntLiteral(y)) => *x == *y,
        _ => false,
    }
}

/// Whether two argument lists compare equal.
pub fn arguments_equal(a: &Vec<FunctionArgument>, b: &Vec<FunctionArgument>) -> (res: bool)
    ensures
        res == same_arguments(a@, b@),
    decreases a,
{
    if a.len() != b.len() {
        return false;
    }
    let mut i: usize = 0;
    while i < a.len()
        invariant
            a@.len() == b@.len(),
            i <= a@.len(),
            forall|j: int|
                0 <= j < i ==> same_opt_identifier(#[trigger] a@[j].identifier, b@[j].identifier)
                    && same_expression(a@[j].expression, b@[j].expression),
        decreases a@.len() - i,
    {
        if !opt_identifiers_equal(&a[i].identifier, &b[i].identifier) {
            return false;
        }
        if !expressions_equal(&a[i].expression, &b[i].expression) {
            return false;
        }
        i = i + 1;
    }
    true
}

/// Whether two calls compare equal.
pub fn calls_equal(a: &FunctionCall, b: &FunctionCall) -> (res: bool)
    ensures
        res == same_call(*a, *b),
    decreases a,
{
    identifiers_equal(&a.identifier, &b.identifier) && arguments_equal(&a.arguments, &b.arguments)
        && opt_identifiers_equal(&a.mangled_identifier, &b.mangled_identifier)
}

/// Whether two binary expressions compare equal.
pub fn binaries_equal(a: &BinaryExpression, b: &BinaryExpression) -> (res: bool)
    ensures
        res == same_binary(*a, *b),
    decreases a,
{
    expressions_equal(&a.lhs_expression, &b.lhs_expression) && expressions_equal(
        &a.rhs_expression,
        &b.rhs_expression,
    ) && a.op == b.op
}

/// Whether two lists of expressions compare equal.
pub fn expression_lists_equal(a: &Vec<Expression>, b: &Vec<Expression>) -> (res: bool)
    ensures
        res == same_expressions(a@, b@),
    decreases a,
{
    if a.len() != b.len() {
        return false;
    }
    let mut i: usize = 0;
    while i < a.len()
        invariant
            a@.len() == b@.len(),
            i <= a@.len(),
            forall|j: int| 0 <= j < i ==> same_expression(#[trigger] a@[j], b@[j]),
        decreases a@.len() - i,
    {
        if !expressions_equal(&a[i], &b[i]) {
            return false;
        }
        i = i + 1;
    }
    true
}

/// Whether two lists of key-value pairs compare equal.
pub fn pair_lists_equal(a: &Vec<(Expression, Expression)>, b: &Vec<(Expression, Expression)>) -> (res:
    bool)
    ensures
        res == same_pairs(a@, b@),
    decreases a,
{
    if a.len() != b.len() {
        return false;
    }
    let mut i: usize = 0;
    while i < a.len()
        invariant
            a@.len() == b@.len(),
            i <= a@.len(),
            forall|j: int|
                #![trigger a@[j]]
                0 <= j < i ==> same_expression(a@[j].0, b@[j].0) && same_expression(a@[j].1, b@[j].1),
        decreases a@.len() - i,
    {
        if !expressions_equal(&a[i].0, &b[i].0) {
            return false;
        }
        if !expressions_equal(&a[i].1, &b[i].1) {
            return false;
        }
        i = i + 1;
    }
    true
}

/// Whether two expressions compare equal.
pub fn expressions_equal(a: &Expression, b: &Expression) -> (res: bool)
    ensures
        res == same_expression(*a, *b),
    decreases a,
{
    match (a, b) {
        (Expression::Identifier(x), Expression::Identifier(y)) => identifiers_equal(x, y),
        (Expression::BinaryExpression(x), Expression::BinaryExpression(y)) => binaries_equal(x, y),
        (Expression::InoutExpression(x), Expression::InoutExpression(y)) => x.ampersand_token
            == y.ampersand_token && expressions_equal(&x.expression, &y.expression),
        (Expression::ExternalCall(x), Expression::ExternalCall(y)) => arguments_equal(
            &x.arguments,
            &y.arguments,
        ) && binaries_equal(&x.function_call, &y.function_call) && opt_strings_equal(
            &x.external_trait_name,
            &y.external_trait_name,
        ),
        (Expression::FunctionCall(x), Expression::FunctionCall(y)) => calls_equal(x, y),
        (Expression::VariableDeclaration(x), Expression::VariableDeclaration(y)) => {
            opt_strings_equal(&x.declaration_token, &y.declaration_token) && identifiers_equal(
                &x.identifier,
                &y.identifier,
            ) && types_equal(&x.variable_type, &y.variable_type) && match (
                &x.expression,
                &y.expression,
            ) {
                (Some(e), Some(f)) => expressions_equal(e, f),
                (None, None) => true,
                _ => false,
            }
        },
        (Expression::BracketedExpression(x), Expression::BracketedExpression(y)) => expressions_equal(
            &x.expression,
            &y.expression,
        ),
        (Expression::AttemptExpression(x), Expression::AttemptExpression(y)) => x.kind == y.kind
            && calls_equal(&x.function_call, &y.function_call),
        (Expression::Literal(x), Expression::Literal(y)) => literals_equal(x, y),
        (Expression::ArrayLiteral(x), Expression::ArrayLiteral(y)) => expression_lists_equal(x, y),
        (Expression::DictionaryLiteral(x), Expression::DictionaryLiteral(y)) => pair_lists_equal(x, y),
        (Expression::SelfExpression, Expression::SelfExpression) => true,
        (Expression::SubscriptExpression(x), Expression::SubscriptExpression(y)) => identifiers_equal(
            &x.base_expression,
            &y.base_expression,
        ) && expressions_equal(&x.index_expression, &y.index_expression),
        (Expression::RangeExpression(x), Expression::RangeExpression(y)) => expressions_equal(
            &x.start_expression,
            &y.start_expression,
        ) && expressions_equal(&x.end_expression, &y.end_expression) && x.op == y.op,
        (Expression::RawAssembly(x, t), Expression::RawAssembly(y, u)) => *x == *y && opt_types_equal(
            t,
            u,
        ),
        (Expression::CastExpression(x), Expression::CastExpression(y)) => expressions_equal(
            &x.expression,
            &y.expression,
        ) && types_equal(&x.cast_type, &y.cast_type),
        (Expression::Sequence(x), Expression::Sequence(y)) => expression_lists_equal(x, y),
        _ => false,
    }
}

} // verus!
