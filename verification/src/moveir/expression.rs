//! Lowering of Flint expressions to Move IR: casts and the binary operators.
//!
//! The code already generated for the subexpressions is handed to these
//! lowerings as arguments.

use vstd::prelude::*;
use vstd::arithmetic::power2::{pow2, lemma2_to64, lemma2_to64_rest};
use crate::ast::{arithmetic_value, comparison_holds, logic_value, BinOp, BinaryExpression, CastExpression, Type};
use crate::text::{decimal, decimal_string};
use super::ir::{MoveIRExpression, MoveIROperation};
use super::runtime_function::{MoveRuntimeFunction, is_runtime_call};

verus! {

/// The width in bits of a Flint type for Move and whether it is signed: every
/// type is a 256-bit word, signed for `Int`.
pub open spec fn move_type_info(t: Type) -> (u64, bool) {
    (256, t is Int)
}

/// The widths that Move's unsigned integers come in.
pub open spec fn is_move_width(bits: u64) -> bool {
    bits == 8 || bits == 16 || bits == 24 || bits == 32 || bits == 40 || bits == 48 || bits == 56
        || bits == 64
}

/// A conversion of an expression to another type.
pub struct MoveCastExpression {
    pub expression: CastExpression,
}

impl MoveCastExpression {
    /// Lowers the cast, given the type of the expression being cast and the
    /// code generated for it. Every type is a full word here, so no cast
    /// narrows and the code is that of the expression.
    pub fn generate(&self, original_type: &Type, expression_code: MoveIRExpression) -> (res: MoveIRExpression)
        ensures
            res == expression_code,
    {
        let original_type_information = MoveCastExpression::get_type_info(original_type);
        let target_type_information = MoveCastExpression::get_type_info(&self.expression.cast_type);
        if original_type_information.0 <= target_type_information.0 {
            return expression_code;
        }
        let target = MoveCastExpression::maximum_value(target_type_information.0);
        MoveRuntimeFunction::revert_if_greater(expression_code, MoveIRExpression::Inline(target))
    }

    /// The width in bits of a type and whether it is signed.
    pub fn get_type_info(input: &Type) -> (res: (u64, bool))
        ensures
            res == move_type_info(*input),
    {
        match input {
            Type::Int => (256, true),
            _ => (256, false),
        }
    }

    /// The largest unsigned value of `input` bits, in decimal.
    pub fn maximum_value(input: u64) -> (res: String)
        requires
            is_move_width(input),
        ensures
            res@ == decimal((pow2(input as nat) - 1) as nat),
    {
        let max: u64 = match input {
            8 => 255,
            16 => 65535,
            24 => 16777215,
            32 => 4294967295,
            40 => 1099511627775,
            48 => 281474976710655,
            56 => 72057594037927935,
            _ => 18446744073709551615,
        };
        assert(max as nat == pow2(input as nat) - 1) by {
            lemma2_to64();
            lemma2_to64_rest();
        }
        decimal_string(max)
    }
}

/// An operator applied to two operands.
pub struct MoveBinaryExpression {
    pub expression: BinaryExpression,
}

/// The operators that lower to a single Move IR operation or call: all but
/// member access and the assignments.
pub open spec fn is_move_lowerable_operator(op: BinOp) -> bool {
    !(op is Dot || op is Equal || op is PlusEqual || op is MinusEqual || op is TimesEqual
        || op is DivideEqual)
}

/// The Move IR operation for an operator other than `**`: overflowing and
/// checked arithmetic alike map to Move's own (checked) arithmetic.
pub open spec fn move_operation(op: BinOp, lhs: MoveIRExpression, rhs: MoveIRExpression) -> MoveIROperation {
    let (l, r) = (Box::new(lhs), Box::new(rhs));
    match op {
        BinOp::Plus | BinOp::OverflowingPlus => MoveIROperation::Add(l, r),
        BinOp::Minus | BinOp::OverflowingMinus => MoveIROperation::Minus(l, r),
        BinOp::Times | BinOp::OverflowingTimes => MoveIROperation::Times(l, r),
        BinOp::Divide => MoveIROperation::Divide(l, r),
        BinOp::Percent => MoveIROperation::Modulo(l, r),
        BinOp::DoubleEqual => MoveIROperation::Equal(l, r),
        BinOp::NotEqual => MoveIROperation::NotEqual(l, r),
        BinOp::LessThan => MoveIROperation::LessThan(l, r),
        BinOp::LessThanOrEqual => MoveIROperation::LessThanEqual(l, r),
        BinOp::GreaterThan => MoveIROperation::GreaterThan(l, r),
        BinOp::GreaterThanOrEqual => MoveIROperation::GreaterThanEqual(l, r),
        BinOp::Or => MoveIROperation::Or(l, r),
        _ => MoveIROperation::And(l, r),
    }
}

/// `res` applies `op` to the values that `lhs` and `rhs` compute: `**`
/// through the runtime power function, every other operator as the Move IR
/// operation above.
pub open spec fn is_move_operator_lowering(res: MoveIRExpression, op: BinOp, lhs: MoveIRExpression, rhs: MoveIRExpression) -> bool {
    if op is Power {
        is_runtime_call(res, MoveRuntimeFunction::Power, seq![lhs, rhs])
    } else {
        res == MoveIRExpression::Operation(move_operation(op, lhs, rhs))
    }
}

impl MoveBinaryExpression {
    /// Applies the operator to the code generated for the two operands.
    pub fn generate(&self, lhs: MoveIRExpression, rhs: MoveIRExpression) -> (res: MoveIRExpression)
        requires
            is_move_lowerable_operator(self.expression.op),
        ensures
            is_move_operator_lowering(res, self.expression.op, lhs, rhs),
    {
        let (l, r) = (Box::new(lhs), Box::new(rhs));
        let operation = match self.expression.op {
            BinOp::Power => {
                return MoveRuntimeFunction::power(*l, *r);
            },
            BinOp::Plus | BinOp::OverflowingPlus => MoveIROperation::Add(l, r),
            BinOp::Minus | BinOp::OverflowingMinus => MoveIROperation::Minus(l, r),
            BinOp::Times | BinOp::OverflowingTimes => MoveIROperation::Times(l, r),
            BinOp::Divide => MoveIROperation::Divide(l, r),
            BinOp::Percent => MoveIROperation::Modulo(l, r),
            BinOp::DoubleEqual => MoveIROperation::Equal(l, r),
            BinOp::NotEqual => MoveIROperation::NotEqual(l, r),
            BinOp::LessThan => MoveIROperation::LessThan(l, r),
            BinOp::LessThanOrEqual => MoveIROperation::LessThanEqual(l, r),
            BinOp::GreaterThan => MoveIROperation::GreaterThan(l, r),
            BinOp::GreaterThanOrEqual => MoveIROperation::GreaterThanEqual(l, r),
            BinOp::Or => MoveIROperation::Or(l, r),
            _ => MoveIROperation::And(l, r),
        };
        MoveIRExpression::Operation(operation)
    }
}


/// Whether a Move IR comparison holds between the values of its operands,
/// as Move defines its comparison operations (`None` for an operation that
/// is no comparison).
pub open spec fn move_comparison_holds(o: MoveIROperation, x: int, y: int) -> Option<bool> {
    match o {
        MoveIROperation::Equal(_, _) => Some(x == y),
        MoveIROperation::NotEqual(_, _) => Some(x != y),
        MoveIROperation::LessThan(_, _) => Some(x < y),
        MoveIROperation::LessThanEqual(_, _) => Some(x <= y),
        MoveIROperation::GreaterThan(_, _) => Some(x > y),
        MoveIROperation::GreaterThanEqual(_, _) => Some(x >= y),
        _ => None,
    }
}

/// The two operands of a binary comparison of Move IR, left then right.
pub open spec fn comparison_operands(o: MoveIROperation) -> Option<(MoveIRExpression, MoveIRExpression)> {
    match o {
        MoveIROperation::Equal(l, r) => Some((*l, *r)),
        MoveIROperation::NotEqual(l, r) => Some((*l, *r)),
        MoveIROperation::LessThan(l, r) => Some((*l, *r)),
        MoveIROperation::LessThanEqual(l, r) => Some((*l, *r)),
        MoveIROperation::GreaterThan(l, r) => Some((*l, *r)),
        MoveIROperation::GreaterThanEqual(l, r) => Some((*l, *r)),
        _ => None,
    }
}

/// A comparison keeps its meaning when lowered to Move IR: the lowering
/// compares the two operands in their order, and holds for operand values
/// `x` and `y` exactly when the source comparison holds for them. So `<`
/// and `>` (or any two different comparisons) never lower alike.
pub proof fn law_move_comparisons_keep_their_meaning(
    res: MoveIRExpression,
    op: BinOp,
    lhs: MoveIRExpression,
    rhs: MoveIRExpression,
    x: int,
    y: int,
)
    requires
        is_move_operator_lowering(res, op, lhs, rhs),
        comparison_holds(op, x, y) is Some,
    ensures
        res matches MoveIRExpression::Operation(o) && comparison_operands(o) == Some((lhs, rhs))
            && move_comparison_holds(o, x, y) == comparison_holds(op, x, y),
{
}


/// The value of a Move IR arithmetic operation on operands worth `x` and
/// `y`, as Move defines them (`None` for other operations).
pub open spec fn move_arithmetic_value(o: MoveIROperation, x: int, y: int) -> Option<int> {
    match o {
        MoveIROperation::Add(_, _) => Some(x + y),
        MoveIROperation::Minus(_, _) => Some(x - y),
        MoveIROperation::Times(_, _) => Some(x * y),
        MoveIROperation::Divide(_, _) => Some(x / y),
        MoveIROperation::Modulo(_, _) => Some(x % y),
        _ => None,
    }
}

/// The value of a Move IR logical operation on truth values `a` and `b`.
pub open spec fn move_logic_value(o: MoveIROperation, a: bool, b: bool) -> Option<bool> {
    match o {
        MoveIROperation::And(_, _) => Some(a && b),
        MoveIROperation::Or(_, _) => Some(a || b),
        _ => None,
    }
}

/// The two operands of a binary arithmetic or logical operation of Move IR.
pub open spec fn arithmetic_operands(o: MoveIROperation) -> Option<(MoveIRExpression, MoveIRExpression)> {
    match o {
        MoveIROperation::Add(l, r) => Some((*l, *r)),
        MoveIROperation::Minus(l, r) => Some((*l, *r)),
        MoveIROperation::Times(l, r) => Some((*l, *r)),
        MoveIROperation::Divide(l, r) => Some((*l, *r)),
        MoveIROperation::Modulo(l, r) => Some((*l, *r)),
        MoveIROperation::And(l, r) => Some((*l, *r)),
        MoveIROperation::Or(l, r) => Some((*l, *r)),
        _ => None,
    }
}

/// Arithmetic and logic keep their meaning when lowered to Move IR: the
/// lowering applies an operation to the two operands in their order whose
/// value is that of the source operator.
pub proof fn law_move_arithmetic_keeps_its_meaning(
    res: MoveIRExpression,
    op: BinOp,
    lhs: MoveIRExpression,
    rhs: MoveIRExpression,
    x: int,
    y: int,
    a: bool,
    b: bool,
)
    requires
        is_move_operator_lowering(res, op, lhs, rhs),
        arithmetic_value(op, x, y) is Some || logic_value(op, a, b) is Some,
    ensures
        res matches MoveIRExpression::Operation(o) && arithmetic_operands(o) == Some((lhs, rhs))
            && move_arithmetic_value(o, x, y) == arithmetic_value(op, x, y) && move_logic_value(o, a, b)
            == logic_value(op, a, b),
{
}

} // verus!
