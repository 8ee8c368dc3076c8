//! Lowering of Flint expressions to Yul: casts between integer types, `self`,
//! subscripts into storage, variable declarations and the binary operators.
//!
//! What these lowerings need to know of the program's declarations (the type
//! of an expression, the storage offset of a property, the size of a type) is
//! handed to them as arguments, together with the Yul code already generated
//! for their subexpressions.

use vstd::prelude::*;
use vstd::arithmetic::power2::pow2;
use crate::ast::{arithmetic_value, comparison_holds, logic_value, mangled, mangle, BinOp, CastExpression, Expression, Identifier, SolidityType, Type, VariableDeclaration};
use crate::text::push_char;
use super::yul::{YulExpression, YulFunctionCall, YulLiteral, YulType, YulVariableDeclaration};
use super::runtime_function::{SolidityRuntimeFunction, is_runtime_call, is_builtin_call, mangled_runtime};
use super::function::FunctionContext;

verus! {

/// The width in bits of a Solidity type and whether it is signed. Booleans,
/// strings and addresses take a full word; `int144` and `uint144` are
/// counted as 152 bits wide, unlike every other width, which is counted as
/// written.
pub open spec fn solidity_type_info(s: SolidityType) -> (u64, bool) {
    match s {
        SolidityType::ADDRESS => (256, false),
        SolidityType::STRING => (256, false),
        SolidityType::BOOL => (256, false),
        SolidityType::INT8 => (8, true),
        SolidityType::INT16 => (16, true),
        SolidityType::INT24 => (24, true),
        SolidityType::INT32 => (32, true),
        SolidityType::INT40 => (40, true),
        SolidityType::INT48 => (48, true),
        SolidityType::INT56 => (56, true),
        SolidityType::INT64 => (64, true),
        SolidityType::INT72 => (72, true),
        SolidityType::INT80 => (80, true),
        SolidityType::INT88 => (88, true),
        SolidityType::INT96 => (96, true),
        SolidityType::INT104 => (104, true),
        SolidityType::INT112 => (112, true),
        SolidityType::INT120 => (120, true),
        SolidityType::INT128 => (128, true),
        SolidityType::INT136 => (136, true),
        SolidityType::INT144 => (152, true),
        SolidityType::INT152 => (152, true),
        SolidityType::INT160 => (160, true),
        SolidityType::INT168 => (168, true),
        SolidityType::INT176 => (176, true),
        SolidityType::INT184 => (184, true),
        SolidityType::INT192 => (192, true),
        SolidityType::INT200 => (200, true),
        SolidityType::INT208 => (208, true),
        SolidityType::INT216 => (216, true),
        SolidityType::INT224 => (224, true),
        SolidityType::INT232 => (232, true),
        SolidityType::INT240 => (240, true),
        SolidityType::INT248 => (248, true),
        SolidityType::INT256 => (256, true),
        SolidityType::UINT8 => (8, false),
        SolidityType::UINT16 => (16, false),
        SolidityType::UINT24 => (24, false),
        SolidityType::UINT32 => (32, false),
        SolidityType::UINT40 => (40, false),
        SolidityType::UINT48 => (48, false),
        SolidityType::UINT56 => (56, false),
        SolidityType::UINT64 => (64, false),
        SolidityType::UINT72 => (72, false),
        SolidityType::UINT80 => (80, false),
        SolidityType::UINT88 => (88, false),
        SolidityType::UINT96 => (96, false),
        SolidityType::UINT104 => (104, false),
        SolidityType::UINT112 => (112, false),
        SolidityType::UINT120 => (120, false),
        SolidityType::UINT128 => (128, false),
        SolidityType::UINT136 => (136, false),
        SolidityType::UINT144 => (152, false),
        SolidityType::UINT152 => (152, false),
        SolidityType::UINT160 => (160, false),
        SolidityType::UINT168 => (168, false),
        SolidityType::UINT176 => (176, false),
        SolidityType::UINT184 => (184, false),
        SolidityType::UINT192 => (192, false),
        SolidityType::UINT200 => (200, false),
        SolidityType::UINT208 => (208, false),
        SolidityType::UINT216 => (216, false),
        SolidityType::UINT224 => (224, false),
        SolidityType::UINT232 => (232, false),
        SolidityType::UINT240 => (240, false),
        SolidityType::UINT248 => (248, false),
        SolidityType::UINT256 => (256, false),
    }
}

/// The width in bits of a Flint type and whether it is signed: Solidity
/// types as above, `Int` a signed word, every other type an unsigned word.
pub open spec fn type_info(t: Type) -> (u64, bool) {
    match t {
        Type::Int => (256, true),
        Type::Solidity(s) => solidity_type_info(s),
        _ => (256, false),
    }
}

/// The largest unsigned value of `bits` bits in hexadecimal: `0x` and one
/// `F` for every four bits.
pub open spec fn maximum_value_text(bits: u64) -> Seq<char> {
    "0x"@ + Seq::new((bits / 4) as nat, |i: int| 'F')
}

/// A conversion of an expression to another type.
pub struct SolidityCastExpression {
    pub expression: CastExpression,
}

/// `e` is the hexadecimal literal written `text`.
pub open spec fn is_hex_literal(e: YulExpression, text: Seq<char>) -> bool {
    e matches YulExpression::Literal(YulLiteral::Hex(h)) && h@ == text
}

/// `res` is the lowering of a cast from a type of `from_bits` bits to one of
/// `to_bits` bits, of the value that `value` computes: the value itself when
/// the target is at least as wide, else a call that reverts when the value
/// exceeds the largest value of the target width.
pub open spec fn is_cast_lowering(res: YulExpression, value: YulExpression, from_bits: u64, to_bits: u64) -> bool {
    if from_bits <= to_bits {
        res == value
    } else {
        &&& res matches YulExpression::FunctionCall(fc)
        &&& fc.name@ == mangled_runtime(SolidityRuntimeFunction::RevertIfGreater)
        &&& fc.arguments@.len() == 2
        &&& fc.arguments@[0] == value
        &&& is_hex_literal(fc.arguments@[1], maximum_value_text(to_bits))
    }
}

impl SolidityCastExpression {
    /// Lowers the cast, given the type of the expression being cast and the
    /// code generated for it.
    pub fn generate(&self, original_type: &Type, expression_ir: YulExpression) -> (res: YulExpression)
        ensures
            is_cast_lowering(
                res,
                expression_ir,
                type_info(*original_type).0,
                type_info(self.expression.cast_type).0,
            ),
    {
        let original_type_info = SolidityCastExpression::get_type_info(original_type);
        let target_type_info = SolidityCastExpression::get_type_info(&self.expression.cast_type);
        if original_type_info.0 <= target_type_info.0 {
            return expression_ir;
        }
        let target_max = SolidityCastExpression::maximum_value(target_type_info.0);
        SolidityRuntimeFunction::revert_if_greater(
            expression_ir,
            YulExpression::Literal(YulLiteral::Hex(target_max)),
        )
    }

    /// The largest unsigned value of `input` bits, in hexadecimal.
    pub fn maximum_value(input: u64) -> (res: String)
        requires
            input % 4 == 0,
            8 <= input <= 256,
        ensures
            res@ == maximum_value_text(input),
    {
        let mut res = String::from_str("0x");
        let digits = input / 4;
        let mut i: u64 = 0;
        while i < digits
            invariant
                digits == input / 4,
                i <= digits,
                res@ == "0x"@ + Seq::new(i as nat, |k: int| 'F'),
            decreases digits - i,
        {
            push_char(&mut res, 'F');
            i = i + 1;
            assert(res@ =~= "0x"@ + Seq::new(i as nat, |k: int| 'F'));
        }
        res
    }

    /// The width in bits of a type and whether it is signed.
    pub fn get_type_info(input: &Type) -> (res: (u64, bool))
        ensures
            res == type_info(*input),
            res.0 % 8 == 0,
            8 <= res.0 <= 256,
    {
        match input {
            Type::Int => (256, true),
            Type::Solidity(s) => match s {
                SolidityType::ADDRESS => (256, false),
                SolidityType::STRING => (256, false),
                SolidityType::BOOL => (256, false),
                SolidityType::INT8 => (8, true),
                SolidityType::INT16 => (16, true),
                SolidityType::INT24 => (24, true),
                SolidityType::INT32 => (32, true),
                SolidityType::INT40 => (40, true),
                SolidityType::INT48 => (48, true),
                SolidityType::INT56 => (56, true),
                SolidityType::INT64 => (64, true),
                SolidityType::INT72 => (72, true),
                SolidityType::INT80 => (80, true),
                SolidityType::INT88 => (88, true),
                SolidityType::INT96 => (96, true),
                SolidityType::INT104 => (104, true),
                SolidityType::INT112 => (112, true),
                SolidityType::INT120 => (120, true),
                SolidityType::INT128 => (128, true),
                SolidityType::INT136 => (136, true),
                SolidityType::INT144 => (152, true),
                SolidityType::INT152 => (152, true),
                SolidityType::INT160 => (160, true),
                SolidityType::INT168 => (168, true),
                SolidityType::INT176 => (176, true),
                SolidityType::INT184 => (184, true),
                SolidityType::INT192 => (192, true),
                SolidityType::INT200 => (200, true),
                SolidityType::INT208 => (208, true),
                SolidityType::INT216 => (216, true),
                SolidityType::INT224 => (224, true),
                SolidityType::INT232 => (232, true),
                SolidityType::INT240 => (240, true),
                SolidityType::INT248 => (248, true),
                SolidityType::INT256 => (256, true),
                SolidityType::UINT8 => (8, false),
                SolidityType::UINT16 => (16, false),
                SolidityType::UINT24 => (24, false),
                SolidityType::UINT32 => (32, false),
                SolidityType::UINT40 => (40, false),
                SolidityType::UINT48 => (48, false),
                SolidityType::UINT56 => (56, false),
                SolidityType::UINT64 => (64, false),
                SolidityType::UINT72 => (72, false),
                SolidityType::UINT80 => (80, false),
                SolidityType::UINT88 => (88, false),
                SolidityType::UINT96 => (96, false),
                SolidityType::UINT104 => (104, false),
                SolidityType::UINT112 => (112, false),
                SolidityType::UINT120 => (120, false),
                SolidityType::UINT128 => (128, false),
                SolidityType::UINT136 => (136, false),
                SolidityType::UINT144 => (152, false),
                SolidityType::UINT152 => (152, false),
                SolidityType::UINT160 => (160, false),
                SolidityType::UINT168 => (168, false),
                SolidityType::UINT176 => (176, false),
                SolidityType::UINT184 => (184, false),
                SolidityType::UINT192 => (192, false),
                SolidityType::UINT200 => (200, false),
                SolidityType::UINT208 => (208, false),
                SolidityType::UINT216 => (216, false),
                SolidityType::UINT224 => (224, false),
                SolidityType::UINT232 => (232, false),
                SolidityType::UINT240 => (240, false),
                SolidityType::UINT248 => (248, false),
                SolidityType::UINT256 => (256, false),
            },
            _ => (256, false),
        }
    }
}

/// The expression `self`.
pub struct SoliditySelfExpression {
    pub is_lvalue: bool,
}

/// The name that `self` lowers to: the receiver parameter inside struct
/// functions, else storage offset zero when assigned to, else nothing.
pub open spec fn self_name(in_struct_function: bool, is_lvalue: bool) -> Seq<char> {
    if in_struct_function {
        "_QuartzSelf"@
    } else if is_lvalue {
        "0"@
    } else {
        ""@
    }
}

impl SoliditySelfExpression {
    /// Lowers `self` inside the function that `function_context` describes.
    pub fn generate(&self, function_context: &FunctionContext) -> (res: YulExpression)
        ensures
            res matches YulExpression::Identifier(name) && name@ == self_name(
                function_context.in_struct_function,
                self.is_lvalue,
            ),
    {
        let ident = if function_context.in_struct_function {
            String::from_str("_QuartzSelf")
        } else if self.is_lvalue {
            String::from_str("0")
        } else {
            String::from_str("")
        };
        YulExpression::Identifier(ident)
    }
}

/// An indexing into an array or a dictionary held in storage.
pub struct SoliditySubscriptExpression {
    pub expression: crate::ast::SubscriptExpression,
    pub is_lvalue: bool,
}

/// The identifier that an identifier or a subscript expression is based on.
pub open spec fn base_identifier_of(expression: Expression) -> Identifier
    recommends
        expression is Identifier || expression is SubscriptExpression,
{
    match expression {
        Expression::Identifier(i) => i,
        Expression::SubscriptExpression(s) => s.base_expression,
        _ => arbitrary(),
    }
}

/// `res` computes the storage slot of the element at `index` of a
/// collection of type `base_type` stored at `base_offset`, the collection
/// being `size` words long where it is a fixed-size array.
pub open spec fn is_element_slot(res: YulExpression, base_type: Type, base_offset: u64, index: YulExpression, size: u64) -> bool {
    let base = YulExpression::Literal(YulLiteral::Num(base_offset));
    match base_type {
        Type::ArrayType(_) => is_runtime_call(res, SolidityRuntimeFunction::StorageArrayOffset, seq![base, index]),
        Type::FixedSizedArrayType(_) => is_runtime_call(
            res,
            SolidityRuntimeFunction::StorageFixedSizeArrayOffset,
            seq![base, index, YulExpression::Literal(YulLiteral::Num(size))],
        ),
        Type::DictionaryType(_) => is_runtime_call(
            res,
            SolidityRuntimeFunction::StorageDictionaryOffsetForKey,
            seq![base, index],
        ),
        _ => false,
    }
}

impl SoliditySubscriptExpression {
    /// Reads or addresses the element: the slot itself when it is assigned
    /// to, else the word loaded from that slot.
    pub fn generate(&self, mem_location: YulExpression) -> (res: YulExpression)
        ensures
            self.is_lvalue ==> res == mem_location,
            !self.is_lvalue ==> is_builtin_call(res, "sload"@, seq![mem_location]),
    {
        if self.is_lvalue {
            mem_location
        } else {
            let arguments = vec![mem_location];
            assert(arguments@ =~= seq![mem_location]);
            YulExpression::FunctionCall(YulFunctionCall { name: String::from_str("sload"), arguments })
        }
    }

    /// The identifier that an identifier or a subscript expression is based on.
    pub fn base_identifier(expression: Expression) -> (res: Identifier)
        requires
            expression is Identifier || expression is SubscriptExpression,
        ensures
            res == base_identifier_of(expression),
    {
        match expression {
            Expression::Identifier(i) => i,
            Expression::SubscriptExpression(s) => s.base_expression,
            _ => {
                assert(false);
                Identifier { token: String::new(), enclosing_type: None, line_info: crate::ast::LineInfo { line: 0, offset: 0 } }
            },
        }
    }

    /// The storage slot of the element at `index_expression` of a collection of
    /// type `base_type` stored at `base_offset`; `size` is the length of a
    /// fixed-size array.
    pub fn nested_offset(base_type: &Type, base_offset: u64, index_expression: YulExpression, size: u64) -> (res: YulExpression)
        requires
            base_type is ArrayType || base_type is FixedSizedArrayType || base_type is DictionaryType,
        ensures
            is_element_slot(res, *base_type, base_offset, index_expression, size),
    {
        let a = YulExpression::Literal(YulLiteral::Num(base_offset));
        match base_type {
            Type::ArrayType(_) => SolidityRuntimeFunction::storage_array_offset(a, index_expression),
            Type::FixedSizedArrayType(_) => SolidityRuntimeFunction::storage_fixed_array_offset(a, index_expression, size),
            _ => SolidityRuntimeFunction::storage_dictionary_offset_key(a, index_expression),
        }
    }
}

/// An operator applied to two operands.
pub struct SolidityBinaryExpression {
    pub expression: crate::ast::BinaryExpression,
    pub is_lvalue: bool,
}

/// The operators that lower to a single Yul call: all but member access,
/// assignments and the comparisons `<=` and `>=`.
pub open spec fn is_lowerable_operator(op: BinOp) -> bool {
    !(op is Dot || op is Equal || op is PlusEqual || op is MinusEqual || op is TimesEqual
        || op is DivideEqual || op is LessThanOrEqual || op is GreaterThanOrEqual)
}

/// `res` applies `op` to the values that `lhs` and `rhs` compute: checked
/// arithmetic through the runtime helpers, overflowing arithmetic, remainder,
/// comparisons and logic through the Yul builtins, `!=` as the negation of
/// `==`.
pub open spec fn is_operator_lowering(res: YulExpression, op: BinOp, lhs: YulExpression, rhs: YulExpression) -> bool {
    let args = seq![lhs, rhs];
    match op {
        BinOp::Plus => is_runtime_call(res, SolidityRuntimeFunction::Add, args),
        BinOp::Minus => is_runtime_call(res, SolidityRuntimeFunction::Sub, args),
        BinOp::Times => is_runtime_call(res, SolidityRuntimeFunction::Mul, args),
        BinOp::Divide => is_runtime_call(res, SolidityRuntimeFunction::Div, args),
        BinOp::Power => is_runtime_call(res, SolidityRuntimeFunction::Power, args),
        BinOp::OverflowingPlus => is_builtin_call(res, "add"@, args),
        BinOp::OverflowingMinus => is_builtin_call(res, "sub"@, args),
        BinOp::OverflowingTimes => is_builtin_call(res, "mul"@, args),
        BinOp::Percent => is_builtin_call(res, "mod"@, args),
        BinOp::DoubleEqual => is_builtin_call(res, "eq"@, args),
        BinOp::NotEqual => {
            &&& res matches YulExpression::FunctionCall(fc)
            &&& fc.name@ == "iszero"@
            &&& fc.arguments@.len() == 1
            &&& is_builtin_call(fc.arguments@[0], "eq"@, args)
        },
        BinOp::LessThan => is_builtin_call(res, "lt"@, args),
        BinOp::GreaterThan => is_builtin_call(res, "gt"@, args),
        BinOp::Or => is_builtin_call(res, "or"@, args),
        BinOp::And => is_builtin_call(res, "and"@, args),
        _ => false,
    }
}

/// A call of the Yul builtin `name` with two arguments.
fn builtin_call(name: &str, lhs: YulExpression, rhs: YulExpression) -> (res: YulExpression)
    ensures
        is_builtin_call(res, name@, seq![lhs, rhs]),
{
    let arguments = vec![lhs, rhs];
    assert(arguments@ =~= seq![lhs, rhs]);
    YulExpression::FunctionCall(YulFunctionCall { name: String::from_str(name), arguments })
}

impl SolidityBinaryExpression {
    /// Applies the operator to the code generated for the two operands.
    pub fn generate(&self, lhs: YulExpression, rhs: YulExpression) -> (res: YulExpression)
        requires
            is_lowerable_operator(self.expression.op),
        ensures
            is_operator_lowering(res, self.expression.op, lhs, rhs),
    {
        match self.expression.op {
            BinOp::Plus => SolidityRuntimeFunction::add(lhs, rhs),
            BinOp::OverflowingPlus => builtin_call("add", lhs, rhs),
            BinOp::Times => SolidityRuntimeFunction::mul(lhs, rhs),
            BinOp::Divide => SolidityRuntimeFunction::div(lhs, rhs),
            BinOp::Minus => SolidityRuntimeFunction::sub(lhs, rhs),
            BinOp::OverflowingMinus => builtin_call("sub", lhs, rhs),
            BinOp::OverflowingTimes => builtin_call("mul", lhs, rhs),
            BinOp::Power => SolidityRuntimeFunction::power(lhs, rhs),
            BinOp::Percent => builtin_call("mod", lhs, rhs),
            BinOp::DoubleEqual => builtin_call("eq", lhs, rhs),
            BinOp::NotEqual => {
                let eq = builtin_call("eq", lhs, rhs);
                let arguments = vec![eq];
                assert(arguments@ =~= seq![eq]);
                YulExpression::FunctionCall(YulFunctionCall { name: String::from_str("iszero"), arguments })
            },
            BinOp::LessThan => builtin_call("lt", lhs, rhs),
            BinOp::GreaterThan => builtin_call("gt", lhs, rhs),
            BinOp::Or => builtin_call("or", lhs, rhs),
            _ => builtin_call("and", lhs, rhs),
        }
    }
}

/// `res` declares the variable `name` as a fresh block of `bytes` bytes of memory.
pub open spec fn is_memory_declaration(res: YulExpression, name: Seq<char>, bytes: u64) -> bool {
    &&& res matches YulExpression::VariableDeclaration(d)
    &&& d.declaration@ == name
    &&& d.declaration_type == YulType::Any
    &&& d.expression matches Some(e)
    &&& is_runtime_call(*e, SolidityRuntimeFunction::AllocateMemory, seq![YulExpression::Literal(YulLiteral::Num(bytes))])
}

/// The declaration of a local variable.
pub struct SolidityVariableDeclaration {
    pub declaration: VariableDeclaration,
}

impl SolidityVariableDeclaration {
    /// Declares the variable, under its mangled name, as a fresh block of
    /// memory of `type_size` words.
    pub fn generate(&self, type_size: u64) -> (res: YulExpression)
        requires
            type_size * 32 <= u64::MAX,
        ensures
            is_memory_declaration(res, mangled(self.declaration.identifier.token@), (type_size * 32) as u64),
    {
        let allocate = SolidityRuntimeFunction::allocate_memory(type_size * 32);
        YulExpression::VariableDeclaration(
            YulVariableDeclaration {
                declaration: mangle(self.declaration.identifier.token.as_str()),
                declaration_type: YulType::Any,
                expression: Some(Box::new(allocate)),
            },
        )
    }
}


/// What a call of a Yul comparison builtin gives on operands worth `x` and
/// `y`, as Yul defines them: `lt` whether `x < y`, `gt` whether `x > y`,
/// `eq` whether they are equal (`None` for any other name).
pub open spec fn yul_builtin_comparison(name: Seq<char>, x: int, y: int) -> Option<bool> {
    if name == "lt"@ {
        Some(x < y)
    } else if name == "gt"@ {
        Some(x > y)
    } else if name == "eq"@ {
        Some(x == y)
    } else {
        None
    }
}

/// Whether the Yul test `e` holds when `lhs` is worth `x` and `rhs` is worth
/// `y`: `e` is a comparison builtin applied to the two operands in their
/// order, or `iszero` of one, which negates it (`None` for anything else).
pub open spec fn yul_test_holds(e: YulExpression, lhs: YulExpression, rhs: YulExpression, x: int, y: int) -> Option<
    bool,
> {
    match e {
        YulExpression::FunctionCall(fc) => {
            if fc.arguments@ == seq![lhs, rhs] {
                yul_builtin_comparison(fc.name@, x, y)
            } else if fc.name@ == "iszero"@ && fc.arguments@.len() == 1 {
                match fc.arguments@[0] {
                    YulExpression::FunctionCall(g) => if g.arguments@ == seq![lhs, rhs] {
                        match yul_builtin_comparison(g.name@, x, y) {
                            Some(b) => Some(!b),
                            None => None,
                        }
                    } else {
                        None
                    },
                    _ => None,
                }
            } else {
                None
            }
        },
        _ => None,
    }
}

/// A comparison keeps its meaning when lowered to Yul: for operand values
/// `x` and `y`, the lowered test holds exactly when the source comparison
/// holds (`<` gives 1 just when the left value is below the right one, `>`
/// just when it is above, `==` just when they are equal, `!=` just when they
/// differ). So `<` and `>` never lower to the same builtin.
pub proof fn law_yul_comparisons_keep_their_meaning(
    res: YulExpression,
    op: BinOp,
    lhs: YulExpression,
    rhs: YulExpression,
    x: int,
    y: int,
)
    requires
        is_operator_lowering(res, op, lhs, rhs),
        comparison_holds(op, x, y) is Some,
    ensures
        yul_test_holds(res, lhs, rhs, x, y) == comparison_holds(op, x, y),
{
    reveal_strlit("lt");
    reveal_strlit("gt");
    reveal_strlit("eq");
    reveal_strlit("iszero");
    let args = seq![lhs, rhs];
    assert(args.len() == 2);
    assert("gt"@ != "lt"@) by { assert("gt"@[0] != "lt"@[0]); }
    assert("eq"@ != "lt"@) by { assert("eq"@[0] != "lt"@[0]); }
    assert("eq"@ != "gt"@) by { assert("eq"@[0] != "gt"@[0]); }
    if op is NotEqual {
        if let YulExpression::FunctionCall(fc) = res {
            assert(fc.arguments@.len() == 1);
            assert(fc.arguments@ != args);
            if let YulExpression::FunctionCall(g) = fc.arguments@[0] {
                assert(g.arguments@ == args);
                assert(g.name@ == "eq"@);
            }
        }
    }
}


/// What a call of a Yul arithmetic builtin gives on words worth `x` and
/// `y`, as Yul defines them: `add`, `sub` and `mul` wrap around modulo
/// 2^256, `mod` gives the remainder (zero for a zero divisor); `None` for
/// any other name.
pub open spec fn yul_builtin_arithmetic(name: Seq<char>, x: int, y: int) -> Option<int> {
    if name == "add"@ {
        Some((x + y) % pow2(256) as int)
    } else if name == "sub"@ {
        Some((x - y) % pow2(256) as int)
    } else if name == "mul"@ {
        Some((x * y) % pow2(256) as int)
    } else if name == "mod"@ {
        Some(if y == 0 { 0 } else { x % y })
    } else {
        None
    }
}

/// What a call of the Yul builtin `and` or `or` gives on truth values.
pub open spec fn yul_builtin_logic(name: Seq<char>, a: bool, b: bool) -> Option<bool> {
    if name == "and"@ {
        Some(a && b)
    } else if name == "or"@ {
        Some(a || b)
    } else {
        None
    }
}

/// Wrapping arithmetic, remainder and logic keep their meaning when lowered
/// to Yul: the lowering is a builtin applied to the two operands in their
/// order, whose value on words `x` and `y` is the source operator's value
/// wrapped to a word (the remainder for `%`, with a divisor other than
/// zero), and on truth values `a` and `b` the source connective's.
pub proof fn law_yul_arithmetic_keeps_its_meaning(
    res: YulExpression,
    op: BinOp,
    lhs: YulExpression,
    rhs: YulExpression,
    x: int,
    y: int,
    a: bool,
    b: bool,
)
    requires
        is_operator_lowering(res, op, lhs, rhs),
        op is OverflowingPlus || op is OverflowingMinus || op is OverflowingTimes || op is Percent || op is And
            || op is Or,
        op is Percent ==> y != 0,
    ensures
        res matches YulExpression::FunctionCall(fc) && fc.arguments@ == seq![lhs, rhs] && (if op is And || op is Or {
            yul_builtin_logic(fc.name@, a, b) == logic_value(op, a, b)
        } else if op is Percent {
            yul_builtin_arithmetic(fc.name@, x, y) == arithmetic_value(op, x, y)
        } else {
            yul_builtin_arithmetic(fc.name@, x, y) == Some(arithmetic_value(op, x, y).unwrap() % pow2(256) as int)
        }),
{
    reveal_strlit("add");
    reveal_strlit("sub");
    reveal_strlit("mul");
    reveal_strlit("mod");
    reveal_strlit("and");
    reveal_strlit("or");
    assert("sub"@ != "add"@) by { assert("sub"@[0] != "add"@[0]); }
    assert("mul"@ != "add"@) by { assert("mul"@[0] != "add"@[0]); }
    assert("mul"@ != "sub"@) by { assert("mul"@[0] != "sub"@[0]); }
    assert("mod"@ != "add"@) by { assert("mod"@[0] != "add"@[0]); }
    assert("mod"@ != "sub"@) by { assert("mod"@[0] != "sub"@[0]); }
    assert("mod"@ != "mul"@) by { assert("mod"@[1] != "mul"@[1]); }
    assert("or"@ != "and"@) by { assert("or"@[0] != "and"@[0]); }
}

} // verus!
