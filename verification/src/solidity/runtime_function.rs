//! The runtime support of generated Yul code: the names of the helper
//! functions, calls of them, and their Yul definitions.

use vstd::prelude::*;
use crate::text::{decimal, write_decimal};
use super::yul::{YulExpression, YulFunctionCall, YulLiteral};

verus! {

/// The helper functions that generated code calls.
#[derive(Debug)]
pub enum SolidityRuntimeFunction {
    Selector,
    CheckNoValue,
    CallValue,
    ComputeOffset,
    DecodeAsAddress,
    DecodeAsUInt,
    Return32Bytes,
    RevertIfGreater,
    StorageArrayOffset,
    /// Named by the subscript lowering of fixed-size arrays; no definition
    /// of this helper is among the runtime functions that are emitted.
    StorageFixedSizeArrayOffset,
    StorageDictionaryOffsetForKey,
    AllocateMemory,
    Load,
    Store,
    Add,
    Sub,
    Mul,
    Div,
    Power,
    IsValidCallerProtection,
}

/// The name of a helper function (the name of its variant).
pub open spec fn runtime_name(f: SolidityRuntimeFunction) -> Seq<char> {
    match f {
        SolidityRuntimeFunction::Selector => "Selector"@,
        SolidityRuntimeFunction::CheckNoValue => "CheckNoValue"@,
        SolidityRuntimeFunction::CallValue => "CallValue"@,
        SolidityRuntimeFunction::ComputeOffset => "ComputeOffset"@,
        SolidityRuntimeFunction::DecodeAsAddress => "DecodeAsAddress"@,
        SolidityRuntimeFunction::DecodeAsUInt => "DecodeAsUInt"@,
        SolidityRuntimeFunction::Return32Bytes => "Return32Bytes"@,
        SolidityRuntimeFunction::RevertIfGreater => "RevertIfGreater"@,
        SolidityRuntimeFunction::StorageArrayOffset => "StorageArrayOffset"@,
        SolidityRuntimeFunction::StorageFixedSizeArrayOffset => "StorageFixedSizeArrayOffset"@,
        SolidityRuntimeFunction::StorageDictionaryOffsetForKey => "StorageDictionaryOffsetForKey"@,
        SolidityRuntimeFunction::AllocateMemory => "AllocateMemory"@,
        SolidityRuntimeFunction::Load => "Load"@,
        SolidityRuntimeFunction::Store => "Store"@,
        SolidityRuntimeFunction::Add => "Add"@,
        SolidityRuntimeFunction::Sub => "Sub"@,
        SolidityRuntimeFunction::Mul => "Mul"@,
        SolidityRuntimeFunction::Div => "Div"@,
        SolidityRuntimeFunction::Power => "Power"@,
        SolidityRuntimeFunction::IsValidCallerProtection => "IsValidCallerProtection"@,
    }
}

/// The name under which a helper function is defined in generated code.
pub open spec fn mangled_runtime(f: SolidityRuntimeFunction) -> Seq<char> {
    "Quartz$"@ + runtime_name(f)
}

/// `res` is a call of the helper `f` with the given arguments.
pub open spec fn is_runtime_call(
    res: YulExpression,
    f: SolidityRuntimeFunction,
    args: Seq<YulExpression>,
) -> bool {
    res matches YulExpression::FunctionCall(fc) && fc.name@ == mangled_runtime(f) && fc.arguments@
        == args
}

/// `res` is a call of the builtin `name` with the given arguments.
pub open spec fn is_builtin_call(res: YulExpression, name: Seq<char>, args: Seq<YulExpression>) -> bool {
    res matches YulExpression::FunctionCall(fc) && fc.name@ == name && fc.arguments@ == args
}

/// The Yul definition that `add_function` returns.
pub open spec fn add_function_text() -> Seq<char> {
    "function Quartz$Add(a, b) -> ret { \n let c := add(a, b) \n if lt(c, a) { revert(0, 0) } \n ret := c \n }"@
}

/// The Yul definition that `sub_function` returns.
pub open spec fn sub_function_text() -> Seq<char> {
    "function Quartz$Sub(a, b) -> ret { \n if gt(b, a) { revert(0, 0) } \n ret := sub(a, b) \n }"@
}

/// The Yul definition that `mul_function` returns.
pub open spec fn mul_function_text() -> Seq<char> {
    "function Quartz$Mul(a, b) -> ret {
            switch iszero(a)
                case 1 {
                    ret := 0
                }
                default {
                    let c := mul(a, b)
                    if iszero(eq(div(c, a), b)) {
                        revert(0, 0)
                    }
                    ret := c
                }
        }"@
}

/// The Yul definition that `div_function` returns.
pub open spec fn div_function_text() -> Seq<char> {
    "function Quartz$Div(a, b) -> ret {
            if eq(b, 0) {
                revert(0, 0)
            }
            ret := div(a, b)
        }"@
}

/// The Yul definition that `power_function` returns.
pub open spec fn power_function_text() -> Seq<char> {
    "function Quartz$Power(b, e) -> ret {
            ret := 1
            for { let i := 0 } lt(i, e) { i := add(i, 1)}{
                ret := Quartz$Mul(ret, b)
            }
        }"@
}

/// The Yul definition that `revert_if_greater_function` returns.
pub open spec fn revert_if_greater_function_text() -> Seq<char> {
    "function Quartz$RevertIfGreater(a, b) -> ret {
            if gt(a, b) {
                revert(0, 0)
            }
            ret := a
        }"@
}

/// The Yul definition that `fatal_error_function` returns.
pub open spec fn fatal_error_function_text() -> Seq<char> {
    "function Quartz$FatalError() {
            revert(0, 0)
        }"@
}

/// The Yul definition that `send_function` returns.
pub open spec fn send_function_text() -> Seq<char> {
    "function Quartz$Send(_value, _address) {
            let ret := call(gas(), _address, _value, 0, 0, 0, 0)
            if iszero(ret) {
                revert(0, 0)
            }
        }"@
}

/// The Yul definition that `storage_dictionary_keys_array_offset_function` returns.
pub open spec fn storage_dictionary_keys_array_offset_function_text() -> Seq<char> {
    "function Quartz$StorageDictionaryKeysArrayOffset(dictionaryOffset) -> ret {
            mstore(0, dictionaryOffset)
            ret := keccak256(0, 32)
        }"@
}

/// The Yul definition that `storage_offset_for_key_function` returns.
pub open spec fn storage_offset_for_key_function_text() -> Seq<char> {
    "function Quartz$StorageOffsetForKey(offset, key) -> ret {
            mstore(0, key)
            mstore(32, offset)
            ret := keccak256(0, 64)
         }"@
}

/// The Yul definition that `storage_dictionary_offset_for_key_function` returns.
pub open spec fn storage_dictionary_offset_for_key_function_text() -> Seq<char> {
    "function Quartz$StorageDictionaryOffsetForKey(dictionaryOffset, key) -> ret {
            let offsetForKey := Quartz$StorageOffsetForKey(dictionaryOffset, key)
            mstore(0, offsetForKey)
            let indexOffset := keccak256(0, 32)
            switch eq(sload(indexOffset), 0)
                case 1 {
                    let keysArrayOffset := Quartz$StorageDictionaryKeysArrayOffset(dictionaryOffset)
                    let index := add(sload(dictionaryOffset), 1)
                    sstore(indexOffset, index)
                    sstore(Quartz$StorageOffsetForKey(keysArrayOffset, index), key)
                    sstore(dictionaryOffset, index)
                }
            ret := offsetForKey
        }"@
}

/// The Yul definition that `storage_array_offset_function` returns.
pub open spec fn storage_array_offset_function_text() -> Seq<char> {
    "function Quartz$StorageArrayOffset(arrayOffset, index) -> ret {
            let arraySize := sload(arrayOffset)

            switch eq(arraySize, index)
            case 0 {
                if Quartz$IsInvalidSubscriptExpression(index, arraySize) { revert(0, 0) }
            }
            default {
                sstore(arrayOffset, Quartz$Add(arraySize, 1))
            }
            ret := Quartz$StorageOffsetForKey(arrayOffset, index)
        }"@
}

/// The Yul definition that `is_invalid_subscript_expression_function` returns.
pub open spec fn is_invalid_subscript_expression_function_text() -> Seq<char> {
    "function Quartz$IsInvalidSubscriptExpression(index, arraySize) -> ret {
            ret := or(iszero(arraySize), or(lt(index, 0), gt(index, Quartz$Sub(arraySize, 1))))
        }"@
}

/// The Yul definition that `return_32_bytes_function` returns.
pub open spec fn return_32_bytes_function_text() -> Seq<char> {
    "function Quartz$Return32Bytes(v) {
            mstore(0, v)
            return(0, 0x20)
        }"@
}

/// The Yul definition that `is_caller_protection_in_dictionary_function` returns.
/// Its loop steps the index with `add(i, i)`, so the index stays at 0 and
/// only the first key is ever compared (unless the dictionary is empty, the
/// loop ends only when that key matches).
pub open spec fn is_caller_protection_in_dictionary_function_text() -> Seq<char> {
    "function Quartz$IsCallerProtectionInDictionary(dictionaryOffset) -> ret {
            let size := sload(dictionaryOffset)
            let arrayOffset := Quartz$StorageDictionaryKeysArrayOffset(dictionaryOffset)
            let found := 0
            let _caller := caller()
            for { let i := 0 } and(lt(i, size), iszero(found)) { i := add(i, i) } {
                let key := sload(Quartz$StorageOffsetForKey(arrayOffset, i))
                if eq(sload(Quartz$StorageOffsetForKey(dictionaryOffset, key)), _caller) {
                    found := 1
                }
            }
            ret := found
        }"@
}

/// The Yul definition that `is_caller_protection_in_array_function` returns.
pub open spec fn is_caller_protection_in_array_function_text() -> Seq<char> {
    "function Quartz$IsCallerProtectionInArray(arrayOffset) -> ret {
            let size := sload(arrayOffset)
            let found := 0
            let _caller := caller()
            for { let i := 0 } and(lt(i, size), iszero(found)) { i := add(i, 1) } {
                if eq(sload(Quartz$StorageOffsetForKey(arrayOffset, i)), _caller) {
                found := 1
                }
            }
            ret := found
        }"@
}

/// The Yul definition that `is_valid_caller_protection_function` returns.
pub open spec fn is_valid_caller_protection_function_text() -> Seq<char> {
    "function Quartz$IsValidCallerProtection(_address) -> ret {
            ret := eq(_address, caller())
         }"@
}

/// The Yul definition that `check_no_value_function` returns.
pub open spec fn check_no_value_function_text() -> Seq<char> {
    "function Quartz$CheckNoValue(_value) {
            if iszero(iszero(_value)) {
                Quartz$FatalError()
            }
        }"@
}

/// The Yul definition that `allocate_memory_function` returns.
pub open spec fn allocate_memory_function_text() -> Seq<char> {
    "function Quartz$AllocateMemory(size) -> ret {
            ret := mload(0x40)
            mstore(0x40, add(ret, size))
        }"@
}

/// The Yul definition that `compute_offset_function` returns.
pub open spec fn compute_offset_function_text() -> Seq<char> {
    "function Quartz$ComputeOffset(base, offset, mem) -> ret {
            switch iszero(mem)
            case 0 {
                ret := add(base, mul(offset, 32))
            }
            default {
                ret := add(base, offset)
            }
        }"@
}

/// The Yul definition that `load_function` returns.
pub open spec fn load_function_text() -> Seq<char> {
    "function Quartz$Load(ptr, mem) -> ret {
            switch iszero(mem)
                case 0 {
                    ret := mload(ptr)
                }
                default {
                    ret := sload(ptr)
                }
        }"@
}

/// The Yul definition that `decode_address_function` returns.
pub open spec fn decode_address_function_text() -> Seq<char> {
    "function Quartz$DecodeAsAddress(offset) -> ret { \n ret := Quartz$DecodeAsUInt(offset) \n }"@
}

/// The Yul definition that `decode_uint_function` returns.
pub open spec fn decode_uint_function_text() -> Seq<char> {
    "function Quartz$DecodeAsUInt(offset) -> ret { \n ret := calldataload(add(4, mul(offset, 0x20))) \n }"@
}

/// The Yul definition that `selector_function` returns.
pub open spec fn selector_function_text() -> Seq<char> {
    "function Quartz$Selector() -> ret { \n ret := div(calldataload(0), 0x100000000000000000000000000000000000000000000000000000000) \n }"@
}

/// The Yul definition that `store_function` returns.
pub open spec fn store_function_text() -> Seq<char> {
    "function Quartz$Store(ptr, val, mem) { \n switch iszero(mem) \n case 0 { \n mstore(ptr, val) \n } \n default { \n sstore(ptr, val) \n } \n  }"@
}

/// The definitions of all helper functions, in the order in which they are emitted.
pub open spec fn all_functions_text() -> Seq<Seq<char>> {
    seq![
        add_function_text(),
        sub_function_text(),
        mul_function_text(),
        div_function_text(),
        power_function_text(),
        revert_if_greater_function_text(),
        fatal_error_function_text(),
        send_function_text(),
        decode_address_function_text(),
        decode_uint_function_text(),
        selector_function_text(),
        store_function_text(),
        storage_dictionary_keys_array_offset_function_text(),
        storage_offset_for_key_function_text(),
        storage_dictionary_offset_for_key_function_text(),
        storage_array_offset_function_text(),
        is_invalid_subscript_expression_function_text(),
        return_32_bytes_function_text(),
        is_caller_protection_in_dictionary_function_text(),
        is_caller_protection_in_array_function_text(),
        is_valid_caller_protection_function_text(),
        check_no_value_function_text(),
        allocate_memory_function_text(),
        compute_offset_function_text(),
        load_function_text(),
    ]
}

/// `text` starts with `prefix`.
pub open spec fn starts_with_text(text: Seq<char>, prefix: Seq<char>) -> bool {
    prefix.len() <= text.len() && text.subrange(0, prefix.len() as int) == prefix
}

/// `text` holds `part` somewhere.
pub open spec fn holds_text(text: Seq<char>, part: Seq<char>) -> bool {
    exists|i: int| 0 <= i && i + part.len() <= text.len() && #[trigger] text.subrange(i, i + part.len()) == part
}

/// The checked addition calls a helper that the runtime defines: among the
/// definitions emitted with every contract is a function of the called name
/// taking two arguments, which reverts when the sum overflows.
pub proof fn law_add_calls_a_defined_helper(res: YulExpression, a: YulExpression, b: YulExpression)
    requires
        is_runtime_call(res, SolidityRuntimeFunction::Add, seq![a, b]),
    ensures
        res matches YulExpression::FunctionCall(fc) && fc.arguments@.len() == 2 && starts_with_text(
            add_function_text(),
            "function "@ + fc.name@ + "(a, b) -> ret"@,
        ),
        all_functions_text().contains(add_function_text()),
        holds_text(add_function_text(), "if lt(c, a) { revert(0, 0) }"@),
{
    reveal_strlit("function ");
    reveal_strlit("(a, b) -> ret");
    reveal_strlit("Quartz$");
    reveal_strlit("Add");
    reveal_strlit("if lt(c, a) { revert(0, 0) }");
    reveal_strlit("function Quartz$Add(a, b) -> ret { \n let c := add(a, b) \n if lt(c, a) { revert(0, 0) } \n ret := c \n }");
    let fc = res->FunctionCall_0;
    assert(fc.arguments@ == seq![a, b]);
    let t = add_function_text();
    let prefix = "function "@ + fc.name@ + "(a, b) -> ret"@;
    assert(t.subrange(0, prefix.len() as int) =~= prefix);
    let part = "if lt(c, a) { revert(0, 0) }"@;
    let i = 58int;
    assert(t.subrange(i, i + part.len()) =~= part);
    assert(all_functions_text()[0] == t);
}

impl SolidityRuntimeFunction {
    /// The name under which the helper is defined in generated code.
    pub fn mangle_runtime(&self) -> (res: String)
        ensures
            res@ == mangled_runtime(*self),
    {
        let mut res = String::from_str("Quartz$");
        match self {
            SolidityRuntimeFunction::Selector => res.append("Selector"),
            SolidityRuntimeFunction::CheckNoValue => res.append("CheckNoValue"),
            SolidityRuntimeFunction::CallValue => res.append("CallValue"),
            SolidityRuntimeFunction::ComputeOffset => res.append("ComputeOffset"),
            SolidityRuntimeFunction::DecodeAsAddress => res.append("DecodeAsAddress"),
            SolidityRuntimeFunction::DecodeAsUInt => res.append("DecodeAsUInt"),
            SolidityRuntimeFunction::Return32Bytes => res.append("Return32Bytes"),
            SolidityRuntimeFunction::RevertIfGreater => res.append("RevertIfGreater"),
            SolidityRuntimeFunction::StorageArrayOffset => res.append("StorageArrayOffset"),
            SolidityRuntimeFunction::StorageFixedSizeArrayOffset => res.append("StorageFixedSizeArrayOffset"),
            SolidityRuntimeFunction::StorageDictionaryOffsetForKey => res.append("StorageDictionaryOffsetForKey"),
            SolidityRuntimeFunction::AllocateMemory => res.append("AllocateMemory"),
            SolidityRuntimeFunction::Load => res.append("Load"),
            SolidityRuntimeFunction::Store => res.append("Store"),
            SolidityRuntimeFunction::Add => res.append("Add"),
            SolidityRuntimeFunction::Sub => res.append("Sub"),
            SolidityRuntimeFunction::Mul => res.append("Mul"),
            SolidityRuntimeFunction::Div => res.append("Div"),
            SolidityRuntimeFunction::Power => res.append("Power"),
            SolidityRuntimeFunction::IsValidCallerProtection => res.append("IsValidCallerProtection"),
        }
        res
    }

    /// The value sent with the call.
    pub fn call_value() -> (res: String)
        ensures
            res@ == "callvalue()"@,
    {
        String::from_str("callvalue()")
    }

    /// A call of the selector helper.
    pub fn selector() -> (res: String)
        ensures
            res@ == mangled_runtime(SolidityRuntimeFunction::Selector) + "()"@,
    {
        let mut res = SolidityRuntimeFunction::Selector.mangle_runtime();
        res.append("()");
        res
    }

    /// A call of the caller check on an address.
    pub fn is_valid_caller_protection(address: String) -> (res: String)
        ensures
            res@ == mangled_runtime(SolidityRuntimeFunction::IsValidCallerProtection) + "("@
                + address@ + ")"@,
    {
        let mut res = SolidityRuntimeFunction::IsValidCallerProtection.mangle_runtime();
        res.append("(");
        res.append(address.as_str());
        res.append(")");
        res
    }

    /// A call that reverts when `value` exceeds `max`.
    pub fn revert_if_greater(value: YulExpression, max: YulExpression) -> (res: YulExpression)
        ensures
            is_runtime_call(res, SolidityRuntimeFunction::RevertIfGreater, seq![value, max]),
    {
        YulExpression::FunctionCall(
            YulFunctionCall {
                name: SolidityRuntimeFunction::RevertIfGreater.mangle_runtime(),
                arguments: vec![value, max],
            },
        )
    }

    /// A call computing the address `offset` words or bytes past `expression`.
    pub fn add_offset(expression: YulExpression, offset: YulExpression, in_mem: String) -> (res: YulExpression)
        ensures
            is_runtime_call(res, SolidityRuntimeFunction::ComputeOffset, seq![expression, offset, YulExpression::Identifier(in_mem)]),
    {
        YulExpression::FunctionCall(
            YulFunctionCall {
                name: SolidityRuntimeFunction::ComputeOffset.mangle_runtime(),
                arguments: vec![expression, offset, YulExpression::Identifier(in_mem)],
            },
        )
    }

    /// A call decoding the argument at position `offset` of the call data.
    pub fn decode_as_uint(offset: u64) -> (res: String)
        ensures
            res@ == mangled_runtime(SolidityRuntimeFunction::DecodeAsUInt) + "("@ + decimal(offset as nat)
                + ")"@,
    {
        let mut res = SolidityRuntimeFunction::DecodeAsUInt.mangle_runtime();
        res.append("(");
        write_decimal(&mut res, offset);
        res.append(")");
        res
    }

    /// A call decoding the argument at position `offset` of the call data.
    pub fn decode_as_address(offset: u64) -> (res: String)
        ensures
            res@ == mangled_runtime(SolidityRuntimeFunction::DecodeAsAddress) + "("@ + decimal(offset as nat)
                + ")"@,
    {
        let mut res = SolidityRuntimeFunction::DecodeAsAddress.mangle_runtime();
        res.append("(");
        write_decimal(&mut res, offset);
        res.append(")");
        res
    }

    /// A call returning `input` as a 32-byte word.
    pub fn return_32_bytes(input: String) -> (res: String)
        ensures
            res@ == mangled_runtime(SolidityRuntimeFunction::Return32Bytes) + "("@ + input@ + ")"@,
    {
        let mut res = SolidityRuntimeFunction::Return32Bytes.mangle_runtime();
        res.append("(");
        res.append(input.as_str());
        res.append(")");
        res
    }

    /// The address `offset` past `expression`, the offset counted in words of
    /// 32 bytes in memory.
    pub fn add_offset_bool(expression: YulExpression, offset: YulExpression, in_mem: bool) -> (res:
        YulExpression)
        ensures
            res matches YulExpression::FunctionCall(fc) && fc.name@ == "add"@ && fc.arguments@.len()
                == 2 && fc.arguments@[0] == expression && if in_mem {
                is_builtin_call(
                    fc.arguments@[1],
                    "mul"@,
                    seq![YulExpression::Literal(YulLiteral::Num(32)), offset],
                )
            } else {
                fc.arguments@[1] == offset
            },
    {
        let offset = if in_mem {
            YulExpression::FunctionCall(
                YulFunctionCall {
                    name: String::from_str("mul"),
                    arguments: vec![YulExpression::Literal(YulLiteral::Num(32)), offset],
                },
            )
        } else {
            offset
        };
        YulExpression::FunctionCall(
            YulFunctionCall { name: String::from_str("add"), arguments: vec![expression, offset] },
        )
    }

    /// A call giving the storage address of element `index` of a dynamic array.
    pub fn storage_array_offset(offset: YulExpression, index: YulExpression) -> (res: YulExpression)
        ensures
            is_runtime_call(res, SolidityRuntimeFunction::StorageArrayOffset, seq![offset, index]),
    {
        YulExpression::FunctionCall(
            YulFunctionCall {
                name: SolidityRuntimeFunction::StorageArrayOffset.mangle_runtime(),
                arguments: vec![offset, index],
            },
        )
    }

    /// A call giving the storage address of element `index` of a fixed-size array.
    pub fn storage_fixed_array_offset(offset: YulExpression, index: YulExpression, size: u64) -> (res: YulExpression)
        ensures
            is_runtime_call(res, SolidityRuntimeFunction::StorageFixedSizeArrayOffset, seq![offset, index, YulExpression::Literal(YulLiteral::Num(size))]),
    {
        YulExpression::FunctionCall(
            YulFunctionCall {
                name: SolidityRuntimeFunction::StorageFixedSizeArrayOffset.mangle_runtime(),
                arguments: vec![offset, index, YulExpression::Literal(YulLiteral::Num(size))],
            },
        )
    }

    /// A call giving the storage address of key `index` of a dictionary.
    pub fn storage_dictionary_offset_key(offset: YulExpression, index: YulExpression) -> (res: YulExpression)
        ensures
            is_runtime_call(res, SolidityRuntimeFunction::StorageDictionaryOffsetForKey, seq![offset, index]),
    {
        YulExpression::FunctionCall(
            YulFunctionCall {
                name: SolidityRuntimeFunction::StorageDictionaryOffsetForKey.mangle_runtime(),
                arguments: vec![offset, index],
            },
        )
    }

    /// A call allocating `size` bytes of memory.
    pub fn allocate_memory(size: u64) -> (res: YulExpression)
        ensures
            is_runtime_call(res, SolidityRuntimeFunction::AllocateMemory, seq![YulExpression::Literal(YulLiteral::Num(size))]),
    {
        let arguments = vec![YulExpression::Literal(YulLiteral::Num(size))];
        assert(arguments@ =~= seq![YulExpression::Literal(YulLiteral::Num(size))]);
        YulExpression::FunctionCall(
            YulFunctionCall { name: SolidityRuntimeFunction::AllocateMemory.mangle_runtime(), arguments },
        )
    }

    /// A call loading from memory or storage as `in_mem` says at run time.
    pub fn load(address: YulExpression, in_mem: String) -> (res: YulExpression)
        ensures
            is_runtime_call(res, SolidityRuntimeFunction::Load, seq![address, YulExpression::Identifier(in_mem)]),
    {
        YulExpression::FunctionCall(
            YulFunctionCall {
                name: SolidityRuntimeFunction::Load.mangle_runtime(),
                arguments: vec![address, YulExpression::Identifier(in_mem)],
            },
        )
    }

    /// Loading from memory or from storage.
    pub fn load_bool(address: YulExpression, in_mem: bool) -> (res: YulExpression)
        ensures
            is_builtin_call(res, if in_mem { "mload"@ } else { "sload"@ }, seq![address]),
    {
        let name = if in_mem {
            String::from_str("mload")
        } else {
            String::from_str("sload")
        };
        let ghost a = address;
        let arguments = vec![address];
        assert(arguments@ =~= seq![a]);
        YulExpression::FunctionCall(YulFunctionCall { name, arguments })
    }

    /// A call storing to memory or storage as `in_mem` says at run time.
    pub fn store(address: YulExpression, value: YulExpression, in_mem: String) -> (res: YulExpression)
        ensures
            is_runtime_call(res, SolidityRuntimeFunction::Store, seq![address, value, YulExpression::Identifier(in_mem)]),
    {
        YulExpression::FunctionCall(
            YulFunctionCall {
                name: SolidityRuntimeFunction::Store.mangle_runtime(),
                arguments: vec![address, value, YulExpression::Identifier(in_mem)],
            },
        )
    }

    /// Storing to memory or to storage.
    pub fn store_bool(address: YulExpression, value: YulExpression, in_mem: bool) -> (res:
        YulExpression)
        ensures
            is_builtin_call(res, if in_mem { "mstore"@ } else { "sstore"@ }, seq![address, value]),
    {
        let name = if in_mem {
            String::from_str("mstore")
        } else {
            String::from_str("sstore")
        };
        YulExpression::FunctionCall(YulFunctionCall { name, arguments: vec![address, value] })
    }

    /// A checked multiplication.
    pub fn mul(a: YulExpression, b: YulExpression) -> (res: YulExpression)
        ensures
            is_runtime_call(res, SolidityRuntimeFunction::Mul, seq![a, b]),
    {
        YulExpression::FunctionCall(
            YulFunctionCall {
                name: SolidityRuntimeFunction::Mul.mangle_runtime(),
                arguments: vec![a, b],
            },
        )
    }

    /// A checked division.
    pub fn div(a: YulExpression, b: YulExpression) -> (res: YulExpression)
        ensures
            is_runtime_call(res, SolidityRuntimeFunction::Div, seq![a, b]),
    {
        YulExpression::FunctionCall(
            YulFunctionCall {
                name: SolidityRuntimeFunction::Div.mangle_runtime(),
                arguments: vec![a, b],
            },
        )
    }

    /// A checked addition.
    pub fn add(a: YulExpression, b: YulExpression) -> (res: YulExpression)
        ensures
            is_runtime_call(res, SolidityRuntimeFunction::Add, seq![a, b]),
    {
        YulExpression::FunctionCall(
            YulFunctionCall {
                name: SolidityRuntimeFunction::Add.mangle_runtime(),
                arguments: vec![a, b],
            },
        )
    }

    /// A checked subtraction.
    pub fn sub(a: YulExpression, b: YulExpression) -> (res: YulExpression)
        ensures
            is_runtime_call(res, SolidityRuntimeFunction::Sub, seq![a, b]),
    {
        YulExpression::FunctionCall(
            YulFunctionCall {
                name: SolidityRuntimeFunction::Sub.mangle_runtime(),
                arguments: vec![a, b],
            },
        )
    }

    /// A checked exponentiation.
    pub fn power(a: YulExpression, b: YulExpression) -> (res: YulExpression)
        ensures
            is_runtime_call(res, SolidityRuntimeFunction::Power, seq![a, b]),
    {
        YulExpression::FunctionCall(
            YulFunctionCall {
                name: SolidityRuntimeFunction::Power.mangle_runtime(),
                arguments: vec![a, b],
            },
        )
    }

    /// The definitions of all helper functions, in the order in which they are emitted.
    pub fn get_all_functions() -> (res: Vec<String>)
        ensures
            res@.map_values(|s: String| s@) == all_functions_text(),
    {
        let res = vec![
            SolidityRuntimeFunction::add_function(),
            SolidityRuntimeFunction::sub_function(),
            SolidityRuntimeFunction::mul_function(),
            SolidityRuntimeFunction::div_function(),
            SolidityRuntimeFunction::power_function(),
            SolidityRuntimeFunction::revert_if_greater_function(),
            SolidityRuntimeFunction::fatal_error_function(),
            SolidityRuntimeFunction::send_function(),
            SolidityRuntimeFunction::decode_address_function(),
            SolidityRuntimeFunction::decode_uint_function(),
            SolidityRuntimeFunction::selector_function(),
            SolidityRuntimeFunction::store_function(),
            SolidityRuntimeFunction::storage_dictionary_keys_array_offset_function(),
            SolidityRuntimeFunction::storage_offset_for_key_function(),
            SolidityRuntimeFunction::storage_dictionary_offset_for_key_function(),
            SolidityRuntimeFunction::storage_array_offset_function(),
            SolidityRuntimeFunction::is_invalid_subscript_expression_function(),
            SolidityRuntimeFunction::return_32_bytes_function(),
            SolidityRuntimeFunction::is_caller_protection_in_dictionary_function(),
            SolidityRuntimeFunction::is_caller_protection_in_array_function(),
            SolidityRuntimeFunction::is_valid_caller_protection_function(),
            SolidityRuntimeFunction::check_no_value_function(),
            SolidityRuntimeFunction::allocate_memory_function(),
            SolidityRuntimeFunction::compute_offset_function(),
            SolidityRuntimeFunction::load_function(),
        ];
        proof {
            assert(res@.map_values(|s: String| s@) =~= all_functions_text());
        }
        res
    }

    /// The Yul definition of a helper function.
    pub fn add_function() -> (res: String)
        ensures
            res@ == add_function_text(),
    {
        String::from_str("function Quartz$Add(a, b) -> ret { \n let c := add(a, b) \n if lt(c, a) { revert(0, 0) } \n ret := c \n }")
    }

    /// The Yul definition of a helper function.
    pub fn sub_function() -> (res: String)
        ensures
            res@ == sub_function_text(),
    {
        String::from_str("function Quartz$Sub(a, b) -> ret { \n if gt(b, a) { revert(0, 0) } \n ret := sub(a, b) \n }")
    }

    /// The Yul definition of a helper function.
    pub fn mul_function() -> (res: String)
        ensures
            res@ == mul_function_text(),
    {
        String::from_str("function Quartz$Mul(a, b) -> ret {
            switch iszero(a)
                case 1 {
                    ret := 0
                }
                default {
                    let c := mul(a, b)
                    if iszero(eq(div(c, a), b)) {
                        revert(0, 0)
                    }
                    ret := c
                }
        }")
    }

    /// The Yul definition of a helper function.
    pub fn div_function() -> (res: String)
        ensures
            res@ == div_function_text(),
    {
        String::from_str("function Quartz$Div(a, b) -> ret {
            if eq(b, 0) {
                revert(0, 0)
            }
            ret := div(a, b)
        }")
    }

    /// The Yul definition of a helper function.
    pub fn power_function() -> (res: String)
        ensures
            res@ == power_function_text(),
    {
        String::from_str("function Quartz$Power(b, e) -> ret {
            ret := 1
            for { let i := 0 } lt(i, e) { i := add(i, 1)}{
                ret := Quartz$Mul(ret, b)
            }
        }")
    }

    /// The Yul definition of a helper function.
    pub fn revert_if_greater_function() -> (res: String)
        ensures
            res@ == revert_if_greater_function_text(),
    {
        String::from_str("function Quartz$RevertIfGreater(a, b) -> ret {
            if gt(a, b) {
                revert(0, 0)
            }
            ret := a
        }")
    }

    /// The Yul definition of a helper function.
    pub fn fatal_error_function() -> (res: String)
        ensures
            res@ == fatal_error_function_text(),
    {
        String::from_str("function Quartz$FatalError() {
            revert(0, 0)
        }")
    }

    /// The Yul definition of a helper function.
    pub fn send_function() -> (res: String)
        ensures
            res@ == send_function_text(),
    {
        String::from_str("function Quartz$Send(_value, _address) {
            let ret := call(gas(), _address, _value, 0, 0, 0, 0)
            if iszero(ret) {
                revert(0, 0)
            }
        }")
    }

    /// The Yul definition of a helper function.
    pub fn storage_dictionary_keys_array_offset_function() -> (res: String)
        ensures
            res@ == storage_dictionary_keys_array_offset_function_text(),
    {
        String::from_str("function Quartz$StorageDictionaryKeysArrayOffset(dictionaryOffset) -> ret {
            mstore(0, dictionaryOffset)
            ret := keccak256(0, 32)
        }")
    }

    /// The Yul definition of a helper function.
    pub fn storage_offset_for_key_function() -> (res: String)
        ensures
            res@ == storage_offset_for_key_function_text(),
    {
        String::from_str("function Quartz$StorageOffsetForKey(offset, key) -> ret {
            mstore(0, key)
            mstore(32, offset)
            ret := keccak256(0, 64)
         }")
    }

    /// The Yul definition of a helper function.
    pub fn storage_dictionary_offset_for_key_function() -> (res: String)
        ensures
            res@ == storage_dictionary_offset_for_key_function_text(),
    {
        String::from_str("function Quartz$StorageDictionaryOffsetForKey(dictionaryOffset, key) -> ret {
            let offsetForKey := Quartz$StorageOffsetForKey(dictionaryOffset, key)
            mstore(0, offsetForKey)
            let indexOffset := keccak256(0, 32)
            switch eq(sload(indexOffset), 0)
                case 1 {
                    let keysArrayOffset := Quartz$StorageDictionaryKeysArrayOffset(dictionaryOffset)
                    let index := add(sload(dictionaryOffset), 1)
                    sstore(indexOffset, index)
                    sstore(Quartz$StorageOffsetForKey(keysArrayOffset, index), key)
                    sstore(dictionaryOffset, index)
                }
            ret := offsetForKey
        }")
    }

    /// The Yul definition of a helper function.
    pub fn storage_array_offset_function() -> (res: String)
        ensures
            res@ == storage_array_offset_function_text(),
    {
        String::from_str("function Quartz$StorageArrayOffset(arrayOffset, index) -> ret {
            let arraySize := sload(arrayOffset)

            switch eq(arraySize, index)
            case 0 {
                if Quartz$IsInvalidSubscriptExpression(index, arraySize) { revert(0, 0) }
            }
            default {
                sstore(arrayOffset, Quartz$Add(arraySize, 1))
            }
            ret := Quartz$StorageOffsetForKey(arrayOffset, index)
        }")
    }

    /// The Yul definition of a helper function.
    pub fn is_invalid_subscript_expression_function() -> (res: String)
        ensures
            res@ == is_invalid_subscript_expression_function_text(),
    {
        String::from_str("function Quartz$IsInvalidSubscriptExpression(index, arraySize) -> ret {
            ret := or(iszero(arraySize), or(lt(index, 0), gt(index, Quartz$Sub(arraySize, 1))))
        }")
    }

    /// The Yul definition of a helper function.
    pub fn return_32_bytes_function() -> (res: String)
        ensures
            res@ == return_32_bytes_function_text(),
    {
        String::from_str("function Quartz$Return32Bytes(v) {
            mstore(0, v)
            return(0, 0x20)
        }")
    }

    /// The Yul definition of a helper function.
    pub fn is_caller_protection_in_dictionary_function() -> (res: String)
        ensures
            res@ == is_caller_protection_in_dictionary_function_text(),
    {
        String::from_str("function Quartz$IsCallerProtectionInDictionary(dictionaryOffset) -> ret {
            let size := sload(dictionaryOffset)
            let arrayOffset := Quartz$StorageDictionaryKeysArrayOffset(dictionaryOffset)
            let found := 0
            let _caller := caller()
            for { let i := 0 } and(lt(i, size), iszero(found)) { i := add(i, i) } {
                let key := sload(Quartz$StorageOffsetForKey(arrayOffset, i))
                if eq(sload(Quartz$StorageOffsetForKey(dictionaryOffset, key)), _caller) {
                    found := 1
                }
            }
            ret := found
        }")
    }

    /// The Yul definition of a helper function.
    pub fn is_caller_protection_in_array_function() -> (res: String)
        ensures
            res@ == is_caller_protection_in_array_function_text(),
    {
        String::from_str("function Quartz$IsCallerProtectionInArray(arrayOffset) -> ret {
            let size := sload(arrayOffset)
            let found := 0
            let _caller := caller()
            for { let i := 0 } and(lt(i, size), iszero(found)) { i := add(i, 1) } {
                if eq(sload(Quartz$StorageOffsetForKey(arrayOffset, i)), _caller) {
                found := 1
                }
            }
            ret := found
        }")
    }

    /// The Yul definition of a helper function.
    pub fn is_valid_caller_protection_function() -> (res: String)
        ensures
            res@ == is_valid_caller_protection_function_text(),
    {
        String::from_str("function Quartz$IsValidCallerProtection(_address) -> ret {
            ret := eq(_address, caller())
         }")
    }

    /// The Yul definition of a helper function.
    pub fn check_no_value_function() -> (res: String)
        ensures
            res@ == check_no_value_function_text(),
    {
        String::from_str("function Quartz$CheckNoValue(_value) {
            if iszero(iszero(_value)) {
                Quartz$FatalError()
            }
        }")
    }

    /// The Yul definition of a helper function.
    pub fn allocate_memory_function() -> (res: String)
        ensures
            res@ == allocate_memory_function_text(),
    {
        String::from_str("function Quartz$AllocateMemory(size) -> ret {
            ret := mload(0x40)
            mstore(0x40, add(ret, size))
        }")
    }

    /// The Yul definition of a helper function.
    pub fn compute_offset_function() -> (res: String)
        ensures
            res@ == compute_offset_function_text(),
    {
        String::from_str("function Quartz$ComputeOffset(base, offset, mem) -> ret {
            switch iszero(mem)
            case 0 {
                ret := add(base, mul(offset, 32))
            }
            default {
                ret := add(base, offset)
            }
        }")
    }

    /// The Yul definition of a helper function.
    pub fn load_function() -> (res: String)
        ensures
            res@ == load_function_text(),
    {
        String::from_str("function Quartz$Load(ptr, mem) -> ret {
            switch iszero(mem)
                case 0 {
                    ret := mload(ptr)
                }
                default {
                    ret := sload(ptr)
                }
        }")
    }

    /// The Yul definition of a helper function.
    pub fn decode_address_function() -> (res: String)
        ensures
            res@ == decode_address_function_text(),
    {
        String::from_str("function Quartz$DecodeAsAddress(offset) -> ret { \n ret := Quartz$DecodeAsUInt(offset) \n }")
    }

    /// The Yul definition of a helper function.
    pub fn decode_uint_function() -> (res: String)
        ensures
            res@ == decode_uint_function_text(),
    {
        String::from_str("function Quartz$DecodeAsUInt(offset) -> ret { \n ret := calldataload(add(4, mul(offset, 0x20))) \n }")
    }

    /// The Yul definition of a helper function.
    pub fn selector_function() -> (res: String)
        ensures
            res@ == selector_function_text(),
    {
        String::from_str("function Quartz$Selector() -> ret { \n ret := div(calldataload(0), 0x100000000000000000000000000000000000000000000000000000000) \n }")
    }

    /// The Yul definition of a helper function.
    pub fn store_function() -> (res: String)
        ensures
            res@ == store_function_text(),
    {
        String::from_str("function Quartz$Store(ptr, val, mem) { \n switch iszero(mem) \n case 0 { \n mstore(ptr, val) \n } \n default { \n sstore(ptr, val) \n } \n  }")
    }
}

} // verus!
