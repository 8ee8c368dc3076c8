//! The dispatcher at the entry of a contract: it reads the four-byte selector
//! of the called function from the call data and jumps to the matching
//! function, after the caller protection and payment checks.
//!
//! A selector is the first four bytes of the Keccak-256 hash of the
//! function's signature, written in hexadecimal.

use vstd::prelude::*;
use vstd::string::StrSliceExecFns;
use vstd::utf8::encode_utf8;
use sha3::{Digest, Keccak256};
use crate::ast::{CallerProtection, Parameter, Type};
use crate::text::{decimal, join, lemma_join_push, write_decimal};
use super::function::{has_any_protection, params_map_to_solidity, signature_text, SolidityFunction};
use super::ir_type::{maps_to_solidity, solidity_type, SolidityIRType};
use super::runtime_function::{mangled_runtime, SolidityRuntimeFunction};
use super::yul::{yul_expression_text, yul_renderable, YulExpression};

verus! {

/// The Keccak-256 digest of a sequence of bytes.
pub uninterp spec fn keccak256_digest(data: Seq<u8>) -> Seq<u8>;

/// `Keccak256::digest` of the sha3 crate: the 32-byte Keccak-256 digest of
/// `data`. The digest is named, not stated; its length is the output size
/// that the crate declares for Keccak-256.
#[verifier::external_body]
fn keccak256(data: &[u8]) -> (res: Vec<u8>)
    ensures
        res@ == keccak256_digest(data@),
        res@.len() == 32,
{
    Keccak256::digest(data).to_vec()
}

/// The lowercase hexadecimal digit of a value below sixteen.
pub open spec fn hex_digit(d: nat) -> char {
    if d < 10 {
        ((48 + d) as u32) as char
    } else {
        ((87 + d) as u32) as char
    }
}

/// Bytes in lowercase hexadecimal, two digits per byte, high digit first.
pub open spec fn hex_lower(bytes: Seq<u8>) -> Seq<char>
    decreases bytes.len(),
{
    if bytes.len() == 0 {
        Seq::empty()
    } else {
        hex_lower(bytes.drop_last()) + seq![
            hex_digit((bytes.last() / 16) as nat),
            hex_digit((bytes.last() % 16) as nat),
        ]
    }
}

/// `hex::encode` of the hex crate: the bytes in lowercase hexadecimal, two
/// digits per byte.
#[verifier::external_body]
fn hex_encode(data: &[u8]) -> (res: String)
    ensures
        res@ == hex_lower(data@),
{
    hex::encode(data)
}

/// Whether a character is a lowercase hexadecimal digit.
pub open spec fn is_lower_hex_digit(c: char) -> bool {
    (48 <= c as u32 <= 57) || (97 <= c as u32 <= 102)
}

/// Hexadecimal text is made of lowercase hexadecimal digits.
pub proof fn lemma_hex_lower_digits(bytes: Seq<u8>)
    ensures
        forall|i: int| 0 <= i < hex_lower(bytes).len() ==> is_lower_hex_digit(#[trigger] hex_lower(bytes)[i]),
    decreases bytes.len(),
{
    lemma_hex_lower_len(bytes);
    if bytes.len() > 0 {
        lemma_hex_lower_digits(bytes.drop_last());
        lemma_hex_lower_len(bytes.drop_last());
        let h = (bytes.last() / 16) as nat;
        let l = (bytes.last() % 16) as nat;
        assert(is_lower_hex_digit(hex_digit(h)));
        assert(is_lower_hex_digit(hex_digit(l)));
        let prev = hex_lower(bytes.drop_last());
        assert forall|i: int| 0 <= i < hex_lower(bytes).len() implies is_lower_hex_digit(#[trigger] hex_lower(bytes)[i]) by {
            if i < prev.len() {
                assert(hex_lower(bytes)[i] == prev[i]);
            }
        }
    }
}

/// Hexadecimal doubles the length.
pub proof fn lemma_hex_lower_len(bytes: Seq<u8>)
    ensures
        hex_lower(bytes).len() == 2 * bytes.len(),
    decreases bytes.len(),
{
    if bytes.len() > 0 {
        lemma_hex_lower_len(bytes.drop_last());
    }
}

/// The selector of a signature: `0x` and the first eight hexadecimal digits
/// of the Keccak-256 hash of its UTF-8 bytes.
pub open spec fn selector_text(signature: Seq<char>) -> Seq<char> {
    "0x"@ + hex_lower(keccak256_digest(encode_utf8(signature))).subrange(0, 8)
}

/// The selector that the dispatcher matches a call of a function with the
/// given signature by.
pub fn function_selector(signature: &str) -> (res: String)
    ensures
        res@ == selector_text(signature@),
        res@.len() == 10,
        forall|i: int| 2 <= i < 10 ==> is_lower_hex_digit(#[trigger] res@[i]),
{
    let hash = keccak256(signature.as_bytes());
    let hex = hex_encode(hash.as_slice());
    proof {
        lemma_hex_lower_len(hash@);
        lemma_hex_lower_digits(hash@);
        reveal_strlit("0x");
    }
    let hex_str = hex.as_str();
    let mut res = String::from_str("0x");
    let mut i: usize = 0;
    while i < 8
        invariant
            i <= 8,
            hex_str@.len() == 64,
            hex_str@ == hex_lower(keccak256_digest(encode_utf8(signature@))),
            res@ == "0x"@ + hex_str@.subrange(0, i as int),
        decreases 8 - i,
    {
        let c = hex_str.get_char(i);
        crate::text::push_char(&mut res, c);
        i = i + 1;
        assert(res@ =~= "0x"@ + hex_str@.subrange(0, i as int));
    }
    assert forall|i: int| 2 <= i < 10 implies is_lower_hex_digit(#[trigger] res@[i]) by {
        assert(res@[i] == hex_str@[i - 2]);
    }
    res
}

/// Helpers for functions that callers reach through a wrapper.
pub struct SolidityWrapperFunction {
    pub function: SolidityFunction,
}

impl SolidityWrapperFunction {
    /// The prefix of the wrapper that checks the caller protections before
    /// it calls the function.
    pub fn get_prefix_hard() -> (res: String)
        ensures
            res@ == "quartzAttemptCallWrapperHard$"@,
    {
        String::from_str("quartzAttemptCallWrapperHard$")
    }
}

/// The call of the helper that decodes the argument at position `k` of the
/// call data as a value of type `t`.
pub open spec fn decode_text(t: SolidityIRType, k: nat) -> Seq<char> {
    match t {
        SolidityIRType::Address => mangled_runtime(SolidityRuntimeFunction::DecodeAsAddress) + "("@
            + decimal(k) + ")"@,
        _ => mangled_runtime(SolidityRuntimeFunction::DecodeAsUInt) + "("@ + decimal(k) + ")"@,
    }
}

/// The decoded arguments of a call of a function with these parameters.
pub open spec fn decoded_arguments(params: Seq<Parameter>) -> Seq<Seq<char>> {
    Seq::new(params.len(), |k: int| decode_text(solidity_type(params[k].type_assignment), k as nat))
}

/// The name under which a function is defined in the generated code.
pub open spec fn mangled_name_of(f: SolidityFunction) -> Seq<char> {
    match f.declaration.mangled_identifier {
        Some(n) => n@,
        None => ""@,
    }
}

/// The call that a dispatcher case makes: through the checking wrapper
/// unless a protection is `any`, with the decoded arguments, its result
/// returned as a 32-byte word where the result type has a Solidity type.
pub open spec fn call_text(f: SolidityFunction) -> Seq<char> {
    let wrapper = if has_any_protection(f.caller_protections@) {
        ""@
    } else {
        "quartzAttemptCallWrapperHard$"@
    };
    let call = wrapper + mangled_name_of(f) + "("@ + join(
        decoded_arguments(f.declaration.head.parameters@),
        ", "@,
    ) + ")"@;
    match f.declaration.head.result_type {
        Some(t) => if maps_to_solidity(t) {
            mangled_runtime(SolidityRuntimeFunction::Return32Bytes) + "("@ + call + ")"@
        } else {
            call
        },
        None => call,
    }
}

/// The check that no value is sent to a function that does not accept payment.
pub open spec fn value_check_text(payable: bool) -> Seq<char> {
    if payable {
        ""@
    } else {
        mangled_runtime(SolidityRuntimeFunction::CheckNoValue) + "("@ + "callvalue()"@ + ") \n"@
    }
}

/// The dispatcher case of a function: its selector, then the caller check,
/// the value check and the call.
pub open spec fn case_text(f: SolidityFunction, caller_check: Seq<char>) -> Seq<char> {
    "case "@ + selector_text(signature_text(f.declaration.head.identifier.token@, f.declaration.head.parameters@))
        + " { "@ + caller_check + " \n "@ + value_check_text(f.declaration.head.payable) + call_text(f)
        + " }"@
}

/// The function `f` with its `payable` flag set to `payable`.
pub open spec fn with_payable(f: SolidityFunction, payable: bool) -> SolidityFunction {
    SolidityFunction {
        declaration: crate::ast::FunctionDeclaration {
            head: crate::ast::FunctionSignatureDeclaration { payable, ..f.declaration.head },
            ..f.declaration
        },
        ..f
    }
}

/// Only functions that do not accept payment check that no value was sent:
/// the dispatcher case of a payable function holds no value check, and that
/// of an otherwise identical function that is not payable holds exactly the
/// check `Quartz$CheckNoValue(callvalue()) \n` more, at the same place.
pub proof fn law_only_unpayable_functions_check_value(f: SolidityFunction, caller_check: Seq<char>)
    ensures
        exists|p: Seq<char>, s: Seq<char>|
            case_text(with_payable(f, true), caller_check) == p + s && case_text(with_payable(f, false), caller_check)
                == p + "Quartz$CheckNoValue(callvalue()) \n"@ + s,
{
    let paid = with_payable(f, true);
    let unpaid = with_payable(f, false);
    reveal_strlit("");
    reveal_strlit("Quartz$");
    reveal_strlit("CheckNoValue");
    reveal_strlit("(");
    reveal_strlit("callvalue()");
    reveal_strlit(") \n");
    reveal_strlit("Quartz$CheckNoValue(callvalue()) \n");
    let check = "Quartz$CheckNoValue(callvalue()) \n"@;
    assert(value_check_text(false) =~= check);
    assert(value_check_text(true) =~= Seq::<char>::empty());
    let p = "case "@ + selector_text(signature_text(f.declaration.head.identifier.token@, f.declaration.head.parameters@))
        + " { "@ + caller_check + " \n "@;
    let s = call_text(f) + " }"@;
    assert(call_text(paid) == call_text(f));
    assert(call_text(unpaid) == call_text(f));
    assert(case_text(paid, caller_check) =~= p + s);
    assert(case_text(unpaid, caller_check) =~= p + check + s);
}

/// The dispatcher: a guard against a contract in the invalid state, then a
/// switch over the selector with a case per function, reverting by default.
pub open spec fn dispatcher_text(state: Seq<char>, cases: Seq<Seq<char>>) -> Seq<char> {
    "if eq("@ + state + ", 10000) { revert(0, 0)}"@ + " \n switch "@ + mangled_runtime(
        SolidityRuntimeFunction::Selector,
    ) + "()"@ + " \n"@ + join(cases, "\n"@) + " \ndefault { \n revert(0, 0) \n}"@
}

/// The dispatcher cases of the functions, each with its caller check.
pub open spec fn dispatcher_cases(functions: Seq<SolidityFunction>, caller_checks: Seq<String>) -> Seq<Seq<char>> {
    Seq::new(functions.len(), |i: int| case_text(functions[i], caller_checks[i]@))
}

/// Appends the decoded arguments of a call, comma-separated, to `out`.
fn write_decoded_arguments(params: &Vec<Parameter>, out: &mut String)
    requires
        params_map_to_solidity(params@),
    ensures
        final(out)@ == old(out)@ + join(decoded_arguments(params@), ", "@),
{
    let ghost start = out@;
    let ghost args = decoded_arguments(params@);
    let mut k: usize = 0;
    while k < params.len()
        invariant
            k <= params@.len(),
            params_map_to_solidity(params@),
            args == decoded_arguments(params@),
            out@ == start + join(args.subrange(0, k as int), ", "@),
        decreases params@.len() - k,
    {
        proof {
            assert(args.subrange(0, k as int + 1) =~= args.subrange(0, k as int).push(args[k as int]));
            lemma_join_push(args.subrange(0, k as int), ", "@, args[k as int]);
        }
        if k > 0 {
            out.append(", ");
        }
        let t = SolidityIRType::map_to_solidity_type(params[k].type_assignment.deep_clone());
        let decoded = match t {
            SolidityIRType::Address => SolidityRuntimeFunction::decode_as_address(k as u64),
            _ => SolidityRuntimeFunction::decode_as_uint(k as u64),
        };
        out.append(decoded.as_str());
        k = k + 1;
    }
    proof {
        assert(args.subrange(0, params@.len() as int) =~= args);
    }
}

/// The dispatcher case of one function, given the code of its caller check.
fn generate_case(f: &SolidityFunction, caller_check: &str) -> (res: String)
    requires
        params_map_to_solidity(f.declaration.head.parameters@),
    ensures
        res@ == case_text(*f, caller_check@),
{
    proof {
        reveal_strlit("");
    }
    let signature = f.mangled_signature();
    let hash = function_selector(signature.as_str());
    let mut call = if f.has_any_caller() {
        String::new()
    } else {
        SolidityWrapperFunction::get_prefix_hard()
    };
    match &f.declaration.mangled_identifier {
        Some(n) => call.append(n.as_str()),
        None => {},
    }
    call.append("(");
    write_decoded_arguments(&f.declaration.head.parameters, &mut call);
    call.append(")");
    let ghost wrapper = if has_any_protection(f.caller_protections@) {
        ""@
    } else {
        "quartzAttemptCallWrapperHard$"@
    };
    assert(call@ =~= wrapper + mangled_name_of(*f) + "("@ + join(
        decoded_arguments(f.declaration.head.parameters@),
        ", "@,
    ) + ")"@);
    let call = match f.declaration.get_result_type() {
        Some(result) => if SolidityIRType::if_maps_to_solidity_type(result) {
            SolidityRuntimeFunction::return_32_bytes(call)
        } else {
            call
        },
        None => call,
    };
    assert(call@ == call_text(*f));
    let mut res = String::from_str("case ");
    res.append(hash.as_str());
    res.append(" { ");
    res.append(caller_check);
    res.append(" \n ");
    let ghost before_check = res@;
    if !f.declaration.is_payable() {
        res.append(SolidityRuntimeFunction::CheckNoValue.mangle_runtime().as_str());
        res.append("(");
        res.append(SolidityRuntimeFunction::call_value().as_str());
        res.append(") \n");
    }
    assert(res@ =~= before_check + value_check_text(f.declaration.head.payable));
    res.append(call.as_str());
    res.append(" }");
    assert(res@ =~= case_text(*f, caller_check@));
    res
}

/// The dispatcher of a contract.
pub struct SolidityFunctionSelector {
    pub functions: Vec<SolidityFunction>,
    pub enclosing: crate::ast::Identifier,
}

/// Appends the dispatcher cases of the functions, one per line, to `out`.
fn write_cases(functions: &Vec<SolidityFunction>, caller_checks: &Vec<String>, out: &mut String)
    requires
        caller_checks@.len() == functions@.len(),
        forall|i: int|
            0 <= i < functions@.len() ==> params_map_to_solidity(
                #[trigger] functions@[i].declaration.head.parameters@,
            ),
    ensures
        final(out)@ == old(out)@ + join(dispatcher_cases(functions@, caller_checks@), "\n"@),
{
    let ghost cases = dispatcher_cases(functions@, caller_checks@);
    let ghost start = out@;
    let mut i: usize = 0;
    while i < functions.len()
        invariant
            i <= functions@.len(),
            caller_checks@.len() == functions@.len(),
            forall|j: int|
                0 <= j < functions@.len() ==> params_map_to_solidity(
                    #[trigger] functions@[j].declaration.head.parameters@,
                ),
            cases == dispatcher_cases(functions@, caller_checks@),
            out@ == start + join(cases.subrange(0, i as int), "\n"@),
        decreases functions@.len() - i,
    {
        proof {
            assert(cases.subrange(0, i as int + 1) =~= cases.subrange(0, i as int).push(cases[i as int]));
            lemma_join_push(cases.subrange(0, i as int), "\n"@, cases[i as int]);
        }
        if i > 0 {
            out.append("\n");
        }
        let case = generate_case(&functions[i], caller_checks[i].as_str());
        assert(case@ == cases[i as int]);
        out.append(case.as_str());
        i = i + 1;
    }
    proof {
        assert(cases.subrange(0, functions@.len() as int) =~= cases);
    }
}

impl SolidityFunctionSelector {
    /// The dispatcher, given the code that reads the contract's state and the
    /// code of the caller check of each function.
    pub fn generate(&self, state: &YulExpression, caller_checks: &Vec<String>) -> (res: String)
        requires
            yul_renderable(*state),
            caller_checks@.len() == self.functions@.len(),
            forall|i: int|
                0 <= i < self.functions@.len() ==> params_map_to_solidity(
                    #[trigger] self.functions@[i].declaration.head.parameters@,
                ),
        ensures
            res@ == dispatcher_text(yul_expression_text(*state), dispatcher_cases(self.functions@, caller_checks@)),
    {
        let mut res = String::from_str("if eq(");
        state.write(&mut res);
        res.append(", 10000) { revert(0, 0)}");
        res.append(" \n switch ");
        res.append(SolidityRuntimeFunction::selector().as_str());
        res.append(" \n");
        write_cases(&self.functions, caller_checks, &mut res);
        res.append(" \ndefault { \n revert(0, 0) \n}");
        assert(res@ =~= dispatcher_text(yul_expression_text(*state), dispatcher_cases(self.functions@, caller_checks@)));
        res
    }
}

/// With every protection `any`, there is no check to make: the caller check
/// is empty.
pub proof fn law_any_caller_needs_no_check(protections: Seq<CallerProtection>, offsets: Seq<u64>, variable: Seq<char>, revert: bool)
    requires
        forall|i: int| 0 <= i < protections.len() ==> (#[trigger] protections[i]).identifier.token@ == "any"@,
    ensures
        caller_check_text(protection_checks(protections, offsets, variable), variable, revert) == ""@,
    decreases protections.len(),
{
    if protections.len() > 0 {
        let p = protections.drop_last();
        assert forall|i: int| 0 <= i < p.len() implies (#[trigger] p[i]).identifier.token@ == "any"@ by {
            assert(p[i] == protections[i]);
        }
        law_any_caller_needs_no_check(p, offsets, variable, revert);
        assert(protections.last() == protections[protections.len() - 1]);
    }
}

/// The check of the caller against one protection whose property is stored
/// at `offset`: it counts the caller in `variable` when it matches.
pub open spec fn protection_check_text(variable: Seq<char>, offset: u64) -> Seq<char> {
    variable + " := add("@ + variable + ", "@ + mangled_runtime(SolidityRuntimeFunction::IsValidCallerProtection)
        + "("@ + "sload("@ + decimal(offset as nat) + ")"@ + ")"@ + ")"@
}

/// The checks for the protections other than `any`, in order; the property
/// of the protection at position `i` is stored at `offsets[i]`.
pub open spec fn protection_checks(protections: Seq<CallerProtection>, offsets: Seq<u64>, variable: Seq<char>) -> Seq<Seq<char>>
    decreases protections.len(),
{
    if protections.len() == 0 {
        Seq::empty()
    } else {
        let rest = protection_checks(protections.drop_last(), offsets, variable);
        if protections.last().identifier.token@ == "any"@ {
            rest
        } else {
            rest.push(protection_check_text(variable, offsets[protections.len() - 1]))
        }
    }
}

/// The caller check: nothing when every protection is `any`, else a counter
/// set to zero, the checks, and, when asked for, a revert when no protection
/// matched.
pub open spec fn caller_check_text(checks: Seq<Seq<char>>, variable: Seq<char>, revert: bool) -> Seq<char> {
    if checks.len() == 0 {
        ""@
    } else {
        let revert_text = if revert {
            "if eq("@ + variable + ", 0) { revert(0, 0) }"@
        } else {
            ""@
        };
        "let "@ + variable + " := 0 \n "@ + join(checks, "\n"@) + " "@ + revert_text
    }
}

/// The check that the caller of a function satisfies one of its caller
/// protections.
pub struct SolidityCallerProtectionCheck {
    pub caller_protections: Vec<CallerProtection>,
    pub revert: bool,
    pub variable: String,
}

impl SolidityCallerProtectionCheck {
    /// The check, given the type and the storage offset of the property that
    /// each protection names (those of `any` are not read). Only properties
    /// holding an address can be checked.
    pub fn generate(&self, caller_types: &Vec<Type>, offsets: &Vec<u64>) -> (res: String)
        requires
            caller_types@.len() == self.caller_protections@.len(),
            offsets@.len() == self.caller_protections@.len(),
            forall|i: int|
                0 <= i < self.caller_protections@.len() && (#[trigger] self.caller_protections@[i]).identifier.token@
                    != "any"@ ==> caller_types@[i] is Address,
        ensures
            res@ == caller_check_text(
                protection_checks(self.caller_protections@, offsets@, self.variable@),
                self.variable@,
                self.revert,
            ),
    {
        proof {
            reveal_strlit("");
        }
        let protections = &self.caller_protections;
        let var = self.variable.as_str();
        let mut checks = String::new();
        let mut has_checks = false;
        let mut i: usize = 0;
        while i < protections.len()
            invariant
                i <= protections@.len(),
                offsets@.len() == protections@.len(),
                var@ == self.variable@,
                has_checks == (protection_checks(protections@.subrange(0, i as int), offsets@, var@).len() > 0),
                checks@ == join(protection_checks(protections@.subrange(0, i as int), offsets@, var@), "\n"@),
            decreases protections@.len() - i,
        {
            let ghost prev = protection_checks(protections@.subrange(0, i as int), offsets@, var@);
            proof {
                assert(protections@.subrange(0, i as int + 1).drop_last() =~= protections@.subrange(0, i as int));
            }
            if !protections[i].is_any() {
                let mut check = String::from_str(var);
                check.append(" := add(");
                check.append(var);
                check.append(", ");
                let mut address = String::from_str("sload(");
                crate::text::write_decimal(&mut address, offsets[i]);
                address.append(")");
                let valid = SolidityRuntimeFunction::is_valid_caller_protection(address);
                check.append(valid.as_str());
                check.append(")");
                assert(check@ =~= protection_check_text(var@, offsets@[i as int]));
                proof {
                    lemma_join_push(prev, "\n"@, check@);
                }
                if has_checks {
                    checks.append("\n");
                }
                checks.append(check.as_str());
                has_checks = true;
            }
            i = i + 1;
        }
        proof {
            assert(protections@.subrange(0, protections@.len() as int) =~= protections@);
        }
        if !has_checks {
            return String::new();
        }
        let mut res = String::from_str("let ");
        res.append(var);
        res.append(" := 0 \n ");
        res.append(checks.as_str());
        res.append(" ");
        if self.revert {
            res.append("if eq(");
            res.append(var);
            res.append(", 0) { revert(0, 0) }");
        }
        res
    }
}

} // verus!
