//! The runtime support of generated MoveIR code: helper names, calls of them and their definitions.

use vstd::prelude::*;
use super::ir::{MoveIRExpression, MoveIRFunctionCall};

verus! {

/// The helper functions that generated MoveIR code calls.
#[derive(Debug)]
pub enum MoveRuntimeFunction {
    AppendToArrayInt,
    GetFromArrayInt,
    AssignToFixedArray,
    RevertIfGreater,
    Transfer,
    WithdrawAll,
    Power,
}

/// The name of a helper function (the name of its variant).
pub open spec fn runtime_name(f: MoveRuntimeFunction) -> Seq<char> {
    match f {
        MoveRuntimeFunction::AppendToArrayInt => "AppendToArrayInt"@,
        MoveRuntimeFunction::GetFromArrayInt => "GetFromArrayInt"@,
        MoveRuntimeFunction::AssignToFixedArray => "AssignToFixedArray"@,
        MoveRuntimeFunction::RevertIfGreater => "RevertIfGreater"@,
        MoveRuntimeFunction::Transfer => "Transfer"@,
        MoveRuntimeFunction::WithdrawAll => "WithdrawAll"@,
        MoveRuntimeFunction::Power => "Power"@,
    }
}

/// The name under which a helper function is called in generated code.
pub open spec fn mangled_runtime(f: MoveRuntimeFunction) -> Seq<char> {
    "Self._"@ + runtime_name(f)
}

/// `res` is a call of the helper `f` with the given arguments.
pub open spec fn is_runtime_call(res: MoveIRExpression, f: MoveRuntimeFunction, args: Seq<MoveIRExpression>) -> bool {
    res matches MoveIRExpression::FunctionCall(fc) && fc.identifier@ == mangled_runtime(f)
        && fc.arguments@ == args
}

/// The MoveIR definition that `get_power` returns.
pub open spec fn get_power_text() -> Seq<char> {
    "_Power(b: u64, e: u64): u64 {
        let ret: u64;
        let i: u64;
        ret = 1;
        i = 0;
        while (copy(i) < copy(e)) { 
            ret = copy(ret) * copy(b); 
            i = copy(i) + 1; 
        } 
        _ = move(b);
        _ = move(e);
        _ = move(i);
        return move(ret); 
    }"@
}

/// The MoveIR definition that `get_libra_internal` returns.
pub open spec fn get_libra_internal_text() -> Seq<char> {
    "
        public Flint_balanceOf(account: address): u64 {
            return LibraAccount.balance<LBR.LBR>(move(account));
        }

        public Flint_transfer(from: &signer, other: address, amount: u64) {
            let old_balance_sender: u64;
            let new_balance_sender: u64;
            let old_balance_recipient: u64;
            let new_balance_recipient: u64;
            let from_address: address;
            let with_cap: LibraAccount.WithdrawCapability;

            from_address = Signer.address_of(copy(from));

            old_balance_sender = LibraAccount.balance<LBR.LBR>(copy(from_address));
            old_balance_recipient = LibraAccount.balance<LBR.LBR>(copy(other));

            with_cap = LibraAccount.extract_withdraw_capability(copy(from));
            LibraAccount.pay_from<LBR.LBR>(&with_cap, copy(other), copy(amount), h\"\", h\"\");
            LibraAccount.restore_withdraw_capability(move(with_cap));

            new_balance_sender = LibraAccount.balance<LBR.LBR>(move(from_address));
            new_balance_recipient = LibraAccount.balance<LBR.LBR>(move(other));

            assert(copy(new_balance_sender) == copy(old_balance_sender) - copy(amount), 77);
            assert(copy(new_balance_recipient) == copy(old_balance_recipient) + move(amount), 77);

            return;
        }
        "@
}

/// The definitions of the helper functions, in the order in which they are emitted.
pub open spec fn all_functions_text() -> Seq<Seq<char>> {
    seq![get_power_text(), get_libra_internal_text()]
}

/// The power operation calls a helper that the runtime defines: among the
/// definitions emitted with every module is a function of the called name,
/// without its `Self.` qualifier, taking two `u64` arguments and returning a
/// `u64`.
pub proof fn law_power_calls_a_defined_helper(res: MoveIRExpression, a: MoveIRExpression, b: MoveIRExpression)
    requires
        is_runtime_call(res, MoveRuntimeFunction::Power, seq![a, b]),
    ensures
        res matches MoveIRExpression::FunctionCall(fc) && fc.arguments@.len() == 2 && fc.identifier@.len() >= 5
            && fc.identifier@.take(5) == "Self."@ && get_power_text().len() >= fc.identifier@.len() - 5 + 21
            && get_power_text().take(fc.identifier@.len() - 5 + 21) == fc.identifier@.skip(5)
            + "(b: u64, e: u64): u64"@,
        all_functions_text().contains(get_power_text()),
{
    reveal_strlit("Self._");
    reveal_strlit("Self._Power");
    reveal_strlit("Self.");
    reveal_strlit("Power");
    reveal_strlit("(b: u64, e: u64): u64");
    reveal_strlit("_Power(b: u64, e: u64): u64 {
        let ret: u64;
        let i: u64;
        ret = 1;
        i = 0;
        while (copy(i) < copy(e)) { 
            ret = copy(ret) * copy(b); 
            i = copy(i) + 1; 
        } 
        _ = move(b);
        _ = move(e);
        _ = move(i);
        return move(ret); 
    }");
    let fc = res->FunctionCall_0;
    assert(fc.arguments@ == seq![a, b]);
    assert(fc.identifier@ =~= "Self._Power"@);
    assert(fc.identifier@.take(5) =~= "Self."@);
    assert(get_power_text().take(27) =~= fc.identifier@.skip(5) + "(b: u64, e: u64): u64"@);
    assert(all_functions_text()[0] == get_power_text());
}

impl MoveRuntimeFunction {
    /// The name under which the helper is called: `Self._` and its name.
    pub fn mangle_runtime(&self) -> (res: String)
        ensures
            res@ == mangled_runtime(*self),
    {
        let mut res = String::from_str("Self._");
        match self {
            MoveRuntimeFunction::AppendToArrayInt => res.append("AppendToArrayInt"),
            MoveRuntimeFunction::GetFromArrayInt => res.append("GetFromArrayInt"),
            MoveRuntimeFunction::AssignToFixedArray => res.append("AssignToFixedArray"),
            MoveRuntimeFunction::RevertIfGreater => res.append("RevertIfGreater"),
            MoveRuntimeFunction::Transfer => res.append("Transfer"),
            MoveRuntimeFunction::WithdrawAll => res.append("WithdrawAll"),
            MoveRuntimeFunction::Power => res.append("Power"),
        }
        res
    }

    /// A call that aborts when `value` exceeds `max`.
    pub fn revert_if_greater(value: MoveIRExpression, max: MoveIRExpression) -> (res: MoveIRExpression)
        ensures
            is_runtime_call(res, MoveRuntimeFunction::RevertIfGreater, seq![value, max]),
    {
        MoveIRExpression::FunctionCall(
            MoveIRFunctionCall {
                identifier: MoveRuntimeFunction::RevertIfGreater.mangle_runtime(),
                arguments: vec![value, max],
            },
        )
    }

    /// A call appending `value` to an integer vector.
    pub fn append_to_array_int(vec: MoveIRExpression, value: MoveIRExpression) -> (res: MoveIRExpression)
        ensures
            is_runtime_call(res, MoveRuntimeFunction::AppendToArrayInt, seq![vec, value]),
    {
        MoveIRExpression::FunctionCall(
            MoveIRFunctionCall {
                identifier: MoveRuntimeFunction::AppendToArrayInt.mangle_runtime(),
                arguments: vec![vec, value],
            },
        )
    }

    /// A call reading element `value` of an integer vector.
    pub fn get_from_array_int(vec: MoveIRExpression, value: MoveIRExpression) -> (res: MoveIRExpression)
        ensures
            is_runtime_call(res, MoveRuntimeFunction::GetFromArrayInt, seq![vec, value]),
    {
        MoveIRExpression::FunctionCall(
            MoveIRFunctionCall {
                identifier: MoveRuntimeFunction::GetFromArrayInt.mangle_runtime(),
                arguments: vec![vec, value],
            },
        )
    }

    /// A call raising `first` to the power `second`.
    pub fn power(first: MoveIRExpression, second: MoveIRExpression) -> (res: MoveIRExpression)
        ensures
            is_runtime_call(res, MoveRuntimeFunction::Power, seq![first, second]),
    {
        MoveIRExpression::FunctionCall(
            MoveIRFunctionCall {
                identifier: MoveRuntimeFunction::Power.mangle_runtime(),
                arguments: vec![first, second],
            },
        )
    }

    /// The definitions of the helper functions, in the order in which they are emitted.
    pub fn get_all_functions() -> (res: Vec<String>)
        ensures
            res@.map_values(|s: String| s@) == all_functions_text(),
    {
        let res = vec![MoveRuntimeFunction::get_power(), MoveRuntimeFunction::get_libra_internal()];
        proof {
            assert(res@.map_values(|s: String| s@) =~= all_functions_text());
        }
        res
    }

    /// The MoveIR definition of a helper function.
    pub fn get_power() -> (res: String)
        ensures
            res@ == get_power_text(),
    {
        String::from_str("_Power(b: u64, e: u64): u64 {
        let ret: u64;
        let i: u64;
        ret = 1;
        i = 0;
        while (copy(i) < copy(e)) { 
            ret = copy(ret) * copy(b); 
            i = copy(i) + 1; 
        } 
        _ = move(b);
        _ = move(e);
        _ = move(i);
        return move(ret); 
    }")
    }

    /// The MoveIR definition of a helper function.
    pub fn get_libra_internal() -> (res: String)
        ensures
            res@ == get_libra_internal_text(),
    {
        String::from_str("
        public Flint_balanceOf(account: address): u64 {
            return LibraAccount.balance<LBR.LBR>(move(account));
        }

        public Flint_transfer(from: &signer, other: address, amount: u64) {
            let old_balance_sender: u64;
            let new_balance_sender: u64;
            let old_balance_recipient: u64;
            let new_balance_recipient: u64;
            let from_address: address;
            let with_cap: LibraAccount.WithdrawCapability;

            from_address = Signer.address_of(copy(from));

            old_balance_sender = LibraAccount.balance<LBR.LBR>(copy(from_address));
            old_balance_recipient = LibraAccount.balance<LBR.LBR>(copy(other));

            with_cap = LibraAccount.extract_withdraw_capability(copy(from));
            LibraAccount.pay_from<LBR.LBR>(&with_cap, copy(other), copy(amount), h\"\", h\"\");
            LibraAccount.restore_withdraw_capability(move(with_cap));

            new_balance_sender = LibraAccount.balance<LBR.LBR>(move(from_address));
            new_balance_recipient = LibraAccount.balance<LBR.LBR>(move(other));

            assert(copy(new_balance_sender) == copy(old_balance_sender) - copy(amount), 77);
            assert(copy(new_balance_recipient) == copy(old_balance_recipient) + move(amount), 77);

            return;
        }
        ")
    }
}

} // verus!
