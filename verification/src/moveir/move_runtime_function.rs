//! The runtime support of the earlier MoveIR back end (LibraCoin based): helper names, calls of them and their definitions.

use vstd::prelude::*;
use super::ir::{MoveIRExpression, MoveIRFunctionCall};

verus! {

/// The helper functions that generated MoveIR code calls.
#[derive(Debug)]
pub enum MoveRuntimeFunction {
    AppendToArrayInt,
    GetFromArrayInt,
    AssignToFixedArray,
    RevertIfGreater,
    Transfer,
    WithdrawAll,
}

/// The name of a helper function (the name of its variant).
pub open spec fn runtime_name(f: MoveRuntimeFunction) -> Seq<char> {
    match f {
        MoveRuntimeFunction::AppendToArrayInt => "AppendToArrayInt"@,
        MoveRuntimeFunction::GetFromArrayInt => "GetFromArrayInt"@,
        MoveRuntimeFunction::AssignToFixedArray => "AssignToFixedArray"@,
        MoveRuntimeFunction::RevertIfGreater => "RevertIfGreater"@,
        MoveRuntimeFunction::Transfer => "Transfer"@,
        MoveRuntimeFunction::WithdrawAll => "WithdrawAll"@,
    }
}

/// The name under which a helper function is called in generated code.
pub open spec fn mangled_runtime(f: MoveRuntimeFunction) -> Seq<char> {
    "Self._"@ + runtime_name(f)
}

/// `res` is a call of the helper `f` with the given arguments.
pub open spec fn is_runtime_call(res: MoveIRExpression, f: MoveRuntimeFunction, args: Seq<MoveIRExpression>) -> bool {
    res matches MoveIRExpression::FunctionCall(fc) && fc.identifier@ == mangled_runtime(f)
        && fc.arguments@ == args
}

/// The MoveIR definition that `get_revert_if_greater` returns.
pub open spec fn get_revert_if_greater_text() -> Seq<char> {
    "Quartz_RevertIfGreater(a: u64, b: u64): u64 {{  \n \
             assert(copy(a) <= move(b), 1); \n \
             return move(a); \n }}"@
}

/// The MoveIR definition that `get_deposit` returns.
pub open spec fn get_deposit_text() -> Seq<char> {
    "Quartz_send(money: &mut LibraCoin.T, addr: address) {{ \n \
             LibraAccount.deposit(move(addr), Quartz_withdrawAll(move(money))); \n \
             return; \n }}"@
}

/// The MoveIR definition that `get_array_funcs` returns.
pub open spec fn get_array_funcs_text() -> Seq<char> {
    "

        _GetFromArrayInt(vec: &mut vector<u64>, index: u64):u64 {
            return  *Vector.borrow<u64>(freeze(move(vec)), move(index));
        }


        _insert_array_index_u64(vec: &mut vector<u64>, index: u64, value: u64) {
    let length: u64;
    let temp: u64;
    length = Vector.length<u64>(freeze(copy(vec)));
    Vector.push_back<u64>(copy(vec), move(value));
    if (copy(length) == copy(index)) {
      Vector.swap<u64>(copy(vec), copy(index), copy(length));
      temp = Vector.pop_back<u64>(copy(vec));
      _ = move(temp);
    };
    _ = move(vec);
    return;
  }


  _insert_array_index_bool(vec: &mut vector<bool>, index: u64, value: bool) {
    let length: u64;
    let temp: bool;
    length = Vector.length<bool>(freeze(copy(vec)));
    Vector.push_back<bool>(copy(vec), move(value));
    if (copy(length) == copy(index)) {
      Vector.swap<bool>(copy(vec), copy(index), copy(length));
      temp = Vector.pop_back<bool>(copy(vec));
      _ = move(temp);
    };
    _ = move(vec);
    return;
  }"@
}

/// The MoveIR definition that `get_libra_internal` returns.
pub open spec fn get_libra_internal_text() -> Seq<char> {
    "Quartz_Self_Create_Libra(input: LibraCoin.T) : Self.Libra {
            return Self.Libra_produce(move(input));
        }

        public Libra_Coin_init(zero: address): Self.Libra_Coin {
        if (move(zero) != 0x0) {
          assert(false, 9001);
        }
        return Libra_Coin {
          coin: LibraCoin.zero()
        };
      }

      public Libra_Coin_getValue(this: &mut Self.Libra_Coin): u64 {
        let coin: &LibraCoin.T;
        coin = &move(this).coin;
        return LibraCoin.value(move(coin));
      }

      public Libra_Coin_withdraw(this: &mut Self.Libra_Coin, \
      amount: u64): Self.Libra_Coin {
        let coin: &mut LibraCoin.T;
        coin = &mut move(this).coin;
        return Libra_Coin {
          coin: LibraCoin.withdraw(move(coin), move(amount))
        };
      }

      public Libra_Coin_transfer(this: &mut Self.Libra_Coin, \
      other: &mut Self.Libra_Coin, amount: u64) {
        let coin: &mut LibraCoin.T;
        let other_coin: &mut LibraCoin.T;
        let temporary: LibraCoin.T;
        coin = &mut move(this).coin;
        temporary = LibraCoin.withdraw(move(coin), move(amount));
        other_coin = &mut move(other).coin;
        LibraCoin.deposit(move(other_coin), move(temporary));
        return;
      }
      public Libra_Coin_transfer_value(this: &mut Self.Libra_Coin, other: Self.Libra) {
        let coin: &mut LibraCoin.T;
        let temp: Self.Libra_Coin;
        let temporary: LibraCoin.T;
        coin = &mut move(this).coin;
        Libra {temp} = move(other);
        Libra_Coin {temporary} = move(temp);
        LibraCoin.deposit(move(coin), move(temporary));
        return;
    }

    public Libra_Coin_send(coin: &mut Self.Libra_Coin, payee: address, amount: u64) {
    let temporary: LibraCoin.T;
    let coin_ref: &mut LibraCoin.T;
    coin_ref = &mut move(coin).coin;
    temporary = LibraCoin.withdraw(move(coin_ref), move(amount));
    LibraAccount.deposit(copy(payee), move(temporary));
    return;
  }

    Libra_Coin_produce (input: LibraCoin.T): Self.Libra_Coin {
        return Libra_Coin {
            coin: move(input)
        };
    }

    Libra_produce (input: LibraCoin.T): Self.Libra {
    return Libra {
      libra: Self.Libra_Coin_produce(move(input))
    };
  }

  Libra_init (): Self.Libra {
    return Self.publicLibra();
  }

  Quartz_Libra_send (this: &mut Self.Libra, _payee: address, _amount: u64)  {
    let _temp__5: &mut Self.Libra_Coin;
    _temp__5 = &mut copy(this).libra;
    Self.Libra_Coin_send(copy(_temp__5), copy(_payee), copy(_amount));
    _ = move(_temp__5);
    _ = move(this);
    return;
  }"@
}

/// The definitions of the helper functions, in the order in which they are emitted.
pub open spec fn all_functions_text() -> Seq<Seq<char>> {
    seq![get_revert_if_greater_text(), get_array_funcs_text(), get_libra_internal_text()]
}

impl MoveRuntimeFunction {
    /// The name under which the helper is called: `Self.` and its mangled name.
    pub fn mangle_runtime(&self) -> (res: String)
        ensures
            res@ == mangled_runtime(*self),
    {
        let mut res = String::from_str("Self._");
        match self {
            MoveRuntimeFunction::AppendToArrayInt => res.append("AppendToArrayInt"),
            MoveRuntimeFunction::GetFromArrayInt => res.append("GetFromArrayInt"),
            MoveRuntimeFunction::AssignToFixedArray => res.append("AssignToFixedArray"),
            MoveRuntimeFunction::RevertIfGreater => res.append("RevertIfGreater"),
            MoveRuntimeFunction::Transfer => res.append("Transfer"),
            MoveRuntimeFunction::WithdrawAll => res.append("WithdrawAll"),
        }
        res
    }

    /// A call that aborts when `value` exceeds `max`.
    pub fn revert_if_greater(value: MoveIRExpression, max: MoveIRExpression) -> (res: MoveIRExpression)
        ensures
            is_runtime_call(res, MoveRuntimeFunction::RevertIfGreater, seq![value, max]),
    {
        MoveIRExpression::FunctionCall(
            MoveIRFunctionCall {
                identifier: MoveRuntimeFunction::RevertIfGreater.mangle_runtime(),
                arguments: vec![value, max],
            },
        )
    }

    /// A call appending `value` to an integer vector.
    pub fn append_to_array_int(vec: MoveIRExpression, value: MoveIRExpression) -> (res: MoveIRExpression)
        ensures
            is_runtime_call(res, MoveRuntimeFunction::AppendToArrayInt, seq![vec, value]),
    {
        MoveIRExpression::FunctionCall(
            MoveIRFunctionCall {
                identifier: MoveRuntimeFunction::AppendToArrayInt.mangle_runtime(),
                arguments: vec![vec, value],
            },
        )
    }

    /// A call reading element `value` of an integer vector.
    pub fn get_from_array_int(vec: MoveIRExpression, value: MoveIRExpression) -> (res: MoveIRExpression)
        ensures
            is_runtime_call(res, MoveRuntimeFunction::GetFromArrayInt, seq![vec, value]),
    {
        MoveIRExpression::FunctionCall(
            MoveIRFunctionCall {
                identifier: MoveRuntimeFunction::GetFromArrayInt.mangle_runtime(),
                arguments: vec![vec, value],
            },
        )
    }

    /// The definitions of the helper functions, in the order in which they are emitted.
    pub fn get_all_functions() -> (res: Vec<String>)
        ensures
            res@.map_values(|s: String| s@) == all_functions_text(),
    {
        let res = vec![MoveRuntimeFunction::get_revert_if_greater(), MoveRuntimeFunction::get_array_funcs(), MoveRuntimeFunction::get_libra_internal()];
        proof {
            assert(res@.map_values(|s: String| s@) =~= all_functions_text());
        }
        res
    }

    /// The MoveIR definition of a helper function.
    pub fn get_revert_if_greater() -> (res: String)
        ensures
            res@ == get_revert_if_greater_text(),
    {
        String::from_str("Quartz_RevertIfGreater(a: u64, b: u64): u64 {{  \n \
             assert(copy(a) <= move(b), 1); \n \
             return move(a); \n }}")
    }

    /// The MoveIR definition of a helper function.
    pub fn get_deposit() -> (res: String)
        ensures
            res@ == get_deposit_text(),
    {
        String::from_str("Quartz_send(money: &mut LibraCoin.T, addr: address) {{ \n \
             LibraAccount.deposit(move(addr), Quartz_withdrawAll(move(money))); \n \
             return; \n }}")
    }

    /// The MoveIR definition of a helper function.
    pub fn get_array_funcs() -> (res: String)
        ensures
            res@ == get_array_funcs_text(),
    {
        String::from_str("

        _GetFromArrayInt(vec: &mut vector<u64>, index: u64):u64 {
            return  *Vector.borrow<u64>(freeze(move(vec)), move(index));
        }


        _insert_array_index_u64(vec: &mut vector<u64>, index: u64, value: u64) {
    let length: u64;
    let temp: u64;
    length = Vector.length<u64>(freeze(copy(vec)));
    Vector.push_back<u64>(copy(vec), move(value));
    if (copy(length) == copy(index)) {
      Vector.swap<u64>(copy(vec), copy(index), copy(length));
      temp = Vector.pop_back<u64>(copy(vec));
      _ = move(temp);
    };
    _ = move(vec);
    return;
  }


  _insert_array_index_bool(vec: &mut vector<bool>, index: u64, value: bool) {
    let length: u64;
    let temp: bool;
    length = Vector.length<bool>(freeze(copy(vec)));
    Vector.push_back<bool>(copy(vec), move(value));
    if (copy(length) == copy(index)) {
      Vector.swap<bool>(copy(vec), copy(index), copy(length));
      temp = Vector.pop_back<bool>(copy(vec));
      _ = move(temp);
    };
    _ = move(vec);
    return;
  }")
    }

    /// The MoveIR definition of a helper function.
    pub fn get_libra_internal() -> (res: String)
        ensures
            res@ == get_libra_internal_text(),
    {
        String::from_str("Quartz_Self_Create_Libra(input: LibraCoin.T) : Self.Libra {
            return Self.Libra_produce(move(input));
        }

        public Libra_Coin_init(zero: address): Self.Libra_Coin {
        if (move(zero) != 0x0) {
          assert(false, 9001);
        }
        return Libra_Coin {
          coin: LibraCoin.zero()
        };
      }

      public Libra_Coin_getValue(this: &mut Self.Libra_Coin): u64 {
        let coin: &LibraCoin.T;
        coin = &move(this).coin;
        return LibraCoin.value(move(coin));
      }

      public Libra_Coin_withdraw(this: &mut Self.Libra_Coin, \
      amount: u64): Self.Libra_Coin {
        let coin: &mut LibraCoin.T;
        coin = &mut move(this).coin;
        return Libra_Coin {
          coin: LibraCoin.withdraw(move(coin), move(amount))
        };
      }

      public Libra_Coin_transfer(this: &mut Self.Libra_Coin, \
      other: &mut Self.Libra_Coin, amount: u64) {
        let coin: &mut LibraCoin.T;
        let other_coin: &mut LibraCoin.T;
        let temporary: LibraCoin.T;
        coin = &mut move(this).coin;
        temporary = LibraCoin.withdraw(move(coin), move(amount));
        other_coin = &mut move(other).coin;
        LibraCoin.deposit(move(other_coin), move(temporary));
        return;
      }
      public Libra_Coin_transfer_value(this: &mut Self.Libra_Coin, other: Self.Libra) {
        let coin: &mut LibraCoin.T;
        let temp: Self.Libra_Coin;
        let temporary: LibraCoin.T;
        coin = &mut move(this).coin;
        Libra {temp} = move(other);
        Libra_Coin {temporary} = move(temp);
        LibraCoin.deposit(move(coin), move(temporary));
        return;
    }

    public Libra_Coin_send(coin: &mut Self.Libra_Coin, payee: address, amount: u64) {
    let temporary: LibraCoin.T;
    let coin_ref: &mut LibraCoin.T;
    coin_ref = &mut move(coin).coin;
    temporary = LibraCoin.withdraw(move(coin_ref), move(amount));
    LibraAccount.deposit(copy(payee), move(temporary));
    return;
  }

    Libra_Coin_produce (input: LibraCoin.T): Self.Libra_Coin {
        return Libra_Coin {
            coin: move(input)
        };
    }

    Libra_produce (input: LibraCoin.T): Self.Libra {
    return Libra {
      libra: Self.Libra_Coin_produce(move(input))
    };
  }

  Libra_init (): Self.Libra {
    return Self.publicLibra();
  }

  Quartz_Libra_send (this: &mut Self.Libra, _payee: address, _amount: u64)  {
    let _temp__5: &mut Self.Libra_Coin;
    _temp__5 = &mut copy(this).libra;
    Self.Libra_Coin_send(copy(_temp__5), copy(_payee), copy(_amount));
    _ = move(_temp__5);
    _ = move(this);
    return;
  }")
    }
}

} // verus!
