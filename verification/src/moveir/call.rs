//! Checks that the MoveIR call generator makes on the calls it translates.

use vstd::prelude::*;
use crate::ast::{CallerProtection, FunctionArgument};

verus! {

/// The argument is labelled `caller`.
pub open spec fn is_caller_argument(a: FunctionArgument) -> bool {
    a.identifier matches Some(id) && id.token@ == "caller"@
}

/// Whether some argument is labelled `caller`.
pub fn contains_caller_argument(arguments: &Vec<FunctionArgument>) -> (res: bool)
    ensures
        res == exists|i: int| 0 <= i < arguments@.len() && is_caller_argument(#[trigger] arguments@[i]),
{
    let caller = String::from_str("caller");
    let mut i: usize = 0;
    while i < arguments.len()
        invariant
            i <= arguments@.len(),
            caller@ == "caller"@,
            forall|j: int|
                0 <= j < i ==> !is_caller_argument(#[trigger] arguments@[j]),
        decreases arguments@.len() - i,
    {
        if let Some(identifier) = &arguments[i].identifier {
            if identifier.token == caller {
                return true;
            }
        }
        i = i + 1;
    }
    false
}

/// Whether every caller protection is `any`.
pub fn caller_protections_is_any(caller_protections: &Vec<CallerProtection>) -> (res: bool)
    ensures
        res == forall|i: int|
            0 <= i < caller_protections@.len() ==> (#[trigger] caller_protections@[i]).identifier.token@
                == "any"@,
{
    let mut i: usize = 0;
    while i < caller_protections.len()
        invariant
            i <= caller_protections@.len(),
            forall|j: int|
                0 <= j < i ==> (#[trigger] caller_protections@[j]).identifier.token@ == "any"@,
        decreases caller_protections@.len() - i,
    {
        if !caller_protections[i].is_any() {
            return false;
        }
        i = i + 1;
    }
    true
}

} // verus!
