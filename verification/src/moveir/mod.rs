pub mod ir;
pub mod utils;
pub mod runtime_function;
pub mod move_runtime_function;
pub mod preprocessor;
pub mod function;
pub mod contract;
pub mod call;
pub mod structs;
pub mod types;
pub mod move_type;
pub mod literal;
pub mod expression;
pub mod identifier;
pub mod statement;

use vstd::prelude::*;

verus! {

/// Where an expression stands relative to its use: it decides whether a
/// value is moved, copied or borrowed.
#[derive(Debug)]
pub enum MovePosition {
    Left,
    Accessed,
    Normal,
    Inout,
}

impl Default for MovePosition {
    fn default() -> (res: Self)
        ensures
            res is Normal,
    {
        MovePosition::Normal
    }
}

} // verus!
