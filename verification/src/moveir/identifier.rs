//! The receiver `self` in MoveIR, where it is called `this`.

use vstd::prelude::*;
use crate::ast::Type;
use super::ir::{MoveIRExpression, MoveIROperation, MoveIRTransfer};
use super::function::FunctionContext;
use super::MovePosition;

verus! {

/// The receiver of a function.
#[derive(Debug)]
pub struct MoveSelf {
    pub token: String,
    pub position: MovePosition,
}

/// `e` is the name `this`.
pub open spec fn is_this(e: MoveIRExpression) -> bool {
    e matches MoveIRExpression::Identifier(n) && n@ == "this"@
}

/// `e` is a copy of `this`.
pub open spec fn is_this_copy(e: MoveIRExpression) -> bool {
    e matches MoveIRExpression::Transfer(MoveIRTransfer::Copy(x)) && is_this(*x)
}

/// How the receiver is referred to: by name when it is assigned to, or in a
/// function that does not receive it by reference; moved when its value is
/// given away; in a constructor, and otherwise, by a copy, dereferenced
/// through a mutable reference where one of its members is accessed.
pub open spec fn is_self_code(res: MoveIRExpression, position: MovePosition, is_constructor: bool, force: bool, self_inout: bool) -> bool {
    if is_constructor {
        if position is Left {
            is_this(res)
        } else {
            is_this_copy(res)
        }
    } else if position is Left {
        is_this(res)
    } else if force {
        res matches MoveIRExpression::Transfer(MoveIRTransfer::Move(x)) && is_this(*x)
    } else if !self_inout {
        is_this(res)
    } else if position is Accessed {
        &&& res matches MoveIRExpression::Operation(MoveIROperation::Dereference(d))
        &&& *d matches MoveIRExpression::Operation(MoveIROperation::MutableReference(m))
        &&& is_this_copy(*m)
    } else {
        is_this_copy(res)
    }
}

impl MoveSelf {
    /// The name of the receiver.
    pub fn name(&self) -> (res: String)
        ensures
            res@ == "this"@,
    {
        String::from_str("this")
    }

    /// Refers to the receiver, `force` asking for its value to be moved;
    /// `self_type` is the type the receiver has in the function.
    pub fn generate(&self, function_context: &FunctionContext, force: bool, self_type: &Type) -> (res: MoveIRExpression)
        ensures
            is_self_code(res, self.position, function_context.is_constructor, force, *self_type is InoutType),
    {
        let this = MoveIRExpression::Identifier(self.name());
        if function_context.is_constructor {
            match self.position {
                MovePosition::Left => this,
                _ => MoveIRExpression::Transfer(MoveIRTransfer::Copy(Box::new(this))),
            }
        } else if let MovePosition::Left = self.position {
            this
        } else if force {
            MoveIRExpression::Transfer(MoveIRTransfer::Move(Box::new(this)))
        } else if !(match self_type {
            Type::InoutType(_) => true,
            _ => false,
        }) {
            this
        } else if let MovePosition::Accessed = self.position {
            MoveIRExpression::Operation(
                MoveIROperation::Dereference(
                    Box::new(
                        MoveIRExpression::Operation(
                            MoveIROperation::MutableReference(
                                Box::new(MoveIRExpression::Transfer(MoveIRTransfer::Copy(Box::new(this)))),
                            ),
                        ),
                    ),
                ),
            )
        } else {
            MoveIRExpression::Transfer(MoveIRTransfer::Copy(Box::new(this)))
        }
    }
}

} // verus!
