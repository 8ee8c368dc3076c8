//! Lowering Flint literals to MoveIR literals.

use vstd::prelude::*;
use crate::ast::Literal;
use super::ir::MoveIRLiteral;

verus! {

/// A literal of the source program.
pub struct MoveLiteralToken {
    pub token: Literal,
}

/// The MoveIR literal for a Flint literal: addresses become hexadecimal
/// literals, integers 64-bit ones.
pub open spec fn move_literal(l: Literal) -> MoveIRLiteral {
    match l {
        Literal::BooleanLiteral(b) => MoveIRLiteral::Bool(b),
        Literal::AddressLiteral(a) => MoveIRLiteral::Hex(a),
        Literal::StringLiteral(s) => MoveIRLiteral::String(s),
        Literal::U8Literal(u) => MoveIRLiteral::U8(u),
        Literal::IntLiteral(i) => MoveIRLiteral::U64(i),
    }
}

impl MoveLiteralToken {
    /// The MoveIR literal for the token.
    pub fn generate(&self) -> (res: MoveIRLiteral)
        ensures
            res == move_literal(self.token),
    {
        match &self.token {
            Literal::BooleanLiteral(b) => MoveIRLiteral::Bool(*b),
            Literal::AddressLiteral(a) => MoveIRLiteral::Hex(a.clone()),
            Literal::StringLiteral(s) => MoveIRLiteral::String(s.clone()),
            Literal::U8Literal(u) => MoveIRLiteral::U8(*u),
            Literal::IntLiteral(i) => MoveIRLiteral::U64(*i),
        }
    }
}

} // verus!
