//! Lowering Flint literals to Yul literals.

use vstd::prelude::*;
use crate::ast::Literal;
use super::yul::YulLiteral;

verus! {

/// A literal of the source program.
pub struct SolidityLiteral {
    pub literal: Literal,
}

/// The Yul literal for a Flint literal: addresses become hexadecimal
/// literals, integers numbers; a `u8` literal (one the generator makes for a
/// type state) becomes the number it holds.
pub open spec fn yul_literal(l: Literal) -> YulLiteral {
    match l {
        Literal::BooleanLiteral(b) => YulLiteral::Bool(b),
        Literal::AddressLiteral(a) => YulLiteral::Hex(a),
        Literal::StringLiteral(s) => YulLiteral::String(s),
        Literal::IntLiteral(i) => YulLiteral::Num(i),
        Literal::U8Literal(u) => YulLiteral::Num(u as u64),
    }
}

impl SolidityLiteral {
    /// The Yul literal for the literal.
    pub fn generate(&self) -> (res: YulLiteral)
        ensures
            res == yul_literal(self.literal),
    {
        match &self.literal {
            Literal::BooleanLiteral(b) => YulLiteral::Bool(*b),
            Literal::AddressLiteral(a) => YulLiteral::Hex(a.clone()),
            Literal::StringLiteral(s) => YulLiteral::String(s.clone()),
            Literal::IntLiteral(i) => YulLiteral::Num(*i),
            Literal::U8Literal(u) => YulLiteral::Num(*u as u64),
        }
    }
}

} // verus!
