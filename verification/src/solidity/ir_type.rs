//! The Solidity types that function signatures and the ABI use.

use vstd::prelude::*;
use crate::ast::Type;

verus! {

/// The Solidity types of function parameters and results.
#[derive(Debug, PartialEq, Eq)]
pub enum SolidityIRType {
    Uint256,
    Address,
    Bytes32,
}

/// Whether a Flint type has a Solidity counterpart: integers, booleans,
/// strings, addresses and user-defined types, also behind `inout`.
pub open spec fn maps_to_solidity(t: Type) -> bool
    decreases t,
{
    match t {
        Type::InoutType(i) => maps_to_solidity(*i.key_type),
        Type::UserDefinedType(_) => true,
        Type::Bool => true,
        Type::Int => true,
        Type::String => true,
        Type::Address => true,
        _ => false,
    }
}

/// The Solidity counterpart of a Flint type that has one.
pub open spec fn solidity_type(t: Type) -> SolidityIRType
    decreases t,
{
    match t {
        Type::InoutType(i) => solidity_type(*i.key_type),
        Type::String => SolidityIRType::Bytes32,
        Type::Address => SolidityIRType::Address,
        _ => SolidityIRType::Uint256,
    }
}

/// The name of a Solidity type.
pub open spec fn solidity_type_name(t: SolidityIRType) -> Seq<char> {
    match t {
        SolidityIRType::Uint256 => "uint256"@,
        SolidityIRType::Address => "address"@,
        SolidityIRType::Bytes32 => "bytes32"@,
    }
}

impl SolidityIRType {
    /// The Solidity counterpart of a Flint type: user-defined types, booleans
    /// and integers are `uint256`, strings `bytes32`.
    pub fn map_to_solidity_type(input: Type) -> (res: SolidityIRType)
        requires
            maps_to_solidity(input),
        ensures
            res == solidity_type(input),
        decreases input,
    {
        match input {
            Type::InoutType(i) => SolidityIRType::map_to_solidity_type(*i.key_type),
            Type::String => SolidityIRType::Bytes32,
            Type::Address => SolidityIRType::Address,
            _ => SolidityIRType::Uint256,
        }
    }

    /// Whether a Flint type has a Solidity counterpart.
    pub fn if_maps_to_solidity_type(input: Type) -> (res: bool)
        ensures
            res == maps_to_solidity(input),
        decreases input,
    {
        match input {
            Type::InoutType(i) => SolidityIRType::if_maps_to_solidity_type(*i.key_type),
            Type::UserDefinedType(_) => true,
            Type::Bool => true,
            Type::Int => true,
            Type::String => true,
            Type::Address => true,
            _ => false,
        }
    }

    /// The name of the type.
    pub fn generate(&self) -> (res: String)
        ensures
            res@ == solidity_type_name(*self),
    {
        match self {
            SolidityIRType::Uint256 => String::from_str("uint256"),
            SolidityIRType::Address => String::from_str("address"),
            SolidityIRType::Bytes32 => String::from_str("bytes32"),
        }
    }
}

} // verus!
