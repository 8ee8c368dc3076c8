//! The types of the earlier MoveIR back end (LibraCoin based) and the
//! modules and declarations every program it generated started with.

use vstd::prelude::*;
use super::ir::{MoveIRModuleImport, MoveIRStatement};
use super::types::is_import;

verus! {

/// A Flint type as the earlier MoveIR back end saw it.
#[derive(Debug)]
pub enum MoveType {
    U64,
    Address,
    Bool,
    ByteArray,
    Resource(String),
    StructType(String),
    MutableReference(Box<MoveType>),
    Vector(Box<MoveType>),
    External(String, Box<MoveType>),
}

impl MoveType {
    /// Whether values of the type are resources: resource types, and
    /// external types that wrap a resource.
    pub fn is_resource(&self) -> (res: bool)
        ensures
            res == (*self is Resource || (*self matches MoveType::External(_, v) && *v is Resource)),
    {
        match self {
            MoveType::Resource(_) => true,
            MoveType::External(_, v) => {
                if let MoveType::Resource(_) = **v {
                    return true;
                }
                false
            },
            _ => false,
        }
    }
}

/// The runtime declarations and imports of the earlier back end.
pub struct MoveRuntimeTypes {}

/// The declaration of the coin resource that every module held.
pub open spec fn libra_coin_declaration() -> Seq<char> {
    "Libra"@
}

impl MoveRuntimeTypes {
    /// The declarations every generated module held: the coin resource.
    pub fn get_all_declarations() -> (res: Vec<String>)
        ensures
            res@.len() == 1,
            res@[0]@ == libra_coin_declaration(),
    {
        let libra = String::from_str("Libra");
        vec![libra]
    }

    /// The imports every generated module started with: `LibraCoin`,
    /// `LibraAccount` and `Vector`, all at address `0x0`.
    pub fn get_all_imports() -> (res: Vec<MoveIRStatement>)
        ensures
            res@.len() == 3,
            is_import(res@[0], "LibraCoin"@, "0x0"@),
            is_import(res@[1], "LibraAccount"@, "0x0"@),
            is_import(res@[2], "Vector"@, "0x0"@),
    {
        let libra = MoveIRStatement::Import(
            MoveIRModuleImport { name: String::from_str("LibraCoin"), address: String::from_str("0x0") },
        );
        let libra_account = MoveIRStatement::Import(
            MoveIRModuleImport {
                name: String::from_str("LibraAccount"),
                address: String::from_str("0x0"),
            },
        );
        let vector = MoveIRStatement::Import(
            MoveIRModuleImport { name: String::from_str("Vector"), address: String::from_str("0x0") },
        );
        vec![libra, libra_account, vector]
    }
}

} // verus!
