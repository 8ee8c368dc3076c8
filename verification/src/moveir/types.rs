//! The types of the MoveIR back end before they are lowered to MoveIR types,
//! and the modules every generated program imports.

use vstd::prelude::*;
use super::ir::{MoveIRModuleImport, MoveIRStatement};
use crate::ast::Type;

verus! {

/// A Flint type as the MoveIR back end sees it.
#[derive(Debug)]
pub enum MoveType {
    U8,
    U64,
    Address,
    Bool,
    ByteArray,
    Signer,
    Resource(String),
    StructType(String),
    Reference(Box<MoveType>),
    MutableReference(Box<MoveType>),
    Vector(Box<MoveType>),
    External(String, Box<MoveType>),
}

impl MoveType {
    /// Whether values of the type are resources: resource types, and
    /// external types that wrap a resource.
    pub fn is_resource(&self) -> (res: bool)
        ensures
            res == (*self is Resource || (*self matches MoveType::External(_, v) && *v is Resource)),
    {
        match self {
            MoveType::Resource(_) => true,
            MoveType::External(_, v) => {
                if let MoveType::Resource(_) = **v {
                    return true;
                }
                false
            },
            _ => false,
        }
    }
}

/// `s` is the import of module `name` at `address`.
pub open spec fn is_import(s: MoveIRStatement, name: Seq<char>, address: Seq<char>) -> bool {
    s matches MoveIRStatement::Import(m) && m.name@ == name && m.address@ == address
}

/// The declarations every generated module holds: none.
pub fn get_all_declarations() -> (res: Vec<String>)
    ensures
        res@.len() == 0,
{
    Vec::new()
}

/// The imports every generated module starts with: `Signer`, `Vector`, `LBR`
/// and `LibraAccount`, all at address `0x1`.
pub fn get_all_imports() -> (res: Vec<MoveIRStatement>)
    ensures
        res@.len() == 4,
        is_import(res@[0], "Signer"@, "0x1"@),
        is_import(res@[1], "Vector"@, "0x1"@),
        is_import(res@[2], "LBR"@, "0x1"@),
        is_import(res@[3], "LibraAccount"@, "0x1"@),
{
    let signer = MoveIRStatement::Import(
        MoveIRModuleImport { name: String::from_str("Signer"), address: String::from_str("0x1") },
    );
    let lbr = MoveIRStatement::Import(
        MoveIRModuleImport { name: String::from_str("LBR"), address: String::from_str("0x1") },
    );
    let libra_account = MoveIRStatement::Import(
        MoveIRModuleImport {
            name: String::from_str("LibraAccount"),
            address: String::from_str("0x1"),
        },
    );
    let vector = MoveIRStatement::Import(
        MoveIRModuleImport { name: String::from_str("Vector"), address: String::from_str("0x1") },
    );
    vec![signer, vector, lbr, libra_account]
}

/// What the declarations of a program say of a user-defined type's name: a
/// contract or currency (held as a resource), an external contract (held
/// by its address), an external module whose type `T` is a struct or a
/// resource, or a struct of the program.
#[derive(Debug)]
pub enum UserTypeKind {
    Resource,
    ExternalContract,
    ExternalStruct,
    ExternalResource,
    Struct,
}

/// The kind recorded for `name`: the first entry for it, a struct where
/// there is none.
pub open spec fn lookup_kind(table: Seq<(String, UserTypeKind)>, name: Seq<char>) -> UserTypeKind
    decreases table.len(),
{
    if table.len() == 0 {
        UserTypeKind::Struct
    } else if table[0].0@ == name {
        table[0].1
    } else {
        lookup_kind(table.drop_first(), name)
    }
}

/// Whether a type has a MoveIR counterpart: not a range, `Self`, the error
/// type or a Solidity type, also inside references, arrays and dictionaries.
pub open spec fn has_move_type(t: Type) -> bool
    decreases t,
{
    match t {
        Type::InoutType(r) => has_move_type(*r.key_type),
        Type::ArrayType(a) => has_move_type(*a.key_type),
        Type::FixedSizedArrayType(a) => has_move_type(*a.key_type),
        Type::DictionaryType(d) => has_move_type(*d.value_type),
        Type::RangeType(_) | Type::SelfType | Type::Error | Type::Solidity(_) => false,
        _ => true,
    }
}

/// `res` is the type `T` of the external module `module`, a resource or a
/// struct.
pub open spec fn is_external_t(res: MoveType, module: String, resource: bool) -> bool {
    &&& res matches MoveType::External(m, b)
    &&& m == module
    &&& if resource {
        *b matches MoveType::Resource(n) && n@ == "T"@
    } else {
        *b matches MoveType::StructType(n) && n@ == "T"@
    }
}

/// `res` is the MoveIR type of `t`: references become mutable references,
/// arrays vectors, dictionaries their value type (their elements and values
/// seen without the declarations), and the basic types their MoveIR
/// counterparts. With the declarations at hand, a user-defined type is a
/// reference to a signer, a signer, or as `table` records it; without
/// them, a struct.
pub open spec fn is_move_type(res: MoveType, t: Type, with_declarations: bool, table: Seq<(String, UserTypeKind)>) -> bool
    decreases t,
{
    match t {
        Type::InoutType(r) => res matches MoveType::MutableReference(b) && is_move_type(
            *b,
            *r.key_type,
            with_declarations,
            table,
        ),
        Type::ArrayType(a) => res matches MoveType::Vector(b) && is_move_type(*b, *a.key_type, false, table),
        Type::FixedSizedArrayType(a) => res matches MoveType::Vector(b) && is_move_type(
            *b,
            *a.key_type,
            false,
            table,
        ),
        Type::DictionaryType(d) => is_move_type(res, *d.value_type, false, table),
        Type::UserDefinedType(i) => if !with_declarations {
            res == MoveType::StructType(i.token)
        } else if i.token@ == "&signer"@ {
            res == MoveType::Reference(Box::new(MoveType::Signer))
        } else if i.token@ == "signer"@ {
            res == MoveType::Signer
        } else {
            match lookup_kind(table, i.token@) {
                UserTypeKind::Resource => res == MoveType::Resource(i.token),
                UserTypeKind::ExternalContract => res == MoveType::Address,
                UserTypeKind::ExternalStruct => is_external_t(res, i.token, false),
                UserTypeKind::ExternalResource => is_external_t(res, i.token, true),
                UserTypeKind::Struct => res == MoveType::StructType(i.token),
            }
        },
        Type::Bool => res == MoveType::Bool,
        Type::Int => res == MoveType::U64,
        Type::String => res == MoveType::ByteArray,
        Type::Address => res == MoveType::Address,
        Type::TypeState => res == MoveType::U8,
        _ => false,
    }
}

/// The kind recorded for `name` in the table.
fn find_kind(table: &Vec<(String, UserTypeKind)>, name: &String) -> (res: UserTypeKind)
    ensures
        res == lookup_kind(table@, name@),
{
    let mut i: usize = 0;
    assert(table@.skip(0) =~= table@);
    while i < table.len()
        invariant
            i <= table@.len(),
            lookup_kind(table@.skip(i as int), name@) == lookup_kind(table@, name@),
        decreases table@.len() - i,
    {
        proof {
            assert(table@.skip(i as int).drop_first() =~= table@.skip(i as int + 1));
            assert(table@.skip(i as int)[0] == table@[i as int]);
        }
        if table[i].0 == *name {
            return match table[i].1 {
                UserTypeKind::Resource => UserTypeKind::Resource,
                UserTypeKind::ExternalContract => UserTypeKind::ExternalContract,
                UserTypeKind::ExternalStruct => UserTypeKind::ExternalStruct,
                UserTypeKind::ExternalResource => UserTypeKind::ExternalResource,
                UserTypeKind::Struct => UserTypeKind::Struct,
            };
        }
        i = i + 1;
    }
    UserTypeKind::Struct
}

impl MoveType {
    /// The MoveIR type of a Flint type. `with_declarations` says whether the
    /// program's declarations are at hand; `table` records what they say of
    /// user-defined type names.
    pub fn move_type(original: Type, with_declarations: bool, table: &Vec<(String, UserTypeKind)>) -> (res: MoveType)
        requires
            has_move_type(original),
        ensures
            is_move_type(res, original, with_declarations, table@),
        decreases original,
    {
        match original {
            Type::InoutType(r) => MoveType::MutableReference(
                Box::new(MoveType::move_type(*r.key_type, with_declarations, table)),
            ),
            Type::ArrayType(a) => MoveType::Vector(Box::new(MoveType::move_type(*a.key_type, false, table))),
            Type::FixedSizedArrayType(a) => MoveType::Vector(
                Box::new(MoveType::move_type(*a.key_type, false, table)),
            ),
            Type::DictionaryType(d) => MoveType::move_type(*d.value_type, false, table),
            Type::UserDefinedType(i) => {
                if !with_declarations {
                    MoveType::StructType(i.token)
                } else if i.token == String::from_str("&signer") {
                    MoveType::Reference(Box::new(MoveType::Signer))
                } else if i.token == String::from_str("signer") {
                    MoveType::Signer
                } else {
                    match find_kind(table, &i.token) {
                        UserTypeKind::Resource => MoveType::Resource(i.token),
                        UserTypeKind::ExternalContract => MoveType::Address,
                        UserTypeKind::ExternalStruct => MoveType::External(
                            i.token,
                            Box::new(MoveType::StructType(String::from_str("T"))),
                        ),
                        UserTypeKind::ExternalResource => MoveType::External(
                            i.token,
                            Box::new(MoveType::Resource(String::from_str("T"))),
                        ),
                        UserTypeKind::Struct => MoveType::StructType(i.token),
                    }
                }
            },
            Type::Bool => MoveType::Bool,
            Type::Int => MoveType::U64,
            Type::String => MoveType::ByteArray,
            Type::Address => MoveType::Address,
            _ => MoveType::U8,
        }
    }
}

} // verus!
