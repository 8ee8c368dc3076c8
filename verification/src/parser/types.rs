//! Types: fixed-size arrays, arrays, dictionaries, `Self`, the basic types,
//! `inout` types, the Solidity types and user-defined types, tried in that
//! order.

use vstd::prelude::*;
use crate::ast::{ArrayType, DictionaryType, FixedSizedArrayType, Identifier, InoutType, SolidityType, Type, TypeAnnotation};
use super::identifiers::{identifier_end, identifier_end_from, is_identifier_at, lemma_identifier_end_bounds};
use super::literals::{digits_end, digits_from, digits_value, has_at, has_word_at, lemma_digits_end};
use super::utils::{
    is_advance, lemma_whitespace_end_bounds, line_info_of_position, span_wf, substring, whitespace_end,
    whitespace_end_from, ParseError, ParseResult, Span,
};

verus! {

/// The keyword of a Solidity type.
pub open spec fn solidity_keyword(t: SolidityType) -> Seq<char> {
    match t {
        SolidityType::ADDRESS => "address"@,
        SolidityType::STRING => "string"@,
        SolidityType::BOOL => "bool"@,
        SolidityType::INT8 => "int8"@,
        SolidityType::INT16 => "int16"@,
        SolidityType::INT24 => "int24"@,
        SolidityType::INT32 => "int32"@,
        SolidityType::INT40 => "int40"@,
        SolidityType::INT48 => "int48"@,
        SolidityType::INT56 => "int56"@,
        SolidityType::INT64 => "int64"@,
        SolidityType::INT72 => "int72"@,
        SolidityType::INT80 => "int80"@,
        SolidityType::INT88 => "int88"@,
        SolidityType::INT96 => "int96"@,
        SolidityType::INT104 => "int104"@,
        SolidityType::INT112 => "int112"@,
        SolidityType::INT120 => "int120"@,
        SolidityType::INT128 => "int128"@,
        SolidityType::INT136 => "int136"@,
        SolidityType::INT144 => "int144"@,
        SolidityType::INT152 => "int152"@,
        SolidityType::INT160 => "int160"@,
        SolidityType::INT168 => "int168"@,
        SolidityType::INT176 => "int176"@,
        SolidityType::INT184 => "int184"@,
        SolidityType::INT192 => "int192"@,
        SolidityType::INT200 => "int200"@,
        SolidityType::INT208 => "int208"@,
        SolidityType::INT216 => "int216"@,
        SolidityType::INT224 => "int224"@,
        SolidityType::INT232 => "int232"@,
        SolidityType::INT240 => "int240"@,
        SolidityType::INT248 => "int248"@,
        SolidityType::INT256 => "int256"@,
        SolidityType::UINT8 => "uint8"@,
        SolidityType::UINT16 => "uint16"@,
        SolidityType::UINT24 => "uint24"@,
        SolidityType::UINT32 => "uint32"@,
        SolidityType::UINT40 => "uint40"@,
        SolidityType::UINT48 => "uint48"@,
        SolidityType::UINT56 => "uint56"@,
        SolidityType::UINT64 => "uint64"@,
        SolidityType::UINT72 => "uint72"@,
        SolidityType::UINT80 => "uint80"@,
        SolidityType::UINT88 => "uint88"@,
        SolidityType::UINT96 => "uint96"@,
        SolidityType::UINT104 => "uint104"@,
        SolidityType::UINT112 => "uint112"@,
        SolidityType::UINT120 => "uint120"@,
        SolidityType::UINT128 => "uint128"@,
        SolidityType::UINT136 => "uint136"@,
        SolidityType::UINT144 => "uint144"@,
        SolidityType::UINT152 => "uint152"@,
        SolidityType::UINT160 => "uint160"@,
        SolidityType::UINT168 => "uint168"@,
        SolidityType::UINT176 => "uint176"@,
        SolidityType::UINT184 => "uint184"@,
        SolidityType::UINT192 => "uint192"@,
        SolidityType::UINT200 => "uint200"@,
        SolidityType::UINT208 => "uint208"@,
        SolidityType::UINT216 => "uint216"@,
        SolidityType::UINT224 => "uint224"@,
        SolidityType::UINT232 => "uint232"@,
        SolidityType::UINT240 => "uint240"@,
        SolidityType::UINT248 => "uint248"@,
        SolidityType::UINT256 => "uint256"@,
    }
}

/// The Solidity types in the order in which their keywords are tried:
/// `address`, `string`, `bool`, then the signed and the unsigned integers
/// by width.
pub open spec fn solidity_type_at_index(k: u8) -> SolidityType {
    match k {
        0 => SolidityType::ADDRESS,
        1 => SolidityType::STRING,
        2 => SolidityType::BOOL,
        3 => SolidityType::INT8,
        4 => SolidityType::INT16,
        5 => SolidityType::INT24,
        6 => SolidityType::INT32,
        7 => SolidityType::INT40,
        8 => SolidityType::INT48,
        9 => SolidityType::INT56,
        10 => SolidityType::INT64,
        11 => SolidityType::INT72,
        12 => SolidityType::INT80,
        13 => SolidityType::INT88,
        14 => SolidityType::INT96,
        15 => SolidityType::INT104,
        16 => SolidityType::INT112,
        17 => SolidityType::INT120,
        18 => SolidityType::INT128,
        19 => SolidityType::INT136,
        20 => SolidityType::INT144,
        21 => SolidityType::INT152,
        22 => SolidityType::INT160,
        23 => SolidityType::INT168,
        24 => SolidityType::INT176,
        25 => SolidityType::INT184,
        26 => SolidityType::INT192,
        27 => SolidityType::INT200,
        28 => SolidityType::INT208,
        29 => SolidityType::INT216,
        30 => SolidityType::INT224,
        31 => SolidityType::INT232,
        32 => SolidityType::INT240,
        33 => SolidityType::INT248,
        34 => SolidityType::INT256,
        35 => SolidityType::UINT8,
        36 => SolidityType::UINT16,
        37 => SolidityType::UINT24,
        38 => SolidityType::UINT32,
        39 => SolidityType::UINT40,
        40 => SolidityType::UINT48,
        41 => SolidityType::UINT56,
        42 => SolidityType::UINT64,
        43 => SolidityType::UINT72,
        44 => SolidityType::UINT80,
        45 => SolidityType::UINT88,
        46 => SolidityType::UINT96,
        47 => SolidityType::UINT104,
        48 => SolidityType::UINT112,
        49 => SolidityType::UINT120,
        50 => SolidityType::UINT128,
        51 => SolidityType::UINT136,
        52 => SolidityType::UINT144,
        53 => SolidityType::UINT152,
        54 => SolidityType::UINT160,
        55 => SolidityType::UINT168,
        56 => SolidityType::UINT176,
        57 => SolidityType::UINT184,
        58 => SolidityType::UINT192,
        59 => SolidityType::UINT200,
        60 => SolidityType::UINT208,
        61 => SolidityType::UINT216,
        62 => SolidityType::UINT224,
        63 => SolidityType::UINT232,
        64 => SolidityType::UINT240,
        65 => SolidityType::UINT248,
        _ => SolidityType::UINT256,
    }
}

/// How many Solidity types there are.
pub open spec fn solidity_type_count() -> int {
    67
}

/// The first Solidity type, from position `k` of the order on, whose
/// keyword the text at `j` starts with (a keyword may be the start of a
/// longer word: `int80` reads as `int8`).
pub open spec fn solidity_match_from(s: Seq<char>, j: int, k: int) -> Option<SolidityType>
    decreases solidity_type_count() - k,
{
    if k < 0 || k >= solidity_type_count() {
        None
    } else if has_at(s, j, solidity_keyword(solidity_type_at_index(k as u8))) {
        Some(solidity_type_at_index(k as u8))
    } else {
        solidity_match_from(s, j, k + 1)
    }
}

/// The type that an identifier names: the basic types by their names
/// (`String`, `Void` and `Event` stand for addresses here), any other name
/// a user-defined type.
pub open spec fn is_identifier_type(t: Type, i: crate::parser::utils::Span, a: int, b: int) -> bool {
    let tok = i.fragment@.subrange(a, b);
    if tok == "Int"@ {
        t == Type::Int
    } else if tok == "Bool"@ {
        t == Type::Bool
    } else if basic_type_name(tok) {
        t == Type::Address
    } else {
        t matches Type::UserDefinedType(id) && is_identifier_at(id, i, a, b)
    }
}

/// Where the fixed-size array type at `j` ends, if there is one: an
/// identifier type, then a size in square brackets.
pub open spec fn fixed_array_end(s: Seq<char>, j: int) -> Option<int> {
    let ie = identifier_end(s, j);
    let de = digits_end(s, ie + 1);
    if ie > j && has_at(s, ie, "["@) && de > ie + 1 && digits_value(s, ie + 1, de) <= u64::MAX && has_at(s, de, "]"@) {
        Some(de + 1)
    } else {
        None
    }
}

/// Where the array type at `j` ends, if there is one: a type in square
/// brackets.
pub open spec fn array_end(s: Seq<char>, j: int) -> Option<int>
    decreases s.len() - j, 0int,
{
    if 0 <= j < s.len() && has_at(s, j, "["@) {
        match type_end(s, j + 1) {
            Some(e) => if has_at(s, e, "]"@) {
                Some(e + 1)
            } else {
                None
            },
            None => None,
        }
    } else {
        None
    }
}

/// Where the dictionary type at `j` ends, if there is one: in square
/// brackets, a key type, a colon, whitespace and a value type.
pub open spec fn dictionary_end(s: Seq<char>, j: int) -> Option<int>
    decreases s.len() - j, 0int,
{
    if 0 <= j < s.len() && has_at(s, j, "["@) {
        match type_end(s, j + 1) {
            Some(e) => if j + 1 <= e && e + 1 <= s.len() && has_at(s, e, ":"@) {
                proof {
                    lemma_whitespace_end_bounds(s, e + 1, false);
                }
                match type_end(s, whitespace_end(s, e + 1, false)) {
                    Some(e2) => if has_at(s, e2, "]"@) {
                        Some(e2 + 1)
                    } else {
                        None
                    },
                    None => None,
                }
            } else {
                None
            },
            None => None,
        }
    } else {
        None
    }
}

/// Where the `inout` type at `j` ends, if there is one: `inout`,
/// whitespace and a type.
pub open spec fn inout_end(s: Seq<char>, j: int) -> Option<int>
    decreases s.len() - j, 0int,
{
    if 0 <= j && j + 5 <= s.len() && has_at(s, j, "inout"@) {
        proof {
            lemma_whitespace_end_bounds(s, j + 5, false);
        }
        type_end(s, whitespace_end(s, j + 5, false))
    } else {
        None
    }
}

/// The length of the basic type keyword at `j`, if one is there: `Bool`,
/// `Int`, `String`, `Address`, tried in that order.
pub open spec fn basic_type_len(s: Seq<char>, j: int) -> int {
    if has_at(s, j, "Bool"@) {
        4
    } else if has_at(s, j, "Int"@) {
        3
    } else if has_at(s, j, "String"@) {
        6
    } else if has_at(s, j, "Address"@) {
        7
    } else {
        0
    }
}

/// Where the type at `j` ends, if one is there.
pub open spec fn type_end(s: Seq<char>, j: int) -> Option<int>
    decreases s.len() - j, 1int,
{
    if j < 0 || j > s.len() {
        None
    } else if fixed_array_end(s, j) is Some {
        fixed_array_end(s, j)
    } else if array_end(s, j) is Some {
        array_end(s, j)
    } else if dictionary_end(s, j) is Some {
        dictionary_end(s, j)
    } else if has_at(s, j, "Self"@) {
        Some(j + 4)
    } else if basic_type_len(s, j) > 0 {
        Some(j + basic_type_len(s, j))
    } else if inout_end(s, j) is Some {
        inout_end(s, j)
    } else if solidity_match_from(s, j, 0) is Some {
        Some(j + solidity_keyword(solidity_match_from(s, j, 0)->0).len())
    } else if identifier_end(s, j) > j {
        Some(identifier_end(s, j))
    } else {
        None
    }
}

/// The Solidity type found is one whose keyword the text starts with.
pub proof fn lemma_solidity_match(s: Seq<char>, j: int, k: int)
    ensures
        solidity_match_from(s, j, k) matches Some(t) ==> has_at(s, j, solidity_keyword(t)),
    decreases solidity_type_count() - k,
{
    if 0 <= k < solidity_type_count() {
        lemma_solidity_match(s, j, k + 1);
    }
}

/// A type that starts within the text ends within it, at or after its start.
pub proof fn lemma_type_end_after(s: Seq<char>, j: int)
    ensures
        type_end(s, j) matches Some(e) ==> 0 <= j <= e <= s.len(),
    decreases s.len() - j,
{
    reveal_strlit("[");
    reveal_strlit("]");
    reveal_strlit(":");
    reveal_strlit("Self");
    reveal_strlit("Bool");
    reveal_strlit("Int");
    reveal_strlit("String");
    reveal_strlit("Address");
    lemma_solidity_match(s, j, 0);
    if 0 <= j <= s.len() {
        lemma_identifier_end_bounds(s, j);
        let ie = identifier_end(s, j);
        if ie + 1 <= s.len() {
            lemma_digits_end(s, ie + 1);
        }
        if j < s.len() {
            lemma_type_end_after(s, j + 1);
            match type_end(s, j + 1) {
                Some(e) => if j + 1 <= e && e + 1 <= s.len() {
                    lemma_whitespace_end_bounds(s, e + 1, false);
                    lemma_type_end_after(s, whitespace_end(s, e + 1, false));
                },
                None => {},
            }
        }
        if j + 5 <= s.len() {
            lemma_whitespace_end_bounds(s, j + 5, false);
            lemma_type_end_after(s, whitespace_end(s, j + 5, false));
        }
    }
}

/// `t` is the type at position `j` of span `i`.
pub open spec fn is_type_at(t: Type, i: crate::parser::utils::Span, j: int) -> bool
    decreases i.fragment@.len() - j,
{
    let s = i.fragment@;
    if j < 0 || j > s.len() {
        false
    } else if fixed_array_end(s, j) is Some {
        let ie = identifier_end(s, j);
        &&& t matches Type::FixedSizedArrayType(f)
        &&& is_identifier_type(*f.key_type, i, j, ie)
        &&& f.size == digits_value(s, ie + 1, digits_end(s, ie + 1))
    } else if array_end(s, j) is Some {
        &&& t matches Type::ArrayType(a)
        &&& is_type_at(*a.key_type, i, j + 1)
    } else if dictionary_end(s, j) is Some {
        let e = type_end(s, j + 1)->0;
        proof {
            lemma_whitespace_end_bounds(s, e + 1, false);
        }
        &&& t matches Type::DictionaryType(d)
        &&& is_type_at(*d.key_type, i, j + 1)
        &&& is_type_at(*d.value_type, i, whitespace_end(s, e + 1, false))
    } else if has_at(s, j, "Self"@) {
        t == Type::SelfType
    } else if basic_type_len(s, j) > 0 {
        t == (if has_at(s, j, "Bool"@) {
            Type::Bool
        } else if has_at(s, j, "Int"@) {
            Type::Int
        } else if has_at(s, j, "String"@) {
            Type::String
        } else {
            Type::Address
        })
    } else if inout_end(s, j) is Some {
        proof {
            lemma_whitespace_end_bounds(s, j + 5, false);
        }
        &&& t matches Type::InoutType(x)
        &&& is_type_at(*x.key_type, i, whitespace_end(s, j + 5, false))
    } else if solidity_match_from(s, j, 0) is Some {
        t == Type::Solidity(solidity_match_from(s, j, 0)->0)
    } else if identifier_end(s, j) > j {
        is_identifier_type(t, i, j, identifier_end(s, j))
    } else {
        false
    }
}

/// The Solidity type at position `k` of the order in which keywords are tried.
fn solidity_type_at(k: u8) -> (res: SolidityType)
    ensures
        res == solidity_type_at_index(k),
{
    match k {
            0 => SolidityType::ADDRESS,
            1 => SolidityType::STRING,
            2 => SolidityType::BOOL,
            3 => SolidityType::INT8,
            4 => SolidityType::INT16,
            5 => SolidityType::INT24,
            6 => SolidityType::INT32,
            7 => SolidityType::INT40,
            8 => SolidityType::INT48,
            9 => SolidityType::INT56,
            10 => SolidityType::INT64,
            11 => SolidityType::INT72,
            12 => SolidityType::INT80,
            13 => SolidityType::INT88,
            14 => SolidityType::INT96,
            15 => SolidityType::INT104,
            16 => SolidityType::INT112,
            17 => SolidityType::INT120,
            18 => SolidityType::INT128,
            19 => SolidityType::INT136,
            20 => SolidityType::INT144,
            21 => SolidityType::INT152,
            22 => SolidityType::INT160,
            23 => SolidityType::INT168,
            24 => SolidityType::INT176,
            25 => SolidityType::INT184,
            26 => SolidityType::INT192,
            27 => SolidityType::INT200,
            28 => SolidityType::INT208,
            29 => SolidityType::INT216,
            30 => SolidityType::INT224,
            31 => SolidityType::INT232,
            32 => SolidityType::INT240,
            33 => SolidityType::INT248,
            34 => SolidityType::INT256,
            35 => SolidityType::UINT8,
            36 => SolidityType::UINT16,
            37 => SolidityType::UINT24,
            38 => SolidityType::UINT32,
            39 => SolidityType::UINT40,
            40 => SolidityType::UINT48,
            41 => SolidityType::UINT56,
            42 => SolidityType::UINT64,
            43 => SolidityType::UINT72,
            44 => SolidityType::UINT80,
            45 => SolidityType::UINT88,
            46 => SolidityType::UINT96,
            47 => SolidityType::UINT104,
            48 => SolidityType::UINT112,
            49 => SolidityType::UINT120,
            50 => SolidityType::UINT128,
            51 => SolidityType::UINT136,
            52 => SolidityType::UINT144,
            53 => SolidityType::UINT152,
            54 => SolidityType::UINT160,
            55 => SolidityType::UINT168,
            56 => SolidityType::UINT176,
            57 => SolidityType::UINT184,
            58 => SolidityType::UINT192,
            59 => SolidityType::UINT200,
            60 => SolidityType::UINT208,
            61 => SolidityType::UINT216,
            62 => SolidityType::UINT224,
            63 => SolidityType::UINT232,
            64 => SolidityType::UINT240,
            65 => SolidityType::UINT248,
            _ => SolidityType::UINT256,
    }
}

/// The keyword of a Solidity type.
fn keyword(t: SolidityType) -> (res: &'static str)
    ensures
        res@ == solidity_keyword(t),
{
    match t {
            SolidityType::ADDRESS => "address",
            SolidityType::STRING => "string",
            SolidityType::BOOL => "bool",
            SolidityType::INT8 => "int8",
            SolidityType::INT16 => "int16",
            SolidityType::INT24 => "int24",
            SolidityType::INT32 => "int32",
            SolidityType::INT40 => "int40",
            SolidityType::INT48 => "int48",
            SolidityType::INT56 => "int56",
            SolidityType::INT64 => "int64",
            SolidityType::INT72 => "int72",
            SolidityType::INT80 => "int80",
            SolidityType::INT88 => "int88",
            SolidityType::INT96 => "int96",
            SolidityType::INT104 => "int104",
            SolidityType::INT112 => "int112",
            SolidityType::INT120 => "int120",
            SolidityType::INT128 => "int128",
            SolidityType::INT136 => "int136",
            SolidityType::INT144 => "int144",
            SolidityType::INT152 => "int152",
            SolidityType::INT160 => "int160",
            SolidityType::INT168 => "int168",
            SolidityType::INT176 => "int176",
            SolidityType::INT184 => "int184",
            SolidityType::INT192 => "int192",
            SolidityType::INT200 => "int200",
            SolidityType::INT208 => "int208",
            SolidityType::INT216 => "int216",
            SolidityType::INT224 => "int224",
            SolidityType::INT232 => "int232",
            SolidityType::INT240 => "int240",
            SolidityType::INT248 => "int248",
            SolidityType::INT256 => "int256",
            SolidityType::UINT8 => "uint8",
            SolidityType::UINT16 => "uint16",
            SolidityType::UINT24 => "uint24",
            SolidityType::UINT32 => "uint32",
            SolidityType::UINT40 => "uint40",
            SolidityType::UINT48 => "uint48",
            SolidityType::UINT56 => "uint56",
            SolidityType::UINT64 => "uint64",
            SolidityType::UINT72 => "uint72",
            SolidityType::UINT80 => "uint80",
            SolidityType::UINT88 => "uint88",
            SolidityType::UINT96 => "uint96",
            SolidityType::UINT104 => "uint104",
            SolidityType::UINT112 => "uint112",
            SolidityType::UINT120 => "uint120",
            SolidityType::UINT128 => "uint128",
            SolidityType::UINT136 => "uint136",
            SolidityType::UINT144 => "uint144",
            SolidityType::UINT152 => "uint152",
            SolidityType::UINT160 => "uint160",
            SolidityType::UINT168 => "uint168",
            SolidityType::UINT176 => "uint176",
            SolidityType::UINT184 => "uint184",
            SolidityType::UINT192 => "uint192",
            SolidityType::UINT200 => "uint200",
            SolidityType::UINT208 => "uint208",
            SolidityType::UINT216 => "uint216",
            SolidityType::UINT224 => "uint224",
            SolidityType::UINT232 => "uint232",
            SolidityType::UINT240 => "uint240",
            SolidityType::UINT248 => "uint248",
            SolidityType::UINT256 => "uint256",
    }
}

/// The first Solidity type whose keyword the text at `j` starts with.
fn match_solidity(s: &Vec<char>, j: usize) -> (res: Option<SolidityType>)
    ensures
        res == solidity_match_from(s@, j as int, 0),
{
    let mut k: u8 = 0;
    while k < 67
        invariant
            k <= 67,
            solidity_match_from(s@, j as int, k as int) == solidity_match_from(s@, j as int, 0),
        decreases 67 - k,
    {
        let t = solidity_type_at(k);
        if has_word_at(s, j, keyword(t)) {
            return Some(t);
        }
        k = k + 1;
    }
    None
}

/// The names of the basic types.
pub open spec fn basic_type_name(t: Seq<char>) -> bool {
    t == "Address"@ || t == "Int"@ || t == "String"@ || t == "Void"@ || t == "Bool"@ || t == "Event"@
}

/// Whether a name is that of a basic type.
fn is_basic_type(basic_type: &String) -> (res: bool)
    ensures
        res == basic_type_name(basic_type@),
{
    *basic_type == String::from_str("Address") || *basic_type == String::from_str("Int") || *basic_type
        == String::from_str("String") || *basic_type == String::from_str("Void") || *basic_type
        == String::from_str("Bool") || *basic_type == String::from_str("Event")
}

/// The type that the identifier between two positions of a span names.
pub(crate) fn identifier_type_between(i: &Span, a: usize, b: usize) -> (res: Type)
    requires
        span_wf(*i),
        a <= b <= i.fragment@.len(),
    ensures
        is_identifier_type(res, *i, a as int, b as int),
{
    let tok = substring(&i.fragment, a, b);
    if is_basic_type(&tok) {
        if tok == String::from_str("Int") {
            Type::Int
        } else if tok == String::from_str("Bool") {
            Type::Bool
        } else {
            Type::Address
        }
    } else {
        Type::UserDefinedType(
            Identifier { token: tok, enclosing_type: None, line_info: line_info_of_position(i, a) },
        )
    }
}

/// The fixed-size array type at position `j` of a span, if one is there.
fn fixed_array_at(i: &Span, j: usize) -> (res: Option<(usize, Type)>)
    requires
        span_wf(*i),
        j <= i.fragment@.len(),
    ensures
        res is Some <==> fixed_array_end(i.fragment@, j as int) is Some,
        res matches Some((e, t)) ==> type_end(i.fragment@, j as int) == Some(e as int) && is_type_at(
            t,
            *i,
            j as int,
        ),
{
    let s = &i.fragment;
    proof {
        reveal_strlit("[");
        reveal_strlit("]");
    }
    let ie = identifier_end_from(s, j);
    if ie > j && has_word_at(s, ie, "[") {
        let (de, value) = digits_from(s, ie + 1);
        if de > ie + 1 && has_word_at(s, de, "]") {
            match value {
                Some(size) => {
                    let key = identifier_type_between(i, j, ie);
                    return Some(
                        (de + 1, Type::FixedSizedArrayType(FixedSizedArrayType { key_type: Box::new(key), size })),
                    );
                },
                None => {},
            }
        }
    }
    None
}

/// The array or dictionary type at position `j` of a span, if one is there
/// and no fixed-size array type is.
fn bracket_type_at(i: &Span, j: usize) -> (res: Option<(usize, Type)>)
    requires
        span_wf(*i),
        j <= i.fragment@.len(),
        fixed_array_end(i.fragment@, j as int) is None,
    ensures
        res is Some <==> (array_end(i.fragment@, j as int) is Some || dictionary_end(i.fragment@, j as int) is Some),
        res matches Some((e, t)) ==> type_end(i.fragment@, j as int) == Some(e as int) && is_type_at(
            t,
            *i,
            j as int,
        ),
    decreases i.fragment@.len() - j, 0nat,
{
    let s = &i.fragment;
    proof {
        reveal_strlit("[");
        reveal_strlit("]");
        reveal_strlit(":");
        lemma_type_end_after(s@, j as int + 1);
    }
    if j < s.len() && has_word_at(s, j, "[") {
        match type_at(i, j + 1) {
            Some((e, key)) => {
                if has_word_at(s, e, "]") {
                    return Some((e + 1, Type::ArrayType(ArrayType { key_type: Box::new(key) })));
                }
                if e < s.len() && has_word_at(s, e, ":") {
                    let w = whitespace_end_from(s, e + 1, false);
                    proof {
                        lemma_type_end_after(s@, w as int);
                    }
                    match type_at(i, w) {
                        Some((e2, value)) => {
                            if has_word_at(s, e2, "]") {
                                return Some(
                                    (
                                        e2 + 1,
                                        Type::DictionaryType(
                                            DictionaryType { key_type: Box::new(key), value_type: Box::new(value) },
                                        ),
                                    ),
                                );
                            }
                        },
                        None => {},
                    }
                }
            },
            None => {},
        }
    }
    None
}

/// The type named by a keyword, `Self`, a basic type, an `inout` type or a
/// Solidity type, at position `j` of a span, if one is there and no array or
/// dictionary type is.
fn keyword_type_at(i: &Span, j: usize) -> (res: Option<(usize, Type)>)
    requires
        span_wf(*i),
        j <= i.fragment@.len(),
        fixed_array_end(i.fragment@, j as int) is None,
        array_end(i.fragment@, j as int) is None,
        dictionary_end(i.fragment@, j as int) is None,
    ensures
        match res {
            Some((e, t)) => type_end(i.fragment@, j as int) == Some(e as int) && is_type_at(t, *i, j as int),
            None => type_end(i.fragment@, j as int) is None,
        },
    decreases i.fragment@.len() - j, 0nat,
{
    let s = &i.fragment;
    proof {
        lemma_type_end_after(s@, j as int);
        reveal_strlit("Self");
        reveal_strlit("Bool");
        reveal_strlit("Int");
        reveal_strlit("String");
        reveal_strlit("Address");
        reveal_strlit("inout");
    }
    if has_word_at(s, j, "Self") {
        return Some((j + 4, Type::SelfType));
    }
    if has_word_at(s, j, "Bool") {
        return Some((j + 4, Type::Bool));
    }
    if has_word_at(s, j, "Int") {
        return Some((j + 3, Type::Int));
    }
    if has_word_at(s, j, "String") {
        return Some((j + 6, Type::String));
    }
    if has_word_at(s, j, "Address") {
        return Some((j + 7, Type::Address));
    }
    if 5 <= s.len() - j && has_word_at(s, j, "inout") {
        let w = whitespace_end_from(s, j + 5, false);
        proof {
            lemma_type_end_after(s@, w as int);
        }
        match type_at(i, w) {
            Some((e, key)) => {
                return Some((e, Type::InoutType(InoutType { key_type: Box::new(key) })));
            },
            None => {},
        }
    }
    match match_solidity(s, j) {
        Some(t) => {
            proof {
                lemma_solidity_match(s@, j as int, 0);
            }
            let k = keyword(t).unicode_len();
            return Some((j + k, Type::Solidity(t)));
        },
        None => {},
    }
    let ie = identifier_end_from(s, j);
    if ie > j {
        return Some((ie, identifier_type_between(i, j, ie)));
    }
    None
}

/// The type at position `j` of a span and where it ends, if one is there.
pub(crate) fn type_at(i: &Span, j: usize) -> (res: Option<(usize, Type)>)
    requires
        span_wf(*i),
        j <= i.fragment@.len(),
    ensures
        match res {
            Some((e, t)) => type_end(i.fragment@, j as int) == Some(e as int) && is_type_at(t, *i, j as int),
            None => type_end(i.fragment@, j as int) is None,
        },
    decreases i.fragment@.len() - j, 1nat,
{
    match fixed_array_at(i, j) {
        Some(r) => {
            return Some(r);
        },
        None => {},
    }
    match bracket_type_at(i, j) {
        Some(r) => {
            return Some(r);
        },
        None => {},
    }
    keyword_type_at(i, j)
}

/// `res` is the outcome of parsing a type at the start of `i`.
pub open spec fn type_parsed(res: ParseResult<Type>, i: Span) -> bool {
    match type_end(i.fragment@, 0) {
        Some(e) => {
            &&& res matches Ok((rest, t))
            &&& is_advance(i, rest, e)
            &&& span_wf(rest)
            &&& is_type_at(t, i, 0)
        },
        None => res == Err::<(Span, Type), ParseError>(ParseError { offset: i.offset, failure: false }),
    }
}

/// Parses a type.
pub fn parse_type(i: Span) -> (res: ParseResult<Type>)
    requires
        span_wf(i),
    ensures
        type_parsed(res, i),
{
    proof {
        lemma_type_end_after(i.fragment@, 0);
    }
    match type_at(&i, 0) {
        Some((e, t)) => Ok((i.advance(e), t)),
        None => Err(ParseError { offset: i.offset, failure: false }),
    }
}

/// `res` is the outcome of parsing an identifier as a type at the start of `i`.
pub open spec fn identifier_type_parsed(res: ParseResult<Type>, i: Span) -> bool {
    let e = identifier_end(i.fragment@, 0);
    if e > 0 {
        &&& res matches Ok((rest, t))
        &&& is_advance(i, rest, e)
        &&& span_wf(rest)
        &&& is_identifier_type(t, i, 0, e)
    } else {
        res == Err::<(Span, Type), ParseError>(ParseError { offset: i.offset, failure: false })
    }
}

/// Parses an identifier as a type: a basic type where it names one, else a
/// user-defined type.
pub fn parse_identifier_type(i: Span) -> (res: ParseResult<Type>)
    requires
        span_wf(i),
    ensures
        identifier_type_parsed(res, i),
{
    let e = identifier_end_from(&i.fragment, 0);
    if e == 0 {
        return Err(ParseError { offset: i.offset, failure: false });
    }
    let t = identifier_type_between(&i, 0, e);
    Ok((i.advance(e), t))
}

/// `res` is the outcome of parsing a type annotation at the start of `i`:
/// a colon, whitespace, and a type.
pub open spec fn type_annotation_parsed(res: ParseResult<TypeAnnotation>, i: Span) -> bool {
    let s = i.fragment@;
    let w = whitespace_end(s, 1, false);
    if s.len() > 0 && s[0] == ':' && type_end(s, w) is Some {
        &&& res matches Ok((rest, a))
        &&& is_advance(i, rest, type_end(s, w)->0)
        &&& span_wf(rest)
        &&& a.colon@ == ":"@
        &&& is_type_at(a.type_assigned, i, w)
    } else {
        res matches Err(e) && !e.failure
    }
}

/// Parses a type annotation: a colon, whitespace and a type.
pub fn parse_type_annotation(i: Span) -> (res: ParseResult<TypeAnnotation>)
    requires
        span_wf(i),
    ensures
        type_annotation_parsed(res, i),
{
    let s = &i.fragment;
    if s.len() == 0 || s[0] != ':' {
        return Err(ParseError { offset: i.offset, failure: false });
    }
    let w = whitespace_end_from(s, 1, false);
    proof {
        super::utils::law_whitespace_idempotent(s@, 1, false);
        lemma_type_end_after(s@, w as int);
    }
    match type_at(&i, w) {
        Some((e, t)) => Ok((i.advance(e), TypeAnnotation { type_assigned: t, colon: String::from_str(":") })),
        None => Err(ParseError { offset: i.offset + w, failure: false }),
    }
}

} // verus!
