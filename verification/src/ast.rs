//! The abstract syntax tree of Flint programs, as far as the code generators
//! read it: identifiers, types, literals, expressions and statements.

use vstd::prelude::*;

verus! {

/// Where a piece of source text starts. Positions are bookkeeping for
/// diagnostics: any two positions compare equal, so that syntax trees compare
/// by their content alone.
#[derive(Debug, Clone, Default)]
pub struct LineInfo {
    pub line: u32,
    pub offset: usize,
}

impl PartialEq for LineInfo {
    fn eq(&self, other: &Self) -> (res: bool) {
        true
    }
}

impl vstd::std_specs::cmp::PartialEqSpecImpl for LineInfo {
    open spec fn obeys_eq_spec() -> bool {
        true
    }

    open spec fn eq_spec(&self, other: &Self) -> bool {
        true
    }
}

/// A name, possibly qualified by the type that encloses it.
#[derive(Debug, Clone, PartialEq)]
pub struct Identifier {
    pub token: String,
    pub enclosing_type: Option<String>,
    pub line_info: LineInfo,
}

/// The name prefixed with an underscore, as identifiers appear in generated code.
pub open spec fn mangled(token: Seq<char>) -> Seq<char> {
    "_"@ + token
}

/// Mangling keeps names apart: different names have different mangled forms.
pub proof fn law_mangle_injective(a: Seq<char>, b: Seq<char>)
    requires
        mangled(a) == mangled(b),
    ensures
        a == b,
{
    reveal_strlit("_");
    assert(a =~= mangled(a).skip(1));
    assert(b =~= mangled(b).skip(1));
}

/// Prefixes a name with an underscore.
pub fn mangle(token: &str) -> (res: String)
    ensures
        res@ == mangled(token@),
{
    let mut res = String::from_str("_");
    res.append(token);
    res
}

/// The binary operators of the language.
#[derive(Debug, Clone, PartialEq, Eq, Structural)]
pub enum BinOp {
    Plus,
    OverflowingPlus,
    Minus,
    OverflowingMinus,
    Times,
    OverflowingTimes,
    Power,
    Divide,
    Percent,
    Dot,
    Equal,
    PlusEqual,
    MinusEqual,
    TimesEqual,
    DivideEqual,
    DoubleEqual,
    NotEqual,
    LessThan,
    LessThanOrEqual,
    GreaterThan,
    GreaterThanOrEqual,
    Or,
    And,
}

/// Whether the comparison operator `op` holds between two values, as the
/// language defines its comparisons (`None` for an operator that is no
/// comparison).
pub open spec fn comparison_holds(op: BinOp, x: int, y: int) -> Option<bool> {
    match op {
        BinOp::DoubleEqual => Some(x == y),
        BinOp::NotEqual => Some(x != y),
        BinOp::LessThan => Some(x < y),
        BinOp::LessThanOrEqual => Some(x <= y),
        BinOp::GreaterThan => Some(x > y),
        BinOp::GreaterThanOrEqual => Some(x >= y),
        _ => None,
    }
}

/// The value of an arithmetic operator on two values, before any bound on
/// the width of a word (`None` for an operator that is no arithmetic).
pub open spec fn arithmetic_value(op: BinOp, x: int, y: int) -> Option<int> {
    match op {
        BinOp::Plus | BinOp::OverflowingPlus => Some(x + y),
        BinOp::Minus | BinOp::OverflowingMinus => Some(x - y),
        BinOp::Times | BinOp::OverflowingTimes => Some(x * y),
        BinOp::Divide => Some(x / y),
        BinOp::Percent => Some(x % y),
        _ => None,
    }
}

/// The value of a logical operator on two truth values (`None` for an
/// operator that is no logical connective).
pub open spec fn logic_value(op: BinOp, a: bool, b: bool) -> Option<bool> {
    match op {
        BinOp::And => Some(a && b),
        BinOp::Or => Some(a || b),
        _ => None,
    }
}

/// The Solidity types that Flint code may name: addresses, strings, booleans
/// and the signed and unsigned integers of every width from 8 to 256 bits.
#[derive(Debug, Clone, Copy, PartialEq, Eq, Structural)]
pub enum SolidityType {
    ADDRESS,
    STRING,
    BOOL,
    INT8,
    INT16,
    INT24,
    INT32,
    INT40,
    INT48,
    INT56,
    INT64,
    INT72,
    INT80,
    INT88,
    INT96,
    INT104,
    INT112,
    INT120,
    INT128,
    INT136,
    INT144,
    INT152,
    INT160,
    INT168,
    INT176,
    INT184,
    INT192,
    INT200,
    INT208,
    INT216,
    INT224,
    INT232,
    INT240,
    INT248,
    INT256,
    UINT8,
    UINT16,
    UINT24,
    UINT32,
    UINT40,
    UINT48,
    UINT56,
    UINT64,
    UINT72,
    UINT80,
    UINT88,
    UINT96,
    UINT104,
    UINT112,
    UINT120,
    UINT128,
    UINT136,
    UINT144,
    UINT152,
    UINT160,
    UINT168,
    UINT176,
    UINT184,
    UINT192,
    UINT200,
    UINT208,
    UINT216,
    UINT224,
    UINT232,
    UINT240,
    UINT248,
    UINT256,
}

#[derive(Debug, PartialEq)]
pub struct InoutType {
    pub key_type: Box<Type>,
}

#[derive(Debug, PartialEq)]
pub struct ArrayType {
    pub key_type: Box<Type>,
}

#[derive(Debug, PartialEq)]
pub struct RangeType {
    pub key_type: Box<Type>,
}

#[derive(Debug, PartialEq)]
pub struct FixedSizedArrayType {
    pub key_type: Box<Type>,
    pub size: u64,
}

#[derive(Debug, PartialEq)]
pub struct DictionaryType {
    pub key_type: Box<Type>,
    pub value_type: Box<Type>,
}

/// The types of the language.
#[derive(Debug, PartialEq)]
pub enum Type {
    InoutType(InoutType),
    ArrayType(ArrayType),
    RangeType(RangeType),
    FixedSizedArrayType(FixedSizedArrayType),
    DictionaryType(DictionaryType),
    UserDefinedType(Identifier),
    Bool,
    Int,
    String,
    Address,
    Error,
    SelfType,
    Solidity(SolidityType),
    TypeState,
}

/// The literals of the language that code can be generated for.
#[derive(Debug, PartialEq)]
pub enum Literal {
    BooleanLiteral(bool),
    AddressLiteral(String),
    StringLiteral(String),
    U8Literal(u8),
    IntLiteral(u64),
}

#[derive(Debug, PartialEq)]
pub struct BinaryExpression {
    pub lhs_expression: Box<Expression>,
    pub rhs_expression: Box<Expression>,
    pub op: BinOp,
    pub line_info: LineInfo,
}

#[derive(Debug, PartialEq)]
pub struct InoutExpression {
    pub ampersand_token: String,
    pub expression: Box<Expression>,
}

#[derive(Debug, PartialEq)]
pub struct FunctionArgument {
    pub identifier: Option<Identifier>,
    pub expression: Expression,
}

#[derive(Debug, PartialEq)]
pub struct FunctionCall {
    pub identifier: Identifier,
    pub arguments: Vec<FunctionArgument>,
    pub mangled_identifier: Option<Identifier>,
}

#[derive(Debug, PartialEq)]
pub struct ExternalCall {
    pub arguments: Vec<FunctionArgument>,
    pub function_call: BinaryExpression,
    pub external_trait_name: Option<String>,
}

#[derive(Debug, PartialEq)]
pub struct VariableDeclaration {
    pub declaration_token: Option<String>,
    pub identifier: Identifier,
    pub variable_type: Type,
    pub expression: Option<Box<Expression>>,
}

#[derive(Debug, PartialEq)]
pub struct BracketedExpression {
    pub expression: Box<Expression>,
}

#[derive(Debug, PartialEq)]
pub struct AttemptExpression {
    pub kind: String,
    pub function_call: FunctionCall,
}

#[derive(Debug, PartialEq)]
pub struct SubscriptExpression {
    pub base_expression: Identifier,
    pub index_expression: Box<Expression>,
}

#[derive(Debug, PartialEq)]
pub struct RangeExpression {
    pub start_expression: Box<Expression>,
    pub end_expression: Box<Expression>,
    pub op: String,
}

#[derive(Debug, PartialEq)]
pub struct CastExpression {
    pub expression: Box<Expression>,
    pub cast_type: Type,
}

/// The expressions of the language.
#[derive(Debug, PartialEq)]
pub enum Expression {
    Identifier(Identifier),
    BinaryExpression(BinaryExpression),
    InoutExpression(InoutExpression),
    ExternalCall(ExternalCall),
    FunctionCall(FunctionCall),
    VariableDeclaration(VariableDeclaration),
    BracketedExpression(BracketedExpression),
    AttemptExpression(AttemptExpression),
    Literal(Literal),
    ArrayLiteral(Vec<Expression>),
    DictionaryLiteral(Vec<(Expression, Expression)>),
    SelfExpression,
    SubscriptExpression(SubscriptExpression),
    RangeExpression(RangeExpression),
    RawAssembly(String, Option<Type>),
    CastExpression(CastExpression),
    Sequence(Vec<Expression>),
}

#[derive(Debug, PartialEq)]
pub struct ReturnStatement {
    pub expression: Option<Expression>,
    pub cleanup: Vec<Statement>,
    pub line_info: LineInfo,
}

#[derive(Debug, PartialEq)]
pub struct BecomeStatement {
    pub expression: Expression,
    pub line_info: LineInfo,
}

#[derive(Debug, PartialEq)]
pub struct EmitStatement {
    pub function_call: FunctionCall,
}

#[derive(Debug, PartialEq)]
pub struct ForStatement {
    pub variable: VariableDeclaration,
    pub iterable: Expression,
    pub body: Vec<Statement>,
}

#[derive(Debug, PartialEq)]
pub struct IfStatement {
    pub condition: Expression,
    pub body: Vec<Statement>,
    pub else_body: Vec<Statement>,
}

#[derive(Debug, PartialEq)]
pub struct DoCatchStatement {
    pub error: Expression,
    pub do_body: Vec<Statement>,
    pub catch_body: Vec<Statement>,
}

#[derive(Debug, PartialEq)]
pub struct Assertion {
    pub expression: Expression,
    pub line_info: LineInfo,
}

/// The statements of the language.
#[derive(Debug, PartialEq)]
pub enum Statement {
    ReturnStatement(ReturnStatement),
    Expression(Expression),
    BecomeStatement(BecomeStatement),
    EmitStatement(EmitStatement),
    ForStatement(ForStatement),
    IfStatement(IfStatement),
    DoCatchStatement(DoCatchStatement),
    Assertion(Assertion),
}

/// A function parameter.
#[derive(Debug, PartialEq)]
pub struct Parameter {
    pub identifier: Identifier,
    pub type_assignment: Type,
    pub expression: Option<Expression>,
    pub line_info: LineInfo,
}

impl Parameter {
    /// Whether the parameter is passed by reference.
    pub fn is_inout(&self) -> (res: bool)
        ensures
            res == (self.type_assignment is InoutType),
    {
        match &self.type_assignment {
            Type::InoutType(_) => true,
            _ => false,
        }
    }
}

// ---------------------------------------------------------------------------
// Copies. `Clone` cannot be derived for the recursive types here, so the
// types that hold no vector get a `deep_clone` proved to return an equal value.
// ---------------------------------------------------------------------------

/// Copies an optional string.
pub fn clone_option_string(s: &Option<String>) -> (res: Option<String>)
    ensures
        res == *s,
{
    match s {
        Some(t) => Some(t.clone()),
        None => None,
    }
}

impl LineInfo {
    /// An equal copy.
    pub fn deep_clone(&self) -> (res: Self)
        ensures
            res == *self,
    {
        LineInfo { line: self.line, offset: self.offset }
    }
}

impl Identifier {
    /// An equal copy.
    pub fn deep_clone(&self) -> (res: Self)
        ensures
            res == *self,
    {
        Identifier {
            token: self.token.clone(),
            enclosing_type: clone_option_string(&self.enclosing_type),
            line_info: self.line_info.deep_clone(),
        }
    }
}

impl BinOp {
    /// An equal copy.
    pub fn deep_clone(&self) -> (res: Self)
        ensures
            res == *self,
    {
        match self {
            BinOp::Plus => BinOp::Plus,
            BinOp::OverflowingPlus => BinOp::OverflowingPlus,
            BinOp::Minus => BinOp::Minus,
            BinOp::OverflowingMinus => BinOp::OverflowingMinus,
            BinOp::Times => BinOp::Times,
            BinOp::OverflowingTimes => BinOp::OverflowingTimes,
            BinOp::Power => BinOp::Power,
            BinOp::Divide => BinOp::Divide,
            BinOp::Percent => BinOp::Percent,
            BinOp::Dot => BinOp::Dot,
            BinOp::Equal => BinOp::Equal,
            BinOp::PlusEqual => BinOp::PlusEqual,
            BinOp::MinusEqual => BinOp::MinusEqual,
            BinOp::TimesEqual => BinOp::TimesEqual,
            BinOp::DivideEqual => BinOp::DivideEqual,
            BinOp::DoubleEqual => BinOp::DoubleEqual,
            BinOp::NotEqual => BinOp::NotEqual,
            BinOp::LessThan => BinOp::LessThan,
            BinOp::LessThanOrEqual => BinOp::LessThanOrEqual,
            BinOp::GreaterThan => BinOp::GreaterThan,
            BinOp::GreaterThanOrEqual => BinOp::GreaterThanOrEqual,
            BinOp::Or => BinOp::Or,
            BinOp::And => BinOp::And,
        }
    }
}

impl SolidityType {
    /// An equal copy.
    pub fn deep_clone(&self) -> (res: Self)
        ensures
            res == *self,
    {
        *self
    }
}

impl Type {
    /// An equal copy.
    pub fn deep_clone(&self) -> (res: Self)
        ensures
            res == *self,
        decreases self,
    {
        match self {
            Type::InoutType(t) => Type::InoutType(InoutType { key_type: Box::new(t.key_type.deep_clone()) }),
            Type::ArrayType(t) => Type::ArrayType(ArrayType { key_type: Box::new(t.key_type.deep_clone()) }),
            Type::RangeType(t) => Type::RangeType(RangeType { key_type: Box::new(t.key_type.deep_clone()) }),
            Type::FixedSizedArrayType(t) => Type::FixedSizedArrayType(
                FixedSizedArrayType { key_type: Box::new(t.key_type.deep_clone()), size: t.size },
            ),
            Type::DictionaryType(t) => Type::DictionaryType(
                DictionaryType {
                    key_type: Box::new(t.key_type.deep_clone()),
                    value_type: Box::new(t.value_type.deep_clone()),
                },
            ),
            Type::UserDefinedType(i) => Type::UserDefinedType(i.deep_clone()),
            Type::Bool => Type::Bool,
            Type::Int => Type::Int,
            Type::String => Type::String,
            Type::Address => Type::Address,
            Type::Error => Type::Error,
            Type::SelfType => Type::SelfType,
            Type::Solidity(t) => Type::Solidity(t.deep_clone()),
            Type::TypeState => Type::TypeState,
        }
    }
}

impl Literal {
    /// An equal copy.
    pub fn deep_clone(&self) -> (res: Self)
        ensures
            res == *self,
    {
        match self {
            Literal::BooleanLiteral(b) => Literal::BooleanLiteral(*b),
            Literal::AddressLiteral(a) => Literal::AddressLiteral(a.clone()),
            Literal::StringLiteral(a) => Literal::StringLiteral(a.clone()),
            Literal::U8Literal(u) => Literal::U8Literal(*u),
            Literal::IntLiteral(i) => Literal::IntLiteral(*i),
        }
    }
}

/// Copies an optional type.
pub fn clone_option_type(t: &Option<Type>) -> (res: Option<Type>)
    ensures
        res == *t,
{
    match t {
        Some(x) => Some(x.deep_clone()),
        None => None,
    }
}

/// The variables visible in a function body: its parameters and the local
/// variables declared so far.
#[derive(Debug, PartialEq)]
pub struct ScopeContext {
    pub parameters: Vec<Parameter>,
    pub local_variables: Vec<VariableDeclaration>,
    pub counter: u64,
}

/// The position recorded for an expression: that of its identifier or binary
/// operator, the start of the file for other expressions.
pub open spec fn line_info_of(e: Expression) -> LineInfo {
    match e {
        Expression::Identifier(i) => i.line_info,
        Expression::BinaryExpression(b) => b.line_info,
        _ => LineInfo { line: 0, offset: 0 },
    }
}

impl Expression {
    /// The position recorded for the expression.
    pub fn get_line_info(&self) -> (res: LineInfo)
        ensures
            res == line_info_of(*self),
    {
        match self {
            Expression::Identifier(i) => i.line_info.deep_clone(),
            Expression::BinaryExpression(b) => b.line_info.deep_clone(),
            _ => LineInfo { line: 0, offset: 0 },
        }
    }
}

/// An attribute written before a declaration, such as `@payable`.
#[derive(Debug, PartialEq)]
pub struct Attribute {
    pub at_token: String,
    pub identifier_token: String,
}

/// The visibility modifiers of functions.
#[derive(Debug, PartialEq)]
pub enum Modifier {
    Public,
    Visible,
}

/// The signature of a function: its attributes, modifiers, name, parameters,
/// result type and the properties it may change.
#[derive(Debug, PartialEq)]
pub struct FunctionSignatureDeclaration {
    pub func_token: String,
    pub attributes: Vec<Attribute>,
    pub modifiers: Vec<Modifier>,
    pub mutates: Vec<Identifier>,
    pub identifier: Identifier,
    pub parameters: Vec<Parameter>,
    pub result_type: Option<Type>,
    pub payable: bool,
}

/// A function with its body.
#[derive(Debug, PartialEq)]
pub struct FunctionDeclaration {
    pub head: FunctionSignatureDeclaration,
    pub body: Vec<Statement>,
    pub scope_context: Option<ScopeContext>,
    pub tags: Vec<String>,
    pub mangled_identifier: Option<String>,
    pub is_external: bool,
}

impl FunctionDeclaration {
    /// Whether the function is declared `public`.
    pub fn is_public(&self) -> (res: bool)
        ensures
            res == exists|i: int|
                0 <= i < self.head.modifiers@.len() && #[trigger] self.head.modifiers@[i] is Public,
    {
        let mut i: usize = 0;
        while i < self.head.modifiers.len()
            invariant
                i <= self.head.modifiers@.len(),
                forall|j: int| 0 <= j < i ==> !(#[trigger] self.head.modifiers@[j] is Public),
            decreases self.head.modifiers@.len() - i,
        {
            if let Modifier::Public = self.head.modifiers[i] {
                return true;
            }
            i = i + 1;
        }
        false
    }

    /// Whether the function declares properties that it changes.
    pub fn is_mutating(&self) -> (res: bool)
        ensures
            res == (self.head.mutates@.len() > 0),
    {
        self.head.mutates.len() > 0
    }

    /// Whether the function accepts payment.
    pub fn is_payable(&self) -> (res: bool)
        ensures
            res == self.head.payable,
    {
        self.head.payable
    }

    /// The declared result type.
    pub fn get_result_type(&self) -> (res: Option<Type>)
        ensures
            res == self.head.result_type,
    {
        clone_option_type(&self.head.result_type)
    }
}

/// The type given to a declaration after a colon.
#[derive(Debug, PartialEq)]
pub struct TypeAnnotation {
    pub type_assigned: Type,
    pub colon: String,
}

/// A trait that a contract or struct declares it conforms to.
#[derive(Debug, PartialEq)]
pub struct Conformance {
    pub identifier: Identifier,
}

/// A state that a contract can be in.
#[derive(Debug, PartialEq)]
pub struct TypeState {
    pub identifier: Identifier,
}

/// The signature of an initialiser or fallback function: its attributes,
/// modifiers, the properties it may change, its parameters, the word that
/// introduces it, and the type it belongs to.
#[derive(Debug, PartialEq)]
pub struct SpecialSignatureDeclaration {
    pub attributes: Vec<Attribute>,
    pub modifiers: Vec<Modifier>,
    pub mutates: Vec<Identifier>,
    pub parameters: Vec<Parameter>,
    pub special_token: String,
    pub enclosing_type: Option<String>,
}

/// An initialiser or fallback function with its body.
#[derive(Debug, PartialEq)]
pub struct SpecialDeclaration {
    pub head: SpecialSignatureDeclaration,
    pub body: Vec<Statement>,
    pub scope_context: ScopeContext,
    pub generated: bool,
}

/// A block of functions of a contract, with the callers and the states of
/// the contract in which they may be called: `Contract @(states) ::
/// caller <- (protections) { ... }`.
#[derive(Debug, PartialEq)]
pub struct ContractBehaviourDeclaration {
    pub identifier: Identifier,
    pub type_states: Vec<TypeState>,
    pub caller_binding: Option<Identifier>,
    pub caller_protections: Vec<CallerProtection>,
}

/// A caller protection: the name of a property holding the callers that may
/// call the functions it guards, or `any`.
#[derive(Debug, PartialEq)]
pub struct CallerProtection {
    pub identifier: Identifier,
}

impl CallerProtection {
    /// Whether the protection lets any caller through.
    pub fn is_any(&self) -> (res: bool)
        ensures
            res == (self.identifier.token@ == "any"@),
    {
        self.identifier.token == String::from_str("any")
    }

    /// The name of the protection.
    pub fn name(&self) -> (res: String)
        ensures
            res@ == self.identifier.token@,
    {
        self.identifier.token.clone()
    }
}

} // verus!
