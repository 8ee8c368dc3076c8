//! The MoveIR intermediate representation and its textual form.
//!
//! Every node renders to MoveIR source text; the text of a node is stated by
//! a spec function (`type_text`, `expression_text`, `statement_text`, ...) and
//! the `to_string` method of the node is proved to produce exactly that text.

use vstd::prelude::*;
use crate::ast::{Expression, Identifier};
use crate::text::{decimal, write_decimal};

verus! {

/// A block of statements.
#[derive(Debug)]
pub struct MoveIRBlock {
    pub statements: Vec<MoveIRStatement>,
}

/// A function definition: its name and type, its arguments, its results and body.
#[derive(Debug)]
pub struct MoveIRFunctionDefinition {
    pub identifier: MoveIRIdentifier,
    pub arguments: Vec<MoveIRIdentifier>,
    pub returns: Vec<MoveIRIdentifier>,
    pub body: MoveIRBlock,
}

/// A typed name.
#[derive(Debug)]
pub struct MoveIRIdentifier {
    pub identifier: String,
    pub move_type: MoveIRType,
}

/// The expressions of MoveIR.
#[derive(Debug, PartialEq)]
pub enum MoveIRExpression {
    FunctionCall(MoveIRFunctionCall),
    StructConstructor(MoveIRStructConstructor),
    Identifier(String),
    Transfer(MoveIRTransfer),
    Literal(MoveIRLiteral),
    Catchable,
    Inline(String),
    Assignment(MoveIRAssignment),
    VariableDeclaration(MoveIRVariableDeclaration),
    FieldDeclaration(MoveIRFieldDeclaration),
    Operation(MoveIROperation),
    Vector(MoveIRVector),
    Noop,
}

/// An empty vector of the given element type.
#[derive(Debug, PartialEq)]
pub struct MoveIRVector {
    pub elements: Vec<MoveIRExpression>,
    pub vec_type: Option<MoveIRType>,
}

/// A struct value built from named fields.
#[derive(Debug, PartialEq)]
pub struct MoveIRStructConstructor {
    pub identifier: Identifier,
    pub fields: Vec<(String, MoveIRExpression)>,
}

/// A call of a named function.
#[derive(Debug, PartialEq)]
pub struct MoveIRFunctionCall {
    pub identifier: String,
    pub arguments: Vec<MoveIRExpression>,
}

/// The literals of MoveIR.
#[derive(Debug, PartialEq)]
pub enum MoveIRLiteral {
    U8(u8),
    U64(u64),
    String(String),
    Bool(bool),
    Decimal(u64, u64),
    Hex(String),
}

/// Moving or copying a value.
#[derive(Debug, PartialEq)]
pub enum MoveIRTransfer {
    Move(Box<MoveIRExpression>),
    Copy(Box<MoveIRExpression>),
}

/// An assignment to a name.
#[derive(Debug, PartialEq)]
pub struct MoveIRAssignment {
    pub identifier: String,
    pub expression: Box<MoveIRExpression>,
}

/// A field of a struct or resource declaration.
#[derive(Debug, PartialEq)]
pub struct MoveIRFieldDeclaration {
    pub identifier: String,
    pub declaration_type: MoveIRType,
    pub expression: Option<Expression>,
}

/// A local variable declaration.
#[derive(Debug, PartialEq)]
pub struct MoveIRVariableDeclaration {
    pub identifier: String,
    pub declaration_type: MoveIRType,
}

/// A conditional with an optional else branch.
#[derive(Debug)]
pub struct MoveIRIf {
    pub expression: MoveIRExpression,
    pub block: MoveIRBlock,
    pub else_block: Option<MoveIRBlock>,
}

/// An import of a module published at an address.
#[derive(Debug)]
pub struct MoveIRModuleImport {
    pub name: String,
    pub address: String,
}

/// The statements of MoveIR.
#[derive(Debug)]
pub enum MoveIRStatement {
    Block(MoveIRBlock),
    FunctionDefinition(MoveIRFunctionDefinition),
    If(MoveIRIf),
    Expression(MoveIRExpression),
    Switch,
    For,
    Break,
    Continue,
    Noop,
    Inline(String),
    Return(MoveIRExpression),
    Import(MoveIRModuleImport),
    Assert(MoveIRExpression, u32),
}

/// The types of MoveIR.
#[derive(Debug, PartialEq)]
pub enum MoveIRType {
    U8,
    U64,
    Address,
    Bool,
    ByteArray,
    Signer,
    Resource(String),
    StructType(String),
    Reference(Box<MoveIRType>),
    MutableReference(Box<MoveIRType>),
    Vector(Box<MoveIRType>),
}

/// The operations of MoveIR.
#[derive(Debug, PartialEq)]
pub enum MoveIROperation {
    Add(Box<MoveIRExpression>, Box<MoveIRExpression>),
    Minus(Box<MoveIRExpression>, Box<MoveIRExpression>),
    Times(Box<MoveIRExpression>, Box<MoveIRExpression>),
    Divide(Box<MoveIRExpression>, Box<MoveIRExpression>),
    Modulo(Box<MoveIRExpression>, Box<MoveIRExpression>),
    GreaterThan(Box<MoveIRExpression>, Box<MoveIRExpression>),
    GreaterThanEqual(Box<MoveIRExpression>, Box<MoveIRExpression>),
    LessThan(Box<MoveIRExpression>, Box<MoveIRExpression>),
    LessThanEqual(Box<MoveIRExpression>, Box<MoveIRExpression>),
    Equal(Box<MoveIRExpression>, Box<MoveIRExpression>),
    NotEqual(Box<MoveIRExpression>, Box<MoveIRExpression>),
    And(Box<MoveIRExpression>, Box<MoveIRExpression>),
    Or(Box<MoveIRExpression>, Box<MoveIRExpression>),
    Not(Box<MoveIRExpression>),
    Power(Box<MoveIRExpression>, Box<MoveIRExpression>),
    Access(Box<MoveIRExpression>, String),
    Dereference(Box<MoveIRExpression>),
    MutableReference(Box<MoveIRExpression>),
    Reference(Box<MoveIRExpression>),
}

// ---------------------------------------------------------------------------
// The textual form
// ---------------------------------------------------------------------------

/// The text of a type.
pub open spec fn type_text(t: MoveIRType) -> Seq<char>
    decreases t,
{
    match t {
        MoveIRType::U8 => "u8"@,
        MoveIRType::U64 => "u64"@,
        MoveIRType::Address => "address"@,
        MoveIRType::Bool => "bool"@,
        MoveIRType::Signer => "signer"@,
        MoveIRType::ByteArray => "vector<u8>"@,
        MoveIRType::Resource(s) => s@,
        MoveIRType::StructType(s) => s@,
        MoveIRType::Reference(b) => "&"@ + type_text(*b),
        MoveIRType::MutableReference(b) => "&mut "@ + type_text(*b),
        MoveIRType::Vector(b) => "vector<"@ + type_text(*b) + ">"@,
    }
}

/// The text of a literal.
pub open spec fn literal_text(l: MoveIRLiteral) -> Seq<char> {
    match l {
        MoveIRLiteral::U8(n) => decimal(n as nat) + "u8"@,
        MoveIRLiteral::U64(n) => decimal(n as nat),
        MoveIRLiteral::String(s) => "\""@ + s@ + "\""@,
        MoveIRLiteral::Bool(b) => if b { "true"@ } else { "false"@ },
        MoveIRLiteral::Decimal(i, f) => decimal(i as nat) + "."@ + decimal(f as nat),
        MoveIRLiteral::Hex(h) => h@,
    }
}

/// The text of a binary operation on two operand texts.
pub open spec fn binary_text(l: Seq<char>, op: Seq<char>, r: Seq<char>) -> Seq<char> {
    "("@ + l + op + r + ")"@
}

/// The text of an expression.
pub open spec fn expression_text(e: MoveIRExpression) -> Seq<char>
    decreases e, 0nat,
{
    match e {
        MoveIRExpression::FunctionCall(fc) => fc.identifier@ + "("@ + expressions_text(
            fc.arguments@,
            ", "@,
        ) + ")"@,
        MoveIRExpression::StructConstructor(s) => s.identifier.token@ + " { \n "@ + fields_text(
            s.fields@,
        ) + " }"@,
        MoveIRExpression::Identifier(s) => s@,
        MoveIRExpression::Transfer(MoveIRTransfer::Move(x)) => "move("@ + expression_text(*x)
            + ")"@,
        MoveIRExpression::Transfer(MoveIRTransfer::Copy(x)) => "copy("@ + expression_text(*x)
            + ")"@,
        MoveIRExpression::Literal(l) => literal_text(l),
        MoveIRExpression::Catchable => Seq::empty(),
        MoveIRExpression::Inline(s) => s@,
        MoveIRExpression::Assignment(a) => a.identifier@ + " = "@ + expression_text(
            *a.expression,
        ),
        MoveIRExpression::VariableDeclaration(v) => "let "@ + v.identifier@ + ": "@ + type_text(
            v.declaration_type,
        ),
        MoveIRExpression::FieldDeclaration(fd) => fd.identifier@ + ": "@ + type_text(
            fd.declaration_type,
        ),
        MoveIRExpression::Operation(op) => match op {
            MoveIROperation::Add(l, r) => binary_text(
                expression_text(*l),
                " + "@,
                expression_text(*r),
            ),
            MoveIROperation::Minus(l, r) => binary_text(
                expression_text(*l),
                " - "@,
                expression_text(*r),
            ),
            MoveIROperation::Times(l, r) => binary_text(
                expression_text(*l),
                " * "@,
                expression_text(*r),
            ),
            MoveIROperation::Divide(l, r) => binary_text(
                expression_text(*l),
                " / "@,
                expression_text(*r),
            ),
            MoveIROperation::Modulo(l, r) => binary_text(
                expression_text(*l),
                " % "@,
                expression_text(*r),
            ),
            MoveIROperation::GreaterThan(l, r) => binary_text(
                expression_text(*l),
                " > "@,
                expression_text(*r),
            ),
            MoveIROperation::GreaterThanEqual(l, r) => binary_text(
                expression_text(*l),
                " >= "@,
                expression_text(*r),
            ),
            MoveIROperation::LessThan(l, r) => binary_text(
                expression_text(*l),
                " < "@,
                expression_text(*r),
            ),
            MoveIROperation::LessThanEqual(l, r) => binary_text(
                expression_text(*l),
                " <= "@,
                expression_text(*r),
            ),
            MoveIROperation::Equal(l, r) => binary_text(
                expression_text(*l),
                " == "@,
                expression_text(*r),
            ),
            MoveIROperation::NotEqual(l, r) => binary_text(
                expression_text(*l),
                " != "@,
                expression_text(*r),
            ),
            MoveIROperation::And(l, r) => binary_text(
                expression_text(*l),
                " && "@,
                expression_text(*r),
            ),
            MoveIROperation::Or(l, r) => binary_text(
                expression_text(*l),
                " || "@,
                expression_text(*r),
            ),
            MoveIROperation::Not(x) => "!"@ + expression_text(*x),
            MoveIROperation::Power(l, r) => binary_text(
                expression_text(*l),
                " ** "@,
                expression_text(*r),
            ),
            MoveIROperation::Access(l, f) => expression_text(*l) + "."@ + f@,
            MoveIROperation::Dereference(x) => "*"@ + expression_text(*x),
            MoveIROperation::MutableReference(x) => "&mut "@ + expression_text(*x),
            MoveIROperation::Reference(x) => "&"@ + expression_text(*x),
        },
        MoveIRExpression::Vector(v) => match v.vec_type {
            Some(t) => "Vector.empty<"@ + type_text(t) + ">()"@,
            None => "Vector.empty<>()"@,
        },
        MoveIRExpression::Noop => Seq::empty(),
    }
}

/// The texts of a sequence of expressions, `sep` between neighbours.
pub open spec fn expressions_text(s: Seq<MoveIRExpression>, sep: Seq<char>) -> Seq<char>
    decreases s, 1nat,
{
    if s.len() == 0 {
        Seq::empty()
    } else if s.len() == 1 {
        expression_text(s[0])
    } else {
        expressions_text(s.subrange(0, s.len() - 1), sep) + sep + expression_text(
            s[s.len() - 1],
        )
    }
}

/// The texts of the fields of a struct value, one per line.
pub open spec fn fields_text(s: Seq<(String, MoveIRExpression)>) -> Seq<char>
    decreases s, 1nat,
{
    if s.len() == 0 {
        Seq::empty()
    } else if s.len() == 1 {
        s[0].0@ + ": "@ + expression_text(s[0].1)
    } else {
        fields_text(s.subrange(0, s.len() - 1)) + ",\n"@ + s[s.len() - 1].0@ + ": "@
            + expression_text(s[s.len() - 1].1)
    }
}


/// Whether an expression can be rendered: rendering a catchable expression
/// is not supported (no text is defined for it), so the renderers require
/// that none occurs.
pub open spec fn renderable(e: MoveIRExpression) -> bool
    decreases e, 0nat,
{
    match e {
        MoveIRExpression::FunctionCall(fc) => all_renderable(fc.arguments@),
        MoveIRExpression::StructConstructor(s) => fields_renderable(s.fields@),
        MoveIRExpression::Transfer(MoveIRTransfer::Move(x)) => renderable(*x),
        MoveIRExpression::Transfer(MoveIRTransfer::Copy(x)) => renderable(*x),
        MoveIRExpression::Catchable => false,
        MoveIRExpression::Assignment(a) => renderable(*a.expression),
        MoveIRExpression::Operation(op) => match op {
            MoveIROperation::Add(l, r) => renderable(*l) && renderable(*r),
            MoveIROperation::Minus(l, r) => renderable(*l) && renderable(*r),
            MoveIROperation::Times(l, r) => renderable(*l) && renderable(*r),
            MoveIROperation::Divide(l, r) => renderable(*l) && renderable(*r),
            MoveIROperation::Modulo(l, r) => renderable(*l) && renderable(*r),
            MoveIROperation::GreaterThan(l, r) => renderable(*l) && renderable(*r),
            MoveIROperation::GreaterThanEqual(l, r) => renderable(*l) && renderable(*r),
            MoveIROperation::LessThan(l, r) => renderable(*l) && renderable(*r),
            MoveIROperation::LessThanEqual(l, r) => renderable(*l) && renderable(*r),
            MoveIROperation::Equal(l, r) => renderable(*l) && renderable(*r),
            MoveIROperation::NotEqual(l, r) => renderable(*l) && renderable(*r),
            MoveIROperation::And(l, r) => renderable(*l) && renderable(*r),
            MoveIROperation::Or(l, r) => renderable(*l) && renderable(*r),
            MoveIROperation::Not(x) => renderable(*x),
            MoveIROperation::Power(l, r) => renderable(*l) && renderable(*r),
            MoveIROperation::Access(l, _) => renderable(*l),
            MoveIROperation::Dereference(x) => renderable(*x),
            MoveIROperation::MutableReference(x) => renderable(*x),
            MoveIROperation::Reference(x) => renderable(*x),
        },
        _ => true,
    }
}

/// Whether every expression of a sequence can be rendered.
pub open spec fn all_renderable(s: Seq<MoveIRExpression>) -> bool
    decreases s, 1nat,
{
    if s.len() == 0 {
        true
    } else {
        all_renderable(s.subrange(0, s.len() - 1)) && renderable(s[s.len() - 1])
    }
}

/// Whether every field value of a struct constructor can be rendered.
pub open spec fn fields_renderable(s: Seq<(String, MoveIRExpression)>) -> bool
    decreases s, 1nat,
{
    if s.len() == 0 {
        true
    } else {
        fields_renderable(s.subrange(0, s.len() - 1)) && renderable(s[s.len() - 1].1)
    }
}


/// The text of a typed name.
pub open spec fn identifier_text(i: MoveIRIdentifier) -> Seq<char> {
    i.identifier@ + ": "@ + type_text(i.move_type)
}

/// The texts of typed names separated by commas.
pub open spec fn identifiers_text(s: Seq<MoveIRIdentifier>) -> Seq<char>
    decreases s.len(),
{
    if s.len() == 0 {
        Seq::empty()
    } else if s.len() == 1 {
        identifier_text(s[0])
    } else {
        identifiers_text(s.subrange(0, s.len() - 1)) + ", "@ + identifier_text(s[s.len() - 1])
    }
}

/// The text of a module import.
pub open spec fn import_text(m: MoveIRModuleImport) -> Seq<char> {
    "import "@ + m.address@ + "."@ + m.name@
}

/// The text of a block: its statements one per line inside braces.
pub open spec fn block_text(b: MoveIRBlock) -> Seq<char>
    decreases b, 1nat,
{
    "{ \n "@ + statements_text(b.statements@) + " \n }"@
}

/// The texts of statements, one per line.
pub open spec fn statements_text(s: Seq<MoveIRStatement>) -> Seq<char>
    decreases s, 2nat,
{
    if s.len() == 0 {
        Seq::empty()
    } else if s.len() == 1 {
        statement_text(s[0])
    } else {
        statements_text(s.subrange(0, s.len() - 1)) + "\n"@ + statement_text(s[s.len() - 1])
    }
}

/// The text of a function definition.
pub open spec fn function_definition_text(fd: MoveIRFunctionDefinition) -> Seq<char>
    decreases fd, 1nat,
{
    identifier_text(fd.identifier) + "("@ + identifiers_text(fd.arguments@) + ") "@
        + identifiers_text(fd.returns@) + block_text(fd.body)
}

/// The text of a conditional.
pub open spec fn if_text(i: MoveIRIf) -> Seq<char>
    decreases i, 1nat,
{
    "if ("@ + expression_text(i.expression) + ") "@ + block_text(i.block) + " else "@ + match i.else_block {
        Some(b) => block_text(b),
        None => "{}"@,
    } + " "@
}

/// The text of a statement.
pub open spec fn statement_text(s: MoveIRStatement) -> Seq<char>
    decreases s, 0nat,
{
    match s {
        MoveIRStatement::Block(b) => block_text(b),
        MoveIRStatement::FunctionDefinition(fd) => function_definition_text(fd),
        MoveIRStatement::If(i) => if_text(i),
        MoveIRStatement::Expression(e) => expression_text(e) + ";"@,
        MoveIRStatement::Switch => Seq::empty(),
        MoveIRStatement::For => Seq::empty(),
        MoveIRStatement::Break => "break"@,
        MoveIRStatement::Continue => "continue"@,
        MoveIRStatement::Noop => Seq::empty(),
        MoveIRStatement::Inline(t) => t@ + ";"@,
        MoveIRStatement::Return(e) => "return "@ + expression_text(e) + ";"@,
        MoveIRStatement::Import(m) => import_text(m) + ";"@,
        MoveIRStatement::Assert(e, line) => "assert("@ + expression_text(e) + ", "@ + decimal(
            line as nat,
        ) + ");"@,
    }
}

/// Whether every expression of a block can be rendered.
pub open spec fn block_renderable(b: MoveIRBlock) -> bool
    decreases b, 1nat,
{
    statements_renderable(b.statements@)
}

/// Whether every expression of a sequence of statements can be rendered.
pub open spec fn statements_renderable(s: Seq<MoveIRStatement>) -> bool
    decreases s, 2nat,
{
    if s.len() == 0 {
        true
    } else {
        statements_renderable(s.subrange(0, s.len() - 1)) && statement_renderable(s[s.len() - 1])
    }
}

/// Whether every expression of a statement can be rendered.
pub open spec fn statement_renderable(s: MoveIRStatement) -> bool
    decreases s, 0nat,
{
    match s {
        MoveIRStatement::Block(b) => block_renderable(b),
        MoveIRStatement::FunctionDefinition(fd) => block_renderable(fd.body),
        MoveIRStatement::If(i) => renderable(i.expression) && block_renderable(i.block) && match i.else_block {
            Some(b) => block_renderable(b),
            None => true,
        },
        MoveIRStatement::Expression(e) => renderable(e),
        MoveIRStatement::Return(e) => renderable(e),
        MoveIRStatement::Assert(e, _) => renderable(e),
        _ => true,
    }
}

// ---------------------------------------------------------------------------
// Rendering
// ---------------------------------------------------------------------------

impl MoveIRType {
    /// An equal copy.
    pub fn deep_clone(&self) -> (res: Self)
        ensures
            res == *self,
        decreases self,
    {
        match self {
            MoveIRType::U8 => MoveIRType::U8,
            MoveIRType::U64 => MoveIRType::U64,
            MoveIRType::Address => MoveIRType::Address,
            MoveIRType::Bool => MoveIRType::Bool,
            MoveIRType::ByteArray => MoveIRType::ByteArray,
            MoveIRType::Signer => MoveIRType::Signer,
            MoveIRType::Resource(s) => MoveIRType::Resource(s.clone()),
            MoveIRType::StructType(s) => MoveIRType::StructType(s.clone()),
            MoveIRType::Reference(t) => MoveIRType::Reference(Box::new(t.deep_clone())),
            MoveIRType::MutableReference(t) => MoveIRType::MutableReference(Box::new(t.deep_clone())),
            MoveIRType::Vector(t) => MoveIRType::Vector(Box::new(t.deep_clone())),
        }
    }

    /// Appends the text of the type to `out`.
    pub fn write(&self, out: &mut String)
        ensures
            final(out)@ == old(out)@ + type_text(*self),
        decreases self,
    {
        match self {
            MoveIRType::U8 => out.append("u8"),
            MoveIRType::U64 => out.append("u64"),
            MoveIRType::Address => out.append("address"),
            MoveIRType::Bool => out.append("bool"),
            MoveIRType::Signer => out.append("signer"),
            MoveIRType::ByteArray => out.append("vector<u8>"),
            MoveIRType::Resource(s) => out.append(s.as_str()),
            MoveIRType::StructType(s) => out.append(s.as_str()),
            MoveIRType::Reference(b) => {
                out.append("&");
                b.write(out);
            },
            MoveIRType::MutableReference(b) => {
                out.append("&mut ");
                b.write(out);
            },
            MoveIRType::Vector(b) => {
                out.append("vector<");
                b.write(out);
                out.append(">");
            },
        }
    }

    /// The text of the type.
    pub fn to_string(&self) -> (res: String)
        ensures
            res@ == type_text(*self),
    {
        let mut out = String::new();
        self.write(&mut out);
        out
    }
}

impl MoveIRLiteral {
    /// Appends the text of the literal to `out`.
    pub fn write(&self, out: &mut String)
        ensures
            final(out)@ == old(out)@ + literal_text(*self),
    {
        match self {
            MoveIRLiteral::U8(n) => {
                write_decimal(out, *n as u64);
                out.append("u8");
            },
            MoveIRLiteral::U64(n) => write_decimal(out, *n),
            MoveIRLiteral::String(s) => {
                out.append("\"");
                out.append(s.as_str());
                out.append("\"");
            },
            MoveIRLiteral::Bool(b) => {
                if *b {
                    out.append("true")
                } else {
                    out.append("false")
                }
            },
            MoveIRLiteral::Decimal(i, f) => {
                write_decimal(out, *i);
                out.append(".");
                write_decimal(out, *f);
            },
            MoveIRLiteral::Hex(h) => out.append(h.as_str()),
        }
    }

    /// The text of the literal.
    pub fn to_string(&self) -> (res: String)
        ensures
            res@ == literal_text(*self),
    {
        let mut out = String::new();
        self.write(&mut out);
        out
    }
}


/// The text of a function call.
pub open spec fn function_call_text(fc: MoveIRFunctionCall) -> Seq<char> {
    expression_text(MoveIRExpression::FunctionCall(fc))
}

/// The text of a transfer.
pub open spec fn transfer_text(t: MoveIRTransfer) -> Seq<char> {
    expression_text(MoveIRExpression::Transfer(t))
}

/// The text of an assignment.
pub open spec fn assignment_text(a: MoveIRAssignment) -> Seq<char> {
    expression_text(MoveIRExpression::Assignment(a))
}

/// The text of an operation.
pub open spec fn operation_text(op: MoveIROperation) -> Seq<char> {
    expression_text(MoveIRExpression::Operation(op))
}

/// The text of a vector expression.
pub open spec fn vector_text(v: MoveIRVector) -> Seq<char> {
    expression_text(MoveIRExpression::Vector(v))
}

/// The text of a field declaration.
pub open spec fn field_declaration_text(f: MoveIRFieldDeclaration) -> Seq<char> {
    expression_text(MoveIRExpression::FieldDeclaration(f))
}

/// The text of a variable declaration.
pub open spec fn variable_declaration_text(v: MoveIRVariableDeclaration) -> Seq<char> {
    expression_text(MoveIRExpression::VariableDeclaration(v))
}

impl MoveIRExpression {
    /// Appends the text of the expression to `out`.
    pub fn write(&self, out: &mut String)
        requires
            renderable(*self),
        ensures
            final(out)@ == old(out)@ + expression_text(*self),
        decreases self, 0nat,
    {
        match self {
            MoveIRExpression::FunctionCall(fc) => fc.write(out),
            MoveIRExpression::StructConstructor(s) => {
                out.append(s.identifier.token.as_str());
                out.append(" { \n ");
                write_fields(&s.fields, out);
                out.append(" }");
            },
            MoveIRExpression::Identifier(s) => out.append(s.as_str()),
            MoveIRExpression::Transfer(t) => t.write(out),
            MoveIRExpression::Literal(l) => l.write(out),
            MoveIRExpression::Catchable => {},
            MoveIRExpression::Inline(s) => out.append(s.as_str()),
            MoveIRExpression::Assignment(a) => a.write(out),
            MoveIRExpression::VariableDeclaration(v) => v.write(out),
            MoveIRExpression::FieldDeclaration(fd) => fd.write(out),
            MoveIRExpression::Operation(op) => op.write(out),
            MoveIRExpression::Vector(v) => v.write(out),
            MoveIRExpression::Noop => {},
        }
    }

    /// The text of the node.
    pub fn to_string(&self) -> (res: String)
        requires
            renderable(*self),
        ensures
            res@ == expression_text(*self),
    {
        let mut out = String::new();
        self.write(&mut out);
        out
    }
}

impl MoveIRFunctionCall {
    /// Appends the text of the call to `out`.
    pub fn write(&self, out: &mut String)
        requires
            renderable(MoveIRExpression::FunctionCall(*self)),
        ensures
            final(out)@ == old(out)@ + function_call_text(*self),
        decreases self, 0nat,
    {
        out.append(self.identifier.as_str());
        out.append("(");
        write_expressions(&self.arguments, ", ", out);
        out.append(")");
    }

    /// The text of the node.
    pub fn to_string(&self) -> (res: String)
        requires
            renderable(MoveIRExpression::FunctionCall(*self)),
        ensures
            res@ == function_call_text(*self),
    {
        let mut out = String::new();
        self.write(&mut out);
        out
    }
}

impl MoveIRTransfer {
    /// Appends the text of the transfer to `out`.
    pub fn write(&self, out: &mut String)
        requires
            renderable(MoveIRExpression::Transfer(*self)),
        ensures
            final(out)@ == old(out)@ + transfer_text(*self),
        decreases self, 0nat,
    {
        match self {
            MoveIRTransfer::Move(x) => {
                out.append("move(");
                x.write(out);
                out.append(")");
            },
            MoveIRTransfer::Copy(x) => {
                out.append("copy(");
                x.write(out);
                out.append(")");
            },
        }
    }

    /// The text of the node.
    pub fn to_string(&self) -> (res: String)
        requires
            renderable(MoveIRExpression::Transfer(*self)),
        ensures
            res@ == transfer_text(*self),
    {
        let mut out = String::new();
        self.write(&mut out);
        out
    }
}

impl MoveIRAssignment {
    /// Appends the text of the assignment to `out`.
    pub fn write(&self, out: &mut String)
        requires
            renderable(MoveIRExpression::Assignment(*self)),
        ensures
            final(out)@ == old(out)@ + assignment_text(*self),
        decreases self, 0nat,
    {
        out.append(self.identifier.as_str());
        out.append(" = ");
        self.expression.write(out);
    }

    /// The text of the node.
    pub fn to_string(&self) -> (res: String)
        requires
            renderable(MoveIRExpression::Assignment(*self)),
        ensures
            res@ == assignment_text(*self),
    {
        let mut out = String::new();
        self.write(&mut out);
        out
    }
}

impl MoveIROperation {
    /// Appends the text of the operation to `out`.
    pub fn write(&self, out: &mut String)
        requires
            renderable(MoveIRExpression::Operation(*self)),
        ensures
            final(out)@ == old(out)@ + operation_text(*self),
        decreases self, 0nat,
    {
        match self {
            MoveIROperation::Add(l, r) => {
                out.append("(");
                l.write(out);
                out.append(" + ");
                r.write(out);
                out.append(")");
            },
            MoveIROperation::Minus(l, r) => {
                out.append("(");
                l.write(out);
                out.append(" - ");
                r.write(out);
                out.append(")");
            },
            MoveIROperation::Times(l, r) => {
                out.append("(");
                l.write(out);
                out.append(" * ");
                r.write(out);
                out.append(")");
            },
            MoveIROperation::Divide(l, r) => {
                out.append("(");
                l.write(out);
                out.append(" / ");
                r.write(out);
                out.append(")");
            },
            MoveIROperation::Modulo(l, r) => {
                out.append("(");
                l.write(out);
                out.append(" % ");
                r.write(out);
                out.append(")");
            },
            MoveIROperation::GreaterThan(l, r) => {
                out.append("(");
                l.write(out);
                out.append(" > ");
                r.write(out);
                out.append(")");
            },
            MoveIROperation::GreaterThanEqual(l, r) => {
                out.append("(");
                l.write(out);
                out.append(" >= ");
                r.write(out);
                out.append(")");
            },
            MoveIROperation::LessThan(l, r) => {
                out.append("(");
                l.write(out);
                out.append(" < ");
                r.write(out);
                out.append(")");
            },
            MoveIROperation::LessThanEqual(l, r) => {
                out.append("(");
                l.write(out);
                out.append(" <= ");
                r.write(out);
                out.append(")");
            },
            MoveIROperation::Equal(l, r) => {
                out.append("(");
                l.write(out);
                out.append(" == ");
                r.write(out);
                out.append(")");
            },
            MoveIROperation::NotEqual(l, r) => {
                out.append("(");
                l.write(out);
                out.append(" != ");
                r.write(out);
                out.append(")");
            },
            MoveIROperation::And(l, r) => {
                out.append("(");
                l.write(out);
                out.append(" && ");
                r.write(out);
                out.append(")");
            },
            MoveIROperation::Or(l, r) => {
                out.append("(");
                l.write(out);
                out.append(" || ");
                r.write(out);
                out.append(")");
            },
            MoveIROperation::Power(l, r) => {
                out.append("(");
                l.write(out);
                out.append(" ** ");
                r.write(out);
                out.append(")");
            },
            MoveIROperation::Not(x) => {
                out.append("!");
                x.write(out);
            },
            MoveIROperation::Access(l, f) => {
                l.write(out);
                out.append(".");
                out.append(f.as_str());
            },
            MoveIROperation::Dereference(x) => {
                out.append("*");
                x.write(out);
            },
            MoveIROperation::MutableReference(x) => {
                out.append("&mut ");
                x.write(out);
            },
            MoveIROperation::Reference(x) => {
                out.append("&");
                x.write(out);
            },
        }
    }

    /// The text of the node.
    pub fn to_string(&self) -> (res: String)
        requires
            renderable(MoveIRExpression::Operation(*self)),
        ensures
            res@ == operation_text(*self),
    {
        let mut out = String::new();
        self.write(&mut out);
        out
    }
}

impl MoveIRVector {
    /// Appends the text of the vector expression to `out`.
    pub fn write(&self, out: &mut String)
        ensures
            final(out)@ == old(out)@ + vector_text(*self),
    {
        match &self.vec_type {
            Some(t) => {
                out.append("Vector.empty<");
                t.write(out);
                out.append(">()");
            },
            None => out.append("Vector.empty<>()"),
        }
    }

    /// The text of the node.
    pub fn to_string(&self) -> (res: String)
        ensures
            res@ == vector_text(*self),
    {
        let mut out = String::new();
        self.write(&mut out);
        out
    }
}

impl MoveIRFieldDeclaration {
    /// Appends the text of the field declaration to `out`.
    pub fn write(&self, out: &mut String)
        ensures
            final(out)@ == old(out)@ + field_declaration_text(*self),
    {
        out.append(self.identifier.as_str());
        out.append(": ");
        self.declaration_type.write(out);
    }

    /// The text of the node.
    pub fn to_string(&self) -> (res: String)
        ensures
            res@ == field_declaration_text(*self),
    {
        let mut out = String::new();
        self.write(&mut out);
        out
    }
}

impl MoveIRVariableDeclaration {
    /// Appends the text of the variable declaration to `out`.
    pub fn write(&self, out: &mut String)
        ensures
            final(out)@ == old(out)@ + variable_declaration_text(*self),
    {
        out.append("let ");
        out.append(self.identifier.as_str());
        out.append(": ");
        self.declaration_type.write(out);
    }

    /// The text of the node.
    pub fn to_string(&self) -> (res: String)
        ensures
            res@ == variable_declaration_text(*self),
    {
        let mut out = String::new();
        self.write(&mut out);
        out
    }
}

/// Appends the texts of `exprs`, `sep` between neighbours, to `out`.
fn write_expressions(exprs: &Vec<MoveIRExpression>, sep: &str, out: &mut String)
    requires
        all_renderable(exprs@),
    ensures
        final(out)@ == old(out)@ + expressions_text(exprs@, sep@),
    decreases exprs@, 1nat,
{
    let ghost start = out@;
    let n = exprs.len();
    let mut i: usize = 0;
    proof {
        lemma_all_renderable_prefix(exprs@, n as int);
    }
    while i < n
        invariant
            n == exprs@.len(),
            0 <= i <= n,
            all_renderable(exprs@),
            out@ == start + expressions_text(exprs@.subrange(0, i as int), sep@),
        decreases n - i,
    {
        proof {
            lemma_all_renderable_at(exprs@, i as int);
            assert(exprs@.subrange(0, i as int + 1).subrange(0, i as int) =~= exprs@.subrange(0, i as int));
        }
        if i > 0 {
            out.append(sep);
        }
        exprs[i].write(out);
        i = i + 1;
    }
    proof {
        assert(exprs@.subrange(0, n as int) =~= exprs@);
    }
}

/// Appends the texts of the fields of a struct value to `out`.
fn write_fields(fields: &Vec<(String, MoveIRExpression)>, out: &mut String)
    requires
        fields_renderable(fields@),
    ensures
        final(out)@ == old(out)@ + fields_text(fields@),
    decreases fields@, 1nat,
{
    let ghost start = out@;
    let n = fields.len();
    let mut i: usize = 0;
    while i < n
        invariant
            n == fields@.len(),
            0 <= i <= n,
            fields_renderable(fields@),
            out@ == start + fields_text(fields@.subrange(0, i as int)),
        decreases n - i,
    {
        proof {
            lemma_fields_renderable_at(fields@, i as int);
            assert(fields@.subrange(0, i as int + 1).subrange(0, i as int) =~= fields@.subrange(0, i as int));
        }
        if i > 0 {
            out.append(",\n");
        }
        out.append(fields[i].0.as_str());
        out.append(": ");
        fields[i].1.write(out);
        i = i + 1;
    }
    proof {
        assert(fields@.subrange(0, n as int) =~= fields@);
    }
}

proof fn lemma_all_renderable_prefix(s: Seq<MoveIRExpression>, k: int)
    requires
        0 <= k <= s.len(),
    ensures
        all_renderable(s) ==> all_renderable(s.subrange(0, k)),
    decreases s.len(),
{
    if k < s.len() {
        assert(s.subrange(0, s.len() - 1).subrange(0, k) =~= s.subrange(0, k));
        lemma_all_renderable_prefix(s.subrange(0, s.len() - 1), k);
    } else {
        assert(s.subrange(0, k) =~= s);
    }
}

proof fn lemma_all_renderable_at(s: Seq<MoveIRExpression>, i: int)
    requires
        0 <= i < s.len(),
        all_renderable(s),
    ensures
        renderable(s[i]),
    decreases s.len(),
{
    if i < s.len() - 1 {
        lemma_all_renderable_at(s.subrange(0, s.len() - 1), i);
    }
}

proof fn lemma_fields_renderable_at(s: Seq<(String, MoveIRExpression)>, i: int)
    requires
        0 <= i < s.len(),
        fields_renderable(s),
    ensures
        renderable(s[i].1),
    decreases s.len(),
{
    if i < s.len() - 1 {
        lemma_fields_renderable_at(s.subrange(0, s.len() - 1), i);
    }
}

impl MoveIRIdentifier {
    /// Appends the text of the typed name to `out`.
    pub fn write(&self, out: &mut String)
        ensures
            final(out)@ == old(out)@ + identifier_text(*self),
    {
        out.append(self.identifier.as_str());
        out.append(": ");
        self.move_type.write(out);
    }

    /// The text of the typed name.
    pub fn to_string(&self) -> (res: String)
        ensures
            res@ == identifier_text(*self),
    {
        let mut out = String::new();
        self.write(&mut out);
        out
    }
}

/// Appends the texts of typed names, separated by commas, to `out`.
fn write_identifiers(ids: &Vec<MoveIRIdentifier>, out: &mut String)
    ensures
        final(out)@ == old(out)@ + identifiers_text(ids@),
{
    let ghost start = out@;
    let n = ids.len();
    let mut i: usize = 0;
    while i < n
        invariant
            n == ids@.len(),
            0 <= i <= n,
            out@ == start + identifiers_text(ids@.subrange(0, i as int)),
        decreases n - i,
    {
        proof {
            assert(ids@.subrange(0, i as int + 1).subrange(0, i as int) =~= ids@.subrange(0, i as int));
        }
        if i > 0 {
            out.append(", ");
        }
        ids[i].write(out);
        i = i + 1;
    }
    proof {
        assert(ids@.subrange(0, n as int) =~= ids@);
    }
}

impl MoveIRModuleImport {
    /// Appends the text of the import to `out`.
    pub fn write(&self, out: &mut String)
        ensures
            final(out)@ == old(out)@ + import_text(*self),
    {
        out.append("import ");
        out.append(self.address.as_str());
        out.append(".");
        out.append(self.name.as_str());
    }

    /// The text of the import.
    pub fn to_string(&self) -> (res: String)
        ensures
            res@ == import_text(*self),
    {
        let mut out = String::new();
        self.write(&mut out);
        out
    }
}

impl MoveIRBlock {
    /// Appends the text of the block to `out`.
    pub fn write(&self, out: &mut String)
        requires
            block_renderable(*self),
        ensures
            final(out)@ == old(out)@ + block_text(*self),
        decreases self, 1nat,
    {
        out.append("{ \n ");
        write_statements(&self.statements, out);
        out.append(" \n }");
    }

    /// The text of the block.
    pub fn to_string(&self) -> (res: String)
        requires
            block_renderable(*self),
        ensures
            res@ == block_text(*self),
    {
        let mut out = String::new();
        self.write(&mut out);
        out
    }
}

/// Appends the texts of statements, one per line, to `out`.
fn write_statements(stmts: &Vec<MoveIRStatement>, out: &mut String)
    requires
        statements_renderable(stmts@),
    ensures
        final(out)@ == old(out)@ + statements_text(stmts@),
    decreases stmts@, 2nat,
{
    let ghost start = out@;
    let n = stmts.len();
    let mut i: usize = 0;
    while i < n
        invariant
            n == stmts@.len(),
            0 <= i <= n,
            statements_renderable(stmts@),
            out@ == start + statements_text(stmts@.subrange(0, i as int)),
        decreases n - i,
    {
        proof {
            lemma_statements_renderable_at(stmts@, i as int);
            assert(stmts@.subrange(0, i as int + 1).subrange(0, i as int) =~= stmts@.subrange(0, i as int));
        }
        if i > 0 {
            out.append("\n");
        }
        stmts[i].write(out);
        i = i + 1;
    }
    proof {
        assert(stmts@.subrange(0, n as int) =~= stmts@);
    }
}

proof fn lemma_statements_renderable_at(s: Seq<MoveIRStatement>, i: int)
    requires
        0 <= i < s.len(),
        statements_renderable(s),
    ensures
        statement_renderable(s[i]),
    decreases s.len(),
{
    if i < s.len() - 1 {
        lemma_statements_renderable_at(s.subrange(0, s.len() - 1), i);
    }
}

impl MoveIRFunctionDefinition {
    /// Appends the text of the function definition to `out`.
    pub fn write(&self, out: &mut String)
        requires
            block_renderable(self.body),
        ensures
            final(out)@ == old(out)@ + function_definition_text(*self),
        decreases self, 1nat,
    {
        self.identifier.write(out);
        out.append("(");
        write_identifiers(&self.arguments, out);
        out.append(") ");
        write_identifiers(&self.returns, out);
        self.body.write(out);
    }

    /// The text of the function definition.
    pub fn to_string(&self) -> (res: String)
        requires
            block_renderable(self.body),
        ensures
            res@ == function_definition_text(*self),
    {
        let mut out = String::new();
        self.write(&mut out);
        out
    }
}

impl MoveIRIf {
    /// Appends the text of the conditional to `out`.
    pub fn write(&self, out: &mut String)
        requires
            statement_renderable(MoveIRStatement::If(*self)),
        ensures
            final(out)@ == old(out)@ + if_text(*self),
        decreases self, 1nat,
    {
        out.append("if (");
        self.expression.write(out);
        out.append(") ");
        self.block.write(out);
        out.append(" else ");
        match &self.else_block {
            Some(b) => b.write(out),
            None => out.append("{}"),
        }
        out.append(" ");
    }

    /// The text of the conditional.
    pub fn to_string(&self) -> (res: String)
        requires
            statement_renderable(MoveIRStatement::If(*self)),
        ensures
            res@ == if_text(*self),
    {
        let mut out = String::new();
        self.write(&mut out);
        out
    }
}

impl MoveIRStatement {
    /// Appends the text of the statement to `out`.
    pub fn write(&self, out: &mut String)
        requires
            statement_renderable(*self),
        ensures
            final(out)@ == old(out)@ + statement_text(*self),
        decreases self, 0nat,
    {
        match self {
            MoveIRStatement::Block(b) => b.write(out),
            MoveIRStatement::FunctionDefinition(fd) => fd.write(out),
            MoveIRStatement::If(i) => i.write(out),
            MoveIRStatement::Expression(e) => {
                e.write(out);
                out.append(";");
            },
            MoveIRStatement::Switch => {},
            MoveIRStatement::For => {},
            MoveIRStatement::Break => out.append("break"),
            MoveIRStatement::Continue => out.append("continue"),
            MoveIRStatement::Noop => {},
            MoveIRStatement::Inline(t) => {
                out.append(t.as_str());
                out.append(";");
            },
            MoveIRStatement::Return(e) => {
                out.append("return ");
                e.write(out);
                out.append(";");
            },
            MoveIRStatement::Import(m) => {
                m.write(out);
                out.append(";");
            },
            MoveIRStatement::Assert(e, line) => {
                out.append("assert(");
                e.write(out);
                out.append(", ");
                write_decimal(out, *line as u64);
                out.append(");");
            },
        }
    }

    /// The text of the statement.
    pub fn to_string(&self) -> (res: String)
        requires
            statement_renderable(*self),
        ensures
            res@ == statement_text(*self),
    {
        let mut out = String::new();
        self.write(&mut out);
        out
    }
}

} // verus!
