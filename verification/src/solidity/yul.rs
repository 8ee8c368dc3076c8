//! The Yul intermediate representation and its textual form.
//!
//! Every node renders to Yul source text; the text is stated by a spec
//! function (`yul_expression_text`, `yul_statement_text`, ...) and each
//! `to_string` method is proved to produce exactly that text.

use vstd::prelude::*;
use crate::text::{decimal, write_decimal};

verus! {

/// A block of statements.
#[derive(Debug)]
pub struct YulBlock {
    pub statements: Vec<YulStatement>,
}

/// The expressions of Yul.
#[derive(Debug)]
pub enum YulExpression {
    FunctionCall(YulFunctionCall),
    Identifier(String),
    Literal(YulLiteral),
    Catchable(Box<YulExpression>, Box<YulExpression>),
    VariableDeclaration(YulVariableDeclaration),
    Assignment(YulAssignment),
    Noop,
    Inline(String),
}

/// A function definition.
#[derive(Debug)]
pub struct YulFunctionDefinition {
    pub identifier: String,
    pub arguments: Vec<(String, YulType)>,
    pub returns: Vec<(String, YulType)>,
    pub body: YulBlock,
}

/// A call of a named function.
#[derive(Debug)]
pub struct YulFunctionCall {
    pub name: String,
    pub arguments: Vec<YulExpression>,
}

/// An assignment to one or more names.
#[derive(Debug)]
pub struct YulAssignment {
    pub identifiers: Vec<String>,
    pub expression: Box<YulExpression>,
}

/// The statements of Yul.
#[derive(Debug)]
pub enum YulStatement {
    Block(YulBlock),
    FunctionDefinition(YulFunctionDefinition),
    If(YulIf),
    Expression(YulExpression),
    Switch(YulSwitch),
    For(YulForLoop),
    Break,
    Continue,
    Noop,
    Inline(String),
}

/// A conditional block.
#[derive(Debug)]
pub struct YulIf {
    pub expression: YulExpression,
    pub block: YulBlock,
}

/// A switch over literal cases with an optional default.
#[derive(Debug)]
pub struct YulSwitch {
    pub expression: YulExpression,
    pub cases: Vec<(YulLiteral, YulBlock)>,
    pub default: Option<YulBlock>,
}

/// A for loop.
#[derive(Debug)]
pub struct YulForLoop {
    pub initialise: YulBlock,
    pub condition: YulExpression,
    pub step: YulBlock,
    pub body: YulBlock,
}

/// The literals of Yul.
#[derive(Debug)]
pub enum YulLiteral {
    Num(u64),
    String(String),
    Bool(bool),
    Decimal(u64, u64),
    Hex(String),
}

/// A variable declaration with its initial value.
#[derive(Debug)]
pub struct YulVariableDeclaration {
    pub declaration: String,
    pub declaration_type: YulType,
    pub expression: Option<Box<YulExpression>>,
}

/// The types of Yul.
#[derive(Debug)]
pub enum YulType {
    Bool,
    U8,
    S8,
    U32,
    S32,
    U64,
    S64,
    U128,
    S128,
    U256,
    S256,
    Any,
}

// ---------------------------------------------------------------------------
// The textual form
// ---------------------------------------------------------------------------

/// The text of a type.
pub open spec fn yul_type_text(t: YulType) -> Seq<char> {
    match t {
        YulType::Bool => "bool"@,
        YulType::U8 => "u8"@,
        YulType::S8 => "s8"@,
        YulType::U32 => "u32"@,
        YulType::S32 => "s32"@,
        YulType::U64 => "u64"@,
        YulType::S64 => "s64"@,
        YulType::U128 => "u128"@,
        YulType::S128 => "s128"@,
        YulType::U256 => "u256"@,
        YulType::S256 => "s256"@,
        YulType::Any => "any"@,
    }
}

/// The text of a literal (decimal literals have none: they are refused).
pub open spec fn yul_literal_text(l: YulLiteral) -> Seq<char> {
    match l {
        YulLiteral::Num(n) => decimal(n as nat),
        YulLiteral::String(s) => "\""@ + s@ + "\""@,
        YulLiteral::Bool(b) => if b { "1"@ } else { "0"@ },
        YulLiteral::Decimal(_, _) => Seq::empty(),
        YulLiteral::Hex(h) => h@,
    }
}

/// Whether a literal can be rendered: decimal literals are not supported.
pub open spec fn yul_literal_renderable(l: YulLiteral) -> bool {
    !(l is Decimal)
}

/// Strings separated by `sep`.
pub open spec fn strings_text(s: Seq<String>, sep: Seq<char>) -> Seq<char>
    decreases s.len(),
{
    if s.len() == 0 {
        Seq::empty()
    } else if s.len() == 1 {
        s[0]@
    } else {
        strings_text(s.subrange(0, s.len() - 1), sep) + sep + s[s.len() - 1]@
    }
}

/// Typed names `name: type` separated by commas.
pub open spec fn typed_names_text(s: Seq<(String, YulType)>) -> Seq<char>
    decreases s.len(),
{
    if s.len() == 0 {
        Seq::empty()
    } else if s.len() == 1 {
        s[0].0@ + ": "@ + yul_type_text(s[0].1)
    } else {
        typed_names_text(s.subrange(0, s.len() - 1)) + ", "@ + s[s.len() - 1].0@ + ": "@
            + yul_type_text(s[s.len() - 1].1)
    }
}

/// The declared name of a variable declaration, with its type unless it is `any`.
pub open spec fn declared_text(v: YulVariableDeclaration) -> Seq<char> {
    if v.declaration_type is Any {
        v.declaration@
    } else {
        v.declaration@ + ": "@ + yul_type_text(v.declaration_type)
    }
}

/// The text of an expression.
pub open spec fn yul_expression_text(e: YulExpression) -> Seq<char>
    decreases e, 0nat,
{
    match e {
        YulExpression::FunctionCall(fc) => fc.name@ + "("@ + yul_expressions_text(fc.arguments@)
            + ")"@,
        YulExpression::Identifier(s) => s@,
        YulExpression::Literal(l) => yul_literal_text(l),
        YulExpression::Catchable(v, _) => yul_expression_text(*v),
        YulExpression::VariableDeclaration(v) => match v.expression {
            Some(x) => "let "@ + declared_text(v) + " := "@ + yul_expression_text(*x),
            None => Seq::empty(),
        },
        YulExpression::Assignment(a) => strings_text(a.identifiers@, ", "@) + " := "@
            + yul_expression_text(*a.expression),
        YulExpression::Noop => Seq::empty(),
        YulExpression::Inline(s) => s@,
    }
}

/// The texts of expressions separated by commas.
pub open spec fn yul_expressions_text(s: Seq<YulExpression>) -> Seq<char>
    decreases s, 1nat,
{
    if s.len() == 0 {
        Seq::empty()
    } else if s.len() == 1 {
        yul_expression_text(s[0])
    } else {
        yul_expressions_text(s.subrange(0, s.len() - 1)) + ", "@ + yul_expression_text(
            s[s.len() - 1],
        )
    }
}

/// Whether an expression can be rendered: no decimal literal, and every
/// variable declaration has a value.
pub open spec fn yul_renderable(e: YulExpression) -> bool
    decreases e, 0nat,
{
    match e {
        YulExpression::FunctionCall(fc) => yul_all_renderable(fc.arguments@),
        YulExpression::Literal(l) => yul_literal_renderable(l),
        YulExpression::Catchable(v, _) => yul_renderable(*v),
        YulExpression::VariableDeclaration(v) => match v.expression {
            Some(x) => yul_renderable(*x),
            None => false,
        },
        YulExpression::Assignment(a) => yul_renderable(*a.expression),
        _ => true,
    }
}

/// Whether every expression of a sequence can be rendered.
pub open spec fn yul_all_renderable(s: Seq<YulExpression>) -> bool
    decreases s, 1nat,
{
    if s.len() == 0 {
        true
    } else {
        yul_all_renderable(s.subrange(0, s.len() - 1)) && yul_renderable(s[s.len() - 1])
    }
}

/// The text of a block.
pub open spec fn yul_block_text(b: YulBlock) -> Seq<char>
    decreases b, 1nat,
{
    "{ \n "@ + yul_statements_text(b.statements@) + " \n }"@
}

/// The texts of statements, one per line.
pub open spec fn yul_statements_text(s: Seq<YulStatement>) -> Seq<char>
    decreases s, 2nat,
{
    if s.len() == 0 {
        Seq::empty()
    } else if s.len() == 1 {
        yul_statement_text(s[0])
    } else {
        yul_statements_text(s.subrange(0, s.len() - 1)) + "\n"@ + yul_statement_text(
            s[s.len() - 1],
        )
    }
}

/// The text of a function definition. Its result part repeats the argument
/// list after the arrow whenever the function returns something.
pub open spec fn yul_function_definition_text(fd: YulFunctionDefinition) -> Seq<char>
    decreases fd, 1nat,
{
    fd.identifier@ + "("@ + typed_names_text(fd.arguments@) + ") "@ + (if fd.returns@.len()
        > 0 {
        "-> "@ + typed_names_text(fd.arguments@)
    } else {
        Seq::empty()
    }) + " "@ + yul_block_text(fd.body)
}

/// The texts of the cases of a switch, one per line.
pub open spec fn yul_cases_text(s: Seq<(YulLiteral, YulBlock)>) -> Seq<char>
    decreases s, 2nat,
{
    if s.len() == 0 {
        Seq::empty()
    } else if s.len() == 1 {
        "case "@ + yul_literal_text(s[0].0) + " "@ + yul_block_text(s[0].1)
    } else {
        yul_cases_text(s.subrange(0, s.len() - 1)) + "\n"@ + "case "@ + yul_literal_text(
            s[s.len() - 1].0,
        ) + " "@ + yul_block_text(s[s.len() - 1].1)
    }
}

/// The text of a switch.
pub open spec fn yul_switch_text(sw: YulSwitch) -> Seq<char>
    decreases sw, 1nat,
{
    "switch "@ + yul_expression_text(sw.expression) + " \n "@ + yul_cases_text(sw.cases@)
        + match sw.default {
        Some(d) => "\n default "@ + yul_block_text(d),
        None => Seq::empty(),
    }
}

/// The text of a statement.
pub open spec fn yul_statement_text(s: YulStatement) -> Seq<char>
    decreases s, 0nat,
{
    match s {
        YulStatement::Block(b) => yul_block_text(b),
        YulStatement::FunctionDefinition(fd) => yul_function_definition_text(fd),
        YulStatement::If(i) => "if "@ + yul_expression_text(i.expression) + " "@ + yul_block_text(
            i.block,
        ),
        YulStatement::Expression(e) => yul_expression_text(e),
        YulStatement::Switch(sw) => yul_switch_text(sw),
        YulStatement::For(f) => "for "@ + yul_block_text(f.initialise) + " "@
            + yul_expression_text(f.condition) + " "@ + yul_block_text(f.step) + " "@
            + yul_block_text(f.body),
        YulStatement::Break => "break"@,
        YulStatement::Continue => "continue"@,
        YulStatement::Noop => Seq::empty(),
        YulStatement::Inline(t) => t@,
    }
}

/// Whether every expression and literal of a block can be rendered.
pub open spec fn yul_block_renderable(b: YulBlock) -> bool
    decreases b, 1nat,
{
    yul_statements_renderable(b.statements@)
}

/// Whether every statement of a sequence can be rendered.
pub open spec fn yul_statements_renderable(s: Seq<YulStatement>) -> bool
    decreases s, 2nat,
{
    if s.len() == 0 {
        true
    } else {
        yul_statements_renderable(s.subrange(0, s.len() - 1)) && yul_statement_renderable(
            s[s.len() - 1],
        )
    }
}

/// Whether every case of a switch can be rendered.
pub open spec fn yul_cases_renderable(s: Seq<(YulLiteral, YulBlock)>) -> bool
    decreases s, 2nat,
{
    if s.len() == 0 {
        true
    } else {
        yul_cases_renderable(s.subrange(0, s.len() - 1)) && yul_literal_renderable(
            s[s.len() - 1].0,
        ) && yul_block_renderable(s[s.len() - 1].1)
    }
}

/// Whether every expression and literal of a statement can be rendered.
pub open spec fn yul_statement_renderable(s: YulStatement) -> bool
    decreases s, 0nat,
{
    match s {
        YulStatement::Block(b) => yul_block_renderable(b),
        YulStatement::FunctionDefinition(fd) => yul_block_renderable(fd.body),
        YulStatement::If(i) => yul_renderable(i.expression) && yul_block_renderable(i.block),
        YulStatement::Expression(e) => yul_renderable(e),
        YulStatement::Switch(sw) => yul_renderable(sw.expression) && yul_cases_renderable(
            sw.cases@,
        ) && match sw.default {
            Some(d) => yul_block_renderable(d),
            None => true,
        },
        YulStatement::For(f) => yul_block_renderable(f.initialise) && yul_renderable(f.condition)
            && yul_block_renderable(f.step) && yul_block_renderable(f.body),
        _ => true,
    }
}

// ---------------------------------------------------------------------------
// Rendering
// ---------------------------------------------------------------------------

impl YulType {
    /// Appends the text of the type to `out`.
    pub fn write(&self, out: &mut String)
        ensures
            final(out)@ == old(out)@ + yul_type_text(*self),
    {
        match self {
            YulType::Bool => out.append("bool"),
            YulType::U8 => out.append("u8"),
            YulType::S8 => out.append("s8"),
            YulType::U32 => out.append("u32"),
            YulType::S32 => out.append("s32"),
            YulType::U64 => out.append("u64"),
            YulType::S64 => out.append("s64"),
            YulType::U128 => out.append("u128"),
            YulType::S128 => out.append("s128"),
            YulType::U256 => out.append("u256"),
            YulType::S256 => out.append("s256"),
            YulType::Any => out.append("any"),
        }
    }

    /// The text of the node.
    pub fn to_string(&self) -> (res: String)
        ensures
            res@ == yul_type_text(*self),
    {
        let mut out = String::new();
        self.write(&mut out);
        out
    }
}

impl YulLiteral {
    /// Appends the text of the literal to `out`.
    pub fn write(&self, out: &mut String)
        requires
            yul_literal_renderable(*self),
        ensures
            final(out)@ == old(out)@ + yul_literal_text(*self),
    {
        match self {
            YulLiteral::Num(n) => write_decimal(out, *n),
            YulLiteral::String(s) => {
                out.append("\"");
                out.append(s.as_str());
                out.append("\"");
            },
            YulLiteral::Bool(b) => {
                if *b {
                    out.append("1")
                } else {
                    out.append("0")
                }
            },
            YulLiteral::Decimal(_, _) => {},
            YulLiteral::Hex(h) => out.append(h.as_str()),
        }
    }

    /// The text of the node.
    pub fn to_string(&self) -> (res: String)
        requires
            yul_literal_renderable(*self),
        ensures
            res@ == yul_literal_text(*self),
    {
        let mut out = String::new();
        self.write(&mut out);
        out
    }
}

impl YulExpression {
    /// Appends the text of the expression to `out`.
    pub fn write(&self, out: &mut String)
        requires
            yul_renderable(*self),
        ensures
            final(out)@ == old(out)@ + yul_expression_text(*self),
        decreases self, 0nat,
    {
        match self {
            YulExpression::FunctionCall(fc) => fc.write(out),
            YulExpression::Identifier(s) => out.append(s.as_str()),
            YulExpression::Literal(l) => l.write(out),
            YulExpression::Catchable(v, _) => v.write(out),
            YulExpression::VariableDeclaration(v) => v.write(out),
            YulExpression::Assignment(a) => a.write(out),
            YulExpression::Noop => {},
            YulExpression::Inline(s) => out.append(s.as_str()),
        }
    }

    /// The text of the node.
    pub fn to_string(&self) -> (res: String)
        requires
            yul_renderable(*self),
        ensures
            res@ == yul_expression_text(*self),
    {
        let mut out = String::new();
        self.write(&mut out);
        out
    }
}

impl YulFunctionCall {
    /// Appends the text of the call to `out`.
    pub fn write(&self, out: &mut String)
        requires
            yul_renderable(YulExpression::FunctionCall(*self)),
        ensures
            final(out)@ == old(out)@ + yul_expression_text(YulExpression::FunctionCall(*self)),
        decreases self, 0nat,
    {
        out.append(self.name.as_str());
        out.append("(");
        write_yul_expressions(&self.arguments, out);
        out.append(")");
    }

    /// The text of the node.
    pub fn to_string(&self) -> (res: String)
        requires
            yul_renderable(YulExpression::FunctionCall(*self)),
        ensures
            res@ == yul_expression_text(YulExpression::FunctionCall(*self)),
    {
        let mut out = String::new();
        self.write(&mut out);
        out
    }
}

impl YulVariableDeclaration {
    /// Appends the text of the declaration to `out`.
    pub fn write(&self, out: &mut String)
        requires
            yul_renderable(YulExpression::VariableDeclaration(*self)),
        ensures
            final(out)@ == old(out)@ + yul_expression_text(YulExpression::VariableDeclaration(*self)),
        decreases self, 0nat,
    {
        out.append("let ");
        out.append(self.declaration.as_str());
        match &self.declaration_type {
            YulType::Any => {},
            t => {
                out.append(": ");
                t.write(out);
            },
        }
        out.append(" := ");
        match &self.expression {
            Some(x) => x.write(out),
            None => {},
        }
    }

    /// The text of the node.
    pub fn to_string(&self) -> (res: String)
        requires
            yul_renderable(YulExpression::VariableDeclaration(*self)),
        ensures
            res@ == yul_expression_text(YulExpression::VariableDeclaration(*self)),
    {
        let mut out = String::new();
        self.write(&mut out);
        out
    }
}

impl YulAssignment {
    /// Appends the text of the assignment to `out`.
    pub fn write(&self, out: &mut String)
        requires
            yul_renderable(YulExpression::Assignment(*self)),
        ensures
            final(out)@ == old(out)@ + yul_expression_text(YulExpression::Assignment(*self)),
        decreases self, 0nat,
    {
        write_strings(&self.identifiers, out);
        out.append(" := ");
        self.expression.write(out);
    }

    /// The text of the node.
    pub fn to_string(&self) -> (res: String)
        requires
            yul_renderable(YulExpression::Assignment(*self)),
        ensures
            res@ == yul_expression_text(YulExpression::Assignment(*self)),
    {
        let mut out = String::new();
        self.write(&mut out);
        out
    }
}

fn write_yul_expressions(v: &Vec<YulExpression>, out: &mut String)
    requires
        yul_all_renderable(v@),
    ensures
        final(out)@ == old(out)@ + yul_expressions_text(v@),
    decreases v@, 1nat,
{
    let ghost start = out@;
    let n = v.len();
    let mut i: usize = 0;
    while i < n
        invariant
            n == v@.len(),
            0 <= i <= n,
            yul_all_renderable(v@),
            out@ == start + yul_expressions_text(v@.subrange(0, i as int)),
        decreases n - i,
    {
        proof {
            lemma_yul_all_renderable_at(v@, i as int);
            assert(v@.subrange(0, i as int + 1).subrange(0, i as int) =~= v@.subrange(0, i as int));
        }
        if i > 0 {
            out.append(", ");
        }
        v[i].write(out);
        i = i + 1;
    }
    proof {
        assert(v@.subrange(0, n as int) =~= v@);
    }
}

proof fn lemma_yul_all_renderable_at(s: Seq<YulExpression>, i: int)
    requires
        0 <= i < s.len(),
        yul_all_renderable(s),
    ensures
        yul_renderable(s[i]),
    decreases s.len(),
{
    if i < s.len() - 1 {
        lemma_yul_all_renderable_at(s.subrange(0, s.len() - 1), i);
    }
}

fn write_strings(v: &Vec<String>, out: &mut String)
    ensures
        final(out)@ == old(out)@ + strings_comma_text(v@),
{
    let ghost start = out@;
    let n = v.len();
    let mut i: usize = 0;
    while i < n
        invariant
            n == v@.len(),
            0 <= i <= n,
            out@ == start + strings_comma_text(v@.subrange(0, i as int)),
        decreases n - i,
    {
        proof {
            assert(v@.subrange(0, i as int + 1).subrange(0, i as int) =~= v@.subrange(0, i as int));
        }
        if i > 0 {
            out.append(", ");
        }
        out.append(v[i].as_str());
        i = i + 1;
    }
    proof {
        assert(v@.subrange(0, n as int) =~= v@);
    }
}

/// Strings separated by commas.
pub open spec fn strings_comma_text(s: Seq<String>) -> Seq<char> {
    strings_text(s, ", "@)
}

fn write_typed_names(v: &Vec<(String, YulType)>, out: &mut String)
    ensures
        final(out)@ == old(out)@ + typed_names_text(v@),
{
    let ghost start = out@;
    let n = v.len();
    let mut i: usize = 0;
    while i < n
        invariant
            n == v@.len(),
            0 <= i <= n,
            out@ == start + typed_names_text(v@.subrange(0, i as int)),
        decreases n - i,
    {
        proof {
            assert(v@.subrange(0, i as int + 1).subrange(0, i as int) =~= v@.subrange(0, i as int));
        }
        if i > 0 {
            out.append(", ");
        }
        out.append(v[i].0.as_str());
        out.append(": ");
        v[i].1.write(out);
        i = i + 1;
    }
    proof {
        assert(v@.subrange(0, n as int) =~= v@);
    }
}

impl YulBlock {
    /// Appends the text of the block to `out`.
    pub fn write(&self, out: &mut String)
        requires
            yul_block_renderable(*self),
        ensures
            final(out)@ == old(out)@ + yul_block_text(*self),
        decreases self, 1nat,
    {
        out.append("{ \n ");
        write_yul_statements(&self.statements, out);
        out.append(" \n }");
    }

    /// The text of the node.
    pub fn to_string(&self) -> (res: String)
        requires
            yul_block_renderable(*self),
        ensures
            res@ == yul_block_text(*self),
    {
        let mut out = String::new();
        self.write(&mut out);
        out
    }
}

pub fn write_yul_statements(v: &Vec<YulStatement>, out: &mut String)
    requires
        yul_statements_renderable(v@),
    ensures
        final(out)@ == old(out)@ + yul_statements_text(v@),
    decreases v@, 2nat,
{
    let ghost start = out@;
    let n = v.len();
    let mut i: usize = 0;
    while i < n
        invariant
            n == v@.len(),
            0 <= i <= n,
            yul_statements_renderable(v@),
            out@ == start + yul_statements_text(v@.subrange(0, i as int)),
        decreases n - i,
    {
        proof {
            lemma_yul_statements_renderable_at(v@, i as int);
            assert(v@.subrange(0, i as int + 1).subrange(0, i as int) =~= v@.subrange(0, i as int));
        }
        if i > 0 {
            out.append("\n");
        }
        v[i].write(out);
        i = i + 1;
    }
    proof {
        assert(v@.subrange(0, n as int) =~= v@);
    }
}

proof fn lemma_yul_statements_renderable_at(s: Seq<YulStatement>, i: int)
    requires
        0 <= i < s.len(),
        yul_statements_renderable(s),
    ensures
        yul_statement_renderable(s[i]),
    decreases s.len(),
{
    if i < s.len() - 1 {
        lemma_yul_statements_renderable_at(s.subrange(0, s.len() - 1), i);
    }
}

fn write_yul_cases(v: &Vec<(YulLiteral, YulBlock)>, out: &mut String)
    requires
        yul_cases_renderable(v@),
    ensures
        final(out)@ == old(out)@ + yul_cases_text(v@),
    decreases v@, 2nat,
{
    let ghost start = out@;
    let n = v.len();
    let mut i: usize = 0;
    while i < n
        invariant
            n == v@.len(),
            0 <= i <= n,
            yul_cases_renderable(v@),
            out@ == start + yul_cases_text(v@.subrange(0, i as int)),
        decreases n - i,
    {
        proof {
            lemma_yul_cases_renderable_at(v@, i as int);
            assert(v@.subrange(0, i as int + 1).subrange(0, i as int) =~= v@.subrange(0, i as int));
        }
        if i > 0 {
            out.append("\n");
        }
        out.append("case ");
        v[i].0.write(out);
        out.append(" ");
        v[i].1.write(out);
        i = i + 1;
    }
    proof {
        assert(v@.subrange(0, n as int) =~= v@);
    }
}

proof fn lemma_yul_cases_renderable_at(s: Seq<(YulLiteral, YulBlock)>, i: int)
    requires
        0 <= i < s.len(),
        yul_cases_renderable(s),
    ensures
        yul_literal_renderable(s[i].0) && yul_block_renderable(s[i].1),
    decreases s.len(),
{
    if i < s.len() - 1 {
        lemma_yul_cases_renderable_at(s.subrange(0, s.len() - 1), i);
    }
}

impl YulFunctionDefinition {
    /// Appends the text of the function definition to `out`.
    pub fn write(&self, out: &mut String)
        requires
            yul_block_renderable(self.body),
        ensures
            final(out)@ == old(out)@ + yul_function_definition_text(*self),
        decreases self, 1nat,
    {
        out.append(self.identifier.as_str());
        out.append("(");
        write_typed_names(&self.arguments, out);
        out.append(") ");
        if self.returns.len() > 0 {
            out.append("-> ");
            write_typed_names(&self.arguments, out);
        }
        out.append(" ");
        self.body.write(out);
    }

    /// The text of the node.
    pub fn to_string(&self) -> (res: String)
        requires
            yul_block_renderable(self.body),
        ensures
            res@ == yul_function_definition_text(*self),
    {
        let mut out = String::new();
        self.write(&mut out);
        out
    }
}

impl YulSwitch {
    /// Appends the text of the switch to `out`.
    pub fn write(&self, out: &mut String)
        requires
            yul_statement_renderable(YulStatement::Switch(*self)),
        ensures
            final(out)@ == old(out)@ + yul_switch_text(*self),
        decreases self, 1nat,
    {
        out.append("switch ");
        self.expression.write(out);
        out.append(" \n ");
        write_yul_cases(&self.cases, out);
        match &self.default {
            Some(d) => {
                out.append("\n default ");
                d.write(out);
            },
            None => {},
        }
    }

    /// The text of the node.
    pub fn to_string(&self) -> (res: String)
        requires
            yul_statement_renderable(YulStatement::Switch(*self)),
        ensures
            res@ == yul_switch_text(*self),
    {
        let mut out = String::new();
        self.write(&mut out);
        out
    }
}

impl YulIf {
    /// Appends the text of the conditional to `out`.
    pub fn write(&self, out: &mut String)
        requires
            yul_statement_renderable(YulStatement::If(*self)),
        ensures
            final(out)@ == old(out)@ + yul_statement_text(YulStatement::If(*self)),
        decreases self, 1nat,
    {
        out.append("if ");
        self.expression.write(out);
        out.append(" ");
        self.block.write(out);
    }

    /// The text of the node.
    pub fn to_string(&self) -> (res: String)
        requires
            yul_statement_renderable(YulStatement::If(*self)),
        ensures
            res@ == yul_statement_text(YulStatement::If(*self)),
    {
        let mut out = String::new();
        self.write(&mut out);
        out
    }
}

impl YulForLoop {
    /// Appends the text of the loop to `out`.
    pub fn write(&self, out: &mut String)
        requires
            yul_statement_renderable(YulStatement::For(*self)),
        ensures
            final(out)@ == old(out)@ + yul_statement_text(YulStatement::For(*self)),
        decreases self, 1nat,
    {
        out.append("for ");
        self.initialise.write(out);
        out.append(" ");
        self.condition.write(out);
        out.append(" ");
        self.step.write(out);
        out.append(" ");
        self.body.write(out);
    }

    /// The text of the node.
    pub fn to_string(&self) -> (res: String)
        requires
            yul_statement_renderable(YulStatement::For(*self)),
        ensures
            res@ == yul_statement_text(YulStatement::For(*self)),
    {
        let mut out = String::new();
        self.write(&mut out);
        out
    }
}

impl YulStatement {
    /// Appends the text of the statement to `out`.
    pub fn write(&self, out: &mut String)
        requires
            yul_statement_renderable(*self),
        ensures
            final(out)@ == old(out)@ + yul_statement_text(*self),
        decreases self, 0nat,
    {
        match self {
            YulStatement::Block(b) => b.write(out),
            YulStatement::FunctionDefinition(fd) => fd.write(out),
            YulStatement::If(i) => i.write(out),
            YulStatement::Expression(e) => e.write(out),
            YulStatement::Switch(sw) => sw.write(out),
            YulStatement::For(f) => f.write(out),
            YulStatement::Break => out.append("break"),
            YulStatement::Continue => out.append("continue"),
            YulStatement::Noop => {},
            YulStatement::Inline(t) => out.append(t.as_str()),
        }
    }

    /// The text of the node.
    pub fn to_string(&self) -> (res: String)
        requires
            yul_statement_renderable(*self),
        ensures
            res@ == yul_statement_text(*self),
    {
        let mut out = String::new();
        self.write(&mut out);
        out
    }
}

} // verus!
