//! The binary operators of Flint: their precedence.

use vstd::prelude::*;
use crate::ast::BinOp;
use super::literals::{has_at, has_word_at};
use super::utils::{comment_end, is_advance, lemma_newline_from_after, span_wf, ParseError, ParseResult, Span};

verus! {

/// How tightly an operator binds: member access binds tightest, then power,
/// multiplication and division, addition and subtraction, comparison, `&&`,
/// `||`, and the assignments loosest.
pub open spec fn precedence(op: BinOp) -> i32 {
    match op {
        BinOp::Plus => 20,
        BinOp::OverflowingPlus => 20,
        BinOp::Minus => 20,
        BinOp::OverflowingMinus => 20,
        BinOp::Times => 30,
        BinOp::OverflowingTimes => 30,
        BinOp::Power => 31,
        BinOp::Divide => 30,
        BinOp::Percent => 30,
        BinOp::Dot => 40,
        BinOp::Equal => 10,
        BinOp::PlusEqual => 10,
        BinOp::MinusEqual => 10,
        BinOp::TimesEqual => 10,
        BinOp::DivideEqual => 10,
        BinOp::DoubleEqual => 15,
        BinOp::NotEqual => 15,
        BinOp::LessThan => 15,
        BinOp::LessThanOrEqual => 15,
        BinOp::GreaterThan => 15,
        BinOp::GreaterThanOrEqual => 15,
        BinOp::Or => 11,
        BinOp::And => 12,
    }
}

/// The precedence of a binary operator.
pub fn get_operator_precedence(op: &BinOp) -> (res: i32)
    ensures
        res == precedence(*op),
{
    match op {
        BinOp::Plus => 20,
        BinOp::OverflowingPlus => 20,
        BinOp::Minus => 20,
        BinOp::OverflowingMinus => 20,
        BinOp::Times => 30,
        BinOp::OverflowingTimes => 30,
        BinOp::Power => 31,
        BinOp::Divide => 30,
        BinOp::Percent => 30,
        BinOp::Dot => 40,
        BinOp::Equal => 10,
        BinOp::PlusEqual => 10,
        BinOp::MinusEqual => 10,
        BinOp::TimesEqual => 10,
        BinOp::DivideEqual => 10,
        BinOp::DoubleEqual => 15,
        BinOp::NotEqual => 15,
        BinOp::LessThan => 15,
        BinOp::LessThanOrEqual => 15,
        BinOp::GreaterThan => 15,
        BinOp::GreaterThanOrEqual => 15,
        BinOp::Or => 11,
        BinOp::And => 12,
    }
}

/// The grouping of the operators by how tightly they bind, loosest first:
/// assignments, `||`, `&&`, comparisons, additive, multiplicative, power,
/// member access.
pub open spec fn operator_class(op: BinOp) -> nat {
    match op {
        BinOp::Equal | BinOp::PlusEqual | BinOp::MinusEqual | BinOp::TimesEqual | BinOp::DivideEqual => 0,
        BinOp::Or => 1,
        BinOp::And => 2,
        BinOp::DoubleEqual | BinOp::NotEqual | BinOp::LessThan | BinOp::LessThanOrEqual
        | BinOp::GreaterThan | BinOp::GreaterThanOrEqual => 3,
        BinOp::Plus | BinOp::OverflowingPlus | BinOp::Minus | BinOp::OverflowingMinus => 4,
        BinOp::Times | BinOp::OverflowingTimes | BinOp::Divide | BinOp::Percent => 5,
        BinOp::Power => 6,
        BinOp::Dot => 7,
    }
}

/// Precedence orders the operators exactly by their class: one operator
/// binds tighter than another just when its class comes later, and
/// operators of one class bind alike.
pub proof fn law_precedence_follows_class(a: BinOp, b: BinOp)
    ensures
        precedence(a) < precedence(b) <==> operator_class(a) < operator_class(b),
        precedence(a) == precedence(b) <==> operator_class(a) == operator_class(b),
{
}

/// The operator tokens in the order in which they are tried: the
/// two-character assignments and comparisons before the one-character
/// operators they begin with, `**` before `*`.
pub open spec fn operator_token(k: u8) -> Seq<char> {
    match k {
        0 => "=="@,
        1 => "!="@,
        2 => "+="@,
        3 => "-="@,
        4 => "*="@,
        5 => "/="@,
        6 => ">="@,
        7 => "<="@,
        8 => "+"@,
        9 => "-"@,
        10 => "**"@,
        11 => "*"@,
        12 => "/"@,
        13 => "."@,
        14 => "="@,
        15 => "<"@,
        16 => ">"@,
        17 => "&&"@,
        _ => "||"@,
    }
}

/// The operator that the token at position `k` of the order stands for.
pub open spec fn operator_at(k: u8) -> BinOp {
    match k {
        0 => BinOp::DoubleEqual,
        1 => BinOp::NotEqual,
        2 => BinOp::PlusEqual,
        3 => BinOp::MinusEqual,
        4 => BinOp::TimesEqual,
        5 => BinOp::DivideEqual,
        6 => BinOp::GreaterThanOrEqual,
        7 => BinOp::LessThanOrEqual,
        8 => BinOp::Plus,
        9 => BinOp::Minus,
        10 => BinOp::Power,
        11 => BinOp::Times,
        12 => BinOp::Divide,
        13 => BinOp::Dot,
        14 => BinOp::Equal,
        15 => BinOp::LessThan,
        16 => BinOp::GreaterThan,
        17 => BinOp::And,
        _ => BinOp::Or,
    }
}

/// The position in the order of the first operator token, from `k` on,
/// that the text starts with.
pub open spec fn operator_match_from(s: Seq<char>, k: int) -> Option<u8>
    decreases 19 - k,
{
    if k < 0 || k >= 19 {
        None
    } else if has_at(s, 0, operator_token(k as u8)) {
        Some(k as u8)
    } else {
        operator_match_from(s, k + 1)
    }
}

/// The operator token found is one the text starts with.
pub proof fn lemma_operator_match(s: Seq<char>, k: int)
    ensures
        operator_match_from(s, k) matches Some(m) ==> has_at(s, 0, operator_token(m)),
    decreases 19 - k,
{
    if 0 <= k < 19 {
        lemma_operator_match(s, k + 1);
    }
}

/// The token that writes the binary operator `op` in Flint source (`None`
/// for the operators that source text has no token for).
pub open spec fn binop_token(op: BinOp) -> Option<Seq<char>> {
    match op {
        BinOp::DoubleEqual => Some("=="@),
        BinOp::NotEqual => Some("!="@),
        BinOp::PlusEqual => Some("+="@),
        BinOp::MinusEqual => Some("-="@),
        BinOp::TimesEqual => Some("*="@),
        BinOp::DivideEqual => Some("/="@),
        BinOp::GreaterThanOrEqual => Some(">="@),
        BinOp::LessThanOrEqual => Some("<="@),
        BinOp::Plus => Some("+"@),
        BinOp::Minus => Some("-"@),
        BinOp::Power => Some("**"@),
        BinOp::Times => Some("*"@),
        BinOp::Divide => Some("/"@),
        BinOp::Dot => Some("."@),
        BinOp::Equal => Some("="@),
        BinOp::LessThan => Some("<"@),
        BinOp::GreaterThan => Some(">"@),
        BinOp::And => Some("&&"@),
        BinOp::Or => Some("||"@),
        _ => None,
    }
}

/// A token found in the order lies within it.
proof fn lemma_operator_match_bounds(s: Seq<char>, k: int)
    ensures
        operator_match_from(s, k) matches Some(m) ==> k <= m < 19,
    decreases 19 - k,
{
    if 0 <= k < 19 {
        lemma_operator_match_bounds(s, k + 1);
    }
}

/// Each position of the order pairs a token with the operator it writes.
proof fn lemma_order_pairs_token_and_operator(k: u8)
    requires
        k < 19,
    ensures
        binop_token(operator_at(k)) == Some(operator_token(k)),
{
}

/// The operator parsed is the one that the consumed text writes: the input
/// starts with the operator's token, and parsing consumes exactly that
/// token (so `<` parses to `LessThan`, `>` to `GreaterThan`, whatever order
/// the tokens are tried in).
pub proof fn law_parsed_operator_is_written_by_its_token(res: ParseResult<BinOp>, i: Span)
    requires
        binary_op_parsed(res, i),
    ensures
        res matches Ok((rest, op)) ==> (binop_token(op) matches Some(t) && has_at(i.fragment@, 0, t) && is_advance(
            i,
            rest,
            t.len() as int,
        )),
{
    lemma_operator_match(i.fragment@, 0);
    lemma_operator_match_bounds(i.fragment@, 0);
    if let Some(k) = operator_match_from(i.fragment@, 0) {
        lemma_order_pairs_token_and_operator(k);
    }
}

fn token_at(k: u8) -> (res: &'static str)
    ensures
        res@ == operator_token(k),
{
    match k {
        0 => "==",
        1 => "!=",
        2 => "+=",
        3 => "-=",
        4 => "*=",
        5 => "/=",
        6 => ">=",
        7 => "<=",
        8 => "+",
        9 => "-",
        10 => "**",
        11 => "*",
        12 => "/",
        13 => ".",
        14 => "=",
        15 => "<",
        16 => ">",
        17 => "&&",
        _ => "||",
    }
}

fn op_at(k: u8) -> (res: BinOp)
    ensures
        res == operator_at(k),
{
    match k {
        0 => BinOp::DoubleEqual,
        1 => BinOp::NotEqual,
        2 => BinOp::PlusEqual,
        3 => BinOp::MinusEqual,
        4 => BinOp::TimesEqual,
        5 => BinOp::DivideEqual,
        6 => BinOp::GreaterThanOrEqual,
        7 => BinOp::LessThanOrEqual,
        8 => BinOp::Plus,
        9 => BinOp::Minus,
        10 => BinOp::Power,
        11 => BinOp::Times,
        12 => BinOp::Divide,
        13 => BinOp::Dot,
        14 => BinOp::Equal,
        15 => BinOp::LessThan,
        16 => BinOp::GreaterThan,
        17 => BinOp::And,
        _ => BinOp::Or,
    }
}

/// `res` is the outcome of parsing a binary operator at the start of `i`:
/// the first token of the order that the text starts with.
pub open spec fn binary_op_parsed(res: ParseResult<BinOp>, i: Span) -> bool {
    match operator_match_from(i.fragment@, 0) {
        Some(k) => {
            &&& res matches Ok((rest, op))
            &&& is_advance(i, rest, operator_token(k).len() as int)
            &&& span_wf(rest)
            &&& op == operator_at(k)
        },
        None => res == Err::<(Span, BinOp), ParseError>(ParseError { offset: i.offset, failure: false }),
    }
}

/// Parses a binary operator.
pub fn parse_binary_op(i: Span) -> (res: ParseResult<BinOp>)
    requires
        span_wf(i),
    ensures
        binary_op_parsed(res, i),
{
    let mut k: u8 = 0;
    while k < 19
        invariant
            k <= 19,
            span_wf(i),
            operator_match_from(i.fragment@, k as int) == operator_match_from(i.fragment@, 0),
        decreases 19 - k,
    {
        let token = token_at(k);
        if has_word_at(&i.fragment, 0, token) {
            proof {
                lemma_operator_match(i.fragment@, 0);
            }
            let len = token.unicode_len();
            return Ok((i.advance(len), op_at(k)));
        }
        k = k + 1;
    }
    Err(ParseError { offset: i.offset, failure: false })
}

/// `res` is the outcome of matching `word` at the start of `i`: the rest
/// after it and the matched text, positioned where it starts.
pub open spec fn tag_parsed(res: ParseResult<Span>, i: Span, word: Seq<char>) -> bool {
    if has_at(i.fragment@, 0, word) {
        &&& res matches Ok((rest, m))
        &&& is_advance(i, rest, word.len() as int)
        &&& span_wf(rest)
        &&& m.fragment@ == word
        &&& m.offset == i.offset
        &&& m.line == i.line
    } else {
        res == Err::<(Span, Span), ParseError>(ParseError { offset: i.offset, failure: false })
    }
}

/// `res` is the outcome of matching the token of `op` at the start of `i`.
pub open spec fn operator_token_parsed(res: ParseResult<BinOp>, i: Span, word: Seq<char>, op: BinOp) -> bool {
    if has_at(i.fragment@, 0, word) {
        &&& res matches Ok((rest, o))
        &&& is_advance(i, rest, word.len() as int)
        &&& span_wf(rest)
        &&& o == op
    } else {
        res == Err::<(Span, BinOp), ParseError>(ParseError { offset: i.offset, failure: false })
    }
}

/// Matches `word` at the start of the span.
pub fn tag(i: Span, word: &str) -> (res: ParseResult<Span>)
    requires
        span_wf(i),
    ensures
        tag_parsed(res, i, word@),
{
    if !has_word_at(&i.fragment, 0, word) {
        return Err(ParseError { offset: i.offset, failure: false });
    }
    let n = word.unicode_len();
    let mut fragment: Vec<char> = Vec::new();
    let mut k: usize = 0;
    while k < n
        invariant
            n == word@.len(),
            n <= i.fragment@.len(),
            k <= n,
            fragment@ == word@.take(k as int),
        decreases n - k,
    {
        fragment.push(word.get_char(k));
        k = k + 1;
        assert(fragment@ =~= word@.take(k as int));
    }
    assert(fragment@ =~= word@);
    Ok((i.advance(n), Span { fragment, offset: i.offset, line: i.line }))
}

/// Matches the token of an operator at the start of the span.
fn match_operator(i: Span, word: &str, op: BinOp) -> (res: ParseResult<BinOp>)
    requires
        span_wf(i),
    ensures
        operator_token_parsed(res, i, word@, op),
{
    if !has_word_at(&i.fragment, 0, word) {
        return Err(ParseError { offset: i.offset, failure: false });
    }
    let n = word.unicode_len();
    Ok((i.advance(n), op))
}

/// Parses `>=`.
pub fn greater_than_equal_operator(i: Span) -> (res: ParseResult<BinOp>)
    requires
        span_wf(i),
    ensures
        operator_token_parsed(res, i, ">="@, BinOp::GreaterThanOrEqual),
{
    match_operator(i, ">=", BinOp::GreaterThanOrEqual)
}

/// Parses `<=`.
pub fn less_than_equal_operator(i: Span) -> (res: ParseResult<BinOp>)
    requires
        span_wf(i),
    ensures
        operator_token_parsed(res, i, "<="@, BinOp::LessThanOrEqual),
{
    match_operator(i, "<=", BinOp::LessThanOrEqual)
}

/// Parses `**`.
pub fn power_operator(i: Span) -> (res: ParseResult<BinOp>)
    requires
        span_wf(i),
    ensures
        operator_token_parsed(res, i, "**"@, BinOp::Power),
{
    match_operator(i, "**", BinOp::Power)
}

/// Parses `*`.
pub fn times_operator(i: Span) -> (res: ParseResult<BinOp>)
    requires
        span_wf(i),
    ensures
        operator_token_parsed(res, i, "*"@, BinOp::Times),
{
    match_operator(i, "*", BinOp::Times)
}

/// Parses `/`.
pub fn divide_operator(i: Span) -> (res: ParseResult<BinOp>)
    requires
        span_wf(i),
    ensures
        operator_token_parsed(res, i, "/"@, BinOp::Divide),
{
    match_operator(i, "/", BinOp::Divide)
}

/// Parses `&&`.
pub fn and_operator(i: Span) -> (res: ParseResult<BinOp>)
    requires
        span_wf(i),
    ensures
        operator_token_parsed(res, i, "&&"@, BinOp::And),
{
    match_operator(i, "&&", BinOp::And)
}

/// Parses `||`.
pub fn or_operator(i: Span) -> (res: ParseResult<BinOp>)
    requires
        span_wf(i),
    ensures
        operator_token_parsed(res, i, "||"@, BinOp::Or),
{
    match_operator(i, "||", BinOp::Or)
}

/// Parses `==`.
pub fn double_equal_operator(i: Span) -> (res: ParseResult<BinOp>)
    requires
        span_wf(i),
    ensures
        operator_token_parsed(res, i, "=="@, BinOp::DoubleEqual),
{
    match_operator(i, "==", BinOp::DoubleEqual)
}

/// Parses `!=`.
pub fn not_equal_operator(i: Span) -> (res: ParseResult<BinOp>)
    requires
        span_wf(i),
    ensures
        operator_token_parsed(res, i, "!="@, BinOp::NotEqual),
{
    match_operator(i, "!=", BinOp::NotEqual)
}

/// Parses `+`.
pub fn plus_operator(i: Span) -> (res: ParseResult<BinOp>)
    requires
        span_wf(i),
    ensures
        operator_token_parsed(res, i, "+"@, BinOp::Plus),
{
    match_operator(i, "+", BinOp::Plus)
}

/// Parses `-`.
pub fn minus_operator(i: Span) -> (res: ParseResult<BinOp>)
    requires
        span_wf(i),
    ensures
        operator_token_parsed(res, i, "-"@, BinOp::Minus),
{
    match_operator(i, "-", BinOp::Minus)
}

/// Parses `+=`.
pub fn plus_equal_operator(i: Span) -> (res: ParseResult<BinOp>)
    requires
        span_wf(i),
    ensures
        operator_token_parsed(res, i, "+="@, BinOp::PlusEqual),
{
    match_operator(i, "+=", BinOp::PlusEqual)
}

/// Parses `-=`.
pub fn minus_equal_operator(i: Span) -> (res: ParseResult<BinOp>)
    requires
        span_wf(i),
    ensures
        operator_token_parsed(res, i, "-="@, BinOp::MinusEqual),
{
    match_operator(i, "-=", BinOp::MinusEqual)
}

/// Parses `*=`.
pub fn times_equal_operator(i: Span) -> (res: ParseResult<BinOp>)
    requires
        span_wf(i),
    ensures
        operator_token_parsed(res, i, "*="@, BinOp::TimesEqual),
{
    match_operator(i, "*=", BinOp::TimesEqual)
}

/// Parses `/=`.
pub fn divide_equal_operator(i: Span) -> (res: ParseResult<BinOp>)
    requires
        span_wf(i),
    ensures
        operator_token_parsed(res, i, "/="@, BinOp::DivideEqual),
{
    match_operator(i, "/=", BinOp::DivideEqual)
}

/// Parses `=`.
pub fn equal_operator(i: Span) -> (res: ParseResult<BinOp>)
    requires
        span_wf(i),
    ensures
        operator_token_parsed(res, i, "="@, BinOp::Equal),
{
    match_operator(i, "=", BinOp::Equal)
}

/// Parses `.`.
pub fn dot_operator(i: Span) -> (res: ParseResult<BinOp>)
    requires
        span_wf(i),
    ensures
        operator_token_parsed(res, i, "."@, BinOp::Dot),
{
    match_operator(i, ".", BinOp::Dot)
}

/// Parses `<`.
pub fn less_than_operator(i: Span) -> (res: ParseResult<BinOp>)
    requires
        span_wf(i),
    ensures
        operator_token_parsed(res, i, "<"@, BinOp::LessThan),
{
    match_operator(i, "<", BinOp::LessThan)
}

/// Parses `>`.
pub fn greater_than_operator(i: Span) -> (res: ParseResult<BinOp>)
    requires
        span_wf(i),
    ensures
        operator_token_parsed(res, i, ">"@, BinOp::GreaterThan),
{
    match_operator(i, ">", BinOp::GreaterThan)
}

/// Matches `{`.
pub fn left_brace(i: Span) -> (res: ParseResult<Span>)
    requires
        span_wf(i),
    ensures
        tag_parsed(res, i, "{"@),
{
    tag(i, "{")
}

/// Matches `}`.
pub fn right_brace(i: Span) -> (res: ParseResult<Span>)
    requires
        span_wf(i),
    ensures
        tag_parsed(res, i, "}"@),
{
    tag(i, "}")
}

/// Matches `[`.
pub fn left_square_bracket(i: Span) -> (res: ParseResult<Span>)
    requires
        span_wf(i),
    ensures
        tag_parsed(res, i, "["@),
{
    tag(i, "[")
}

/// Matches `]`.
pub fn right_square_bracket(i: Span) -> (res: ParseResult<Span>)
    requires
        span_wf(i),
    ensures
        tag_parsed(res, i, "]"@),
{
    tag(i, "]")
}

/// Matches `:`.
pub fn colon(i: Span) -> (res: ParseResult<Span>)
    requires
        span_wf(i),
    ensures
        tag_parsed(res, i, ":"@),
{
    tag(i, ":")
}

/// Matches `::`.
pub fn double_colon(i: Span) -> (res: ParseResult<Span>)
    requires
        span_wf(i),
    ensures
        tag_parsed(res, i, "::"@),
{
    tag(i, "::")
}

/// Matches `(`.
pub fn left_parens(i: Span) -> (res: ParseResult<Span>)
    requires
        span_wf(i),
    ensures
        tag_parsed(res, i, "("@),
{
    tag(i, "(")
}

/// Matches `)`.
pub fn right_parens(i: Span) -> (res: ParseResult<Span>)
    requires
        span_wf(i),
    ensures
        tag_parsed(res, i, ")"@),
{
    tag(i, ")")
}

/// Matches `@`.
pub fn at(i: Span) -> (res: ParseResult<Span>)
    requires
        span_wf(i),
    ensures
        tag_parsed(res, i, "@"@),
{
    tag(i, "@")
}

/// Matches `->`.
pub fn right_arrow(i: Span) -> (res: ParseResult<Span>)
    requires
        span_wf(i),
    ensures
        tag_parsed(res, i, "->"@),
{
    tag(i, "->")
}

/// Matches `<-`.
pub fn left_arrow(i: Span) -> (res: ParseResult<Span>)
    requires
        span_wf(i),
    ensures
        tag_parsed(res, i, "<-"@),
{
    tag(i, "<-")
}

/// Matches `,`.
pub fn comma(i: Span) -> (res: ParseResult<Span>)
    requires
        span_wf(i),
    ensures
        tag_parsed(res, i, ","@),
{
    tag(i, ",")
}

/// Matches `;`.
pub fn semi_colon(i: Span) -> (res: ParseResult<Span>)
    requires
        span_wf(i),
    ensures
        tag_parsed(res, i, ";"@),
{
    tag(i, ";")
}

/// Matches `//`.
pub fn double_slash(i: Span) -> (res: ParseResult<Span>)
    requires
        span_wf(i),
    ensures
        tag_parsed(res, i, "//"@),
{
    tag(i, "//")
}

/// Matches `//`.
pub fn percent(i: Span) -> (res: ParseResult<Span>)
    requires
        span_wf(i),
    ensures
        tag_parsed(res, i, "//"@),
{
    tag(i, "//")
}

/// Matches `..`.
pub fn double_dot(i: Span) -> (res: ParseResult<Span>)
    requires
        span_wf(i),
    ensures
        tag_parsed(res, i, ".."@),
{
    tag(i, "..")
}

/// Matches `&`.
pub fn ampersand(i: Span) -> (res: ParseResult<Span>)
    requires
        span_wf(i),
    ensures
        tag_parsed(res, i, "&"@),
{
    tag(i, "&")
}

/// Matches `!`.
pub fn bang(i: Span) -> (res: ParseResult<Span>)
    requires
        span_wf(i),
    ensures
        tag_parsed(res, i, "!"@),
{
    tag(i, "!")
}

/// Matches `?`.
pub fn question(i: Span) -> (res: ParseResult<Span>)
    requires
        span_wf(i),
    ensures
        tag_parsed(res, i, "?"@),
{
    tag(i, "?")
}

/// Matches `..<`.
pub fn half_open_range(i: Span) -> (res: ParseResult<Span>)
    requires
        span_wf(i),
    ensures
        tag_parsed(res, i, "..<"@),
{
    tag(i, "..<")
}

/// Matches `...`.
pub fn closed_range(i: Span) -> (res: ParseResult<Span>)
    requires
        span_wf(i),
    ensures
        tag_parsed(res, i, "..."@),
{
    tag(i, "...")
}

/// Parses a comment: `//` and the rest of its line, with the line break.
/// Both parts of the result are the rest after it.
pub fn parse_comment(i: Span) -> (res: ParseResult<Span>)
    requires
        span_wf(i),
    ensures
        match comment_end(i.fragment@, 0) {
            Some(e) => res matches Ok((rest, r)) && is_advance(i, rest, e) && span_wf(rest) && r.fragment@
                == rest.fragment@ && r.offset == rest.offset && r.line == rest.line,
            None => res matches Err(e) && !e.failure,
        },
{
    let s = &i.fragment;
    if !(s.len() >= 2 && s[0] == '/' && s[1] == '/') {
        return Err(ParseError { offset: i.offset, failure: false });
    }
    let mut j: usize = 2;
    while j < s.len() && s[j] != '\n'
        invariant
            s@ == i.fragment@,
            2 <= j <= s@.len(),
            super::utils::newline_from(s@, j as int) == super::utils::newline_from(s@, 2),
        decreases s@.len() - j,
    {
        j = j + 1;
    }
    if j >= s.len() {
        return Err(ParseError { offset: i.offset + j, failure: false });
    }
    proof {
        lemma_newline_from_after(s@, 2);
    }
    let rest = i.advance(j + 1);
    let copy = rest.copy();
    Ok((rest, copy))
}

} // verus!
