//! Literals: addresses, booleans, integers and strings.

use vstd::prelude::*;
use crate::ast::Literal;
use super::identifiers::is_ascii_digit;
use super::utils::{is_advance, span_wf, substring, ParseError, ParseResult, Span};

verus! {

/// Where the run of decimal digits that starts at `j` ends.
pub open spec fn digits_end(s: Seq<char>, j: int) -> int
    decreases s.len() - j,
{
    if 0 <= j < s.len() && is_ascii_digit(s[j]) {
        digits_end(s, j + 1)
    } else {
        j
    }
}

/// A hexadecimal digit, in either case.
pub open spec fn is_hex_digit(c: char) -> bool {
    is_ascii_digit(c) || (65 <= c as u32 <= 70) || (97 <= c as u32 <= 102)
}

/// Where the run of hexadecimal digits that starts at `j` ends.
pub open spec fn hex_digits_end(s: Seq<char>, j: int) -> int
    decreases s.len() - j,
{
    if 0 <= j < s.len() && is_hex_digit(s[j]) {
        hex_digits_end(s, j + 1)
    } else {
        j
    }
}

/// The number that the decimal digits from `a` up to `b` write.
pub open spec fn digits_value(s: Seq<char>, a: int, b: int) -> nat
    decreases b - a,
{
    if b <= a {
        0
    } else {
        digits_value(s, a, b - 1) * 10 + (s[b - 1] as u32 - 48) as nat
    }
}

/// Runs of digits end within the text, at or after their start.
pub proof fn lemma_digits_end(s: Seq<char>, j: int)
    requires
        0 <= j <= s.len(),
    ensures
        j <= digits_end(s, j) <= s.len(),
        j <= hex_digits_end(s, j) <= s.len(),
    decreases s.len() - j,
{
    if j < s.len() {
        lemma_digits_end(s, j + 1);
    }
}

fn is_digit(c: char) -> (res: bool)
    ensures
        res == is_ascii_digit(c),
{
    '0' <= c && c <= '9'
}

fn is_hex(c: char) -> (res: bool)
    ensures
        res == is_hex_digit(c),
{
    is_digit(c) || ('A' <= c && c <= 'F') || ('a' <= c && c <= 'f')
}

/// Whether the text at position `j` starts with `word`.
pub open spec fn has_at(s: Seq<char>, j: int, word: Seq<char>) -> bool {
    0 <= j && j + word.len() <= s.len() && s.subrange(j, j + word.len()) == word
}

/// Whether the text at position `j` of `s` starts with `word`.
pub fn has_word_at(s: &Vec<char>, j: usize, word: &str) -> (res: bool)
    ensures
        res == has_at(s@, j as int, word@),
{
    let n = word.unicode_len();
    if j > s.len() || n > s.len() - j {
        return false;
    }
    let mut k: usize = 0;
    while k < n
        invariant
            n == word@.len(),
            j + n <= s@.len(),
            s@.len() <= usize::MAX,
            k <= n,
            s@.subrange(j as int, j + k) == word@.subrange(0, k as int),
        decreases n - k,
    {
        if s[j + k] != word.get_char(k) {
            assert(s@.subrange(j as int, j + n)[k as int] != word@[k as int]);
            return false;
        }
        k = k + 1;
        assert(s@.subrange(j as int, j + k) =~= word@.subrange(0, k as int));
    }
    assert(word@.subrange(0, n as int) =~= word@);
    true
}

fn starts_with_word(s: &Vec<char>, word: &str) -> (res: bool)
    ensures
        res == has_at(s@, 0, word@),
{
    has_word_at(s, 0, word)
}

/// The end of the run of digits at position `a` of `s`, and the number they
/// write where it fits in 64 bits.
pub fn digits_from(s: &Vec<char>, a: usize) -> (res: (usize, Option<u64>))
    requires
        a <= s@.len(),
    ensures
        res.0 == digits_end(s@, a as int),
        a <= res.0 <= s@.len(),
        digits_value(s@, a as int, res.0 as int) <= u64::MAX ==> res.1 == Some(
            digits_value(s@, a as int, res.0 as int) as u64,
        ),
        digits_value(s@, a as int, res.0 as int) > u64::MAX ==> res.1 is None,
{
    let mut value: u64 = 0;
    let mut j: usize = a;
    let mut overflow = false;
    proof {
        lemma_digits_end(s@, a as int);
    }
    while j < s.len() && is_digit(s[j])
        invariant
            a <= j <= s@.len(),
            digits_end(s@, j as int) == digits_end(s@, a as int),
            !overflow ==> value == digits_value(s@, a as int, j as int),
            overflow ==> digits_value(s@, a as int, j as int) > u64::MAX,
        decreases s@.len() - j,
    {
        let d = (s[j] as u32 - 48) as u64;
        if !overflow {
            match value.checked_mul(10) {
                Some(v) => match v.checked_add(d) {
                    Some(w) => {
                        value = w;
                    },
                    None => {
                        overflow = true;
                    },
                },
                None => {
                    overflow = true;
                },
            }
        } else {
            assert(digits_value(s@, a as int, j as int + 1) >= digits_value(s@, a as int, j as int)) by (nonlinear_arith)
                requires
                    digits_value(s@, a as int, j as int + 1) == digits_value(s@, a as int, j as int) * 10 + d,
            ;
        }
        j = j + 1;
    }
    if overflow {
        (j, None)
    } else {
        (j, Some(value))
    }
}

/// `res` is the outcome of parsing an integer at the start of `i`: the
/// number its digits write, where there are some and it fits in 64 bits.
pub open spec fn integer_parsed(res: ParseResult<Literal>, i: Span) -> bool {
    let s = i.fragment@;
    let end = digits_end(s, 0);
    if end > 0 && digits_value(s, 0, end) <= u64::MAX {
        &&& res matches Ok((rest, lit))
        &&& is_advance(i, rest, end)
        &&& span_wf(rest)
        &&& lit == Literal::IntLiteral(digits_value(s, 0, end) as u64)
    } else {
        res == Err::<(Span, Literal), ParseError>(ParseError { offset: i.offset, failure: false })
    }
}

/// Parses an unsigned integer that fits in 64 bits.
pub fn integer(i: Span) -> (res: ParseResult<Literal>)
    requires
        span_wf(i),
    ensures
        integer_parsed(res, i),
{
    let (end, value) = digits_from(&i.fragment, 0);
    if end == 0 {
        return Err(ParseError { offset: i.offset, failure: false });
    }
    match value {
        Some(v) => Ok((i.advance(end), Literal::IntLiteral(v))),
        None => Err(ParseError { offset: i.offset, failure: false }),
    }
}

/// `res` is the outcome of parsing an address at the start of `i`: `0x`
/// and at least one hexadecimal digit, kept as written.
pub open spec fn address_parsed(res: ParseResult<Literal>, i: Span) -> bool {
    let s = i.fragment@;
    let end = hex_digits_end(s, 2);
    if has_at(s, 0, "0x"@) && end > 2 {
        &&& res matches Ok((rest, Literal::AddressLiteral(a)))
        &&& is_advance(i, rest, end)
        &&& span_wf(rest)
        &&& a@ == s.subrange(0, end)
    } else {
        res matches Err(e) && !e.failure
    }
}

/// Parses an address literal: `0x` and hexadecimal digits.
pub fn address_literal(i: Span) -> (res: ParseResult<Literal>)
    requires
        span_wf(i),
    ensures
        address_parsed(res, i),
{
    proof {
        reveal_strlit("0x");
    }
    let s = &i.fragment;
    if !starts_with_word(s, "0x") {
        return Err(ParseError { offset: i.offset, failure: false });
    }
    proof {
        lemma_digits_end(s@, 2);
    }
    let mut j: usize = 2;
    while j < s.len() && is_hex(s[j])
        invariant
            s@ == i.fragment@,
            2 <= j <= s@.len(),
            hex_digits_end(s@, j as int) == hex_digits_end(s@, 2),
        decreases s@.len() - j,
    {
        j = j + 1;
    }
    if j == 2 {
        return Err(ParseError { offset: i.offset + 2, failure: false });
    }
    let address = substring(s, 0, j);
    Ok((i.advance(j), Literal::AddressLiteral(address)))
}

/// `res` is the outcome of parsing a boolean at the start of `i`: `true`
/// or `false`, whatever follows.
pub open spec fn boolean_parsed(res: ParseResult<Literal>, i: Span) -> bool {
    let s = i.fragment@;
    if has_at(s, 0, "true"@) {
        &&& res matches Ok((rest, lit))
        &&& is_advance(i, rest, 4)
        &&& span_wf(rest)
        &&& lit == Literal::BooleanLiteral(true)
    } else if has_at(s, 0, "false"@) {
        &&& res matches Ok((rest, lit))
        &&& is_advance(i, rest, 5)
        &&& span_wf(rest)
        &&& lit == Literal::BooleanLiteral(false)
    } else {
        res == Err::<(Span, Literal), ParseError>(ParseError { offset: i.offset, failure: false })
    }
}

/// Parses `true` or `false`.
pub fn parse_boolean_literal(i: Span) -> (res: ParseResult<Literal>)
    requires
        span_wf(i),
    ensures
        boolean_parsed(res, i),
{
    proof {
        reveal_strlit("true");
        reveal_strlit("false");
    }
    if starts_with_word(&i.fragment, "true") {
        Ok((i.advance(4), Literal::BooleanLiteral(true)))
    } else if starts_with_word(&i.fragment, "false") {
        Ok((i.advance(5), Literal::BooleanLiteral(false)))
    } else {
        Err(ParseError { offset: i.offset, failure: false })
    }
}

/// The position of the first double quote at or after `j`, if any.
pub open spec fn quote_from(s: Seq<char>, j: int) -> Option<int>
    decreases s.len() - j,
{
    if j < 0 || j >= s.len() {
        None
    } else if s[j] == '"' {
        Some(j)
    } else {
        quote_from(s, j + 1)
    }
}

/// `res` is the outcome of parsing a string at the start of `i`: the text
/// between a double quote and the next one.
pub open spec fn string_parsed(res: ParseResult<Literal>, i: Span) -> bool {
    let s = i.fragment@;
    if s.len() > 0 && s[0] == '"' && quote_from(s, 1) is Some {
        let close = quote_from(s, 1)->0;
        &&& res matches Ok((rest, Literal::StringLiteral(t)))
        &&& is_advance(i, rest, close + 1)
        &&& span_wf(rest)
        &&& t@ == s.subrange(1, close)
    } else {
        res matches Err(e) && !e.failure
    }
}

/// The first double quote at or after `j` is at or after `j`.
pub proof fn lemma_quote_from(s: Seq<char>, j: int)
    ensures
        quote_from(s, j) matches Some(k) ==> j <= k < s.len() && s[k] == '"',
    decreases s.len() - j,
{
    if 0 <= j < s.len() && s[j] != '"' {
        lemma_quote_from(s, j + 1);
    }
}

/// Parses a string literal: the text between two double quotes.
pub fn string_literal(i: Span) -> (res: ParseResult<Literal>)
    requires
        span_wf(i),
    ensures
        string_parsed(res, i),
{
    let s = &i.fragment;
    if s.len() == 0 || s[0] != '"' {
        return Err(ParseError { offset: i.offset, failure: false });
    }
    let mut j: usize = 1;
    while j < s.len() && s[j] != '"'
        invariant
            s@ == i.fragment@,
            1 <= j <= s@.len(),
            quote_from(s@, j as int) == quote_from(s@, 1),
        decreases s@.len() - j,
    {
        j = j + 1;
    }
    if j >= s.len() {
        return Err(ParseError { offset: i.offset + 1, failure: false });
    }
    proof {
        lemma_quote_from(s@, 1);
    }
    let text = substring(s, 1, j);
    Ok((i.advance(j + 1), Literal::StringLiteral(text)))
}

/// `res` is the outcome of parsing a literal at the start of `i`: the
/// first of an address, a boolean, an integer and a string that matches.
pub open spec fn literal_parsed(res: ParseResult<Literal>, i: Span) -> bool {
    let s = i.fragment@;
    if has_at(s, 0, "0x"@) && hex_digits_end(s, 2) > 2 {
        address_parsed(res, i)
    } else if has_at(s, 0, "true"@) || has_at(s, 0, "false"@) {
        boolean_parsed(res, i)
    } else if digits_end(s, 0) > 0 && digits_value(s, 0, digits_end(s, 0)) <= u64::MAX {
        integer_parsed(res, i)
    } else {
        string_parsed(res, i)
    }
}

/// Parses a literal. Numbers are integers of at most 64 bits; a number with
/// a fractional part is read as its integer part.
pub fn parse_literal(i: Span) -> (res: ParseResult<Literal>)
    requires
        span_wf(i),
    ensures
        literal_parsed(res, i),
{
    proof {
        reveal_strlit("0x");
        reveal_strlit("true");
        reveal_strlit("false");
    }
    let s = &i.fragment;
    let address = starts_with_word(s, "0x") && s.len() > 2 && is_hex(s[2]);
    proof {
        if s@.len() >= 3 {
            lemma_digits_end(s@, 3);
        }
    }
    if address {
        return address_literal(i);
    }
    if starts_with_word(s, "true") || starts_with_word(s, "false") {
        return parse_boolean_literal(i);
    }
    let number = integer(Span { fragment: s.clone(), offset: i.offset, line: i.line });
    match number {
        Ok(r) => Ok(r),
        Err(_) => string_literal(i),
    }
}

} // verus!
