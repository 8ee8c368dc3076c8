//! Identifiers: a letter or an underscore, then letters, digits,
//! underscores and dollar signs; lists of them separated by commas, and
//! such lists in parentheses.

use vstd::prelude::*;
use crate::ast::Identifier;
use super::utils::{
    is_advance, lemma_whitespace_end_bounds, line_info_at, line_info_of_position, span_wf, substring,
    whitespace_end, whitespace_end_from, ParseError, ParseResult, Span,
};

verus! {

/// An ASCII letter.
pub open spec fn is_ascii_alpha(c: char) -> bool {
    (65 <= c as u32 <= 90) || (97 <= c as u32 <= 122)
}

/// An ASCII digit.
pub open spec fn is_ascii_digit(c: char) -> bool {
    48 <= c as u32 <= 57
}

/// A character that may continue an identifier.
pub open spec fn is_identifier_char(c: char) -> bool {
    is_ascii_alpha(c) || is_ascii_digit(c) || c == '_' || c == '$'
}

/// Where the run of identifier characters that starts at `j` ends.
pub open spec fn identifier_run_end(s: Seq<char>, j: int) -> int
    decreases s.len() - j,
{
    if j < 0 || j >= s.len() {
        j
    } else if is_identifier_char(s[j]) {
        identifier_run_end(s, j + 1)
    } else {
        j
    }
}

/// Where the identifier that starts at `j` ends: `j` itself where none
/// starts there, else the first character that cannot continue it.
pub open spec fn identifier_end(s: Seq<char>, j: int) -> int {
    if 0 <= j < s.len() && (is_ascii_alpha(s[j]) || s[j] == '_') {
        identifier_run_end(s, j + 1)
    } else {
        j
    }
}

/// An identifier that starts within a text ends within it, after its start.
pub proof fn lemma_identifier_end_bounds(s: Seq<char>, j: int)
    requires
        0 <= j <= s.len(),
    ensures
        j <= identifier_end(s, j) <= s.len(),
        identifier_end(s, j) > j <==> (j < s.len() && (is_ascii_alpha(s[j]) || s[j] == '_')),
{
    if j < s.len() && (is_ascii_alpha(s[j]) || s[j] == '_') {
        lemma_identifier_run_end(s, j + 1);
    }
}

/// The run of identifier characters from `j` ends within the text, at or
/// after `j`.
pub proof fn lemma_identifier_run_end(s: Seq<char>, j: int)
    requires
        0 <= j <= s.len(),
    ensures
        j <= identifier_run_end(s, j) <= s.len(),
    decreases s.len() - j,
{
    if j < s.len() && is_identifier_char(s[j]) {
        lemma_identifier_run_end(s, j + 1);
    }
}

/// `id` is the identifier of the characters from `start` to `end` of span
/// `i`, with no enclosing type, positioned at `start`.
pub open spec fn is_identifier_at(id: Identifier, i: Span, start: int, end: int) -> bool {
    &&& id.token@ == i.fragment@.subrange(start, end)
    &&& id.enclosing_type is None
    &&& id.line_info == line_info_at(i, start)
}

/// `res` is the outcome of parsing an identifier at the start of `i`: the
/// identifier and the rest after it where one starts there, else an error
/// (not a failure) at the start.
pub open spec fn identifier_parsed(res: ParseResult<Identifier>, i: Span) -> bool {
    let k = identifier_end(i.fragment@, 0);
    if k == 0 {
        res == Err::<(Span, Identifier), ParseError>(ParseError { offset: i.offset, failure: false })
    } else {
        &&& res matches Ok((rest, id))
        &&& is_advance(i, rest, k)
        &&& span_wf(rest)
        &&& is_identifier_at(id, i, 0, k)
    }
}

fn is_alpha(c: char) -> (res: bool)
    ensures
        res == is_ascii_alpha(c),
{
    ('A' <= c && c <= 'Z') || ('a' <= c && c <= 'z')
}

fn is_identifier_continuation(c: char) -> (res: bool)
    ensures
        res == is_identifier_char(c),
{
    is_alpha(c) || ('0' <= c && c <= '9') || c == '_' || c == '$'
}

/// Where the identifier that starts at position `start` of `s` ends.
pub(crate) fn identifier_end_from(s: &Vec<char>, start: usize) -> (res: usize)
    requires
        start <= s@.len(),
    ensures
        res == identifier_end(s@, start as int),
        start <= res <= s@.len(),
{
    proof {
        lemma_identifier_end_bounds(s@, start as int);
    }
    if start >= s.len() || !(is_alpha(s[start]) || s[start] == '_') {
        return start;
    }
    let mut j: usize = start + 1;
    while j < s.len() && is_identifier_continuation(s[j])
        invariant
            start + 1 <= j <= s@.len(),
            identifier_run_end(s@, j as int) == identifier_run_end(s@, start as int + 1),
        decreases s@.len() - j,
    {
        j = j + 1;
    }
    j
}

/// The identifier between two positions of a span.
pub(crate) fn identifier_between(i: &Span, start: usize, end: usize) -> (res: Identifier)
    requires
        span_wf(*i),
        start <= end <= i.fragment@.len(),
    ensures
        is_identifier_at(res, *i, start as int, end as int),
{
    Identifier {
        token: substring(&i.fragment, start, end),
        enclosing_type: None,
        line_info: line_info_of_position(i, start),
    }
}

/// Parses an identifier at the start of the span.
pub fn parse_identifier(i: Span) -> (res: ParseResult<Identifier>)
    requires
        span_wf(i),
    ensures
        identifier_parsed(res, i),
{
    let k = identifier_end_from(&i.fragment, 0);
    if k == 0 {
        return Err(ParseError { offset: i.offset, failure: false });
    }
    let identifier = identifier_between(&i, 0, k);
    Ok((i.advance(k), identifier))
}

/// Where the element of a list (whitespace, then an identifier) that starts
/// at `j` has its identifier, if an identifier follows the whitespace.
pub open spec fn list_element(s: Seq<char>, j: int) -> Option<(int, int)> {
    let w = whitespace_end(s, j, false);
    let e = identifier_end(s, w);
    if e > w {
        Some((w, e))
    } else {
        None
    }
}

/// The identifiers, as start and end positions, that follow position `j`
/// of a list, each after a comma.
pub open spec fn list_rest(s: Seq<char>, j: int) -> Seq<(int, int)>
    decreases s.len() - j,
{
    if 0 <= j && j + 1 <= s.len() && s[j] == ',' {
        match list_element(s, j + 1) {
            Some((a, b)) => {
                proof {
                    lemma_whitespace_end_bounds(s, j + 1, false);
                    assert(a == whitespace_end(s, j + 1, false) && b > a);
                    assert(b == identifier_end(s, a));
                    lemma_identifier_end_bounds(s, a);
                }
                seq![(a, b)] + list_rest(s, b)
            },
            None => Seq::empty(),
        }
    } else {
        Seq::empty()
    }
}

/// The identifiers, as start and end positions, of the comma-separated
/// list at position `j`; each may be preceded by whitespace, and the list
/// ends before the first comma not followed by one.
pub open spec fn identifier_list_at(s: Seq<char>, j: int) -> Seq<(int, int)> {
    match list_element(s, j) {
        Some((a, b)) => seq![(a, b)] + list_rest(s, b),
        None => Seq::empty(),
    }
}

/// Where a list of identifiers at `j` ends: after its last identifier, or
/// at `j` for an empty list.
pub open spec fn list_end(items: Seq<(int, int)>, j: int) -> int {
    if items.len() == 0 {
        j
    } else {
        items.last().1
    }
}

/// `ids` are the identifiers of span `i` at the given positions.
pub open spec fn are_identifiers_at(ids: Seq<Identifier>, i: Span, items: Seq<(int, int)>) -> bool {
    &&& ids.len() == items.len()
    &&& forall|k: int| 0 <= k < ids.len() ==> is_identifier_at(#[trigger] ids[k], i, items[k].0, items[k].1)
}

/// Parses the identifiers of the list at position `start` of span `i`;
/// returns them and where the list ends.
pub(crate) fn identifier_list_from(i: &Span, start: usize) -> (res: (Vec<Identifier>, usize))
    requires
        span_wf(*i),
        start <= i.fragment@.len(),
    ensures
        are_identifiers_at(res.0@, *i, identifier_list_at(i.fragment@, start as int)),
        res.1 == list_end(identifier_list_at(i.fragment@, start as int), start as int),
        start <= res.1 <= i.fragment@.len(),
{
    let s = &i.fragment;
    let ghost all = identifier_list_at(s@, start as int);
    let w = whitespace_end_from(s, start, false);
    let e = identifier_end_from(s, w);
    let mut ids: Vec<Identifier> = Vec::new();
    if e == w {
        return (ids, start);
    }
    ids.push(identifier_between(i, w, e));
    let ghost mut done: Seq<(int, int)> = seq![(w as int, e as int)];
    let mut p: usize = e;
    proof {
        assert(all =~= done + list_rest(s@, p as int));
    }
    loop
        invariant
            span_wf(*i),
            s@ == i.fragment@,
            start < p <= s@.len(),
            done.len() > 0,
            done.last().1 == p,
            all == done + list_rest(s@, p as int),
            all == identifier_list_at(s@, start as int),
            are_identifiers_at(ids@, *i, done),
        ensures
            all == done,
            done.len() > 0,
            done.last().1 == p,
            p <= s@.len(),
            are_identifiers_at(ids@, *i, done),
        decreases s@.len() - p,
    {
        if p >= s.len() || s[p] != ',' {
            assert(list_rest(s@, p as int) =~= Seq::<(int, int)>::empty());
            assert(all =~= done);
            break;
        }
        let w = whitespace_end_from(s, p + 1, false);
        let e = identifier_end_from(s, w);
        if e == w {
            assert(list_rest(s@, p as int) =~= Seq::<(int, int)>::empty());
            assert(all =~= done);
            break;
        }
        ids.push(identifier_between(i, w, e));
        proof {
            assert(list_rest(s@, p as int) == seq![(w as int, e as int)] + list_rest(s@, e as int));
            assert(all =~= done.push((w as int, e as int)) + list_rest(s@, e as int));
            done = done.push((w as int, e as int));
        }
        p = e;
    }
    (ids, p)
}

/// Parses a comma-separated list of identifiers, each possibly preceded by
/// whitespace; the list may be empty, and ends before the first comma that
/// no identifier follows.
pub fn parse_identifier_list(i: Span) -> (res: ParseResult<Vec<Identifier>>)
    requires
        span_wf(i),
    ensures
        res matches Ok((rest, ids)) && span_wf(rest) && is_advance(
            i,
            rest,
            list_end(identifier_list_at(i.fragment@, 0), 0),
        ) && are_identifiers_at(ids@, i, identifier_list_at(i.fragment@, 0)),
{
    let (ids, end) = identifier_list_from(&i, 0);
    Ok((i.advance(end), ids))
}

/// Where the parenthesised list of identifiers at the start of `s` ends,
/// just past its closing parenthesis, if it is one.
pub open spec fn identifier_group_end(s: Seq<char>) -> Option<int> {
    if s.len() > 0 && s[0] == '(' {
        let e = list_end(identifier_list_at(s, 1), 1);
        if 0 <= e < s.len() && s[e] == ')' {
            Some(e + 1)
        } else {
            None
        }
    } else {
        None
    }
}

/// `res` is the outcome of parsing a parenthesised list of identifiers at
/// the start of `i`.
pub open spec fn identifier_group_parsed(res: ParseResult<Vec<Identifier>>, i: Span) -> bool {
    let s = i.fragment@;
    match identifier_group_end(s) {
        Some(end) => {
            &&& res matches Ok((rest, ids))
            &&& is_advance(i, rest, end)
            &&& span_wf(rest)
            &&& are_identifiers_at(ids@, i, identifier_list_at(s, 1))
        },
        None => res matches Err(e) && !e.failure,
    }
}

/// Parses a comma-separated list of identifiers in parentheses.
pub fn parse_identifier_group(i: Span) -> (res: ParseResult<Vec<Identifier>>)
    requires
        span_wf(i),
    ensures
        identifier_group_parsed(res, i),
{
    if i.fragment.len() == 0 || i.fragment[0] != '(' {
        return Err(ParseError { offset: i.offset, failure: false });
    }
    let (ids, end) = identifier_list_from(&i, 1);
    if end >= i.fragment.len() || i.fragment[end] != ')' {
        return Err(ParseError { offset: i.offset + end, failure: false });
    }
    Ok((i.advance(end + 1), ids))
}

/// Where the qualified identifier `Type.name` at the start of `s` ends and
/// where its dot is, if it is one.
pub open spec fn enclosing_identifier_ends(s: Seq<char>) -> Option<(int, int)> {
    let dot = identifier_end(s, 0);
    if dot > 0 && dot < s.len() && s[dot] == '.' && identifier_end(s, dot + 1) > dot + 1 {
        Some((dot, identifier_end(s, dot + 1)))
    } else {
        None
    }
}

/// `res` is the outcome of parsing a qualified identifier at the start of
/// `i`: the name after the dot, enclosed by the type before it, positioned
/// at the start.
pub open spec fn enclosing_identifier_parsed(res: ParseResult<Identifier>, i: Span) -> bool {
    let s = i.fragment@;
    match enclosing_identifier_ends(s) {
        Some((dot, end)) => {
            &&& res matches Ok((rest, id))
            &&& is_advance(i, rest, end)
            &&& span_wf(rest)
            &&& id.token@ == s.subrange(dot + 1, end)
            &&& id.enclosing_type matches Some(t) && t@ == s.subrange(0, dot)
            &&& id.line_info == line_info_at(i, 0)
        },
        None => res matches Err(e) && !e.failure,
    }
}

/// Parses an identifier qualified by its enclosing type, `Type.name`.
pub fn parse_enclosing_identifier(i: Span) -> (res: ParseResult<Identifier>)
    requires
        span_wf(i),
    ensures
        enclosing_identifier_parsed(res, i),
{
    let s = &i.fragment;
    let dot = identifier_end_from(s, 0);
    if dot == 0 {
        return Err(ParseError { offset: i.offset, failure: false });
    }
    if dot >= s.len() || s[dot] != '.' {
        return Err(ParseError { offset: i.offset + dot, failure: false });
    }
    let end = identifier_end_from(s, dot + 1);
    if end == dot + 1 {
        return Err(ParseError { offset: i.offset + dot + 1, failure: false });
    }
    let identifier = Identifier {
        token: substring(s, dot + 1, end),
        enclosing_type: Some(substring(s, 0, dot)),
        line_info: line_info_of_position(&i, 0),
    };
    Ok((i.advance(end), identifier))
}

} // verus!
