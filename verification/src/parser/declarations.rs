//! Parsers for the parts of declarations: caller bindings and protections,
//! conformances, attributes, result types, the properties a function
//! mutates, and variable declarations.

use vstd::prelude::*;
use crate::ast::{Attribute, CallerProtection, Conformance, Identifier, Type, VariableDeclaration};
use super::identifiers::{
    identifier_between, identifier_end, identifier_end_from,
    identifier_group_end, identifier_list_at, identifier_list_from, is_identifier_at, lemma_identifier_end_bounds, list_end,
    parse_identifier_group,
};
use super::literals::{has_at, has_word_at};
use super::modifiers::{is_space_char, lemma_spaces_end, modifiers_from, parse_modifiers, spaces_end};
use super::types::{is_identifier_type, is_type_at, lemma_type_end_after, type_at, type_end};
use super::utils::{
    is_advance, lemma_whitespace_end_bounds, line_info_at, line_info_of_position, span_wf, substring,
    whitespace_end, whitespace_end_from, ParseError, ParseResult, Span,
};

verus! {

/// Where the spaces and tabs that start at position `start` of `s` end.
fn spaces_end_from(s: &Vec<char>, start: usize) -> (res: usize)
    requires
        start <= s@.len(),
    ensures
        res == spaces_end(s@, start as int),
        start <= res <= s@.len(),
{
    proof {
        lemma_spaces_end(s@, start as int);
    }
    let mut q: usize = start;
    while q < s.len() && is_space_char(s[q])
        invariant
            start <= q <= s@.len(),
            spaces_end(s@, q as int) == spaces_end(s@, start as int),
        decreases s@.len() - q,
    {
        q = q + 1;
    }
    q
}

/// Where a caller binding, `name <-`, at the start of `s` ends: an
/// identifier, whitespace, and a left arrow.
pub open spec fn caller_binding_end(s: Seq<char>) -> Option<int> {
    let e = identifier_end(s, 0);
    let w = whitespace_end(s, e, false);
    if e > 0 && has_at(s, w, "<-"@) {
        Some(w + 2)
    } else {
        None
    }
}

/// Where a protection binding, `name<-`, at the start of `s` ends: an
/// identifier directly followed by a left arrow.
pub open spec fn protection_binding_end(s: Seq<char>) -> Option<int> {
    let e = identifier_end(s, 0);
    if e > 0 && has_at(s, e, "<-"@) {
        Some(e + 2)
    } else {
        None
    }
}

/// `res` is the outcome of parsing a binding that ends as `end` says: the
/// identifier at the start and the rest after the arrow, or an error.
pub open spec fn binding_parsed(res: ParseResult<Identifier>, i: Span, end: Option<int>) -> bool {
    match end {
        Some(k) => {
            &&& res matches Ok((rest, id))
            &&& is_advance(i, rest, k)
            &&& span_wf(rest)
            &&& is_identifier_at(id, i, 0, identifier_end(i.fragment@, 0))
        },
        None => res matches Err(e) && !e.failure,
    }
}

/// Parses the binding of the caller's name, `name <-`.
pub fn parse_caller_binding(i: Span) -> (res: ParseResult<Identifier>)
    requires
        span_wf(i),
    ensures
        binding_parsed(res, i, caller_binding_end(i.fragment@)),
{
    let s = &i.fragment;
    let e = identifier_end_from(s, 0);
    if e == 0 {
        return Err(ParseError { offset: i.offset, failure: false });
    }
    let w = whitespace_end_from(s, e, false);
    if !has_word_at(s, w, "<-") {
        return Err(ParseError { offset: i.offset + w, failure: false });
    }
    proof {
        reveal_strlit("<-");
    }
    let identifier = identifier_between(&i, 0, e);
    Ok((i.advance(w + 2), identifier))
}

/// Parses a protection binding, `name<-`.
pub fn parse_protection_binding(i: Span) -> (res: ParseResult<Identifier>)
    requires
        span_wf(i),
    ensures
        binding_parsed(res, i, protection_binding_end(i.fragment@)),
{
    let s = &i.fragment;
    let e = identifier_end_from(s, 0);
    if e == 0 {
        return Err(ParseError { offset: i.offset, failure: false });
    }
    if !has_word_at(s, e, "<-") {
        return Err(ParseError { offset: i.offset + e, failure: false });
    }
    proof {
        reveal_strlit("<-");
    }
    let identifier = identifier_between(&i, 0, e);
    Ok((i.advance(e + 2), identifier))
}

/// `res` is the outcome of parsing a parenthesised list of caller
/// protections at the start of `i`: one protection for each identifier of
/// the list.
pub open spec fn protection_group_parsed(res: ParseResult<Vec<CallerProtection>>, i: Span) -> bool {
    let s = i.fragment@;
    let items = identifier_list_at(s, 1);
    match identifier_group_end(s) {
        Some(end) => {
            &&& res matches Ok((rest, ps))
            &&& is_advance(i, rest, end)
            &&& span_wf(rest)
            &&& ps@.len() == items.len()
            &&& forall|k: int|
                0 <= k < ps@.len() ==> is_identifier_at(
                    (#[trigger] ps@[k]).identifier,
                    i,
                    items[k].0,
                    items[k].1,
                )
        },
        None => res matches Err(e) && !e.failure,
    }
}

/// Parses a parenthesised list of caller protections, one per identifier.
pub fn parse_caller_protection_group(i: Span) -> (res: ParseResult<Vec<CallerProtection>>)
    requires
        span_wf(i),
    ensures
        protection_group_parsed(res, i),
{
    match parse_identifier_group(i) {
        Ok((rest, mut identifiers)) => {
            let ghost ids = identifiers@;
            let mut protections: Vec<CallerProtection> = Vec::new();
            while identifiers.len() > 0
                invariant
                    protections@.len() + identifiers@.len() == ids.len(),
                    identifiers@ == ids.subrange(protections@.len() as int, ids.len() as int),
                    forall|k: int|
                        0 <= k < protections@.len() ==> (#[trigger] protections@[k]).identifier == ids[k],
                decreases identifiers@.len(),
            {
                let identifier = identifiers.remove(0);
                protections.push(CallerProtection { identifier });
                assert(identifiers@ =~= ids.subrange(protections@.len() as int, ids.len() as int));
            }
            Ok((rest, protections))
        },
        Err(e) => Err(e),
    }
}

/// `res` is the outcome of parsing the conformances of a declaration at the
/// start of `i`: none, with `i` left as it is, without a colon; after a colon
/// and whitespace, one conformance for each identifier of the list there.
pub open spec fn conformances_parsed(res: ParseResult<Vec<Conformance>>, i: Span) -> bool {
    let s = i.fragment@;
    if s.len() > 0 && s[0] == ':' {
        let w = whitespace_end(s, 1, false);
        let items = identifier_list_at(s, w);
        &&& res matches Ok((rest, cs))
        &&& is_advance(i, rest, list_end(items, w))
        &&& span_wf(rest)
        &&& cs@.len() == items.len()
        &&& forall|k: int|
            0 <= k < cs@.len() ==> is_identifier_at((#[trigger] cs@[k]).identifier, i, items[k].0, items[k].1)
    } else {
        res matches Ok((rest, cs)) && rest == i && cs@.len() == 0
    }
}

/// Parses the conformances of a contract or struct: a colon and a list of
/// trait names, or nothing.
pub fn parse_conformances(i: Span) -> (res: ParseResult<Vec<Conformance>>)
    requires
        span_wf(i),
    ensures
        conformances_parsed(res, i),
{
    if i.fragment.len() == 0 || i.fragment[0] != ':' {
        return Ok((i, Vec::new()));
    }
    let w = whitespace_end_from(&i.fragment, 1, false);
    let (mut identifiers, end) = identifier_list_from(&i, w);
    let ghost ids = identifiers@;
    let mut conformances: Vec<Conformance> = Vec::new();
    while identifiers.len() > 0
        invariant
            conformances@.len() + identifiers@.len() == ids.len(),
            identifiers@ == ids.subrange(conformances@.len() as int, ids.len() as int),
            forall|k: int| 0 <= k < conformances@.len() ==> (#[trigger] conformances@[k]).identifier == ids[k],
        decreases identifiers@.len(),
    {
        let identifier = identifiers.remove(0);
        conformances.push(Conformance { identifier });
        assert(identifiers@ =~= ids.subrange(conformances@.len() as int, ids.len() as int));
    }
    Ok((i.advance(end), conformances))
}

/// Where the attribute `@name` at position `j` of `s` ends, if one is there.
pub open spec fn attribute_end(s: Seq<char>, j: int) -> Option<int> {
    if 0 <= j < s.len() && s[j] == '@' && identifier_end(s, j + 1) > j + 1 {
        Some(identifier_end(s, j + 1))
    } else {
        None
    }
}

/// `a` is the attribute at position `j` of `s`, ending at `end`.
pub open spec fn is_attribute_at(a: Attribute, s: Seq<char>, j: int, end: int) -> bool {
    a.at_token@ == "@"@ && a.identifier_token@ == s.subrange(j + 1, end)
}

/// The attribute at position `j` of span `i`, if one is there, and where it ends.
fn attribute_at(i: &Span, j: usize) -> (res: Option<(Attribute, usize)>)
    requires
        span_wf(*i),
        j <= i.fragment@.len(),
    ensures
        match attribute_end(i.fragment@, j as int) {
            Some(e) => res matches Some((a, k)) && k == e && is_attribute_at(a, i.fragment@, j as int, e),
            None => res is None,
        },
        res matches Some((_, k)) ==> j < k <= i.fragment@.len(),
{
    let s = &i.fragment;
    if j >= s.len() || s[j] != '@' {
        return None;
    }
    let e = identifier_end_from(s, j + 1);
    if e == j + 1 {
        return None;
    }
    Some((Attribute { at_token: String::from_str("@"), identifier_token: substring(s, j + 1, e) }, e))
}

/// `res` is the outcome of parsing an attribute at the start of `i`.
pub open spec fn attribute_parsed(res: ParseResult<Attribute>, i: Span) -> bool {
    match attribute_end(i.fragment@, 0) {
        Some(e) => {
            &&& res matches Ok((rest, a))
            &&& is_advance(i, rest, e)
            &&& span_wf(rest)
            &&& is_attribute_at(a, i.fragment@, 0, e)
        },
        None => res matches Err(e) && !e.failure,
    }
}

/// Parses an attribute, `@` and a name.
pub fn parse_attribute(i: Span) -> (res: ParseResult<Attribute>)
    requires
        span_wf(i),
    ensures
        attribute_parsed(res, i),
{
    match attribute_at(&i, 0) {
        Some((a, e)) => Ok((i.advance(e), a)),
        None => Err(ParseError { offset: i.offset, failure: false }),
    }
}

/// The attributes from position `j` on, each followed by whitespace: their
/// start positions, and where they end.
pub open spec fn attributes_from(s: Seq<char>, j: int) -> (Seq<int>, int)
    decreases s.len() - j,
{
    match attribute_end(s, j) {
        Some(e) => {
            proof {
                lemma_identifier_end_bounds(s, j + 1);
                lemma_whitespace_end_bounds(s, e, false);
            }
            let r = attributes_from(s, whitespace_end(s, e, false));
            (seq![j] + r.0, r.1)
        },
        None => (Seq::empty(), j),
    }
}

/// `attrs` are the attributes of `s` at the given start positions.
pub open spec fn are_attributes_at(attrs: Seq<Attribute>, s: Seq<char>, starts: Seq<int>) -> bool {
    &&& attrs.len() == starts.len()
    &&& forall|k: int|
        0 <= k < attrs.len() ==> is_attribute_at(
            #[trigger] attrs[k],
            s,
            starts[k],
            attribute_end(s, starts[k])->0,
        )
}

/// Parses the attributes of a declaration, each followed by whitespace.
pub fn parse_attributes(i: Span) -> (res: ParseResult<Vec<Attribute>>)
    requires
        span_wf(i),
    ensures
        res matches Ok((rest, attrs)) && span_wf(rest) && is_advance(i, rest, attributes_from(i.fragment@, 0).1)
            && are_attributes_at(attrs@, i.fragment@, attributes_from(i.fragment@, 0).0),
{
    let s = &i.fragment;
    let ghost all = attributes_from(s@, 0);
    let mut attrs: Vec<Attribute> = Vec::new();
    let ghost mut starts: Seq<int> = Seq::empty();
    let mut p: usize = 0;
    loop
        invariant
            span_wf(i),
            s@ == i.fragment@,
            p <= s@.len(),
            all == attributes_from(s@, 0),
            all.0 == starts + attributes_from(s@, p as int).0,
            all.1 == attributes_from(s@, p as int).1,
            are_attributes_at(attrs@, s@, starts),
        ensures
            p <= s@.len(),
            all.0 == starts,
            all.1 == p,
            are_attributes_at(attrs@, s@, starts),
        decreases s@.len() - p,
    {
        match attribute_at(&i, p) {
            Some((a, e)) => {
                proof {
                    lemma_identifier_end_bounds(s@, p + 1);
                }
                let w = whitespace_end_from(s, e, false);
                proof {
                    assert(all.0 =~= starts.push(p as int) + attributes_from(s@, w as int).0);
                    starts = starts.push(p as int);
                }
                attrs.push(a);
                p = w;
            },
            None => {
                assert(all.0 =~= starts);
                break;
            },
        }
    }
    Ok((i.advance(p), attrs))
}

/// `res` is the outcome of parsing the result type of a function at the
/// start of `i`: none, with `i` left as it is, without an arrow; after `->`
/// and spaces, the type that the identifier there names.
pub open spec fn result_parsed(res: ParseResult<Option<Type>>, i: Span) -> bool {
    let s = i.fragment@;
    let sp = spaces_end(s, 2);
    let e = identifier_end(s, sp);
    if !has_at(s, 0, "->"@) {
        res matches Ok((rest, t)) && rest == i && t is None
    } else if e > sp {
        &&& res matches Ok((rest, t))
        &&& is_advance(i, rest, e)
        &&& span_wf(rest)
        &&& t matches Some(ty) && is_identifier_type(ty, i, sp, e)
    } else {
        res matches Err(e) && !e.failure
    }
}

/// Parses the result type of a function: an arrow and a type name, or
/// nothing.
pub fn parse_result(i: Span) -> (res: ParseResult<Option<Type>>)
    requires
        span_wf(i),
    ensures
        result_parsed(res, i),
{
    if !has_word_at(&i.fragment, 0, "->") {
        return Ok((i, None));
    }
    proof {
        reveal_strlit("->");
    }
    let sp = spaces_end_from(&i.fragment, 2);
    let e = identifier_end_from(&i.fragment, sp);
    if e == sp {
        return Err(ParseError { offset: i.offset + sp, failure: false });
    }
    let t = super::types::identifier_type_between(&i, sp, e);
    Ok((i.advance(e), Some(t)))
}

/// The positions of a variable declaration without an initial value at the
/// start of `s`, if one is there: where its `var` or `let` starts (after
/// modifiers and whitespace), where its name starts and ends (after spaces),
/// where its type starts (after a colon and whitespace), and where it ends
/// (after the type and whitespace).
pub open spec fn variable_declaration_at(s: Seq<char>) -> Option<(int, int, int, int, int)> {
    let w = whitespace_end(s, modifiers_from(s, 0).1, false);
    let sp = spaces_end(s, w + 3);
    let e = identifier_end(s, sp);
    let tw = whitespace_end(s, e + 1, false);
    if (has_at(s, w, "var"@) || has_at(s, w, "let"@)) && e > sp && e < s.len() && s[e] == ':' {
        match type_end(s, tw) {
            Some(te) => Some((w, sp, e, tw, whitespace_end(s, te, false))),
            None => None,
        }
    } else {
        None
    }
}

/// `res` is the outcome of parsing a variable declaration at the start of `i`.
pub open spec fn variable_declaration_parsed(res: ParseResult<VariableDeclaration>, i: Span) -> bool {
    let s = i.fragment@;
    match variable_declaration_at(s) {
        Some((w, sp, e, tw, end)) => {
            &&& res matches Ok((rest, v))
            &&& is_advance(i, rest, end)
            &&& span_wf(rest)
            &&& v.declaration_token matches Some(t) && t@ == s.subrange(w, w + 3)
            &&& is_identifier_at(v.identifier, i, sp, e)
            &&& is_type_at(v.variable_type, i, tw)
            &&& v.expression is None
        },
        None => res matches Err(e) && !e.failure,
    }
}

/// Parses the declaration of a variable without an initial value:
/// modifiers, `var` or `let`, a name and a type annotation.
pub fn parse_variable_declaration(i: Span) -> (res: ParseResult<VariableDeclaration>)
    requires
        span_wf(i),
    ensures
        variable_declaration_parsed(res, i),
{
    proof {
        reveal_strlit("var");
        reveal_strlit("let");
    }
    let m = match parse_modifiers(i.copy()) {
        Ok((rest, _)) => rest.offset - i.offset,
        Err(_) => 0,
    };
    let s = &i.fragment;
    let w = whitespace_end_from(s, m, false);
    if !(has_word_at(s, w, "var") || has_word_at(s, w, "let")) {
        return Err(ParseError { offset: i.offset + w, failure: false });
    }
    let sp = spaces_end_from(s, w + 3);
    let e = identifier_end_from(s, sp);
    if e == sp {
        return Err(ParseError { offset: i.offset + sp, failure: false });
    }
    if e >= s.len() || s[e] != ':' {
        return Err(ParseError { offset: i.offset + e, failure: false });
    }
    let tw = whitespace_end_from(s, e + 1, false);
    proof {
        lemma_type_end_after(s@, tw as int);
    }
    match type_at(&i, tw) {
        Some((te, t)) => {
            let end = whitespace_end_from(s, te, false);
            let declaration = VariableDeclaration {
                declaration_token: Some(substring(s, w, w + 3)),
                identifier: identifier_between(&i, sp, e),
                variable_type: t,
                expression: None,
            };
            Ok((i.advance(end), declaration))
        },
        None => Err(ParseError { offset: i.offset + tw, failure: false }),
    }
}

/// The element of a `mutates` list at position `p` of `s`, if one is there:
/// whitespace, a name qualified by its type (`Type.name`) or a plain name,
/// and whitespace. Gives where the name starts, where its dot is (-1 for a
/// plain name), where it ends, and where the element ends.
pub open spec fn mutate_element(s: Seq<char>, p: int) -> Option<(int, int, int, int)> {
    let a = whitespace_end(s, p, false);
    let dot = identifier_end(s, a);
    if dot > a && dot < s.len() && s[dot] == '.' && identifier_end(s, dot + 1) > dot + 1 {
        let e = identifier_end(s, dot + 1);
        Some((a, dot, e, whitespace_end(s, e, false)))
    } else if dot > a {
        Some((a, -1, dot, whitespace_end(s, dot, false)))
    } else {
        None
    }
}

/// The element of a `mutates` list at `p` lies after `p`, within the text.
pub proof fn lemma_mutate_element_bounds(s: Seq<char>, p: int)
    requires
        0 <= p <= s.len(),
    ensures
        mutate_element(s, p) matches Some(x) ==> p <= x.0 < x.2 <= x.3 <= s.len(),
{
    lemma_whitespace_end_bounds(s, p, false);
    let a = whitespace_end(s, p, false);
    lemma_identifier_end_bounds(s, a);
    let dot = identifier_end(s, a);
    if dot > a && dot < s.len() {
        lemma_identifier_end_bounds(s, dot + 1);
        let e = identifier_end(s, dot + 1);
        lemma_whitespace_end_bounds(s, e, false);
    }
    lemma_whitespace_end_bounds(s, dot, false);
}

/// The elements of a `mutates` list that follow position `p`, each after a
/// comma; the list ends before the first comma that no element follows.
pub open spec fn mutates_rest(s: Seq<char>, p: int) -> Seq<(int, int, int, int)>
    decreases s.len() - p,
{
    if 0 <= p < s.len() && s[p] == ',' {
        match mutate_element(s, p + 1) {
            Some(x) => {
                proof {
                    lemma_mutate_element_bounds(s, p + 1);
                }
                seq![x] + mutates_rest(s, x.3)
            },
            None => Seq::empty(),
        }
    } else {
        Seq::empty()
    }
}

/// The elements of the `mutates (...)` clause at the start of `s` and where
/// the clause ends, if `s` starts with one: `mutates`, whitespace, and a
/// parenthesised list of at least one element.
pub open spec fn mutates_clause(s: Seq<char>) -> Option<(Seq<(int, int, int, int)>, int)> {
    let w = whitespace_end(s, 7, false);
    match mutate_element(s, w + 1) {
        Some(x) => {
            let items = seq![x] + mutates_rest(s, x.3);
            let close = items.last().3;
            if has_at(s, w, "("@) && 0 <= close < s.len() && s[close] == ')' {
                Some((items, close + 1))
            } else {
                None
            }
        },
        None => None,
    }
}

/// `id` is the name of the `mutates` element `x` of span `i`.
pub open spec fn is_mutate_at(id: Identifier, i: Span, x: (int, int, int, int)) -> bool {
    let s = i.fragment@;
    if x.1 >= 0 {
        &&& id.token@ == s.subrange(x.1 + 1, x.2)
        &&& id.enclosing_type matches Some(t) && t@ == s.subrange(x.0, x.1)
        &&& id.line_info == line_info_at(i, x.0)
    } else {
        is_identifier_at(id, i, x.0, x.2)
    }
}

/// `res` is the outcome of parsing the properties that a function mutates
/// at the start of `i`: none, with `i` left as it is, without the word
/// `mutates`; else the names of its clause.
pub open spec fn mutates_parsed(res: ParseResult<Vec<Identifier>>, i: Span) -> bool {
    let s = i.fragment@;
    if !has_at(s, 0, "mutates"@) {
        res matches Ok((rest, ids)) && rest == i && ids@.len() == 0
    } else {
        match mutates_clause(s) {
            Some((items, end)) => {
                &&& res matches Ok((rest, ids))
                &&& is_advance(i, rest, end)
                &&& span_wf(rest)
                &&& ids@.len() == items.len()
                &&& forall|k: int| 0 <= k < ids@.len() ==> is_mutate_at(#[trigger] ids@[k], i, items[k])
            },
            None => res matches Err(e) && !e.failure,
        }
    }
}

/// The `mutates` element at position `p` of span `i`, if one is there, and
/// where it ends.
fn mutate_element_at(i: &Span, p: usize) -> (res: Option<(Identifier, usize)>)
    requires
        span_wf(*i),
        p <= i.fragment@.len(),
    ensures
        match mutate_element(i.fragment@, p as int) {
            Some(x) => res matches Some((id, k)) && k == x.3 && is_mutate_at(id, *i, x),
            None => res is None,
        },
{
    proof {
        lemma_mutate_element_bounds(i.fragment@, p as int);
    }
    let s = &i.fragment;
    let a = whitespace_end_from(s, p, false);
    let dot = identifier_end_from(s, a);
    if dot == a {
        return None;
    }
    if dot < s.len() && s[dot] == '.' {
        let e = identifier_end_from(s, dot + 1);
        if e > dot + 1 {
            let identifier = Identifier {
                token: substring(s, dot + 1, e),
                enclosing_type: Some(substring(s, a, dot)),
                line_info: line_info_of_position(i, a),
            };
            return Some((identifier, whitespace_end_from(s, e, false)));
        }
    }
    Some((identifier_between(i, a, dot), whitespace_end_from(s, dot, false)))
}

/// Parses the properties that a function mutates: `mutates` and a
/// parenthesised, comma-separated list of names, or nothing.
pub fn parse_mutates(i: Span) -> (res: ParseResult<Vec<Identifier>>)
    requires
        span_wf(i),
    ensures
        mutates_parsed(res, i),
{
    proof {
        reveal_strlit("mutates");
        reveal_strlit("(");
    }
    let s = &i.fragment;
    if !has_word_at(s, 0, "mutates") {
        return Ok((i, Vec::new()));
    }
    let w = whitespace_end_from(s, 7, false);
    if !has_word_at(s, w, "(") {
        return Err(ParseError { offset: i.offset + w, failure: false });
    }
    let ghost first = mutate_element(s@, w + 1);
    let (identifier, mut p) = match mutate_element_at(&i, w + 1) {
        Some(r) => r,
        None => {
            return Err(ParseError { offset: i.offset + w + 1, failure: false });
        },
    };
    proof {
        lemma_mutate_element_bounds(s@, w + 1);
    }
    let ghost x = first->0;
    let ghost all = seq![x] + mutates_rest(s@, x.3);
    let ghost mut done: Seq<(int, int, int, int)> = seq![x];
    let mut ids: Vec<Identifier> = Vec::new();
    ids.push(identifier);
    loop
        invariant
            span_wf(i),
            s@ == i.fragment@,
            p <= s@.len(),
            done.len() > 0,
            done.last().3 == p,
            all == done + mutates_rest(s@, p as int),
            ids@.len() == done.len(),
            forall|k: int| 0 <= k < ids@.len() ==> is_mutate_at(#[trigger] ids@[k], i, done[k]),
        ensures
            p <= s@.len(),
            all == done,
            done.len() > 0,
            done.last().3 == p,
            ids@.len() == done.len(),
            forall|k: int| 0 <= k < ids@.len() ==> is_mutate_at(#[trigger] ids@[k], i, done[k]),
        decreases s@.len() - p,
    {
        if p >= s.len() || s[p] != ',' {
            assert(mutates_rest(s@, p as int) =~= Seq::<(int, int, int, int)>::empty());
            assert(all =~= done);
            break;
        }
        proof {
            lemma_mutate_element_bounds(s@, p + 1);
        }
        match mutate_element_at(&i, p + 1) {
            Some((identifier, q)) => {
                let ghost y = mutate_element(s@, p + 1)->0;
                proof {
                    assert(mutates_rest(s@, p as int) == seq![y] + mutates_rest(s@, y.3));
                    assert(all =~= done.push(y) + mutates_rest(s@, y.3));
                    done = done.push(y);
                }
                ids.push(identifier);
                p = q;
            },
            None => {
                assert(mutates_rest(s@, p as int) =~= Seq::<(int, int, int, int)>::empty());
                assert(all =~= done);
                break;
            },
        }
    }
    if p >= s.len() || s[p] != ')' {
        return Err(ParseError { offset: i.offset + p, failure: false });
    }
    Ok((i.advance(p + 1), ids))
}

} // verus!
