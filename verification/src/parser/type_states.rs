//! The type states of a contract: names starting with an upper-case letter,
//! listed once each in parentheses.

use vstd::prelude::*;
use crate::ast::{Identifier, TypeState};
use super::identifiers::{is_ascii_alpha, is_ascii_digit, list_end};
use super::utils::{
    is_advance, lemma_whitespace_end_bounds, line_info_at, line_info_of_position, span_wf, substring,
    whitespace_end, whitespace_end_from, ParseError, ParseResult, Span,
};

verus! {

/// An upper-case ASCII letter.
pub open spec fn is_ascii_upper(c: char) -> bool {
    65 <= c as u32 <= 90
}

/// A character that may continue a type state: a letter, a digit or an
/// underscore.
pub open spec fn is_state_char(c: char) -> bool {
    is_ascii_alpha(c) || is_ascii_digit(c) || c == '_'
}

/// Where the run of type-state characters that starts at `j` ends.
pub open spec fn state_run_end(s: Seq<char>, j: int) -> int
    decreases s.len() - j,
{
    if j < 0 || j >= s.len() {
        j
    } else if is_state_char(s[j]) {
        state_run_end(s, j + 1)
    } else {
        j
    }
}

/// The run of type-state characters from `j` ends within the text.
pub proof fn lemma_state_run_end(s: Seq<char>, j: int)
    requires
        0 <= j <= s.len(),
    ensures
        j <= state_run_end(s, j) <= s.len(),
    decreases s.len() - j,
{
    if j < s.len() && is_state_char(s[j]) {
        lemma_state_run_end(s, j + 1);
    }
}

/// What starts at position `j`: a type state, running to `Some(end)` when
/// its first letter is upper case; `Some(j)`, a malformed one, when it is
/// lower case; `None` when no letter starts there.
pub open spec fn state_at(s: Seq<char>, j: int) -> Option<int> {
    if 0 <= j < s.len() && is_ascii_alpha(s[j]) {
        if is_ascii_upper(s[j]) {
            Some(state_run_end(s, j + 1))
        } else {
            Some(j)
        }
    } else {
        None
    }
}

/// `st` is the type state of the characters from `start` to `end` of `i`.
pub open spec fn is_state_at(st: TypeState, i: Span, start: int, end: int) -> bool {
    &&& st.identifier.token@ == i.fragment@.subrange(start, end)
    &&& st.identifier.enclosing_type is None
    &&& st.identifier.line_info == line_info_at(i, start)
}

/// `res` is the outcome of parsing a type state at the start of `i`: an
/// error where no letter starts it, a failure where a lower-case one does.
pub open spec fn type_state_parsed(res: ParseResult<TypeState>, i: Span) -> bool {
    match state_at(i.fragment@, 0) {
        None => res == Err::<(Span, TypeState), ParseError>(ParseError { offset: i.offset, failure: false }),
        Some(end) => if end == 0 {
            res == Err::<(Span, TypeState), ParseError>(ParseError { offset: i.offset, failure: true })
        } else {
            &&& res matches Ok((rest, st))
            &&& is_advance(i, rest, end)
            &&& span_wf(rest)
            &&& is_state_at(st, i, 0, end)
        },
    }
}

fn is_upper(c: char) -> (res: bool)
    ensures
        res == is_ascii_upper(c),
{
    'A' <= c && c <= 'Z'
}

fn is_state_continuation(c: char) -> (res: bool)
    ensures
        res == is_state_char(c),
{
    is_letter(c) || ('0' <= c && c <= '9') || c == '_'
}

fn is_letter(c: char) -> (res: bool)
    ensures
        res == is_ascii_alpha(c),
{
    ('A' <= c && c <= 'Z') || ('a' <= c && c <= 'z')
}

/// What starts at position `start` of `s`, as `state_at` says.
fn state_at_from(s: &Vec<char>, start: usize) -> (res: Option<usize>)
    requires
        start <= s@.len(),
    ensures
        match res {
            Some(e) => state_at(s@, start as int) == Some(e as int) && start <= e <= s@.len(),
            None => state_at(s@, start as int) is None,
        },
{
    if start >= s.len() || !is_letter(s[start]) {
        return None;
    }
    if !is_upper(s[start]) {
        return Some(start);
    }
    proof {
        lemma_state_run_end(s@, start as int + 1);
    }
    let mut j: usize = start + 1;
    while j < s.len() && is_state_continuation(s[j])
        invariant
            start + 1 <= j <= s@.len(),
            state_run_end(s@, j as int) == state_run_end(s@, start as int + 1),
        decreases s@.len() - j,
    {
        j = j + 1;
    }
    Some(j)
}

/// The type state between two positions of a span.
fn state_between(i: &Span, start: usize, end: usize) -> (res: TypeState)
    requires
        span_wf(*i),
        start <= end <= i.fragment@.len(),
    ensures
        is_state_at(res, *i, start as int, end as int),
{
    TypeState {
        identifier: Identifier {
            token: substring(&i.fragment, start, end),
            enclosing_type: None,
            line_info: line_info_of_position(i, start),
        },
    }
}

/// Parses a type state: a letter, upper case, then letters, digits and
/// underscores.
pub fn parse_type_state(i: Span) -> (res: ParseResult<TypeState>)
    requires
        span_wf(i),
    ensures
        type_state_parsed(res, i),
{
    match state_at_from(&i.fragment, 0) {
        None => Err(ParseError { offset: i.offset, failure: false }),
        Some(end) => {
            if end == 0 {
                Err(ParseError { offset: i.offset, failure: true })
            } else {
                let st = state_between(&i, 0, end);
                Ok((i.advance(end), st))
            }
        },
    }
}

/// What follows position `j` of a list after whitespace: `Some((w, e))` for
/// a type state from `w` to `e` (malformed where `e == w`), `None` where no
/// letter follows.
pub open spec fn state_element(s: Seq<char>, j: int) -> Option<(int, int)> {
    let w = whitespace_end(s, j, false);
    match state_at(s, w) {
        Some(e) => Some((w, e)),
        None => None,
    }
}

/// The type states, as start and end positions, that follow position `j`
/// of a list, each after a comma, and whether a malformed one was met.
pub open spec fn state_list_rest(s: Seq<char>, j: int) -> (Seq<(int, int)>, bool)
    decreases s.len() - j,
{
    if 0 <= j && j + 1 <= s.len() && s[j] == ',' {
        match state_element(s, j + 1) {
            Some((a, b)) => if b == a {
                (Seq::empty(), true)
            } else {
                proof {
                    lemma_whitespace_end_bounds(s, j + 1, false);
                    assert(a == whitespace_end(s, j + 1, false));
                    lemma_state_run_end(s, a + 1);
                }
                let r = state_list_rest(s, b);
                (seq![(a, b)] + r.0, r.1)
            },
            None => (Seq::empty(), false),
        }
    } else {
        (Seq::empty(), false)
    }
}

/// The type states, as start and end positions, of the comma-separated list
/// at position `j`, and whether a malformed one was met.
pub open spec fn state_list_at(s: Seq<char>, j: int) -> (Seq<(int, int)>, bool) {
    match state_element(s, j) {
        Some((a, b)) => if b == a {
            (Seq::empty(), true)
        } else {
            let r = state_list_rest(s, b);
            (seq![(a, b)] + r.0, r.1)
        },
        None => (Seq::empty(), false),
    }
}

/// No two of the type states at these positions have the same name.
pub open spec fn distinct_states(s: Seq<char>, items: Seq<(int, int)>) -> bool {
    forall|k: int, l: int|
        0 <= k < l < items.len() ==> s.subrange(items[k].0, items[k].1) != s.subrange(items[l].0, items[l].1)
}

/// `sts` are the type states of span `i` at the given positions.
pub open spec fn are_states_at(sts: Seq<TypeState>, i: Span, items: Seq<(int, int)>) -> bool {
    &&& sts.len() == items.len()
    &&& forall|k: int| 0 <= k < sts.len() ==> is_state_at(#[trigger] sts[k], i, items[k].0, items[k].1)
}

/// `res` is the outcome of parsing the parenthesised type states at the
/// start of `i`: an error where the parentheses are missing, a failure
/// where a state starts with a lower-case letter or one is listed twice.
pub open spec fn type_states_parsed(res: ParseResult<Vec<TypeState>>, i: Span) -> bool {
    let s = i.fragment@;
    if s.len() == 0 || s[0] != '(' {
        res matches Err(e) && !e.failure
    } else {
        let (items, failed) = state_list_at(s, 1);
        let e = list_end(items, 1);
        if failed {
            res matches Err(err) && err.failure
        } else if !(0 <= e < s.len() && s[e] == ')') {
            res matches Err(err) && !err.failure
        } else if !distinct_states(s, items) {
            res matches Err(err) && err.failure
        } else {
            &&& res matches Ok((rest, sts))
            &&& is_advance(i, rest, e + 1)
            &&& span_wf(rest)
            &&& are_states_at(sts@, i, items)
        }
    }
}

/// Parses the type states of the comma-separated list at position `start`
/// of `i`: `None` where a malformed one is met, else the states and where
/// the list ends.
fn state_list_from(i: &Span, start: usize) -> (res: Option<(Vec<TypeState>, usize)>)
    requires
        span_wf(*i),
        start <= i.fragment@.len(),
    ensures
        res is None <==> state_list_at(i.fragment@, start as int).1,
        res matches Some((sts, end)) ==> {
            &&& are_states_at(sts@, *i, state_list_at(i.fragment@, start as int).0)
            &&& end == list_end(state_list_at(i.fragment@, start as int).0, start as int)
            &&& start <= end <= i.fragment@.len()
        },
{
    let s = &i.fragment;
    let ghost all = state_list_at(s@, start as int);
    let w = whitespace_end_from(s, start, false);
    let mut sts: Vec<TypeState> = Vec::new();
    let e = match state_at_from(s, w) {
        None => {
            return Some((sts, start));
        },
        Some(e) => e,
    };
    if e == w {
        return None;
    }
    sts.push(state_between(i, w, e));
    let ghost mut done: Seq<(int, int)> = seq![(w as int, e as int)];
    let mut p: usize = e;
    proof {
        assert(all.0 =~= done + state_list_rest(s@, p as int).0);
    }
    loop
        invariant
            span_wf(*i),
            s@ == i.fragment@,
            start < p <= s@.len(),
            done.len() > 0,
            done.last().1 == p,
            all.0 == done + state_list_rest(s@, p as int).0,
            all.1 == state_list_rest(s@, p as int).1,
            all == state_list_at(s@, start as int),
            are_states_at(sts@, *i, done),
        ensures
            all.0 == done,
            !all.1,
            done.len() > 0,
            done.last().1 == p,
            p <= s@.len(),
            are_states_at(sts@, *i, done),
        decreases s@.len() - p,
    {
        if p >= s.len() || s[p] != ',' {
            assert(all.0 =~= done);
            break;
        }
        let w = whitespace_end_from(s, p + 1, false);
        let e = match state_at_from(s, w) {
            None => {
                assert(all.0 =~= done);
                break;
            },
            Some(e) => e,
        };
        if e == w {
            return None;
        }
        sts.push(state_between(i, w, e));
        proof {
            assert(all.0 =~= done.push((w as int, e as int)) + state_list_rest(s@, e as int).0);
            done = done.push((w as int, e as int));
        }
        p = e;
    }
    Some((sts, p))
}

/// Whether two of the type states have the same name.
fn has_duplicate(sts: &Vec<TypeState>, Ghost(s): Ghost<Seq<char>>, Ghost(items): Ghost<Seq<(int, int)>>) -> (res: bool)
    requires
        sts@.len() == items.len(),
        forall|k: int| 0 <= k < sts@.len() ==> (#[trigger] sts@[k]).identifier.token@ == s.subrange(items[k].0, items[k].1),
    ensures
        res == !distinct_states(s, items),
{
    let n = sts.len();
    let mut k: usize = 0;
    while k < n
        invariant
            n == sts@.len(),
            n == items.len(),
            k <= n,
            forall|k: int| 0 <= k < sts@.len() ==> (#[trigger] sts@[k]).identifier.token@ == s.subrange(items[k].0, items[k].1),
            forall|a: int, b: int| 0 <= a < k && a < b < n ==> s.subrange(items[a].0, items[a].1) != s.subrange(items[b].0, items[b].1),
        decreases n - k,
    {
        let mut l: usize = k + 1;
        while l < n
            invariant
                n == sts@.len(),
                n == items.len(),
                k < n,
                k + 1 <= l <= n,
                forall|k: int| 0 <= k < sts@.len() ==> (#[trigger] sts@[k]).identifier.token@ == s.subrange(items[k].0, items[k].1),
                forall|a: int, b: int| 0 <= a < k && a < b < n ==> s.subrange(items[a].0, items[a].1) != s.subrange(items[b].0, items[b].1),
                forall|b: int| k < b < l ==> s.subrange(items[k as int].0, items[k as int].1) != s.subrange(items[b].0, items[b].1),
            decreases n - l,
        {
            if sts[k].identifier.token == sts[l].identifier.token {
                assert(sts@[k as int].identifier.token@ == s.subrange(items[k as int].0, items[k as int].1));
                assert(sts@[l as int].identifier.token@ == s.subrange(items[l as int].0, items[l as int].1));
                return true;
            }
            l = l + 1;
        }
        k = k + 1;
    }
    false
}

/// Parses the type states of a contract: a comma-separated list of them in
/// parentheses, each listed once.
pub fn parse_type_states(i: Span) -> (res: ParseResult<Vec<TypeState>>)
    requires
        span_wf(i),
    ensures
        type_states_parsed(res, i),
{
    if i.fragment.len() == 0 || i.fragment[0] != '(' {
        return Err(ParseError { offset: i.offset, failure: false });
    }
    let ghost items = state_list_at(i.fragment@, 1).0;
    let (sts, end) = match state_list_from(&i, 1) {
        None => {
            return Err(ParseError { offset: i.offset, failure: true });
        },
        Some(r) => r,
    };
    if end >= i.fragment.len() || i.fragment[end] != ')' {
        return Err(ParseError { offset: i.offset + end, failure: false });
    }
    if has_duplicate(&sts, Ghost(i.fragment@), Ghost(items)) {
        return Err(ParseError { offset: i.offset + end + 1, failure: true });
    }
    Ok((i.advance(end + 1), sts))
}

} // verus!
