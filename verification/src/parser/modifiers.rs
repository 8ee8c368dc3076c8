//! The visibility modifiers before a function: `public` and `visible`,
//! each followed by spaces or tabs.

use vstd::prelude::*;
use crate::ast::Modifier;
use super::literals::{has_at, has_word_at};
use super::utils::{is_advance, is_space, span_wf, ParseError, ParseResult, Span};

verus! {

/// The modifier at position `j`, if one is there, and its length.
pub open spec fn modifier_at(s: Seq<char>, j: int) -> Option<(Modifier, int)> {
    if has_at(s, j, "public"@) {
        Some((Modifier::Public, 6))
    } else if has_at(s, j, "visible"@) {
        Some((Modifier::Visible, 7))
    } else {
        None
    }
}

/// Where the run of spaces and tabs that starts at `j` ends.
pub open spec fn spaces_end(s: Seq<char>, j: int) -> int
    decreases s.len() - j,
{
    if 0 <= j < s.len() && is_space(s[j]) {
        spaces_end(s, j + 1)
    } else {
        j
    }
}

/// Runs of spaces end within the text, at or after their start.
pub proof fn lemma_spaces_end(s: Seq<char>, j: int)
    requires
        0 <= j <= s.len(),
    ensures
        j <= spaces_end(s, j) <= s.len(),
    decreases s.len() - j,
{
    if j < s.len() {
        lemma_spaces_end(s, j + 1);
    }
}

/// The modifiers from position `j` on, each followed by spaces or tabs,
/// and where they end.
pub open spec fn modifiers_from(s: Seq<char>, j: int) -> (Seq<Modifier>, int)
    decreases s.len() - j,
{
    if j < 0 || j > s.len() {
        (Seq::empty(), j)
    } else {
        match modifier_at(s, j) {
            Some((m, n)) => {
                proof {
                    reveal_strlit("public");
                    reveal_strlit("visible");
                    lemma_spaces_end(s, j + n);
                }
                let r = modifiers_from(s, spaces_end(s, j + n));
                (seq![m] + r.0, r.1)
            },
            None => (Seq::empty(), j),
        }
    }
}

pub(crate) fn is_space_char(c: char) -> (res: bool)
    ensures
        res == is_space(c),
{
    c == ' ' || c == '\t'
}

/// Parses `public` or `visible`.
pub fn parse_modifier(i: Span) -> (res: ParseResult<Modifier>)
    requires
        span_wf(i),
    ensures
        match modifier_at(i.fragment@, 0) {
            Some((m, n)) => res matches Ok((rest, r)) && r == m && is_advance(i, rest, n) && span_wf(rest),
            None => res == Err::<(Span, Modifier), ParseError>(ParseError { offset: i.offset, failure: false }),
        },
{
    proof {
        reveal_strlit("public");
        reveal_strlit("visible");
    }
    if has_word_at(&i.fragment, 0, "public") {
        Ok((i.advance(6), Modifier::Public))
    } else if has_word_at(&i.fragment, 0, "visible") {
        Ok((i.advance(7), Modifier::Visible))
    } else {
        Err(ParseError { offset: i.offset, failure: false })
    }
}

/// Parses the modifiers of a function, each followed by spaces or tabs.
pub fn parse_modifiers(i: Span) -> (res: ParseResult<Vec<Modifier>>)
    requires
        span_wf(i),
    ensures
        res matches Ok((rest, ms)) && ms@ == modifiers_from(i.fragment@, 0).0 && is_advance(
            i,
            rest,
            modifiers_from(i.fragment@, 0).1,
        ) && span_wf(rest),
{
    proof {
        reveal_strlit("public");
        reveal_strlit("visible");
    }
    let s = &i.fragment;
    let ghost all = modifiers_from(s@, 0);
    assert(s@.len() == s.len());
    let mut ms: Vec<Modifier> = Vec::new();
    let mut p: usize = 0;
    loop
        invariant
            s@ == i.fragment@,
            s@.len() <= usize::MAX,
            p <= s@.len(),
            all == modifiers_from(s@, 0),
            all.0 == ms@ + modifiers_from(s@, p as int).0,
            all.1 == modifiers_from(s@, p as int).1,
        ensures
            p <= s@.len(),
            all.0 == ms@,
            all.1 == p,
        decreases s@.len() - p,
    {
        proof {
            reveal_strlit("public");
            reveal_strlit("visible");
        }
        let (m, n) = if has_word_at(s, p, "public") {
            (Modifier::Public, 6usize)
        } else if has_word_at(s, p, "visible") {
            (Modifier::Visible, 7usize)
        } else {
            assert(ms@ + Seq::<Modifier>::empty() =~= ms@);
            break;
        };
        let mut q: usize = p + n;
        proof {
            lemma_spaces_end(s@, q as int);
        }
        while q < s.len() && is_space_char(s[q])
            invariant
                p + n <= q <= s@.len(),
                spaces_end(s@, q as int) == spaces_end(s@, p + n),
            decreases s@.len() - q,
        {
            q = q + 1;
        }
        proof {
            assert(all.0 =~= ms@.push(m) + modifiers_from(s@, q as int).0);
        }
        ms.push(m);
        p = q;
    }
    Ok((i.advance(p), ms))
}

} // verus!
