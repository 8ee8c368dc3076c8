//! The input of the parser, a position in the source text, and the
//! whitespace and comments between tokens.

use vstd::prelude::*;
use vstd::string::StrSliceExecFns;
use crate::ast::LineInfo;
use crate::text::push_char;

verus! {

/// A position in the source text and the text from there on: how many
/// characters come before it and the line it is on, counted from one.
#[derive(Debug, PartialEq)]
pub struct Span {
    pub fragment: Vec<char>,
    pub offset: usize,
    pub line: u32,
}

/// Why a parser did not match: where, and whether the input is certainly
/// malformed (a failure, which alternatives do not recover from) rather
/// than merely not of this form (an error).
#[derive(Debug, PartialEq)]
pub struct ParseError {
    pub offset: usize,
    pub failure: bool,
}

/// The result of a parser: the rest of the input and what was parsed.
pub type ParseResult<T> = Result<(Span, T), ParseError>;

/// The positions and line numbers of a span can be advanced to its end
/// without overflowing.
pub open spec fn span_wf(s: Span) -> bool {
    &&& s.offset + s.fragment@.len() <= usize::MAX
    &&& s.line + s.fragment@.len() <= u32::MAX
}

/// The number of line breaks in a text.
pub open spec fn newlines(s: Seq<char>) -> nat
    decreases s.len(),
{
    if s.len() == 0 {
        0
    } else {
        newlines(s.drop_last()) + if s.last() == '\n' {
            1nat
        } else {
            0nat
        }
    }
}

/// `after` is `before` moved `k` characters on: the rest of the text, the
/// position `k` further, the line further by the line breaks passed.
pub open spec fn is_advance(before: Span, after: Span, k: int) -> bool {
    &&& 0 <= k <= before.fragment@.len()
    &&& after.fragment@ == before.fragment@.skip(k)
    &&& after.offset == before.offset + k
    &&& after.line == before.line + newlines(before.fragment@.take(k))
}

/// The span of a whole text: at its start, on line one.
pub open spec fn is_start_of(s: Span, text: Seq<char>) -> bool {
    s.fragment@ == text && s.offset == 0 && s.line == 1
}

/// A text has no more line breaks than characters.
pub proof fn lemma_newlines_bound(s: Seq<char>)
    ensures
        newlines(s) <= s.len(),
    decreases s.len(),
{
    if s.len() > 0 {
        lemma_newlines_bound(s.drop_last());
    }
}

impl Span {
    /// The span at the start of `text`.
    pub fn new(text: &str) -> (res: Span)
        requires
            text@.len() < u32::MAX,
        ensures
            is_start_of(res, text@),
            span_wf(res),
    {
        let n = text.unicode_len();
        let mut fragment: Vec<char> = Vec::new();
        let mut i: usize = 0;
        while i < n
            invariant
                n == text@.len(),
                i <= n,
                fragment@ == text@.take(i as int),
            decreases n - i,
        {
            fragment.push(text.get_char(i));
            i = i + 1;
            assert(fragment@ =~= text@.take(i as int));
        }
        assert(fragment@ =~= text@);
        Span { fragment, offset: 0, line: 1 }
    }

    /// The rest of the text.
    pub fn fragment(&self) -> (res: String)
        ensures
            res@ == self.fragment@,
    {
        let mut res = String::new();
        let mut i: usize = 0;
        while i < self.fragment.len()
            invariant
                i <= self.fragment@.len(),
                res@ == self.fragment@.take(i as int),
            decreases self.fragment@.len() - i,
        {
            push_char(&mut res, self.fragment[i]);
            i = i + 1;
            assert(res@ =~= self.fragment@.take(i as int));
        }
        assert(res@ =~= self.fragment@);
        res
    }

    /// A copy of the span.
    pub fn copy(&self) -> (res: Span)
        ensures
            res.fragment@ == self.fragment@,
            res.offset == self.offset,
            res.line == self.line,
    {
        let mut fragment: Vec<char> = Vec::new();
        let mut j: usize = 0;
        while j < self.fragment.len()
            invariant
                j <= self.fragment@.len(),
                fragment@ == self.fragment@.take(j as int),
            decreases self.fragment@.len() - j,
        {
            fragment.push(self.fragment[j]);
            j = j + 1;
            assert(fragment@ =~= self.fragment@.take(j as int));
        }
        assert(fragment@ =~= self.fragment@);
        Span { fragment, offset: self.offset, line: self.line }
    }

    /// The span `k` characters further on.
    pub fn advance(&self, k: usize) -> (res: Span)
        requires
            span_wf(*self),
            k <= self.fragment@.len(),
        ensures
            is_advance(*self, res, k as int),
            span_wf(res),
    {
        let mut line = self.line;
        let mut i: usize = 0;
        while i < k
            invariant
                k <= self.fragment@.len(),
                span_wf(*self),
                i <= k,
                line == self.line + newlines(self.fragment@.take(i as int)),
            decreases k - i,
        {
            proof {
                assert(self.fragment@.take(i as int + 1).drop_last() =~= self.fragment@.take(i as int));
                lemma_newlines_bound(self.fragment@.take(i as int));
            }
            if self.fragment[i] == '\n' {
                line = line + 1;
            }
            i = i + 1;
        }
        let mut fragment: Vec<char> = Vec::new();
        let mut j: usize = k;
        while j < self.fragment.len()
            invariant
                k <= j <= self.fragment@.len(),
                fragment@ == self.fragment@.subrange(k as int, j as int),
            decreases self.fragment@.len() - j,
        {
            fragment.push(self.fragment[j]);
            j = j + 1;
            assert(fragment@ =~= self.fragment@.subrange(k as int, j as int));
        }
        assert(fragment@ =~= self.fragment@.skip(k as int));
        proof {
            lemma_newlines_bound(self.fragment@.take(k as int));
            lemma_newlines_split(self.fragment@, k as int);
        }
        Span { fragment, offset: self.offset + k, line }
    }
}

/// Line breaks add up over the two parts of a text.
pub proof fn lemma_newlines_split(s: Seq<char>, k: int)
    requires
        0 <= k <= s.len(),
    ensures
        newlines(s) == newlines(s.take(k)) + newlines(s.skip(k)),
    decreases s.len(),
{
    if k < s.len() {
        let p = s.drop_last();
        lemma_newlines_split(p, k);
        assert(p.take(k) =~= s.take(k));
        assert(s.skip(k).drop_last() =~= p.skip(k));
        assert(s.skip(k).last() == s.last());
    } else {
        assert(s.take(k) =~= s);
        assert(s.skip(k) =~= Seq::<char>::empty());
    }
}

/// A space or a tab.
pub open spec fn is_space(c: char) -> bool {
    c == ' ' || c == '\t'
}

/// The position of the first line break at or after `j`, if any.
pub open spec fn newline_from(s: Seq<char>, j: int) -> Option<int>
    decreases s.len() - j,
{
    if j < 0 || j >= s.len() {
        None
    } else if s[j] == '\n' {
        Some(j)
    } else {
        newline_from(s, j + 1)
    }
}

/// The first line break at or after `j` is at or after `j`.
pub proof fn lemma_newline_from_after(s: Seq<char>, j: int)
    ensures
        newline_from(s, j) matches Some(k) ==> j <= k < s.len() && s[k] == '\n',
    decreases s.len() - j,
{
    if 0 <= j < s.len() && s[j] != '\n' {
        lemma_newline_from_after(s, j + 1);
    }
}

/// Where a comment that starts at `i` ends, just past its line break: a
/// comment runs from `//` to the end of its line, and counts as one only
/// where that line ends with a line break.
pub open spec fn comment_end(s: Seq<char>, i: int) -> Option<int> {
    if 0 <= i && i + 1 < s.len() && s[i] == '/' && s[i + 1] == '/' {
        match newline_from(s, i + 2) {
            Some(k) => Some(k + 1),
            None => None,
        }
    } else {
        None
    }
}

/// Where the whitespace that starts at `i` ends: spaces, tabs, line breaks
/// (`\n` or `\r\n`, or with `multi` any `\r`) and comments.
pub open spec fn whitespace_end(s: Seq<char>, i: int, multi: bool) -> int
    decreases s.len() - i,
{
    if i < 0 || i >= s.len() {
        i
    } else if is_space(s[i]) || s[i] == '\n' || (multi && s[i] == '\r') {
        whitespace_end(s, i + 1, multi)
    } else if s[i] == '\r' && i + 1 < s.len() && s[i + 1] == '\n' {
        whitespace_end(s, i + 2, multi)
    } else {
        match comment_end(s, i) {
            Some(j) => {
                proof {
                    lemma_newline_from_after(s, i + 2);
                }
                whitespace_end(s, j, multi)
            },
            None => i,
        }
    }
}

/// Whitespace that starts within a text ends within it, at or after its start.
pub proof fn lemma_whitespace_end_bounds(s: Seq<char>, i: int, multi: bool)
    requires
        0 <= i <= s.len(),
    ensures
        i <= whitespace_end(s, i, multi) <= s.len(),
    decreases s.len() - i,
{
    if i < s.len() {
        if is_space(s[i]) || s[i] == '\n' || (multi && s[i] == '\r') {
            lemma_whitespace_end_bounds(s, i + 1, multi);
        } else if s[i] == '\r' && i + 1 < s.len() && s[i + 1] == '\n' {
            lemma_whitespace_end_bounds(s, i + 2, multi);
        } else {
            lemma_newline_from_after(s, i + 2);
            match comment_end(s, i) {
                Some(j) => lemma_whitespace_end_bounds(s, j, multi),
                None => {},
            }
        }
    }
}

/// Skipping whitespace twice skips no more than once: where whitespace
/// ends, no more starts.
pub proof fn law_whitespace_idempotent(s: Seq<char>, i: int, multi: bool)
    requires
        0 <= i <= s.len(),
    ensures
        whitespace_end(s, whitespace_end(s, i, multi), multi) == whitespace_end(s, i, multi),
    decreases s.len() - i,
{
    if i < s.len() {
        if is_space(s[i]) || s[i] == '\n' || (multi && s[i] == '\r') {
            law_whitespace_idempotent(s, i + 1, multi);
        } else if s[i] == '\r' && i + 1 < s.len() && s[i + 1] == '\n' {
            law_whitespace_idempotent(s, i + 2, multi);
        } else {
            lemma_newline_from_after(s, i + 2);
            match comment_end(s, i) {
                Some(j) => law_whitespace_idempotent(s, j, multi),
                None => {},
            }
        }
    }
}

/// Where the whitespace and comments that start at position `start` of `s`
/// end.
pub fn whitespace_end_from(s: &Vec<char>, start: usize, multi: bool) -> (res: usize)
    requires
        start <= s@.len(),
    ensures
        res == whitespace_end(s@, start as int, multi),
        start <= res <= s@.len(),
{
    proof {
        lemma_whitespace_end_bounds(s@, start as int, multi);
    }
    let n = s.len();
    let mut p: usize = start;
    loop
        invariant
            n == s@.len(),
            start <= p <= n,
            whitespace_end(s@, p as int, multi) == whitespace_end(s@, start as int, multi),
        ensures
            start <= p <= n,
            whitespace_end(s@, start as int, multi) == p,
        decreases n - p,
    {
        if p >= n {
            return p;
        }
        let c = s[p];
        if c == ' ' || c == '\t' || c == '\n' || (multi && c == '\r') {
            p = p + 1;
        } else if c == '\r' && p + 1 < n && s[p + 1] == '\n' {
            p = p + 2;
        } else if c == '/' && p + 1 < n && s[p + 1] == '/' {
            let mut j: usize = p + 2;
            while j < n && s[j] != '\n'
                invariant
                    n == s@.len(),
                    p + 2 <= j <= n,
                    newline_from(s@, j as int) == newline_from(s@, p as int + 2),
                decreases n - j,
            {
                j = j + 1;
            }
            if j >= n {
                return p;
            }
            p = j + 1;
        } else {
            return p;
        }
    }
}

/// The position of the text `k` characters into span `i`.
pub open spec fn line_info_at(i: Span, k: int) -> LineInfo {
    LineInfo { line: (i.line + newlines(i.fragment@.take(k))) as u32, offset: (i.offset + k) as usize }
}

/// The position `k` characters into a span.
pub fn line_info_of_position(i: &Span, k: usize) -> (res: LineInfo)
    requires
        span_wf(*i),
        k <= i.fragment@.len(),
    ensures
        res == line_info_at(*i, k as int),
{
    let mut line = i.line;
    let mut j: usize = 0;
    while j < k
        invariant
            k <= i.fragment@.len(),
            span_wf(*i),
            j <= k,
            line == i.line + newlines(i.fragment@.take(j as int)),
        decreases k - j,
    {
        proof {
            assert(i.fragment@.take(j as int + 1).drop_last() =~= i.fragment@.take(j as int));
            lemma_newlines_bound(i.fragment@.take(j as int));
        }
        if i.fragment[j] == '\n' {
            line = line + 1;
        }
        j = j + 1;
    }
    LineInfo { line, offset: i.offset + k }
}

/// The characters of `s` from `a` up to `b`, as a string.
pub fn substring(s: &Vec<char>, a: usize, b: usize) -> (res: String)
    requires
        a <= b <= s@.len(),
    ensures
        res@ == s@.subrange(a as int, b as int),
{
    let mut res = String::new();
    let mut j: usize = a;
    while j < b
        invariant
            a <= j <= b <= s@.len(),
            res@ == s@.subrange(a as int, j as int),
        decreases b - j,
    {
        push_char(&mut res, s[j]);
        j = j + 1;
        assert(res@ =~= s@.subrange(a as int, j as int));
    }
    res
}

/// Skips spaces, tabs, line breaks and comments. The second part of the
/// result is an empty span at the start of an empty text.
pub fn whitespace(i: Span) -> (res: (Span, Span))
    requires
        span_wf(i),
    ensures
        is_advance(i, res.0, whitespace_end(i.fragment@, 0, false)),
        span_wf(res.0),
        is_start_of(res.1, Seq::empty()),
{
    let k = whitespace_end_from(&i.fragment, 0, false);
    (i.advance(k), Span { fragment: Vec::new(), offset: 0, line: 1 })
}

/// Skips spaces, tabs, carriage returns, line breaks and comments. The
/// second part of the result is an empty span at the start of an empty text.
pub fn multi_whitespace(i: Span) -> (res: (Span, Span))
    requires
        span_wf(i),
    ensures
        is_advance(i, res.0, whitespace_end(i.fragment@, 0, true)),
        span_wf(res.0),
        is_start_of(res.1, Seq::empty()),
{
    let k = whitespace_end_from(&i.fragment, 0, true);
    (i.advance(k), Span { fragment: Vec::new(), offset: 0, line: 1 })
}

} // verus!
