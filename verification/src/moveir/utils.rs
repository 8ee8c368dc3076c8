//! Turning the last copy of a released variable into a move.
//!
//! A function body ends by releasing its reference parameters with statements
//! `_ = x`. Where the expression that a function ends with already uses `x`
//! as a copy, the release is dropped and that copy becomes a move instead.

use vstd::prelude::*;
use crate::seqs::{lemma_filter_all_pass, lemma_filter_idempotent, lemma_filter_kept_pass};
use crate::ast::{mangled, Expression, Statement};
use super::ir::{
    all_renderable, renderable, MoveIRAssignment, MoveIRExpression, MoveIRFunctionCall, MoveIROperation, MoveIRTransfer,
};

verus! {

/// Whether `p` occurs in `s` as a contiguous piece.
pub open spec fn contains_text(s: Seq<char>, p: Seq<char>) -> bool {
    exists|i: int| 0 <= i && i + p.len() <= s.len() && #[trigger] s.subrange(i, i + p.len()) == p
}

/// `s` with every occurrence of the non-empty `from`, taken from left to
/// right without overlap, replaced by `to`.
pub open spec fn replace_all(s: Seq<char>, from: Seq<char>, to: Seq<char>) -> Seq<char>
    decreases s.len(),
{
    if from.len() == 0 || s.len() < from.len() {
        s
    } else if s.subrange(0, from.len() as int) == from {
        to + replace_all(s.subrange(from.len() as int, s.len() as int), from, to)
    } else {
        seq![s[0]] + replace_all(s.subrange(1, s.len() as int), from, to)
    }
}

/// Whether `s` holds `p`: `str::contains` of std.
#[verifier::external_body]
fn str_contains(s: &str, p: &str) -> (res: bool)
    ensures
        res == contains_text(s@, p@),
{
    s.contains(p)
}

/// `s` with each occurrence of `from` replaced by `to`: `str::replace` of std.
#[verifier::external_body]
fn str_replace(s: &str, from: &str, to: &str) -> (res: String)
    requires
        from@.len() > 0,
    ensures
        res@ == replace_all(s@, from@, to@),
{
    s.replace(from, to)
}

/// The variable that a statement releases: the identifier on the right of a
/// binary expression statement.
pub open spec fn released_variable(s: Statement) -> Option<Seq<char>> {
    match s {
        Statement::Expression(Expression::BinaryExpression(be)) => match *be.rhs_expression {
            Expression::Identifier(v) => Some(v.token@),
            _ => None,
        },
        _ => None,
    }
}

/// Whether releasing the variable `tok` changes the expression `e`: some copy
/// of the variable (or of `this` for `self`) or an assignment naming it is
/// found in it.
pub open spec fn moves(tok: Seq<char>, e: MoveIRExpression) -> bool
    decreases e, 0nat,
{
    match e {
        MoveIRExpression::Transfer(MoveIRTransfer::Copy(x)) => match *x {
            MoveIRExpression::Identifier(id) => id@ == mangled(tok) || (tok == "self"@ && id@
                == "this"@),
            _ => false,
        },
        MoveIRExpression::Operation(op) => match op {
            MoveIROperation::Add(l, r) => moves(tok, *r) || moves(tok, *l),
            MoveIROperation::Minus(l, r) => moves(tok, *r) || moves(tok, *l),
            MoveIROperation::Times(l, r) => moves(tok, *r) || moves(tok, *l),
            MoveIROperation::Divide(l, r) => moves(tok, *r) || moves(tok, *l),
            MoveIROperation::Modulo(l, r) => moves(tok, *r) || moves(tok, *l),
            MoveIROperation::GreaterThan(l, r) => moves(tok, *r) || moves(tok, *l),
            MoveIROperation::GreaterThanEqual(l, r) => moves(tok, *r) || moves(tok, *l),
            MoveIROperation::LessThan(l, r) => moves(tok, *r) || moves(tok, *l),
            MoveIROperation::LessThanEqual(l, r) => moves(tok, *r) || moves(tok, *l),
            MoveIROperation::Equal(l, r) => moves(tok, *r) || moves(tok, *l),
            MoveIROperation::NotEqual(l, r) => moves(tok, *r) || moves(tok, *l),
            MoveIROperation::And(l, r) => moves(tok, *r) || moves(tok, *l),
            MoveIROperation::Or(l, r) => moves(tok, *r) || moves(tok, *l),
            MoveIROperation::Power(l, r) => moves(tok, *r) || moves(tok, *l),
            MoveIROperation::Not(x) => moves(tok, *x),
            MoveIROperation::Dereference(x) => moves(tok, *x),
            MoveIROperation::MutableReference(x) => moves(tok, *x),
            MoveIROperation::Reference(x) => moves(tok, *x),
            MoveIROperation::Access(x, _) => moves(tok, *x),
        },
        MoveIRExpression::FunctionCall(fc) => any_moves(tok, fc.arguments@),
        MoveIRExpression::Assignment(a) => contains_text(a.identifier@, tok) || (contains_text(
            a.identifier@,
            "this"@,
        ) && tok == "self"@) || moves(tok, *a.expression),
        MoveIRExpression::Vector(v) => any_moves(tok, v.elements@),
        _ => false,
    }
}

/// Whether releasing `tok` changes some expression of `s`.
pub open spec fn any_moves(tok: Seq<char>, s: Seq<MoveIRExpression>) -> bool
    decreases s, 1nat,
{
    if s.len() == 0 {
        false
    } else {
        any_moves(tok, s.subrange(0, s.len() - 1)) || moves(tok, s[s.len() - 1])
    }
}

/// The last position in `s` of an expression that releasing `tok` changes
/// (-1 when there is none).
pub open spec fn last_moving(tok: Seq<char>, s: Seq<MoveIRExpression>) -> int
    decreases s.len(),
{
    if s.len() == 0 {
        -1
    } else if moves(tok, s[s.len() - 1]) {
        s.len() - 1
    } else {
        last_moving(tok, s.subrange(0, s.len() - 1))
    }
}

/// `res` is what releasing `tok` makes of `e`: the copy found, searching the
/// right operand before the left one and arguments from the last, becomes a
/// move; an assignment naming the variable has `copy` replaced by `move` in
/// its target; a vector is kept as it is.
pub open spec fn moved(tok: Seq<char>, e: MoveIRExpression, res: MoveIRExpression) -> bool
    decreases e, 0nat,
{
    match e {
        MoveIRExpression::Transfer(MoveIRTransfer::Copy(x)) => match *x {
            MoveIRExpression::Identifier(id) => res == MoveIRExpression::Transfer(
                MoveIRTransfer::Move(Box::new(MoveIRExpression::Identifier(id))),
            ),
            _ => false,
        },
        MoveIRExpression::Operation(op) => match op {
            MoveIROperation::Add(l, r) => if moves(tok, *r) {
                res matches MoveIRExpression::Operation(MoveIROperation::Add(l2, r2)) && l2 == l
                    && moved(tok, *r, *r2)
            } else {
                res matches MoveIRExpression::Operation(MoveIROperation::Add(l2, r2)) && r2 == r
                    && moved(tok, *l, *l2)
            },
            MoveIROperation::Minus(l, r) => if moves(tok, *r) {
                res matches MoveIRExpression::Operation(MoveIROperation::Minus(l2, r2)) && l2 == l
                    && moved(tok, *r, *r2)
            } else {
                res matches MoveIRExpression::Operation(MoveIROperation::Minus(l2, r2)) && r2 == r
                    && moved(tok, *l, *l2)
            },
            MoveIROperation::Times(l, r) => if moves(tok, *r) {
                res matches MoveIRExpression::Operation(MoveIROperation::Times(l2, r2)) && l2 == l
                    && moved(tok, *r, *r2)
            } else {
                res matches MoveIRExpression::Operation(MoveIROperation::Times(l2, r2)) && r2 == r
                    && moved(tok, *l, *l2)
            },
            MoveIROperation::Divide(l, r) => if moves(tok, *r) {
                res matches MoveIRExpression::Operation(MoveIROperation::Divide(l2, r2)) && l2 == l
                    && moved(tok, *r, *r2)
            } else {
                res matches MoveIRExpression::Operation(MoveIROperation::Divide(l2, r2)) && r2 == r
                    && moved(tok, *l, *l2)
            },
            MoveIROperation::Modulo(l, r) => if moves(tok, *r) {
                res matches MoveIRExpression::Operation(MoveIROperation::Modulo(l2, r2)) && l2 == l
                    && moved(tok, *r, *r2)
            } else {
                res matches MoveIRExpression::Operation(MoveIROperation::Modulo(l2, r2)) && r2 == r
                    && moved(tok, *l, *l2)
            },
            MoveIROperation::GreaterThan(l, r) => if moves(tok, *r) {
                res matches MoveIRExpression::Operation(MoveIROperation::GreaterThan(l2, r2)) && l2 == l
                    && moved(tok, *r, *r2)
            } else {
                res matches MoveIRExpression::Operation(MoveIROperation::GreaterThan(l2, r2)) && r2 == r
                    && moved(tok, *l, *l2)
            },
            MoveIROperation::GreaterThanEqual(l, r) => if moves(tok, *r) {
                res matches MoveIRExpression::Operation(MoveIROperation::GreaterThanEqual(l2, r2)) && l2 == l
                    && moved(tok, *r, *r2)
            } else {
                res matches MoveIRExpression::Operation(MoveIROperation::GreaterThanEqual(l2, r2)) && r2 == r
                    && moved(tok, *l, *l2)
            },
            MoveIROperation::LessThan(l, r) => if moves(tok, *r) {
                res matches MoveIRExpression::Operation(MoveIROperation::LessThan(l2, r2)) && l2 == l
                    && moved(tok, *r, *r2)
            } else {
                res matches MoveIRExpression::Operation(MoveIROperation::LessThan(l2, r2)) && r2 == r
                    && moved(tok, *l, *l2)
            },
            MoveIROperation::LessThanEqual(l, r) => if moves(tok, *r) {
                res matches MoveIRExpression::Operation(MoveIROperation::LessThanEqual(l2, r2)) && l2 == l
                    && moved(tok, *r, *r2)
            } else {
                res matches MoveIRExpression::Operation(MoveIROperation::LessThanEqual(l2, r2)) && r2 == r
                    && moved(tok, *l, *l2)
            },
            MoveIROperation::Equal(l, r) => if moves(tok, *r) {
                res matches MoveIRExpression::Operation(MoveIROperation::Equal(l2, r2)) && l2 == l
                    && moved(tok, *r, *r2)
            } else {
                res matches MoveIRExpression::Operation(MoveIROperation::Equal(l2, r2)) && r2 == r
                    && moved(tok, *l, *l2)
            },
            MoveIROperation::NotEqual(l, r) => if moves(tok, *r) {
                res matches MoveIRExpression::Operation(MoveIROperation::NotEqual(l2, r2)) && l2 == l
                    && moved(tok, *r, *r2)
            } else {
                res matches MoveIRExpression::Operation(MoveIROperation::NotEqual(l2, r2)) && r2 == r
                    && moved(tok, *l, *l2)
            },
            MoveIROperation::And(l, r) => if moves(tok, *r) {
                res matches MoveIRExpression::Operation(MoveIROperation::And(l2, r2)) && l2 == l
                    && moved(tok, *r, *r2)
            } else {
                res matches MoveIRExpression::Operation(MoveIROperation::And(l2, r2)) && r2 == r
                    && moved(tok, *l, *l2)
            },
            MoveIROperation::Or(l, r) => if moves(tok, *r) {
                res matches MoveIRExpression::Operation(MoveIROperation::Or(l2, r2)) && l2 == l
                    && moved(tok, *r, *r2)
            } else {
                res matches MoveIRExpression::Operation(MoveIROperation::Or(l2, r2)) && r2 == r
                    && moved(tok, *l, *l2)
            },
            MoveIROperation::Power(l, r) => if moves(tok, *r) {
                res matches MoveIRExpression::Operation(MoveIROperation::Power(l2, r2)) && l2 == l
                    && moved(tok, *r, *r2)
            } else {
                res matches MoveIRExpression::Operation(MoveIROperation::Power(l2, r2)) && r2 == r
                    && moved(tok, *l, *l2)
            },
            MoveIROperation::Not(x) => res matches MoveIRExpression::Operation(
                MoveIROperation::Not(y),
            ) && moved(tok, *x, *y),
            MoveIROperation::Dereference(x) => res matches MoveIRExpression::Operation(
                MoveIROperation::Dereference(y),
            ) && moved(tok, *x, *y),
            MoveIROperation::MutableReference(x) => res matches MoveIRExpression::Operation(
                MoveIROperation::MutableReference(y),
            ) && moved(tok, *x, *y),
            MoveIROperation::Reference(x) => res matches MoveIRExpression::Operation(
                MoveIROperation::Reference(y),
            ) && moved(tok, *x, *y),
            MoveIROperation::Access(x, f) => res matches MoveIRExpression::Operation(
                MoveIROperation::Access(y, g),
            ) && g == f && moved(tok, *x, *y),
        },
        MoveIRExpression::FunctionCall(fc) => {
            let k = last_moving(tok, fc.arguments@);
            &&& res matches MoveIRExpression::FunctionCall(fc2)
            &&& fc2.identifier == fc.identifier
            &&& 0 <= k < fc.arguments@.len()
            &&& fc2.arguments@ == fc.arguments@.update(k, fc2.arguments@[k])
            &&& moved(tok, fc.arguments@[k], fc2.arguments@[k])
        },
        MoveIRExpression::Assignment(a) => if contains_text(a.identifier@, tok) || (contains_text(
            a.identifier@,
            "this"@,
        ) && tok == "self"@) {
            res matches MoveIRExpression::Assignment(a2) && a2.identifier@ == replace_all(
                a.identifier@,
                "copy"@,
                "move"@,
            ) && a2.expression == a.expression
        } else {
            res matches MoveIRExpression::Assignment(a2) && a2.identifier == a.identifier && moved(
                tok,
                *a.expression,
                *a2.expression,
            )
        },
        MoveIRExpression::Vector(_) => res == e,
        _ => false,
    }
}

/// A sequence of expressions can be rendered exactly when each of them can.
pub proof fn lemma_all_renderable_each(s: Seq<MoveIRExpression>)
    ensures
        all_renderable(s) <==> forall|i: int| 0 <= i < s.len() ==> renderable(#[trigger] s[i]),
    decreases s.len(),
{
    if s.len() > 0 {
        let p = s.subrange(0, s.len() - 1);
        lemma_all_renderable_each(p);
        if all_renderable(s) {
            assert forall|i: int| 0 <= i < s.len() implies renderable(#[trigger] s[i]) by {
                if i < s.len() - 1 {
                    assert(p[i] == s[i]);
                }
            }
        }
        if forall|i: int| 0 <= i < s.len() ==> renderable(#[trigger] s[i]) {
            assert forall|i: int| 0 <= i < p.len() implies renderable(#[trigger] p[i]) by {
                assert(p[i] == s[i]);
            }
        }
    }
}

/// Releasing a variable keeps an expression renderable: it only turns a copy
/// into a move or rewrites an assignment's target.
pub proof fn lemma_moved_renderable(tok: Seq<char>, e: MoveIRExpression, res: MoveIRExpression)
    requires
        moved(tok, e, res),
        renderable(e),
    ensures
        renderable(res),
    decreases e,
{
    match e {
        MoveIRExpression::Operation(op) => match op {
            MoveIROperation::Add(l, r) => if let MoveIRExpression::Operation(MoveIROperation::Add(l2, r2)) = res {
                if moves(tok, *r) {
                    lemma_moved_renderable(tok, *r, *r2);
                } else {
                    lemma_moved_renderable(tok, *l, *l2);
                }
            },
            MoveIROperation::Minus(l, r) => if let MoveIRExpression::Operation(MoveIROperation::Minus(l2, r2)) = res {
                if moves(tok, *r) {
                    lemma_moved_renderable(tok, *r, *r2);
                } else {
                    lemma_moved_renderable(tok, *l, *l2);
                }
            },
            MoveIROperation::Times(l, r) => if let MoveIRExpression::Operation(MoveIROperation::Times(l2, r2)) = res {
                if moves(tok, *r) {
                    lemma_moved_renderable(tok, *r, *r2);
                } else {
                    lemma_moved_renderable(tok, *l, *l2);
                }
            },
            MoveIROperation::Divide(l, r) => if let MoveIRExpression::Operation(MoveIROperation::Divide(l2, r2)) = res {
                if moves(tok, *r) {
                    lemma_moved_renderable(tok, *r, *r2);
                } else {
                    lemma_moved_renderable(tok, *l, *l2);
                }
            },
            MoveIROperation::Modulo(l, r) => if let MoveIRExpression::Operation(MoveIROperation::Modulo(l2, r2)) = res {
                if moves(tok, *r) {
                    lemma_moved_renderable(tok, *r, *r2);
                } else {
                    lemma_moved_renderable(tok, *l, *l2);
                }
            },
            MoveIROperation::GreaterThan(l, r) => if let MoveIRExpression::Operation(MoveIROperation::GreaterThan(l2, r2)) = res {
                if moves(tok, *r) {
                    lemma_moved_renderable(tok, *r, *r2);
                } else {
                    lemma_moved_renderable(tok, *l, *l2);
                }
            },
            MoveIROperation::GreaterThanEqual(l, r) => if let MoveIRExpression::Operation(MoveIROperation::GreaterThanEqual(l2, r2)) = res {
                if moves(tok, *r) {
                    lemma_moved_renderable(tok, *r, *r2);
                } else {
                    lemma_moved_renderable(tok, *l, *l2);
                }
            },
            MoveIROperation::LessThan(l, r) => if let MoveIRExpression::Operation(MoveIROperation::LessThan(l2, r2)) = res {
                if moves(tok, *r) {
                    lemma_moved_renderable(tok, *r, *r2);
                } else {
                    lemma_moved_renderable(tok, *l, *l2);
                }
            },
            MoveIROperation::LessThanEqual(l, r) => if let MoveIRExpression::Operation(MoveIROperation::LessThanEqual(l2, r2)) = res {
                if moves(tok, *r) {
                    lemma_moved_renderable(tok, *r, *r2);
                } else {
                    lemma_moved_renderable(tok, *l, *l2);
                }
            },
            MoveIROperation::Equal(l, r) => if let MoveIRExpression::Operation(MoveIROperation::Equal(l2, r2)) = res {
                if moves(tok, *r) {
                    lemma_moved_renderable(tok, *r, *r2);
                } else {
                    lemma_moved_renderable(tok, *l, *l2);
                }
            },
            MoveIROperation::NotEqual(l, r) => if let MoveIRExpression::Operation(MoveIROperation::NotEqual(l2, r2)) = res {
                if moves(tok, *r) {
                    lemma_moved_renderable(tok, *r, *r2);
                } else {
                    lemma_moved_renderable(tok, *l, *l2);
                }
            },
            MoveIROperation::And(l, r) => if let MoveIRExpression::Operation(MoveIROperation::And(l2, r2)) = res {
                if moves(tok, *r) {
                    lemma_moved_renderable(tok, *r, *r2);
                } else {
                    lemma_moved_renderable(tok, *l, *l2);
                }
            },
            MoveIROperation::Or(l, r) => if let MoveIRExpression::Operation(MoveIROperation::Or(l2, r2)) = res {
                if moves(tok, *r) {
                    lemma_moved_renderable(tok, *r, *r2);
                } else {
                    lemma_moved_renderable(tok, *l, *l2);
                }
            },
            MoveIROperation::Power(l, r) => if let MoveIRExpression::Operation(MoveIROperation::Power(l2, r2)) = res {
                if moves(tok, *r) {
                    lemma_moved_renderable(tok, *r, *r2);
                } else {
                    lemma_moved_renderable(tok, *l, *l2);
                }
            },
            MoveIROperation::Not(x) => if let MoveIRExpression::Operation(MoveIROperation::Not(y)) = res {
                lemma_moved_renderable(tok, *x, *y);
            },
            MoveIROperation::Dereference(x) => if let MoveIRExpression::Operation(MoveIROperation::Dereference(y)) = res {
                lemma_moved_renderable(tok, *x, *y);
            },
            MoveIROperation::MutableReference(x) => if let MoveIRExpression::Operation(MoveIROperation::MutableReference(y)) = res {
                lemma_moved_renderable(tok, *x, *y);
            },
            MoveIROperation::Reference(x) => if let MoveIRExpression::Operation(MoveIROperation::Reference(y)) = res {
                lemma_moved_renderable(tok, *x, *y);
            },
            MoveIROperation::Access(x, _) => if let MoveIRExpression::Operation(MoveIROperation::Access(y, _)) = res {
                lemma_moved_renderable(tok, *x, *y);
            },
        },
        MoveIRExpression::FunctionCall(fc) => {
            if let MoveIRExpression::FunctionCall(fc2) = res {
                let k = last_moving(tok, fc.arguments@);
                lemma_all_renderable_each(fc.arguments@);
                lemma_all_renderable_each(fc2.arguments@);
                lemma_moved_renderable(tok, fc.arguments@[k], fc2.arguments@[k]);
                assert forall|i: int| 0 <= i < fc2.arguments@.len() implies renderable(#[trigger] fc2.arguments@[i]) by {
                    if i != k {
                        assert(fc2.arguments@[i] == fc.arguments@[i]);
                    }
                }
            }
        },
        MoveIRExpression::Assignment(a) => {
            if let MoveIRExpression::Assignment(a2) = res {
                if !(contains_text(a.identifier@, tok) || (contains_text(a.identifier@, "this"@) && tok == "self"@)) {
                    lemma_moved_renderable(tok, *a.expression, *a2.expression);
                }
            }
        },
        _ => {},
    }
}

proof fn lemma_any_moves_last(tok: Seq<char>, s: Seq<MoveIRExpression>)
    ensures
        any_moves(tok, s) <==> 0 <= last_moving(tok, s) < s.len(),
        last_moving(tok, s) < s.len(),
        0 <= last_moving(tok, s) < s.len() ==> moves(tok, s[last_moving(tok, s)]),
        forall|j: int| last_moving(tok, s) < j < s.len() ==> !moves(tok, #[trigger] s[j]),
        last_moving(tok, s) >= -1,
    decreases s.len(),
{
    if s.len() > 0 {
        let p = s.subrange(0, s.len() - 1);
        lemma_any_moves_last(tok, p);
        let k = last_moving(tok, p);
        if 0 <= k < p.len() {
            assert(p[k] == s[k]);
        }
        assert forall|j: int| last_moving(tok, s) < j < s.len() implies !moves(tok, #[trigger] s[j]) by {
            if j < s.len() - 1 {
                assert(s[j] == p[j]);
            }
        }
    }
}

/// Whether releasing `tok` changes `e`.
fn would_move(tok: &String, e: &MoveIRExpression) -> (res: bool)
    ensures
        res == moves(tok@, *e),
    decreases e, 0nat,
{
    match e {
        MoveIRExpression::Transfer(MoveIRTransfer::Copy(x)) => match &**x {
            MoveIRExpression::Identifier(id) => {
                let this = String::from_str("this");
                let self_name = String::from_str("self");
                *id == crate::ast::mangle(tok.as_str()) || (*tok == self_name && *id == this)
            },
            _ => false,
        },
        MoveIRExpression::Operation(op) => match op {
            MoveIROperation::Add(l, r) => would_move(tok, r) || would_move(tok, l),
            MoveIROperation::Minus(l, r) => would_move(tok, r) || would_move(tok, l),
            MoveIROperation::Times(l, r) => would_move(tok, r) || would_move(tok, l),
            MoveIROperation::Divide(l, r) => would_move(tok, r) || would_move(tok, l),
            MoveIROperation::Modulo(l, r) => would_move(tok, r) || would_move(tok, l),
            MoveIROperation::GreaterThan(l, r) => would_move(tok, r) || would_move(tok, l),
            MoveIROperation::GreaterThanEqual(l, r) => would_move(tok, r) || would_move(tok, l),
            MoveIROperation::LessThan(l, r) => would_move(tok, r) || would_move(tok, l),
            MoveIROperation::LessThanEqual(l, r) => would_move(tok, r) || would_move(tok, l),
            MoveIROperation::Equal(l, r) => would_move(tok, r) || would_move(tok, l),
            MoveIROperation::NotEqual(l, r) => would_move(tok, r) || would_move(tok, l),
            MoveIROperation::And(l, r) => would_move(tok, r) || would_move(tok, l),
            MoveIROperation::Or(l, r) => would_move(tok, r) || would_move(tok, l),
            MoveIROperation::Power(l, r) => would_move(tok, r) || would_move(tok, l),
            MoveIROperation::Not(x) => would_move(tok, x),
            MoveIROperation::Dereference(x) => would_move(tok, x),
            MoveIROperation::MutableReference(x) => would_move(tok, x),
            MoveIROperation::Reference(x) => would_move(tok, x),
            MoveIROperation::Access(x, _) => would_move(tok, x),
        },
        MoveIRExpression::FunctionCall(fc) => last_moving_index(tok, &fc.arguments).is_some(),
        MoveIRExpression::Assignment(a) => {
            let self_name = String::from_str("self");
            str_contains(a.identifier.as_str(), tok.as_str()) || (str_contains(
                a.identifier.as_str(),
                "this",
            ) && *tok == self_name) || would_move(tok, &a.expression)
        },
        MoveIRExpression::Vector(v) => last_moving_index(tok, &v.elements).is_some(),
        _ => false,
    }
}

/// The last position of an expression of `exprs` that releasing `tok` changes.
fn last_moving_index(tok: &String, exprs: &Vec<MoveIRExpression>) -> (res: Option<usize>)
    ensures
        res is None <==> !any_moves(tok@, exprs@),
        res matches Some(k) ==> k == last_moving(tok@, exprs@),
    decreases exprs@, 1nat,
{
    proof {
        lemma_any_moves_last(tok@, exprs@);
    }
    let mut i = exprs.len();
    while i > 0
        invariant
            i <= exprs@.len(),
            forall|j: int| i <= j < exprs@.len() ==> !moves(tok@, #[trigger] exprs@[j]),
            any_moves(tok@, exprs@) <==> 0 <= last_moving(tok@, exprs@) < exprs@.len(),
            0 <= last_moving(tok@, exprs@) < exprs@.len() ==> moves(
                tok@,
                exprs@[last_moving(tok@, exprs@)],
            ),
            forall|j: int| last_moving(tok@, exprs@) < j < exprs@.len() ==> !moves(
                tok@,
                #[trigger] exprs@[j],
            ),
            last_moving(tok@, exprs@) >= -1,
            last_moving(tok@, exprs@) < exprs@.len(),
        decreases i,
    {
        let ghost k = last_moving(tok@, exprs@);
        if would_move(tok, &exprs[i - 1]) {
            proof {
                assert(moves(tok@, exprs@[i - 1]));
                if k < i - 1 {
                    assert(!moves(tok@, exprs@[i - 1]));
                }
                if k > i - 1 {
                    assert(moves(tok@, exprs@[k]));
                }
            }
            return Some(i - 1);
        }
        proof {
            assert(!moves(tok@, exprs@[i - 1]));
        }
        i = i - 1;
    }
    proof {
        let k = last_moving(tok@, exprs@);
        if 0 <= k < exprs@.len() {
            assert(moves(tok@, exprs@[k]));
        }
    }
    None
}

/// What releasing `tok` makes of an operation that it changes.
fn remove_move_op(tok: &String, op: MoveIROperation) -> (res: MoveIRExpression)
    requires
        moves(tok@, MoveIRExpression::Operation(op)),
    ensures
        moved(tok@, MoveIRExpression::Operation(op), res),
    decreases op, 1nat,
{
    match op {
        MoveIROperation::Add(l, r) => {
            if would_move(tok, &r) {
                MoveIRExpression::Operation(MoveIROperation::Add(l, Box::new(remove_move(tok, *r))))
            } else {
                MoveIRExpression::Operation(MoveIROperation::Add(Box::new(remove_move(tok, *l)), r))
            }
        },
        MoveIROperation::Minus(l, r) => {
            if would_move(tok, &r) {
                MoveIRExpression::Operation(MoveIROperation::Minus(l, Box::new(remove_move(tok, *r))))
            } else {
                MoveIRExpression::Operation(MoveIROperation::Minus(Box::new(remove_move(tok, *l)), r))
            }
        },
        MoveIROperation::Times(l, r) => {
            if would_move(tok, &r) {
                MoveIRExpression::Operation(MoveIROperation::Times(l, Box::new(remove_move(tok, *r))))
            } else {
                MoveIRExpression::Operation(MoveIROperation::Times(Box::new(remove_move(tok, *l)), r))
            }
        },
        MoveIROperation::Divide(l, r) => {
            if would_move(tok, &r) {
                MoveIRExpression::Operation(MoveIROperation::Divide(l, Box::new(remove_move(tok, *r))))
            } else {
                MoveIRExpression::Operation(MoveIROperation::Divide(Box::new(remove_move(tok, *l)), r))
            }
        },
        MoveIROperation::Modulo(l, r) => {
            if would_move(tok, &r) {
                MoveIRExpression::Operation(MoveIROperation::Modulo(l, Box::new(remove_move(tok, *r))))
            } else {
                MoveIRExpression::Operation(MoveIROperation::Modulo(Box::new(remove_move(tok, *l)), r))
            }
        },
        MoveIROperation::GreaterThan(l, r) => {
            if would_move(tok, &r) {
                MoveIRExpression::Operation(MoveIROperation::GreaterThan(l, Box::new(remove_move(tok, *r))))
            } else {
                MoveIRExpression::Operation(MoveIROperation::GreaterThan(Box::new(remove_move(tok, *l)), r))
            }
        },
        MoveIROperation::GreaterThanEqual(l, r) => {
            if would_move(tok, &r) {
                MoveIRExpression::Operation(MoveIROperation::GreaterThanEqual(l, Box::new(remove_move(tok, *r))))
            } else {
                MoveIRExpression::Operation(MoveIROperation::GreaterThanEqual(Box::new(remove_move(tok, *l)), r))
            }
        },
        MoveIROperation::LessThan(l, r) => {
            if would_move(tok, &r) {
                MoveIRExpression::Operation(MoveIROperation::LessThan(l, Box::new(remove_move(tok, *r))))
            } else {
                MoveIRExpression::Operation(MoveIROperation::LessThan(Box::new(remove_move(tok, *l)), r))
            }
        },
        MoveIROperation::LessThanEqual(l, r) => {
            if would_move(tok, &r) {
                MoveIRExpression::Operation(MoveIROperation::LessThanEqual(l, Box::new(remove_move(tok, *r))))
            } else {
                MoveIRExpression::Operation(MoveIROperation::LessThanEqual(Box::new(remove_move(tok, *l)), r))
            }
        },
        MoveIROperation::Equal(l, r) => {
            if would_move(tok, &r) {
                MoveIRExpression::Operation(MoveIROperation::Equal(l, Box::new(remove_move(tok, *r))))
            } else {
                MoveIRExpression::Operation(MoveIROperation::Equal(Box::new(remove_move(tok, *l)), r))
            }
        },
        MoveIROperation::NotEqual(l, r) => {
            if would_move(tok, &r) {
                MoveIRExpression::Operation(MoveIROperation::NotEqual(l, Box::new(remove_move(tok, *r))))
            } else {
                MoveIRExpression::Operation(MoveIROperation::NotEqual(Box::new(remove_move(tok, *l)), r))
            }
        },
        MoveIROperation::And(l, r) => {
            if would_move(tok, &r) {
                MoveIRExpression::Operation(MoveIROperation::And(l, Box::new(remove_move(tok, *r))))
            } else {
                MoveIRExpression::Operation(MoveIROperation::And(Box::new(remove_move(tok, *l)), r))
            }
        },
        MoveIROperation::Or(l, r) => {
            if would_move(tok, &r) {
                MoveIRExpression::Operation(MoveIROperation::Or(l, Box::new(remove_move(tok, *r))))
            } else {
                MoveIRExpression::Operation(MoveIROperation::Or(Box::new(remove_move(tok, *l)), r))
            }
        },
        MoveIROperation::Power(l, r) => {
            if would_move(tok, &r) {
                MoveIRExpression::Operation(MoveIROperation::Power(l, Box::new(remove_move(tok, *r))))
            } else {
                MoveIRExpression::Operation(MoveIROperation::Power(Box::new(remove_move(tok, *l)), r))
            }
        },
        MoveIROperation::Not(x) => MoveIRExpression::Operation(
            MoveIROperation::Not(Box::new(remove_move(tok, *x))),
        ),
        MoveIROperation::Dereference(x) => MoveIRExpression::Operation(
            MoveIROperation::Dereference(Box::new(remove_move(tok, *x))),
        ),
        MoveIROperation::MutableReference(x) => MoveIRExpression::Operation(
            MoveIROperation::MutableReference(Box::new(remove_move(tok, *x))),
        ),
        MoveIROperation::Reference(x) => MoveIRExpression::Operation(
            MoveIROperation::Reference(Box::new(remove_move(tok, *x))),
        ),
        MoveIROperation::Access(x, f) => MoveIRExpression::Operation(
            MoveIROperation::Access(Box::new(remove_move(tok, *x)), f),
        ),
    }
}

/// What releasing `tok` makes of an expression that it changes.
fn remove_move(tok: &String, expression: MoveIRExpression) -> (res: MoveIRExpression)
    requires
        moves(tok@, expression),
    ensures
        moved(tok@, expression, res),
    decreases expression, 0nat,
{
    match expression {
        MoveIRExpression::Transfer(MoveIRTransfer::Copy(x)) => match *x {
            MoveIRExpression::Identifier(id) => MoveIRExpression::Transfer(
                MoveIRTransfer::Move(Box::new(MoveIRExpression::Identifier(id))),
            ),
            other => MoveIRExpression::Transfer(MoveIRTransfer::Copy(Box::new(other))),
        },
        MoveIRExpression::Operation(op) => remove_move_op(tok, op),
        MoveIRExpression::FunctionCall(fc) => {
            let ghost old_args = fc.arguments@;
            let k = last_moving_index(tok, &fc.arguments).unwrap();
            proof {
                lemma_any_moves_last(tok@, fc.arguments@);
            }
            let mut arguments = fc.arguments;
            let mut argument = MoveIRExpression::Noop;
            arguments.set_and_swap(k, &mut argument);
            let mut new_argument = remove_move(tok, argument);
            arguments.set_and_swap(k, &mut new_argument);
            proof {
                assert(arguments@ =~= old_args.update(k as int, arguments@[k as int]));
            }
            MoveIRExpression::FunctionCall(MoveIRFunctionCall { identifier: fc.identifier, arguments })
        },
        MoveIRExpression::Assignment(assignment) => {
            let self_name = String::from_str("self");
            proof {
                reveal_strlit("copy");
            }
            if str_contains(assignment.identifier.as_str(), tok.as_str()) || (str_contains(
                assignment.identifier.as_str(),
                "this",
            ) && *tok == self_name) {
                MoveIRExpression::Assignment(
                    MoveIRAssignment {
                        identifier: str_replace(assignment.identifier.as_str(), "copy", "move"),
                        expression: assignment.expression,
                    },
                )
            } else {
                MoveIRExpression::Assignment(
                    MoveIRAssignment {
                        identifier: assignment.identifier,
                        expression: Box::new(remove_move(tok, *assignment.expression)),
                    },
                )
            }
        },
        other => other,
    }
}

/// Whether statement `s` releases a variable whose release changes `e`.
pub open spec fn releases_into(s: Statement, e: MoveIRExpression) -> bool {
    released_variable(s) matches Some(tok) && moves(tok, e)
}

/// The last position in `s` of a statement whose release changes `e` (-1
/// when there is none).
pub open spec fn last_release(s: Seq<Statement>, e: MoveIRExpression) -> int
    decreases s.len(),
{
    if s.len() == 0 {
        -1
    } else if releases_into(s[s.len() - 1], e) {
        s.len() - 1
    } else {
        last_release(s.subrange(0, s.len() - 1), e)
    }
}

/// The variable that a binary expression statement releases.
fn released_variable_of(statement: &Statement) -> (res: Option<&String>)
    ensures
        res is None <==> released_variable(*statement) is None,
        res matches Some(t) ==> released_variable(*statement) == Some(t@),
{
    if let Statement::Expression(Expression::BinaryExpression(be)) = statement {
        if let Expression::Identifier(variable) = &*be.rhs_expression {
            return Some(&variable.token);
        }
    }
    None
}

/// Drops the release statements that `expression` can absorb and turns the
/// corresponding copy into a move.
///
/// The statements kept are those, in their order, whose release does not
/// change `expression`. Of those dropped, the last decides the expression
/// returned: each release is applied to the expression as given, not to the
/// result of an earlier one. With none dropped the expression comes back
/// unchanged.
pub fn remove_moves(statements: Vec<Statement>, expression: MoveIRExpression) -> (res: (
    Vec<Statement>,
    MoveIRExpression,
))
    ensures
        res.0@ == statements@.filter(|s: Statement| !releases_into(s, expression)),
        last_release(statements@, expression) < 0 ==> res.1 == expression,
        last_release(statements@, expression) >= 0 ==> moved(
            released_variable(statements@[last_release(statements@, expression)]).unwrap(),
            expression,
            res.1,
        ),
{
    let ghost original = statements@;
    let ghost pred = |s: Statement| !releases_into(s, expression);
    assert(original.len() == statements.len());
    let mut rest = statements;
    let mut kept: Vec<Statement> = Vec::new();
    let mut last: Option<String> = None;
    let mut i: usize = 0;
    while rest.len() > 0
        invariant
            i + rest@.len() == original.len(),
            original.len() <= usize::MAX,
            pred == (|s: Statement| !releases_into(s, expression)),
            rest@ == original.subrange(i as int, original.len() as int),
            kept@ == original.subrange(0, i as int).filter(pred),
            last is None ==> last_release(original.subrange(0, i as int), expression) < 0,
            last matches Some(t) ==> {
                &&& last_release(original.subrange(0, i as int), expression) >= 0
                &&& released_variable(
                    original[last_release(original.subrange(0, i as int), expression)],
                ) == Some(t@)
                &&& moves(t@, expression)
            },
        decreases rest@.len(),
    {
        let ghost prefix = original.subrange(0, i as int);
        let statement = rest.remove(0);
        proof {
            assert(statement == original[i as int]);
            assert(original.subrange(0, i as int + 1).drop_last() =~= prefix);
            assert(original.subrange(0, i as int + 1).last() == statement);
            assert(original.subrange(0, i as int + 1).subrange(0, i as int) =~= prefix);
            assert(rest@ =~= original.subrange(i as int + 1, original.len() as int));
        }
        let mut absorbed = false;
        match released_variable_of(&statement) {
            Some(tok) => {
                if would_move(tok, &expression) {
                    last = Some(tok.clone());
                    absorbed = true;
                }
            },
            None => {},
        }
        proof {
            assert(absorbed == releases_into(statement, expression));
            lemma_last_release_prefix(original, expression, i as int);
            lemma_last_release_bound(original.subrange(0, i as int), expression);
            let next = original.subrange(0, i as int + 1);
            reveal_with_fuel(Seq::<_>::filter, 1);
            assert(next.filter(pred) == if pred(statement) {
                prefix.filter(pred).push(statement)
            } else {
                prefix.filter(pred)
            });
        }
        if !absorbed {
            kept.push(statement);
        }
        i = i + 1;
    }
    proof {
        assert(original.subrange(0, i as int) =~= original);
        assert(pred == (|s: Statement| !releases_into(s, expression)));
    }
    match last {
        Some(tok) => {
            let result = remove_move(&tok, expression);
            (kept, result)
        },
        None => (kept, expression),
    }
}

proof fn lemma_last_release_bound(s: Seq<Statement>, e: MoveIRExpression)
    ensures
        -1 <= last_release(s, e) < s.len(),
        0 <= last_release(s, e) ==> releases_into(s[last_release(s, e)], e),
    decreases s.len(),
{
    if s.len() > 0 {
        let p = s.subrange(0, s.len() - 1);
        lemma_last_release_bound(p, e);
        let k = last_release(p, e);
        if 0 <= k {
            assert(p[k] == s[k]);
        }
    }
}

proof fn lemma_last_release_prefix(s: Seq<Statement>, e: MoveIRExpression, i: int)
    requires
        0 <= i < s.len(),
    ensures
        releases_into(s[i], e) ==> last_release(s.subrange(0, i + 1), e) == i,
        !releases_into(s[i], e) ==> last_release(s.subrange(0, i + 1), e) == last_release(
            s.subrange(0, i),
            e,
        ),
        last_release(s.subrange(0, i + 1), e) < i + 1,
{
    assert(s.subrange(0, i + 1).subrange(0, i) =~= s.subrange(0, i));
    assert(s.subrange(0, i + 1)[i] == s[i]);
    lemma_last_release_bound(s.subrange(0, i + 1), e);
}

/// With no statement releasing into `e`, none is found.
proof fn lemma_no_release(s: Seq<Statement>, e: MoveIRExpression)
    requires
        forall|i: int| 0 <= i < s.len() ==> !releases_into(#[trigger] s[i], e),
    ensures
        last_release(s, e) < 0,
    decreases s.len(),
{
    if s.len() > 0 {
        let p = s.subrange(0, s.len() - 1);
        assert forall|i: int| 0 <= i < p.len() implies !releases_into(#[trigger] p[i], e) by {
            assert(p[i] == s[i]);
        }
        lemma_no_release(p, e);
    }
}

/// Where no release is found, no statement releases into `e`.
proof fn lemma_release_found(s: Seq<Statement>, e: MoveIRExpression, i: int)
    requires
        0 <= i < s.len(),
        releases_into(s[i], e),
    ensures
        last_release(s, e) >= 0,
    decreases s.len(),
{
    if i < s.len() - 1 && !releases_into(s[s.len() - 1], e) {
        let p = s.subrange(0, s.len() - 1);
        assert(p[i] == s[i]);
        lemma_release_found(p, e, i);
    }
}

/// What `remove_moves` keeps releases nothing into the expression: run
/// again on its own result, it drops no statement and returns the
/// expression unchanged.
pub proof fn law_remove_moves_leaves_nothing_to_remove(statements: Seq<Statement>, expression: MoveIRExpression)
    ensures
        last_release(statements.filter(|s: Statement| !releases_into(s, expression)), expression) < 0,
        statements.filter(|s: Statement| !releases_into(s, expression)).filter(
            |s: Statement| !releases_into(s, expression),
        ) == statements.filter(|s: Statement| !releases_into(s, expression)),
{
    let pred = |s: Statement| !releases_into(s, expression);
    let kept = statements.filter(pred);
    lemma_filter_kept_pass(statements, pred);
    assert forall|i: int| 0 <= i < kept.len() implies !releases_into(#[trigger] kept[i], expression) by {
        assert(pred(kept[i]));
    }
    lemma_no_release(kept, expression);
    lemma_filter_idempotent(statements, pred);
}

/// Where no statement releases into the expression, `remove_moves` keeps
/// every statement and returns the expression unchanged; where one does, it
/// drops at least that one.
pub proof fn law_remove_moves_drops_exactly_releases(statements: Seq<Statement>, expression: MoveIRExpression)
    ensures
        last_release(statements, expression) < 0 ==> statements.filter(
            |s: Statement| !releases_into(s, expression),
        ) == statements,
        last_release(statements, expression) >= 0 ==> statements.filter(
            |s: Statement| !releases_into(s, expression),
        ).len() < statements.len(),
{
    let pred = |s: Statement| !releases_into(s, expression);
    lemma_last_release_bound(statements, expression);
    if last_release(statements, expression) < 0 {
        assert forall|i: int| 0 <= i < statements.len() implies pred(#[trigger] statements[i]) by {
            if releases_into(statements[i], expression) {
                lemma_release_found(statements, expression, i);
            }
        }
        lemma_filter_all_pass(statements, pred);
    } else {
        lemma_filter_drops(statements, pred, last_release(statements, expression));
    }
}

/// Filtering out an element that fails makes the sequence shorter.
proof fn lemma_filter_drops(s: Seq<Statement>, pred: spec_fn(Statement) -> bool, i: int)
    requires
        0 <= i < s.len(),
        !pred(s[i]),
    ensures
        s.filter(pred).len() < s.len(),
    decreases s.len(),
{
    reveal_with_fuel(Seq::<_>::filter, 1);
    let p = s.drop_last();
    p.lemma_filter_len(pred);
    if i < s.len() - 1 {
        assert(p[i] == s[i]);
        lemma_filter_drops(p, pred, i);
    }
}

} // verus!
