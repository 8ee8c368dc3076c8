//! Checks of the semantic analysis that look at a declaration on its own:
//! whether a function body returns on every path, whether conformances are
//! repeated, and whether a call is made in an allowed type state.

use vstd::prelude::*;
use crate::equality::{identifiers_equal, same_identifier};
use crate::ast::{Conformance, Identifier, Statement, TypeState};
use crate::text::{decimal, join, lemma_join_push, write_decimal};

verus! {

/// Whether every path through a block ends in a return: the block holds a
/// return statement, or it holds conditionals and both branches of each of
/// them return on every path.
pub open spec fn block_returns(b: Seq<Statement>) -> bool
    decreases b, b.len() + 1,
{
    (exists|i: int| 0 <= i < b.len() && #[trigger] b[i] is ReturnStatement) || (
    (exists|i: int| 0 <= i < b.len() && #[trigger] b[i] is IfStatement) && branches_return_from(b, 0))
}

/// Whether both branches of each conditional from position `i` on return on
/// every path.
pub open spec fn branches_return_from(b: Seq<Statement>, i: int) -> bool
    decreases b, b.len() - i,
{
    if i < 0 || i >= b.len() {
        true
    } else {
        match b[i] {
            Statement::IfStatement(branch) => {
                &&& block_returns(branch.body@)
                &&& block_returns(branch.else_body@)
                &&& branches_return_from(b, i + 1)
            },
            _ => branches_return_from(b, i + 1),
        }
    }
}

/// A block that holds a return statement, at any position, returns on
/// every path; and statements added before or after such a block leave it
/// returning.
pub proof fn law_a_return_anywhere_returns(before: Seq<Statement>, b: Seq<Statement>, after: Seq<Statement>, i: int)
    requires
        0 <= i < b.len(),
        b[i] is ReturnStatement,
    ensures
        block_returns(b),
        block_returns(before + b + after),
{
    assert(b[i] is ReturnStatement);
    assert((before + b + after)[before.len() + i] == b[i]);
}

/// A block with neither a return statement nor a conditional does not
/// return on every path.
pub proof fn law_no_return_no_branch_does_not_return(b: Seq<Statement>)
    requires
        forall|j: int| 0 <= j < b.len() ==> !(#[trigger] b[j] is ReturnStatement) && !(b[j] is IfStatement),
    ensures
        !block_returns(b),
{
}

/// Whether both branches of a conditional return on every path.
pub open spec fn both_branches_return(s: Statement) -> bool {
    match s {
        Statement::IfStatement(branch) => block_returns(branch.body@) && block_returns(branch.else_body@),
        _ => true,
    }
}

proof fn lemma_branches_return_from_all(b: Seq<Statement>, i: int)
    requires
        0 <= i,
    ensures
        branches_return_from(b, i) <==> forall|j: int| i <= j < b.len() ==> both_branches_return(#[trigger] b[j]),
    decreases b.len() - i,
{
    if i < b.len() {
        lemma_branches_return_from_all(b, i + 1);
        assert forall|j: int| i <= j < b.len() && both_branches_return(b[i]) && (forall|k: int|
            i + 1 <= k < b.len() ==> both_branches_return(#[trigger] b[k])) implies both_branches_return(
            #[trigger] b[j],
        ) by {
            if j > i {
                assert(both_branches_return(b[j]));
            }
        }
    }
}

/// A block without a return statement but with conditionals returns on
/// every path exactly when both branches of every one of its conditionals
/// do: one branch that may fall through, anywhere in the block, makes the
/// block fall through.
pub proof fn law_conditionals_return_when_all_branches_do(b: Seq<Statement>, j: int)
    requires
        forall|k: int| 0 <= k < b.len() ==> !(#[trigger] b[k] is ReturnStatement),
        0 <= j < b.len(),
        b[j] is IfStatement,
    ensures
        block_returns(b) <==> forall|k: int| 0 <= k < b.len() ==> both_branches_return(#[trigger] b[k]),
{
    lemma_branches_return_from_all(b, 0);
    assert(b[j] is IfStatement);
}

/// Whether every path through the block ends in a return.
pub fn code_block_returns(block: &[Statement]) -> (res: bool)
    ensures
        res == block_returns(block@),
    decreases block@, block@.len() + 1,
{
    let mut i: usize = 0;
    while i < block.len()
        invariant
            i <= block@.len(),
            forall|j: int| 0 <= j < i ==> !(#[trigger] block@[j] is ReturnStatement),
        decreases block@.len() - i,
    {
        if let Statement::ReturnStatement(_) = &block[i] {
            return true;
        }
        i = i + 1;
    }
    let mut any_branch = false;
    let mut k: usize = block.len();
    while k > 0
        invariant
            k <= block@.len(),
            any_branch == exists|j: int| k <= j < block@.len() && #[trigger] block@[j] is IfStatement,
        decreases k,
    {
        k = k - 1;
        if let Statement::IfStatement(_) = &block[k] {
            any_branch = true;
        }
    }
    if !any_branch {
        return false;
    }
    branches_return_from_exec(block, 0)
}

/// Whether both branches of each conditional from position `i` on return on
/// every path.
fn branches_return_from_exec(block: &[Statement], i: usize) -> (res: bool)
    requires
        i <= block@.len(),
    ensures
        res == branches_return_from(block@, i as int),
    decreases block@, block@.len() - i,
{
    if i >= block.len() {
        return true;
    }
    match &block[i] {
        Statement::IfStatement(branch) => {
            proof {
                assert(decreases_to!(block@ => block@[i as int]));
            }
            code_block_returns(branch.body.as_slice()) && code_block_returns(branch.else_body.as_slice())
                && branches_return_from_exec(block, i + 1)
        },
        _ => branches_return_from_exec(block, i + 1),
    }
}

/// Whether two of the conformances name the same trait.
pub open spec fn conformance_repeated(cs: Seq<Conformance>) -> bool {
    exists|a: int, b: int|
        0 <= a < b < cs.len() && (#[trigger] cs[a]).identifier.token@ == (#[trigger] cs[b]).identifier.token@
}

/// Whether two of the conformances name the same trait.
pub fn is_conformance_repeated(conformances: &Vec<Conformance>) -> (res: bool)
    ensures
        res == conformance_repeated(conformances@),
{
    let n = conformances.len();
    let mut a: usize = 0;
    while a < n
        invariant
            n == conformances@.len(),
            a <= n,
            forall|x: int, y: int|
                0 <= x < a && x < y < n ==> (#[trigger] conformances@[x]).identifier.token@ != (
                #[trigger] conformances@[y]).identifier.token@,
        decreases n - a,
    {
        let mut b: usize = a + 1;
        while b < n
            invariant
                n == conformances@.len(),
                a < n,
                a + 1 <= b <= n,
                forall|x: int, y: int|
                    0 <= x < a && x < y < n ==> (#[trigger] conformances@[x]).identifier.token@ != (
                    #[trigger] conformances@[y]).identifier.token@,
                forall|y: int| a < y < b ==> conformances@[a as int].identifier.token@ != (
                #[trigger] conformances@[y]).identifier.token@,
            decreases n - b,
        {
            if conformances[a].identifier.token == conformances[b].identifier.token {
                return true;
            }
            b = b + 1;
        }
        a = a + 1;
    }
    false
}

/// Whether a type state is among the states: one with the same name and
/// the same enclosing type (positions left out).
pub open spec fn state_in(s: TypeState, states: Seq<TypeState>) -> bool {
    exists|i: int| 0 <= i < states.len() && same_identifier((#[trigger] states[i]).identifier, s.identifier)
}

/// Whether a call made in the current state, or, where that is not known,
/// in any of the contract's `type_states`, is certainly allowed by
/// `allowed_states`, or can only be checked when the contract runs: there
/// is no restriction, the state is not known, or every state it may be in
/// is allowed.
pub open spec fn state_possible(type_states: Seq<TypeState>, current_state: Option<TypeState>, allowed: Seq<TypeState>) -> bool {
    let possible = possible_states(type_states, current_state);
    allowed.len() == 0 || possible.len() == 0 || forall|i: int|
        0 <= i < possible.len() ==> state_in(#[trigger] possible[i], allowed)
}

/// The states a contract may be in: the current one where it is known,
/// else any of its type states.
pub open spec fn possible_states(type_states: Seq<TypeState>, current_state: Option<TypeState>) -> Seq<TypeState> {
    match current_state {
        Some(s) => seq![s],
        None => type_states,
    }
}

/// The name of a state in double quotes.
pub open spec fn quoted_state(s: TypeState) -> Seq<char> {
    "\""@ + s.identifier.token@ + "\""@
}

/// The names of the states as a list: each in double quotes, separated by
/// commas, in square brackets.
pub open spec fn state_list_text(states: Seq<TypeState>) -> Seq<char> {
    "["@ + join(states.map_values(|s: TypeState| quoted_state(s)), ", "@) + "]"@
}

/// Whether the state is among the allowed ones.
fn is_allowed(s: &TypeState, allowed: &Vec<TypeState>) -> (res: bool)
    ensures
        res == state_in(*s, allowed@),
{
    let mut i: usize = 0;
    while i < allowed.len()
        invariant
            i <= allowed@.len(),
            forall|j: int| 0 <= j < i ==> !same_identifier((#[trigger] allowed@[j]).identifier, s.identifier),
        decreases allowed@.len() - i,
    {
        if identifiers_equal(&allowed[i].identifier, &s.identifier) {
            return true;
        }
        i = i + 1;
    }
    false
}

/// Whether a call made in the current or any possible state is certainly
/// allowed, or can only be checked when the contract runs.
/// Where the current state is known, the call is allowed just when that
/// state is.
proof fn lemma_state_possible_known(type_states: Seq<TypeState>, s: TypeState, allowed: Seq<TypeState>)
    requires
        allowed.len() > 0,
    ensures
        state_possible(type_states, Some(s), allowed) == state_in(s, allowed),
{
    let possible = possible_states(type_states, Some(s));
    assert(possible =~= seq![s]);
    assert(possible[0] == s);
    if state_in(s, allowed) {
        assert forall|i: int| 0 <= i < possible.len() implies state_in(#[trigger] possible[i], allowed) by {
            assert(i == 0);
        }
    } else {
        assert(!state_in(possible[0], allowed));
    }
}

fn is_state_possible(type_states: &Vec<TypeState>, current_state: &Option<TypeState>, allowed_states: &Vec<TypeState>) -> (res: bool)
    ensures
        res == state_possible(type_states@, *current_state, allowed_states@),
{
    if allowed_states.len() == 0 {
        return true;
    }
    match current_state {
        Some(s) => {
            let r = is_allowed(s, allowed_states);
            proof {
                lemma_state_possible_known(type_states@, *s, allowed_states@);
            }
            r
        },
        None => {
            let mut all = true;
            let mut i: usize = 0;
            while i < type_states.len()
                invariant
                    i <= type_states@.len(),
                    all == forall|j: int| 0 <= j < i ==> state_in(#[trigger] type_states@[j], allowed_states@),
                decreases type_states@.len() - i,
            {
                if !is_allowed(&type_states[i], allowed_states) {
                    all = false;
                }
                i = i + 1;
            }
            all
        },
    }
}

/// Checks that a call of `function_id` is made in a type state that
/// `allowed_states` allows, where that can be known before the contract
/// runs; the error names the function, its position and the allowed states.
pub fn check_if_correct_type_state_possible(
    type_states: &Vec<TypeState>,
    current_state: &Option<TypeState>,
    allowed_states: &Vec<TypeState>,
    function_id: &Identifier,
) -> (res: Result<(), String>)
    ensures
        res is Ok <==> state_possible(type_states@, *current_state, allowed_states@),
        res matches Err(msg) ==> msg@ == "Must definitely be in one of the following states to make function call "@
            + function_id.token@ + " on LineInfo { line: "@ + crate::text::decimal(function_id.line_info.line as nat)
            + ", offset: "@ + crate::text::decimal(function_id.line_info.offset as nat) + " }: "@ + state_list_text(
            allowed_states@,
        ) + "."@,
{
    proof {
        reveal_strlit("[]");
        reveal_strlit("");
    }
    let ok = is_state_possible(type_states, current_state, allowed_states);
    if ok {
        return Ok(());
    }
    let mut msg = String::from_str("Must definitely be in one of the following states to make function call ");
    msg.append(function_id.token.as_str());
    msg.append(" on LineInfo { line: ");
    write_decimal(&mut msg, function_id.line_info.line as u64);
    msg.append(", offset: ");
    write_decimal(&mut msg, function_id.line_info.offset as u64);
    msg.append(" }: ");
    msg.append("[");
    let ghost start = msg@;
    let ghost names = allowed_states@.map_values(|s: TypeState| quoted_state(s));
    let mut i: usize = 0;
    while i < allowed_states.len()
        invariant
            i <= allowed_states@.len(),
            names == allowed_states@.map_values(|s: TypeState| quoted_state(s)),
            msg@ == start + join(names.subrange(0, i as int), ", "@),
        decreases allowed_states@.len() - i,
    {
        proof {
            assert(names.subrange(0, i as int + 1) =~= names.subrange(0, i as int).push(names[i as int]));
            lemma_join_push(names.subrange(0, i as int), ", "@, names[i as int]);
        }
        if i > 0 {
            msg.append(", ");
        }
        msg.append("\"");
        msg.append(allowed_states[i].identifier.token.as_str());
        msg.append("\"");
        i = i + 1;
    }
    proof {
        assert(names.subrange(0, allowed_states@.len() as int) =~= names);
    }
    msg.append("]");
    msg.append(".");
    Err(msg)
}


/// The error given for mutating `token` in a function, declared at `line`,
/// that does not declare it mutating.
pub open spec fn mutation_error(token: Seq<char>, line: u32) -> Seq<char> {
    "Mutating identifier `"@ + token + "` which is not declared mutating at line "@ + decimal(line as nat)
}

/// Checks that an assignment to `token` is allowed: inside a function (whose
/// `mutates` clause and line are given) an identifier assigned to as an
/// lvalue must be declared mutating; outside functions anything goes.
pub fn ensure_mutation_declared(token: &str, function: Option<(&Vec<Identifier>, u32)>, is_lvalue: bool) -> (res:
    Result<(), String>)
    ensures
        match function {
            Some((mutates, line)) => {
                &&& (res is Err <==> (is_lvalue && forall|i: int|
                    0 <= i < mutates@.len() ==> (#[trigger] mutates@[i]).token@ != token@))
                &&& (res matches Err(e) ==> e@ == mutation_error(token@, line))
            },
            None => res is Ok,
        },
{
    if let Some((mutates, line)) = function {
        let wanted = String::from_str(token);
        let mut declared = false;
        let mut i: usize = 0;
        while i < mutates.len()
            invariant
                i <= mutates@.len(),
                wanted@ == token@,
                declared <==> exists|j: int| 0 <= j < i && (#[trigger] mutates@[j]).token@ == token@,
            decreases mutates@.len() - i,
        {
            if mutates[i].token == wanted {
                declared = true;
            }
            i = i + 1;
        }
        if !declared && is_lvalue {
            let mut e = String::from_str("Mutating identifier `");
            e.append(token);
            e.append("` which is not declared mutating at line ");
            write_decimal(&mut e, line as u64);
            return Err(e);
        }
    }
    Ok(())
}

} // verus!
