//! Generation of the initialisers of structs as MoveIR functions.

use vstd::prelude::*;
use vstd::string::StrSliceExecFns;
use crate::ast::{BinOp, Expression, Identifier, Modifier, SpecialDeclaration, Statement, VariableDeclaration};
use crate::text::{join, lemma_join_push};
use super::function::{
    inout_parameters, is_reference_release, lemma_statements_renderable_all,
    lemma_statements_renderable_from_all, modifier_parts, modifiers_string, parameter_parts,
    parameters_string, reordered, FunctionContext,
};
use super::ir::{
    fields_renderable, renderable, statement_renderable, statements_renderable, statements_text, type_text, MoveIRBlock,
    MoveIRExpression, MoveIRStatement, MoveIRStructConstructor, MoveIRTransfer, MoveIRType,
    MoveIRVariableDeclaration,
};

verus! {

/// What the statement `s` of an initialiser's body says of the struct's
/// unassigned properties: `None` where it is an assignment to something
/// other than a name or a field access (the scan of the body stops there);
/// the property it assigns, where it assigns `Type.name` of the struct
/// `enclosing` or `self.name`; else nothing.
pub open spec fn assignment_step(s: Statement, enclosing: Seq<char>) -> Option<Option<Seq<char>>> {
    match s {
        Statement::Expression(Expression::BinaryExpression(b)) => if b.op == BinOp::Equal {
            match *b.lhs_expression {
                Expression::Identifier(i) => if i.enclosing_type matches Some(e) && e@ == enclosing {
                    Some(Some(i.token@))
                } else {
                    Some(None)
                },
                Expression::BinaryExpression(be) => if be.op == BinOp::Dot && *be.lhs_expression is SelfExpression
                    && *be.rhs_expression is Identifier {
                    Some(Some((*be.rhs_expression)->Identifier_0.token@))
                } else {
                    Some(None)
                },
                _ => None,
            }
        } else {
            Some(None)
        },
        _ => Some(None),
    }
}

/// The names of `u` other than `t`.
pub open spec fn without(u: Seq<Seq<char>>, t: Seq<char>) -> Seq<Seq<char>> {
    u.filter(|x: Seq<char>| x != t)
}

/// How far the scan of an initialiser's body gets from index `i` with the
/// properties `unassigned` still to be assigned: the index after the last
/// statement taken, and whether the scan stopped at a statement it does not
/// emit. The scan takes statements while some property is unassigned.
pub open spec fn scan(body: Seq<Statement>, enclosing: Seq<char>, i: int, unassigned: Seq<Seq<char>>) -> (int, bool)
    decreases body.len() - i,
{
    if i < 0 || i >= body.len() || unassigned.len() == 0 {
        (i, false)
    } else {
        match assignment_step(body[i], enclosing) {
            None => (i + 1, true),
            Some(None) => scan(body, enclosing, i + 1, unassigned),
            Some(Some(t)) => scan(body, enclosing, i + 1, without(unassigned, t)),
        }
    }
}

/// The names of properties.
pub open spec fn property_names(ps: Seq<VariableDeclaration>) -> Seq<Seq<char>> {
    Seq::new(ps.len(), |k: int| ps[k].identifier.token@)
}

/// `s` declares the local `__this_name` of type `t` that holds a property.
pub open spec fn declares_field_local(s: MoveIRStatement, name: Seq<char>, t: MoveIRType) -> bool {
    &&& s matches MoveIRStatement::Expression(MoveIRExpression::VariableDeclaration(v))
    &&& v.identifier@ == "__this_"@ + name
    &&& v.declaration_type == t
}

/// `s` returns the struct `id` built from the locals of its properties.
pub open spec fn returns_constructed(s: MoveIRStatement, id: Identifier, names: Seq<Seq<char>>) -> bool {
    &&& s matches MoveIRStatement::Return(MoveIRExpression::StructConstructor(c))
    &&& c.identifier == id
    &&& c.fields@.len() == names.len()
    &&& forall|k: int| 0 <= k < names.len() ==> is_field_of_local(#[trigger] c.fields@[k], names[k])
}

/// The field `f` is `name`, set by moving the local `__this_name`.
pub open spec fn is_field_of_local(f: (String, MoveIRExpression), name: Seq<char>) -> bool {
    &&& f.0@ == name
    &&& f.1 matches MoveIRExpression::Transfer(MoveIRTransfer::Move(x))
    &&& *x matches MoveIRExpression::Identifier(l)
    &&& l@ == "__this_"@ + name
}

/// `s` declares the local `name` of type `t`.
pub open spec fn declares_local(s: MoveIRStatement, name: Seq<char>, t: MoveIRType) -> bool {
    &&& s matches MoveIRStatement::Expression(MoveIRExpression::VariableDeclaration(v))
    &&& v.identifier@ == name
    &&& v.declaration_type == t
}

/// An initialiser of a struct.
pub struct MoveStructInitialiser {
    pub declaration: SpecialDeclaration,
    pub identifier: Identifier,
    pub properties: Vec<VariableDeclaration>,
}

/// `all` are the statements of the body of the initialiser `m`: a local
/// for each property; the code of the body's statements that the scan takes
/// and emits; the release of each reference parameter; then, where the scan
/// took every statement, the return of the struct built from the locals, and
/// else the declarations of `this` (a mutable reference to `self_type`) and
/// of a nameless local of `self_type`.
pub open spec fn is_initialiser_body(
    all: Seq<MoveIRStatement>,
    m: MoveStructInitialiser,
    property_types: Seq<MoveIRType>,
    code: Seq<MoveIRStatement>,
    self_type: MoveIRType,
) -> bool {
    let props = m.properties@;
    let names = property_names(props);
    let body = m.declaration.body@;
    let sc = scan(body, m.identifier.token@, 0, names);
    let emitted = sc.0 - (if sc.1 {
        1int
    } else {
        0
    });
    let all_taken = sc.0 == body.len();
    let releases = inout_parameters(m.declaration.scope_context.parameters@);
    let p = props.len();
    let q = p + emitted;
    let r = q + releases.len();
    &&& all.len() == r + (if all_taken {
        1int
    } else {
        2
    })
    &&& forall|k: int| 0 <= k < p ==> declares_field_local(#[trigger] all[k], names[k], property_types[k])
    &&& forall|k: int| 0 <= k < emitted ==> #[trigger] all[p + k] == code[k]
    &&& forall|k: int| 0 <= k < releases.len() ==> is_reference_release(#[trigger] all[q + k], releases[k], all_taken)
    &&& all_taken ==> returns_constructed(all[r], m.identifier, names)
    &&& !all_taken ==> declares_local(all[r], "this"@, MoveIRType::MutableReference(Box::new(self_type)))
        && declares_local(all[r + 1], Seq::empty(), self_type)
}

/// The text of a struct initialiser from its pieces.
pub open spec fn initialiser_text(
    modifiers: Seq<char>,
    name: Seq<char>,
    parameters: Seq<char>,
    result: Seq<char>,
    body: Seq<char>,
) -> Seq<char> {
    modifiers + " "@ + name + "_init("@ + parameters + "): "@ + result + " { \n\n "@ + body + " \n\n }"@
}

/// What the statement `s` says of the unassigned properties of the struct
/// named `enclosing`: see `assignment_step`.
fn assignment_step_of(s: &Statement, enclosing: &String) -> (res: Option<Option<String>>)
    ensures
        match assignment_step(*s, enclosing@) {
            None => res is None,
            Some(None) => res matches Some(None),
            Some(Some(t)) => res matches Some(Some(u)) && u@ == t,
        },
{
    if let Statement::Expression(Expression::BinaryExpression(b)) = s {
        if let BinOp::Equal = b.op {
            match &*b.lhs_expression {
                Expression::Identifier(i) => {
                    if let Some(e) = &i.enclosing_type {
                        if *e == *enclosing {
                            return Some(Some(i.token.clone()));
                        }
                    }
                    return Some(None);
                },
                Expression::BinaryExpression(be) => {
                    if let BinOp::Dot = be.op {
                        if let Expression::SelfExpression = &*be.lhs_expression {
                            if let Expression::Identifier(i) = &*be.rhs_expression {
                                return Some(Some(i.token.clone()));
                            }
                        }
                    }
                    return Some(None);
                },
                _ => {
                    return None;
                },
            }
        }
    }
    Some(None)
}

/// The names of `u` other than `t`, as strings.
fn remove_name(u: Vec<String>, t: &String, Ghost(names): Ghost<Seq<Seq<char>>>) -> (res: Vec<String>)
    requires
        u@.len() == names.len(),
        forall|k: int| 0 <= k < names.len() ==> (#[trigger] u@[k])@ == names[k],
    ensures
        res@.len() == without(names, t@).len(),
        forall|k: int| 0 <= k < res@.len() ==> (#[trigger] res@[k])@ == without(names, t@)[k],
{
    let ghost pred = |x: Seq<char>| x != t@;
    let total = u.len();
    assert(names.len() == total);
    let mut res: Vec<String> = Vec::new();
    let mut rest = u;
    let mut i: usize = 0;
    while rest.len() > 0
        invariant
            pred == (|x: Seq<char>| x != t@),
            names.len() <= usize::MAX,
            i + rest@.len() == names.len(),
            forall|k: int| 0 <= k < rest@.len() ==> (#[trigger] rest@[k])@ == names[i + k],
            res@.len() == names.take(i as int).filter(pred).len(),
            forall|k: int| 0 <= k < res@.len() ==> (#[trigger] res@[k])@ == names.take(i as int).filter(pred)[k],
        decreases rest@.len(),
    {
        proof {
            assert(names.take(i as int + 1) =~= names.take(i as int).push(names[i as int]));
            names.take(i as int).lemma_filter_push(names[i as int], pred);
        }
        let x = rest.remove(0);
        assert(x@ == names[i as int]);
        if x != *t {
            res.push(x);
        }
        i = i + 1;
    }
    proof {
        assert(names.take(names.len() as int) =~= names);
    }
    res
}

/// Fields that move locals can be rendered.
proof fn lemma_local_fields_renderable(fields: Seq<(String, MoveIRExpression)>, names: Seq<Seq<char>>)
    requires
        fields.len() == names.len(),
        forall|k: int| 0 <= k < names.len() ==> is_field_of_local(#[trigger] fields[k], names[k]),
    ensures
        fields_renderable(fields),
    decreases fields.len(),
{
    if fields.len() > 0 {
        let p = fields.subrange(0, fields.len() - 1);
        let q = names.subrange(0, names.len() - 1);
        assert forall|k: int| 0 <= k < q.len() implies is_field_of_local(#[trigger] p[k], q[k]) by {
            assert(p[k] == fields[k] && q[k] == names[k]);
        }
        lemma_local_fields_renderable(p, q);
        assert(is_field_of_local(fields[fields.len() - 1], names[names.len() - 1]));
        let x = fields[fields.len() - 1].1->Transfer_0->Move_0;
        assert(renderable(*x));
        assert(renderable(fields[fields.len() - 1].1));
    }
}

impl MoveStructInitialiser {
    /// Generates the initialiser. `parameters` holds the code of each
    /// parameter, its name and its Move type; `property_types` the Move type
    /// of each property; `result_type` and `self_type` the Move types of the
    /// struct as the result and as the receiver; `code` the code generated for
    /// each statement of the body. The body declares a local for each
    /// property and takes statements while some property is unassigned (see
    /// `scan`), then releases the reference parameters and either returns the
    /// struct built from the locals or, where statements remain, declares the
    /// receiver; the statements that remain are not generated.
    pub fn generate(
        self,
        parameters: &Vec<(MoveIRExpression, MoveIRType)>,
        property_types: Vec<MoveIRType>,
        result_type: MoveIRType,
        self_type: MoveIRType,
        code: Vec<MoveIRStatement>,
    ) -> (res: String)
        requires
            forall|k: int| 0 <= k < parameters@.len() ==> renderable(#[trigger] parameters@[k].0),
            property_types@.len() == self.properties@.len(),
            code@.len() == self.declaration.body@.len(),
            statements_renderable(code@),
            forall|k: int|
                0 <= k < inout_parameters(self.declaration.scope_context.parameters@).len() ==> (
                #[trigger] inout_parameters(self.declaration.scope_context.parameters@)[k]).identifier.enclosing_type
                    != Some(self.identifier.token),
        ensures
            self.declaration.body@.len() == 0 ==> res@ == initialiser_text(
                join(modifier_parts(self.declaration.head.modifiers@), ","@),
                self.identifier.token@,
                join(parameter_parts(parameters@), ", "@),
                type_text(result_type),
                Seq::empty(),
            ),
            self.declaration.body@.len() > 0 ==> exists|all: Seq<MoveIRStatement>|
                #[trigger] is_initialiser_body(all, self, property_types@, code@, self_type) && res@
                    == initialiser_text(
                    join(modifier_parts(self.declaration.head.modifiers@), ","@),
                    self.identifier.token@,
                    join(parameter_parts(parameters@), ", "@),
                    type_text(result_type),
                    statements_text(reordered(all)),
                ),
    {
        let ghost m = self;
        let MoveStructInitialiser { declaration, identifier, properties } = self;
        let modifiers = modifiers_string(&declaration.head.modifiers);
        let params = parameters_string(parameters);
        let result = result_type.to_string();
        let ghost names = property_names(properties@);
        let n = declaration.body.len();
        let ghost mut body_all: Seq<MoveIRStatement> = Seq::empty();
        let body_text = if n == 0 {
            String::new()
        } else {
            // The scan of the body.
            let mut unassigned: Vec<String> = Vec::new();
            let mut k: usize = 0;
            while k < properties.len()
                invariant
                    k <= properties@.len(),
                    names == property_names(properties@),
                    unassigned@.len() == k,
                    forall|j: int| 0 <= j < k ==> (#[trigger] unassigned@[j])@ == names[j],
                decreases properties@.len() - k,
            {
                unassigned.push(properties[k].identifier.token.clone());
                k = k + 1;
            }
            let ghost mut ua: Seq<Seq<char>> = names;
            proof {
                assert(names.take(properties@.len() as int) =~= names);
            }
            let mut i: usize = 0;
            let mut broke = false;
            while i < n && unassigned.len() > 0
                invariant_except_break
                    !broke,
                    scan(declaration.body@, identifier.token@, 0, names) == scan(
                        declaration.body@,
                        identifier.token@,
                        i as int,
                        ua,
                    ),
                invariant
                    n == declaration.body@.len(),
                    i <= n,
                    unassigned@.len() == ua.len(),
                    forall|j: int| 0 <= j < ua.len() ==> (#[trigger] unassigned@[j])@ == ua[j],
                ensures
                    i <= n,
                    broke ==> i >= 1,
                    broke ==> scan(declaration.body@, identifier.token@, 0, names) == (i as int, true),
                    !broke ==> scan(declaration.body@, identifier.token@, 0, names) == (i as int, false),
                decreases n - i,
            {
                let step = assignment_step_of(&declaration.body[i], &identifier.token);
                match step {
                    None => {
                        i = i + 1;
                        broke = true;
                        break;
                    },
                    Some(None) => {},
                    Some(Some(t)) => {
                        unassigned = remove_name(unassigned, &t, Ghost(ua));
                        proof {
                            ua = without(ua, t@);
                        }
                    },
                }
                i = i + 1;
            }
            let emitted: usize = if broke {
                i - 1
            } else {
                i
            };
            let all_taken = i == n;
            // The locals of the properties.
            let mut stmts: Vec<MoveIRStatement> = Vec::new();
            let mut types = property_types;
            let ghost types0 = types@;
            let mut k: usize = 0;
            proof {
                reveal_strlit("__this_");
            }
            while k < properties.len()
                invariant
                    k <= properties@.len(),
                    names == property_names(properties@),
                    types0.len() == properties@.len(),
                    types@ == types0.skip(k as int),
                    stmts@.len() == k,
                    forall|j: int| 0 <= j < k ==> declares_field_local(#[trigger] stmts@[j], names[j], types0[j]),
                decreases properties@.len() - k,
            {
                let t = types.remove(0);
                let mut local = String::from_str("__this_");
                local.append(properties[k].identifier.token.as_str());
                stmts.push(
                    MoveIRStatement::Expression(
                        MoveIRExpression::VariableDeclaration(
                            MoveIRVariableDeclaration { identifier: local, declaration_type: t },
                        ),
                    ),
                );
                assert(types@ =~= types0.skip(k as int + 1));
                k = k + 1;
            }
            // The code of the statements taken.
            let mut rest = code;
            let ghost code0 = rest@;
            let mut c: usize = 0;
            while c < emitted
                invariant
                    emitted <= code0.len(),
                    c <= emitted,
                    rest@ == code0.skip(c as int),
                    stmts@.len() == properties@.len() + c,
                    forall|j: int|
                        0 <= j < properties@.len() ==> declares_field_local(#[trigger] stmts@[j], names[j], types0[j]),
                    forall|j: int| 0 <= j < c ==> #[trigger] stmts@[properties@.len() + j] == code0[j],
                decreases emitted - c,
            {
                let st = rest.remove(0);
                stmts.push(st);
                assert(rest@ =~= code0.skip(c as int + 1));
                c = c + 1;
            }
            let ghost before = stmts@;
            let mut context = FunctionContext {
                scope_context: declaration.scope_context,
                enclosing_type: identifier.token.clone(),
                block_stack: vec![MoveIRBlock { statements: stmts }],
                in_struct_function: true,
                is_constructor: all_taken,
            };
            context.emit_release_references();
            if all_taken {
                let mut fields: Vec<(String, MoveIRExpression)> = Vec::new();
                let mut k: usize = 0;
                while k < properties.len()
                    invariant
                        k <= properties@.len(),
                        names == property_names(properties@),
                        fields@.len() == k,
                        forall|j: int| 0 <= j < k ==> is_field_of_local(#[trigger] fields@[j], names[j]),
                    decreases properties@.len() - k,
                {
                    let mut local = String::from_str("__this_");
                    local.append(properties[k].identifier.token.as_str());
                    fields.push(
                        (
                            properties[k].identifier.token.clone(),
                            MoveIRExpression::Transfer(MoveIRTransfer::Move(Box::new(MoveIRExpression::Identifier(local)))),
                        ),
                    );
                    k = k + 1;
                }
                context.emit(
                    MoveIRStatement::Return(
                        MoveIRExpression::StructConstructor(
                            MoveIRStructConstructor { identifier: identifier.deep_clone(), fields },
                        ),
                    ),
                );
            } else {
                context.emit(
                    MoveIRStatement::Expression(
                        MoveIRExpression::VariableDeclaration(
                            MoveIRVariableDeclaration {
                                identifier: String::from_str("this"),
                                declaration_type: MoveIRType::MutableReference(Box::new(self_type.deep_clone())),
                            },
                        ),
                    ),
                );
                context.emit(
                    MoveIRStatement::Expression(
                        MoveIRExpression::VariableDeclaration(
                            MoveIRVariableDeclaration { identifier: String::new(), declaration_type: self_type },
                        ),
                    ),
                );
            }
            proof {
                body_all = context.block_stack@.last().statements@;
                let p = properties@.len() as int;
                let q = p + emitted;
                let releases = inout_parameters(m.declaration.scope_context.parameters@);
                let r = q + releases.len();
                assert(m.properties == properties);
                assert(names == property_names(m.properties@));
                assert(scan(m.declaration.body@, m.identifier.token@, 0, names).0 == i);
                assert(forall|k: int| 0 <= k < p ==> declares_field_local(#[trigger] body_all[k], names[k], types0[k]));
                assert(forall|k: int| 0 <= k < emitted ==> #[trigger] body_all[p + k] == code0[k]);
                assert(forall|k: int| 0 <= k < releases.len() ==> is_reference_release(#[trigger] body_all[q + k], releases[k], all_taken));
                assert(body_all.len() == r + (if all_taken { 1int } else { 2 }));
                if all_taken {
                    assert(returns_constructed(body_all[r], m.identifier, names));
                } else {
                    assert(declares_local(body_all[r], "this"@, MoveIRType::MutableReference(Box::new(self_type))));
                    assert(declares_local(body_all[r + 1], Seq::empty(), self_type));
                }
                assert(is_initialiser_body(body_all, m, types0, code0, self_type));
                lemma_statements_renderable_all(code0);
                assert forall|k: int| 0 <= k < body_all.len() implies statement_renderable(#[trigger] body_all[k]) by {
                    if k < p {
                        assert(declares_field_local(body_all[k], names[k], types0[k]));
                    } else if q <= k < r {
                        assert(is_reference_release(body_all[q + (k - q)], releases[k - q], all_taken));
                    } else if !all_taken && k == r {
                        assert(declares_local(body_all[r], "this"@, MoveIRType::MutableReference(Box::new(self_type))));
                    } else if !all_taken && k == r + 1 {
                        assert(declares_local(body_all[r + 1], Seq::empty(), self_type));
                    }
                    if p <= k < q {
                        assert(body_all[k] == before[k]);
                        assert(before[p + (k - p)] == code0[k - p]);
                    }
                    if all_taken && k == r {
                        let c = body_all[r]->Return_0->StructConstructor_0;
                        lemma_local_fields_renderable(c.fields@, names);
                    }
                }
                lemma_statements_renderable_from_all(body_all);
            }
            context.generate()
        };
        let mut res = modifiers;
        proof {
            reveal_strlit(" ");
            reveal_strlit("_init(");
            reveal_strlit("): ");
            reveal_strlit(" { \n\n ");
            reveal_strlit(" \n\n }");
        }
        res.append(" ");
        res.append(identifier.token.as_str());
        res.append("_init(");
        res.append(params.as_str());
        res.append("): ");
        res.append(result.as_str());
        res.append(" { \n\n ");
        res.append(body_text.as_str());
        res.append(" \n\n }");
        res
    }
}

} // verus!
