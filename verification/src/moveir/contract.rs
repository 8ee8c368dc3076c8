//! Rewrites of the MoveIR that the contract generator applies to the
//! constructors it emits.

use vstd::prelude::*;
use vstd::string::StrSliceExecFns;
use crate::ast::{Identifier, LineInfo};
use crate::text::{join, join_strings, texts};
use super::ir::{
    import_text, statement_text, MoveIRExpression, MoveIROperation, MoveIRStatement, MoveIRStructConstructor,
    MoveIRTransfer,
};
use super::runtime_function::{all_functions_text, MoveRuntimeFunction};
use super::types::{get_all_declarations, get_all_imports};

verus! {

/// `g` is the constructor field `f` after the borrowed reference
/// `field_declaration` has been replaced by `declaration`: a field that moves
/// exactly `field_declaration` now dereferences a move of `declaration`;
/// every other field is kept.
pub open spec fn field_replaced(
    f: (String, MoveIRExpression),
    field_declaration: Seq<char>,
    declaration: Seq<char>,
    g: (String, MoveIRExpression),
) -> bool {
    if f.1 matches MoveIRExpression::Transfer(MoveIRTransfer::Move(b)) && *b matches MoveIRExpression::Identifier(
        id,
    ) && id@ == field_declaration {
        &&& g.0 == f.0
        &&& g.1 matches MoveIRExpression::Operation(MoveIROperation::Dereference(x))
        &&& *x matches MoveIRExpression::Transfer(MoveIRTransfer::Move(y))
        &&& *y matches MoveIRExpression::Identifier(d)
        &&& d@ == declaration
    } else {
        g == f
    }
}

/// In a struct constructor, makes the fields that move the temporary
/// `field_declaration` dereference a move of `declaration` instead; any other
/// expression is left as it is.
pub fn replace_borrowed_references(constructor: &mut MoveIRExpression, field_declaration: &str, declaration: &str)
    ensures
        match *old(constructor) {
            MoveIRExpression::StructConstructor(c) => {
                &&& *final(constructor) matches MoveIRExpression::StructConstructor(d)
                &&& d.identifier == c.identifier
                &&& d.fields@.len() == c.fields@.len()
                &&& forall|i: int|
                    0 <= i < c.fields@.len() ==> field_replaced(
                        #[trigger] c.fields@[i],
                        field_declaration@,
                        declaration@,
                        d.fields@[i],
                    )
            },
            _ => *final(constructor) == *old(constructor),
        },
{
    if let MoveIRExpression::StructConstructor(constructor) = constructor {
        let from = String::from_str(field_declaration);
        let mut old_fields: Vec<(String, MoveIRExpression)> = Vec::new();
        std::mem::swap(&mut old_fields, &mut constructor.fields);
        let ghost original = old_fields@;
        let mut fields: Vec<(String, MoveIRExpression)> = Vec::new();
        while old_fields.len() > 0
            invariant
                fields@.len() + old_fields@.len() == original.len(),
                old_fields@ == original.subrange(fields@.len() as int, original.len() as int),
                from@ == field_declaration@,
                forall|i: int|
                    0 <= i < fields@.len() ==> field_replaced(
                        #[trigger] original[i],
                        field_declaration@,
                        declaration@,
                        fields@[i],
                    ),
            decreases old_fields@.len(),
        {
            let ghost k = fields@.len() as int;
            let field = old_fields.remove(0);
            assert(field == original[k]);
            let (token, value) = field;
            let mut replaced = false;
            if let MoveIRExpression::Transfer(MoveIRTransfer::Move(identifier)) = &value {
                if let MoveIRExpression::Identifier(id) = &**identifier {
                    if *id == from {
                        replaced = true;
                    }
                }
            }
            if replaced {
                fields.push(
                    (
                        token,
                        MoveIRExpression::Operation(
                            MoveIROperation::Dereference(
                                Box::new(
                                    MoveIRExpression::Transfer(
                                        MoveIRTransfer::Move(
                                            Box::new(MoveIRExpression::Identifier(String::from_str(declaration))),
                                        ),
                                    ),
                                ),
                            ),
                        ),
                    ),
                );
            } else {
                fields.push((token, value));
            }
            assert(old_fields@ =~= original.subrange(fields@.len() as int, original.len() as int));
        }
        constructor.fields = fields;
    }
}


/// The local that holds the value of property `p` while the constructor
/// computes it.
pub open spec fn property_local(p: Seq<char>) -> Seq<char> {
    "__this_"@ + p
}

/// `s` assigns a mutable borrow of the local `name` to some name.
pub open spec fn borrows_local(s: MoveIRStatement, name: Seq<char>) -> bool {
    &&& s matches MoveIRStatement::Expression(MoveIRExpression::Assignment(a))
    &&& *a.expression matches MoveIRExpression::Operation(MoveIROperation::MutableReference(b))
    &&& *b matches MoveIRExpression::Identifier(id)
    &&& id@ == name
}

/// The name that an assignment statement assigns to.
pub open spec fn assigned_name(s: MoveIRStatement) -> Seq<char> {
    match s {
        MoveIRStatement::Expression(MoveIRExpression::Assignment(a)) => a.identifier@,
        _ => Seq::empty(),
    }
}

/// Statement `j` of `stmts` is the first to borrow the local `name`.
pub open spec fn first_borrow(stmts: Seq<MoveIRStatement>, name: Seq<char>, j: int) -> bool {
    &&& 0 <= j < stmts.len()
    &&& borrows_local(stmts[j], name)
    &&& forall|k: int| 0 <= k < j ==> !borrows_local(#[trigger] stmts[k], name)
}

/// `e` moves the local `name`.
pub open spec fn moves_local(e: MoveIRExpression, name: Seq<char>) -> bool {
    e matches MoveIRExpression::Transfer(MoveIRTransfer::Move(b)) && *b matches MoveIRExpression::Identifier(x)
        && x@ == name
}

/// `e` dereferences a move of the local `name`.
pub open spec fn dereferences_local(e: MoveIRExpression, name: Seq<char>) -> bool {
    &&& e matches MoveIRExpression::Operation(MoveIROperation::Dereference(x))
    &&& *x matches MoveIRExpression::Transfer(MoveIRTransfer::Move(y))
    &&& *y matches MoveIRExpression::Identifier(d)
    &&& d@ == name
}

/// `f` is the constructor field of property `p` once the first `upto`
/// statements of `stmts` ran: named `p`, it dereferences the reference that
/// the first of them to borrow the property's local was assigned to, and
/// moves that local where none borrows it.
pub open spec fn constructor_field(
    f: (String, MoveIRExpression),
    p: String,
    stmts: Seq<MoveIRStatement>,
    upto: int,
) -> bool {
    &&& f.0 == p
    &&& {
        ||| exists|j: int|
            #![trigger first_borrow(stmts, property_local(p@), j)]
            j < upto && first_borrow(stmts, property_local(p@), j) && dereferences_local(
                f.1,
                assigned_name(stmts[j]),
            )
        ||| (forall|j: int| 0 <= j < upto ==> !borrows_local(#[trigger] stmts[j], property_local(p@)))
            && moves_local(f.1, property_local(p@))
    }
}

/// The value `T { .. }` that the contract's constructor returns: one field per
/// property, named after it, that moves the property's local `__this_<name>`,
/// except where an initialiser statement assigned a mutable borrow of that
/// local to a reference: then the field dereferences a move of the reference
/// that the first such statement assigned.
pub fn contract_constructor(properties: &Vec<String>, statements: &Vec<MoveIRStatement>) -> (res:
    MoveIRExpression)
    ensures
        res matches MoveIRExpression::StructConstructor(c) && c.identifier.token@ == "T"@
            && c.identifier.enclosing_type is None && c.fields@.len() == properties@.len() && forall|i: int|
            0 <= i < properties@.len() ==> constructor_field(
                #[trigger] c.fields@[i],
                properties@[i],
                statements@,
                statements@.len() as int,
            ),
{
    let mut locals: Vec<String> = Vec::new();
    let mut fields: Vec<(String, MoveIRExpression)> = Vec::new();
    let mut i: usize = 0;
    while i < properties.len()
        invariant
            i <= properties@.len(),
            locals@.len() == i,
            fields@.len() == i,
            forall|m: int| 0 <= m < i ==> #[trigger] locals@[m]@ == property_local(properties@[m]@),
            forall|m: int|
                0 <= m < i ==> constructor_field(#[trigger] fields@[m], properties@[m], statements@, 0),
        decreases properties@.len() - i,
    {
        let mut local = String::from_str("__this_");
        local.append(properties[i].as_str());
        locals.push(local.clone());
        fields.push(
            (
                properties[i].clone(),
                MoveIRExpression::Transfer(MoveIRTransfer::Move(Box::new(MoveIRExpression::Identifier(local)))),
            ),
        );
        i = i + 1;
    }
    let mut constructor = MoveIRExpression::StructConstructor(
        MoveIRStructConstructor {
            identifier: Identifier {
                token: String::from_str("T"),
                enclosing_type: None,
                line_info: LineInfo { line: 0, offset: 0 },
            },
            fields,
        },
    );
    let mut k: usize = 0;
    while k < statements.len()
        invariant
            k <= statements@.len(),
            locals@.len() == properties@.len(),
            forall|m: int|
                0 <= m < properties@.len() ==> #[trigger] locals@[m]@ == property_local(properties@[m]@),
            constructor matches MoveIRExpression::StructConstructor(c) && c.identifier.token@ == "T"@
                && c.identifier.enclosing_type is None && c.fields@.len() == properties@.len() && forall|
                m: int,
            |
                0 <= m < properties@.len() ==> constructor_field(
                    #[trigger] c.fields@[m],
                    properties@[m],
                    statements@,
                    k as int,
                ),
        decreases statements@.len() - k,
    {
        let ghost before = constructor;
        let mut borrowed: Option<(&String, &String)> = None;
        if let MoveIRStatement::Expression(MoveIRExpression::Assignment(a)) = &statements[k] {
            if let MoveIRExpression::Operation(MoveIROperation::MutableReference(b)) = &*a.expression {
                if let MoveIRExpression::Identifier(id) = &**b {
                    borrowed = Some((id, &a.identifier));
                }
            }
        }
        let mut is_field = false;
        if let Some((id, _)) = borrowed {
            let mut m: usize = 0;
            while m < locals.len()
                invariant
                    m <= locals@.len(),
                    is_field <==> exists|n: int| 0 <= n < m && #[trigger] locals@[n]@ == id@,
                decreases locals@.len() - m,
            {
                if locals[m] == *id {
                    is_field = true;
                }
                m = m + 1;
            }
        }
        if let Some((id, target)) = borrowed {
            if is_field {
                replace_borrowed_references(&mut constructor, id.as_str(), target.as_str());
            }
        }
        let ghost after = constructor;
        proof {
            let s = statements@[k as int];
            if let MoveIRExpression::StructConstructor(c) = after {
                if let MoveIRExpression::StructConstructor(c0) = before {
                    assert forall|m: int| 0 <= m < properties@.len() implies constructor_field(
                        #[trigger] c.fields@[m],
                        properties@[m],
                        statements@,
                        k + 1,
                    ) by {
                        let name = property_local(properties@[m]@);
                        assert(constructor_field(c0.fields@[m], properties@[m], statements@, k as int));
                        assert(locals@[m]@ == name);
                        if exists|j: int|
                            #![trigger first_borrow(statements@, name, j)]
                            j < k && first_borrow(statements@, name, j) && dereferences_local(
                                c0.fields@[m].1,
                                assigned_name(statements@[j]),
                            ) {
                            let j = choose|j: int|
                                #![trigger first_borrow(statements@, name, j)]
                                j < k && first_borrow(statements@, name, j) && dereferences_local(
                                    c0.fields@[m].1,
                                    assigned_name(statements@[j]),
                                );
                            assert(j < k + 1 && first_borrow(statements@, name, j));
                        } else {
                            if borrows_local(s, name) {
                                assert(first_borrow(statements@, name, k as int));
                            }
                        }
                    }
                }
            }
        }
        k = k + 1;
    }
    constructor
}


/// The resource that holds the dictionary `name` of MoveIR type `t`.
pub open spec fn dict_resource_text(name: Seq<char>, t: Seq<char>) -> Seq<char> {
    "resource "@ + name + " { \n value: "@ + t + " \n }"@
}

/// How `_get_r` of the dictionary resource `r` of MoveIR type `t` begins.
pub open spec fn dict_get_head(r: Seq<char>, t: Seq<char>) -> Seq<char> {
    "_get_"@ + r + "(_address_this: address): "@ + t + " acquires "@ + r + " {\n    let this: &mut Self."@ + r
        + ";\n    let temp: &"@ + t + ";\n    let result: "@ + t + ";\n    this = borrow_global_mut<"@ + r
}

/// How `_insert_r` of the dictionary resource `r` of MoveIR type `t` begins.
pub open spec fn dict_insert_head(r: Seq<char>, t: Seq<char>) -> Seq<char> {
    "_insert_"@ + r + "(_address_this: address, v: "@ + t + ", _contract_caller: &signer) acquires "@ + r
        + " {\n    let new_value: Self."@ + r + ";\n    let cur: &mut Self."@ + r
        + ";\n    let b: bool;\n    b = exists<"@ + r
}

/// How `_insert_r` of the dictionary resource `r` ends.
pub open spec fn dict_insert_tail(r: Seq<char>) -> Seq<char> {
    ">(copy(_address_this));\n    if (move(b)) {\n      cur = borrow_global_mut<"@ + r
        + ">(move(_address_this));\n      *(&mut move(cur).value) = move(v);\n    } else {\n       new_value = "@
        + r + " {\n      value: move(v)\n    };\n    move_to<"@ + r
        + ">(move(_contract_caller), move(new_value));\n    }\n    return;\n  }"@
}

/// The accessors of the dictionary resource `r` of MoveIR type `t`: `_get_r`
/// reads the value published at an address, `_insert_r` overwrites it or
/// publishes it under the caller's account.
pub open spec fn dict_runtime_text(r: Seq<char>, t: Seq<char>) -> Seq<char> {
    dict_get_head(r, t)
        + ">(move(_address_this));\n    temp = &copy(this).value;\n    result = *copy(temp);\n    return move(result);\n  }\n\n        "@
        + dict_insert_head(r, t) + dict_insert_tail(r)
}

fn dict_get_head_string(r: &str, t: &str) -> (res: String)
    ensures
        res@ == dict_get_head(r@, t@),
{
    let mut out = String::from_str("_get_");
    out.append(r);
    out.append("(_address_this: address): ");
    out.append(t);
    out.append(" acquires ");
    out.append(r);
    out.append(" {\n    let this: &mut Self.");
    out.append(r);
    out.append(";\n    let temp: &");
    out.append(t);
    out.append(";\n    let result: ");
    out.append(t);
    out.append(";\n    this = borrow_global_mut<");
    out.append(r);
    out
}

fn dict_insert_head_string(r: &str, t: &str) -> (res: String)
    ensures
        res@ == dict_insert_head(r@, t@),
{
    let mut out = String::from_str("_insert_");
    out.append(r);
    out.append("(_address_this: address, v: ");
    out.append(t);
    out.append(", _contract_caller: &signer) acquires ");
    out.append(r);
    out.append(" {\n    let new_value: Self.");
    out.append(r);
    out.append(";\n    let cur: &mut Self.");
    out.append(r);
    out.append(";\n    let b: bool;\n    b = exists<");
    out.append(r);
    out
}

fn dict_insert_tail_string(r: &str) -> (res: String)
    ensures
        res@ == dict_insert_tail(r@),
{
    let mut out = String::from_str(">(copy(_address_this));\n    if (move(b)) {\n      cur = borrow_global_mut<");
    out.append(r);
    out.append(">(move(_address_this));\n      *(&mut move(cur).value) = move(v);\n    } else {\n       new_value = ");
    out.append(r);
    out.append(" {\n      value: move(v)\n    };\n    move_to<");
    out.append(r);
    out.append(">(move(_contract_caller), move(new_value));\n    }\n    return;\n  }");
    out
}

fn dict_runtime_string(r: &str, t: &str) -> (res: String)
    ensures
        res@ == dict_runtime_text(r@, t@),
{
    let mut out = dict_get_head_string(r, t);
    out.append(
        ">(move(_address_this));\n    temp = &copy(this).value;\n    result = *copy(temp);\n    return move(result);\n  }\n\n        ",
    );
    let head = dict_insert_head_string(r, t);
    out.append(head.as_str());
    let tail = dict_insert_tail_string(r);
    out.append(tail.as_str());
    out
}

/// The names of the dictionary resources, each with the MoveIR type of its
/// value.
pub open spec fn dict_names(dicts: Seq<(String, String)>) -> Seq<Seq<char>> {
    Seq::new(dicts.len(), |i: int| dicts[i].0@)
}

/// The declarations of the dictionary resources.
pub open spec fn dict_resources(dicts: Seq<(String, String)>) -> Seq<Seq<char>> {
    Seq::new(dicts.len(), |i: int| dict_resource_text(dicts[i].0@, dicts[i].1@))
}

/// The accessors of the dictionary resources.
pub open spec fn dict_runtimes(dicts: Seq<(String, String)>) -> Seq<Seq<char>> {
    Seq::new(dicts.len(), |i: int| dict_runtime_text(dicts[i].0@, dicts[i].1@))
}

/// The code of a contract's dictionaries, each given by the name of its
/// resource and the MoveIR type of its value: their names joined with
/// `", "` (what the initialiser acquires), their resource declarations
/// joined by a blank line, and their accessors joined by a blank line.
pub fn get_dict_code(dicts: &Vec<(String, String)>) -> (res: (String, String, String))
    ensures
        res.0@ == join(dict_names(dicts@), ", "@),
        res.1@ == join(dict_resources(dicts@), "\n\n"@),
        res.2@ == join(dict_runtimes(dicts@), "\n\n"@),
{
    let mut names: Vec<String> = Vec::new();
    let mut resources: Vec<String> = Vec::new();
    let mut runtimes: Vec<String> = Vec::new();
    let mut i: usize = 0;
    while i < dicts.len()
        invariant
            i <= dicts@.len(),
            names@.len() == i,
            resources@.len() == i,
            runtimes@.len() == i,
            forall|m: int| 0 <= m < i ==> #[trigger] names@[m]@ == dicts@[m].0@,
            forall|m: int| 0 <= m < i ==> #[trigger] resources@[m]@ == dict_resource_text(dicts@[m].0@, dicts@[m].1@),
            forall|m: int| 0 <= m < i ==> #[trigger] runtimes@[m]@ == dict_runtime_text(dicts@[m].0@, dicts@[m].1@),
        decreases dicts@.len() - i,
    {
        let (r, t) = &dicts[i];
        names.push(r.clone());
        let mut resource = String::from_str("resource ");
        resource.append(r.as_str());
        resource.append(" { \n value: ");
        resource.append(t.as_str());
        resource.append(" \n }");
        resources.push(resource);
        runtimes.push(dict_runtime_string(r.as_str(), t.as_str()));
        i = i + 1;
    }
    proof {
        assert(texts(names@) =~= dict_names(dicts@));
        assert(texts(resources@) =~= dict_resources(dicts@));
        assert(texts(runtimes@) =~= dict_runtimes(dicts@));
    }
    (join_strings(&names, ", "), join_strings(&resources, "\n\n"), join_strings(&runtimes, "\n\n"))
}

/// The import statements of the external traits that name a module address,
/// in their order: `import <address>.<name>;`.
pub open spec fn trait_imports(traits: Seq<(String, Option<String>)>) -> Seq<Seq<char>>
    decreases traits.len(),
{
    if traits.len() == 0 {
        Seq::empty()
    } else {
        let rest = trait_imports(traits.drop_last());
        match traits.last().1 {
            Some(a) => rest.push("import "@ + a@ + "."@ + traits.last().0@ + ";"@),
            None => rest,
        }
    }
}

/// The imports of the runtime's modules.
pub open spec fn runtime_imports() -> Seq<Seq<char>> {
    seq![
        "import "@ + "0x1"@ + "."@ + "Signer"@ + ";"@,
        "import "@ + "0x1"@ + "."@ + "Vector"@ + ";"@,
        "import "@ + "0x1"@ + "."@ + "LBR"@ + ";"@,
        "import "@ + "0x1"@ + "."@ + "LibraAccount"@ + ";"@,
    ]
}

/// The import block of a module: the imports of the external traits that
/// name a module address, then those of the runtime, one per line.
pub open spec fn imports_text(traits: Seq<(String, Option<String>)>) -> Seq<char> {
    join(trait_imports(traits) + runtime_imports(), "\n"@)
}

/// The import block of a contract's module, from its external traits, each
/// given by its name and the module address that its attributes give, if any.
pub fn generate_imports(traits: &Vec<(String, Option<String>)>) -> (res: String)
    ensures
        res@ == imports_text(traits@),
{
    let mut lines: Vec<String> = Vec::new();
    let mut i: usize = 0;
    while i < traits.len()
        invariant
            i <= traits@.len(),
            texts(lines@) == trait_imports(traits@.take(i as int)),
        decreases traits@.len() - i,
    {
        proof {
            assert(traits@.take(i as int + 1).drop_last() =~= traits@.take(i as int));
        }
        let (name, address) = &traits[i];
        if let Some(a) = address {
            let mut line = String::from_str("import ");
            line.append(a.as_str());
            line.append(".");
            line.append(name.as_str());
            line.append(";");
            lines.push(line);
        }
        proof {
            assert(texts(lines@) =~= trait_imports(traits@.take(i as int + 1)));
        }
        i = i + 1;
    }
    let ghost from_traits = texts(lines@);
    let runtime = get_all_imports();
    proof {
        assert forall|n: int| 0 <= n < 4 implies (runtime@[n] is Import && statement_text(#[trigger] runtime@[n])
            == runtime_imports()[n]) by {
            if let MoveIRStatement::Import(m) = runtime@[n] {
                assert(statement_text(runtime@[n]) == import_text(m) + ";"@);
            }
        }
    }
    let mut j: usize = 0;
    while j < runtime.len()
        invariant
            j <= runtime@.len(),
            runtime@.len() == 4,
            texts(lines@) == from_traits + runtime_imports().take(j as int),
            forall|n: int|
                0 <= n < 4 ==> (runtime@[n] is Import && statement_text(#[trigger] runtime@[n])
                    == runtime_imports()[n]),
        decreases runtime@.len() - j,
    {
        let line = runtime[j].to_string();
        assert(line@ == runtime_imports()[j as int]);
        let ghost before = lines@;
        lines.push(line);
        proof {
            assert(runtime_imports().take(j as int + 1) =~= runtime_imports().take(j as int).push(
                runtime_imports()[j as int],
            ));
            assert(texts(lines@) =~= texts(before).push(runtime_imports()[j as int]));
            assert(texts(lines@) =~= from_traits + runtime_imports().take(j as int + 1));
        }
        j = j + 1;
    }
    proof {
        assert(traits@.take(traits@.len() as int) =~= traits@);
        assert(runtime_imports().take(4) =~= runtime_imports());
    }
    join_strings(&lines, "\n")
}


/// The parameters of the initialiser, each written `name: type`.
pub open spec fn parameter_texts(params: Seq<(String, String)>) -> Seq<Seq<char>> {
    Seq::new(params.len(), |i: int| params[i].0@ + ": "@ + params[i].1@)
}

/// The parameters of the initialiser followed by the publishing account.
pub open spec fn parameters_with_signer(params: Seq<(String, String)>, signer: Seq<char>) -> Seq<char> {
    join(parameter_texts(params).push("account: "@ + signer), ", "@)
}

/// The function `new` that builds the contract's resource from the
/// initialiser's parameters, with `body` as its body: where the contract has
/// dictionaries it also takes the publishing account and acquires them.
pub open spec fn initialiser_text(
    params: Seq<(String, String)>,
    signer: Seq<char>,
    dicts: Seq<char>,
    body: Seq<char>,
) -> Seq<char> {
    if dicts.len() > 0 {
        "new("@ + parameters_with_signer(params, signer) + "): Self.T acquires "@ + dicts + " { \n"@ + body
            + "\n } \n"@
    } else {
        "new("@ + join(parameter_texts(params), ", "@) + "): Self.T { \n"@ + body + "\n } \n"@
    }
}

/// The public function `publish` that builds the contract's resource with
/// `new` from the given argument values (and the account, where the contract
/// has dictionaries) and publishes it under the account.
pub open spec fn publisher_text(
    params: Seq<(String, String)>,
    signer: Seq<char>,
    dicts: Seq<char>,
    values: Seq<char>,
) -> Seq<char> {
    if dicts.len() > 0 {
        let arguments = if values.len() > 0 {
            values + ", copy(account)"@
        } else {
            "copy(account)"@
        };
        "public publish("@ + parameters_with_signer(params, signer) + ") acquires "@ + dicts
            + " { \n let t: Self.T; \nt = Self.new("@ + arguments
            + ");\n move_to<T>(move(account), move(t)); \nreturn; \n }"@
    } else {
        "public publish("@ + parameters_with_signer(params, signer)
            + ") { \n let t: Self.T; \nt = Self.new("@ + values
            + ");\n move_to<T>(move(account), move(t)); \nreturn; \n }"@
    }
}

/// The initialiser `new` and the publisher `publish` of a contract, from
/// the initialiser's parameters (each a name and its MoveIR type), the texts
/// of the values that `publish` hands to `new`, the type of the publishing
/// account, the names of the dictionaries joined with `", "` and the body of
/// `new`.
pub fn initialiser_and_publisher(
    parameters: &Vec<(String, String)>,
    parameter_values: &Vec<String>,
    signer_type: &str,
    dict_names: &str,
    body: &str,
) -> (res: (String, String))
    ensures
        res.0@ == initialiser_text(parameters@, signer_type@, dict_names@, body@),
        res.1@ == publisher_text(parameters@, signer_type@, dict_names@, join(texts(parameter_values@), ", "@)),
{
    let mut params: Vec<String> = Vec::new();
    let mut i: usize = 0;
    while i < parameters.len()
        invariant
            i <= parameters@.len(),
            params@.len() == i,
            forall|m: int| 0 <= m < i ==> #[trigger] params@[m]@ == parameters@[m].0@ + ": "@ + parameters@[m].1@,
        decreases parameters@.len() - i,
    {
        let mut p = parameters[i].0.clone();
        p.append(": ");
        p.append(parameters[i].1.as_str());
        params.push(p);
        i = i + 1;
    }
    assert(texts(params@) =~= parameter_texts(parameters@));
    let without_signer = join_strings(&params, ", ");
    let mut account = String::from_str("account: ");
    account.append(signer_type);
    params.push(account);
    assert(texts(params@) =~= parameter_texts(parameters@).push("account: "@ + signer_type@));
    let with_signer = join_strings(&params, ", ");
    let values = join_strings(parameter_values, ", ");
    let mut initialiser = String::from_str("new(");
    let mut publisher = String::from_str("public publish(");
    publisher.append(with_signer.as_str());
    if dict_names.unicode_len() > 0 {
        initialiser.append(with_signer.as_str());
        initialiser.append("): Self.T acquires ");
        initialiser.append(dict_names);
        initialiser.append(" { \n");
        initialiser.append(body);
        initialiser.append("\n } \n");
        let mut arguments = values;
        if arguments.as_str().unicode_len() > 0 {
            arguments.append(", copy(account)");
        } else {
            arguments = String::from_str("copy(account)");
        }
        publisher.append(") acquires ");
        publisher.append(dict_names);
        publisher.append(" { \n let t: Self.T; \nt = Self.new(");
        publisher.append(arguments.as_str());
    } else {
        initialiser.append(without_signer.as_str());
        initialiser.append("): Self.T { \n");
        initialiser.append(body);
        initialiser.append("\n } \n");
        publisher.append(") { \n let t: Self.T; \nt = Self.new(");
        publisher.append(values.as_str());
    }
    publisher.append(");\n move_to<T>(move(account), move(t)); \nreturn; \n }");
    (initialiser, publisher)
}


/// The text of a module, from the texts of its parts.
pub open spec fn module_text(
    name: Seq<char>,
    imports: Seq<char>,
    members: Seq<char>,
    dict_resources: Seq<char>,
    assets: Seq<char>,
    structs: Seq<char>,
    init: Seq<char>,
    publish: Seq<char>,
    asset_functions: Seq<char>,
    struct_functions: Seq<char>,
    functions: Seq<char>,
    runtime: Seq<char>,
    dict_runtime: Seq<char>,
) -> Seq<char> {
    module_head(name, imports, members, dict_resources, assets, structs) + module_tail(
        init,
        publish,
        asset_functions,
        struct_functions,
        functions,
        runtime,
        dict_runtime,
    )
}

/// How a module begins: its name, imports, resource `T`, dictionary
/// resources, assets and structs.
pub open spec fn module_head(
    name: Seq<char>,
    imports: Seq<char>,
    members: Seq<char>,
    dict_resources: Seq<char>,
    assets: Seq<char>,
    structs: Seq<char>,
) -> Seq<char> {
    "module "@ + name + " { \n  "@ + imports + " \n resource T { \n "@ + members + " \n } "@ + dict_resources + " \n "@
        + assets + "  \n "@ + structs
}

/// How a module ends: its initialiser, publisher and functions.
pub open spec fn module_tail(
    init: Seq<char>,
    publish: Seq<char>,
    asset_functions: Seq<char>,
    struct_functions: Seq<char>,
    functions: Seq<char>,
    runtime: Seq<char>,
    dict_runtime: Seq<char>,
) -> Seq<char> {
    " \n "@ + init + " \n "@ + publish + "\n "@ + asset_functions + " \n \n "@ + struct_functions + " \n "@
        + functions + " \n "@ + runtime + " \n "@ + dict_runtime + " }"@
}

/// A contract to be emitted as a MoveIR module, with what the environment and
/// the other generators give of it: its name, its fields rendered as
/// declarations (the dictionaries left out), its dictionaries (the name of
/// each one's resource and the MoveIR type of its value), the rendered
/// assets, structs and functions, its external traits (a name and the module
/// address that its attributes give, if any), the public initialiser's
/// parameters (each a name and its MoveIR type), the texts of the values
/// that `publish` hands to `new`, the initialiser's rendered body and the
/// type of the publishing account.
pub struct MoveContract {
    pub name: String,
    pub members: Vec<String>,
    pub dictionaries: Vec<(String, String)>,
    pub assets: Vec<String>,
    pub asset_functions: Vec<String>,
    pub structs: Vec<String>,
    pub struct_functions: Vec<String>,
    pub functions: Vec<String>,
    pub external_traits: Vec<(String, Option<String>)>,
    pub parameters: Vec<(String, String)>,
    pub parameter_values: Vec<String>,
    pub body: String,
    pub signer_type: String,
}

/// The MoveIR module of a contract.
pub open spec fn move_contract_text(c: MoveContract) -> Seq<char> {
    let dicts = join(dict_names(c.dictionaries@), ", "@);
    module_text(
        c.name@,
        imports_text(c.external_traits@),
        join(texts(c.members@), ",\n"@),
        join(dict_resources(c.dictionaries@), "\n\n"@),
        join(texts(c.assets@), "\n"@),
        join(texts(c.structs@), "\n\n"@),
        initialiser_text(c.parameters@, c.signer_type@, dicts, c.body@),
        publisher_text(c.parameters@, c.signer_type@, dicts, join(texts(c.parameter_values@), ", "@)),
        join(texts(c.asset_functions@), "\n\n"@),
        join(texts(c.struct_functions@), "\n\n"@),
        join(texts(c.functions@), "\n\n"@),
        join(all_functions_text(), "\n\n"@),
        join(dict_runtimes(c.dictionaries@), "\n\n"@),
    )
}

impl MoveContract {
    /// The MoveIR module of the contract: its imports, its resource `T`,
    /// its dictionary resources, assets and structs, the initialiser `new`
    /// and the publisher `publish`, then the assets', structs' and
    /// contract's functions, the runtime's helper functions and the
    /// dictionaries' accessors.
    pub fn generate(&self) -> (res: String)
        ensures
            res@ == move_contract_text(*self),
    {
        let imports = generate_imports(&self.external_traits);
        let runtime = MoveRuntimeFunction::get_all_functions();
        assert(texts(runtime@) =~= all_functions_text());
        let runtime = join_strings(&runtime, "\n\n");
        let functions = join_strings(&self.functions, "\n\n");
        let members = join_strings(&self.members, ",\n");
        let (dict_names, dict_resources, dict_runtime) = get_dict_code(&self.dictionaries);
        let mut structs: Vec<String> = Vec::new();
        let mut i: usize = 0;
        while i < self.structs.len()
            invariant
                i <= self.structs@.len(),
                structs@ == self.structs@.take(i as int),
            decreases self.structs@.len() - i,
        {
            structs.push(self.structs[i].clone());
            assert(structs@ =~= self.structs@.take(i as int + 1));
            i = i + 1;
        }
        let mut runtime_structs = get_all_declarations();
        structs.append(&mut runtime_structs);
        assert(structs@ =~= self.structs@);
        let structs = join_strings(&structs, "\n\n");
        let struct_functions = join_strings(&self.struct_functions, "\n\n");
        let assets = join_strings(&self.assets, "\n");
        let asset_functions = join_strings(&self.asset_functions, "\n\n");
        let (initialiser, publisher) = initialiser_and_publisher(
            &self.parameters,
            &self.parameter_values,
            self.signer_type.as_str(),
            dict_names.as_str(),
            self.body.as_str(),
        );
        let mut head = String::from_str("module ");
        head.append(self.name.as_str());
        head.append(" { \n  ");
        head.append(imports.as_str());
        head.append(" \n resource T { \n ");
        head.append(members.as_str());
        head.append(" \n } ");
        head.append(dict_resources.as_str());
        head.append(" \n ");
        head.append(assets.as_str());
        head.append("  \n ");
        head.append(structs.as_str());
        let mut tail = String::from_str(" \n ");
        tail.append(initialiser.as_str());
        tail.append(" \n ");
        tail.append(publisher.as_str());
        tail.append("\n ");
        tail.append(asset_functions.as_str());
        tail.append(" \n \n ");
        tail.append(struct_functions.as_str());
        tail.append(" \n ");
        tail.append(functions.as_str());
        tail.append(" \n ");
        tail.append(runtime.as_str());
        tail.append(" \n ");
        tail.append(dict_runtime.as_str());
        tail.append(" }");
        head.append(tail.as_str());
        head
    }
}

} // verus!
