//! The Solidity interface of a contract: the declarations of its public
//! functions, through which other contracts call it.

use vstd::prelude::*;
use crate::ast::{mangle, mangled, FunctionDeclaration, Identifier, Parameter};
use crate::text::{join, lemma_join_push};
use super::function::params_map_to_solidity;
use super::ir_type::{maps_to_solidity, solidity_type, solidity_type_name, SolidityIRType};

verus! {

/// Whether a function is declared `public`.
pub open spec fn is_public_function(f: FunctionDeclaration) -> bool {
    exists|i: int| 0 <= i < f.head.modifiers@.len() && #[trigger] f.head.modifiers@[i] is Public
}

/// Whether the interface can declare the function: a public function's
/// parameters and result must have Solidity types.
pub open spec fn renderable_function(f: FunctionDeclaration) -> bool {
    is_public_function(f) ==> {
        &&& params_map_to_solidity(f.head.parameters@)
        &&& (f.head.result_type matches Some(t) ==> maps_to_solidity(t))
    }
}

/// A parameter in an interface: its Solidity type and its mangled name.
pub open spec fn interface_parameter_text(p: Parameter) -> Seq<char> {
    solidity_type_name(solidity_type(p.type_assignment)) + " "@ + mangled(p.identifier.token@)
}

/// The parameters of a function in an interface.
pub open spec fn interface_parameters(params: Seq<Parameter>) -> Seq<Seq<char>> {
    params.map_values(|p: Parameter| interface_parameter_text(p))
}

/// The declaration of a public function in an interface: `view` unless it
/// mutates, `external`, with the Solidity type of its result.
pub open spec fn function_interface_text(f: FunctionDeclaration) -> Seq<char> {
    let attribute = if f.head.mutates@.len() > 0 {
        ""@
    } else {
        "view "@
    };
    let return_string = match f.head.result_type {
        Some(t) => " returns ( "@ + solidity_type_name(solidity_type(t)) + " ret)"@,
        None => ""@,
    };
    "function "@ + f.head.identifier.token@ + "("@ + join(interface_parameters(f.head.parameters@), ", "@)
        + ") "@ + attribute + "external"@ + return_string + ";"@
}

/// The declaration of a function in an interface, where it is public.
pub open spec fn render_function_text(f: FunctionDeclaration) -> Option<Seq<char>> {
    if is_public_function(f) {
        Some(function_interface_text(f))
    } else {
        None
    }
}

/// The text of an optional string.
pub open spec fn view_option(o: Option<String>) -> Option<Seq<char>> {
    match o {
        Some(s) => Some(s@),
        None => None,
    }
}

/// The interface of a contract, given its name and the functions of its
/// behaviour blocks in order.
pub struct SolidityInterface {
    pub contract_identifier: Identifier,
    pub functions: Vec<FunctionDeclaration>,
}

/// The declarations of the public functions among `functions`, in order.
pub open spec fn rendered_functions(functions: Seq<FunctionDeclaration>) -> Seq<Seq<char>>
    decreases functions.len(),
{
    if functions.len() == 0 {
        Seq::empty()
    } else {
        let rest = rendered_functions(functions.drop_last());
        if is_public_function(functions.last()) {
            rest.push(function_interface_text(functions.last()))
        } else {
            rest
        }
    }
}

/// The interface named after the contract, one declaration per line.
pub open spec fn interface_text(name: Seq<char>, functions: Seq<FunctionDeclaration>) -> Seq<char> {
    "interface _Interface"@ + name + " {  \n "@ + join(rendered_functions(functions), "\n"@) + " \n }"@
}

/// Appends the parameters of a function in an interface to `out`.
fn write_interface_parameters(params: &Vec<Parameter>, out: &mut String)
    requires
        params_map_to_solidity(params@),
    ensures
        final(out)@ == old(out)@ + join(interface_parameters(params@), ", "@),
{
    let ghost start = out@;
    let ghost parts = interface_parameters(params@);
    let mut i: usize = 0;
    while i < params.len()
        invariant
            i <= params@.len(),
            params_map_to_solidity(params@),
            parts == interface_parameters(params@),
            out@ == start + join(parts.subrange(0, i as int), ", "@),
        decreases params@.len() - i,
    {
        proof {
            assert(parts.subrange(0, i as int + 1) =~= parts.subrange(0, i as int).push(parts[i as int]));
            lemma_join_push(parts.subrange(0, i as int), ", "@, parts[i as int]);
        }
        if i > 0 {
            out.append(", ");
        }
        let t = SolidityIRType::map_to_solidity_type(params[i].type_assignment.deep_clone());
        out.append(t.generate().as_str());
        out.append(" ");
        out.append(mangle(params[i].identifier.token.as_str()).as_str());
        i = i + 1;
    }
    proof {
        assert(parts.subrange(0, params@.len() as int) =~= parts);
    }
}

impl SolidityInterface {
    /// The declaration of a function in the interface, or `None` where the
    /// function is not public.
    pub fn render_function(function_declaration: FunctionDeclaration) -> (res: Option<String>)
        requires
            renderable_function(function_declaration),
        ensures
            view_option(res) == render_function_text(function_declaration),
    {
        Self::render(&function_declaration)
    }

    /// `render_function` on a borrowed declaration.
    fn render(function_declaration: &FunctionDeclaration) -> (res: Option<String>)
        requires
            renderable_function(*function_declaration),
        ensures
            view_option(res) == render_function_text(*function_declaration),
    {
        proof {
            reveal_strlit("");
        }
        if !function_declaration.is_public() {
            return None;
        }
        let mut res = String::from_str("function ");
        res.append(function_declaration.head.identifier.token.as_str());
        res.append("(");
        write_interface_parameters(&function_declaration.head.parameters, &mut res);
        res.append(") ");
        if !function_declaration.is_mutating() {
            res.append("view ");
        }
        res.append("external");
        match function_declaration.get_result_type() {
            Some(result) => {
                res.append(" returns ( ");
                res.append(SolidityIRType::map_to_solidity_type(result).generate().as_str());
                res.append(" ret)");
            },
            None => {},
        }
        res.append(";");
        assert(res@ =~= function_interface_text(*function_declaration));
        Some(res)
    }

    /// The interface of the contract.
    pub fn generate(&self) -> (res: String)
        requires
            forall|i: int| 0 <= i < self.functions@.len() ==> renderable_function(#[trigger] self.functions@[i]),
        ensures
            res@ == interface_text(self.contract_identifier.token@, self.functions@),
    {
        let ghost start_parts = rendered_functions(self.functions@);
        let mut body = String::new();
        let mut any = false;
        let mut i: usize = 0;
        proof {
            reveal_strlit("");
            assert(self.functions@.subrange(0, 0) =~= Seq::<FunctionDeclaration>::empty());
        }
        while i < self.functions.len()
            invariant
                i <= self.functions@.len(),
                forall|j: int| 0 <= j < self.functions@.len() ==> renderable_function(#[trigger] self.functions@[j]),
                any == (rendered_functions(self.functions@.subrange(0, i as int)).len() > 0),
                body@ == join(rendered_functions(self.functions@.subrange(0, i as int)), "\n"@),
            decreases self.functions@.len() - i,
        {
            let ghost prev = rendered_functions(self.functions@.subrange(0, i as int));
            proof {
                assert(self.functions@.subrange(0, i as int + 1).drop_last() =~= self.functions@.subrange(0, i as int));
            }
            match Self::render(&self.functions[i]) {
                Some(s) => {
                    proof {
                        lemma_join_push(prev, "\n"@, s@);
                    }
                    if any {
                        body.append("\n");
                    }
                    body.append(s.as_str());
                    any = true;
                },
                None => {},
            }
            i = i + 1;
        }
        proof {
            assert(self.functions@.subrange(0, self.functions@.len() as int) =~= self.functions@);
        }
        let mut res = String::from_str("interface _Interface");
        res.append(self.contract_identifier.token.as_str());
        res.append(" {  \n ");
        res.append(body.as_str());
        res.append(" \n }");
        res
    }
}

} // verus!
