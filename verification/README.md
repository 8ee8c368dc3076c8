# flint_codegen

Code generation for Flint, a language for smart contracts, with its
behaviour stated in contracts and proved with Verus.

- `src/ast.rs`: the syntax tree of Flint programs.
- `src/equality.rs`: equality of syntax trees with positions left out.
- `src/parser/`: the lexical layer of the parser (whitespace and comments,
  identifiers, literals, operators, modifiers, type states and types) and
  the parts of declarations (bindings, conformances, attributes, result
  types, `mutates` clauses, variable declarations), each parser a function
  on characters whose result is stated exactly.
- `src/moveir/`: the MoveIR back end: the intermediate representation and
  its text, the runtime functions, lowering of casts, operators and
  statements, the state of code generation inside a function, the text of
  functions and of struct initialisers, the wrappers through which contract
  functions are called, and the rewriting of releases, borrowed references
  and caller protections, the structural comparison of expressions, the
  preprocessing steps that rewrite expressions, complete function
  declarations, prepare initialisers and split caller protections, and the
  text of whole modules: imports, dictionary resources and accessors, the constructor's
  value, the initialiser and the publisher.
- `src/solidity/`: the Yul back end: the intermediate representation and its
  text, the runtime functions, lowering of expressions and statements, the
  function dispatcher with its Keccak-256 selectors, calls to other
  contracts, contract interfaces, the text of whole contracts with their
  constructors, and the naming of functions and default assignments of the
  preprocessing pass.
- `src/semantic_analysis.rs`: checks made on single declarations and
  assignments.
- `app/`: writing generated programs to disk, and literals with a
  fractional part.

What the declarations of a program say (the types of expressions, the
functions a call matches, the offsets of properties) is computed outside
this library: the generators take those answers, and the code already
generated for subexpressions and statements, as arguments; so does the
generation of whole contracts and modules. The library does not hold the
traversal of whole programs by the preprocessing and semantic-analysis
passes (with the fresh names, contexts and
declarations they keep), the lowering of calls and property accesses that
reads those answers, or the parsing of expressions, statements and whole
programs.

The laws of the library (what a sequence of operations keeps, undoes or
leaves unchanged) are public proof functions whose names start with `law_`.
