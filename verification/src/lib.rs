//! Code generation for the Flint smart-contract language: the abstract syntax
//! tree, the MoveIR and Yul intermediate representations with their textual
//! rendering, the runtime support functions of both targets and the rewriting
//! passes that operate on them.

pub mod ast;
pub mod equality;
pub mod text;
pub mod seqs;
pub mod moveir;
pub mod solidity;
pub mod parser;
pub mod semantic_analysis;
