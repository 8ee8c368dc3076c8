pub mod yul;
pub mod runtime_function;
pub mod function;
pub mod literal;
pub mod ir_type;
pub mod preprocessor;
pub mod expression;
pub mod function_selector;
pub mod interface;
pub mod statement;
pub mod external_call;
pub mod contract;
