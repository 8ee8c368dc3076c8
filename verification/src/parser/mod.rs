pub mod operators;
pub mod utils;
pub mod identifiers;
pub mod type_states;
pub mod literals;
pub mod types;
pub mod modifiers;
pub mod declarations;
