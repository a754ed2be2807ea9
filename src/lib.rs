//! The `if` / `else` construct of a text-template engine: argument parsing,
//! branch splitting, comparison of operands and render dispatch.

pub mod text;
pub mod number;
pub mod lexer;
pub mod value;
pub mod context;
pub mod template;
pub mod if_block;
pub mod laws;
