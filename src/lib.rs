//! Front end of a small scripting language: a recursive-descent parser with
//! precedence climbing, a structural checker, and module assembly with a
//! content fingerprint over the token stream.

pub mod token;
pub mod ast;
pub mod parser;
pub mod semck;
pub mod module;
