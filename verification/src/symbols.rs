//! The symbol table: how it is built from a package and how it is queried.

pub mod hover;
pub mod lookup;
pub mod visitor;
