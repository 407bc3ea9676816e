//! Syntax core of a quantitative, dependently typed lambda calculus: the
//! abstract syntax of pure terms, kinds, types and annotated terms, a printer
//! for pure terms, recursive-descent parsers for pure terms and kinds that
//! resolve variables to de Bruijn indices, and a generator of well-scoped
//! random pure terms.
pub mod uses;
pub mod name;
pub mod position;
pub mod pure;
pub mod print;
pub mod kind;
pub mod typ_;
pub mod term;
pub mod parse;
pub mod gen;
pub mod roundtrip;
pub mod scoping;
