//! A declarative-descriptor compiler: it parses a module description given
//! as a fixed key/value token grammar, validates it against the semantic
//! invariants of the registration protocol, derives the registration names,
//! and lowers the validated descriptor into the ordered sequence of
//! registration operations that the protocol expects.
pub mod descriptor;
pub mod diag;
pub mod emit;
pub mod lower;
pub mod names;
pub mod ops;
pub mod parser;
pub mod pipeline;
pub mod raw;
pub mod validator;
pub mod toks;
