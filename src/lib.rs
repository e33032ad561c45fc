//! Terms of two small object languages, written once and interpreted by
//! several backends: evaluation, pretty-printing, C code generation and a
//! size measure.

pub mod codegen;
pub mod expr;
pub mod ident;
pub mod lambda;
pub mod tagged;
pub mod text;
