use vstd::prelude::*;

pub mod ast;
pub mod codegen;
pub mod genspec;
pub mod ir;
pub mod laws;
pub mod meaning;
pub mod state;
pub mod text;

verus! {
} // verus!
