//! Typed expression tree of a circuit language, and its lowering from the
//! parser's syntax tree.
use vstd::prelude::*;

pub mod ir;
pub mod render;
pub mod syntax;
pub mod lower;
pub mod laws;

verus! {

} // verus!
