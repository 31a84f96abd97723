//! Types of the messages between the interface and the engine.
use vstd::prelude::*;

verus! {

/// The type of a plugin parameter, as passed between threads.
#[derive(Debug, Clone)]
pub enum ParamTypeTag {
    Float,
    Bool,
    Int,
    Enum(Vec<String>),
}

} // verus!
