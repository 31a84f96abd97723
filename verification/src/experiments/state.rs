//! Types of the experimental application state.
use vstd::prelude::*;

verus! {

/// A value wrapped so that it can be ordered totally.
#[derive(Debug, Clone, Copy)]
pub struct OrderedFloat<T>(pub T);

} // verus!
