//! What every level of the model offers: the code that it stands for.
use vstd::prelude::*;
use crate::codegen::skip::WrapperResult;

verus! {

/// A part of the model that can be turned into code, given the part that
/// holds it. The code is a token text; each implementation states which.
pub trait Rusty {
    type Parent;

    /// The code that `self` stands for within `parent`, or the reason why
    /// there is none.
    fn code(&self, parent: &Self::Parent) -> WrapperResult<String>;
}

} // verus!
