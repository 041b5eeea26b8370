//! The functions that can be invoked.

use vstd::prelude::*;

verus! {

/// What one function runs.
#[derive(Debug, Clone, PartialEq, Eq)]
pub struct FunctionData {
    pub image: String,
}

impl View for FunctionData {
    type V = Seq<char>;

    open spec fn view(&self) -> Seq<char> {
        self.image@
    }
}

} // verus!
