//! The optimization hook a code holder can implement.

use vstd::prelude::*;

use crate::x86::function::Function;

verus! {

/// Implement this so the builder can optimize the implementing value in
/// place.
pub trait Optimize {
    /// Optimizes the value in place.
    fn optimize(&mut self);
}

impl<'a> Optimize for Function<'a> {
    fn optimize(&mut self) {
    }
}

} // verus!
