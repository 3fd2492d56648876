//! The supported target architectures.

use vstd::prelude::*;

use crate::arch::ext::Extension;

verus! {

/// A supported architecture, together with the extensions selected for it.
///
/// `AMD64` is 64-bit x86.
pub enum Arch {
    AMD64(Vec<Extension>),
}

} // verus!
