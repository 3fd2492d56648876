//! Instruction set extensions an architecture can offer.

use vstd::prelude::*;

use crate::arch::def::Arch;

verus! {

/// One instruction set extension.
#[derive(Clone, Copy, Debug, PartialEq, Eq, Structural)]
pub enum Extension {
    I8086,
    I80186,
    I80286,
    I80386,
    I80486,
    P5,
    X64,
    SSE,
    SSE2,
    CLFSH,
    MONITOR,
}

/// The extensions that the architecture `arch` offers, in the order they were
/// introduced.
pub open spec fn spec_all_extensions(arch: Arch) -> Seq<Extension> {
    match arch {
        Arch::AMD64(_) => seq![
            Extension::I8086,
            Extension::I80186,
            Extension::I80286,
            Extension::I80386,
            Extension::I80486,
            Extension::P5,
            Extension::X64,
            Extension::SSE,
            Extension::SSE2,
            Extension::CLFSH,
            Extension::MONITOR,
        ],
    }
}

/// Returns all extensions for the architecture `arch`.
pub fn all(arch: Arch) -> (r: Vec<Extension>)
    ensures
        r@ =~= spec_all_extensions(arch),
{
    match arch {
        Arch::AMD64(_) => vec![
            Extension::I8086,
            Extension::I80186,
            Extension::I80286,
            Extension::I80386,
            Extension::I80486,
            Extension::P5,
            Extension::X64,
            Extension::SSE,
            Extension::SSE2,
            Extension::CLFSH,
            Extension::MONITOR,
        ],
    }
}

} // verus!
