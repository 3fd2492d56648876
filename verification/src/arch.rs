//! Per-architecture opcode tables, grouped by the processor generation that
//! introduced each operation.

use vstd::prelude::*;

pub mod def;
pub mod ext;
#[allow(non_snake_case)]
pub mod I8086;
#[allow(non_snake_case)]
pub mod I80386;
pub mod shared;
pub mod x64;

verus! {

/// The carrier of the hand written opcode tables: every table is a static
/// method on this type, grouped into one trait per processor generation.
pub struct AsmCall;

} // verus!
