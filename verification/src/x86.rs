//! The lower level x86 facilities: the module builder, the direct function
//! writer, memory bookkeeping, variables and static values.

pub mod builder;
pub mod function;
pub mod mem;
pub mod ops;
pub mod staticv;
pub mod var;
