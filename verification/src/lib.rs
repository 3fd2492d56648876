//! A library that generates x86-64 machine code from a small, target
//! independent instruction representation, together with the symbol and
//! relocation records an object writer needs.

#![allow(non_snake_case)]

pub mod abi;
pub mod arch;
pub mod emit;
pub mod error;
pub mod ir;
pub mod operand;
pub mod opt;
pub mod x86;

pub use emit::ASMCall;
pub use emit::REGISTER;
pub use emit::to_bytes_16;
pub use emit::to_bytes_32;
pub use emit::to_bytes_64;
pub use error::CodeGenLibError;
pub use ir::AsmInstructionEnum;
pub use ir::IrBuilder;
pub use ir::IrFunctionBuilder;
pub use ir::Type;
pub use ir::resolve::resolve;
pub use operand::MemoryOperand;
pub use operand::Register;
pub use opt::Optimize;
pub use x86::builder::Builder;
pub use x86::function::Function;
pub use x86::mem::AdressManager;
