//! Byte encodings introduced with the 32-bit processor generation.

use vstd::prelude::*;

use crate::arch::AsmCall;
use crate::emit::{REGISTER, to_bytes_32, spec_le_32};

verus! {

pub open spec fn spec_mov_32(register: REGISTER, value: u32) -> Seq<u8> {
    match register {
        REGISTER::EAX => seq![0xb8u8] + spec_le_32(value),
        REGISTER::EBX => seq![0xbbu8] + spec_le_32(value),
        REGISTER::ECX => seq![0xb9u8] + spec_le_32(value),
        REGISTER::EDX => seq![0xbau8] + spec_le_32(value),
        _ => seq![0x00u8],
    }
}

pub open spec fn spec_adc_32(register: REGISTER, value: u32) -> Seq<u8> {
    match register {
        REGISTER::EAX => seq![0x15u8] + spec_le_32(value),
        REGISTER::EBX => seq![0x81u8, 0xD3] + spec_le_32(value),
        REGISTER::ECX => seq![0x81u8, 0xD1] + spec_le_32(value),
        REGISTER::EDX => seq![0x81u8, 0xD2] + spec_le_32(value),
        _ => seq![0x00u8],
    }
}

/// Operations of the 32-bit processor generation.
pub trait I80386 {
    /// Moves the value into the 32-bit register.
    fn mov_32(register: REGISTER, value: u32) -> (r: Vec<u8>)
        ensures
            r@ =~= spec_mov_32(register, value);

    /// Adds the value with carry into the 32-bit register.
    fn adc_32(register: REGISTER, value: u32) -> (r: Vec<u8>)
        ensures
            r@ =~= spec_adc_32(register, value);
}

impl I80386 for AsmCall {
    fn mov_32(register: REGISTER, value: u32) -> (r: Vec<u8>) {
        match register {
            REGISTER::EAX => {
                let (x1, x2, x3, x4) = to_bytes_32(value);
                vec![0xb8, x1, x2, x3, x4]
            },
            REGISTER::EBX => {
                let (x1, x2, x3, x4) = to_bytes_32(value);
                vec![0xbb, x1, x2, x3, x4]
            },
            REGISTER::ECX => {
                let (x1, x2, x3, x4) = to_bytes_32(value);
                vec![0xb9, x1, x2, x3, x4]
            },
            REGISTER::EDX => {
                let (x1, x2, x3, x4) = to_bytes_32(value);
                vec![0xba, x1, x2, x3, x4]
            },
            _ => vec![0x00],
        }
    }

    fn adc_32(register: REGISTER, value: u32) -> (r: Vec<u8>) {
        match register {
            REGISTER::EAX => {
                let (x1, x2, x3, x4) = to_bytes_32(value);
                vec![0x15, x1, x2, x3, x4]
            },
            REGISTER::EBX => {
                let (x1, x2, x3, x4) = to_bytes_32(value);
                vec![0x81, 0xD3, x1, x2, x3, x4]
            },
            REGISTER::ECX => {
                let (x1, x2, x3, x4) = to_bytes_32(value);
                vec![0x81, 0xD1, x1, x2, x3, x4]
            },
            REGISTER::EDX => {
                let (x1, x2, x3, x4) = to_bytes_32(value);
                vec![0x81, 0xD2, x1, x2, x3, x4]
            },
            _ => vec![0x00],
        }
    }
}

} // verus!
