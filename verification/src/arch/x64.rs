//! Byte encodings introduced with the 64-bit processor generation.

use vstd::prelude::*;

use crate::arch::AsmCall;
use crate::emit::{REGISTER, to_bytes_32, to_bytes_64, spec_le_32, spec_le_64};

verus! {

pub open spec fn spec_mov_64(register: REGISTER, value: u64) -> Seq<u8> {
    match register {
        REGISTER::RAX => seq![0x48u8, 0xa3] + spec_le_64(value),
        REGISTER::RBX => seq![0x48u8, 0xbb] + spec_le_64(value),
        REGISTER::RCX => seq![0x48u8, 0xb9] + spec_le_64(value),
        REGISTER::RDX => seq![0x48u8, 0xba] + spec_le_64(value),
        _ => seq![0x00u8],
    }
}

/// The low half of a wide add-with-carry immediate: the part of the value that
/// remains once the carried 32-bit all-ones bias is taken off.
pub open spec fn spec_adc_64_low(value: u64) -> u32
    recommends
        value > 0xffffffff,
{
    (((value - 0xffffffff) as u64) % 0x1_0000_0000) as u32
}

pub open spec fn spec_adc_64(register: REGISTER, value: u64) -> Seq<u8> {
    if value > 0xffffffff {
        match register {
            REGISTER::RAX => seq![0x48u8, 0x11, 0x14, 0x25] + spec_le_32(spec_adc_64_low(value)),
            REGISTER::RBX => seq![0x48u8, 0x11, 0x1C, 0x25] + spec_le_32(spec_adc_64_low(value)),
            REGISTER::RCX => seq![0x48u8, 0x11, 0x0C, 0x25] + spec_le_32(spec_adc_64_low(value)),
            REGISTER::RDX => seq![0x48u8, 0x11, 0x14, 0x25] + spec_le_32(spec_adc_64_low(value)),
            REGISTER::RSI => seq![0x48u8, 0x81, 0xD6] + spec_le_32(spec_adc_64_low(value)),
            REGISTER::RDI => seq![0x48u8, 0x11, 0x34, 0x25] + spec_le_32(spec_adc_64_low(value)),
            REGISTER::RBP => seq![0x48u8, 0x11, 0x2C, 0x25] + spec_le_32(spec_adc_64_low(value)),
            REGISTER::RSP => seq![0x48u8, 0x11, 0x24, 0x25] + spec_le_32(spec_adc_64_low(value)),
            _ => seq![0x00u8],
        }
    } else {
        match register {
            REGISTER::RAX => seq![0x48u8, 0x11, 0x05] + spec_le_32(value as u32),
            REGISTER::RBX => seq![0x48u8, 0x11, 0x1D] + spec_le_32(value as u32),
            REGISTER::RCX => seq![0x48u8, 0x11, 0x0D] + spec_le_32(value as u32),
            REGISTER::RDX => seq![0x48u8, 0x11, 0x15] + spec_le_32(value as u32),
            REGISTER::RSI => seq![0x48u8, 0x11, 0x35] + spec_le_32(value as u32),
            REGISTER::RDI => seq![0x48u8, 0x11, 0x3D] + spec_le_32(value as u32),
            REGISTER::RBP => seq![0x48u8, 0x11, 0x2D] + spec_le_32(value as u32),
            REGISTER::RSP => seq![0x48u8, 0x11, 0x25] + spec_le_32(value as u32),
            _ => seq![0x00u8],
        }
    }
}

/// Operations of the 64-bit processor generation.
pub trait X64 {
    /// Moves the value into the 64-bit register.
    fn mov_64(register: REGISTER, value: u64) -> (r: Vec<u8>)
        ensures
            r@ =~= spec_mov_64(register, value);

    /// Adds the value with carry into the 64-bit register.  An immediate wider
    /// than 32 bits is split: the instruction embeds only the low part left
    /// over after the biased 32-bit form, since the encoding has no room for a
    /// full 64-bit immediate.
    fn adc_64(register: REGISTER, value: u64) -> (r: Vec<u8>)
        ensures
            r@ =~= spec_adc_64(register, value);
}

/// Splitting a wide add-with-carry immediate loses nothing: as long as the
/// value also fits the biased form, the embedded low part and the 32-bit
/// all-ones bias reassemble to exactly the original value.
pub proof fn lemma_adc_64_split_reassembles(value: u64)
    requires
        0xffffffff < value,
        value <= 0xffffffff + 0xffffffff,
    ensures
        spec_adc_64_low(value) + 0xffffffff == value,
{
}

impl X64 for AsmCall {
    fn mov_64(register: REGISTER, value: u64) -> (r: Vec<u8>) {
        match register {
            REGISTER::RAX => {
                let (x1, x2, x3, x4, x5, x6, x7, x8) = to_bytes_64(value);
                vec![0x48, 0xa3, x1, x2, x3, x4, x5, x6, x7, x8]
            },
            REGISTER::RBX => {
                let (x1, x2, x3, x4, x5, x6, x7, x8) = to_bytes_64(value);
                vec![0x48, 0xbb, x1, x2, x3, x4, x5, x6, x7, x8]
            },
            REGISTER::RCX => {
                let (x1, x2, x3, x4, x5, x6, x7, x8) = to_bytes_64(value);
                vec![0x48, 0xb9, x1, x2, x3, x4, x5, x6, x7, x8]
            },
            REGISTER::RDX => {
                let (x1, x2, x3, x4, x5, x6, x7, x8) = to_bytes_64(value);
                vec![0x48, 0xba, x1, x2, x3, x4, x5, x6, x7, x8]
            },
            _ => vec![0x00],
        }
    }

    fn adc_64(register: REGISTER, value: u64) -> (r: Vec<u8>) {
        if value > 0xffffffff {
            let low = ((value - 0xffffffff) % 0x1_0000_0000) as u32;
            match register {
                REGISTER::RAX => {
                    let (x1, x2, x3, x4) = to_bytes_32(low);
                    vec![0x48, 0x11, 0x14, 0x25, x1, x2, x3, x4]
                },
                REGISTER::RBX => {
                    let (x1, x2, x3, x4) = to_bytes_32(low);
                    vec![0x48, 0x11, 0x1C, 0x25, x1, x2, x3, x4]
                },
                REGISTER::RCX => {
                    let (x1, x2, x3, x4) = to_bytes_32(low);
                    vec![0x48, 0x11, 0x0C, 0x25, x1, x2, x3, x4]
                },
                REGISTER::RDX => {
                    let (x1, x2, x3, x4) = to_bytes_32(low);
                    vec![0x48, 0x11, 0x14, 0x25, x1, x2, x3, x4]
                },
                REGISTER::RSI => {
                    let (x1, x2, x3, x4) = to_bytes_32(low);
                    vec![0x48, 0x81, 0xD6, x1, x2, x3, x4]
                },
                REGISTER::RDI => {
                    let (x1, x2, x3, x4) = to_bytes_32(low);
                    vec![0x48, 0x11, 0x34, 0x25, x1, x2, x3, x4]
                },
                REGISTER::RBP => {
                    let (x1, x2, x3, x4) = to_bytes_32(low);
                    vec![0x48, 0x11, 0x2C, 0x25, x1, x2, x3, x4]
                },
                REGISTER::RSP => {
                    let (x1, x2, x3, x4) = to_bytes_32(low);
                    vec![0x48, 0x11, 0x24, 0x25, x1, x2, x3, x4]
                },
                _ => vec![0x00],
            }
        } else {
            match register {
                REGISTER::RAX => {
                    let (x1, x2, x3, x4) = to_bytes_32(value as u32);
                    vec![0x48, 0x11, 0x05, x1, x2, x3, x4]
                },
                REGISTER::RBX => {
                    let (x1, x2, x3, x4) = to_bytes_32(value as u32);
                    vec![0x48, 0x11, 0x1D, x1, x2, x3, x4]
                },
                REGISTER::RCX => {
                    let (x1, x2, x3, x4) = to_bytes_32(value as u32);
                    vec![0x48, 0x11, 0x0D, x1, x2, x3, x4]
                },
                REGISTER::RDX => {
                    let (x1, x2, x3, x4) = to_bytes_32(value as u32);
                    vec![0x48, 0x11, 0x15, x1, x2, x3, x4]
                },
                REGISTER::RSI => {
                    let (x1, x2, x3, x4) = to_bytes_32(value as u32);
                    vec![0x48, 0x11, 0x35, x1, x2, x3, x4]
                },
                REGISTER::RDI => {
                    let (x1, x2, x3, x4) = to_bytes_32(value as u32);
                    vec![0x48, 0x11, 0x3D, x1, x2, x3, x4]
                },
                REGISTER::RBP => {
                    let (x1, x2, x3, x4) = to_bytes_32(value as u32);
                    vec![0x48, 0x11, 0x2D, x1, x2, x3, x4]
                },
                REGISTER::RSP => {
                    let (x1, x2, x3, x4) = to_bytes_32(value as u32);
                    vec![0x48, 0x11, 0x25, x1, x2, x3, x4]
                },
                _ => vec![0x00],
            }
        }
    }
}

} // verus!
