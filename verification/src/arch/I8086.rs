//! Byte encodings introduced with the first 16-bit processor generation.

use vstd::prelude::*;

use crate::arch::AsmCall;
use crate::emit::{REGISTER, to_bytes_16, spec_le_16};

verus! {

pub open spec fn spec_adc_8(register: REGISTER, value: u8) -> Seq<u8> {
    match register {
        REGISTER::AH => seq![0x80u8, 0xD4, value],
        REGISTER::AL => seq![0x14u8, 0xFF, value],
        REGISTER::BH => seq![0x80u8, 0xD7, value],
        REGISTER::BL => seq![0x80u8, 0xD3, value],
        REGISTER::CH => seq![0x80u8, 0xD5, value],
        REGISTER::CL => seq![0x80u8, 0xD1, value],
        REGISTER::DH => seq![0x80u8, 0xD6, value],
        REGISTER::DL => seq![0x80u8, 0xD2, value],
        _ => seq![0u8],
    }
}

pub open spec fn spec_adc_16(register: REGISTER, value: u16) -> Seq<u8> {
    match register {
        REGISTER::AX => seq![0x66u8, 0x15] + spec_le_16(value),
        REGISTER::BX => seq![0x66u8, 0x81, 0xD3] + spec_le_16(value),
        REGISTER::CX => seq![0x66u8, 0x81, 0xD1] + spec_le_16(value),
        REGISTER::DX => seq![0x66u8, 0x81, 0xD2] + spec_le_16(value),
        _ => seq![0u8],
    }
}

pub open spec fn spec_mov_8(register: REGISTER, value: u8) -> Seq<u8> {
    match register {
        REGISTER::AH => seq![0xb4u8, value],
        REGISTER::AL => seq![0xb0u8, value],
        REGISTER::BH => seq![0xb7u8, value],
        REGISTER::BL => seq![0xb3u8, value],
        REGISTER::CH => seq![0xb5u8, value],
        REGISTER::CL => seq![0xb1u8, value],
        REGISTER::DH => seq![0xb6u8, value],
        REGISTER::DL => seq![0xb2u8, value],
        _ => seq![0u8],
    }
}

pub open spec fn spec_mov_16(register: REGISTER, value: u16) -> Seq<u8> {
    match register {
        REGISTER::AX => seq![0x66u8, 0xb8] + spec_le_16(value),
        REGISTER::BX => seq![0x66u8, 0xbb] + spec_le_16(value),
        REGISTER::DX => seq![0x66u8, 0xba] + spec_le_16(value),
        _ => seq![0u8],
    }
}

pub open spec fn spec_nop() -> Seq<u8> {
    seq![0x90u8]
}

pub open spec fn spec_ret() -> Seq<u8> {
    seq![0xC3u8]
}

pub open spec fn spec_interrupt(nr: u8) -> Seq<u8> {
    seq![0xCdu8, nr]
}

pub open spec fn spec_cli() -> Seq<u8> {
    seq![0xFAu8]
}

pub open spec fn spec_sti() -> Seq<u8> {
    seq![0xFBu8]
}

pub open spec fn spec_pusfq() -> Seq<u8> {
    seq![0x9Cu8]
}

pub open spec fn spec_popfq() -> Seq<u8> {
    seq![0x9Du8]
}

pub open spec fn spec_wait() -> Seq<u8> {
    seq![0x9Bu8]
}

pub open spec fn spec_stc() -> Seq<u8> {
    seq![0xF9u8]
}

pub open spec fn spec_clc() -> Seq<u8> {
    seq![0xF8u8]
}

pub open spec fn spec_std_flag() -> Seq<u8> {
    seq![0xFDu8]
}

pub open spec fn spec_cld() -> Seq<u8> {
    seq![0xFCu8]
}

pub open spec fn spec_cbw() -> Seq<u8> {
    seq![0x66u8, 0x98]
}

/// Operations of the first 16-bit processor generation.
pub trait I8086 {
    /// Adds the value with carry into the 8-bit register.
    fn adc_8(register: REGISTER, value: u8) -> (r: Vec<u8>)
        ensures
            r@ =~= spec_adc_8(register, value);

    /// Adds the value with carry into the 16-bit register.
    fn adc_16(register: REGISTER, value: u16) -> (r: Vec<u8>)
        ensures
            r@ =~= spec_adc_16(register, value);

    /// Moves the value into the 8-bit register.
    fn mov_8(register: REGISTER, value: u8) -> (r: Vec<u8>)
        ensures
            r@ =~= spec_mov_8(register, value);

    /// Moves the value into the 16-bit register.
    fn mov_16(register: REGISTER, value: u16) -> (r: Vec<u8>)
        ensures
            r@ =~= spec_mov_16(register, value);

    /// Does nothing.
    fn nop() -> (r: Vec<u8>)
        ensures
            r@ =~= spec_nop();

    /// Returns from the current function.
    fn ret() -> (r: Vec<u8>)
        ensures
            r@ =~= spec_ret();

    /// Raises the given interrupt.
    fn interrupt(nr: u8) -> (r: Vec<u8>)
        ensures
            r@ =~= spec_interrupt(nr);

    /// Deactivates interrupts.
    fn cli() -> (r: Vec<u8>)
        ensures
            r@ =~= spec_cli();

    /// Activates interrupts.
    fn sti() -> (r: Vec<u8>)
        ensures
            r@ =~= spec_sti();

    /// Pushes the flags onto the stack.
    fn pusfq() -> (r: Vec<u8>)
        ensures
            r@ =~= spec_pusfq();

    /// Pops the flags from the stack.
    fn popfq() -> (r: Vec<u8>)
        ensures
            r@ =~= spec_popfq();

    /// Waits until the busy pin is inactive.
    fn wait() -> (r: Vec<u8>)
        ensures
            r@ =~= spec_wait();

    /// Sets the carry flag.
    fn stc() -> (r: Vec<u8>)
        ensures
            r@ =~= spec_stc();

    /// Clears the carry flag.
    fn clc() -> (r: Vec<u8>)
        ensures
            r@ =~= spec_clc();

    /// Sets the direction flag.
    fn std_flag() -> (r: Vec<u8>)
        ensures
            r@ =~= spec_std_flag();

    /// Clears the direction flag.
    fn cld() -> (r: Vec<u8>)
        ensures
            r@ =~= spec_cld();

    /// Converts a byte to a word.
    fn cbw() -> (r: Vec<u8>)
        ensures
            r@ =~= spec_cbw();
}

impl I8086 for AsmCall {
    fn adc_8(register: REGISTER, value: u8) -> (r: Vec<u8>) {
        match register {
            REGISTER::AH => vec![0x80, 0xD4, value],
            REGISTER::AL => vec![0x14, 0xFF, value],
            REGISTER::BH => vec![0x80, 0xD7, value],
            REGISTER::BL => vec![0x80, 0xD3, value],
            REGISTER::CH => vec![0x80, 0xD5, value],
            REGISTER::CL => vec![0x80, 0xD1, value],
            REGISTER::DH => vec![0x80, 0xD6, value],
            REGISTER::DL => vec![0x80, 0xD2, value],
            _ => vec![0],
        }
    }

    fn adc_16(register: REGISTER, value: u16) -> (r: Vec<u8>) {
        match register {
            REGISTER::AX => {
                let (x1, x2) = to_bytes_16(value);
                vec![0x66, 0x15, x1, x2]
            },
            REGISTER::BX => {
                let (x1, x2) = to_bytes_16(value);
                vec![0x66, 0x81, 0xD3, x1, x2]
            },
            REGISTER::CX => {
                let (x1, x2) = to_bytes_16(value);
                vec![0x66, 0x81, 0xD1, x1, x2]
            },
            REGISTER::DX => {
                let (x1, x2) = to_bytes_16(value);
                vec![0x66, 0x81, 0xD2, x1, x2]
            },
            _ => vec![0],
        }
    }

    fn mov_8(register: REGISTER, value: u8) -> (r: Vec<u8>) {
        match register {
            REGISTER::AH => vec![0xb4, value],
            REGISTER::AL => vec![0xb0, value],
            REGISTER::BH => vec![0xb7, value],
            REGISTER::BL => vec![0xb3, value],
            REGISTER::CH => vec![0xb5, value],
            REGISTER::CL => vec![0xb1, value],
            REGISTER::DH => vec![0xb6, value],
            REGISTER::DL => vec![0xb2, value],
            _ => vec![0],
        }
    }

    fn mov_16(register: REGISTER, value: u16) -> (r: Vec<u8>) {
        match register {
            REGISTER::AX => {
                let (x1, x2) = to_bytes_16(value);
                vec![0x66, 0xb8, x1, x2]
            },
            REGISTER::BX => {
                let (x1, x2) = to_bytes_16(value);
                vec![0x66, 0xbb, x1, x2]
            },
            REGISTER::DX => {
                let (x1, x2) = to_bytes_16(value);
                vec![0x66, 0xba, x1, x2]
            },
            _ => vec![0],
        }
    }

    fn nop() -> (r: Vec<u8>) {
        vec![0x90]
    }

    fn ret() -> (r: Vec<u8>) {
        vec![0xC3]
    }

    fn interrupt(nr: u8) -> (r: Vec<u8>) {
        vec![0xCd, nr]
    }

    fn cli() -> (r: Vec<u8>) {
        vec![0xFA]
    }

    fn sti() -> (r: Vec<u8>) {
        vec![0xFB]
    }

    fn pusfq() -> (r: Vec<u8>) {
        vec![0x9C]
    }

    fn popfq() -> (r: Vec<u8>) {
        vec![0x9D]
    }

    fn wait() -> (r: Vec<u8>) {
        vec![0x9B]
    }

    fn stc() -> (r: Vec<u8>) {
        vec![0xF9]
    }

    fn clc() -> (r: Vec<u8>) {
        vec![0xF8]
    }

    fn std_flag() -> (r: Vec<u8>) {
        vec![0xFD]
    }

    fn cld() -> (r: Vec<u8>) {
        vec![0xFC]
    }

    fn cbw() -> (r: Vec<u8>) {
        vec![0x66, 0x98]
    }
}

} // verus!
