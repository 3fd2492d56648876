//! Byte encodings shared by every supported processor generation.

use vstd::prelude::*;

use crate::arch::AsmCall;
use crate::emit::{REGISTER, to_bytes_16, to_bytes_32, spec_le_16, spec_le_32};

verus! {

pub open spec fn spec_inc(register: REGISTER) -> Seq<u8> {
    match register {
        REGISTER::RCX => seq![0x48u8, 0xFF, 0xC1],
        REGISTER::RDX => seq![0x48u8, 0xFF, 0xC2],
        REGISTER::RBX => seq![0x48u8, 0xFF, 0xC3],
        REGISTER::RAX => seq![0x48u8, 0xFF, 0xC0],
        REGISTER::EAX => seq![0xFFu8, 0xC0],
        REGISTER::EBX => seq![0xFFu8, 0xC3],
        REGISTER::ECX => seq![0xFFu8, 0xC1],
        REGISTER::EDX => seq![0xFFu8, 0xC2],
        REGISTER::AX => seq![0x66u8, 0xFF, 0xC0],
        REGISTER::BX => seq![0x66u8, 0xFF, 0xC3],
        REGISTER::CX => seq![0x66u8, 0xFF, 0xC1],
        REGISTER::DX => seq![0x66u8, 0xFF, 0xC2],
        REGISTER::AH => seq![0xFEu8, 0xC4],
        REGISTER::AL => seq![0xFEu8, 0xC0],
        REGISTER::BH => seq![0xFEu8, 0xC7],
        REGISTER::BL => seq![0xFEu8, 0xC3],
        REGISTER::CH => seq![0xFEu8, 0xC5],
        REGISTER::CL => seq![0xFEu8, 0xC1],
        REGISTER::DH => seq![0xFEu8, 0xC6],
        REGISTER::DL => seq![0xFEu8, 0xC2],
        REGISTER::RSI => seq![0x48u8, 0xFF, 0xC6],
        REGISTER::RDI => seq![0x48u8, 0xFF, 0xC7],
        REGISTER::RBP => seq![0x48u8, 0xFF, 0xC5],
        REGISTER::RSP => seq![0x48u8, 0xFF, 0xC4],
        _ => seq![0x00u8],
    }
}

pub open spec fn spec_dec(register: REGISTER) -> Seq<u8> {
    match register {
        REGISTER::RAX => seq![0x48u8, 0xFF, 0xC8],
        REGISTER::RBX => seq![0x48u8, 0xFF, 0xCB],
        REGISTER::RCX => seq![0x48u8, 0xFF, 0xC9],
        REGISTER::RDX => seq![0x48u8, 0xFF, 0xCA],
        REGISTER::EAX => seq![0xFFu8, 0xC8],
        REGISTER::EBX => seq![0xFFu8, 0xCB],
        REGISTER::ECX => seq![0xFFu8, 0xC9],
        REGISTER::EDX => seq![0xFFu8, 0xCA],
        REGISTER::AX => seq![0x66u8, 0xFF, 0xC8],
        REGISTER::BX => seq![0x66u8, 0xFF, 0xCB],
        REGISTER::CX => seq![0x66u8, 0xFF, 0xC9],
        REGISTER::DX => seq![0x66u8, 0xFF, 0xCA],
        REGISTER::AH => seq![0xFEu8, 0xCC],
        REGISTER::AL => seq![0xFEu8, 0xC8],
        REGISTER::BH => seq![0xFEu8, 0xCF],
        REGISTER::BL => seq![0xFEu8, 0xCB],
        REGISTER::CH => seq![0xFEu8, 0xCD],
        REGISTER::CL => seq![0xFEu8, 0xC9],
        REGISTER::DH => seq![0xFEu8, 0xCE],
        REGISTER::DL => seq![0xFEu8, 0xCA],
        REGISTER::RSI => seq![0x48u8, 0xFF, 0xCE],
        REGISTER::RDI => seq![0x48u8, 0xFF, 0xCF],
        REGISTER::RBP => seq![0x48u8, 0xFF, 0xCD],
        REGISTER::RSP => seq![0x48u8, 0xFF, 0xCC],
        _ => seq![0x00u8],
    }
}

pub open spec fn spec_mov_reg(target: REGISTER, source: REGISTER) -> Seq<u8> {
    match target {
        REGISTER::EAX => match source {
                    REGISTER::EAX => seq![0x89u8, 0xC0],
                    REGISTER::EBX => seq![0x89u8, 0xD8],
                    REGISTER::ECX => seq![0x89u8, 0xC8],
                    REGISTER::EDX => seq![0x89u8, 0xD0],
                    _ => seq![0x00u8],
                },
        REGISTER::EBX => match source {
                    REGISTER::EAX => seq![0x89u8, 0xC3],
                    REGISTER::EBX => seq![0x89u8, 0xDB],
                    REGISTER::ECX => seq![0x89u8, 0xCB],
                    REGISTER::EDX => seq![0x89u8, 0xD3],
                    _ => seq![0x00u8],
                },
        REGISTER::ECX => match source {
                    REGISTER::EAX => seq![0x89u8, 0xC1],
                    REGISTER::EBX => seq![0x89u8, 0xD9],
                    REGISTER::ECX => seq![0x89u8, 0xC9],
                    REGISTER::EDX => seq![0x89u8, 0xD1],
                    _ => seq![0x00u8],
                },
        REGISTER::EDX => match source {
                    REGISTER::EAX => seq![0x89u8, 0xC2],
                    REGISTER::EBX => seq![0x89u8, 0xDA],
                    REGISTER::ECX => seq![0x89u8, 0xCA],
                    REGISTER::EDX => seq![0x89u8, 0xD2],
                    _ => seq![0x00u8],
                },
        REGISTER::AX => match source {
                    REGISTER::AX => seq![0x66u8, 0x89, 0xc0],
                    REGISTER::BX => seq![0x66u8, 0x89, 0xD8],
                    REGISTER::CX => seq![0x66u8, 0x89, 0xC8],
                    REGISTER::DX => seq![0x66u8, 0x89, 0xD0],
                    _ => seq![0x00u8],
                },
        REGISTER::BX => match source {
                    REGISTER::AX => seq![0x66u8, 0x89, 0xc3],
                    REGISTER::BX => seq![0x66u8, 0x89, 0xDB],
                    REGISTER::CX => seq![0x66u8, 0x89, 0xCB],
                    REGISTER::DX => seq![0x66u8, 0x89, 0xD3],
                    _ => seq![0x00u8],
                },
        REGISTER::CX => match source {
                    REGISTER::AX => seq![0x66u8, 0x89, 0xc1],
                    REGISTER::BX => seq![0x66u8, 0x89, 0xD9],
                    REGISTER::CX => seq![0x66u8, 0x89, 0xC9],
                    REGISTER::DX => seq![0x66u8, 0x89, 0xD1],
                    _ => seq![0x00u8],
                },
        REGISTER::DX => match source {
                    REGISTER::AX => seq![0x66u8, 0x89, 0xC2],
                    REGISTER::BX => seq![0x66u8, 0x89, 0xDA],
                    REGISTER::CX => seq![0x66u8, 0x89, 0xCA],
                    REGISTER::DX => seq![0x66u8, 0x89, 0xD2],
                    _ => seq![0x00u8],
                },
        REGISTER::AH => match source {
                    REGISTER::AH => seq![0x88u8, 0xE4],
                    REGISTER::AL => seq![0x88u8, 0xC4],
                    REGISTER::BH => seq![0x88u8, 0xFC],
                    REGISTER::BL => seq![0x88u8, 0xDC],
                    REGISTER::CH => seq![0x88u8, 0xEC],
                    REGISTER::CL => seq![0x88u8, 0xCC],
                    REGISTER::DH => seq![0x88u8, 0xF4],
                    REGISTER::DL => seq![0x88u8, 0xD4],
                    _ => seq![0x00u8],
                },
        REGISTER::AL => match source {
                    REGISTER::AH => seq![0x88u8, 0xE0],
                    REGISTER::AL => seq![0x88u8, 0xC0],
                    REGISTER::BH => seq![0x88u8, 0xF8],
                    REGISTER::BL => seq![0x88u8, 0xD8],
                    REGISTER::CH => seq![0x88u8, 0xE8],
                    REGISTER::CL => seq![0x88u8, 0xC8],
                    REGISTER::DH => seq![0x88u8, 0xF0],
                    REGISTER::DL => seq![0x88u8, 0xD0],
                    _ => seq![0x00u8],
                },
        REGISTER::BH => match source {
                    REGISTER::AH => seq![0x88u8, 0xE7],
                    REGISTER::AL => seq![0x88u8, 0xC7],
                    REGISTER::BH => seq![0x88u8, 0xFF],
                    REGISTER::BL => seq![0x88u8, 0xDF],
                    REGISTER::CH => seq![0x88u8, 0xEF],
                    REGISTER::CL => seq![0x88u8, 0xCF],
                    REGISTER::DH => seq![0x88u8, 0xF7],
                    REGISTER::DL => seq![0x88u8, 0xD7],
                    _ => seq![0x00u8],
                },
        REGISTER::BL => match source {
                    REGISTER::AH => seq![0x88u8, 0xE3],
                    REGISTER::AL => seq![0x88u8, 0xC3],
                    REGISTER::BH => seq![0x88u8, 0xFB],
                    REGISTER::BL => seq![0x88u8, 0xDB],
                    REGISTER::CH => seq![0x88u8, 0xEB],
                    REGISTER::CL => seq![0x88u8, 0xCB],
                    REGISTER::DH => seq![0x88u8, 0xF3],
                    REGISTER::DL => seq![0x88u8, 0xD3],
                    _ => seq![0x00u8],
                },
        REGISTER::CH => match source {
                    REGISTER::AH => seq![0x88u8, 0xE5],
                    REGISTER::AL => seq![0x88u8, 0xC5],
                    REGISTER::BH => seq![0x88u8, 0xFD],
                    REGISTER::BL => seq![0x88u8, 0xDD],
                    REGISTER::CH => seq![0x88u8, 0xED],
                    REGISTER::CL => seq![0x88u8, 0xCD],
                    REGISTER::DH => seq![0x88u8, 0xF5],
                    REGISTER::DL => seq![0x88u8, 0xD5],
                    _ => seq![0x00u8],
                },
        REGISTER::CL => match source {
                    REGISTER::AH => seq![0x88u8, 0xE1],
                    REGISTER::AL => seq![0x88u8, 0xC1],
                    REGISTER::BH => seq![0x88u8, 0xF9],
                    REGISTER::BL => seq![0x88u8, 0xD9],
                    REGISTER::CH => seq![0x88u8, 0xE9],
                    REGISTER::CL => seq![0x88u8, 0xC9],
                    REGISTER::DH => seq![0x88u8, 0xF1],
                    REGISTER::DL => seq![0x88u8, 0xD1],
                    _ => seq![0x00u8],
                },
        REGISTER::DH => match source {
                    REGISTER::AH => seq![0x88u8, 0xE6],
                    REGISTER::AL => seq![0x88u8, 0xC6],
                    REGISTER::BH => seq![0x88u8, 0xFE],
                    REGISTER::BL => seq![0x88u8, 0xDE],
                    REGISTER::CH => seq![0x88u8, 0xEE],
                    REGISTER::CL => seq![0x88u8, 0xCE],
                    REGISTER::DH => seq![0x88u8, 0xF6],
                    REGISTER::DL => seq![0x88u8, 0xD6],
                    _ => seq![0x00u8],
                },
        REGISTER::DL => match source {
                    REGISTER::AH => seq![0x88u8, 0xE2],
                    REGISTER::AL => seq![0x88u8, 0xC2],
                    REGISTER::BH => seq![0x88u8, 0xFA],
                    REGISTER::BL => seq![0x88u8, 0xDA],
                    REGISTER::CH => seq![0x88u8, 0xEA],
                    REGISTER::CL => seq![0x88u8, 0xCA],
                    REGISTER::DH => seq![0x88u8, 0xF2],
                    REGISTER::DL => seq![0x88u8, 0xD2],
                    _ => seq![0x00u8],
                },
        REGISTER::RAX => match source {
                    REGISTER::RAX => seq![0x48u8, 0x89, 0xC0],
                    REGISTER::RBP => seq![0x48u8, 0x89, 0xE8],
                    REGISTER::RBX => seq![0x48u8, 0x89, 0xD8],
                    REGISTER::RCX => seq![0x48u8, 0x89, 0xC8],
                    REGISTER::RDI => seq![0x48u8, 0x89, 0xF8],
                    REGISTER::RDX => seq![0x48u8, 0x89, 0xD0],
                    REGISTER::RSI => seq![0x48u8, 0x89, 0xF0],
                    REGISTER::RSP => seq![0x48u8, 0x89, 0xE0],
                    _ => seq![0x00u8],
                },
        REGISTER::RBX => match source {
                    REGISTER::RAX => seq![0x48u8, 0x89, 0xC3],
                    REGISTER::RBP => seq![0x48u8, 0x89, 0xEB],
                    REGISTER::RBX => seq![0x48u8, 0x89, 0xDB],
                    REGISTER::RCX => seq![0x48u8, 0x89, 0xCB],
                    REGISTER::RDI => seq![0x48u8, 0x89, 0xFB],
                    REGISTER::RDX => seq![0x48u8, 0x89, 0xD3],
                    REGISTER::RSI => seq![0x48u8, 0x89, 0xF3],
                    REGISTER::RSP => seq![0x48u8, 0x89, 0xE3],
                    _ => seq![0x00u8],
                },
        REGISTER::RCX => match source {
                    REGISTER::RAX => seq![0x48u8, 0x89, 0xC1],
                    REGISTER::RBP => seq![0x48u8, 0x89, 0xE9],
                    REGISTER::RBX => seq![0x48u8, 0x89, 0xD9],
                    REGISTER::RCX => seq![0x48u8, 0x89, 0xC9],
                    REGISTER::RDI => seq![0x48u8, 0x89, 0xF9],
                    REGISTER::RDX => seq![0x48u8, 0x89, 0xD1],
                    REGISTER::RSI => seq![0x48u8, 0x89, 0xF1],
                    REGISTER::RSP => seq![0x48u8, 0x89, 0xE1],
                    _ => seq![0x00u8],
                },
        REGISTER::RDX => match source {
                    REGISTER::RAX => seq![0x48u8, 0x89, 0xC2],
                    REGISTER::RBP => seq![0x48u8, 0x89, 0xEA],
                    REGISTER::RBX => seq![0x48u8, 0x89, 0xDA],
                    REGISTER::RCX => seq![0x48u8, 0x89, 0xCA],
                    REGISTER::RDI => seq![0x48u8, 0x89, 0xFA],
                    REGISTER::RDX => seq![0x48u8, 0x89, 0xD2],
                    REGISTER::RSI => seq![0x48u8, 0x89, 0xF2],
                    REGISTER::RSP => seq![0x48u8, 0x89, 0xE2],
                    _ => seq![0x00u8],
                },
        REGISTER::RSI => match source {
                    REGISTER::RAX => seq![0x48u8, 0x89, 0xC6],
                    REGISTER::RBP => seq![0x48u8, 0x89, 0xEE],
                    REGISTER::RBX => seq![0x48u8, 0x89, 0xDE],
                    REGISTER::RCX => seq![0x48u8, 0x89, 0xCE],
                    REGISTER::RDI => seq![0x48u8, 0x89, 0xFE],
                    REGISTER::RDX => seq![0x48u8, 0x89, 0xD6],
                    REGISTER::RSI => seq![0x48u8, 0x89, 0xF6],
                    REGISTER::RSP => seq![0x48u8, 0x89, 0xE6],
                    _ => seq![0x00u8],
                },
        REGISTER::RDI => match source {
                    REGISTER::RAX => seq![0x48u8, 0x89, 0xC7],
                    REGISTER::RBP => seq![0x48u8, 0x89, 0xEF],
                    REGISTER::RBX => seq![0x48u8, 0x89, 0xDF],
                    REGISTER::RCX => seq![0x48u8, 0x89, 0xCF],
                    REGISTER::RDI => seq![0x48u8, 0x89, 0xFF],
                    REGISTER::RDX => seq![0x48u8, 0x89, 0xD7],
                    REGISTER::RSI => seq![0x48u8, 0x89, 0xF7],
                    REGISTER::RSP => seq![0x48u8, 0x89, 0xE7],
                    _ => seq![0x00u8],
                },
        REGISTER::RBP => match source {
                    REGISTER::RAX => seq![0x48u8, 0x89, 0xC5],
                    REGISTER::RBP => seq![0x48u8, 0x89, 0xED],
                    REGISTER::RBX => seq![0x48u8, 0x89, 0xDD],
                    REGISTER::RCX => seq![0x48u8, 0x89, 0xCD],
                    REGISTER::RDI => seq![0x48u8, 0x89, 0xFD],
                    REGISTER::RDX => seq![0x48u8, 0x89, 0xD5],
                    REGISTER::RSI => seq![0x48u8, 0x89, 0xF5],
                    REGISTER::RSP => seq![0x48u8, 0x89, 0xE5],
                    _ => seq![0x00u8],
                },
        REGISTER::RSP => match source {
                    REGISTER::RAX => seq![0x48u8, 0x89, 0xC4],
                    REGISTER::RBP => seq![0x48u8, 0x89, 0xEC],
                    REGISTER::RBX => seq![0x48u8, 0x89, 0xDC],
                    REGISTER::RCX => seq![0x48u8, 0x89, 0xCC],
                    REGISTER::RDI => seq![0x48u8, 0x89, 0xFC],
                    REGISTER::RDX => seq![0x48u8, 0x89, 0xD4],
                    REGISTER::RSI => seq![0x48u8, 0x89, 0xF4],
                    REGISTER::RSP => seq![0x48u8, 0x89, 0xE4],
                    _ => seq![0x00u8],
                },
        _ => seq![0x00u8],
    }
}

pub open spec fn spec_to_memory(adress: u64, target: REGISTER) -> Seq<u8> {
    match target {
        REGISTER::EAX => seq![0xA3u8] + spec_le_32(adress as u32),
        REGISTER::EBX => seq![0x89u8, 0x1D] + spec_le_32(adress as u32),
        REGISTER::ECX => seq![0x89u8, 0x0D] + spec_le_32(adress as u32),
        REGISTER::EDX => seq![0x89u8, 0x15] + spec_le_32(adress as u32),
        REGISTER::AX => seq![0x66u8, 0xa3] + spec_le_16(adress as u16),
        REGISTER::BX => seq![0x66u8, 0x89, 0x1D] + spec_le_16(adress as u16),
        REGISTER::CX => seq![0x66u8, 0x89, 0x0D] + spec_le_16(adress as u16),
        REGISTER::DX => seq![0x66u8, 0x89, 0x15] + spec_le_16(adress as u16),
        REGISTER::AH => seq![0x88u8, 0x25, adress as u8],
        REGISTER::AL => seq![0xa2u8, adress as u8],
        REGISTER::BH => seq![0x88u8, 0x3d, adress as u8],
        REGISTER::BL => seq![0x88u8, 0x1D, adress as u8],
        REGISTER::CH => seq![0x88u8, 0x2D, adress as u8],
        REGISTER::CL => seq![0x88u8, 0x0D, adress as u8],
        REGISTER::DH => seq![0x88u8, 0x35, adress as u8],
        REGISTER::DL => seq![0x88u8, 0x15, adress as u8],
        _ => seq![0x00u8],
    }
}

pub open spec fn spec_from_memory(adress: u32, target: REGISTER) -> Seq<u8> {
    match target {
        REGISTER::EAX => seq![0xa1u8] + spec_le_32(adress),
        REGISTER::EBX => seq![0x8bu8, 0x1D] + spec_le_32(adress),
        REGISTER::ECX => seq![0x8Bu8, 0x0D] + spec_le_32(adress),
        REGISTER::EDX => seq![0x8Bu8, 0x15] + spec_le_32(adress),
        REGISTER::AX => seq![0x66u8, 0xa1] + spec_le_32(adress),
        REGISTER::BX => seq![0x66u8, 0x8b, 0x1D] + spec_le_32(adress),
        REGISTER::CX => seq![0x66u8, 0x8B, 0x0D] + spec_le_32(adress),
        REGISTER::DX => seq![0x66u8, 0x8b, 0x15] + spec_le_32(adress),
        REGISTER::AH => seq![0x8au8, 0x25] + spec_le_32(adress),
        REGISTER::AL => seq![0xa0u8] + spec_le_32(adress),
        REGISTER::BH => seq![0x8au8, 0x3d] + spec_le_32(adress),
        REGISTER::BL => seq![0x8Au8, 0x1D] + spec_le_32(adress),
        REGISTER::CH => seq![0x8au8, 0x2D] + spec_le_32(adress),
        REGISTER::CL => seq![0x8au8, 0x0D] + spec_le_32(adress),
        REGISTER::DH => seq![0x8au8, 0x35] + spec_le_32(adress),
        REGISTER::DL => seq![0x8au8, 0x15] + spec_le_32(adress),
        _ => seq![0x00u8],
    }
}

pub open spec fn spec_push(reg: REGISTER) -> Seq<u8> {
    match reg {
        REGISTER::AX => seq![0x66u8, 0x50],
        REGISTER::CX => seq![0x66u8, 0x51],
        REGISTER::DX => seq![0x66u8, 0x52],
        REGISTER::BX => seq![0x66u8, 0x53],
        REGISTER::RAX => seq![0x50u8],
        REGISTER::RBX => seq![0x53u8],
        REGISTER::RCX => seq![0x51u8],
        REGISTER::RDX => seq![0x52u8],
        REGISTER::RSI => seq![0x56u8],
        REGISTER::RDI => seq![0x57u8],
        REGISTER::RBP => seq![0x55u8],
        REGISTER::RSP => seq![0x54u8],
        _ => seq![0x00u8],
    }
}

pub open spec fn spec_pop(reg: REGISTER) -> Seq<u8> {
    match reg {
        REGISTER::AX => seq![0x66u8, 0x58],
        REGISTER::CX => seq![0x66u8, 0x59],
        REGISTER::DX => seq![0x66u8, 0x5a],
        REGISTER::BX => seq![0x66u8, 0x5b],
        REGISTER::RAX => seq![0x58u8],
        REGISTER::RBX => seq![0x5bu8],
        REGISTER::RCX => seq![0x59u8],
        REGISTER::RDX => seq![0x5au8],
        REGISTER::RSI => seq![0x5eu8],
        REGISTER::RDI => seq![0x5fu8],
        REGISTER::RBP => seq![0x5du8],
        REGISTER::RSP => seq![0x5cu8],
        _ => seq![0x00u8],
    }
}

pub open spec fn spec_jmp(adress: u32) -> Seq<u8> {
    seq![0xe9u8] + spec_le_32(adress)
}

pub open spec fn spec_call(adress: u32) -> Seq<u8> {
    seq![0xe8u8] + spec_le_32(adress)
}

/// The bytes of `AsmCall::adc_reg`: the register form of add-with-carry, the
/// source in the reg field and the destination in the rm field.
pub open spec fn spec_adc_reg(dest: REGISTER, src: REGISTER) -> Seq<u8> {
    match dest {
        REGISTER::RAX => match src {
                    REGISTER::RAX => seq![0x48u8, 0x11, 0xC0],
                    REGISTER::RBX => seq![0x48u8, 0x11, 0xD8],
                    REGISTER::RCX => seq![0x48u8, 0x11, 0xC8],
                    REGISTER::RDX => seq![0x48u8, 0x11, 0xD0],
                    REGISTER::RBP => seq![0x48u8, 0x11, 0xE8],
                    REGISTER::RSI => seq![0x48u8, 0x11, 0xF0],
                    REGISTER::RDI => seq![0x48u8, 0x11, 0xF8],
                    REGISTER::RSP => seq![0x48u8, 0x11, 0xE0],
                    _ => seq![0x00u8],
                },
        REGISTER::RBX => match src {
                    REGISTER::RAX => seq![0x48u8, 0x11, 0xC3],
                    REGISTER::RBX => seq![0x48u8, 0x11, 0xDB],
                    REGISTER::RCX => seq![0x48u8, 0x11, 0xCB],
                    REGISTER::RDX => seq![0x48u8, 0x11, 0xD3],
                    REGISTER::RBP => seq![0x48u8, 0x11, 0xEB],
                    REGISTER::RSI => seq![0x48u8, 0x11, 0xF3],
                    REGISTER::RDI => seq![0x48u8, 0x11, 0xFB],
                    REGISTER::RSP => seq![0x48u8, 0x11, 0xE3],
                    _ => seq![0x00u8],
                },
        REGISTER::RCX => match src {
                    REGISTER::RAX => seq![0x48u8, 0x11, 0xC1],
                    REGISTER::RBX => seq![0x48u8, 0x11, 0xD9],
                    REGISTER::RCX => seq![0x48u8, 0x11, 0xC9],
                    REGISTER::RDX => seq![0x48u8, 0x11, 0xD1],
                    REGISTER::RBP => seq![0x48u8, 0x11, 0xE9],
                    REGISTER::RSI => seq![0x48u8, 0x11, 0xF1],
                    REGISTER::RDI => seq![0x48u8, 0x11, 0xF9],
                    REGISTER::RSP => seq![0x48u8, 0x11, 0xE1],
                    _ => seq![0x00u8],
                },
        REGISTER::RDX => match src {
                    REGISTER::RAX => seq![0x48u8, 0x11, 0xC2],
                    REGISTER::RBX => seq![0x48u8, 0x11, 0xDA],
                    REGISTER::RCX => seq![0x48u8, 0x11, 0xCA],
                    REGISTER::RDX => seq![0x48u8, 0x11, 0xD2],
                    REGISTER::RBP => seq![0x48u8, 0x11, 0xEA],
                    REGISTER::RSI => seq![0x48u8, 0x11, 0xF2],
                    REGISTER::RDI => seq![0x48u8, 0x11, 0xFA],
                    REGISTER::RSP => seq![0x48u8, 0x11, 0xE2],
                    _ => seq![0x00u8],
                },
        REGISTER::RSI => match src {
                    REGISTER::RAX => seq![0x48u8, 0x11, 0xC6],
                    REGISTER::RBX => seq![0x48u8, 0x11, 0xDE],
                    REGISTER::RCX => seq![0x48u8, 0x11, 0xCE],
                    REGISTER::RDX => seq![0x48u8, 0x11, 0xD6],
                    REGISTER::RBP => seq![0x48u8, 0x11, 0xEE],
                    REGISTER::RSI => seq![0x48u8, 0x11, 0xF6],
                    REGISTER::RDI => seq![0x48u8, 0x11, 0xFE],
                    REGISTER::RSP => seq![0x48u8, 0x11, 0xE6],
                    _ => seq![0x00u8],
                },
        REGISTER::RDI => match src {
                    REGISTER::RAX => seq![0x48u8, 0x11, 0xC7],
                    REGISTER::RBX => seq![0x48u8, 0x11, 0xDF],
                    REGISTER::RCX => seq![0x48u8, 0x11, 0xCF],
                    REGISTER::RDX => seq![0x48u8, 0x11, 0xD7],
                    REGISTER::RBP => seq![0x48u8, 0x11, 0xEF],
                    REGISTER::RSI => seq![0x48u8, 0x11, 0xF7],
                    REGISTER::RDI => seq![0x48u8, 0x11, 0xFF],
                    REGISTER::RSP => seq![0x48u8, 0x11, 0xE7],
                    _ => seq![0x00u8],
                },
        REGISTER::RBP => match src {
                    REGISTER::RAX => seq![0x48u8, 0x11, 0xC5],
                    REGISTER::RBX => seq![0x48u8, 0x11, 0xDD],
                    REGISTER::RCX => seq![0x48u8, 0x11, 0xCD],
                    REGISTER::RDX => seq![0x48u8, 0x11, 0xD5],
                    REGISTER::RBP => seq![0x48u8, 0x11, 0xED],
                    REGISTER::RSI => seq![0x48u8, 0x11, 0xF5],
                    REGISTER::RDI => seq![0x48u8, 0x11, 0xFD],
                    REGISTER::RSP => seq![0x48u8, 0x11, 0xE5],
                    _ => seq![0x00u8],
                },
        REGISTER::RSP => match src {
                    REGISTER::RAX => seq![0x48u8, 0x11, 0xC4],
                    REGISTER::RBX => seq![0x48u8, 0x11, 0xDC],
                    REGISTER::RCX => seq![0x48u8, 0x11, 0xCC],
                    REGISTER::RDX => seq![0x48u8, 0x11, 0xD4],
                    REGISTER::RBP => seq![0x48u8, 0x11, 0xEC],
                    REGISTER::RSI => seq![0x48u8, 0x11, 0xF4],
                    REGISTER::RDI => seq![0x48u8, 0x11, 0xFC],
                    REGISTER::RSP => seq![0x48u8, 0x11, 0xE4],
                    _ => seq![0x00u8],
                },
        REGISTER::EAX => match src {
                    REGISTER::EAX => seq![0x11u8, 0xC0],
                    REGISTER::EBX => seq![0x11u8, 0xD8],
                    REGISTER::ECX => seq![0x11u8, 0xC8],
                    REGISTER::EDX => seq![0x11u8, 0xD0],
                    _ => seq![0x00u8],
                },
        REGISTER::EBX => match src {
                    REGISTER::EAX => seq![0x11u8, 0xC3],
                    REGISTER::EBX => seq![0x11u8, 0xDB],
                    REGISTER::ECX => seq![0x11u8, 0xCB],
                    REGISTER::EDX => seq![0x11u8, 0xD3],
                    _ => seq![0x00u8],
                },
        REGISTER::ECX => match src {
                    REGISTER::EAX => seq![0x11u8, 0xC1],
                    REGISTER::EBX => seq![0x11u8, 0xD9],
                    REGISTER::ECX => seq![0x11u8, 0xC9],
                    REGISTER::EDX => seq![0x11u8, 0xD1],
                    _ => seq![0x00u8],
                },
        REGISTER::EDX => match src {
                    REGISTER::EAX => seq![0x11u8, 0xC2],
                    REGISTER::EBX => seq![0x11u8, 0xDA],
                    REGISTER::ECX => seq![0x11u8, 0xCA],
                    REGISTER::EDX => seq![0x11u8, 0xD2],
                    _ => seq![0x00u8],
                },
        REGISTER::AX => match src {
                    REGISTER::AX => seq![0x66u8, 0x11, 0xC0],
                    REGISTER::BX => seq![0x66u8, 0x11, 0xD8],
                    REGISTER::CX => seq![0x66u8, 0x11, 0xC8],
                    REGISTER::DX => seq![0x66u8, 0x11, 0xD0],
                    _ => seq![0x00u8],
                },
        REGISTER::BX => match src {
                    REGISTER::AX => seq![0x66u8, 0x11, 0xC3],
                    REGISTER::BX => seq![0x66u8, 0x11, 0xDB],
                    REGISTER::CX => seq![0x66u8, 0x11, 0xCB],
                    REGISTER::DX => seq![0x66u8, 0x11, 0xD3],
                    _ => seq![0x00u8],
                },
        REGISTER::CX => match src {
                    REGISTER::AX => seq![0x66u8, 0x11, 0xC1],
                    REGISTER::BX => seq![0x66u8, 0x11, 0xD9],
                    REGISTER::CX => seq![0x66u8, 0x11, 0xC9],
                    REGISTER::DX => seq![0x66u8, 0x11, 0xD1],
                    _ => seq![0x00u8],
                },
        REGISTER::DX => match src {
                    REGISTER::AX => seq![0x66u8, 0x11, 0xC2],
                    REGISTER::BX => seq![0x66u8, 0x11, 0xDA],
                    REGISTER::CX => seq![0x66u8, 0x11, 0xCA],
                    REGISTER::DX => seq![0x66u8, 0x11, 0xD2],
                    _ => seq![0x00u8],
                },
        REGISTER::AH => match src {
                    REGISTER::AH => seq![0x10u8, 0xE4],
                    REGISTER::AL => seq![0x10u8, 0xC4],
                    REGISTER::BH => seq![0x10u8, 0xFC],
                    REGISTER::BL => seq![0x10u8, 0xDC],
                    REGISTER::CH => seq![0x10u8, 0xEC],
                    REGISTER::CL => seq![0x10u8, 0xCC],
                    REGISTER::DH => seq![0x10u8, 0xF4],
                    REGISTER::DL => seq![0x10u8, 0xD4],
                    _ => seq![0x00u8],
                },
        REGISTER::AL => match src {
                    REGISTER::AH => seq![0x10u8, 0xE0],
                    REGISTER::AL => seq![0x10u8, 0xC0],
                    REGISTER::BH => seq![0x10u8, 0xF8],
                    REGISTER::BL => seq![0x10u8, 0xD8],
                    REGISTER::CH => seq![0x10u8, 0xE8],
                    REGISTER::CL => seq![0x10u8, 0xC8],
                    REGISTER::DH => seq![0x10u8, 0xF0],
                    REGISTER::DL => seq![0x10u8, 0xD0],
                    _ => seq![0x00u8],
                },
        REGISTER::BH => match src {
                    REGISTER::AH => seq![0x10u8, 0xE7],
                    REGISTER::AL => seq![0x10u8, 0xC7],
                    REGISTER::BH => seq![0x10u8, 0xFF],
                    REGISTER::BL => seq![0x10u8, 0xDF],
                    REGISTER::CH => seq![0x10u8, 0xEF],
                    REGISTER::CL => seq![0x10u8, 0xCF],
                    REGISTER::DH => seq![0x10u8, 0xF7],
                    REGISTER::DL => seq![0x10u8, 0xD7],
                    _ => seq![0x00u8],
                },
        REGISTER::BL => match src {
                    REGISTER::AH => seq![0x10u8, 0xE3],
                    REGISTER::AL => seq![0x10u8, 0xC3],
                    REGISTER::BH => seq![0x10u8, 0xFB],
                    REGISTER::BL => seq![0x10u8, 0xDB],
                    REGISTER::CH => seq![0x10u8, 0xEB],
                    REGISTER::CL => seq![0x10u8, 0xCB],
                    REGISTER::DH => seq![0x10u8, 0xF3],
                    REGISTER::DL => seq![0x10u8, 0xD3],
                    _ => seq![0x00u8],
                },
        REGISTER::CH => match src {
                    REGISTER::AH => seq![0x10u8, 0xE5],
                    REGISTER::AL => seq![0x10u8, 0xC5],
                    REGISTER::BH => seq![0x10u8, 0xFD],
                    REGISTER::BL => seq![0x10u8, 0xDD],
                    REGISTER::CH => seq![0x10u8, 0xED],
                    REGISTER::CL => seq![0x10u8, 0xCD],
                    REGISTER::DH => seq![0x10u8, 0xF5],
                    REGISTER::DL => seq![0x10u8, 0xD5],
                    _ => seq![0x00u8],
                },
        REGISTER::CL => match src {
                    REGISTER::AH => seq![0x10u8, 0xE1],
                    REGISTER::AL => seq![0x10u8, 0xC1],
                    REGISTER::BH => seq![0x10u8, 0xF9],
                    REGISTER::BL => seq![0x10u8, 0xD9],
                    REGISTER::CH => seq![0x10u8, 0xE9],
                    REGISTER::CL => seq![0x10u8, 0xC9],
                    REGISTER::DH => seq![0x10u8, 0xF1],
                    REGISTER::DL => seq![0x10u8, 0xD1],
                    _ => seq![0x00u8],
                },
        REGISTER::DH => match src {
                    REGISTER::AH => seq![0x10u8, 0xE6],
                    REGISTER::AL => seq![0x10u8, 0xC6],
                    REGISTER::BH => seq![0x10u8, 0xFE],
                    REGISTER::BL => seq![0x10u8, 0xDE],
                    REGISTER::CH => seq![0x10u8, 0xEE],
                    REGISTER::CL => seq![0x10u8, 0xCE],
                    REGISTER::DH => seq![0x10u8, 0xF6],
                    REGISTER::DL => seq![0x10u8, 0xD6],
                    _ => seq![0x00u8],
                },
        REGISTER::DL => match src {
                    REGISTER::AH => seq![0x10u8, 0xE2],
                    REGISTER::AL => seq![0x10u8, 0xC2],
                    REGISTER::BH => seq![0x10u8, 0xFA],
                    REGISTER::BL => seq![0x10u8, 0xDA],
                    REGISTER::CH => seq![0x10u8, 0xEA],
                    REGISTER::CL => seq![0x10u8, 0xCA],
                    REGISTER::DH => seq![0x10u8, 0xF2],
                    REGISTER::DL => seq![0x10u8, 0xD2],
                    _ => seq![0x00u8],
                },
        _ => seq![0x00u8],
    }
}

pub open spec fn spec_call_reg(target: REGISTER) -> Seq<u8> {
    match target {
        REGISTER::RAX => seq![0xFFu8, 0xD0],
        REGISTER::RBX => seq![0xFFu8, 0xD3],
        REGISTER::RCX => seq![0xFFu8, 0xD1],
        REGISTER::RDX => seq![0xFFu8, 0xD2],
        REGISTER::RSI => seq![0xFFu8, 0xD6],
        REGISTER::RDI => seq![0xFFu8, 0xD7],
        REGISTER::RBP => seq![0xFFu8, 0xD5],
        REGISTER::RSP => seq![0xFFu8, 0xD4],
        _ => seq![0x00u8],
    }
}

pub open spec fn spec_jmp_reg(target: REGISTER) -> Seq<u8> {
    match target {
        REGISTER::RAX => seq![0xFFu8, 0xE0],
        REGISTER::RBX => seq![0xFFu8, 0xE3],
        REGISTER::RCX => seq![0xFFu8, 0xE1],
        REGISTER::RDX => seq![0xFFu8, 0xE2],
        REGISTER::RSI => seq![0xFFu8, 0xE6],
        REGISTER::RDI => seq![0xFFu8, 0xE7],
        REGISTER::RBP => seq![0xFFu8, 0xE5],
        REGISTER::RSP => seq![0xFFu8, 0xE4],
        _ => seq![0x00u8],
    }
}

pub open spec fn spec_endbr64() -> Seq<u8> {
    seq![0xF3u8, 0x0F, 0x1E, 0xFA]
}

/// Operations every supported processor generation offers.
pub trait IShared {
    /// Increments the register by 1.
    fn inc(register: REGISTER) -> (r: Vec<u8>)
        ensures
            r@ =~= spec_inc(register);

    /// Decrements the register by 1.
    fn dec(register: REGISTER) -> (r: Vec<u8>)
        ensures
            r@ =~= spec_dec(register);

    /// Moves the value from one register into another.
    fn mov_reg(target: REGISTER, source: REGISTER) -> (r: Vec<u8>)
        ensures
            r@ =~= spec_mov_reg(target, source);

    /// Moves the value from the register to the given memory address.
    fn to_memory(adress: u64, target: REGISTER) -> (r: Vec<u8>)
        ensures
            r@ =~= spec_to_memory(adress, target);

    /// Moves the value at the given memory address into the register.
    fn from_memory(adress: u32, target: REGISTER) -> (r: Vec<u8>)
        ensures
            r@ =~= spec_from_memory(adress, target);

    /// Pushes the register onto the stack.
    fn push(reg: REGISTER) -> (r: Vec<u8>)
        ensures
            r@ =~= spec_push(reg);

    /// Pops the register from the stack.
    fn pop(reg: REGISTER) -> (r: Vec<u8>)
        ensures
            r@ =~= spec_pop(reg);

    /// Jumps to the given address.
    fn jmp(adress: u32) -> (r: Vec<u8>)
        ensures
            r@ =~= spec_jmp(adress);

    /// Calls the given address.
    fn call(adress: u32) -> (r: Vec<u8>)
        ensures
            r@ =~= spec_call(adress);

    /// Adds register `src` with carry into register `dest`.
    fn adc_reg(dest: REGISTER, src: REGISTER) -> (r: Vec<u8>)
        ensures
            r@ =~= spec_adc_reg(dest, src);

    /// Calls the address stored in the register.
    fn call_reg(target: REGISTER) -> (r: Vec<u8>)
        ensures
            r@ =~= spec_call_reg(target);

    /// Jumps to the address stored in the register.
    fn jmp_reg(target: REGISTER) -> (r: Vec<u8>)
        ensures
            r@ =~= spec_jmp_reg(target);

    /// The branch target landing pad marker.
    fn endbr64() -> (r: Vec<u8>)
        ensures
            r@ =~= spec_endbr64();
}

impl IShared for AsmCall {
    fn inc(register: REGISTER) -> (r: Vec<u8>) {
        match register {
            REGISTER::RCX => vec![0x48, 0xFF, 0xC1],
            REGISTER::RDX => vec![0x48, 0xFF, 0xC2],
            REGISTER::RBX => vec![0x48, 0xFF, 0xC3],
            REGISTER::RAX => vec![0x48, 0xFF, 0xC0],
            REGISTER::EAX => vec![0xFF, 0xC0],
            REGISTER::EBX => vec![0xFF, 0xC3],
            REGISTER::ECX => vec![0xFF, 0xC1],
            REGISTER::EDX => vec![0xFF, 0xC2],
            REGISTER::AX => vec![0x66, 0xFF, 0xC0],
            REGISTER::BX => vec![0x66, 0xFF, 0xC3],
            REGISTER::CX => vec![0x66, 0xFF, 0xC1],
            REGISTER::DX => vec![0x66, 0xFF, 0xC2],
            REGISTER::AH => vec![0xFE, 0xC4],
            REGISTER::AL => vec![0xFE, 0xC0],
            REGISTER::BH => vec![0xFE, 0xC7],
            REGISTER::BL => vec![0xFE, 0xC3],
            REGISTER::CH => vec![0xFE, 0xC5],
            REGISTER::CL => vec![0xFE, 0xC1],
            REGISTER::DH => vec![0xFE, 0xC6],
            REGISTER::DL => vec![0xFE, 0xC2],
            REGISTER::RSI => vec![0x48, 0xFF, 0xC6],
            REGISTER::RDI => vec![0x48, 0xFF, 0xC7],
            REGISTER::RBP => vec![0x48, 0xFF, 0xC5],
            REGISTER::RSP => vec![0x48, 0xFF, 0xC4],
            _ => vec![0x00],
        }
    }

    fn dec(register: REGISTER) -> (r: Vec<u8>) {
        match register {
            REGISTER::RAX => vec![0x48, 0xFF, 0xC8],
            REGISTER::RBX => vec![0x48, 0xFF, 0xCB],
            REGISTER::RCX => vec![0x48, 0xFF, 0xC9],
            REGISTER::RDX => vec![0x48, 0xFF, 0xCA],
            REGISTER::EAX => vec![0xFF, 0xC8],
            REGISTER::EBX => vec![0xFF, 0xCB],
            REGISTER::ECX => vec![0xFF, 0xC9],
            REGISTER::EDX => vec![0xFF, 0xCA],
            REGISTER::AX => vec![0x66, 0xFF, 0xC8],
            REGISTER::BX => vec![0x66, 0xFF, 0xCB],
            REGISTER::CX => vec![0x66, 0xFF, 0xC9],
            REGISTER::DX => vec![0x66, 0xFF, 0xCA],
            REGISTER::AH => vec![0xFE, 0xCC],
            REGISTER::AL => vec![0xFE, 0xC8],
            REGISTER::BH => vec![0xFE, 0xCF],
            REGISTER::BL => vec![0xFE, 0xCB],
            REGISTER::CH => vec![0xFE, 0xCD],
            REGISTER::CL => vec![0xFE, 0xC9],
            REGISTER::DH => vec![0xFE, 0xCE],
            REGISTER::DL => vec![0xFE, 0xCA],
            REGISTER::RSI => vec![0x48, 0xFF, 0xCE],
            REGISTER::RDI => vec![0x48, 0xFF, 0xCF],
            REGISTER::RBP => vec![0x48, 0xFF, 0xCD],
            REGISTER::RSP => vec![0x48, 0xFF, 0xCC],
            _ => vec![0x00],
        }
    }

    fn mov_reg(target: REGISTER, source: REGISTER) -> (r: Vec<u8>) {
        match target {
            REGISTER::EAX => match source {
                REGISTER::EAX => vec![0x89, 0xC0],
                REGISTER::EBX => vec![0x89, 0xD8],
                REGISTER::ECX => vec![0x89, 0xC8],
                REGISTER::EDX => vec![0x89, 0xD0],
                _ => vec![0x00],
            },
            REGISTER::EBX => match source {
                REGISTER::EAX => vec![0x89, 0xC3],
                REGISTER::EBX => vec![0x89, 0xDB],
                REGISTER::ECX => vec![0x89, 0xCB],
                REGISTER::EDX => vec![0x89, 0xD3],
                _ => vec![0x00],
            },
            REGISTER::ECX => match source {
                REGISTER::EAX => vec![0x89, 0xC1],
                REGISTER::EBX => vec![0x89, 0xD9],
                REGISTER::ECX => vec![0x89, 0xC9],
                REGISTER::EDX => vec![0x89, 0xD1],
                _ => vec![0x00],
            },
            REGISTER::EDX => match source {
                REGISTER::EAX => vec![0x89, 0xC2],
                REGISTER::EBX => vec![0x89, 0xDA],
                REGISTER::ECX => vec![0x89, 0xCA],
                REGISTER::EDX => vec![0x89, 0xD2],
                _ => vec![0x00],
            },
            REGISTER::AX => match source {
                REGISTER::AX => vec![0x66, 0x89, 0xc0],
                REGISTER::BX => vec![0x66, 0x89, 0xD8],
                REGISTER::CX => vec![0x66, 0x89, 0xC8],
                REGISTER::DX => vec![0x66, 0x89, 0xD0],
                _ => vec![0x00],
            },
            REGISTER::BX => match source {
                REGISTER::AX => vec![0x66, 0x89, 0xc3],
                REGISTER::BX => vec![0x66, 0x89, 0xDB],
                REGISTER::CX => vec![0x66, 0x89, 0xCB],
                REGISTER::DX => vec![0x66, 0x89, 0xD3],
                _ => vec![0x00],
            },
            REGISTER::CX => match source {
                REGISTER::AX => vec![0x66, 0x89, 0xc1],
                REGISTER::BX => vec![0x66, 0x89, 0xD9],
                REGISTER::CX => vec![0x66, 0x89, 0xC9],
                REGISTER::DX => vec![0x66, 0x89, 0xD1],
                _ => vec![0x00],
            },
            REGISTER::DX => match source {
                REGISTER::AX => vec![0x66, 0x89, 0xC2],
                REGISTER::BX => vec![0x66, 0x89, 0xDA],
                REGISTER::CX => vec![0x66, 0x89, 0xCA],
                REGISTER::DX => vec![0x66, 0x89, 0xD2],
                _ => vec![0x00],
            },
            REGISTER::AH => match source {
                REGISTER::AH => vec![0x88, 0xE4],
                REGISTER::AL => vec![0x88, 0xC4],
                REGISTER::BH => vec![0x88, 0xFC],
                REGISTER::BL => vec![0x88, 0xDC],
                REGISTER::CH => vec![0x88, 0xEC],
                REGISTER::CL => vec![0x88, 0xCC],
                REGISTER::DH => vec![0x88, 0xF4],
                REGISTER::DL => vec![0x88, 0xD4],
                _ => vec![0x00],
            },
            REGISTER::AL => match source {
                REGISTER::AH => vec![0x88, 0xE0],
                REGISTER::AL => vec![0x88, 0xC0],
                REGISTER::BH => vec![0x88, 0xF8],
                REGISTER::BL => vec![0x88, 0xD8],
                REGISTER::CH => vec![0x88, 0xE8],
                REGISTER::CL => vec![0x88, 0xC8],
                REGISTER::DH => vec![0x88, 0xF0],
                REGISTER::DL => vec![0x88, 0xD0],
                _ => vec![0x00],
            },
            REGISTER::BH => match source {
                REGISTER::AH => vec![0x88, 0xE7],
                REGISTER::AL => vec![0x88, 0xC7],
                REGISTER::BH => vec![0x88, 0xFF],
                REGISTER::BL => vec![0x88, 0xDF],
                REGISTER::CH => vec![0x88, 0xEF],
                REGISTER::CL => vec![0x88, 0xCF],
                REGISTER::DH => vec![0x88, 0xF7],
                REGISTER::DL => vec![0x88, 0xD7],
                _ => vec![0x00],
            },
            REGISTER::BL => match source {
                REGISTER::AH => vec![0x88, 0xE3],
                REGISTER::AL => vec![0x88, 0xC3],
                REGISTER::BH => vec![0x88, 0xFB],
                REGISTER::BL => vec![0x88, 0xDB],
                REGISTER::CH => vec![0x88, 0xEB],
                REGISTER::CL => vec![0x88, 0xCB],
                REGISTER::DH => vec![0x88, 0xF3],
                REGISTER::DL => vec![0x88, 0xD3],
                _ => vec![0x00],
            },
            REGISTER::CH => match source {
                REGISTER::AH => vec![0x88, 0xE5],
                REGISTER::AL => vec![0x88, 0xC5],
                REGISTER::BH => vec![0x88, 0xFD],
                REGISTER::BL => vec![0x88, 0xDD],
                REGISTER::CH => vec![0x88, 0xED],
                REGISTER::CL => vec![0x88, 0xCD],
                REGISTER::DH => vec![0x88, 0xF5],
                REGISTER::DL => vec![0x88, 0xD5],
                _ => vec![0x00],
            },
            REGISTER::CL => match source {
                REGISTER::AH => vec![0x88, 0xE1],
                REGISTER::AL => vec![0x88, 0xC1],
                REGISTER::BH => vec![0x88, 0xF9],
                REGISTER::BL => vec![0x88, 0xD9],
                REGISTER::CH => vec![0x88, 0xE9],
                REGISTER::CL => vec![0x88, 0xC9],
                REGISTER::DH => vec![0x88, 0xF1],
                REGISTER::DL => vec![0x88, 0xD1],
                _ => vec![0x00],
            },
            REGISTER::DH => match source {
                REGISTER::AH => vec![0x88, 0xE6],
                REGISTER::AL => vec![0x88, 0xC6],
                REGISTER::BH => vec![0x88, 0xFE],
                REGISTER::BL => vec![0x88, 0xDE],
                REGISTER::CH => vec![0x88, 0xEE],
                REGISTER::CL => vec![0x88, 0xCE],
                REGISTER::DH => vec![0x88, 0xF6],
                REGISTER::DL => vec![0x88, 0xD6],
                _ => vec![0x00],
            },
            REGISTER::DL => match source {
                REGISTER::AH => vec![0x88, 0xE2],
                REGISTER::AL => vec![0x88, 0xC2],
                REGISTER::BH => vec![0x88, 0xFA],
                REGISTER::BL => vec![0x88, 0xDA],
                REGISTER::CH => vec![0x88, 0xEA],
                REGISTER::CL => vec![0x88, 0xCA],
                REGISTER::DH => vec![0x88, 0xF2],
                REGISTER::DL => vec![0x88, 0xD2],
                _ => vec![0x00],
            },
            REGISTER::RAX => match source {
                REGISTER::RAX => vec![0x48, 0x89, 0xC0],
                REGISTER::RBP => vec![0x48, 0x89, 0xE8],
                REGISTER::RBX => vec![0x48, 0x89, 0xD8],
                REGISTER::RCX => vec![0x48, 0x89, 0xC8],
                REGISTER::RDI => vec![0x48, 0x89, 0xF8],
                REGISTER::RDX => vec![0x48, 0x89, 0xD0],
                REGISTER::RSI => vec![0x48, 0x89, 0xF0],
                REGISTER::RSP => vec![0x48, 0x89, 0xE0],
                _ => vec![0x00],
            },
            REGISTER::RBX => match source {
                REGISTER::RAX => vec![0x48, 0x89, 0xC3],
                REGISTER::RBP => vec![0x48, 0x89, 0xEB],
                REGISTER::RBX => vec![0x48, 0x89, 0xDB],
                REGISTER::RCX => vec![0x48, 0x89, 0xCB],
                REGISTER::RDI => vec![0x48, 0x89, 0xFB],
                REGISTER::RDX => vec![0x48, 0x89, 0xD3],
                REGISTER::RSI => vec![0x48, 0x89, 0xF3],
                REGISTER::RSP => vec![0x48, 0x89, 0xE3],
                _ => vec![0x00],
            },
            REGISTER::RCX => match source {
                REGISTER::RAX => vec![0x48, 0x89, 0xC1],
                REGISTER::RBP => vec![0x48, 0x89, 0xE9],
                REGISTER::RBX => vec![0x48, 0x89, 0xD9],
                REGISTER::RCX => vec![0x48, 0x89, 0xC9],
                REGISTER::RDI => vec![0x48, 0x89, 0xF9],
                REGISTER::RDX => vec![0x48, 0x89, 0xD1],
                REGISTER::RSI => vec![0x48, 0x89, 0xF1],
                REGISTER::RSP => vec![0x48, 0x89, 0xE1],
                _ => vec![0x00],
            },
            REGISTER::RDX => match source {
                REGISTER::RAX => vec![0x48, 0x89, 0xC2],
                REGISTER::RBP => vec![0x48, 0x89, 0xEA],
                REGISTER::RBX => vec![0x48, 0x89, 0xDA],
                REGISTER::RCX => vec![0x48, 0x89, 0xCA],
                REGISTER::RDI => vec![0x48, 0x89, 0xFA],
                REGISTER::RDX => vec![0x48, 0x89, 0xD2],
                REGISTER::RSI => vec![0x48, 0x89, 0xF2],
                REGISTER::RSP => vec![0x48, 0x89, 0xE2],
                _ => vec![0x00],
            },
            REGISTER::RSI => match source {
                REGISTER::RAX => vec![0x48, 0x89, 0xC6],
                REGISTER::RBP => vec![0x48, 0x89, 0xEE],
                REGISTER::RBX => vec![0x48, 0x89, 0xDE],
                REGISTER::RCX => vec![0x48, 0x89, 0xCE],
                REGISTER::RDI => vec![0x48, 0x89, 0xFE],
                REGISTER::RDX => vec![0x48, 0x89, 0xD6],
                REGISTER::RSI => vec![0x48, 0x89, 0xF6],
                REGISTER::RSP => vec![0x48, 0x89, 0xE6],
                _ => vec![0x00],
            },
            REGISTER::RDI => match source {
                REGISTER::RAX => vec![0x48, 0x89, 0xC7],
                REGISTER::RBP => vec![0x48, 0x89, 0xEF],
                REGISTER::RBX => vec![0x48, 0x89, 0xDF],
                REGISTER::RCX => vec![0x48, 0x89, 0xCF],
                REGISTER::RDI => vec![0x48, 0x89, 0xFF],
                REGISTER::RDX => vec![0x48, 0x89, 0xD7],
                REGISTER::RSI => vec![0x48, 0x89, 0xF7],
                REGISTER::RSP => vec![0x48, 0x89, 0xE7],
                _ => vec![0x00],
            },
            REGISTER::RBP => match source {
                REGISTER::RAX => vec![0x48, 0x89, 0xC5],
                REGISTER::RBP => vec![0x48, 0x89, 0xED],
                REGISTER::RBX => vec![0x48, 0x89, 0xDD],
                REGISTER::RCX => vec![0x48, 0x89, 0xCD],
                REGISTER::RDI => vec![0x48, 0x89, 0xFD],
                REGISTER::RDX => vec![0x48, 0x89, 0xD5],
                REGISTER::RSI => vec![0x48, 0x89, 0xF5],
                REGISTER::RSP => vec![0x48, 0x89, 0xE5],
                _ => vec![0x00],
            },
            REGISTER::RSP => match source {
                REGISTER::RAX => vec![0x48, 0x89, 0xC4],
                REGISTER::RBP => vec![0x48, 0x89, 0xEC],
                REGISTER::RBX => vec![0x48, 0x89, 0xDC],
                REGISTER::RCX => vec![0x48, 0x89, 0xCC],
                REGISTER::RDI => vec![0x48, 0x89, 0xFC],
                REGISTER::RDX => vec![0x48, 0x89, 0xD4],
                REGISTER::RSI => vec![0x48, 0x89, 0xF4],
                REGISTER::RSP => vec![0x48, 0x89, 0xE4],
                _ => vec![0x00],
            },
            _ => vec![0x00],
        }
    }

    fn to_memory(adress: u64, target: REGISTER) -> (r: Vec<u8>) {
        match target {
            REGISTER::EAX => {
                let (x1, x2, x3, x4) = to_bytes_32(adress as u32);
                vec![0xA3, x1, x2, x3, x4]
            },
            REGISTER::EBX => {
                let (x1, x2, x3, x4) = to_bytes_32(adress as u32);
                vec![0x89, 0x1D, x1, x2, x3, x4]
            },
            REGISTER::ECX => {
                let (x1, x2, x3, x4) = to_bytes_32(adress as u32);
                vec![0x89, 0x0D, x1, x2, x3, x4]
            },
            REGISTER::EDX => {
                let (x1, x2, x3, x4) = to_bytes_32(adress as u32);
                vec![0x89, 0x15, x1, x2, x3, x4]
            },
            REGISTER::AX => {
                let (x1, x2) = to_bytes_16(adress as u16);
                vec![0x66, 0xa3, x1, x2]
            },
            REGISTER::BX => {
                let (x1, x2) = to_bytes_16(adress as u16);
                vec![0x66, 0x89, 0x1D, x1, x2]
            },
            REGISTER::CX => {
                let (x1, x2) = to_bytes_16(adress as u16);
                vec![0x66, 0x89, 0x0D, x1, x2]
            },
            REGISTER::DX => {
                let (x1, x2) = to_bytes_16(adress as u16);
                vec![0x66, 0x89, 0x15, x1, x2]
            },
            REGISTER::AH => vec![0x88, 0x25, adress as u8],
            REGISTER::AL => vec![0xa2, adress as u8],
            REGISTER::BH => vec![0x88, 0x3d, adress as u8],
            REGISTER::BL => vec![0x88, 0x1D, adress as u8],
            REGISTER::CH => vec![0x88, 0x2D, adress as u8],
            REGISTER::CL => vec![0x88, 0x0D, adress as u8],
            REGISTER::DH => vec![0x88, 0x35, adress as u8],
            REGISTER::DL => vec![0x88, 0x15, adress as u8],
            _ => vec![0x00],
        }
    }

    fn from_memory(adress: u32, target: REGISTER) -> (r: Vec<u8>) {
        match target {
            REGISTER::EAX => {
                let (x1, x2, x3, x4) = to_bytes_32(adress);
                vec![0xa1, x1, x2, x3, x4]
            },
            REGISTER::EBX => {
                let (x1, x2, x3, x4) = to_bytes_32(adress);
                vec![0x8b, 0x1D, x1, x2, x3, x4]
            },
            REGISTER::ECX => {
                let (x1, x2, x3, x4) = to_bytes_32(adress);
                vec![0x8B, 0x0D, x1, x2, x3, x4]
            },
            REGISTER::EDX => {
                let (x1, x2, x3, x4) = to_bytes_32(adress);
                vec![0x8B, 0x15, x1, x2, x3, x4]
            },
            REGISTER::AX => {
                let (x1, x2, x3, x4) = to_bytes_32(adress);
                vec![0x66, 0xa1, x1, x2, x3, x4]
            },
            REGISTER::BX => {
                let (x1, x2, x3, x4) = to_bytes_32(adress);
                vec![0x66, 0x8b, 0x1D, x1, x2, x3, x4]
            },
            REGISTER::CX => {
                let (x1, x2, x3, x4) = to_bytes_32(adress);
                vec![0x66, 0x8B, 0x0D, x1, x2, x3, x4]
            },
            REGISTER::DX => {
                let (x1, x2, x3, x4) = to_bytes_32(adress);
                vec![0x66, 0x8b, 0x15, x1, x2, x3, x4]
            },
            REGISTER::AH => {
                let (x1, x2, x3, x4) = to_bytes_32(adress);
                vec![0x8a, 0x25, x1, x2, x3, x4]
            },
            REGISTER::AL => {
                let (x1, x2, x3, x4) = to_bytes_32(adress);
                vec![0xa0, x1, x2, x3, x4]
            },
            REGISTER::BH => {
                let (x1, x2, x3, x4) = to_bytes_32(adress);
                vec![0x8a, 0x3d, x1, x2, x3, x4]
            },
            REGISTER::BL => {
                let (x1, x2, x3, x4) = to_bytes_32(adress);
                vec![0x8A, 0x1D, x1, x2, x3, x4]
            },
            REGISTER::CH => {
                let (x1, x2, x3, x4) = to_bytes_32(adress);
                vec![0x8a, 0x2D, x1, x2, x3, x4]
            },
            REGISTER::CL => {
                let (x1, x2, x3, x4) = to_bytes_32(adress);
                vec![0x8a, 0x0D, x1, x2, x3, x4]
            },
            REGISTER::DH => {
                let (x1, x2, x3, x4) = to_bytes_32(adress);
                vec![0x8a, 0x35, x1, x2, x3, x4]
            },
            REGISTER::DL => {
                let (x1, x2, x3, x4) = to_bytes_32(adress);
                vec![0x8a, 0x15, x1, x2, x3, x4]
            },
            _ => vec![0x00],
        }
    }

    fn push(reg: REGISTER) -> (r: Vec<u8>) {
        match reg {
            REGISTER::AX => vec![0x66, 0x50],
            REGISTER::CX => vec![0x66, 0x51],
            REGISTER::DX => vec![0x66, 0x52],
            REGISTER::BX => vec![0x66, 0x53],
            REGISTER::RAX => vec![0x50],
            REGISTER::RBX => vec![0x53],
            REGISTER::RCX => vec![0x51],
            REGISTER::RDX => vec![0x52],
            REGISTER::RSI => vec![0x56],
            REGISTER::RDI => vec![0x57],
            REGISTER::RBP => vec![0x55],
            REGISTER::RSP => vec![0x54],
            _ => vec![0x00],
        }
    }

    fn pop(reg: REGISTER) -> (r: Vec<u8>) {
        match reg {
            REGISTER::AX => vec![0x66, 0x58],
            REGISTER::CX => vec![0x66, 0x59],
            REGISTER::DX => vec![0x66, 0x5a],
            REGISTER::BX => vec![0x66, 0x5b],
            REGISTER::RAX => vec![0x58],
            REGISTER::RBX => vec![0x5b],
            REGISTER::RCX => vec![0x59],
            REGISTER::RDX => vec![0x5a],
            REGISTER::RSI => vec![0x5e],
            REGISTER::RDI => vec![0x5f],
            REGISTER::RBP => vec![0x5d],
            REGISTER::RSP => vec![0x5c],
            _ => vec![0x00],
        }
    }

    fn jmp(adress: u32) -> (r: Vec<u8>) {
        let (x1, x2, x3, x4) = to_bytes_32(adress);
        vec![0xe9, x1, x2, x3, x4]
    }

    fn call(adress: u32) -> (r: Vec<u8>) {
        let (x1, x2, x3, x4) = to_bytes_32(adress);
        vec![0xe8, x1, x2, x3, x4]
    }

    fn adc_reg(dest: REGISTER, src: REGISTER) -> (r: Vec<u8>) {
        match dest {
            REGISTER::RAX => match src {
                REGISTER::RAX => vec![0x48, 0x11, 0xC0],
                REGISTER::RBX => vec![0x48, 0x11, 0xD8],
                REGISTER::RCX => vec![0x48, 0x11, 0xC8],
                REGISTER::RDX => vec![0x48, 0x11, 0xD0],
                REGISTER::RBP => vec![0x48, 0x11, 0xE8],
                REGISTER::RSI => vec![0x48, 0x11, 0xF0],
                REGISTER::RDI => vec![0x48, 0x11, 0xF8],
                REGISTER::RSP => vec![0x48, 0x11, 0xE0],
                _ => vec![0x00],
            },
            REGISTER::RBX => match src {
                REGISTER::RAX => vec![0x48, 0x11, 0xC3],
                REGISTER::RBX => vec![0x48, 0x11, 0xDB],
                REGISTER::RCX => vec![0x48, 0x11, 0xCB],
                REGISTER::RDX => vec![0x48, 0x11, 0xD3],
                REGISTER::RBP => vec![0x48, 0x11, 0xEB],
                REGISTER::RSI => vec![0x48, 0x11, 0xF3],
                REGISTER::RDI => vec![0x48, 0x11, 0xFB],
                REGISTER::RSP => vec![0x48, 0x11, 0xE3],
                _ => vec![0x00],
            },
            REGISTER::RCX => match src {
                REGISTER::RAX => vec![0x48, 0x11, 0xC1],
                REGISTER::RBX => vec![0x48, 0x11, 0xD9],
                REGISTER::RCX => vec![0x48, 0x11, 0xC9],
                REGISTER::RDX => vec![0x48, 0x11, 0xD1],
                REGISTER::RBP => vec![0x48, 0x11, 0xE9],
                REGISTER::RSI => vec![0x48, 0x11, 0xF1],
                REGISTER::RDI => vec![0x48, 0x11, 0xF9],
                REGISTER::RSP => vec![0x48, 0x11, 0xE1],
                _ => vec![0x00],
            },
            REGISTER::RDX => match src {
                REGISTER::RAX => vec![0x48, 0x11, 0xC2],
                REGISTER::RBX => vec![0x48, 0x11, 0xDA],
                REGISTER::RCX => vec![0x48, 0x11, 0xCA],
                REGISTER::RDX => vec![0x48, 0x11, 0xD2],
                REGISTER::RBP => vec![0x48, 0x11, 0xEA],
                REGISTER::RSI => vec![0x48, 0x11, 0xF2],
                REGISTER::RDI => vec![0x48, 0x11, 0xFA],
                REGISTER::RSP => vec![0x48, 0x11, 0xE2],
                _ => vec![0x00],
            },
            REGISTER::RSI => match src {
                REGISTER::RAX => vec![0x48, 0x11, 0xC6],
                REGISTER::RBX => vec![0x48, 0x11, 0xDE],
                REGISTER::RCX => vec![0x48, 0x11, 0xCE],
                REGISTER::RDX => vec![0x48, 0x11, 0xD6],
                REGISTER::RBP => vec![0x48, 0x11, 0xEE],
                REGISTER::RSI => vec![0x48, 0x11, 0xF6],
                REGISTER::RDI => vec![0x48, 0x11, 0xFE],
                REGISTER::RSP => vec![0x48, 0x11, 0xE6],
                _ => vec![0x00],
            },
            REGISTER::RDI => match src {
                REGISTER::RAX => vec![0x48, 0x11, 0xC7],
                REGISTER::RBX => vec![0x48, 0x11, 0xDF],
                REGISTER::RCX => vec![0x48, 0x11, 0xCF],
                REGISTER::RDX => vec![0x48, 0x11, 0xD7],
                REGISTER::RBP => vec![0x48, 0x11, 0xEF],
                REGISTER::RSI => vec![0x48, 0x11, 0xF7],
                REGISTER::RDI => vec![0x48, 0x11, 0xFF],
                REGISTER::RSP => vec![0x48, 0x11, 0xE7],
                _ => vec![0x00],
            },
            REGISTER::RBP => match src {
                REGISTER::RAX => vec![0x48, 0x11, 0xC5],
                REGISTER::RBX => vec![0x48, 0x11, 0xDD],
                REGISTER::RCX => vec![0x48, 0x11, 0xCD],
                REGISTER::RDX => vec![0x48, 0x11, 0xD5],
                REGISTER::RBP => vec![0x48, 0x11, 0xED],
                REGISTER::RSI => vec![0x48, 0x11, 0xF5],
                REGISTER::RDI => vec![0x48, 0x11, 0xFD],
                REGISTER::RSP => vec![0x48, 0x11, 0xE5],
                _ => vec![0x00],
            },
            REGISTER::RSP => match src {
                REGISTER::RAX => vec![0x48, 0x11, 0xC4],
                REGISTER::RBX => vec![0x48, 0x11, 0xDC],
                REGISTER::RCX => vec![0x48, 0x11, 0xCC],
                REGISTER::RDX => vec![0x48, 0x11, 0xD4],
                REGISTER::RBP => vec![0x48, 0x11, 0xEC],
                REGISTER::RSI => vec![0x48, 0x11, 0xF4],
                REGISTER::RDI => vec![0x48, 0x11, 0xFC],
                REGISTER::RSP => vec![0x48, 0x11, 0xE4],
                _ => vec![0x00],
            },
            REGISTER::EAX => match src {
                REGISTER::EAX => vec![0x11, 0xC0],
                REGISTER::EBX => vec![0x11, 0xD8],
                REGISTER::ECX => vec![0x11, 0xC8],
                REGISTER::EDX => vec![0x11, 0xD0],
                _ => vec![0x00],
            },
            REGISTER::EBX => match src {
                REGISTER::EAX => vec![0x11, 0xC3],
                REGISTER::EBX => vec![0x11, 0xDB],
                REGISTER::ECX => vec![0x11, 0xCB],
                REGISTER::EDX => vec![0x11, 0xD3],
                _ => vec![0x00],
            },
            REGISTER::ECX => match src {
                REGISTER::EAX => vec![0x11, 0xC1],
                REGISTER::EBX => vec![0x11, 0xD9],
                REGISTER::ECX => vec![0x11, 0xC9],
                REGISTER::EDX => vec![0x11, 0xD1],
                _ => vec![0x00],
            },
            REGISTER::EDX => match src {
                REGISTER::EAX => vec![0x11, 0xC2],
                REGISTER::EBX => vec![0x11, 0xDA],
                REGISTER::ECX => vec![0x11, 0xCA],
                REGISTER::EDX => vec![0x11, 0xD2],
                _ => vec![0x00],
            },
            REGISTER::AX => match src {
                REGISTER::AX => vec![0x66, 0x11, 0xC0],
                REGISTER::BX => vec![0x66, 0x11, 0xD8],
                REGISTER::CX => vec![0x66, 0x11, 0xC8],
                REGISTER::DX => vec![0x66, 0x11, 0xD0],
                _ => vec![0x00],
            },
            REGISTER::BX => match src {
                REGISTER::AX => vec![0x66, 0x11, 0xC3],
                REGISTER::BX => vec![0x66, 0x11, 0xDB],
                REGISTER::CX => vec![0x66, 0x11, 0xCB],
                REGISTER::DX => vec![0x66, 0x11, 0xD3],
                _ => vec![0x00],
            },
            REGISTER::CX => match src {
                REGISTER::AX => vec![0x66, 0x11, 0xC1],
                REGISTER::BX => vec![0x66, 0x11, 0xD9],
                REGISTER::CX => vec![0x66, 0x11, 0xC9],
                REGISTER::DX => vec![0x66, 0x11, 0xD1],
                _ => vec![0x00],
            },
            REGISTER::DX => match src {
                REGISTER::AX => vec![0x66, 0x11, 0xC2],
                REGISTER::BX => vec![0x66, 0x11, 0xDA],
                REGISTER::CX => vec![0x66, 0x11, 0xCA],
                REGISTER::DX => vec![0x66, 0x11, 0xD2],
                _ => vec![0x00],
            },
            REGISTER::AH => match src {
                REGISTER::AH => vec![0x10, 0xE4],
                REGISTER::AL => vec![0x10, 0xC4],
                REGISTER::BH => vec![0x10, 0xFC],
                REGISTER::BL => vec![0x10, 0xDC],
                REGISTER::CH => vec![0x10, 0xEC],
                REGISTER::CL => vec![0x10, 0xCC],
                REGISTER::DH => vec![0x10, 0xF4],
                REGISTER::DL => vec![0x10, 0xD4],
                _ => vec![0x00],
            },
            REGISTER::AL => match src {
                REGISTER::AH => vec![0x10, 0xE0],
                REGISTER::AL => vec![0x10, 0xC0],
                REGISTER::BH => vec![0x10, 0xF8],
                REGISTER::BL => vec![0x10, 0xD8],
                REGISTER::CH => vec![0x10, 0xE8],
                REGISTER::CL => vec![0x10, 0xC8],
                REGISTER::DH => vec![0x10, 0xF0],
                REGISTER::DL => vec![0x10, 0xD0],
                _ => vec![0x00],
            },
            REGISTER::BH => match src {
                REGISTER::AH => vec![0x10, 0xE7],
                REGISTER::AL => vec![0x10, 0xC7],
                REGISTER::BH => vec![0x10, 0xFF],
                REGISTER::BL => vec![0x10, 0xDF],
                REGISTER::CH => vec![0x10, 0xEF],
                REGISTER::CL => vec![0x10, 0xCF],
                REGISTER::DH => vec![0x10, 0xF7],
                REGISTER::DL => vec![0x10, 0xD7],
                _ => vec![0x00],
            },
            REGISTER::BL => match src {
                REGISTER::AH => vec![0x10, 0xE3],
                REGISTER::AL => vec![0x10, 0xC3],
                REGISTER::BH => vec![0x10, 0xFB],
                REGISTER::BL => vec![0x10, 0xDB],
                REGISTER::CH => vec![0x10, 0xEB],
                REGISTER::CL => vec![0x10, 0xCB],
                REGISTER::DH => vec![0x10, 0xF3],
                REGISTER::DL => vec![0x10, 0xD3],
                _ => vec![0x00],
            },
            REGISTER::CH => match src {
                REGISTER::AH => vec![0x10, 0xE5],
                REGISTER::AL => vec![0x10, 0xC5],
                REGISTER::BH => vec![0x10, 0xFD],
                REGISTER::BL => vec![0x10, 0xDD],
                REGISTER::CH => vec![0x10, 0xED],
                REGISTER::CL => vec![0x10, 0xCD],
                REGISTER::DH => vec![0x10, 0xF5],
                REGISTER::DL => vec![0x10, 0xD5],
                _ => vec![0x00],
            },
            REGISTER::CL => match src {
                REGISTER::AH => vec![0x10, 0xE1],
                REGISTER::AL => vec![0x10, 0xC1],
                REGISTER::BH => vec![0x10, 0xF9],
                REGISTER::BL => vec![0x10, 0xD9],
                REGISTER::CH => vec![0x10, 0xE9],
                REGISTER::CL => vec![0x10, 0xC9],
                REGISTER::DH => vec![0x10, 0xF1],
                REGISTER::DL => vec![0x10, 0xD1],
                _ => vec![0x00],
            },
            REGISTER::DH => match src {
                REGISTER::AH => vec![0x10, 0xE6],
                REGISTER::AL => vec![0x10, 0xC6],
                REGISTER::BH => vec![0x10, 0xFE],
                REGISTER::BL => vec![0x10, 0xDE],
                REGISTER::CH => vec![0x10, 0xEE],
                REGISTER::CL => vec![0x10, 0xCE],
                REGISTER::DH => vec![0x10, 0xF6],
                REGISTER::DL => vec![0x10, 0xD6],
                _ => vec![0x00],
            },
            REGISTER::DL => match src {
                REGISTER::AH => vec![0x10, 0xE2],
                REGISTER::AL => vec![0x10, 0xC2],
                REGISTER::BH => vec![0x10, 0xFA],
                REGISTER::BL => vec![0x10, 0xDA],
                REGISTER::CH => vec![0x10, 0xEA],
                REGISTER::CL => vec![0x10, 0xCA],
                REGISTER::DH => vec![0x10, 0xF2],
                REGISTER::DL => vec![0x10, 0xD2],
                _ => vec![0x00],
            },
            _ => vec![0x00],
        }
    }

    fn call_reg(target: REGISTER) -> (r: Vec<u8>) {
        match target {
            REGISTER::RAX => vec![0xFF, 0xD0],
            REGISTER::RBX => vec![0xFF, 0xD3],
            REGISTER::RCX => vec![0xFF, 0xD1],
            REGISTER::RDX => vec![0xFF, 0xD2],
            REGISTER::RSI => vec![0xFF, 0xD6],
            REGISTER::RDI => vec![0xFF, 0xD7],
            REGISTER::RBP => vec![0xFF, 0xD5],
            REGISTER::RSP => vec![0xFF, 0xD4],
            _ => vec![0x00],
        }
    }

    fn jmp_reg(target: REGISTER) -> (r: Vec<u8>) {
        match target {
            REGISTER::RAX => vec![0xFF, 0xE0],
            REGISTER::RBX => vec![0xFF, 0xE3],
            REGISTER::RCX => vec![0xFF, 0xE1],
            REGISTER::RDX => vec![0xFF, 0xE2],
            REGISTER::RSI => vec![0xFF, 0xE6],
            REGISTER::RDI => vec![0xFF, 0xE7],
            REGISTER::RBP => vec![0xFF, 0xE5],
            REGISTER::RSP => vec![0xFF, 0xE4],
            _ => vec![0x00],
        }
    }

    fn endbr64() -> (r: Vec<u8>) {
        vec![0xF3, 0x0F, 0x1E, 0xFA]
    }
}

} // verus!
