//! Low level byte emission: the register name set shared by the hand written
//! opcode tables, little endian byte splitting, and a small stateful emitter.

use vstd::prelude::*;

verus! {

/// A named x86 register, 8 to 64 bits wide.
#[allow(non_camel_case_types)]
#[derive(Clone, Copy, Debug, PartialEq, Eq, Structural)]
pub enum REGISTER {
    // 64 bit
    RAX, RBX, RCX, RDX, RSI, RDI, RBP, RSP, RIP,
    // 32 bit
    EAX, EBX, ECX, EDX,
    // 16 bit
    AX, BX, CX, DX,
    // 8 bit
    AH, AL, BH, BL, CH, CL, DH, DL,
}

/// The little endian bytes of a 16-bit value, least significant first.
pub open spec fn spec_le_16(value: u16) -> Seq<u8> {
    seq![(value & 0xff) as u8, ((value >> 8) & 0xff) as u8]
}

/// The little endian bytes of a 32-bit value, least significant first.
pub open spec fn spec_le_32(value: u32) -> Seq<u8> {
    seq![
        (value & 0xff) as u8,
        ((value >> 8) & 0xff) as u8,
        ((value >> 16) & 0xff) as u8,
        ((value >> 24) & 0xff) as u8,
    ]
}

/// The little endian bytes of a 64-bit value, least significant first.
pub open spec fn spec_le_64(value: u64) -> Seq<u8> {
    seq![
        (value & 0xff) as u8,
        ((value >> 8) & 0xff) as u8,
        ((value >> 16) & 0xff) as u8,
        ((value >> 24) & 0xff) as u8,
        ((value >> 32) & 0xff) as u8,
        ((value >> 40) & 0xff) as u8,
        ((value >> 48) & 0xff) as u8,
        ((value >> 56) & 0xff) as u8,
    ]
}

/// Splits a 16-bit value into its two bytes, least significant first.
pub fn to_bytes_16(value: u16) -> (r: (u8, u8))
    ensures
        r.0 == spec_le_16(value)[0],
        r.1 == spec_le_16(value)[1],
{
    ((value & 0xff) as u8, ((value >> 8) & 0xff) as u8)
}

/// Splits a 32-bit value into its four bytes, least significant first.
pub fn to_bytes_32(value: u32) -> (r: (u8, u8, u8, u8))
    ensures
        r.0 == spec_le_32(value)[0],
        r.1 == spec_le_32(value)[1],
        r.2 == spec_le_32(value)[2],
        r.3 == spec_le_32(value)[3],
{
    (
        (value & 0xff) as u8,
        ((value >> 8) & 0xff) as u8,
        ((value >> 16) & 0xff) as u8,
        ((value >> 24) & 0xff) as u8,
    )
}

/// Splits a 64-bit value into its eight bytes, least significant first.
pub fn to_bytes_64(value: u64) -> (r: (u8, u8, u8, u8, u8, u8, u8, u8))
    ensures
        r.0 == spec_le_64(value)[0],
        r.1 == spec_le_64(value)[1],
        r.2 == spec_le_64(value)[2],
        r.3 == spec_le_64(value)[3],
        r.4 == spec_le_64(value)[4],
        r.5 == spec_le_64(value)[5],
        r.6 == spec_le_64(value)[6],
        r.7 == spec_le_64(value)[7],
{
    (
        (value & 0xff) as u8,
        ((value >> 8) & 0xff) as u8,
        ((value >> 16) & 0xff) as u8,
        ((value >> 24) & 0xff) as u8,
        ((value >> 32) & 0xff) as u8,
        ((value >> 40) & 0xff) as u8,
        ((value >> 48) & 0xff) as u8,
        ((value >> 56) & 0xff) as u8,
    )
}

/// A stateful emitter: each call replaces `generated` with the bytes of the
/// requested operation.
pub struct ASMCall {
    pub generated: Vec<u8>,
}

/// The bytes that `ASMCall::mov_32` stores: a 32-bit move immediate, for the
/// four classic doubleword registers.
pub open spec fn spec_emitter_mov_32(register: REGISTER, value: u32, prev: Seq<u8>) -> Seq<u8> {
    match register {
        REGISTER::EAX => seq![0xb8u8] + spec_le_32(value),
        REGISTER::EBX => seq![0xbbu8] + spec_le_32(value),
        REGISTER::ECX => seq![0xb9u8] + spec_le_32(value),
        REGISTER::EDX => seq![0xbau8] + spec_le_32(value),
        _ => prev,
    }
}

/// The bytes that `ASMCall::mov_16` stores: a 16-bit move immediate, for the
/// three classic word registers it supports.
pub open spec fn spec_emitter_mov_16(register: REGISTER, value: u16, prev: Seq<u8>) -> Seq<u8> {
    match register {
        REGISTER::AX => seq![0x66u8, 0xb8] + spec_le_16(value),
        REGISTER::BX => seq![0x66u8, 0xbb] + spec_le_16(value),
        REGISTER::DX => seq![0x66u8, 0xba] + spec_le_16(value),
        _ => prev,
    }
}

/// The bytes that `ASMCall::mov_8` stores: an 8-bit move immediate.
pub open spec fn spec_emitter_mov_8(register: REGISTER, value: u8, prev: Seq<u8>) -> Seq<u8> {
    match register {
        REGISTER::AH => seq![0xb4u8, value],
        REGISTER::AL => seq![0xb0u8, value],
        REGISTER::BH => seq![0xb7u8, value],
        REGISTER::BL => seq![0xb3u8, value],
        REGISTER::CH => seq![0xb5u8, value],
        REGISTER::CL => seq![0xb1u8, value],
        REGISTER::DH => seq![0xb6u8, value],
        REGISTER::DL => seq![0xb2u8, value],
        _ => prev,
    }
}

impl ASMCall {
    /// Creates an emitter with no generated bytes.
    pub fn new() -> (r: Self)
        ensures
            r.generated@ =~= Seq::<u8>::empty(),
    {
        Self { generated: Vec::new() }
    }

    /// Emits a 32-bit move immediate; unknown registers leave the buffer unchanged.
    pub fn mov_32(&mut self, register: REGISTER, value: u32)
        ensures
            final(self).generated@ =~= spec_emitter_mov_32(register, value, old(self).generated@),
    {
        match register {
            REGISTER::EAX => {
                let (x1, x2, x3, x4) = to_bytes_32(value);
                self.generated = vec![0xb8, x1, x2, x3, x4];
            },
            REGISTER::EBX => {
                let (x1, x2, x3, x4) = to_bytes_32(value);
                self.generated = vec![0xbb, x1, x2, x3, x4];
            },
            REGISTER::ECX => {
                let (x1, x2, x3, x4) = to_bytes_32(value);
                self.generated = vec![0xb9, x1, x2, x3, x4];
            },
            REGISTER::EDX => {
                let (x1, x2, x3, x4) = to_bytes_32(value);
                self.generated = vec![0xba, x1, x2, x3, x4];
            },
            _ => {},
        }
    }

    /// Emits a 16-bit move immediate; unknown registers leave the buffer unchanged.
    pub fn mov_16(&mut self, register: REGISTER, value: u16)
        ensures
            final(self).generated@ =~= spec_emitter_mov_16(register, value, old(self).generated@),
    {
        match register {
            REGISTER::AX => {
                let (x1, x2) = to_bytes_16(value);
                self.generated = vec![0x66, 0xb8, x1, x2];
            },
            REGISTER::BX => {
                let (x1, x2) = to_bytes_16(value);
                self.generated = vec![0x66, 0xbb, x1, x2];
            },
            REGISTER::DX => {
                let (x1, x2) = to_bytes_16(value);
                self.generated = vec![0x66, 0xba, x1, x2];
            },
            _ => {},
        }
    }

    /// Emits an 8-bit move immediate; unknown registers leave the buffer unchanged.
    pub fn mov_8(&mut self, register: REGISTER, value: u8)
        ensures
            final(self).generated@ =~= spec_emitter_mov_8(register, value, old(self).generated@),
    {
        match register {
            REGISTER::AH => self.generated = vec![0xb4, value],
            REGISTER::AL => self.generated = vec![0xb0, value],
            REGISTER::BH => self.generated = vec![0xb7, value],
            REGISTER::BL => self.generated = vec![0xb3, value],
            REGISTER::CH => self.generated = vec![0xb5, value],
            REGISTER::CL => self.generated = vec![0xb1, value],
            REGISTER::DH => self.generated = vec![0xb6, value],
            REGISTER::DL => self.generated = vec![0xb2, value],
            _ => {},
        }
    }

    /// Emits a register-to-register move.  Every register pair maps to the
    /// same two byte placeholder encoding.
    pub fn mov_reg(&mut self, from: REGISTER, to: REGISTER)
        ensures
            final(self).generated@ =~= seq![0x00u8, 0x00u8],
    {
        let _ = from;
        let _ = to;
        self.generated = vec![0x00, 0x00];
    }
}

} // verus!
