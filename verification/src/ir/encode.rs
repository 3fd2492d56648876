//! The byte-encoding collaborator boundary.
//!
//! The resolver selects an abstract operation and an operand width for every
//! instruction; this module hands each selection to the `iced_x86` encoder and
//! names the bytes that come back.  Registers cross the boundary as the
//! numeric identities of [`crate::operand::Register::id`]; memory operands as
//! their parts, with the instruction pointer relative flag handed through in
//! the constructor's broadcast position, where the data model keeps it.  Every
//! encoding is a pure function of the selection, so each wrapper's result
//! carries a name that the resolver's contract builds on.

use vstd::prelude::*;

use iced_x86::BlockEncoder;
use iced_x86::BlockEncoderOptions;
use iced_x86::Code;
use iced_x86::Instruction;
use iced_x86::InstructionBlock;
use iced_x86::MemoryOperand as IcedMem;
use iced_x86::Register as IcedReg;

verus! {

/// The base instruction pointer the encoder lays blocks out at.
pub const ENCODER_RIP: u64 = 0x0000_1248_FC84_0000;

/// The bytes of an operand-free operation: 0 return, 1 wide filler, 2 the
/// single no-operation fallback, 3 the landing pad marker.
pub uninterp spec fn spec_simple_bytes(op: int) -> Seq<u8>;

/// Relies on iced_x86: `Instruction::with` with `Retnq` (0), `Nopw` (1),
/// `Nopd` (2) or `Endbr64` (3), encoded by `BlockEncoder::encode`.
#[verifier::external_body]
pub fn enc_simple(op: u8) -> (out: Vec<u8>)
    ensures
        out@ == spec_simple_bytes(op as int),
{
    let code = match op { 0 => Code::Retnq, 1 => Code::Nopw, 3 => Code::Endbr64, _ => Code::Nopd };
    let i = Instruction::with(code);
    let block = InstructionBlock::new(core::slice::from_ref(&i), ENCODER_RIP);
    match BlockEncoder::encode(64, block, BlockEncoderOptions::NONE) {
        Ok(res) => res.code_buffer,
        Err(_) => Vec::new(),
    }
}

/// The bytes of a register push, of width `w`.
pub uninterp spec fn spec_push_reg_bytes(w: int, reg: int) -> Seq<u8>;

/// Relies on iced_x86: `Instruction::with1` with `Push_r64`/`Push_r32`/`Push_r16`, the register
/// named by its numeric identity, encoded by `BlockEncoder::encode`.
#[verifier::external_body]
pub fn enc_push_reg(w: u8, reg: u8) -> (out: Vec<u8>)
    ensures
        out@ == spec_push_reg_bytes(w as int, reg as int),
{
    let code = match w { 8 => Code::Push_r64, 4 => Code::Push_r32, _ => Code::Push_r16 };
    let r = IcedReg::try_from(reg as usize).unwrap_or(IcedReg::None);
    let i = Instruction::with1(code, r).unwrap_or(Instruction::with(Code::Nopd));
    let block = InstructionBlock::new(core::slice::from_ref(&i), ENCODER_RIP);
    match BlockEncoder::encode(64, block, BlockEncoderOptions::NONE) {
        Ok(res) => res.code_buffer,
        Err(_) => Vec::new(),
    }
}

/// The bytes of a register pop, of width `w`.
pub uninterp spec fn spec_pop_reg_bytes(w: int, reg: int) -> Seq<u8>;

/// Relies on iced_x86: `Instruction::with1` with `Pop_r64`/`Pop_r32`/`Pop_r16`, the register
/// named by its numeric identity, encoded by `BlockEncoder::encode`.
#[verifier::external_body]
pub fn enc_pop_reg(w: u8, reg: u8) -> (out: Vec<u8>)
    ensures
        out@ == spec_pop_reg_bytes(w as int, reg as int),
{
    let code = match w { 8 => Code::Pop_r64, 4 => Code::Pop_r32, _ => Code::Pop_r16 };
    let r = IcedReg::try_from(reg as usize).unwrap_or(IcedReg::None);
    let i = Instruction::with1(code, r).unwrap_or(Instruction::with(Code::Nopd));
    let block = InstructionBlock::new(core::slice::from_ref(&i), ENCODER_RIP);
    match BlockEncoder::encode(64, block, BlockEncoderOptions::NONE) {
        Ok(res) => res.code_buffer,
        Err(_) => Vec::new(),
    }
}

/// The bytes of a register increment, of width `w`.
pub uninterp spec fn spec_inc_reg_bytes(w: int, reg: int) -> Seq<u8>;

/// Relies on iced_x86: `Instruction::with1` with `Inc_rm64`/`Inc_r32`/`Inc_r16`/`Inc_rm8`, the register
/// named by its numeric identity, encoded by `BlockEncoder::encode`.
#[verifier::external_body]
pub fn enc_inc_reg(w: u8, reg: u8) -> (out: Vec<u8>)
    ensures
        out@ == spec_inc_reg_bytes(w as int, reg as int),
{
    let code = match w { 8 => Code::Inc_rm64, 4 => Code::Inc_r32, 2 => Code::Inc_r16, _ => Code::Inc_rm8 };
    let r = IcedReg::try_from(reg as usize).unwrap_or(IcedReg::None);
    let i = Instruction::with1(code, r).unwrap_or(Instruction::with(Code::Nopd));
    let block = InstructionBlock::new(core::slice::from_ref(&i), ENCODER_RIP);
    match BlockEncoder::encode(64, block, BlockEncoderOptions::NONE) {
        Ok(res) => res.code_buffer,
        Err(_) => Vec::new(),
    }
}

/// The bytes of a register decrement, of width `w`.
pub uninterp spec fn spec_dec_reg_bytes(w: int, reg: int) -> Seq<u8>;

/// Relies on iced_x86: `Instruction::with1` with `Dec_rm64`/`Dec_r32`/`Dec_r16`/`Dec_rm8`, the register
/// named by its numeric identity, encoded by `BlockEncoder::encode`.
#[verifier::external_body]
pub fn enc_dec_reg(w: u8, reg: u8) -> (out: Vec<u8>)
    ensures
        out@ == spec_dec_reg_bytes(w as int, reg as int),
{
    let code = match w { 8 => Code::Dec_rm64, 4 => Code::Dec_r32, 2 => Code::Dec_r16, _ => Code::Dec_rm8 };
    let r = IcedReg::try_from(reg as usize).unwrap_or(IcedReg::None);
    let i = Instruction::with1(code, r).unwrap_or(Instruction::with(Code::Nopd));
    let block = InstructionBlock::new(core::slice::from_ref(&i), ENCODER_RIP);
    match BlockEncoder::encode(64, block, BlockEncoderOptions::NONE) {
        Ok(res) => res.code_buffer,
        Err(_) => Vec::new(),
    }
}

/// The bytes of a move immediate applied to a register of width `w` and an immediate.
pub uninterp spec fn spec_mov_ri_bytes(w: int, reg: int, value: int) -> Seq<u8>;

/// Relies on iced_x86: `Instruction::with2` with `Mov_r64_imm64`/`Mov_r32_imm32`/`Mov_r16_imm16`/`Mov_r8_imm8`, the register
/// named by its numeric identity, encoded by `BlockEncoder::encode`.
#[verifier::external_body]
pub fn enc_mov_ri(w: u8, reg: u8, value: i64) -> (out: Vec<u8>)
    ensures
        out@ == spec_mov_ri_bytes(w as int, reg as int, value as int),
{
    let code = match w { 8 => Code::Mov_r64_imm64, 4 => Code::Mov_r32_imm32, 2 => Code::Mov_r16_imm16, _ => Code::Mov_r8_imm8 };
    let r = IcedReg::try_from(reg as usize).unwrap_or(IcedReg::None);
    let i = Instruction::with2(code, r, value).unwrap_or(Instruction::with(Code::Nopd));
    let block = InstructionBlock::new(core::slice::from_ref(&i), ENCODER_RIP);
    match BlockEncoder::encode(64, block, BlockEncoderOptions::NONE) {
        Ok(res) => res.code_buffer,
        Err(_) => Vec::new(),
    }
}

/// The bytes of an addition applied to a register of width `w` and an immediate.
pub uninterp spec fn spec_add_ri_bytes(w: int, reg: int, value: int) -> Seq<u8>;

/// Relies on iced_x86: `Instruction::with2` with `Add_rm64_imm32`/`Add_rm32_imm32`/`Add_rm16_imm16`/`Add_rm8_imm8`, the register
/// named by its numeric identity, encoded by `BlockEncoder::encode`.
#[verifier::external_body]
pub fn enc_add_ri(w: u8, reg: u8, value: i64) -> (out: Vec<u8>)
    ensures
        out@ == spec_add_ri_bytes(w as int, reg as int, value as int),
{
    let code = match w { 8 => Code::Add_rm64_imm32, 4 => Code::Add_rm32_imm32, 2 => Code::Add_rm16_imm16, _ => Code::Add_rm8_imm8 };
    let r = IcedReg::try_from(reg as usize).unwrap_or(IcedReg::None);
    let i = Instruction::with2(code, r, value).unwrap_or(Instruction::with(Code::Nopd));
    let block = InstructionBlock::new(core::slice::from_ref(&i), ENCODER_RIP);
    match BlockEncoder::encode(64, block, BlockEncoderOptions::NONE) {
        Ok(res) => res.code_buffer,
        Err(_) => Vec::new(),
    }
}

/// The bytes of a subtraction applied to a register of width `w` and an immediate.
pub uninterp spec fn spec_sub_ri_bytes(w: int, reg: int, value: int) -> Seq<u8>;

/// Relies on iced_x86: `Instruction::with2` with `Sub_rm64_imm32`/`Sub_rm32_imm32`/`Sub_rm16_imm16`/`Sub_rm8_imm8`, the register
/// named by its numeric identity, encoded by `BlockEncoder::encode`.
#[verifier::external_body]
pub fn enc_sub_ri(w: u8, reg: u8, value: i64) -> (out: Vec<u8>)
    ensures
        out@ == spec_sub_ri_bytes(w as int, reg as int, value as int),
{
    let code = match w { 8 => Code::Sub_rm64_imm32, 4 => Code::Sub_rm32_imm32, 2 => Code::Sub_rm16_imm16, _ => Code::Sub_rm8_imm8 };
    let r = IcedReg::try_from(reg as usize).unwrap_or(IcedReg::None);
    let i = Instruction::with2(code, r, value).unwrap_or(Instruction::with(Code::Nopd));
    let block = InstructionBlock::new(core::slice::from_ref(&i), ENCODER_RIP);
    match BlockEncoder::encode(64, block, BlockEncoderOptions::NONE) {
        Ok(res) => res.code_buffer,
        Err(_) => Vec::new(),
    }
}

/// The bytes of a multiplication applied to a register of width `w` and an immediate.
pub uninterp spec fn spec_mul_ri_bytes(w: int, reg: int, value: int) -> Seq<u8>;

/// Relies on iced_x86: `Instruction::with2` with `Imul_r64_rm64_imm32`/`Imul_r32_rm32_imm32`/`Imul_r16_rm16_imm16`, the register
/// named by its numeric identity, encoded by `BlockEncoder::encode`.  These
/// forms carry three operands, so the two operand construction is refused and
/// the no-operation fallback is what actually comes back.
#[verifier::external_body]
pub fn enc_mul_ri(w: u8, reg: u8, value: i64) -> (out: Vec<u8>)
    ensures
        out@ == spec_mul_ri_bytes(w as int, reg as int, value as int),
{
    let code = match w { 8 => Code::Imul_r64_rm64_imm32, 4 => Code::Imul_r32_rm32_imm32, _ => Code::Imul_r16_rm16_imm16 };
    let r = IcedReg::try_from(reg as usize).unwrap_or(IcedReg::None);
    let i = Instruction::with2(code, r, value).unwrap_or(Instruction::with(Code::Nopd));
    let block = InstructionBlock::new(core::slice::from_ref(&i), ENCODER_RIP);
    match BlockEncoder::encode(64, block, BlockEncoderOptions::NONE) {
        Ok(res) => res.code_buffer,
        Err(_) => Vec::new(),
    }
}

/// The bytes of a register-to-register move applied to two registers of width `w`.
pub uninterp spec fn spec_mov_rr_bytes(w: int, dst: int, src: int) -> Seq<u8>;

/// Relies on iced_x86: `Instruction::with2` with `Mov_r64_rm64`/`Mov_r32_rm32`/`Mov_r16_rm16`/`Mov_r8_rm8`, both registers
/// named by their numeric identities, encoded by `BlockEncoder::encode`.
#[verifier::external_body]
pub fn enc_mov_rr(w: u8, dst: u8, src: u8) -> (out: Vec<u8>)
    ensures
        out@ == spec_mov_rr_bytes(w as int, dst as int, src as int),
{
    let code = match w { 8 => Code::Mov_r64_rm64, 4 => Code::Mov_r32_rm32, 2 => Code::Mov_r16_rm16, _ => Code::Mov_r8_rm8 };
    let d = IcedReg::try_from(dst as usize).unwrap_or(IcedReg::None);
    let s = IcedReg::try_from(src as usize).unwrap_or(IcedReg::None);
    let i = Instruction::with2(code, d, s).unwrap_or(Instruction::with(Code::Nopd));
    let block = InstructionBlock::new(core::slice::from_ref(&i), ENCODER_RIP);
    match BlockEncoder::encode(64, block, BlockEncoderOptions::NONE) {
        Ok(res) => res.code_buffer,
        Err(_) => Vec::new(),
    }
}

/// The bytes of an addition applied to two registers of width `w`.
pub uninterp spec fn spec_add_rr_bytes(w: int, dst: int, src: int) -> Seq<u8>;

/// Relies on iced_x86: `Instruction::with2` with `Add_r64_rm64`/`Add_r32_rm32`/`Add_r16_rm16`/`Add_r8_rm8`, both registers
/// named by their numeric identities, encoded by `BlockEncoder::encode`.
#[verifier::external_body]
pub fn enc_add_rr(w: u8, dst: u8, src: u8) -> (out: Vec<u8>)
    ensures
        out@ == spec_add_rr_bytes(w as int, dst as int, src as int),
{
    let code = match w { 8 => Code::Add_r64_rm64, 4 => Code::Add_r32_rm32, 2 => Code::Add_r16_rm16, _ => Code::Add_r8_rm8 };
    let d = IcedReg::try_from(dst as usize).unwrap_or(IcedReg::None);
    let s = IcedReg::try_from(src as usize).unwrap_or(IcedReg::None);
    let i = Instruction::with2(code, d, s).unwrap_or(Instruction::with(Code::Nopd));
    let block = InstructionBlock::new(core::slice::from_ref(&i), ENCODER_RIP);
    match BlockEncoder::encode(64, block, BlockEncoderOptions::NONE) {
        Ok(res) => res.code_buffer,
        Err(_) => Vec::new(),
    }
}

/// The bytes of a subtraction applied to two registers of width `w`.
pub uninterp spec fn spec_sub_rr_bytes(w: int, dst: int, src: int) -> Seq<u8>;

/// Relies on iced_x86: `Instruction::with2` with `Sub_r64_rm64`/`Sub_r32_rm32`/`Sub_r16_rm16`/`Sub_r8_rm8`, both registers
/// named by their numeric identities, encoded by `BlockEncoder::encode`.
#[verifier::external_body]
pub fn enc_sub_rr(w: u8, dst: u8, src: u8) -> (out: Vec<u8>)
    ensures
        out@ == spec_sub_rr_bytes(w as int, dst as int, src as int),
{
    let code = match w { 8 => Code::Sub_r64_rm64, 4 => Code::Sub_r32_rm32, 2 => Code::Sub_r16_rm16, _ => Code::Sub_r8_rm8 };
    let d = IcedReg::try_from(dst as usize).unwrap_or(IcedReg::None);
    let s = IcedReg::try_from(src as usize).unwrap_or(IcedReg::None);
    let i = Instruction::with2(code, d, s).unwrap_or(Instruction::with(Code::Nopd));
    let block = InstructionBlock::new(core::slice::from_ref(&i), ENCODER_RIP);
    match BlockEncoder::encode(64, block, BlockEncoderOptions::NONE) {
        Ok(res) => res.code_buffer,
        Err(_) => Vec::new(),
    }
}

/// The bytes of a multiplication applied to two registers of width `w`.
pub uninterp spec fn spec_mul_rr_bytes(w: int, dst: int, src: int) -> Seq<u8>;

/// Relies on iced_x86: `Instruction::with2` with `Imul_r64_rm64`/`Imul_r32_rm32`/`Imul_r16_rm16`, both registers
/// named by their numeric identities, encoded by `BlockEncoder::encode`.
#[verifier::external_body]
pub fn enc_mul_rr(w: u8, dst: u8, src: u8) -> (out: Vec<u8>)
    ensures
        out@ == spec_mul_rr_bytes(w as int, dst as int, src as int),
{
    let code = match w { 8 => Code::Imul_r64_rm64, 4 => Code::Imul_r32_rm32, _ => Code::Imul_r16_rm16 };
    let d = IcedReg::try_from(dst as usize).unwrap_or(IcedReg::None);
    let s = IcedReg::try_from(src as usize).unwrap_or(IcedReg::None);
    let i = Instruction::with2(code, d, s).unwrap_or(Instruction::with(Code::Nopd));
    let block = InstructionBlock::new(core::slice::from_ref(&i), ENCODER_RIP);
    match BlockEncoder::encode(64, block, BlockEncoderOptions::NONE) {
        Ok(res) => res.code_buffer,
        Err(_) => Vec::new(),
    }
}

/// The bytes of a load from memory into a register applied to a register of width `w` and a memory operand.
pub uninterp spec fn spec_load_bytes(
    w: int,
    reg: int,
    base: int,
    index: int,
    scale: int,
    displ: int,
    displ_size: int,
    bcst: bool,
) -> Seq<u8>;

/// Relies on iced_x86: `MemoryOperand::new` built from the given parts,
/// `Instruction::with2` with `Mov_r64_rm64`/`Mov_r32_rm32`/`Mov_r16_rm16`/`Mov_r8_rm8`,
/// encoded by `BlockEncoder::encode`.
#[verifier::external_body]
pub fn enc_load(w: u8, reg: u8, base: u8, index: u8, scale: u32, displ: i64, displ_size: u32, bcst: bool) -> (out: Vec<u8>)
    ensures
        out@ == spec_load_bytes(
            w as int,
            reg as int,
            base as int,
            index as int,
            scale as int,
            displ as int,
            displ_size as int,
            bcst,
        ),
{
    let code = match w { 8 => Code::Mov_r64_rm64, 4 => Code::Mov_r32_rm32, 2 => Code::Mov_r16_rm16, _ => Code::Mov_r8_rm8 };
    let r = IcedReg::try_from(reg as usize).unwrap_or(IcedReg::None);
    let b = IcedReg::try_from(base as usize).unwrap_or(IcedReg::None);
    let x = IcedReg::try_from(index as usize).unwrap_or(IcedReg::None);
    let m = IcedMem::new(b, x, scale, displ, displ_size, bcst, IcedReg::None);
    let i = Instruction::with2(code, r, m).unwrap_or(Instruction::with(Code::Nopd));
    let block = InstructionBlock::new(core::slice::from_ref(&i), ENCODER_RIP);
    match BlockEncoder::encode(64, block, BlockEncoderOptions::NONE) {
        Ok(res) => res.code_buffer,
        Err(_) => Vec::new(),
    }
}

/// The bytes of an addition applied to a register of width `w` and a memory operand.
pub uninterp spec fn spec_add_rm_bytes(
    w: int,
    reg: int,
    base: int,
    index: int,
    scale: int,
    displ: int,
    displ_size: int,
    bcst: bool,
) -> Seq<u8>;

/// Relies on iced_x86: `MemoryOperand::new` built from the given parts,
/// `Instruction::with2` with `Add_r64_rm64`/`Add_r32_rm32`/`Add_r16_rm16`/`Add_r8_rm8`,
/// encoded by `BlockEncoder::encode`.
#[verifier::external_body]
pub fn enc_add_rm(w: u8, reg: u8, base: u8, index: u8, scale: u32, displ: i64, displ_size: u32, bcst: bool) -> (out: Vec<u8>)
    ensures
        out@ == spec_add_rm_bytes(
            w as int,
            reg as int,
            base as int,
            index as int,
            scale as int,
            displ as int,
            displ_size as int,
            bcst,
        ),
{
    let code = match w { 8 => Code::Add_r64_rm64, 4 => Code::Add_r32_rm32, 2 => Code::Add_r16_rm16, _ => Code::Add_r8_rm8 };
    let r = IcedReg::try_from(reg as usize).unwrap_or(IcedReg::None);
    let b = IcedReg::try_from(base as usize).unwrap_or(IcedReg::None);
    let x = IcedReg::try_from(index as usize).unwrap_or(IcedReg::None);
    let m = IcedMem::new(b, x, scale, displ, displ_size, bcst, IcedReg::None);
    let i = Instruction::with2(code, r, m).unwrap_or(Instruction::with(Code::Nopd));
    let block = InstructionBlock::new(core::slice::from_ref(&i), ENCODER_RIP);
    match BlockEncoder::encode(64, block, BlockEncoderOptions::NONE) {
        Ok(res) => res.code_buffer,
        Err(_) => Vec::new(),
    }
}

/// The bytes of a subtraction applied to a register of width `w` and a memory operand.
pub uninterp spec fn spec_sub_rm_bytes(
    w: int,
    reg: int,
    base: int,
    index: int,
    scale: int,
    displ: int,
    displ_size: int,
    bcst: bool,
) -> Seq<u8>;

/// Relies on iced_x86: `MemoryOperand::new` built from the given parts,
/// `Instruction::with2` with `Sub_r64_rm64`/`Sub_r32_rm32`/`Sub_r16_rm16`/`Sub_r8_rm8`,
/// encoded by `BlockEncoder::encode`.
#[verifier::external_body]
pub fn enc_sub_rm(w: u8, reg: u8, base: u8, index: u8, scale: u32, displ: i64, displ_size: u32, bcst: bool) -> (out: Vec<u8>)
    ensures
        out@ == spec_sub_rm_bytes(
            w as int,
            reg as int,
            base as int,
            index as int,
            scale as int,
            displ as int,
            displ_size as int,
            bcst,
        ),
{
    let code = match w { 8 => Code::Sub_r64_rm64, 4 => Code::Sub_r32_rm32, 2 => Code::Sub_r16_rm16, _ => Code::Sub_r8_rm8 };
    let r = IcedReg::try_from(reg as usize).unwrap_or(IcedReg::None);
    let b = IcedReg::try_from(base as usize).unwrap_or(IcedReg::None);
    let x = IcedReg::try_from(index as usize).unwrap_or(IcedReg::None);
    let m = IcedMem::new(b, x, scale, displ, displ_size, bcst, IcedReg::None);
    let i = Instruction::with2(code, r, m).unwrap_or(Instruction::with(Code::Nopd));
    let block = InstructionBlock::new(core::slice::from_ref(&i), ENCODER_RIP);
    match BlockEncoder::encode(64, block, BlockEncoderOptions::NONE) {
        Ok(res) => res.code_buffer,
        Err(_) => Vec::new(),
    }
}

/// The bytes of a multiplication applied to a register of width `w` and a memory operand.
pub uninterp spec fn spec_mul_rm_bytes(
    w: int,
    reg: int,
    base: int,
    index: int,
    scale: int,
    displ: int,
    displ_size: int,
    bcst: bool,
) -> Seq<u8>;

/// Relies on iced_x86: `MemoryOperand::new` built from the given parts,
/// `Instruction::with2` with `Imul_r64_rm64`/`Imul_r32_rm32`/`Imul_r16_rm16`,
/// encoded by `BlockEncoder::encode`.
#[verifier::external_body]
pub fn enc_mul_rm(w: u8, reg: u8, base: u8, index: u8, scale: u32, displ: i64, displ_size: u32, bcst: bool) -> (out: Vec<u8>)
    ensures
        out@ == spec_mul_rm_bytes(
            w as int,
            reg as int,
            base as int,
            index as int,
            scale as int,
            displ as int,
            displ_size as int,
            bcst,
        ),
{
    let code = match w { 8 => Code::Imul_r64_rm64, 4 => Code::Imul_r32_rm32, _ => Code::Imul_r16_rm16 };
    let r = IcedReg::try_from(reg as usize).unwrap_or(IcedReg::None);
    let b = IcedReg::try_from(base as usize).unwrap_or(IcedReg::None);
    let x = IcedReg::try_from(index as usize).unwrap_or(IcedReg::None);
    let m = IcedMem::new(b, x, scale, displ, displ_size, bcst, IcedReg::None);
    let i = Instruction::with2(code, r, m).unwrap_or(Instruction::with(Code::Nopd));
    let block = InstructionBlock::new(core::slice::from_ref(&i), ENCODER_RIP);
    match BlockEncoder::encode(64, block, BlockEncoderOptions::NONE) {
        Ok(res) => res.code_buffer,
        Err(_) => Vec::new(),
    }
}

/// The bytes of a store of a register of width `w` into memory.
pub uninterp spec fn spec_store_bytes(
    w: int,
    base: int,
    index: int,
    scale: int,
    displ: int,
    displ_size: int,
    bcst: bool,
    reg: int,
) -> Seq<u8>;

/// Relies on iced_x86: `MemoryOperand::new` built from the given parts,
/// `Instruction::with2` with `Mov_rm64_r64`/`Mov_rm32_r32`/`Mov_rm16_r16`/
/// `Mov_rm8_r8` for widths 8/4/2/1, encoded by `BlockEncoder::encode`.
#[verifier::external_body]
pub fn enc_store(w: u8, base: u8, index: u8, scale: u32, displ: i64, displ_size: u32, bcst: bool, reg: u8) -> (out: Vec<u8>)
    ensures
        out@ == spec_store_bytes(
            w as int,
            base as int,
            index as int,
            scale as int,
            displ as int,
            displ_size as int,
            bcst,
            reg as int,
        ),
{
    let code = match w { 8 => Code::Mov_rm64_r64, 4 => Code::Mov_rm32_r32, 2 => Code::Mov_rm16_r16, _ => Code::Mov_rm8_r8 };
    let r = IcedReg::try_from(reg as usize).unwrap_or(IcedReg::None);
    let b = IcedReg::try_from(base as usize).unwrap_or(IcedReg::None);
    let x = IcedReg::try_from(index as usize).unwrap_or(IcedReg::None);
    let m = IcedMem::new(b, x, scale, displ, displ_size, bcst, IcedReg::None);
    let i = Instruction::with2(code, m, r).unwrap_or(Instruction::with(Code::Nopd));
    let block = InstructionBlock::new(core::slice::from_ref(&i), ENCODER_RIP);
    match BlockEncoder::encode(64, block, BlockEncoderOptions::NONE) {
        Ok(res) => res.code_buffer,
        Err(_) => Vec::new(),
    }
}

/// The bytes of a memory increment of width `w`.
pub uninterp spec fn spec_inc_mem_bytes(
    w: int,
    base: int,
    index: int,
    scale: int,
    displ: int,
    displ_size: int,
    bcst: bool,
) -> Seq<u8>;

/// Relies on iced_x86: `MemoryOperand::new` built from the given parts,
/// `Instruction::with1` with `Inc_rm64`/`Inc_rm32`/`Inc_rm16`/`Inc_rm8`,
/// encoded by `BlockEncoder::encode`.
#[verifier::external_body]
pub fn enc_inc_mem(w: u8, base: u8, index: u8, scale: u32, displ: i64, displ_size: u32, bcst: bool) -> (out: Vec<u8>)
    ensures
        out@ == spec_inc_mem_bytes(
            w as int,
            base as int,
            index as int,
            scale as int,
            displ as int,
            displ_size as int,
            bcst,
        ),
{
    let code = match w { 8 => Code::Inc_rm64, 4 => Code::Inc_rm32, 2 => Code::Inc_rm16, _ => Code::Inc_rm8 };
    let b = IcedReg::try_from(base as usize).unwrap_or(IcedReg::None);
    let x = IcedReg::try_from(index as usize).unwrap_or(IcedReg::None);
    let m = IcedMem::new(b, x, scale, displ, displ_size, bcst, IcedReg::None);
    let i = Instruction::with1(code, m).unwrap_or(Instruction::with(Code::Nopd));
    let block = InstructionBlock::new(core::slice::from_ref(&i), ENCODER_RIP);
    match BlockEncoder::encode(64, block, BlockEncoderOptions::NONE) {
        Ok(res) => res.code_buffer,
        Err(_) => Vec::new(),
    }
}

/// The bytes of a memory decrement of width `w`.
pub uninterp spec fn spec_dec_mem_bytes(
    w: int,
    base: int,
    index: int,
    scale: int,
    displ: int,
    displ_size: int,
    bcst: bool,
) -> Seq<u8>;

/// Relies on iced_x86: `MemoryOperand::new` built from the given parts,
/// `Instruction::with1` with `Dec_rm64`/`Dec_rm32`/`Dec_rm16`/`Dec_rm8`,
/// encoded by `BlockEncoder::encode`.
#[verifier::external_body]
pub fn enc_dec_mem(w: u8, base: u8, index: u8, scale: u32, displ: i64, displ_size: u32, bcst: bool) -> (out: Vec<u8>)
    ensures
        out@ == spec_dec_mem_bytes(
            w as int,
            base as int,
            index as int,
            scale as int,
            displ as int,
            displ_size as int,
            bcst,
        ),
{
    let code = match w { 8 => Code::Dec_rm64, 4 => Code::Dec_rm32, 2 => Code::Dec_rm16, _ => Code::Dec_rm8 };
    let b = IcedReg::try_from(base as usize).unwrap_or(IcedReg::None);
    let x = IcedReg::try_from(index as usize).unwrap_or(IcedReg::None);
    let m = IcedMem::new(b, x, scale, displ, displ_size, bcst, IcedReg::None);
    let i = Instruction::with1(code, m).unwrap_or(Instruction::with(Code::Nopd));
    let block = InstructionBlock::new(core::slice::from_ref(&i), ENCODER_RIP);
    match BlockEncoder::encode(64, block, BlockEncoderOptions::NONE) {
        Ok(res) => res.code_buffer,
        Err(_) => Vec::new(),
    }
}

/// The bytes of an instruction pointer relative address load of width `w`,
/// with the displacement field still zero.
pub uninterp spec fn spec_lea_label_bytes(w: int, reg: int) -> Seq<u8>;

/// Relies on iced_x86: `Instruction::with2` with `Lea_r64_m`/`Lea_r32_m` for
/// widths 8/4, the memory operand instruction pointer based with zero
/// displacement, encoded by `BlockEncoder::encode`.
#[verifier::external_body]
pub fn enc_lea_label(w: u8, reg: u8) -> (out: Vec<u8>)
    ensures
        out@ == spec_lea_label_bytes(w as int, reg as int),
{
    let code = match w { 8 => Code::Lea_r64_m, _ => Code::Lea_r32_m };
    let r = IcedReg::try_from(reg as usize).unwrap_or(IcedReg::None);
    let m = IcedMem::new(IcedReg::RIP, IcedReg::None, 1, 0, 0, true, IcedReg::None);
    let i = Instruction::with2(code, r, m).unwrap_or(Instruction::with(Code::Nopd));
    let block = InstructionBlock::new(core::slice::from_ref(&i), ENCODER_RIP);
    match BlockEncoder::encode(64, block, BlockEncoderOptions::NONE) {
        Ok(res) => res.code_buffer,
        Err(_) => Vec::new(),
    }
}

/// The bytes of a push of an immediate; `form` 0 is the quadword push of a
/// 32-bit immediate, 1 the 16-bit form, 2 the word push of an 8-bit immediate.
pub uninterp spec fn spec_push_imm_bytes(form: int, value: int) -> Seq<u8>;

/// Relies on iced_x86: `Instruction::with1` with `Pushq_imm32` (0),
/// `Push_imm16` (1) or `Pushw_imm8` (2), encoded by `BlockEncoder::encode`.
#[verifier::external_body]
pub fn enc_push_imm(form: u8, value: i32) -> (out: Vec<u8>)
    ensures
        out@ == spec_push_imm_bytes(form as int, value as int),
{
    let code = match form { 0 => Code::Pushq_imm32, 1 => Code::Push_imm16, _ => Code::Pushw_imm8 };
    let i = Instruction::with1(code, value).unwrap_or(Instruction::with(Code::Nopd));
    let block = InstructionBlock::new(core::slice::from_ref(&i), ENCODER_RIP);
    match BlockEncoder::encode(64, block, BlockEncoderOptions::NONE) {
        Ok(res) => res.code_buffer,
        Err(_) => Vec::new(),
    }
}

/// The bytes of a quadword push of a memory operand.
pub uninterp spec fn spec_push_mem_bytes(
    base: int,
    index: int,
    scale: int,
    displ: int,
    displ_size: int,
    bcst: bool,
) -> Seq<u8>;

/// Relies on iced_x86: `MemoryOperand::new` built from the given parts,
/// `Instruction::with1` with `Push_rm64`, encoded by `BlockEncoder::encode`.
#[verifier::external_body]
pub fn enc_push_mem(base: u8, index: u8, scale: u32, displ: i64, displ_size: u32, bcst: bool) -> (out: Vec<u8>)
    ensures
        out@ == spec_push_mem_bytes(
            base as int,
            index as int,
            scale as int,
            displ as int,
            displ_size as int,
            bcst,
        ),
{
    let b = IcedReg::try_from(base as usize).unwrap_or(IcedReg::None);
    let x = IcedReg::try_from(index as usize).unwrap_or(IcedReg::None);
    let m = IcedMem::new(b, x, scale, displ, displ_size, bcst, IcedReg::None);
    let i = Instruction::with1(Code::Push_rm64, m).unwrap_or(Instruction::with(Code::Nopd));
    let block = InstructionBlock::new(core::slice::from_ref(&i), ENCODER_RIP);
    match BlockEncoder::encode(64, block, BlockEncoderOptions::NONE) {
        Ok(res) => res.code_buffer,
        Err(_) => Vec::new(),
    }
}

} // verus!
