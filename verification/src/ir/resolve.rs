//! The resolver: turns an instruction stream into machine bytes, a relocation
//! list and the declarations of every symbol the stream references but the
//! module does not define.

use vstd::prelude::*;

use crate::ir::AsmInstructionEnum;
use crate::ir::encode::enc_add_ri;
use crate::ir::encode::enc_add_rm;
use crate::ir::encode::enc_add_rr;
use crate::ir::encode::enc_dec_mem;
use crate::ir::encode::enc_dec_reg;
use crate::ir::encode::enc_inc_mem;
use crate::ir::encode::enc_inc_reg;
use crate::ir::encode::enc_lea_label;
use crate::ir::encode::enc_load;
use crate::ir::encode::enc_mov_ri;
use crate::ir::encode::enc_mov_rr;
use crate::ir::encode::enc_mul_ri;
use crate::ir::encode::enc_mul_rm;
use crate::ir::encode::enc_mul_rr;
use crate::ir::encode::enc_pop_reg;
use crate::ir::encode::enc_push_imm;
use crate::ir::encode::enc_push_mem;
use crate::ir::encode::enc_push_reg;
use crate::ir::encode::enc_simple;
use crate::ir::encode::enc_store;
use crate::ir::encode::enc_sub_ri;
use crate::ir::encode::enc_sub_rm;
use crate::ir::encode::enc_sub_rr;
use crate::ir::encode::spec_add_ri_bytes;
use crate::ir::encode::spec_add_rm_bytes;
use crate::ir::encode::spec_add_rr_bytes;
use crate::ir::encode::spec_dec_mem_bytes;
use crate::ir::encode::spec_dec_reg_bytes;
use crate::ir::encode::spec_inc_mem_bytes;
use crate::ir::encode::spec_inc_reg_bytes;
use crate::ir::encode::spec_lea_label_bytes;
use crate::ir::encode::spec_load_bytes;
use crate::ir::encode::spec_mov_ri_bytes;
use crate::ir::encode::spec_mov_rr_bytes;
use crate::ir::encode::spec_mul_ri_bytes;
use crate::ir::encode::spec_mul_rm_bytes;
use crate::ir::encode::spec_mul_rr_bytes;
use crate::ir::encode::spec_pop_reg_bytes;
use crate::ir::encode::spec_push_imm_bytes;
use crate::ir::encode::spec_push_mem_bytes;
use crate::ir::encode::spec_push_reg_bytes;
use crate::ir::encode::spec_simple_bytes;
use crate::ir::encode::spec_store_bytes;
use crate::ir::encode::spec_sub_ri_bytes;
use crate::ir::encode::spec_sub_rm_bytes;
use crate::ir::encode::spec_sub_rr_bytes;
use crate::operand::Register;
use crate::operand::spec_reg_id;
use crate::operand::spec_reg_size;

verus! {

/// The visibility of a declared symbol.
#[derive(Clone, Copy, Debug, PartialEq, Eq, Structural)]
pub enum Scope {
    Import,
    Export,
    Private,
}

/// The declared kind and visibility of a symbol, handed to the object writer.
#[derive(Clone, Copy, Debug, PartialEq, Eq, Structural)]
pub enum Decl {
    Function(Scope),
    Data(Scope),
}

/// A relocation record: byte offset `at` inside the encoded body of function
/// `from` must later be patched to point at symbol `to`.
#[derive(Debug)]
pub struct Link {
    pub from: String,
    pub to: String,
    pub at: usize,
}

/// Whether the instruction references a symbol by name and therefore leaves a
/// relocation behind.
pub open spec fn spec_is_labeled(i: AsmInstructionEnum) -> bool {
    ||| i is Call
    ||| i is Jmp
    ||| i is MovPtr
    ||| i is PushLabel
    ||| i is PushPtr
}

/// The symbol name the instruction references.
pub open spec fn spec_target(i: AsmInstructionEnum) -> Seq<char> {
    match i {
        AsmInstructionEnum::Call(t) => t@,
        AsmInstructionEnum::Jmp(t) => t@,
        AsmInstructionEnum::MovPtr(_, t) => t@,
        AsmInstructionEnum::PushLabel(t) => t@,
        AsmInstructionEnum::PushPtr(t) => t@,
        _ => Seq::empty(),
    }
}

/// The byte distance from the instruction's start at which the object writer
/// patches the reference: one byte in for calls, jumps and pushes, two for
/// address loads, as the writer convention has it.
pub open spec fn spec_link_delta(i: AsmInstructionEnum) -> int {
    if i is MovPtr {
        2
    } else {
        1
    }
}

/// The declaration recorded for an unknown target: calls and jumps import a
/// function, label references import data.
pub open spec fn spec_decl_of(i: AsmInstructionEnum) -> Decl {
    match i {
        AsmInstructionEnum::Call(_) => Decl::Function(Scope::Import),
        AsmInstructionEnum::Jmp(_) => Decl::Function(Scope::Import),
        _ => Decl::Data(Scope::Import),
    }
}

/// Whether a name list holds the given name.
pub open spec fn spec_contains_name(v: Seq<String>, t: Seq<char>) -> bool {
    exists|k: int| 0 <= k < v.len() && v[k]@ == t
}

/// Whether the module itself defines the instruction's target, so that no
/// import is recorded: a target is local when it names one of the module's own
/// functions or one of its data labels.
pub open spec fn spec_locally_defined(
    i: AsmInstructionEnum,
    funcs: Seq<String>,
    labels: Seq<String>,
) -> bool {
    spec_is_labeled(i) && (spec_contains_name(funcs, spec_target(i)) || spec_contains_name(
        labels,
        spec_target(i),
    ))
}

/// The machine bytes one instruction encodes to.  The resolver selects the
/// operation and the operand width here; widths no form exists for fall back
/// to the single no-operation encoding rather than failing.
pub open spec fn spec_instr_bytes(i: AsmInstructionEnum) -> Seq<u8> {
    match i {
        AsmInstructionEnum::Ret => spec_simple_bytes(0),
        AsmInstructionEnum::Nop => spec_simple_bytes(1),
        AsmInstructionEnum::Endbr64 => spec_simple_bytes(3),
        AsmInstructionEnum::Push(reg) => {
            let w = spec_reg_size(reg);
            if w == 8 || w == 4 || w == 2 {
                spec_push_reg_bytes(w as int, spec_reg_id(reg) as int)
            } else {
                spec_simple_bytes(2)
            }
        },
        AsmInstructionEnum::Pop(reg) => {
            let w = spec_reg_size(reg);
            if w == 8 || w == 4 || w == 2 {
                spec_pop_reg_bytes(w as int, spec_reg_id(reg) as int)
            } else {
                spec_simple_bytes(2)
            }
        },
        AsmInstructionEnum::Call(_) => seq![0xE8u8, 0, 0, 0, 0],
        AsmInstructionEnum::Jmp(_) => seq![0xE9u8, 0, 0, 0, 0],
        AsmInstructionEnum::MovVal(reg, value) => {
            let w = spec_reg_size(reg);
            if w == 8 || w == 4 || w == 2 || w == 1 {
                spec_mov_ri_bytes(w as int, spec_reg_id(reg) as int, value as int)
            } else {
                spec_simple_bytes(2)
            }
        },
        AsmInstructionEnum::MovReg(dst, src) => {
            let w = spec_reg_size(dst);
            if spec_reg_size(src) == w && (w == 8 || w == 4 || w == 2 || w == 1) {
                spec_mov_rr_bytes(w as int, spec_reg_id(dst) as int, spec_reg_id(src) as int)
            } else {
                spec_simple_bytes(2)
            }
        },
        AsmInstructionEnum::MovPtr(reg, _) => {
            let w = spec_reg_size(reg);
            if w == 8 || w == 4 {
                spec_lea_label_bytes(w as int, spec_reg_id(reg) as int)
            } else {
                spec_simple_bytes(2)
            }
        },
        AsmInstructionEnum::Load(reg, m) => {
            let w = spec_reg_size(reg);
            if w == 8 || w == 4 || w == 2 || w == 1 {
                spec_load_bytes(
                    w as int,
                    spec_reg_id(reg) as int,
                    spec_reg_id(m.base) as int,
                    spec_reg_id(m.index) as int,
                    m.scale as int,
                    m.displacement as int,
                    m.displ_size as int,
                    m.rip_relative,
                )
            } else {
                spec_simple_bytes(2)
            }
        },
        AsmInstructionEnum::Store(reg, m) => {
            let w = spec_reg_size(reg);
            if w == 8 || w == 4 || w == 2 || w == 1 {
                spec_store_bytes(
                    w as int,
                    spec_reg_id(m.base) as int,
                    spec_reg_id(m.index) as int,
                    m.scale as int,
                    m.displacement as int,
                    m.displ_size as int,
                    m.rip_relative,
                    spec_reg_id(reg) as int,
                )
            } else {
                spec_simple_bytes(2)
            }
        },
        AsmInstructionEnum::Inc(reg) => {
            let w = spec_reg_size(reg);
            if w == 8 || w == 4 || w == 2 || w == 1 {
                spec_inc_reg_bytes(w as int, spec_reg_id(reg) as int)
            } else {
                spec_simple_bytes(2)
            }
        },
        AsmInstructionEnum::Dec(reg) => {
            let w = spec_reg_size(reg);
            if w == 8 || w == 4 || w == 2 || w == 1 {
                spec_dec_reg_bytes(w as int, spec_reg_id(reg) as int)
            } else {
                spec_simple_bytes(2)
            }
        },
        AsmInstructionEnum::IncMem(m) => {
            if m.scale == 8 || m.scale == 4 || m.scale == 2 || m.scale == 1 {
                spec_inc_mem_bytes(
                    m.scale as int,
                    spec_reg_id(m.base) as int,
                    spec_reg_id(m.index) as int,
                    m.scale as int,
                    m.displacement as int,
                    m.displ_size as int,
                    m.rip_relative,
                )
            } else {
                spec_simple_bytes(2)
            }
        },
        AsmInstructionEnum::DecMem(m) => {
            if m.scale == 8 || m.scale == 4 || m.scale == 2 || m.scale == 1 {
                spec_dec_mem_bytes(
                    m.scale as int,
                    spec_reg_id(m.base) as int,
                    spec_reg_id(m.index) as int,
                    m.scale as int,
                    m.displacement as int,
                    m.displ_size as int,
                    m.rip_relative,
                )
            } else {
                spec_simple_bytes(2)
            }
        },
        AsmInstructionEnum::AddVal(reg, value) => {
            let w = spec_reg_size(reg);
            if w == 8 || w == 4 || w == 2 || w == 1 {
                spec_add_ri_bytes(w as int, spec_reg_id(reg) as int, value as int)
            } else {
                spec_simple_bytes(2)
            }
        },
        AsmInstructionEnum::AddReg(dst, src) => {
            let w = spec_reg_size(dst);
            if spec_reg_size(src) == w && (w == 8 || w == 4 || w == 2 || w == 1) {
                spec_add_rr_bytes(w as int, spec_reg_id(dst) as int, spec_reg_id(src) as int)
            } else {
                spec_simple_bytes(2)
            }
        },
        AsmInstructionEnum::AddMem(reg, m) => {
            let w = spec_reg_size(reg);
            if w == 8 || w == 4 || w == 2 || w == 1 {
                spec_add_rm_bytes(
                    w as int,
                    spec_reg_id(reg) as int,
                    spec_reg_id(m.base) as int,
                    spec_reg_id(m.index) as int,
                    m.scale as int,
                    m.displacement as int,
                    m.displ_size as int,
                    m.rip_relative,
                )
            } else {
                spec_simple_bytes(2)
            }
        },
        AsmInstructionEnum::SubVal(reg, value) => {
            let w = spec_reg_size(reg);
            if w == 8 || w == 4 || w == 2 || w == 1 {
                spec_sub_ri_bytes(w as int, spec_reg_id(reg) as int, value as int)
            } else {
                spec_simple_bytes(2)
            }
        },
        AsmInstructionEnum::SubReg(dst, src) => {
            let w = spec_reg_size(dst);
            if spec_reg_size(src) == w && (w == 8 || w == 4 || w == 2 || w == 1) {
                spec_sub_rr_bytes(w as int, spec_reg_id(dst) as int, spec_reg_id(src) as int)
            } else {
                spec_simple_bytes(2)
            }
        },
        AsmInstructionEnum::SubMem(reg, m) => {
            let w = spec_reg_size(reg);
            if w == 8 || w == 4 || w == 2 || w == 1 {
                spec_sub_rm_bytes(
                    w as int,
                    spec_reg_id(reg) as int,
                    spec_reg_id(m.base) as int,
                    spec_reg_id(m.index) as int,
                    m.scale as int,
                    m.displacement as int,
                    m.displ_size as int,
                    m.rip_relative,
                )
            } else {
                spec_simple_bytes(2)
            }
        },
        AsmInstructionEnum::MulVal(reg, value) => {
            let w = spec_reg_size(reg);
            if w == 8 || w == 4 || w == 2 {
                spec_mul_ri_bytes(w as int, spec_reg_id(reg) as int, value as int)
            } else {
                spec_simple_bytes(2)
            }
        },
        AsmInstructionEnum::MulReg(dst, src) => {
            let w = spec_reg_size(dst);
            if spec_reg_size(src) == w && (w == 8 || w == 4 || w == 2) {
                spec_mul_rr_bytes(w as int, spec_reg_id(dst) as int, spec_reg_id(src) as int)
            } else {
                spec_simple_bytes(2)
            }
        },
        AsmInstructionEnum::MulMem(reg, m) => {
            let w = spec_reg_size(reg);
            if w == 8 || w == 4 || w == 2 {
                spec_mul_rm_bytes(
                    w as int,
                    spec_reg_id(reg) as int,
                    spec_reg_id(m.base) as int,
                    spec_reg_id(m.index) as int,
                    m.scale as int,
                    m.displacement as int,
                    m.displ_size as int,
                    m.rip_relative,
                )
            } else {
                spec_simple_bytes(2)
            }
        },
        AsmInstructionEnum::DivVal(_, _) => spec_simple_bytes(2),
        AsmInstructionEnum::DivReg(_, _) => spec_simple_bytes(2),
        AsmInstructionEnum::DivMem(_, _) => spec_simple_bytes(2),
        AsmInstructionEnum::PushVal(value) => {
            if value <= i32::MAX as i64 {
                spec_push_imm_bytes(0, value as i32 as int)
            } else {
                spec_push_imm_bytes(0, (value & 0xFFFFFFFF) as i32 as int) + spec_push_imm_bytes(
                    0,
                    (value >> 32) as i32 as int,
                )
            }
        },
        AsmInstructionEnum::PushLabel(_) => spec_push_mem_bytes(
            spec_reg_id(Register::NoReg) as int,
            spec_reg_id(Register::NoReg) as int,
            1,
            0,
            1,
            false,
        ),
        AsmInstructionEnum::PushPtr(_) => spec_push_imm_bytes(0, 0),
    }
}

/// The machine bytes of a whole stream: the concatenation of its instructions'
/// encodings, in order.
pub open spec fn spec_stream_bytes(s: Seq<AsmInstructionEnum>) -> Seq<u8>
    decreases s.len(),
{
    if s.len() == 0 {
        Seq::empty()
    } else {
        spec_stream_bytes(s.drop_last()) + spec_instr_bytes(s.last())
    }
}

/// Clamps an offset into the addressable range.
pub open spec fn spec_clamp_usize(x: int) -> int {
    if x <= usize::MAX as int {
        x
    } else {
        usize::MAX as int
    }
}

/// The relocations of a stream, in order: one per symbol referencing
/// instruction, as a pair of the target name and the patch offset, which sits
/// just past the opcode prefix of that instruction's encoding.
pub open spec fn spec_stream_links(s: Seq<AsmInstructionEnum>) -> Seq<(Seq<char>, int)>
    decreases s.len(),
{
    if s.len() == 0 {
        Seq::empty()
    } else {
        spec_stream_links(s.drop_last()) + if spec_is_labeled(s.last()) {
            seq![
                (
                    spec_target(s.last()),
                    spec_clamp_usize(
                        spec_stream_bytes(s.drop_last()).len() + spec_link_delta(s.last()),
                    ),
                ),
            ]
        } else {
            Seq::empty()
        }
    }
}

/// Whether the declaration list already carries the name.
pub open spec fn spec_decls_contain(d: Seq<(Seq<char>, Decl)>, t: Seq<char>) -> bool {
    exists|k: int| 0 <= k < d.len() && d[k].0 == t
}

/// The declarations of a stream: one import per symbol referencing instruction
/// whose target is neither already declared nor defined by the module itself.
pub open spec fn spec_stream_decls(
    s: Seq<AsmInstructionEnum>,
    funcs: Seq<String>,
    labels: Seq<String>,
) -> Seq<(Seq<char>, Decl)>
    decreases s.len(),
{
    if s.len() == 0 {
        Seq::empty()
    } else {
        let prev = spec_stream_decls(s.drop_last(), funcs, labels);
        prev + if spec_is_labeled(s.last()) && !spec_decls_contain(prev, spec_target(s.last()))
            && !spec_locally_defined(s.last(), funcs, labels) {
            seq![(spec_target(s.last()), spec_decl_of(s.last()))]
        } else {
            Seq::empty()
        }
    }
}

/// The pairs of target name and patch offset a relocation list denotes.
pub open spec fn spec_links_view(l: Seq<Link>) -> Seq<(Seq<char>, int)> {
    Seq::new(l.len(), |k: int| (l[k].to@, l[k].at as int))
}

/// The pairs of name and declaration a declaration list denotes.
pub open spec fn spec_decls_view(d: Seq<(String, Decl)>) -> Seq<(Seq<char>, Decl)> {
    Seq::new(d.len(), |k: int| (d[k].0@, d[k].1))
}

/// Returns whether the name list holds the given name.
fn contains_name(v: &Vec<String>, t: &String) -> (r: bool)
    ensures
        r == spec_contains_name(v@, t@),
{
    let mut k: usize = 0;
    while k < v.len()
        invariant
            k <= v.len(),
            forall|j: int| 0 <= j < k ==> v@[j]@ != t@,
        decreases v.len() - k,
    {
        if v[k].eq(t) {
            return true;
        }
        k += 1;
    }
    false
}

/// Returns whether the declaration list already carries the name.
fn decls_contain(d: &Vec<(String, Decl)>, t: &String) -> (r: bool)
    ensures
        r == spec_decls_contain(spec_decls_view(d@), t@),
{
    let mut k: usize = 0;
    while k < d.len()
        invariant
            k <= d.len(),
            forall|j: int| 0 <= j < k ==> d@[j].0@ != t@,
        decreases d.len() - k,
    {
        if d[k].0.eq(t) {
            proof {
                assert(spec_decls_view(d@)[k as int].0 == t@);
            }
            return true;
        }
        k += 1;
    }
    false
}

/// Clamped offset arithmetic for relocation positions.
fn offset_after(len: usize, delta: usize) -> (r: usize)
    ensures
        r as int == spec_clamp_usize(len + delta),
{
    if len <= usize::MAX - delta {
        len + delta
    } else {
        usize::MAX
    }
}

/// Encodes one instruction, selecting the operation and operand width.
fn encode_instr(i: &AsmInstructionEnum) -> (r: Vec<u8>)
    ensures
        r@ == spec_instr_bytes(*i),
{
    match i {
        AsmInstructionEnum::Ret => enc_simple(0),
        AsmInstructionEnum::Nop => enc_simple(1),
        AsmInstructionEnum::Endbr64 => enc_simple(3),
        AsmInstructionEnum::Push(reg) => {
            let w = reg.size();
            if w == 8 || w == 4 || w == 2 {
                enc_push_reg(w as u8, reg.id())
            } else {
                enc_simple(2)
            }
        },
        AsmInstructionEnum::Pop(reg) => {
            let w = reg.size();
            if w == 8 || w == 4 || w == 2 {
                enc_pop_reg(w as u8, reg.id())
            } else {
                enc_simple(2)
            }
        },
        AsmInstructionEnum::Call(_) => {
            let v = vec![0xE8u8, 0, 0, 0, 0];
            proof {
                assert(v@ =~= seq![0xE8u8, 0, 0, 0, 0]);
            }
            v
        },
        AsmInstructionEnum::Jmp(_) => {
            let v = vec![0xE9u8, 0, 0, 0, 0];
            proof {
                assert(v@ =~= seq![0xE9u8, 0, 0, 0, 0]);
            }
            v
        },
        AsmInstructionEnum::MovVal(reg, value) => {
            let w = reg.size();
            if w == 8 || w == 4 || w == 2 || w == 1 {
                enc_mov_ri(w as u8, reg.id(), *value)
            } else {
                enc_simple(2)
            }
        },
        AsmInstructionEnum::MovReg(dst, src) => {
            let w = dst.size();
            if src.size() == w && (w == 8 || w == 4 || w == 2 || w == 1) {
                enc_mov_rr(w as u8, dst.id(), src.id())
            } else {
                enc_simple(2)
            }
        },
        AsmInstructionEnum::MovPtr(reg, _) => {
            let w = reg.size();
            if w == 8 || w == 4 {
                enc_lea_label(w as u8, reg.id())
            } else {
                enc_simple(2)
            }
        },
        AsmInstructionEnum::Load(reg, m) => {
            let w = reg.size();
            if w == 8 || w == 4 || w == 2 || w == 1 {
                enc_load(
                    w as u8,
                    reg.id(),
                    m.base.id(),
                    m.index.id(),
                    m.scale,
                    m.displacement,
                    m.displ_size,
                    m.rip_relative,
                )
            } else {
                enc_simple(2)
            }
        },
        AsmInstructionEnum::Store(reg, m) => {
            let w = reg.size();
            if w == 8 || w == 4 || w == 2 || w == 1 {
                enc_store(
                    w as u8,
                    m.base.id(),
                    m.index.id(),
                    m.scale,
                    m.displacement,
                    m.displ_size,
                    m.rip_relative,
                    reg.id(),
                )
            } else {
                enc_simple(2)
            }
        },
        AsmInstructionEnum::Inc(reg) => {
            let w = reg.size();
            if w == 8 || w == 4 || w == 2 || w == 1 {
                enc_inc_reg(w as u8, reg.id())
            } else {
                enc_simple(2)
            }
        },
        AsmInstructionEnum::Dec(reg) => {
            let w = reg.size();
            if w == 8 || w == 4 || w == 2 || w == 1 {
                enc_dec_reg(w as u8, reg.id())
            } else {
                enc_simple(2)
            }
        },
        AsmInstructionEnum::IncMem(m) => {
            let w = m.scale;
            if w == 8 || w == 4 || w == 2 || w == 1 {
                enc_inc_mem(
                    w as u8,
                    m.base.id(),
                    m.index.id(),
                    m.scale,
                    m.displacement,
                    m.displ_size,
                    m.rip_relative,
                )
            } else {
                enc_simple(2)
            }
        },
        AsmInstructionEnum::DecMem(m) => {
            let w = m.scale;
            if w == 8 || w == 4 || w == 2 || w == 1 {
                enc_dec_mem(
                    w as u8,
                    m.base.id(),
                    m.index.id(),
                    m.scale,
                    m.displacement,
                    m.displ_size,
                    m.rip_relative,
                )
            } else {
                enc_simple(2)
            }
        },
        AsmInstructionEnum::AddVal(reg, value) => {
            let w = reg.size();
            if w == 8 || w == 4 || w == 2 || w == 1 {
                enc_add_ri(w as u8, reg.id(), *value)
            } else {
                enc_simple(2)
            }
        },
        AsmInstructionEnum::AddReg(dst, src) => {
            let w = dst.size();
            if src.size() == w && (w == 8 || w == 4 || w == 2 || w == 1) {
                enc_add_rr(w as u8, dst.id(), src.id())
            } else {
                enc_simple(2)
            }
        },
        AsmInstructionEnum::AddMem(reg, m) => {
            let w = reg.size();
            if w == 8 || w == 4 || w == 2 || w == 1 {
                enc_add_rm(
                    w as u8,
                    reg.id(),
                    m.base.id(),
                    m.index.id(),
                    m.scale,
                    m.displacement,
                    m.displ_size,
                    m.rip_relative,
                )
            } else {
                enc_simple(2)
            }
        },
        AsmInstructionEnum::SubVal(reg, value) => {
            let w = reg.size();
            if w == 8 || w == 4 || w == 2 || w == 1 {
                enc_sub_ri(w as u8, reg.id(), *value)
            } else {
                enc_simple(2)
            }
        },
        AsmInstructionEnum::SubReg(dst, src) => {
            let w = dst.size();
            if src.size() == w && (w == 8 || w == 4 || w == 2 || w == 1) {
                enc_sub_rr(w as u8, dst.id(), src.id())
            } else {
                enc_simple(2)
            }
        },
        AsmInstructionEnum::SubMem(reg, m) => {
            let w = reg.size();
            if w == 8 || w == 4 || w == 2 || w == 1 {
                enc_sub_rm(
                    w as u8,
                    reg.id(),
                    m.base.id(),
                    m.index.id(),
                    m.scale,
                    m.displacement,
                    m.displ_size,
                    m.rip_relative,
                )
            } else {
                enc_simple(2)
            }
        },
        AsmInstructionEnum::MulVal(reg, value) => {
            let w = reg.size();
            if w == 8 || w == 4 || w == 2 {
                enc_mul_ri(w as u8, reg.id(), *value)
            } else {
                enc_simple(2)
            }
        },
        AsmInstructionEnum::MulReg(dst, src) => {
            let w = dst.size();
            if src.size() == w && (w == 8 || w == 4 || w == 2) {
                enc_mul_rr(w as u8, dst.id(), src.id())
            } else {
                enc_simple(2)
            }
        },
        AsmInstructionEnum::MulMem(reg, m) => {
            let w = reg.size();
            if w == 8 || w == 4 || w == 2 {
                enc_mul_rm(
                    w as u8,
                    reg.id(),
                    m.base.id(),
                    m.index.id(),
                    m.scale,
                    m.displacement,
                    m.displ_size,
                    m.rip_relative,
                )
            } else {
                enc_simple(2)
            }
        },
        AsmInstructionEnum::DivVal(_, _) => enc_simple(2),
        AsmInstructionEnum::DivReg(_, _) => enc_simple(2),
        AsmInstructionEnum::DivMem(_, _) => enc_simple(2),
        AsmInstructionEnum::PushVal(value) => {
            let value = *value;
            if value <= i32::MAX as i64 {
                enc_push_imm(0, value as i32)
            } else {
                let mut low = enc_push_imm(0, (value & 0xFFFFFFFF) as i32);
                let mut high = enc_push_imm(0, (value >> 32) as i32);
                low.append(&mut high);
                low
            }
        },
        AsmInstructionEnum::PushLabel(_) => {
            let no = Register::NoReg;
            enc_push_mem(no.id(), no.id(), 1, 0, 1, false)
        },
        AsmInstructionEnum::PushPtr(_) => enc_push_imm(0, 0),
    }
}

/// Resolves a stream against the module's own function and label names:
/// returns the machine bytes, one relocation per symbol referencing
/// instruction, and an import declaration for every referenced symbol the
/// module does not define, each name declared once.
pub fn resolve(funcs: &Vec<String>, labels: &Vec<String>, code: &Vec<AsmInstructionEnum>) -> (r: (
    Vec<u8>,
    Vec<Link>,
    Vec<(String, Decl)>,
))
    ensures
        r.0@ == spec_stream_bytes(code@),
        spec_links_view(r.1@) == spec_stream_links(code@),
        forall|k: int| 0 <= k < r.1@.len() ==> r.1@[k].from@ == Seq::<char>::empty(),
        spec_decls_view(r.2@) == spec_stream_decls(code@, funcs@, labels@),
{
    let mut generated: Vec<u8> = Vec::new();
    let mut links: Vec<Link> = Vec::new();
    let mut decls: Vec<(String, Decl)> = Vec::new();
    let mut i: usize = 0;
    while i < code.len()
        invariant
            i <= code.len(),
            generated@ == spec_stream_bytes(code@.subrange(0, i as int)),
            spec_links_view(links@) == spec_stream_links(code@.subrange(0, i as int)),
            forall|k: int| 0 <= k < links@.len() ==> links@[k].from@ == Seq::<char>::empty(),
            spec_decls_view(decls@) == spec_stream_decls(
                code@.subrange(0, i as int),
                funcs@,
                labels@,
            ),
        decreases code.len() - i,
    {
        let ghost pre = code@.subrange(0, i as int);
        let ghost post = code@.subrange(0, i as int + 1);
        proof {
            assert(post.drop_last() =~= pre);
            assert(post.last() == code@[i as int]);
        }
        let instr = &code[i];
        // Import declaration for an unknown target, and the relocation record.
        let target_and_delta: Option<(&String, usize)> = match instr {
            AsmInstructionEnum::Call(t) => Some((t, 1)),
            AsmInstructionEnum::Jmp(t) => Some((t, 1)),
            AsmInstructionEnum::MovPtr(_, t) => Some((t, 2)),
            AsmInstructionEnum::PushLabel(t) => Some((t, 1)),
            AsmInstructionEnum::PushPtr(t) => Some((t, 1)),
            _ => None,
        };
        if let Some((target, delta)) = target_and_delta {
            let local = contains_name(funcs, target) || contains_name(labels, target);
            let kind = match instr {
                AsmInstructionEnum::Call(_) => Decl::Function(Scope::Import),
                AsmInstructionEnum::Jmp(_) => Decl::Function(Scope::Import),
                _ => Decl::Data(Scope::Import),
            };
            proof {
                assert(local == spec_locally_defined(code@[i as int], funcs@, labels@));
                assert(kind == spec_decl_of(code@[i as int]));
            }
            if !decls_contain(&decls, target) && !local {
                let ghost old_decls = decls@;
                decls.push((target.clone(), kind));
                proof {
                    assert(spec_decls_view(decls@) =~= spec_decls_view(old_decls) + seq![
                        (target@, kind),
                    ]);
                }
            }
            let ghost old_links = links@;
            let at = offset_after(generated.len(), delta);
            links.push(Link { from: String::new(), to: target.clone(), at });
            proof {
                assert(spec_links_view(links@) =~= spec_links_view(old_links) + seq![
                    (target@, at as int),
                ]);
            }
        }
        let mut bytes = encode_instr(instr);
        generated.append(&mut bytes);
        proof {
            assert(generated@ == spec_stream_bytes(post));
            assert(spec_links_view(links@) =~= spec_stream_links(post));
            assert(spec_decls_view(decls@) =~= spec_stream_decls(post, funcs@, labels@));
        }
        i += 1;
    }
    proof {
        assert(code@.subrange(0, code@.len() as int) =~= code@);
    }
    (generated, links, decls)
}

/// How many symbol referencing instructions a stream holds.
pub open spec fn spec_labeled_count(s: Seq<AsmInstructionEnum>) -> int
    decreases s.len(),
{
    if s.len() == 0 {
        0
    } else {
        spec_labeled_count(s.drop_last()) + if spec_is_labeled(s.last()) {
            1int
        } else {
            0int
        }
    }
}

/// A declaration list only ever grows, so a name it carries stays carried.
proof fn lemma_decls_contain_extend(d: Seq<(Seq<char>, Decl)>, x: Seq<(Seq<char>, Decl)>, t: Seq<char>)
    requires
        spec_decls_contain(d, t),
    ensures
        spec_decls_contain(d + x, t),
{
    let k = choose|k: int| 0 <= k < d.len() && d[k].0 == t;
    assert((d + x)[k].0 == t);
}

/// Relocation coverage, first half: a resolved stream carries exactly one
/// relocation per symbol referencing instruction, in instruction order.
pub proof fn lemma_relocation_count(s: Seq<AsmInstructionEnum>)
    ensures
        spec_stream_links(s).len() == spec_labeled_count(s),
    decreases s.len(),
{
    if s.len() > 0 {
        lemma_relocation_count(s.drop_last());
    }
}

/// Relocation coverage, second half: the resolver's declarations carry each
/// name at most once, and the target of every symbol referencing instruction
/// is either defined by the module itself or declared.
pub proof fn lemma_relocation_declared(
    s: Seq<AsmInstructionEnum>,
    funcs: Seq<String>,
    labels: Seq<String>,
)
    ensures
        forall|j1: int, j2: int|
            0 <= j1 < j2 < spec_stream_decls(s, funcs, labels).len() ==> spec_stream_decls(
                s,
                funcs,
                labels,
            )[j1].0 != spec_stream_decls(s, funcs, labels)[j2].0,
        forall|k: int|
            0 <= k < s.len() && spec_is_labeled(s[k]) ==> spec_locally_defined(s[k], funcs, labels)
                || spec_decls_contain(spec_stream_decls(s, funcs, labels), spec_target(s[k])),
    decreases s.len(),
{
    if s.len() > 0 {
        let dl = s.drop_last();
        let prev = spec_stream_decls(dl, funcs, labels);
        let d = spec_stream_decls(s, funcs, labels);
        lemma_relocation_declared(dl, funcs, labels);
        // Uniqueness: a new entry is only added when its name is absent.
        assert forall|j1: int, j2: int| 0 <= j1 < j2 < d.len() implies d[j1].0 != d[j2].0 by {
            if j2 < prev.len() {
                assert(d[j1] == prev[j1] && d[j2] == prev[j2]);
            } else if j2 == prev.len() && d.len() == prev.len() + 1 {
                assert(d[j1] == prev[j1]);
                assert(!spec_decls_contain(prev, d[j2].0));
            }
        }
        // Coverage: the earlier instructions stay covered, the last one is
        // covered by the lookup-or-insert step.
        assert forall|k: int|
            0 <= k < s.len() && spec_is_labeled(s[k]) && !spec_locally_defined(
                s[k],
                funcs,
                labels,
            ) implies spec_decls_contain(d, spec_target(s[k])) by {
            if k < s.len() - 1 {
                assert(s[k] == dl[k]);
                assert(spec_decls_contain(prev, spec_target(s[k])));
                lemma_decls_contain_extend(prev, d.subrange(prev.len() as int, d.len() as int), spec_target(s[k]));
                assert(prev + d.subrange(prev.len() as int, d.len() as int) =~= d);
            } else {
                let t = spec_target(s[k]);
                if spec_decls_contain(prev, t) {
                    lemma_decls_contain_extend(prev, d.subrange(prev.len() as int, d.len() as int), t);
                    assert(prev + d.subrange(prev.len() as int, d.len() as int) =~= d);
                } else {
                    assert(d[d.len() - 1].0 == t);
                }
            }
        }
    }
}

} // verus!
