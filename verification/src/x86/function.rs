//! The direct function writer: emits machine bytes through the hand written
//! opcode tables, one instruction's bytes per entry.

use vstd::prelude::*;
use vstd::string::StringExecFns;

use crate::arch::AsmCall;
use crate::arch::I8086::I8086;
use crate::arch::I8086::spec_nop;
use crate::arch::I8086::spec_ret;
use crate::arch::I80386::I80386;
use crate::arch::I80386::spec_adc_32;
use crate::arch::I80386::spec_mov_32;
use crate::arch::shared::IShared;
use crate::arch::shared::spec_adc_reg;
use crate::arch::shared::spec_call;
use crate::arch::shared::spec_endbr64;
use crate::arch::shared::spec_mov_reg;
use crate::arch::shared::spec_pop;
use crate::arch::shared::spec_push;
use crate::arch::x64::X64;
use crate::arch::x64::spec_adc_64;
use crate::arch::x64::spec_mov_64;
use crate::arch::I8086::spec_adc_16;
use crate::arch::I8086::spec_mov_16;
use crate::arch::I8086::spec_adc_8;
use crate::arch::I8086::spec_mov_8;
use crate::emit::REGISTER;
use crate::error::CodeGenLibError;
use crate::x86::mem::AdressManager;
use crate::x86::var::VarDataType;
use crate::x86::var::Variabel;
use crate::x86::var::spec_var_size;

verus! {

/// A named function defined elsewhere.
#[derive(Debug, Clone)]
pub struct ExternFunction {
    pub name: String,
}

/// An unresolved reference: inside the code of `start`, position `at` refers
/// to the symbol `dest`.
#[derive(Debug, Clone)]
pub struct ExternSymbol {
    pub start: String,
    pub dest: String,
    pub at: usize,
}

/// Whether the register belongs to the 64-bit move and add-with-carry tables.
pub open spec fn spec_is_wide(reg: REGISTER) -> bool {
    reg == REGISTER::RAX || reg == REGISTER::RBX || reg == REGISTER::RCX || reg == REGISTER::RDX
        || reg == REGISTER::RBP || reg == REGISTER::RDI || reg == REGISTER::RIP || reg
        == REGISTER::RSI || reg == REGISTER::RSP
}

/// Whether the register belongs to the 32-bit immediate tables.
pub open spec fn spec_is_dword(reg: REGISTER) -> bool {
    reg == REGISTER::EAX || reg == REGISTER::EBX || reg == REGISTER::ECX || reg == REGISTER::EDX
}

/// Whether the register belongs to the 16-bit immediate tables.
pub open spec fn spec_is_word(reg: REGISTER) -> bool {
    reg == REGISTER::AX || reg == REGISTER::BX || reg == REGISTER::DX
}

/// The bytes a width dispatched move immediate emits.
pub open spec fn spec_fn_mov(reg: REGISTER, value: u64) -> Seq<u8> {
    if spec_is_wide(reg) {
        spec_mov_64(reg, value)
    } else if spec_is_dword(reg) {
        spec_mov_32(reg, value as u32)
    } else if spec_is_word(reg) {
        spec_mov_16(reg, value as u16)
    } else {
        spec_mov_8(reg, value as u8)
    }
}

/// The bytes a width dispatched add-with-carry immediate emits.
pub open spec fn spec_fn_adc(reg: REGISTER, value: u64) -> Seq<u8> {
    if spec_is_wide(reg) {
        spec_adc_64(reg, value)
    } else if spec_is_dword(reg) {
        spec_adc_32(reg, value as u32)
    } else if spec_is_word(reg) {
        spec_adc_16(reg, value as u16)
    } else {
        spec_adc_8(reg, value as u8)
    }
}

/// The bytes of a whole generated function: its entries flattened in order.
pub open spec fn spec_flatten(s: Seq<Vec<u8>>) -> Seq<u8>
    decreases s.len(),
{
    if s.len() == 0 {
        Seq::empty()
    } else {
        spec_flatten(s.drop_last()) + s.last()@
    }
}

/// The landing pad patch of materialization: a buffer that starts with the
/// landing pad marker has the first three bytes cleared.
pub open spec fn spec_jit_patch(bytes: Seq<u8>) -> Seq<u8> {
    if bytes.len() >= 4 && bytes[0] == 0xF3 && bytes[1] == 0x0F && bytes[2] == 0x1E && bytes[3]
        == 0xFA {
        bytes.update(0, 0u8).update(1, 0u8).update(2, 0u8)
    } else {
        bytes
    }
}

/// The handler for the code generation of one function: the accumulated byte
/// groups, the unresolved references, and the variables created against the
/// shared address manager.
pub struct Function<'a> {
    pub name: String,
    /// The generated code, one instruction's bytes per entry.
    pub gen: Vec<Vec<u8>>,
    /// The fixed position marker used for reference records.
    pub pos: usize,
    /// The unresolved references to outside symbols.
    pub esymbols: Vec<ExternSymbol>,
    /// The variables created for this function.
    pub vars: Vec<Variabel>,
    pub adrmng: &'a AdressManager,
}

impl<'a> Function<'a> {
    /// Creates a function whose code starts with the frame setup: landing pad
    /// marker, saved frame pointer, fresh frame pointer.
    pub fn new(name: &str, adrmng: &'a mut AdressManager) -> (r: Function<'a>)
        ensures
            r.name@ == name@,
            r.gen@.len() == 3,
            r.gen@[0]@ == spec_endbr64(),
            r.gen@[1]@ == spec_push(REGISTER::RBP),
            r.gen@[2]@ == spec_mov_reg(REGISTER::RBP, REGISTER::RSP),
            r.pos == 2,
            r.esymbols@.len() == 0,
            r.vars@.len() == 0,
    {
        let mut gen: Vec<Vec<u8>> = Vec::new();
        gen.push(AsmCall::endbr64());
        gen.push(AsmCall::push(REGISTER::RBP));
        gen.push(AsmCall::mov_reg(REGISTER::RBP, REGISTER::RSP));
        let pos = gen.len() - 1;
        Function { gen, name: String::from_str(name), pos, esymbols: Vec::new(), vars: Vec::new(), adrmng }
    }

    /// Appends a return: filler, frame pointer restore, return.
    pub fn asm_ret(&mut self)
        ensures
            final(self).gen@.len() == old(self).gen@.len() + 3,
            forall|j: int| 0 <= j < old(self).gen@.len() ==> final(self).gen@[j] == old(self).gen@[j],
            final(self).gen@[old(self).gen@.len() as int]@ == spec_nop(),
            final(self).gen@[old(self).gen@.len() as int + 1]@ == spec_pop(REGISTER::RBP),
            final(self).gen@[old(self).gen@.len() as int + 2]@ == spec_ret(),
            final(self).name == old(self).name,
            final(self).pos == old(self).pos,
            final(self).esymbols == old(self).esymbols,
            final(self).vars == old(self).vars,
    {
        self.gen.push(AsmCall::nop());
        self.gen.push(AsmCall::pop(REGISTER::RBP));
        self.gen.push(AsmCall::ret());
    }

    /// Appends a move immediate, dispatched on the register's width class.
    pub fn asm_mov(&mut self, reg: REGISTER, value: u64)
        ensures
            final(self).gen@.len() == old(self).gen@.len() + 1,
            forall|j: int| 0 <= j < old(self).gen@.len() ==> final(self).gen@[j] == old(self).gen@[j],
            final(self).gen@[old(self).gen@.len() as int]@ == spec_fn_mov(reg, value),
            final(self).name == old(self).name,
            final(self).pos == old(self).pos,
            final(self).esymbols == old(self).esymbols,
            final(self).vars == old(self).vars,
    {
        if reg == REGISTER::RAX || reg == REGISTER::RBX || reg == REGISTER::RCX || reg
            == REGISTER::RDX || reg == REGISTER::RBP || reg == REGISTER::RDI || reg
            == REGISTER::RIP || reg == REGISTER::RSI || reg == REGISTER::RSP {
            self.gen.push(AsmCall::mov_64(reg, value));
        } else if reg == REGISTER::EAX || reg == REGISTER::EBX || reg == REGISTER::ECX || reg
            == REGISTER::EDX {
            self.gen.push(AsmCall::mov_32(reg, value as u32));
        } else if reg == REGISTER::AX || reg == REGISTER::BX || reg == REGISTER::DX {
            self.gen.push(AsmCall::mov_16(reg, value as u16));
        } else {
            self.gen.push(AsmCall::mov_8(reg, value as u8));
        }
    }

    /// Appends a register-to-register move.
    pub fn asm_mov_reg(&mut self, from: REGISTER, to: REGISTER)
        ensures
            final(self).gen@.len() == old(self).gen@.len() + 1,
            forall|j: int| 0 <= j < old(self).gen@.len() ==> final(self).gen@[j] == old(self).gen@[j],
            final(self).gen@[old(self).gen@.len() as int]@ == spec_mov_reg(from, to),
            final(self).name == old(self).name,
            final(self).pos == old(self).pos,
            final(self).esymbols == old(self).esymbols,
            final(self).vars == old(self).vars,
    {
        self.gen.push(AsmCall::mov_reg(from, to));
    }

    /// Appends an add-with-carry immediate, dispatched on the register's
    /// width class.
    pub fn asm_adc(&mut self, reg: REGISTER, value: u64)
        ensures
            final(self).gen@.len() == old(self).gen@.len() + 1,
            forall|j: int| 0 <= j < old(self).gen@.len() ==> final(self).gen@[j] == old(self).gen@[j],
            final(self).gen@[old(self).gen@.len() as int]@ == spec_fn_adc(reg, value),
            final(self).name == old(self).name,
            final(self).pos == old(self).pos,
            final(self).esymbols == old(self).esymbols,
            final(self).vars == old(self).vars,
    {
        if reg == REGISTER::RAX || reg == REGISTER::RBX || reg == REGISTER::RCX || reg
            == REGISTER::RDX || reg == REGISTER::RBP || reg == REGISTER::RDI || reg
            == REGISTER::RIP || reg == REGISTER::RSI || reg == REGISTER::RSP {
            self.gen.push(AsmCall::adc_64(reg, value));
        } else if reg == REGISTER::EAX || reg == REGISTER::EBX || reg == REGISTER::ECX || reg
            == REGISTER::EDX {
            self.gen.push(AsmCall::adc_32(reg, value as u32));
        } else if reg == REGISTER::AX || reg == REGISTER::BX || reg == REGISTER::DX {
            self.gen.push(AsmCall::adc_16(reg, value as u16));
        } else {
            self.gen.push(AsmCall::adc_8(reg, value as u8));
        }
    }

    /// Appends an add-with-carry of one register into another.
    pub fn asm_adc_reg(&mut self, dest: REGISTER, src: REGISTER)
        ensures
            final(self).gen@.len() == old(self).gen@.len() + 1,
            forall|j: int| 0 <= j < old(self).gen@.len() ==> final(self).gen@[j] == old(self).gen@[j],
            final(self).gen@[old(self).gen@.len() as int]@ == spec_adc_reg(dest, src),
            final(self).name == old(self).name,
            final(self).pos == old(self).pos,
            final(self).esymbols == old(self).esymbols,
            final(self).vars == old(self).vars,
    {
        self.gen.push(AsmCall::adc_reg(dest, src));
    }

    /// Returns an integer: the value moves into the accumulator at the width
    /// it needs, then the function returns.
    pub fn ret_int(&mut self, value: u64)
        ensures
            final(self).gen@.len() == old(self).gen@.len() + 4,
            forall|j: int| 0 <= j < old(self).gen@.len() ==> final(self).gen@[j] == old(self).gen@[j],
            final(self).gen@[old(self).gen@.len() as int]@ == if value > 0xffffffff {
                spec_fn_mov(REGISTER::RAX, value)
            } else {
                spec_fn_mov(REGISTER::EAX, value)
            },
            final(self).gen@[old(self).gen@.len() as int + 1]@ == spec_nop(),
            final(self).gen@[old(self).gen@.len() as int + 2]@ == spec_pop(REGISTER::RBP),
            final(self).gen@[old(self).gen@.len() as int + 3]@ == spec_ret(),
            final(self).name == old(self).name,
            final(self).pos == old(self).pos,
            final(self).esymbols == old(self).esymbols,
            final(self).vars == old(self).vars,
    {
        if value > 0xffffffff {
            self.asm_mov(REGISTER::RAX, value);
        } else {
            self.asm_mov(REGISTER::EAX, value);
        }
        self.asm_ret();
    }

    /// Appends a call of the given address.
    pub fn asm_call(&mut self, adr: u32)
        ensures
            final(self).gen@.len() == old(self).gen@.len() + 1,
            forall|j: int| 0 <= j < old(self).gen@.len() ==> final(self).gen@[j] == old(self).gen@[j],
            final(self).gen@[old(self).gen@.len() as int]@ == spec_call(adr),
            final(self).name == old(self).name,
            final(self).pos == old(self).pos,
            final(self).esymbols == old(self).esymbols,
            final(self).vars == old(self).vars,
    {
        self.gen.push(AsmCall::call(adr));
    }

    /// Calls the named function: an unresolved reference is recorded and a
    /// call with a zero address emitted for the patcher.
    pub fn call(&mut self, dest: &str)
        requires
            old(self).pos < usize::MAX,
        ensures
            final(self).gen@.len() == old(self).gen@.len() + 1,
            forall|j: int| 0 <= j < old(self).gen@.len() ==> final(self).gen@[j] == old(self).gen@[j],
            final(self).gen@[old(self).gen@.len() as int]@ == spec_call(0),
            final(self).esymbols@.len() == old(self).esymbols@.len() + 1,
            forall|j: int|
                0 <= j < old(self).esymbols@.len() ==> final(self).esymbols@[j] == old(
                    self,
                ).esymbols@[j],
            final(self).esymbols@.last().start@ == old(self).name@,
            final(self).esymbols@.last().dest@ == dest@,
            final(self).esymbols@.last().at == old(self).pos + 1,
            final(self).name == old(self).name,
            final(self).pos == old(self).pos,
            final(self).vars == old(self).vars,
    {
        self.esymbols.push(
            ExternSymbol {
                start: self.name.clone(),
                dest: String::from_str(dest),
                at: self.pos + 1,
            },
        );
        self.asm_call(0);
    }

    /// Creates a variable against the shared address manager and keeps it in
    /// the function's variable list.
    pub fn create_var(&mut self, name: &'a str, typ: VarDataType) -> (r: Variabel)
        ensures
            final(self).vars@.len() == old(self).vars@.len() + 1,
            forall|j: int| 0 <= j < old(self).vars@.len() ==> final(self).vars@[j] == old(self).vars@[j],
            r.size == spec_var_size(typ),
            r.name@ == name@,
            !r.initalized,
            final(self).name == old(self).name,
            final(self).gen == old(self).gen,
            final(self).pos == old(self).pos,
            final(self).esymbols == old(self).esymbols,
    {
        let owned = String::from_str(name);
        let var = Variabel::new(typ, &owned, self.adrmng);
        self.vars.push(var);
        self.get_last_var()
    }

    /// Returns a copy of the most recently created variable.
    pub fn get_last_var(&self) -> (r: Variabel)
        requires
            self.vars@.len() > 0,
        ensures
            r.size == self.vars@.last().size,
            r.name@ == self.vars@.last().name@,
            r.initalized == self.vars@.last().initalized,
    {
        self.vars[self.vars.len() - 1].clone()
    }

    /// Returns the generated code of the function as one flat byte buffer.
    pub fn get_gen(&self) -> (r: Vec<u8>)
        ensures
            r@ == spec_flatten(self.gen@),
    {
        let mut out: Vec<u8> = Vec::new();
        let mut i: usize = 0;
        while i < self.gen.len()
            invariant
                i <= self.gen@.len(),
                out@ == spec_flatten(self.gen@.subrange(0, i as int)),
            decreases self.gen@.len() - i,
        {
            proof {
                assert(self.gen@.subrange(0, i as int + 1).drop_last() =~= self.gen@.subrange(
                    0,
                    i as int,
                ));
            }
            let mut k: usize = 0;
            let ghost base = out@;
            while k < self.gen[i].len()
                invariant
                    i < self.gen@.len(),
                    k <= self.gen@[i as int]@.len(),
                    out@ == base + self.gen@[i as int]@.subrange(0, k as int),
                decreases self.gen@[i as int]@.len() - k,
            {
                out.push(self.gen[i][k]);
                proof {
                    assert(base + self.gen@[i as int]@.subrange(0, k as int + 1) =~= base
                        + self.gen@[i as int]@.subrange(0, k as int) + seq![
                        self.gen@[i as int]@[k as int],
                    ]);
                }
                k += 1;
            }
            proof {
                assert(self.gen@[i as int]@.subrange(0, self.gen@[i as int]@.len() as int)
                    =~= self.gen@[i as int]@);
            }
            i += 1;
        }
        proof {
            assert(self.gen@.subrange(0, self.gen@.len() as int) =~= self.gen@);
        }
        out
    }

    /// The materialization check: succeeds only when no unresolved reference
    /// remains, handing back the flat byte buffer with the landing pad marker
    /// cleared; otherwise the dedicated error is returned.
    pub fn jit_bytes(&self) -> (r: Result<Vec<u8>, CodeGenLibError>)
        ensures
            r is Ok <==> self.esymbols@.len() == 0,
            r matches Ok(bytes) ==> bytes@ == spec_jit_patch(spec_flatten(self.gen@)),
            r matches Err(e) ==> e is JitFunctionsNoExtern,
    {
        if self.esymbols.len() != 0 {
            return Err(CodeGenLibError::JitFunctionsNoExtern);
        }
        let mut bytes = self.get_gen();
        if bytes.len() >= 4 && bytes[0] == 0xF3 && bytes[1] == 0x0F && bytes[2] == 0x1E && bytes[3]
            == 0xFA {
            bytes.set(0, 0);
            bytes.set(1, 0);
            bytes.set(2, 0);
        }
        Ok(bytes)
    }
}

} // verus!
