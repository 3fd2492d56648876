//! The function builder: lays out arguments and variables for one function,
//! marshals call arguments, and accumulates the instruction stream.

use vstd::prelude::*;
use vstd::string::StringExecFns;

use crate::abi::Abi;
use crate::abi::spec_abi_matches;
use crate::abi::spec_arg32;
use crate::abi::spec_arg64;
use crate::abi::spec_stack_operand;
use crate::error::CodeGenLibError;
use crate::ir::AsmInstructionEnum;
use crate::ir::typ::Type;
use crate::ir::typ::spec_in_reg;
use crate::ir::typ::spec_type_bytes;
use crate::ir::typ::spec_type_size;
use crate::operand::Register;
use crate::x86::builder::Builder;
use crate::x86::builder::spec_builder_matches;
use crate::x86::builder::spec_builder_wf;

verus! {

// ------------------------------------------------------------------
// Deterministic decimal naming for promoted literals.
// ------------------------------------------------------------------

/// The decimal digit character of one digit value.
pub open spec fn spec_digit_char(d: int) -> char {
    if d == 0 {
        '0'
    } else if d == 1 {
        '1'
    } else if d == 2 {
        '2'
    } else if d == 3 {
        '3'
    } else if d == 4 {
        '4'
    } else if d == 5 {
        '5'
    } else if d == 6 {
        '6'
    } else if d == 7 {
        '7'
    } else if d == 8 {
        '8'
    } else {
        '9'
    }
}

/// The decimal digits of a number, most significant first.
pub open spec fn spec_dec_digits(n: int) -> Seq<char>
    recommends
        n >= 0,
    decreases n,
{
    if n < 10 {
        seq![spec_digit_char(n)]
    } else {
        spec_dec_digits(n / 10) + seq![spec_digit_char(n % 10)]
    }
}

/// Returns the digit character of one digit value.
fn dec_digit_str(d: u64) -> (r: &'static str)
    requires
        d < 10,
    ensures
        r@ == seq![spec_digit_char(d as int)],
{
    let r: &'static str = if d == 0 {
        proof {
            reveal_strlit("0");
        }
        "0"
    } else if d == 1 {
        proof {
            reveal_strlit("1");
        }
        "1"
    } else if d == 2 {
        proof {
            reveal_strlit("2");
        }
        "2"
    } else if d == 3 {
        proof {
            reveal_strlit("3");
        }
        "3"
    } else if d == 4 {
        proof {
            reveal_strlit("4");
        }
        "4"
    } else if d == 5 {
        proof {
            reveal_strlit("5");
        }
        "5"
    } else if d == 6 {
        proof {
            reveal_strlit("6");
        }
        "6"
    } else if d == 7 {
        proof {
            reveal_strlit("7");
        }
        "7"
    } else if d == 8 {
        proof {
            reveal_strlit("8");
        }
        "8"
    } else {
        proof {
            reveal_strlit("9");
        }
        "9"
    };
    proof {
        assert(r@ =~= seq![spec_digit_char(d as int)]);
    }
    r
}

/// Writes a number in decimal.
fn usize_dec_string(n: usize) -> (s: String)
    ensures
        s@ == spec_dec_digits(n as int),
    decreases n,
{
    if n < 10 {
        String::from_str(dec_digit_str(n as u64))
    } else {
        let mut s = usize_dec_string(n / 10);
        s.append(dec_digit_str((n % 10) as u64));
        s
    }
}

/// The deterministic name of the data label promoted for call argument
/// `index` of a call from `caller` to `callee`.
pub open spec fn spec_promoted_label(caller: Seq<char>, callee: Seq<char>, index: int) -> Seq<
    char,
> {
    caller + "."@ + callee + "."@ + spec_dec_digits(index)
}

/// Builds the deterministic label name of a promoted call argument.
fn promoted_label(caller: &String, callee: &str, index: usize) -> (s: String)
    ensures
        s@ == spec_promoted_label(caller@, callee@, index as int),
{
    let mut s = caller.clone();
    s.append(".");
    s.append(callee);
    s.append(".");
    let digits = usize_dec_string(index);
    s.append(digits.as_str());
    proof {
        assert(s@ =~= spec_promoted_label(caller@, callee@, index as int));
    }
    s
}

// ------------------------------------------------------------------
// The argument layout algorithm.
// ------------------------------------------------------------------

/// The summed sizes of the first `k` declared arguments.
pub open spec fn spec_args_sizes_sum(s: Seq<(&str, Type)>, k: int) -> int
    decreases k,
{
    if k <= 0 {
        0
    } else {
        spec_args_sizes_sum(s, k - 1) + spec_type_size(s[k - 1].1)
    }
}

/// How many of the first `k` declared arguments are register assigned: an
/// argument takes a register while the budget lasts and its type is register
/// eligible.
pub open spec fn spec_args_regcount(abi: Abi, s: Seq<(&str, Type)>, k: int) -> int
    decreases k,
{
    if k <= 0 {
        0
    } else {
        let c = spec_args_regcount(abi, s, k - 1);
        c + if c < abi.reg_args && spec_in_reg(s[k - 1].1) {
            1int
        } else {
            0int
        }
    }
}

/// The register assigned to declared argument `i`, if any: the next free
/// argument slot, at the argument's own width class.
pub open spec fn spec_arg_register(abi: Abi, s: Seq<(&str, Type)>, i: int) -> Option<Register> {
    let c = spec_args_regcount(abi, s, i);
    if c < abi.reg_args && spec_in_reg(s[i].1) {
        if spec_type_size(s[i].1) == 8 {
            Some(spec_arg64(abi, c as usize))
        } else {
            Some(spec_arg32(abi, c as usize))
        }
    } else {
        None
    }
}

/// Summed argument sizes are never negative.
proof fn lemma_args_sizes_sum_nonneg(s: Seq<(&str, Type)>, k: int)
    ensures
        spec_args_sizes_sum(s, k) >= 0,
    decreases k,
{
    if k > 0 {
        lemma_args_sizes_sum_nonneg(s, k - 1);
    }
}

/// Summed argument sizes only grow with more arguments.
proof fn lemma_args_sizes_sum_mono(s: Seq<(&str, Type)>, k1: int, k2: int)
    requires
        0 <= k1 <= k2,
    ensures
        spec_args_sizes_sum(s, k1) <= spec_args_sizes_sum(s, k2),
    decreases k2 - k1,
{
    if k1 < k2 {
        lemma_args_sizes_sum_mono(s, k1, k2 - 1);
    }
}

// ------------------------------------------------------------------
// The variable layout algorithm.
// ------------------------------------------------------------------

/// One argument descriptor: name, size, assigned register if any, and the
/// summed size of all earlier arguments.
pub type ArgDescr = ((String, u64, Option<Register>), u64);

/// The summed sizes of the first `k` argument descriptors.
pub open spec fn spec_descr_sizes_sum(ads: Seq<ArgDescr>, k: int) -> int
    decreases k,
{
    if k <= 0 {
        0
    } else {
        spec_descr_sizes_sum(ads, k - 1) + ads[k - 1].0.1
    }
}

/// The frame offset at which argument `i` is spilled: the stack bias plus the
/// sizes of all earlier arguments.
pub open spec fn spec_spill_offset(abi: Abi, ads: Seq<ArgDescr>, i: int) -> int {
    abi.stack_base + spec_descr_sizes_sum(ads, i)
}

/// The spill instructions of the first `k` arguments: one store per register
/// assigned argument, to its negative frame slot, in argument order.
pub open spec fn spec_spill_stores(abi: Abi, ads: Seq<ArgDescr>, k: int) -> Seq<
    AsmInstructionEnum,
>
    decreases k,
{
    if k <= 0 {
        Seq::empty()
    } else {
        spec_spill_stores(abi, ads, k - 1) + match ads[k - 1].0.2 {
            Some(reg) => seq![
                AsmInstructionEnum::Store(
                    reg,
                    spec_stack_operand(abi, (0 - spec_spill_offset(abi, ads, k - 1)) as i64),
                ),
            ],
            None => Seq::empty(),
        }
    }
}

/// The variable table entry of argument `i`: a register assigned argument maps
/// to its negative spill slot, a stack passed one to the positive displacement
/// where the caller already placed it.
pub open spec fn spec_arg_var_entry(abi: Abi, ads: Seq<ArgDescr>, i: int) -> (Seq<char>, int) {
    (
        ads[i].0.0@,
        if ads[i].0.2 is Some {
            0 - spec_spill_offset(abi, ads, i)
        } else {
            ads[i].1 as int
        },
    )
}

/// The variable table entry of declared local `i`: the next negative slot
/// after all spilled arguments and earlier locals.
pub open spec fn spec_local_var_entry(
    abi: Abi,
    ads: Seq<ArgDescr>,
    vars: Seq<(&str, Type)>,
    i: int,
) -> (Seq<char>, int) {
    (
        vars[i].0@,
        0 - (abi.stack_base + spec_descr_sizes_sum(ads, ads.len() as int) + spec_args_sizes_sum(
            vars,
            i,
        )),
    )
}

/// Summed descriptor sizes are never negative.
proof fn lemma_descr_sizes_sum_nonneg(ads: Seq<ArgDescr>, k: int)
    ensures
        spec_descr_sizes_sum(ads, k) >= 0,
    decreases k,
{
    if k > 0 {
        lemma_descr_sizes_sum_nonneg(ads, k - 1);
    }
}

/// Summed descriptor sizes only grow with more descriptors.
proof fn lemma_descr_sizes_sum_mono(ads: Seq<ArgDescr>, k1: int, k2: int)
    requires
        0 <= k1 <= k2,
    ensures
        spec_descr_sizes_sum(ads, k1) <= spec_descr_sizes_sum(ads, k2),
    decreases k2 - k1,
{
    if k1 < k2 {
        lemma_descr_sizes_sum_mono(ads, k1, k2 - 1);
    }
}

// ------------------------------------------------------------------
// The builder itself.
// ------------------------------------------------------------------

/// Builds one function: its argument layout, variable layout, known call
/// signatures and accumulated instruction stream, plus its own copy of the
/// module builder that promoted literals are defined on.
#[derive(Debug)]
pub struct IrFunctionBuilder {
    /// The accumulated instruction stream.
    pub generated: Vec<AsmInstructionEnum>,
    /// The function's name.
    pub name: String,
    /// The argument descriptors, in declaration order.
    pub args: Vec<ArgDescr>,
    /// The variable table: name to signed frame offset.
    pub vars: Vec<(String, i64)>,
    /// The known signatures of callable functions.
    pub funcs: Vec<(String, Vec<Type>)>,
    /// Whether the function is exported.
    pub public: bool,
    /// The calling convention.
    pub abi: Abi,
    /// The function's copy of the module builder.
    pub builder: Builder,
}

impl IrFunctionBuilder {
    /// Creates a builder for one function, with its own copy of the module
    /// builder and calling convention.
    pub fn new(name: &str, builder: &mut Builder, abi: &Abi) -> (r: Self)
        ensures
            r.generated@.len() == 0,
            r.name@ == name@,
            r.args@.len() == 0,
            r.vars@.len() == 0,
            r.funcs@.len() == 0,
            !r.public,
            spec_abi_matches(r.abi, *abi),
            spec_builder_matches(r.builder, *old(builder)),
            spec_builder_wf(*old(builder)) ==> spec_builder_wf(r.builder),
            *final(builder) == *old(builder),
    {
        let r = Self {
            generated: Vec::new(),
            name: String::from_str(name),
            args: Vec::new(),
            vars: Vec::new(),
            funcs: Vec::new(),
            public: false,
            builder: builder.clone(),
            abi: abi.clone(),
        };
        proof {
            if spec_builder_wf(*builder) {
                assert(spec_builder_wf(r.builder));
            }
        }
        r
    }

    /// Lays the declared arguments out: walks them in order, assigning a
    /// register while the budget lasts and the type is register eligible, and
    /// records each argument's size and the summed size of those before it.
    /// No instruction is emitted.
    pub fn args(&mut self, args: Vec<(&str, Type)>)
        requires
            spec_args_sizes_sum(args@, args@.len() as int) <= u64::MAX,
        ensures
            final(self).args@.len() == args@.len(),
            forall|i: int|
                0 <= i < args@.len() ==> {
                    &&& (#[trigger] final(self).args@[i]).0.0@ == args@[i].0@
                    &&& final(self).args@[i].0.1 == spec_type_size(args@[i].1)
                    &&& final(self).args@[i].0.2 == spec_arg_register(old(self).abi, args@, i)
                    &&& final(self).args@[i].1 == spec_args_sizes_sum(args@, i)
                },
            final(self).generated == old(self).generated,
            final(self).name == old(self).name,
            final(self).vars == old(self).vars,
            final(self).funcs == old(self).funcs,
            final(self).public == old(self).public,
            final(self).abi == old(self).abi,
            final(self).builder == old(self).builder,
    {
        let mut mod_args: Vec<ArgDescr> = Vec::new();
        let mut reg_pasted_args: usize = 0;
        let mut prev_size: u64 = 0;
        let mut i: usize = 0;
        while i < args.len()
            invariant
                i <= args@.len(),
                mod_args@.len() == i,
                self == old(self),
                spec_args_sizes_sum(args@, args@.len() as int) <= u64::MAX,
                reg_pasted_args == spec_args_regcount(self.abi, args@, i as int),
                prev_size == spec_args_sizes_sum(args@, i as int),
                forall|j: int|
                    0 <= j < i ==> {
                        &&& (#[trigger] mod_args@[j]).0.0@ == args@[j].0@
                        &&& mod_args@[j].0.1 == spec_type_size(args@[j].1)
                        &&& mod_args@[j].0.2 == spec_arg_register(self.abi, args@, j)
                        &&& mod_args@[j].1 == spec_args_sizes_sum(args@, j)
                    },
            decreases args@.len() - i,
        {
            let in_reg = args[i].1.in_reg();
            let size = args[i].1.size();
            let reg: Option<Register> = if reg_pasted_args < self.abi.reg_args() && in_reg {
                let slot = reg_pasted_args;
                reg_pasted_args += 1;
                if size == 8 {
                    Some(self.abi.arg64(slot))
                } else {
                    Some(self.abi.arg32(slot))
                }
            } else {
                None
            };
            mod_args.push(((String::from_str(args[i].0), size, reg), prev_size));
            proof {
                lemma_args_sizes_sum_mono(args@, i as int + 1, args@.len() as int);
            }
            prev_size = prev_size + size;
            i += 1;
        }
        self.args = mod_args;
    }

    /// Lays the variables out; must run after the arguments.  Every register
    /// assigned argument is spilled to the next negative frame slot with one
    /// store; every stack passed argument keeps the positive displacement the
    /// caller gave it; every declared local takes the next negative slot.
    pub fn vars(&mut self, vars: Vec<(&str, Type)>)
        requires
            0 <= old(self).abi.stack_base,
            old(self).abi.stack_base + spec_descr_sizes_sum(
                old(self).args@,
                old(self).args@.len() as int,
            ) + spec_args_sizes_sum(vars@, vars@.len() as int) <= i64::MAX,
            forall|i: int| 0 <= i < old(self).args@.len() ==> (#[trigger] old(self).args@[i]).1
                <= i64::MAX,
        ensures
            final(self).generated@ == old(self).generated@ + spec_spill_stores(
                old(self).abi,
                old(self).args@,
                old(self).args@.len() as int,
            ),
            final(self).vars@.len() == old(self).args@.len() + vars@.len(),
            forall|i: int|
                0 <= i < old(self).args@.len() ==> ((#[trigger] final(self).vars@[i]).0@,
                final(self).vars@[i].1 as int) == spec_arg_var_entry(
                    old(self).abi,
                    old(self).args@,
                    i,
                ),
            forall|i: int|
                0 <= i < vars@.len() ==> ((#[trigger] final(self).vars@[old(self).args@.len()
                    + i]).0@, final(self).vars@[old(self).args@.len() + i].1 as int)
                    == spec_local_var_entry(old(self).abi, old(self).args@, vars@, i),
            final(self).args == old(self).args,
            final(self).name == old(self).name,
            final(self).funcs == old(self).funcs,
            final(self).public == old(self).public,
            final(self).abi == old(self).abi,
            final(self).builder == old(self).builder,
    {
        let mut mod_vars: Vec<(String, i64)> = Vec::new();
        let mut stack_offset: i64 = self.abi.stack_base;
        let ghost ads = self.args@;
        let ghost base_gen = self.generated@;
        let mut i: usize = 0;
        while i < self.args.len()
            invariant
                i <= ads.len(),
                self.args == old(self).args,
                self.args@ == ads,
                self.name == old(self).name,
                self.vars == old(self).vars,
                self.funcs == old(self).funcs,
                self.public == old(self).public,
                self.abi == old(self).abi,
                self.builder == old(self).builder,
                base_gen == old(self).generated@,
                0 <= self.abi.stack_base,
                self.abi.stack_base + spec_descr_sizes_sum(ads, ads.len() as int)
                    + spec_args_sizes_sum(vars@, vars@.len() as int) <= i64::MAX,
                forall|j: int| 0 <= j < ads.len() ==> (#[trigger] ads[j]).1 <= i64::MAX,
                stack_offset == spec_spill_offset(self.abi, ads, i as int),
                self.generated@ == base_gen + spec_spill_stores(self.abi, ads, i as int),
                mod_vars@.len() == i,
                forall|j: int|
                    0 <= j < i ==> ((#[trigger] mod_vars@[j]).0@, mod_vars@[j].1 as int)
                        == spec_arg_var_entry(self.abi, ads, j),
            decreases ads.len() - i,
        {
            proof {
                lemma_descr_sizes_sum_mono(ads, i as int + 1, ads.len() as int);
                lemma_descr_sizes_sum_nonneg(ads, i as int);
                lemma_args_sizes_sum_nonneg(vars@, vars@.len() as int);
            }
            let name = self.args[i].0.0.clone();
            let size = self.args[i].0.1;
            let reg = self.args[i].0.2;
            let prev = self.args[i].1;
            match reg {
                Some(r) => {
                    let slot = self.abi.stack(0 - stack_offset);
                    self.generated.push(AsmInstructionEnum::Store(r, slot));
                    mod_vars.push((name, 0 - stack_offset));
                },
                None => {
                    mod_vars.push((name, prev as i64));
                },
            }
            stack_offset = stack_offset + size as i64;
            i += 1;
        }
        proof {
            lemma_descr_sizes_sum_mono(ads, 0, ads.len() as int);
        }
        let ghost args_done = mod_vars@;
        let mut v: usize = 0;
        while v < vars.len()
            invariant
                v <= vars@.len(),
                self.args == old(self).args,
                self.args@ == ads,
                self.name == old(self).name,
                self.vars == old(self).vars,
                self.funcs == old(self).funcs,
                self.public == old(self).public,
                self.abi == old(self).abi,
                self.builder == old(self).builder,
                self.generated@ == old(self).generated@ + spec_spill_stores(
                    self.abi,
                    ads,
                    ads.len() as int,
                ),
                0 <= self.abi.stack_base,
                self.abi.stack_base + spec_descr_sizes_sum(ads, ads.len() as int)
                    + spec_args_sizes_sum(vars@, vars@.len() as int) <= i64::MAX,
                stack_offset == self.abi.stack_base + spec_descr_sizes_sum(ads, ads.len() as int)
                    + spec_args_sizes_sum(vars@, v as int),
                mod_vars@.len() == ads.len() + v,
                args_done == mod_vars@.subrange(0, ads.len() as int),
                forall|j: int|
                    0 <= j < ads.len() ==> ((#[trigger] mod_vars@[j]).0@, mod_vars@[j].1 as int)
                        == spec_arg_var_entry(self.abi, ads, j),
                forall|j: int|
                    0 <= j < v ==> ((#[trigger] mod_vars@[ads.len() + j]).0@, mod_vars@[ads.len()
                        + j].1 as int) == spec_local_var_entry(self.abi, ads, vars@, j),
            decreases vars@.len() - v,
        {
            proof {
                lemma_args_sizes_sum_mono(vars@, v as int + 1, vars@.len() as int);
                lemma_args_sizes_sum_nonneg(vars@, v as int);
                lemma_descr_sizes_sum_nonneg(ads, ads.len() as int);
            }
            mod_vars.push((String::from_str(vars[v].0), 0 - stack_offset));
            stack_offset = stack_offset + vars[v].1.size() as i64;
            v += 1;
        }
        self.vars = mod_vars;
    }

    /// Registers the declared signatures of callable functions; only the
    /// declared parameter types matter, for the register budget of later call
    /// sites.
    pub fn efuncs(&mut self, funcs: Vec<(&str, Vec<Type>)>)
        ensures
            final(self).funcs@.len() == funcs@.len(),
            forall|k: int|
                0 <= k < funcs@.len() ==> (#[trigger] final(self).funcs@[k]).0@ == funcs@[k].0@
                    && final(self).funcs@[k].1 == funcs@[k].1,
            final(self).generated == old(self).generated,
            final(self).name == old(self).name,
            final(self).args == old(self).args,
            final(self).vars == old(self).vars,
            final(self).public == old(self).public,
            final(self).abi == old(self).abi,
            final(self).builder == old(self).builder,
    {
        let ghost input = funcs@;
        let mut funcs = funcs;
        let mut mod_funcs: Vec<(String, Vec<Type>)> = Vec::new();
        while funcs.len() > 0
            invariant
                mod_funcs@.len() + funcs@.len() == input.len(),
                funcs@ =~= input.subrange(mod_funcs@.len() as int, input.len() as int),
                forall|k: int|
                    0 <= k < mod_funcs@.len() ==> (#[trigger] mod_funcs@[k]).0@ == input[k].0@
                        && mod_funcs@[k].1 == input[k].1,
            decreases funcs@.len(),
        {
            let entry = funcs.remove(0);
            mod_funcs.push((String::from_str(entry.0), entry.1));
        }
        self.funcs = mod_funcs;
    }

    /// Returns `Ok` exactly when the name is a declared argument.
    fn check_arg(&self, name: String) -> (r: Result<(), CodeGenLibError>)
        ensures
            r is Ok <==> exists|k: int|
                0 <= k < self.args@.len() && (#[trigger] self.args@[k]).0.0@ == name@,
            r matches Err(e) ==> e matches CodeGenLibError::VarNotExist(n) && n@ == name@,
    {
        let mut k: usize = 0;
        while k < self.args.len()
            invariant
                k <= self.args@.len(),
                forall|j: int| 0 <= j < k ==> (#[trigger] self.args@[j]).0.0@ != name@,
            decreases self.args@.len() - k,
        {
            if self.args[k].0.0.eq(&name) {
                return Ok(());
            }
            k += 1;
        }
        Err(CodeGenLibError::VarNotExist(name))
    }

    /// Returns `Ok` exactly when the name is in the variable table.
    fn check_var(&self, name: String) -> (r: Result<(), CodeGenLibError>)
        ensures
            r is Ok <==> exists|k: int|
                0 <= k < self.vars@.len() && (#[trigger] self.vars@[k]).0@ == name@,
            r matches Err(e) ==> e matches CodeGenLibError::VarNotExist(n) && n@ == name@,
    {
        let mut k: usize = 0;
        while k < self.vars.len()
            invariant
                k <= self.vars@.len(),
                forall|j: int| 0 <= j < k ==> (#[trigger] self.vars@[j]).0@ != name@,
            decreases self.vars@.len() - k,
        {
            if self.vars[k].0.eq(&name) {
                return Ok(());
            }
            k += 1;
        }
        Err(CodeGenLibError::VarNotExist(name))
    }

    /// Looks an argument descriptor up by name; the first declared argument of
    /// that name is returned.
    fn get_arg(&self, name: String) -> (r: Result<ArgDescr, CodeGenLibError>)
        ensures
            r matches Ok(v) ==> exists|k: int|
                {
                    &&& 0 <= k < self.args@.len()
                    &&& (#[trigger] self.args@[k]).0.0@ == name@
                    &&& v.0.0@ == self.args@[k].0.0@
                    &&& v.0.1 == self.args@[k].0.1
                    &&& v.0.2 == self.args@[k].0.2
                    &&& v.1 == self.args@[k].1
                    &&& forall|j: int| 0 <= j < k ==> (#[trigger] self.args@[j]).0.0@ != name@
                },
            r matches Err(e) ==> e matches CodeGenLibError::VarNotExist(n) && n@ == name@ && forall|
                k: int,
            | 0 <= k < self.args@.len() ==> (#[trigger] self.args@[k]).0.0@ != name@,
    {
        let mut k: usize = 0;
        while k < self.args.len()
            invariant
                k <= self.args@.len(),
                forall|j: int| 0 <= j < k ==> (#[trigger] self.args@[j]).0.0@ != name@,
            decreases self.args@.len() - k,
        {
            if self.args[k].0.0.eq(&name) {
                let entry = &self.args[k];
                return Ok(((entry.0.0.clone(), entry.0.1, entry.0.2), entry.1));
            }
            k += 1;
        }
        Err(CodeGenLibError::VarNotExist(name))
    }

    /// Looks a variable up by name; the first table entry of that name is
    /// returned.
    fn get_var(&self, name: String) -> (r: Result<(String, i64), CodeGenLibError>)
        ensures
            r matches Ok(v) ==> exists|k: int|
                {
                    &&& 0 <= k < self.vars@.len()
                    &&& (#[trigger] self.vars@[k]).0@ == name@
                    &&& v.0@ == self.vars@[k].0@
                    &&& v.1 == self.vars@[k].1
                    &&& forall|j: int| 0 <= j < k ==> (#[trigger] self.vars@[j]).0@ != name@
                },
            r matches Err(e) ==> e matches CodeGenLibError::VarNotExist(n) && n@ == name@ && forall|
                k: int,
            | 0 <= k < self.vars@.len() ==> (#[trigger] self.vars@[k]).0@ != name@,
    {
        let mut k: usize = 0;
        while k < self.vars.len()
            invariant
                k <= self.vars@.len(),
                forall|j: int| 0 <= j < k ==> (#[trigger] self.vars@[j]).0@ != name@,
            decreases self.vars@.len() - k,
        {
            if self.vars[k].0.eq(&name) {
                return Ok((self.vars[k].0.clone(), self.vars[k].1));
            }
            k += 1;
        }
        Err(CodeGenLibError::VarNotExist(name))
    }


    /// Emits an addition of two variables into a third: the first is loaded
    /// into the accumulator, the second added from its slot, the result stored
    /// to the destination slot.  Fails with the first unknown name.
    pub fn build_add(&mut self, var1: &str, var2: &str, result_var: &str) -> (r: Result<
        (),
        CodeGenLibError,
    >)
        requires
            forall|k: int|
                0 <= k < old(self).vars@.len() ==> (#[trigger] old(self).vars@[k]).1 > 0 ==> old(
                    self,
                ).vars@[k].1 + old(self).abi.stack_base <= i64::MAX,
        ensures
            r is Ok <==> spec_var_found(old(self).vars@, var1@) && spec_var_found(
                old(self).vars@,
                var2@,
            ) && spec_var_found(old(self).vars@, result_var@),
            r matches Err(e) ==> *final(self) == *old(self) && (e matches
                CodeGenLibError::VarNotExist(n) && (n@ == var1@ || n@ == var2@ || n@
                == result_var@)),
            r is Ok ==> final(self).generated@ == old(self).generated@ + seq![
                AsmInstructionEnum::Load(
                    Register::RAX,
                    spec_stack_operand(
                        old(self).abi,
                        spec_var_offset(old(self).vars@, var1@) as i64,
                    ),
                ),
                AsmInstructionEnum::AddMem(
                    Register::RAX,
                    spec_stack_operand(
                        old(self).abi,
                        spec_var_offset(old(self).vars@, var2@) as i64,
                    ),
                ),
                AsmInstructionEnum::Store(
                    Register::RAX,
                    spec_stack_operand(
                        old(self).abi,
                        spec_var_offset(old(self).vars@, result_var@) as i64,
                    ),
                ),
            ],
            final(self).name == old(self).name,
            final(self).args == old(self).args,
            final(self).vars == old(self).vars,
            final(self).funcs == old(self).funcs,
            final(self).public == old(self).public,
            final(self).abi == old(self).abi,
            final(self).builder == old(self).builder,
    {
        let v1 = match self.get_var(String::from_str(var1)) {
            Ok(v) => v,
            Err(e) => {
                return Err(e);
            },
        };
        let v2 = match self.get_var(String::from_str(var2)) {
            Ok(v) => v,
            Err(e) => {
                return Err(e);
            },
        };
        let ret = match self.get_var(String::from_str(result_var)) {
            Ok(v) => v,
            Err(e) => {
                return Err(e);
            },
        };
        proof {
            let k1 = choose|k: int|
                0 <= k < self.vars@.len() && self.vars@[k].0@ == var1@ && v1.0@ == self.vars@[k].0@
                    && v1.1 == self.vars@[k].1 && (forall|j: int|
                    0 <= j < k ==> self.vars@[j].0@ != var1@);
            lemma_var_first(self.vars@, var1@, k1);
            let k2 = choose|k: int|
                0 <= k < self.vars@.len() && self.vars@[k].0@ == var2@ && v2.0@ == self.vars@[k].0@
                    && v2.1 == self.vars@[k].1 && (forall|j: int|
                    0 <= j < k ==> self.vars@[j].0@ != var2@);
            lemma_var_first(self.vars@, var2@, k2);
            let k3 = choose|k: int|
                0 <= k < self.vars@.len() && self.vars@[k].0@ == result_var@ && ret.0@
                    == self.vars@[k].0@ && ret.1 == self.vars@[k].1 && (forall|j: int|
                    0 <= j < k ==> self.vars@[j].0@ != result_var@);
            lemma_var_first(self.vars@, result_var@, k3);
        }
        let ghost base = self.generated@;
        let m1 = self.abi.stack(v1.1);
        self.generated.push(AsmInstructionEnum::Load(Register::RAX, m1));
        let m2 = self.abi.stack(v2.1);
        self.generated.push(AsmInstructionEnum::AddMem(Register::RAX, m2));
        let m3 = self.abi.stack(ret.1);
        self.generated.push(AsmInstructionEnum::Store(Register::RAX, m3));
        proof {
            assert(self.generated@ =~= base + seq![
                AsmInstructionEnum::Load(
                    Register::RAX,
                    spec_stack_operand(self.abi, spec_var_offset(self.vars@, var1@) as i64),
                ),
                AsmInstructionEnum::AddMem(
                    Register::RAX,
                    spec_stack_operand(self.abi, spec_var_offset(self.vars@, var2@) as i64),
                ),
                AsmInstructionEnum::Store(
                    Register::RAX,
                    spec_stack_operand(self.abi, spec_var_offset(self.vars@, result_var@) as i64),
                ),
            ]);
        }
        Ok(())
    }

    /// Emits the return of a variable: its value is loaded into the
    /// accumulator and the function returns.  Fails when the name is unknown.
    pub fn build_return_var(&mut self, var_name: &str) -> (r: Result<(), CodeGenLibError>)
        requires
            forall|k: int|
                0 <= k < old(self).vars@.len() ==> (#[trigger] old(self).vars@[k]).1 > 0 ==> old(
                    self,
                ).vars@[k].1 + old(self).abi.stack_base <= i64::MAX,
        ensures
            r is Ok <==> spec_var_found(old(self).vars@, var_name@),
            r matches Err(e) ==> *final(self) == *old(self) && (e matches
                CodeGenLibError::VarNotExist(n) && n@ == var_name@),
            r is Ok ==> final(self).generated@ == old(self).generated@ + seq![
                AsmInstructionEnum::Load(
                    Register::RAX,
                    spec_stack_operand(
                        old(self).abi,
                        spec_var_offset(old(self).vars@, var_name@) as i64,
                    ),
                ),
                AsmInstructionEnum::Ret,
            ],
            final(self).name == old(self).name,
            final(self).args == old(self).args,
            final(self).vars == old(self).vars,
            final(self).funcs == old(self).funcs,
            final(self).public == old(self).public,
            final(self).abi == old(self).abi,
            final(self).builder == old(self).builder,
    {
        let var = match self.get_var(String::from_str(var_name)) {
            Ok(v) => v,
            Err(e) => {
                return Err(e);
            },
        };
        proof {
            let k1 = choose|k: int|
                0 <= k < self.vars@.len() && self.vars@[k].0@ == var_name@ && var.0@
                    == self.vars@[k].0@ && var.1 == self.vars@[k].1 && (forall|j: int|
                    0 <= j < k ==> self.vars@[j].0@ != var_name@);
            lemma_var_first(self.vars@, var_name@, k1);
        }
        let ghost base = self.generated@;
        let m = self.abi.stack(var.1);
        self.generated.push(AsmInstructionEnum::Load(Register::RAX, m));
        self.generated.push(AsmInstructionEnum::Ret);
        proof {
            assert(self.generated@ =~= base + seq![
                AsmInstructionEnum::Load(
                    Register::RAX,
                    spec_stack_operand(self.abi, spec_var_offset(self.vars@, var_name@) as i64),
                ),
                AsmInstructionEnum::Ret,
            ]);
        }
        Ok(())
    }

    /// Marshals the call argument at 1-based position `index` for the named
    /// callee: the declared signature is scanned up to that position to
    /// recompute the register budget; while the budget lasts the argument
    /// moves into the next free register, otherwise it is pushed, with string
    /// and byte values promoted to a deterministically named private data
    /// label.
    pub fn gen_x_arg_for_func(&mut self, name: &str, index: usize, arg: Type) -> (r: Result<
        (),
        CodeGenLibError,
    >)
        requires
            spec_builder_wf(old(self).builder),
        ensures
            spec_builder_wf(final(self).builder),
            r is Ok <==> spec_func_found(old(self).funcs@, name@) && name@.len() > 0,
            r matches Err(e) ==> *final(self) == *old(self) && (e matches
                CodeGenLibError::FuncNotExist(n) && n@ == name@),
            r is Ok ==> {
                let sig = spec_func_sig(old(self).funcs@, name@);
                let abi = old(self).abi;
                &&& final(self).generated@.len() == old(self).generated@.len()
                    + spec_marshal_count(abi, sig, index as int, arg)
                &&& forall|j: int|
                    0 <= j < old(self).generated@.len() ==> final(self).generated@[j] == old(
                        self,
                    ).generated@[j]
                &&& (spec_marshal_count(abi, sig, index as int, arg) == 1 ==> spec_marshal_instr_ok(
                    abi,
                    sig,
                    old(self).name@,
                    name@,
                    index as int,
                    arg,
                    final(self).generated@.last(),
                ))
                &&& (spec_marshal_promotes(abi, sig, index as int, arg) ==> spec_label_defined(
                    old(self).builder,
                    final(self).builder,
                    spec_promoted_label(old(self).name@, name@, index as int),
                    false,
                    spec_marshal_label_bytes(arg),
                ))
                &&& (!spec_marshal_promotes(abi, sig, index as int, arg) ==> final(self).builder
                    == old(self).builder)
            },
            final(self).name == old(self).name,
            final(self).args == old(self).args,
            final(self).vars == old(self).vars,
            final(self).funcs == old(self).funcs,
            final(self).public == old(self).public,
            final(self).abi == old(self).abi,
    {
        // Find the callee's declared signature; a later registration wins.
        let key = String::from_str(name);
        let mut found: Option<usize> = None;
        let mut k: usize = 0;
        while k < self.funcs.len()
            invariant
                k <= self.funcs@.len(),
                match found {
                    Some(i) => 0 <= i < k && (#[trigger] self.funcs@[i as int]).0@ == key@ && forall|
                        j: int,
                    | i < j < k ==> (#[trigger] self.funcs@[j]).0@ != key@,
                    None => forall|j: int| 0 <= j < k ==> (#[trigger] self.funcs@[j]).0@ != key@,
                },
            decreases self.funcs@.len() - k,
        {
            if self.funcs[k].0.eq(&key) {
                found = Some(k);
            }
            k += 1;
        }
        let fidx = match found {
            Some(i) => i,
            None => {
                return Err(CodeGenLibError::FuncNotExist(key));
            },
        };
        let is_unnamed = key.eq(&String::new());
        proof {
            if name@.len() == 0 {
                assert(name@ =~= Seq::<char>::empty());
            }
        }
        if is_unnamed {
            return Err(CodeGenLibError::FuncNotExist(key));
        }
        proof {
            lemma_func_last(self.funcs@, name@, fidx as int);
        }
        // Recompute the register budget: how many of the declared parameters
        // before this argument's position are register eligible.
        let ghost sig = self.funcs@[fidx as int].1@;
        let mut used_regs: usize = 0;
        let mut p: usize = 0;
        while p < self.funcs[fidx].1.len() && p + 1 < index
            invariant
                fidx < self.funcs@.len(),
                sig == self.funcs@[fidx as int].1@,
                p <= sig.len(),
                p < index || index == 0,
                index == 0 ==> p == 0,
                used_regs <= p,
                used_regs == spec_inreg_count(sig, p as int),
            decreases sig.len() - p,
        {
            if self.funcs[fidx].1[p].in_reg() {
                used_regs += 1;
            }
            p += 1;
        }
        proof {
            if index == 0 {
                // the scan never starts: both counts are zero
            } else if p as int != index as int - 1 {
                assert(p == sig.len());
                lemma_inreg_count_clip(sig, p as int, index as int - 1);
            }
            assert(used_regs == spec_used_regs(sig, index as int));
        }
        let eligible = used_regs < self.abi.reg_args() && arg.in_reg();
        if eligible {
            match arg {
                Type::U32(val) => {
                    let r = self.abi.arg32(used_regs);
                    self.generated.push(AsmInstructionEnum::MovVal(r, val as i64));
                },
                Type::I32(val) => {
                    let r = self.abi.arg32(used_regs);
                    self.generated.push(AsmInstructionEnum::MovVal(r, val as i64));
                },
                Type::U64(val) => {
                    let r = self.abi.arg64(used_regs);
                    self.generated.push(AsmInstructionEnum::MovVal(r, val as i64));
                },
                Type::I64(val) => {
                    let r = self.abi.arg64(used_regs);
                    self.generated.push(AsmInstructionEnum::MovVal(r, val as i64));
                },
                Type::Str(content) => {
                    let label_name = promoted_label(&self.name, name, index);
                    self.builder.define_label(label_name.as_str(), false, content);
                    let r = self.abi.arg64(used_regs);
                    self.generated.push(AsmInstructionEnum::MovPtr(r, label_name));
                },
                _ => {},
            }
        } else {
            match arg {
                Type::Str(content) => {
                    let label_name = promoted_label(&self.name, name, index);
                    self.builder.define_label(label_name.as_str(), false, content);
                    self.generated.push(AsmInstructionEnum::PushPtr(label_name));
                },
                Type::U64(val) => {
                    self.generated.push(AsmInstructionEnum::PushVal(val as i64));
                },
                Type::I64(val) => {
                    self.generated.push(AsmInstructionEnum::PushVal(val as i64));
                },
                Type::U32(val) => {
                    self.generated.push(AsmInstructionEnum::PushVal(val as i64));
                },
                Type::I32(val) => {
                    self.generated.push(AsmInstructionEnum::PushVal(val as i64));
                },
                other => {
                    let content = other.bytes();
                    let label_name = promoted_label(&self.name, name, index);
                    self.builder.define_label(label_name.as_str(), false, content);
                    self.generated.push(AsmInstructionEnum::PushLabel(label_name));
                },
            }
        }
        Ok(())
    }

    /// Marshals every call argument in order, then emits the call itself.
    /// Argument positions count from one; argument `i` is marshaled exactly as
    /// [`IrFunctionBuilder::gen_x_arg_for_func`] with index `i` states.
    pub fn build_call(&mut self, func: &str, args: Vec<Type>) -> (r: Result<(), CodeGenLibError>)
        requires
            spec_builder_wf(old(self).builder),
        ensures
            spec_builder_wf(final(self).builder),
            r is Ok <==> (args@.len() == 0 || (spec_func_found(old(self).funcs@, func@)
                && func@.len() > 0)),
            r matches Err(e) ==> *final(self) == *old(self) && (e matches
                CodeGenLibError::FuncNotExist(n) && n@ == func@),
            r is Ok ==> {
                let sig = spec_func_sig(old(self).funcs@, func@);
                let abi = old(self).abi;
                &&& final(self).generated@.len() == old(self).generated@.len()
                    + spec_marshal_total(abi, sig, args@, args@.len() as int) + 1
                &&& forall|j: int|
                    0 <= j < old(self).generated@.len() ==> final(self).generated@[j] == old(
                        self,
                    ).generated@[j]
                &&& (final(self).generated@.last() matches AsmInstructionEnum::Call(t) && t@
                    == func@)
                &&& forall|i: int|
                    0 <= i < args@.len() && #[trigger] spec_marshal_count(abi, sig, i + 1, args@[i])
                        == 1 ==> spec_marshal_instr_ok(
                        abi,
                        sig,
                        old(self).name@,
                        func@,
                        i + 1,
                        args@[i],
                        final(self).generated@[old(self).generated@.len() + spec_marshal_total(
                            abi,
                            sig,
                            args@,
                            i,
                        )],
                    )
            },
            final(self).name == old(self).name,
            final(self).args == old(self).args,
            final(self).vars == old(self).vars,
            final(self).funcs == old(self).funcs,
            final(self).public == old(self).public,
            final(self).abi == old(self).abi,
            final(self).builder.funcs == old(self).builder.funcs,
            final(self).builder.func_names == old(self).builder.func_names,
            forall|t: Seq<char>|
                #[trigger] crate::x86::builder::spec_has_key(old(self).builder.labels@, t)
                    ==> crate::x86::builder::spec_has_key(final(self).builder.labels@, t),
    {
        let ghost input = args@;
        let ghost sig = spec_func_sig(old(self).funcs@, func@);
        let total_args = args.len();
        let mut remaining = args;
        let mut index: usize = 0;
        while remaining.len() > 0
            invariant
                spec_builder_wf(self.builder),
                input == args@,
                input.len() == total_args,
                index <= input.len(),
                remaining@ =~= input.subrange(index as int, input.len() as int),
                index > 0 ==> spec_func_found(old(self).funcs@, func@) && func@.len() > 0,
                self.name == old(self).name,
                self.args == old(self).args,
                self.vars == old(self).vars,
                self.funcs == old(self).funcs,
                self.public == old(self).public,
                self.abi == old(self).abi,
                self.builder.funcs == old(self).builder.funcs,
                self.builder.func_names == old(self).builder.func_names,
                forall|t: Seq<char>|
                    #[trigger] crate::x86::builder::spec_has_key(old(self).builder.labels@, t)
                        ==> crate::x86::builder::spec_has_key(self.builder.labels@, t),
                index == 0 ==> *self == *old(self),
                sig == spec_func_sig(old(self).funcs@, func@),
                self.generated@.len() == old(self).generated@.len() + spec_marshal_total(
                    self.abi,
                    sig,
                    input,
                    index as int,
                ),
                forall|j: int|
                    0 <= j < old(self).generated@.len() ==> self.generated@[j] == old(
                        self,
                    ).generated@[j],
                forall|i: int|
                    0 <= i < index && #[trigger] spec_marshal_count(self.abi, sig, i + 1, input[i])
                        == 1 ==> spec_marshal_instr_ok(
                        self.abi,
                        sig,
                        old(self).name@,
                        func@,
                        i + 1,
                        input[i],
                        self.generated@[old(self).generated@.len() + spec_marshal_total(
                            self.abi,
                            sig,
                            input,
                            i,
                        )],
                    ),
            decreases remaining@.len(),
        {
            let a = remaining.remove(0);
            proof {
                assert(index < input.len());
                assert(a == input[index as int]);
                lemma_marshal_total_next(self.abi, sig, input, index as int);
                lemma_marshal_total_nonneg(self.abi, sig, input, index as int);
            }
            let ghost pre_call = *self;
            let res = self.gen_x_arg_for_func(func, index + 1, a);
            if let Err(e) = res {
                proof {
                    assert(input.len() > 0);
                    assert(!(spec_func_found(old(self).funcs@, func@) && func@.len() > 0));
                    assert(index == 0);
                }
                return Err(e);
            }
            proof {
                assert forall|t: Seq<char>|
                    #[trigger] crate::x86::builder::spec_has_key(old(self).builder.labels@, t)
                        implies crate::x86::builder::spec_has_key(self.builder.labels@, t) by {
                    if spec_marshal_promotes(self.abi, sig, index as int + 1, input[index as int])
                        && crate::x86::builder::spec_has_key(pre_call.builder.labels@, t) {
                        lemma_label_defined_keeps_keys(
                            pre_call.builder,
                            self.builder,
                            spec_promoted_label(old(self).name@, func@, index as int + 1),
                            false,
                            spec_marshal_label_bytes(input[index as int]),
                            t,
                        );
                    }
                }
                let abi = self.abi;
                let base = old(self).generated@.len();
                assert forall|i: int|
                    0 <= i < index + 1 && #[trigger] spec_marshal_count(abi, sig, i + 1, input[i])
                        == 1 implies spec_marshal_instr_ok(
                    abi,
                    sig,
                    old(self).name@,
                    func@,
                    i + 1,
                    input[i],
                    self.generated@[base + spec_marshal_total(abi, sig, input, i)],
                ) by {
                    lemma_marshal_total_nonneg(abi, sig, input, i);
                    if i < index {
                        lemma_marshal_total_mono(abi, sig, input, i + 1, index as int);
                    } else {
                        assert(self.generated@.last() == self.generated@[base
                            + spec_marshal_total(abi, sig, input, i)]);
                    }
                }
            }
            index += 1;
            proof {
                assert(remaining@ =~= input.subrange(index as int, input.len() as int));
            }
        }
        self.generated.push(AsmInstructionEnum::Call(String::from_str(func)));
        proof {
            lemma_marshal_total_nonneg(self.abi, sig, input, input.len() as int);
            assert forall|i: int|
                0 <= i < input.len() && #[trigger] spec_marshal_count(self.abi, sig, i + 1, input[i])
                    == 1 implies spec_marshal_instr_ok(
                self.abi,
                sig,
                old(self).name@,
                func@,
                i + 1,
                input[i],
                self.generated@[old(self).generated@.len() + spec_marshal_total(
                    self.abi,
                    sig,
                    input,
                    i,
                )],
            ) by {
                lemma_marshal_total_nonneg(self.abi, sig, input, i);
                lemma_marshal_total_mono(self.abi, sig, input, i + 1, input.len() as int);
            }
        }
        Ok(())
    }

    /// Marks the function as exported.
    pub fn set_public(&mut self)
        ensures
            final(self).public,
            final(self).generated == old(self).generated,
            final(self).name == old(self).name,
            final(self).args == old(self).args,
            final(self).vars == old(self).vars,
            final(self).funcs == old(self).funcs,
            final(self).abi == old(self).abi,
            final(self).builder == old(self).builder,
    {
        self.public = true;
    }
}

// ------------------------------------------------------------------
// Name lookup, first and last match.
// ------------------------------------------------------------------

/// Whether the variable table holds the name.
pub open spec fn spec_var_found(vars: Seq<(String, i64)>, name: Seq<char>) -> bool {
    exists|k: int| 0 <= k < vars.len() && vars[k].0@ == name
}

/// The first variable table entry of the name.
pub open spec fn spec_var_first(vars: Seq<(String, i64)>, name: Seq<char>) -> int {
    choose|k: int|
        0 <= k < vars.len() && vars[k].0@ == name && (forall|j: int|
            0 <= j < k ==> vars[j].0@ != name)
}

/// The frame offset the variable table gives the name.
pub open spec fn spec_var_offset(vars: Seq<(String, i64)>, name: Seq<char>) -> int {
    vars[spec_var_first(vars, name)].1 as int
}

/// A first match pins the choice: any index that matches with none before it
/// is the first match.
proof fn lemma_var_first(vars: Seq<(String, i64)>, name: Seq<char>, k: int)
    requires
        0 <= k < vars.len(),
        vars[k].0@ == name,
        forall|j: int| 0 <= j < k ==> vars[j].0@ != name,
    ensures
        spec_var_found(vars, name),
        spec_var_first(vars, name) == k,
{
    let c = spec_var_first(vars, name);
    assert(0 <= c < vars.len() && vars[c].0@ == name && (forall|j: int|
        0 <= j < c ==> vars[j].0@ != name));
}

/// Whether the signature table holds the callable name.
pub open spec fn spec_func_found(funcs: Seq<(String, Vec<Type>)>, name: Seq<char>) -> bool {
    exists|k: int| 0 <= k < funcs.len() && funcs[k].0@ == name
}

/// The last registered signature of the callable name; a later registration
/// wins.
pub open spec fn spec_func_last(funcs: Seq<(String, Vec<Type>)>, name: Seq<char>) -> int {
    choose|k: int|
        0 <= k < funcs.len() && funcs[k].0@ == name && (forall|j: int|
            k < j < funcs.len() ==> funcs[j].0@ != name)
}

/// The declared parameter types the table gives the callable name.
pub open spec fn spec_func_sig(funcs: Seq<(String, Vec<Type>)>, name: Seq<char>) -> Seq<Type> {
    funcs[spec_func_last(funcs, name)].1@
}

/// A last match pins the choice.
proof fn lemma_func_last(funcs: Seq<(String, Vec<Type>)>, name: Seq<char>, k: int)
    requires
        0 <= k < funcs.len(),
        funcs[k].0@ == name,
        forall|j: int| k < j < funcs.len() ==> funcs[j].0@ != name,
    ensures
        spec_func_found(funcs, name),
        spec_func_last(funcs, name) == k,
{
    let c = spec_func_last(funcs, name);
    assert(0 <= c < funcs.len() && funcs[c].0@ == name && (forall|j: int|
        c < j < funcs.len() ==> funcs[j].0@ != name));
}

// ------------------------------------------------------------------
// The call argument register budget.
// ------------------------------------------------------------------

/// How many of the first `k` declared parameters are register eligible;
/// positions past the signature's end consume nothing.
pub open spec fn spec_inreg_count(sig: Seq<Type>, k: int) -> int
    decreases k,
{
    if k <= 0 {
        0
    } else {
        spec_inreg_count(sig, k - 1) + if k <= sig.len() && spec_in_reg(sig[k - 1]) {
            1int
        } else {
            0int
        }
    }
}

/// The register budget a call argument at 1-based position `index` sees: how
/// many registers the declared parameters before its position consume.
pub open spec fn spec_used_regs(sig: Seq<Type>, index: int) -> int {
    spec_inreg_count(sig, index - 1)
}

/// Positions past the signature's end add nothing to the count.
proof fn lemma_inreg_count_clip(sig: Seq<Type>, k1: int, k2: int)
    requires
        sig.len() <= k1 <= k2,
    ensures
        spec_inreg_count(sig, k2) == spec_inreg_count(sig, k1),
    decreases k2 - k1,
{
    if k1 < k2 {
        lemma_inreg_count_clip(sig, k1, k2 - 1);
    }
}

// ------------------------------------------------------------------
// The marshaling of one call argument.
// ------------------------------------------------------------------

/// How many instructions marshaling the call argument at 1-based position
/// `index` appends: a register eligible pointer value in register position
/// appends none (no concrete form exists for it), everything else appends
/// exactly one.
pub open spec fn spec_marshal_count(abi: Abi, sig: Seq<Type>, index: int, arg: Type) -> int {
    if spec_used_regs(sig, index) < abi.reg_args && spec_in_reg(arg) {
        match arg {
            Type::U64(_) => 1,
            Type::U32(_) => 1,
            Type::I64(_) => 1,
            Type::I32(_) => 1,
            Type::Str(_) => 1,
            _ => 0,
        }
    } else {
        1
    }
}

/// Whether marshaling one call argument promotes it to a data label: string
/// literals always are, and any stack passed value that is not an integer is
/// pushed by label too.
pub open spec fn spec_marshal_promotes(abi: Abi, sig: Seq<Type>, index: int, arg: Type) -> bool {
    if spec_used_regs(sig, index) < abi.reg_args && spec_in_reg(arg) {
        arg is Str
    } else {
        match arg {
            Type::U64(_) => false,
            Type::U32(_) => false,
            Type::I64(_) => false,
            Type::I32(_) => false,
            _ => true,
        }
    }
}

/// The byte content of the promoted label: the literal's bytes.
pub open spec fn spec_marshal_label_bytes(arg: Type) -> Seq<u8> {
    match arg {
        Type::Str(content) => content@,
        _ => spec_type_bytes(arg),
    }
}

/// Whether the appended instruction is the right marshaling step for the
/// argument: integers move into the next free register or are pushed, string
/// and byte values go through their promoted label.
pub open spec fn spec_marshal_instr_ok(
    abi: Abi,
    sig: Seq<Type>,
    caller: Seq<char>,
    callee: Seq<char>,
    index: int,
    arg: Type,
    instr: AsmInstructionEnum,
) -> bool {
    let used = spec_used_regs(sig, index);
    let lbl = spec_promoted_label(caller, callee, index);
    if used < abi.reg_args && spec_in_reg(arg) {
        match arg {
            Type::U32(v) => instr == AsmInstructionEnum::MovVal(
                spec_arg32(abi, used as usize),
                v as i64,
            ),
            Type::I32(v) => instr == AsmInstructionEnum::MovVal(
                spec_arg32(abi, used as usize),
                v as i64,
            ),
            Type::U64(v) => instr == AsmInstructionEnum::MovVal(
                spec_arg64(abi, used as usize),
                v as i64,
            ),
            Type::I64(v) => instr == AsmInstructionEnum::MovVal(
                spec_arg64(abi, used as usize),
                v as i64,
            ),
            Type::Str(_) => instr matches AsmInstructionEnum::MovPtr(r, s) && r == spec_arg64(
                abi,
                used as usize,
            ) && s@ == lbl,
            _ => false,
        }
    } else {
        match arg {
            Type::Str(_) => instr matches AsmInstructionEnum::PushPtr(s) && s@ == lbl,
            Type::U64(v) => instr == AsmInstructionEnum::PushVal(v as i64),
            Type::I64(v) => instr == AsmInstructionEnum::PushVal(v as i64),
            Type::U32(v) => instr == AsmInstructionEnum::PushVal(v as i64),
            Type::I32(v) => instr == AsmInstructionEnum::PushVal(v as i64),
            _ => instr matches AsmInstructionEnum::PushLabel(s) && s@ == lbl,
        }
    }
}

/// The instructions marshaling the first `k` call arguments appends; argument
/// `j` is marshaled at 1-based position `j + 1`.
pub open spec fn spec_marshal_total(abi: Abi, sig: Seq<Type>, args: Seq<Type>, k: int) -> int
    decreases k,
{
    if k <= 0 {
        0
    } else {
        spec_marshal_total(abi, sig, args, k - 1) + spec_marshal_count(abi, sig, k, args[k - 1])
    }
}

/// The marshaling total is never negative.
proof fn lemma_marshal_total_nonneg(abi: Abi, sig: Seq<Type>, args: Seq<Type>, k: int)
    ensures
        spec_marshal_total(abi, sig, args, k) >= 0,
    decreases k,
{
    if k > 0 {
        lemma_marshal_total_nonneg(abi, sig, args, k - 1);
    }
}

/// The marshaling total grows with more arguments.
proof fn lemma_marshal_total_mono(abi: Abi, sig: Seq<Type>, args: Seq<Type>, k1: int, k2: int)
    requires
        0 <= k1 <= k2,
    ensures
        spec_marshal_total(abi, sig, args, k1) <= spec_marshal_total(abi, sig, args, k2),
    decreases k2 - k1,
{
    if k1 < k2 {
        lemma_marshal_total_mono(abi, sig, args, k1, k2 - 1);
    }
}

/// One step of the marshaling total.
proof fn lemma_marshal_total_next(abi: Abi, sig: Seq<Type>, args: Seq<Type>, k: int)
    requires
        0 <= k,
    ensures
        spec_marshal_total(abi, sig, args, k + 1) == spec_marshal_total(abi, sig, args, k)
            + spec_marshal_count(abi, sig, k + 1, args[k]),
{
}

/// Defining a data label keeps every key the label map already carried.
proof fn lemma_label_defined_keeps_keys(
    old_b: Builder,
    new_b: Builder,
    key: Seq<char>,
    public: bool,
    content: Seq<u8>,
    t: Seq<char>,
)
    requires
        spec_label_defined(old_b, new_b, key, public, content),
        crate::x86::builder::spec_has_key(old_b.labels@, t),
    ensures
        crate::x86::builder::spec_has_key(new_b.labels@, t),
{
    let w = choose|w: int| 0 <= w < old_b.labels@.len() && old_b.labels@[w].0@ == t;
    if crate::x86::builder::spec_has_key(old_b.labels@, key) {
        let i = crate::x86::builder::spec_key_index(old_b.labels@, key);
        if w == i {
            assert(old_b.labels@[i].0@ == key);
            assert(new_b.labels@[i].0@ == t);
        } else {
            assert(new_b.labels@[w] == old_b.labels@[w]);
        }
    } else {
        assert(new_b.labels@[w] == old_b.labels@[w]);
    }
}

/// The effect of defining one data label on a builder: the label map is
/// updated or extended at the key, the key is appended to the name order, and
/// the function side is untouched.
pub open spec fn spec_label_defined(
    old_b: Builder,
    new_b: Builder,
    key: Seq<char>,
    public: bool,
    content: Seq<u8>,
) -> bool {
    &&& new_b.funcs == old_b.funcs
    &&& new_b.func_names == old_b.func_names
    &&& crate::x86::builder::spec_pushed_name(old_b.label_names@, new_b.label_names@, key)
    &&& (crate::x86::builder::spec_has_key(old_b.labels@, key) ==> {
        let i = crate::x86::builder::spec_key_index(old_b.labels@, key);
        &&& new_b.labels@.len() == old_b.labels@.len()
        &&& new_b.labels@[i].0@ == key
        &&& new_b.labels@[i].1.0 == public
        &&& new_b.labels@[i].1.1@ == content
        &&& forall|j: int|
            0 <= j < old_b.labels@.len() && j != i ==> new_b.labels@[j] == old_b.labels@[j]
    })
    &&& (!crate::x86::builder::spec_has_key(old_b.labels@, key) ==> {
        &&& new_b.labels@.len() == old_b.labels@.len() + 1
        &&& new_b.labels@[old_b.labels@.len() as int].0@ == key
        &&& new_b.labels@[old_b.labels@.len() as int].1.0 == public
        &&& new_b.labels@[old_b.labels@.len() as int].1.1@ == content
        &&& forall|j: int|
            0 <= j < old_b.labels@.len() ==> new_b.labels@[j] == old_b.labels@[j]
    })
}

// ------------------------------------------------------------------
// Laws of the layout algorithm.
// ------------------------------------------------------------------

/// How many of the first `k` argument descriptors are register assigned.
pub open spec fn spec_reg_assigned_count(ads: Seq<ArgDescr>, k: int) -> int
    decreases k,
{
    if k <= 0 {
        0
    } else {
        spec_reg_assigned_count(ads, k - 1) + if ads[k - 1].0.2 is Some {
            1int
        } else {
            0int
        }
    }
}

/// The spill stream holds exactly one store per register assigned argument.
proof fn lemma_spill_stores_len(abi: Abi, ads: Seq<ArgDescr>, k: int)
    requires
        0 <= k,
    ensures
        spec_spill_stores(abi, ads, k).len() == spec_reg_assigned_count(ads, k),
    decreases k,
{
    if k > 0 {
        lemma_spill_stores_len(abi, ads, k - 1);
    }
}

/// Register assigned counts only grow.
proof fn lemma_reg_assigned_mono(ads: Seq<ArgDescr>, k1: int, k2: int)
    requires
        0 <= k1 <= k2,
    ensures
        spec_reg_assigned_count(ads, k1) <= spec_reg_assigned_count(ads, k2),
    decreases k2 - k1,
{
    if k1 < k2 {
        lemma_reg_assigned_mono(ads, k1, k2 - 1);
    }
}

/// Spill completeness: the spill stream that the variable layout emits holds
/// exactly one store per register assigned argument; the store of argument `i`
/// stands at the position counting the register assigned arguments before it,
/// writes that argument's register, and targets that argument's recorded
/// negative frame slot.  The stores stand at the head of the stream the
/// variable layout appends, before any instruction that later code emits
/// against the argument's name.
pub proof fn lemma_spill_completeness(abi: Abi, ads: Seq<ArgDescr>, i: int)
    requires
        0 <= i < ads.len(),
        ads[i].0.2 is Some,
    ensures
        spec_spill_stores(abi, ads, ads.len() as int).len() == spec_reg_assigned_count(
            ads,
            ads.len() as int,
        ),
        0 <= spec_reg_assigned_count(ads, i) < spec_spill_stores(abi, ads, ads.len() as int).len(),
        spec_spill_stores(abi, ads, ads.len() as int)[spec_reg_assigned_count(ads, i)]
            == AsmInstructionEnum::Store(
            ads[i].0.2->0,
            spec_stack_operand(abi, (0 - spec_spill_offset(abi, ads, i)) as i64),
        ),
{
    lemma_spill_stores_len(abi, ads, ads.len() as int);
    lemma_reg_assigned_mono(ads, 0, i);
    lemma_reg_assigned_mono(ads, i + 1, ads.len() as int);
    lemma_spill_index_base(abi, ads, i, ads.len() as int);
}

/// The store of argument `i` closes the spill prefix that ends right after it.
proof fn lemma_spill_index_base(abi: Abi, ads: Seq<ArgDescr>, i: int, k: int)
    requires
        0 <= i < k <= ads.len(),
        ads[i].0.2 is Some,
    ensures
        spec_spill_stores(abi, ads, k)[spec_reg_assigned_count(ads, i)]
            == AsmInstructionEnum::Store(
            ads[i].0.2->0,
            spec_stack_operand(abi, (0 - spec_spill_offset(abi, ads, i)) as i64),
        ),
    decreases k,
{
    lemma_spill_stores_len(abi, ads, i);
    if k == i + 1 {
        let entry = seq![
            AsmInstructionEnum::Store(
                ads[i].0.2->0,
                spec_stack_operand(abi, (0 - spec_spill_offset(abi, ads, i)) as i64),
            ),
        ];
        assert(spec_spill_stores(abi, ads, k) == spec_spill_stores(abi, ads, i) + entry);
        assert((spec_spill_stores(abi, ads, i) + entry)[spec_spill_stores(abi, ads, i).len() as int]
            == entry[0]);
    } else {
        lemma_spill_index_base(abi, ads, i, k - 1);
        lemma_spill_stores_len(abi, ads, k - 1);
        lemma_reg_assigned_mono(ads, i + 1, k - 1);
    }
}

/// Layout determinism: the argument layout is a pure function of the calling
/// convention and the declared types.  Two runs over the same declarations
/// under component wise equal calling conventions assign every argument the
/// same register and the same summed sizes, so the later variable layout
/// yields identical offsets too.
pub proof fn lemma_layout_deterministic(abi1: Abi, abi2: Abi, args: Seq<(&str, Type)>, k: int)
    requires
        spec_abi_matches(abi1, abi2),
        0 <= k,
    ensures
        spec_args_regcount(abi1, args, k) == spec_args_regcount(abi2, args, k),
        forall|i: int|
            0 <= i < k ==> spec_arg_register(abi1, args, i) == spec_arg_register(abi2, args, i),
    decreases k,
{
    if k > 0 {
        lemma_layout_deterministic(abi1, abi2, args, k - 1);
    }
}

/// Variable layout determinism: under component wise equal calling
/// conventions, equal argument descriptors spill to the same stores and the
/// variable table records the same offsets.
pub proof fn lemma_var_layout_deterministic(abi1: Abi, abi2: Abi, ads: Seq<ArgDescr>, k: int)
    requires
        spec_abi_matches(abi1, abi2),
        0 <= k <= ads.len(),
    ensures
        spec_spill_stores(abi1, ads, k) == spec_spill_stores(abi2, ads, k),
        forall|i: int|
            0 <= i < k ==> spec_arg_var_entry(abi1, ads, i) == spec_arg_var_entry(abi2, ads, i),
    decreases k,
{
    if k > 0 {
        lemma_var_layout_deterministic(abi1, abi2, ads, k - 1);
    }
}

// ------------------------------------------------------------------
// The module level builder.
// ------------------------------------------------------------------

/// Collects finished function builders for one translation unit and owns the
/// module builder and calling convention they share.
#[derive(Debug)]
pub struct IrBuilder {
    /// The finished function builders, in definition order.
    pub functs: Vec<IrFunctionBuilder>,
    /// The module builder the functions are folded into.
    pub build: Builder,
    /// The calling convention of the translation unit.
    pub abi: Abi,
}

impl IrBuilder {
    /// Creates a module level builder for the given calling convention.
    pub fn new(target: Abi) -> (r: Self)
        ensures
            r.functs@.len() == 0,
            r.build.funcs@.len() == 0,
            r.build.labels@.len() == 0,
            r.build.func_names@.len() == 0,
            r.build.label_names@.len() == 0,
            spec_builder_wf(r.build),
            r.abi == target,
    {
        Self { functs: Vec::new(), build: Builder::new(), abi: target }
    }

    /// Takes a finished function builder into the translation unit.
    pub fn add(&mut self, func: IrFunctionBuilder)
        ensures
            final(self).functs@ == old(self).functs@.push(func),
            final(self).build == old(self).build,
            final(self).abi == old(self).abi,
    {
        self.functs.push(func);
    }

    /// Folds every function into the module builder, canonicalizing each
    /// stream, and resolves the whole unit for the object writer; the
    /// container format of the calling convention comes along.
    pub fn assemble(&mut self) -> (r: (crate::x86::builder::AssembledModule, crate::abi::BinFormat))
        requires
            spec_builder_wf(old(self).build),
        ensures
            r.1 == old(self).abi.bin,
            forall|k: int|
                0 <= k < old(self).functs@.len() ==> crate::x86::builder::spec_module_declares_func(
                    r.0.funcs@,
                    (#[trigger] old(self).functs@[k]).name@,
                ),
    {
        let ghost input = self.functs@;
        let ghost input_abi = self.abi;
        let total = self.functs.len();
        let mut index: usize = 0;
        while self.functs.len() > 0
            invariant
                spec_builder_wf(self.build),
                self.abi == input_abi,
                input.len() == total,
                index <= input.len(),
                self.functs@ =~= input.subrange(index as int, input.len() as int),
                forall|k: int|
                    0 <= k < index ==> crate::x86::builder::spec_has_key(
                        self.build.funcs@,
                        (#[trigger] input[k]).name@,
                    ),
            decreases self.functs@.len(),
        {
            let func = self.functs.remove(0);
            let ghost pre_sync = self.build.funcs@;
            self.build.sync(&func.builder);
            proof {
                lemma_keys_kept_by_extension(pre_sync, self.build.funcs@, input, index as int);
            }
            let ghost pre_def = self.build.funcs@;
            let name = func.name.clone();
            let _ = self.build.define(name.as_str(), func.public, func.generated);
            proof {
                assert forall|k: int|
                    0 <= k < index + 1 implies crate::x86::builder::spec_has_key(
                    self.build.funcs@,
                    (#[trigger] input[k]).name@,
                ) by {
                    if k < index {
                        let w = choose|w: int|
                            0 <= w < pre_def.len() && pre_def[w].0@ == input[k].name@;
                        if crate::x86::builder::spec_has_key(pre_def, func.name@) {
                            let i = crate::x86::builder::spec_key_index(pre_def, func.name@);
                            if w == i {
                                assert(self.build.funcs@[i].0@ == input[k].name@);
                            } else {
                                assert(self.build.funcs@[w] == pre_def[w]);
                            }
                        } else {
                            assert(self.build.funcs@[w] == pre_def[w]);
                        }
                    } else {
                        if crate::x86::builder::spec_has_key(pre_def, func.name@) {
                            let i = crate::x86::builder::spec_key_index(pre_def, func.name@);
                            assert(self.build.funcs@[i].0@ == func.name@);
                        } else {
                            assert(self.build.funcs@[pre_def.len() as int].0@ == func.name@);
                        }
                    }
                }
            }
            index += 1;
        }
        let module = self.build.assemble();
        proof {
            assert forall|k: int|
                0 <= k < old(self).functs@.len() implies crate::x86::builder::spec_module_declares_func(
                module.funcs@,
                (#[trigger] old(self).functs@[k]).name@,
            ) by {
                assert(crate::x86::builder::spec_has_key(self.build.funcs@, input[k].name@));
                let w = choose|w: int|
                    0 <= w < self.build.funcs@.len() && self.build.funcs@[w].0@ == input[k].name@;
                assert(module.funcs@[w].0@ == old(self).functs@[k].name@);
            }
        }
        (module, self.abi.binary_format())
    }
}

/// A keyed list that only grew at the end keeps every key it had.
proof fn lemma_keys_kept_by_extension(
    pre: Seq<(String, (bool, Vec<AsmInstructionEnum>))>,
    post: Seq<(String, (bool, Vec<AsmInstructionEnum>))>,
    input: Seq<IrFunctionBuilder>,
    index: int,
)
    requires
        pre.len() <= post.len(),
        forall|j: int| 0 <= j < pre.len() ==> post[j] == pre[j],
        forall|k: int|
            0 <= k < index ==> crate::x86::builder::spec_has_key(pre, (#[trigger] input[k]).name@),
    ensures
        forall|k: int|
            0 <= k < index ==> crate::x86::builder::spec_has_key(post, (#[trigger] input[k]).name@),
{
    assert forall|k: int|
        0 <= k < index implies crate::x86::builder::spec_has_key(
        post,
        (#[trigger] input[k]).name@,
    ) by {
        let w = choose|w: int| 0 <= w < pre.len() && pre[w].0@ == input[k].name@;
        assert(post[w].0@ == input[k].name@);
    }
}

} // verus!
