//! Variables of the direct function writer.

use vstd::prelude::*;
use vstd::string::StringExecFns;

use crate::x86::mem::AdressManager;
use crate::x86::mem::spec_adr_entry;

verus! {

/// The size or type of a variable.
pub enum VarDataType {
    U16,
    I16,
    U32,
    I32,
    U64,
    I64,
    Custom(u64),
}

/// The size in bytes a variable type stands for.
pub open spec fn spec_var_size(typ: VarDataType) -> u64 {
    match typ {
        VarDataType::Custom(x) => x,
        VarDataType::I16 => 2,
        VarDataType::I32 => 4,
        VarDataType::I64 => 8,
        VarDataType::U16 => 2,
        VarDataType::U32 => 4,
        VarDataType::U64 => 8,
    }
}

/// The handler for one variable: its size, its name, and its own copy of the
/// address manager it was created against.
#[derive(Debug)]
pub struct Variabel {
    pub size: u64,
    pub name: String,
    pub adrmng: AdressManager,
    pub initalized: bool,
}

impl Variabel {
    /// Creates a variable of the given type and name against the manager.
    pub fn new(typ: VarDataType, name: &String, adrmng: &AdressManager) -> (r: Self)
        ensures
            r.size == spec_var_size(typ),
            r.name@ == name@,
            !r.initalized,
            r.adrmng.adrbox.last_adr == adrmng.adrbox.last_adr,
            r.adrmng.adrbox.adress@.len() == adrmng.adrbox.adress@.len(),
            forall|k: int|
                0 <= k < adrmng.adrbox.adress@.len() ==> (#[trigger] r.adrmng.adrbox.adress@[k]).0@
                    == adrmng.adrbox.adress@[k].0@ && r.adrmng.adrbox.adress@[k].1
                    == adrmng.adrbox.adress@[k].1,
    {
        let size: u64 = match typ {
            VarDataType::Custom(x) => x,
            VarDataType::I16 => 2,
            VarDataType::I32 => 4,
            VarDataType::I64 => 8,
            VarDataType::U16 => 2,
            VarDataType::U32 => 4,
            VarDataType::U64 => 8,
        };
        Self { size, name: name.clone(), adrmng: adrmng.clone(), initalized: false }
    }

    /// Returns the address the variable's manager copy has for its name.
    pub fn adr(&self) -> (r: u64)
        ensures
            spec_adr_entry(self.adrmng.adrbox.adress@, self.name@).size == 0 ==> r == -1i128 as u64,
            spec_adr_entry(self.adrmng.adrbox.adress@, self.name@).size != 0 ==> r
                == spec_adr_entry(self.adrmng.adrbox.adress@, self.name@).adr as i128 as u64,
    {
        self.adrmng.get_adr(&self.name) as u64
    }

    /// Registers the variable with its manager copy once it is flagged as
    /// initialized, and clears the flag.
    pub fn init(&mut self)
        requires
            old(self).initalized ==> old(self).adrmng.adrbox.last_adr + old(self).size
                <= u64::MAX,
        ensures
            !old(self).initalized ==> *final(self) == *old(self),
            !final(self).initalized,
            final(self).size == old(self).size,
            final(self).name == old(self).name,
    {
        if self.initalized {
            let name = self.name.clone();
            let size = self.size;
            self.adrmng.reg_var(&name, size);
            self.initalized = false;
        }
    }
}

impl Clone for Variabel {
    /// The copy agrees with the original in every component.
    fn clone(&self) -> (r: Self)
        ensures
            r.size == self.size,
            r.name@ == self.name@,
            r.initalized == self.initalized,
            r.adrmng.adrbox.last_adr == self.adrmng.adrbox.last_adr,
            r.adrmng.adrbox.adress@.len() == self.adrmng.adrbox.adress@.len(),
            forall|k: int|
                0 <= k < self.adrmng.adrbox.adress@.len() ==> (
                #[trigger] r.adrmng.adrbox.adress@[k]).0@ == self.adrmng.adrbox.adress@[k].0@
                    && r.adrmng.adrbox.adress@[k].1 == self.adrmng.adrbox.adress@[k].1,
    {
        Variabel {
            size: self.size,
            name: self.name.clone(),
            adrmng: self.adrmng.clone(),
            initalized: self.initalized,
        }
    }
}

} // verus!
