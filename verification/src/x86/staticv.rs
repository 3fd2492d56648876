//! Static values: named constants a module can carry.

use vstd::prelude::*;
use vstd::string::StringExecFns;

verus! {

/// The handler for one static value: its name, its bytes, and whether it is
/// globally visible.
#[derive(Debug)]
pub struct StaticValue {
    pub name: String,
    pub value: Vec<u8>,
    pub global: bool,
}

impl StaticValue {
    /// Creates an empty static value.
    pub fn new(name: &str, global: bool) -> (r: Self)
        ensures
            r.name@ == name@,
            r.value@.len() == 0,
            r.global == global,
    {
        Self { name: String::from_str(name), value: Vec::new(), global }
    }

    /// Sets the constant's bytes.
    pub fn set(&mut self, value: Vec<u8>)
        ensures
            final(self).value@ == value@,
            final(self).name == old(self).name,
            final(self).global == old(self).global,
    {
        self.value = value;
    }

    /// Appends to the constant's bytes.
    pub fn add(&mut self, value: Vec<u8>)
        ensures
            final(self).value@ == old(self).value@ + value@,
            final(self).name == old(self).name,
            final(self).global == old(self).global,
    {
        let ghost input = value@;
        let mut k: usize = 0;
        while k < value.len()
            invariant
                k <= value@.len(),
                value@ == input,
                self.name == old(self).name,
                self.global == old(self).global,
                self.value@ == old(self).value@ + input.subrange(0, k as int),
            decreases value@.len() - k,
        {
            self.value.push(value[k]);
            proof {
                assert(old(self).value@ + input.subrange(0, k as int + 1) =~= old(self).value@
                    + input.subrange(0, k as int) + seq![input[k as int]]);
            }
            k += 1;
        }
        proof {
            assert(input.subrange(0, input.len() as int) =~= input);
        }
    }

    /// Clears the constant.
    pub fn clear(&mut self)
        ensures
            final(self).value@.len() == 0,
            final(self).name == old(self).name,
            final(self).global == old(self).global,
    {
        self.value = Vec::new();
    }
}

} // verus!
