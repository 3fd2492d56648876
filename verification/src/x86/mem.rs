//! Address bookkeeping for the direct function writer: a running allocation
//! cursor and a name to address table.

use vstd::prelude::*;
use vstd::string::StringExecFns;

verus! {

/// One allocation: its size and its address.
#[derive(Clone, Copy, Debug, PartialEq, Eq, Structural)]
pub struct AdressBoxEntry {
    pub size: u64,
    pub adr: u64,
}

/// The address table: registered names with their entries, and the next free
/// address.
#[derive(Debug)]
pub struct AdressBox {
    pub adress: Vec<(String, AdressBoxEntry)>,
    pub last_adr: u64,
}

impl AdressBox {
    /// Creates an empty table whose cursor starts at the given address.
    pub fn new(start_adr: u64) -> (r: Self)
        ensures
            r.adress@.len() == 0,
            r.last_adr == start_adr,
    {
        Self { adress: Vec::new(), last_adr: start_adr }
    }
}

/// Whether the table holds the name.
pub open spec fn spec_adr_contains(m: Seq<(String, AdressBoxEntry)>, name: Seq<char>) -> bool {
    exists|k: int| 0 <= k < m.len() && m[k].0@ == name
}

/// The first table entry of the name.
pub open spec fn spec_adr_first(m: Seq<(String, AdressBoxEntry)>, name: Seq<char>) -> int {
    choose|k: int|
        0 <= k < m.len() && m[k].0@ == name && (forall|j: int| 0 <= j < k ==> m[j].0@ != name)
}

/// The entry the table gives the name: the first match, or a zero entry when
/// the name is unknown.
pub open spec fn spec_adr_entry(
    m: Seq<(String, AdressBoxEntry)>,
    name: Seq<char>,
) -> AdressBoxEntry {
    if spec_adr_contains(m, name) {
        m[spec_adr_first(m, name)].1
    } else {
        AdressBoxEntry { size: 0, adr: 0 }
    }
}

/// A first match pins the choice.
proof fn lemma_adr_first(m: Seq<(String, AdressBoxEntry)>, name: Seq<char>, k: int)
    requires
        0 <= k < m.len(),
        m[k].0@ == name,
        forall|j: int| 0 <= j < k ==> m[j].0@ != name,
    ensures
        spec_adr_contains(m, name),
        spec_adr_first(m, name) == k,
{
    let c = spec_adr_first(m, name);
    assert(0 <= c < m.len() && m[c].0@ == name && (forall|j: int| 0 <= j < c ==> m[j].0@ != name));
}

/// The handler for memory management: an address table plus an optional
/// memory range it is meant to stay in.
#[derive(Debug)]
pub struct AdressManager {
    pub adrbox: AdressBox,
    pub mem_range_start: u64,
    pub mem_range_end: u64,
    pub mem_range: bool,
}

impl AdressManager {
    /// Creates a manager for the given memory range; equal bounds mean no
    /// range.
    pub fn new(mem_range: (u64, u64)) -> (r: Self)
        ensures
            r.adrbox.adress@.len() == 0,
            r.adrbox.last_adr == mem_range.0,
            r.mem_range_start == mem_range.0,
            r.mem_range_end == mem_range.1,
            r.mem_range == (mem_range.0 != mem_range.1),
    {
        let (mem_range_start, mem_range_end) = mem_range;
        let mem_rang = mem_range_start != mem_range_end;
        Self {
            adrbox: AdressBox::new(mem_range_start),
            mem_range: mem_rang,
            mem_range_start,
            mem_range_end,
        }
    }

    /// Registers a variable of the given size at the next free address and
    /// returns that address; an already registered name is refused with -1.
    pub fn reg_var(&mut self, name: &String, size: u64) -> (r: i128)
        requires
            old(self).adrbox.last_adr + size <= u64::MAX,
        ensures
            final(self).mem_range_start == old(self).mem_range_start,
            final(self).mem_range_end == old(self).mem_range_end,
            final(self).mem_range == old(self).mem_range,
            spec_adr_contains(old(self).adrbox.adress@, name@) ==> r == -1 && final(self).adrbox
                == old(self).adrbox,
            !spec_adr_contains(old(self).adrbox.adress@, name@) ==> {
                &&& r == old(self).adrbox.last_adr as i128
                &&& final(self).adrbox.last_adr == old(self).adrbox.last_adr + size
                &&& final(self).adrbox.adress@.len() == old(self).adrbox.adress@.len() + 1
                &&& final(self).adrbox.adress@[old(self).adrbox.adress@.len() as int].0@ == name@
                &&& final(self).adrbox.adress@[old(self).adrbox.adress@.len() as int].1
                    == (AdressBoxEntry { size, adr: old(self).adrbox.last_adr })
                &&& forall|j: int|
                    0 <= j < old(self).adrbox.adress@.len() ==> final(self).adrbox.adress@[j]
                        == old(self).adrbox.adress@[j]
            },
    {
        let adr = self.adrbox.last_adr;
        let entry = AdressBoxEntry { size, adr };
        let mut k: usize = 0;
        while k < self.adrbox.adress.len()
            invariant
                k <= self.adrbox.adress@.len(),
                *self == *old(self),
                forall|j: int| 0 <= j < k ==> (#[trigger] self.adrbox.adress@[j]).0@ != name@,
            decreases self.adrbox.adress@.len() - k,
        {
            if self.adrbox.adress[k].0.eq(name) {
                return -1;
            }
            k += 1;
        }
        self.adrbox.adress.push((name.clone(), entry));
        self.adrbox.last_adr = self.adrbox.last_adr + size;
        adr as i128
    }

    /// Returns the entry registered under the name; an entry of size 0 means
    /// the name is unknown.
    pub fn get_entry(&self, name: &String) -> (r: AdressBoxEntry)
        ensures
            r == spec_adr_entry(self.adrbox.adress@, name@),
    {
        let mut k: usize = 0;
        while k < self.adrbox.adress.len()
            invariant
                k <= self.adrbox.adress@.len(),
                forall|j: int| 0 <= j < k ==> (#[trigger] self.adrbox.adress@[j]).0@ != name@,
            decreases self.adrbox.adress@.len() - k,
        {
            if self.adrbox.adress[k].0.eq(name) {
                proof {
                    lemma_adr_first(self.adrbox.adress@, name@, k as int);
                }
                return self.adrbox.adress[k].1;
            }
            k += 1;
        }
        AdressBoxEntry { size: 0, adr: 0 }
    }

    /// Returns the address registered under the name, or -1 when it is
    /// unknown.
    pub fn get_adr(&self, name: &String) -> (r: i128)
        ensures
            spec_adr_entry(self.adrbox.adress@, name@).size == 0 ==> r == -1,
            spec_adr_entry(self.adrbox.adress@, name@).size != 0 ==> r == spec_adr_entry(
                self.adrbox.adress@,
                name@,
            ).adr as i128,
    {
        let entry = self.get_entry(name);
        if entry.size == 0 {
            return -1;
        }
        entry.adr as i128
    }

    /// Returns the size registered under the name, or -1 when it is unknown.
    pub fn get_size(&self, name: &String) -> (r: i128)
        ensures
            spec_adr_entry(self.adrbox.adress@, name@).size == 0 ==> r == -1,
            spec_adr_entry(self.adrbox.adress@, name@).size != 0 ==> r == spec_adr_entry(
                self.adrbox.adress@,
                name@,
            ).size as i128,
    {
        let entry = self.get_entry(name);
        if entry.size == 0 {
            return -1;
        }
        entry.size as i128
    }
}

impl Clone for AdressManager {
    /// The copy agrees with the original in every component.
    fn clone(&self) -> (r: Self)
        ensures
            r.adrbox.last_adr == self.adrbox.last_adr,
            r.adrbox.adress@.len() == self.adrbox.adress@.len(),
            forall|k: int|
                0 <= k < self.adrbox.adress@.len() ==> (#[trigger] r.adrbox.adress@[k]).0@
                    == self.adrbox.adress@[k].0@ && r.adrbox.adress@[k].1
                    == self.adrbox.adress@[k].1,
            r.mem_range_start == self.mem_range_start,
            r.mem_range_end == self.mem_range_end,
            r.mem_range == self.mem_range,
    {
        let mut adress: Vec<(String, AdressBoxEntry)> = Vec::new();
        let mut k: usize = 0;
        while k < self.adrbox.adress.len()
            invariant
                k <= self.adrbox.adress@.len(),
                adress@.len() == k,
                forall|j: int|
                    0 <= j < k ==> (#[trigger] adress@[j]).0@ == self.adrbox.adress@[j].0@
                        && adress@[j].1 == self.adrbox.adress@[j].1,
            decreases self.adrbox.adress@.len() - k,
        {
            adress.push((self.adrbox.adress[k].0.clone(), self.adrbox.adress[k].1));
            k += 1;
        }
        AdressManager {
            adrbox: AdressBox { adress, last_adr: self.adrbox.last_adr },
            mem_range_start: self.mem_range_start,
            mem_range_end: self.mem_range_end,
            mem_range: self.mem_range,
        }
    }
}

} // verus!
