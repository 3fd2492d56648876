//! The module builder: owns every function's canonicalized stream and every
//! promoted data label of one translation unit, and resolves them into the
//! byte buffers, declarations and relocations the object writer consumes.

use vstd::prelude::*;
use vstd::string::StringExecFns;

use crate::error::CodeGenLibError;
use crate::ir::AsmInstructionEnum;
use crate::ir::clone_stream;
use crate::ir::resolve::Decl;
use crate::ir::resolve::Link;
use crate::ir::resolve::resolve;
use crate::ir::resolve::spec_contains_name;
use crate::ir::resolve::spec_stream_bytes;
use crate::ir::resolve::spec_stream_decls;
use crate::ir::resolve::spec_stream_links;
use crate::ir::typ::copy_bytes;
use crate::opt::Optimize;
use crate::opt::spec_canonicalize;

verus! {

/// Whether a keyed list carries the given key.
pub open spec fn spec_has_key<V>(m: Seq<(String, V)>, t: Seq<char>) -> bool {
    exists|k: int| 0 <= k < m.len() && m[k].0@ == t
}

/// The position of the given key in a keyed list.
pub open spec fn spec_key_index<V>(m: Seq<(String, V)>, t: Seq<char>) -> int {
    choose|k: int| 0 <= k < m.len() && m[k].0@ == t
}

/// Whether a keyed list carries each key at most once.
pub open spec fn spec_unique_keys<V>(m: Seq<(String, V)>) -> bool {
    forall|j1: int, j2: int| 0 <= j1 < j2 < m.len() ==> m[j1].0@ != m[j2].0@
}

/// Whether `new` is `old` with one more name at the end.
pub open spec fn spec_pushed_name(old_v: Seq<String>, new_v: Seq<String>, t: Seq<char>) -> bool {
    &&& new_v.len() == old_v.len() + 1
    &&& new_v[old_v.len() as int]@ == t
    &&& forall|j: int| 0 <= j < old_v.len() ==> new_v[j] == old_v[j]
}


/// A key a keyed list carries stays carried when the list grows at the end.
proof fn lemma_has_key_push<V>(m: Seq<(String, V)>, e: (String, V), t: Seq<char>)
    requires
        spec_has_key(m, t),
    ensures
        spec_has_key(m.push(e), t),
{
    let w = choose|w: int| 0 <= w < m.len() && m[w].0@ == t;
    assert(m.push(e)[w].0@ == t);
}

/// The wrapper around the code generation of one translation unit: every
/// defined function's canonicalized stream, every data label's content, and
/// the names in definition order.
#[derive(Debug)]
pub struct Builder {
    pub funcs: Vec<(String, (bool, Vec<AsmInstructionEnum>))>,
    pub labels: Vec<(String, (bool, Vec<u8>))>,
    pub func_names: Vec<String>,
    pub label_names: Vec<String>,
}

/// A well formed builder keys each function and label name once.
pub open spec fn spec_builder_wf(b: Builder) -> bool {
    &&& spec_unique_keys(b.funcs@)
    &&& spec_unique_keys(b.labels@)
}

/// Component wise agreement of two builders: same functions, labels and name
/// lists, compared by content.
pub open spec fn spec_builder_matches(a: Builder, b: Builder) -> bool {
    &&& a.funcs@.len() == b.funcs@.len()
    &&& forall|k: int|
        0 <= k < a.funcs@.len() ==> a.funcs@[k].0@ == b.funcs@[k].0@ && a.funcs@[k].1.0
            == b.funcs@[k].1.0 && a.funcs@[k].1.1@ == b.funcs@[k].1.1@
    &&& a.labels@.len() == b.labels@.len()
    &&& forall|k: int|
        0 <= k < a.labels@.len() ==> a.labels@[k].0@ == b.labels@[k].0@ && a.labels@[k].1.0
            == b.labels@[k].1.0 && a.labels@[k].1.1@ == b.labels@[k].1.1@
    &&& a.func_names@.len() == b.func_names@.len()
    &&& forall|k: int| 0 <= k < a.func_names@.len() ==> a.func_names@[k]@ == b.func_names@[k]@
    &&& a.label_names@.len() == b.label_names@.len()
    &&& forall|k: int| 0 <= k < a.label_names@.len() ==> a.label_names@[k]@ == b.label_names@[k]@
}

impl Builder {
    /// Creates an empty builder.
    pub fn new() -> (r: Self)
        ensures
            r.funcs@.len() == 0,
            r.labels@.len() == 0,
            r.func_names@.len() == 0,
            r.label_names@.len() == 0,
            spec_builder_wf(r),
    {
        Self { funcs: Vec::new(), labels: Vec::new(), func_names: Vec::new(), label_names: Vec::new() }
    }

    /// Canonicalizes the stream and stores it under the name, replacing an
    /// earlier definition of the same name; the name is also appended to the
    /// definition order list.
    pub fn define(&mut self, name: &str, public: bool, code: Vec<AsmInstructionEnum>) -> (r: Result<
        (),
        CodeGenLibError,
    >)
        requires
            spec_builder_wf(*old(self)),
        ensures
            r is Ok,
            spec_builder_wf(*final(self)),
            spec_pushed_name(old(self).func_names@, final(self).func_names@, name@),
            final(self).labels == old(self).labels,
            final(self).label_names == old(self).label_names,
            spec_has_key(old(self).funcs@, name@) ==> {
                let i = spec_key_index(old(self).funcs@, name@);
                &&& final(self).funcs@.len() == old(self).funcs@.len()
                &&& final(self).funcs@[i].0@ == name@
                &&& final(self).funcs@[i].1.0 == public
                &&& final(self).funcs@[i].1.1@ == spec_canonicalize(code@)
                &&& forall|j: int|
                    0 <= j < old(self).funcs@.len() && j != i ==> final(self).funcs@[j] == old(
                        self,
                    ).funcs@[j]
            },
            !spec_has_key(old(self).funcs@, name@) ==> {
                &&& final(self).funcs@.len() == old(self).funcs@.len() + 1
                &&& final(self).funcs@[old(self).funcs@.len() as int].0@ == name@
                &&& final(self).funcs@[old(self).funcs@.len() as int].1.0 == public
                &&& final(self).funcs@[old(self).funcs@.len() as int].1.1@ == spec_canonicalize(
                    code@,
                )
                &&& forall|j: int|
                    0 <= j < old(self).funcs@.len() ==> final(self).funcs@[j] == old(self).funcs@[j]
            },
    {
        let key = String::from_str(name);
        let opt_code = Optimize(code);
        let mut idx: Option<usize> = None;
        let mut k: usize = 0;
        while k < self.funcs.len()
            invariant
                k <= self.funcs@.len(),
                match idx {
                    Some(i) => i < k && self.funcs@[i as int].0@ == key@,
                    None => forall|j: int| 0 <= j < k ==> self.funcs@[j].0@ != key@,
                },
        decreases self.funcs@.len() - k,
        {
            if idx.is_none() && self.funcs[k].0.eq(&key) {
                idx = Some(k);
            }
            k += 1;
        }
        match idx {
            Some(i) => {
                proof {
                    assert(spec_has_key(self.funcs@, name@));
                    let c = spec_key_index(self.funcs@, name@);
                    assert(self.funcs@[c].0@ == name@);
                    assert(c == i as int);
                }
                self.funcs.set(i, (key, (public, opt_code)));
            },
            None => {
                self.funcs.push((key, (public, opt_code)));
            },
        }
        self.func_names.push(String::from_str(name));
        Ok(())
    }

    /// Stores the byte content under the label name, replacing an earlier
    /// definition of the same name; the name is also appended to the
    /// definition order list.
    pub fn define_label(&mut self, name: &str, public: bool, data: Vec<u8>)
        requires
            spec_builder_wf(*old(self)),
        ensures
            spec_builder_wf(*final(self)),
            spec_pushed_name(old(self).label_names@, final(self).label_names@, name@),
            final(self).funcs == old(self).funcs,
            final(self).func_names == old(self).func_names,
            spec_has_key(old(self).labels@, name@) ==> {
                let i = spec_key_index(old(self).labels@, name@);
                &&& final(self).labels@.len() == old(self).labels@.len()
                &&& final(self).labels@[i].0@ == name@
                &&& final(self).labels@[i].1.0 == public
                &&& final(self).labels@[i].1.1@ == data@
                &&& forall|j: int|
                    0 <= j < old(self).labels@.len() && j != i ==> final(self).labels@[j] == old(
                        self,
                    ).labels@[j]
            },
            !spec_has_key(old(self).labels@, name@) ==> {
                &&& final(self).labels@.len() == old(self).labels@.len() + 1
                &&& final(self).labels@[old(self).labels@.len() as int].0@ == name@
                &&& final(self).labels@[old(self).labels@.len() as int].1.0 == public
                &&& final(self).labels@[old(self).labels@.len() as int].1.1@ == data@
                &&& forall|j: int|
                    0 <= j < old(self).labels@.len() ==> final(self).labels@[j] == old(
                        self,
                    ).labels@[j]
            },
    {
        let key = String::from_str(name);
        let mut idx: Option<usize> = None;
        let mut k: usize = 0;
        while k < self.labels.len()
            invariant
                k <= self.labels@.len(),
                match idx {
                    Some(i) => i < k && self.labels@[i as int].0@ == key@,
                    None => forall|j: int| 0 <= j < k ==> self.labels@[j].0@ != key@,
                },
            decreases self.labels@.len() - k,
        {
            if idx.is_none() && self.labels[k].0.eq(&key) {
                idx = Some(k);
            }
            k += 1;
        }
        match idx {
            Some(i) => {
                proof {
                    assert(spec_has_key(self.labels@, name@));
                    let c = spec_key_index(self.labels@, name@);
                    assert(self.labels@[c].0@ == name@);
                    assert(c == i as int);
                }
                self.labels.set(i, (key, (public, data)));
            },
            None => {
                self.labels.push((key, (public, data)));
            },
        }
        self.label_names.push(String::from_str(name));
    }

    /// Carries the other builder's labels and functions over into this one,
    /// keeping what this one already defines: only names this builder lacks
    /// are appended, with the other builder's content.
    pub fn sync(&mut self, other: &Builder)
        requires
            spec_builder_wf(*old(self)),
        ensures
            spec_builder_wf(*final(self)),
            // what was there stays untouched
            old(self).labels@.len() <= final(self).labels@.len(),
            forall|j: int|
                0 <= j < old(self).labels@.len() ==> final(self).labels@[j] == old(self).labels@[j],
            old(self).funcs@.len() <= final(self).funcs@.len(),
            forall|j: int|
                0 <= j < old(self).funcs@.len() ==> final(self).funcs@[j] == old(self).funcs@[j],
            // every name of the other builder is present afterwards
            forall|k: int|
                0 <= k < other.labels@.len() ==> spec_has_key(
                    final(self).labels@,
                    #[trigger] other.labels@[k].0@,
                ),
            forall|k: int|
                0 <= k < other.funcs@.len() ==> spec_has_key(
                    final(self).funcs@,
                    #[trigger] other.funcs@[k].0@,
                ),
            // what was appended is the other builder's content, under names
            // this builder lacked
            forall|j: int|
                old(self).labels@.len() <= j < final(self).labels@.len() ==> !spec_has_key(
                    old(self).labels@,
                    #[trigger] final(self).labels@[j].0@,
                ) && exists|k: int|
                    0 <= k < other.labels@.len() && other.labels@[k].0@ == final(self).labels@[j].0@
                        && other.labels@[k].1.0 == final(self).labels@[j].1.0
                        && other.labels@[k].1.1@ == final(self).labels@[j].1.1@,
            forall|j: int|
                old(self).funcs@.len() <= j < final(self).funcs@.len() ==> !spec_has_key(
                    old(self).funcs@,
                    #[trigger] final(self).funcs@[j].0@,
                ) && exists|k: int|
                    0 <= k < other.funcs@.len() && other.funcs@[k].0@ == final(self).funcs@[j].0@
                        && other.funcs@[k].1.0 == final(self).funcs@[j].1.0 && other.funcs@[k].1.1@
                        == final(self).funcs@[j].1.1@,
            // the name order lists grow by exactly the appended keys
            final(self).label_names@.len() == old(self).label_names@.len() + final(self).labels@.len() - old(self).labels@.len(),
            forall|j: int|
                0 <= j < old(self).label_names@.len() ==> final(self).label_names@[j] == old(
                    self,
                ).label_names@[j],
            forall|j: int|
                0 <= j < final(self).labels@.len() - old(self).labels@.len() ==> (
                #[trigger] final(self).label_names@[old(self).label_names@.len() + j])@ == final(self).labels@[old(self).labels@.len() + j].0@,
            final(self).func_names@.len() == old(self).func_names@.len() + final(self).funcs@.len() - old(self).funcs@.len(),
            forall|j: int|
                0 <= j < old(self).func_names@.len() ==> final(self).func_names@[j] == old(
                    self,
                ).func_names@[j],
            forall|j: int|
                0 <= j < final(self).funcs@.len() - old(self).funcs@.len() ==> (
                #[trigger] final(self).func_names@[old(self).func_names@.len() + j])@ == final(self).funcs@[old(self).funcs@.len() + j].0@,
    {
        let ghost base_labels = self.labels@;
        let ghost base_lnames = self.label_names@;
        let mut k: usize = 0;
        while k < other.labels.len()
            invariant
                spec_unique_keys(self.labels@),
                base_labels.len() <= self.labels@.len(),
                forall|j: int| 0 <= j < base_labels.len() ==> self.labels@[j] == base_labels[j],
                forall|j: int|
                    0 <= j < k ==> spec_has_key(self.labels@, #[trigger] other.labels@[j].0@),
                forall|j: int|
                    base_labels.len() <= j < self.labels@.len() ==> !spec_has_key(
                        base_labels,
                        #[trigger] self.labels@[j].0@,
                    ) && exists|m: int|
                        0 <= m < other.labels@.len() && other.labels@[m].0@ == self.labels@[j].0@
                            && other.labels@[m].1.0 == self.labels@[j].1.0
                            && other.labels@[m].1.1@ == self.labels@[j].1.1@,
                self.funcs == old(self).funcs,
                self.func_names == old(self).func_names,
                self.label_names@.len() == base_lnames.len() + self.labels@.len()
                    - base_labels.len(),
                forall|j: int|
                    0 <= j < base_lnames.len() ==> self.label_names@[j] == base_lnames[j],
                forall|j: int|
                    0 <= j < self.labels@.len() - base_labels.len() ==> (
                    #[trigger] self.label_names@[base_lnames.len() + j])@ == self.labels@[
                        base_labels.len() + j
                    ].0@,
            decreases other.labels@.len() - k,
        {
            let name = &other.labels[k].0;
            let mut present = false;
            let mut j: usize = 0;
            while j < self.labels.len()
                invariant
                    j <= self.labels@.len(),
                    present ==> spec_has_key(self.labels@, name@),
                    !present ==> forall|m: int| 0 <= m < j ==> self.labels@[m].0@ != name@,
                decreases self.labels@.len() - j,
            {
                if self.labels[j].0.eq(name) {
                    present = true;
                }
                j += 1;
            }
            let ghost pre = self.labels@;
            if !present {
                let entry = (name.clone(), (other.labels[k].1.0, copy_bytes(&other.labels[k].1.1)));
                self.labels.push(entry);
                self.label_names.push(name.clone());
                proof {
                    assert(self.labels@ == pre.push(self.labels@[pre.len() as int]));
                }
            }
            proof {
                assert(spec_has_key(self.labels@, other.labels@[k as int].0@)) by {
                    if present {
                        let w = choose|w: int| 0 <= w < pre.len() && pre[w].0@ == name@;
                        assert(self.labels@[w].0@ == name@);
                    } else {
                        assert(self.labels@[pre.len() as int].0@ == name@);
                    }
                }
                assert forall|j: int|
                    0 <= j < k + 1 implies spec_has_key(
                    self.labels@,
                    #[trigger] other.labels@[j].0@,
                ) by {
                    if j < k {
                        lemma_has_key_push(
                            pre,
                            self.labels@[self.labels@.len() - 1],
                            other.labels@[j].0@,
                        );
                        if self.labels@.len() == pre.len() + 1 {
                            assert(self.labels@ =~= pre.push(self.labels@[pre.len() as int]));
                        }
                    }
                }
            }
            k += 1;
        }
        let ghost base_funcs = self.funcs@;
        let ghost base_fnames = self.func_names@;
        let ghost mid_labels = self.labels@;
        let ghost mid_lnames = self.label_names@;
        let mut k2: usize = 0;
        while k2 < other.funcs.len()
            invariant
                spec_unique_keys(self.funcs@),
                base_funcs.len() <= self.funcs@.len(),
                forall|j: int| 0 <= j < base_funcs.len() ==> self.funcs@[j] == base_funcs[j],
                forall|j: int|
                    0 <= j < k2 ==> spec_has_key(self.funcs@, #[trigger] other.funcs@[j].0@),
                forall|j: int|
                    base_funcs.len() <= j < self.funcs@.len() ==> !spec_has_key(
                        base_funcs,
                        #[trigger] self.funcs@[j].0@,
                    ) && exists|m: int|
                        0 <= m < other.funcs@.len() && other.funcs@[m].0@ == self.funcs@[j].0@
                            && other.funcs@[m].1.0 == self.funcs@[j].1.0 && other.funcs@[m].1.1@
                            == self.funcs@[j].1.1@,
                forall|j: int| 0 <= j < base_labels.len() ==> self.labels@[j] == base_labels[j],
                self.labels@.len() >= base_labels.len(),
                spec_unique_keys(self.labels@),
                forall|j: int|
                    0 <= j < other.labels@.len() ==> spec_has_key(
                        self.labels@,
                        #[trigger] other.labels@[j].0@,
                    ),
                forall|j: int|
                    base_labels.len() <= j < self.labels@.len() ==> !spec_has_key(
                        base_labels,
                        #[trigger] self.labels@[j].0@,
                    ) && exists|m: int|
                        0 <= m < other.labels@.len() && other.labels@[m].0@ == self.labels@[j].0@
                            && other.labels@[m].1.0 == self.labels@[j].1.0
                            && other.labels@[m].1.1@ == self.labels@[j].1.1@,
                self.labels@ == mid_labels,
                self.label_names@ == mid_lnames,
                self.func_names@.len() == base_fnames.len() + self.funcs@.len()
                    - base_funcs.len(),
                forall|j: int|
                    0 <= j < base_fnames.len() ==> self.func_names@[j] == base_fnames[j],
                forall|j: int|
                    0 <= j < self.funcs@.len() - base_funcs.len() ==> (
                    #[trigger] self.func_names@[base_fnames.len() + j])@ == self.funcs@[
                        base_funcs.len() + j
                    ].0@,
            decreases other.funcs@.len() - k2,
        {
            let name = &other.funcs[k2].0;
            let mut present = false;
            let mut j: usize = 0;
            while j < self.funcs.len()
                invariant
                    j <= self.funcs@.len(),
                    present ==> spec_has_key(self.funcs@, name@),
                    !present ==> forall|m: int| 0 <= m < j ==> self.funcs@[m].0@ != name@,
                decreases self.funcs@.len() - j,
            {
                if self.funcs[j].0.eq(name) {
                    present = true;
                }
                j += 1;
            }
            let ghost pre = self.funcs@;
            if !present {
                let entry = (name.clone(), (other.funcs[k2].1.0, clone_stream(&other.funcs[k2].1.1)));
                self.funcs.push(entry);
                self.func_names.push(name.clone());
                proof {
                    assert(self.funcs@ == pre.push(self.funcs@[pre.len() as int]));
                }
            }
            proof {
                assert(spec_has_key(self.funcs@, other.funcs@[k2 as int].0@)) by {
                    if present {
                        let w = choose|w: int| 0 <= w < pre.len() && pre[w].0@ == name@;
                        assert(self.funcs@[w].0@ == name@);
                    } else {
                        assert(self.funcs@[pre.len() as int].0@ == name@);
                    }
                }
                assert forall|j: int|
                    0 <= j < k2 + 1 implies spec_has_key(
                    self.funcs@,
                    #[trigger] other.funcs@[j].0@,
                ) by {
                    if j < k2 {
                        lemma_has_key_push(
                            pre,
                            self.funcs@[self.funcs@.len() - 1],
                            other.funcs@[j].0@,
                        );
                        if self.funcs@.len() == pre.len() + 1 {
                            assert(self.funcs@ =~= pre.push(self.funcs@[pre.len() as int]));
                        }
                    }
                }
            }
            k2 += 1;
        }
    }
}

/// The target name a relocation is written against: label targets get the
/// local label prefix, anything else keeps its name.
pub open spec fn spec_link_target(t: Seq<char>, label_names: Seq<String>) -> Seq<char> {
    if spec_contains_name(label_names, t) {
        ".L"@ + t
    } else {
        t
    }
}

/// The relocations of a whole module, as (source function, target, offset)
/// triples: each function's relocations in definition order, the source filled
/// in and label targets prefixed.
pub open spec fn spec_module_links(
    m: Seq<(String, (bool, Vec<AsmInstructionEnum>))>,
    label_names: Seq<String>,
) -> Seq<(Seq<char>, Seq<char>, int)>
    decreases m.len(),
{
    if m.len() == 0 {
        Seq::empty()
    } else {
        let last = m.last();
        let links = spec_stream_links(last.1.1@);
        spec_module_links(m.drop_last(), label_names) + Seq::new(
            links.len(),
            |k: int| (last.0@, spec_link_target(links[k].0, label_names), links[k].1),
        )
    }
}

/// The import declarations of a whole module: each function's declarations in
/// definition order, duplicates across functions kept as the writer sees them.
pub open spec fn spec_module_decls(
    m: Seq<(String, (bool, Vec<AsmInstructionEnum>))>,
    func_names: Seq<String>,
    label_names: Seq<String>,
) -> Seq<(Seq<char>, Decl)>
    decreases m.len(),
{
    if m.len() == 0 {
        Seq::empty()
    } else {
        spec_module_decls(m.drop_last(), func_names, label_names) + spec_stream_decls(
            m.last().1.1@,
            func_names,
            label_names,
        )
    }
}


/// Appends each relocation under the given source function name, prefixing
/// targets that name a local label.
fn extend_links(links: &mut Vec<Link>, rlinks: &Vec<Link>, label_names: &Vec<String>, fname: &String)
    ensures
        final(links)@.len() == old(links)@.len() + rlinks@.len(),
        forall|j: int| 0 <= j < old(links)@.len() ==> final(links)@[j] == old(links)@[j],
        forall|j: int|
            0 <= j < rlinks@.len() ==> {
                &&& (#[trigger] final(links)@[old(links)@.len() + j]).from@ == fname@
                &&& final(links)@[old(links)@.len() + j].to@ == spec_link_target(
                    rlinks@[j].to@,
                    label_names@,
                )
                &&& final(links)@[old(links)@.len() + j].at == rlinks@[j].at
            },
{
    let base = links.len();
    let mut k: usize = 0;
    while k < rlinks.len()
        invariant
            k <= rlinks@.len(),
            base == old(links)@.len(),
            links@.len() == base + k,
            forall|j: int| 0 <= j < base ==> links@[j] == old(links)@[j],
            forall|j: int|
                0 <= j < k ==> {
                    &&& (#[trigger] links@[base + j]).from@ == fname@
                    &&& links@[base + j].to@ == spec_link_target(rlinks@[j].to@, label_names@)
                    &&& links@[base + j].at == rlinks@[j].at
                },
        decreases rlinks@.len() - k,
    {
        let to = if contains_name_list(label_names, &rlinks[k].to) {
            let mut s = String::from_str(".L");
            s.append(rlinks[k].to.as_str());
            s
        } else {
            rlinks[k].to.clone()
        };
        links.push(Link { from: fname.clone(), to, at: rlinks[k].at });
        k += 1;
    }
}

/// Whether the assembled output defines a function of the given name.
pub open spec fn spec_module_declares_func(m: Seq<(String, bool, Vec<u8>)>, name: Seq<char>) -> bool {
    exists|j: int| 0 <= j < m.len() && m[j].0@ == name
}

/// A resolved translation unit, ready for the object writer: the import
/// declarations and relocations in resolution order, then each function's name,
/// visibility and bytes, then each data label under its prefixed name.
#[derive(Debug)]
pub struct AssembledModule {
    pub decls: Vec<(String, Decl)>,
    pub links: Vec<Link>,
    pub funcs: Vec<(String, bool, Vec<u8>)>,
    pub labels: Vec<(String, bool, Vec<u8>)>,
}

impl Builder {
    /// Resolves every defined function against the module's own names: the
    /// result carries each function's machine bytes and visibility, every
    /// relocation with its source function and prefixed label targets, the
    /// import declarations the resolver recorded, and the data labels under
    /// their prefixed names.
    pub fn assemble(&self) -> (r: AssembledModule)
        ensures
            r.funcs@.len() == self.funcs@.len(),
            forall|k: int|
                0 <= k < self.funcs@.len() ==> r.funcs@[k].0@ == self.funcs@[k].0@ && r.funcs@[k].1
                    == self.funcs@[k].1.0 && r.funcs@[k].2@ == spec_stream_bytes(
                    self.funcs@[k].1.1@,
                ),
            r.labels@.len() == self.labels@.len(),
            forall|k: int|
                0 <= k < self.labels@.len() ==> r.labels@[k].0@ == ".L"@ + self.labels@[k].0@
                    && r.labels@[k].1 == self.labels@[k].1.0 && r.labels@[k].2@
                    == self.labels@[k].1.1@,
            ({
                let links = spec_module_links(self.funcs@, self.label_names@);
                &&& r.links@.len() == links.len()
                &&& forall|k: int|
                    0 <= k < links.len() ==> r.links@[k].from@ == links[k].0 && r.links@[k].to@
                        == links[k].1 && r.links@[k].at as int == links[k].2
            }),
            ({
                let decls = spec_module_decls(self.funcs@, self.func_names@, self.label_names@);
                &&& r.decls@.len() == decls.len()
                &&& forall|k: int|
                    0 <= k < decls.len() ==> r.decls@[k].0@ == decls[k].0 && r.decls@[k].1
                        == decls[k].1
            }),
    {
        let mut decls: Vec<(String, Decl)> = Vec::new();
        let mut links: Vec<Link> = Vec::new();
        let mut funcs_out: Vec<(String, bool, Vec<u8>)> = Vec::new();
        let mut labels_out: Vec<(String, bool, Vec<u8>)> = Vec::new();
        let mut f: usize = 0;
        while f < self.funcs.len()
            invariant
                f <= self.funcs@.len(),
                funcs_out@.len() == f,
                forall|k: int|
                    0 <= k < f ==> funcs_out@[k].0@ == self.funcs@[k].0@ && funcs_out@[k].1
                        == self.funcs@[k].1.0 && funcs_out@[k].2@ == spec_stream_bytes(
                        self.funcs@[k].1.1@,
                    ),
                ({
                    let spec_links = spec_module_links(
                        self.funcs@.subrange(0, f as int),
                        self.label_names@,
                    );
                    &&& links@.len() == spec_links.len()
                    &&& forall|k: int|
                        0 <= k < spec_links.len() ==> links@[k].from@ == spec_links[k].0
                            && links@[k].to@ == spec_links[k].1 && links@[k].at as int
                            == spec_links[k].2
                }),
                ({
                    let spec_decls = spec_module_decls(
                        self.funcs@.subrange(0, f as int),
                        self.func_names@,
                        self.label_names@,
                    );
                    &&& decls@.len() == spec_decls.len()
                    &&& forall|k: int|
                        0 <= k < spec_decls.len() ==> decls@[k].0@ == spec_decls[k].0
                            && decls@[k].1 == spec_decls[k].1
                }),
            decreases self.funcs@.len() - f,
        {
            let ghost pre = self.funcs@.subrange(0, f as int);
            let ghost post = self.funcs@.subrange(0, f as int + 1);
            proof {
                assert(post.drop_last() =~= pre);
                assert(post.last() == self.funcs@[f as int]);
            }
            let name = &self.funcs[f].0;
            let ir = &self.funcs[f].1.1;
            let (bytes, rlinks, mut rdecls) = resolve(&self.func_names, &self.label_names, ir);
            decls.append(&mut rdecls);
            let ghost links_spec = crate::ir::resolve::spec_stream_links(ir@);
            let ghost links_before = links@;
            extend_links(&mut links, &rlinks, &self.label_names, name);
            proof {
                assert forall|j: int| 0 <= j < links_spec.len() implies {
                    &&& links@[links_before.len() + j].from@ == self.funcs@[f as int].0@
                    &&& links@[links_before.len() + j].to@ == spec_link_target(
                        #[trigger] links_spec[j].0,
                        self.label_names@,
                    )
                    &&& links@[links_before.len() + j].at as int == links_spec[j].1
                } by {
                    assert(crate::ir::resolve::spec_links_view(rlinks@)[j] == (
                        rlinks@[j].to@,
                        rlinks@[j].at as int,
                    ));
                }
            }
            funcs_out.push((name.clone(), self.funcs[f].1.0, bytes));
            proof {
                let spec_links_post = spec_module_links(post, self.label_names@);
                let spec_links_pre = spec_module_links(pre, self.label_names@);
                assert(spec_links_post =~= spec_links_pre + Seq::new(
                    links_spec.len(),
                    |j: int|
                        (
                            self.funcs@[f as int].0@,
                            spec_link_target(links_spec[j].0, self.label_names@),
                            links_spec[j].1,
                        ),
                ));
                assert(spec_module_decls(post, self.func_names@, self.label_names@)
                    =~= spec_module_decls(pre, self.func_names@, self.label_names@)
                    + crate::ir::resolve::spec_stream_decls(
                    ir@,
                    self.func_names@,
                    self.label_names@,
                ));
            }
            f += 1;
        }
        let mut l: usize = 0;
        while l < self.labels.len()
            invariant
                l <= self.labels@.len(),
                labels_out@.len() == l,
                forall|k: int|
                    0 <= k < l ==> labels_out@[k].0@ == ".L"@ + self.labels@[k].0@
                        && labels_out@[k].1 == self.labels@[k].1.0 && labels_out@[k].2@
                        == self.labels@[k].1.1@,
            decreases self.labels@.len() - l,
        {
            let mut nm = String::from_str(".L");
            nm.append(self.labels[l].0.as_str());
            labels_out.push((nm, self.labels[l].1.0, copy_bytes(&self.labels[l].1.1)));
            l += 1;
        }
        proof {
            assert(self.funcs@.subrange(0, self.funcs@.len() as int) =~= self.funcs@);
        }
        AssembledModule { decls, links, funcs: funcs_out, labels: labels_out }
    }
}

/// Returns whether the name list holds the given name.
fn contains_name_list(v: &Vec<String>, t: &String) -> (r: bool)
    ensures
        r == spec_contains_name(v@, t@),
{
    let mut k: usize = 0;
    while k < v.len()
        invariant
            k <= v.len(),
            forall|j: int| 0 <= j < k ==> v@[j]@ != t@,
        decreases v.len() - k,
    {
        if v[k].eq(t) {
            return true;
        }
        k += 1;
    }
    false
}

impl Clone for Builder {
    /// The copy agrees with the original in every component.
    fn clone(&self) -> (r: Self)
        ensures
            spec_builder_matches(r, *self),
    {
        let mut funcs: Vec<(String, (bool, Vec<AsmInstructionEnum>))> = Vec::new();
        let mut k: usize = 0;
        while k < self.funcs.len()
            invariant
                k <= self.funcs@.len(),
                funcs@.len() == k,
                forall|j: int|
                    0 <= j < k ==> funcs@[j].0@ == self.funcs@[j].0@ && funcs@[j].1.0
                        == self.funcs@[j].1.0 && funcs@[j].1.1@ == self.funcs@[j].1.1@,
            decreases self.funcs@.len() - k,
        {
            funcs.push((self.funcs[k].0.clone(), (self.funcs[k].1.0, clone_stream(&self.funcs[k].1.1))));
            k += 1;
        }
        let mut labels: Vec<(String, (bool, Vec<u8>))> = Vec::new();
        let mut k2: usize = 0;
        while k2 < self.labels.len()
            invariant
                k2 <= self.labels@.len(),
                labels@.len() == k2,
                forall|j: int|
                    0 <= j < k2 ==> labels@[j].0@ == self.labels@[j].0@ && labels@[j].1.0
                        == self.labels@[j].1.0 && labels@[j].1.1@ == self.labels@[j].1.1@,
            decreases self.labels@.len() - k2,
        {
            labels.push((self.labels[k2].0.clone(), (self.labels[k2].1.0, copy_bytes(&self.labels[k2].1.1))));
            k2 += 1;
        }
        let mut func_names: Vec<String> = Vec::new();
        let mut k3: usize = 0;
        while k3 < self.func_names.len()
            invariant
                k3 <= self.func_names@.len(),
                func_names@.len() == k3,
                forall|j: int| 0 <= j < k3 ==> func_names@[j]@ == self.func_names@[j]@,
            decreases self.func_names@.len() - k3,
        {
            func_names.push(self.func_names[k3].clone());
            k3 += 1;
        }
        let mut label_names: Vec<String> = Vec::new();
        let mut k4: usize = 0;
        while k4 < self.label_names.len()
            invariant
                k4 <= self.label_names@.len(),
                label_names@.len() == k4,
                forall|j: int| 0 <= j < k4 ==> label_names@[j]@ == self.label_names@[j]@,
            decreases self.label_names@.len() - k4,
        {
            label_names.push(self.label_names[k4].clone());
            k4 += 1;
        }
        Builder { funcs, labels, func_names, label_names }
    }
}

} // verus!
