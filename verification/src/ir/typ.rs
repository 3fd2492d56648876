//! The type descriptor: a value's width, register eligibility, and byte
//! representation.

use vstd::prelude::*;

verus! {

/// Describes one value handed to the builders: fixed width integers, raw
/// bytes, string literals (pointers to embedded bytes), pointers, a deferred
/// reference to a declared variable, and the variadic marker of unlimited
/// arity signatures.
#[derive(Debug)]
pub enum Type {
    U64(u64),
    U32(u32),
    I64(i64),
    I32(i32),
    Bytes(Vec<u8>),
    /// A string literal; passed as an 8-byte pointer to its bytes.
    Str(Vec<u8>),
    /// A pointer; passed as an 8-byte address.
    Ptr(Box<Type>),
    /// A deferred reference to an already declared local variable.
    InVar(String),
    /// The variadic marker of unlimited arity signatures such as `printf`.
    Unlim(Vec<Type>),
}

/// The big endian bytes of a 32-bit value, most significant first.
pub open spec fn spec_be_32(value: u32) -> Seq<u8> {
    seq![
        ((value >> 24) & 0xff) as u8,
        ((value >> 16) & 0xff) as u8,
        ((value >> 8) & 0xff) as u8,
        (value & 0xff) as u8,
    ]
}

/// The big endian bytes of a 64-bit value, most significant first.
pub open spec fn spec_be_64(value: u64) -> Seq<u8> {
    seq![
        ((value >> 56) & 0xff) as u8,
        ((value >> 48) & 0xff) as u8,
        ((value >> 40) & 0xff) as u8,
        ((value >> 32) & 0xff) as u8,
        ((value >> 24) & 0xff) as u8,
        ((value >> 16) & 0xff) as u8,
        ((value >> 8) & 0xff) as u8,
        (value & 0xff) as u8,
    ]
}

/// Whether a value of this type may live in an argument register; false for
/// the undetermined kinds.
pub open spec fn spec_in_reg(t: Type) -> bool {
    match t {
        Type::U64(_) => true,
        Type::U32(_) => true,
        Type::I64(_) => true,
        Type::I32(_) => true,
        Type::Bytes(_) => false,
        Type::Str(_) => true,
        Type::Ptr(_) => true,
        Type::Unlim(_) => false,
        Type::InVar(_) => false,
    }
}

/// The size of the type in bytes; 0 for the undetermined kinds.
pub open spec fn spec_type_size(t: Type) -> u64 {
    match t {
        Type::U64(_) => 8,
        Type::U32(_) => 4,
        Type::I64(_) => 8,
        Type::I32(_) => 4,
        Type::Bytes(v) => if v.len() == 0 {
            0
        } else {
            (v.len() - 1) as u64
        },
        Type::Str(_) => 8,
        Type::Ptr(_) => 8,
        Type::Unlim(_) => 0,
        Type::InVar(_) => 0,
    }
}

/// The literal encoding of the value; empty for the undetermined kinds.
/// Integers encode in big endian byte order.
pub open spec fn spec_type_bytes(t: Type) -> Seq<u8>
    decreases t,
{
    match t {
        Type::U64(v) => spec_be_64(v),
        Type::U32(v) => spec_be_32(v),
        Type::I64(v) => spec_be_64(v as u64),
        Type::I32(v) => spec_be_32(v as u32),
        Type::Bytes(b) => b@,
        Type::Str(b) => b@,
        Type::Ptr(target) => spec_type_bytes(*target),
        Type::Unlim(_) => Seq::empty(),
        Type::InVar(_) => Seq::empty(),
    }
}

/// A small tag telling the kinds of two types apart, ignoring their contents.
pub open spec fn spec_type_kind(t: Type) -> int {
    match t {
        Type::U64(_) => 0,
        Type::U32(_) => 1,
        Type::I64(_) => 2,
        Type::I32(_) => 3,
        Type::Bytes(_) => 4,
        Type::Str(_) => 5,
        Type::Ptr(_) => 6,
        Type::InVar(_) => 7,
        Type::Unlim(_) => 8,
    }
}

impl Type {
    /// Returns whether the value may live in an argument register (false for
    /// the undetermined kinds).
    pub fn in_reg(&self) -> (r: bool)
        ensures
            r == spec_in_reg(*self),
    {
        match self {
            Type::U64(_) => true,
            Type::U32(_) => true,
            Type::I64(_) => true,
            Type::I32(_) => true,
            Type::Bytes(_) => false,
            Type::Str(_) => true,
            Type::Ptr(_) => true,
            Type::Unlim(_) => false,
            Type::InVar(_) => false,
        }
    }

    /// Returns the size of the type in bytes (0 for the undetermined kinds).
    pub fn size(&self) -> (r: u64)
        ensures
            r == spec_type_size(*self),
    {
        match self {
            Type::U64(_) => 8,
            Type::U32(_) => 4,
            Type::I64(_) => 8,
            Type::I32(_) => 4,
            Type::Bytes(v) => if v.len() == 0 {
                0
            } else {
                (v.len() - 1) as u64
            },
            Type::Str(_) => 8,
            Type::Ptr(_) => 8,
            Type::Unlim(_) => 0,
            Type::InVar(_) => 0,
        }
    }

    /// Returns the contents of the type as bytes (empty for the undetermined
    /// kinds).
    pub fn bytes(&self) -> (r: Vec<u8>)
        ensures
            r@ == spec_type_bytes(*self),
        decreases *self,
    {
        match self {
            Type::U64(v) => {
                let v = *v;
                let r = vec![
                    ((v >> 56) & 0xff) as u8,
                    ((v >> 48) & 0xff) as u8,
                    ((v >> 40) & 0xff) as u8,
                    ((v >> 32) & 0xff) as u8,
                    ((v >> 24) & 0xff) as u8,
                    ((v >> 16) & 0xff) as u8,
                    ((v >> 8) & 0xff) as u8,
                    (v & 0xff) as u8,
                ];
                proof {
                    assert(r@ =~= spec_be_64(v));
                }
                r
            },
            Type::U32(v) => {
                let v = *v;
                let r = vec![
                    ((v >> 24) & 0xff) as u8,
                    ((v >> 16) & 0xff) as u8,
                    ((v >> 8) & 0xff) as u8,
                    (v & 0xff) as u8,
                ];
                proof {
                    assert(r@ =~= spec_be_32(v));
                }
                r
            },
            Type::I64(v) => {
                let v = *v as u64;
                let r = vec![
                    ((v >> 56) & 0xff) as u8,
                    ((v >> 48) & 0xff) as u8,
                    ((v >> 40) & 0xff) as u8,
                    ((v >> 32) & 0xff) as u8,
                    ((v >> 24) & 0xff) as u8,
                    ((v >> 16) & 0xff) as u8,
                    ((v >> 8) & 0xff) as u8,
                    (v & 0xff) as u8,
                ];
                proof {
                    assert(r@ =~= spec_be_64(v));
                }
                r
            },
            Type::I32(v) => {
                let v = *v as u32;
                let r = vec![
                    ((v >> 24) & 0xff) as u8,
                    ((v >> 16) & 0xff) as u8,
                    ((v >> 8) & 0xff) as u8,
                    (v & 0xff) as u8,
                ];
                proof {
                    assert(r@ =~= spec_be_32(v));
                }
                r
            },
            Type::Bytes(b) => copy_bytes(b),
            Type::Str(b) => copy_bytes(b),
            Type::Ptr(target) => target.bytes(),
            Type::Unlim(_) => Vec::new(),
            Type::InVar(_) => Vec::new(),
        }
    }

    /// Returns the type of `self` with its value contents cleared: the same
    /// variant around a zeroed or emptied payload, the canonical representative
    /// of the variant.
    pub fn empty(&self) -> (r: Self)
        ensures
            spec_type_kind(r) == spec_type_kind(*self),
            *self is U64 ==> r == Type::U64(0),
            *self is U32 ==> r == Type::U32(0),
            *self is I64 ==> r == Type::I64(0),
            *self is I32 ==> r == Type::I32(0),
            *self is Bytes ==> (r matches Type::Bytes(v) && v@ == Seq::<u8>::empty()),
            *self is Str ==> (r matches Type::Str(v) && v@ == Seq::<u8>::empty()),
            *self is Ptr ==> (r matches Type::Ptr(t) && *t == Type::U64(0)),
            *self is InVar ==> (r matches Type::InVar(n) && n@ == Seq::<char>::empty()),
            *self is Unlim ==> (r matches Type::Unlim(v) && v@ == Seq::<Type>::empty()),
    {
        match self {
            Type::U64(_) => Type::U64(0),
            Type::U32(_) => Type::U32(0),
            Type::I64(_) => Type::I64(0),
            Type::I32(_) => Type::I32(0),
            Type::Bytes(_) => Type::Bytes(Vec::new()),
            Type::Str(_) => Type::Str(Vec::new()),
            Type::Ptr(_) => Type::Ptr(Box::new(Type::U64(0))),
            Type::Unlim(_) => Type::Unlim(Vec::new()),
            Type::InVar(_) => Type::InVar(String::new()),
        }
    }

    /// Returns whether the two types are of the same kind, whatever their
    /// contents.  Two types compare equal after `empty` exactly when their
    /// kinds agree.
    pub fn same_kind(&self, other: &Type) -> (r: bool)
        ensures
            r == (spec_type_kind(*self) == spec_type_kind(*other)),
    {
        match (self, other) {
            (Type::U64(_), Type::U64(_)) => true,
            (Type::U32(_), Type::U32(_)) => true,
            (Type::I64(_), Type::I64(_)) => true,
            (Type::I32(_), Type::I32(_)) => true,
            (Type::Bytes(_), Type::Bytes(_)) => true,
            (Type::Str(_), Type::Str(_)) => true,
            (Type::Ptr(_), Type::Ptr(_)) => true,
            (Type::InVar(_), Type::InVar(_)) => true,
            (Type::Unlim(_), Type::Unlim(_)) => true,
            _ => false,
        }
    }
}

/// Copies a byte vector element by element.
pub fn copy_bytes(v: &Vec<u8>) -> (r: Vec<u8>)
    ensures
        r@ == v@,
{
    let mut r: Vec<u8> = Vec::new();
    let mut i: usize = 0;
    while i < v.len()
        invariant
            i <= v.len(),
            r@ =~= v@.subrange(0, i as int),
        decreases v.len() - i,
    {
        r.push(v[i]);
        i += 1;
    }
    proof {
        assert(v@.subrange(0, v@.len() as int) =~= v@);
    }
    r
}

} // verus!
