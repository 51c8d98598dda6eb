//! `RWF_*` flags of `preadv2` and `pwritev2`.

use vstd::prelude::*;
use vstd::std_specs::ops::{
    BitAndSpecImpl, BitOrSpecImpl, BitXorSpecImpl, NotSpecImpl, SubSpecImpl,
};

verus! {

/// `libc::RWF_HIPRI`, which libc defines as 1 on every Linux
/// target.
#[verifier::external_body]
fn rwf_hipri() -> (r: i32)
    ensures
        r == 1,
{
    libc::RWF_HIPRI
}

/// `libc::RWF_DSYNC`, which libc defines as 2 on every Linux
/// target.
#[verifier::external_body]
fn rwf_dsync() -> (r: i32)
    ensures
        r == 2,
{
    libc::RWF_DSYNC
}

/// `libc::RWF_SYNC`, which libc defines as 4 on every Linux
/// target.
#[verifier::external_body]
fn rwf_sync() -> (r: i32)
    ensures
        r == 4,
{
    libc::RWF_SYNC
}

/// `libc::RWF_NOWAIT`, which libc defines as 8 on every Linux
/// target.
#[verifier::external_body]
fn rwf_nowait() -> (r: i32)
    ensures
        r == 8,
{
    libc::RWF_NOWAIT
}

/// `libc::RWF_APPEND`, which libc defines as 16 on every Linux
/// target.
#[verifier::external_body]
fn rwf_append() -> (r: i32)
    ensures
        r == 16,
{
    libc::RWF_APPEND
}

/// The bits of all the flags together.
pub open spec fn all_bits() -> i32 {
    31
}

/// A set of `RWF_*` flags. Only the bits of known flags are ever set.
#[derive(Debug, Clone, Copy, PartialEq, Eq, Structural, PartialOrd, Ord, Hash)]
pub struct ReadWriteFlags {
    bits: i32,
}

impl View for ReadWriteFlags {
    type V = i32;

    closed spec fn view(&self) -> i32 {
        self.bits
    }
}

proof fn lemma_known_bits(a: i32, b: i32)
    requires
        0 <= a < 32,
        0 <= b < 32,
    ensures
        0 <= (a | b) < 32,
        0 <= (a & b) < 32,
        0 <= (a ^ b) < 32,
        0 <= (a & !b) < 32,
        0 <= (!a & 31) < 32,
{
    assert(0 <= a < 32 && 0 <= b < 32 ==> 0 <= (a | b) < 32) by (bit_vector);
    assert(0 <= a < 32 && 0 <= b < 32 ==> 0 <= (a & b) < 32) by (bit_vector);
    assert(0 <= a < 32 && 0 <= b < 32 ==> 0 <= (a ^ b) < 32) by (bit_vector);
    assert(0 <= a < 32 ==> 0 <= (a & !b) < 32) by (bit_vector);
    assert(0 <= (!a & 31) < 32) by (bit_vector);
}

#[allow(non_snake_case)]
impl ReadWriteFlags {
    #[verifier::type_invariant]
    spec fn known(self) -> bool {
        0 <= self.bits < 32
    }

    /// `RWF_HIPRI`
    pub fn HIPRI() -> (r: Self)
        ensures
            r@ == 1,
    {
        ReadWriteFlags { bits: rwf_hipri() }
    }

    /// `RWF_DSYNC`
    pub fn DSYNC() -> (r: Self)
        ensures
            r@ == 2,
    {
        ReadWriteFlags { bits: rwf_dsync() }
    }

    /// `RWF_SYNC`
    pub fn SYNC() -> (r: Self)
        ensures
            r@ == 4,
    {
        ReadWriteFlags { bits: rwf_sync() }
    }

    /// `RWF_NOWAIT`
    pub fn NOWAIT() -> (r: Self)
        ensures
            r@ == 8,
    {
        ReadWriteFlags { bits: rwf_nowait() }
    }

    /// `RWF_APPEND`
    pub fn APPEND() -> (r: Self)
        ensures
            r@ == 16,
    {
        ReadWriteFlags { bits: rwf_append() }
    }

    /// No flag.
    pub fn empty() -> (r: Self)
        ensures
            r@ == 0,
    {
        ReadWriteFlags { bits: 0 }
    }

    /// Every flag.
    pub fn all() -> (r: Self)
        ensures
            r@ == all_bits(),
    {
        ReadWriteFlags { bits: all_bits_exec() }
    }

    /// The raw value of the flags, as `preadv2` and `pwritev2` take it.
    pub fn bits(&self) -> (r: i32)
        ensures
            r == self@,
            0 <= r < 32,
    {
        proof {
            use_type_invariant(self);
        }
        self.bits
    }

    /// The flags of `bits`, or `None` where `bits` holds a bit that is no flag.
    pub fn from_bits(bits: i32) -> (r: Option<Self>)
        ensures
            r is Some <==> 0 <= bits < 32,
            r matches Some(f) ==> f@ == bits,
    {
        if bits & !all_bits_exec() == 0 {
            assert(bits & !31i32 == 0 ==> 0 <= bits < 32) by (bit_vector);
            Some(ReadWriteFlags { bits })
        } else {
            assert(0 <= bits < 32 ==> bits & !31i32 == 0) by (bit_vector);
            None
        }
    }

    /// The flags of `bits`, with the bits that are no flag dropped.
    pub fn from_bits_truncate(bits: i32) -> (r: Self)
        ensures
            r@ == bits & all_bits(),
    {
        let b = bits & all_bits_exec();
        assert(0 <= (bits & 31i32) < 32) by (bit_vector);
        ReadWriteFlags { bits: b }
    }

    /// Whether no flag is set.
    pub fn is_empty(&self) -> (r: bool)
        ensures
            r == (self@ == 0),
    {
        self.bits == 0
    }

    /// Whether every flag is set.
    pub fn is_all(&self) -> (r: bool)
        ensures
            r == (self@ == all_bits()),
    {
        self.bits == all_bits_exec()
    }

    /// Whether every flag of `other` is set in `self`.
    pub fn contains(&self, other: Self) -> (r: bool)
        ensures
            r == ((self@ & other@) == other@),
    {
        (self.bits & other.bits) == other.bits
    }

    /// Whether some flag of `other` is set in `self`.
    pub fn intersects(&self, other: Self) -> (r: bool)
        ensures
            r == ((self@ & other@) != 0),
    {
        (self.bits & other.bits) != 0
    }

    /// Sets the flags of `other`.
    pub fn insert(&mut self, other: Self)
        ensures
            final(self)@ == old(self)@ | other@,
    {
        proof {
            use_type_invariant(&*self);
            use_type_invariant(&other);
            lemma_known_bits(self.bits, other.bits);
        }
        self.bits = self.bits | other.bits;
    }

    /// Clears the flags of `other`.
    pub fn remove(&mut self, other: Self)
        ensures
            final(self)@ == old(self)@ & !other@,
    {
        proof {
            use_type_invariant(&*self);
            use_type_invariant(&other);
            lemma_known_bits(self.bits, other.bits);
        }
        self.bits = self.bits & !other.bits;
    }

    /// Flips the flags of `other`.
    pub fn toggle(&mut self, other: Self)
        ensures
            final(self)@ == old(self)@ ^ other@,
    {
        proof {
            use_type_invariant(&*self);
            use_type_invariant(&other);
            lemma_known_bits(self.bits, other.bits);
        }
        self.bits = self.bits ^ other.bits;
    }

    /// Sets the flags of `other` where `value` holds, and clears them where it
    /// does not.
    pub fn set(&mut self, other: Self, value: bool)
        ensures
            value ==> final(self)@ == old(self)@ | other@,
            !value ==> final(self)@ == old(self)@ & !other@,
    {
        if value {
            self.insert(other);
        } else {
            self.remove(other);
        }
    }

    /// The flags set in `self` or in `other`.
    pub fn union(self, other: Self) -> (r: Self)
        ensures
            r@ == self@ | other@,
    {
        proof {
            use_type_invariant(&self);
            use_type_invariant(&other);
            lemma_known_bits(self.bits, other.bits);
        }
        ReadWriteFlags { bits: self.bits | other.bits }
    }

    /// The flags set in both `self` and `other`.
    pub fn intersection(self, other: Self) -> (r: Self)
        ensures
            r@ == self@ & other@,
    {
        proof {
            use_type_invariant(&self);
            use_type_invariant(&other);
            lemma_known_bits(self.bits, other.bits);
        }
        ReadWriteFlags { bits: self.bits & other.bits }
    }

    /// The flags set in `self` and not in `other`.
    pub fn difference(self, other: Self) -> (r: Self)
        ensures
            r@ == self@ & !other@,
    {
        proof {
            use_type_invariant(&self);
            use_type_invariant(&other);
            lemma_known_bits(self.bits, other.bits);
        }
        ReadWriteFlags { bits: self.bits & !other.bits }
    }

    /// The flags set in exactly one of `self` and `other`.
    pub fn symmetric_difference(self, other: Self) -> (r: Self)
        ensures
            r@ == self@ ^ other@,
    {
        proof {
            use_type_invariant(&self);
            use_type_invariant(&other);
            lemma_known_bits(self.bits, other.bits);
        }
        ReadWriteFlags { bits: self.bits ^ other.bits }
    }

    /// The flags not set in `self`.
    pub fn complement(self) -> (r: Self)
        ensures
            r@ == !self@ & all_bits(),
    {
        Self::from_bits_truncate(!self.bits)
    }
}

/// `|`: the union of the flags.
impl core::ops::BitOr for ReadWriteFlags {
    type Output = Self;

    fn bitor(self, other: Self) -> (r: Self)
        ensures
            r@ == self@ | other@,
    {
        self.union(other)
    }
}

impl BitOrSpecImpl for ReadWriteFlags {
    open spec fn obeys_bitor_spec() -> bool {
        true
    }

    open spec fn bitor_req(self, rhs: Self) -> bool {
        true
    }

    closed spec fn bitor_spec(self, rhs: Self) -> Self {
        ReadWriteFlags { bits: self.bits | rhs.bits }
    }
}

/// `&`: the intersection of the flags.
impl core::ops::BitAnd for ReadWriteFlags {
    type Output = Self;

    fn bitand(self, other: Self) -> (r: Self)
        ensures
            r@ == self@ & other@,
    {
        self.intersection(other)
    }
}

impl BitAndSpecImpl for ReadWriteFlags {
    open spec fn obeys_bitand_spec() -> bool {
        true
    }

    open spec fn bitand_req(self, rhs: Self) -> bool {
        true
    }

    closed spec fn bitand_spec(self, rhs: Self) -> Self {
        ReadWriteFlags { bits: self.bits & rhs.bits }
    }
}

/// `^`: the symmetric difference of the flags.
impl core::ops::BitXor for ReadWriteFlags {
    type Output = Self;

    fn bitxor(self, other: Self) -> (r: Self)
        ensures
            r@ == self@ ^ other@,
    {
        self.symmetric_difference(other)
    }
}

impl BitXorSpecImpl for ReadWriteFlags {
    open spec fn obeys_bitxor_spec() -> bool {
        true
    }

    open spec fn bitxor_req(self, rhs: Self) -> bool {
        true
    }

    closed spec fn bitxor_spec(self, rhs: Self) -> Self {
        ReadWriteFlags { bits: self.bits ^ rhs.bits }
    }
}

/// `-`: the flags of `self` that are not in `other`.
impl core::ops::Sub for ReadWriteFlags {
    type Output = Self;

    fn sub(self, other: Self) -> (r: Self)
        ensures
            r@ == self@ & !other@,
    {
        self.difference(other)
    }
}

impl SubSpecImpl for ReadWriteFlags {
    open spec fn obeys_sub_spec() -> bool {
        true
    }

    open spec fn sub_req(self, rhs: Self) -> bool {
        true
    }

    closed spec fn sub_spec(self, rhs: Self) -> Self {
        ReadWriteFlags { bits: self.bits & !rhs.bits }
    }
}

/// `!`: the flags that are not set in `self`.
impl core::ops::Not for ReadWriteFlags {
    type Output = Self;

    fn not(self) -> (r: Self)
        ensures
            r@ == !self@ & all_bits(),
    {
        self.complement()
    }
}

impl NotSpecImpl for ReadWriteFlags {
    open spec fn obeys_not_spec() -> bool {
        true
    }

    open spec fn not_req(self) -> bool {
        true
    }

    closed spec fn not_spec(self) -> Self {
        ReadWriteFlags { bits: !self.bits & 31 }
    }
}

/// `|=`: sets the flags of `other`.
impl core::ops::BitOrAssign for ReadWriteFlags {
    fn bitor_assign(&mut self, other: Self)
        ensures
            final(self)@ == old(self)@ | other@,
    {
        self.insert(other);
    }
}

/// `&=`: keeps only the flags that are also in `other`.
impl core::ops::BitAndAssign for ReadWriteFlags {
    fn bitand_assign(&mut self, other: Self)
        ensures
            final(self)@ == old(self)@ & other@,
    {
        *self = self.intersection(other);
    }
}

/// `^=`: flips the flags of `other`.
impl core::ops::BitXorAssign for ReadWriteFlags {
    fn bitxor_assign(&mut self, other: Self)
        ensures
            final(self)@ == old(self)@ ^ other@,
    {
        self.toggle(other);
    }
}

/// `-=`: clears the flags of `other`.
impl core::ops::SubAssign for ReadWriteFlags {
    fn sub_assign(&mut self, other: Self)
        ensures
            final(self)@ == old(self)@ & !other@,
    {
        self.remove(other);
    }
}

/// The bits of all the flags together, in executable code.
fn all_bits_exec() -> (r: i32)
    ensures
        r == all_bits(),
{
    let r = rwf_hipri() | rwf_dsync() | rwf_sync() | rwf_nowait() | rwf_append();
    assert((1i32 | 2i32 | 4i32 | 8i32 | 16i32) == 31i32) by (bit_vector);
    r
}

/// After `insert(other)`, the flags contain `other` and still contain every
/// flag set `g` that they contained before.
pub proof fn lemma_insert_contains(f: ReadWriteFlags, other: ReadWriteFlags, g: ReadWriteFlags)
    ensures
        ((f@ | other@) & other@) == other@,
        (f@ & g@) == g@ ==> ((f@ | other@) & g@) == g@,
{
    let (a, b, c) = (f@, other@, g@);
    assert(((a | b) & b) == b) by (bit_vector);
    assert((a & c) == c ==> ((a | b) & c) == c) by (bit_vector);
}

/// After `remove(other)`, the flags share no flag with `other`, so they no
/// longer contain `other` unless it is empty.
pub proof fn lemma_remove_disjoint(f: ReadWriteFlags, other: ReadWriteFlags)
    ensures
        ((f@ & !other@) & other@) == 0,
        other@ != 0 ==> ((f@ & !other@) & other@) != other@,
{
    let (a, b) = (f@, other@);
    assert(((a & !b) & b) == 0) by (bit_vector);
}

/// Toggling the same flags twice gives back the flags one started with.
pub proof fn lemma_toggle_twice(f: ReadWriteFlags, other: ReadWriteFlags)
    ensures
        ((f@ ^ other@) ^ other@) == f@,
{
    let (a, b) = (f@, other@);
    assert(((a ^ b) ^ b) == a) by (bit_vector);
}

/// The complement of the complement of valid flags is the flags themselves,
/// and flags and their complement together are all the flags.
pub proof fn lemma_complement(f: ReadWriteFlags)
    requires
        0 <= f@ < 32,
    ensures
        (!(!f@ & all_bits()) & all_bits()) == f@,
        (f@ | (!f@ & all_bits())) == all_bits(),
        (f@ & (!f@ & all_bits())) == 0,
{
    let a = f@;
    assert(0 <= a < 32 ==> (!(!a & 31i32) & 31i32) == a) by (bit_vector);
    assert(0 <= a < 32 ==> (a | (!a & 31i32)) == 31i32) by (bit_vector);
    assert((a & (!a & 31i32)) == 0) by (bit_vector);
}

/// Valid flags survive `from_bits_truncate` of their own bits unchanged, and
/// every flag set is contained in `all`.
pub proof fn lemma_known_bits_kept(f: ReadWriteFlags)
    requires
        0 <= f@ < 32,
    ensures
        (f@ & all_bits()) == f@,
        (all_bits() & f@) == f@,
{
    let a = f@;
    assert(0 <= a < 32 ==> (a & 31i32) == a) by (bit_vector);
    assert(0 <= a < 32 ==> (31i32 & a) == a) by (bit_vector);
}

} // verus!
