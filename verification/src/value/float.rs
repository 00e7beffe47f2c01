//! A 64-bit float held by its bit pattern.

use core::cmp::Ordering;
use vstd::std_specs::cmp::PartialOrdSpec;
use vstd::prelude::*;

verus! {

/// A double-precision number, kept as the 64 bits of its IEEE encoding.
///
/// Two values are equal exactly when their bits are; the order is that of
/// the bits read as a signed 64-bit integer. Both are total, NaNs included.
#[derive(Debug, Copy, Clone, PartialEq, Eq, Structural, Hash)]
pub struct Float {
    pub bits: u64,
}

impl Float {
    /// The bits read as a two's-complement signed number: what the order goes by.
    pub open spec fn key(self) -> int {
        if self.bits < 0x8000_0000_0000_0000 {
            self.bits as int
        } else {
            self.bits - 0x1_0000_0000_0000_0000
        }
    }

    /// The value with the given IEEE bits.
    pub fn from_bits(bits: u64) -> (r: Float)
        ensures
            r.bits == bits,
    {
        Float { bits }
    }

    /// The IEEE bits of the value.
    pub fn to_bits(self) -> (r: u64)
        ensures
            r == self.bits,
    {
        self.bits
    }

    /// The bits as a signed 64-bit integer.
    pub fn signed_bits(self) -> (r: i64)
        ensures
            r == self.key(),
    {
        if self.bits < 0x8000_0000_0000_0000 {
            self.bits as i64
        } else {
            let low: u64 = self.bits - 0x8000_0000_0000_0000;
            low as i64 + i64::MIN
        }
    }
}

impl PartialOrd for Float {
    fn partial_cmp(&self, other: &Float) -> (r: Option<Ordering>) {
        let a: i64 = self.signed_bits();
        let b: i64 = other.signed_bits();
        if a < b {
            Some(Ordering::Less)
        } else if a == b {
            Some(Ordering::Equal)
        } else {
            Some(Ordering::Greater)
        }
    }
}

impl vstd::std_specs::cmp::PartialOrdSpecImpl for Float {
    open spec fn obeys_partial_cmp_spec() -> bool {
        true
    }

    open spec fn partial_cmp_spec(&self, other: &Float) -> Option<Ordering> {
        if self.key() < other.key() {
            Some(Ordering::Less)
        } else if self.key() == other.key() {
            Some(Ordering::Equal)
        } else {
            Some(Ordering::Greater)
        }
    }
}

impl Float {
    /// How `self` stands to `other` in the total order.
    pub fn total_order(&self, other: &Float) -> (r: Ordering)
        ensures
            Some(r) == self.partial_cmp_spec(other),
    {
        match self.partial_cmp(other) {
            Some(o) => o,
            None => Ordering::Equal,
        }
    }
}

/// Equal bit patterns make equal values and different bit patterns make
/// different values: a NaN equals itself, and two NaNs with different
/// encodings differ.
pub proof fn lemma_float_identity(a: Float, b: Float)
    ensures
        a == b <==> a.bits == b.bits,
        a == a,
        a.partial_cmp_spec(&b) == Some(Ordering::Equal) <==> a == b,
{
}

/// The order is total: any two values compare, each way round gives the
/// mirror answer, and "less" is transitive.
pub proof fn lemma_float_order_total(a: Float, b: Float, c: Float)
    ensures
        a.partial_cmp_spec(&b) is Some,
        a.partial_cmp_spec(&b) == Some(Ordering::Less) <==> b.partial_cmp_spec(&a) == Some(
            Ordering::Greater,
        ),
        a.partial_cmp_spec(&b) == Some(Ordering::Less) && b.partial_cmp_spec(&c) == Some(
            Ordering::Less,
        ) ==> a.partial_cmp_spec(&c) == Some(Ordering::Less),
        a.partial_cmp_spec(&b) == Some(Ordering::Less) || a == b || a.partial_cmp_spec(&b) == Some(
            Ordering::Greater,
        ),
{
}

} // verus!
