//! The numeric model: a sign, an unsigned 128-bit magnitude, and the native
//! unsigned widths that convert to and from it.

use vstd::prelude::*;

pub use crate::value::float::Float;

verus! {

/// The sign of a signed integer, kept apart from its magnitude so that the
/// whole symmetric range fits, the most negative value included.
#[derive(Debug, Copy, Clone, PartialEq, Eq, Structural, Hash)]
pub enum Sign {
    Positive,
    Negative,
}

/// The magnitude of an integer, as an unsigned 128-bit number.
#[derive(Debug, Copy, Clone, PartialEq, Eq, Structural, PartialOrd, Ord, Hash)]
pub struct Integer {
    pub raw: u128,
}

impl View for Integer {
    type V = nat;

    open spec fn view(&self) -> nat {
        self.raw as nat
    }
}

/// A native unsigned width: it widens into an [`Integer`] without loss and is
/// recovered from one exactly when the magnitude fits.
#[allow(non_camel_case_types)]
pub trait uint: Copy {
    /// The number that a value of this width stands for.
    spec fn number(self) -> nat;

    /// The largest number of this width.
    spec fn limit() -> nat;

    fn make_opaque(i: Self) -> (r: Integer)
        ensures
            r@ == i.number(),
    ;

    fn from_opaque(i: Integer) -> (r: Option<Self>)
        ensures
            r is Some <==> i@ <= Self::limit(),
            r matches Some(n) ==> n.number() == i@,
    ;
}

impl uint for u8 {
    open spec fn number(self) -> nat {
        self as nat
    }

    open spec fn limit() -> nat {
        u8::MAX as nat
    }

    fn make_opaque(i: u8) -> (r: Integer) {
        Integer { raw: i as u128 }
    }

    fn from_opaque(i: Integer) -> (r: Option<u8>) {
        if i.raw <= u8::MAX as u128 {
            Some(i.raw as u8)
        } else {
            None
        }
    }
}

impl uint for u16 {
    open spec fn number(self) -> nat {
        self as nat
    }

    open spec fn limit() -> nat {
        u16::MAX as nat
    }

    fn make_opaque(i: u16) -> (r: Integer) {
        Integer { raw: i as u128 }
    }

    fn from_opaque(i: Integer) -> (r: Option<u16>) {
        if i.raw <= u16::MAX as u128 {
            Some(i.raw as u16)
        } else {
            None
        }
    }
}

impl uint for u32 {
    open spec fn number(self) -> nat {
        self as nat
    }

    open spec fn limit() -> nat {
        u32::MAX as nat
    }

    fn make_opaque(i: u32) -> (r: Integer) {
        Integer { raw: i as u128 }
    }

    fn from_opaque(i: Integer) -> (r: Option<u32>) {
        if i.raw <= u32::MAX as u128 {
            Some(i.raw as u32)
        } else {
            None
        }
    }
}

impl uint for u64 {
    open spec fn number(self) -> nat {
        self as nat
    }

    open spec fn limit() -> nat {
        u64::MAX as nat
    }

    fn make_opaque(i: u64) -> (r: Integer) {
        Integer { raw: i as u128 }
    }

    fn from_opaque(i: Integer) -> (r: Option<u64>) {
        if i.raw <= u64::MAX as u128 {
            Some(i.raw as u64)
        } else {
            None
        }
    }
}

impl uint for u128 {
    open spec fn number(self) -> nat {
        self as nat
    }

    open spec fn limit() -> nat {
        u128::MAX as nat
    }

    fn make_opaque(i: u128) -> (r: Integer) {
        Integer { raw: i }
    }

    fn from_opaque(i: Integer) -> (r: Option<u128>) {
        Some(i.raw)
    }
}

impl<T: uint> From<T> for Integer {
    fn from(i: T) -> (r: Integer) {
        T::make_opaque(i)
    }
}

impl<T: uint> vstd::std_specs::convert::FromSpecImpl<T> for Integer {
    open spec fn obeys_from_spec() -> bool {
        true
    }

    open spec fn from_spec(i: T) -> Integer {
        Integer { raw: i.number() as u128 }
    }
}

impl Integer {
    /// The magnitude as the native width `T`, or `None` where it does not fit.
    pub fn as_int<T: uint>(self) -> (r: Option<T>)
        ensures
            r is Some <==> self@ <= T::limit(),
            r matches Some(n) ==> n.number() == self@,
    {
        T::from_opaque(self)
    }

    /// The magnitude as a `u64`, or `None` where it is larger than `u64::MAX`.
    pub fn as_u64(self) -> (r: Option<u64>)
        ensures
            r == (if self@ <= u64::MAX {
                Some(self@ as u64)
            } else {
                None
            }),
    {
        self.as_int::<u64>()
    }

    /// The magnitude as a `u128`: always `Some`.
    pub fn as_u128(self) -> (r: Option<u128>)
        ensures
            r == Some(self.raw),
    {
        self.as_int::<u128>()
    }
}

} // verus!
