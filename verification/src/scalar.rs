//! Single-precision numbers, carried by their bits.
//!
//! Volumes, peaks and decibels pass through the library untouched but for three
//! decisions: is a peak silence, does a volume leave the unit range, does a
//! decibel value leave the meter's range. All three are comparisons, and the
//! order of two IEEE 754 numbers can be read off their bits.

use vstd::prelude::*;

verus! {

/// An IEEE 754 binary32 number: `bits` is what `f32::to_bits` gives.
///
/// `==` compares the numbers: both zeros are equal, and NaN equals nothing.
#[derive(Debug, Clone, Copy)]
pub struct Scalar {
    pub bits: u32,
}

/// The bits of `0.0`.
pub const ZERO_BITS: u32 = 0;

/// The bits of `1.0`.
pub const ONE_BITS: u32 = 0x3F80_0000;

/// `0.0`.
pub open spec fn zero() -> Scalar {
    Scalar { bits: ZERO_BITS }
}

/// `1.0`.
pub open spec fn one() -> Scalar {
    Scalar { bits: ONE_BITS }
}

impl PartialEq for Scalar {
    fn eq(&self, other: &Self) -> (r: bool) {
        !self.nan() && !other.nan() && self.place() == other.place()
    }
}

impl vstd::std_specs::cmp::PartialEqSpecImpl for Scalar {
    open spec fn obeys_eq_spec() -> bool {
        true
    }

    open spec fn eq_spec(&self, other: &Self) -> bool {
        !self.is_nan() && !other.is_nan() && self.rank() == other.rank()
    }
}

impl Scalar {
    /// The number without its sign bit.
    pub open spec fn magnitude(self) -> int {
        if self.bits < 0x8000_0000 {
            self.bits as int
        } else {
            self.bits - 0x8000_0000
        }
    }

    /// Not a number: an exponent of all ones and a fraction that is not zero.
    pub open spec fn is_nan(self) -> bool {
        self.magnitude() > 0x7F80_0000
    }

    /// The place of a number that is not NaN among all of them. Both zeros have
    /// the same.
    pub open spec fn rank(self) -> int {
        if self.bits < 0x8000_0000 {
            self.magnitude()
        } else {
            -self.magnitude()
        }
    }

    /// `self < other`: false when either is NaN.
    pub open spec fn below(self, other: Scalar) -> bool {
        !self.is_nan() && !other.is_nan() && self.rank() < other.rank()
    }

    /// `self <= other`: false when either is NaN.
    pub open spec fn at_most(self, other: Scalar) -> bool {
        !self.is_nan() && !other.is_nan() && self.rank() <= other.rank()
    }

    /// `self` moved into the range from `lo` to `hi`; NaN stays NaN.
    pub open spec fn clamped(self, lo: Scalar, hi: Scalar) -> Scalar {
        if self.below(lo) {
            lo
        } else if hi.below(self) {
            hi
        } else {
            self
        }
    }

    /// The number whose bits are `bits`.
    pub fn from_bits(bits: u32) -> (r: Scalar)
        ensures
            r.bits == bits,
    {
        Scalar { bits }
    }

    fn nan(self) -> (r: bool)
        ensures
            r == self.is_nan(),
    {
        let magnitude: u32 = if self.bits < 0x8000_0000 {
            self.bits
        } else {
            self.bits - 0x8000_0000
        };
        magnitude > 0x7F80_0000
    }

    fn place(self) -> (r: i64)
        ensures
            r == self.rank(),
    {
        if self.bits < 0x8000_0000 {
            self.bits as i64
        } else {
            0x8000_0000i64 - self.bits as i64
        }
    }

    /// `self < other`.
    pub fn lt(self, other: Scalar) -> (r: bool)
        ensures
            r == self.below(other),
    {
        !self.nan() && !other.nan() && self.place() < other.place()
    }

    /// `self <= other`.
    pub fn le(self, other: Scalar) -> (r: bool)
        ensures
            r == self.at_most(other),
    {
        !self.nan() && !other.nan() && self.place() <= other.place()
    }

    /// `self` moved into the range from `lo` to `hi`.
    pub fn clamp(self, lo: Scalar, hi: Scalar) -> (r: Scalar)
        requires
            lo.at_most(hi),
        ensures
            r == self.clamped(lo, hi),
    {
        if self.lt(lo) {
            lo
        } else if hi.lt(self) {
            hi
        } else {
            self
        }
    }

    /// A capture volume: `self` moved into the range from zero to one.
    pub fn clamp_unit(self) -> (r: Scalar)
        ensures
            r == self.clamped(zero(), one()),
    {
        self.clamp(Scalar::from_bits(ZERO_BITS), Scalar::from_bits(ONE_BITS))
    }
}

/// A clamped number lies in its range, and one that lay there already stays
/// as it is; NaN aside.
pub proof fn clamped_lies_in_range(x: Scalar, lo: Scalar, hi: Scalar)
    requires
        lo.at_most(hi),
        !x.is_nan(),
    ensures
        lo.at_most(x.clamped(lo, hi)),
        x.clamped(lo, hi).at_most(hi),
        lo.at_most(x) && x.at_most(hi) ==> x.clamped(lo, hi) == x,
{
}

/// What is no number, by its bits.
pub proof fn nan_is_beyond_infinity(x: Scalar)
    ensures
        x.is_nan() <==> 0x7F80_0000 < x.bits < 0x8000_0000 || 0xFF80_0000 < x.bits,
{
}

/// The order of numbers, by their bits: from zero up it is that of the bits, below
/// zero it is the reverse, and what is negative is at most what is not. Both zeros
/// are at most each other. NaN has no place in it.
pub proof fn numbers_are_ordered_by_their_bits(a: Scalar, b: Scalar)
    ensures
        a.bits <= 0x7F80_0000 && b.bits <= 0x7F80_0000 ==> (a.at_most(b) <==> a.bits <= b.bits),
        0x8000_0000 <= a.bits <= 0xFF80_0000 && 0x8000_0000 <= b.bits <= 0xFF80_0000 ==> (
        a.at_most(b) <==> b.bits <= a.bits),
        0x8000_0000 <= a.bits <= 0xFF80_0000 && b.bits <= 0x7F80_0000 ==> a.at_most(b),
        a.bits <= 0x7F80_0000 && 0x8000_0000 <= b.bits <= 0xFF80_0000 ==> (a.at_most(b) <==> a.bits
            == 0 && b.bits == 0x8000_0000),
        a.is_nan() || b.is_nan() ==> !a.at_most(b) && !a.below(b),
        a.below(b) <==> a.at_most(b) && !b.at_most(a),
{
}

/// A number that is out of the range goes to the nearer end of it, one that is in
/// it stays as it is, bit for bit, and NaN stays too.
pub proof fn clamping_moves_what_is_outside_only(x: Scalar, lo: Scalar, hi: Scalar)
    requires
        lo.at_most(hi),
    ensures
        x.below(lo) ==> x.clamped(lo, hi) == lo,
        hi.below(x) ==> x.clamped(lo, hi) == hi,
        lo.at_most(x) && x.at_most(hi) ==> x.clamped(lo, hi) == x,
        x.is_nan() ==> x.clamped(lo, hi) == x,
{
}

/// Zero and one are what their bits say.
pub proof fn zero_and_one_have_their_bits()
    ensures
        zero().bits == 0,
        one().bits == 0x3F80_0000,
{
}

/// Two numbers are equal exactly if each is at most the other. So both zeros are
/// equal, a number that is not zero equals its own bits only, and NaN equals
/// nothing, not even itself.
pub proof fn numbers_are_equal_by_their_order(a: Scalar, b: Scalar)
    ensures
        vstd::std_specs::cmp::PartialEqSpec::eq_spec(&a, &b) <==> a.at_most(b) && b.at_most(a),
        a.is_nan() || b.is_nan() ==> !vstd::std_specs::cmp::PartialEqSpec::eq_spec(&a, &b),
        !a.is_nan() && a.bits == b.bits ==> vstd::std_specs::cmp::PartialEqSpec::eq_spec(&a, &b),
        a.bits == 0 && b.bits == 0x8000_0000 ==> vstd::std_specs::cmp::PartialEqSpec::eq_spec(
            &a,
            &b,
        ),
{
}

} // verus!
