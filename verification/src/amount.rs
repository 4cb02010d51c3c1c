//! Prices and other market quantities, held as binary64 bit patterns and
//! compared through an integer rank.

use vstd::prelude::*;

verus! {

/// The bit that carries the sign of a binary64 pattern.
pub const SIGN_BIT: u64 = 0x8000_0000_0000_0000;

/// The magnitude bits of an infinity; every larger magnitude is not a number.
pub const INFINITY_BITS: u64 = 0x7FF0_0000_0000_0000;

/// A market quantity: the sixty-four bits of a binary64 value.
///
/// The library never computes with the value; it only orders quantities. The
/// order is read off the pattern: the magnitude bits grow with the absolute
/// value, the sign bit mirrors them, both zeros share rank zero, and a pattern
/// that is not a number is unordered against everything, itself included.
#[derive(Clone, Copy, Debug)]
pub struct Amount {
    pub bits: u64,
}

impl Amount {
    /// The pattern without its sign bit.
    pub open spec fn magnitude(self) -> int {
        if self.bits >= SIGN_BIT {
            self.bits - SIGN_BIT
        } else {
            self.bits as int
        }
    }

    /// The pattern stands for no number.
    pub open spec fn is_nan(self) -> bool {
        self.magnitude() > INFINITY_BITS
    }

    /// The integer by which numbers are ordered.
    pub open spec fn rank(self) -> int {
        if self.bits >= SIGN_BIT {
            -self.magnitude()
        } else {
            self.magnitude()
        }
    }

    /// `self < other` on numbers; false as soon as either side is not a number.
    pub open spec fn below(self, other: Amount) -> bool {
        !self.is_nan() && !other.is_nan() && self.rank() < other.rank()
    }

    /// `self <= other` on numbers; false as soon as either side is not a number.
    pub open spec fn at_most(self, other: Amount) -> bool {
        !self.is_nan() && !other.is_nan() && self.rank() <= other.rank()
    }

    /// `self == other` as numbers: the two zeros are equal, and nothing equals
    /// a pattern that is not a number.
    pub open spec fn same_number(self, other: Amount) -> bool {
        !self.is_nan() && !other.is_nan() && self.rank() == other.rank()
    }

    /// The quantity with the pattern `bits`.
    pub fn from_bits(bits: u64) -> (a: Amount)
        ensures
            a.bits == bits,
    {
        Amount { bits }
    }

    /// The pattern of the quantity.
    pub fn to_bits(&self) -> (bits: u64)
        ensures
            bits == self.bits,
    {
        self.bits
    }

    /// Positive zero.
    pub fn zero() -> (a: Amount)
        ensures
            a.bits == 0,
            a.rank() == 0,
            !a.is_nan(),
    {
        Amount { bits: 0 }
    }

    /// Whether the pattern stands for a number.
    pub fn is_number(&self) -> (r: bool)
        ensures
            r == !self.is_nan(),
    {
        let magnitude: u64 = if self.bits >= SIGN_BIT {
            self.bits - SIGN_BIT
        } else {
            self.bits
        };
        magnitude <= INFINITY_BITS
    }

    fn order_key(&self) -> (key: i64)
        ensures
            key == self.rank(),
    {
        if self.bits >= SIGN_BIT {
            let magnitude: u64 = self.bits - SIGN_BIT;
            -(magnitude as i64)
        } else {
            self.bits as i64
        }
    }

    /// `self < other`.
    pub fn less_than(&self, other: &Amount) -> (r: bool)
        ensures
            r == self.below(*other),
    {
        self.is_number() && other.is_number() && self.order_key() < other.order_key()
    }

    /// `self <= other`.
    pub fn less_or_equal(&self, other: &Amount) -> (r: bool)
        ensures
            r == self.at_most(*other),
    {
        self.is_number() && other.is_number() && self.order_key() <= other.order_key()
    }

    /// `self > other`.
    pub fn greater_than(&self, other: &Amount) -> (r: bool)
        ensures
            r == other.below(*self),
    {
        other.less_than(self)
    }

    /// `self >= other`.
    pub fn greater_or_equal(&self, other: &Amount) -> (r: bool)
        ensures
            r == other.at_most(*self),
    {
        other.less_or_equal(self)
    }

    /// Whether the absolute value is at least that of `level`, a number that
    /// is not negative.
    pub fn magnitude_at_least(&self, level: &Amount) -> (r: bool)
        ensures
            r == (!self.is_nan() && !level.is_nan() && self.magnitude() >= level.magnitude()),
    {
        let mine: u64 = if self.bits >= SIGN_BIT {
            self.bits - SIGN_BIT
        } else {
            self.bits
        };
        let theirs: u64 = if level.bits >= SIGN_BIT {
            level.bits - SIGN_BIT
        } else {
            level.bits
        };
        mine <= INFINITY_BITS && theirs <= INFINITY_BITS && mine >= theirs
    }
}

/// Among numbers exactly one of below, same and above holds, and the
/// non-strict order is the strict one joined with equality.
pub proof fn lemma_order_is_total(a: Amount, b: Amount)
    requires
        !a.is_nan(),
        !b.is_nan(),
    ensures
        a.below(b) || a.same_number(b) || b.below(a),
        !(a.below(b) && a.same_number(b)),
        !(a.below(b) && b.below(a)),
        !(b.below(a) && a.same_number(b)),
        a.at_most(b) == (a.below(b) || a.same_number(b)),
        a.at_most(b) == !b.below(a),
{
}

/// The strict order is transitive.
pub proof fn lemma_below_is_transitive(a: Amount, b: Amount, c: Amount)
    requires
        a.below(b),
        b.below(c),
    ensures
        a.below(c),
{
}

/// Nothing is ordered against a pattern that is not a number.
pub proof fn lemma_nan_is_unordered(a: Amount, b: Amount)
    requires
        a.is_nan() || b.is_nan(),
    ensures
        !a.below(b),
        !a.at_most(b),
        !b.below(a),
        !b.at_most(a),
        !a.same_number(b),
{
}

} // verus!
