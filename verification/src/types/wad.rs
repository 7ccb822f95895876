//! 18-decimal fixed-point scalar.

use crate::math::wide::mul_div_floor;
use vstd::prelude::*;

verus! {

/// Raw value of one whole unit: 10^18.
pub const WAD: u128 = 1_000_000_000_000_000_000;

/// Largest fee a pool will ever charge: 1 - 10^-12, as a raw value.
pub const MAX_FEE: u128 = 999_999_999_999_000_000;

/// Raw value of one basis point: 10^14.
pub const BPS: u128 = 100_000_000_000_000;

/// A non-negative number with 18 decimal places; the field is the number
/// multiplied by 10^18.
#[derive(Clone, Copy, Debug, PartialEq, Eq, Structural, PartialOrd, Ord, Hash)]
pub struct Wad(pub u128);

impl Wad {
    /// The number whose raw value is `raw`.
    pub fn new(raw: u128) -> (w: Wad)
        ensures
            w.0 == raw,
    {
        Wad(raw)
    }

    /// The raw value.
    pub fn raw(&self) -> (r: u128)
        ensures
            r == self.0,
    {
        self.0
    }

    /// Zero.
    pub fn zero() -> (w: Wad)
        ensures
            w.0 == 0,
    {
        Wad(0)
    }

    /// One whole unit.
    pub fn one() -> (w: Wad)
        ensures
            w.0 == WAD,
    {
        Wad(WAD)
    }

    /// The fraction `bps / 10000`.
    pub fn from_bps(bps: u64) -> (w: Wad)
        ensures
            w.0 == bps * BPS,
    {
        let b: u128 = bps as u128;
        Wad(b * BPS)
    }

    /// A whole number of units.
    pub fn from_units(units: u64) -> (w: Wad)
        ensures
            w.0 == units * WAD,
    {
        let u: u128 = units as u128;
        Wad(u * WAD)
    }

    /// `x` held to the range of raw values: anything above the largest raw
    /// value counts as the largest.
    pub open spec fn saturate(x: int) -> int {
        if x > u128::MAX {
            u128::MAX as int
        } else if x < 0 {
            0
        } else {
            x
        }
    }

    /// The worth of `amount` at `price`: their product, rounded down and
    /// saturated.
    pub open spec fn worth(amount: int, price: int) -> int {
        Wad::saturate((amount * price) / (WAD as int))
    }

    /// The worth of this amount at `price`.
    pub fn value_at(self, price: Wad) -> (v: Wad)
        ensures
            v.0 == Wad::worth(self.0 as int, price.0 as int),
    {
        proof {
            assert(self.0 * price.0 >= 0) by (nonlinear_arith)
                requires
                    self.0 >= 0,
                    price.0 >= 0,
            ;
            vstd::arithmetic::div_mod::lemma_div_pos_is_pos(self.0 * price.0, WAD as int);
        }
        match mul_div_floor(self.0, price.0, WAD) {
            Some(v) => Wad(v),
            None => Wad(u128::MAX),
        }
    }

    /// The sum, saturated.
    pub fn saturating_add(self, other: Wad) -> (v: Wad)
        ensures
            v.0 == Wad::saturate(self.0 + other.0),
    {
        Wad(self.0.saturating_add(other.0))
    }

    /// True when the value is an admissible fee: at most `MAX_FEE`.
    pub open spec fn is_fee(self) -> bool {
        self.0 <= MAX_FEE
    }

    /// Saturates the value into the closed interval `[0, MAX_FEE]`.
    pub fn clamp_fee(self) -> (w: Wad)
        ensures
            w.is_fee(),
            self.0 <= MAX_FEE ==> w == self,
            self.0 > MAX_FEE ==> w.0 == MAX_FEE,
    {
        if self.0 > MAX_FEE {
            Wad(MAX_FEE)
        } else {
            self
        }
    }
}

/// A signed number with 18 decimal places, for profits and edges; the field
/// is the number multiplied by 10^18.
#[derive(Clone, Copy, Debug, PartialEq, Eq, Structural, PartialOrd, Ord, Hash)]
pub struct SignedWad(pub i128);

impl SignedWad {
    /// `x` held to the range of signed raw values.
    pub open spec fn saturate(x: int) -> int {
        if x > i128::MAX {
            i128::MAX as int
        } else if x < i128::MIN {
            i128::MIN as int
        } else {
            x
        }
    }

    /// Zero.
    pub fn zero() -> (s: SignedWad)
        ensures
            s.0 == 0,
    {
        SignedWad(0)
    }

    /// `gained - paid`, saturated.
    pub fn difference(gained: Wad, paid: Wad) -> (s: SignedWad)
        ensures
            s.0 == SignedWad::saturate(gained.0 - paid.0),
    {
        if gained.0 >= paid.0 {
            let d: u128 = gained.0 - paid.0;
            if d > 0x7FFF_FFFF_FFFF_FFFF_FFFF_FFFF_FFFF_FFFF {
                SignedWad(i128::MAX)
            } else {
                SignedWad(d as i128)
            }
        } else {
            let d: u128 = paid.0 - gained.0;
            if d > 0x7FFF_FFFF_FFFF_FFFF_FFFF_FFFF_FFFF_FFFF {
                SignedWad(i128::MIN)
            } else {
                SignedWad(-(d as i128))
            }
        }
    }

    /// The sum, saturated.
    pub fn saturating_add(self, other: SignedWad) -> (s: SignedWad)
        ensures
            s.0 == SignedWad::saturate(self.0 + other.0),
    {
        match self.0.checked_add(other.0) {
            Some(v) => SignedWad(v),
            None => {
                if self.0 > 0 {
                    SignedWad(i128::MAX)
                } else {
                    SignedWad(i128::MIN)
                }
            },
        }
    }
}

} // verus!
