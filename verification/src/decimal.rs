//! Unsigned fixed-point decimal arithmetic with deterministic truncation.
//!
//! A `Decimal` stores an integer count of atomic units; one whole unit is
//! `FRACTIONAL` atomics, so a value carries twelve fractional digits. Every
//! operation states its exact result over the atomics, with truncating
//! (floor) division where a result cannot be represented exactly.

use vstd::prelude::*;

verus! {

/// Number of atomic units in one whole unit: a `Decimal` with `atomics == FRACTIONAL`
/// has the value one.
pub const FRACTIONAL: u128 = 1_000_000_000_000;

/// An unsigned fixed-point decimal: `atomics / FRACTIONAL` in real value.
#[derive(Clone, Copy, Debug, PartialEq, Eq, Structural)]
pub struct Decimal {
    pub atomics: u128,
}

impl View for Decimal {
    type V = int;

    open spec fn view(&self) -> int {
        self.atomics as int
    }
}

impl Decimal {
    /// The value zero.
    pub fn zero() -> (r: Decimal)
        ensures
            r@ == 0,
    {
        Decimal { atomics: 0 }
    }

    /// The value one.
    pub fn one() -> (r: Decimal)
        ensures
            r@ == FRACTIONAL as int,
    {
        Decimal { atomics: FRACTIONAL }
    }

    /// Build a decimal directly from a count of atomic units.
    pub fn from_atomics(atomics: u128) -> (r: Decimal)
        ensures
            r@ == atomics as int,
    {
        Decimal { atomics }
    }

    /// The whole number `n` as a decimal.
    pub fn from_uint(n: u128) -> (r: Decimal)
        requires
            n * (FRACTIONAL as int) <= u128::MAX as int,
        ensures
            r@ == n * (FRACTIONAL as int),
    {
        Decimal { atomics: n * FRACTIONAL }
    }

    /// The ratio `numerator / denominator` as a decimal, truncated.
    pub fn from_ratio(numerator: u128, denominator: u128) -> (r: Decimal)
        requires
            denominator != 0,
            numerator * (FRACTIONAL as int) <= u128::MAX as int,
        ensures
            r@ == numerator * (FRACTIONAL as int) / (denominator as int),
    {
        Decimal { atomics: (numerator * FRACTIONAL) / denominator }
    }

    pub open spec fn spec_is_zero(&self) -> bool {
        self@ == 0
    }

    #[verifier::when_used_as_spec(spec_is_zero)]
    pub fn is_zero(&self) -> (r: bool)
        ensures
            r == (self@ == 0),
    {
        self.atomics == 0
    }

    /// Exact sum.
    pub fn add(self, other: Decimal) -> (r: Decimal)
        requires
            self@ + other@ <= u128::MAX as int,
        ensures
            r@ == self@ + other@,
    {
        Decimal { atomics: self.atomics + other.atomics }
    }

    /// Exact difference.
    pub fn sub(self, other: Decimal) -> (r: Decimal)
        requires
            other@ <= self@,
        ensures
            r@ == self@ - other@,
    {
        Decimal { atomics: self.atomics - other.atomics }
    }

    /// Product of two decimals, truncated to the nearest atomic below.
    pub fn mul(self, other: Decimal) -> (r: Decimal)
        requires
            self@ * other@ <= u128::MAX as int,
        ensures
            r@ == self@ * other@ / (FRACTIONAL as int),
    {
        Decimal { atomics: (self.atomics * other.atomics) / FRACTIONAL }
    }

    /// Exact product with a whole number.
    pub fn mul_uint(self, n: u128) -> (r: Decimal)
        requires
            self@ * n <= u128::MAX as int,
        ensures
            r@ == self@ * n,
    {
        Decimal { atomics: self.atomics * n }
    }

    /// Quotient of two decimals, truncated to the nearest atomic below.
    pub fn div(self, other: Decimal) -> (r: Decimal)
        requires
            other@ != 0,
            self@ * (FRACTIONAL as int) <= u128::MAX as int,
        ensures
            r@ == self@ * (FRACTIONAL as int) / other@,
    {
        Decimal { atomics: (self.atomics * FRACTIONAL) / other.atomics }
    }

    /// Exact-scale quotient by a whole number, truncated to the nearest
    /// atomic below.
    pub fn div_uint(self, n: u128) -> (r: Decimal)
        requires
            n != 0,
        ensures
            r@ == self@ / (n as int),
    {
        Decimal { atomics: self.atomics / n }
    }

    /// The decimal truncated to a whole number of units.
    pub fn to_uint_floor(self) -> (r: u128)
        ensures
            r == self@ / (FRACTIONAL as int),
    {
        self.atomics / FRACTIONAL
    }

    /// Strict order on the values.
    pub fn lt(&self, other: &Decimal) -> (r: bool)
        ensures
            r == (self@ < other@),
    {
        self.atomics < other.atomics
    }

    /// Strict order on the values.
    pub fn gt(&self, other: &Decimal) -> (r: bool)
        ensures
            r == (self@ > other@),
    {
        self.atomics > other.atomics
    }

    /// Non-strict order on the values.
    pub fn ge(&self, other: &Decimal) -> (r: bool)
        ensures
            r == (self@ >= other@),
    {
        self.atomics >= other.atomics
    }
}

} // verus!
