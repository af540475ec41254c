//! Numerator (upper) and denominator (lower) values of a musical time signature.

use vstd::prelude::*;

verus! {

/// A musical time signature: `numerator` beats per bar, each of the unit
/// named by `denominator`.
///
/// Construction performs no validation; `is_valid` reports whether the pair
/// is one this library supports.
#[derive(Clone, Copy, Debug, PartialEq, Eq, Structural)]
pub struct TimeSignature {
    pub numerator: u8,
    pub denominator: u8,
}

/// What `TimeSignature::is_valid` reports: a positive numerator and a
/// power-of-two denominator between 2 and 32.
pub open spec fn spec_signature_valid(numerator: u8, denominator: u8) -> bool {
    numerator > 0 && (denominator == 2 || denominator == 4 || denominator == 8
        || denominator == 16 || denominator == 32)
}

impl TimeSignature {
    /// Create a new signature with the given numerator (upper) and
    /// denominator (lower) values. No validation is performed.
    pub fn new(numerator: u8, denominator: u8) -> (signature: TimeSignature)
        ensures
            signature.numerator == numerator,
            signature.denominator == denominator,
    {
        TimeSignature { numerator, denominator }
    }

    /// Returns `true` iff the signature is valid: the numerator is not 0 and
    /// the denominator is one of 2, 4, 8, 16 or 32. Construction never
    /// rejects invalid values; checking them is the caller's responsibility.
    pub fn is_valid(&self) -> (valid: bool)
        ensures
            valid == spec_signature_valid(self.numerator, self.denominator),
    {
        let denominator = self.denominator;

        self.numerator > 0
            && (denominator == 2
                || denominator == 4
                || denominator == 8
                || denominator == 16
                || denominator == 32)
    }

    /// Get the top value of the time signature.
    pub fn get_numerator(&self) -> (numerator: u8)
        ensures
            numerator == self.numerator,
    {
        self.numerator
    }

    /// Get the bottom value of the time signature.
    pub fn get_denominator(&self) -> (denominator: u8)
        ensures
            denominator == self.denominator,
    {
        self.denominator
    }

    /// Return the numerator and denominator as a tuple.
    pub fn as_tuple(&self) -> (pair: (u8, u8))
        ensures
            pair.0 == self.numerator,
            pair.1 == self.denominator,
    {
        (self.numerator, self.denominator)
    }
}

impl Default for TimeSignature {
    /// The default signature is 4/4.
    fn default() -> (signature: TimeSignature)
        ensures
            signature.numerator == 4,
            signature.denominator == 4,
    {
        TimeSignature { numerator: 4, denominator: 4 }
    }
}

} // verus!
