//! Amounts of Pi.

use crate::decimal::decimal_digits;
use crate::decimal::decimal_text;
use crate::decimal::fraction_digits;
use crate::decimal::fraction_text;
use vstd::prelude::*;

verus! {

/// The number of smallest units in one Pi.
pub const UNITS_PER_PI: u64 = 10_000_000;

/// An amount of Pi, counted in the ledger's smallest unit, 0.0000001 Pi.
#[derive(Clone, Copy, Debug, PartialEq, Eq, Structural)]
pub struct Amount {
    /// The amount in units of 0.0000001 Pi.
    pub units: u64,
}

impl Amount {
    /// The amount in decimal notation, in Pi: the whole part, then, unless
    /// the amount is a whole number of Pi, a point and the digits after it
    /// without trailing zeros.
    pub open spec fn spec_text(self) -> Seq<char> {
        let whole = (self.units / UNITS_PER_PI) as nat;
        let frac = (self.units % UNITS_PER_PI) as nat;
        if frac == 0 {
            decimal_digits(whole)
        } else {
            decimal_digits(whole) + seq!['.'] + fraction_digits(frac, (UNITS_PER_PI / 10) as nat)
        }
    }

    /// The amount of `pi` whole Pi.
    pub fn from_whole(pi: u32) -> (amount: Self)
        ensures
            amount.units == pi * UNITS_PER_PI,
    {
        Amount { units: (pi as u64) * UNITS_PER_PI }
    }

    /// The amount in decimal notation, in Pi.
    pub fn to_string(&self) -> (text: String)
        ensures
            text@ == self.spec_text(),
    {
        let whole: u64 = self.units / UNITS_PER_PI;
        let frac: u64 = self.units % UNITS_PER_PI;
        let text: String = decimal_text(whole);
        if frac == 0 {
            text
        } else {
            proof {
                reveal_strlit(".");
            }
            let tail: String = fraction_text(frac, UNITS_PER_PI / 10);
            let text: String = text.concat(".").concat(tail.as_str());
            assert(text@ =~= self.spec_text());
            text
        }
    }
}

} // verus!
