use vstd::prelude::*;

verus! {

/// A monetary amount in exact fixed-point decimal arithmetic.
///
/// `units` counts ten-thousandths of a currency unit, so an amount carries
/// exactly four fractional digits and addition and subtraction never round.
/// The value `1_000_000` stands for `100.0000`.
#[derive(Clone, Copy, Debug, PartialEq, Eq, Structural)]
pub struct Amount {
    pub units: i128,
}

impl View for Amount {
    type V = int;

    open spec fn view(&self) -> int {
        self.units as int
    }
}

impl Amount {
    /// The zero amount.
    pub fn zero() -> (r: Amount)
        ensures
            r@ == 0,
    {
        Amount { units: 0 }
    }

    /// Builds the amount that counts `units` ten-thousandths.
    pub fn from_units(units: i128) -> (r: Amount)
        ensures
            r@ == units as int,
    {
        Amount { units }
    }

    /// The amount as a count of ten-thousandths.
    pub fn units(&self) -> (r: i128)
        ensures
            r as int == self@,
    {
        self.units
    }

}

} // verus!
