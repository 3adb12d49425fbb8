//! Exchange rates between the two assets of a swap.

use vstd::prelude::*;

verus! {

/// A positive exchange rate: `numerator / denominator` units of the asset
/// bought for each unit of the asset sold.
#[derive(Clone, Copy, Debug, PartialEq, Eq, Structural)]
pub struct Rate {
    numerator: u64,
    denominator: u64,
}

impl Rate {
    #[verifier::type_invariant]
    closed spec fn inv(&self) -> bool {
        self.numerator > 0 && self.denominator > 0
    }

    pub closed spec fn num(&self) -> nat {
        self.numerator as nat
    }

    pub closed spec fn den(&self) -> nat {
        self.denominator as nat
    }

    /// A rate is a positive fraction.
    pub open spec fn wf(&self) -> bool {
        self.num() > 0 && self.den() > 0
    }

    /// `amount` converted at this rate, rounded down.
    pub open spec fn convert_spec(&self, amount: nat) -> nat {
        amount * self.num() / self.den()
    }

    /// The rate `numerator / denominator`; none where either is zero.
    pub fn new(numerator: u64, denominator: u64) -> (r: Option<Rate>)
        ensures
            r is Some <==> (numerator > 0 && denominator > 0),
            r matches Some(rate) ==> rate.num() == numerator && rate.den() == denominator
                && rate.wf(),
    {
        if numerator == 0 || denominator == 0 {
            None
        } else {
            Some(Rate { numerator, denominator })
        }
    }

    pub fn numerator(&self) -> (r: u64)
        ensures
            r == self.num(),
    {
        self.numerator
    }

    pub fn denominator(&self) -> (r: u64)
        ensures
            r == self.den(),
    {
        self.denominator
    }

    /// `amount` converted at this rate, rounded down; none where the result
    /// does not fit in a `u64`.
    pub fn convert(&self, amount: u64) -> (r: Option<u64>)
        ensures
            r is Some <==> self.convert_spec(amount as nat) <= u64::MAX,
            r matches Some(v) ==> v == self.convert_spec(amount as nat),
    {
        proof {
            use_type_invariant(self);
        }
        let a: u128 = amount as u128;
        let n: u128 = self.numerator as u128;
        assert(a * n <= u64::MAX as int * u64::MAX as int) by (nonlinear_arith)
            requires
                a <= u64::MAX,
                n <= u64::MAX,
        ;
        let product: u128 = a * n;
        let q: u128 = product / (self.denominator as u128);
        if q > u64::MAX as u128 {
            None
        } else {
            Some(q as u64)
        }
    }
}

/// The rate that the fixed rate source always quotes: one for one.
pub fn fixed_rate() -> (r: Rate)
    ensures
        r.wf(),
        r.num() == 1 && r.den() == 1,
{
    Rate { numerator: 1, denominator: 1 }
}

/// A rate source that always quotes the fixed rate.
#[derive(Clone, Copy, Debug, PartialEq, Eq, Structural)]
pub struct Service;

impl Service {
    /// The current rate: always the fixed one.
    pub fn latest_rate(&self) -> (r: Rate)
        ensures
            r.wf(),
            r.num() == 1 && r.den() == 1,
    {
        fixed_rate()
    }
}

} // verus!
