//! A read-only snapshot of the market's state: what the fee formulas read.

use crate::fixed_point::{div_floor, one, FixedPoint};
use crate::uint::{checked_sub, U256};
use vstd::prelude::*;

verus! {

/// A snapshot of the market, built by the caller for one evaluation and
/// only read here. Rates and prices are fixed-point numbers; the position
/// duration is a number of seconds.
#[derive(Clone, Copy, Debug, PartialEq, Eq)]
pub struct State {
    /// The rate of the curve fee, as a fraction.
    pub curve_fee: FixedPoint,
    /// The share of the curve fee that goes to governance, as a fraction.
    pub governance_lp_fee: FixedPoint,
    /// The rate of the flat fee, as a fraction.
    pub flat_fee: FixedPoint,
    /// The price of one vault share in the base asset.
    pub vault_share_price: FixedPoint,
    /// The current spot price of a bond, as a fraction of its face value.
    pub spot_price: FixedPoint,
    /// The length of a position's term, from open to maturity, in seconds.
    pub position_duration: U256,
}

/// The fraction of a term of `duration` seconds that is left at
/// `current_time` for a position that matures at `maturity_time`: zero from
/// maturity on, one up to the start of the term, and the remaining seconds
/// over the duration in between, rounded toward zero.
pub open spec fn normalized_time_remaining(duration: nat, maturity_time: nat, current_time: nat) -> nat {
    if current_time >= maturity_time {
        0
    } else if maturity_time - current_time >= duration {
        one()
    } else {
        div_floor((maturity_time - current_time) as nat, duration)
    }
}

/// The fraction of the term that is left is never more than one, and is
/// less than one strictly inside the term.
pub proof fn lemma_time_remaining_at_most_one(duration: nat, maturity_time: nat, current_time: nat)
    ensures
        normalized_time_remaining(duration, maturity_time, current_time) <= one(),
        current_time < maturity_time && maturity_time - current_time < duration
            ==> normalized_time_remaining(duration, maturity_time, current_time) < one(),
{
    if current_time < maturity_time && maturity_time - current_time < duration {
        let remaining = (maturity_time - current_time) as nat;
        assert(remaining * one() / duration < one()) by (nonlinear_arith)
            requires
                remaining < duration,
                one() > 0,
        ;
    }
}

impl State {
    /// The rate of the curve fee.
    pub fn curve_fee(&self) -> (r: FixedPoint)
        ensures
            r == self.curve_fee,
    {
        self.curve_fee
    }

    /// The share of the curve fee that goes to governance.
    pub fn governance_lp_fee(&self) -> (r: FixedPoint)
        ensures
            r == self.governance_lp_fee,
    {
        self.governance_lp_fee
    }

    /// The rate of the flat fee.
    pub fn flat_fee(&self) -> (r: FixedPoint)
        ensures
            r == self.flat_fee,
    {
        self.flat_fee
    }

    /// The price of one vault share in the base asset.
    pub fn vault_share_price(&self) -> (r: FixedPoint)
        ensures
            r == self.vault_share_price,
    {
        self.vault_share_price
    }

    /// The current spot price.
    pub fn get_spot_price(&self) -> (r: FixedPoint)
        ensures
            r == self.spot_price,
    {
        self.spot_price
    }

    /// The fraction of the term that is left at `current_time` for a
    /// position that matures at `maturity_time`.
    pub open spec fn time_remaining(&self, maturity_time: nat, current_time: nat) -> nat {
        normalized_time_remaining(self.position_duration@, maturity_time, current_time)
    }

    /// The fraction of the term that is left at `current_time` for a
    /// position that matures at `maturity_time`, between zero and one.
    pub fn calculate_normalized_time_remaining(&self, maturity_time: U256, current_time: U256) -> (r:
        FixedPoint)
        ensures
            r@ == self.time_remaining(maturity_time@, current_time@),
            r@ <= one(),
    {
        proof {
            lemma_time_remaining_at_most_one(
                self.position_duration@,
                maturity_time@,
                current_time@,
            );
        }
        match checked_sub(maturity_time, current_time) {
            None => FixedPoint::zero(),
            Some(remaining) => {
                if remaining.is_zero() {
                    FixedPoint::zero()
                } else if !remaining.lt(&self.position_duration) {
                    FixedPoint::one()
                } else {
                    // Less than one, so the division has a result.
                    match FixedPoint::new(remaining).checked_div(
                        FixedPoint::new(self.position_duration),
                    ) {
                        Ok(fraction) => fraction,
                        Err(_) => FixedPoint::one(),
                    }
                }
            },
        }
    }
}

} // verus!
