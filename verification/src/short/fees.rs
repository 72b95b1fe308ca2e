//! The fees that a trader pays to open and to close a short position.
//!
//! Each fee is a chain of checked fixed-point operations on the snapshot's
//! rates and the trade's own numbers. The contracts give the fee as a
//! natural number, and name the failure for every input that has no fee.

use crate::fixed_point::{
    fit, lemma_mul_div_floor_monotonic, lemma_mul_div_floor_zero, lemma_mul_floor_at_most,
    mul_div_floor, mul_floor, one, outcome, spec_checked_mul, spec_mul_div_down, ArithmeticError,
    FixedPoint,
};
use crate::state::{lemma_time_remaining_at_most_one, State};
use crate::uint::{pow2_256, U256};
use vstd::prelude::*;

verus! {

impl State {
    /// The curve fee for opening a short of `short_amount` bonds at
    /// `spot_price`: the curve fee rate, times the discount of the price
    /// from par, times the amount, each product rounded toward zero.
    ///
    /// There is no fee where the price is above par (an underflow), nor
    /// where the fee does not fit in 256 bits (an overflow).
    pub open spec fn spec_open_short_curve_fee(&self, short_amount: nat, spot_price: nat) -> Result<
        nat,
        ArithmeticError,
    > {
        if spot_price > one() {
            Err(ArithmeticError::Underflow)
        } else {
            fit(mul_floor(mul_floor(self.curve_fee@, (one() - spot_price) as nat), short_amount))
        }
    }

    /// The governance fee for opening a short: governance's share of the
    /// curve fee, rounded toward zero.
    ///
    /// There is no fee where there is no curve fee, nor where the share
    /// does not fit in 256 bits (an overflow).
    pub open spec fn spec_open_short_governance_fee(
        &self,
        short_amount: nat,
        spot_price: nat,
    ) -> Result<nat, ArithmeticError> {
        match self.spec_open_short_curve_fee(short_amount, spot_price) {
            Ok(curve_fee) => fit(mul_floor(self.governance_lp_fee@, curve_fee)),
            Err(e) => Err(e),
        }
    }

    /// The curve fee for closing a short of `bond_amount` bonds: the curve
    /// fee rate, times the discount of the snapshot's spot price from par,
    /// times the share value of the part of the bonds that is still to run.
    /// The share value is `bond_amount * time_remaining / vault_share_price`
    /// in one rounding; each further product is rounded toward zero.
    ///
    /// There is no fee where the spot price is above par (an underflow),
    /// else where the vault share price is zero (a division by zero), else
    /// where the share value or the fee does not fit in 256 bits (an
    /// overflow).
    pub open spec fn spec_close_short_curve_fee(
        &self,
        bond_amount: nat,
        maturity_time: nat,
        current_time: nat,
    ) -> Result<nat, ArithmeticError> {
        if self.spot_price@ > one() {
            Err(ArithmeticError::Underflow)
        } else if self.vault_share_price@ == 0 {
            Err(ArithmeticError::DivisionByZero)
        } else {
            let shares = mul_div_floor(
                bond_amount,
                self.time_remaining(maturity_time, current_time),
                self.vault_share_price@,
            );
            if shares >= pow2_256() {
                Err(ArithmeticError::Overflow)
            } else {
                fit(
                    mul_floor(
                        mul_floor(self.curve_fee@, (one() - self.spot_price@) as nat),
                        shares,
                    ),
                )
            }
        }
    }

    /// The flat fee for closing a short of `bond_amount` bonds: the share
    /// value of the part of the bonds that has run, times the flat fee rate.
    /// The share value is
    /// `bond_amount * (1 - time_remaining) / vault_share_price` in one
    /// rounding; the product with the rate is rounded toward zero.
    ///
    /// There is no fee where the vault share price is zero (a division by
    /// zero), else where the share value or the fee does not fit in 256
    /// bits (an overflow).
    pub open spec fn spec_close_short_flat_fee(
        &self,
        bond_amount: nat,
        maturity_time: nat,
        current_time: nat,
    ) -> Result<nat, ArithmeticError> {
        if self.vault_share_price@ == 0 {
            Err(ArithmeticError::DivisionByZero)
        } else {
            let shares = mul_div_floor(
                bond_amount,
                (one() - self.time_remaining(maturity_time, current_time)) as nat,
                self.vault_share_price@,
            );
            if shares >= pow2_256() {
                Err(ArithmeticError::Overflow)
            } else {
                fit(mul_floor(shares, self.flat_fee@))
            }
        }
    }

    /// The curve fee paid by the trader who opens a short of `short_amount`
    /// bonds at `spot_price`, in the unit of `short_amount`.
    ///
    /// Fails with an underflow where the price is above par, and with an
    /// overflow where the fee does not fit in 256 bits.
    pub fn open_short_curve_fee(&self, short_amount: FixedPoint, spot_price: FixedPoint) -> (r:
        Result<FixedPoint, ArithmeticError>)
        ensures
            outcome(r) == self.spec_open_short_curve_fee(short_amount@, spot_price@),
    {
        let discount = FixedPoint::one().checked_sub(spot_price)?;
        proof {
            // The discounted rate is at most the rate, so it fits.
            lemma_mul_floor_at_most(self.curve_fee@, discount@);
        }
        let rate = self.curve_fee().checked_mul(discount)?;
        rate.checked_mul(short_amount)
    }

    /// The governance fee paid by the trader who opens a short: the share
    /// of [`State::open_short_curve_fee`] that goes to governance.
    ///
    /// Fails where the curve fee fails, and with an overflow where the
    /// share does not fit in 256 bits.
    pub fn open_short_governance_fee(&self, short_amount: FixedPoint, spot_price: FixedPoint) -> (r:
        Result<FixedPoint, ArithmeticError>)
        ensures
            outcome(r) == self.spec_open_short_governance_fee(short_amount@, spot_price@),
    {
        let curve_fee = self.open_short_curve_fee(short_amount, spot_price)?;
        self.governance_lp_fee().checked_mul(curve_fee)
    }

    /// The curve fee, in shares, paid by the trader who closes a short of
    /// `bond_amount` bonds that mature at `maturity_time`, at
    /// `current_time` and at the snapshot's spot price.
    ///
    /// Fails with an underflow where the spot price is above par, else with
    /// a division by zero where the vault share price is zero, else with an
    /// overflow where the share value of the bonds or the fee does not fit
    /// in 256 bits.
    pub fn close_short_curve_fee(
        &self,
        bond_amount: FixedPoint,
        maturity_time: U256,
        current_time: U256,
    ) -> (r: Result<FixedPoint, ArithmeticError>)
        ensures
            outcome(r) == self.spec_close_short_curve_fee(
                bond_amount@,
                maturity_time@,
                current_time@,
            ),
    {
        let normalized_time_remaining = self.calculate_normalized_time_remaining(
            maturity_time,
            current_time,
        );
        let discount = FixedPoint::one().checked_sub(self.get_spot_price())?;
        proof {
            // The discounted rate is at most the rate, so it fits.
            lemma_mul_floor_at_most(self.curve_fee@, discount@);
        }
        let rate = self.curve_fee().checked_mul(discount)?;
        let shares = bond_amount.mul_div_down(normalized_time_remaining, self.vault_share_price())?;
        rate.checked_mul(shares)
    }

    /// The flat fee, in shares, paid by the trader who closes a short of
    /// `bond_amount` bonds that mature at `maturity_time`, at
    /// `current_time`.
    ///
    /// Fails with a division by zero where the vault share price is zero,
    /// else with an overflow where the share value of the bonds or the fee
    /// does not fit in 256 bits.
    pub fn close_short_flat_fee(
        &self,
        bond_amount: FixedPoint,
        maturity_time: U256,
        current_time: U256,
    ) -> (r: Result<FixedPoint, ArithmeticError>)
        ensures
            outcome(r) == self.spec_close_short_flat_fee(
                bond_amount@,
                maturity_time@,
                current_time@,
            ),
    {
        let normalized_time_remaining = self.calculate_normalized_time_remaining(
            maturity_time,
            current_time,
        );
        // The time remaining is at most one, so the subtraction has a result.
        let elapsed = FixedPoint::one().checked_sub(normalized_time_remaining)?;
        let shares = bond_amount.mul_div_down(elapsed, self.vault_share_price())?;
        shares.checked_mul(self.flat_fee())
    }
}

/// Opening a short at a price of at most par, with a curve fee rate of at
/// most one, always has a curve fee, and it is at most the amount.
pub proof fn lemma_open_short_curve_fee_exists(
    state: State,
    short_amount: FixedPoint,
    spot_price: FixedPoint,
)
    requires
        state.curve_fee@ <= one(),
        spot_price@ <= one(),
    ensures
        state.spec_open_short_curve_fee(short_amount@, spot_price@) matches Ok(fee) && fee
            <= short_amount@,
{
    let discount = (one() - spot_price@) as nat;
    lemma_mul_floor_at_most(state.curve_fee@, discount);
    lemma_mul_floor_at_most(short_amount@, mul_floor(state.curve_fee@, discount));
}

/// Governance never takes more than the whole: where its share of the
/// curve fee is at most one and opening a short has a curve fee, it has a
/// governance fee too, and that is at most the curve fee. Where opening a
/// short has no curve fee, the governance fee fails in the same way.
pub proof fn lemma_governance_fee_at_most_curve_fee(
    state: State,
    short_amount: FixedPoint,
    spot_price: FixedPoint,
)
    requires
        state.governance_lp_fee@ <= one(),
    ensures
        match state.spec_open_short_curve_fee(short_amount@, spot_price@) {
            Ok(curve_fee) => state.spec_open_short_governance_fee(short_amount@, spot_price@)
                matches Ok(governance_fee) && governance_fee <= curve_fee,
            Err(e) => state.spec_open_short_governance_fee(short_amount@, spot_price@) == Err::<
                nat,
                ArithmeticError,
            >(e),
        },
{
    if let Ok(curve_fee) = state.spec_open_short_curve_fee(short_amount@, spot_price@) {
        lemma_mul_floor_at_most(curve_fee, state.governance_lp_fee@);
    }
}

/// Closing a short always has both fees, each at most the share value of
/// all the bonds, where the snapshot's spot price is at most par, its
/// curve and flat fee rates are at most one, its vault share price is not
/// zero, and the share value of all the bonds fits in 256 bits.
pub proof fn lemma_close_short_fees_exist(
    state: State,
    bond_amount: FixedPoint,
    maturity_time: U256,
    current_time: U256,
)
    requires
        state.spot_price@ <= one(),
        state.curve_fee@ <= one(),
        state.flat_fee@ <= one(),
        state.vault_share_price@ > 0,
        mul_div_floor(bond_amount@, one(), state.vault_share_price@) < pow2_256(),
    ensures
        state.spec_close_short_curve_fee(bond_amount@, maturity_time@, current_time@) matches Ok(
            fee,
        ) && fee <= mul_div_floor(bond_amount@, one(), state.vault_share_price@),
        state.spec_close_short_flat_fee(bond_amount@, maturity_time@, current_time@) matches Ok(
            fee,
        ) && fee <= mul_div_floor(bond_amount@, one(), state.vault_share_price@),
{
    let price = state.vault_share_price@;
    let time_remaining = state.time_remaining(maturity_time@, current_time@);
    let elapsed = (one() - time_remaining) as nat;
    let discount = (one() - state.spot_price@) as nat;
    lemma_time_remaining_at_most_one(state.position_duration@, maturity_time@, current_time@);
    lemma_mul_div_floor_monotonic(time_remaining, one(), bond_amount@, price);
    lemma_mul_div_floor_monotonic(elapsed, one(), bond_amount@, price);
    lemma_mul_floor_at_most(state.curve_fee@, discount);
    lemma_mul_floor_at_most(
        mul_div_floor(bond_amount@, time_remaining, price),
        mul_floor(state.curve_fee@, discount),
    );
    lemma_mul_floor_at_most(mul_div_floor(bond_amount@, elapsed, price), state.flat_fee@);
}

/// The curve fee for closing a short does not decrease with the amount of
/// bonds: at the same snapshot and the same times, where the larger amount
/// has a fee, the smaller has one too, and it is no higher.
pub proof fn lemma_close_short_curve_fee_monotonic(
    state: State,
    smaller: FixedPoint,
    larger: FixedPoint,
    maturity_time: U256,
    current_time: U256,
)
    requires
        smaller@ <= larger@,
    ensures
        state.spec_close_short_curve_fee(larger@, maturity_time@, current_time@) matches Ok(
            fee_of_larger,
        ) ==> state.spec_close_short_curve_fee(smaller@, maturity_time@, current_time@) matches Ok(
            fee_of_smaller,
        ) && fee_of_smaller <= fee_of_larger,
{
    let time_remaining = state.time_remaining(maturity_time@, current_time@);
    let price = state.vault_share_price@;
    if price > 0 && state.spot_price@ <= one() {
        let rate = mul_floor(state.curve_fee@, (one() - state.spot_price@) as nat);
        lemma_mul_div_floor_monotonic(smaller@, larger@, time_remaining, price);
        lemma_mul_div_floor_monotonic(
            mul_div_floor(smaller@, time_remaining, price),
            mul_div_floor(larger@, time_remaining, price),
            rate,
            one(),
        );
    }
}

/// The flat fee for closing a short does not decrease with the amount of
/// bonds: at the same snapshot and the same times, where the larger amount
/// has a fee, the smaller has one too, and it is no higher.
pub proof fn lemma_close_short_flat_fee_monotonic(
    state: State,
    smaller: FixedPoint,
    larger: FixedPoint,
    maturity_time: U256,
    current_time: U256,
)
    requires
        smaller@ <= larger@,
    ensures
        state.spec_close_short_flat_fee(larger@, maturity_time@, current_time@) matches Ok(
            fee_of_larger,
        ) ==> state.spec_close_short_flat_fee(smaller@, maturity_time@, current_time@) matches Ok(
            fee_of_smaller,
        ) && fee_of_smaller <= fee_of_larger,
{
    let elapsed = (one() - state.time_remaining(maturity_time@, current_time@)) as nat;
    let price = state.vault_share_price@;
    if price > 0 {
        lemma_mul_div_floor_monotonic(smaller@, larger@, elapsed, price);
        lemma_mul_div_floor_monotonic(
            mul_div_floor(smaller@, elapsed, price),
            mul_div_floor(larger@, elapsed, price),
            state.flat_fee@,
            one(),
        );
    }
}

/// From maturity on, nothing of the term is left: closing a short then
/// costs no curve fee, and the flat fee is charged on the whole share
/// value of the bonds, `bond_amount * 1 / vault_share_price` times the flat
/// fee rate. The failures stay: a spot price above par and a vault share
/// price of zero for the curve fee, those of the two operations for the
/// flat fee.
pub proof fn lemma_close_short_fees_at_maturity(
    state: State,
    bond_amount: FixedPoint,
    maturity_time: U256,
    current_time: U256,
)
    requires
        current_time@ >= maturity_time@,
    ensures
        state.time_remaining(maturity_time@, current_time@) == 0,
        state.spec_close_short_curve_fee(bond_amount@, maturity_time@, current_time@) == (
        if state.spot_price@ > one() {
            Err::<nat, ArithmeticError>(ArithmeticError::Underflow)
        } else if state.vault_share_price@ == 0 {
            Err(ArithmeticError::DivisionByZero)
        } else {
            Ok(0nat)
        }),
        state.spec_close_short_flat_fee(bond_amount@, maturity_time@, current_time@) == (
        match spec_mul_div_down(bond_amount@, one(), state.vault_share_price@) {
            Ok(shares) => spec_checked_mul(shares, state.flat_fee@),
            Err(e) => Err(e),
        }),
{
    if state.vault_share_price@ > 0 {
        lemma_mul_div_floor_zero(bond_amount@, state.vault_share_price@);
        lemma_mul_div_floor_zero(
            mul_floor(state.curve_fee@, (one() - state.spot_price@) as nat),
            one(),
        );
    }
}

/// Up to the start of a term that has a length, the whole term is left:
/// closing a short then costs no flat fee. The failure on a vault share
/// price of zero stays.
pub proof fn lemma_close_short_flat_fee_at_open(
    state: State,
    bond_amount: FixedPoint,
    maturity_time: U256,
    current_time: U256,
)
    requires
        state.position_duration@ > 0,
        current_time@ + state.position_duration@ <= maturity_time@,
    ensures
        state.time_remaining(maturity_time@, current_time@) == one(),
        state.spec_close_short_flat_fee(bond_amount@, maturity_time@, current_time@) == (
        if state.vault_share_price@ == 0 {
            Err::<nat, ArithmeticError>(ArithmeticError::DivisionByZero)
        } else {
            Ok(0nat)
        }),
{
    if state.vault_share_price@ > 0 {
        lemma_mul_div_floor_zero(bond_amount@, state.vault_share_price@);
        lemma_mul_div_floor_zero(state.flat_fee@, one());
    }
}

} // verus!
