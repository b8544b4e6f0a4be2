//! The protocol fee: its rate, who receives it, and how it is taken.

use crate::error::Error;
use crate::math::{lemma_scaled_is_monotonic, mul_div_floor};
use crate::state::{follows, State, StellarStream, MAX_FEE_BPS};
use crate::types::{Address, Event, Role};
use vstd::prelude::*;

verus! {

/// How many basis points make the whole.
pub const BPS_DENOMINATOR: u32 = 10000;

/// The fee on `amount` at a rate of `fee_bps` basis points, rounded down.
pub open spec fn fee_on(amount: int, fee_bps: int) -> int {
    amount * fee_bps / 10000
}

/// At a rate within the limit the fee is less than a positive amount, so a
/// positive principal is left.
pub proof fn lemma_fee_leaves_principal(amount: int, fee_bps: int)
    requires
        0 < amount,
        0 <= fee_bps <= MAX_FEE_BPS,
    ensures
        0 <= fee_on(amount, fee_bps) < amount,
{
    lemma_scaled_is_monotonic(amount, 0, fee_bps, 10000);
    lemma_scaled_is_monotonic(amount, fee_bps, 1000, 10000);
    assert(amount * 0 == 0);
}

/// The fee on `amount` at a rate of `fee_bps` basis points.
pub fn calculate_fee(amount: i128, fee_bps: u32) -> (fee: i128)
    requires
        0 < amount,
        fee_bps <= MAX_FEE_BPS,
    ensures
        fee == fee_on(amount as int, fee_bps as int),
        0 <= fee < amount,
{
    proof {
        lemma_fee_leaves_principal(amount as int, fee_bps as int);
    }
    let fee: u128 = mul_div_floor(amount as u128, fee_bps as u64, BPS_DENOMINATOR as u64);
    fee as i128
}

impl State {
    /// Setting rate and treasury together: for a TreasuryManager, with a rate
    /// within the limit.
    pub open spec fn initialize_fee(self, manager: Address, fee_bps: u32, treasury: Address)
        -> Result<(State, Event), Error> {
        if !self.has_role(manager, Role::TreasuryManager) {
            Err(Error::MissingRole)
        } else if fee_bps > MAX_FEE_BPS {
            Err(Error::FeeTooHigh)
        } else {
            Ok(
                (
                    State { fee_bps, treasury: Some(treasury), ..self },
                    Event::FeeInitialized { manager, fee_bps, treasury },
                ),
            )
        }
    }

    /// Setting the rate alone.
    pub open spec fn update_fee(self, manager: Address, fee_bps: u32) -> Result<
        (State, Event),
        Error,
    > {
        if !self.has_role(manager, Role::TreasuryManager) {
            Err(Error::MissingRole)
        } else if fee_bps > MAX_FEE_BPS {
            Err(Error::FeeTooHigh)
        } else {
            Ok((State { fee_bps, ..self }, Event::FeeUpdated { manager, fee_bps }))
        }
    }

    /// Naming the treasury alone.
    pub open spec fn update_treasury(self, manager: Address, treasury: Address) -> Result<
        (State, Event),
        Error,
    > {
        if !self.has_role(manager, Role::TreasuryManager) {
            Err(Error::MissingRole)
        } else {
            Ok(
                (
                    State { treasury: Some(treasury), ..self },
                    Event::TreasuryUpdated { manager, treasury },
                ),
            )
        }
    }
}

impl StellarStream {
    /// Sets the fee rate and names the treasury, on the word of `manager`,
    /// who must hold TreasuryManager. A rate above ten percent is refused.
    pub fn initialize_fee(&mut self, manager: Address, fee_bps: u32, treasury: Address) -> (done:
        Result<Event, Error>)
        requires
            old(self)@.valid(),
        ensures
            follows(
                old(self)@,
                final(self)@,
                done,
                old(self)@.initialize_fee(manager, fee_bps, treasury),
            ),
            final(self)@.valid(),
    {
        if !self.has_role(manager, Role::TreasuryManager) {
            return Err(Error::MissingRole);
        }
        if fee_bps > MAX_FEE_BPS {
            return Err(Error::FeeTooHigh);
        }
        self.set_fee_bps(fee_bps);
        self.set_treasury(treasury);
        Ok(Event::FeeInitialized { manager, fee_bps, treasury })
    }

    /// Sets the fee rate, on the word of `manager`, who must hold
    /// TreasuryManager. A rate above ten percent is refused.
    pub fn update_fee(&mut self, manager: Address, fee_bps: u32) -> (done: Result<Event, Error>)
        requires
            old(self)@.valid(),
        ensures
            follows(old(self)@, final(self)@, done, old(self)@.update_fee(manager, fee_bps)),
            final(self)@.valid(),
    {
        if !self.has_role(manager, Role::TreasuryManager) {
            return Err(Error::MissingRole);
        }
        if fee_bps > MAX_FEE_BPS {
            return Err(Error::FeeTooHigh);
        }
        self.set_fee_bps(fee_bps);
        Ok(Event::FeeUpdated { manager, fee_bps })
    }

    /// Names the treasury, on the word of `manager`, who must hold
    /// TreasuryManager.
    pub fn update_treasury(&mut self, manager: Address, treasury: Address) -> (done: Result<
        Event,
        Error,
    >)
        requires
            old(self)@.valid(),
        ensures
            follows(old(self)@, final(self)@, done, old(self)@.update_treasury(manager, treasury)),
            final(self)@.valid(),
    {
        if !self.has_role(manager, Role::TreasuryManager) {
            return Err(Error::MissingRole);
        }
        self.set_treasury(treasury);
        Ok(Event::TreasuryUpdated { manager, treasury })
    }
}

} // verus!
