//! The mathematical model of the ledger state and of each operation on it.
//!
//! Each operation is a spec function from a state and the call's arguments to
//! the call's result and the state after it. A refused call returns the state
//! unchanged.
use vstd::prelude::*;

use crate::types::{AccountId, Balance, BPS_DENOMINATOR, Error, Event, Origin, PayeeConfig};

verus! {

/// The fee assessed on a gross credit at the given rate: whole units of ten
/// thousand times the rate, saturating at the largest balance.
pub open spec fn fee_of(gross: Balance, fee_bps: u16) -> Balance {
    let units = gross / BPS_DENOMINATOR;
    if units * fee_bps > Balance::MAX {
        Balance::MAX
    } else {
        (units * fee_bps) as Balance
    }
}

/// The whole ledger state, as a value.
pub struct LedgerView {
    pub blocks_per_day: u64,
    pub balances: Map<AccountId, Balance>,
    pub configs: Map<AccountId, PayeeConfig>,
    pub fee_balance: Balance,
    pub daily: Map<AccountId, Balance>,
    pub last_days: Map<AccountId, u64>,
    pub paused: bool,
    pub events: Seq<Event>,
}

impl LedgerView {
    /// The state of a ledger that was just set up.
    pub open spec fn genesis(blocks_per_day: u64) -> LedgerView {
        LedgerView {
            blocks_per_day,
            balances: Map::empty(),
            configs: Map::empty(),
            fee_balance: 0,
            daily: Map::empty(),
            last_days: Map::empty(),
            paused: false,
            events: Seq::empty(),
        }
    }

    /// Unsettled balance of a payee; zero where none was ever recorded.
    pub open spec fn balance(self, who: AccountId) -> Balance {
        if self.balances.contains_key(who) {
            self.balances[who]
        } else {
            0
        }
    }

    /// Policy of a payee, if it was ever configured.
    pub open spec fn config(self, who: AccountId) -> Option<PayeeConfig> {
        if self.configs.contains_key(who) {
            Some(self.configs[who])
        } else {
            None
        }
    }

    /// Fee rate of a payee; zero for one that was never configured.
    pub open spec fn fee_bps(self, who: AccountId) -> u16 {
        match self.config(who) {
            Some(c) => c.fee_bps,
            None => 0,
        }
    }

    /// Sum requested by a payee on the day it last requested.
    pub open spec fn daily_total(self, who: AccountId) -> Balance {
        if self.daily.contains_key(who) {
            self.daily[who]
        } else {
            0
        }
    }

    /// Day index of a payee's last request; zero where none was recorded.
    pub open spec fn last_day(self, who: AccountId) -> u64 {
        if self.last_days.contains_key(who) {
            self.last_days[who]
        } else {
            0
        }
    }

    /// Day index of a host step.
    pub open spec fn day_index(self, now: u64) -> u64 {
        now / self.blocks_per_day
    }

    /// What a payee has requested so far on the day of step `now`.
    pub open spec fn spent_today(self, who: AccountId, now: u64) -> Balance {
        if self.last_day(who) != self.day_index(now) {
            0
        } else {
            self.daily_total(who)
        }
    }

    /// Crediting `amount` to `payee`, less the platform fee.
    pub open spec fn deposit_for_payee(self, origin: Origin, payee: AccountId, amount: Balance) -> (
        Result<(), Error>,
        LedgerView,
    ) {
        if origin != Origin::Root {
            (Err(Error::BadOrigin), self)
        } else if self.paused {
            (Err(Error::ModulePaused), self)
        } else if amount == 0 {
            (Err(Error::ZeroAmount), self)
        } else {
            let fee = fee_of(amount, self.fee_bps(payee));
            let net = amount.saturating_sub(fee);
            (
                Ok(()),
                LedgerView {
                    balances: self.balances.insert(payee, self.balance(payee).saturating_add(net)),
                    fee_balance: self.fee_balance.saturating_add(fee),
                    events: self.events.push(Event::Deposit { payee, gross: amount, fee }),
                    ..self
                },
            )
        }
    }

    /// The checks of a settlement request by `who`, in order; on success, the
    /// payee's new total for the day.
    pub open spec fn request_check(self, who: AccountId, amount: Balance, now: u64) -> Result<
        Balance,
        Error,
    > {
        if self.paused {
            Err(Error::ModulePaused)
        } else if amount == 0 {
            Err(Error::ZeroAmount)
        } else {
            match self.config(who) {
                None => Err(Error::PayeeNotActive),
                Some(c) => {
                    if !c.active {
                        Err(Error::PayeeNotActive)
                    } else if self.balance(who) < amount {
                        Err(Error::InsufficientBalance)
                    } else if amount > c.withdrawal_limit {
                        Err(Error::ExceedsWithdrawalLimit)
                    } else if self.spent_today(who, now) + amount > Balance::MAX {
                        Err(Error::Overflow)
                    } else if self.spent_today(who, now) + amount > c.daily_limit {
                        Err(Error::ExceedsDailyLimit)
                    } else {
                        Ok((self.spent_today(who, now) + amount) as Balance)
                    }
                },
            }
        }
    }

    /// A settlement request of `amount` by the signed caller at host step `now`.
    pub open spec fn request_settlement(self, origin: Origin, amount: Balance, now: u64) -> (
        Result<(), Error>,
        LedgerView,
    ) {
        match origin {
            Origin::Signed(who) => match self.request_check(who, amount, now) {
                Err(e) => (Err(e), self),
                Ok(total) => {
                    let day = self.day_index(now);
                    (
                        Ok(()),
                        LedgerView {
                            daily: self.daily.insert(who, total),
                            last_days: if self.last_day(who) != day {
                                self.last_days.insert(who, day)
                            } else {
                                self.last_days
                            },
                            events: self.events.push(
                                Event::SettlementRequested { payee: who, amount },
                            ),
                            ..self
                        },
                    )
                },
            },
            _ => (Err(Error::BadOrigin), self),
        }
    }

    /// Finalising a payee's whole balance as paid out.
    pub open spec fn execute_settlement(self, origin: Origin, payee: AccountId) -> (
        Result<(), Error>,
        LedgerView,
    ) {
        if origin != Origin::Root {
            (Err(Error::BadOrigin), self)
        } else if self.paused {
            (Err(Error::ModulePaused), self)
        } else if self.balance(payee) == 0 {
            (Err(Error::ZeroBalance), self)
        } else {
            (
                Ok(()),
                LedgerView {
                    balances: self.balances.insert(payee, 0),
                    events: self.events.push(
                        Event::SettlementExecuted { payee, amount: self.balance(payee) },
                    ),
                    ..self
                },
            )
        }
    }

    /// Paying the whole platform fee pool out to `to`.
    pub open spec fn withdraw_platform_fee(self, origin: Origin, to: AccountId) -> (
        Result<(), Error>,
        LedgerView,
    ) {
        if origin != Origin::Root {
            (Err(Error::BadOrigin), self)
        } else if self.paused {
            (Err(Error::ModulePaused), self)
        } else if self.fee_balance == 0 {
            (Err(Error::ZeroAmount), self)
        } else {
            (
                Ok(()),
                LedgerView {
                    fee_balance: 0,
                    events: self.events.push(
                        Event::PlatformFeeWithdrawn { to, amount: self.fee_balance },
                    ),
                    ..self
                },
            )
        }
    }

    /// Replacing a payee's policy wholesale.
    pub open spec fn set_payee_config(self, origin: Origin, payee: AccountId, config: PayeeConfig) -> (
        Result<(), Error>,
        LedgerView,
    ) {
        if origin != Origin::Root {
            (Err(Error::BadOrigin), self)
        } else {
            (
                Ok(()),
                LedgerView {
                    configs: self.configs.insert(payee, config),
                    events: self.events.push(Event::PayeeUpdated { payee }),
                    ..self
                },
            )
        }
    }

    /// Setting the pause switch to `paused`, announcing it with `event`.
    pub open spec fn set_paused(self, origin: Origin, paused: bool, event: Event) -> (
        Result<(), Error>,
        LedgerView,
    ) {
        if origin != Origin::Root {
            (Err(Error::BadOrigin), self)
        } else {
            (Ok(()), LedgerView { paused, events: self.events.push(event), ..self })
        }
    }

    /// Halting every value-moving operation.
    pub open spec fn pause(self, origin: Origin) -> (Result<(), Error>, LedgerView) {
        self.set_paused(origin, true, Event::Paused)
    }

    /// Resuming normal operation.
    pub open spec fn unpause(self, origin: Origin) -> (Result<(), Error>, LedgerView) {
        self.set_paused(origin, false, Event::Unpaused)
    }

    /// Announcing an out-of-band movement of funds while halted; the
    /// balances are left as they are.
    pub open spec fn emergency_withdraw(self, origin: Origin, to: AccountId, amount: Balance) -> (
        Result<(), Error>,
        LedgerView,
    ) {
        if origin != Origin::Root {
            (Err(Error::BadOrigin), self)
        } else if !self.paused {
            (Err(Error::NotPaused), self)
        } else {
            (Ok(()), LedgerView { events: self.events.push(Event::EmergencyWithdrawn { to, amount }), ..self })
        }
    }
}

} // verus!
