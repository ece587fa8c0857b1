//! The executable ledger and its eight operations.
use std::collections::HashMap;
use vstd::prelude::*;

use crate::ledger::{fee_of, LedgerView};
use crate::types::{AccountId, Balance, BPS_DENOMINATOR, Config, Error, Event, Origin, PayeeConfig};

verus! {

broadcast use vstd::std_specs::hash::group_hash_axioms;

/// The ledger state handle. Every operation takes the caller's authority and
/// either applies all of its effects and appends one event, or returns an
/// error and changes nothing.
pub struct Pallet {
    config: Config,
    payee_balance: HashMap<AccountId, Balance>,
    payee_configs: HashMap<AccountId, PayeeConfig>,
    platform_fee_balance: Balance,
    daily_withdrawal: HashMap<AccountId, Balance>,
    last_withdrawal_day: HashMap<AccountId, u64>,
    paused: bool,
    events: Vec<Event>,
}

impl View for Pallet {
    type V = LedgerView;

    closed spec fn view(&self) -> LedgerView {
        LedgerView {
            blocks_per_day: self.config.blocks_per_day,
            balances: self.payee_balance@,
            configs: self.payee_configs@,
            fee_balance: self.platform_fee_balance,
            daily: self.daily_withdrawal@,
            last_days: self.last_withdrawal_day@,
            paused: self.paused,
            events: self.events@,
        }
    }
}

/// The fee on a gross credit at the given rate.
pub fn fee_for(gross: Balance, fee_bps: u16) -> (fee: Balance)
    ensures
        fee == fee_of(gross, fee_bps),
{
    let units: Balance = gross / BPS_DENOMINATOR;
    match units.checked_mul(fee_bps as Balance) {
        Some(f) => f,
        None => Balance::MAX,
    }
}

impl Pallet {
    /// A fresh ledger: no balances, no payees, not paused.
    pub fn new(config: Config) -> (r: Pallet)
        requires
            config.blocks_per_day > 0,
        ensures
            r@ == LedgerView::genesis(config.blocks_per_day),
    {
        let r = Pallet {
            config,
            payee_balance: HashMap::new(),
            payee_configs: HashMap::new(),
            platform_fee_balance: 0,
            daily_withdrawal: HashMap::new(),
            last_withdrawal_day: HashMap::new(),
            paused: false,
            events: Vec::new(),
        };
        assert(r@ =~= LedgerView::genesis(config.blocks_per_day));
        r
    }

    /// Unsettled balance of a payee.
    pub fn payee_balance(&self, who: AccountId) -> (r: Balance)
        ensures
            r == self@.balance(who),
    {
        match self.payee_balance.get(&who) {
            Some(b) => *b,
            None => 0,
        }
    }

    /// Policy of a payee, if it was ever configured.
    pub fn payee_config(&self, who: AccountId) -> (r: Option<PayeeConfig>)
        ensures
            r == self@.config(who),
    {
        match self.payee_configs.get(&who) {
            Some(c) => Some(*c),
            None => None,
        }
    }

    /// Accrued platform fee.
    pub fn platform_fee_balance(&self) -> (r: Balance)
        ensures
            r == self@.fee_balance,
    {
        self.platform_fee_balance
    }

    /// Sum a payee requested on the day of its last request.
    pub fn daily_withdrawal(&self, who: AccountId) -> (r: Balance)
        ensures
            r == self@.daily_total(who),
    {
        match self.daily_withdrawal.get(&who) {
            Some(d) => *d,
            None => 0,
        }
    }

    /// Day index of a payee's last request.
    pub fn last_withdrawal_day(&self, who: AccountId) -> (r: u64)
        ensures
            r == self@.last_day(who),
    {
        match self.last_withdrawal_day.get(&who) {
            Some(d) => *d,
            None => 0,
        }
    }

    /// Whether value-moving operations are halted.
    pub fn paused(&self) -> (r: bool)
        ensures
            r == self@.paused,
    {
        self.paused
    }

    /// Events of all successful operations, oldest first.
    pub fn events(&self) -> (r: &Vec<Event>)
        ensures
            r@ == self@.events,
    {
        &self.events
    }

    /// Credits `amount` to `payee` less the platform fee, which accrues to
    /// the platform pool. Both sums saturate.
    pub fn deposit_for_payee(&mut self, origin: Origin, payee: AccountId, amount: Balance) -> (r:
        Result<(), Error>)
        ensures
            (r, final(self)@) == old(self)@.deposit_for_payee(origin, payee, amount),
    {
        if origin != Origin::Root {
            return Err(Error::BadOrigin);
        }
        if self.paused {
            return Err(Error::ModulePaused);
        }
        if amount == 0 {
            return Err(Error::ZeroAmount);
        }
        let fee_bps: u16 = match self.payee_config(payee) {
            Some(c) => c.fee_bps,
            None => 0,
        };
        let fee: Balance = fee_for(amount, fee_bps);
        let net: Balance = amount.saturating_sub(fee);
        let balance: Balance = self.payee_balance(payee);
        self.payee_balance.insert(payee, balance.saturating_add(net));
        self.platform_fee_balance = self.platform_fee_balance.saturating_add(fee);
        self.events.push(Event::Deposit { payee, gross: amount, fee });
        assert(final(self)@ =~= old(self)@.deposit_for_payee(origin, payee, amount).1);
        Ok(())
    }

    /// Records a settlement request of `amount` by the signed caller at host
    /// step `now`. The request consumes per-day quota; the day total starts
    /// over when the day index of `now` differs from that of the payee's last
    /// request. The balance itself is left for execution.
    pub fn request_settlement(&mut self, origin: Origin, amount: Balance, now: u64) -> (r: Result<
        (),
        Error,
    >)
        requires
            old(self)@.blocks_per_day > 0,
        ensures
            (r, final(self)@) == old(self)@.request_settlement(origin, amount, now),
    {
        let who: AccountId = match origin {
            Origin::Signed(who) => who,
            _ => {
                return Err(Error::BadOrigin);
            },
        };
        if self.paused {
            return Err(Error::ModulePaused);
        }
        if amount == 0 {
            return Err(Error::ZeroAmount);
        }
        let config = match self.payee_config(who) {
            Some(c) => c,
            None => {
                return Err(Error::PayeeNotActive);
            },
        };
        if !config.active {
            return Err(Error::PayeeNotActive);
        }
        if self.payee_balance(who) < amount {
            return Err(Error::InsufficientBalance);
        }
        if amount > config.withdrawal_limit {
            return Err(Error::ExceedsWithdrawalLimit);
        }
        let day: u64 = now / self.config.blocks_per_day;
        let rollover = self.last_withdrawal_day(who) != day;
        let spent: Balance = if rollover {
            0
        } else {
            self.daily_withdrawal(who)
        };
        let total: Balance = match spent.checked_add(amount) {
            Some(t) => t,
            None => {
                return Err(Error::Overflow);
            },
        };
        if total > config.daily_limit {
            return Err(Error::ExceedsDailyLimit);
        }
        if rollover {
            self.last_withdrawal_day.insert(who, day);
        }
        self.daily_withdrawal.insert(who, total);
        self.events.push(Event::SettlementRequested { payee: who, amount });
        assert(final(self)@ =~= old(self)@.request_settlement(origin, amount, now).1);
        Ok(())
    }

    /// Finalises the whole balance of `payee` as paid out, announcing the
    /// amount; the transfer itself happens outside the ledger.
    pub fn execute_settlement(&mut self, origin: Origin, payee: AccountId) -> (r: Result<(), Error>)
        ensures
            (r, final(self)@) == old(self)@.execute_settlement(origin, payee),
    {
        if origin != Origin::Root {
            return Err(Error::BadOrigin);
        }
        if self.paused {
            return Err(Error::ModulePaused);
        }
        let amount: Balance = self.payee_balance(payee);
        if amount == 0 {
            return Err(Error::ZeroBalance);
        }
        self.payee_balance.insert(payee, 0);
        self.events.push(Event::SettlementExecuted { payee, amount });
        assert(final(self)@ =~= old(self)@.execute_settlement(origin, payee).1);
        Ok(())
    }

    /// Pays the whole platform fee pool out to `to`.
    pub fn withdraw_platform_fee(&mut self, origin: Origin, to: AccountId) -> (r: Result<(), Error>)
        ensures
            (r, final(self)@) == old(self)@.withdraw_platform_fee(origin, to),
    {
        if origin != Origin::Root {
            return Err(Error::BadOrigin);
        }
        if self.paused {
            return Err(Error::ModulePaused);
        }
        let amount: Balance = self.platform_fee_balance;
        if amount == 0 {
            return Err(Error::ZeroAmount);
        }
        self.platform_fee_balance = 0;
        self.events.push(Event::PlatformFeeWithdrawn { to, amount });
        assert(final(self)@ =~= old(self)@.withdraw_platform_fee(origin, to).1);
        Ok(())
    }

    /// Onboards, updates or deactivates a payee; allowed while paused.
    pub fn set_payee_config(
        &mut self,
        origin: Origin,
        payee: AccountId,
        active: bool,
        withdrawal_limit: Balance,
        daily_limit: Balance,
        fee_bps: u16,
    ) -> (r: Result<(), Error>)
        ensures
            (r, final(self)@) == old(self)@.set_payee_config(
                origin,
                payee,
                (PayeeConfig { active, withdrawal_limit, daily_limit, fee_bps }),
            ),
    {
        if origin != Origin::Root {
            return Err(Error::BadOrigin);
        }
        let config = PayeeConfig { active, withdrawal_limit, daily_limit, fee_bps };
        self.payee_configs.insert(payee, config);
        self.events.push(Event::PayeeUpdated { payee });
        assert(final(self)@ =~= old(self)@.set_payee_config(origin, payee, config).1);
        Ok(())
    }

    /// Halts every value-moving operation.
    pub fn pause(&mut self, origin: Origin) -> (r: Result<(), Error>)
        ensures
            (r, final(self)@) == old(self)@.pause(origin),
    {
        if origin != Origin::Root {
            return Err(Error::BadOrigin);
        }
        self.paused = true;
        self.events.push(Event::Paused);
        assert(final(self)@ =~= old(self)@.pause(origin).1);
        Ok(())
    }

    /// Resumes normal operation.
    pub fn unpause(&mut self, origin: Origin) -> (r: Result<(), Error>)
        ensures
            (r, final(self)@) == old(self)@.unpause(origin),
    {
        if origin != Origin::Root {
            return Err(Error::BadOrigin);
        }
        self.paused = false;
        self.events.push(Event::Unpaused);
        assert(final(self)@ =~= old(self)@.unpause(origin).1);
        Ok(())
    }

    /// Announces an out-of-band movement of `amount` to `to`; only while
    /// paused, and without touching any balance.
    pub fn emergency_withdraw(&mut self, origin: Origin, to: AccountId, amount: Balance) -> (r:
        Result<(), Error>)
        ensures
            (r, final(self)@) == old(self)@.emergency_withdraw(origin, to, amount),
    {
        if origin != Origin::Root {
            return Err(Error::BadOrigin);
        }
        if !self.paused {
            return Err(Error::NotPaused);
        }
        self.events.push(Event::EmergencyWithdrawn { to, amount });
        assert(final(self)@ =~= old(self)@.emergency_withdraw(origin, to, amount).1);
        Ok(())
    }
}

} // verus!
