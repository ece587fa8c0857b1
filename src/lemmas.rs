//! Laws of the ledger, stated over the model and proved.
use vstd::prelude::*;

use crate::ledger::{fee_of, LedgerView};
use crate::types::{AccountId, Balance, Error, Event, Origin};

verus! {

/// Balances never go negative: every stored amount is at least zero, and a
/// credit, which saturates rather than wraps, never lowers a balance or the
/// fee pool.
pub proof fn lemma_balances_nonnegative(s: LedgerView, origin: Origin, who: AccountId, amount: Balance)
    ensures
        s.balance(who) >= 0,
        s.fee_balance >= 0,
        s.daily_total(who) >= 0,
        s.deposit_for_payee(origin, who, amount).1.balance(who) >= s.balance(who),
        s.deposit_for_payee(origin, who, amount).1.fee_balance >= s.fee_balance,
{
}

/// At a fee rate of at most ten thousand basis points the fee lies between
/// zero and the gross amount, so the net credit is the gross less the fee;
/// at rate zero, which unconfigured payees have, the fee is zero.
pub proof fn lemma_fee_bound(gross: Balance, fee_bps: u16)
    requires
        fee_bps <= 10_000,
    ensures
        0 <= fee_of(gross, fee_bps) <= gross,
        gross.saturating_sub(fee_of(gross, fee_bps)) + fee_of(gross, fee_bps) == gross,
        fee_of(gross, 0) == 0,
{
    let units: int = gross as int / 10_000;
    assert(units * fee_bps <= units * 10_000) by (nonlinear_arith)
        requires
            fee_bps <= 10_000,
            units >= 0,
    ;
    assert(units * 10_000 <= gross) by (nonlinear_arith)
        requires
            units == gross as int / 10_000,
    ;
}

/// A credit to a payee that was never configured keeps nothing back: the
/// announced fee is zero and the payee's balance grows by the whole gross
/// amount, up to saturation.
pub proof fn lemma_unconfigured_credit_is_whole(s: LedgerView, payee: AccountId, gross: Balance)
    requires
        s.config(payee) is None,
        s.deposit_for_payee(Origin::Root, payee, gross).0 is Ok,
    ensures
        s.deposit_for_payee(Origin::Root, payee, gross).1.balance(payee) == s.balance(
            payee,
        ).saturating_add(gross),
        s.deposit_for_payee(Origin::Root, payee, gross).1.events.last() == (Event::Deposit {
            payee,
            gross,
            fee: 0,
        }),
{
}

/// Once the day index has moved on since a payee's accepted request, the
/// next request's quota check ignores that request entirely: it decides as
/// if the payee had requested nothing that day.
pub proof fn lemma_daily_window_reset(
    s: LedgerView,
    who: AccountId,
    first: Balance,
    first_at: u64,
    second: Balance,
    second_at: u64,
)
    requires
        s.blocks_per_day > 0,
        s.request_settlement(Origin::Signed(who), first, first_at).0 is Ok,
        s.day_index(second_at) != s.day_index(first_at),
    ensures
        ({
            let s1 = s.request_settlement(Origin::Signed(who), first, first_at).1;
            &&& s1.spent_today(who, second_at) == 0
            &&& s1.request_settlement(Origin::Signed(who), second, second_at).0 == (LedgerView {
                daily: s1.daily.insert(who, 0),
                ..s1
            }).request_settlement(Origin::Signed(who), second, second_at).0
        }),
{
}

/// A request above the payee's per-request limit never succeeds; once the
/// ledger is running, the payee active and its balance enough, it fails with
/// `ExceedsWithdrawalLimit` whatever the day's quota holds.
pub proof fn lemma_withdrawal_limit_enforced(s: LedgerView, who: AccountId, amount: Balance, now: u64)
    requires
        s.config(who) is Some,
        amount > s.config(who)->Some_0.withdrawal_limit,
    ensures
        s.request_settlement(Origin::Signed(who), amount, now).0 is Err,
        !s.paused && s.config(who)->Some_0.active && s.balance(who) >= amount ==> s.request_settlement(
            Origin::Signed(who),
            amount,
            now,
        ).0 == Err::<(), Error>(Error::ExceedsWithdrawalLimit),
{
}

/// While paused, every value-moving operation called with the authority it
/// needs fails with `ModulePaused`; the emergency announcement succeeds
/// exactly while paused; pausing sets the switch.
pub proof fn lemma_pause_gating(
    s: LedgerView,
    payee: AccountId,
    amount: Balance,
    now: u64,
    to: AccountId,
)
    ensures
        s.pause(Origin::Root).1.paused,
        s.paused ==> s.deposit_for_payee(Origin::Root, payee, amount).0 == Err::<(), Error>(
            Error::ModulePaused,
        ),
        s.paused ==> s.request_settlement(Origin::Signed(payee), amount, now).0 == Err::<(), Error>(
            Error::ModulePaused,
        ),
        s.paused ==> s.execute_settlement(Origin::Root, payee).0 == Err::<(), Error>(
            Error::ModulePaused,
        ),
        s.paused ==> s.withdraw_platform_fee(Origin::Root, to).0 == Err::<(), Error>(
            Error::ModulePaused,
        ),
        s.emergency_withdraw(Origin::Root, to, amount).0 is Ok <==> s.paused,
{
}

/// Executing a payee's settlement twice in a row succeeds once, leaving a
/// zero balance, and the second call fails with `ZeroBalance`.
pub proof fn lemma_execute_twice(s: LedgerView, payee: AccountId)
    requires
        !s.paused,
        s.balance(payee) > 0,
    ensures
        s.execute_settlement(Origin::Root, payee).0 is Ok,
        s.execute_settlement(Origin::Root, payee).1.balance(payee) == 0,
        s.execute_settlement(Origin::Root, payee).1.execute_settlement(Origin::Root, payee).0
            == Err::<(), Error>(Error::ZeroBalance),
{
}

} // verus!
