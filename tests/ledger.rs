use settlement::{
    fee_for, Config, Error, Event, Origin, Pallet, PayeeConfig, RuntimeDbWeight, SubstrateWeight,
    Weight, WeightInfo,
};

const P: u64 = 1;
const X: u64 = 9;

fn fresh() -> Pallet {
    Pallet::new(Config { blocks_per_day: 100 })
}

fn configured() -> Pallet {
    let mut l = fresh();
    l.set_payee_config(Origin::Root, P, true, 500, 800, 250).unwrap();
    l
}

#[test]
fn scenario_small_credit_has_no_fee() {
    let mut l = configured();
    assert_eq!(
        l.payee_config(P),
        Some(PayeeConfig { active: true, withdrawal_limit: 500, daily_limit: 800, fee_bps: 250 })
    );
    assert_eq!(l.deposit_for_payee(Origin::Root, P, 1000), Ok(()));
    assert_eq!(l.payee_balance(P), 1000);
    assert_eq!(l.platform_fee_balance(), 0);
    assert_eq!(l.events().last(), Some(&Event::Deposit { payee: P, gross: 1000, fee: 0 }));
}

#[test]
fn scenario_large_credit_pays_fee() {
    let mut l = configured();
    assert_eq!(l.deposit_for_payee(Origin::Root, P, 20000), Ok(()));
    assert_eq!(l.payee_balance(P), 19500);
    assert_eq!(l.platform_fee_balance(), 500);
    assert_eq!(l.events().last(), Some(&Event::Deposit { payee: P, gross: 20000, fee: 500 }));
}

fn credited() -> Pallet {
    let mut l = configured();
    l.deposit_for_payee(Origin::Root, P, 1000).unwrap();
    l.deposit_for_payee(Origin::Root, P, 20000).unwrap();
    l
}

#[test]
fn scenario_request_within_limits() {
    let mut l = credited();
    assert_eq!(l.request_settlement(Origin::Signed(P), 400, 5), Ok(()));
    assert_eq!(l.daily_withdrawal(P), 400);
    assert_eq!(l.payee_balance(P), 20500);
    assert_eq!(l.events().last(), Some(&Event::SettlementRequested { payee: P, amount: 400 }));
}

#[test]
fn scenario_request_over_daily_limit() {
    let mut l = credited();
    l.request_settlement(Origin::Signed(P), 400, 5).unwrap();
    let n = l.events().len();
    assert_eq!(l.request_settlement(Origin::Signed(P), 450, 6), Err(Error::ExceedsDailyLimit));
    assert_eq!(l.daily_withdrawal(P), 400);
    assert_eq!(l.events().len(), n);
}

#[test]
fn scenario_execute_zeroes_whole_balance() {
    let mut l = credited();
    l.request_settlement(Origin::Signed(P), 400, 5).unwrap();
    assert_eq!(l.execute_settlement(Origin::Root, P), Ok(()));
    assert_eq!(l.payee_balance(P), 0);
    assert_eq!(l.events().last(), Some(&Event::SettlementExecuted { payee: P, amount: 20500 }));
}

#[test]
fn scenario_emergency_withdraw_while_paused() {
    let mut l = credited();
    assert_eq!(l.pause(Origin::Root), Ok(()));
    assert!(l.paused());
    assert_eq!(l.emergency_withdraw(Origin::Root, X, 100), Ok(()));
    assert_eq!(l.events().last(), Some(&Event::EmergencyWithdrawn { to: X, amount: 100 }));
    assert_eq!(l.payee_balance(P), 20500);
    assert_eq!(l.platform_fee_balance(), 500);
    assert_eq!(l.deposit_for_payee(Origin::Root, P, 10), Err(Error::ModulePaused));
}

#[test]
fn balances_saturate_instead_of_wrapping() {
    let mut l = fresh();
    l.deposit_for_payee(Origin::Root, P, u128::MAX - 5).unwrap();
    l.deposit_for_payee(Origin::Root, P, 100).unwrap();
    assert_eq!(l.payee_balance(P), u128::MAX);
}

#[test]
fn unconfigured_payee_pays_no_fee() {
    let mut l = fresh();
    l.deposit_for_payee(Origin::Root, X, 1_000_000).unwrap();
    assert_eq!(l.payee_balance(X), 1_000_000);
    assert_eq!(l.platform_fee_balance(), 0);
}

#[test]
fn fee_formula_values() {
    assert_eq!(fee_for(1000, 250), 0);
    assert_eq!(fee_for(20000, 250), 500);
    assert_eq!(fee_for(29999, 10000), 20000);
    assert_eq!(fee_for(12345, 0), 0);
    assert_eq!(fee_for(u128::MAX, 65535), u128::MAX);
}

#[test]
fn fee_above_gross_leaves_zero_net() {
    let mut l = fresh();
    l.set_payee_config(Origin::Root, P, true, 10, 10, 65535).unwrap();
    l.deposit_for_payee(Origin::Root, P, 10000).unwrap();
    assert_eq!(l.payee_balance(P), 0);
    assert_eq!(l.platform_fee_balance(), 65535);
}

#[test]
fn daily_window_resets_on_new_day() {
    let mut l = fresh();
    l.set_payee_config(Origin::Root, P, true, 100, 100, 0).unwrap();
    l.deposit_for_payee(Origin::Root, P, 1000).unwrap();
    assert_eq!(l.request_settlement(Origin::Signed(P), 100, 50), Ok(()));
    assert_eq!(l.request_settlement(Origin::Signed(P), 1, 99), Err(Error::ExceedsDailyLimit));
    assert_eq!(l.request_settlement(Origin::Signed(P), 100, 100), Ok(()));
    assert_eq!(l.daily_withdrawal(P), 100);
    assert_eq!(l.last_withdrawal_day(P), 1);
}

#[test]
fn withdrawal_limit_enforced_regardless_of_quota() {
    let mut l = credited();
    assert_eq!(
        l.request_settlement(Origin::Signed(P), 501, 0),
        Err(Error::ExceedsWithdrawalLimit)
    );
    assert_eq!(l.daily_withdrawal(P), 0);
}

#[test]
fn pause_gates_value_moving_operations() {
    let mut l = credited();
    l.pause(Origin::Root).unwrap();
    assert_eq!(l.deposit_for_payee(Origin::Root, P, 1), Err(Error::ModulePaused));
    assert_eq!(l.request_settlement(Origin::Signed(P), 1, 0), Err(Error::ModulePaused));
    assert_eq!(l.execute_settlement(Origin::Root, P), Err(Error::ModulePaused));
    assert_eq!(l.withdraw_platform_fee(Origin::Root, X), Err(Error::ModulePaused));
    assert_eq!(l.set_payee_config(Origin::Root, X, true, 1, 1, 0), Ok(()));
    l.unpause(Origin::Root).unwrap();
    assert!(!l.paused());
    assert_eq!(l.emergency_withdraw(Origin::Root, X, 1), Err(Error::NotPaused));
    assert_eq!(l.events().last(), Some(&Event::Unpaused));
}

#[test]
fn execute_twice_fails_second_time() {
    let mut l = credited();
    assert_eq!(l.execute_settlement(Origin::Root, P), Ok(()));
    assert_eq!(l.execute_settlement(Origin::Root, P), Err(Error::ZeroBalance));
}

#[test]
fn withdraw_platform_fee_empties_pool() {
    let mut l = credited();
    assert_eq!(l.withdraw_platform_fee(Origin::Root, X), Ok(()));
    assert_eq!(l.platform_fee_balance(), 0);
    assert_eq!(l.events().last(), Some(&Event::PlatformFeeWithdrawn { to: X, amount: 500 }));
    assert_eq!(l.withdraw_platform_fee(Origin::Root, X), Err(Error::ZeroAmount));
}

#[test]
fn request_errors() {
    let mut l = credited();
    assert_eq!(l.request_settlement(Origin::Root, 1, 0), Err(Error::BadOrigin));
    assert_eq!(l.request_settlement(Origin::Unsigned, 1, 0), Err(Error::BadOrigin));
    assert_eq!(l.request_settlement(Origin::Signed(P), 0, 0), Err(Error::ZeroAmount));
    assert_eq!(l.request_settlement(Origin::Signed(X), 1, 0), Err(Error::PayeeNotActive));
    l.set_payee_config(Origin::Root, X, false, 10, 10, 0).unwrap();
    assert_eq!(l.request_settlement(Origin::Signed(X), 1, 0), Err(Error::PayeeNotActive));
    assert_eq!(
        l.request_settlement(Origin::Signed(P), 20501, 0),
        Err(Error::InsufficientBalance)
    );
}

#[test]
fn request_overflow_is_distinct() {
    let mut l = fresh();
    l.set_payee_config(Origin::Root, P, true, u128::MAX, u128::MAX, 0).unwrap();
    l.deposit_for_payee(Origin::Root, P, u128::MAX).unwrap();
    assert_eq!(l.request_settlement(Origin::Signed(P), u128::MAX - 1, 0), Ok(()));
    assert_eq!(l.request_settlement(Origin::Signed(P), 2, 0), Err(Error::Overflow));
    assert_eq!(l.daily_withdrawal(P), u128::MAX - 1);
}

#[test]
fn privileged_operations_refuse_signed_callers() {
    let mut l = credited();
    let s = Origin::Signed(P);
    assert_eq!(l.deposit_for_payee(s, P, 1), Err(Error::BadOrigin));
    assert_eq!(l.execute_settlement(s, P), Err(Error::BadOrigin));
    assert_eq!(l.withdraw_platform_fee(s, P), Err(Error::BadOrigin));
    assert_eq!(l.set_payee_config(s, P, true, 1, 1, 1), Err(Error::BadOrigin));
    assert_eq!(l.pause(s), Err(Error::BadOrigin));
    assert_eq!(l.unpause(s), Err(Error::BadOrigin));
    assert_eq!(l.emergency_withdraw(s, P, 1), Err(Error::BadOrigin));
    assert_eq!(l.deposit_for_payee(Origin::Root, P, 0), Err(Error::ZeroAmount));
    assert!(!l.paused());
}

#[test]
fn weights_add_storage_costs() {
    let w = SubstrateWeight { db: RuntimeDbWeight { read: 25_000, write: 100_000 } };
    assert_eq!(w.deposit_for_payee(), Weight::from_parts(30_250_000, 0));
    assert_eq!(w.request_settlement(), Weight::from_parts(35_300_000, 0));
    assert_eq!(w.emergency_withdraw(), Weight::from_parts(15_000_000, 0));
    assert_eq!(().pause(), Weight::from_parts(10_000_000, 0));
    let big = SubstrateWeight { db: RuntimeDbWeight { read: u64::MAX, write: 1 } };
    assert_eq!(big.execute_settlement().ref_time, u64::MAX);
}
