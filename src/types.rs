//! Plain data of the ledger: identities, amounts, policy, events and errors.
use vstd::prelude::*;

verus! {

/// Identity of an account, as resolved by the host.
pub type AccountId = u64;

/// An amount of the settlement currency.
pub type Balance = u128;

/// Denominator of a fee rate given in basis points.
pub const BPS_DENOMINATOR: u128 = 10_000;

/// The caller of an operation, as authenticated by the host.
#[derive(Clone, Copy, Debug, PartialEq, Eq, Structural)]
pub enum Origin {
    /// Elevated, system-level authority.
    Root,
    /// A caller authenticated as the given account.
    Signed(AccountId),
    /// A caller with no authenticated identity.
    Unsigned,
}

/// Per-payee policy.
#[derive(Clone, Copy, Debug, PartialEq, Eq, Structural)]
pub struct PayeeConfig {
    pub active: bool,
    /// Largest amount of a single settlement request.
    pub withdrawal_limit: Balance,
    /// Largest sum of settlement requests within one day.
    pub daily_limit: Balance,
    /// Fee rate in parts per ten thousand.
    pub fee_bps: u16,
}

/// Constants the host fixes for the ledger.
#[derive(Clone, Copy, Debug, PartialEq, Eq, Structural)]
pub struct Config {
    /// Number of host steps (blocks) that make up one day.
    pub blocks_per_day: u64,
}

/// What a successful operation announces.
#[derive(Clone, Copy, Debug, PartialEq, Eq, Structural)]
pub enum Event {
    Deposit { payee: AccountId, gross: Balance, fee: Balance },
    SettlementRequested { payee: AccountId, amount: Balance },
    SettlementExecuted { payee: AccountId, amount: Balance },
    PayeeUpdated { payee: AccountId },
    PlatformFeeWithdrawn { to: AccountId, amount: Balance },
    Paused,
    Unpaused,
    EmergencyWithdrawn { to: AccountId, amount: Balance },
}

/// Why an operation was refused. A refused operation changes nothing.
#[derive(Clone, Copy, Debug, PartialEq, Eq, Structural)]
pub enum Error {
    /// The caller lacks the authority the operation needs.
    BadOrigin,
    ModulePaused,
    PayeeNotActive,
    InsufficientBalance,
    ExceedsDailyLimit,
    Overflow,
    ExceedsWithdrawalLimit,
    ZeroAmount,
    ZeroBalance,
    NotPaused,
}

} // verus!
