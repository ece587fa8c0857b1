//! Settlement ledger: per-payee custodial balances, platform fee accrual,
//! per-request and daily withdrawal limits, and a global pause switch.
//!
//! Every operation is a total transition on an explicit ledger state. Its
//! exact outcome is stated by a spec function on [`LedgerView`], and the
//! executable method is proved to follow that function.
pub mod lemmas;
pub mod ledger;
pub mod pallet;
pub mod types;
pub mod weights;

pub use ledger::{fee_of, LedgerView};
pub use pallet::{fee_for, Pallet};
pub use types::{AccountId, Balance, Config, Error, Event, Origin, PayeeConfig};
pub use weights::{RuntimeDbWeight, SubstrateWeight, Weight, WeightInfo};
