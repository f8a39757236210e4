//! A burn-to-mint token economy as a deterministic state-transition engine.
//!
//! Participants destroy units of a native settlement currency and receive newly
//! issued reward tokens in return; the most recent burn then accrues a yield that
//! decays with ledger time and can be claimed later.  This crate holds the account
//! records, the transitions over them, the integer part of the yield rule and a
//! keyed store that applies each transition all-or-nothing.
//!
//! The engine performs no outside work itself.  Every transition takes the ledger
//! time as an argument and answers with the ordered list of [`Effect`]s that the
//! host has to carry out; a host that fails to carry one out abandons the
//! transition as a whole.

pub mod accrual;
pub mod burn;
pub mod claim;
pub mod errors;
pub mod events;
pub mod identity;
pub mod initialize;
pub mod laws;
pub mod ledger;
pub mod model;
pub mod state;
pub mod stats;
pub mod transfer;

pub use burn::{burn_and_mint, BurnAndMint};
pub use claim::{claim, Claim};
pub use errors::{ErrorCode, LedgerError};
pub use events::{BurnEvent, ClaimEvent, Effect, TransferEvent};
pub use identity::Identity;
pub use ledger::Ledger;
pub use initialize::{initialize, initialize_with_creator, Initialize};
pub use state::{GlobalState, UserAccount};
pub use stats::{get_stats, GetStats};
pub use transfer::{transfer_yrm, TransferYrm};
