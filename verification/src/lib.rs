//! Funding accounts of a crowdfunding escrow: which contributions are
//! admitted, what each contributor has on record, how a campaign ends at its
//! deadline, and who may then take which funds out.
//!
//! The library holds no clock, no caller and no money. Each operation takes
//! the current time and the caller's identity as arguments, and a claim hands
//! back the amount that the host has to transfer. Amounts are unsigned
//! integers of 128 bits; no sum of them wraps.
//!
//! `rules` decides on plain values, `campaign` keeps the accounts of one
//! campaign by those rules, and `laws` states what holds over several calls.

pub mod amount;
pub mod campaign;
pub mod error;
pub mod identity;
pub mod laws;
pub mod ledger;
pub mod rules;

pub use amount::amount_from_digits;
pub use campaign::CrowdfundingSc;
pub use error::LedgerError;
pub use identity::Identity;
pub use ledger::ContributorLedger;
pub use rules::{CampaignParameters, Settlement, Status};
