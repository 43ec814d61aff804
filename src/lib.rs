//! Transfer orchestration, balance reconciliation and history normalization
//! for a wallet service that moves funds between two fixed ledger accounts.
//!
//! Everything that waits on the network is left to the caller: the transfer
//! is a state machine that names the next piece of outside work and takes its
//! outcome back as an event.

pub mod history;
pub mod ledger;
pub mod models;
pub mod transfer;
