use vstd::prelude::*;
use crate::ledger::{base58_of, Accounts};

verus! {

/// The two accounts of the wallet and the network they live on.
#[derive(Clone, Debug)]
pub struct WalletInfo {
    pub sender_address: String,
    pub recipient_address: String,
    pub network: String,
}

/// The service's liveness report.
#[derive(Clone, Debug)]
pub struct HealthResponse {
    pub status: String,
    pub timestamp: String,
    pub network: String,
}

/// A failure of a read-only request: a short code and the cause in words.
#[derive(Clone, Debug)]
pub struct ErrorResponse {
    pub error: String,
    pub message: String,
}

impl WalletInfo {
    /// The base58 addresses of the two accounts, on the fixed deployment network.
    pub fn of(accounts: &Accounts) -> (r: WalletInfo)
        ensures
            r.sender_address@ == base58_of(accounts.sender.bytes@),
            r.recipient_address@ == base58_of(accounts.recipient.bytes@),
            r.network@ == "devnet"@,
    {
        proof {
            reveal_strlit("devnet");
        }
        WalletInfo {
            sender_address: accounts.sender_text(),
            recipient_address: accounts.recipient_text(),
            network: "devnet".to_string(),
        }
    }
}

impl HealthResponse {
    /// A healthy report stamped with `timestamp`.
    pub fn healthy(timestamp: String) -> (r: HealthResponse)
        ensures
            r.status@ == "healthy"@,
            r.timestamp == timestamp,
            r.network@ == "devnet"@,
    {
        proof {
            reveal_strlit("healthy");
            reveal_strlit("devnet");
        }
        HealthResponse {
            status: "healthy".to_string(),
            timestamp,
            network: "devnet".to_string(),
        }
    }
}

impl ErrorResponse {
    /// Reading the balances failed with `message`.
    pub fn balance_fetch_failed(message: String) -> (r: ErrorResponse)
        ensures
            r.error@ == "balance_fetch_failed"@,
            r.message == message,
    {
        proof {
            reveal_strlit("balance_fetch_failed");
        }
        ErrorResponse { error: "balance_fetch_failed".to_string(), message }
    }

    /// Reading the transaction history failed with `message`.
    pub fn history_failed(message: String) -> (r: ErrorResponse)
        ensures
            r.error@ == "transaction_history_failed"@,
            r.message == message,
    {
        proof {
            reveal_strlit("transaction_history_failed");
        }
        ErrorResponse { error: "transaction_history_failed".to_string(), message }
    }
}

} // verus!
