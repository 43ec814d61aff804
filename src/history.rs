use vstd::prelude::*;

verus! {

/// Fee, in lamports, reported for a historical transaction that carries a memo:
/// a coarse approximation, not a lookup of the fee the ledger charged.
pub const APPROX_FEE_LAMPORTS: u64 = 5000;

/// How final the ledger considers a transaction.
#[derive(Clone, Copy, Debug, PartialEq, Eq, Structural)]
pub enum ConfirmationStatus {
    Processed,
    Confirmed,
    Finalized,
}

/// One entry of the ledger's list of signatures for an address.
#[derive(Clone, Debug)]
pub struct SignatureRecord {
    pub signature: String,
    pub block_time: Option<i64>,
    pub slot: u64,
    pub status: Option<ConfirmationStatus>,
    pub memo: Option<String>,
}

/// A historical transaction as the wallet reports it.
#[derive(Clone, Debug)]
pub struct TransactionInfo {
    pub signature: String,
    pub block_time: Option<i64>,
    pub slot: u64,
    pub status: String,
    pub fee: Option<u64>,
}

/// The wallet's transaction history, newest first.
#[derive(Clone, Debug)]
pub struct TransactionHistoryResponse {
    pub transactions: Vec<TransactionInfo>,
}

/// The text reported for a confirmation status; `"unknown"` when the ledger gave none.
pub open spec fn status_text(status: Option<ConfirmationStatus>) -> Seq<char> {
    match status {
        None => "unknown"@,
        Some(ConfirmationStatus::Processed) => "Processed"@,
        Some(ConfirmationStatus::Confirmed) => "Confirmed"@,
        Some(ConfirmationStatus::Finalized) => "Finalized"@,
    }
}

/// Whether `info` reports the ledger's `record`: the same signature, block time
/// and slot, the status as text, and the approximate fee exactly when a memo is present.
pub open spec fn reports(record: SignatureRecord, info: TransactionInfo) -> bool {
    &&& info.signature == record.signature
    &&& info.block_time == record.block_time
    &&& info.slot == record.slot
    &&& info.status@ == status_text(record.status)
    &&& info.fee == if record.memo is Some {
        Some(APPROX_FEE_LAMPORTS)
    } else {
        None
    }
}

/// The text reported for a confirmation status.
pub fn status_label(status: Option<ConfirmationStatus>) -> (r: String)
    ensures
        r@ == status_text(status),
{
    proof {
        reveal_strlit("unknown");
        reveal_strlit("Processed");
        reveal_strlit("Confirmed");
        reveal_strlit("Finalized");
    }
    match status {
        None => "unknown".to_string(),
        Some(ConfirmationStatus::Processed) => "Processed".to_string(),
        Some(ConfirmationStatus::Confirmed) => "Confirmed".to_string(),
        Some(ConfirmationStatus::Finalized) => "Finalized".to_string(),
    }
}

/// Reports one ledger record.
pub fn normalize_record(record: &SignatureRecord) -> (r: TransactionInfo)
    ensures
        reports(*record, r),
{
    TransactionInfo {
        signature: record.signature.clone(),
        block_time: record.block_time,
        slot: record.slot,
        status: status_label(record.status),
        fee: match &record.memo {
            Some(_) => Some(APPROX_FEE_LAMPORTS),
            None => None,
        },
    }
}

/// Reports the ledger's records one for one, in the order the ledger gave them
/// (newest first).
pub fn normalize_history(records: &Vec<SignatureRecord>) -> (r: TransactionHistoryResponse)
    ensures
        r.transactions.len() == records.len(),
        forall|i: int|
            0 <= i < records.len() ==> reports(#[trigger] records[i], r.transactions[i]),
{
    let mut transactions: Vec<TransactionInfo> = Vec::new();
    let mut k: usize = 0;
    while k < records.len()
        invariant
            k <= records.len(),
            transactions.len() == k,
            forall|i: int| 0 <= i < k ==> reports(#[trigger] records[i], transactions[i]),
        decreases records.len() - k,
    {
        let info = normalize_record(&records[k]);
        transactions.push(info);
        k = k + 1;
    }
    TransactionHistoryResponse { transactions }
}

} // verus!
