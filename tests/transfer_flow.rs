use transaction::transfer::{
    Address, BalancePair, ReconciliationResult, SolanaService, TransferAction, TransferError,
    TransferEvent, TransferState, LAMPORTS_PER_UNIT,
};

fn accounts() -> (Address, Address) {
    (Address { bytes: [1u8; 32] }, Address { bytes: [2u8; 32] })
}

fn lamports_of(amount: f64) -> Option<u64> {
    if amount.is_finite() && amount > 0.0 {
        Some((amount * LAMPORTS_PER_UNIT as f64) as u64)
    } else {
        None
    }
}

fn pair(sender: u64, recipient: u64) -> BalancePair {
    BalancePair { sender, recipient }
}

/// Drives a transfer, recording each action it asks for, and feeds it the
/// given outcomes in order.
fn drive(events: Vec<TransferEvent>) -> (Vec<TransferAction>, Option<ReconciliationResult>) {
    let (from, to) = accounts();
    let mut state = TransferState::new(from, to);
    let mut actions = vec![state.action()];
    for e in events {
        state = state.step(e);
        actions.push(state.action());
    }
    (actions, state.into_result())
}

fn count_submits(actions: &[TransferAction]) -> usize {
    actions.iter().filter(|a| matches!(a, TransferAction::Submit)).count()
}

fn count_reads(actions: &[TransferAction]) -> usize {
    actions.iter().filter(|a| matches!(a, TransferAction::ReadBalances)).count()
}

#[test]
fn one_unit_sender_sends_a_hundredth() {
    let lamports = lamports_of(0.01).unwrap();
    assert_eq!(lamports, 10_000_000);
    let pre = pair(LAMPORTS_PER_UNIT, 0);
    let post = pair(LAMPORTS_PER_UNIT - lamports - 5000, lamports);
    let (actions, result) = drive(vec![
        TransferEvent::Request(Some(lamports)),
        TransferEvent::Balances(Ok(pre)),
        TransferEvent::Signed(Ok(())),
        TransferEvent::Submitted(Ok("5sig".to_string())),
        TransferEvent::Balances(Ok(post)),
    ]);
    let r = result.unwrap();
    assert!(r.success);
    assert_eq!(r.signature, Some("5sig".to_string()));
    assert_eq!(r.pre_balance_sender as f64 / LAMPORTS_PER_UNIT as f64, 1.0);
    assert!(r.post_balance_sender < r.pre_balance_sender);
    assert!(r.post_balance_recipient > r.pre_balance_recipient);
    assert_eq!(r.post_balance_sender, 989_995_000);
    assert_eq!(r.amount_transferred, 10_000_000);
    assert_eq!(r.error, None);
    assert_eq!(count_submits(&actions), 1);
    assert!(matches!(actions.last(), Some(TransferAction::Finish)));
}

#[test]
fn half_a_thousandth_cannot_send_a_hundredth() {
    let lamports = lamports_of(0.01).unwrap();
    let pre = pair(lamports_of(0.0005).unwrap(), 7);
    assert_eq!(pre.sender, 500_000);
    let (actions, result) = drive(vec![
        TransferEvent::Request(Some(lamports)),
        TransferEvent::Balances(Ok(pre)),
        TransferEvent::Signed(Ok(())),
        TransferEvent::Submitted(Ok("never".to_string())),
    ]);
    let r = result.unwrap();
    assert!(!r.success);
    assert_eq!(r.amount_transferred, 0);
    assert_eq!(r.signature, None);
    assert_eq!(r.pre_balance_sender, 500_000);
    assert_eq!(r.post_balance_sender, 500_000);
    assert_eq!(r.pre_balance_recipient, 7);
    assert_eq!(r.post_balance_recipient, 7);
    assert_eq!(
        r.error,
        Some(TransferError::InsufficientFunds { required: 10_000_000, available: 500_000 })
    );
    assert_eq!(count_submits(&actions), 0);
}

#[test]
fn balance_one_short_is_never_submitted() {
    let (actions, result) = drive(vec![
        TransferEvent::Request(Some(1001)),
        TransferEvent::Balances(Ok(pair(1000, 0))),
    ]);
    assert_eq!(count_submits(&actions), 0);
    assert!(matches!(actions[1], TransferAction::ReadBalances));
    assert!(matches!(actions[2], TransferAction::Finish));
    assert!(!result.unwrap().success);
}

#[test]
fn exact_balance_is_enough() {
    let (actions, result) = drive(vec![
        TransferEvent::Request(Some(1000)),
        TransferEvent::Balances(Ok(pair(1000, 0))),
    ]);
    assert!(matches!(actions[2], TransferAction::Sign(d) if d.lamports == 1000));
    assert!(result.is_none());
}

#[test]
fn invalid_amounts_are_rejected_before_any_read() {
    for amount in [0.0, -1.0, f64::NAN, f64::INFINITY, f64::NEG_INFINITY] {
        let (actions, result) = drive(vec![TransferEvent::Request(lamports_of(amount))]);
        assert_eq!(count_reads(&actions), 0);
        assert!(matches!(actions[1], TransferAction::Finish));
        let r = result.unwrap();
        assert!(!r.success);
        assert_eq!(r.error, Some(TransferError::Validation));
        assert_eq!(r.pre_balance_sender, 0);
        assert_eq!(r.post_balance_recipient, 0);
        assert_eq!(r.amount_transferred, 0);
    }
}

#[test]
fn failed_pre_read_reports_zero_balances() {
    let err = TransferError::Network { message: "timed out".to_string() };
    let (_, result) = drive(vec![
        TransferEvent::Request(Some(5)),
        TransferEvent::Balances(Err(err.clone())),
    ]);
    let r = result.unwrap();
    assert!(!r.success);
    assert_eq!(r.error, Some(err));
    assert_eq!((r.pre_balance_sender, r.post_balance_sender), (0, 0));
}

#[test]
fn signing_failure_keeps_balances() {
    let err = TransferError::Signing { message: "bad key".to_string() };
    let (actions, result) = drive(vec![
        TransferEvent::Request(Some(5)),
        TransferEvent::Balances(Ok(pair(50, 9))),
        TransferEvent::Signed(Err(err.clone())),
    ]);
    let r = result.unwrap();
    assert_eq!(r.error, Some(err));
    assert_eq!((r.pre_balance_sender, r.post_balance_sender), (50, 50));
    assert_eq!((r.pre_balance_recipient, r.post_balance_recipient), (9, 9));
    assert_eq!(count_submits(&actions), 0);
}

#[test]
fn rejected_submission_transfers_nothing() {
    for err in [
        TransferError::RejectedByLedger { message: "blockhash not found".to_string() },
        TransferError::ConfirmationTimeout { message: "unconfirmed".to_string() },
        TransferError::Network { message: "connection reset".to_string() },
    ] {
        let (_, result) = drive(vec![
            TransferEvent::Request(Some(5)),
            TransferEvent::Balances(Ok(pair(50, 9))),
            TransferEvent::Signed(Ok(())),
            TransferEvent::Submitted(Err(err.clone())),
        ]);
        let r = result.unwrap();
        assert!(!r.success);
        assert_eq!(r.amount_transferred, 0);
        assert_eq!(r.post_balance_sender, 50);
        assert_eq!(r.error, Some(err));
    }
}

#[test]
fn failed_post_read_reports_zero_post_balances() {
    let (_, result) = drive(vec![
        TransferEvent::Request(Some(5)),
        TransferEvent::Balances(Ok(pair(50, 9))),
        TransferEvent::Signed(Ok(())),
        TransferEvent::Submitted(Ok("sig".to_string())),
        TransferEvent::Balances(Err(TransferError::Network { message: "down".to_string() })),
    ]);
    let r = result.unwrap();
    assert!(r.success);
    assert_eq!((r.pre_balance_sender, r.pre_balance_recipient), (50, 9));
    assert_eq!((r.post_balance_sender, r.post_balance_recipient), (0, 0));
    assert_eq!(r.amount_transferred, 5);
}

#[test]
fn finished_transfer_ignores_later_events() {
    let (actions, result) = drive(vec![
        TransferEvent::Request(None),
        TransferEvent::Balances(Ok(pair(50, 9))),
        TransferEvent::Signed(Ok(())),
        TransferEvent::Submitted(Ok("sig".to_string())),
    ]);
    assert_eq!(count_reads(&actions), 0);
    assert_eq!(result.unwrap().error, Some(TransferError::Validation));
}

#[test]
fn unexpected_event_is_ignored() {
    let (actions, result) = drive(vec![TransferEvent::Signed(Ok(()))]);
    assert!(matches!(actions[1], TransferAction::AwaitRequest));
    assert!(result.is_none());
}

#[test]
fn funds_check() {
    assert_eq!(SolanaService::check_funds(10, 10), Ok(()));
    assert_eq!(SolanaService::check_funds(0, 0), Ok(()));
    assert_eq!(
        SolanaService::check_funds(11, 10),
        Err(TransferError::InsufficientFunds { required: 11, available: 10 })
    );
    assert_eq!(SolanaService::check_funds(u64::MAX, u64::MAX), Ok(()));
}

#[test]
fn unit_conversion_truncates() {
    assert_eq!(lamports_of(1.0), Some(LAMPORTS_PER_UNIT));
    assert_eq!(lamports_of(0.0000000015), Some(1));
    assert_eq!(lamports_of(1e-12), Some(0));
    assert_eq!(lamports_of(2.0).map(|l| l as f64 / LAMPORTS_PER_UNIT as f64), Some(2.0));
}
