use vstd::prelude::*;

verus! {

/// Smallest units of the ledger's native asset in one unit of account.
pub const LAMPORTS_PER_UNIT: u64 = 1_000_000_000;

/// A ledger account address: the 32 bytes of its public key.
#[derive(Clone, Copy, Debug)]
pub struct Address {
    pub bytes: [u8; 32],
}

/// Balances of the sender and the recipient, in lamports, read one after the other.
#[derive(Clone, Copy, Debug, PartialEq, Eq, Structural)]
pub struct BalancePair {
    pub sender: u64,
    pub recipient: u64,
}

impl BalancePair {
    pub open spec fn zero() -> BalancePair {
        BalancePair { sender: 0, recipient: 0 }
    }
}

/// An unsigned transfer of `lamports` from `from` to `to`.
#[derive(Clone, Copy, Debug)]
pub struct TransferDirective {
    pub from: Address,
    pub to: Address,
    pub lamports: u64,
}

/// Why a transfer did not go through.
#[derive(Clone, Debug, PartialEq, Eq)]
pub enum TransferError {
    /// The requested amount was not a positive finite number.
    Validation,
    /// The sender's balance is below the lamports the transfer needs.
    InsufficientFunds { required: u64, available: u64 },
    /// A transport or RPC failure.
    Network { message: String },
    /// The sender's credential could not sign the transaction.
    Signing { message: String },
    /// The ledger refused the transaction when it was submitted.
    RejectedByLedger { message: String },
    /// The transaction was submitted but its confirmation was not observed.
    ConfirmationTimeout { message: String },
}

/// The outcome of one transfer request, with the balances around it.
#[derive(Clone, Debug)]
pub struct ReconciliationResult {
    pub success: bool,
    pub signature: Option<String>,
    pub pre_balance_sender: u64,
    pub post_balance_sender: u64,
    pub pre_balance_recipient: u64,
    pub post_balance_recipient: u64,
    pub amount_transferred: u64,
    pub error: Option<TransferError>,
}

/// Where a transfer request stands.
#[derive(Debug)]
pub enum TransferState {
    /// Nothing requested yet.
    Idle { from: Address, to: Address },
    /// The amount was accepted; the pre-transfer balances are awaited.
    Requested { from: Address, to: Address, lamports: u64 },
    /// Funds were found sufficient and the directive made; it awaits a freshness
    /// token and the sender's signature.
    Built { directive: TransferDirective, pre: BalancePair },
    /// The signed transaction awaits submission and confirmation.
    Signed { directive: TransferDirective, pre: BalancePair },
    /// The ledger confirmed the transaction; the post-transfer balances are awaited.
    Confirmed { directive: TransferDirective, pre: BalancePair, signature: String },
    /// Terminal: the transfer went through.
    Reconciled {
        directive: TransferDirective,
        pre: BalancePair,
        post: BalancePair,
        signature: String,
    },
    /// Terminal: the transfer did not go through. `pre` is absent when the
    /// pre-transfer balances were never read.
    Failed { pre: Option<BalancePair>, error: TransferError },
}

/// What the ledger side reported back for the outside work last asked for.
#[derive(Debug)]
pub enum TransferEvent {
    /// A transfer of this many lamports was requested; `None` when the requested
    /// amount was not a positive finite number.
    Request(Option<u64>),
    /// Outcome of reading the two balances.
    Balances(Result<BalancePair, TransferError>),
    /// Outcome of fetching a freshness token and signing the directive.
    Signed(Result<(), TransferError>),
    /// Outcome of submitting the signed transaction and awaiting its confirmation;
    /// the transaction signature on success.
    Submitted(Result<String, TransferError>),
}

/// The outside work that the transfer waits on.
#[derive(Clone, Copy, Debug)]
pub enum TransferAction {
    /// Wait for a transfer request.
    AwaitRequest,
    /// Read the sender's and the recipient's balances.
    ReadBalances,
    /// Fetch a freshness token and sign this directive with the sender's credential.
    Sign(TransferDirective),
    /// Submit the signed transaction and wait for its confirmation.
    Submit,
    /// Nothing: the transfer is finished.
    Finish,
}

/// The transition taken on `e` in state `s`. An event that the state does not
/// wait for leaves it as it is.
pub open spec fn next_state(s: TransferState, e: TransferEvent) -> TransferState {
    match (s, e) {
        (TransferState::Idle { from, to }, TransferEvent::Request(amount)) => match amount {
            Some(lamports) => TransferState::Requested { from, to, lamports },
            None => TransferState::Failed { pre: None, error: TransferError::Validation },
        },
        (TransferState::Requested { from, to, lamports }, TransferEvent::Balances(read)) => match read {
            Ok(pre) => if pre.sender < lamports {
                TransferState::Failed {
                    pre: Some(pre),
                    error: TransferError::InsufficientFunds { required: lamports, available: pre.sender },
                }
            } else {
                TransferState::Built { directive: TransferDirective { from, to, lamports }, pre }
            },
            Err(error) => TransferState::Failed { pre: None, error },
        },
        (TransferState::Built { directive, pre }, TransferEvent::Signed(signed)) => match signed {
            Ok(()) => TransferState::Signed { directive, pre },
            Err(error) => TransferState::Failed { pre: Some(pre), error },
        },
        (TransferState::Signed { directive, pre }, TransferEvent::Submitted(sent)) => match sent {
            Ok(signature) => TransferState::Confirmed { directive, pre, signature },
            Err(error) => TransferState::Failed { pre: Some(pre), error },
        },
        (TransferState::Confirmed { directive, pre, signature }, TransferEvent::Balances(read)) => {
            TransferState::Reconciled {
                directive,
                pre,
                post: match read {
                    Ok(post) => post,
                    Err(_) => BalancePair::zero(),
                },
                signature,
            }
        },
        (s, _) => s,
    }
}

/// The outside work that state `s` waits on.
pub open spec fn pending(s: TransferState) -> TransferAction {
    match s {
        TransferState::Idle { .. } => TransferAction::AwaitRequest,
        TransferState::Requested { .. } => TransferAction::ReadBalances,
        TransferState::Built { directive, .. } => TransferAction::Sign(directive),
        TransferState::Signed { .. } => TransferAction::Submit,
        TransferState::Confirmed { .. } => TransferAction::ReadBalances,
        TransferState::Reconciled { .. } => TransferAction::Finish,
        TransferState::Failed { .. } => TransferAction::Finish,
    }
}

/// The result a finished transfer reports; `None` while it is under way.
pub open spec fn outcome(s: TransferState) -> Option<ReconciliationResult> {
    match s {
        TransferState::Reconciled { directive, pre, post, signature } => Some(
            ReconciliationResult {
                success: true,
                signature: Some(signature),
                pre_balance_sender: pre.sender,
                post_balance_sender: post.sender,
                pre_balance_recipient: pre.recipient,
                post_balance_recipient: post.recipient,
                amount_transferred: directive.lamports,
                error: None,
            },
        ),
        TransferState::Failed { pre, error } => {
            let p = match pre {
                Some(p) => p,
                None => BalancePair::zero(),
            };
            Some(
                ReconciliationResult {
                    success: false,
                    signature: None,
                    pre_balance_sender: p.sender,
                    post_balance_sender: p.sender,
                    pre_balance_recipient: p.recipient,
                    post_balance_recipient: p.recipient,
                    amount_transferred: 0,
                    error: Some(error),
                },
            )
        },
        _ => None,
    }
}

/// The state reached from `s` by taking the events of `es` in order.
pub open spec fn run(s: TransferState, es: Seq<TransferEvent>) -> TransferState
    decreases es.len(),
{
    if es.len() == 0 {
        s
    } else {
        run(next_state(s, es[0]), es.drop_first())
    }
}

/// Whether a state is finished: it reports a result and waits on nothing.
pub open spec fn is_terminal(s: TransferState) -> bool {
    s is Reconciled || s is Failed
}

/// A finished transfer stays as it is, whatever events come after.
pub proof fn lemma_terminal_absorbs(s: TransferState, es: Seq<TransferEvent>)
    requires
        is_terminal(s),
    ensures
        run(s, es) == s,
    decreases es.len(),
{
    if es.len() > 0 {
        lemma_terminal_absorbs(next_state(s, es[0]), es.drop_first());
    }
}

/// A failed transfer reports no transfer: its balances after equal its balances
/// before and the amount transferred is zero.
pub proof fn lemma_failure_leaves_balances(s: TransferState)
    requires
        outcome(s) is Some,
        !outcome(s)->Some_0.success,
    ensures
        outcome(s)->Some_0.post_balance_sender == outcome(s)->Some_0.pre_balance_sender,
        outcome(s)->Some_0.post_balance_recipient == outcome(s)->Some_0.pre_balance_recipient,
        outcome(s)->Some_0.amount_transferred == 0,
        outcome(s)->Some_0.signature is None,
        outcome(s)->Some_0.error is Some,
{
}

/// A rejected amount ends the transfer at once, before any balance is read:
/// the result is a validation failure with zero balances, and no later event
/// leads to a ledger call.
pub proof fn lemma_invalid_amount_rejected(from: Address, to: Address, es: Seq<TransferEvent>)
    ensures
        ({
            let s = next_state(TransferState::Idle { from, to }, TransferEvent::Request(None));
            &&& s == (TransferState::Failed { pre: None, error: TransferError::Validation })
            &&& pending(s) == TransferAction::Finish
            &&& run(s, es) == s
            &&& outcome(s) == Some(
                ReconciliationResult {
                    success: false,
                    signature: None,
                    pre_balance_sender: 0,
                    post_balance_sender: 0,
                    pre_balance_recipient: 0,
                    post_balance_recipient: 0,
                    amount_transferred: 0,
                    error: Some(TransferError::Validation),
                },
            )
        }),
{
    let s = next_state(TransferState::Idle { from, to }, TransferEvent::Request(None));
    lemma_terminal_absorbs(s, es);
}

/// A transfer larger than the sender's balance fails with an insufficient-funds
/// error that carries both amounts, reports the balances unchanged, and is never
/// submitted to the ledger, whatever events come after.
pub proof fn lemma_insufficient_funds_never_submitted(
    from: Address,
    to: Address,
    lamports: u64,
    pre: BalancePair,
    es: Seq<TransferEvent>,
)
    requires
        pre.sender < lamports,
    ensures
        ({
            let s = next_state(
                TransferState::Requested { from, to, lamports },
                TransferEvent::Balances(Ok(pre)),
            );
            &&& forall|i: int|
                0 <= i <= es.len() ==> #[trigger] pending(run(s, es.take(i)))
                    == TransferAction::Finish
            &&& outcome(run(s, es)) == Some(
                ReconciliationResult {
                    success: false,
                    signature: None,
                    pre_balance_sender: pre.sender,
                    post_balance_sender: pre.sender,
                    pre_balance_recipient: pre.recipient,
                    post_balance_recipient: pre.recipient,
                    amount_transferred: 0,
                    error: Some(
                        TransferError::InsufficientFunds { required: lamports, available: pre.sender },
                    ),
                },
            )
        }),
{
    let s = next_state(TransferState::Requested { from, to, lamports }, TransferEvent::Balances(Ok(pre)));
    assert forall|i: int| 0 <= i <= es.len() implies #[trigger] pending(run(s, es.take(i)))
        == TransferAction::Finish by {
        lemma_terminal_absorbs(s, es.take(i));
    }
    lemma_terminal_absorbs(s, es);
}

/// Whether every directive held by `s` is covered by the sender's balance read
/// before it was made.
pub open spec fn funds_checked(s: TransferState) -> bool {
    match s {
        TransferState::Built { directive, pre } => directive.lamports <= pre.sender,
        TransferState::Signed { directive, pre } => directive.lamports <= pre.sender,
        TransferState::Confirmed { directive, pre, .. } => directive.lamports <= pre.sender,
        TransferState::Reconciled { directive, pre, .. } => directive.lamports <= pre.sender,
        _ => true,
    }
}

proof fn lemma_run_keeps_funds_checked(s: TransferState, es: Seq<TransferEvent>)
    requires
        funds_checked(s),
    ensures
        funds_checked(run(s, es)),
    decreases es.len(),
{
    if es.len() > 0 {
        lemma_run_keeps_funds_checked(next_state(s, es[0]), es.drop_first());
    }
}

/// Whatever the ledger side reports, in whatever order, a transfer that reports
/// success moved no more lamports than the sender held before it, and carries a
/// signature and no error.
pub proof fn lemma_success_is_covered(from: Address, to: Address, es: Seq<TransferEvent>)
    ensures
        ({
            let r = outcome(run(TransferState::Idle { from, to }, es));
            r is Some && r->Some_0.success ==> {
                &&& r->Some_0.amount_transferred <= r->Some_0.pre_balance_sender
                &&& r->Some_0.signature is Some
                &&& r->Some_0.error is None
            }
        }),
{
    lemma_run_keeps_funds_checked(TransferState::Idle { from, to }, es);
}

/// Whether every account named by `s` is `from` as sender and `to` as recipient.
pub open spec fn routed(s: TransferState, from: Address, to: Address) -> bool {
    match s {
        TransferState::Idle { from: f, to: t } => f == from && t == to,
        TransferState::Requested { from: f, to: t, .. } => f == from && t == to,
        TransferState::Built { directive, .. } => directive.from == from && directive.to == to,
        TransferState::Signed { directive, .. } => directive.from == from && directive.to == to,
        TransferState::Confirmed { directive, .. } => directive.from == from && directive.to == to,
        TransferState::Reconciled { directive, .. } => directive.from == from && directive.to == to,
        TransferState::Failed { .. } => true,
    }
}

proof fn lemma_run_keeps_routed(s: TransferState, from: Address, to: Address, es: Seq<TransferEvent>)
    requires
        routed(s, from, to),
    ensures
        routed(run(s, es), from, to),
    decreases es.len(),
{
    if es.len() > 0 {
        lemma_run_keeps_routed(next_state(s, es[0]), from, to, es.drop_first());
    }
}

/// Whatever the ledger side reports, a transfer created for `from` and `to` only
/// ever asks to sign a directive from `from` to `to`, for the lamports that the
/// sender's balance read before it covers.
pub proof fn lemma_signs_only_own_route(from: Address, to: Address, es: Seq<TransferEvent>)
    ensures
        ({
            let s = run(TransferState::Idle { from, to }, es);
            s is Built ==> {
                &&& pending(s) == TransferAction::Sign(s->Built_directive)
                &&& s->Built_directive.from == from
                &&& s->Built_directive.to == to
                &&& s->Built_directive.lamports <= s->Built_pre.sender
            }
        }),
{
    lemma_run_keeps_routed(TransferState::Idle { from, to }, from, to, es);
    lemma_run_keeps_funds_checked(TransferState::Idle { from, to }, es);
}

/// A positive amount that the sender's balance covers goes all the way through
/// when each step on the ledger side succeeds: the result is a success that
/// carries the ledger's signature, the balances read before and after, and the
/// requested lamports as the amount transferred.
pub proof fn lemma_covered_transfer_succeeds(
    from: Address,
    to: Address,
    lamports: u64,
    pre: BalancePair,
    post: BalancePair,
    signature: String,
)
    requires
        lamports <= pre.sender,
    ensures
        ({
            let es = seq![
                TransferEvent::Request(Some(lamports)),
                TransferEvent::Balances(Ok(pre)),
                TransferEvent::Signed(Ok(())),
                TransferEvent::Submitted(Ok(signature)),
                TransferEvent::Balances(Ok(post)),
            ];
            outcome(run(TransferState::Idle { from, to }, es)) == Some(
                ReconciliationResult {
                    success: true,
                    signature: Some(signature),
                    pre_balance_sender: pre.sender,
                    post_balance_sender: post.sender,
                    pre_balance_recipient: pre.recipient,
                    post_balance_recipient: post.recipient,
                    amount_transferred: lamports,
                    error: None,
                },
            )
        }),
{
    let es = seq![
        TransferEvent::Request(Some(lamports)),
        TransferEvent::Balances(Ok(pre)),
        TransferEvent::Signed(Ok(())),
        TransferEvent::Submitted(Ok(signature)),
        TransferEvent::Balances(Ok(post)),
    ];
    let s0 = TransferState::Idle { from, to };
    let s1 = next_state(s0, es[0]);
    let s2 = next_state(s1, es[1]);
    let s3 = next_state(s2, es[2]);
    let s4 = next_state(s3, es[3]);
    let s5 = next_state(s4, es[4]);
    assert(es.drop_first() =~= seq![es[1], es[2], es[3], es[4]]);
    assert(es.drop_first().drop_first() =~= seq![es[2], es[3], es[4]]);
    assert(es.drop_first().drop_first().drop_first() =~= seq![es[3], es[4]]);
    assert(es.drop_first().drop_first().drop_first().drop_first() =~= seq![es[4]]);
    assert(es.drop_first().drop_first().drop_first().drop_first().drop_first() =~= Seq::<
        TransferEvent,
    >::empty());
    assert(run(s5, Seq::<TransferEvent>::empty()) == s5);
    assert(run(s4, seq![es[4]]) == s5);
    assert(run(s3, seq![es[3], es[4]]) == s5);
    assert(run(s2, seq![es[2], es[3], es[4]]) == s5);
    assert(run(s1, seq![es[1], es[2], es[3], es[4]]) == s5);
    assert(run(s0, es) == s5);
}

/// The ledger-facing service of the wallet: the checks it makes before any
/// ledger state is touched.
pub struct SolanaService;

impl SolanaService {
    /// Whether a balance of `available` lamports covers a transfer of `required`.
    pub fn check_funds(required: u64, available: u64) -> (r: Result<(), TransferError>)
        ensures
            r is Ok <==> required <= available,
            r is Err ==> r == Err::<(), TransferError>(
                TransferError::InsufficientFunds { required, available },
            ),
    {
        if available < required {
            Err(TransferError::InsufficientFunds { required, available })
        } else {
            Ok(())
        }
    }
}

impl TransferState {
    /// A transfer from `from` to `to` that has not been requested yet.
    pub fn new(from: Address, to: Address) -> (r: TransferState)
        ensures
            r == (TransferState::Idle { from, to }),
    {
        TransferState::Idle { from, to }
    }

    /// Takes the transition on `e`.
    pub fn step(self, e: TransferEvent) -> (r: TransferState)
        ensures
            r == next_state(self, e),
    {
        match (self, e) {
            (TransferState::Idle { from, to }, TransferEvent::Request(amount)) => match amount {
                Some(lamports) => TransferState::Requested { from, to, lamports },
                None => TransferState::Failed { pre: None, error: TransferError::Validation },
            },
            (TransferState::Requested { from, to, lamports }, TransferEvent::Balances(read)) => {
                match read {
                    Ok(pre) => match SolanaService::check_funds(lamports, pre.sender) {
                        Ok(()) => TransferState::Built {
                            directive: TransferDirective { from, to, lamports },
                            pre,
                        },
                        Err(error) => TransferState::Failed { pre: Some(pre), error },
                    },
                    Err(error) => TransferState::Failed { pre: None, error },
                }
            },
            (TransferState::Built { directive, pre }, TransferEvent::Signed(signed)) => match signed {
                Ok(()) => TransferState::Signed { directive, pre },
                Err(error) => TransferState::Failed { pre: Some(pre), error },
            },
            (TransferState::Signed { directive, pre }, TransferEvent::Submitted(sent)) => match sent {
                Ok(signature) => TransferState::Confirmed { directive, pre, signature },
                Err(error) => TransferState::Failed { pre: Some(pre), error },
            },
            (TransferState::Confirmed { directive, pre, signature }, TransferEvent::Balances(read)) => {
                let post = match read {
                    Ok(post) => post,
                    Err(_) => BalancePair { sender: 0, recipient: 0 },
                };
                TransferState::Reconciled { directive, pre, post, signature }
            },
            (s, _) => s,
        }
    }

    /// The outside work this state waits on.
    pub fn action(&self) -> (r: TransferAction)
        ensures
            r == pending(*self),
    {
        match self {
            TransferState::Idle { .. } => TransferAction::AwaitRequest,
            TransferState::Requested { .. } => TransferAction::ReadBalances,
            TransferState::Built { directive, .. } => TransferAction::Sign(*directive),
            TransferState::Signed { .. } => TransferAction::Submit,
            TransferState::Confirmed { .. } => TransferAction::ReadBalances,
            TransferState::Reconciled { .. } => TransferAction::Finish,
            TransferState::Failed { .. } => TransferAction::Finish,
        }
    }

    /// The result of a finished transfer; `None` while it is under way.
    pub fn into_result(self) -> (r: Option<ReconciliationResult>)
        ensures
            r == outcome(self),
    {
        match self {
            TransferState::Reconciled { directive, pre, post, signature } => Some(
                ReconciliationResult {
                    success: true,
                    signature: Some(signature),
                    pre_balance_sender: pre.sender,
                    post_balance_sender: post.sender,
                    pre_balance_recipient: pre.recipient,
                    post_balance_recipient: post.recipient,
                    amount_transferred: directive.lamports,
                    error: None,
                },
            ),
            TransferState::Failed { pre, error } => {
                let p = match pre {
                    Some(p) => p,
                    None => BalancePair { sender: 0, recipient: 0 },
                };
                Some(
                    ReconciliationResult {
                        success: false,
                        signature: None,
                        pre_balance_sender: p.sender,
                        post_balance_sender: p.sender,
                        pre_balance_recipient: p.recipient,
                        post_balance_recipient: p.recipient,
                        amount_transferred: 0,
                        error: Some(error),
                    },
                )
            },
            _ => None,
        }
    }
}

} // verus!
