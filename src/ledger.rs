use vstd::prelude::*;
use solana_sdk::pubkey::Pubkey;
use solana_sdk::signer::keypair::Keypair;
use solana_sdk::signer::{Signer, SignerError};
#[allow(deprecated)]
use solana_sdk::transaction::Transaction;
use crate::transfer::{Address, TransferDirective, TransferError};

verus! {

#[verifier::external_type_specification]
#[verifier::external_body]
pub struct ExKeypair(Keypair);

#[verifier::external_type_specification]
#[verifier::external_body]
pub struct ExTransaction(Transaction);

#[verifier::external_type_specification]
#[verifier::external_body]
pub struct ExSignerError(SignerError);

/// The address of a keypair: the 32 bytes of its public key.
pub uninterp spec fn key_address(keypair: Keypair) -> Seq<u8>;

/// The base58 text of a sequence of bytes, as the ledger's tools print addresses.
pub uninterp spec fn base58_of(bytes: Seq<u8>) -> Seq<char>;

/// Relies on solana_sdk's `Signer::pubkey` for a keypair, and `Pubkey::to_bytes`:
/// the address of the keypair's public key.
#[verifier::external_body]
fn address_of(keypair: &Keypair) -> (r: Address)
    ensures
        r.bytes@ == key_address(*keypair),
{
    Address { bytes: keypair.pubkey().to_bytes() }
}

/// Relies on the `Display` of solana_sdk's `Pubkey`: the base58 text of its bytes.
#[verifier::external_body]
fn address_text(address: &Address) -> (r: String)
    ensures
        r@ == base58_of(address.bytes@),
{
    Pubkey::new_from_array(address.bytes).to_string()
}

/// The transfer transaction that `keypair` signs: one system-program transfer of
/// `lamports` from the account `from` to the account `to`, paid by `from`, made
/// against the block hash `token`. Signing is deterministic, so the transaction
/// depends on these values alone.
pub uninterp spec fn signed_transfer_of(keypair: Keypair, from: Seq<u8>, to: Seq<u8>, lamports: u64, token: Seq<u8>) -> Transaction;

/// Relies on solana_sdk's `system_instruction::transfer`, `Transaction::new_with_payer`
/// and `Transaction::try_sign`: builds one transfer instruction, puts it in a
/// transaction paid by `from` and signs that with `keypair` against `token`.
/// The only signer such a transaction requires is `from`, so a keypair whose
/// address is `from` always signs it; another keypair is refused.
#[verifier::external_body]
#[allow(deprecated)]
fn signed_transfer(keypair: &Keypair, from: &Address, to: &Address, lamports: u64, token: [u8; 32]) -> (r:
    Result<Transaction, SignerError>)
    ensures
        key_address(*keypair) == from.bytes@ ==> r is Ok,
        r is Ok ==> r->Ok_0 == signed_transfer_of(*keypair, from.bytes@, to.bytes@, lamports, token@),
{
    let payer = Pubkey::new_from_array(from.bytes);
    let ix = solana_sdk::system_instruction::transfer(&payer, &Pubkey::new_from_array(to.bytes), lamports);
    let mut tx = Transaction::new_with_payer(&[ix], Some(&payer));
    tx.try_sign(&[keypair], solana_sdk::hash::Hash::new_from_array(token)).map(|()| tx)
}

/// Relies on the `Display` of solana_sdk's `SignerError`: its message.
#[verifier::external_body]
fn signer_error_text(e: &SignerError) -> (r: String) {
    e.to_string()
}

/// The two accounts of the wallet: the sender, whose credential signs, and the
/// recipient, of which only the address is used.
#[derive(Clone, Copy, Debug)]
pub struct Accounts {
    pub sender: Address,
    pub recipient: Address,
}

impl Accounts {
    /// The addresses of the two keypairs.
    pub fn of(sender: &Keypair, recipient: &Keypair) -> (r: Accounts)
        ensures
            r.sender.bytes@ == key_address(*sender),
            r.recipient.bytes@ == key_address(*recipient),
    {
        Accounts { sender: address_of(sender), recipient: address_of(recipient) }
    }

    /// The base58 text of the sender's address.
    pub fn sender_text(&self) -> (r: String)
        ensures
            r@ == base58_of(self.sender.bytes@),
    {
        address_text(&self.sender)
    }

    /// The base58 text of the recipient's address.
    pub fn recipient_text(&self) -> (r: String)
        ensures
            r@ == base58_of(self.recipient.bytes@),
    {
        address_text(&self.recipient)
    }
}

/// Builds the transaction that carries `directive`, paid by its sender, and signs
/// it with `keypair` against the freshness token `token` (the bytes of a recent
/// block hash). The sender's own keypair always signs; a credential that cannot
/// sign gives a signing error.
pub fn sign_transfer(keypair: &Keypair, directive: &TransferDirective, token: [u8; 32]) -> (r: Result<
    Transaction,
    TransferError,
>)
    ensures
        key_address(*keypair) == directive.from.bytes@ ==> r is Ok,
        r is Ok ==> r->Ok_0 == signed_transfer_of(
            *keypair,
            directive.from.bytes@,
            directive.to.bytes@,
            directive.lamports,
            token@,
        ),
        r is Err ==> r->Err_0 is Signing,
{
    match signed_transfer(keypair, &directive.from, &directive.to, directive.lamports, token) {
        Ok(tx) => Ok(tx),
        Err(e) => Err(TransferError::Signing { message: signer_error_text(&e) }),
    }
}

} // verus!
