//! Value-transfer records and their Ed25519 signatures.
use vstd::prelude::*;
use crate::codec::{le_bytes, push_bytes, push_le_bytes};
use crate::identity::Identity;
use crate::primitives::{ed25519_accepts, ed25519_verify};

verus! {

/// A transfer of `amount` from `sender` to `receiver`, both raw public keys,
/// with a signature over `sender ∥ receiver ∥ amount` (little-endian).
#[derive(Debug, Clone)]
pub struct Transaction {
    pub sender: Vec<u8>,
    pub receiver: Vec<u8>,
    pub amount: u64,
    pub signature: Vec<u8>,
}

/// The canonical message that a transaction's signature covers.
pub open spec fn signing_message(sender: Seq<u8>, receiver: Seq<u8>, amount: u64) -> Seq<u8> {
    sender + receiver + le_bytes(amount as nat, 8)
}

/// Whether `signature` is an Ed25519 signature of `message` under `public_key`.
pub open spec fn signature_accepted(public_key: Seq<u8>, message: Seq<u8>, signature: Seq<u8>) -> bool {
    public_key.len() == 32 && signature.len() == 64 && ed25519_accepts(public_key, message, signature)
}

impl Transaction {
    /// The message that this transaction's signature covers.
    pub open spec fn message(&self) -> Seq<u8> {
        signing_message(self.sender@, self.receiver@, self.amount)
    }

    /// Whether the stored signature verifies under `public_key`.
    pub open spec fn verifies_under(&self, public_key: Seq<u8>) -> bool {
        signature_accepted(public_key, self.message(), self.signature@)
    }

    /// A transaction valid for admission: signed by its own sender.
    pub open spec fn self_signed(&self) -> bool {
        self.verifies_under(self.sender@)
    }

    /// An unsigned transaction.
    pub fn new(sender: Vec<u8>, receiver: Vec<u8>, amount: u64) -> (r: Transaction)
        ensures
            r.sender == sender,
            r.receiver == receiver,
            r.amount == amount,
            r.signature@.len() == 0,
    {
        Transaction { sender, receiver, amount, signature: Vec::new() }
    }

    /// Signs the transaction as `identity`, replacing any earlier signature.
    pub fn sign(&mut self, identity: &Identity)
        ensures
            final(self).sender == old(self).sender,
            final(self).receiver == old(self).receiver,
            final(self).amount == old(self).amount,
            final(self).signature@.len() == 64,
            final(self).verifies_under(identity.public_key_spec()),
    {
        let message = self.get_message_for_signing();
        self.signature = identity.sign_message(&message);
        let signer = identity.public_key();
        assert(signer@ == identity.public_key_spec() && signer@.len() == 32);
    }

    /// Whether the stored signature verifies under `public_key`; false for an
    /// absent or malformed signature.
    pub fn verify_signature(&self, public_key: &Vec<u8>) -> (r: bool)
        ensures
            r == self.verifies_under(public_key@),
    {
        let message = self.get_message_for_signing();
        ed25519_verify(public_key, &message, &self.signature)
    }

    /// `sender ∥ receiver ∥ amount` with the amount in 8 little-endian bytes.
    pub fn get_message_for_signing(&self) -> (r: Vec<u8>)
        ensures
            r@ == self.message(),
    {
        let mut data: Vec<u8> = Vec::new();
        push_bytes(&mut data, self.sender.as_slice());
        push_bytes(&mut data, self.receiver.as_slice());
        push_le_bytes(&mut data, self.amount, 8);
        data
    }
}

/// A transaction whose signature is absent, or not exactly 64 bytes long,
/// verifies under no key.
pub proof fn lemma_unsigned_never_verifies(tx: Transaction, public_key: Seq<u8>)
    requires
        tx.signature@.len() != 64,
    ensures
        !tx.verifies_under(public_key),
{
}

/// Signing as an identity whose public key is the sender makes the
/// transaction pass verification under its sender.
pub proof fn lemma_signed_by_sender_verifies(before: Transaction, after: Transaction, identity: Identity)
    requires
        after.sender == before.sender,
        after.receiver == before.receiver,
        after.amount == before.amount,
        after.verifies_under(identity.public_key_spec()),
        identity.public_key_spec() == before.sender@,
    ensures
        after.self_signed(),
{
}

} // verus!
