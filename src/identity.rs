//! Signing identities: an Ed25519 key pair together with its public key.
use vstd::prelude::*;
use crate::primitives::ed25519_accepts;
use ring::signature::KeyPair;

verus! {

/// An Ed25519 key pair and the 32 bytes of its public key, read from the pair
/// when the identity is made and never changed.
pub struct Identity {
    keypair: ring::signature::Ed25519KeyPair,
    public_key: Vec<u8>,
}

impl Identity {
    /// The public key is 32 bytes long.
    #[verifier::type_invariant]
    spec fn inv(&self) -> bool {
        self.public_key@.len() == 32
    }

    /// The identity's public key bytes.
    pub closed spec fn public_key_spec(&self) -> Seq<u8> {
        self.public_key@
    }

    /// The identity's public key bytes.
    pub fn public_key(&self) -> (r: &Vec<u8>)
        ensures
            r@ == self.public_key_spec(),
            r@.len() == 32,
    {
        proof {
            use_type_invariant(self);
        }
        &self.public_key
    }

    /// Relies on ring's Ed25519KeyPair::from_pkcs8 and KeyPair::public_key:
    /// the pair, with its 32 public key bytes, or nothing when the document is
    /// rejected.
    #[verifier::external_body]
    pub(crate) fn from_pkcs8(pkcs8: &Vec<u8>) -> (r: Option<Identity>)
        ensures
            r matches Some(id) ==> id.public_key_spec().len() == 32,
    {
        match ring::signature::Ed25519KeyPair::from_pkcs8(pkcs8) {
            Ok(keypair) => {
                let public_key = keypair.public_key().as_ref().to_vec();
                Some(Identity { keypair, public_key })
            },
            Err(_) => None,
        }
    }

    /// Relies on ring's Ed25519KeyPair::sign: a 64-byte signature of the
    /// message that verifies under the pair's public key.
    #[verifier::external_body]
    pub(crate) fn sign_message(&self, message: &Vec<u8>) -> (r: Vec<u8>)
        ensures
            r@.len() == 64,
            ed25519_accepts(self.public_key_spec(), message@, r@),
    {
        self.keypair.sign(message).as_ref().to_vec()
    }
}

} // verus!
