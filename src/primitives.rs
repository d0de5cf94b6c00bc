//! The calls this library makes into other crates and into parts of std that
//! carry no specification, each with the contract it is trusted to meet.
use vstd::prelude::*;
use crate::codec::hex_chars;
use crate::ledger::Blockchain;

verus! {

#[verifier::external_type_specification]
#[verifier::external_body]
pub struct ExEd25519KeyPair(ring::signature::Ed25519KeyPair);

/// The SHA-256 digest of a byte string.
pub uninterp spec fn sha256_of(data: Seq<u8>) -> Seq<u8>;

/// Whether Ed25519 accepts `signature` as a signature of `message` under the
/// 32-byte `public_key`.
pub uninterp spec fn ed25519_accepts(public_key: Seq<u8>, message: Seq<u8>, signature: Seq<u8>) -> bool;

/// The JSON text, as UTF-8 bytes, of a string value.
pub uninterp spec fn json_string_of(s: Seq<char>) -> Seq<u8>;

/// Relies on ring::digest::digest with SHA256: a 32-byte digest that depends on
/// the input alone.
#[verifier::external_body]
pub(crate) fn sha256(data: &Vec<u8>) -> (r: Vec<u8>)
    ensures
        r@ == sha256_of(data@),
        r@.len() == 32,
{
    ring::digest::digest(&ring::digest::SHA256, data).as_ref().to_vec()
}

/// Relies on hex::encode: two lowercase hexadecimal digits per byte.
#[verifier::external_body]
pub(crate) fn hex_encode(b: &Vec<u8>) -> (r: String)
    ensures
        r@ == hex_chars(b@),
{
    hex::encode(b)
}

/// Relies on serde_json::to_vec on a string, which cannot fail: the quoted and
/// escaped JSON text of the string.
#[verifier::external_body]
pub(crate) fn json_string(s: &String) -> (r: Vec<u8>)
    ensures
        r@ == json_string_of(s@),
{
    serde_json::to_vec(s.as_str()).unwrap_or_default()
}

/// Relies on ring::signature::UnparsedPublicKey::verify with ED25519: it rejects
/// a key that is not 32 bytes and a signature that is not 64 bytes, and
/// otherwise decides by the three byte strings alone.
#[verifier::external_body]
pub(crate) fn ed25519_verify(public_key: &Vec<u8>, message: &Vec<u8>, signature: &Vec<u8>) -> (r: bool)
    ensures
        r == (public_key@.len() == 32 && signature@.len() == 64 && ed25519_accepts(
            public_key@,
            message@,
            signature@,
        )),
{
    let key = ring::signature::UnparsedPublicKey::new(&ring::signature::ED25519, public_key);
    key.verify(message, signature).is_ok()
}

/// Relies on ring's Ed25519KeyPair::generate_pkcs8 with a SystemRandom: fresh
/// PKCS#8 key material, or nothing when the system source fails.
#[verifier::external_body]
pub(crate) fn ed25519_generate_pkcs8() -> (r: Option<Vec<u8>>)
{
    let rng = ring::rand::SystemRandom::new();
    ring::signature::Ed25519KeyPair::generate_pkcs8(&rng).ok().map(|d| d.as_ref().to_vec())
}

/// Relies on SystemTime::now with duration_since(UNIX_EPOCH), and on chrono's
/// DateTime::<Utc>::from_timestamp and timestamp_millis: the wall-clock time in
/// milliseconds since the Unix epoch, or nothing when the clock reads before
/// the epoch or beyond chrono's range.
#[verifier::external_body]
pub(crate) fn now_millis() -> (r: Option<u128>)
{
    let since = std::time::SystemTime::now().duration_since(std::time::UNIX_EPOCH).ok()?;
    let secs = i64::try_from(since.as_secs()).ok()?;
    let time = chrono::DateTime::<chrono::Utc>::from_timestamp(secs, since.subsec_nanos())?;
    u128::try_from(time.timestamp_millis()).ok()
}

/// Relies on rayon's find_any over the parallel range 0..=u64::MAX: some nonce
/// that the predicate accepts, or nothing only when it accepts none.
#[verifier::external_body]
pub(crate) fn par_find_nonce(last_nonce: u64, difficulty: usize) -> (r: Option<u64>)
    ensures
        r matches Some(n) ==> crate::ledger::proof_holds(last_nonce, n, difficulty),
        r is None ==> forall|n: u64| !crate::ledger::proof_holds(last_nonce, n, difficulty),
{
    let range = rayon::iter::IntoParallelIterator::into_par_iter(0..=u64::MAX);
    rayon::iter::ParallelIterator::find_any(range, |&n| Blockchain::valid_proof(last_nonce, n, difficulty))
}

} // verus!
