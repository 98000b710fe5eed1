//! Keypair lifecycle: generation of secp256k1 keypairs from a
//! cryptographically secure entropy source, and independent re-derivation of
//! the public key from the secret key.

use vstd::prelude::*;

use crate::errors::WalletError;
use crate::hex::bytes_eq;

verus! {

/// Whether a 32-byte big-endian scalar is a valid secp256k1 secret key
/// (non-zero and below the group order), exactly as
/// `secp256k1_ec_seckey_verify` decides it.
pub uninterp spec fn is_valid_secret(s: Seq<u8>) -> bool;

/// The 33-byte compressed encoding of the secp256k1 public point obtained by
/// multiplying the base point with the secret scalar `s`. A function of the
/// scalar alone.
pub uninterp spec fn pubkey_of(s: Seq<u8>) -> Seq<u8>;

/// A secp256k1 keypair: a secret scalar and the compressed encoding of its
/// paired public curve point.
#[derive(Debug)]
pub struct KeyPair {
    pub public_key: Vec<u8>,
    pub secret_key: Vec<u8>,
}

impl KeyPair {
    /// The data invariant: the secret key is a valid scalar and the public
    /// key is exactly its curve derivation.
    pub open spec fn wf(self) -> bool {
        &&& self.secret_key@.len() == 32
        &&& self.public_key@.len() == 33
        &&& is_valid_secret(self.secret_key@)
        &&& self.public_key@ == pubkey_of(self.secret_key@)
    }
}

/// Relies on `rand::rngs::OsRng` through `TryRngCore::try_fill_bytes`: 32
/// bytes drawn directly from the operating system's entropy source, or an
/// error when that source cannot be used. The bytes are random; nothing
/// beyond the length holds of every successful outcome.
#[verifier::external_body]
fn fill_entropy_32() -> (r: Result<Vec<u8>, WalletError>)
    ensures
        r matches Ok(b) ==> b@.len() == 32,
        r matches Err(e) ==> e == WalletError::EntropyError,
{
    let mut buf = [0u8; 32];
    let mut rng = secp256k1::rand::rngs::OsRng;
    match <secp256k1::rand::rngs::OsRng as secp256k1::rand::TryRngCore>::try_fill_bytes(
        &mut rng,
        &mut buf,
    ) {
        Ok(()) => Ok(buf.to_vec()),
        Err(_) => Err(WalletError::EntropyError),
    }
}

/// Relies on `secp256k1::SecretKey::from_secret_bytes` (succeeds exactly when
/// the scalar is valid) and `secp256k1::PublicKey::from_secret_key` followed
/// by its compressed `serialize`.
#[verifier::external_body]
fn derive_pubkey_bytes(sk: &Vec<u8>) -> (r: Result<Vec<u8>, WalletError>)
    requires
        sk@.len() == 32,
    ensures
        r is Ok <==> is_valid_secret(sk@),
        r matches Ok(pk) ==> pk@.len() == 33 && pk@ == pubkey_of(sk@),
        r matches Err(e) ==> e == WalletError::SigningError,
{
    let mut arr = [0u8; 32];
    arr.copy_from_slice(&sk[..]);
    match secp256k1::SecretKey::from_secret_bytes(arr) {
        Ok(secret) => Ok(secp256k1::PublicKey::from_secret_key(&secret).serialize().to_vec()),
        Err(_) => Err(WalletError::SigningError),
    }
}

/// Produces a fresh keypair from the cryptographically secure entropy
/// source, failing with `EntropyError` exactly when that source cannot be
/// used.
///
/// Scalars are drawn from the operating system until one is valid — all but
/// a vanishing fraction are — and the returned pair is well formed: the
/// public key is the curve derivation of the secret key, so re-deriving it
/// from the secret key matches.
pub fn create_keypair() -> (r: Result<KeyPair, WalletError>)
    ensures
        r matches Ok(kp) ==> kp.wf(),
        r matches Err(e) ==> e == WalletError::EntropyError,
{
    let mut attempts: usize = 0;
    while attempts < 64
        decreases 64 - attempts,
    {
        let secret_key = match fill_entropy_32() {
            Ok(secret_key) => secret_key,
            Err(e) => {
                return Err(e);
            },
        };
        match derive_pubkey_bytes(&secret_key) {
            Ok(public_key) => {
                return Ok(KeyPair { public_key, secret_key });
            },
            Err(_) => {
                // an invalid scalar: draw again, as the curve library's own
                // generator does
            },
        }
        attempts += 1;
    }
    // a source that yields no valid scalar in 64 independent draws is not a
    // usable entropy source
    Err(WalletError::EntropyError)
}

/// Re-derives the public key from `sk` and returns its compressed encoding,
/// or `SigningError` when `sk` is not a valid secret scalar.
pub fn derive_public_key(sk: &Vec<u8>) -> (r: Result<Vec<u8>, WalletError>)
    ensures
        r is Ok <==> sk@.len() == 32 && is_valid_secret(sk@),
        r matches Ok(pk) ==> pk@.len() == 33 && pk@ == pubkey_of(sk@),
        r matches Err(e) ==> e == WalletError::SigningError,
{
    if sk.len() != 32 {
        return Err(WalletError::SigningError);
    }
    derive_pubkey_bytes(sk)
}

/// Checks a keypair independently of how it was produced: the secret key must
/// be a valid scalar whose curve derivation is exactly the stored public key.
pub fn verify_keypair(kp: &KeyPair) -> (r: bool)
    ensures
        r == kp.wf(),
{
    if kp.public_key.len() != 33 {
        return false;
    }
    match derive_public_key(&kp.secret_key) {
        Ok(derived) => bytes_eq(&derived, &kp.public_key),
        Err(_) => false,
    }
}

/// Every well-formed keypair round-trips: deriving the public key from its
/// secret key yields exactly the stored public key.
pub proof fn lemma_keypair_round_trip(kp: KeyPair)
    requires
        kp.wf(),
    ensures
        kp.public_key@ == pubkey_of(kp.secret_key@),
{
}

} // verus!
