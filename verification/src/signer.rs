//! Transaction signing: a deterministic ECDSA signature over the digest of
//! the canonical transaction encoding, verifiable against the paired public
//! key. Broadcasting the signed payload is the caller's side of the split:
//! it is network transport and stays outside the library.

use vstd::prelude::*;

use crate::errors::WalletError;
use crate::keypair::{is_valid_secret, pubkey_of};
use crate::transaction::{tx_encoding, TransactionRequest};

verus! {

/// The 32-byte SHA-256 digest of a byte sequence: a function of the bytes
/// alone.
pub uninterp spec fn sha256_of(data: Seq<u8>) -> Seq<u8>;

/// The 64-byte compact encoding of the deterministic (RFC 6979) ECDSA
/// signature over the 32-byte `digest` with secret scalar `sk`: a function
/// of its two arguments alone.
pub uninterp spec fn ecdsa_sig_of(digest: Seq<u8>, sk: Seq<u8>) -> Seq<u8>;

/// Whether `sig` is a well-formed compact ECDSA signature that verifies over
/// the 32-byte `digest` under the public key encoding `pk` (compressed or
/// uncompressed); a malformed `sig` or `pk` validates nothing.
pub uninterp spec fn ecdsa_sig_valid(digest: Seq<u8>, sig: Seq<u8>, pk: Seq<u8>) -> bool;

/// Relies on `sha2::Sha256::digest`: the SHA-256 digest, 32 bytes for any
/// input.
#[verifier::external_body]
fn sha256_digest(data: &Vec<u8>) -> (r: Vec<u8>)
    ensures
        r@ == sha256_of(data@),
        r@.len() == 32,
{
    <sha2::Sha256 as sha2::Digest>::digest(data).to_vec()
}

/// Relies on `secp256k1::SecretKey::from_secret_bytes` (succeeds exactly
/// when the scalar is valid) and `secp256k1::ecdsa::sign` with
/// `Message::from_digest`: a deterministic RFC 6979 signature, serialized
/// compact as 64 bytes, which `secp256k1::ecdsa::verify` accepts under the
/// public key derived from the same secret key.
#[verifier::external_body]
fn sign_digest(digest: &Vec<u8>, sk: &Vec<u8>) -> (r: Result<Vec<u8>, WalletError>)
    requires
        digest@.len() == 32,
        sk@.len() == 32,
    ensures
        r is Ok <==> is_valid_secret(sk@),
        r matches Ok(sig) ==> sig@ == ecdsa_sig_of(digest@, sk@) && sig@.len() == 64
            && ecdsa_sig_valid(digest@, sig@, pubkey_of(sk@)),
        r matches Err(e) ==> e == WalletError::SigningError,
{
    let mut arr = [0u8; 32];
    arr.copy_from_slice(&sk[..]);
    let secret = match secp256k1::SecretKey::from_secret_bytes(arr) {
        Ok(secret) => secret,
        Err(_) => return Err(WalletError::SigningError),
    };
    let mut d = [0u8; 32];
    d.copy_from_slice(&digest[..]);
    let msg = secp256k1::Message::from_digest(d);
    Ok(secp256k1::ecdsa::sign(msg, &secret).serialize_compact().to_vec())
}

/// Relies on `secp256k1::ecdsa::verify` with `Signature::from_compact`,
/// `PublicKey::from_slice` and `Message::from_digest`: true exactly when
/// `sig` and `pk` parse and the signature verifies over the digest.
#[verifier::external_body]
fn verify_digest_signature(digest: &Vec<u8>, sig: &Vec<u8>, pk: &Vec<u8>) -> (r: bool)
    requires
        digest@.len() == 32,
    ensures
        r == ecdsa_sig_valid(digest@, sig@, pk@),
{
    let parsed_sig = match secp256k1::ecdsa::Signature::from_compact(&sig[..]) {
        Ok(parsed_sig) => parsed_sig,
        Err(_) => return false,
    };
    let parsed_pk = match secp256k1::PublicKey::from_slice(&pk[..]) {
        Ok(parsed_pk) => parsed_pk,
        Err(_) => return false,
    };
    let mut d = [0u8; 32];
    d.copy_from_slice(&digest[..]);
    let msg = secp256k1::Message::from_digest(d);
    secp256k1::ecdsa::verify(&parsed_sig, msg, &parsed_pk).is_ok()
}

/// Signs a transfer request with a secret key.
///
/// Succeeds exactly when the secret key is a valid 32-byte scalar, and then
/// returns the deterministic signature over the digest of the canonical
/// transaction encoding; that signature is valid under the public key
/// derived from the same secret key. A malformed secret key gives
/// `SigningError`.
pub fn sign_transaction(request: &TransactionRequest, secret_key: &Vec<u8>) -> (r: Result<
    Vec<u8>,
    WalletError,
>)
    ensures
        r is Ok <==> secret_key@.len() == 32 && is_valid_secret(secret_key@),
        r matches Ok(sig) ==> sig@ == ecdsa_sig_of(
            sha256_of(tx_encoding(*request)),
            secret_key@,
        ) && sig@.len() == 64 && ecdsa_sig_valid(
            sha256_of(tx_encoding(*request)),
            sig@,
            pubkey_of(secret_key@),
        ),
        r matches Err(e) ==> e == WalletError::SigningError,
{
    if secret_key.len() != 32 {
        return Err(WalletError::SigningError);
    }
    let encoded = crate::transaction::encode_transaction(request);
    let digest = sha256_digest(&encoded);
    sign_digest(&digest, secret_key)
}

/// Checks a signature over a transfer request against a public key.
pub fn verify_transaction_signature(
    request: &TransactionRequest,
    sig: &Vec<u8>,
    pk: &Vec<u8>,
) -> (r: bool)
    ensures
        r == ecdsa_sig_valid(sha256_of(tx_encoding(*request)), sig@, pk@),
{
    let encoded = crate::transaction::encode_transaction(request);
    let digest = sha256_digest(&encoded);
    verify_digest_signature(&digest, sig, pk)
}

/// Signing is deterministic: any two signatures produced for the same
/// transfer request with the same secret key are the same signature.
pub proof fn lemma_signing_deterministic(
    request: TransactionRequest,
    sk: Seq<u8>,
    sig1: Seq<u8>,
    sig2: Seq<u8>,
)
    requires
        sig1 == ecdsa_sig_of(sha256_of(tx_encoding(request)), sk),
        sig2 == ecdsa_sig_of(sha256_of(tx_encoding(request)), sk),
    ensures
        sig1 == sig2,
{
}

} // verus!
