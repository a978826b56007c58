//! Key encapsulation to a recipient's Kyber-1024 public key.

use crate::error::ErrorKind;
use pqcrypto_kyber::kyber1024::PublicKey;
use vstd::prelude::*;

verus! {

/// Length of a Kyber-1024 public key in bytes.
pub const PUBLIC_KEY_BYTES: usize = 1568;

/// Length of a Kyber-1024 ciphertext in bytes.
pub const KEM_CIPHERTEXT_BYTES: usize = 1568;

/// Length of the shared secret in bytes.
pub const SHARED_SECRET_BYTES: usize = 32;

/// A Kyber-1024 public key as the KEM holds it.
#[verifier::external_type_specification]
#[verifier::external_body]
pub struct ExPublicKey(PublicKey);

/// The reason the KEM gives for refusing key bytes.
#[verifier::external_type_specification]
#[verifier::external_body]
pub struct ExKeyError(pqcrypto_traits::Error);

/// Calls `from_bytes` of `pqcrypto_traits::kem::PublicKey` for the
/// Kyber-1024 key. It accepts a slice exactly when the slice has the
/// length of a public key, and looks at nothing else.
#[verifier::external_body]
fn public_key_from_bytes(bytes: &[u8]) -> (parsed: Result<PublicKey, pqcrypto_traits::Error>)
    ensures
        parsed is Ok <==> bytes@.len() == PUBLIC_KEY_BYTES,
{
    pqcrypto_traits::kem::PublicKey::from_bytes(bytes)
}

/// Calls `pqcrypto_kyber::kyber1024::encapsulate` and hands out the shared
/// secret and the ciphertext as bytes, in that order. The KEM draws fresh
/// randomness on every call, so only the two lengths are claimed. The call
/// does not return when the system's random source fails.
#[verifier::external_body]
fn kyber_encapsulate(key: &PublicKey) -> (out: (Vec<u8>, Vec<u8>))
    ensures
        out.0@.len() == SHARED_SECRET_BYTES,
        out.1@.len() == KEM_CIPHERTEXT_BYTES,
{
    let (secret, ciphertext) = pqcrypto_kyber::kyber1024::encapsulate(key);
    (
        pqcrypto_traits::kem::SharedSecret::as_bytes(&secret).to_vec(),
        pqcrypto_traits::kem::Ciphertext::as_bytes(&ciphertext).to_vec(),
    )
}

/// What one encapsulation yields.
pub struct Encapsulation {
    /// What the recipient needs to recover the shared secret.
    pub kem_ciphertext: Vec<u8>,
    /// The secret shared with the recipient. It is used for one operation
    /// and never again.
    pub shared_secret: Vec<u8>,
}

impl Encapsulation {
    /// Both parts have the length the KEM gives them.
    pub open spec fn wf(&self) -> bool {
        &&& self.kem_ciphertext@.len() == KEM_CIPHERTEXT_BYTES
        &&& self.shared_secret@.len() == SHARED_SECRET_BYTES
    }
}

/// Whether `bytes` can be a public key of the KEM.
pub open spec fn is_public_key(bytes: Seq<u8>) -> bool {
    bytes.len() == PUBLIC_KEY_BYTES
}

/// Encapsulates a fresh shared secret to `recipient_public_key`. Fails
/// with `InvalidPeerKey` exactly when the bytes are no public key.
pub fn encapsulate(recipient_public_key: &[u8]) -> (outcome: Result<Encapsulation, ErrorKind>)
    ensures
        match outcome {
            Ok(enc) => is_public_key(recipient_public_key@) && enc.wf(),
            Err(kind) => !is_public_key(recipient_public_key@) && kind == ErrorKind::InvalidPeerKey,
        },
{
    match public_key_from_bytes(recipient_public_key) {
        Ok(key) => {
            let (shared_secret, kem_ciphertext) = kyber_encapsulate(&key);
            Ok(Encapsulation { kem_ciphertext, shared_secret })
        },
        Err(_) => Err(ErrorKind::InvalidPeerKey),
    }
}

} // verus!
