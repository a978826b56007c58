//! Authenticated encryption of the payload under the session key, and the
//! nonce it is encrypted with.

use crate::encoding::{be64, be64_bytes, be64_value, lemma_be64_round_trip};
use crate::error::ErrorKind;
use vstd::prelude::*;

verus! {

/// Length of a nonce in bytes.
pub const NONCE_BYTES: usize = 12;

/// Length of the random part of a nonce in bytes.
pub const NONCE_TAIL_BYTES: usize = 4;

/// Length of the integrity tag that ends every ciphertext.
pub const TAG_BYTES: usize = 16;

/// Longest payload the cipher accepts, in bytes.
pub const MAX_PLAINTEXT_BYTES: u64 = 0x10_0000_0000;

/// The failure of `getrandom` to fill a buffer.
#[verifier::external_type_specification]
#[verifier::external_body]
pub struct ExEntropyError(getrandom::Error);

/// The refusal of the cipher to encrypt.
#[verifier::external_type_specification]
#[verifier::external_body]
pub struct ExCipherError(aes_gcm_siv::Error);

/// Calls `getrandom::getrandom` on a 4-byte buffer and hands the buffer out
/// when it was filled. The bytes come from the operating system, so nothing
/// is claimed of them.
#[verifier::external_body]
pub(crate) fn random_tail() -> (drawn: Result<[u8; 4], getrandom::Error>) {
    let mut tail = [0u8; 4];
    getrandom::getrandom(&mut tail).map(|_| tail)
}

/// AES-256-GCM-SIV (RFC 8452) of `plaintext` under `key` and `nonce`, with
/// no associated data: the encrypted payload followed by its tag.
pub uninterp spec fn aes256_gcm_siv(key: Seq<u8>, nonce: Seq<u8>, plaintext: Seq<u8>) -> Seq<u8>;

/// Calls `Aes256GcmSiv::new` on the key and then `encrypt` of
/// `aes_gcm_siv::aead::Aead` with the nonce and the payload alone. The
/// cipher refuses a payload exactly when it is longer than
/// [`MAX_PLAINTEXT_BYTES`]; otherwise the ciphertext is a function of key,
/// nonce and payload, which the contract names, and is the payload's length
/// plus one tag long.
#[verifier::external_body]
fn aes256_gcm_siv_encrypt(key: &[u8; 32], nonce: &[u8; 12], plaintext: &[u8]) -> (sealed: Result<
    Vec<u8>,
    aes_gcm_siv::Error,
>)
    ensures
        sealed is Ok <==> plaintext@.len() <= MAX_PLAINTEXT_BYTES,
        sealed matches Ok(ciphertext) ==> {
            &&& ciphertext@ == aes256_gcm_siv(key@, nonce@, plaintext@)
            &&& ciphertext@.len() == plaintext@.len() + TAG_BYTES
        },
{
    let cipher = <aes_gcm_siv::Aes256GcmSiv as aes_gcm_siv::KeyInit>::new(
        aes_gcm_siv::Key::<aes_gcm_siv::Aes256GcmSiv>::from_slice(key),
    );
    aes_gcm_siv::aead::Aead::encrypt(&cipher, aes_gcm_siv::Nonce::from_slice(nonce), plaintext)
}

/// The nonce of operation `counter` with random part `tail`: the counter in
/// big-endian, then the tail.
pub open spec fn nonce_of(counter: u64, tail: Seq<u8>) -> Seq<u8> {
    be64(counter) + tail
}

/// Whether `nonce` belongs to operation `counter`: it is twelve bytes long
/// and starts with the counter in big-endian.
pub open spec fn is_nonce_of(nonce: Seq<u8>, counter: u64) -> bool {
    &&& nonce.len() == NONCE_BYTES
    &&& nonce.subrange(0, 8) == be64(counter)
}

/// The counter that a nonce starts with: its first eight bytes read as a
/// big-endian number.
pub open spec fn nonce_prefix(nonce: Seq<u8>) -> int {
    be64_value(nonce.subrange(0, 8))
}

/// The nonce of an operation starts with the operation's counter, so the
/// nonce of a later operation has the larger prefix and no two operations
/// with different counters share a nonce, whatever their random parts.
pub proof fn lemma_nonce_prefix_follows_counter(
    earlier: Seq<u8>,
    earlier_counter: u64,
    later: Seq<u8>,
    later_counter: u64,
)
    requires
        is_nonce_of(earlier, earlier_counter),
        is_nonce_of(later, later_counter),
        earlier_counter < later_counter,
    ensures
        nonce_prefix(earlier) == earlier_counter,
        nonce_prefix(later) == later_counter,
        nonce_prefix(earlier) < nonce_prefix(later),
        earlier != later,
{
    lemma_be64_round_trip(earlier_counter);
    lemma_be64_round_trip(later_counter);
}

/// Puts a nonce together from the operation counter and four random bytes.
pub fn nonce_from(counter: u64, tail: [u8; 4]) -> (nonce: [u8; 12])
    ensures
        nonce@ == nonce_of(counter, tail@),
        is_nonce_of(nonce@, counter),
{
    let prefix = be64_bytes(counter);
    proof {
        lemma_be64_round_trip(counter);
    }
    let nonce: [u8; 12] = [
        prefix[0],
        prefix[1],
        prefix[2],
        prefix[3],
        prefix[4],
        prefix[5],
        prefix[6],
        prefix[7],
        tail[0],
        tail[1],
        tail[2],
        tail[3],
    ];
    assert(nonce@ =~= nonce_of(counter, tail@));
    assert(nonce@.subrange(0, 8) =~= be64(counter));
    nonce
}

/// Turns the outcome of drawing the random part into the nonce of operation
/// `counter`, or into `EntropyFailure` when nothing was drawn.
pub fn nonce_from_draw(counter: u64, drawn: Result<[u8; 4], getrandom::Error>) -> (outcome: Result<
    [u8; 12],
    ErrorKind,
>)
    ensures
        match drawn {
            Ok(tail) => outcome matches Ok(nonce) && nonce@ == nonce_of(counter, tail@)
                && is_nonce_of(nonce@, counter),
            Err(_) => outcome == Err::<[u8; 12], ErrorKind>(ErrorKind::EntropyFailure),
        },
{
    match drawn {
        Ok(tail) => Ok(nonce_from(counter, tail)),
        Err(_) => Err(ErrorKind::EntropyFailure),
    }
}

/// Whether the cipher accepts a payload of `len` bytes.
pub open spec fn fits_cipher(len: nat) -> bool {
    len <= MAX_PLAINTEXT_BYTES
}

/// Turns the outcome of the cipher into the outcome of sealing.
pub fn sealed_from(encrypted: Result<Vec<u8>, aes_gcm_siv::Error>) -> (outcome: Result<
    Vec<u8>,
    ErrorKind,
>)
    ensures
        match encrypted {
            Ok(ciphertext) => outcome == Ok::<Vec<u8>, ErrorKind>(ciphertext),
            Err(_) => outcome == Err::<Vec<u8>, ErrorKind>(ErrorKind::EncryptionFailure),
        },
{
    match encrypted {
        Ok(ciphertext) => Ok(ciphertext),
        Err(_) => Err(ErrorKind::EncryptionFailure),
    }
}

/// Encrypts `plaintext` under `session_key` and `nonce`, with no associated
/// data. The ciphertext ends with its integrity tag. Fails with
/// `EncryptionFailure` exactly when the payload is too long for the cipher.
pub fn seal(session_key: &[u8; 32], nonce: &[u8; 12], plaintext: &[u8]) -> (outcome: Result<
    Vec<u8>,
    ErrorKind,
>)
    ensures
        match outcome {
            Ok(ciphertext) => {
                &&& fits_cipher(plaintext@.len())
                &&& ciphertext@ == aes256_gcm_siv(session_key@, nonce@, plaintext@)
                &&& ciphertext@.len() == plaintext@.len() + TAG_BYTES
            },
            Err(kind) => !fits_cipher(plaintext@.len()) && kind == ErrorKind::EncryptionFailure,
        },
{
    sealed_from(aes256_gcm_siv_encrypt(session_key, nonce, plaintext))
}

} // verus!
