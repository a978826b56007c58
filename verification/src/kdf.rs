//! Derivation of the single-use session key.

use crate::encoding::{be64, be64_bytes};
use crate::error::ErrorKind;
use vstd::prelude::*;
use vstd::string::StringSliceAdditionalSpecFns;

verus! {

/// Length of a session key in bytes.
pub const SESSION_KEY_BYTES: usize = 32;

/// The context label that separates these keys from any other use of the
/// same key material.
pub const KEY_CONTEXT: &'static str = "TITAN_V18_1_DIAMOND";

/// The bytes of [`KEY_CONTEXT`].
pub open spec fn key_context() -> Seq<u8> {
    KEY_CONTEXT.spec_bytes()
}

/// The first thirty-two bytes of output of HKDF with SHA-256 (RFC 5869),
/// extract-then-expand with no salt, for input key material `ikm` and
/// context `info`.
pub uninterp spec fn hkdf_sha256(ikm: Seq<u8>, info: Seq<u8>) -> Seq<u8>;

/// The refusal of `hkdf` to expand to a requested length.
#[verifier::external_type_specification]
#[verifier::external_body]
pub struct ExInvalidLength(hkdf::InvalidLength);

/// Calls `Hkdf::<Sha256>::new` with no salt and then `expand` into a
/// 32-byte buffer. The output is a function of `ikm` and `info` alone, so
/// the contract names it. `expand` refuses only a buffer longer than 255
/// hash outputs, which thirty-two bytes are not.
#[verifier::external_body]
fn hkdf_sha256_expand(ikm: &[u8], info: &[u8]) -> (okm: Result<[u8; 32], hkdf::InvalidLength>)
    ensures
        okm is Ok,
        okm matches Ok(key) ==> key@ == hkdf_sha256(ikm@, info@),
{
    let mut okm = [0u8; 32];
    hkdf::Hkdf::<sha2::Sha256>::new(None, ikm).expand(info, &mut okm).map(|_| okm)
}

/// Calls `zeroize` of `zeroize::Zeroize` for `Vec<u8>`, which overwrites
/// the buffer with zeros and then clears it.
#[verifier::external_body]
fn wipe(buffer: &mut Vec<u8>)
    ensures
        final(buffer)@ == Seq::<u8>::empty(),
{
    zeroize::Zeroize::zeroize(buffer)
}

/// Input key material of an operation: the shared secret, then the
/// fingerprint, then the operation counter in big-endian.
pub open spec fn key_material(shared_secret: Seq<u8>, fingerprint: Seq<u8>, counter: u64) -> Seq<
    u8,
> {
    shared_secret + fingerprint + be64(counter)
}

/// The session key of an operation.
pub open spec fn session_key(shared_secret: Seq<u8>, fingerprint: Seq<u8>, counter: u64) -> Seq<
    u8,
> {
    hkdf_sha256(key_material(shared_secret, fingerprint, counter), key_context())
}

/// Turns the outcome of the expansion into the outcome of the derivation.
pub fn key_from(expanded: Result<[u8; 32], hkdf::InvalidLength>) -> (outcome: Result<
    [u8; 32],
    ErrorKind,
>)
    ensures
        match expanded {
            Ok(key) => outcome == Ok::<[u8; 32], ErrorKind>(key),
            Err(_) => outcome == Err::<[u8; 32], ErrorKind>(ErrorKind::KeyDerivationFailure),
        },
{
    match expanded {
        Ok(key) => Ok(key),
        Err(_) => Err(ErrorKind::KeyDerivationFailure),
    }
}

/// Puts the input key material of an operation together: the shared
/// secret, then the fingerprint, then the operation counter in big-endian.
pub fn assemble_key_material(shared_secret: &[u8], fingerprint: &[u8; 32], counter: u64) -> (ikm:
    Vec<u8>)
    ensures
        ikm@ == key_material(shared_secret@, fingerprint@, counter),
{
    let counter_bytes = be64_bytes(counter);
    let mut ikm: Vec<u8> = Vec::with_capacity(64);
    ikm.extend_from_slice(shared_secret);
    ikm.extend_from_slice(fingerprint.as_slice());
    ikm.extend_from_slice(counter_bytes.as_slice());
    assert(ikm@ =~= key_material(shared_secret@, fingerprint@, counter));
    ikm
}

/// Expands key material into a session key under [`KEY_CONTEXT`], and
/// wipes the key material: whatever the outcome, `ikm` is left empty.
pub fn expand_and_wipe(ikm: &mut Vec<u8>) -> (outcome: Result<[u8; 32], ErrorKind>)
    ensures
        outcome matches Ok(key) && key@ == hkdf_sha256(old(ikm)@, key_context()),
        final(ikm)@ == Seq::<u8>::empty(),
{
    let expanded = hkdf_sha256_expand(ikm.as_slice(), KEY_CONTEXT.as_bytes());
    wipe(ikm);
    key_from(expanded)
}

/// Whether `outcome` is what a derivation from the given shared secret,
/// fingerprint and counter returns: the session key, and never a failure.
pub open spec fn derived(
    shared_secret: Seq<u8>,
    fingerprint: Seq<u8>,
    counter: u64,
    outcome: Result<[u8; 32], ErrorKind>,
) -> bool {
    outcome matches Ok(key) && key@ == session_key(shared_secret, fingerprint, counter)
}

/// Derives the session key of operation `counter` from the shared secret
/// and the engine's fingerprint. The key material is wiped before the
/// function returns.
pub fn derive(shared_secret: &[u8], fingerprint: &[u8; 32], counter: u64) -> (outcome: Result<
    [u8; 32],
    ErrorKind,
>)
    ensures
        derived(shared_secret@, fingerprint@, counter, outcome),
{
    let mut ikm = assemble_key_material(shared_secret, fingerprint, counter);
    expand_and_wipe(&mut ikm)
}

/// Derivation is deterministic: from the same shared secret, fingerprint
/// and counter it returns the same key every time.
pub proof fn lemma_derive_is_deterministic(
    shared_secret: Seq<u8>,
    fingerprint: Seq<u8>,
    counter: u64,
    first: Result<[u8; 32], ErrorKind>,
    second: Result<[u8; 32], ErrorKind>,
)
    requires
        derived(shared_secret, fingerprint, counter, first),
        derived(shared_secret, fingerprint, counter, second),
    ensures
        first == second,
{
    assert(first->Ok_0 =~= second->Ok_0);
}

} // verus!
