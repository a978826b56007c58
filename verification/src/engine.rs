//! The engine: one operation that seals a payload for a recipient and
//! stages its audit record, behind the engine's own rate limit.
//!
//! [`SovereignEngine::vault_execute`] runs a whole operation. Its steps are
//! functions of their own, so that a caller who shares a ledger between
//! threads can hold it only where the chain is read and moved: the rate
//! limit ([`SovereignEngine::check_rate_limit`]), the counter
//! ([`Ledger::next_counter`]), the sealing ([`seal_payload`]) and the audit
//! step ([`Ledger::stage`], then [`Ledger::settle`]).

use crate::aead::{
    aes256_gcm_siv, fits_cipher, is_nonce_of, nonce_from_draw, nonce_of, random_tail, seal,
    NONCE_TAIL_BYTES, TAG_BYTES,
};
use crate::audit::{staged_entry, ChainEntry, Ledger, LedgerView};
use crate::clock::{nanos_since, unix_seconds};
use crate::digest::{blake3_digest, blake3_hash};
use crate::error::ErrorKind;
use crate::kdf::session_key;
use crate::kem::{
    encapsulate, is_public_key, Encapsulation, KEM_CIPHERTEXT_BYTES, SHARED_SECRET_BYTES,
};
use crate::limiter::{admits, after_request, RateLimiter, MAX_BURST_REQUESTS};
use std::time::Instant;
use vstd::prelude::*;
use vstd::utf8::encode_utf8;

verus! {

/// The state of an engine.
pub struct EngineView {
    /// What identifies the engine's device. It never changes.
    pub fingerprint: Seq<u8>,
    /// Where the audit log lives. It never changes.
    pub log_path: Seq<char>,
    /// Whether the licence was accepted.
    pub is_authorized: bool,
    /// The admitted operations that the rate limiter remembers.
    pub window: Seq<u128>,
}

/// Whether a licence signature is accepted. No licence scheme is in force:
/// every signature is.
pub open spec fn license_accepted(license_sig: Seq<char>) -> bool {
    true
}

/// The fingerprint of a device: the digest of its hardware description
/// followed by its seed, both as UTF-8.
pub open spec fn fingerprint_of(hw_info: Seq<char>, seed: Seq<char>) -> Seq<u8> {
    blake3_digest(encode_utf8(hw_info) + encode_utf8(seed))
}

/// The payload of an operation after sealing.
pub struct SealedPayload {
    /// Nonce the payload was encrypted with.
    pub nonce: [u8; 12],
    /// What the recipient needs to recover the shared secret.
    pub kem_ciphertext: Vec<u8>,
    /// The encrypted payload with its tag.
    pub ciphertext: Vec<u8>,
}

/// The ciphertext of `data` in operation `ctr` of a device with
/// `fingerprint`, under the session key of `shared_secret` and the nonce
/// with random part `tail`.
pub open spec fn sealed_bytes(
    fingerprint: Seq<u8>,
    ctr: u64,
    shared_secret: Seq<u8>,
    tail: Seq<u8>,
    data: Seq<u8>,
) -> Seq<u8> {
    aes256_gcm_siv(session_key(shared_secret, fingerprint, ctr), nonce_of(ctr, tail), data)
}

/// Whether `sealed` is what sealing `data` yields from one encapsulation
/// and one draw: it hands on the KEM ciphertext of the encapsulation, its
/// nonce is the counter followed by the draw, and its ciphertext is `data`
/// under the session key of the encapsulated secret.
pub open spec fn sealed_with(
    sealed: SealedPayload,
    fingerprint: Seq<u8>,
    ctr: u64,
    kem_ciphertext: Seq<u8>,
    shared_secret: Seq<u8>,
    tail: Seq<u8>,
    data: Seq<u8>,
) -> bool {
    &&& sealed.kem_ciphertext@ == kem_ciphertext
    &&& sealed.nonce@ == nonce_of(ctr, tail)
    &&& sealed.ciphertext@ == sealed_bytes(fingerprint, ctr, shared_secret, tail, data)
    &&& sealed.ciphertext@.len() == data.len() + TAG_BYTES
    &&& is_nonce_of(sealed.nonce@, ctr)
}

/// The entry that is staged behind the head `prev` for an operation sealed
/// from one encapsulation and one draw.
pub open spec fn completed_entry(
    fingerprint: Seq<u8>,
    prev: Seq<u8>,
    ctr: u64,
    kem_ciphertext: Seq<u8>,
    shared_secret: Seq<u8>,
    tail: Seq<u8>,
    data: Seq<u8>,
    timestamp: u64,
) -> ChainEntry {
    staged_entry(
        prev,
        ctr,
        fingerprint,
        kem_ciphertext,
        nonce_of(ctr, tail),
        sealed_bytes(fingerprint, ctr, shared_secret, tail, data),
        timestamp,
    )
}

/// Seals `data` for operation `ctr` from an encapsulation and the outcome
/// of drawing the random part of the nonce: derives the session key from
/// the encapsulated secret, builds the nonce and encrypts. Fails with
/// `EntropyFailure` when nothing was drawn, else with `EncryptionFailure`
/// when the payload is too long for the cipher.
pub fn seal_with(
    fingerprint: &[u8; 32],
    ctr: u64,
    encapsulated: Encapsulation,
    drawn: Result<[u8; 4], getrandom::Error>,
    data: &[u8],
) -> (outcome: Result<SealedPayload, ErrorKind>)
    ensures
        match drawn {
            Err(_) => outcome matches Err(kind) && kind == ErrorKind::EntropyFailure,
            Ok(tail) => if fits_cipher(data@.len()) {
                outcome matches Ok(sealed) && sealed_with(
                    sealed,
                    fingerprint@,
                    ctr,
                    encapsulated.kem_ciphertext@,
                    encapsulated.shared_secret@,
                    tail@,
                    data@,
                )
            } else {
                outcome matches Err(kind) && kind == ErrorKind::EncryptionFailure
            },
        },
{
    let sess_key = crate::kdf::derive(encapsulated.shared_secret.as_slice(), fingerprint, ctr)?;
    let nonce = nonce_from_draw(ctr, drawn)?;
    let ciphertext = seal(&sess_key, &nonce, data)?;
    Ok(SealedPayload { nonce, kem_ciphertext: encapsulated.kem_ciphertext, ciphertext })
}

/// Whether `sealed` is what sealing `data` for operation `ctr` yields with
/// some encapsulation and some draw: a KEM ciphertext of the KEM's length
/// and, for one shared secret and one random part, the nonce and the
/// ciphertext that [`seal_with`] makes of them.
pub open spec fn sealed_for(
    sealed: SealedPayload,
    fingerprint: Seq<u8>,
    ctr: u64,
    data: Seq<u8>,
) -> bool {
    &&& sealed.kem_ciphertext@.len() == KEM_CIPHERTEXT_BYTES
    &&& exists|shared_secret: Seq<u8>, tail: Seq<u8>|
        {
            &&& shared_secret.len() == SHARED_SECRET_BYTES
            &&& tail.len() == NONCE_TAIL_BYTES
            &&& #[trigger] sealed_with(
                sealed,
                fingerprint,
                ctr,
                sealed.kem_ciphertext@,
                shared_secret,
                tail,
                data,
            )
        }
}

/// Seals `data` for the holder of the public key `pk_bytes` in operation
/// `ctr`: encapsulates a fresh secret, draws the random part of the nonce
/// and hands both to [`seal_with`]. Fails with `InvalidPeerKey` exactly
/// when the bytes are no public key, with `EncryptionFailure` only when the
/// payload is too long for the cipher, and with `EntropyFailure` when the
/// system gives no random bytes.
pub fn seal_payload(fingerprint: &[u8; 32], ctr: u64, data: &[u8], pk_bytes: &[u8]) -> (outcome:
    Result<SealedPayload, ErrorKind>)
    ensures
        match outcome {
            Ok(sealed) => {
                &&& is_public_key(pk_bytes@)
                &&& fits_cipher(data@.len())
                &&& sealed_for(sealed, fingerprint@, ctr, data@)
            },
            Err(kind) => match kind {
                ErrorKind::InvalidPeerKey => !is_public_key(pk_bytes@),
                ErrorKind::EntropyFailure => is_public_key(pk_bytes@),
                ErrorKind::EncryptionFailure => is_public_key(pk_bytes@) && !fits_cipher(
                    data@.len(),
                ),
                _ => false,
            },
        },
{
    let encapsulated = encapsulate(pk_bytes)?;
    let ghost shared_secret = encapsulated.shared_secret@;
    let drawn = random_tail();
    let outcome = seal_with(fingerprint, ctr, encapsulated, drawn, data);
    proof {
        if outcome is Ok {
            let sealed = outcome->Ok_0;
            let tail = drawn->Ok_0@;
            assert(sealed_with(
                sealed,
                fingerprint@,
                ctr,
                sealed.kem_ciphertext@,
                shared_secret,
                tail,
                data@,
            ));
        }
    }
    outcome
}

/// Whether `op` is what an engine with `fingerprint` stages for `data` on
/// a ledger in state `ledger`: it takes the ledger's next counter and
/// links behind its head, and for one shared secret and one random part it
/// is the entry that [`SovereignEngine::complete`] stages from them and
/// from the KEM ciphertext it carries.
pub open spec fn staged_for(
    op: ChainEntry,
    fingerprint: Seq<u8>,
    ledger: LedgerView,
    data: Seq<u8>,
) -> bool {
    &&& op.sealed()
    &&& op.numbered()
    &&& op.counter == ledger.counter + 1
    &&& op.prev == ledger.head
    &&& op.fingerprint == fingerprint
    &&& op.kem_ciphertext.len() == KEM_CIPHERTEXT_BYTES
    &&& op.ciphertext.len() == data.len() + TAG_BYTES
    &&& exists|shared_secret: Seq<u8>, tail: Seq<u8>|
        {
            &&& shared_secret.len() == SHARED_SECRET_BYTES
            &&& tail.len() == NONCE_TAIL_BYTES
            &&& op == #[trigger] completed_entry(
                fingerprint,
                ledger.head,
                op.counter,
                op.kem_ciphertext,
                shared_secret,
                tail,
                data,
                op.timestamp,
            )
        }
}

/// What one operation at `now` does to an engine and a ledger, and how it
/// ends.
///
/// An operation that the rate limit rejects ends with `RateLimitExceeded`
/// and changes nothing. Every other operation is recorded by the rate
/// limiter and takes the ledger's next counter, whether it succeeds or
/// not; the chain's head and history stay as they are. It fails with
/// `InvalidPeerKey` exactly when the recipient's bytes are no public key,
/// with `EncryptionFailure` only when the payload is too long for the
/// cipher, and with `EntropyFailure` when the system gives no random
/// bytes. When it succeeds, the operation is staged on the ledger and the
/// result is the line to append to the log.
pub open spec fn executed(
    engine: EngineView,
    ledger: LedgerView,
    now: u128,
    data: Seq<u8>,
    pk_bytes: Seq<u8>,
    engine_after: EngineView,
    ledger_after: LedgerView,
    outcome: Result<String, ErrorKind>,
) -> bool {
    if !admits(engine.window, now) {
        &&& outcome == Err::<String, ErrorKind>(ErrorKind::RateLimitExceeded)
        &&& engine_after == engine
        &&& ledger_after == ledger
    } else {
        &&& engine_after == (EngineView { window: after_request(engine.window, now), ..engine })
        &&& ledger_after.counter == ledger.counter + 1
        &&& ledger_after.head == ledger.head
        &&& ledger_after.history == ledger.history
        &&& match outcome {
            Ok(line) => {
                &&& is_public_key(pk_bytes)
                &&& fits_cipher(data.len())
                &&& ledger_after.pending matches Some(op)
                &&& staged_for(op, engine.fingerprint, ledger, data)
                &&& line@ == op.line()
            },
            Err(kind) => {
                &&& ledger_after.pending == ledger.pending
                &&& match kind {
                    ErrorKind::InvalidPeerKey => !is_public_key(pk_bytes),
                    ErrorKind::EntropyFailure => is_public_key(pk_bytes),
                    ErrorKind::EncryptionFailure => is_public_key(pk_bytes) && !fits_cipher(
                        data.len(),
                    ),
                    _ => false,
                }
            },
        }
    }
}

/// An engine: the fingerprint of its device, the place of its audit log,
/// and its own rate limiter.
pub struct SovereignEngine {
    fingerprint: [u8; 32],
    log_path: String,
    is_authorized: bool,
    rate_history: RateLimiter,
    started: Instant,
}

impl View for SovereignEngine {
    type V = EngineView;

    closed spec fn view(&self) -> EngineView {
        EngineView {
            fingerprint: self.fingerprint@,
            log_path: self.log_path@,
            is_authorized: self.is_authorized,
            window: self.rate_history@,
        }
    }
}

/// Decides on a licence signature.
fn check_license(license_sig: &String) -> (accepted: bool)
    ensures
        accepted == license_accepted(license_sig@),
{
    true
}

impl SovereignEngine {
    /// The engine's rate limiter never remembers more than one full burst.
    pub open spec fn wf(&self) -> bool {
        self@.window.len() <= MAX_BURST_REQUESTS
    }

    /// Constructs an engine for the device described by `hw_info` and
    /// `seed`, with its audit log at `log_path`. Fails with
    /// `AuthorizationFailure` when the licence signature is not accepted.
    pub fn new(hw_info: String, seed: String, license_sig: String, log_path: String) -> (made:
        Result<SovereignEngine, ErrorKind>)
        ensures
            match made {
                Ok(engine) => {
                    &&& license_accepted(license_sig@)
                    &&& engine.wf()
                    &&& engine@ == (EngineView {
                        fingerprint: fingerprint_of(hw_info@, seed@),
                        log_path: log_path@,
                        is_authorized: true,
                        window: Seq::empty(),
                    })
                },
                Err(kind) => !license_accepted(license_sig@) && kind
                    == ErrorKind::AuthorizationFailure,
            },
    {
        let mut described: Vec<u8> = Vec::new();
        described.extend_from_slice(hw_info.as_str().as_bytes());
        described.extend_from_slice(seed.as_str().as_bytes());
        assert(described@ =~= encode_utf8(hw_info@) + encode_utf8(seed@));
        let fingerprint = blake3_hash(described.as_slice());

        if !check_license(&license_sig) {
            return Err(ErrorKind::AuthorizationFailure);
        }
        Ok(
            SovereignEngine {
                fingerprint,
                log_path,
                is_authorized: true,
                rate_history: RateLimiter::new(),
                started: Instant::now(),
            },
        )
    }

    /// What identifies the engine's device.
    pub fn fingerprint(&self) -> (fingerprint: [u8; 32])
        ensures
            fingerprint@ == self@.fingerprint,
    {
        self.fingerprint
    }

    /// Where the audit log lives.
    pub fn log_path(&self) -> (path: &String)
        ensures
            path@ == self@.log_path,
    {
        &self.log_path
    }

    /// Whether the licence was accepted.
    pub fn is_authorized(&self) -> (authorized: bool)
        ensures
            authorized == self@.is_authorized,
    {
        self.is_authorized
    }

    /// Asks the rate limiter about an operation at `now`, in nanoseconds on
    /// the engine's clock. Returns whether the operation is over the
    /// limit. An operation inside the limit is recorded; one over it
    /// leaves no trace.
    pub fn check_rate_limit_at(&mut self, now: u128) -> (limited: bool)
        requires
            old(self).wf(),
        ensures
            final(self).wf(),
            limited == !admits(old(self)@.window, now),
            final(self)@ == (EngineView {
                window: after_request(old(self)@.window, now),
                ..old(self)@
            }),
            limited ==> final(self)@ == old(self)@,
    {
        !self.rate_history.admit_at(now)
    }

    /// Asks the rate limiter about an operation now. Returns whether the
    /// operation is over the limit. Whatever the clock reads, an operation
    /// over the limit leaves no trace.
    pub fn check_rate_limit(&mut self) -> (limited: bool)
        requires
            old(self).wf(),
        ensures
            final(self).wf(),
            exists|now: u128|
                {
                    &&& limited == !#[trigger] admits(old(self)@.window, now)
                    &&& final(self)@ == (EngineView {
                        window: after_request(old(self)@.window, now),
                        ..old(self)@
                    })
                },
            limited ==> final(self)@ == old(self)@,
    {
        let now = nanos_since(&self.started);
        self.check_rate_limit_at(now)
    }

    /// Draws up the audit record of operation `ctr` at the current time
    /// and stages the operation on `ledger`. Returns the line to append to
    /// the log. Whatever the clock reads, the record links behind the
    /// ledger's head and its digest covers that head, the counter, the
    /// engine's fingerprint, the KEM ciphertext, the nonce and the
    /// ciphertext.
    pub fn append_to_audit(
        &self,
        ledger: &mut Ledger,
        ctr: u64,
        nonce: [u8; 12],
        ct: Vec<u8>,
        pqc_ct: Vec<u8>,
    ) -> (line: String)
        requires
            old(ledger).wf(),
        ensures
            final(ledger).wf(),
            final(ledger)@.pending matches Some(op) && {
                &&& op == staged_entry(
                    old(ledger)@.head,
                    ctr,
                    self@.fingerprint,
                    pqc_ct@,
                    nonce@,
                    ct@,
                    op.timestamp,
                )
                &&& line@ == op.line()
                &&& final(ledger)@ == (LedgerView { pending: Some(op), ..old(ledger)@ })
            },
            old(ledger)@.numbered() && old(ledger)@.unused(ctr) && is_nonce_of(nonce@, ctr)
                ==> final(ledger)@.numbered(),
    {
        let timestamp = unix_seconds();
        ledger.stage(&self.fingerprint, ctr, pqc_ct, nonce, ct, timestamp)
    }

    /// Completes operation `ctr` from what the outside gave: an
    /// encapsulation, the outcome of drawing the random part of the nonce,
    /// and the time. Seals `data` with [`seal_with`] and stages the record
    /// on `ledger`. Returns the line to append to the log. A failure
    /// leaves the ledger as it was.
    pub fn complete(
        &self,
        ledger: &mut Ledger,
        ctr: u64,
        encapsulated: Encapsulation,
        drawn: Result<[u8; 4], getrandom::Error>,
        data: &[u8],
        timestamp: u64,
    ) -> (outcome: Result<String, ErrorKind>)
        requires
            old(ledger).wf(),
        ensures
            final(ledger).wf(),
            match drawn {
                Err(_) => {
                    &&& outcome == Err::<String, ErrorKind>(ErrorKind::EntropyFailure)
                    &&& final(ledger)@ == old(ledger)@
                },
                Ok(tail) => if fits_cipher(data@.len()) {
                    let op = completed_entry(
                        self@.fingerprint,
                        old(ledger)@.head,
                        ctr,
                        encapsulated.kem_ciphertext@,
                        encapsulated.shared_secret@,
                        tail@,
                        data@,
                        timestamp,
                    );
                    &&& outcome matches Ok(line)
                    &&& line@ == op.line()
                    &&& final(ledger)@ == (LedgerView { pending: Some(op), ..old(ledger)@ })
                    &&& op.ciphertext.len() == data@.len() + TAG_BYTES
                    &&& is_nonce_of(op.nonce, ctr)
                } else {
                    &&& outcome == Err::<String, ErrorKind>(ErrorKind::EncryptionFailure)
                    &&& final(ledger)@ == old(ledger)@
                },
            },
            old(ledger)@.numbered() && old(ledger)@.unused(ctr) ==> final(ledger)@.numbered(),
    {
        let sealed = seal_with(&self.fingerprint, ctr, encapsulated, drawn, data)?;
        let line = ledger.stage(
            &self.fingerprint,
            ctr,
            sealed.kem_ciphertext,
            sealed.nonce,
            sealed.ciphertext,
            timestamp,
        );
        Ok(line)
    }

    /// Runs one operation at `now`, in nanoseconds on the engine's clock:
    /// seals `data` for the holder of the public key `pk_bytes` and stages
    /// the audit record on `ledger`. Returns the line to append to the
    /// audit log; once the caller has tried that, [`Ledger::settle`]
    /// releases the ciphertext, the KEM ciphertext and the audit
    /// reference.
    ///
    /// See [`executed`] for what the operation does and how it ends. An
    /// operation that the rate limit rejects needs no counter; any other
    /// needs one to be left.
    pub fn vault_execute_at(
        &mut self,
        ledger: &mut Ledger,
        now: u128,
        data: Vec<u8>,
        pk_bytes: Vec<u8>,
    ) -> (outcome: Result<String, ErrorKind>)
        requires
            old(self).wf(),
            old(ledger).wf(),
            admits(old(self)@.window, now) ==> old(ledger)@.counter < u64::MAX,
        ensures
            final(self).wf(),
            final(ledger).wf(),
            executed(
                old(self)@,
                old(ledger)@,
                now,
                data@,
                pk_bytes@,
                final(self)@,
                final(ledger)@,
                outcome,
            ),
            outcome == Err::<String, ErrorKind>(ErrorKind::RateLimitExceeded) ==> final(self)@
                == old(self)@ && final(ledger)@ == old(ledger)@,
            old(ledger)@.numbered() ==> final(ledger)@.numbered(),
    {
        if self.check_rate_limit_at(now) {
            return Err(ErrorKind::RateLimitExceeded);
        }
        let current_ctr = ledger.next_counter();

        let encapsulated = encapsulate(pk_bytes.as_slice())?;
        let ghost shared_secret = encapsulated.shared_secret@;
        let drawn = random_tail();
        let timestamp = unix_seconds();
        let outcome = self.complete(
            ledger,
            current_ctr,
            encapsulated,
            drawn,
            data.as_slice(),
            timestamp,
        );
        proof {
            if outcome is Ok {
                let op = ledger@.pending->Some_0;
                assert(op == completed_entry(
                    self@.fingerprint,
                    old(ledger)@.head,
                    op.counter,
                    op.kem_ciphertext,
                    shared_secret,
                    drawn->Ok_0@,
                    data@,
                    op.timestamp,
                ));
            }
        }
        outcome
    }

    /// Runs one operation now: seals `data` for the holder of the public
    /// key `pk_bytes` and stages the audit record on `ledger`. Returns the
    /// line to append to the audit log; once the caller has tried that,
    /// [`Ledger::settle`] releases the ciphertext, the KEM ciphertext and
    /// the audit reference.
    ///
    /// Whatever the clock reads, the operation is [`executed`] at that
    /// reading, and one that the rate limit rejects changes nothing.
    pub fn vault_execute(
        &mut self,
        ledger: &mut Ledger,
        data: Vec<u8>,
        pk_bytes: Vec<u8>,
    ) -> (outcome: Result<String, ErrorKind>)
        requires
            old(self).wf(),
            old(ledger).wf(),
            old(ledger)@.counter < u64::MAX,
        ensures
            final(self).wf(),
            final(ledger).wf(),
            exists|now: u128| #[trigger]
                executed(
                    old(self)@,
                    old(ledger)@,
                    now,
                    data@,
                    pk_bytes@,
                    final(self)@,
                    final(ledger)@,
                    outcome,
                ),
            outcome == Err::<String, ErrorKind>(ErrorKind::RateLimitExceeded) ==> final(self)@
                == old(self)@ && final(ledger)@ == old(ledger)@,
            old(ledger)@.numbered() ==> final(ledger)@.numbered(),
    {
        let now = nanos_since(&self.started);
        self.vault_execute_at(ledger, now, data, pk_bytes)
    }
}

} // verus!
