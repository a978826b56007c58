//! The hash-chained audit ledger.
//!
//! Every operation that reaches stable storage extends a chain of digests:
//! the digest of its record covers the digest of the record before it. The
//! ledger holds the head of that chain and the counter that numbers the
//! operations. It never touches storage itself. An operation is first
//! staged, which yields the line to append to the log; the caller appends
//! it and reports how that went; only a durable append moves the head.

use crate::aead::{is_nonce_of, lemma_nonce_prefix_follows_counter, nonce_prefix};
use crate::digest::{blake3_digest, blake3_hash, hex_encode, hex_text};
use crate::encoding::{be64, be64_bytes, decimal_text, push_decimal};
use crate::error::{ErrorKind, StorageFault};
use vstd::prelude::*;
use vstd::string::StringExecFns;

verus! {

/// The head of a chain that holds no record: thirty-two zero bytes.
pub open spec fn genesis() -> Seq<u8> {
    Seq::new(32, |i: int| 0u8)
}

/// The head of a chain that holds no record.
pub fn genesis_head() -> (head: [u8; 32])
    ensures
        head@ == genesis(),
{
    let head: [u8; 32] = [0u8; 32];
    assert(head@ =~= genesis());
    head
}

/// What the digest of a record is taken over: the head before it, the
/// operation counter in big-endian, the engine's fingerprint, the KEM
/// ciphertext, the nonce and the ciphertext, in this order.
pub open spec fn chain_preimage(
    prev: Seq<u8>,
    counter: u64,
    fingerprint: Seq<u8>,
    kem_ciphertext: Seq<u8>,
    nonce: Seq<u8>,
    ciphertext: Seq<u8>,
) -> Seq<u8> {
    prev + be64(counter) + fingerprint + kem_ciphertext + nonce + ciphertext
}

/// The head of the chain after a record for the given operation is linked
/// behind `prev`.
pub open spec fn chain_digest(
    prev: Seq<u8>,
    counter: u64,
    fingerprint: Seq<u8>,
    kem_ciphertext: Seq<u8>,
    nonce: Seq<u8>,
    ciphertext: Seq<u8>,
) -> Seq<u8> {
    blake3_digest(chain_preimage(prev, counter, fingerprint, kem_ciphertext, nonce, ciphertext))
}

/// Computes the head of the chain after a record for the given operation
/// is linked behind `prev`.
pub fn chain_hash(
    prev: &[u8; 32],
    counter: u64,
    fingerprint: &[u8; 32],
    kem_ciphertext: &[u8],
    nonce: &[u8],
    ciphertext: &[u8],
) -> (digest: [u8; 32])
    ensures
        digest@ == chain_digest(
            prev@,
            counter,
            fingerprint@,
            kem_ciphertext@,
            nonce@,
            ciphertext@,
        ),
{
    let counter_bytes = be64_bytes(counter);
    let mut preimage: Vec<u8> = Vec::new();
    preimage.extend_from_slice(prev.as_slice());
    preimage.extend_from_slice(counter_bytes.as_slice());
    preimage.extend_from_slice(fingerprint.as_slice());
    preimage.extend_from_slice(kem_ciphertext);
    preimage.extend_from_slice(nonce);
    preimage.extend_from_slice(ciphertext);
    assert(preimage@ =~= chain_preimage(
        prev@,
        counter,
        fingerprint@,
        kem_ciphertext@,
        nonce@,
        ciphertext@,
    ));
    blake3_hash(preimage.as_slice())
}

/// The line that records an operation in the log: the head before it and
/// the head after it in hexadecimal, the counter and the time in decimal,
/// separated by `|` and ended by a line feed.
pub open spec fn record_line(prev: Seq<u8>, new: Seq<u8>, counter: u64, timestamp: u64) -> Seq<
    char,
> {
    hex_text(prev) + seq!['|'] + hex_text(new) + seq!['|'] + decimal_text(counter as nat)
        + seq!['|'] + decimal_text(timestamp as nat) + seq!['\n']
}

/// One record of the audit log.
#[derive(Clone, Copy, Debug)]
pub struct AuditRecord {
    /// Head of the chain before this record.
    pub prev: [u8; 32],
    /// Head of the chain after this record.
    pub new: [u8; 32],
    /// Counter of the recorded operation.
    pub counter: u64,
    /// When the record was drawn up, in seconds since the Unix epoch.
    pub timestamp: u64,
}

impl AuditRecord {
    /// The line that this record is in the log.
    pub fn line(&self) -> (text: String)
        ensures
            text@ == record_line(self.prev@, self.new@, self.counter, self.timestamp),
    {
        proof {
            reveal_strlit("|");
            reveal_strlit("\n");
        }
        let mut text = hex_encode(self.prev.as_slice());
        text.append("|");
        let new_hex = hex_encode(self.new.as_slice());
        text.append(new_hex.as_str());
        text.append("|");
        push_decimal(&mut text, self.counter);
        text.append("|");
        push_decimal(&mut text, self.timestamp);
        text.append("\n");
        assert(text@ =~= record_line(self.prev@, self.new@, self.counter, self.timestamp));
        text
    }

    /// The audit reference of the recorded operation: the head after this
    /// record, in hexadecimal.
    pub fn reference(&self) -> (text: String)
        ensures
            text@ == hex_text(self.new@),
    {
        hex_encode(self.new.as_slice())
    }
}

/// An operation as the chain sees it: its record, and what the digest of
/// the record was taken over.
pub struct ChainEntry {
    /// Head of the chain before the operation.
    pub prev: Seq<u8>,
    /// Head of the chain after the operation.
    pub new: Seq<u8>,
    /// Counter of the operation.
    pub counter: u64,
    /// Time in the operation's record.
    pub timestamp: u64,
    /// Fingerprint of the engine that ran the operation.
    pub fingerprint: Seq<u8>,
    /// KEM ciphertext of the operation.
    pub kem_ciphertext: Seq<u8>,
    /// Nonce of the operation.
    pub nonce: Seq<u8>,
    /// Ciphertext of the operation.
    pub ciphertext: Seq<u8>,
}

impl ChainEntry {
    /// The entry's head is the digest of what the entry holds.
    pub open spec fn sealed(self) -> bool {
        self.new == chain_digest(
            self.prev,
            self.counter,
            self.fingerprint,
            self.kem_ciphertext,
            self.nonce,
            self.ciphertext,
        )
    }

    /// The entry's counter is at least one and its nonce starts with its
    /// counter.
    pub open spec fn numbered(self) -> bool {
        &&& self.counter >= 1
        &&& is_nonce_of(self.nonce, self.counter)
    }

    /// The line that records the entry in the log.
    pub open spec fn line(self) -> Seq<char> {
        record_line(self.prev, self.new, self.counter, self.timestamp)
    }
}

/// An operation whose record is drawn up and not yet known to be durable.
pub struct StagedOperation {
    nonce: [u8; 12],
    kem_ciphertext: Vec<u8>,
    ciphertext: Vec<u8>,
    record: AuditRecord,
    fingerprint: Ghost<Seq<u8>>,
}

impl View for StagedOperation {
    type V = ChainEntry;

    closed spec fn view(&self) -> ChainEntry {
        ChainEntry {
            prev: self.record.prev@,
            new: self.record.new@,
            counter: self.record.counter,
            timestamp: self.record.timestamp,
            fingerprint: self.fingerprint@,
            kem_ciphertext: self.kem_ciphertext@,
            nonce: self.nonce@,
            ciphertext: self.ciphertext@,
        }
    }
}

impl StagedOperation {
    /// Counter of the operation.
    pub fn counter(&self) -> (counter: u64)
        ensures
            counter == self@.counter,
    {
        self.record.counter
    }

    /// Nonce the payload was encrypted with.
    pub fn nonce(&self) -> (nonce: [u8; 12])
        ensures
            nonce@ == self@.nonce,
    {
        self.nonce
    }

    /// What the recipient needs to recover the shared secret.
    pub fn kem_ciphertext(&self) -> (bytes: &Vec<u8>)
        ensures
            bytes@ == self@.kem_ciphertext,
    {
        &self.kem_ciphertext
    }

    /// The encrypted payload with its tag.
    pub fn ciphertext(&self) -> (bytes: &Vec<u8>)
        ensures
            bytes@ == self@.ciphertext,
    {
        &self.ciphertext
    }

    /// The record drawn up for the operation.
    pub fn record(&self) -> (record: AuditRecord)
        ensures
            record.prev@ == self@.prev,
            record.new@ == self@.new,
            record.counter == self@.counter,
            record.timestamp == self@.timestamp,
    {
        self.record
    }
}

/// The entry that is staged for an operation behind the head `prev`: its
/// head is the digest over `prev` and what the operation holds.
pub open spec fn staged_entry(
    prev: Seq<u8>,
    counter: u64,
    fingerprint: Seq<u8>,
    kem_ciphertext: Seq<u8>,
    nonce: Seq<u8>,
    ciphertext: Seq<u8>,
    timestamp: u64,
) -> ChainEntry {
    ChainEntry {
        prev,
        new: chain_digest(prev, counter, fingerprint, kem_ciphertext, nonce, ciphertext),
        counter,
        timestamp,
        fingerprint,
        kem_ciphertext,
        nonce,
        ciphertext,
    }
}

/// How the append of a staged record to the log went.
#[derive(Clone, Copy, Debug, PartialEq, Eq, Structural)]
pub enum WriteOutcome {
    /// The record is written and forced to stable storage.
    Durable,
    /// The record did not reach stable storage.
    Failed(StorageFault),
}

/// The state of a ledger.
pub struct LedgerView {
    /// Number of operations that passed the rate limit.
    pub counter: u64,
    /// Head of the chain.
    pub head: Seq<u8>,
    /// The operation that is staged and not settled, if there is one.
    pub pending: Option<ChainEntry>,
    /// The operations whose records are durable, oldest first.
    pub history: Seq<ChainEntry>,
}

/// Whether entry `i` of `history` is sealed and linked behind the entry
/// before it: its `prev` is the head that entry left, or the genesis head
/// for the first entry.
pub open spec fn linked(history: Seq<ChainEntry>, i: int) -> bool {
    &&& history[i].sealed()
    &&& history[i].prev == if i == 0 {
        genesis()
    } else {
        history[i - 1].new
    }
}

/// Whether entry `i` of `history` is numbered and has a larger counter than
/// the entry before it.
pub open spec fn in_sequence(history: Seq<ChainEntry>, i: int) -> bool {
    &&& history[i].numbered()
    &&& i > 0 ==> history[i - 1].counter < history[i].counter
}

impl LedgerView {
    /// The head that the durable records leave.
    pub open spec fn tip(self) -> Seq<u8> {
        if self.history.len() == 0 {
            genesis()
        } else {
            self.history.last().new
        }
    }

    /// Whether `counter` was handed out by this ledger and is larger than
    /// the counter of the latest durable record.
    pub open spec fn unused(self, counter: u64) -> bool {
        &&& 1 <= counter <= self.counter
        &&& self.history.len() > 0 ==> self.history.last().counter < counter
    }

    /// The durable records form one chain from the genesis head to the
    /// ledger's head, and a staged operation would extend that chain.
    pub open spec fn wf(self) -> bool {
        &&& self.head == self.tip()
        &&& forall|i: int| 0 <= i < self.history.len() ==> #[trigger] linked(self.history, i)
        &&& self.pending matches Some(op) ==> op.sealed() && op.prev == self.head
    }

    /// Every record carries a counter that the ledger handed out and a
    /// nonce that starts with it, and the counters grow along the records,
    /// the staged one included. This holds of a ledger on which whole
    /// operations run one after the other; staging under counters in
    /// another order gives it up.
    pub open spec fn numbered(self) -> bool {
        &&& forall|i: int| 0 <= i < self.history.len() ==> #[trigger] in_sequence(self.history, i)
        &&& self.history.len() > 0 ==> self.history.last().counter <= self.counter
        &&& self.pending matches Some(op) ==> op.numbered() && self.unused(op.counter)
    }
}

/// The counter and the head of the audit chain, shared by every engine
/// that records into the same log.
pub struct Ledger {
    counter: u64,
    head: [u8; 32],
    pending: Option<StagedOperation>,
    history: Ghost<Seq<ChainEntry>>,
}

impl View for Ledger {
    type V = LedgerView;

    closed spec fn view(&self) -> LedgerView {
        LedgerView {
            counter: self.counter,
            head: self.head@,
            pending: match self.pending {
                Some(op) => Some(op@),
                None => None,
            },
            history: self.history@,
        }
    }
}

impl Ledger {
    /// See [`LedgerView::wf`].
    pub open spec fn wf(&self) -> bool {
        self@.wf()
    }

    /// A ledger with no record: the counter is zero and the head is the
    /// genesis head.
    pub fn new() -> (ledger: Ledger)
        ensures
            ledger.wf(),
            ledger@.numbered(),
            ledger@ == (LedgerView {
                counter: 0,
                head: genesis(),
                pending: None,
                history: Seq::empty(),
            }),
    {
        Ledger { counter: 0, head: genesis_head(), pending: None, history: Ghost(Seq::empty()) }
    }

    /// Number of operations that passed the rate limit.
    pub fn counter(&self) -> (counter: u64)
        ensures
            counter == self@.counter,
    {
        self.counter
    }

    /// Head of the chain.
    pub fn head(&self) -> (head: [u8; 32])
        ensures
            head@ == self@.head,
    {
        self.head
    }

    /// The head of the chain in hexadecimal: the audit reference of the
    /// latest durable operation.
    pub fn audit_reference(&self) -> (text: String)
        ensures
            text@ == hex_text(self@.head),
    {
        hex_encode(self.head.as_slice())
    }

    /// Whether an operation is staged and not settled.
    pub fn is_awaiting(&self) -> (awaiting: bool)
        ensures
            awaiting == (self@.pending is Some),
    {
        self.pending.is_some()
    }

    /// The operation that is staged and not settled, if there is one.
    pub fn pending(&self) -> (staged: Option<&StagedOperation>)
        ensures
            match staged {
                Some(op) => self@.pending == Some(op@),
                None => self@.pending is None,
            },
    {
        self.pending.as_ref()
    }

    /// Hands out the next operation counter. Counters start at one and each
    /// is handed out once.
    pub fn next_counter(&mut self) -> (counter: u64)
        requires
            old(self).wf(),
            old(self)@.counter < u64::MAX,
        ensures
            final(self).wf(),
            counter == old(self)@.counter + 1,
            final(self)@ == (LedgerView { counter, ..old(self)@ }),
            old(self)@.numbered() ==> final(self)@.numbered() && final(self)@.unused(counter),
    {
        self.counter = self.counter + 1;
        self.counter
    }

    /// Draws up the record of an operation behind the current head and
    /// stages the operation. Returns the line to append to the log. The
    /// head does not move; an operation staged earlier and never settled is
    /// dropped.
    pub fn stage(
        &mut self,
        fingerprint: &[u8; 32],
        counter: u64,
        kem_ciphertext: Vec<u8>,
        nonce: [u8; 12],
        ciphertext: Vec<u8>,
        timestamp: u64,
    ) -> (line: String)
        requires
            old(self).wf(),
        ensures
            final(self).wf(),
            final(self)@ == (LedgerView {
                pending: Some(
                    staged_entry(
                        old(self)@.head,
                        counter,
                        fingerprint@,
                        kem_ciphertext@,
                        nonce@,
                        ciphertext@,
                        timestamp,
                    ),
                ),
                ..old(self)@
            }),
            line@ == staged_entry(
                old(self)@.head,
                counter,
                fingerprint@,
                kem_ciphertext@,
                nonce@,
                ciphertext@,
                timestamp,
            ).line(),
            old(self)@.numbered() && old(self)@.unused(counter) && is_nonce_of(nonce@, counter)
                ==> final(self)@.numbered(),
    {
        let new = chain_hash(
            &self.head,
            counter,
            fingerprint,
            kem_ciphertext.as_slice(),
            nonce.as_slice(),
            ciphertext.as_slice(),
        );
        let record = AuditRecord { prev: self.head, new, counter, timestamp };
        let line = record.line();
        self.pending = Some(
            StagedOperation {
                nonce,
                kem_ciphertext,
                ciphertext,
                record,
                fingerprint: Ghost(fingerprint@),
            },
        );
        line
    }

    /// Settles the staged operation once the caller has tried to append its
    /// line to the log. After a durable append the head moves to the
    /// record's digest, the record joins the history, and the operation's
    /// ciphertext, KEM ciphertext and audit reference are released. After a
    /// failed append the head stays where it was and the operation is
    /// dropped with the fault that stopped it.
    pub fn settle(&mut self, outcome: WriteOutcome) -> (response: Result<
        (Vec<u8>, Vec<u8>, String),
        ErrorKind,
    >)
        requires
            old(self).wf(),
            old(self)@.pending is Some,
        ensures
            final(self).wf(),
            final(self)@.pending is None,
            final(self)@.counter == old(self)@.counter,
            old(self)@.numbered() ==> final(self)@.numbered(),
            match outcome {
                WriteOutcome::Durable => {
                    let op = old(self)@.pending->Some_0;
                    &&& final(self)@.head == op.new
                    &&& final(self)@.history == old(self)@.history.push(op)
                    &&& response matches Ok(released)
                    &&& released.0@ == op.ciphertext
                    &&& released.1@ == op.kem_ciphertext
                    &&& released.2@ == hex_text(op.new)
                },
                WriteOutcome::Failed(fault) => {
                    &&& final(self)@.head == old(self)@.head
                    &&& final(self)@.history == old(self)@.history
                    &&& response == Err::<(Vec<u8>, Vec<u8>, String), ErrorKind>(
                        ErrorKind::AuditStorageError(fault),
                    )
                },
            },
    {
        let staged = self.pending.take();
        match staged {
            Some(op) => match outcome {
                WriteOutcome::Durable => {
                    let reference = op.record.reference();
                    let ghost before = self.history@;
                    self.head = op.record.new;
                    self.history = Ghost(before.push(op@));
                    proof {
                        let after = before.push(op@);
                        assert forall|i: int| 0 <= i < after.len() implies #[trigger] linked(
                            after,
                            i,
                        ) by {
                            if i < before.len() {
                                assert(linked(before, i));
                            }
                        }
                        if old(self)@.numbered() {
                            assert forall|i: int| 0 <= i < after.len() implies #[trigger] in_sequence(
                                after,
                                i,
                            ) by {
                                if i < before.len() {
                                    assert(in_sequence(before, i));
                                }
                            }
                        }
                    }
                    Ok((op.ciphertext, op.kem_ciphertext, reference))
                },
                WriteOutcome::Failed(fault) => Err(ErrorKind::AuditStorageError(fault)),
            },
            None => vstd::pervasive::unreached(),
        }
    }
}

/// Every durable record but the first is linked behind the one before it:
/// its head is the digest over that record's head and its own counter,
/// fingerprint, KEM ciphertext, nonce and ciphertext. The first record is
/// linked behind the genesis head.
pub proof fn lemma_chain_integrity(ledger: LedgerView, i: int)
    requires
        ledger.wf(),
        0 <= i < ledger.history.len(),
    ensures
        i == 0 ==> ledger.history[0].prev == genesis(),
        i > 0 ==> ledger.history[i].prev == ledger.history[i - 1].new,
        ledger.history[i].new == chain_digest(
            if i == 0 {
                genesis()
            } else {
                ledger.history[i - 1].new
            },
            ledger.history[i].counter,
            ledger.history[i].fingerprint,
            ledger.history[i].kem_ciphertext,
            ledger.history[i].nonce,
            ledger.history[i].ciphertext,
        ),
{
    assert(linked(ledger.history, i));
}

/// On a ledger on which whole operations run one after the other,
/// counters grow along the durable records: a later record has the larger
/// counter.
pub proof fn lemma_counters_grow(ledger: LedgerView, i: int, j: int)
    requires
        ledger.numbered(),
        0 <= i < j < ledger.history.len(),
    ensures
        ledger.history[i].counter < ledger.history[j].counter,
    decreases j - i,
{
    assert(in_sequence(ledger.history, j));
    if i < j - 1 {
        lemma_counters_grow(ledger, i, j - 1);
    }
}

/// On a ledger on which whole operations run one after the other, nonces
/// never repeat along the durable records: the nonce of a later record
/// starts with the larger counter.
pub proof fn lemma_nonce_prefixes_grow(ledger: LedgerView, i: int, j: int)
    requires
        ledger.numbered(),
        0 <= i < j < ledger.history.len(),
    ensures
        nonce_prefix(ledger.history[i].nonce) < nonce_prefix(ledger.history[j].nonce),
        ledger.history[i].nonce.subrange(0, 8) != ledger.history[j].nonce.subrange(0, 8),
        ledger.history[i].nonce != ledger.history[j].nonce,
{
    lemma_counters_grow(ledger, i, j);
    assert(in_sequence(ledger.history, i));
    assert(in_sequence(ledger.history, j));
    lemma_nonce_prefix_follows_counter(
        ledger.history[i].nonce,
        ledger.history[i].counter,
        ledger.history[j].nonce,
        ledger.history[j].counter,
    );
}

} // verus!
