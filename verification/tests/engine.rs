use aes_gcm_siv::aead::{Aead, KeyInit};
use aes_gcm_siv::{Aes256GcmSiv, Key, Nonce};
use pqcrypto_kyber::kyber1024;
use pqcrypto_traits::kem::{Ciphertext, PublicKey, SharedSecret};
use sovereign_vault::audit::{chain_hash, genesis_head, Ledger, WriteOutcome};
use sovereign_vault::kem::Encapsulation;
use sovereign_vault::engine::SovereignEngine;
use sovereign_vault::error::{ErrorKind, StorageFault};

/// One second and one millisecond on the engine's clock.
const S: u128 = 1_000_000_000;
const MS: u128 = 1_000_000;

fn engine() -> SovereignEngine {
    SovereignEngine::new(
        String::from("cpu:abc;disk:xyz"),
        String::from("seed-1"),
        String::from("unsigned"),
        String::from("/var/log/vault.log"),
    )
    .unwrap()
}

fn fingerprint() -> [u8; 32] {
    let mut hasher = blake3::Hasher::new();
    hasher.update(b"cpu:abc;disk:xyz");
    hasher.update(b"seed-1");
    hasher.finalize().into()
}

fn recipient() -> (Vec<u8>, kyber1024::SecretKey) {
    let (public, private) = kyber1024::keypair();
    (public.as_bytes().to_vec(), private)
}

struct Parsed {
    prev: String,
    new: String,
    counter: u64,
    timestamp: u64,
}

fn parse(line: &str) -> Parsed {
    assert!(line.ends_with('\n'));
    let fields: Vec<&str> = line.trim_end_matches('\n').split('|').collect();
    assert_eq!(fields.len(), 4);
    assert_eq!(fields[0].len(), 64);
    assert_eq!(fields[1].len(), 64);
    Parsed {
        prev: fields[0].to_string(),
        new: fields[1].to_string(),
        counter: fields[2].parse().unwrap(),
        timestamp: fields[3].parse().unwrap(),
    }
}

#[test]
fn construction_keeps_path_and_authorizes() {
    let engine = engine();
    assert_eq!(engine.log_path(), "/var/log/vault.log");
    assert!(engine.is_authorized());
}

#[test]
fn new_ledger_starts_at_genesis() {
    let ledger = Ledger::new();
    assert_eq!(ledger.counter(), 0);
    assert_eq!(ledger.head(), [0u8; 32]);
    assert_eq!(ledger.head(), genesis_head());
    assert_eq!(ledger.audit_reference(), "0".repeat(64));
    assert!(!ledger.is_awaiting());
    assert!(ledger.pending().is_none());
}

#[test]
fn counters_are_handed_out_from_one() {
    let mut ledger = Ledger::new();
    assert_eq!(ledger.next_counter(), 1);
    assert_eq!(ledger.next_counter(), 2);
    assert_eq!(ledger.counter(), 2);
    assert_eq!(ledger.head(), genesis_head());
}

#[test]
fn operation_stages_a_record_linked_to_the_head() {
    let mut engine = engine();
    let mut ledger = Ledger::new();
    let (public, _) = recipient();
    let data = b"first payload".to_vec();

    let line = engine.vault_execute_at(&mut ledger, 50, data.clone(), public).unwrap();

    assert_eq!(ledger.counter(), 1);
    assert_eq!(ledger.head(), genesis_head());
    assert!(ledger.is_awaiting());
    let staged = ledger.pending().unwrap();
    assert_eq!(staged.counter(), 1);
    assert_eq!(&staged.nonce()[..8], &1u64.to_be_bytes());
    assert_eq!(staged.kem_ciphertext().len(), 1568);
    assert_eq!(staged.ciphertext().len(), data.len() + 16);
    let record = staged.record();
    assert_eq!(record.prev, genesis_head());
    assert_eq!(record.counter, 1);
    assert_eq!(
        record.new,
        chain_hash(
            &genesis_head(),
            1,
            &fingerprint(),
            staged.kem_ciphertext(),
            &staged.nonce(),
            staged.ciphertext()
        )
    );
    assert_eq!(line, record.line());

    let parsed = parse(&line);
    assert_eq!(parsed.prev, "0".repeat(64));
    assert_eq!(parsed.new, hex::encode(record.new));
    assert_eq!(parsed.counter, 1);
    assert_eq!(parsed.timestamp, record.timestamp);
    assert!(parsed.timestamp > 1_600_000_000);
}

#[test]
fn durable_append_moves_the_head_and_releases_the_result() {
    let mut engine = engine();
    let mut ledger = Ledger::new();
    let (public, _) = recipient();

    engine.vault_execute_at(&mut ledger, 0, b"payload".to_vec(), public).unwrap();
    let staged = ledger.pending().unwrap();
    let expected_ct = staged.ciphertext().clone();
    let expected_kem = staged.kem_ciphertext().clone();
    let expected_head = staged.record().new;

    let (ct, kem_ct, reference) = ledger.settle(WriteOutcome::Durable).unwrap();
    assert_eq!(ct, expected_ct);
    assert_eq!(kem_ct, expected_kem);
    assert_eq!(reference, hex::encode(expected_head));
    assert_eq!(ledger.head(), expected_head);
    assert_eq!(ledger.audit_reference(), reference);
    assert_eq!(ledger.counter(), 1);
    assert!(!ledger.is_awaiting());
}

#[test]
fn failed_append_keeps_the_head() {
    for fault in [StorageFault::Open, StorageFault::Write, StorageFault::Sync] {
        let mut engine = engine();
        let mut ledger = Ledger::new();
        let (public, _) = recipient();

        engine.vault_execute_at(&mut ledger, 0, b"kept".to_vec(), public.clone()).unwrap();
        let first = ledger.settle(WriteOutcome::Durable).unwrap();
        let head = ledger.head();

        engine.vault_execute_at(&mut ledger, 0, b"lost".to_vec(), public.clone()).unwrap();
        assert_eq!(
            ledger.settle(WriteOutcome::Failed(fault)),
            Err(ErrorKind::AuditStorageError(fault))
        );
        assert_eq!(ledger.head(), head);
        assert_eq!(ledger.audit_reference(), first.2);
        assert_eq!(ledger.counter(), 2);
        assert!(!ledger.is_awaiting());

        // the next record links behind the last durable one; counter 2 stays unused
        let line = engine.vault_execute_at(&mut ledger, 0, b"next".to_vec(), public).unwrap();
        let parsed = parse(&line);
        assert_eq!(parsed.prev, first.2);
        assert_eq!(parsed.counter, 3);
    }
}

#[test]
fn bytes_that_are_no_key_fail_and_use_up_a_counter() {
    let mut engine = engine();
    let mut ledger = Ledger::new();
    assert_eq!(
        engine.vault_execute_at(&mut ledger, 0, b"payload".to_vec(), vec![0u8; 100]),
        Err(ErrorKind::InvalidPeerKey)
    );
    assert_eq!(ledger.counter(), 1);
    assert_eq!(ledger.head(), genesis_head());
    assert!(!ledger.is_awaiting());

    let (public, _) = recipient();
    let line = engine.vault_execute_at(&mut ledger, 0, b"payload".to_vec(), public).unwrap();
    assert_eq!(parse(&line).counter, 2);
}

#[test]
fn failed_operations_count_against_the_rate_limit() {
    let mut engine = engine();
    let mut ledger = Ledger::new();
    for _ in 0..15 {
        assert_eq!(
            engine.vault_execute_at(&mut ledger, 9, Vec::new(), Vec::new()),
            Err(ErrorKind::InvalidPeerKey)
        );
    }
    assert_eq!(
        engine.vault_execute_at(&mut ledger, 9, Vec::new(), Vec::new()),
        Err(ErrorKind::RateLimitExceeded)
    );
    assert_eq!(ledger.counter(), 15);
}

#[test]
fn rejected_call_leaves_no_footprint() {
    let mut engine = engine();
    let mut ledger = Ledger::new();
    let (public, _) = recipient();
    let mut log: Vec<String> = Vec::new();
    for _ in 0..15 {
        let line = engine.vault_execute_at(&mut ledger, 100 * S, b"x".to_vec(), public.clone()).unwrap();
        ledger.settle(WriteOutcome::Durable).unwrap();
        log.push(line);
    }
    let counter = ledger.counter();
    let head = ledger.head();

    for now in [100u128, 101, 102, 103] {
        assert_eq!(
            engine.vault_execute_at(&mut ledger, now * S, b"x".to_vec(), public.clone()),
            Err(ErrorKind::RateLimitExceeded)
        );
        assert_eq!(ledger.counter(), counter);
        assert_eq!(ledger.head(), head);
        assert!(!ledger.is_awaiting());
    }
    assert_eq!(log.len(), 15);

    // and the rejected calls did not count against the limit either
    assert!(engine.vault_execute_at(&mut ledger, 103 * S + 1, b"x".to_vec(), public).is_ok());
    assert_eq!(ledger.counter(), counter + 1);
}

#[test]
fn fifteen_operations_then_the_sixteenth_is_rejected() {
    let mut engine = engine();
    let mut ledger = Ledger::new();
    let (public, _) = recipient();
    let mut log = String::new();
    let mut references = Vec::new();

    for k in 0..15 {
        let data = format!("payload {}", k).into_bytes();
        let line = engine.vault_execute(&mut ledger, data, public.clone()).unwrap();
        log.push_str(&line);
        let (_, _, reference) = ledger.settle(WriteOutcome::Durable).unwrap();
        references.push(reference);
    }
    assert_eq!(
        engine.vault_execute(&mut ledger, b"one too many".to_vec(), public),
        Err(ErrorKind::RateLimitExceeded)
    );

    let lines: Vec<&str> = log.split_inclusive('\n').collect();
    assert_eq!(lines.len(), 15);
    let mut head = "0".repeat(64);
    for (k, line) in lines.iter().enumerate() {
        let parsed = parse(line);
        assert_eq!(parsed.prev, head);
        assert_eq!(parsed.counter, k as u64 + 1);
        assert_eq!(parsed.new, references[k]);
        head = parsed.new;
    }
    assert_eq!(ledger.audit_reference(), head);
    assert_eq!(ledger.counter(), 15);
}

#[test]
fn chain_is_recomputed_from_the_operations() {
    let mut engine = engine();
    let mut ledger = Ledger::new();
    let (public, _) = recipient();
    let mut head = genesis_head();

    for k in 0..6u64 {
        let data = vec![k as u8; 10 * k as usize];
        let line = engine.vault_execute_at(&mut ledger, k as u128, data, public.clone()).unwrap();
        let staged = ledger.pending().unwrap();
        let nonce = staged.nonce();
        let counter = staged.counter();

        let mut hasher = blake3::Hasher::new();
        hasher.update(&head);
        hasher.update(&counter.to_be_bytes());
        hasher.update(&fingerprint());
        hasher.update(staged.kem_ciphertext());
        hasher.update(&nonce);
        hasher.update(staged.ciphertext());
        let expected: [u8; 32] = hasher.finalize().into();

        let parsed = parse(&line);
        assert_eq!(parsed.prev, hex::encode(head));
        assert_eq!(parsed.new, hex::encode(expected));
        assert_eq!(parsed.counter, counter);

        let (_, _, reference) = ledger.settle(WriteOutcome::Durable).unwrap();
        assert_eq!(reference, hex::encode(expected));
        head = ledger.head();
        assert_eq!(head, expected);
    }
}

#[test]
fn nonce_prefixes_grow_with_every_operation() {
    let mut engine = engine();
    let mut ledger = Ledger::new();
    let (public, _) = recipient();
    let mut prefixes: Vec<[u8; 8]> = Vec::new();

    for k in 0..12u64 {
        engine.vault_execute_at(&mut ledger, k as u128, b"data".to_vec(), public.clone()).unwrap();
        let nonce = ledger.pending().unwrap().nonce();
        let mut prefix = [0u8; 8];
        prefix.copy_from_slice(&nonce[..8]);
        prefixes.push(prefix);
        ledger.settle(WriteOutcome::Durable).unwrap();
    }
    for pair in prefixes.windows(2) {
        assert!(pair[0] < pair[1]);
        assert!(u64::from_be_bytes(pair[0]) < u64::from_be_bytes(pair[1]));
    }
    for (k, prefix) in prefixes.iter().enumerate() {
        assert_eq!(u64::from_be_bytes(*prefix), k as u64 + 1);
    }
}

#[test]
fn recipient_recovers_the_payload() {
    let mut engine = engine();
    let mut ledger = Ledger::new();
    let (public, private) = recipient();
    let data = b"the quick brown fox jumps over the lazy dog".to_vec();

    engine.vault_execute(&mut ledger, data.clone(), public).unwrap();
    let staged = ledger.pending().unwrap();
    let nonce = staged.nonce();
    let counter = staged.counter();
    let (ct, kem_ct, _) = ledger.settle(WriteOutcome::Durable).unwrap();

    let kem_ct = kyber1024::Ciphertext::from_bytes(&kem_ct).unwrap();
    let secret = kyber1024::decapsulate(&kem_ct, &private);
    let key = sovereign_vault::kdf::derive(secret.as_bytes(), &fingerprint(), counter).unwrap();
    let cipher = Aes256GcmSiv::new(Key::<Aes256GcmSiv>::from_slice(&key));
    let opened = cipher.decrypt(Nonce::from_slice(&nonce), ct.as_slice()).unwrap();
    assert_eq!(opened, data);
}

#[test]
fn another_device_does_not_recover_the_payload() {
    let mut engine = engine();
    let mut ledger = Ledger::new();
    let (public, private) = recipient();

    engine.vault_execute(&mut ledger, b"secret".to_vec(), public).unwrap();
    let staged = ledger.pending().unwrap();
    let nonce = staged.nonce();
    let counter = staged.counter();
    let (ct, kem_ct, _) = ledger.settle(WriteOutcome::Durable).unwrap();

    let kem_ct = kyber1024::Ciphertext::from_bytes(&kem_ct).unwrap();
    let secret = kyber1024::decapsulate(&kem_ct, &private);
    let key = sovereign_vault::kdf::derive(secret.as_bytes(), &[0u8; 32], counter).unwrap();
    let cipher = Aes256GcmSiv::new(Key::<Aes256GcmSiv>::from_slice(&key));
    assert!(cipher.decrypt(Nonce::from_slice(&nonce), ct.as_slice()).is_err());
}

#[test]
fn engines_share_one_chain_and_limit_on_their_own() {
    let mut first = engine();
    let mut second = SovereignEngine::new(
        String::from("other"),
        String::from("seed-2"),
        String::new(),
        String::from("vault.log"),
    )
    .unwrap();
    let mut ledger = Ledger::new();
    let (public, _) = recipient();

    for _ in 0..15 {
        first.vault_execute_at(&mut ledger, 5, Vec::new(), public.clone()).unwrap();
        ledger.settle(WriteOutcome::Durable).unwrap();
    }
    assert_eq!(
        first.vault_execute_at(&mut ledger, 5, Vec::new(), public.clone()),
        Err(ErrorKind::RateLimitExceeded)
    );
    let head = ledger.audit_reference();
    let line = second.vault_execute_at(&mut ledger, 5, Vec::new(), public).unwrap();
    let parsed = parse(&line);
    assert_eq!(parsed.prev, head);
    assert_eq!(parsed.counter, 16);
}

#[test]
fn rate_limit_check_records_admissions_only() {
    let mut engine = engine();
    for _ in 0..15 {
        assert!(!engine.check_rate_limit_at(20 * S));
    }
    assert!(engine.check_rate_limit_at(20 * S));
    assert!(engine.check_rate_limit_at(23 * S));
    assert!(!engine.check_rate_limit_at(23 * S + 500 * MS));
}

#[test]
fn rate_limit_check_on_the_engine_clock() {
    let mut engine = engine();
    for _ in 0..15 {
        assert!(!engine.check_rate_limit());
    }
    assert!(engine.check_rate_limit());
}

#[test]
fn engine_knows_its_fingerprint() {
    assert_eq!(engine().fingerprint(), fingerprint());
}

#[test]
fn first_record_of_a_chain_links_behind_genesis() {
    let engine = engine();
    let mut ledger = Ledger::new();

    let line = engine.append_to_audit(&mut ledger, 1, [0u8; 12], Vec::new(), Vec::new());
    let (ct, kem_ct, reference) = ledger.settle(WriteOutcome::Durable).unwrap();

    let parsed = parse(&line);
    assert_eq!(parsed.prev, "0".repeat(64));
    assert_eq!(parsed.counter, 1);
    assert_eq!(parsed.new, reference);
    let expected = chain_hash(&[0u8; 32], 1, &fingerprint(), &[], &[0u8; 12], &[]);
    assert_eq!(reference, hex::encode(expected));
    assert!(ct.is_empty());
    assert!(kem_ct.is_empty());
    assert_eq!(ledger.head(), expected);
    // the audit step hands out no counter
    assert_eq!(ledger.counter(), 0);
}

#[test]
fn audit_step_takes_any_counter_and_nonce() {
    let mut ledger = Ledger::new();
    let fingerprint = [3u8; 32];
    let mut head = genesis_head();
    for (counter, nonce) in [(9u64, [1u8; 12]), (2, [0xff; 12]), (2, [0xff; 12]), (u64::MAX, [0; 12])] {
        let line = ledger.stage(&fingerprint, counter, vec![7, 7], nonce, vec![8], 1234);
        let expected = chain_hash(&head, counter, &fingerprint, &[7, 7], &nonce, &[8]);
        assert_eq!(
            line,
            format!("{}|{}|{}|1234\n", hex::encode(head), hex::encode(expected), counter)
        );
        let staged = ledger.pending().unwrap();
        assert_eq!(staged.counter(), counter);
        assert_eq!(staged.nonce(), nonce);
        ledger.settle(WriteOutcome::Durable).unwrap();
        head = ledger.head();
        assert_eq!(head, expected);
    }
}

#[test]
fn staging_again_drops_what_was_staged() {
    let mut ledger = Ledger::new();
    ledger.stage(&[0u8; 32], 1, vec![1], [0u8; 12], vec![1], 0);
    ledger.stage(&[0u8; 32], 2, vec![2], [0u8; 12], vec![2], 0);
    let (ct, kem_ct, _) = ledger.settle(WriteOutcome::Durable).unwrap();
    assert_eq!(ct, vec![2]);
    assert_eq!(kem_ct, vec![2]);
    assert!(!ledger.is_awaiting());
}

#[test]
fn operation_is_completed_from_what_the_outside_gave() {
    let engine = engine();
    let mut ledger = Ledger::new();
    let secret = vec![0x21u8; 32];
    let kem_ciphertext = vec![0x12u8; 1568];
    let data = b"completed".to_vec();
    let encapsulated =
        Encapsulation { kem_ciphertext: kem_ciphertext.clone(), shared_secret: secret.clone() };

    let line = engine
        .complete(&mut ledger, 5, encapsulated, Ok([4, 3, 2, 1]), &data, 1_700_000_000)
        .unwrap();

    let nonce = [0u8, 0, 0, 0, 0, 0, 0, 5, 4, 3, 2, 1];
    let key = sovereign_vault::kdf::derive(&secret, &fingerprint(), 5).unwrap();
    let cipher = Aes256GcmSiv::new(Key::<Aes256GcmSiv>::from_slice(&key));
    let ciphertext = cipher.encrypt(Nonce::from_slice(&nonce), data.as_slice()).unwrap();
    let new = chain_hash(&genesis_head(), 5, &fingerprint(), &kem_ciphertext, &nonce, &ciphertext);
    assert_eq!(
        line,
        format!("{}|{}|5|1700000000\n", "0".repeat(64), hex::encode(new))
    );
    let staged = ledger.pending().unwrap();
    assert_eq!(staged.nonce(), nonce);
    assert_eq!(staged.kem_ciphertext(), &kem_ciphertext);
    assert_eq!(staged.ciphertext(), &ciphertext);
    assert_eq!(
        ledger.settle(WriteOutcome::Durable),
        Ok((ciphertext, kem_ciphertext, hex::encode(new)))
    );
}

#[test]
fn operation_without_entropy_leaves_the_ledger() {
    let engine = engine();
    let mut ledger = Ledger::new();
    let encapsulated =
        Encapsulation { kem_ciphertext: vec![0u8; 1568], shared_secret: vec![0u8; 32] };
    assert_eq!(
        engine.complete(&mut ledger, 1, encapsulated, Err(getrandom::Error::UNSUPPORTED), b"x", 0),
        Err(ErrorKind::EntropyFailure)
    );
    assert!(!ledger.is_awaiting());
    assert_eq!(ledger.head(), genesis_head());
}

#[test]
fn request_three_and_a_half_seconds_after_a_burst_is_admitted() {
    let mut engine = engine();
    let t0 = 2 * S + 40 * MS;
    for _ in 0..15 {
        assert!(!engine.check_rate_limit_at(t0));
    }
    assert!(engine.check_rate_limit_at(t0 + 3 * S));
    assert!(!engine.check_rate_limit_at(t0 + 3500 * MS));
    // only the new stamp is left: fourteen more fit
    for _ in 0..14 {
        assert!(!engine.check_rate_limit_at(t0 + 3500 * MS));
    }
    assert!(engine.check_rate_limit_at(t0 + 3500 * MS));
}
