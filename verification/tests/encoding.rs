use sovereign_vault::audit::{chain_hash, genesis_head, AuditRecord};
use sovereign_vault::clock::timestamp_from;
use sovereign_vault::digest::DIGEST_BYTES;
use sovereign_vault::encoding::{be64_bytes, push_decimal};
use sovereign_vault::error::{ErrorKind, StorageFault};
use std::time::{Duration, SystemTime};

fn decimal(n: u64) -> String {
    let mut text = String::new();
    push_decimal(&mut text, n);
    text
}

#[test]
fn big_endian_bytes_of_a_counter() {
    assert_eq!(be64_bytes(0), [0u8; 8]);
    assert_eq!(be64_bytes(1), [0, 0, 0, 0, 0, 0, 0, 1]);
    assert_eq!(be64_bytes(0x0102_0304_0506_0708), [1, 2, 3, 4, 5, 6, 7, 8]);
    assert_eq!(be64_bytes(u64::MAX), [0xff; 8]);
    assert_eq!(be64_bytes(256), [0, 0, 0, 0, 0, 0, 1, 0]);
}

#[test]
fn big_endian_bytes_agree_with_std() {
    for value in [0u64, 1, 255, 256, 65_535, 65_536, 1 << 32, (1 << 56) - 1, 1 << 56, u64::MAX - 1] {
        assert_eq!(be64_bytes(value), value.to_be_bytes());
    }
}

#[test]
fn big_endian_bytes_keep_the_order() {
    let values = [0u64, 1, 255, 256, 1 << 40, u64::MAX];
    for pair in values.windows(2) {
        assert!(be64_bytes(pair[0]) < be64_bytes(pair[1]));
    }
}

#[test]
fn decimal_text_of_numbers() {
    assert_eq!(decimal(0), "0");
    assert_eq!(decimal(7), "7");
    assert_eq!(decimal(10), "10");
    assert_eq!(decimal(1_700_000_000), "1700000000");
    assert_eq!(decimal(u64::MAX), "18446744073709551615");
}

#[test]
fn decimal_text_is_appended() {
    let mut text = String::from("n=");
    push_decimal(&mut text, 42);
    push_decimal(&mut text, 0);
    assert_eq!(text, "n=420");
}

#[test]
fn genesis_head_is_all_zero() {
    assert_eq!(genesis_head(), [0u8; 32]);
    assert_eq!(DIGEST_BYTES, 32);
}

#[test]
fn record_line_has_four_fields() {
    let mut new = [0u8; 32];
    for (i, byte) in new.iter_mut().enumerate() {
        *byte = (i as u8) * 8 + 1;
    }
    let record = AuditRecord { prev: genesis_head(), new, counter: 3, timestamp: 1_700_000_123 };
    let expected = format!(
        "{}|{}|3|1700000123\n",
        "0".repeat(64),
        "0109111921293139414951596169717981899199a1a9b1b9c1c9d1d9e1e9f1f9"
    );
    assert_eq!(record.line(), expected);
}

#[test]
fn record_line_agrees_with_the_hex_crate() {
    let prev = [0xabu8; 32];
    let new = [0x0fu8; 32];
    let record = AuditRecord { prev, new, counter: u64::MAX, timestamp: 0 };
    let expected =
        format!("{}|{}|{}|{}\n", hex::encode(prev), hex::encode(new), u64::MAX, 0);
    assert_eq!(record.line(), expected);
}

#[test]
fn audit_reference_is_the_new_head_in_lower_case_hex() {
    let record =
        AuditRecord { prev: [0u8; 32], new: [0xC4u8; 32], counter: 1, timestamp: 1 };
    assert_eq!(record.reference(), "c4".repeat(32));
}

#[test]
fn chain_hash_is_blake3_over_the_parts_in_order() {
    let prev = [7u8; 32];
    let fingerprint = [9u8; 32];
    let kem_ciphertext = vec![1u8, 2, 3];
    let nonce = [5u8; 12];
    let ciphertext = vec![0xeeu8; 40];

    let mut hasher = blake3::Hasher::new();
    hasher.update(&prev);
    hasher.update(&77u64.to_be_bytes());
    hasher.update(&fingerprint);
    hasher.update(&kem_ciphertext);
    hasher.update(&nonce);
    hasher.update(&ciphertext);
    let expected: [u8; 32] = hasher.finalize().into();

    assert_eq!(chain_hash(&prev, 77, &fingerprint, &kem_ciphertext, &nonce, &ciphertext), expected);
    assert_ne!(expected, prev);
}

#[test]
fn chain_hash_of_empty_parts() {
    let zero = [0u8; 32];
    let mut preimage = Vec::new();
    preimage.extend_from_slice(&zero);
    preimage.extend_from_slice(&[0u8; 8]);
    preimage.extend_from_slice(&zero);
    let expected: [u8; 32] = blake3::hash(&preimage).into();
    assert_eq!(chain_hash(&zero, 0, &zero, &[], &[], &[]), expected);
}

#[test]
fn chain_hash_depends_on_every_part() {
    let base = chain_hash(&[0u8; 32], 1, &[0u8; 32], &[1], &[2], &[3]);
    assert_ne!(base, chain_hash(&[1u8; 32], 1, &[0u8; 32], &[1], &[2], &[3]));
    assert_ne!(base, chain_hash(&[0u8; 32], 2, &[0u8; 32], &[1], &[2], &[3]));
    assert_ne!(base, chain_hash(&[0u8; 32], 1, &[1u8; 32], &[1], &[2], &[3]));
    assert_ne!(base, chain_hash(&[0u8; 32], 1, &[0u8; 32], &[9], &[2], &[3]));
    assert_ne!(base, chain_hash(&[0u8; 32], 1, &[0u8; 32], &[1], &[9], &[3]));
    assert_ne!(base, chain_hash(&[0u8; 32], 1, &[0u8; 32], &[1], &[2], &[9]));
}

#[test]
fn every_failure_has_its_message() {
    assert_eq!(ErrorKind::RateLimitExceeded.message(), "Rate Limit Exceeded");
    assert_eq!(ErrorKind::InvalidPeerKey.message(), "Invalid PQC Key");
    assert_eq!(ErrorKind::KeyDerivationFailure.message(), "KDF failed");
    assert_eq!(ErrorKind::EntropyFailure.message(), "Entropy fail");
    assert_eq!(ErrorKind::EncryptionFailure.message(), "Encryption fail");
    assert_eq!(ErrorKind::AuditStorageError(StorageFault::Open).message(), "Storage error");
    assert_eq!(ErrorKind::AuditStorageError(StorageFault::Write).message(), "Write fail");
    assert_eq!(ErrorKind::AuditStorageError(StorageFault::Sync).message(), "Sync fail");
    assert_eq!(ErrorKind::AuthorizationFailure.message(), "Authentication Failed");
}

#[test]
fn timestamp_is_the_measured_seconds_or_zero_before_the_epoch() {
    assert_eq!(timestamp_from(Ok(0)), 0);
    assert_eq!(timestamp_from(Ok(1_700_000_123)), 1_700_000_123);
    assert_eq!(timestamp_from(Ok(u64::MAX)), u64::MAX);

    let later = SystemTime::UNIX_EPOCH + Duration::from_secs(10);
    let before_the_epoch = SystemTime::UNIX_EPOCH.duration_since(later);
    assert!(before_the_epoch.is_err());
    assert_eq!(timestamp_from(before_the_epoch.map(|measure| measure.as_secs())), 0);
}
