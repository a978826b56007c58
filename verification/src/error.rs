//! What can go wrong with an operation.

use vstd::prelude::*;
use vstd::string::StringExecFns;

verus! {

/// The step of the durable append that failed.
#[derive(Clone, Copy, Debug, PartialEq, Eq, Structural)]
pub enum StorageFault {
    /// The log could not be opened.
    Open,
    /// The record could not be written.
    Write,
    /// The record was written but could not be forced to stable storage.
    Sync,
}

/// Why an operation, or the construction of an engine, ended without a
/// result. Every failure is final for the call that met it.
#[derive(Clone, Copy, Debug, PartialEq, Eq, Structural)]
pub enum ErrorKind {
    /// A full burst is still inside the rate-limit window.
    RateLimitExceeded,
    /// The recipient's bytes are not a public key of the KEM.
    InvalidPeerKey,
    /// The key derivation function refused the requested output length.
    KeyDerivationFailure,
    /// The operating system gave no random bytes.
    EntropyFailure,
    /// The cipher refused its inputs.
    EncryptionFailure,
    /// The audit record did not reach stable storage.
    AuditStorageError(StorageFault),
    /// The licence was not accepted when the engine was constructed.
    AuthorizationFailure,
}

impl ErrorKind {
    /// The text that names this failure to a caller.
    pub open spec fn spec_message(self) -> Seq<char> {
        match self {
            ErrorKind::RateLimitExceeded => "Rate Limit Exceeded"@,
            ErrorKind::InvalidPeerKey => "Invalid PQC Key"@,
            ErrorKind::KeyDerivationFailure => "KDF failed"@,
            ErrorKind::EntropyFailure => "Entropy fail"@,
            ErrorKind::EncryptionFailure => "Encryption fail"@,
            ErrorKind::AuditStorageError(StorageFault::Open) => "Storage error"@,
            ErrorKind::AuditStorageError(StorageFault::Write) => "Write fail"@,
            ErrorKind::AuditStorageError(StorageFault::Sync) => "Sync fail"@,
            ErrorKind::AuthorizationFailure => "Authentication Failed"@,
        }
    }

    /// The text that names this failure to a caller.
    pub fn message(&self) -> (text: String)
        ensures
            text@ == self.spec_message(),
    {
        let text: &str = match self {
            ErrorKind::RateLimitExceeded => "Rate Limit Exceeded",
            ErrorKind::InvalidPeerKey => "Invalid PQC Key",
            ErrorKind::KeyDerivationFailure => "KDF failed",
            ErrorKind::EntropyFailure => "Entropy fail",
            ErrorKind::EncryptionFailure => "Encryption fail",
            ErrorKind::AuditStorageError(StorageFault::Open) => "Storage error",
            ErrorKind::AuditStorageError(StorageFault::Write) => "Write fail",
            ErrorKind::AuditStorageError(StorageFault::Sync) => "Sync fail",
            ErrorKind::AuthorizationFailure => "Authentication Failed",
        };
        String::from_str(text)
    }
}

} // verus!
