//! An engine that seals a payload for the holder of a post-quantum key and
//! records every sealed payload in a hash-chained audit ledger, behind a
//! sliding-window rate limit.
//!
//! One operation runs through the parts in this order: the rate limiter of
//! [`limiter`] decides whether it may run; the ledger of [`audit`] gives it
//! a counter; [`kem`] encapsulates a shared secret to the recipient;
//! [`kdf`] derives the session key; [`aead`] builds the nonce and encrypts;
//! [`audit`] draws up the record and, once the caller has made it durable,
//! moves the head of the chain. [`engine`] puts the parts together.

pub mod aead;
pub mod audit;
pub mod clock;
pub mod digest;
pub mod encoding;
pub mod engine;
pub mod error;
pub mod kdf;
pub mod kem;
pub mod limiter;

pub use crate::audit::{AuditRecord, Ledger, StagedOperation, WriteOutcome};
pub use crate::engine::{SealedPayload, SovereignEngine};
pub use crate::error::{ErrorKind, StorageFault};
pub use crate::limiter::RateLimiter;
