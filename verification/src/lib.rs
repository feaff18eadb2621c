//! Orchestration core for a shielded-transaction wallet: key-bundle and
//! mnemonic language handling, batch note decryption bookkeeping, Merkle
//! witness reconstruction, and transaction assembly planning.  The
//! cryptographic primitives themselves live in an external library; this
//! crate owns the surrounding logic and proves its contracts.

pub mod assembly;
pub mod batch;
pub mod decimal;
pub mod errors;
pub mod gzip;
pub mod hex;
pub mod keys;
pub mod language;
pub mod notes;
pub mod nullifier;
pub mod paths;
pub mod witness;
