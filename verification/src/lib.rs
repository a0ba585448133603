//! A tamper-evident, append-only ledger of encrypted diary entries.
//!
//! Each entry's content is encrypted with AES-256-GCM under a fresh random
//! nonce, the ciphertext is hashed with SHA-256, and the hex digest is linked
//! to the previous block's digest, forming a backward hash chain. The crate
//! provides the chaining engine: block construction, appending, verification
//! of the link invariant, lookup by filename, and CSV report rendering.
//! Reading and writing the persisted ledger is left to the caller.

use vstd::prelude::*;

pub mod block;
pub mod chain;
pub mod crypto;
pub mod report;

pub use block::{Block, DiaryMetadata, create_block};
pub use chain::{append_block, find_by_filename, ingest_entry, verify_chain};
pub use crypto::encrypt_and_hash;
pub use report::chain_to_csv;

verus! {

/// A string free of newline characters.
pub open spec fn newline_free(s: Seq<char>) -> bool {
    forall|i: int| 0 <= i < s.len() ==> s[i] != '\n'
}

/// The unrecoverable failures of the chaining engine, per operation.
///
/// A missing entry in a lookup is a normal `None` result, and a broken link
/// found by the verifier is reported as the offending block index; neither is
/// a `LedgerError`.
#[derive(Clone, Copy, Debug, PartialEq, Eq, Structural)]
pub enum LedgerError {
    /// The supplied key is not exactly 32 bytes long.
    KeyLength,
    /// The cipher itself refused the content.
    EncryptionFailure,
    /// The persisted ledger exists but does not parse as a chain.
    ChainRead,
    /// The persisted ledger could not be rewritten.
    ChainWrite,
}

} // verus!
