//! Authenticated encryption of entry content and the content-hash
//! derivation: AES-256-GCM under a fresh random 96-bit nonce, then the
//! SHA-256 hex digest of the ciphertext.
//!
//! The digest is deliberately a digest of the ciphertext, nonce included,
//! so hashing the same content twice yields different digests: the chain
//! records that an encryption event happened, it is not content-addressed.

use vstd::prelude::*;
use vstd::string::StringSliceAdditionalSpecFns;

use aes_gcm::aead::{Aead, KeyInit};
use aes_gcm::{Aes256Gcm, Nonce};
use rand::rngs::OsRng;
use rand::RngCore;
use sha2::{Digest, Sha256};

use crate::LedgerError;

verus! {

/// The required key length of the cipher, in bytes.
pub const KEY_LEN: usize = 32;

/// The nonce length of the cipher, in bytes.
pub const NONCE_LEN: usize = 12;

/// The largest content, in bytes, that the cipher accepts in one call.
pub const CONTENT_MAX: u64 = 0x10_0000_0000;

/// The AES-256-GCM ciphertext of `msg` under `key` and `nonce`: a pure
/// function of the three, left uninterpreted.
pub uninterp spec fn aes_gcm_ct(key: Seq<u8>, nonce: Seq<u8>, msg: Seq<u8>) -> Seq<u8>;

/// The lower-case hex rendering of the SHA-256 digest of `bytes`: a pure
/// function of the bytes, left uninterpreted.
pub uninterp spec fn sha256_hex_of(bytes: Seq<u8>) -> Seq<char>;

/// A character of the lower-case hex alphabet.
pub open spec fn is_lower_hex_digit(c: char) -> bool {
    ('0' <= c && c <= '9') || ('a' <= c && c <= 'f')
}

/// Every character of `s` is a lower-case hex digit.
pub open spec fn lower_hex(s: Seq<char>) -> bool {
    forall|i: int| 0 <= i < s.len() ==> is_lower_hex_digit(#[trigger] s[i])
}

/// A hex string holds no newline: the hex alphabet does not contain one.
pub proof fn lemma_hex_newline_free(s: Seq<char>)
    requires
        lower_hex(s),
    ensures
        crate::newline_free(s),
{
}

/// Relies on rand's `OsRng::fill_bytes`: fills the nonce with fresh
/// operating-system randomness. The value depends on chance, so only its
/// length is promised.
#[verifier::external_body]
fn random_nonce() -> (r: Vec<u8>)
    ensures
        r@.len() == NONCE_LEN,
{
    let mut nonce = [0u8; 12];
    OsRng.fill_bytes(&mut nonce);
    nonce.to_vec()
}

/// Relies on aes-gcm's `Aes256Gcm`: `new_from_slice` accepts exactly a
/// 32-byte key, and `encrypt` returns the ciphertext with the 16-byte tag
/// appended, failing only when the message exceeds the AES-GCM length
/// limit of 2^36 bytes.
#[verifier::external_body]
fn aes256gcm_encrypt(key: &[u8], nonce: &Vec<u8>, msg: &[u8]) -> (r: Result<
    Vec<u8>,
    LedgerError,
>)
    requires
        key@.len() == KEY_LEN,
        nonce@.len() == NONCE_LEN,
    ensures
        r is Ok ==> r->Ok_0@ == aes_gcm_ct(key@, nonce@, msg@),
        r is Ok ==> r->Ok_0@.len() == msg@.len() + 16,
        msg@.len() <= CONTENT_MAX ==> r is Ok,
        r is Err ==> r->Err_0 == LedgerError::EncryptionFailure,
{
    let cipher = match Aes256Gcm::new_from_slice(key) {
        Ok(c) => c,
        Err(_) => return Err(LedgerError::KeyLength),
    };
    match cipher.encrypt(Nonce::from_slice(nonce.as_slice()), msg) {
        Ok(ct) => Ok(ct),
        Err(_) => Err(LedgerError::EncryptionFailure),
    }
}

/// Relies on sha2's `Sha256` and the two-digits-per-byte lower-case hex
/// formatting of its 32-byte digest: 64 characters, all drawn from
/// `0123456789abcdef`.
#[verifier::external_body]
fn sha256_hex(bytes: &Vec<u8>) -> (r: String)
    ensures
        r@ == sha256_hex_of(bytes@),
        r@.len() == 64,
        lower_hex(r@),
{
    let mut hasher = Sha256::new();
    hasher.update(bytes.as_slice());
    format!("{:x}", hasher.finalize())
}

/// Encrypts `content` under a fresh random nonce and returns the ciphertext
/// together with the hex digest of that ciphertext.
///
/// The key must be exactly 32 bytes; the cipher refuses only content above
/// its length limit, so on any content of at most `CONTENT_MAX` bytes the
/// call succeeds. Because the nonce is drawn anew on every call, the digest
/// is not a stable fingerprint of `content`.
pub fn encrypt_and_hash(content: &str, key_bytes: &[u8]) -> (r: Result<
    (Vec<u8>, String),
    LedgerError,
>)
    requires
        key_bytes@.len() == KEY_LEN,
    ensures
        r is Ok ==> {
            &&& exists|nonce: Seq<u8>|
                nonce.len() == NONCE_LEN && r->Ok_0.0@ == aes_gcm_ct(
                    key_bytes@,
                    nonce,
                    content.spec_bytes(),
                )
            &&& r->Ok_0.0@.len() == content.spec_bytes().len() + 16
            &&& r->Ok_0.1@ == sha256_hex_of(r->Ok_0.0@)
            &&& r->Ok_0.1@.len() == 64
            &&& lower_hex(r->Ok_0.1@)
        },
        content.spec_bytes().len() <= CONTENT_MAX ==> r is Ok,
        r is Err ==> r->Err_0 == LedgerError::EncryptionFailure,
{
    let nonce = random_nonce();
    let ciphertext = match aes256gcm_encrypt(key_bytes, &nonce, content.as_bytes()) {
        Ok(ct) => ct,
        Err(e) => {
            return Err(e);
        },
    };
    let hash = sha256_hex(&ciphertext);
    Ok((ciphertext, hash))
}

} // verus!
