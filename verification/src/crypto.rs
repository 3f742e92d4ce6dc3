//! Trusted boundary around the authenticated cipher and the randomness
//! source.
//!
//! The vault delegates confidentiality to AES-256-GCM (the `aes_gcm` crate)
//! and fresh key/nonce material to `rand`. Verus believes the contracts
//! stated here and never looks at the bodies; everything above this module
//! is verified against these contracts alone.

use vstd::prelude::*;

use aes_gcm::aead::Aead;
use aes_gcm::Aes256Gcm;
use aes_gcm::KeyInit;
use aes_gcm::Nonce;

verus! {

/// Byte length of the one key a vault is bound to (AES-256).
pub const KEY_LEN: usize = 32;

/// Byte length of the per-message nonce (96-bit GCM nonce).
pub const NONCE_LEN: usize = 12;

/// Largest plaintext AES-GCM will encrypt, in bytes.
pub const GCM_MAX_PLAINTEXT: u64 = 1u64 << 36;

/// Names the outcome of AES-256-GCM decryption for a given key, nonce and
/// ciphertext: `Some(plaintext)` when authentication succeeds, `None` when
/// the input is rejected (tag mismatch, truncation, oversized input).
/// Decryption is a pure function of these three arguments, so the name is
/// well defined; nothing here says what the value is.
pub uninterp spec fn dec_of(key: Seq<u8>, nonce: Seq<u8>, ciphertext: Seq<u8>) -> Option<Seq<u8>>;

/// Relies on `aes_gcm::Aes256Gcm::new_from_slice` (via `crypto_common::KeyInit`):
/// it returns `Ok` exactly when the key slice has the cipher's key length,
/// 32 bytes.
#[verifier::external_body]
pub(crate) fn key_accepted(key: &[u8]) -> (r: bool)
    ensures
        r == (key@.len() == KEY_LEN),
{
    Aes256Gcm::new_from_slice(key).is_ok()
}

/// Relies on `rand::random`: 32 freshly drawn bytes. Nothing is assumed of
/// their values; every outcome has this length.
#[verifier::external_body]
pub(crate) fn fresh_key() -> (r: Vec<u8>)
    ensures
        r@.len() == KEY_LEN,
{
    rand::random::<[u8; 32]>().to_vec()
}

/// Relies on `rand::random`: 12 freshly drawn bytes. Nothing is assumed of
/// their values; every outcome has this length.
#[verifier::external_body]
pub(crate) fn fresh_nonce() -> (r: Vec<u8>)
    ensures
        r@.len() == NONCE_LEN,
{
    rand::random::<[u8; 12]>().to_vec()
}

/// Relies on `aes_gcm`'s `Aead::encrypt` for `Aes256Gcm`: with a 32-byte key
/// and a 12-byte nonce it succeeds exactly when the plaintext is at most
/// `GCM_MAX_PLAINTEXT` bytes, appends the 16-byte authentication tag, and
/// produces a ciphertext that `Aead::decrypt` under the same key and nonce
/// maps back to the plaintext.
#[verifier::external_body]
pub(crate) fn aead_encrypt(key: &[u8], nonce: &[u8], plaintext: &[u8]) -> (r: Result<
    Vec<u8>,
    (),
>)
    requires
        key@.len() == KEY_LEN,
        nonce@.len() == NONCE_LEN,
        plaintext@.len() + 16 <= usize::MAX,
    ensures
        r is Ok <==> plaintext@.len() <= GCM_MAX_PLAINTEXT as nat,
        r is Ok ==> r->Ok_0@.len() == plaintext@.len() + 16,
        r is Ok ==> dec_of(key@, nonce@, r->Ok_0@) == Some(plaintext@),
{
    let cipher = match Aes256Gcm::new_from_slice(key) {
        Ok(c) => c,
        Err(_) => {
            return Err(());
        },
    };
    match cipher.encrypt(Nonce::from_slice(nonce), plaintext) {
        Ok(ct) => Ok(ct),
        Err(_) => Err(()),
    }
}

/// Relies on `aes_gcm`'s `Aead::decrypt` for `Aes256Gcm`: deterministic in
/// key, nonce and ciphertext — its outcome is exactly the named `dec_of`.
#[verifier::external_body]
pub(crate) fn aead_decrypt(key: &[u8], nonce: &[u8], ciphertext: &[u8]) -> (r: Result<
    Vec<u8>,
    (),
>)
    requires
        key@.len() == KEY_LEN,
        nonce@.len() == NONCE_LEN,
    ensures
        r is Ok <==> dec_of(key@, nonce@, ciphertext@) is Some,
        r is Ok ==> Some(r->Ok_0@) == dec_of(key@, nonce@, ciphertext@),
{
    let cipher = match Aes256Gcm::new_from_slice(key) {
        Ok(c) => c,
        Err(_) => {
            return Err(());
        },
    };
    match cipher.decrypt(Nonce::from_slice(nonce), ciphertext) {
        Ok(pt) => Ok(pt),
        Err(_) => Err(()),
    }
}

} // verus!
