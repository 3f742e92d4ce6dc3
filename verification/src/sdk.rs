//! Encrypted local vault for named byte blobs.
//!
//! A vault is bound to one storage root and one key for its whole life.
//! Every stored object is the 12-byte nonce followed by the AES-256-GCM
//! ciphertext of the plaintext under that key. The vault itself decides,
//! encrypts and decrypts; reading and writing the bytes at the storage root
//! is the caller's side of the split, so every operation here takes or
//! returns the raw object bytes.

use vstd::prelude::*;
use vstd::slice::slice_subrange;
use vstd::slice::slice_to_vec;
use vstd::string::StringExecFns;

use crate::crypto;

verus! {

/// Failures of the vault, by kind, as callers branch on them.
#[derive(Debug, Clone, Copy, PartialEq, Eq, Structural)]
pub enum SdkError {
    /// A filesystem step (create, read, write, remove) failed, or the
    /// requested object does not exist.
    Io,
    /// The cipher rejected the key, encryption failed, or decryption failed
    /// (wrong key, corrupted, truncated or tampered ciphertext).
    Crypto,
    /// The operation was attempted on a vault that is already destroyed.
    InvalidState,
}

/// Header metadata for stored objects, anticipated for streamed large
/// objects. The minimal object format does not write it; a conformant
/// reader must not assume it is present.
#[derive(Debug, Clone, PartialEq, Eq)]
pub struct VaultHeader {
    pub original_filename: String,
    pub timestamp: u64,
    pub version: u8,
    // total_size is optional because the writer may stream data of unknown
    // length
    pub total_size: Option<u64>,
}

/// The storage name derived from a logical name: the logical name with the
/// fixed object suffix appended.
pub open spec fn stored_name_spec(logical_name: Seq<char>) -> Seq<char> {
    logical_name + ".enc"@
}

/// What a stored object's bytes decrypt to under `key`: the first 12 bytes
/// are the nonce, the rest the authenticated ciphertext.
pub open spec fn plaintext_of(key: Seq<u8>, bytes: Seq<u8>) -> Option<Seq<u8>> {
    if bytes.len() < 12 {
        None
    } else {
        crypto::dec_of(key, bytes.take(12), bytes.skip(12))
    }
}

/// Deriving storage names is injective: two distinct logical names can never
/// collide on one storage name, so the objects one vault creates never
/// overwrite each other.
pub proof fn lemma_stored_name_injective(a: Seq<char>, b: Seq<char>)
    requires
        a != b,
    ensures
        stored_name_spec(a) != stored_name_spec(b),
{
    if stored_name_spec(a) == stored_name_spec(b) {
        assert((a + ".enc"@).len() == a.len() + ".enc"@.len());
        assert((b + ".enc"@).len() == b.len() + ".enc"@.len());
        assert(a.len() == b.len());
        assert forall|i: int| 0 <= i < a.len() implies a[i] == b[i] by {
            assert(stored_name_spec(a)[i] == stored_name_spec(b)[i]);
        }
        assert(a =~= b);
    }
}

/// An encrypted object store bound to one root location and one key.
///
/// State machine: `Ready` on construction, `Destroyed` after a successful
/// `nuke`; no operation is valid once destroyed.
pub struct Vault {
    root: String,
    key: Vec<u8>,
    destroyed: bool,
}

impl Vault {
    /// The vault holds a key the cipher accepts.
    pub closed spec fn wf(self) -> bool {
        self.key@.len() == crypto::KEY_LEN
    }

    /// The key this vault is bound to.
    pub closed spec fn key_view(self) -> Seq<u8> {
        self.key@
    }

    /// The root location this vault is bound to.
    pub closed spec fn root_view(self) -> Seq<char> {
        self.root@
    }

    /// True until the vault is destroyed by `nuke`.
    pub closed spec fn is_ready(self) -> bool {
        !self.destroyed
    }

    /// Binds a new vault to `root` and `key`. Creating the root location on
    /// disk is the caller's step; the vault fails here exactly when the
    /// cipher rejects the key (wrong length).
    pub fn new(root: &str, key: &[u8]) -> (r: Result<Vault, SdkError>)
        ensures
            r is Ok <==> key@.len() == crypto::KEY_LEN,
            r is Err ==> r == Err::<Vault, SdkError>(SdkError::Crypto),
            r is Ok ==> {
                let v = r->Ok_0;
                &&& v.wf()
                &&& v.is_ready()
                &&& v.key_view() == key@
                &&& v.root_view() == root@
            },
    {
        if !crypto::key_accepted(key) {
            return Err(SdkError::Crypto);
        }
        Ok(
            Vault {
                root: String::from_str(root),
                key: slice_to_vec(key),
                destroyed: false,
            },
        )
    }

    /// Binds a new vault to `root` under a freshly generated key, and hands
    /// that key back to the caller, who alone keeps it: losing it makes
    /// every object of this vault permanently unreadable.
    pub fn new_random(root: &str) -> (r: (Vault, Vec<u8>))
        ensures
            r.0.wf(),
            r.0.is_ready(),
            r.0.key_view() == r.1@,
            r.1@.len() == crypto::KEY_LEN,
            r.0.root_view() == root@,
    {
        let key = crypto::fresh_key();
        let vault = Vault {
            root: String::from_str(root),
            key: slice_to_vec(key.as_slice()),
            destroyed: false,
        };
        (vault, key)
    }

    /// True once `nuke` has destroyed this vault.
    pub fn is_destroyed(&self) -> (r: bool)
        ensures
            r == !self.is_ready(),
    {
        self.destroyed
    }

    /// The root location this vault was bound to.
    pub fn root(&self) -> (r: &str)
        ensures
            r@ == self.root_view(),
    {
        self.root.as_str()
    }

    /// Encrypts `plaintext` for storage under `logical_name`: returns the
    /// derived storage name and the exact bytes to write there. Fails with
    /// `InvalidState` on a destroyed vault and with `Crypto` when the cipher
    /// cannot encrypt (the plaintext is over the cipher's limit); on an
    /// intact vault with a plaintext within the limit, success is owed.
    pub fn store(&self, logical_name: &str, plaintext: &[u8]) -> (r: Result<
        (String, Vec<u8>),
        SdkError,
    >)
        requires
            self.wf(),
        ensures
            !self.is_ready() ==> r == Err::<(String, Vec<u8>), SdkError>(SdkError::InvalidState),
            self.is_ready() ==> (r is Ok <==> (plaintext@.len() + 28 <= usize::MAX
                && plaintext@.len() <= crypto::GCM_MAX_PLAINTEXT as nat)),
            self.is_ready() && r is Err ==> r == Err::<(String, Vec<u8>), SdkError>(
                SdkError::Crypto,
            ),
            r is Ok ==> {
                let (name, bytes) = r->Ok_0;
                &&& name@ == stored_name_spec(logical_name@)
                &&& bytes@.len() == plaintext@.len() + 28
                &&& plaintext_of(self.key_view(), bytes@) == Some(plaintext@)
            },
    {
        if self.destroyed {
            return Err(SdkError::InvalidState);
        }
        if plaintext.len() > usize::MAX - 28 {
            return Err(SdkError::Crypto);
        }
        let nonce = crypto::fresh_nonce();
        let ghost nonce_view = nonce@;
        let ciphertext = match crypto::aead_encrypt(
            self.key.as_slice(),
            nonce.as_slice(),
            plaintext,
        ) {
            Ok(c) => c,
            Err(_) => {
                return Err(SdkError::Crypto);
            },
        };
        let mut bytes = nonce;
        bytes.extend_from_slice(ciphertext.as_slice());
        let name = String::from_str(logical_name).concat(".enc");
        proof {
            assert(bytes@.len() == nonce_view.len() + ciphertext@.len());
            assert(bytes@.take(12) =~= nonce_view);
            assert(bytes@.skip(12) =~= ciphertext@);
        }
        Ok((name, bytes))
    }

    /// Decrypts one stored object from the bytes the caller fetched for it:
    /// `None` means the object was not found (`Io`); anything the cipher
    /// rejects — wrong key, corruption, truncation, tampering — is `Crypto`,
    /// never garbage plaintext. On a destroyed vault every call fails with
    /// `InvalidState`.
    pub fn load(&self, fetched: Option<Vec<u8>>) -> (r: Result<Vec<u8>, SdkError>)
        requires
            self.wf(),
        ensures
            !self.is_ready() ==> r == Err::<Vec<u8>, SdkError>(SdkError::InvalidState),
            self.is_ready() && fetched is None ==> r == Err::<Vec<u8>, SdkError>(SdkError::Io),
            self.is_ready() && fetched is Some ==> {
                let bytes = fetched->0;
                &&& (r is Ok <==> plaintext_of(self.key_view(), bytes@) is Some)
                &&& r is Ok ==> Some(r->Ok_0@) == plaintext_of(self.key_view(), bytes@)
                &&& r is Err ==> r == Err::<Vec<u8>, SdkError>(SdkError::Crypto)
            },
    {
        if self.destroyed {
            return Err(SdkError::InvalidState);
        }
        match fetched {
            None => Err(SdkError::Io),
            Some(bytes) => {
                if bytes.len() < 12 {
                    return Err(SdkError::Crypto);
                }
                let nonce = slice_subrange(bytes.as_slice(), 0, 12);
                let ciphertext = slice_subrange(bytes.as_slice(), 12, bytes.len());
                proof {
                    assert(bytes@.take(12) =~= nonce@);
                    assert(bytes@.skip(12) =~= ciphertext@);
                }
                match crypto::aead_decrypt(self.key.as_slice(), nonce, ciphertext) {
                    Ok(plaintext) => Ok(plaintext),
                    Err(_) => Err(SdkError::Crypto),
                }
            },
        }
    }

    /// Records the outcome of destroying the storage root, which the caller
    /// removes recursively before this call. On success the vault becomes
    /// `Destroyed`, terminally; a failed or partial removal is surfaced as
    /// `Io` and leaves the vault `Ready` so the caller may retry. On an
    /// already destroyed vault every call fails with `InvalidState`.
    pub fn nuke(&mut self, removal_complete: bool) -> (r: Result<(), SdkError>)
        ensures
            final(self).key_view() == old(self).key_view(),
            final(self).root_view() == old(self).root_view(),
            final(self).wf() == old(self).wf(),
            !old(self).is_ready() ==> r == Err::<(), SdkError>(SdkError::InvalidState)
                && !final(self).is_ready(),
            old(self).is_ready() && removal_complete ==> r is Ok && !final(self).is_ready(),
            old(self).is_ready() && !removal_complete ==> r == Err::<(), SdkError>(SdkError::Io)
                && final(self).is_ready(),
    {
        if self.destroyed {
            return Err(SdkError::InvalidState);
        }
        if !removal_complete {
            return Err(SdkError::Io);
        }
        self.destroyed = true;
        Ok(())
    }
}

} // verus!
