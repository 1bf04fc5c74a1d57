//! The symmetric key that protects values held in memory, and the sealed form
//! of a value.

use chacha20poly1305::aead::Aead;
use chacha20poly1305::aead::AeadCore;
use chacha20poly1305::aead::KeyInit;
use chacha20poly1305::aead::OsRng;
use chacha20poly1305::Key;
use chacha20poly1305::XChaCha20Poly1305;
use chacha20poly1305::XNonce;
use vstd::prelude::*;

verus! {

/// Length of the symmetric key in bytes.
pub const KEY_LEN: usize = 32;

/// Length of the nonce that accompanies each sealed value.
pub const NONCE_LEN: usize = 24;

/// Plaintexts of this many bytes or more cannot be sealed.
pub const PLAINTEXT_LIMIT: u64 = 274_877_906_880;

/// What XChaCha20-Poly1305 encryption returns for a key, a nonce and a
/// plaintext: the ciphertext followed by its authentication tag.
pub uninterp spec fn aead_seal(key: Seq<u8>, nonce: Seq<u8>, plaintext: Seq<u8>) -> Seq<u8>;

/// What XChaCha20-Poly1305 decryption returns for a key, a nonce and a sealed
/// text: the plaintext, or `None` where authentication fails.
pub uninterp spec fn aead_open(key: Seq<u8>, nonce: Seq<u8>, sealed: Seq<u8>) -> Option<Seq<u8>>;

/// A sealed value could not be authenticated: the memory that held it, or the
/// key, was altered.
#[derive(Debug, Clone, Copy, PartialEq, Eq)]
pub struct DecryptionError;

/// A value in sealed form: the nonce it was sealed with, and the ciphertext
/// with its authentication tag.
#[derive(Debug, Clone)]
pub struct EncryptedMemory {
    pub nonce: [u8; NONCE_LEN],
    pub ciphertext: Vec<u8>,
}

/// The key under which values are sealed. It lives as long as the store that
/// owns it, or until a sealed value fails to open; when it goes, its bytes
/// are overwritten with zeros.
pub struct SecureMemoryEncryptionKey {
    key: [u8; KEY_LEN],
}

/// Calls `KeyInit::generate_key` of `XChaCha20Poly1305` with the operating
/// system's random generator. The bytes are random: nothing is claimed of them.
#[verifier::external_body]
fn fresh_key() -> (key: [u8; KEY_LEN]) {
    let mut key = [0u8; KEY_LEN];
    key.copy_from_slice(XChaCha20Poly1305::generate_key(&mut OsRng).as_slice());
    key
}

/// Calls `AeadCore::generate_nonce` of `XChaCha20Poly1305` with the operating
/// system's random generator. The bytes are random: nothing is claimed of them.
#[verifier::external_body]
fn fresh_nonce() -> (nonce: [u8; NONCE_LEN]) {
    let mut nonce = [0u8; NONCE_LEN];
    nonce.copy_from_slice(XChaCha20Poly1305::generate_nonce(&mut OsRng).as_slice());
    nonce
}

/// Calls `Aead::encrypt` of `XChaCha20Poly1305`. The contract names the
/// result, and claims that decryption with the same key and nonce gives the
/// plaintext back. Encryption fails only on plaintexts of `PLAINTEXT_LIMIT`
/// bytes or more, which `requires` leaves out.
#[verifier::external_body]
fn seal(key: &[u8; KEY_LEN], nonce: &[u8; NONCE_LEN], plaintext: &[u8]) -> (sealed: Vec<u8>)
    requires
        plaintext@.len() < PLAINTEXT_LIMIT,
    ensures
        sealed@ == aead_seal(key@, nonce@, plaintext@),
        aead_open(key@, nonce@, sealed@) == Some(plaintext@),
{
    let cipher = XChaCha20Poly1305::new(Key::from_slice(key));
    cipher.encrypt(XNonce::from_slice(nonce), plaintext).expect("plaintext below the limit")
}

/// Calls `Aead::decrypt` of `XChaCha20Poly1305`. The contract names the
/// result; the outside error carries no information and becomes `None`.
#[verifier::external_body]
fn open(key: &[u8; KEY_LEN], nonce: &[u8; NONCE_LEN], sealed: &[u8]) -> (plaintext: Option<Vec<u8>>)
    ensures
        match plaintext {
            Some(bytes) => aead_open(key@, nonce@, sealed@) == Some(bytes@),
            None => aead_open(key@, nonce@, sealed@) is None,
        },
{
    let cipher = XChaCha20Poly1305::new(Key::from_slice(key));
    cipher.decrypt(XNonce::from_slice(nonce), sealed).ok()
}

/// Calls `Zeroize::zeroize` of `zeroize` on the bytes of a key. As its
/// documentation says, every byte is zero afterwards, and the writes are not
/// optimised away.
#[verifier::external_body]
fn wipe(key: &mut [u8; KEY_LEN])
    ensures
        forall|i: int| 0 <= i < KEY_LEN ==> final(key)@[i] == 0u8,
    opens_invariants none
    no_unwind
{
    zeroize::Zeroize::zeroize(key);
}

impl SecureMemoryEncryptionKey {
    /// The plaintext that a nonce and a ciphertext open to under this key, or
    /// `None` where they do not authenticate.
    pub closed spec fn opens_parts(&self, nonce: Seq<u8>, ciphertext: Seq<u8>) -> Option<Seq<u8>> {
        aead_open(self.key@, nonce, ciphertext)
    }

    /// The plaintext that `encrypted` opens to under this key, or `None` where
    /// it does not authenticate.
    pub open spec fn opens(&self, encrypted: EncryptedMemory) -> Option<Seq<u8>> {
        self.opens_parts(encrypted.nonce@, encrypted.ciphertext@)
    }

    /// The bytes of the key.
    pub closed spec fn bytes(&self) -> Seq<u8> {
        self.key@
    }

    /// A fresh random key.
    pub fn new() -> (key: Self)
        ensures
            key.bytes().len() == KEY_LEN,
    {
        SecureMemoryEncryptionKey { key: fresh_key() }
    }

    /// Overwrites the key with zeros: it opens nothing that it sealed any
    /// more, and nothing of it is left in this place.
    pub fn zeroize(&mut self)
        ensures
            final(self).bytes().len() == KEY_LEN,
            forall|i: int| 0 <= i < KEY_LEN ==> final(self).bytes()[i] == 0u8,
        opens_invariants none
        no_unwind
    {
        wipe(&mut self.key);
    }

    /// Seals `plaintext` under this key with a fresh random nonce.
    pub fn encrypt(&self, plaintext: &[u8]) -> (encrypted: EncryptedMemory)
        requires
            plaintext@.len() < PLAINTEXT_LIMIT,
        ensures
            self.opens(encrypted) == Some(plaintext@),
    {
        let nonce = fresh_nonce();
        let ciphertext = seal(&self.key, &nonce, plaintext);
        EncryptedMemory { nonce, ciphertext }
    }

    /// Opens a sealed value. Fails exactly when it does not authenticate
    /// under this key.
    pub fn decrypt(&self, encrypted: &EncryptedMemory) -> (plaintext: Result<
        Vec<u8>,
        DecryptionError,
    >)
        ensures
            match plaintext {
                Ok(bytes) => self.opens(*encrypted) == Some(bytes@),
                Err(_) => self.opens(*encrypted) is None,
            },
    {
        match open(&self.key, &encrypted.nonce, encrypted.ciphertext.as_slice()) {
            Some(bytes) => Ok(bytes),
            None => Err(DecryptionError),
        }
    }
}

impl Drop for SecureMemoryEncryptionKey {
    /// The key is overwritten with zeros before its place is given up.
    fn drop(&mut self)
        ensures
            forall|i: int| 0 <= i < KEY_LEN ==> final(self).bytes()[i] == 0u8,
        opens_invariants none
        no_unwind
    {
        self.zeroize();
    }
}

} // verus!
