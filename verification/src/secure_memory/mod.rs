//! An ephemeral key-value store for sensitive data. Values are held sealed
//! under a key that lives only as long as the process.

use vstd::prelude::*;
use vstd::slice::slice_to_vec;
use vstd::string::StringSliceAdditionalSpecFns;
use vstd::utf8::encode_utf8;

use crate::text::bytes_less;
use crate::text::bytes_precede;

pub mod encrypted_memory_store;
pub mod secure_key;

pub use encrypted_memory_store::EncryptedMemoryStore;
pub use secure_key::DecryptionError;

verus! {

/// What `get` answers for a key on given contents: the plaintext where the
/// key is held and its value opens, nothing where the key is not held, and an
/// error where the value held no longer authenticates.
pub open spec fn answer<K>(contents: Map<K, Option<Seq<u8>>>, key: K) -> Result<
    Option<Seq<u8>>,
    DecryptionError,
> {
    if !contents.contains_key(key) {
        Ok(None)
    } else {
        match contents[key] {
            Some(plaintext) => Ok(Some(plaintext)),
            None => Err(DecryptionError),
        }
    }
}

/// What a store holds after `get` was asked for a key: nothing, where the
/// answer is an error, and what it held before otherwise.
pub open spec fn after_get<K>(contents: Map<K, Option<Seq<u8>>>, key: K) -> Map<
    K,
    Option<Seq<u8>>,
> {
    if answer(contents, key) is Err {
        Map::empty()
    } else {
        contents
    }
}

/// Round trip: on whatever a store held, once a value is put under a key,
/// `get` answers that key with that value, and the store keeps what it holds.
pub proof fn lemma_put_then_get<K>(contents: Map<K, Option<Seq<u8>>>, key: K, value: Seq<u8>)
    ensures
        answer(contents.insert(key, Some(value)), key) == Ok::<Option<Seq<u8>>, DecryptionError>(
            Some(value),
        ),
        after_get(contents.insert(key, Some(value)), key) == contents.insert(key, Some(value)),
{
}

/// Tampering clears the store: where the value held under a key no longer
/// authenticates, `get` answers with an error, and afterwards no key is held.
pub proof fn lemma_tamper_clears<K>(contents: Map<K, Option<Seq<u8>>>, key: K)
    requires
        contents.contains_key(key),
        contents[key] is None,
    ensures
        answer(contents, key) is Err,
        forall|other: K| !after_get(contents, key).contains_key(other),
{
}

/// A key of a store. Keys are told apart and ordered by their bytes: the
/// first byte in which two keys differ decides, and a proper prefix comes
/// first.
pub trait StoreKey: Sized {
    /// The bytes of the key.
    spec fn key_bytes(&self) -> Seq<u8>;

    /// Whether this key comes before the other.
    fn key_precedes(&self, other: &Self) -> (less: bool)
        ensures
            less == bytes_less(self.key_bytes(), other.key_bytes()),
    ;

    /// A copy of the key.
    fn key_copy(&self) -> (copy: Self)
        ensures
            copy.key_bytes() == self.key_bytes(),
    ;
}

impl StoreKey for String {
    /// The UTF-8 encoding of the string: strings are in their usual order.
    open spec fn key_bytes(&self) -> Seq<u8> {
        encode_utf8(self@)
    }

    fn key_precedes(&self, other: &Self) -> (less: bool) {
        bytes_precede(self.as_str().as_bytes(), other.as_str().as_bytes())
    }

    fn key_copy(&self) -> (copy: Self) {
        self.clone()
    }
}

impl<'a> StoreKey for &'a str {
    /// The UTF-8 encoding of the string: strings are in their usual order.
    open spec fn key_bytes(&self) -> Seq<u8> {
        encode_utf8(self@)
    }

    fn key_precedes(&self, other: &Self) -> (less: bool) {
        bytes_precede(self.as_bytes(), other.as_bytes())
    }

    fn key_copy(&self) -> (copy: Self) {
        *self
    }
}

impl StoreKey for Vec<u8> {
    open spec fn key_bytes(&self) -> Seq<u8> {
        self@
    }

    fn key_precedes(&self, other: &Self) -> (less: bool) {
        bytes_precede(self.as_slice(), other.as_slice())
    }

    fn key_copy(&self) -> (copy: Self) {
        slice_to_vec(self.as_slice())
    }
}

/// A key-value store for sensitive data. A value that was put is handed back
/// as a fresh copy; a value that no longer authenticates clears the store.
pub trait SecureMemoryStore {
    type KeyType: StoreKey;

    /// What the store holds: for each key, by its bytes, the plaintext that
    /// its sealed value opens to, or `None` where it no longer authenticates.
    spec fn contents(&self) -> Map<Seq<u8>, Option<Seq<u8>>>;

    /// Stores a copy of the provided value under `key`, in place of any value
    /// held under it before.
    fn put(&mut self, key: Self::KeyType, value: &[u8])
        requires
            value@.len() < secure_key::PLAINTEXT_LIMIT,
        ensures
            final(self).contents() == old(self).contents().insert(key.key_bytes(), Some(value@)),
    ;

    /// Retrieves a copy of the value held under `key`. Where the sealed value
    /// does not authenticate, the store is emptied and re-keyed, and the
    /// error is returned.
    fn get(&mut self, key: &Self::KeyType) -> (value: Result<Option<Vec<u8>>, DecryptionError>)
        ensures
            match value {
                Ok(None) => answer(old(self).contents(), key.key_bytes()) == Ok::<
                    Option<Seq<u8>>,
                    DecryptionError,
                >(None),
                Ok(Some(bytes)) => answer(old(self).contents(), key.key_bytes()) == Ok::<
                    Option<Seq<u8>>,
                    DecryptionError,
                >(Some(bytes@)),
                Err(_) => answer(old(self).contents(), key.key_bytes()) is Err,
            },
            final(self).contents() == after_get(old(self).contents(), key.key_bytes()),
    ;

    /// Checks if a value is held under the given key.
    fn has(&self, key: &Self::KeyType) -> (held: bool)
        ensures
            held == self.contents().contains_key(key.key_bytes()),
    ;

    /// Removes the value held under the given key, if any.
    fn remove(&mut self, key: &Self::KeyType)
        ensures
            final(self).contents() == old(self).contents().remove(key.key_bytes()),
    ;

    /// Removes every value.
    fn clear(&mut self)
        ensures
            final(self).contents() == Map::<Seq<u8>, Option<Seq<u8>>>::empty(),
    ;
}

} // verus!
