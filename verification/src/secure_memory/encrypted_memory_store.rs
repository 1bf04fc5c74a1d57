//! A store that seals every value under one key and keeps the sealed values
//! ordered by their names.

use vstd::prelude::*;

use crate::secure_memory::secure_key::DecryptionError;
use crate::secure_memory::secure_key::EncryptedMemory;
use crate::secure_memory::secure_key::SecureMemoryEncryptionKey;
use crate::secure_memory::SecureMemoryStore;
use crate::secure_memory::StoreKey;
use crate::text::bytes_less;
use crate::text::lemma_bytes_less_connected;
use crate::text::lemma_bytes_less_irreflexive;
use crate::text::lemma_bytes_less_transitive;

verus! {

/// Whether each name in `names` comes before all that follow it.
pub open spec fn strictly_sorted(names: Seq<Seq<u8>>) -> bool {
    forall|i: int, j: int| 0 <= i < j < names.len() ==> #[trigger] bytes_less(names[i], names[j])
}

/// A nonce and a ciphertext, as plain byte strings.
pub type SealedParts = (Seq<u8>, Seq<u8>);

struct StoreEntry<K> {
    name: K,
    sealed: EncryptedMemory,
}

/// An encrypted memory store holds a symmetric key and seals every value it
/// is given under that key. Only the key needs protecting: the sealed values
/// may be of any number and size. Values are kept in the order of their
/// keys.
pub struct EncryptedMemoryStore<K: StoreKey> {
    entries: Vec<StoreEntry<K>>,
    memory_encryption_key: SecureMemoryEncryptionKey,
}

/// In a strictly sorted sequence a name stands at one place only.
pub proof fn lemma_sorted_place_unique(names: Seq<Seq<u8>>, i: int, j: int)
    requires
        strictly_sorted(names),
        0 <= i < names.len(),
        0 <= j < names.len(),
        names[i] == names[j],
    ensures
        i == j,
{
    lemma_bytes_less_irreflexive(names[i]);
    if i < j {
        assert(bytes_less(names[i], names[j]));
    } else if j < i {
        assert(bytes_less(names[j], names[i]));
    }
}

impl<K: StoreKey> EncryptedMemoryStore<K> {
    /// The names under which values are held, in the order of the store.
    pub closed spec fn ordered_keys(&self) -> Seq<Seq<u8>> {
        Seq::new(self.entries@.len(), |i: int| self.entries@[i].name.key_bytes())
    }

    /// The sealed value at a place of the store.
    pub closed spec fn sealed_at(&self, place: int) -> SealedParts {
        (self.entries@[place].sealed.nonce@, self.entries@[place].sealed.ciphertext@)
    }

    /// The key that the store seals under.
    pub closed spec fn cipher_key(&self) -> SecureMemoryEncryptionKey {
        self.memory_encryption_key
    }

    /// The store's invariant: names are strictly increasing, so none occurs
    /// twice.
    #[verifier::type_invariant]
    pub closed spec fn wf(&self) -> bool {
        strictly_sorted(self.ordered_keys())
    }

    /// The place of a name that the store holds.
    pub open spec fn place_of(&self, name: Seq<u8>) -> int {
        self.ordered_keys().index_of(name)
    }

    /// The sealed values, by name.
    pub open spec fn sealed_entries(&self) -> Map<Seq<u8>, SealedParts> {
        Map::new(
            |name: Seq<u8>| self.ordered_keys().contains(name),
            |name: Seq<u8>| self.sealed_at(self.place_of(name)),
        )
    }

    /// What a sealed value opens to under the store's key.
    pub open spec fn opened(&self, sealed: SealedParts) -> Option<Seq<u8>> {
        self.cipher_key().opens_parts(sealed.0, sealed.1)
    }

    /// Whether every sealed value opens under the store's key.
    pub open spec fn all_open(&self) -> bool {
        forall|name: Seq<u8>| #[trigger]
            self.contents().contains_key(name) ==> self.contents()[name] is Some
    }

    /// Where `name` stands or would stand: the number of held names that come
    /// before it, and whether it is held.
    fn position(&self, name: &K) -> (at: (usize, bool))
        ensures
            at.0 <= self.ordered_keys().len(),
            forall|j: int| 0 <= j < at.0 ==> bytes_less(#[trigger] self.ordered_keys()[j], name.key_bytes()),
            forall|j: int|
                at.0 < j < self.ordered_keys().len() ==> bytes_less(
                    name.key_bytes(),
                    #[trigger] self.ordered_keys()[j],
                ),
            at.1 ==> at.0 < self.ordered_keys().len() && self.ordered_keys()[at.0 as int] == name.key_bytes(),
            !at.1 ==> at.0 == self.ordered_keys().len() || bytes_less(
                name.key_bytes(),
                self.ordered_keys()[at.0 as int],
            ),
            at.1 == self.ordered_keys().contains(name.key_bytes()),
    {
        proof {
            use_type_invariant(self);
        }
        let ghost names = self.ordered_keys();
        let mut low: usize = 0;
        let mut high: usize = self.entries.len();
        while low < high
            invariant
                names == self.ordered_keys(),
                names.len() == self.entries@.len(),
                strictly_sorted(names),
                low <= high <= names.len(),
                forall|j: int| 0 <= j < low ==> bytes_less(#[trigger] names[j], name.key_bytes()),
                forall|j: int| high <= j < names.len() ==> bytes_less(name.key_bytes(), #[trigger] names[j]),
            decreases high - low,
        {
            let middle = low + (high - low) / 2;
            let held = &self.entries[middle].name;
            assert(held.key_bytes() == names[middle as int]);
            if held.key_precedes(name) {
                assert forall|j: int| 0 <= j < middle + 1 implies bytes_less(
                    #[trigger] names[j],
                    name.key_bytes(),
                ) by {
                    if j < middle {
                        assert(bytes_less(names[j], names[middle as int]));
                        lemma_bytes_less_transitive(names[j], names[middle as int], name.key_bytes());
                    }
                }
                low = middle + 1;
            } else if name.key_precedes(held) {
                assert forall|j: int| middle <= j < names.len() implies bytes_less(
                    name.key_bytes(),
                    #[trigger] names[j],
                ) by {
                    if middle < j {
                        assert(bytes_less(names[middle as int], names[j]));
                        lemma_bytes_less_transitive(name.key_bytes(), names[middle as int], names[j]);
                    }
                }
                high = middle;
            } else {
                proof {
                    lemma_bytes_less_connected(held.key_bytes(), name.key_bytes());
                    assert forall|j: int| 0 <= j < middle implies bytes_less(
                        #[trigger] names[j],
                        name.key_bytes(),
                    ) by {
                        assert(bytes_less(names[j], names[middle as int]));
                    }
                    assert forall|j: int| middle < j < names.len() implies bytes_less(
                        name.key_bytes(),
                        #[trigger] names[j],
                    ) by {
                        assert(bytes_less(names[middle as int], names[j]));
                    }
                }
                return (middle, true);
            }
        }
        proof {
            lemma_bytes_less_irreflexive(name.key_bytes());
            assert(!names.contains(name.key_bytes())) by {
                if names.contains(name.key_bytes()) {
                    let j = choose|j: int| 0 <= j < names.len() && names[j] == name.key_bytes();
                    if j < low {
                        assert(bytes_less(names[j], name.key_bytes()));
                    } else {
                        assert(bytes_less(name.key_bytes(), names[j]));
                    }
                }
            }
        }
        (low, false)
    }

    /// An empty store with a fresh key.
    #[must_use]
    pub fn new() -> (store: Self)
        ensures
            store.contents() == Map::<Seq<u8>, Option<Seq<u8>>>::empty(),
            store.ordered_keys() == Seq::<Seq<u8>>::empty(),
    {
        let store = EncryptedMemoryStore {
            entries: Vec::new(),
            memory_encryption_key: SecureMemoryEncryptionKey::new(),
        };
        assert(store.ordered_keys() =~= Seq::<Seq<u8>>::empty());
        assert(store.contents() =~= Map::<Seq<u8>, Option<Seq<u8>>>::empty());
        store
    }
}

impl<K: StoreKey> SecureMemoryStore for EncryptedMemoryStore<K> {
    type KeyType = K;

    open spec fn contents(&self) -> Map<Seq<u8>, Option<Seq<u8>>> {
        Map::new(
            |name: Seq<u8>| self.sealed_entries().contains_key(name),
            |name: Seq<u8>| self.opened(self.sealed_entries()[name]),
        )
    }

    fn put(&mut self, key: K, value: &[u8])
        ensures
            final(self).cipher_key() == old(self).cipher_key(),
            final(self).sealed_entries().remove(key.key_bytes()) == old(self).sealed_entries().remove(key.key_bytes()),
    {
        let ghost before = *self;
        let sealed = self.memory_encryption_key.encrypt(value);
        self.put_sealed(key, sealed);
        proof {
            assert(self.sealed_entries().remove(key.key_bytes()) =~= before.sealed_entries().remove(key.key_bytes()));
            assert(self.contents() =~= before.contents().insert(key.key_bytes(), Some(value@)));
        }
    }

    fn get(&mut self, key: &K) -> (value: Result<Option<Vec<u8>>, DecryptionError>)
        ensures
            value is Ok ==> *final(self) == *old(self),
            value is Err ==> final(self).ordered_keys() == Seq::<Seq<u8>>::empty(),
    {
        proof {
            use_type_invariant(&*self);
        }
        let at = self.position(key);
        if !at.1 {
            return Ok(None);
        }
        proof {
            lemma_sorted_place_unique(self.ordered_keys(), at.0 as int, self.place_of(key.key_bytes()));
        }
        match self.memory_encryption_key.decrypt(&self.entries[at.0].sealed) {
            Ok(bytes) => Ok(Some(bytes)),
            Err(error) => {
                self.forget_everything();
                Err(error)
            },
        }
    }

    fn has(&self, key: &K) -> (held: bool) {
        let at = self.position(key);
        at.1
    }

    fn remove(&mut self, key: &K)
        ensures
            final(self).cipher_key() == old(self).cipher_key(),
            final(self).sealed_entries() == old(self).sealed_entries().remove(key.key_bytes()),
    {
        proof {
            use_type_invariant(&*self);
        }
        let ghost before = *self;
        let ghost names = self.ordered_keys();
        let ghost name = key.key_bytes();
        let at = self.position(key);
        if at.1 {
            proof {
                let after = names.remove(at.0 as int);
                assert forall|i: int, j: int| 0 <= i < j < after.len() implies #[trigger] bytes_less(
                    after[i],
                    after[j],
                ) by {
                    let i0 = if i < at.0 { i } else { i + 1 };
                    let j0 = if j < at.0 { j } else { j + 1 };
                    assert(bytes_less(names[i0], names[j0]));
                }
            }
            let mut entries = self.take_entries();
            entries.remove(at.0);
            assert(Seq::new(entries@.len(), |i: int| entries@[i].name.key_bytes()) =~= names.remove(
                at.0 as int,
            ));
            self.entries = entries;
            proof {
                let now = self.ordered_keys();
                assert(now =~= names.remove(at.0 as int));
                lemma_bytes_less_irreflexive(name);
                assert forall|other: Seq<u8>| now.contains(other) <==> (names.contains(other)
                    && other != name) by {
                    if now.contains(other) {
                        let j = choose|j: int| 0 <= j < now.len() && now[j] == other;
                        let j0 = if j < at.0 { j } else { j + 1 };
                        assert(names[j0] == other);
                        if other == name {
                            lemma_sorted_place_unique(names, j0, at.0 as int);
                        }
                    }
                    if names.contains(other) && other != name {
                        let j = choose|j: int| 0 <= j < names.len() && names[j] == other;
                        if j < at.0 {
                            assert(now[j] == other);
                        } else {
                            assert(now[j - 1] == other);
                        }
                    }
                }
                assert forall|other: Seq<u8>| now.contains(other) implies self.sealed_at(
                    self.place_of(other),
                ) == before.sealed_at(before.place_of(other)) by {
                    let k = self.place_of(other);
                    assert(now[k] == other);
                    let k0 = if k < at.0 { k } else { k + 1 };
                    assert(names[k0] == other);
                    lemma_sorted_place_unique(names, k0, before.place_of(other));
                }
                assert(self.sealed_entries() =~= before.sealed_entries().remove(name));
                assert(self.contents() =~= before.contents().remove(name));
            }
        } else {
            proof {
                assert(self.sealed_entries() =~= before.sealed_entries().remove(name));
                assert(self.contents() =~= before.contents().remove(name));
            }
        }
    }

    fn clear(&mut self)
        ensures
            final(self).cipher_key() == old(self).cipher_key(),
            final(self).ordered_keys() == Seq::<Seq<u8>>::empty(),
    {
        self.entries = Vec::new();
        proof {
            assert(self.ordered_keys() =~= Seq::<Seq<u8>>::empty());
            assert(self.contents() =~= Map::<Seq<u8>, Option<Seq<u8>>>::empty());
        }
    }
}

impl<K: StoreKey> EncryptedMemoryStore<K> {
    /// Holds an already sealed value under `key`, in place of any value held
    /// under it before. The store does not ask whether the value opens.
    pub fn put_sealed(&mut self, key: K, sealed: EncryptedMemory)
        ensures
            final(self).cipher_key() == old(self).cipher_key(),
            final(self).sealed_entries() == old(self).sealed_entries().insert(
                key.key_bytes(),
                (sealed.nonce@, sealed.ciphertext@),
            ),
    {
        proof {
            use_type_invariant(&*self);
        }
        let ghost before = *self;
        let ghost names = self.ordered_keys();
        let at = self.position(&key);
        let ghost parts = (sealed.nonce@, sealed.ciphertext@);
        let ghost name = key.key_bytes();
        if at.1 {
            proof {
                assert(names.update(at.0 as int, name) =~= names);
            }
            let mut entries = self.take_entries();
            entries.set(at.0, StoreEntry { name: key, sealed });
            assert(Seq::new(entries@.len(), |i: int| entries@[i].name.key_bytes()) =~= names);
            self.entries = entries;
            proof {
                assert(self.ordered_keys() =~= names);
            }
        } else {
            proof {
                let after = names.insert(at.0 as int, name);
                assert forall|i: int, j: int| 0 <= i < j < after.len() implies #[trigger] bytes_less(
                    after[i],
                    after[j],
                ) by {
                    if j < at.0 {
                        assert(bytes_less(names[i], names[j]));
                    } else if j == at.0 {
                    } else if i < at.0 {
                        assert(bytes_less(names[i], name));
                        assert(bytes_less(name, names[j - 1]));
                        lemma_bytes_less_transitive(names[i], name, names[j - 1]);
                    } else if i == at.0 {
                        assert(bytes_less(name, names[j - 1]));
                    } else {
                        assert(bytes_less(names[i - 1], names[j - 1]));
                    }
                }
            }
            let mut entries = self.take_entries();
            entries.insert(at.0, StoreEntry { name: key, sealed });
            assert(Seq::new(entries@.len(), |i: int| entries@[i].name.key_bytes()) =~= names.insert(
                at.0 as int,
                name,
            ));
            self.entries = entries;
            proof {
                assert(self.ordered_keys() =~= names.insert(at.0 as int, name));
            }
        }
        proof {
            let now = self.ordered_keys();
            assert(now[at.0 as int] == name);
            assert forall|other: Seq<u8>| now.contains(other) <==> (names.contains(other)
                || other == name) by {
                if now.contains(other) {
                    let j = choose|j: int| 0 <= j < now.len() && now[j] == other;
                    if !at.1 && j != at.0 {
                        if j < at.0 {
                            assert(names[j] == other);
                        } else {
                            assert(names[j - 1] == other);
                        }
                    }
                }
                if names.contains(other) {
                    let j = choose|j: int| 0 <= j < names.len() && names[j] == other;
                    if at.1 || j < at.0 {
                        assert(now[j] == other);
                    } else {
                        assert(now[j + 1] == other);
                    }
                }
            }
            assert forall|other: Seq<u8>| names.contains(other) && other != name implies
                self.sealed_at(self.place_of(other)) == before.sealed_at(before.place_of(other)) by {
                let j = before.place_of(other);
                assert(names[j] == other);
                let k = self.place_of(other);
                assert(now.contains(other));
                assert(now[k] == other);
                if at.1 || j < at.0 {
                    assert(now[j] == other);
                    lemma_sorted_place_unique(now, j, k);
                } else {
                    assert(now[j + 1] == other);
                    lemma_sorted_place_unique(now, j + 1, k);
                }
            }
            lemma_sorted_place_unique(now, at.0 as int, self.place_of(name));
            assert(self.sealed_at(at.0 as int) == parts);
            assert(self.sealed_entries() =~= before.sealed_entries().insert(name, parts));
        }
    }

    /// Moves the entries out, so that the store is never seen out of order
    /// while they change; the caller puts them back.
    fn take_entries(&mut self) -> (entries: Vec<StoreEntry<K>>)
        ensures
            entries == old(self).entries,
            final(self).entries@.len() == 0,
            final(self).memory_encryption_key == old(self).memory_encryption_key,
    {
        let mut entries: Vec<StoreEntry<K>> = Vec::new();
        assert(Seq::new(0, |i: int| entries@[i].name.key_bytes()) =~= Seq::<Seq<u8>>::empty());
        core::mem::swap(&mut self.entries, &mut entries);
        entries
    }

    /// The answer to a sealed value that does not authenticate: a fresh key,
    /// and nothing held.
    fn forget_everything(&mut self)
        ensures
            final(self).ordered_keys() == Seq::<Seq<u8>>::empty(),
            final(self).contents() == Map::<Seq<u8>, Option<Seq<u8>>>::empty(),
    {
        proof {
            use_type_invariant(&*self);
        }
        self.memory_encryption_key.zeroize();
        self.memory_encryption_key = SecureMemoryEncryptionKey::new();
        self.entries = Vec::new();
        proof {
            assert(self.ordered_keys() =~= Seq::<Seq<u8>>::empty());
            assert(self.contents() =~= Map::<Seq<u8>, Option<Seq<u8>>>::empty());
        }
    }
}

impl<K: StoreKey> EncryptedMemoryStore<K> {
    /// The number of values held.
    pub fn len(&self) -> (count: usize)
        ensures
            count == self.ordered_keys().len(),
    {
        self.entries.len()
    }

    /// Whether nothing is held.
    pub fn is_empty(&self) -> (empty: bool)
        ensures
            empty == (self.ordered_keys().len() == 0),
    {
        self.entries.len() == 0
    }

    /// The names under which values are held, in the order of the store.
    pub fn keys(&self) -> (names: Vec<K>)
        ensures
            names@.len() == self.ordered_keys().len(),
            forall|i: int|
                0 <= i < names@.len() ==> (#[trigger] names@[i]).key_bytes()
                    == self.ordered_keys()[i],
    {
        let mut names: Vec<K> = Vec::new();
        let mut i: usize = 0;
        while i < self.entries.len()
            invariant
                i <= self.entries@.len(),
                names@.len() == i,
                forall|j: int|
                    0 <= j < i ==> (#[trigger] names@[j]).key_bytes() == self.ordered_keys()[j],
            decreases self.entries@.len() - i,
        {
            names.push(self.entries[i].name.key_copy());
            i += 1;
        }
        names
    }

    /// A copy of the sealed value held under `key`, if any.
    pub fn sealed(&self, key: &K) -> (sealed: Option<EncryptedMemory>)
        ensures
            match sealed {
                Some(found) => self.sealed_entries().contains_key(key.key_bytes()) && self.sealed_entries()[key.key_bytes()]
                    == (found.nonce@, found.ciphertext@),
                None => !self.sealed_entries().contains_key(key.key_bytes()),
            },
    {
        proof {
            use_type_invariant(self);
        }
        let at = self.position(key);
        if !at.1 {
            return None;
        }
        proof {
            lemma_sorted_place_unique(self.ordered_keys(), at.0 as int, self.place_of(key.key_bytes()));
        }
        let held = &self.entries[at.0].sealed;
        let mut ciphertext: Vec<u8> = Vec::new();
        let mut i: usize = 0;
        while i < held.ciphertext.len()
            invariant
                i <= held.ciphertext@.len(),
                ciphertext@ == held.ciphertext@.subrange(0, i as int),
            decreases held.ciphertext@.len() - i,
        {
            ciphertext.push(held.ciphertext[i]);
            i += 1;
        }
        assert(ciphertext@ =~= held.ciphertext@);
        Some(EncryptedMemory { nonce: held.nonce, ciphertext })
    }

    /// The plaintexts of all values, in the order of their names. Where one
    /// does not authenticate, the store is emptied and re-keyed, and the
    /// error is returned.
    pub fn to_vec(&mut self) -> (values: Result<Vec<Vec<u8>>, DecryptionError>)
        ensures
            match values {
                Ok(list) => {
                    &&& old(self).all_open()
                    &&& *final(self) == *old(self)
                    &&& list@.len() == old(self).ordered_keys().len()
                    &&& forall|i: int|
                        0 <= i < list@.len() ==> old(self).contents()[old(self).ordered_keys()[i]]
                            == Some(#[trigger] list@[i]@)
                },
                Err(_) => {
                    &&& !old(self).all_open()
                    &&& final(self).ordered_keys() == Seq::<Seq<u8>>::empty()
                    &&& final(self).contents() == Map::<Seq<u8>, Option<Seq<u8>>>::empty()
                },
            },
    {
        proof {
            use_type_invariant(&*self);
        }
        let ghost names = self.ordered_keys();
        let mut result: Vec<Vec<u8>> = Vec::new();
        let mut i: usize = 0;
        while i < self.entries.len()
            invariant
                *self == *old(self),
                names == self.ordered_keys(),
                strictly_sorted(names),
                names.len() == self.entries@.len(),
                i <= self.entries@.len(),
                result@.len() == i,
                forall|j: int|
                    0 <= j < i ==> self.opened(self.sealed_at(j)) == Some(#[trigger] result@[j]@),
            decreases self.entries@.len() - i,
        {
            match self.memory_encryption_key.decrypt(&self.entries[i].sealed) {
                Ok(bytes) => {
                    result.push(bytes);
                },
                Err(error) => {
                    proof {
                        let name = names[i as int];
                        lemma_sorted_place_unique(names, i as int, self.place_of(name));
                        assert(self.contents().contains_key(name));
                        assert(self.contents()[name] is None);
                    }
                    self.forget_everything();
                    return Err(error);
                },
            }
            i += 1;
        }
        proof {
            assert forall|name: Seq<u8>| #[trigger]
                self.contents().contains_key(name) implies self.contents()[name] is Some by {
                let j = self.place_of(name);
                assert(names[j] == name);
                assert(self.opened(self.sealed_at(j)) == Some(result@[j]@));
            }
            assert forall|j: int| 0 <= j < result@.len() implies self.contents()[names[j]] == Some(
                #[trigger] result@[j]@,
            ) by {
                lemma_sorted_place_unique(names, j, self.place_of(names[j]));
            }
        }
        Ok(result)
    }

    /// Deterministic order: the names of a store stand in strictly increasing
    /// order, none twice, and they are exactly the keys of its contents. The
    /// values of `to_vec` follow this order.
    pub proof fn lemma_keys_sorted(&self)
        requires
            self.wf(),
        ensures
            strictly_sorted(self.ordered_keys()),
            self.ordered_keys().no_duplicates(),
            forall|name: Seq<u8>|
                self.ordered_keys().contains(name) <==> #[trigger] self.contents().contains_key(
                    name,
                ),
    {
        let names = self.ordered_keys();
        assert forall|i: int, j: int| 0 <= i < names.len() && 0 <= j < names.len() && i != j implies
            names[i] != names[j] by {
            if names[i] == names[j] {
                lemma_sorted_place_unique(names, i, j);
            }
        }
    }
}

impl<K: StoreKey> Default for EncryptedMemoryStore<K> {
    fn default() -> (store: Self)
        ensures
            store.contents() == Map::<Seq<u8>, Option<Seq<u8>>>::empty(),
            store.ordered_keys() == Seq::<Seq<u8>>::empty(),
    {
        EncryptedMemoryStore::new()
    }
}

} // verus!
