//! The keys that the agent holds, each found by its public key blob.

use vstd::prelude::*;
use vstd::string::StringSliceAdditionalSpecFns;
use vstd::utf8::encode_utf8;

use crate::ssh_agent::crypto::accepted_text;
use crate::ssh_agent::crypto::openssh_signature;
use crate::ssh_agent::crypto::public_blob_of;
use crate::ssh_agent::crypto::signature_sized;
use crate::ssh_agent::crypto::ssh_signature_valid;
use crate::ssh_agent::crypto::KeyAlgorithm;
use crate::ssh_agent::crypto::KeyError;
use crate::ssh_agent::crypto::PrivateKey;
use crate::ssh_agent::crypto::PublicKey;
use crate::ssh_agent::crypto::SSHKeyData;
use crate::ssh_agent::wire::fits_u32;
use crate::ssh_agent::wire::put_string;
use crate::ssh_agent::wire::ssh_string;
use crate::text::bytes_equal;

verus! {

/// A key that the agent holds. The signing material is the OpenSSH text of
/// the private key; it is absent while the agent is locked.
#[derive(Debug, Clone)]
pub struct StoredKey {
    pub public_key_blob: Vec<u8>,
    pub algorithm: KeyAlgorithm,
    pub signing_material: Option<String>,
    pub display_name: String,
    pub cipher_id: String,
}

/// A `StoredKey`, as mathematics sees it.
pub struct StoredKeyModel {
    pub public_key_blob: Seq<u8>,
    pub algorithm: KeyAlgorithm,
    pub signing_material: Option<Seq<char>>,
    pub display_name: Seq<char>,
    pub cipher_id: Seq<char>,
}

/// Why a signature was not made.
#[derive(Debug, Clone, Copy, PartialEq, Eq)]
pub enum SignError {
    /// No key with the blob is held.
    UnknownKey,
    /// The key is held without its signing material: the agent is locked.
    Locked,
    /// The key could not sign.
    Failed,
}

/// A signature: the tag of its algorithm, and its raw bytes.
#[derive(Debug, Clone, PartialEq, Eq)]
pub struct KeySignature {
    pub algorithm: KeyAlgorithm,
    pub raw: Vec<u8>,
}

/// The keys of the agent, in the order in which they are listed. No two keys
/// have the same public key blob.
pub struct KeyStore {
    keys: Vec<StoredKey>,
    needs_unlock: bool,
}

impl View for StoredKey {
    type V = StoredKeyModel;

    open spec fn view(&self) -> StoredKeyModel {
        StoredKeyModel {
            public_key_blob: self.public_key_blob@,
            algorithm: self.algorithm,
            signing_material: match self.signing_material {
                Some(pem) => Some(pem@),
                None => None,
            },
            display_name: self.display_name@,
            cipher_id: self.cipher_id@,
        }
    }
}

impl StoredKeyModel {
    /// The key without its signing material.
    pub open spec fn locked(self) -> StoredKeyModel {
        StoredKeyModel { signing_material: None, ..self }
    }
}

/// The first place from `from` on where a key with the blob stands.
pub open spec fn place_from(keys: Seq<StoredKeyModel>, blob: Seq<u8>, from: int) -> Option<int>
    decreases keys.len() - from,
{
    if from < 0 || from >= keys.len() {
        None
    } else if keys[from].public_key_blob == blob {
        Some(from)
    } else {
        place_from(keys, blob, from + 1)
    }
}

/// The first place where a key with the blob stands.
pub open spec fn place_of(keys: Seq<StoredKeyModel>, blob: Seq<u8>) -> Option<int> {
    place_from(keys, blob, 0)
}

/// The key with the blob, if one is held.
pub open spec fn key_of(keys: Seq<StoredKeyModel>, blob: Seq<u8>) -> Option<StoredKeyModel> {
    match place_of(keys, blob) {
        Some(place) => Some(keys[place]),
        None => None,
    }
}

/// The keys after one more is taken in: it takes the place of the key with
/// the same blob, or the last place where there is none.
pub open spec fn with_key(keys: Seq<StoredKeyModel>, key: StoredKeyModel) -> Seq<StoredKeyModel> {
    match place_of(keys, key.public_key_blob) {
        Some(place) => keys.update(place, key),
        None => keys.push(key),
    }
}

/// The key that an entry of `set_keys` loads, where its text is accepted.
pub open spec fn loaded_key(pem: Seq<char>, name: Seq<char>, cipher_id: Seq<char>) -> Option<
    StoredKeyModel,
> {
    match (accepted_text(pem), public_blob_of(pem)) {
        (Ok(algorithm), Some(blob)) => Some(
            StoredKeyModel {
                public_key_blob: blob,
                algorithm,
                signing_material: Some(pem),
                display_name: name,
                cipher_id,
            },
        ),
        _ => None,
    }
}

/// The keys that the first `count` entries of `set_keys` load, one after
/// another; an entry whose text is not accepted is passed over.
pub open spec fn loaded_keys(entries: Seq<(String, String, String)>, count: int) -> Seq<
    StoredKeyModel,
>
    decreases count,
{
    if count <= 0 {
        Seq::empty()
    } else {
        let before = loaded_keys(entries, count - 1);
        let entry = entries[count - 1];
        match loaded_key(entry.0@, entry.1@, entry.2@) {
            Some(key) => with_key(before, key),
            None => before,
        }
    }
}

/// The refusals among the first `count` entries of `set_keys`: for each
/// entry whose text is not accepted, its place and the error, in the order of
/// the entries.
pub open spec fn refusals(entries: Seq<(String, String, String)>, count: int) -> Seq<
    (usize, KeyError),
>
    decreases count,
{
    if count <= 0 {
        Seq::empty()
    } else {
        let before = refusals(entries, count - 1);
        match accepted_text(entries[count - 1].0@) {
            Err(error) => before.push(((count - 1) as usize, error)),
            Ok(_) => before,
        }
    }
}

/// Whether no two keys have the same blob.
pub open spec fn distinct_blobs(keys: Seq<StoredKeyModel>) -> bool {
    forall|i: int, j: int|
        0 <= i < keys.len() && 0 <= j < keys.len() && i != j ==> keys[i].public_key_blob
            != keys[j].public_key_blob
}

/// A signature as a blob: the tag of its algorithm and its raw bytes, as
/// strings.
pub open spec fn signature_blob(algorithm: KeyAlgorithm, raw: Seq<u8>) -> Seq<u8> {
    ssh_string(encode_utf8(algorithm.signature_name())) + ssh_string(raw)
}

/// Whether a signature can be handed out: its length fits the four bytes
/// that write it, and it is valid over the message under the public key of
/// the blob.
pub open spec fn signature_holds(
    algorithm: KeyAlgorithm,
    blob: Seq<u8>,
    message: Seq<u8>,
    raw: Seq<u8>,
) -> bool {
    raw.len() <= u32::MAX && ssh_signature_valid(blob, message, signature_blob(algorithm, raw))
}

/// What signing with a blob over a message gives on given keys. A signature
/// that does not hold is not handed out.
pub open spec fn signature_of(keys: Seq<StoredKeyModel>, blob: Seq<u8>, message: Seq<u8>)
    -> Result<(KeyAlgorithm, Seq<u8>), SignError> {
    match key_of(keys, blob) {
        None => Err(SignError::UnknownKey),
        Some(key) => match key.signing_material {
            None => Err(SignError::Locked),
            Some(pem) => match openssh_signature(key.algorithm, pem, message) {
                Some(raw) => if signature_holds(key.algorithm, blob, message, raw) {
                    Ok((key.algorithm, raw))
                } else {
                    Err(SignError::Failed)
                },
                None => Err(SignError::Failed),
            },
        },
    }
}

/// Every signature that is handed out verifies: a signature that is made
/// with the key of a blob is valid over the message under the public key of
/// that blob, as a signature of the key's algorithm.
pub proof fn lemma_signature_verifies(keys: Seq<StoredKeyModel>, blob: Seq<u8>, message: Seq<u8>)
    ensures
        match signature_of(keys, blob, message) {
            Ok((algorithm, raw)) => {
                &&& ssh_signature_valid(blob, message, signature_blob(algorithm, raw))
                &&& raw.len() <= u32::MAX
                &&& key_of(keys, blob) matches Some(key) && key.algorithm == algorithm
                    && key.public_key_blob == blob
            },
            Err(_) => true,
        },
{
    lemma_place_of(keys, blob);
}

proof fn lemma_place_from(keys: Seq<StoredKeyModel>, blob: Seq<u8>, from: int)
    requires
        0 <= from,
    ensures
        match place_from(keys, blob, from) {
            Some(place) => from <= place < keys.len() && keys[place].public_key_blob == blob
                && forall|i: int| from <= i < place ==> keys[i].public_key_blob != blob,
            None => forall|i: int| from <= i < keys.len() ==> keys[i].public_key_blob != blob,
        },
    decreases keys.len() - from,
{
    if from < keys.len() && keys[from].public_key_blob != blob {
        lemma_place_from(keys, blob, from + 1);
    }
}

/// Where a blob is found, a key with it stands there, and none before;
/// where it is not found, no key has it.
pub proof fn lemma_place_of(keys: Seq<StoredKeyModel>, blob: Seq<u8>)
    ensures
        match place_of(keys, blob) {
            Some(place) => 0 <= place < keys.len() && keys[place].public_key_blob == blob
                && forall|i: int| 0 <= i < place ==> keys[i].public_key_blob != blob,
            None => forall|i: int| 0 <= i < keys.len() ==> keys[i].public_key_blob != blob,
        },
{
    lemma_place_from(keys, blob, 0);
}

/// Taking a key in keeps the blobs distinct.
pub proof fn lemma_with_key_distinct(keys: Seq<StoredKeyModel>, key: StoredKeyModel)
    requires
        distinct_blobs(keys),
    ensures
        distinct_blobs(with_key(keys, key)),
{
    lemma_place_of(keys, key.public_key_blob);
}

/// A key that is taken in is found by its blob.
pub proof fn lemma_with_key_finds(keys: Seq<StoredKeyModel>, key: StoredKeyModel)
    ensures
        key_of(with_key(keys, key), key.public_key_blob) == Some(key),
{
    let blob = key.public_key_blob;
    let after = with_key(keys, key);
    lemma_place_of(keys, blob);
    lemma_place_of(after, blob);
    match place_of(keys, blob) {
        Some(place) => {
            assert(after[place].public_key_blob == blob);
            let found = place_of(after, blob)->Some_0;
            if found < place {
                assert(after[found] == keys[found]);
            }
        },
        None => {
            assert(after[keys.len() as int].public_key_blob == blob);
            let found = place_of(after, blob)->Some_0;
            if found < keys.len() {
                assert(after[found] == keys[found]);
            }
        },
    }
}

/// A key that is taken in leaves the keys with other blobs where they are
/// found.
pub proof fn lemma_with_key_keeps(keys: Seq<StoredKeyModel>, key: StoredKeyModel, blob: Seq<u8>)
    requires
        blob != key.public_key_blob,
    ensures
        key_of(with_key(keys, key), blob) == key_of(keys, blob),
{
    let after = with_key(keys, key);
    lemma_place_of(keys, key.public_key_blob);
    lemma_place_of(keys, blob);
    lemma_place_of(after, blob);
    assert forall|i: int| 0 <= i < keys.len() implies (#[trigger] after[i]).public_key_blob
        == keys[i].public_key_blob by {}
    match place_of(after, blob) {
        Some(found) => {
            assert(found < keys.len()) by {
                if found >= keys.len() {
                    assert(after[found] == key);
                }
            }
            assert(keys[found].public_key_blob == after[found].public_key_blob);
            let place = place_of(keys, blob)->Some_0;
            assert(after[place].public_key_blob == keys[place].public_key_blob);
            assert(after[found] == keys[found]);
        },
        None => {
            if place_of(keys, blob) is Some {
                let place = place_of(keys, blob)->Some_0;
                assert(after[place].public_key_blob == keys[place].public_key_blob);
            }
        },
    }
}

impl KeyStore {
    /// The keys, in listing order.
    pub closed spec fn entries(&self) -> Seq<StoredKeyModel> {
        Seq::new(self.keys@.len(), |i: int| self.keys@[i]@)
    }

    /// Whether a listing must wait for the user to unlock the vault: no keys
    /// were set since the agent started or since the keys were cleared.
    pub closed spec fn locked_out(&self) -> bool {
        self.needs_unlock
    }

    /// The store's invariant: no two keys have the same blob.
    #[verifier::type_invariant]
    pub closed spec fn wf(&self) -> bool {
        distinct_blobs(self.entries())
    }

    /// A store without keys, which waits to be unlocked.
    pub fn new() -> (store: KeyStore)
        ensures
            store.entries() == Seq::<StoredKeyModel>::empty(),
            store.locked_out(),
    {
        let store = KeyStore { keys: Vec::new(), needs_unlock: true };
        assert(store.entries() =~= Seq::<StoredKeyModel>::empty());
        store
    }

    /// The number of keys held.
    pub fn len(&self) -> (count: usize)
        ensures
            count == self.entries().len(),
    {
        self.keys.len()
    }

    /// Whether a listing must wait for the user to unlock the vault.
    pub fn needs_unlock(&self) -> (needed: bool)
        ensures
            needed == self.locked_out(),
    {
        self.needs_unlock
    }

    /// The key at a place of the listing order.
    pub fn key_at(&self, place: usize) -> (key: &StoredKey)
        requires
            place < self.entries().len(),
        ensures
            key@ == self.entries()[place as int],
    {
        &self.keys[place]
    }

    /// The place of the key with a blob, if one is held.
    pub fn position(&self, blob: &[u8]) -> (place: Option<usize>)
        ensures
            match place {
                Some(found) => place_of(self.entries(), blob@) == Some(found as int),
                None => place_of(self.entries(), blob@) is None,
            },
    {
        position_in(&self.keys, blob)
    }

    /// The key with a blob, if one is held.
    pub fn get(&self, blob: &[u8]) -> (key: Option<&StoredKey>)
        ensures
            match key {
                Some(found) => key_of(self.entries(), blob@) == Some(found@),
                None => key_of(self.entries(), blob@) is None,
            },
    {
        proof {
            lemma_place_of(self.entries(), blob@);
        }
        match self.position(blob) {
            Some(place) => Some(&self.keys[place]),
            None => None,
        }
    }

    /// Replaces the keys by those that the entries load: each entry is the
    /// OpenSSH text of a private key, a display name and a cipher ID. An entry
    /// whose key is refused is passed over; the errors are returned with the
    /// places of their entries. Afterwards listings need no unlock.
    pub fn set_keys(&mut self, new_keys: &Vec<(String, String, String)>) -> (refused: Vec<
        (usize, KeyError),
    >)
        ensures
            final(self).entries() == loaded_keys(new_keys@, new_keys@.len() as int),
            !final(self).locked_out(),
            refused@ == refusals(new_keys@, new_keys@.len() as int),
    {
        let mut keys: Vec<StoredKey> = Vec::new();
        let mut refused: Vec<(usize, KeyError)> = Vec::new();
        let mut i: usize = 0;
        assert(models_of(keys@) =~= loaded_keys(new_keys@, 0));
        assert(refused@ =~= refusals(new_keys@, 0));
        while i < new_keys.len()
            invariant
                i <= new_keys@.len(),
                models_of(keys@) == loaded_keys(new_keys@, i as int),
                distinct_blobs(models_of(keys@)),
                refused@ == refusals(new_keys@, i as int),
            decreases new_keys@.len() - i,
        {
            let entry = &new_keys[i];
            match SSHKeyData::parse(entry.0.as_str(), entry.1.as_str(), entry.2.as_str()) {
                Ok(parsed) => {
                    let key = StoredKey {
                        public_key_blob: copy_bytes(parsed.public_key().blob()),
                        algorithm: parsed.private_key().get_algorithm(),
                        signing_material: Some(parsed.private_key().as_openssh().to_owned()),
                        display_name: parsed.name().clone(),
                        cipher_id: parsed.cipher_id().clone(),
                    };
                    assert(Some(key@) == loaded_key(entry.0@, entry.1@, entry.2@));
                    proof {
                        lemma_with_key_distinct(models_of(keys@), key@);
                    }
                    put_key(&mut keys, key);
                },
                Err(error) => {
                    refused.push((i, error));
                },
            }
            i += 1;
        }
        assert(Seq::new(keys@.len(), |j: int| keys@[j]@) =~= models_of(keys@));
        self.keys = keys;
        self.needs_unlock = false;
        assert(self.entries() =~= loaded_keys(new_keys@, new_keys@.len() as int));
        refused
    }

    /// Strips the signing material of every key, and keeps the public keys
    /// and the metadata: listing still works, signing does not.
    pub fn lock(&mut self)
        ensures
            final(self).locked_out() == old(self).locked_out(),
            final(self).entries().len() == old(self).entries().len(),
            forall|i: int|
                0 <= i < old(self).entries().len() ==> #[trigger] final(self).entries()[i] == old(
                    self,
                ).entries()[i].locked(),
    {
        proof {
            use_type_invariant(&*self);
        }
        let ghost before = self.entries();
        let mut keys: Vec<StoredKey> = Vec::new();
        core::mem::swap(&mut self.keys, &mut keys);
        let mut i: usize = 0;
        while i < keys.len()
            invariant
                i <= keys@.len(),
                keys@.len() == before.len(),
                forall|j: int| 0 <= j < i ==> #[trigger] keys@[j]@ == before[j].locked(),
                forall|j: int| i <= j < keys@.len() ==> #[trigger] keys@[j]@ == before[j],
            decreases keys@.len() - i,
        {
            let held = &keys[i];
            let stripped = StoredKey {
                public_key_blob: copy_bytes(held.public_key_blob.as_slice()),
                algorithm: held.algorithm,
                signing_material: None,
                display_name: held.display_name.clone(),
                cipher_id: held.cipher_id.clone(),
            };
            assert(held@ == before[i as int]);
            assert(stripped@ == before[i as int].locked());
            let ghost earlier = keys@;
            keys.set(i, stripped);
            assert forall|j: int| 0 <= j < i + 1 implies #[trigger] keys@[j]@ == before[j].locked() by {
                if j < i {
                    assert(keys@[j] == earlier[j]);
                    assert(earlier[j]@ == before[j].locked());
                }
            }
            assert forall|j: int| i + 1 <= j < keys@.len() implies #[trigger] keys@[j]@ == before[j] by {
                assert(keys@[j] == earlier[j]);
                assert(earlier[j]@ == before[j]);
            }
            i += 1;
        }
        assert(distinct_blobs(models_of(keys@))) by {
            assert forall|a: int, b: int|
                0 <= a < keys@.len() && 0 <= b < keys@.len() && a != b implies models_of(
                keys@,
            )[a].public_key_blob != models_of(keys@)[b].public_key_blob by {
                assert(keys@[a]@ == before[a].locked());
                assert(keys@[b]@ == before[b].locked());
                assert(before[a].public_key_blob != before[b].public_key_blob);
            }
        }
        assert(Seq::new(keys@.len(), |j: int| keys@[j]@) =~= models_of(keys@));
        self.keys = keys;
        assert forall|j: int| 0 <= j < before.len() implies #[trigger] self.entries()[j]
            == before[j].locked() by {
            assert(keys@[j]@ == before[j].locked());
        }
    }

    /// Removes every key. The next listing needs the vault to be unlocked.
    pub fn clear_keys(&mut self)
        ensures
            final(self).entries() == Seq::<StoredKeyModel>::empty(),
            final(self).locked_out(),
    {
        let keys: Vec<StoredKey> = Vec::new();
        assert(Seq::new(keys@.len(), |j: int| keys@[j]@) =~= Seq::<StoredKeyModel>::empty());
        self.keys = keys;
        self.needs_unlock = true;
        assert(self.entries() =~= Seq::<StoredKeyModel>::empty());
    }

    /// Signs a message with the key of a blob. Fails where no such key is
    /// held, where it is held without its signing material, and where the
    /// key cannot sign. The signature is checked before it is handed out:
    /// one that is not valid over the message under the public key of the
    /// blob counts as a failure to sign. An Ed25519 signature has 64 bytes.
    pub fn sign(&self, blob: &[u8], message: &[u8]) -> (signature: Result<KeySignature, SignError>)
        ensures
            match signature {
                Ok(made) => signature_of(self.entries(), blob@, message@) == Ok::<
                    (KeyAlgorithm, Seq<u8>),
                    SignError,
                >((made.algorithm, made.raw@)) && signature_sized(made.algorithm, made.raw@),
                Err(error) => signature_of(self.entries(), blob@, message@) == Err::<
                    (KeyAlgorithm, Seq<u8>),
                    SignError,
                >(error),
            },
    {
        let key = match self.get(blob) {
            Some(key) => key,
            None => {
                return Err(SignError::UnknownKey);
            },
        };
        let pem = match &key.signing_material {
            Some(pem) => pem,
            None => {
                return Err(SignError::Locked);
            },
        };
        let private_key = match key.algorithm {
            KeyAlgorithm::Ed25519 => PrivateKey::Ed25519(pem.clone()),
            KeyAlgorithm::Rsa => PrivateKey::Rsa(pem.clone()),
        };
        let raw = match private_key.sign(message) {
            Some(raw) => raw,
            None => {
                return Err(SignError::Failed);
            },
        };
        if !fits_u32(raw.len()) {
            return Err(SignError::Failed);
        }
        let signature = write_signature_blob(key.algorithm, raw.as_slice());
        let public_key = PublicKey {
            alg: key.algorithm.public_tag().to_owned(),
            blob: copy_bytes(blob),
        };
        if public_key.verify(message, signature.as_slice()) {
            Ok(KeySignature { algorithm: key.algorithm, raw })
        } else {
            Err(SignError::Failed)
        }
    }

    /// Lock semantics: once every key has lost its signing material, as
    /// `lock` leaves them, the same blobs are listed in the same order, and
    /// signing fails for each of them, whatever the message.
    pub proof fn lemma_lock_blocks_signing(
        before: Seq<StoredKeyModel>,
        after: Seq<StoredKeyModel>,
        place: int,
        message: Seq<u8>,
    )
        requires
            after.len() == before.len(),
            forall|i: int| 0 <= i < before.len() ==> #[trigger] after[i] == before[i].locked(),
            0 <= place < before.len(),
        ensures
            after[place].public_key_blob == before[place].public_key_blob,
            after[place].display_name == before[place].display_name,
            signature_of(after, before[place].public_key_blob, message) == Err::<
                (KeyAlgorithm, Seq<u8>),
                SignError,
            >(SignError::Locked),
    {
        let blob = before[place].public_key_blob;
        lemma_place_of(after, blob);
        assert(after[place].public_key_blob == blob);
        let found = place_of(after, blob)->Some_0;
        assert(after[found] == before[found].locked());
    }

    /// Every refusal that `set_keys` returns names an entry whose text is
    /// not accepted, with the error of that text; an entry whose text is not
    /// accepted is named by a refusal; and the places come in increasing
    /// order.
    pub proof fn lemma_refusals(entries: Seq<(String, String, String)>, count: int)
        requires
            0 <= count <= entries.len(),
            entries.len() <= usize::MAX,
        ensures
            forall|k: int|
                0 <= k < refusals(entries, count).len() ==> (#[trigger] refusals(
                    entries,
                    count,
                )[k]).0 < count && accepted_text(entries[refusals(entries, count)[k].0 as int].0@)
                    == Err::<KeyAlgorithm, KeyError>(refusals(entries, count)[k].1),
            forall|i: int|
                0 <= i < count && accepted_text(#[trigger] entries[i].0@) is Err ==> refusals(
                    entries,
                    count,
                ).contains((i as usize, accepted_text(entries[i].0@)->Err_0)),
            forall|j: int, k: int|
                0 <= j < k < refusals(entries, count).len() ==> refusals(entries, count)[j].0
                    < refusals(entries, count)[k].0,
        decreases count,
    {
        if count > 0 {
            Self::lemma_refusals(entries, count - 1);
            let before = refusals(entries, count - 1);
            let now = refusals(entries, count);
            match accepted_text(entries[count - 1].0@) {
                Err(error) => {
                    assert(now == before.push(((count - 1) as usize, error)));
                    assert(now[now.len() - 1] == ((count - 1) as usize, error));
                    assert forall|i: int|
                        0 <= i < count && accepted_text(#[trigger] entries[i].0@) is Err implies now.contains(
                        (i as usize, accepted_text(entries[i].0@)->Err_0),
                    ) by {
                        if i < count - 1 {
                            let pair = (i as usize, accepted_text(entries[i].0@)->Err_0);
                            let k = choose|k: int| 0 <= k < before.len() && before[k] == pair;
                            assert(now[k] == pair);
                        }
                    }
                },
                Ok(_) => {},
            }
        }
    }

    /// Loading: after `set_keys`, every entry whose text is accepted is found
    /// by the public key blob that its text carries, with signing material;
    /// and it is found as it was entered, with its name and its cipher ID,
    /// unless a later entry that is accepted carries the same blob.
    pub proof fn lemma_set_keys_loads(entries: Seq<(String, String, String)>, count: int, place: int)
        requires
            0 <= place < count <= entries.len(),
            accepted_text(entries[place].0@) is Ok,
        ensures
            loaded_key(entries[place].0@, entries[place].1@, entries[place].2@) is Some,
            ({
                let key = loaded_key(entries[place].0@, entries[place].1@, entries[place].2@)->Some_0;
                let held = key_of(loaded_keys(entries, count), key.public_key_blob);
                &&& Some(key.public_key_blob) == public_blob_of(entries[place].0@)
                &&& key.display_name == entries[place].1@
                &&& key.cipher_id == entries[place].2@
                &&& key.signing_material == Some(entries[place].0@)
                &&& held is Some
                &&& held->Some_0.public_key_blob == key.public_key_blob
                &&& held->Some_0.signing_material is Some
                &&& (forall|later: int|
                    place < later < count && accepted_text(#[trigger] entries[later].0@) is Ok
                        ==> public_blob_of(entries[later].0@) != Some(key.public_key_blob))
                    ==> held == Some(key)
            }),
        decreases count,
    {
        let key = loaded_key(entries[place].0@, entries[place].1@, entries[place].2@)->Some_0;
        let blob = key.public_key_blob;
        let before = loaded_keys(entries, count - 1);
        let last = entries[count - 1];
        if place == count - 1 {
            lemma_with_key_finds(before, key);
        } else {
            Self::lemma_set_keys_loads(entries, count - 1, place);
            match loaded_key(last.0@, last.1@, last.2@) {
                Some(other) => {
                    if other.public_key_blob == blob {
                        lemma_with_key_finds(before, other);
                        assert(accepted_text(entries[count - 1].0@) is Ok);
                        assert(public_blob_of(entries[count - 1].0@) == Some(blob));
                    } else {
                        lemma_with_key_keeps(before, other, blob);
                    }
                },
                None => {},
            }
        }
    }

    /// Replacement: after `set_keys`, the store holds what the new entries
    /// load and nothing of what it held before; a blob is found exactly
    /// where some accepted entry carries it.
    pub proof fn lemma_set_keys_replaces(entries: Seq<(String, String, String)>, count: int)
        requires
            0 <= count <= entries.len(),
        ensures
            distinct_blobs(loaded_keys(entries, count)),
            forall|i: int|
                0 <= i < loaded_keys(entries, count).len() ==> exists|k: int|
                    0 <= k < count && loaded_key(entries[k].0@, entries[k].1@, entries[k].2@)
                        == Some(#[trigger] loaded_keys(entries, count)[i]),
        decreases count,
    {
        if count > 0 {
            Self::lemma_set_keys_replaces(entries, count - 1);
            let before = loaded_keys(entries, count - 1);
            let entry = entries[count - 1];
            match loaded_key(entry.0@, entry.1@, entry.2@) {
                Some(key) => {
                    lemma_with_key_distinct(before, key);
                    lemma_place_of(before, key.public_key_blob);
                    let after = with_key(before, key);
                    assert forall|i: int| 0 <= i < after.len() implies exists|k: int|
                        0 <= k < count && loaded_key(entries[k].0@, entries[k].1@, entries[k].2@)
                            == Some(#[trigger] after[i]) by {
                        if after[i] == key {
                            assert(loaded_key(
                                entries[count - 1].0@,
                                entries[count - 1].1@,
                                entries[count - 1].2@,
                            ) == Some(after[i]));
                        } else {
                            assert(after[i] == before[i]);
                            let k = choose|k: int|
                                0 <= k < count - 1 && loaded_key(
                                    entries[k].0@,
                                    entries[k].1@,
                                    entries[k].2@,
                                ) == Some(before[i]);
                            assert(loaded_key(entries[k].0@, entries[k].1@, entries[k].2@) == Some(
                                after[i],
                            ));
                        }
                    }
                },
                None => {},
            }
        }
    }
}

/// The models of a list of keys.
pub open spec fn models_of(keys: Seq<StoredKey>) -> Seq<StoredKeyModel> {
    Seq::new(keys.len(), |i: int| keys[i]@)
}

/// Writes a signature as a blob. The length of the signature must fit the
/// four bytes that write it.
pub fn write_signature_blob(algorithm: KeyAlgorithm, raw: &[u8]) -> (blob: Vec<u8>)
    requires
        raw@.len() <= u32::MAX,
    ensures
        blob@ == signature_blob(algorithm, raw@),
{
    let mut blob: Vec<u8> = Vec::new();
    let tag = algorithm.signature_tag().as_bytes();
    proof {
        reveal_strlit("ssh-ed25519");
        reveal_strlit("rsa-sha2-512");
        vstd::utf8::is_ascii_chars_encode_utf8("ssh-ed25519"@);
        vstd::utf8::is_ascii_chars_encode_utf8("rsa-sha2-512"@);
    }
    assert(tag@.len() <= u32::MAX);
    put_string(&mut blob, tag);
    put_string(&mut blob, raw);
    assert(blob@ =~= signature_blob(algorithm, raw@));
    blob
}

/// A copy of a byte string.
pub fn copy_bytes(bytes: &[u8]) -> (copy: Vec<u8>)
    ensures
        copy@ == bytes@,
{
    let mut copy: Vec<u8> = Vec::new();
    let mut i: usize = 0;
    while i < bytes.len()
        invariant
            i <= bytes@.len(),
            copy@ == bytes@.subrange(0, i as int),
        decreases bytes@.len() - i,
    {
        copy.push(bytes[i]);
        assert(bytes@.subrange(0, i + 1) =~= bytes@.subrange(0, i as int).push(bytes@[i as int]));
        i += 1;
    }
    assert(bytes@.subrange(0, bytes@.len() as int) =~= bytes@);
    copy
}

/// The first place where a key with the blob stands in a list.
fn position_in(keys: &Vec<StoredKey>, blob: &[u8]) -> (place: Option<usize>)
    ensures
        match place {
            Some(found) => place_of(models_of(keys@), blob@) == Some(found as int),
            None => place_of(models_of(keys@), blob@) is None,
        },
{
    let ghost models = models_of(keys@);
    let mut i: usize = 0;
    while i < keys.len()
        invariant
            i <= keys@.len(),
            models == models_of(keys@),
            place_of(models, blob@) == place_from(models, blob@, i as int),
        decreases keys@.len() - i,
    {
        if bytes_equal(keys[i].public_key_blob.as_slice(), blob) {
            assert(models[i as int].public_key_blob == blob@);
            return Some(i);
        }
        assert(models[i as int].public_key_blob != blob@);
        i += 1;
    }
    None
}

/// Takes a key into a list: in place of the key with the same blob, or at
/// the end where there is none.
fn put_key(keys: &mut Vec<StoredKey>, key: StoredKey)
    ensures
        models_of(final(keys)@) == with_key(models_of(old(keys)@), key@),
{
    let ghost before = models_of(keys@);
    proof {
        lemma_place_of(before, key.public_key_blob@);
    }
    match position_in(keys, key.public_key_blob.as_slice()) {
        Some(place) => {
            keys.set(place, key);
            assert(models_of(keys@) =~= before.update(place as int, key@));
        },
        None => {
            keys.push(key);
            assert(models_of(keys@) =~= before.push(key@));
        },
    }
}

} // verus!
