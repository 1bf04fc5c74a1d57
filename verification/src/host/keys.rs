//! Key material, as the host hands it in and gets it back.

use vstd::prelude::*;

verus! {

/// The two parts that a key for biometric unlock is derived from.
#[derive(Debug, Clone, PartialEq, Eq)]
pub struct KeyMaterial {
    pub os_key_part_b64: String,
    pub client_key_part_b64: Option<String>,
}

/// A key that the operating system derived, with the challenge that it was
/// derived from.
#[derive(Debug, Clone, PartialEq, Eq)]
pub struct OsDerivedKey {
    pub key_b64: String,
    pub iv_b64: String,
}

/// An SSH key as text.
#[derive(Debug, Clone, PartialEq, Eq)]
pub struct SshKey {
    pub private_key: String,
    pub public_key: String,
    pub key_fingerprint: String,
}

/// A private key that the host hands to the agent, with its metadata.
#[derive(Debug, Clone, PartialEq, Eq)]
pub struct HostPrivateKey {
    pub private_key: String,
    pub name: String,
    pub cipher_id: String,
}

/// The entries for `set_keys` that a list of keys of the host makes: for
/// each key its text, its name and its cipher ID.
pub fn key_entries(keys: &Vec<HostPrivateKey>) -> (entries: Vec<(String, String, String)>)
    ensures
        entries@.len() == keys@.len(),
        forall|i: int|
            0 <= i < keys@.len() ==> (#[trigger] entries@[i]).0@ == keys@[i].private_key@
                && entries@[i].1@ == keys@[i].name@ && entries@[i].2@ == keys@[i].cipher_id@,
{
    let mut entries: Vec<(String, String, String)> = Vec::new();
    let mut i: usize = 0;
    while i < keys.len()
        invariant
            i <= keys@.len(),
            entries@.len() == i,
            forall|j: int|
                0 <= j < i ==> (#[trigger] entries@[j]).0@ == keys@[j].private_key@
                    && entries@[j].1@ == keys@[j].name@ && entries@[j].2@ == keys@[j].cipher_id@,
        decreases keys@.len() - i,
    {
        let key = &keys[i];
        entries.push((key.private_key.clone(), key.name.clone(), key.cipher_id.clone()));
        i += 1;
    }
    entries
}

} // verus!
