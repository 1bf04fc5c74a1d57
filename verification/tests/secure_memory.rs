use credential_agent::secure_memory::secure_key::EncryptedMemory;
use credential_agent::secure_memory::secure_key::SecureMemoryEncryptionKey;
use credential_agent::secure_memory::DecryptionError;
use credential_agent::secure_memory::EncryptedMemoryStore;
use credential_agent::secure_memory::SecureMemoryStore;

#[test]
fn test_secret_kv_store_various_sizes() {
    let mut store = EncryptedMemoryStore::default();
    for size in 0..=2048 {
        let key = format!("test_key_{size}");
        let value: Vec<u8> = (0..size).map(|i| (i % 256) as u8).collect();
        store.put(key.clone(), &value);
        assert!(store.has(&key), "Store should have key for size {size}");
        assert_eq!(
            store.get(&key).expect("entry in map for key"),
            Some(value),
            "Value mismatch for size {size}",
        );
    }
}

#[test]
fn test_crud() {
    let mut store = EncryptedMemoryStore::default();
    let key = "test_key".to_string();
    let value = vec![1, 2, 3, 4, 5];
    store.put(key.clone(), &value);
    assert!(store.has(&key));
    assert_eq!(store.get(&key).expect("entry in map for key"), Some(value));
    store.remove(&key);
    assert!(!store.has(&key));
}

#[test]
fn test_to_vec_contains_all() {
    let mut store = EncryptedMemoryStore::default();

    for size in 0..=2048 {
        let key = format!("test_key_{size}");
        let value: Vec<u8> = (0..size).map(|i| (i % 256) as u8).collect();
        store.put(key.clone(), &value);
    }
    let vec_values = store.to_vec().expect("decryption to not fail");

    // to_vec() should contain same number of values as inserted
    assert_eq!(vec_values.len(), 2049);

    // the value from the store should match the value in the vec
    let keys: Vec<_> = store.keys();
    for (store_key, vec_value) in keys.iter().zip(vec_values.iter()) {
        let store_value = store.get(store_key).expect("entry in map for key").unwrap();
        assert_eq!(&store_value, vec_value);
        store.remove(store_key);
    }

    // all values were present
    assert!(store.is_empty());
}

#[test]
fn test_to_vec_preserves_sorted_key_order() {
    let mut store = EncryptedMemoryStore::new();

    // insert in non-sorted order
    store.put("morpheus", &[4, 5, 6]);
    store.put("trinity", &[1, 2, 3]);
    store.put("dozer", &[7, 8, 9]);
    store.put("neo", &[10, 11, 12]);

    let vec = store.to_vec().expect("decryption to not fail");

    assert_eq!(
        vec,
        vec![
            vec![7, 8, 9],    // dozer
            vec![4, 5, 6],    // morpheus
            vec![10, 11, 12], // neo
            vec![1, 2, 3],    // trinity
        ]
    );
}

#[test]
fn test_to_vec_order_after_remove() {
    let mut store = EncryptedMemoryStore::new();

    // insert in non-sorted order
    store.put("trinity", &[3]);
    store.put("morpheus", &[1]);
    store.put("neo", &[2]);

    let vec = store.to_vec().expect("decryption to not fail");

    assert_eq!(vec, vec![vec![1], vec![2], vec![3]]);

    store.remove(&"neo");

    let vec = store.to_vec().expect("decryption to not fail");

    assert_eq!(vec, vec![vec![1], vec![3]]);
}

#[test]
fn get_of_a_key_never_put_is_none() {
    let mut store = EncryptedMemoryStore::new();
    assert_eq!(store.get(&"absent".to_string()), Ok(None));
    store.put("present".to_string(), &[1]);
    assert_eq!(store.get(&"absent".to_string()), Ok(None));
    assert!(!store.has(&"absent".to_string()));
    store.remove(&"absent".to_string());
    assert_eq!(store.len(), 1);
}

#[test]
fn put_replaces_the_value_under_a_key() {
    let mut store = EncryptedMemoryStore::new();
    store.put("k".to_string(), &[1, 2]);
    store.put("k".to_string(), &[3]);
    assert_eq!(store.len(), 1);
    assert_eq!(store.get(&"k".to_string()), Ok(Some(vec![3])));
}

#[test]
fn empty_value_round_trips() {
    let mut store = EncryptedMemoryStore::new();
    store.put("empty".to_string(), &[]);
    assert_eq!(store.get(&"empty".to_string()), Ok(Some(vec![])));
    assert_eq!(store.to_vec(), Ok(vec![vec![]]));
}

#[test]
fn clear_removes_everything() {
    let mut store = EncryptedMemoryStore::new();
    store.put("a".to_string(), &[1]);
    store.put("b".to_string(), &[2]);
    store.clear();
    assert!(store.is_empty());
    assert!(!store.has(&"a".to_string()));
    assert_eq!(store.to_vec(), Ok(vec![]));
}

#[test]
fn keys_are_sorted_by_bytes() {
    let mut store = EncryptedMemoryStore::new();
    for name in ["b", "a", "B", "ab", "", "é", "z"] {
        store.put(name.to_string(), name.as_bytes());
    }
    let keys = store.keys();
    let mut expected: Vec<String> = ["b", "a", "B", "ab", "", "é", "z"]
        .iter()
        .map(|s| s.to_string())
        .collect();
    expected.sort();
    assert_eq!(keys, expected);
    assert_eq!(keys, vec!["", "B", "a", "ab", "b", "z", "é"]);
    let values = store.to_vec().unwrap();
    let expected_values: Vec<Vec<u8>> = expected.iter().map(|s| s.as_bytes().to_vec()).collect();
    assert_eq!(values, expected_values);
}

#[test]
fn flipped_ciphertext_byte_clears_the_store() {
    let mut store = EncryptedMemoryStore::new();
    store.put("first".to_string(), &[1, 2, 3]);
    store.put("second".to_string(), &[4, 5, 6]);
    store.put("third".to_string(), &[7, 8, 9]);

    let mut sealed = store.sealed(&"second".to_string()).unwrap();
    sealed.ciphertext[0] ^= 0x01;
    store.put_sealed("second".to_string(), sealed);

    assert_eq!(store.get(&"first".to_string()), Ok(Some(vec![1, 2, 3])));
    assert_eq!(store.get(&"second".to_string()), Err(DecryptionError));
    assert!(!store.has(&"first".to_string()));
    assert!(!store.has(&"second".to_string()));
    assert!(!store.has(&"third".to_string()));
    assert!(store.is_empty());
}

#[test]
fn flipped_tag_or_nonce_byte_is_rejected() {
    for part in 0..3 {
        let mut store = EncryptedMemoryStore::new();
        store.put("k".to_string(), &[9; 40]);
        let mut sealed = store.sealed(&"k".to_string()).unwrap();
        match part {
            0 => {
                let last = sealed.ciphertext.len() - 1;
                sealed.ciphertext[last] ^= 0x80;
            }
            1 => sealed.nonce[5] ^= 0x10,
            _ => {
                sealed.ciphertext.pop();
            }
        }
        store.put_sealed("k".to_string(), sealed);
        assert_eq!(store.get(&"k".to_string()), Err(DecryptionError));
        assert!(store.is_empty());
    }
}

#[test]
fn to_vec_on_tampered_store_fails_and_clears() {
    let mut store = EncryptedMemoryStore::new();
    store.put("a".to_string(), &[1]);
    store.put("b".to_string(), &[2]);
    let mut sealed = store.sealed(&"b".to_string()).unwrap();
    sealed.ciphertext[0] ^= 0xff;
    store.put_sealed("b".to_string(), sealed);
    assert_eq!(store.to_vec(), Err(DecryptionError));
    assert!(store.is_empty());
}

#[test]
fn store_works_again_after_re_keying() {
    let mut store = EncryptedMemoryStore::new();
    store.put("a".to_string(), &[1]);
    let sealed_before = store.sealed(&"a".to_string()).unwrap();
    let mut broken = sealed_before.clone();
    broken.ciphertext[0] ^= 1;
    store.put_sealed("a".to_string(), broken);
    assert_eq!(store.get(&"a".to_string()), Err(DecryptionError));

    // a value sealed under the key that was thrown away no longer opens
    store.put_sealed("old".to_string(), sealed_before);
    assert_eq!(store.get(&"old".to_string()), Err(DecryptionError));

    store.put("a".to_string(), &[5]);
    assert_eq!(store.get(&"a".to_string()), Ok(Some(vec![5])));
}

#[test]
fn sealed_value_differs_from_plaintext_and_between_puts() {
    let mut store = EncryptedMemoryStore::new();
    let value = [7u8; 32];
    store.put("k".to_string(), &value);
    let first = store.sealed(&"k".to_string()).unwrap();
    assert_eq!(first.ciphertext.len(), value.len() + 16);
    assert_ne!(&first.ciphertext[..32], &value[..]);
    store.put("k".to_string(), &value);
    let second = store.sealed(&"k".to_string()).unwrap();
    assert_ne!(first.nonce, second.nonce);
    assert!(store.sealed(&"other".to_string()).is_none());
}

#[test]
fn key_encrypts_and_decrypts() {
    let key = SecureMemoryEncryptionKey::new();
    let sealed = key.encrypt(b"secret");
    assert_eq!(key.decrypt(&sealed), Ok(b"secret".to_vec()));
    let other = SecureMemoryEncryptionKey::new();
    assert_eq!(other.decrypt(&sealed), Err(DecryptionError));
    let short = EncryptedMemory { nonce: [0; 24], ciphertext: vec![1, 2, 3] };
    assert_eq!(key.decrypt(&short), Err(DecryptionError));
}

#[test]
fn a_wiped_key_opens_nothing_it_sealed() {
    let mut key = SecureMemoryEncryptionKey::new();
    let sealed = key.encrypt(b"secret");
    key.zeroize();
    assert_eq!(key.decrypt(&sealed), Err(DecryptionError));
    // the wiped key is the key of zeros
    let resealed = key.encrypt(b"a");
    let mut other = SecureMemoryEncryptionKey::new();
    other.zeroize();
    assert_eq!(other.decrypt(&resealed), Ok(b"a".to_vec()));
}

#[test]
fn byte_strings_can_be_keys() {
    let mut store: EncryptedMemoryStore<Vec<u8>> = EncryptedMemoryStore::new();
    store.put(vec![2], &[20]);
    store.put(vec![1, 255], &[10]);
    store.put(vec![], &[0]);
    store.put(vec![1], &[1]);
    assert_eq!(store.keys(), vec![vec![], vec![1], vec![1, 255], vec![2]]);
    assert_eq!(store.to_vec(), Ok(vec![vec![0], vec![1], vec![10], vec![20]]));
    assert!(store.has(&vec![1, 255]));
    assert!(!store.has(&vec![255]));
}
