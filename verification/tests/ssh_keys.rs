use credential_agent::ssh_agent::crypto::classify_key;
use credential_agent::ssh_agent::crypto::count_bits;
use credential_agent::ssh_agent::crypto::count_byte_bits;
use credential_agent::ssh_agent::crypto::sign_rsa;
use credential_agent::ssh_agent::crypto::RsaNumbers;
use credential_agent::ssh_agent::crypto::AlgorithmKind;
use credential_agent::ssh_agent::crypto::KeyAlgorithm;
use credential_agent::ssh_agent::crypto::KeyError;
use credential_agent::ssh_agent::crypto::KeyFacts;
use credential_agent::ssh_agent::crypto::PrivateKey;
use credential_agent::ssh_agent::crypto::PublicKey;
use credential_agent::ssh_agent::crypto::SSHKeyData;
use credential_agent::ssh_agent::generator::generate_keypair;
use credential_agent::ssh_agent::generator::key_kind;
use credential_agent::ssh_agent::generator::GenerateError;
use credential_agent::ssh_agent::generator::KeyKind;
use credential_agent::ssh_agent::generator::SSHKey;
use signature::Verifier;
use ssh_key::private::Ed25519Keypair;
use ssh_key::private::RsaKeypair;
use ssh_key::private::RsaPrivateKey;
use ssh_key::public::RsaPublicKey;
use ssh_key::rand_core::OsRng;
use ssh_key::Algorithm;
use ssh_key::EcdsaCurve;
use ssh_key::HashAlg;
use ssh_key::LineEnding;
use ssh_key::Mpint;

const MIN_KEY_BIT_SIZE: usize = 2048;

fn create_valid_ed25519_key_string() -> String {
    let ed25519_keypair = Ed25519Keypair::random(&mut OsRng);
    let ssh_key =
        ssh_key::PrivateKey::new(ssh_key::private::KeypairData::Ed25519(ed25519_keypair), "")
            .unwrap();
    ssh_key.to_openssh(LineEnding::LF).unwrap().to_string()
}

/// The Mersenne number with the given exponent; it is prime for the
/// exponents that are used here.
fn mersenne(exponent: usize) -> rsa::BigUint {
    (rsa::BigUint::from(1u32) << exponent) - rsa::BigUint::from(1u32)
}

/// An RSA keypair of more than `MIN_KEY_BIT_SIZE` bits. Random primes of
/// this size take too long to find in a test, so the key is built from two
/// primes that are known to everybody: it is a real key, and no secret.
/// The larger prime comes first, as signing expects.
fn known_rsa_keypair() -> RsaKeypair {
    let key = rsa::RsaPrivateKey::from_p_q(mersenne(2203), mersenne(1279), rsa::BigUint::from(65537u32))
        .unwrap();
    let keypair = RsaKeypair::try_from(&key).unwrap();
    assert!(keypair.public.n.as_positive_bytes().unwrap().len() * 8 >= MIN_KEY_BIT_SIZE);
    keypair
}

/// An Ed25519 key under a passphrase, as text. The protected part is made
/// up: the key can be read, not opened.
fn protected_ed25519_key_string() -> String {
    let public = ssh_key::PrivateKey::random(&mut OsRng, Algorithm::Ed25519)
        .unwrap()
        .public_key()
        .to_bytes()
        .unwrap();
    let string = |bytes: &[u8]| {
        let mut out = (bytes.len() as u32).to_be_bytes().to_vec();
        out.extend_from_slice(bytes);
        out
    };
    let mut options = string(&[7; 16]);
    options.extend(16u32.to_be_bytes());
    let mut container = b"openssh-key-v1\0".to_vec();
    container.extend(string(b"aes256-ctr"));
    container.extend(string(b"bcrypt"));
    container.extend(string(&options));
    container.extend(1u32.to_be_bytes());
    container.extend(string(&public));
    container.extend(string(&[0x5a; 160]));
    ssh_key::PrivateKey::from_bytes(&container)
        .unwrap()
        .to_openssh(LineEnding::LF)
        .unwrap()
        .to_string()
}

/// An OpenSSH RSA key with a modulus of the given number of bytes. Its
/// numbers are made up: it can be read, not used.
fn made_up_rsa_key_string(modulus_bytes: usize) -> String {
    made_up_rsa_key_with_lead(modulus_bytes, 0xc5)
}

/// An OpenSSH RSA key, made up, with a modulus of the given number of bytes
/// whose first byte is `lead`.
fn made_up_rsa_key_with_lead(modulus_bytes: usize, lead: u8) -> String {
    let mut modulus = vec![0xc5u8; modulus_bytes];
    modulus[0] = lead;
    modulus[modulus_bytes - 1] = 0x01;
    let keypair = RsaKeypair {
        public: RsaPublicKey {
            e: Mpint::from_positive_bytes(&[1, 0, 1]).unwrap(),
            n: Mpint::from_positive_bytes(&modulus).unwrap(),
        },
        private: RsaPrivateKey {
            d: Mpint::from_positive_bytes(&[3; 16]).unwrap(),
            iqmp: Mpint::from_positive_bytes(&[5; 16]).unwrap(),
            p: Mpint::from_positive_bytes(&[7; 16]).unwrap(),
            q: Mpint::from_positive_bytes(&[11; 16]).unwrap(),
        },
    };
    ssh_key::PrivateKey::from(keypair).to_openssh(LineEnding::LF).unwrap().to_string()
}

#[test]
fn test_privatekey_from_ed25519() {
    let key_string = create_valid_ed25519_key_string();

    let private_key = PrivateKey::from_openssh(&key_string).unwrap();
    assert!(matches!(private_key, PrivateKey::Ed25519(_)));
}

#[test]
fn test_privatekey_from_rsa() {
    let rsa_keypair = known_rsa_keypair();
    let ssh_key =
        ssh_key::PrivateKey::new(ssh_key::private::KeypairData::Rsa(rsa_keypair), "").unwrap();
    let key_string = ssh_key.to_openssh(LineEnding::LF).unwrap().to_string();

    let private_key = PrivateKey::from_openssh(&key_string).unwrap();
    assert!(matches!(private_key, PrivateKey::Rsa(_)));
}

#[test]
fn rsa_signatures_use_sha512_and_verify() {
    let ssh_key = ssh_key::PrivateKey::from(known_rsa_keypair());
    let key_string = ssh_key.to_openssh(LineEnding::LF).unwrap().to_string();
    let parsed = SSHKeyData::parse(&key_string, "rsa", "id").unwrap();
    assert_eq!(parsed.public_key().alg(), "ssh-rsa");
    assert_eq!(parsed.public_key().blob(), ssh_key.public_key().to_bytes().unwrap());
    let raw = parsed.private_key().sign(b"message").unwrap();
    assert_eq!(raw.len(), 436);
    let signature =
        ssh_key::Signature::new(Algorithm::Rsa { hash: Some(HashAlg::Sha512) }, raw.clone()).unwrap();
    Verifier::verify(ssh_key.public_key(), b"message", &signature).unwrap();
    let mut blob = vec![0, 0, 0, 12];
    blob.extend(b"rsa-sha2-512");
    blob.extend((raw.len() as u32).to_be_bytes());
    blob.extend(&raw);
    assert!(parsed.public_key().verify(b"message", &blob));
    assert!(!parsed.public_key().verify(b"other", &blob));
    // signing is deterministic
    assert_eq!(parsed.private_key().sign(b"message"), Some(raw));
}

#[test]
fn rsa_keys_sign_whatever_the_order_of_their_primes() {
    let message = b"message";
    let long_first = ssh_key::PrivateKey::from(known_rsa_keypair());
    let expected = PrivateKey::from_openssh(&long_first.to_openssh(LineEnding::LF).unwrap())
        .unwrap()
        .sign(message)
        .unwrap();

    let key = rsa::RsaPrivateKey::from_p_q(mersenne(1279), mersenne(2203), rsa::BigUint::from(65537u32))
        .unwrap();
    let keypair = RsaKeypair::try_from(&key).unwrap();
    assert!(keypair.private.p.as_positive_bytes().unwrap().len() < keypair.private.q.as_positive_bytes().unwrap().len());
    let ssh_key = ssh_key::PrivateKey::from(keypair);
    let key_string = ssh_key.to_openssh(LineEnding::LF).unwrap().to_string();
    let read = PrivateKey::from_openssh(&key_string).unwrap();
    assert_eq!(read, PrivateKey::Rsa(key_string.clone()));
    let parsed = SSHKeyData::parse(&key_string, "rsa", "id").unwrap();
    assert_eq!(parsed.public_key().blob(), ssh_key.public_key().to_bytes().unwrap());
    let raw = read.sign(message).unwrap();
    // the same modulus and exponents: the same signature
    assert_eq!(raw, expected);
    let signature =
        ssh_key::Signature::new(Algorithm::Rsa { hash: Some(HashAlg::Sha512) }, raw).unwrap();
    Verifier::verify(ssh_key.public_key(), message, &signature).unwrap();
}

#[test]
fn rsa_numbers_that_are_no_key_give_no_signature() {
    let numbers = |modulus: &[u8], first: &[u8], second: &[u8]| RsaNumbers {
        modulus: modulus.to_vec(),
        public_exponent: vec![1, 0, 1],
        private_exponent: vec![3; 16],
        first_prime: first.to_vec(),
        second_prime: second.to_vec(),
    };
    assert_eq!(sign_rsa(&numbers(&[0xc5; 256], &[7; 16], &[11; 16]), b"message"), None);
    assert_eq!(sign_rsa(&numbers(&[0xc5; 256], &[11; 16], &[7; 160]), b"message"), None);
    assert_eq!(sign_rsa(&numbers(&[], &[], &[]), b"message"), None);
    assert_eq!(sign_rsa(&numbers(&[0], &[0, 1], &[1]), b""), None);
}

#[test]
fn the_rsa_minimum_counts_bits_not_bytes() {
    // 256 bytes whose first byte has its highest bit set: 2048 bits
    assert!(matches!(
        PrivateKey::from_openssh(&made_up_rsa_key_with_lead(256, 0x80)),
        Ok(PrivateKey::Rsa(_))
    ));
    // 256 bytes whose first byte is below 0x80: 2047 bits and fewer
    for lead in [0x7f, 0x40, 0x01] {
        assert_eq!(
            PrivateKey::from_openssh(&made_up_rsa_key_with_lead(256, lead)),
            Err(KeyError::RsaTooSmall),
            "{lead}"
        );
    }
    // 257 bytes: 2049 bits and more
    assert!(matches!(
        PrivateKey::from_openssh(&made_up_rsa_key_with_lead(257, 0x01)),
        Ok(PrivateKey::Rsa(_))
    ));
}

#[test]
fn bits_of_a_number() {
    assert_eq!(count_bits(&[]), 0);
    assert_eq!(count_bits(&[0, 0]), 0);
    assert_eq!(count_bits(&[1]), 1);
    assert_eq!(count_bits(&[0, 0x80]), 8);
    assert_eq!(count_bits(&[0x01, 0x00]), 9);
    assert_eq!(count_bits(&[0x7f, 0, 0]), 23);
    assert_eq!(count_bits(&[0xff; 256]), 2048);
    assert_eq!(count_bits(&[0x7f; 256]), 2047);
    for byte in 0..=255u8 {
        assert_eq!(u32::from(count_byte_bits(byte)), 8 - byte.leading_zeros());
    }
}

#[test]
fn keys_under_a_passphrase_are_rejected() {
    let key_string = protected_ed25519_key_string();
    assert!(ssh_key::PrivateKey::from_openssh(&key_string).unwrap().is_encrypted());
    assert_eq!(PrivateKey::from_openssh(&key_string), Err(KeyError::MissingEd25519));
    assert!(matches!(
        SSHKeyData::parse(&key_string, "name", "id"),
        Err(KeyError::MissingEd25519)
    ));
}

#[test]
fn parsed_public_key_is_the_keys_own() {
    let key_string = create_valid_ed25519_key_string();
    let key = ssh_key::PrivateKey::from_openssh(&key_string).unwrap();
    let parsed = SSHKeyData::parse(&key_string, "my key", "cipher").unwrap();
    assert_eq!(parsed.public_key().blob(), key.public_key().to_bytes().unwrap());
    assert_eq!(parsed.public_key().alg(), "ssh-ed25519");
    assert_eq!(parsed.name(), "my key");
    assert_eq!(parsed.cipher_id(), "cipher");
    assert_eq!(parsed.private_key().as_openssh(), key_string);
    assert_eq!(parsed.private_key().get_algorithm(), KeyAlgorithm::Ed25519);
    // the blob names its algorithm and carries the 32 bytes of the key
    let blob = parsed.public_key().blob();
    assert_eq!(&blob[..4], &[0, 0, 0, 11]);
    assert_eq!(&blob[4..15], b"ssh-ed25519");
    assert_eq!(blob.len(), 4 + 11 + 4 + 32);
    let text = parsed.public_key().to_text();
    assert_eq!(text, key.public_key().to_openssh().unwrap());
}

#[test]
fn rsa_keys_below_2048_bits_are_rejected() {
    assert_eq!(PrivateKey::from_openssh(&made_up_rsa_key_string(128)), Err(KeyError::RsaTooSmall));
    assert_eq!(PrivateKey::from_openssh(&made_up_rsa_key_string(255)), Err(KeyError::RsaTooSmall));
    assert!(matches!(PrivateKey::from_openssh(&made_up_rsa_key_string(256)), Ok(PrivateKey::Rsa(_))));
    assert!(matches!(PrivateKey::from_openssh(&made_up_rsa_key_string(512)), Ok(PrivateKey::Rsa(_))));
    assert!(matches!(
        SSHKeyData::parse(&made_up_rsa_key_string(128), "n", "c"),
        Err(KeyError::RsaTooSmall)
    ));
}

#[test]
fn a_key_that_cannot_sign_gives_no_signature() {
    let key = PrivateKey::from_openssh(&made_up_rsa_key_string(256)).unwrap();
    assert_eq!(key.sign(b"message"), None);
}

#[test]
fn ecdsa_keys_are_not_supported() {
    let key = ssh_key::PrivateKey::random(&mut OsRng, Algorithm::Ecdsa { curve: EcdsaCurve::NistP256 })
        .unwrap()
        .to_openssh(LineEnding::LF)
        .unwrap()
        .to_string();
    assert_eq!(PrivateKey::from_openssh(&key), Err(KeyError::Unsupported));
    assert_eq!(KeyError::Unsupported.message(), "Unsupported key type");
}

#[test]
fn text_that_is_no_key_is_malformed() {
    for text in ["", "ssh-ed25519 AAAA", "not a key at all\n"] {
        assert_eq!(PrivateKey::from_openssh(text), Err(KeyError::Malformed), "{text}");
    }
    let key = create_valid_ed25519_key_string();
    assert_eq!(PrivateKey::from_openssh(&key[..key.len() / 2]), Err(KeyError::Malformed));
    assert_eq!(KeyError::Malformed.message(), "Failed to parse key");
}

#[test]
fn keys_are_classified_by_their_facts() {
    let facts = |algorithm, encrypted, rsa_modulus_bytes: usize| KeyFacts {
        algorithm,
        encrypted,
        rsa_modulus: vec![0xff; rsa_modulus_bytes],
        public_blob: vec![],
    };
    assert_eq!(classify_key(&facts(AlgorithmKind::Ed25519, false, 0)), Ok(KeyAlgorithm::Ed25519));
    assert_eq!(classify_key(&facts(AlgorithmKind::Ed25519, true, 0)), Err(KeyError::MissingEd25519));
    assert_eq!(classify_key(&facts(AlgorithmKind::Rsa, false, 256)), Ok(KeyAlgorithm::Rsa));
    assert_eq!(classify_key(&facts(AlgorithmKind::Rsa, false, 255)), Err(KeyError::RsaTooSmall));
    assert_eq!(classify_key(&facts(AlgorithmKind::Rsa, false, 0)), Err(KeyError::RsaTooSmall));
    assert_eq!(classify_key(&facts(AlgorithmKind::Rsa, true, 512)), Err(KeyError::MissingRsa));
    assert_eq!(classify_key(&facts(AlgorithmKind::Other, false, 512)), Err(KeyError::Unsupported));
    assert_eq!(KeyError::MissingEd25519.message(), "Failed to parse ed25519 key");
    assert_eq!(KeyError::MissingRsa.message(), "Failed to parse RSA key");
    assert_eq!(KeyError::RsaTooSmall.message(), "RSA key is shorter than 2048 bits");
    // the bits of the modulus count, not its bytes
    let just_enough = KeyFacts {
        algorithm: AlgorithmKind::Rsa,
        encrypted: false,
        rsa_modulus: vec![0x80; 256],
        public_blob: vec![],
    };
    assert_eq!(classify_key(&just_enough), Ok(KeyAlgorithm::Rsa));
    let one_bit_short = KeyFacts { rsa_modulus: vec![0x7f; 256], ..just_enough };
    assert_eq!(classify_key(&one_bit_short), Err(KeyError::RsaTooSmall));
    let padded = KeyFacts { rsa_modulus: vec![0; 300], ..one_bit_short };
    assert_eq!(classify_key(&padded), Err(KeyError::RsaTooSmall));
}

#[test]
fn algorithm_tags() {
    assert_eq!(KeyAlgorithm::Ed25519.public_tag(), "ssh-ed25519");
    assert_eq!(KeyAlgorithm::Rsa.public_tag(), "ssh-rsa");
    assert_eq!(KeyAlgorithm::Ed25519.signature_tag(), "ssh-ed25519");
    assert_eq!(KeyAlgorithm::Rsa.signature_tag(), "rsa-sha2-512");
}

#[test]
fn signatures_verify_under_the_public_key() {
    let key_string = create_valid_ed25519_key_string();
    let parsed = SSHKeyData::parse(&key_string, "k", "c").unwrap();
    let raw = parsed.private_key().sign(b"message").unwrap();
    assert_eq!(raw.len(), 64);
    let mut signature = vec![0, 0, 0, 11];
    signature.extend(b"ssh-ed25519");
    signature.extend([0, 0, 0, 64]);
    signature.extend(&raw);
    assert!(parsed.public_key().verify(b"message", &signature));
    assert!(!parsed.public_key().verify(b"massage", &signature));
    assert!(!parsed.public_key().verify(b"message", &raw));
    assert!(!parsed.public_key().verify(b"message", b""));
    let other = SSHKeyData::parse(&create_valid_ed25519_key_string(), "k", "c").unwrap();
    assert!(!other.public_key().verify(b"message", &signature));
    let no_key = PublicKey { alg: "ssh-ed25519".to_string(), blob: vec![1, 2, 3] };
    assert!(!no_key.verify(b"message", &signature));
    // signing is deterministic
    assert_eq!(parsed.private_key().sign(b"message"), Some(raw));
}

#[test]
fn key_kinds_by_name() {
    assert_eq!(key_kind("ed25519"), Some(KeyKind::Ed25519));
    assert_eq!(key_kind("rsa2048"), Some(KeyKind::Rsa { bits: 2048 }));
    assert_eq!(key_kind("rsa3072"), Some(KeyKind::Rsa { bits: 3072 }));
    assert_eq!(key_kind("rsa4096"), Some(KeyKind::Rsa { bits: 4096 }));
    assert_eq!(key_kind("rsa1024"), None);
    assert_eq!(key_kind("ecdsa"), None);
    assert_eq!(key_kind("Ed25519"), None);
    assert_eq!(key_kind(""), None);
}

#[test]
fn generate_an_ed25519_key() {
    let key = generate_keypair("ed25519").unwrap();
    assert_eq!(key.key_algorithm, "ed25519");
    let parsed = ssh_key::PrivateKey::from_openssh(&key.private_key).unwrap();
    assert_eq!(parsed.algorithm(), Algorithm::Ed25519);
    assert_eq!(key.public_key, parsed.public_key().to_openssh().unwrap());
    assert!(key.public_key.starts_with("ssh-ed25519 AAAAC3NzaC1lZDI1NTE5AAAA"));
    assert_eq!(key.key_fingerprint, parsed.fingerprint(HashAlg::Sha256).to_string());
    assert!(key.key_fingerprint.starts_with("SHA256:"));
    assert_eq!(key.key_fingerprint.len(), 7 + 43);
    let again = generate_keypair("ed25519").unwrap();
    assert_ne!(again.private_key, key.private_key);
    assert_eq!(SSHKey::from_openssh("ed25519", &key.private_key), Ok(key));
}

#[test]
fn generate_refuses_unknown_algorithms() {
    assert_eq!(generate_keypair("ecdsa"), Err(GenerateError::UnsupportedAlgorithm));
    assert_eq!(generate_keypair(""), Err(GenerateError::UnsupportedAlgorithm));
    assert_eq!(GenerateError::UnsupportedAlgorithm.message(), "Unsupported key algorithm");
    assert_eq!(GenerateError::Failed.message(), "Failed to generate key");
    assert_eq!(
        SSHKey::from_openssh("ed25519", "garbage"),
        Err(GenerateError::Refused(KeyError::Malformed))
    );
    assert_eq!(GenerateError::Refused(KeyError::Malformed).message(), "Failed to parse key");
}

#[test]
fn wiped_rsa_numbers_keep_the_public_part_only() {
    let mut numbers = RsaNumbers {
        modulus: vec![0xc5; 256],
        public_exponent: vec![1, 0, 1],
        private_exponent: vec![3; 16],
        first_prime: vec![7; 16],
        second_prime: vec![11; 16],
    };
    numbers.wipe();
    assert_eq!(numbers.modulus, vec![0xc5; 256]);
    assert_eq!(numbers.public_exponent, vec![1, 0, 1]);
    assert!(numbers.private_exponent.is_empty());
    assert!(numbers.first_prime.is_empty());
    assert!(numbers.second_prime.is_empty());
}
