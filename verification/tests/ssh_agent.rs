use credential_agent::ssh_agent::agent::get_peer_info;
use credential_agent::ssh_agent::agent::parse_session_bind;
use credential_agent::ssh_agent::agent::parse_sign_request;
use credential_agent::ssh_agent::agent::parse_sshsig_namespace;
use credential_agent::ssh_agent::agent::ui_decision;
use credential_agent::ssh_agent::agent::write_signature;
use credential_agent::ssh_agent::agent::BitwardenDesktopAgent;
use credential_agent::ssh_agent::agent::ConnectionContext;
use credential_agent::ssh_agent::agent::SshAgentUIRequest;
use credential_agent::ssh_agent::agent::SshUIRequest;
use credential_agent::ssh_agent::agent::Step;
use credential_agent::ssh_agent::agent::UiOutcome;
use credential_agent::ssh_agent::crypto::KeyAlgorithm;
use credential_agent::ssh_agent::crypto::KeyError;
use credential_agent::ssh_agent::keystore::KeySignature;
use credential_agent::ssh_agent::keystore::KeyStore;
use credential_agent::ssh_agent::keystore::SignError;
use signature::Signer;
use signature::Verifier;
use ssh_key::rand_core::OsRng;
use ssh_key::Algorithm;
use ssh_key::EcdsaCurve;
use ssh_key::LineEnding;

const FAILURE: [u8; 5] = [0, 0, 0, 1, 5];
const SUCCESS: [u8; 5] = [0, 0, 0, 1, 6];

fn ed25519_key() -> (String, ssh_key::PrivateKey) {
    let key = ssh_key::PrivateKey::random(&mut OsRng, Algorithm::Ed25519).unwrap();
    (key.to_openssh(LineEnding::LF).unwrap().to_string(), key)
}

fn blob_of(key: &ssh_key::PrivateKey) -> Vec<u8> {
    key.public_key().to_bytes().unwrap()
}

fn string(bytes: &[u8]) -> Vec<u8> {
    let mut out = (bytes.len() as u32).to_be_bytes().to_vec();
    out.extend_from_slice(bytes);
    out
}

fn sign_request(blob: &[u8], data: &[u8]) -> Vec<u8> {
    let mut payload = vec![13];
    payload.extend(string(blob));
    payload.extend(string(data));
    payload.extend([0, 0, 0, 0]);
    payload
}

fn session_bind(host_key: &[u8], session_id: &[u8], signature: &[u8], is_forwarding: u8) -> Vec<u8> {
    let mut payload = vec![27];
    payload.extend(string(b"session-bind@openssh.com"));
    payload.extend(string(host_key));
    payload.extend(string(session_id));
    payload.extend(string(signature));
    payload.push(is_forwarding);
    payload
}

fn context() -> ConnectionContext {
    ConnectionContext::new(4242, "ssh".to_string())
}

fn agent_with(keys: &[(&str, &str, &str)]) -> BitwardenDesktopAgent {
    let mut agent = BitwardenDesktopAgent::start_server();
    let entries = keys
        .iter()
        .map(|(pem, name, id)| (pem.to_string(), name.to_string(), id.to_string()))
        .collect();
    assert!(agent.set_keys(&entries).is_empty());
    agent
}

fn ask(step: Step) -> SshAgentUIRequest {
    match step {
        Step::Ask(request) => request,
        Step::Reply(reply) => panic!("replied at once: {reply:?}"),
    }
}

/// Takes the signature blob out of a sign response.
fn signature_blob(reply: &[u8]) -> Vec<u8> {
    let length = u32::from_be_bytes(reply[..4].try_into().unwrap()) as usize;
    assert_eq!(length, reply.len() - 4);
    assert_eq!(reply[4], 14);
    let blob_length = u32::from_be_bytes(reply[5..9].try_into().unwrap()) as usize;
    assert_eq!(blob_length, reply.len() - 9);
    reply[9..].to_vec()
}

#[test]
fn list_an_empty_store() {
    let mut agent = agent_with(&[]);
    let step = agent.respond(&mut context(), &[0x0B], 0);
    assert_eq!(step, Step::Reply(vec![0x00, 0x00, 0x00, 0x05, 0x0C, 0x00, 0x00, 0x00, 0x00]));
}

#[test]
fn listing_waits_for_unlock_until_keys_are_set() {
    let mut agent = BitwardenDesktopAgent::start_server();
    let request = ask(agent.respond(&mut context(), &[11], 0));
    assert!(request.is_list);
    assert_eq!(request.cipher_id, None);
    assert_eq!(request.namespace, None);
    assert_eq!(request.process_name, "ssh");
    assert!(!request.is_forwarding);
    // the user unlocks: the host sets the keys, then approves
    let (pem, key) = ed25519_key();
    assert!(agent.set_keys(&vec![(pem, "my key".to_string(), "cipher-1".to_string())]).is_empty());
    let reply = agent.decide(request.request_id, true).unwrap();
    let mut expected = vec![12, 0, 0, 0, 1];
    expected.extend(string(&blob_of(&key)));
    expected.extend(string(b"my key"));
    let mut framed = (expected.len() as u32).to_be_bytes().to_vec();
    framed.extend(expected);
    assert_eq!(reply, framed);
    // the decision is taken once
    assert_eq!(agent.decide(request.request_id, true), None);
    // from now on listings need no question
    assert_eq!(agent.respond(&mut context(), &[11], 0), Step::Reply(framed));
}

#[test]
fn denied_listing_fails() {
    let mut agent = BitwardenDesktopAgent::start_server();
    let request = ask(agent.respond(&mut context(), &[11], 0));
    assert_eq!(agent.decide(request.request_id, false), Some(FAILURE.to_vec()));
}

#[test]
fn keys_are_listed_in_the_order_they_were_set() {
    let (pem_a, key_a) = ed25519_key();
    let (pem_b, key_b) = ed25519_key();
    let (pem_c, key_c) = ed25519_key();
    let mut agent = agent_with(&[(&pem_b, "b", "2"), (&pem_a, "ä", "1"), (&pem_c, "c", "3")]);
    let mut payload = vec![12, 0, 0, 0, 3];
    for (key, name) in [(&key_b, "b"), (&key_a, "ä"), (&key_c, "c")] {
        payload.extend(string(&blob_of(key)));
        payload.extend(string(name.as_bytes()));
    }
    let mut framed = (payload.len() as u32).to_be_bytes().to_vec();
    framed.extend(payload);
    assert_eq!(agent.respond(&mut context(), &[11], 0), Step::Reply(framed.clone()));
    // listing again gives the same order
    assert_eq!(agent.respond(&mut context(), &[11], 0), Step::Reply(framed));
}

#[test]
fn unknown_operations_fail_and_change_nothing() {
    let (pem, _) = ed25519_key();
    let mut agent = agent_with(&[(&pem, "k", "1")]);
    let mut ctx = context();
    for payload in [vec![], vec![0], vec![5], vec![12], vec![14], vec![17, 1, 2], vec![255]] {
        assert_eq!(agent.respond(&mut ctx, &payload, 0), Step::Reply(FAILURE.to_vec()), "{payload:?}");
    }
    assert_eq!(ctx, context());
}

#[test]
fn malformed_sign_requests_fail() {
    let (pem, key) = ed25519_key();
    let mut agent = agent_with(&[(&pem, "k", "1")]);
    let good = sign_request(&blob_of(&key), b"data");
    for cut in 1..good.len() {
        assert_eq!(
            agent.respond(&mut context(), &good[..cut], 0),
            Step::Reply(FAILURE.to_vec()),
            "cut at {cut}"
        );
    }
    assert!(matches!(agent.respond(&mut context(), &good, 0), Step::Ask(_)));
    assert!(parse_sign_request(&[]).is_none());
    let parsed = parse_sign_request(&good).unwrap();
    assert_eq!(parsed.blob, blob_of(&key));
    assert_eq!(parsed.data, b"data");
    assert_eq!(parsed.flags, 0);
    let mut flagged = good.clone();
    let end = flagged.len();
    flagged[end - 1] = 4;
    assert_eq!(parse_sign_request(&flagged).unwrap().flags, 4);
}

#[test]
fn sign_request_for_an_unknown_key_fails_without_a_question() {
    let (pem, _) = ed25519_key();
    let (_, other) = ed25519_key();
    let mut agent = agent_with(&[(&pem, "k", "1")]);
    let step = agent.respond(&mut context(), &sign_request(&blob_of(&other), b"data"), 0);
    assert_eq!(step, Step::Reply(FAILURE.to_vec()));
}

#[test]
fn sign_denied() {
    let (pem, key) = ed25519_key();
    let mut agent = agent_with(&[(&pem, "k", "cipher-7")]);
    let request = ask(agent.respond(&mut context(), &sign_request(&blob_of(&key), b"payload"), 0));
    assert!(!request.is_list);
    assert_eq!(request.cipher_id.as_deref(), Some("cipher-7"));
    assert_eq!(request.process_name, "ssh");
    assert_eq!(request.namespace, None);
    assert!(!request.is_forwarding);
    assert_eq!(agent.decide(request.request_id, false), Some(FAILURE.to_vec()));
    assert_eq!(agent.decide(request.request_id, true), None);
}

#[test]
fn sign_approved() {
    let (pem, key) = ed25519_key();
    let mut agent = agent_with(&[(&pem, "k", "cipher-7")]);
    let data = b"the data to sign";
    let request = ask(agent.respond(&mut context(), &sign_request(&blob_of(&key), data), 0));
    let reply = agent.decide(request.request_id, true).unwrap();
    let blob = signature_blob(&reply);
    assert_eq!(&blob[..4], &[0, 0, 0, 11]);
    assert_eq!(&blob[4..15], b"ssh-ed25519");
    assert_eq!(&blob[15..19], &[0, 0, 0, 64]);
    assert_eq!(blob.len(), 19 + 64);
    let signature = ssh_key::Signature::try_from(&blob[..]).unwrap();
    assert_eq!(signature.algorithm(), Algorithm::Ed25519);
    let public = ssh_key::PublicKey::from_bytes(&blob_of(&key)).unwrap();
    Verifier::verify(&public, data, &signature).unwrap();
    assert!(Verifier::verify(&public, b"other data", &signature).is_err());
}

#[test]
fn concurrent_questions_have_their_own_numbers() {
    let (pem_a, key_a) = ed25519_key();
    let (pem_b, key_b) = ed25519_key();
    let mut agent = agent_with(&[(&pem_a, "a", "1"), (&pem_b, "b", "2")]);
    let first = ask(agent.respond(&mut context(), &sign_request(&blob_of(&key_a), b"one"), 0));
    let second = ask(agent.respond(&mut context(), &sign_request(&blob_of(&key_b), b"two"), 0));
    let third = ask(agent.respond(&mut context(), &sign_request(&blob_of(&key_a), b"three"), 0));
    assert_ne!(first.request_id, second.request_id);
    assert_ne!(first.request_id, third.request_id);
    assert_ne!(second.request_id, third.request_id);
    assert_eq!(second.cipher_id.as_deref(), Some("2"));
    // decisions come in any order, and each answers its own request
    let reply = agent.decide(second.request_id, true).unwrap();
    let signature = ssh_key::Signature::try_from(&signature_blob(&reply)[..]).unwrap();
    Verifier::verify(key_b.public_key(), b"two", &signature).unwrap();
    assert_eq!(agent.decide(third.request_id, false), Some(FAILURE.to_vec()));
    let reply = agent.decide(first.request_id, true).unwrap();
    let signature = ssh_key::Signature::try_from(&signature_blob(&reply)[..]).unwrap();
    Verifier::verify(key_a.public_key(), b"one", &signature).unwrap();
    assert_eq!(agent.decide(12345, true), None);
}

#[test]
fn lock_keeps_listing_and_blocks_signing() {
    let (pem_a, key_a) = ed25519_key();
    let (pem_b, key_b) = ed25519_key();
    let mut agent = agent_with(&[(&pem_a, "a", "1"), (&pem_b, "b", "2")]);
    let listing = agent.respond(&mut context(), &[11], 0);
    // a signature that was asked for before the lock fails after it
    let before = ask(agent.respond(&mut context(), &sign_request(&blob_of(&key_a), b"x"), 0));
    agent.lock();
    assert_eq!(agent.respond(&mut context(), &[11], 0), listing);
    assert_eq!(agent.decide(before.request_id, true), Some(FAILURE.to_vec()));
    for key in [&key_a, &key_b] {
        let request = ask(agent.respond(&mut context(), &sign_request(&blob_of(key), b"x"), 0));
        assert_eq!(agent.decide(request.request_id, true), Some(FAILURE.to_vec()));
    }
}

#[test]
fn set_keys_replaces_the_old_set() {
    let (pem_a, key_a) = ed25519_key();
    let (pem_b, key_b) = ed25519_key();
    let mut agent = agent_with(&[(&pem_a, "a", "1")]);
    agent.lock();
    assert!(agent.set_keys(&vec![(pem_b, "b".to_string(), "2".to_string())]).is_empty());
    assert_eq!(
        agent.respond(&mut context(), &sign_request(&blob_of(&key_a), b"x"), 0),
        Step::Reply(FAILURE.to_vec())
    );
    let request = ask(agent.respond(&mut context(), &sign_request(&blob_of(&key_b), b"x"), 0));
    let reply = agent.decide(request.request_id, true).unwrap();
    assert_eq!(reply[4], 14);
}

#[test]
fn clear_keys_needs_a_new_unlock() {
    let (pem, _) = ed25519_key();
    let mut agent = agent_with(&[(&pem, "a", "1")]);
    agent.clear_keys();
    let request = ask(agent.respond(&mut context(), &[11], 0));
    assert!(request.is_list);
    assert_eq!(
        agent.decide(request.request_id, true),
        Some(vec![0, 0, 0, 5, 12, 0, 0, 0, 0])
    );
}

#[test]
fn stop_clears_the_keys() {
    let (pem, key) = ed25519_key();
    let mut agent = agent_with(&[(&pem, "a", "1")]);
    assert!(agent.is_running());
    agent.stop();
    assert!(!agent.is_running());
    assert_eq!(
        agent.respond(&mut context(), &sign_request(&blob_of(&key), b"x"), 0),
        Step::Reply(FAILURE.to_vec())
    );
}

#[test]
fn session_bind_sets_the_forwarding_flag() {
    let (pem, key) = ed25519_key();
    let (_, host) = ed25519_key();
    let mut agent = agent_with(&[(&pem, "a", "1")]);
    let mut ctx = context();
    let session_id = b"session identifier";
    let signature: Vec<u8> = host.try_sign(session_id).unwrap().try_into().unwrap();
    let host_blob = blob_of(&host);
    let step = agent.respond(&mut ctx, &session_bind(&host_blob, session_id, &signature, 1), 0);
    assert_eq!(step, Step::Reply(SUCCESS.to_vec()));
    assert!(ctx.is_forwarding);
    assert_eq!(ctx.host_key, Some(host_blob));
    assert_eq!(ctx.peer_pid, 4242);
    assert_eq!(ctx.peer_process_name, "ssh");

    let request = ask(agent.respond(&mut ctx, &sign_request(&blob_of(&key), b"x"), 0));
    assert!(request.is_forwarding);
    // another connection is not touched
    let request = ask(agent.respond(&mut context(), &sign_request(&blob_of(&key), b"x"), 0));
    assert!(!request.is_forwarding);
}

#[test]
fn session_bind_without_forwarding() {
    let (_, host) = ed25519_key();
    let mut agent = agent_with(&[]);
    let mut ctx = context();
    let signature: Vec<u8> = host.try_sign(b"id").unwrap().try_into().unwrap();
    let step = agent.respond(&mut ctx, &session_bind(&blob_of(&host), b"id", &signature, 0), 0);
    assert_eq!(step, Step::Reply(SUCCESS.to_vec()));
    assert!(!ctx.is_forwarding);
    assert_eq!(ctx.host_key, Some(blob_of(&host)));
}

#[test]
fn session_bind_with_a_bad_signature_is_ignored() {
    let (_, host) = ed25519_key();
    let (_, other) = ed25519_key();
    let mut agent = agent_with(&[]);
    let signature: Vec<u8> = host.try_sign(b"id").unwrap().try_into().unwrap();
    let host_blob = blob_of(&host);
    let mut flipped = signature.clone();
    let last = flipped.len() - 1;
    flipped[last] ^= 1;
    let good = session_bind(&host_blob, b"id", &signature, 1);
    let mut unknown_extension = vec![27];
    unknown_extension.extend(string(b"query"));
    let attempts = [
        session_bind(&host_blob, b"other id", &signature, 1),
        session_bind(&blob_of(&other), b"id", &signature, 1),
        session_bind(&host_blob, b"id", &flipped, 1),
        session_bind(&host_blob, b"id", b"", 1),
        session_bind(b"", b"id", &signature, 1),
        good[..good.len() - 1].to_vec(),
        good[..30].to_vec(),
        vec![27],
        unknown_extension,
    ];
    for attempt in attempts {
        let mut ctx = context();
        assert_eq!(agent.respond(&mut ctx, &attempt, 0), Step::Reply(FAILURE.to_vec()));
        assert_eq!(ctx, context());
    }
    assert!(parse_session_bind(&good, 29).is_some());
    assert!(parse_session_bind(&good, 28).is_none());
}

#[test]
fn sshsig_namespace_is_shown_to_the_user() {
    let (pem, key) = ed25519_key();
    let mut agent = agent_with(&[(&pem, "a", "1")]);
    let mut data = b"SSHSIG".to_vec();
    data.extend(string(b"git"));
    data.extend(string(b""));
    data.extend(string(b"sha512"));
    data.extend(string(&[0; 64]));
    let request = ask(agent.respond(&mut context(), &sign_request(&blob_of(&key), &data), 0));
    assert_eq!(request.namespace.as_deref(), Some("git"));
    assert_eq!(parse_sshsig_namespace(&data).as_deref(), Some("git"));
    assert_eq!(parse_sshsig_namespace(b"SSHSIG"), None);
    assert_eq!(parse_sshsig_namespace(b"SSHSI"), None);
    assert_eq!(parse_sshsig_namespace(b"sshsig\0\0\0\x03git"), None);
    assert_eq!(parse_sshsig_namespace(b"SSHSIG\0\0\0\x04git"), None);
    assert_eq!(parse_sshsig_namespace(b"SSHSIG\0\0\0\x00").as_deref(), Some(""));
    assert_eq!(parse_sshsig_namespace(b"SSHSIG\0\0\0\x02\xc3\xa4").as_deref(), Some("ä"));
    assert_eq!(parse_sshsig_namespace(b"SSHSIG\0\0\0\x02\xff\xfe"), None);
    assert_eq!(parse_sshsig_namespace(b"plain data"), None);
}

#[test]
fn set_keys_skips_keys_that_are_refused() {
    let (pem_a, key_a) = ed25519_key();
    let (pem_b, key_b) = ed25519_key();
    let ecdsa = ssh_key::PrivateKey::random(&mut OsRng, Algorithm::Ecdsa { curve: EcdsaCurve::NistP256 })
        .unwrap()
        .to_openssh(LineEnding::LF)
        .unwrap()
        .to_string();
    let mut agent = BitwardenDesktopAgent::start_server();
    let refused = agent.set_keys(&vec![
        ("garbage".to_string(), "g".to_string(), "0".to_string()),
        (pem_a, "a".to_string(), "1".to_string()),
        (ecdsa, "e".to_string(), "2".to_string()),
        (pem_b, "b".to_string(), "3".to_string()),
    ]);
    assert_eq!(refused, vec![(0, KeyError::Malformed), (2, KeyError::Unsupported)]);
    let mut payload = vec![12, 0, 0, 0, 2];
    for (key, name) in [(&key_a, "a"), (&key_b, "b")] {
        payload.extend(string(&blob_of(key)));
        payload.extend(string(name.as_bytes()));
    }
    let mut framed = (payload.len() as u32).to_be_bytes().to_vec();
    framed.extend(payload);
    assert_eq!(agent.respond(&mut context(), &[11], 0), Step::Reply(framed));
}

#[test]
fn a_key_set_twice_is_held_once_with_its_last_metadata() {
    let (pem, key) = ed25519_key();
    let (pem_b, _) = ed25519_key();
    let mut store = KeyStore::new();
    assert!(store.needs_unlock());
    store.set_keys(&vec![
        (pem.clone(), "first".to_string(), "1".to_string()),
        (pem_b, "other".to_string(), "2".to_string()),
        (pem, "second".to_string(), "3".to_string()),
    ]);
    assert!(!store.needs_unlock());
    assert_eq!(store.len(), 2);
    assert_eq!(store.position(&blob_of(&key)), Some(0));
    let held = store.get(&blob_of(&key)).unwrap();
    assert_eq!(held.display_name, "second");
    assert_eq!(held.cipher_id, "3");
    assert_eq!(held.algorithm, KeyAlgorithm::Ed25519);
    assert_eq!(store.key_at(1).display_name, "other");
}

#[test]
fn store_signs_only_with_keys_that_are_held_unlocked() {
    let (pem, key) = ed25519_key();
    let (_, other) = ed25519_key();
    let mut store = KeyStore::new();
    store.set_keys(&vec![(pem, "k".to_string(), "1".to_string())]);
    let signature = store.sign(&blob_of(&key), b"message").unwrap();
    assert_eq!(signature.algorithm, KeyAlgorithm::Ed25519);
    assert_eq!(signature.raw, key.try_sign(b"message").unwrap().as_bytes());
    assert_eq!(store.sign(&blob_of(&other), b"message"), Err(SignError::UnknownKey));
    store.lock();
    assert_eq!(store.len(), 1);
    assert!(store.get(&blob_of(&key)).unwrap().signing_material.is_none());
    assert_eq!(store.sign(&blob_of(&key), b"message"), Err(SignError::Locked));
    store.clear_keys();
    assert_eq!(store.len(), 0);
    assert!(store.needs_unlock());
    assert_eq!(store.sign(&blob_of(&key), b"message"), Err(SignError::UnknownKey));
}

#[test]
fn signatures_are_framed_with_their_tag() {
    let reply = write_signature(&KeySignature { algorithm: KeyAlgorithm::Rsa, raw: vec![1, 2, 3] });
    let mut expected = vec![0, 0, 0, 28, 14, 0, 0, 0, 23, 0, 0, 0, 12];
    expected.extend(b"rsa-sha2-512");
    expected.extend([0, 0, 0, 3, 1, 2, 3]);
    assert_eq!(reply, expected);
    let reply = write_signature(&KeySignature { algorithm: KeyAlgorithm::Ed25519, raw: vec![] });
    let mut expected = vec![0, 0, 0, 24, 14, 0, 0, 0, 19, 0, 0, 0, 11];
    expected.extend(b"ssh-ed25519");
    expected.extend([0, 0, 0, 0]);
    assert_eq!(reply, expected);
}

#[test]
fn peers_are_identified() {
    let info = get_peer_info(7, Some((7, Some("git".to_string())))).unwrap();
    assert_eq!(info, ConnectionContext::new(7, "git".to_string()));
    assert_eq!(get_peer_info(7, Some((7, None))), Err("Failed to get process name".to_string()));
    assert_eq!(get_peer_info(7, None), Err("Failed to get process".to_string()));
    let unknown = ConnectionContext::unknown();
    assert_eq!(unknown.peer_process_name, "Unknown application");
    assert!(!unknown.is_forwarding);
    assert_eq!(unknown.host_key, None);
}

#[test]
fn the_host_sees_the_question_without_its_number() {
    let request = SshAgentUIRequest {
        request_id: 9,
        cipher_id: Some("c".to_string()),
        process_name: "ssh".to_string(),
        is_list: false,
        namespace: Some("git".to_string()),
        is_forwarding: true,
    };
    assert_eq!(
        request.into_ui_request(),
        SshUIRequest {
            cipher_id: Some("c".to_string()),
            is_list: false,
            process_name: "ssh".to_string(),
            is_forwarding: true,
            namespace: Some("git".to_string()),
        }
    );
}

#[test]
fn only_an_approving_answer_is_an_approval() {
    assert_eq!(ui_decision(7, UiOutcome::Answered(true)), (7, true));
    assert_eq!(ui_decision(7, UiOutcome::Answered(false)), (7, false));
    assert_eq!(ui_decision(8, UiOutcome::Rejected), (8, false));
    assert_eq!(ui_decision(9, UiOutcome::Unreachable), (9, false));
    assert_eq!(ui_decision(0, UiOutcome::CallFailed), (0, false));
}

#[test]
fn a_question_that_is_not_answered_in_time_counts_as_denied() {
    let (pem, key) = ed25519_key();
    let mut agent = agent_with(&[(&pem, "a", "1")]);
    let first = ask(agent.respond(&mut context(), &sign_request(&blob_of(&key), b"x"), 1000));
    let second = ask(agent.respond(&mut context(), &sign_request(&blob_of(&key), b"y"), 2000));
    assert_eq!(agent.expire(999), None);
    assert_eq!(agent.expire(1000), Some((first.request_id, FAILURE.to_vec())));
    assert_eq!(agent.expire(1000), None);
    // the late decision is dropped
    assert_eq!(agent.decide(first.request_id, true), None);
    // the other question is still open
    let reply = agent.decide(second.request_id, true).unwrap();
    assert_eq!(reply[4], 14);
}

/// The Mersenne number with the given exponent; it is prime for the
/// exponents that are used here.
fn mersenne_number(exponent: usize) -> rsa::BigUint {
    (rsa::BigUint::from(1u32) << exponent) - rsa::BigUint::from(1u32)
}

/// An RSA key of more than 2048 bits, built from two primes that are known
/// to everybody, in the order given.
fn rsa_key_from(first: usize, second: usize) -> (String, ssh_key::PrivateKey) {
    let key = rsa::RsaPrivateKey::from_p_q(
        mersenne_number(first),
        mersenne_number(second),
        rsa::BigUint::from(65537u32),
    )
    .unwrap();
    let keypair = ssh_key::private::RsaKeypair::try_from(&key).unwrap();
    let key = ssh_key::PrivateKey::from(keypair);
    (key.to_openssh(LineEnding::LF).unwrap().to_string(), key)
}

#[test]
fn every_rsa_key_of_2048_bits_is_loaded_whatever_the_order_of_its_primes() {
    let (pem_long_first, key_long_first) = rsa_key_from(2203, 1279);
    let (pem_short_first, key_short_first) = rsa_key_from(1279, 2203);
    let mut agent = BitwardenDesktopAgent::start_server();
    let refused = agent.set_keys(&vec![
        (pem_long_first, "long first".to_string(), "1".to_string()),
        (pem_short_first, "short first".to_string(), "2".to_string()),
    ]);
    assert_eq!(refused, vec![]);
    // both keys have the same modulus, and so the same public key: the
    // second entry takes the place of the first
    assert_eq!(blob_of(&key_long_first), blob_of(&key_short_first));
    let mut payload = vec![12, 0, 0, 0, 1];
    payload.extend(string(&blob_of(&key_short_first)));
    payload.extend(string(b"short first"));
    let mut framed = (payload.len() as u32).to_be_bytes().to_vec();
    framed.extend(payload);
    let mut context = context();
    assert_eq!(agent.respond(&mut context, &[11], 0), Step::Reply(framed));
}

#[test]
fn an_rsa_key_signs_through_the_agent() {
    let (pem, key) = rsa_key_from(2203, 1279);
    let mut agent = agent_with(&[(&pem, "rsa", "cipher-rsa")]);
    let mut context = context();
    let request = ask(agent.respond(&mut context, &sign_request(&blob_of(&key), b"data"), 10));
    assert_eq!(request.cipher_id.as_deref(), Some("cipher-rsa"));
    let reply = agent.decide(request.request_id, true).unwrap();
    let blob = signature_blob(&reply);
    assert_eq!(&blob[..4], &[0, 0, 0, 12]);
    assert_eq!(&blob[4..16], b"rsa-sha2-512");
    let signature = ssh_key::Signature::try_from(blob.as_slice()).unwrap();
    Verifier::verify(key.public_key(), b"data", &signature).unwrap();
    assert!(Verifier::verify(key.public_key(), b"other", &signature).is_err());
}

#[test]
fn an_rsa_key_with_a_short_first_prime_signs_through_the_agent() {
    let (pem, key) = rsa_key_from(1279, 2203);
    let mut agent = agent_with(&[(&pem, "rsa", "cipher-rsa")]);
    let mut context = context();
    let request = ask(agent.respond(&mut context, &sign_request(&blob_of(&key), b"data"), 10));
    let reply = agent.decide(request.request_id, true).unwrap();
    let signature = ssh_key::Signature::try_from(signature_blob(&reply).as_slice()).unwrap();
    Verifier::verify(key.public_key(), b"data", &signature).unwrap();
}

#[test]
fn questions_are_remembered_with_their_deadline() {
    let (pem, key) = ed25519_key();
    let mut agent = agent_with(&[(&pem, "k", "c")]);
    let mut context = context();
    let late = ask(agent.respond(&mut context, &sign_request(&blob_of(&key), b"a"), 700));
    let early = ask(agent.respond(&mut context, &sign_request(&blob_of(&key), b"b"), 300));
    assert_eq!((late.request_id, early.request_id), (1, 2));
    assert_eq!(agent.expire(299), None);
    assert_eq!(agent.expire(300), Some((2, FAILURE.to_vec())));
    assert_eq!(agent.expire(699), None);
    // a question that was decided has no deadline left to pass
    assert!(agent.decide(1, false).is_some());
    assert_eq!(agent.expire(u64::MAX), None);
    // the numbers go on from where they were
    let next = ask(agent.respond(&mut context, &sign_request(&blob_of(&key), b"c"), 0));
    assert_eq!(next.request_id, 3);
}
