//! The protocol engine of the SSH agent: what to answer to each request of a
//! client, and when to ask the user first.

use vstd::prelude::*;
use vstd::string::StringSliceAdditionalSpecFns;
use vstd::utf8::decode_utf8;
use vstd::utf8::encode_utf8;
use vstd::utf8::valid_utf8;

use crate::pending::counter_after;
use crate::pending::PendingTable;
use crate::ssh_agent::crypto::signature_sized;
use crate::ssh_agent::crypto::ssh_signature_valid;
use crate::ssh_agent::crypto::KeyAlgorithm;
use crate::ssh_agent::crypto::KeyError;
use crate::ssh_agent::crypto::PublicKey;
use crate::ssh_agent::keystore::copy_bytes;
use crate::ssh_agent::keystore::key_of;
use crate::ssh_agent::keystore::lemma_signature_verifies;
use crate::ssh_agent::keystore::loaded_keys;
use crate::ssh_agent::keystore::refusals;
use crate::ssh_agent::keystore::signature_blob;
use crate::ssh_agent::keystore::signature_of;
use crate::ssh_agent::keystore::write_signature_blob;
use crate::ssh_agent::keystore::KeySignature;
use crate::ssh_agent::keystore::KeyStore;
use crate::ssh_agent::keystore::SignError;
use crate::ssh_agent::keystore::StoredKeyModel;
use crate::ssh_agent::msg::EXTENSION;
use crate::ssh_agent::msg::FAILURE;
use crate::ssh_agent::msg::IDENTITIES_ANSWER;
use crate::ssh_agent::msg::REQUEST_IDENTITIES;
use crate::ssh_agent::msg::SESSION_BIND;
use crate::ssh_agent::msg::SIGN_REQUEST;
use crate::ssh_agent::msg::SIGN_RESPONSE;
use crate::ssh_agent::msg::SUCCESS;
use crate::ssh_agent::wire::be32;
use crate::ssh_agent::wire::byte_frame;
use crate::ssh_agent::wire::fits_u32;
use crate::ssh_agent::wire::frame;
use crate::ssh_agent::wire::into_frame;
use crate::ssh_agent::wire::put_string;
use crate::ssh_agent::wire::put_u32;
use crate::ssh_agent::wire::ssh_string;
use crate::ssh_agent::wire::string_at;
use crate::ssh_agent::wire::u32_at;
use crate::ssh_agent::wire::Reader;
use crate::text::bytes_equal;

verus! {

/// What is known of the peer of a connection. The forwarding flag and the
/// host key are set only by a valid session-bind request.
#[derive(Debug, Clone, PartialEq, Eq)]
pub struct ConnectionContext {
    pub peer_pid: u32,
    pub peer_process_name: String,
    pub is_forwarding: bool,
    pub host_key: Option<Vec<u8>>,
}

/// What the user is asked: to unlock the vault for a listing, or to approve
/// a signature.
#[derive(Debug, Clone, PartialEq, Eq)]
pub struct SshUIRequest {
    pub cipher_id: Option<String>,
    pub is_list: bool,
    pub process_name: String,
    pub is_forwarding: bool,
    pub namespace: Option<String>,
}

/// A question to the user, with the number that the decision will carry.
#[derive(Debug, Clone, PartialEq, Eq)]
pub struct SshAgentUIRequest {
    pub request_id: u32,
    pub cipher_id: Option<String>,
    pub process_name: String,
    pub is_list: bool,
    pub namespace: Option<String>,
    pub is_forwarding: bool,
}

/// What waits for a decision of the user.
#[derive(Debug, Clone, PartialEq, Eq)]
pub enum PendingAction {
    /// A listing of the keys.
    List,
    /// A signature with the key of a blob over the data.
    Sign { blob: Vec<u8>, data: Vec<u8> },
}

/// What the connection is to do after a request was taken in.
#[derive(Debug, Clone, PartialEq, Eq)]
pub enum Step {
    /// Write the frame to the client.
    Reply(Vec<u8>),
    /// Ask the user, and come back with the decision.
    Ask(SshAgentUIRequest),
}

/// How the host's prompt for a question ended.
#[derive(Debug, Clone, Copy, PartialEq, Eq)]
pub enum UiOutcome {
    /// The user answered.
    Answered(bool),
    /// The prompt was shown, and ended without an answer.
    Rejected,
    /// The prompt could not be reached.
    Unreachable,
    /// The prompt could not be called.
    CallFailed,
}

/// The parts of a sign request.
#[derive(Debug, Clone, PartialEq, Eq)]
pub struct SignRequest {
    pub blob: Vec<u8>,
    pub data: Vec<u8>,
    pub flags: u32,
}

/// The parts of a session-bind request.
#[derive(Debug, Clone, PartialEq, Eq)]
pub struct SessionBind {
    pub host_key: Vec<u8>,
    pub session_id: Vec<u8>,
    pub signature: Vec<u8>,
    pub is_forwarding: bool,
}

/// What a request calls for, before any question to the user is numbered.
pub enum Plan {
    /// Answer with the frame.
    Reply(Seq<u8>),
    /// Remember the host key and the forwarding flag, and answer with
    /// success.
    Bind { host_key: Seq<u8>, is_forwarding: bool },
    /// Ask the user to unlock the vault, then list.
    AskList,
    /// Ask the user to approve a signature with the key of the blob.
    AskSign { blob: Seq<u8>, data: Seq<u8>, cipher_id: Seq<char>, namespace: Option<Seq<char>> },
}

/// The agent: the keys, and the questions to the user that wait for their
/// decision.
pub struct BitwardenDesktopAgent {
    keystore: KeyStore,
    requests: PendingTable<PendingAction>,
    running: bool,
}

/// The frame that reports a failure.
pub open spec fn failure_frame() -> Seq<u8> {
    frame(seq![FAILURE])
}

/// The frame that reports success.
pub open spec fn success_frame() -> Seq<u8> {
    frame(seq![SUCCESS])
}

/// The entries of a listing for the first `count` keys: for each key its
/// blob and its display name, as strings.
pub open spec fn identities_body(keys: Seq<StoredKeyModel>, count: int) -> Seq<u8>
    decreases count,
{
    if count <= 0 {
        Seq::empty()
    } else {
        identities_body(keys, count - 1) + ssh_string(keys[count - 1].public_key_blob)
            + ssh_string(encode_utf8(keys[count - 1].display_name))
    }
}

/// The payload of a listing: the message number, the number of keys, and
/// the entries.
pub open spec fn identities_answer(keys: Seq<StoredKeyModel>) -> Seq<u8> {
    seq![IDENTITIES_ANSWER] + be32(keys.len() as u32) + identities_body(keys, keys.len() as int)
}

/// Whether a listing can be written: every length in it fits the four bytes
/// that write it.
pub open spec fn listable(keys: Seq<StoredKeyModel>) -> bool {
    &&& keys.len() <= u32::MAX
    &&& forall|i: int|
        0 <= i < keys.len() ==> (#[trigger] keys[i]).public_key_blob.len() <= u32::MAX
            && encode_utf8(keys[i].display_name).len() <= u32::MAX
    &&& identities_answer(keys).len() <= u32::MAX
}

/// The frame that answers a listing.
pub open spec fn list_reply(keys: Seq<StoredKeyModel>) -> Seq<u8> {
    if listable(keys) {
        frame(identities_answer(keys))
    } else {
        failure_frame()
    }
}

/// The payload that answers a sign request: the message number and the
/// signature blob as a string.
pub open spec fn sign_response(algorithm: KeyAlgorithm, raw: Seq<u8>) -> Seq<u8> {
    seq![SIGN_RESPONSE] + ssh_string(signature_blob(algorithm, raw))
}

/// The frame that answers a sign request with a signature; a failure where
/// a length does not fit the four bytes that write it.
pub open spec fn sign_reply(algorithm: KeyAlgorithm, raw: Seq<u8>) -> Seq<u8> {
    if raw.len() <= u32::MAX && signature_blob(algorithm, raw).len() <= u32::MAX && sign_response(
        algorithm,
        raw,
    ).len() <= u32::MAX {
        frame(sign_response(algorithm, raw))
    } else {
        failure_frame()
    }
}

/// The parts of a sign request: after the message number, the key blob and
/// the data as strings, and the flags as a number.
pub open spec fn sign_request_parts(payload: Seq<u8>) -> Option<(Seq<u8>, Seq<u8>, u32)> {
    match string_at(payload, 1) {
        Some((blob, after_blob)) => match string_at(payload, after_blob) {
            Some((data, after_data)) => match u32_at(payload, after_data) {
                Some(flags) => Some((blob, data, flags)),
                None => None,
            },
            None => None,
        },
        None => None,
    }
}

/// The parts of a session-bind request that follow the name of the
/// extension: the host key, the session identifier and the signature as
/// strings, and the forwarding flag as a byte.
pub open spec fn session_bind_parts(payload: Seq<u8>, from: int) -> Option<
    (Seq<u8>, Seq<u8>, Seq<u8>, bool),
> {
    match string_at(payload, from) {
        Some((host_key, after_key)) => match string_at(payload, after_key) {
            Some((session_id, after_id)) => match string_at(payload, after_id) {
                Some((signature, after_signature)) => if after_signature < payload.len() {
                    Some((host_key, session_id, signature, payload[after_signature] != 0))
                } else {
                    None
                },
                None => None,
            },
            None => None,
        },
        None => None,
    }
}

/// The magic preamble of the data that an SSH signature is made over.
pub open spec fn sshsig_magic() -> Seq<u8> {
    seq![0x53u8, 0x53u8, 0x48u8, 0x53u8, 0x49u8, 0x47u8]
}

/// The namespace of the data of a sign request, where the data is that of an
/// SSH signature: the magic preamble, then the namespace as a string. The
/// namespace must be text.
pub open spec fn sshsig_namespace(data: Seq<u8>) -> Option<Seq<char>> {
    if data.len() >= 6 && data.subrange(0, 6) == sshsig_magic() {
        match string_at(data, 6) {
            Some((namespace, _)) => if valid_utf8(namespace) {
                Some(decode_utf8(namespace))
            } else {
                None
            },
            None => None,
        }
    } else {
        None
    }
}

/// What a request calls for. An empty payload and an unknown message number
/// are failures, and so are a request that cannot be read, a sign request
/// for a key that is not held, and an extension that is not a valid
/// session-bind.
pub open spec fn plan_of(keys: Seq<StoredKeyModel>, locked_out: bool, payload: Seq<u8>) -> Plan {
    if payload.len() == 0 {
        Plan::Reply(failure_frame())
    } else if payload[0] == REQUEST_IDENTITIES {
        if locked_out {
            Plan::AskList
        } else {
            Plan::Reply(list_reply(keys))
        }
    } else if payload[0] == SIGN_REQUEST {
        match sign_request_parts(payload) {
            Some((blob, data, _)) => match key_of(keys, blob) {
                Some(key) => Plan::AskSign {
                    blob,
                    data,
                    cipher_id: key.cipher_id,
                    namespace: sshsig_namespace(data),
                },
                None => Plan::Reply(failure_frame()),
            },
            None => Plan::Reply(failure_frame()),
        }
    } else if payload[0] == EXTENSION {
        match string_at(payload, 1) {
            Some((name, after_name)) => if name == encode_utf8(SESSION_BIND@) {
                match session_bind_parts(payload, after_name) {
                    Some((host_key, session_id, signature, is_forwarding)) => if ssh_signature_valid(
                        host_key,
                        session_id,
                        signature,
                    ) {
                        Plan::Bind { host_key, is_forwarding }
                    } else {
                        Plan::Reply(failure_frame())
                    },
                    None => Plan::Reply(failure_frame()),
                }
            } else {
                Plan::Reply(failure_frame())
            },
            None => Plan::Reply(failure_frame()),
        }
    } else {
        Plan::Reply(failure_frame())
    }
}

/// The view of what waits for a decision.
pub enum PendingActionModel {
    List,
    Sign { blob: Seq<u8>, data: Seq<u8> },
}

impl View for PendingAction {
    type V = PendingActionModel;

    open spec fn view(&self) -> PendingActionModel {
        match self {
            PendingAction::List => PendingActionModel::List,
            PendingAction::Sign { blob, data } => PendingActionModel::Sign {
                blob: blob@,
                data: data@,
            },
        }
    }
}

/// The frame that answers a request once the user has decided. A denial is
/// a failure. An approved listing lists; an approved signature signs, and
/// fails where the key is gone, locked, or cannot sign.
pub open spec fn decision_reply(keys: Seq<StoredKeyModel>, action: PendingActionModel, approved: bool)
    -> Seq<u8> {
    if !approved {
        failure_frame()
    } else {
        match action {
            PendingActionModel::List => list_reply(keys),
            PendingActionModel::Sign { blob, data } => match signature_of(keys, blob, data) {
                Ok((algorithm, raw)) => sign_reply(algorithm, raw),
                Err(_) => failure_frame(),
            },
        }
    }
}

/// The signature that the answer to a decision carries: that of an approved
/// sign request whose key is held and signs.
pub open spec fn decision_signature(
    keys: Seq<StoredKeyModel>,
    action: PendingActionModel,
    approved: bool,
) -> Option<(KeyAlgorithm, Seq<u8>)> {
    match action {
        PendingActionModel::Sign { blob, data } if approved => match signature_of(keys, blob, data) {
            Ok(made) => Some(made),
            Err(_) => None,
        },
        _ => None,
    }
}

/// The answer that carries an Ed25519 signature of 64 bytes is a frame of 92
/// bytes: the length 88 of its payload, the message number of a sign
/// response, and the signature blob as a string of 83 bytes, which holds
/// the tag `ssh-ed25519` and the signature, each as a string.
pub proof fn lemma_ed25519_sign_reply(raw: Seq<u8>)
    requires
        signature_sized(KeyAlgorithm::Ed25519, raw),
    ensures
        sign_reply(KeyAlgorithm::Ed25519, raw).len() == 92,
        sign_reply(KeyAlgorithm::Ed25519, raw) == be32(88) + seq![SIGN_RESPONSE] + be32(83) + be32(
            11,
        ) + encode_utf8("ssh-ed25519"@) + be32(64) + raw,
{
    reveal_strlit("ssh-ed25519");
    vstd::utf8::is_ascii_chars_encode_utf8("ssh-ed25519"@);
    let tag = encode_utf8("ssh-ed25519"@);
    assert(tag.len() == 11);
    let blob = signature_blob(KeyAlgorithm::Ed25519, raw);
    assert(blob =~= be32(11) + tag + be32(64) + raw);
    assert(blob.len() == 83);
    let payload = sign_response(KeyAlgorithm::Ed25519, raw);
    assert(payload =~= seq![SIGN_RESPONSE] + be32(83) + blob);
    assert(payload.len() == 88);
    assert(sign_reply(KeyAlgorithm::Ed25519, raw) =~= be32(88) + seq![SIGN_RESPONSE] + be32(83)
        + be32(11) + tag + be32(64) + raw);
}

/// Calls `core::str::from_utf8` and copies the text. As its documentation
/// says, the bytes are accepted exactly where they are valid UTF-8, and the
/// text is then the one that they encode.
#[verifier::external_body]
fn text_from_utf8(bytes: &[u8]) -> (text: Option<String>)
    ensures
        match text {
            Some(read) => valid_utf8(bytes@) && read@ == decode_utf8(bytes@),
            None => !valid_utf8(bytes@),
        },
{
    core::str::from_utf8(bytes).ok().map(|text| text.to_owned())
}

/// The frame that reports a failure.
pub fn failure_reply() -> (reply: Vec<u8>)
    ensures
        reply@ == failure_frame(),
{
    byte_frame(FAILURE)
}

/// The frame that reports success.
pub fn success_reply() -> (reply: Vec<u8>)
    ensures
        reply@ == success_frame(),
{
    byte_frame(SUCCESS)
}

/// Reads the parts of a sign request.
pub fn parse_sign_request(payload: &[u8]) -> (request: Option<SignRequest>)
    ensures
        match request {
            Some(read) => sign_request_parts(payload@) == Some((read.blob@, read.data@, read.flags)),
            None => sign_request_parts(payload@) is None,
        },
{
    let mut reader = Reader::new(payload, 1);
    if payload.len() < 1 {
        assert(string_at(payload@, 1) is None);
        return None;
    }
    let blob = reader.read_string()?;
    let data = reader.read_string()?;
    let flags = reader.read_u32()?;
    Some(SignRequest { blob: copy_bytes(blob), data: copy_bytes(data), flags })
}

/// Reads the parts of a session-bind request from a place of the payload.
pub fn parse_session_bind(payload: &[u8], from: usize) -> (request: Option<SessionBind>)
    requires
        from <= payload@.len(),
    ensures
        match request {
            Some(read) => session_bind_parts(payload@, from as int) == Some(
                (read.host_key@, read.session_id@, read.signature@, read.is_forwarding),
            ),
            None => session_bind_parts(payload@, from as int) is None,
        },
{
    let mut reader = Reader::new(payload, from);
    let host_key = reader.read_string()?;
    let session_id = reader.read_string()?;
    let signature = reader.read_string()?;
    let flag = reader.read_byte()?;
    Some(
        SessionBind {
            host_key: copy_bytes(host_key),
            session_id: copy_bytes(session_id),
            signature: copy_bytes(signature),
            is_forwarding: flag != 0,
        },
    )
}

/// The namespace of the data of a sign request, where the data is that of an
/// SSH signature.
pub fn parse_sshsig_namespace(data: &[u8]) -> (namespace: Option<String>)
    ensures
        match namespace {
            Some(read) => sshsig_namespace(data@) == Some(read@),
            None => sshsig_namespace(data@) is None,
        },
{
    if data.len() < 6 {
        return None;
    }
    let magic = vstd::slice::slice_subrange(data, 0, 6);
    let expected: [u8; 6] = [0x53, 0x53, 0x48, 0x53, 0x49, 0x47];
    assert(expected@ =~= sshsig_magic());
    if !bytes_equal(magic, expected.as_slice()) {
        return None;
    }
    let mut reader = Reader::new(data, 6);
    let namespace = reader.read_string()?;
    text_from_utf8(namespace)
}

/// Writes the frame that answers a listing.
pub fn write_identities(store: &KeyStore) -> (reply: Vec<u8>)
    ensures
        reply@ == list_reply(store.entries()),
{
    let ghost keys = store.entries();
    let count = store.len();
    if !fits_u32(count) {
        return failure_reply();
    }
    let mut payload: Vec<u8> = Vec::new();
    payload.push(IDENTITIES_ANSWER);
    put_u32(&mut payload, count as u32);
    let ghost head = payload@;
    assert(head =~= seq![IDENTITIES_ANSWER] + be32(keys.len() as u32));
    let mut i: usize = 0;
    while i < count
        invariant
            i <= count,
            count == keys.len(),
            keys == store.entries(),
            head == seq![IDENTITIES_ANSWER] + be32(keys.len() as u32),
            payload@ == head + identities_body(keys, i as int),
            forall|j: int|
                0 <= j < i ==> (#[trigger] keys[j]).public_key_blob.len() <= u32::MAX
                    && encode_utf8(keys[j].display_name).len() <= u32::MAX,
        decreases count - i,
    {
        let key = store.key_at(i);
        let name = key.display_name.as_str().as_bytes();
        if !fits_u32(key.public_key_blob.len()) || !fits_u32(name.len()) {
            assert(!listable(keys)) by {
                assert(keys[i as int].public_key_blob.len() > u32::MAX || encode_utf8(
                    keys[i as int].display_name,
                ).len() > u32::MAX);
            }
            return failure_reply();
        }
        put_string(&mut payload, key.public_key_blob.as_slice());
        put_string(&mut payload, name);
        assert(payload@ =~= head + identities_body(keys, i + 1));
        i += 1;
    }
    assert(payload@ == identities_answer(keys));
    if !fits_u32(payload.len()) {
        return failure_reply();
    }
    into_frame(payload.as_slice())
}

/// Writes the frame that answers a sign request with a signature.
pub fn write_signature(signature: &KeySignature) -> (reply: Vec<u8>)
    ensures
        reply@ == sign_reply(signature.algorithm, signature.raw@),
{
    if !fits_u32(signature.raw.len()) {
        return failure_reply();
    }
    let blob = write_signature_blob(signature.algorithm, signature.raw.as_slice());
    if !fits_u32(blob.len()) {
        return failure_reply();
    }
    let mut payload: Vec<u8> = Vec::new();
    payload.push(SIGN_RESPONSE);
    put_string(&mut payload, blob.as_slice());
    assert(payload@ =~= sign_response(signature.algorithm, signature.raw@));
    if !fits_u32(payload.len()) {
        return failure_reply();
    }
    into_frame(payload.as_slice())
}

impl ConnectionContext {
    /// The context of a connection whose peer is known by its process.
    pub fn new(peer_pid: u32, peer_process_name: String) -> (context: ConnectionContext)
        ensures
            context.peer_pid == peer_pid,
            context.peer_process_name@ == peer_process_name@,
            !context.is_forwarding,
            context.host_key is None,
    {
        ConnectionContext { peer_pid, peer_process_name, is_forwarding: false, host_key: None }
    }

    /// The context of a connection whose peer could not be identified.
    pub fn unknown() -> (context: ConnectionContext)
        ensures
            context.peer_pid == 0,
            context.peer_process_name@ == "Unknown application"@,
            !context.is_forwarding,
            context.host_key is None,
    {
        ConnectionContext {
            peer_pid: 0,
            peer_process_name: "Unknown application".to_owned(),
            is_forwarding: false,
            host_key: None,
        }
    }
}

impl SshAgentUIRequest {
    /// The question without its number, as the host shows it.
    pub fn into_ui_request(self) -> (request: SshUIRequest)
        ensures
            request.cipher_id == self.cipher_id,
            request.is_list == self.is_list,
            request.process_name == self.process_name,
            request.is_forwarding == self.is_forwarding,
            request.namespace == self.namespace,
    {
        SshUIRequest {
            cipher_id: self.cipher_id,
            is_list: self.is_list,
            process_name: self.process_name,
            is_forwarding: self.is_forwarding,
            namespace: self.namespace,
        }
    }
}

/// The decision that the outcome of the host's prompt stands for: only an
/// answer of the user that approves is an approval.
pub fn ui_decision(request_id: u32, outcome: UiOutcome) -> (decision: (u32, bool))
    ensures
        decision.0 == request_id,
        decision.1 == (outcome == UiOutcome::Answered(true)),
{
    match outcome {
        UiOutcome::Answered(approved) => (request_id, approved),
        UiOutcome::Rejected => (request_id, false),
        UiOutcome::Unreachable => (request_id, false),
        UiOutcome::CallFailed => (request_id, false),
    }
}

/// What the identification of a peer gives: the context of its connection,
/// or why the peer is not known. `found` is what the system knows of the
/// process: its pid, and its name where that is text.
pub fn get_peer_info(peer_pid: u32, found: Option<(u32, Option<String>)>) -> (info: Result<
    ConnectionContext,
    String,
>)
    ensures
        match found {
            None => info matches Err(reason) && reason@ == "Failed to get process"@,
            Some((_, None)) => info matches Err(reason) && reason@
                == "Failed to get process name"@,
            Some((pid, Some(name))) => info matches Ok(context) && context.peer_pid == pid
                && context.peer_process_name@ == name@ && !context.is_forwarding
                && context.host_key is None,
        },
{
    match found {
        None => Err("Failed to get process".to_owned()),
        Some((_, None)) => Err("Failed to get process name".to_owned()),
        Some((pid, Some(name))) => Ok(ConnectionContext::new(pid, name)),
    }
}

/// The views of the actions that wait for a decision, by request number.
pub open spec fn actions_of(requests: PendingTable<PendingAction>) -> Map<u32, PendingActionModel> {
    Map::new(|id: u32| requests.sinks().contains_key(id), |id: u32| requests.sinks()[id]@)
}

impl BitwardenDesktopAgent {
    /// The keys, in listing order.
    pub closed spec fn keys(&self) -> Seq<StoredKeyModel> {
        self.keystore.entries()
    }

    /// Whether a listing must wait for the user to unlock the vault.
    pub closed spec fn locked_out(&self) -> bool {
        self.keystore.locked_out()
    }

    /// The questions to the user that wait for their decision.
    pub closed spec fn requests(&self) -> PendingTable<PendingAction> {
        self.requests
    }

    /// Whether the agent serves.
    pub closed spec fn running(&self) -> bool {
        self.running
    }

    /// What waits for the decision with each request number.
    pub open spec fn waiting(&self) -> Map<u32, PendingActionModel> {
        actions_of(self.requests())
    }

    /// When the wait for the decision with each request number ends.
    pub open spec fn deadlines(&self) -> Map<u32, u64> {
        self.requests().deadlines()
    }

    /// The number that the next question gets, unless it is in flight or
    /// zero.
    pub open spec fn counter(&self) -> u32 {
        self.requests().counter()
    }

    /// An agent that serves, without keys and with no question asked.
    pub fn start_server() -> (agent: BitwardenDesktopAgent)
        ensures
            agent.running(),
            agent.keys() == Seq::<StoredKeyModel>::empty(),
            agent.locked_out(),
            agent.waiting() == Map::<u32, PendingActionModel>::empty(),
            agent.deadlines() == Map::<u32, u64>::empty(),
            agent.counter() == 1,
    {
        let agent = BitwardenDesktopAgent {
            keystore: KeyStore::new(),
            requests: PendingTable::new(),
            running: true,
        };
        assert(agent.waiting() =~= Map::<u32, PendingActionModel>::empty());
        agent
    }

    /// Whether the agent serves.
    pub fn is_running(&self) -> (running: bool)
        ensures
            running == self.running(),
    {
        self.running
    }

    /// Stops the agent: it serves no more, and its keys are cleared.
    pub fn stop(&mut self)
        ensures
            !final(self).running(),
            final(self).keys() == Seq::<StoredKeyModel>::empty(),
            final(self).locked_out(),
            final(self).requests() == old(self).requests(),
    {
        self.running = false;
        self.keystore.clear_keys();
    }

    /// Replaces the keys by those that the entries load, and returns the
    /// refusals: for each entry whose key is refused, its place and the
    /// error; see `KeyStore::set_keys`.
    pub fn set_keys(&mut self, new_keys: &Vec<(String, String, String)>) -> (refused: Vec<
        (usize, KeyError),
    >)
        ensures
            final(self).keys() == loaded_keys(new_keys@, new_keys@.len() as int),
            refused@ == refusals(new_keys@, new_keys@.len() as int),
            !final(self).locked_out(),
            final(self).requests() == old(self).requests(),
            final(self).running() == old(self).running(),
    {
        self.keystore.set_keys(new_keys)
    }

    /// Strips the signing material of every key; see `KeyStore::lock`.
    pub fn lock(&mut self)
        ensures
            final(self).locked_out() == old(self).locked_out(),
            final(self).keys().len() == old(self).keys().len(),
            forall|i: int|
                0 <= i < old(self).keys().len() ==> #[trigger] final(self).keys()[i] == old(
                    self,
                ).keys()[i].locked(),
            final(self).requests() == old(self).requests(),
            final(self).running() == old(self).running(),
    {
        self.keystore.lock();
    }

    /// Removes every key; see `KeyStore::clear_keys`.
    pub fn clear_keys(&mut self)
        ensures
            final(self).keys() == Seq::<StoredKeyModel>::empty(),
            final(self).locked_out(),
            final(self).requests() == old(self).requests(),
            final(self).running() == old(self).running(),
    {
        self.keystore.clear_keys();
    }

    /// Numbers a question to the user and remembers what waits for the
    /// decision, and until when. Where no number is free, nothing is
    /// remembered and the answer is a failure.
    fn ask(
        &mut self,
        action: PendingAction,
        cipher_id: Option<String>,
        namespace: Option<String>,
        context: &ConnectionContext,
        deadline: u64,
    ) -> (step: Step)
        ensures
            final(self).keys() == old(self).keys(),
            final(self).locked_out() == old(self).locked_out(),
            final(self).running() == old(self).running(),
            match step {
                Step::Ask(request) => {
                    &&& old(self).requests().is_next(request.request_id)
                    &&& final(self).waiting() == old(self).waiting().insert(
                        request.request_id,
                        action@,
                    )
                    &&& final(self).deadlines() == old(self).deadlines().insert(
                        request.request_id,
                        deadline,
                    )
                    &&& final(self).counter() == counter_after(request.request_id)
                    &&& request.cipher_id == cipher_id
                    &&& request.namespace == namespace
                    &&& request.is_list == (action is List)
                    &&& request.process_name@ == context.peer_process_name@
                    &&& request.is_forwarding == context.is_forwarding
                },
                Step::Reply(reply) => {
                    &&& reply@ == failure_frame()
                    &&& final(self).requests() == old(self).requests()
                    &&& forall|other: u32| other != 0 ==> old(self).requests().in_flight(other)
                },
            },
    {
        let is_list = match &action {
            PendingAction::List => true,
            PendingAction::Sign { .. } => false,
        };
        let ghost before = self.requests;
        match self.requests.add(action, deadline) {
            Ok(request_id) => {
                assert(self.waiting() =~= actions_of(before).insert(request_id, action@));
                Step::Ask(
                    SshAgentUIRequest {
                        request_id,
                        cipher_id,
                        process_name: context.peer_process_name.clone(),
                        is_list,
                        namespace,
                        is_forwarding: context.is_forwarding,
                    },
                )
            },
            Err(_) => Step::Reply(failure_reply()),
        }
    }

    /// Takes in the payload of one frame of a client, and says what the
    /// connection is to do: write a reply, or ask the user and come back with
    /// the decision. A question is remembered with the deadline until which
    /// its decision is waited for. A valid session-bind request sets the host
    /// key and the forwarding flag of the connection; nothing else changes
    /// them.
    pub fn respond(&mut self, context: &mut ConnectionContext, payload: &[u8], deadline: u64) -> (step:
        Step)
        ensures
            final(self).keys() == old(self).keys(),
            final(self).locked_out() == old(self).locked_out(),
            final(self).running() == old(self).running(),
            final(context).peer_pid == old(context).peer_pid,
            final(context).peer_process_name == old(context).peer_process_name,
            match plan_of(old(self).keys(), old(self).locked_out(), payload@) {
                Plan::Reply(bytes) => {
                    &&& step matches Step::Reply(reply) && reply@ == bytes
                    &&& final(self).requests() == old(self).requests()
                    &&& *final(context) == *old(context)
                },
                Plan::Bind { host_key, is_forwarding } => {
                    &&& step matches Step::Reply(reply) && reply@ == success_frame()
                    &&& final(self).requests() == old(self).requests()
                    &&& final(context).host_key matches Some(held) && held@ == host_key
                    &&& final(context).is_forwarding == is_forwarding
                },
                Plan::AskList => {
                    &&& *final(context) == *old(context)
                    &&& match step {
                        Step::Ask(request) => {
                            &&& old(self).requests().is_next(request.request_id)
                            &&& final(self).waiting() == old(self).waiting().insert(
                                request.request_id,
                                PendingActionModel::List,
                            )
                            &&& final(self).deadlines() == old(self).deadlines().insert(
                                request.request_id,
                                deadline,
                            )
                            &&& final(self).counter() == counter_after(request.request_id)
                            &&& request.is_list
                            &&& request.cipher_id is None
                            &&& request.namespace is None
                            &&& request.process_name@ == old(context).peer_process_name@
                            &&& request.is_forwarding == old(context).is_forwarding
                        },
                        Step::Reply(reply) => {
                            &&& reply@ == failure_frame()
                            &&& final(self).requests() == old(self).requests()
                            &&& forall|other: u32|
                                other != 0 ==> old(self).requests().in_flight(other)
                        },
                    }
                },
                Plan::AskSign { blob, data, cipher_id, namespace } => {
                    &&& *final(context) == *old(context)
                    &&& match step {
                        Step::Ask(request) => {
                            &&& old(self).requests().is_next(request.request_id)
                            &&& final(self).waiting() == old(self).waiting().insert(
                                request.request_id,
                                PendingActionModel::Sign { blob, data },
                            )
                            &&& final(self).deadlines() == old(self).deadlines().insert(
                                request.request_id,
                                deadline,
                            )
                            &&& final(self).counter() == counter_after(request.request_id)
                            &&& !request.is_list
                            &&& request.cipher_id matches Some(id) && id@ == cipher_id
                            &&& match request.namespace {
                                Some(name) => namespace == Some(name@),
                                None => namespace is None,
                            }
                            &&& request.process_name@ == old(context).peer_process_name@
                            &&& request.is_forwarding == old(context).is_forwarding
                        },
                        Step::Reply(reply) => {
                            &&& reply@ == failure_frame()
                            &&& final(self).requests() == old(self).requests()
                            &&& forall|other: u32|
                                other != 0 ==> old(self).requests().in_flight(other)
                        },
                    }
                },
            },
    {
        if payload.len() == 0 {
            return Step::Reply(failure_reply());
        }
        let operation = payload[0];
        if operation == REQUEST_IDENTITIES {
            if self.keystore.needs_unlock() {
                self.ask(PendingAction::List, None, None, context, deadline)
            } else {
                Step::Reply(write_identities(&self.keystore))
            }
        } else if operation == SIGN_REQUEST {
            let request = match parse_sign_request(payload) {
                Some(request) => request,
                None => {
                    return Step::Reply(failure_reply());
                },
            };
            let cipher_id = match self.keystore.get(request.blob.as_slice()) {
                Some(key) => key.cipher_id.clone(),
                None => {
                    return Step::Reply(failure_reply());
                },
            };
            let namespace = parse_sshsig_namespace(request.data.as_slice());
            self.ask(
                PendingAction::Sign { blob: request.blob, data: request.data },
                Some(cipher_id),
                namespace,
                context,
                deadline,
            )
        } else if operation == EXTENSION {
            let mut reader = Reader::new(payload, 1);
            let name = match reader.read_string() {
                Some(name) => name,
                None => {
                    return Step::Reply(failure_reply());
                },
            };
            if !bytes_equal(name, SESSION_BIND.as_bytes()) {
                return Step::Reply(failure_reply());
            }
            let from = payload.len() - reader.remaining();
            let bind = match parse_session_bind(payload, from) {
                Some(bind) => bind,
                None => {
                    return Step::Reply(failure_reply());
                },
            };
            let host = PublicKey { alg: String::new(), blob: bind.host_key };
            if !host.verify(bind.session_id.as_slice(), bind.signature.as_slice()) {
                return Step::Reply(failure_reply());
            }
            context.host_key = Some(host.blob);
            context.is_forwarding = bind.is_forwarding;
            Step::Reply(success_reply())
        } else {
            Step::Reply(failure_reply())
        }
    }

    /// Takes in the decision of the user on a question, and hands out the
    /// frame that answers the request which waited for it. The question is
    /// forgotten. A decision on a question that is not known is dropped. A
    /// question that is never answered counts as denied: the caller decides
    /// it with `false`. Where the frame carries an Ed25519 signature, the
    /// signature has 64 bytes.
    pub fn decide(&mut self, request_id: u32, approved: bool) -> (reply: Option<Vec<u8>>)
        ensures
            final(self).keys() == old(self).keys(),
            final(self).locked_out() == old(self).locked_out(),
            final(self).running() == old(self).running(),
            final(self).waiting() == old(self).waiting().remove(request_id),
            final(self).deadlines() == old(self).deadlines().remove(request_id),
            final(self).counter() == old(self).counter(),
            match reply {
                Some(bytes) => {
                    &&& old(self).waiting().contains_key(request_id)
                    &&& bytes@ == decision_reply(
                        old(self).keys(),
                        old(self).waiting()[request_id],
                        approved,
                    )
                    &&& match decision_signature(
                        old(self).keys(),
                        old(self).waiting()[request_id],
                        approved,
                    ) {
                        Some((algorithm, raw)) => signature_sized(algorithm, raw),
                        None => true,
                    }
                },
                None => !old(self).waiting().contains_key(request_id),
            },
    {
        let ghost before = self.requests;
        let taken = self.requests.take(request_id);
        assert(self.waiting() =~= actions_of(before).remove(request_id));
        let action = match taken {
            Some(request) => request.sink,
            None => {
                return None;
            },
        };
        if !approved {
            return Some(failure_reply());
        }
        match action {
            PendingAction::List => Some(write_identities(&self.keystore)),
            PendingAction::Sign { blob, data } => {
                match self.keystore.sign(blob.as_slice(), data.as_slice()) {
                    Ok(signature) => Some(write_signature(&signature)),
                    Err(_) => Some(failure_reply()),
                }
            },
        }
    }

    /// Forgets one question whose deadline has passed, the one with the least
    /// number, and hands out its number with the frame that answers the
    /// request which waited for it: a question that is not answered in time
    /// counts as denied. Returns nothing once no deadline has passed.
    pub fn expire(&mut self, now: u64) -> (expired: Option<(u32, Vec<u8>)>)
        ensures
            final(self).keys() == old(self).keys(),
            final(self).locked_out() == old(self).locked_out(),
            final(self).running() == old(self).running(),
            final(self).counter() == old(self).counter(),
            match expired {
                Some((request_id, reply)) => {
                    &&& old(self).waiting().contains_key(request_id)
                    &&& old(self).deadlines()[request_id] <= now
                    &&& forall|other: u32|
                        old(self).requests().in_flight(other) && other < request_id ==> old(
                            self,
                        ).deadlines()[other] > now
                    &&& reply@ == failure_frame()
                    &&& final(self).waiting() == old(self).waiting().remove(request_id)
                    &&& final(self).deadlines() == old(self).deadlines().remove(request_id)
                },
                None => {
                    &&& final(self).requests() == old(self).requests()
                    &&& forall|other: u32|
                        old(self).requests().in_flight(other) ==> old(self).deadlines()[other]
                            > now
                },
            },
    {
        let ghost before = self.requests;
        match self.requests.take_expired(now) {
            Some(request) => {
                assert(self.waiting() =~= actions_of(before).remove(request.sequence_number));
                Some((request.sequence_number, failure_reply()))
            },
            None => None,
        }
    }

    /// Lock semantics for the protocol: once every key has lost its signing
    /// material, as `lock` leaves them, an approved sign request for any key
    /// that was held is answered with a failure, whatever its data.
    pub proof fn lemma_locked_sign_fails(
        before: Seq<StoredKeyModel>,
        after: Seq<StoredKeyModel>,
        place: int,
        data: Seq<u8>,
    )
        requires
            after.len() == before.len(),
            forall|i: int| 0 <= i < before.len() ==> #[trigger] after[i] == before[i].locked(),
            0 <= place < before.len(),
        ensures
            decision_reply(
                after,
                PendingActionModel::Sign { blob: before[place].public_key_blob, data },
                true,
            ) == failure_frame(),
    {
        KeyStore::lemma_lock_blocks_signing(before, after, place, data);
    }

    /// Signing through the agent: where an approved sign request with the
    /// blob of a key is answered with a signature, the answer is the reply
    /// that carries the signature under the tag of the key's algorithm,
    /// `ssh-ed25519` or `rsa-sha2-512`, and the signature is valid over
    /// exactly the data of the request under the public key of the blob.
    /// Unless a length in it would not fit its four bytes, the reply is the
    /// frame of a sign response with the signature blob as a string.
    pub proof fn lemma_approved_signature_verifies(
        keys: Seq<StoredKeyModel>,
        blob: Seq<u8>,
        data: Seq<u8>,
    )
        ensures
            match decision_signature(keys, PendingActionModel::Sign { blob, data }, true) {
                Some((algorithm, raw)) => {
                    &&& decision_reply(keys, PendingActionModel::Sign { blob, data }, true)
                        == sign_reply(algorithm, raw)
                    &&& signature_blob(algorithm, raw).len() + 5 <= u32::MAX ==> sign_reply(
                        algorithm,
                        raw,
                    ) == frame(seq![SIGN_RESPONSE] + ssh_string(signature_blob(algorithm, raw)))
                    &&& ssh_signature_valid(blob, data, signature_blob(algorithm, raw))
                    &&& key_of(keys, blob) matches Some(key) && key.algorithm == algorithm
                },
                None => decision_reply(keys, PendingActionModel::Sign { blob, data }, true)
                    == failure_frame(),
            },
    {
        lemma_signature_verifies(keys, blob, data);
        match signature_of(keys, blob, data) {
            Ok((algorithm, raw)) => {
                assert(sign_response(algorithm, raw).len() == signature_blob(algorithm, raw).len()
                    + 5);
            },
            Err(_) => {},
        }
    }

    /// A denial is a failure: whatever waits for a decision is answered
    /// with the failure frame when the user denies it.
    pub proof fn lemma_denied_fails(keys: Seq<StoredKeyModel>, action: PendingActionModel)
        ensures
            decision_reply(keys, action, false) == failure_frame(),
    {
    }
}

} // verus!
