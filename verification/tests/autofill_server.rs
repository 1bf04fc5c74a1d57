use credential_agent::autofill::server::error_debug;
use credential_agent::autofill::server::sort_message;
use credential_agent::autofill::server::sort_request;
use credential_agent::autofill::server::AutofillIpcServer;
use credential_agent::autofill::server::PasskeyRequest;
use credential_agent::autofill::server::ServerCall;
use credential_agent::autofill::BitwardenError;
use credential_agent::autofill::NativeStatus;
use credential_agent::autofill::PasskeyAssertionResponse;
use credential_agent::autofill::PasskeyRegistrationResponse;
use credential_agent::ipc::Message;
use credential_agent::ipc::MessageType;
use credential_agent::json::JsonValue;

const ASSERTION: &str = "{\"rpId\":\"example.com\",\"clientDataHash\":[1],\"userVerification\":\"preferred\",\
\"allowedCredentials\":[[2]],\"windowXy\":{\"x\":1,\"y\":2}}";
const ASSERTION_WITHOUT_UI: &str = "{\"rpId\":\"example.com\",\"credentialId\":[3],\"clientDataHash\":[1],\
\"userVerification\":\"preferred\",\"windowXy\":{\"x\":1,\"y\":2}}";
const REGISTRATION: &str = "{\"rpId\":\"example.com\",\"userName\":\"neo\",\"userHandle\":[4],\
\"clientDataHash\":[1],\"userVerification\":\"required\",\"supportedAlgorithms\":[-7],\
\"windowXy\":{\"x\":1,\"y\":2},\"excludedCredentials\":[]}";
const STATUS: &str = "{\"key\":\"k\",\"value\":\"v\"}";

fn envelope(sequence_number: u32, value: &str) -> String {
    format!("{{\"sequenceNumber\":{sequence_number},\"value\":{value}}}")
}

#[test]
fn requests_are_sorted_by_shape() {
    assert!(matches!(
        sort_message(3, &envelope(5, ASSERTION)),
        ServerCall::Request { client_id: 3, sequence_number: 5, request: PasskeyRequest::Assertion(request) }
            if request.allowed_credentials == vec![vec![2]]
    ));
    assert!(matches!(
        sort_message(3, &envelope(6, ASSERTION_WITHOUT_UI)),
        ServerCall::Request { client_id: 3, sequence_number: 6, request: PasskeyRequest::AssertionWithoutUserInterface(request) }
            if request.credential_id == vec![3]
    ));
    assert!(matches!(
        sort_message(4, &envelope(7, REGISTRATION)),
        ServerCall::Request { client_id: 4, sequence_number: 7, request: PasskeyRequest::Registration(request) }
            if request.user_name == "neo"
    ));
    assert!(matches!(
        sort_message(4, &envelope(0, STATUS)),
        ServerCall::Request { client_id: 4, sequence_number: 0, request: PasskeyRequest::NativeStatus(status) }
            if status == NativeStatus { key: "k".to_string(), value: "v".to_string() }
    ));
}

#[test]
fn the_first_shape_that_fits_decides() {
    // a value that fits an assertion and an assertion without user interface is an assertion
    let both = "{\"rpId\":\"example.com\",\"credentialId\":[3],\"clientDataHash\":[1],\
\"userVerification\":\"preferred\",\"allowedCredentials\":[],\"windowXy\":{\"x\":1,\"y\":2}}";
    assert!(matches!(
        sort_request(&JsonValue::parse(both).unwrap()),
        Some(PasskeyRequest::Assertion(_))
    ));
    // a registration that also carries a credential id is an assertion without user interface
    let both = "{\"rpId\":\"example.com\",\"userName\":\"neo\",\"userHandle\":[4],\"credentialId\":[3],\
\"clientDataHash\":[1],\"userVerification\":\"required\",\"supportedAlgorithms\":[-7],\
\"windowXy\":{\"x\":1,\"y\":2},\"excludedCredentials\":[]}";
    assert!(matches!(
        sort_request(&JsonValue::parse(both).unwrap()),
        Some(PasskeyRequest::AssertionWithoutUserInterface(_))
    ));
}

#[test]
fn values_of_no_known_shape_are_unknown() {
    assert!(matches!(sort_message(1, &envelope(1, "{}")), ServerCall::Unknown));
    assert!(matches!(sort_message(1, &envelope(1, "[]")), ServerCall::Unknown));
    assert!(matches!(sort_message(1, &envelope(1, "{\"isUnlocked\":true}")), ServerCall::Unknown));
    assert!(matches!(sort_message(1, "{\"command\":\"connected\"}"), ServerCall::Unknown));
    assert!(matches!(sort_message(1, "not json"), ServerCall::Unknown));
    assert!(matches!(sort_message(1, ASSERTION), ServerCall::Unknown));
    assert!(sort_request(&JsonValue::Null).is_none());
}

#[test]
fn an_error_value_goes_to_the_assertion_hook() {
    match sort_message(2, "{\"sequenceNumber\":8,\"value\":{\"Internal\":\"bad \\\"luck\\\"\"}}") {
        ServerCall::Failure { client_id: 2, sequence_number: 8, reason } => {
            assert_eq!(reason, "Internal(\"bad \\\"luck\\\"\")");
        }
        other => panic!("unexpected: {other:?}"),
    }
    match sort_message(2, "{\"sequenceNumber\":8,\"value\":{\"Disconnected\":null}}") {
        ServerCall::Failure { reason, .. } => assert_eq!(reason, "Disconnected"),
        other => panic!("unexpected: {other:?}"),
    }
    assert_eq!(error_debug(&BitwardenError::Internal("a\nb".to_string())), "Internal(\"a\\nb\")");
    assert_eq!(
        error_debug(&BitwardenError::Internal("a\nb".to_string())),
        format!("{:?}", BitwardenError::Internal("a\nb".to_string()))
    );
}

#[test]
fn listen_passes_over_connection_events() {
    let connected = Message { client_id: 1, kind: MessageType::Connected, message: None };
    assert!(matches!(AutofillIpcServer::listen(&connected), ServerCall::Ignore));
    let disconnected = Message { client_id: 1, kind: MessageType::Disconnected, message: Some(envelope(1, STATUS)) };
    assert!(matches!(AutofillIpcServer::listen(&disconnected), ServerCall::Ignore));
    let empty = Message { client_id: 1, kind: MessageType::Message, message: None };
    assert!(matches!(AutofillIpcServer::listen(&empty), ServerCall::Empty));
    let message = Message { client_id: 9, kind: MessageType::Message, message: Some(envelope(1, STATUS)) };
    assert!(matches!(
        AutofillIpcServer::listen(&message),
        ServerCall::Request { client_id: 9, sequence_number: 1, request: PasskeyRequest::NativeStatus(_) }
    ));
}

#[test]
fn responses_are_written() {
    let registration = PasskeyRegistrationResponse {
        rp_id: "example.com".to_string(),
        client_data_hash: vec![1],
        credential_id: vec![2],
        attestation_object: vec![3],
    };
    assert_eq!(
        AutofillIpcServer::complete_registration(5, &registration),
        "{\"sequenceNumber\":5,\"value\":{\"attestationObject\":[3],\"clientDataHash\":[1],\
\"credentialId\":[2],\"rpId\":\"example.com\"}}"
    );
    let assertion = PasskeyAssertionResponse {
        rp_id: "example.com".to_string(),
        user_handle: vec![1],
        signature: vec![2],
        client_data_hash: vec![3],
        authenticator_data: vec![4],
        credential_id: vec![5],
    };
    assert_eq!(
        AutofillIpcServer::complete_assertion(6, &assertion),
        "{\"sequenceNumber\":6,\"value\":{\"authenticatorData\":[4],\"clientDataHash\":[3],\
\"credentialId\":[5],\"rpId\":\"example.com\",\"signature\":[2],\"userHandle\":[1]}}"
    );
    assert_eq!(
        AutofillIpcServer::complete_error(7, "denied".to_string()),
        "{\"sequenceNumber\":7,\"value\":{\"Internal\":\"denied\"}}"
    );
}

#[test]
fn server_reports_path_and_reach() {
    let server = AutofillIpcServer::new("/tmp/app.af".to_string());
    assert_eq!(server.get_path(), "/tmp/app.af");
    assert_eq!(AutofillIpcServer::send(0), 0);
    assert_eq!(AutofillIpcServer::send(3), 3);
    assert_eq!(AutofillIpcServer::send(u32::MAX as usize), u32::MAX);
    if usize::BITS > 32 {
        assert_eq!(AutofillIpcServer::send(u32::MAX as usize + 1), 0);
    }
}
