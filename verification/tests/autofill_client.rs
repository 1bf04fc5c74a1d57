use credential_agent::autofill::client::send_message_helper;
use credential_agent::autofill::client::Incoming;
use credential_agent::autofill::client::SendOutcome;
use credential_agent::autofill::envelope::SerializedMessage;
use credential_agent::autofill::lock_status::LockStatusRequest;
use credential_agent::autofill::timed_callback::deliver_lock_status;
use credential_agent::autofill::timed_callback::WaitEnd;
use credential_agent::autofill::AutofillProviderClient;
use credential_agent::autofill::BitwardenError;
use credential_agent::autofill::CallbackError;
use credential_agent::autofill::ConnectionStatus;
use credential_agent::autofill::LockStatusResponse;
use credential_agent::autofill::PasskeyAssertionRequest;
use credential_agent::autofill::Position;
use credential_agent::autofill::TimedCallback;
use credential_agent::autofill::UserVerification;
use credential_agent::json::JsonValue;
use credential_agent::pending::PendingTable;

const CONNECTED: &str = "{\"command\":\"connected\"}";
const DISCONNECTED: &str = "{\"command\":\"disconnected\"}";

fn connected_client() -> AutofillProviderClient<&'static str> {
    let mut client = AutofillProviderClient::new();
    assert!(matches!(client.receive(CONNECTED), Incoming::Connected));
    client
}

/// Plays the server: reads a request and answers it as the handler says.
fn serve(
    request_text: &str,
    handler: impl Fn(Result<JsonValue, BitwardenError>) -> Result<JsonValue, BitwardenError>,
) -> String {
    match SerializedMessage::parse(request_text).unwrap() {
        SerializedMessage::Message { sequence_number, value } => {
            SerializedMessage::message(sequence_number, handler(value)).render()
        }
        other => panic!("not a request: {other:?}"),
    }
}

#[test]
fn test_client_throws_error_on_method_call_when_disconnected() {
    // There is no server, so this client is always disconnected.
    let mut client: AutofillProviderClient<u8> = AutofillProviderClient::new();

    // use an arbitrary request to test whether the client is disconnected.
    let mut callback = TimedCallback::new();
    match client.get_lock_status(0, 0) {
        SendOutcome::Rejected { sink: Some(0), error } => {
            assert!(deliver_lock_status(&mut callback, Err(error)));
        }
        _ => panic!("the request was not rejected"),
    }
    assert_eq!(client.pending_count(), 0);
    let response = callback.wait_for_response(WaitEnd::Responded).unwrap();

    assert!(matches!(response, Err(BitwardenError::Disconnected)));
}

#[test]
fn test_client_parses_get_lock_status_response_when_valid_json_is_returned() {
    // The server should expect a lock status request and return a valid response.
    let handler = |value: Result<JsonValue, BitwardenError>| {
        let value = value.unwrap();
        if let Some(LockStatusRequest {}) = LockStatusRequest::from_json(&value) {
            Ok(JsonValue::parse("{\"isUnlocked\": true}").unwrap())
        } else {
            Err(BitwardenError::Internal(format!(
                "Expected LockStatusRequest, received: {value:?}"
            )))
        }
    };

    // send a lock status request
    let mut client = AutofillProviderClient::new();
    assert!(matches!(client.receive(CONNECTED), Incoming::Connected));
    assert_eq!(client.get_connection_status(), ConnectionStatus::Connected);
    let mut callback = TimedCallback::new();
    let request = match client.get_lock_status("lock status", 3000) {
        SendOutcome::Send { sequence_number: 1, text } => text,
        _ => panic!("the request was not sent"),
    };
    assert_eq!(request, "{\"sequenceNumber\":1,\"value\":{}}");
    let answer = serve(&request, handler);
    assert_eq!(answer, "{\"sequenceNumber\":1,\"value\":{\"isUnlocked\":true}}");
    match client.receive(&answer) {
        Incoming::Response { sink: "lock status", deadline: 3000, value } => {
            assert!(deliver_lock_status(&mut callback, value));
        }
        _ => panic!("no response was handed out"),
    }
    let response = callback
        .wait_for_response(WaitEnd::Responded)
        .unwrap()
        .unwrap();

    assert!(response.is_unlocked);
}

#[test]
fn a_new_client_is_disconnected() {
    let client: AutofillProviderClient<u8> = AutofillProviderClient::new();
    assert_eq!(client.get_connection_status(), ConnectionStatus::Disconnected);
    assert_eq!(client.pending_count(), 0);
}

#[test]
fn control_messages_set_the_status() {
    let mut client: AutofillProviderClient<u8> = AutofillProviderClient::new();
    assert!(matches!(client.receive(CONNECTED), Incoming::Connected));
    assert_eq!(client.get_connection_status(), ConnectionStatus::Connected);
    assert!(matches!(client.receive(DISCONNECTED), Incoming::Disconnected));
    assert_eq!(client.get_connection_status(), ConnectionStatus::Disconnected);
    assert!(matches!(client.receive("garbage"), Incoming::Malformed));
    assert_eq!(client.get_connection_status(), ConnectionStatus::Disconnected);
}

#[test]
fn disconnected_requests_are_not_enqueued() {
    let mut client = connected_client();
    assert!(matches!(client.receive(DISCONNECTED), Incoming::Disconnected));
    for now in 0..5 {
        match client.send_message(JsonValue::Null, Some("sink"), now) {
            SendOutcome::Rejected { sink: Some("sink"), error: BitwardenError::Disconnected } => {}
            _ => panic!("the request was not rejected"),
        }
    }
    assert!(matches!(
        client.send_native_status("k".to_string(), "v".to_string()),
        SendOutcome::Rejected { sink: None, error: BitwardenError::Disconnected }
    ));
    assert_eq!(client.pending_count(), 0);
}

#[test]
fn sequence_numbers_start_at_one_and_increase() {
    let mut client = connected_client();
    for expected in 1..=50u32 {
        match client.send_message(JsonValue::Null, Some("sink"), 0) {
            SendOutcome::Send { sequence_number, text } => {
                assert_eq!(sequence_number, expected);
                assert_eq!(text, format!("{{\"sequenceNumber\":{expected},\"value\":null}}"));
            }
            _ => panic!("the request was not sent"),
        }
    }
    assert_eq!(client.pending_count(), 50);
}

#[test]
fn requests_without_a_sink_carry_zero() {
    let mut client = connected_client();
    match client.send_native_status("theme".to_string(), "dark".to_string()) {
        SendOutcome::Send { sequence_number: 0, text } => {
            assert_eq!(text, "{\"sequenceNumber\":0,\"value\":{\"key\":\"theme\",\"value\":\"dark\"}}");
        }
        _ => panic!("the status was not sent"),
    }
    assert_eq!(client.pending_count(), 0);
    // a response with the reserved number finds nobody
    assert!(matches!(
        client.receive("{\"sequenceNumber\":0,\"value\":{}}"),
        Incoming::Unknown { sequence_number: 0 }
    ));
}

#[test]
fn each_response_reaches_its_sink_exactly_once() {
    let mut client = connected_client();
    let mut numbers = Vec::new();
    for name in ["a", "b", "c", "d"] {
        match client.send_message(JsonValue::of_text(name), Some(name), 0) {
            SendOutcome::Send { sequence_number, .. } => numbers.push(sequence_number),
            _ => panic!("the request was not sent"),
        }
    }
    let mut sorted = numbers.clone();
    sorted.sort();
    sorted.dedup();
    assert_eq!(sorted.len(), 4);

    // answers arrive out of order
    for (index, name) in [(2usize, "c"), (0, "a"), (3, "d"), (1, "b")] {
        let text = format!("{{\"sequenceNumber\":{},\"value\":{{\"ok\":true}}}}", numbers[index]);
        match client.receive(&text) {
            Incoming::Response { sink, value: Ok(value), .. } => {
                assert_eq!(sink, name);
                assert_eq!(value.render(), "{\"ok\":true}");
            }
            _ => panic!("no response was handed out"),
        }
        // the same response a second time finds nobody
        assert!(matches!(
            client.receive(&text),
            Incoming::Unknown { sequence_number } if sequence_number == numbers[index]
        ));
    }
    assert_eq!(client.pending_count(), 0);
}

#[test]
fn unknown_and_malformed_messages_are_dropped() {
    let mut client = connected_client();
    assert!(matches!(client.send_message(JsonValue::Null, Some("x"), 0), SendOutcome::Send { sequence_number: 1, .. }));
    assert!(matches!(
        client.receive("{\"sequenceNumber\":77,\"value\":{}}"),
        Incoming::Unknown { sequence_number: 77 }
    ));
    assert!(matches!(client.receive("{\"sequenceNumber\":1}"), Incoming::Malformed));
    assert_eq!(client.pending_count(), 1);
}

#[test]
fn error_responses_are_handed_out_as_errors() {
    let mut client = connected_client();
    assert!(matches!(client.send_message(JsonValue::Null, Some("x"), 0), SendOutcome::Send { sequence_number: 1, .. }));
    match client.receive("{\"sequenceNumber\":1,\"value\":{\"Internal\":\"no vault\"}}") {
        Incoming::Response { sink: "x", value: Err(BitwardenError::Internal(message)), .. } => {
            assert_eq!(message, "no vault");
        }
        _ => panic!("no error was handed out"),
    }
}

#[test]
fn a_failed_send_takes_the_request_back() {
    let mut client = connected_client();
    let number = match client.send_message(JsonValue::Null, Some("x"), 0) {
        SendOutcome::Send { sequence_number, .. } => sequence_number,
        _ => panic!("the request was not sent"),
    };
    match client.send_failed(number) {
        Some(("x", BitwardenError::Internal(message))) => assert_eq!(message, "send failed"),
        _ => panic!("the request was not taken back"),
    }
    assert_eq!(client.pending_count(), 0);
    assert!(client.send_failed(number).is_none());
    assert!(client.send_failed(0).is_none());
    // the late response finds nobody
    assert!(matches!(
        client.receive(&format!("{{\"sequenceNumber\":{number},\"value\":{{}}}}")),
        Incoming::Unknown { .. }
    ));
}

#[test]
fn typed_requests_write_their_value() {
    let mut client = connected_client();
    let request = PasskeyAssertionRequest {
        rp_id: "example.com".to_string(),
        client_data_hash: vec![1],
        user_verification: UserVerification::Required,
        allowed_credentials: vec![],
        window_xy: Position { x: 1, y: 2 },
        client_window_handle: None,
        context: None,
    };
    match client.prepare_passkey_assertion(&request, "assert", 0) {
        SendOutcome::Send { sequence_number: 1, text } => assert_eq!(
            text,
            "{\"sequenceNumber\":1,\"value\":{\"allowedCredentials\":[],\"clientDataHash\":[1],\
\"clientWindowHandle\":null,\"context\":null,\"rpId\":\"example.com\",\
\"userVerification\":\"required\",\"windowXy\":{\"x\":1,\"y\":2}}}"
        ),
        _ => panic!("the request was not sent"),
    }
    match client.get_window_handle("window", 0) {
        SendOutcome::Send { sequence_number: 2, text } => {
            assert_eq!(text, "{\"sequenceNumber\":2,\"value\":{\"windowHandle\":\"\"}}")
        }
        _ => panic!("the request was not sent"),
    }
    assert_eq!(
        send_message_helper(7, JsonValue::Bool(false)),
        "{\"sequenceNumber\":7,\"value\":false}"
    );
}

#[test]
fn pending_table_skips_numbers_in_flight_after_wrapping() {
    let mut table: PendingTable<u32> = PendingTable::new();
    assert_eq!(table.add(10, 0), Ok(1));
    assert_eq!(table.add(20, 0), Ok(2));
    assert_eq!(table.add(30, 0), Ok(3));
    assert!(table.contains(2));
    assert_eq!(table.take(2).map(|request| request.sink), Some(20));
    assert!(!table.contains(2));
    assert!(table.take(2).is_none());
    // the counter moves on: a number that was freed is not handed out again at once
    assert_eq!(table.add(40, 0), Ok(4));
    assert_eq!(table.len(), 3);
    assert!(!table.contains(0));
}

#[test]
fn timed_callback_outcomes() {
    let mut callback: TimedCallback<LockStatusResponse> = TimedCallback::new();
    assert!(callback.send(Ok(LockStatusResponse { is_unlocked: false })));
    // only the first response counts
    assert!(!callback.send(Ok(LockStatusResponse { is_unlocked: true })));
    assert_eq!(
        callback.wait_for_response(WaitEnd::Responded),
        Ok(Ok(LockStatusResponse { is_unlocked: false }))
    );
    // a response after the wait is dropped
    assert!(!callback.send(Ok(LockStatusResponse { is_unlocked: true })));
    assert_eq!(callback.wait_for_response(WaitEnd::Responded), Err(CallbackError::Cancelled));

    let mut callback: TimedCallback<LockStatusResponse> = TimedCallback::default();
    assert_eq!(callback.wait_for_response(WaitEnd::TimedOut), Err(CallbackError::Timeout));
    assert!(!callback.send(Ok(LockStatusResponse { is_unlocked: true })));

    let mut callback: TimedCallback<LockStatusResponse> = TimedCallback::new();
    assert_eq!(callback.wait_for_response(WaitEnd::Cancelled), Err(CallbackError::Cancelled));

    let mut callback: TimedCallback<LockStatusResponse> = TimedCallback::new();
    assert_eq!(callback.wait_for_response(WaitEnd::Abandoned), Err(CallbackError::Cancelled));

    // a response that is held does not outlive a deadline that passed first
    let mut callback: TimedCallback<LockStatusResponse> = TimedCallback::new();
    assert!(callback.send(Err(BitwardenError::Disconnected)));
    assert_eq!(callback.wait_for_response(WaitEnd::TimedOut), Err(CallbackError::Timeout));
}

#[test]
fn undeliverable_values_are_reported() {
    let mut callback: TimedCallback<LockStatusResponse> = TimedCallback::new();
    assert!(!deliver_lock_status(&mut callback, Ok(JsonValue::parse("{\"isUnlocked\":\"yes\"}").unwrap())));
    assert_eq!(callback.wait_for_response(WaitEnd::TimedOut), Err(CallbackError::Timeout));
}

#[test]
fn requests_expire_in_the_order_of_their_numbers() {
    let mut client = connected_client();
    for (name, deadline) in [("a", 500), ("b", 100), ("c", 300), ("d", 100)] {
        assert!(matches!(
            client.send_message(JsonValue::Null, Some(name), deadline),
            SendOutcome::Send { .. }
        ));
    }
    assert_eq!(client.expire(99), None);
    assert_eq!(client.expire(100), Some((2, "b", CallbackError::Timeout)));
    assert_eq!(client.expire(100), Some((4, "d", CallbackError::Timeout)));
    assert_eq!(client.expire(100), None);
    assert_eq!(client.pending_count(), 2);
    // a response that comes after the deadline finds nobody
    assert!(matches!(
        client.receive("{\"sequenceNumber\":2,\"value\":{}}"),
        Incoming::Unknown { sequence_number: 2 }
    ));
    assert_eq!(client.expire(u64::MAX), Some((1, "a", CallbackError::Timeout)));
    assert_eq!(client.expire(u64::MAX), Some((3, "c", CallbackError::Timeout)));
    assert_eq!(client.expire(u64::MAX), None);
    assert_eq!(client.pending_count(), 0);
}

#[test]
fn a_cancelled_request_is_forgotten() {
    let mut client = connected_client();
    assert!(matches!(client.send_message(JsonValue::Null, Some("a"), 0), SendOutcome::Send { sequence_number: 1, .. }));
    assert_eq!(client.cancel(1), Some("a"));
    assert_eq!(client.cancel(1), None);
    assert_eq!(client.cancel(0), None);
    assert!(matches!(
        client.receive("{\"sequenceNumber\":1,\"value\":{}}"),
        Incoming::Unknown { sequence_number: 1 }
    ));
}

#[test]
fn rejected_requests_leave_the_counter_where_it_was() {
    let mut client = connected_client();
    assert!(matches!(
        client.send_message(JsonValue::Null, Some("a"), 10),
        SendOutcome::Send { sequence_number: 1, .. }
    ));
    assert!(matches!(client.receive(DISCONNECTED), Incoming::Disconnected));
    for _ in 0..3 {
        assert!(matches!(
            client.send_message(JsonValue::Null, Some("b"), 20),
            SendOutcome::Rejected { sink: Some("b"), error: BitwardenError::Disconnected }
        ));
    }
    assert_eq!(client.pending_count(), 1);
    assert!(matches!(client.receive(CONNECTED), Incoming::Connected));
    // requests without a sink do not move the counter either
    assert!(matches!(
        client.send_native_status("k".to_string(), "v".to_string()),
        SendOutcome::Send { sequence_number: 0, .. }
    ));
    assert!(matches!(
        client.send_message(JsonValue::Null, Some("c"), 30),
        SendOutcome::Send { sequence_number: 2, .. }
    ));
    // each request kept the deadline that it was made with
    assert_eq!(client.expire(10), Some((1, "a", CallbackError::Timeout)));
    assert_eq!(client.expire(29), None);
    assert!(matches!(
        client.receive("{\"sequenceNumber\":2,\"value\":{}}"),
        Incoming::Response { sink: "c", deadline: 30, value: Ok(_) }
    ));
}

#[test]
fn what_is_delivered_reaches_the_one_who_waits() {
    let mut callback: TimedCallback<LockStatusResponse> = TimedCallback::new();
    let value = JsonValue::parse("{\"isUnlocked\": true, \"more\": 1}").unwrap();
    assert!(deliver_lock_status(&mut callback, Ok(value)));
    assert_eq!(
        callback.wait_for_response(WaitEnd::Responded),
        Ok(Ok(LockStatusResponse { is_unlocked: true }))
    );

    let mut callback: TimedCallback<LockStatusResponse> = TimedCallback::new();
    assert!(deliver_lock_status(&mut callback, Err(BitwardenError::Disconnected)));
    assert_eq!(
        callback.wait_for_response(WaitEnd::Responded),
        Ok(Err(BitwardenError::Disconnected))
    );

    // a value that cannot be read is not handed on
    let mut callback: TimedCallback<LockStatusResponse> = TimedCallback::new();
    assert!(!deliver_lock_status(&mut callback, Ok(JsonValue::parse("{}").unwrap())));
    assert!(!deliver_lock_status(&mut callback, Ok(JsonValue::parse("[true]").unwrap())));
    assert_eq!(callback.wait_for_response(WaitEnd::Responded), Err(CallbackError::Cancelled));
}

#[test]
fn the_first_delivery_is_what_the_wait_returns() {
    let mut callback: TimedCallback<LockStatusResponse> = TimedCallback::new();
    let value = JsonValue::parse("{\"isUnlocked\": false}").unwrap();
    assert!(deliver_lock_status(&mut callback, Ok(value)));
    assert!(deliver_lock_status(&mut callback, Err(BitwardenError::Disconnected)));
    assert_eq!(
        callback.wait_for_response(WaitEnd::Responded),
        Ok(Ok(LockStatusResponse { is_unlocked: false }))
    );
}
