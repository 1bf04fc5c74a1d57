use credential_agent::autotype::type_input::AutotypeError;
use credential_agent::host::autotype::get_foreground_window_title;
use credential_agent::host::autotype::type_input_error;
use credential_agent::host::importer::get_available_profiles;
use credential_agent::host::importer::get_metadata;
use credential_agent::host::importer::ImporterMetadata;
use credential_agent::host::importer::ImporterProfile;
use credential_agent::host::importer::ImportOutcome;
use credential_agent::host::importer::Login;
use credential_agent::host::importer::LoginImportFailure;
use credential_agent::host::importer::LoginImportResult;
use credential_agent::host::importer::NativeImporterMetadata;
use credential_agent::host::importer::ProfileInfo;
use credential_agent::host::ipc::IpcMessage;
use credential_agent::host::ipc::IpcMessageType;
use credential_agent::host::keys::key_entries;
use credential_agent::host::keys::HostPrivateKey;
use credential_agent::host::keys::KeyMaterial;
use credential_agent::host::keys::OsDerivedKey;
use credential_agent::host::keys::SshKey;
use credential_agent::host::logging::preamble;
use credential_agent::host::logging::LogLevel;
use credential_agent::ipc::Message;
use credential_agent::ipc::MessageType;

#[test]
fn listener_events_are_converted() {
    assert_eq!(IpcMessageType::from(MessageType::Connected), IpcMessageType::Connected);
    assert_eq!(IpcMessageType::from(MessageType::Disconnected), IpcMessageType::Disconnected);
    assert_eq!(IpcMessageType::from(MessageType::Message), IpcMessageType::Message);
    let message = Message { client_id: 4, kind: MessageType::Message, message: Some("m".to_string()) };
    assert_eq!(
        IpcMessage::from(message),
        IpcMessage { client_id: 4, kind: IpcMessageType::Message, message: Some("m".to_string()) }
    );
    let message = Message { client_id: 0, kind: MessageType::Connected, message: None };
    assert_eq!(
        IpcMessage::from(message),
        IpcMessage { client_id: 0, kind: IpcMessageType::Connected, message: None }
    );
}

#[test]
fn log_lines_start_with_level_and_origin() {
    assert_eq!(
        preamble(LogLevel::Info, "desktop_core::ssh_agent"),
        "[INFO] desktop_core::ssh_agent:"
    );
    assert_eq!(preamble(LogLevel::Error, ""), "[ERROR] :");
    for (level, name) in [
        (LogLevel::Trace, "TRACE"),
        (LogLevel::Debug, "DEBUG"),
        (LogLevel::Info, "INFO"),
        (LogLevel::Warn, "WARN"),
        (LogLevel::Error, "ERROR"),
    ] {
        assert_eq!(level.as_str(), name);
        assert_eq!(LogLevel::from(name), Some(level));
    }
    assert_eq!(LogLevel::from("info"), None);
    assert_eq!(LogLevel::from(""), None);
}

#[test]
fn import_results_hold_one_of_two_parts() {
    let login = Login {
        url: "https://example.com".to_string(),
        username: "neo".to_string(),
        password: "pw".to_string(),
        note: "".to_string(),
    };
    assert_eq!(
        LoginImportResult::from(ImportOutcome::Success(login.clone())),
        LoginImportResult { login: Some(login), failure: None }
    );
    let failure = LoginImportFailure {
        url: "https://example.com".to_string(),
        username: "neo".to_string(),
        error: "locked".to_string(),
    };
    assert_eq!(
        LoginImportResult::from(ImportOutcome::Failure(failure.clone())),
        LoginImportResult { login: None, failure: Some(failure) }
    );
    assert_eq!(
        ProfileInfo::from(ImporterProfile { folder: "Default".to_string(), name: "Person 1".to_string() }),
        ProfileInfo { id: "Default".to_string(), name: "Person 1".to_string() }
    );
}

#[test]
fn importer_reports_are_converted_in_order() {
    let metadata = |id: &str| ImporterMetadata {
        id: id.to_string(),
        loaders: vec!["file".to_string(), id.to_string()],
        instructions: "chromium".to_string(),
    };
    let seen = |id: &str| NativeImporterMetadata {
        id: id.to_string(),
        loaders: vec!["file".to_string(), id.to_string()],
        instructions: "chromium".to_string(),
    };
    assert_eq!(
        get_metadata(vec![
            ("Chrome".to_string(), metadata("chrome")),
            ("Brave".to_string(), metadata("brave")),
            ("Edge".to_string(), metadata("edge")),
        ]),
        vec![
            ("Chrome".to_string(), seen("chrome")),
            ("Brave".to_string(), seen("brave")),
            ("Edge".to_string(), seen("edge")),
        ]
    );
    assert_eq!(get_metadata(vec![]), vec![]);
    assert_eq!(
        get_available_profiles(Ok(vec![
            ImporterProfile { folder: "Default".to_string(), name: "Person 1".to_string() },
            ImporterProfile { folder: "Profile 1".to_string(), name: "Work".to_string() },
        ])),
        Ok(vec![
            ProfileInfo { id: "Default".to_string(), name: "Person 1".to_string() },
            ProfileInfo { id: "Profile 1".to_string(), name: "Work".to_string() },
        ])
    );
    assert_eq!(get_available_profiles(Ok(vec![])), Ok(vec![]));
    assert_eq!(
        get_available_profiles(Err("no such browser".to_string())),
        Err("no such browser".to_string())
    );
}

#[test]
fn window_title_errors_hide_their_cause() {
    assert_eq!(get_foreground_window_title(Ok("Inbox".to_string())), Ok("Inbox".to_string()));
    assert_eq!(get_foreground_window_title(Ok("".to_string())), Ok("".to_string()));
    assert_eq!(
        get_foreground_window_title(Err("access denied".to_string())),
        Err("Autotype Error: failed to get foreground window title".to_string())
    );
    assert_eq!(
        type_input_error(&AutotypeError::UnsupportedModifier { key: "Shift".to_string() }),
        "Autotype Error: Unsupported modifier key: Shift"
    );
}

#[test]
fn host_keys_become_entries() {
    let keys = vec![
        HostPrivateKey { private_key: "pem a".to_string(), name: "a".to_string(), cipher_id: "1".to_string() },
        HostPrivateKey { private_key: "pem b".to_string(), name: "b".to_string(), cipher_id: "2".to_string() },
    ];
    assert_eq!(
        key_entries(&keys),
        vec![
            ("pem a".to_string(), "a".to_string(), "1".to_string()),
            ("pem b".to_string(), "b".to_string(), "2".to_string()),
        ]
    );
    assert_eq!(key_entries(&vec![]), vec![]);
    let material = KeyMaterial { os_key_part_b64: "a".to_string(), client_key_part_b64: None };
    assert_eq!(material.clone(), material);
    let derived = OsDerivedKey { key_b64: "k".to_string(), iv_b64: "i".to_string() };
    assert_eq!(derived.clone(), derived);
    let key = SshKey { private_key: "p".to_string(), public_key: "q".to_string(), key_fingerprint: "f".to_string() };
    assert_eq!(key.clone(), key);
}
