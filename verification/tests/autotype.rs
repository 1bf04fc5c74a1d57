use credential_agent::autotype::modifier_keys::get_numeric_modifier_key;
use credential_agent::autotype::type_input;
use credential_agent::autotype::type_input::add_input;
use credential_agent::autotype::type_input::build_input;
use credential_agent::autotype::type_input::build_unicode_input;
use credential_agent::autotype::type_input::build_virtual_key_input;
use credential_agent::autotype::type_input::get_alphabetic_hotkey;
use credential_agent::autotype::type_input::send_input;
use credential_agent::autotype::type_input::AutotypeError;
use credential_agent::autotype::type_input::InputKeyPress;
use credential_agent::autotype::type_input::KeyboardInput;
use credential_agent::autotype::type_input::KeyboardShortcutInput;

fn convert_shortcut(keys: &[&str]) -> Result<Vec<KeyboardShortcutInput>, String> {
    keys.iter()
        .map(|s| KeyboardShortcutInput::try_from(s).map_err(|e| e.message()))
        .collect()
}

#[test]
fn valid_modifier_keys() {
    assert_eq!(get_numeric_modifier_key("Control").unwrap(), 0x11);
    assert_eq!(get_numeric_modifier_key("Alt").unwrap(), 0x12);
    assert_eq!(get_numeric_modifier_key("Super").unwrap(), 0x5B);
}

#[test]
fn does_not_contain_invalid_modifier_keys() {
    assert!(get_numeric_modifier_key("Shift").is_none());
}

#[test]
fn modifier_keys_are_case_sensitive() {
    assert!(get_numeric_modifier_key("control").is_none());
    assert!(get_numeric_modifier_key("").is_none());
    assert!(get_numeric_modifier_key("Controls").is_none());
}

#[test]
fn get_alphabetic_hot_key_succeeds() {
    for c in ('a'..='z').chain('A'..='Z') {
        let letter = c.to_string();
        let converted = get_alphabetic_hotkey(&letter).unwrap();
        assert_eq!(converted, c as u16);
    }
}

#[test]
#[should_panic = "Final keyboard shortcut key should be a single character: foo"]
fn get_alphabetic_hot_key_fail_not_single_char() {
    let letter = String::from("foo");
    get_alphabetic_hotkey(&letter).map_err(|e| e.message()).unwrap();
}

#[test]
#[should_panic = "Letter is not ASCII Alphabetic ([a-z][A-Z]): '}'"]
fn get_alphabetic_hot_key_fail_not_alphabetic() {
    let letter = String::from("}");
    get_alphabetic_hotkey(&letter).map_err(|e| e.message()).unwrap();
}

#[test]
fn get_alphabetic_hot_key_rejects_empty_and_wide() {
    assert!(matches!(
        get_alphabetic_hotkey(""),
        Err(AutotypeError::NotSingleCharacter { .. })
    ));
    // one character, two bytes
    assert!(matches!(
        get_alphabetic_hotkey("é"),
        Err(AutotypeError::NotSingleCharacter { .. })
    ));
    assert!(matches!(
        get_alphabetic_hotkey("@"),
        Err(AutotypeError::NotAlphabetic { .. })
    ));
    assert!(matches!(
        get_alphabetic_hotkey("["),
        Err(AutotypeError::NotAlphabetic { .. })
    ));
}

#[test]
fn send_input_succeeds() {
    let inputs = [build_unicode_input(InputKeyPress::Up, 0)];
    send_input(inputs.len(), 1, "").unwrap();
}

#[test]
fn keyboard_shortcut_conversion_succeeds() {
    let keyboard_shortcut = ["Control", "Alt", "B"];
    let converted = convert_shortcut(&keyboard_shortcut).unwrap();
    assert_eq!(
        converted,
        vec![
            KeyboardShortcutInput(KeyboardInput { virtual_key: 0x11, scan_code: 0, flags: 6 }),
            KeyboardShortcutInput(KeyboardInput { virtual_key: 0x12, scan_code: 0, flags: 6 }),
            KeyboardShortcutInput(KeyboardInput { virtual_key: 0, scan_code: 0x42, flags: 6 }),
        ]
    );
}

#[test]
#[should_panic = "Letter is not ASCII Alphabetic ([a-z][A-Z]): '1'"]
fn keyboard_shortcut_conversion_fails_invalid_key() {
    let keyboard_shortcut = ["Control", "Alt", "1"];
    let _: Vec<KeyboardShortcutInput> = convert_shortcut(&keyboard_shortcut).unwrap();
}

#[test]
#[should_panic(expected = "Unsupported modifier key: Shift")]
fn keyboard_shortcut_conversion_fails_with_shift() {
    let keyboard_shortcut = ["Control", "Shift", "B"];
    let _: Vec<KeyboardShortcutInput> = convert_shortcut(&keyboard_shortcut).unwrap();
}

#[test]
#[should_panic(
    expected = "SendInput sent 0 inputs. Input was blocked by another thread. GetLastError:"
)]
fn send_input_fails_sent_zero() {
    let inputs = [build_unicode_input(InputKeyPress::Up, 0)];
    send_input(inputs.len(), 0, "Incorrect function.")
        .map_err(|e| e.message())
        .unwrap();
}

#[test]
#[should_panic(expected = "SendInput does not match expected. sent: 2, expected: 1")]
fn send_input_fails_sent_mismatch() {
    let inputs = [build_unicode_input(InputKeyPress::Up, 0)];
    send_input(inputs.len(), 2, "Incorrect function.")
        .map_err(|e| e.message())
        .unwrap();
}

#[test]
fn mismatch_message_writes_large_numbers() {
    let error = send_input(1234567890, 4294967295, "").unwrap_err();
    assert_eq!(
        error.message(),
        "SendInput does not match expected. sent: 4294967295, expected: 1234567890"
    );
    let error = send_input(10, 100, "").unwrap_err();
    assert_eq!(
        error.message(),
        "SendInput does not match expected. sent: 100, expected: 10"
    );
}

#[test]
fn build_input_sets_key_scan_and_flags() {
    assert_eq!(
        build_input(InputKeyPress::Down, 0x41, false),
        KeyboardInput { virtual_key: 0, scan_code: 0x41, flags: 0x0004 }
    );
    assert_eq!(
        build_input(InputKeyPress::Up, 0x41, false),
        KeyboardInput { virtual_key: 0, scan_code: 0x41, flags: 0x0006 }
    );
    assert_eq!(
        build_virtual_key_input(InputKeyPress::Down, 9),
        KeyboardInput { virtual_key: 9, scan_code: 0, flags: 0x0004 }
    );
    assert_eq!(
        build_virtual_key_input(InputKeyPress::Up, 9),
        KeyboardInput { virtual_key: 9, scan_code: 0, flags: 0x0006 }
    );
}

#[test]
fn add_input_presses_and_releases_each_unit() {
    let mut events = vec![build_virtual_key_input(InputKeyPress::Up, 0x11)];
    add_input(&[0x61, 9], &mut events);
    assert_eq!(
        events,
        vec![
            KeyboardInput { virtual_key: 0x11, scan_code: 0, flags: 6 },
            KeyboardInput { virtual_key: 0, scan_code: 0x61, flags: 4 },
            KeyboardInput { virtual_key: 0, scan_code: 0x61, flags: 6 },
            KeyboardInput { virtual_key: 9, scan_code: 0, flags: 4 },
            KeyboardInput { virtual_key: 9, scan_code: 0, flags: 6 },
        ]
    );
}

#[test]
fn type_input_releases_shortcut_then_types() {
    let shortcut = vec!["Control".to_string(), "Alt".to_string(), "b".to_string()];
    let events = type_input(&[0x68, 0x69], &shortcut).unwrap();
    assert_eq!(events.len(), 3 + 2 * 2);
    assert_eq!(events[0], KeyboardInput { virtual_key: 0x11, scan_code: 0, flags: 6 });
    assert_eq!(events[1], KeyboardInput { virtual_key: 0x12, scan_code: 0, flags: 6 });
    assert_eq!(events[2], KeyboardInput { virtual_key: 0, scan_code: 0x62, flags: 6 });
    assert_eq!(events[3], KeyboardInput { virtual_key: 0, scan_code: 0x68, flags: 4 });
    assert_eq!(events[6], KeyboardInput { virtual_key: 0, scan_code: 0x69, flags: 6 });
}

#[test]
fn type_input_with_nothing_to_type() {
    assert_eq!(type_input(&[], &[]).unwrap(), vec![]);
}

#[test]
fn type_input_fails_on_first_invalid_key() {
    let shortcut = vec!["Control".to_string(), "Shift".to_string(), "1".to_string()];
    let error = type_input(&[0x68], &shortcut).unwrap_err();
    assert_eq!(error.message(), "Unsupported modifier key: Shift");
}
