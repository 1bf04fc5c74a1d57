use credential_agent::encoding::can_encode;
use credential_agent::encoding::decode_base64;
use credential_agent::encoding::digest_fingerprint;
use credential_agent::encoding::digest_name;
use credential_agent::encoding::encode_base64;
use credential_agent::text::bytes_equal;
use credential_agent::text::bytes_precede;
use credential_agent::text::decimal;
use credential_agent::text::joined;
use credential_agent::text::str_equal;

#[test]
fn decimal_writes_numbers() {
    assert_eq!(decimal(0), "0");
    assert_eq!(decimal(7), "7");
    assert_eq!(decimal(10), "10");
    assert_eq!(decimal(1234567890), "1234567890");
    assert_eq!(decimal(u64::MAX), "18446744073709551615");
    for number in [9u64, 11, 99, 100, 101, 4294967295, 4294967296] {
        assert_eq!(decimal(number), number.to_string());
    }
}

#[test]
fn strings_compare_by_their_bytes() {
    let samples = ["", "a", "A", "ab", "b", "é", "z", "zz", "\u{10000}", "\u{ffff}"];
    for first in samples {
        for second in samples {
            assert_eq!(str_equal(first, second), first == second, "{first:?} {second:?}");
            assert_eq!(
                bytes_precede(first.as_bytes(), second.as_bytes()),
                first.as_bytes() < second.as_bytes()
            );
            assert_eq!(bytes_equal(first.as_bytes(), second.as_bytes()), first == second);
        }
    }
    assert!(bytes_precede(&[1, 2], &[1, 2, 0]));
    assert!(!bytes_precede(&[1, 2, 0], &[1, 2]));
    assert!(bytes_precede(&[0, 255], &[1]));
    assert_eq!(joined("ab", "cd"), "abcd");
    assert_eq!(joined("", ""), "");
}

#[test]
fn base64_round_trips() {
    assert_eq!(encode_base64(b""), "");
    assert_eq!(encode_base64(b"f"), "Zg==");
    assert_eq!(encode_base64(b"fo"), "Zm8=");
    assert_eq!(encode_base64(b"foo"), "Zm9v");
    assert_eq!(encode_base64(&[0xfb, 0xff]), "+/8=");
    assert_eq!(decode_base64("Zm9vYmFy"), Some(b"foobar".to_vec()));
    assert_eq!(decode_base64("+/8="), Some(vec![0xfb, 0xff]));
    assert_eq!(decode_base64("-_8="), None);
    assert_eq!(decode_base64("Zg"), None);
    assert_eq!(decode_base64("Z"), None);
    assert_eq!(decode_base64("Zg== "), None);
    assert!(can_encode(&[0; 100]));
}

#[test]
fn digests_are_named_without_padding() {
    // SHA-256 of "abc"
    assert_eq!(digest_name(b"abc"), "ungWv48Bz-pBQUDeXa4iI7ADYaOWF3qctBD_YfIAFa0");
    assert_eq!(digest_fingerprint(b"abc"), "ungWv48Bz+pBQUDeXa4iI7ADYaOWF3qctBD/YfIAFa0");
    assert_eq!(digest_name(b""), "47DEQpj8HBSa-_TImW-5JCeuQeRkm5NMpJWZG3hSuFU");
}
