use credential_agent::ssh_agent::wire::byte_frame;
use credential_agent::ssh_agent::wire::into_frame;
use credential_agent::ssh_agent::wire::put_bytes;
use credential_agent::ssh_agent::wire::put_string;
use credential_agent::ssh_agent::wire::put_u32;
use credential_agent::ssh_agent::wire::read_u32;
use credential_agent::ssh_agent::wire::Reader;

#[test]
fn numbers_are_big_endian() {
    let mut buffer = vec![9];
    put_u32(&mut buffer, 0x01020304);
    put_u32(&mut buffer, 0);
    put_u32(&mut buffer, u32::MAX);
    assert_eq!(buffer, vec![9, 1, 2, 3, 4, 0, 0, 0, 0, 255, 255, 255, 255]);
    assert_eq!(read_u32(&buffer, 1), Some(0x01020304));
    assert_eq!(read_u32(&buffer, 5), Some(0));
    assert_eq!(read_u32(&buffer, 9), Some(u32::MAX));
    assert_eq!(read_u32(&buffer, 10), None);
    assert_eq!(read_u32(&buffer, usize::MAX), None);
    assert_eq!(read_u32(&[1, 2, 3], 0), None);
    for number in [1u32, 255, 256, 65535, 65536, 0x7fffffff, 0x80000000, 0xfffffffe] {
        let mut buffer = Vec::new();
        put_u32(&mut buffer, number);
        assert_eq!(buffer, number.to_be_bytes());
        assert_eq!(read_u32(&buffer, 0), Some(number));
    }
}

#[test]
fn strings_carry_their_length() {
    let mut buffer = Vec::new();
    put_string(&mut buffer, b"ssh-ed25519");
    put_string(&mut buffer, b"");
    put_bytes(&mut buffer, &[7]);
    assert_eq!(&buffer[..4], &[0, 0, 0, 11]);
    assert_eq!(&buffer[4..15], b"ssh-ed25519");
    assert_eq!(&buffer[15..], &[0, 0, 0, 0, 7]);
    let mut reader = Reader::new(&buffer, 0);
    assert_eq!(reader.read_string(), Some(&b"ssh-ed25519"[..]));
    assert_eq!(reader.read_string(), Some(&b""[..]));
    assert_eq!(reader.remaining(), 1);
    assert_eq!(reader.read_string(), None);
    assert_eq!(reader.read_u32(), None);
    assert_eq!(reader.read_byte(), Some(7));
    assert_eq!(reader.read_byte(), None);
    assert_eq!(reader.remaining(), 0);
}

#[test]
fn strings_that_run_past_the_end_are_not_read() {
    let buffer = [0, 0, 0, 5, 1, 2, 3, 4];
    let mut reader = Reader::new(&buffer, 0);
    assert_eq!(reader.read_string(), None);
    // nothing was consumed
    assert_eq!(reader.read_u32(), Some(5));
    let buffer = [255, 255, 255, 255, 1];
    assert_eq!(Reader::new(&buffer, 0).read_string(), None);
    assert_eq!(Reader::new(&buffer, 99).remaining(), 0);
}

#[test]
fn frames_carry_the_length_of_their_payload() {
    assert_eq!(into_frame(&[]), vec![0, 0, 0, 0]);
    assert_eq!(into_frame(&[11]), vec![0, 0, 0, 1, 11]);
    assert_eq!(byte_frame(5), vec![0, 0, 0, 1, 5]);
    let payload = vec![1u8; 300];
    let framed = into_frame(&payload);
    assert_eq!(&framed[..4], &[0, 0, 1, 44]);
    assert_eq!(&framed[4..], &payload[..]);
}
