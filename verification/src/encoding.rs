//! Base64 text and SHA-256 digests.

use base64::engine::general_purpose::STANDARD;
use base64::engine::general_purpose::STANDARD_NO_PAD;
use base64::engine::general_purpose::URL_SAFE_NO_PAD;
use base64::Engine;
use sha2::Digest;
use sha2::Sha256;
use vstd::prelude::*;

verus! {

/// The text that the standard base64 alphabet, with padding, writes for a
/// byte string.
pub uninterp spec fn base64_standard_text(bytes: Seq<u8>) -> Seq<char>;

/// The byte string that a text in the standard base64 alphabet, with padding,
/// stands for, or `None` where the text is not valid.
pub uninterp spec fn base64_standard_bytes(text: Seq<char>) -> Option<Seq<u8>>;

/// The text that the URL-safe base64 alphabet, without padding, writes for a
/// byte string.
pub uninterp spec fn base64_url_text(bytes: Seq<u8>) -> Seq<char>;

/// The text that the standard base64 alphabet, without padding, writes for a
/// byte string.
pub uninterp spec fn base64_unpadded_text(bytes: Seq<u8>) -> Seq<char>;

/// The SHA-256 digest of a byte string.
pub uninterp spec fn sha256_digest(bytes: Seq<u8>) -> Seq<u8>;

/// Whether a byte string is short enough for its base64 text to be written:
/// the length of the text must fit the machine's word.
pub open spec fn base64_encodable(bytes: Seq<u8>) -> bool {
    4 * (bytes.len() / 3 + 1) <= usize::MAX
}

/// Calls `Engine::encode` of base64's `STANDARD` engine. The contract names
/// the text, and claims that decoding it gives the bytes back. The call
/// panics where the length of the text does not fit the machine's word, which
/// `requires` leaves out.
#[verifier::external_body]
fn standard_encode(bytes: &[u8]) -> (text: String)
    requires
        base64_encodable(bytes@),
    ensures
        text@ == base64_standard_text(bytes@),
        base64_standard_bytes(text@) == Some(bytes@),
{
    STANDARD.encode(bytes)
}

/// Calls `Engine::decode` of base64's `STANDARD` engine. The contract names
/// the bytes; the outside error becomes `None`.
#[verifier::external_body]
fn standard_decode(text: &str) -> (bytes: Option<Vec<u8>>)
    ensures
        match bytes {
            Some(decoded) => base64_standard_bytes(text@) == Some(decoded@),
            None => base64_standard_bytes(text@) is None,
        },
{
    STANDARD.decode(text).ok()
}

/// Calls `Engine::encode` of base64's `URL_SAFE_NO_PAD` engine. The contract
/// names the text. The call panics where the length of the text does not fit
/// the machine's word, which `requires` leaves out.
#[verifier::external_body]
fn url_encode(bytes: &[u8]) -> (text: String)
    requires
        base64_encodable(bytes@),
    ensures
        text@ == base64_url_text(bytes@),
{
    URL_SAFE_NO_PAD.encode(bytes)
}

/// Calls `Engine::encode` of base64's `STANDARD_NO_PAD` engine. The contract
/// names the text. The call panics where the length of the text does not
/// fit the machine's word, which `requires` leaves out.
#[verifier::external_body]
fn unpadded_encode(bytes: &[u8]) -> (text: String)
    requires
        base64_encodable(bytes@),
    ensures
        text@ == base64_unpadded_text(bytes@),
{
    STANDARD_NO_PAD.encode(bytes)
}

/// Calls `Digest::digest` of `Sha256`. The contract names the digest and
/// gives its length, 32 bytes.
#[verifier::external_body]
fn sha256(bytes: &[u8]) -> (digest: Vec<u8>)
    ensures
        digest@ == sha256_digest(bytes@),
        digest@.len() == 32,
{
    Sha256::digest(bytes).to_vec()
}

/// Whether the base64 text of a byte string can be written.
pub fn can_encode(bytes: &[u8]) -> (encodable: bool)
    ensures
        encodable == base64_encodable(bytes@),
{
    bytes.len() / 3 < usize::MAX / 4
}

/// The fingerprint of a byte string: the SHA-256 digest in the standard
/// base64 alphabet, without padding.
pub fn digest_fingerprint(bytes: &[u8]) -> (text: String)
    ensures
        text@ == base64_unpadded_text(sha256_digest(bytes@)),
{
    let digest = sha256(bytes);
    unpadded_encode(digest.as_slice())
}

/// Writes a byte string in the standard base64 alphabet, with padding.
pub fn encode_base64(bytes: &[u8]) -> (text: String)
    requires
        base64_encodable(bytes@),
    ensures
        text@ == base64_standard_text(bytes@),
        base64_standard_bytes(text@) == Some(bytes@),
{
    standard_encode(bytes)
}

/// Reads a text in the standard base64 alphabet, with padding.
pub fn decode_base64(text: &str) -> (bytes: Option<Vec<u8>>)
    ensures
        match bytes {
            Some(decoded) => base64_standard_bytes(text@) == Some(decoded@),
            None => base64_standard_bytes(text@) is None,
        },
{
    standard_decode(text)
}

/// The URL-safe base64 text, without padding, of the SHA-256 digest of a
/// byte string: a name without reserved characters, of fixed length.
pub fn digest_name(bytes: &[u8]) -> (name: String)
    ensures
        name@ == base64_url_text(sha256_digest(bytes@)),
{
    let digest = sha256(bytes);
    url_encode(digest.as_slice())
}

} // verus!
