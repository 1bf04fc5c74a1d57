//! Cryptographic key management for the SSH agent: reading OpenSSH private
//! keys, and signing with them.
//!
//! Supported signing algorithms are Ed25519 and RSA (with SHA-512). ECDSA
//! keys are not supported.

use signature::SignatureEncoding;
use signature::Signer;
use signature::Verifier;
use vstd::arithmetic::power2::lemma2_to64;
use vstd::arithmetic::power2::lemma_pow2_adds;
use vstd::arithmetic::power2::lemma_pow2_pos;
use vstd::arithmetic::power2::lemma_pow2_strictly_increases;
use vstd::arithmetic::power2::lemma_pow2_unfold;
use vstd::arithmetic::power2::pow2;
use vstd::prelude::*;
use vstd::slice::slice_to_vec;

use crate::encoding::base64_encodable;
use crate::encoding::base64_standard_text;
use crate::encoding::encode_base64;
use crate::text::joined;

verus! {

/// The least number of bits of an RSA modulus that is accepted.
pub const MIN_RSA_KEY_BITS: usize = 2048;

/// The length of a raw Ed25519 signature in bytes.
pub const ED25519_SIGNATURE_LEN: usize = 64;

/// The families of algorithm that a key is told by.
#[derive(Debug, Clone, Copy, PartialEq, Eq)]
pub enum AlgorithmKind {
    Ed25519,
    Rsa,
    /// Any other algorithm; none of them is supported.
    Other,
}

/// The algorithms that the agent signs with.
#[derive(Debug, Clone, Copy, PartialEq, Eq)]
pub enum KeyAlgorithm {
    Ed25519,
    Rsa,
}

/// What is read off an OpenSSH private key.
#[derive(Debug, Clone, PartialEq, Eq)]
pub struct KeyFacts {
    pub algorithm: AlgorithmKind,
    /// Whether the private part is protected by a passphrase.
    pub encrypted: bool,
    /// The RSA modulus, most significant byte first; empty for a key that
    /// has none.
    pub rsa_modulus: Vec<u8>,
    /// The public key in SSH wire encoding.
    pub public_blob: Vec<u8>,
}

/// `KeyFacts` with the blob as a sequence of bytes.
pub struct KeyFactsModel {
    pub algorithm: AlgorithmKind,
    pub encrypted: bool,
    pub rsa_modulus: Seq<u8>,
    pub public_blob: Seq<u8>,
}

/// Why a key is refused.
#[derive(Debug, Clone, Copy, PartialEq, Eq)]
pub enum KeyError {
    /// The text is not an OpenSSH private key.
    Malformed,
    /// The key is an Ed25519 key without a readable private part.
    MissingEd25519,
    /// The key is an RSA key without a readable private part.
    MissingRsa,
    /// The RSA modulus is shorter than 2048 bits.
    RsaTooSmall,
    /// The algorithm of the key is not supported.
    Unsupported,
}

/// Represents an SSH private key: the OpenSSH text of a key that was read
/// and accepted.
#[derive(Clone, PartialEq, Debug)]
pub enum PrivateKey {
    Ed25519(String),
    Rsa(String),
}

/// Represents an SSH public key: the algorithm identifier (`ssh-ed25519`,
/// `ssh-rsa`) and the binary blob of the public key data.
#[derive(Clone, Debug, PartialEq, Eq)]
pub struct PublicKey {
    pub alg: String,
    pub blob: Vec<u8>,
}

/// Represents an SSH key and its associated metadata.
#[derive(Clone, Debug)]
pub struct SSHKeyData {
    private_key: PrivateKey,
    public_key: PublicKey,
    name: String,
    cipher_id: String,
}

/// What `ssh_key` reads off the OpenSSH text of a private key, or `None`
/// where it cannot parse the text: the family of its algorithm, whether it is
/// protected by a passphrase, and its public key in SSH wire encoding.
pub uninterp spec fn openssh_key_outline(pem: Seq<char>) -> Option<(AlgorithmKind, bool, Seq<u8>)>;

/// The numbers of an RSA keypair, each most significant byte first. The
/// private exponent and the primes are overwritten with zeros when the
/// value goes.
pub struct RsaNumbers {
    pub modulus: Vec<u8>,
    pub public_exponent: Vec<u8>,
    pub private_exponent: Vec<u8>,
    pub first_prime: Vec<u8>,
    pub second_prime: Vec<u8>,
}

/// `RsaNumbers` with each number as a sequence of bytes.
pub struct RsaNumbersModel {
    pub modulus: Seq<u8>,
    pub public_exponent: Seq<u8>,
    pub private_exponent: Seq<u8>,
    pub first_prime: Seq<u8>,
    pub second_prime: Seq<u8>,
}

impl View for RsaNumbers {
    type V = RsaNumbersModel;

    open spec fn view(&self) -> RsaNumbersModel {
        RsaNumbersModel {
            modulus: self.modulus@,
            public_exponent: self.public_exponent@,
            private_exponent: self.private_exponent@,
            first_prime: self.first_prime@,
            second_prime: self.second_prime@,
        }
    }
}

/// What `ssh_key` reads off the RSA keypair of the OpenSSH text of a private
/// key, or `None` where it reads no RSA keypair: the modulus, the public
/// exponent, the private exponent, the first prime and the second prime,
/// each most significant byte first and without the zero that marks it as
/// positive. A number that is not positive is read as empty.
pub uninterp spec fn openssh_rsa_numbers(pem: Seq<char>) -> Option<
    (Seq<u8>, Seq<u8>, Seq<u8>, Seq<u8>, Seq<u8>),
>;

/// The numbers of the RSA keypair of an OpenSSH text, or `None` where the
/// text holds none.
pub open spec fn openssh_rsa_keypair(pem: Seq<char>) -> Option<RsaNumbersModel> {
    match openssh_rsa_numbers(pem) {
        Some((modulus, public_exponent, private_exponent, first_prime, second_prime)) => Some(
            RsaNumbersModel {
                modulus,
                public_exponent,
                private_exponent,
                first_prime,
                second_prime,
            },
        ),
        None => None,
    }
}

/// The facts of the key of an OpenSSH text, or `None` where the text cannot
/// be parsed. A key without an RSA keypair has an empty modulus.
pub open spec fn openssh_key_facts(pem: Seq<char>) -> Option<KeyFactsModel> {
    match openssh_key_outline(pem) {
        Some((algorithm, encrypted, public_blob)) => Some(
            KeyFactsModel {
                algorithm,
                encrypted,
                rsa_modulus: match openssh_rsa_keypair(pem) {
                    Some(numbers) => numbers.modulus,
                    None => Seq::<u8>::empty(),
                },
                public_blob,
            },
        ),
        None => None,
    }
}

/// The number of bits of a byte: the place of its highest bit that is set,
/// counted from one, and zero for the byte zero.
pub open spec fn byte_bits(byte: u8) -> nat {
    if byte >= 128 {
        8
    } else if byte >= 64 {
        7
    } else if byte >= 32 {
        6
    } else if byte >= 16 {
        5
    } else if byte >= 8 {
        4
    } else if byte >= 4 {
        3
    } else if byte >= 2 {
        2
    } else if byte >= 1 {
        1
    } else {
        0
    }
}

/// The value of a number that is written most significant byte first.
pub open spec fn big_endian(number: Seq<u8>) -> nat
    decreases number.len(),
{
    if number.len() == 0 {
        0
    } else {
        (number[0] as nat) * pow2(8 * number.skip(1).len()) + big_endian(number.skip(1))
    }
}

/// The number of bits of a number that is written most significant byte
/// first: leading zero bytes do not count, and the first byte that is not
/// zero counts from its highest bit that is set.
pub open spec fn bit_length(number: Seq<u8>) -> nat
    decreases number.len(),
{
    if number.len() == 0 {
        0
    } else if number[0] == 0 {
        bit_length(number.skip(1))
    } else {
        ((number.len() - 1) * 8 + byte_bits(number[0])) as nat
    }
}

/// The raw Ed25519 signature that `ssh_key` makes over a message with the key
/// of an OpenSSH text, or `None` where it cannot parse the text or cannot
/// sign.
pub uninterp spec fn ed25519_signature(pem: Seq<char>, message: Seq<u8>) -> Option<Seq<u8>>;

/// The raw RSASSA-PKCS1-v1_5 signature with SHA-512 that `rsa` makes over a
/// message with the key of the given modulus, public exponent, private
/// exponent and two primes, each most significant byte first, or `None`
/// where it refuses the numbers or cannot sign.
pub uninterp spec fn rsa_sha512_signature(
    modulus: Seq<u8>,
    public_exponent: Seq<u8>,
    private_exponent: Seq<u8>,
    first_prime: Seq<u8>,
    second_prime: Seq<u8>,
    message: Seq<u8>,
) -> Option<Seq<u8>>;

/// The raw RSA signature over a message with a keypair: the prime with more
/// bits is handed over first, whichever way the keypair holds them.
pub open spec fn rsa_signature(numbers: RsaNumbersModel, message: Seq<u8>) -> Option<Seq<u8>> {
    if bit_length(numbers.first_prime) >= bit_length(numbers.second_prime) {
        rsa_sha512_signature(
            numbers.modulus,
            numbers.public_exponent,
            numbers.private_exponent,
            numbers.first_prime,
            numbers.second_prime,
            message,
        )
    } else {
        rsa_sha512_signature(
            numbers.modulus,
            numbers.public_exponent,
            numbers.private_exponent,
            numbers.second_prime,
            numbers.first_prime,
            message,
        )
    }
}

/// The raw signature over a message with the key of an OpenSSH text, for the
/// algorithm of the key.
pub open spec fn openssh_signature(algorithm: KeyAlgorithm, pem: Seq<char>, message: Seq<u8>)
    -> Option<Seq<u8>> {
    match algorithm {
        KeyAlgorithm::Ed25519 => ed25519_signature(pem, message),
        KeyAlgorithm::Rsa => match openssh_rsa_keypair(pem) {
            Some(numbers) => rsa_signature(numbers, message),
            None => None,
        },
    }
}

/// Whether a raw signature has the length that its algorithm fixes: an
/// Ed25519 signature has 64 bytes.
pub open spec fn signature_sized(algorithm: KeyAlgorithm, raw: Seq<u8>) -> bool {
    algorithm == KeyAlgorithm::Ed25519 ==> raw.len() == ED25519_SIGNATURE_LEN
}

/// Whether `ssh_key` accepts a signature in SSH wire encoding over a message
/// under a public key in SSH wire encoding.
pub uninterp spec fn ssh_signature_valid(public_key: Seq<u8>, message: Seq<u8>, signature: Seq<u8>)
    -> bool;

impl View for KeyFacts {
    type V = KeyFactsModel;

    open spec fn view(&self) -> KeyFactsModel {
        KeyFactsModel {
            algorithm: self.algorithm,
            encrypted: self.encrypted,
            rsa_modulus: self.rsa_modulus@,
            public_blob: self.public_blob@,
        }
    }
}

/// Calls `PrivateKey::from_openssh` of `ssh_key` and reads off the parsed
/// key: `algorithm`, `is_encrypted`, and `public_key().to_bytes()`. The
/// contract names what is read; an outside error becomes `None`.
#[verifier::external_body]
fn outline_openssh(pem: &str) -> (outline: Option<(AlgorithmKind, bool, Vec<u8>)>)
    ensures
        match outline {
            Some((algorithm, encrypted, blob)) => openssh_key_outline(pem@) == Some(
                (algorithm, encrypted, blob@),
            ),
            None => openssh_key_outline(pem@) is None,
        },
{
    let key = ssh_key::PrivateKey::from_openssh(pem).ok()?;
    let algorithm = match key.algorithm() {
        ssh_key::Algorithm::Ed25519 => AlgorithmKind::Ed25519,
        ssh_key::Algorithm::Rsa { .. } => AlgorithmKind::Rsa,
        _ => AlgorithmKind::Other,
    };
    Some((algorithm, key.is_encrypted(), key.public_key().to_bytes().ok()?))
}

/// Calls `PrivateKey::from_openssh` of `ssh_key` and reads the RSA keypair
/// of the parsed key: each of its numbers as `Mpint::as_positive_bytes` gives
/// it. The contract names what is read; an outside error, and a key without
/// an RSA keypair, become `None`.
#[verifier::external_body]
fn read_rsa_openssh(pem: &str) -> (numbers: Option<RsaNumbers>)
    ensures
        match numbers {
            Some(read) => openssh_rsa_numbers(pem@) == Some(
                (
                    read.modulus@,
                    read.public_exponent@,
                    read.private_exponent@,
                    read.first_prime@,
                    read.second_prime@,
                ),
            ),
            None => openssh_rsa_numbers(pem@) is None,
        },
{
    let key = ssh_key::PrivateKey::from_openssh(pem).ok()?;
    let pair = key.key_data().rsa()?;
    let bytes = |number: &ssh_key::Mpint| number.as_positive_bytes().map_or(Vec::new(), <[u8]>::to_vec);
    Some(
        RsaNumbers {
            modulus: bytes(&pair.public.n),
            public_exponent: bytes(&pair.public.e),
            private_exponent: bytes(&pair.private.d),
            first_prime: bytes(&pair.private.p),
            second_prime: bytes(&pair.private.q),
        },
    )
}

/// Calls `Zeroize::zeroize` of `zeroize` on a byte vector. As its
/// documentation says, the bytes are overwritten with zeros, and the vector
/// is left empty.
#[verifier::external_body]
fn wipe_bytes(bytes: &mut Vec<u8>)
    ensures
        final(bytes)@.len() == 0,
    opens_invariants none
    no_unwind
{
    zeroize::Zeroize::zeroize(bytes);
}

impl RsaNumbers {
    /// Overwrites the private exponent and the primes with zeros, and leaves
    /// them empty. The modulus and the public exponent stay.
    pub fn wipe(&mut self)
        ensures
            final(self).modulus == old(self).modulus,
            final(self).public_exponent == old(self).public_exponent,
            final(self).private_exponent@.len() == 0,
            final(self).first_prime@.len() == 0,
            final(self).second_prime@.len() == 0,
        opens_invariants none
        no_unwind
    {
        wipe_bytes(&mut self.private_exponent);
        wipe_bytes(&mut self.first_prime);
        wipe_bytes(&mut self.second_prime);
    }
}

impl Drop for RsaNumbers {
    /// The private numbers are overwritten with zeros before their place is
    /// given up.
    fn drop(&mut self)
        ensures
            final(self).private_exponent@.len() == 0,
            final(self).first_prime@.len() == 0,
            final(self).second_prime@.len() == 0,
        opens_invariants none
        no_unwind
    {
        self.wipe();
    }
}

/// Reads the facts of the key of an OpenSSH text.
fn describe_openssh(pem: &str) -> (facts: Option<KeyFacts>)
    ensures
        match facts {
            Some(read) => openssh_key_facts(pem@) == Some(read@),
            None => openssh_key_facts(pem@) is None,
        },
{
    let (algorithm, encrypted, public_blob) = outline_openssh(pem)?;
    let rsa_modulus = match read_rsa_openssh(pem) {
        Some(numbers) => slice_to_vec(numbers.modulus.as_slice()),
        None => Vec::new(),
    };
    Some(KeyFacts { algorithm, encrypted, rsa_modulus, public_blob })
}

/// Calls `PrivateKey::from_openssh` of `ssh_key` and `Signer::try_sign` on
/// the Ed25519 keypair of the parsed key. The contract names the raw bytes
/// of the signature, and claims that there are 64 of them, the size of an
/// Ed25519 signature; an outside error, and a key of another kind, become
/// `None`.
#[verifier::external_body]
fn sign_ed25519_openssh(pem: &str, message: &[u8]) -> (signature: Option<Vec<u8>>)
    ensures
        match signature {
            Some(raw) => ed25519_signature(pem@, message@) == Some(raw@) && raw@.len()
                == ED25519_SIGNATURE_LEN,
            None => ed25519_signature(pem@, message@) is None,
        },
{
    let key = ssh_key::PrivateKey::from_openssh(pem).ok()?;
    let signature = key.key_data().ed25519()?.try_sign(message).ok()?;
    Some(signature.as_bytes().to_vec())
}

/// Calls `RsaPrivateKey::from_components` of `rsa` with the numbers, and
/// `Signer::try_sign` of its PKCS#1 v1.5 signing key with SHA-512. The
/// contract names the raw bytes of the signature; an outside error becomes
/// `None`. The signing of `rsa` adds the first prime to a difference until it
/// is positive, once for every time that the first prime goes into the
/// second: `requires` asks for a first prime of no fewer bits than the
/// second, with which it adds at most twice.
#[verifier::external_body]
fn sign_rsa_sha512(
    modulus: &[u8],
    public_exponent: &[u8],
    private_exponent: &[u8],
    first_prime: &[u8],
    second_prime: &[u8],
    message: &[u8],
) -> (signature: Option<Vec<u8>>)
    requires
        bit_length(first_prime@) >= bit_length(second_prime@),
    ensures
        signature_view(signature) == rsa_sha512_signature(
            modulus@,
            public_exponent@,
            private_exponent@,
            first_prime@,
            second_prime@,
            message@,
        ),
{
    let private = rsa::RsaPrivateKey::from_components(
        rsa::BigUint::from_bytes_be(modulus),
        rsa::BigUint::from_bytes_be(public_exponent),
        rsa::BigUint::from_bytes_be(private_exponent),
        vec![rsa::BigUint::from_bytes_be(first_prime), rsa::BigUint::from_bytes_be(second_prime)],
    ).ok()?;
    let signer = rsa::pkcs1v15::SigningKey::<sha2::Sha512>::new(private);
    Some(SignatureEncoding::to_vec(&signer.try_sign(message).ok()?))
}

/// A signature that may be missing, as a sequence of bytes.
pub open spec fn signature_view(signature: Option<Vec<u8>>) -> Option<Seq<u8>> {
    match signature {
        Some(raw) => Some(raw@),
        None => None,
    }
}

/// Calls `PublicKey::from_bytes` and `Signature::try_from` of `ssh_key`, and
/// `Verifier::verify` on the two. The contract names the verdict; an outside
/// error is a signature that is not accepted.
#[verifier::external_body]
fn verify_ssh_signature(public_key: &[u8], message: &[u8], signature: &[u8]) -> (valid: bool)
    ensures
        valid == ssh_signature_valid(public_key@, message@, signature@),
{
    match (ssh_key::PublicKey::from_bytes(public_key), ssh_key::Signature::try_from(signature)) {
        (Ok(key), Ok(signature)) => Verifier::verify(&key, message, &signature).is_ok(),
        _ => false,
    }
}

/// Whether a key with these facts is accepted, and for which algorithm: an
/// Ed25519 key, or an RSA key whose modulus has at least 2048 bits, with a
/// readable private part.
pub open spec fn accepted(facts: KeyFactsModel) -> Result<KeyAlgorithm, KeyError> {
    match facts.algorithm {
        AlgorithmKind::Ed25519 => if facts.encrypted {
            Err(KeyError::MissingEd25519)
        } else {
            Ok(KeyAlgorithm::Ed25519)
        },
        AlgorithmKind::Rsa => if facts.encrypted {
            Err(KeyError::MissingRsa)
        } else if bit_length(facts.rsa_modulus) < MIN_RSA_KEY_BITS {
            Err(KeyError::RsaTooSmall)
        } else {
            Ok(KeyAlgorithm::Rsa)
        },
        AlgorithmKind::Other => Err(KeyError::Unsupported),
    }
}

/// Whether the OpenSSH text of a key is accepted, and for which algorithm.
pub open spec fn accepted_text(pem: Seq<char>) -> Result<KeyAlgorithm, KeyError> {
    match openssh_key_facts(pem) {
        Some(facts) => accepted(facts),
        None => Err(KeyError::Malformed),
    }
}

/// Key parsing: an RSA key whose modulus is shorter than 2048 bits is
/// rejected, and a key is accepted exactly where its private part can be
/// read and it is an Ed25519 key, or an RSA key of at least 2048 bits,
/// whatever its primes.
pub proof fn lemma_small_rsa_rejected(facts: KeyFactsModel)
    ensures
        facts.algorithm == AlgorithmKind::Rsa && bit_length(facts.rsa_modulus) < 2048
            ==> accepted(facts) is Err,
        accepted(facts) is Ok <==> !facts.encrypted && (facts.algorithm == AlgorithmKind::Ed25519
            || (facts.algorithm == AlgorithmKind::Rsa && bit_length(facts.rsa_modulus) >= 2048)),
        accepted(facts) == Ok::<KeyAlgorithm, KeyError>(KeyAlgorithm::Rsa) <==> !facts.encrypted
            && facts.algorithm == AlgorithmKind::Rsa && bit_length(facts.rsa_modulus) >= 2048,
{
}

/// The highest bit of a byte: a byte other than zero is at least two to the
/// power of its number of bits less one, and below two to that power.
pub proof fn lemma_byte_bits(byte: u8)
    ensures
        byte > 0 ==> 1 <= byte_bits(byte) <= 8 && pow2((byte_bits(byte) - 1) as nat) <= byte
            < pow2(byte_bits(byte)),
        byte == 0 ==> byte_bits(byte) == 0,
{
    lemma2_to64();
}

/// A number of so many bytes is below two to the power of eight times as
/// many.
pub proof fn lemma_big_endian_bound(number: Seq<u8>)
    ensures
        big_endian(number) < pow2(8 * number.len()),
    decreases number.len(),
{
    lemma2_to64();
    if number.len() > 0 {
        let rest = number.skip(1);
        let unit = pow2(8 * rest.len());
        lemma_big_endian_bound(rest);
        lemma_pow2_adds(8, 8 * rest.len());
        assert(8 + 8 * rest.len() == 8 * number.len());
        assert(number[0] * unit + unit <= 256 * unit) by (nonlinear_arith)
            requires
                number[0] <= 255,
                unit >= 0,
        ;
    }
}

/// The number of bits is that of the value: a number is zero exactly where
/// it has no bits, and a number of `b` bits, `b` above zero, is at least two
/// to the power of `b - 1` and below two to the power of `b`.
pub proof fn lemma_bit_length(number: Seq<u8>)
    ensures
        bit_length(number) == 0 <==> big_endian(number) == 0,
        bit_length(number) > 0 ==> pow2((bit_length(number) - 1) as nat) <= big_endian(number)
            < pow2(bit_length(number)),
    decreases number.len(),
{
    if number.len() > 0 {
        let rest = number.skip(1);
        let unit = pow2(8 * rest.len());
        lemma_pow2_pos(8 * rest.len());
        if number[0] == 0 {
            lemma_bit_length(rest);
            assert(0 * unit == 0);
        } else {
            let lead = byte_bits(number[0]);
            lemma_byte_bits(number[0]);
            lemma_big_endian_bound(rest);
            lemma_pow2_adds((lead - 1) as nat, 8 * rest.len());
            lemma_pow2_adds(lead, 8 * rest.len());
            assert(bit_length(number) == 8 * rest.len() + lead);
            let low = pow2((lead - 1) as nat);
            let high = pow2(lead);
            lemma_pow2_pos((lead - 1) as nat);
            assert(low * unit > 0) by (nonlinear_arith)
                requires
                    low > 0,
                    unit > 0,
            ;
            assert(low * unit <= number[0] * unit) by (nonlinear_arith)
                requires
                    low <= number[0],
                    unit >= 0,
            ;
            assert(number[0] * unit + unit <= high * unit) by (nonlinear_arith)
                requires
                    number[0] + 1 <= high,
                    unit >= 0,
            ;
        }
    }
}

/// A number of no fewer bits than another is at least half of it: the other
/// goes into its double.
pub proof fn lemma_more_bits(larger: Seq<u8>, smaller: Seq<u8>)
    requires
        bit_length(larger) >= bit_length(smaller),
    ensures
        big_endian(smaller) <= 2 * big_endian(larger),
{
    lemma_bit_length(larger);
    lemma_bit_length(smaller);
    let more = bit_length(larger);
    let fewer = bit_length(smaller);
    if fewer > 0 {
        lemma_pow2_unfold(more);
        if fewer < more {
            lemma_pow2_strictly_increases(fewer, more);
        }
    }
}

/// The number of bits of a byte.
pub fn count_byte_bits(byte: u8) -> (bits: u8)
    ensures
        bits == byte_bits(byte),
{
    if byte >= 128 {
        8
    } else if byte >= 64 {
        7
    } else if byte >= 32 {
        6
    } else if byte >= 16 {
        5
    } else if byte >= 8 {
        4
    } else if byte >= 4 {
        3
    } else if byte >= 2 {
        2
    } else if byte >= 1 {
        1
    } else {
        0
    }
}

/// The number of bits of a number that is written most significant byte
/// first.
pub fn count_bits(number: &[u8]) -> (bits: u128)
    ensures
        bits == bit_length(number@),
{
    let mut i: usize = 0;
    assert(number@.skip(0) =~= number@);
    while i < number.len() && number[i] == 0
        invariant
            i <= number@.len(),
            bit_length(number@) == bit_length(number@.skip(i as int)),
        decreases number@.len() - i,
    {
        assert(number@.skip(i as int).skip(1) =~= number@.skip(i + 1));
        i += 1;
    }
    if i == number.len() {
        return 0;
    }
    let rest: u128 = (number.len() - i - 1) as u128;
    let lead: u128 = count_byte_bits(number[i]) as u128;
    rest * 8 + lead
}

/// Decides whether a key with these facts is accepted.
pub fn classify_key(facts: &KeyFacts) -> (verdict: Result<KeyAlgorithm, KeyError>)
    ensures
        verdict == accepted(facts@),
{
    match facts.algorithm {
        AlgorithmKind::Ed25519 => if facts.encrypted {
            Err(KeyError::MissingEd25519)
        } else {
            Ok(KeyAlgorithm::Ed25519)
        },
        AlgorithmKind::Rsa => if facts.encrypted {
            Err(KeyError::MissingRsa)
        } else if count_bits(facts.rsa_modulus.as_slice()) < MIN_RSA_KEY_BITS as u128 {
            Err(KeyError::RsaTooSmall)
        } else {
            Ok(KeyAlgorithm::Rsa)
        },
        AlgorithmKind::Other => Err(KeyError::Unsupported),
    }
}

/// Signs a message with an RSA keypair: the prime with more bits is handed
/// over first, whichever way the keypair holds them.
pub fn sign_rsa(numbers: &RsaNumbers, message: &[u8]) -> (signature: Option<Vec<u8>>)
    ensures
        signature_view(signature) == rsa_signature(numbers@, message@),
{
    if count_bits(numbers.first_prime.as_slice()) >= count_bits(numbers.second_prime.as_slice()) {
        sign_rsa_sha512(
            numbers.modulus.as_slice(),
            numbers.public_exponent.as_slice(),
            numbers.private_exponent.as_slice(),
            numbers.first_prime.as_slice(),
            numbers.second_prime.as_slice(),
            message,
        )
    } else {
        sign_rsa_sha512(
            numbers.modulus.as_slice(),
            numbers.public_exponent.as_slice(),
            numbers.private_exponent.as_slice(),
            numbers.second_prime.as_slice(),
            numbers.first_prime.as_slice(),
            message,
        )
    }
}

impl KeyAlgorithm {
    /// The identifier of the public key algorithm.
    pub open spec fn public_name(self) -> Seq<char> {
        match self {
            KeyAlgorithm::Ed25519 => "ssh-ed25519"@,
            KeyAlgorithm::Rsa => "ssh-rsa"@,
        }
    }

    /// The tag of the signatures that the agent makes with the algorithm.
    pub open spec fn signature_name(self) -> Seq<char> {
        match self {
            KeyAlgorithm::Ed25519 => "ssh-ed25519"@,
            KeyAlgorithm::Rsa => "rsa-sha2-512"@,
        }
    }

    /// The identifier of the public key algorithm.
    pub fn public_tag(&self) -> (name: &'static str)
        ensures
            name@ == self.public_name(),
    {
        match self {
            KeyAlgorithm::Ed25519 => "ssh-ed25519",
            KeyAlgorithm::Rsa => "ssh-rsa",
        }
    }

    /// The tag of the signatures that the agent makes with the algorithm.
    pub fn signature_tag(&self) -> (name: &'static str)
        ensures
            name@ == self.signature_name(),
    {
        match self {
            KeyAlgorithm::Ed25519 => "ssh-ed25519",
            KeyAlgorithm::Rsa => "rsa-sha2-512",
        }
    }
}

impl KeyError {
    /// What the error says.
    pub open spec fn message_text(self) -> Seq<char> {
        match self {
            KeyError::Malformed => "Failed to parse key"@,
            KeyError::MissingEd25519 => "Failed to parse ed25519 key"@,
            KeyError::MissingRsa => "Failed to parse RSA key"@,
            KeyError::RsaTooSmall => "RSA key is shorter than 2048 bits"@,
            KeyError::Unsupported => "Unsupported key type"@,
        }
    }

    /// What the error says.
    pub fn message(&self) -> (text: String)
        ensures
            text@ == self.message_text(),
    {
        match self {
            KeyError::Malformed => "Failed to parse key".to_owned(),
            KeyError::MissingEd25519 => "Failed to parse ed25519 key".to_owned(),
            KeyError::MissingRsa => "Failed to parse RSA key".to_owned(),
            KeyError::RsaTooSmall => "RSA key is shorter than 2048 bits".to_owned(),
            KeyError::Unsupported => "Unsupported key type".to_owned(),
        }
    }
}

impl PrivateKey {
    /// The algorithm of the key.
    pub open spec fn algorithm(&self) -> KeyAlgorithm {
        match self {
            PrivateKey::Ed25519(_) => KeyAlgorithm::Ed25519,
            PrivateKey::Rsa(_) => KeyAlgorithm::Rsa,
        }
    }

    /// The OpenSSH text of the key.
    pub open spec fn pem(&self) -> Seq<char> {
        match self {
            PrivateKey::Ed25519(pem) => pem@,
            PrivateKey::Rsa(pem) => pem@,
        }
    }

    /// The algorithm of the key.
    pub fn get_algorithm(&self) -> (algorithm: KeyAlgorithm)
        ensures
            algorithm == self.algorithm(),
    {
        match self {
            PrivateKey::Ed25519(_) => KeyAlgorithm::Ed25519,
            PrivateKey::Rsa(_) => KeyAlgorithm::Rsa,
        }
    }

    /// The OpenSSH text of the key.
    pub fn as_openssh(&self) -> (pem: &str)
        ensures
            pem@ == self.pem(),
    {
        match self {
            PrivateKey::Ed25519(pem) => pem.as_str(),
            PrivateKey::Rsa(pem) => pem.as_str(),
        }
    }

    /// Reads an OpenSSH private key. The key is accepted where it is an
    /// Ed25519 key or an RSA key of at least 2048 bits, not protected by a
    /// passphrase; every other key is refused, each with its error.
    pub fn from_openssh(pem: &str) -> (key: Result<PrivateKey, KeyError>)
        ensures
            match key {
                Ok(read) => accepted_text(pem@) == Ok::<KeyAlgorithm, KeyError>(read.algorithm())
                    && read.pem() == pem@,
                Err(error) => accepted_text(pem@) == Err::<KeyAlgorithm, KeyError>(error),
            },
    {
        match describe_openssh(pem) {
            Some(facts) => match classify_key(&facts) {
                Ok(KeyAlgorithm::Ed25519) => Ok(PrivateKey::Ed25519(pem.to_owned())),
                Ok(KeyAlgorithm::Rsa) => Ok(PrivateKey::Rsa(pem.to_owned())),
                Err(error) => Err(error),
            },
            None => Err(KeyError::Malformed),
        }
    }

    /// Signs a message: the raw signature, or `None` where the key cannot
    /// sign. The numbers of an RSA key are read off its text, and the prime
    /// with more bits is handed over first. An Ed25519 signature has 64
    /// bytes.
    pub fn sign(&self, message: &[u8]) -> (signature: Option<Vec<u8>>)
        ensures
            match signature {
                Some(raw) => openssh_signature(self.algorithm(), self.pem(), message@) == Some(
                    raw@,
                ) && signature_sized(self.algorithm(), raw@),
                None => openssh_signature(self.algorithm(), self.pem(), message@) is None,
            },
    {
        match self {
            PrivateKey::Ed25519(pem) => sign_ed25519_openssh(pem.as_str(), message),
            PrivateKey::Rsa(pem) => match read_rsa_openssh(pem.as_str()) {
                Some(numbers) => sign_rsa(&numbers, message),
                None => None,
            },
        }
    }
}

impl PublicKey {
    /// The algorithm identifier.
    pub fn alg(&self) -> (alg: &str)
        ensures
            alg@ == self.alg@,
    {
        self.alg.as_str()
    }

    /// The binary blob of the public key data.
    pub fn blob(&self) -> (blob: &[u8])
        ensures
            blob@ == self.blob@,
    {
        self.blob.as_slice()
    }

    /// The key as text: the algorithm identifier, a space, and the blob in
    /// base64.
    pub open spec fn text(&self) -> Seq<char> {
        self.alg@ + " "@ + base64_standard_text(self.blob@)
    }

    /// Writes the key as text.
    pub fn to_text(&self) -> (text: String)
        requires
            base64_encodable(self.blob@),
        ensures
            text@ == self.text(),
    {
        let start = joined(self.alg.as_str(), " ");
        let encoded = encode_base64(self.blob.as_slice());
        joined(start.as_str(), encoded.as_str())
    }

    /// Whether a signature in SSH wire encoding over a message is valid
    /// under this key.
    pub fn verify(&self, message: &[u8], signature: &[u8]) -> (valid: bool)
        ensures
            valid == ssh_signature_valid(self.blob@, message@, signature@),
    {
        verify_ssh_signature(self.blob.as_slice(), message, signature)
    }
}

impl SSHKeyData {
    /// Creates a new `SSHKeyData` instance from its parts.
    pub fn new(private_key: PrivateKey, public_key: PublicKey, name: String, cipher_id: String) -> (key:
        SSHKeyData)
        ensures
            key.private_key_model() == private_key,
            key.public_key_model() == public_key,
            key.name_text() == name@,
            key.cipher_id_text() == cipher_id@,
    {
        SSHKeyData { private_key, public_key, name, cipher_id }
    }

    /// The private key.
    pub closed spec fn private_key_model(&self) -> PrivateKey {
        self.private_key
    }

    /// The public key.
    pub closed spec fn public_key_model(&self) -> PublicKey {
        self.public_key
    }

    /// The human-readable name.
    pub closed spec fn name_text(&self) -> Seq<char> {
        self.name@
    }

    /// The vault cipher ID.
    pub closed spec fn cipher_id_text(&self) -> Seq<char> {
        self.cipher_id@
    }

    /// Reads a key with its metadata. The public key is the one that the
    /// private key carries; the key is refused as `PrivateKey::from_openssh`
    /// refuses it.
    pub fn parse(pem: &str, name: &str, cipher_id: &str) -> (key: Result<SSHKeyData, KeyError>)
        ensures
            match key {
                Ok(read) => {
                    &&& accepted_text(pem@) == Ok::<KeyAlgorithm, KeyError>(
                        read.private_key_model().algorithm(),
                    )
                    &&& read.private_key_model().pem() == pem@
                    &&& read.public_key_model().alg@
                        == read.private_key_model().algorithm().public_name()
                    &&& Some(read.public_key_model().blob@) == public_blob_of(pem@)
                    &&& read.name_text() == name@
                    &&& read.cipher_id_text() == cipher_id@
                },
                Err(error) => accepted_text(pem@) == Err::<KeyAlgorithm, KeyError>(error),
            },
    {
        let facts = match describe_openssh(pem) {
            Some(facts) => facts,
            None => {
                return Err(KeyError::Malformed);
            },
        };
        let algorithm = match classify_key(&facts) {
            Ok(algorithm) => algorithm,
            Err(error) => {
                return Err(error);
            },
        };
        let private_key = match algorithm {
            KeyAlgorithm::Ed25519 => PrivateKey::Ed25519(pem.to_owned()),
            KeyAlgorithm::Rsa => PrivateKey::Rsa(pem.to_owned()),
        };
        let public_key = PublicKey {
            alg: algorithm.public_tag().to_owned(),
            blob: facts.public_blob,
        };
        Ok(
            SSHKeyData {
                private_key,
                public_key,
                name: name.to_owned(),
                cipher_id: cipher_id.to_owned(),
            },
        )
    }

    /// A reference to the public key.
    pub fn public_key(&self) -> (key: &PublicKey)
        ensures
            *key == self.public_key_model(),
    {
        &self.public_key
    }

    /// A reference to the private key.
    pub fn private_key(&self) -> (key: &PrivateKey)
        ensures
            *key == self.private_key_model(),
    {
        &self.private_key
    }

    /// A reference to the human-readable name for this key.
    pub fn name(&self) -> (name: &String)
        ensures
            name@ == self.name_text(),
    {
        &self.name
    }

    /// A reference to the cipher ID that links this key to a vault entry.
    pub fn cipher_id(&self) -> (cipher_id: &String)
        ensures
            cipher_id@ == self.cipher_id_text(),
    {
        &self.cipher_id
    }
}

/// The public key that the OpenSSH text of a private key carries, in SSH
/// wire encoding.
pub open spec fn public_blob_of(pem: Seq<char>) -> Option<Seq<u8>> {
    match openssh_key_facts(pem) {
        Some(facts) => Some(facts.public_blob),
        None => None,
    }
}

} // verus!
