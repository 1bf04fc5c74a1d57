//! Generation of new SSH keys.

use ssh_key::rand_core::OsRng;
use vstd::prelude::*;

use crate::encoding::base64_encodable;
use crate::encoding::base64_standard_text;
use crate::encoding::base64_unpadded_text;
use crate::encoding::can_encode;
use crate::encoding::digest_fingerprint;
use crate::encoding::sha256_digest;
use crate::ssh_agent::crypto::accepted_text;
use crate::ssh_agent::crypto::public_blob_of;
use crate::ssh_agent::crypto::KeyAlgorithm;
use crate::ssh_agent::crypto::KeyError;
use crate::ssh_agent::crypto::SSHKeyData;
use crate::text::joined;
use crate::text::str_equal;

verus! {

/// A generated key, as text.
#[derive(Debug, Clone, PartialEq, Eq)]
pub struct SSHKey {
    /// The private key in OpenSSH format.
    pub private_key: String,
    /// The public key: the algorithm, a space, and the blob in base64.
    pub public_key: String,
    /// The name of the algorithm that was asked for.
    pub key_algorithm: String,
    /// `SHA256:` and the fingerprint of the public key.
    pub key_fingerprint: String,
}

/// The kinds of key that can be generated.
#[derive(Debug, Clone, Copy, PartialEq, Eq)]
pub enum KeyKind {
    Ed25519,
    Rsa { bits: usize },
}

/// Why no key was generated.
#[derive(Debug, Clone, Copy, PartialEq, Eq)]
pub enum GenerateError {
    /// The name is not that of a kind of key.
    UnsupportedAlgorithm,
    /// The key could not be generated or written.
    Failed,
    /// The generated key was refused when it was read back.
    Refused(KeyError),
}

impl KeyKind {
    /// Whether the kind is one that a name stands for: an Ed25519 key, or an
    /// RSA key of 2048, 3072 or 4096 bits.
    pub open spec fn is_named(self) -> bool {
        match self {
            KeyKind::Ed25519 => true,
            KeyKind::Rsa { bits } => bits == 2048 || bits == 3072 || bits == 4096,
        }
    }
}

/// The kind of key that a name stands for.
pub open spec fn named_kind(name: Seq<char>) -> Option<KeyKind> {
    if name == "ed25519"@ {
        Some(KeyKind::Ed25519)
    } else if name == "rsa2048"@ {
        Some(KeyKind::Rsa { bits: 2048 })
    } else if name == "rsa3072"@ {
        Some(KeyKind::Rsa { bits: 3072 })
    } else if name == "rsa4096"@ {
        Some(KeyKind::Rsa { bits: 4096 })
    } else {
        None
    }
}

/// The texts of a key whose private part has the given OpenSSH text and
/// whose public part is the given blob.
pub open spec fn key_texts(
    key: SSHKey,
    key_algorithm: Seq<char>,
    pem: Seq<char>,
    algorithm: KeyAlgorithm,
    blob: Seq<u8>,
) -> bool {
    &&& key.private_key@ == pem
    &&& key.public_key@ == algorithm.public_name() + " "@ + base64_standard_text(blob)
    &&& key.key_algorithm@ == key_algorithm
    &&& key.key_fingerprint@ == "SHA256:"@ + base64_unpadded_text(sha256_digest(blob))
}

/// Calls `PrivateKey::random` of `ssh_key` for an Ed25519 key, or
/// `RsaKeypair::random` and `PrivateKey::from` for an RSA key, with the
/// operating system's random generator, and writes the key with
/// `to_openssh`. The key is random: nothing is claimed of the text. It is
/// called for the kinds that have a name only.
#[verifier::external_body]
fn random_openssh(kind: KeyKind) -> (pem: Option<String>)
    requires
        kind.is_named(),
{
    let key = match kind {
        KeyKind::Ed25519 => ssh_key::PrivateKey::random(&mut OsRng, ssh_key::Algorithm::Ed25519).ok()?,
        KeyKind::Rsa { bits } => ssh_key::PrivateKey::from(
            ssh_key::private::RsaKeypair::random(&mut OsRng, bits).ok()?,
        ),
    };
    Some(key.to_openssh(ssh_key::LineEnding::LF).ok()?.to_string())
}

/// The kind of key that a name stands for.
pub fn key_kind(name: &str) -> (kind: Option<KeyKind>)
    ensures
        kind == named_kind(name@),
        kind matches Some(named) ==> named.is_named(),
{
    if str_equal(name, "ed25519") {
        Some(KeyKind::Ed25519)
    } else if str_equal(name, "rsa2048") {
        Some(KeyKind::Rsa { bits: 2048 })
    } else if str_equal(name, "rsa3072") {
        Some(KeyKind::Rsa { bits: 3072 })
    } else if str_equal(name, "rsa4096") {
        Some(KeyKind::Rsa { bits: 4096 })
    } else {
        None
    }
}

impl GenerateError {
    /// What the error says.
    pub open spec fn message_text(self) -> Seq<char> {
        match self {
            GenerateError::UnsupportedAlgorithm => "Unsupported key algorithm"@,
            GenerateError::Failed => "Failed to generate key"@,
            GenerateError::Refused(error) => error.message_text(),
        }
    }

    /// What the error says.
    pub fn message(&self) -> (text: String)
        ensures
            text@ == self.message_text(),
    {
        match self {
            GenerateError::UnsupportedAlgorithm => "Unsupported key algorithm".to_owned(),
            GenerateError::Failed => "Failed to generate key".to_owned(),
            GenerateError::Refused(error) => error.message(),
        }
    }
}

impl SSHKey {
    /// Describes a key by the OpenSSH text of its private part: the texts of
    /// the public key and of its fingerprint are derived from the public
    /// blob that the private key carries.
    pub fn from_openssh(key_algorithm: &str, pem: &str) -> (key: Result<SSHKey, GenerateError>)
        ensures
            match key {
                Ok(made) => accepted_text(pem@) is Ok && public_blob_of(pem@) is Some
                    && base64_encodable(public_blob_of(pem@)->Some_0) && key_texts(
                    made,
                    key_algorithm@,
                    pem@,
                    accepted_text(pem@)->Ok_0,
                    public_blob_of(pem@)->Some_0,
                ),
                Err(GenerateError::Refused(error)) => accepted_text(pem@) == Err::<
                    KeyAlgorithm,
                    KeyError,
                >(error),
                Err(GenerateError::Failed) => accepted_text(pem@) is Ok && public_blob_of(pem@)
                    is Some && !base64_encodable(public_blob_of(pem@)->Some_0),
                Err(GenerateError::UnsupportedAlgorithm) => false,
            },
    {
        let parsed = match SSHKeyData::parse(pem, "", "") {
            Ok(parsed) => parsed,
            Err(error) => {
                return Err(GenerateError::Refused(error));
            },
        };
        let public = parsed.public_key();
        if !can_encode(public.blob()) {
            return Err(GenerateError::Failed);
        }
        Ok(
            SSHKey {
                private_key: pem.to_owned(),
                public_key: public.to_text(),
                key_algorithm: key_algorithm.to_owned(),
                key_fingerprint: joined("SHA256:", digest_fingerprint(public.blob()).as_str()),
            },
        )
    }
}

/// Generates a key of the kind that the name stands for: `ed25519`,
/// `rsa2048`, `rsa3072` or `rsa4096`. Any other name is refused. The key is
/// random; the texts that describe it are those of `SSHKey::from_openssh`.
pub fn generate_keypair(key_algorithm: &str) -> (key: Result<SSHKey, GenerateError>)
    ensures
        match key {
            Ok(made) => named_kind(key_algorithm@) is Some && accepted_text(made.private_key@)
                is Ok && public_blob_of(made.private_key@) is Some && key_texts(
                made,
                key_algorithm@,
                made.private_key@,
                accepted_text(made.private_key@)->Ok_0,
                public_blob_of(made.private_key@)->Some_0,
            ),
            Err(GenerateError::UnsupportedAlgorithm) => named_kind(key_algorithm@) is None,
            Err(_) => named_kind(key_algorithm@) is Some,
        },
{
    let kind = match key_kind(key_algorithm) {
        Some(kind) => kind,
        None => {
            return Err(GenerateError::UnsupportedAlgorithm);
        },
    };
    let pem = match random_openssh(kind) {
        Some(pem) => pem,
        None => {
            return Err(GenerateError::Failed);
        },
    };
    SSHKey::from_openssh(key_algorithm, pem.as_str())
}

} // verus!
