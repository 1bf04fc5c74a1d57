//! The request to create a passkey, and its response.

use vstd::prelude::*;

use crate::autofill::optional_bytes;
use crate::autofill::optional_bytes_json;
use crate::autofill::optional_text;
use crate::autofill::optional_text_json;
use crate::autofill::write_optional_bytes;
use crate::autofill::write_optional_text;
use crate::autofill::BitwardenError;
use crate::autofill::Position;
use crate::autofill::UserVerification;
use crate::json::lemma_byte_lists_round_trip;
use crate::json::lemma_bytes_round_trip;
use crate::json::lemma_find_member;
use crate::json::lemma_int32_list_round_trip;
use crate::json::Json;
use crate::json::JsonValue;
use crate::json::ObjectWriter;

verus! {

/// Request to create a credential.
#[derive(Debug, Clone, PartialEq, Eq)]
pub struct PasskeyRegistrationRequest {
    /// Relying Party ID for the request.
    pub rp_id: String,
    /// The user name for the credential that was previously given to the OS.
    pub user_name: String,
    /// The user ID for the credential that was previously given to the OS.
    pub user_handle: Vec<u8>,
    /// SHA-256 hash of the `clientDataJSON` for the registration request.
    pub client_data_hash: Vec<u8>,
    /// User verification preference.
    pub user_verification: UserVerification,
    /// Supported key algorithms in COSE format.
    pub supported_algorithms: Vec<i32>,
    /// Coordinates of the center of the WebAuthn client's window, relative to
    /// the top-left point on the screen.
    pub window_xy: Position,
    /// List of excluded credential IDs.
    pub excluded_credentials: Vec<Vec<u8>>,
    /// Byte string representing the native OS window handle for the WebAuthn
    /// client, where the platform has one.
    pub client_window_handle: Option<Vec<u8>>,
    /// Native context required for callbacks to the OS, where the platform has
    /// one.
    pub context: Option<String>,
}

impl PasskeyRegistrationRequest {
    /// The members that are written, in order. An optional member that is
    /// absent is written as null.
    pub open spec fn members(&self) -> Seq<(Seq<char>, Json)> {
        seq![
            ("rpId"@, Json::Text(self.rp_id@)),
            ("userName"@, Json::Text(self.user_name@)),
            ("userHandle"@, Json::of_bytes(self.user_handle@)),
            ("clientDataHash"@, Json::of_bytes(self.client_data_hash@)),
            ("userVerification"@, Json::Text(self.user_verification.name())),
            ("supportedAlgorithms"@, Json::of_int32_list(self.supported_algorithms@)),
            ("windowXy"@, self.window_xy.json()),
            ("excludedCredentials"@, Json::of_byte_lists(self.excluded_credentials.deep_view())),
            ("clientWindowHandle"@, optional_bytes_json(self.client_window_handle)),
            ("context"@, optional_text_json(self.context)),
        ]
    }

    /// The object that writes the value.
    pub open spec fn json(&self) -> Json {
        Json::Object(self.members())
    }

    /// Whether a JSON value holds this value: each member is there with the
    /// right content, and an optional member may be missing or null.
    pub open spec fn describes(&self, value: Json) -> bool {
        &&& value.text_field("rpId"@) == Some(self.rp_id@)
        &&& value.text_field("userName"@) == Some(self.user_name@)
        &&& value.bytes_field("userHandle"@) == Some(self.user_handle@)
        &&& value.bytes_field("clientDataHash"@) == Some(self.client_data_hash@)
        &&& value.text_field("userVerification"@) == Some(self.user_verification.name())
        &&& value.int32_list_field("supportedAlgorithms"@) == Some(self.supported_algorithms@)
        &&& value.member("windowXy"@) is Some
        &&& self.window_xy.describes(value.member("windowXy"@)->Some_0)
        &&& value.byte_lists_field("excludedCredentials"@) == Some(
            self.excluded_credentials.deep_view(),
        )
        &&& value.optional_bytes_field("clientWindowHandle"@) == Some(
            optional_bytes(self.client_window_handle),
        )
        &&& value.optional_text_field("context"@) == Some(
            optional_text(self.context),
        )
    }

    /// Writes the value.
    pub fn to_json(&self) -> (value: JsonValue)
        ensures
            value@ == self.json(),
    {
        let mut writer = ObjectWriter::new();
        writer.field("rpId", JsonValue::of_text(self.rp_id.as_str()));
        writer.field("userName", JsonValue::of_text(self.user_name.as_str()));
        writer.field("userHandle", JsonValue::of_bytes(self.user_handle.as_slice()));
        writer.field("clientDataHash", JsonValue::of_bytes(self.client_data_hash.as_slice()));
        writer.field("userVerification", JsonValue::of_text(self.user_verification.as_str()));
        writer.field(
            "supportedAlgorithms",
            JsonValue::of_i32_list(self.supported_algorithms.as_slice()),
        );
        writer.field("windowXy", self.window_xy.to_json());
        writer.field("excludedCredentials", JsonValue::of_byte_lists(&self.excluded_credentials));
        writer.field("clientWindowHandle", write_optional_bytes(&self.client_window_handle));
        writer.field("context", write_optional_text(&self.context));
        assert(writer.written() =~= self.members());
        writer.finish()
    }

    /// Reads a value. Members that are not known are passed over.
    pub fn from_json(value: &JsonValue) -> (read: Option<PasskeyRegistrationRequest>)
        ensures
            match read {
                Some(found) => found.describes(value@),
                None => forall|any: PasskeyRegistrationRequest| !any.describes(value@),
            },
    {
        let rp_id = value.text_field("rpId")?;
        let user_name = value.text_field("userName")?;
        let user_handle = value.bytes_field("userHandle")?;
        let client_data_hash = value.bytes_field("clientDataHash")?;
        let user_verification_name = value.text_field("userVerification")?;
        let user_verification = UserVerification::from_name(user_verification_name.as_str())?;
        let supported_algorithms = value.i32_list_field("supportedAlgorithms")?;
        let window_xy = Position::from_json(value.get("windowXy")?)?;
        let excluded_credentials = value.byte_lists_field("excludedCredentials")?;
        let client_window_handle = value.optional_bytes_field("clientWindowHandle")?;
        let context = value.optional_text_field("context")?;
        Some(
            PasskeyRegistrationRequest {
                rp_id,
                user_name,
                user_handle,
                client_data_hash,
                user_verification,
                supported_algorithms,
                window_xy,
                excluded_credentials,
                client_window_handle,
                context,
            },
        )
    }

    /// No two members have the same name.
    proof fn lemma_names_distinct()
        ensures
            "rpId"@ != "userName"@,
            "rpId"@ != "userHandle"@,
            "rpId"@ != "clientDataHash"@,
            "rpId"@ != "userVerification"@,
            "rpId"@ != "supportedAlgorithms"@,
            "rpId"@ != "windowXy"@,
            "rpId"@ != "excludedCredentials"@,
            "rpId"@ != "clientWindowHandle"@,
            "rpId"@ != "context"@,
            "userName"@ != "userHandle"@,
            "userName"@ != "clientDataHash"@,
            "userName"@ != "userVerification"@,
            "userName"@ != "supportedAlgorithms"@,
            "userName"@ != "windowXy"@,
            "userName"@ != "excludedCredentials"@,
            "userName"@ != "clientWindowHandle"@,
            "userName"@ != "context"@,
            "userHandle"@ != "clientDataHash"@,
            "userHandle"@ != "userVerification"@,
            "userHandle"@ != "supportedAlgorithms"@,
            "userHandle"@ != "windowXy"@,
            "userHandle"@ != "excludedCredentials"@,
            "userHandle"@ != "clientWindowHandle"@,
            "userHandle"@ != "context"@,
            "clientDataHash"@ != "userVerification"@,
            "clientDataHash"@ != "supportedAlgorithms"@,
            "clientDataHash"@ != "windowXy"@,
            "clientDataHash"@ != "excludedCredentials"@,
            "clientDataHash"@ != "clientWindowHandle"@,
            "clientDataHash"@ != "context"@,
            "userVerification"@ != "supportedAlgorithms"@,
            "userVerification"@ != "windowXy"@,
            "userVerification"@ != "excludedCredentials"@,
            "userVerification"@ != "clientWindowHandle"@,
            "userVerification"@ != "context"@,
            "supportedAlgorithms"@ != "windowXy"@,
            "supportedAlgorithms"@ != "excludedCredentials"@,
            "supportedAlgorithms"@ != "clientWindowHandle"@,
            "supportedAlgorithms"@ != "context"@,
            "windowXy"@ != "excludedCredentials"@,
            "windowXy"@ != "clientWindowHandle"@,
            "windowXy"@ != "context"@,
            "excludedCredentials"@ != "clientWindowHandle"@,
            "excludedCredentials"@ != "context"@,
            "clientWindowHandle"@ != "context"@,
    {
        reveal_strlit("rpId");
        reveal_strlit("userName");
        reveal_strlit("userHandle");
        reveal_strlit("clientDataHash");
        reveal_strlit("userVerification");
        reveal_strlit("supportedAlgorithms");
        reveal_strlit("windowXy");
        reveal_strlit("excludedCredentials");
        reveal_strlit("clientWindowHandle");
        reveal_strlit("context");
        assert("rpId"@.len() != "userName"@.len());
        assert("rpId"@.len() != "userHandle"@.len());
        assert("rpId"@.len() != "clientDataHash"@.len());
        assert("rpId"@.len() != "userVerification"@.len());
        assert("rpId"@.len() != "supportedAlgorithms"@.len());
        assert("rpId"@.len() != "windowXy"@.len());
        assert("rpId"@.len() != "excludedCredentials"@.len());
        assert("rpId"@.len() != "clientWindowHandle"@.len());
        assert("rpId"@.len() != "context"@.len());
        assert("userName"@.len() != "userHandle"@.len());
        assert("userName"@.len() != "clientDataHash"@.len());
        assert("userName"@.len() != "userVerification"@.len());
        assert("userName"@.len() != "supportedAlgorithms"@.len());
        assert("userName"@[0] != "windowXy"@[0]);
        assert("userName"@.len() != "excludedCredentials"@.len());
        assert("userName"@.len() != "clientWindowHandle"@.len());
        assert("userName"@.len() != "context"@.len());
        assert("userHandle"@.len() != "clientDataHash"@.len());
        assert("userHandle"@.len() != "userVerification"@.len());
        assert("userHandle"@.len() != "supportedAlgorithms"@.len());
        assert("userHandle"@.len() != "windowXy"@.len());
        assert("userHandle"@.len() != "excludedCredentials"@.len());
        assert("userHandle"@.len() != "clientWindowHandle"@.len());
        assert("userHandle"@.len() != "context"@.len());
        assert("clientDataHash"@.len() != "userVerification"@.len());
        assert("clientDataHash"@.len() != "supportedAlgorithms"@.len());
        assert("clientDataHash"@.len() != "windowXy"@.len());
        assert("clientDataHash"@.len() != "excludedCredentials"@.len());
        assert("clientDataHash"@.len() != "clientWindowHandle"@.len());
        assert("clientDataHash"@.len() != "context"@.len());
        assert("userVerification"@.len() != "supportedAlgorithms"@.len());
        assert("userVerification"@.len() != "windowXy"@.len());
        assert("userVerification"@.len() != "excludedCredentials"@.len());
        assert("userVerification"@.len() != "clientWindowHandle"@.len());
        assert("userVerification"@.len() != "context"@.len());
        assert("supportedAlgorithms"@.len() != "windowXy"@.len());
        assert("supportedAlgorithms"@[0] != "excludedCredentials"@[0]);
        assert("supportedAlgorithms"@.len() != "clientWindowHandle"@.len());
        assert("supportedAlgorithms"@.len() != "context"@.len());
        assert("windowXy"@.len() != "excludedCredentials"@.len());
        assert("windowXy"@.len() != "clientWindowHandle"@.len());
        assert("windowXy"@.len() != "context"@.len());
        assert("excludedCredentials"@.len() != "clientWindowHandle"@.len());
        assert("excludedCredentials"@.len() != "context"@.len());
        assert("clientWindowHandle"@.len() != "context"@.len());
    }

    /// What is written is read back: a value describes the object that
    /// writes it.
    pub proof fn lemma_round_trip(&self)
        ensures
            self.describes(self.json()),
    {
        Self::lemma_names_distinct();
        let members = self.members();
        lemma_find_member(members, "rpId"@, 0);
        lemma_find_member(members, "userName"@, 1);
        lemma_find_member(members, "userHandle"@, 2);
        lemma_bytes_round_trip(self.user_handle@);
        lemma_find_member(members, "clientDataHash"@, 3);
        lemma_bytes_round_trip(self.client_data_hash@);
        lemma_find_member(members, "userVerification"@, 4);
        lemma_find_member(members, "supportedAlgorithms"@, 5);
        lemma_int32_list_round_trip(self.supported_algorithms@);
        lemma_find_member(members, "windowXy"@, 6);
        self.window_xy.lemma_round_trip();
        lemma_find_member(members, "excludedCredentials"@, 7);
        lemma_byte_lists_round_trip(self.excluded_credentials.deep_view());
        lemma_find_member(members, "clientWindowHandle"@, 8);
        if self.client_window_handle is Some {
            lemma_bytes_round_trip(self.client_window_handle->Some_0@);
        }
        lemma_find_member(members, "context"@, 9);
    }
}
/// Response for a passkey registration request.
#[derive(Debug, Clone, PartialEq, Eq)]
pub struct PasskeyRegistrationResponse {
    /// Relying Party ID.
    pub rp_id: String,
    /// SHA-256 hash of the `clientDataJSON` used in the registration.
    pub client_data_hash: Vec<u8>,
    /// The ID for the created credential.
    pub credential_id: Vec<u8>,
    /// WebAuthn attestation object.
    pub attestation_object: Vec<u8>,
}

impl PasskeyRegistrationResponse {
    /// The members that are written, in order. An optional member that is
    /// absent is written as null.
    pub open spec fn members(&self) -> Seq<(Seq<char>, Json)> {
        seq![
            ("rpId"@, Json::Text(self.rp_id@)),
            ("clientDataHash"@, Json::of_bytes(self.client_data_hash@)),
            ("credentialId"@, Json::of_bytes(self.credential_id@)),
            ("attestationObject"@, Json::of_bytes(self.attestation_object@)),
        ]
    }

    /// The object that writes the value.
    pub open spec fn json(&self) -> Json {
        Json::Object(self.members())
    }

    /// Whether a JSON value holds this value: each member is there with the
    /// right content, and an optional member may be missing or null.
    pub open spec fn describes(&self, value: Json) -> bool {
        &&& value.text_field("rpId"@) == Some(self.rp_id@)
        &&& value.bytes_field("clientDataHash"@) == Some(self.client_data_hash@)
        &&& value.bytes_field("credentialId"@) == Some(self.credential_id@)
        &&& value.bytes_field("attestationObject"@) == Some(self.attestation_object@)
    }

    /// Writes the value.
    pub fn to_json(&self) -> (value: JsonValue)
        ensures
            value@ == self.json(),
    {
        let mut writer = ObjectWriter::new();
        writer.field("rpId", JsonValue::of_text(self.rp_id.as_str()));
        writer.field("clientDataHash", JsonValue::of_bytes(self.client_data_hash.as_slice()));
        writer.field("credentialId", JsonValue::of_bytes(self.credential_id.as_slice()));
        writer.field("attestationObject", JsonValue::of_bytes(self.attestation_object.as_slice()));
        assert(writer.written() =~= self.members());
        writer.finish()
    }

    /// Reads a value. Members that are not known are passed over.
    pub fn from_json(value: &JsonValue) -> (read: Option<PasskeyRegistrationResponse>)
        ensures
            match read {
                Some(found) => found.describes(value@),
                None => forall|any: PasskeyRegistrationResponse| !any.describes(value@),
            },
    {
        let rp_id = value.text_field("rpId")?;
        let client_data_hash = value.bytes_field("clientDataHash")?;
        let credential_id = value.bytes_field("credentialId")?;
        let attestation_object = value.bytes_field("attestationObject")?;
        Some(
            PasskeyRegistrationResponse {
                rp_id,
                client_data_hash,
                credential_id,
                attestation_object,
            },
        )
    }

    /// No two members have the same name.
    proof fn lemma_names_distinct()
        ensures
            "rpId"@ != "clientDataHash"@,
            "rpId"@ != "credentialId"@,
            "rpId"@ != "attestationObject"@,
            "clientDataHash"@ != "credentialId"@,
            "clientDataHash"@ != "attestationObject"@,
            "credentialId"@ != "attestationObject"@,
    {
        reveal_strlit("rpId");
        reveal_strlit("clientDataHash");
        reveal_strlit("credentialId");
        reveal_strlit("attestationObject");
        assert("rpId"@.len() != "clientDataHash"@.len());
        assert("rpId"@.len() != "credentialId"@.len());
        assert("rpId"@.len() != "attestationObject"@.len());
        assert("clientDataHash"@.len() != "credentialId"@.len());
        assert("clientDataHash"@.len() != "attestationObject"@.len());
        assert("credentialId"@.len() != "attestationObject"@.len());
    }

    /// What is written is read back: a value describes the object that
    /// writes it.
    pub proof fn lemma_round_trip(&self)
        ensures
            self.describes(self.json()),
    {
        Self::lemma_names_distinct();
        let members = self.members();
        lemma_find_member(members, "rpId"@, 0);
        lemma_find_member(members, "clientDataHash"@, 1);
        lemma_bytes_round_trip(self.client_data_hash@);
        lemma_find_member(members, "credentialId"@, 2);
        lemma_bytes_round_trip(self.credential_id@);
        lemma_find_member(members, "attestationObject"@, 3);
        lemma_bytes_round_trip(self.attestation_object@);
    }
}
/// Callback to process a response to a passkey registration request.
pub trait PreparePasskeyRegistrationCallback {
    /// What the callback was told so far, in the order in which it was told:
    /// each response as `Ok`, each error as `Err`.
    spec fn told(&self) -> Seq<Result<PasskeyRegistrationResponse, BitwardenError>>;

    /// Function to call if a successful response is returned.
    fn on_complete(&mut self, credential: PasskeyRegistrationResponse)
        ensures
            final(self).told() == old(self).told().push(
                Ok::<PasskeyRegistrationResponse, BitwardenError>(credential),
            ),
    ;

    /// Function to call if an error response is returned.
    fn on_error(&mut self, error: BitwardenError)
        ensures
            final(self).told() == old(self).told().push(
                Err::<PasskeyRegistrationResponse, BitwardenError>(error),
            ),
    ;
}

} // verus!
