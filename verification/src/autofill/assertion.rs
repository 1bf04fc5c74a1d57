//! Requests to assert a passkey, and their response.

use vstd::prelude::*;

use crate::autofill::optional_bytes;
use crate::autofill::optional_bytes_json;
use crate::autofill::optional_text;
use crate::autofill::optional_text_json;
use crate::autofill::write_optional_bytes;
use crate::autofill::write_optional_text;
use crate::autofill::BitwardenError;
use crate::autofill::Position;
use crate::autofill::UserVerification;
use crate::json::lemma_byte_lists_round_trip;
use crate::json::lemma_bytes_round_trip;
use crate::json::lemma_find_member;
use crate::json::lemma_int32_list_round_trip;
use crate::json::Json;
use crate::json::JsonValue;
use crate::json::ObjectWriter;

verus! {

/// Request to assert a credential.
#[derive(Debug, Clone, PartialEq, Eq)]
pub struct PasskeyAssertionRequest {
    /// Relying Party ID for the request.
    pub rp_id: String,
    /// SHA-256 hash of the `clientDataJSON` for the assertion request.
    pub client_data_hash: Vec<u8>,
    /// User verification preference.
    pub user_verification: UserVerification,
    /// List of allowed credential IDs.
    pub allowed_credentials: Vec<Vec<u8>>,
    /// Coordinates of the center of the WebAuthn client's window, relative to
    /// the top-left point on the screen.
    pub window_xy: Position,
    /// Byte string representing the native OS window handle for the WebAuthn
    /// client, where the platform has one.
    pub client_window_handle: Option<Vec<u8>>,
    /// Native context required for callbacks to the OS, where the platform has
    /// one.
    pub context: Option<String>,
}

impl PasskeyAssertionRequest {
    /// The members that are written, in order. An optional member that is
    /// absent is written as null.
    pub open spec fn members(&self) -> Seq<(Seq<char>, Json)> {
        seq![
            ("rpId"@, Json::Text(self.rp_id@)),
            ("clientDataHash"@, Json::of_bytes(self.client_data_hash@)),
            ("userVerification"@, Json::Text(self.user_verification.name())),
            ("allowedCredentials"@, Json::of_byte_lists(self.allowed_credentials.deep_view())),
            ("windowXy"@, self.window_xy.json()),
            ("clientWindowHandle"@, optional_bytes_json(self.client_window_handle)),
            ("context"@, optional_text_json(self.context)),
        ]
    }

    /// The object that writes the value.
    pub open spec fn json(&self) -> Json {
        Json::Object(self.members())
    }

    /// Whether a JSON value holds this value: each member is there with the
    /// right content, and an optional member may be missing or null.
    pub open spec fn describes(&self, value: Json) -> bool {
        &&& value.text_field("rpId"@) == Some(self.rp_id@)
        &&& value.bytes_field("clientDataHash"@) == Some(self.client_data_hash@)
        &&& value.text_field("userVerification"@) == Some(self.user_verification.name())
        &&& value.byte_lists_field("allowedCredentials"@) == Some(
            self.allowed_credentials.deep_view(),
        )
        &&& value.member("windowXy"@) is Some
        &&& self.window_xy.describes(value.member("windowXy"@)->Some_0)
        &&& value.optional_bytes_field("clientWindowHandle"@) == Some(
            optional_bytes(self.client_window_handle),
        )
        &&& value.optional_text_field("context"@) == Some(
            optional_text(self.context),
        )
    }

    /// Writes the value.
    pub fn to_json(&self) -> (value: JsonValue)
        ensures
            value@ == self.json(),
    {
        let mut writer = ObjectWriter::new();
        writer.field("rpId", JsonValue::of_text(self.rp_id.as_str()));
        writer.field("clientDataHash", JsonValue::of_bytes(self.client_data_hash.as_slice()));
        writer.field("userVerification", JsonValue::of_text(self.user_verification.as_str()));
        writer.field("allowedCredentials", JsonValue::of_byte_lists(&self.allowed_credentials));
        writer.field("windowXy", self.window_xy.to_json());
        writer.field("clientWindowHandle", write_optional_bytes(&self.client_window_handle));
        writer.field("context", write_optional_text(&self.context));
        assert(writer.written() =~= self.members());
        writer.finish()
    }

    /// Reads a value. Members that are not known are passed over.
    pub fn from_json(value: &JsonValue) -> (read: Option<PasskeyAssertionRequest>)
        ensures
            match read {
                Some(found) => found.describes(value@),
                None => forall|any: PasskeyAssertionRequest| !any.describes(value@),
            },
    {
        let rp_id = value.text_field("rpId")?;
        let client_data_hash = value.bytes_field("clientDataHash")?;
        let user_verification_name = value.text_field("userVerification")?;
        let user_verification = UserVerification::from_name(user_verification_name.as_str())?;
        let allowed_credentials = value.byte_lists_field("allowedCredentials")?;
        let window_xy = Position::from_json(value.get("windowXy")?)?;
        let client_window_handle = value.optional_bytes_field("clientWindowHandle")?;
        let context = value.optional_text_field("context")?;
        Some(
            PasskeyAssertionRequest {
                rp_id,
                client_data_hash,
                user_verification,
                allowed_credentials,
                window_xy,
                client_window_handle,
                context,
            },
        )
    }

    /// No two members have the same name.
    proof fn lemma_names_distinct()
        ensures
            "rpId"@ != "clientDataHash"@,
            "rpId"@ != "userVerification"@,
            "rpId"@ != "allowedCredentials"@,
            "rpId"@ != "windowXy"@,
            "rpId"@ != "clientWindowHandle"@,
            "rpId"@ != "context"@,
            "clientDataHash"@ != "userVerification"@,
            "clientDataHash"@ != "allowedCredentials"@,
            "clientDataHash"@ != "windowXy"@,
            "clientDataHash"@ != "clientWindowHandle"@,
            "clientDataHash"@ != "context"@,
            "userVerification"@ != "allowedCredentials"@,
            "userVerification"@ != "windowXy"@,
            "userVerification"@ != "clientWindowHandle"@,
            "userVerification"@ != "context"@,
            "allowedCredentials"@ != "windowXy"@,
            "allowedCredentials"@ != "clientWindowHandle"@,
            "allowedCredentials"@ != "context"@,
            "windowXy"@ != "clientWindowHandle"@,
            "windowXy"@ != "context"@,
            "clientWindowHandle"@ != "context"@,
    {
        reveal_strlit("rpId");
        reveal_strlit("clientDataHash");
        reveal_strlit("userVerification");
        reveal_strlit("allowedCredentials");
        reveal_strlit("windowXy");
        reveal_strlit("clientWindowHandle");
        reveal_strlit("context");
        assert("rpId"@.len() != "clientDataHash"@.len());
        assert("rpId"@.len() != "userVerification"@.len());
        assert("rpId"@.len() != "allowedCredentials"@.len());
        assert("rpId"@.len() != "windowXy"@.len());
        assert("rpId"@.len() != "clientWindowHandle"@.len());
        assert("rpId"@.len() != "context"@.len());
        assert("clientDataHash"@.len() != "userVerification"@.len());
        assert("clientDataHash"@.len() != "allowedCredentials"@.len());
        assert("clientDataHash"@.len() != "windowXy"@.len());
        assert("clientDataHash"@.len() != "clientWindowHandle"@.len());
        assert("clientDataHash"@.len() != "context"@.len());
        assert("userVerification"@.len() != "allowedCredentials"@.len());
        assert("userVerification"@.len() != "windowXy"@.len());
        assert("userVerification"@.len() != "clientWindowHandle"@.len());
        assert("userVerification"@.len() != "context"@.len());
        assert("allowedCredentials"@.len() != "windowXy"@.len());
        assert("allowedCredentials"@[0] != "clientWindowHandle"@[0]);
        assert("allowedCredentials"@.len() != "context"@.len());
        assert("windowXy"@.len() != "clientWindowHandle"@.len());
        assert("windowXy"@.len() != "context"@.len());
        assert("clientWindowHandle"@.len() != "context"@.len());
    }

    /// What is written is read back: a value describes the object that
    /// writes it.
    pub proof fn lemma_round_trip(&self)
        ensures
            self.describes(self.json()),
    {
        Self::lemma_names_distinct();
        let members = self.members();
        lemma_find_member(members, "rpId"@, 0);
        lemma_find_member(members, "clientDataHash"@, 1);
        lemma_bytes_round_trip(self.client_data_hash@);
        lemma_find_member(members, "userVerification"@, 2);
        lemma_find_member(members, "allowedCredentials"@, 3);
        lemma_byte_lists_round_trip(self.allowed_credentials.deep_view());
        lemma_find_member(members, "windowXy"@, 4);
        self.window_xy.lemma_round_trip();
        lemma_find_member(members, "clientWindowHandle"@, 5);
        if self.client_window_handle is Some {
            lemma_bytes_round_trip(self.client_window_handle->Some_0@);
        }
        lemma_find_member(members, "context"@, 6);
    }
}
/// Request to assert a credential without user interaction.
#[derive(Debug, Clone, PartialEq, Eq)]
pub struct PasskeyAssertionWithoutUserInterfaceRequest {
    /// Relying Party ID.
    pub rp_id: String,
    /// The allowed credential ID for the request.
    pub credential_id: Vec<u8>,
    /// The user name for the credential that was previously given to the OS.
    pub user_name: Option<String>,
    /// The user ID for the credential that was previously given to the OS.
    pub user_handle: Option<Vec<u8>>,
    /// The app-specific local identifier for the credential: the cipher ID.
    pub record_identifier: Option<String>,
    /// SHA-256 hash of the `clientDataJSON` for the assertion request.
    pub client_data_hash: Vec<u8>,
    /// User verification preference.
    pub user_verification: UserVerification,
    /// Coordinates of the center of the WebAuthn client's window, relative to
    /// the top-left point on the screen.
    pub window_xy: Position,
    /// Byte string representing the native OS window handle for the WebAuthn
    /// client, where the platform has one.
    pub client_window_handle: Option<Vec<u8>>,
    /// Native context required for callbacks to the OS, where the platform has
    /// one.
    pub context: Option<String>,
}

impl PasskeyAssertionWithoutUserInterfaceRequest {
    /// The members that are written, in order. An optional member that is
    /// absent is written as null.
    pub open spec fn members(&self) -> Seq<(Seq<char>, Json)> {
        seq![
            ("rpId"@, Json::Text(self.rp_id@)),
            ("credentialId"@, Json::of_bytes(self.credential_id@)),
            ("userName"@, optional_text_json(self.user_name)),
            ("userHandle"@, optional_bytes_json(self.user_handle)),
            ("recordIdentifier"@, optional_text_json(self.record_identifier)),
            ("clientDataHash"@, Json::of_bytes(self.client_data_hash@)),
            ("userVerification"@, Json::Text(self.user_verification.name())),
            ("windowXy"@, self.window_xy.json()),
            ("clientWindowHandle"@, optional_bytes_json(self.client_window_handle)),
            ("context"@, optional_text_json(self.context)),
        ]
    }

    /// The object that writes the value.
    pub open spec fn json(&self) -> Json {
        Json::Object(self.members())
    }

    /// Whether a JSON value holds this value: each member is there with the
    /// right content, and an optional member may be missing or null.
    pub open spec fn describes(&self, value: Json) -> bool {
        &&& value.text_field("rpId"@) == Some(self.rp_id@)
        &&& value.bytes_field("credentialId"@) == Some(self.credential_id@)
        &&& value.optional_text_field("userName"@) == Some(
            optional_text(self.user_name),
        )
        &&& value.optional_bytes_field("userHandle"@) == Some(
            optional_bytes(self.user_handle),
        )
        &&& value.optional_text_field("recordIdentifier"@) == Some(
            optional_text(self.record_identifier),
        )
        &&& value.bytes_field("clientDataHash"@) == Some(self.client_data_hash@)
        &&& value.text_field("userVerification"@) == Some(self.user_verification.name())
        &&& value.member("windowXy"@) is Some
        &&& self.window_xy.describes(value.member("windowXy"@)->Some_0)
        &&& value.optional_bytes_field("clientWindowHandle"@) == Some(
            optional_bytes(self.client_window_handle),
        )
        &&& value.optional_text_field("context"@) == Some(
            optional_text(self.context),
        )
    }

    /// Writes the value.
    pub fn to_json(&self) -> (value: JsonValue)
        ensures
            value@ == self.json(),
    {
        let mut writer = ObjectWriter::new();
        writer.field("rpId", JsonValue::of_text(self.rp_id.as_str()));
        writer.field("credentialId", JsonValue::of_bytes(self.credential_id.as_slice()));
        writer.field("userName", write_optional_text(&self.user_name));
        writer.field("userHandle", write_optional_bytes(&self.user_handle));
        writer.field("recordIdentifier", write_optional_text(&self.record_identifier));
        writer.field("clientDataHash", JsonValue::of_bytes(self.client_data_hash.as_slice()));
        writer.field("userVerification", JsonValue::of_text(self.user_verification.as_str()));
        writer.field("windowXy", self.window_xy.to_json());
        writer.field("clientWindowHandle", write_optional_bytes(&self.client_window_handle));
        writer.field("context", write_optional_text(&self.context));
        assert(writer.written() =~= self.members());
        writer.finish()
    }

    /// Reads a value. Members that are not known are passed over.
    pub fn from_json(value: &JsonValue) -> (read: Option<PasskeyAssertionWithoutUserInterfaceRequest>)
        ensures
            match read {
                Some(found) => found.describes(value@),
                None => forall|any: PasskeyAssertionWithoutUserInterfaceRequest| !any.describes(value@),
            },
    {
        let rp_id = value.text_field("rpId")?;
        let credential_id = value.bytes_field("credentialId")?;
        let user_name = value.optional_text_field("userName")?;
        let user_handle = value.optional_bytes_field("userHandle")?;
        let record_identifier = value.optional_text_field("recordIdentifier")?;
        let client_data_hash = value.bytes_field("clientDataHash")?;
        let user_verification_name = value.text_field("userVerification")?;
        let user_verification = UserVerification::from_name(user_verification_name.as_str())?;
        let window_xy = Position::from_json(value.get("windowXy")?)?;
        let client_window_handle = value.optional_bytes_field("clientWindowHandle")?;
        let context = value.optional_text_field("context")?;
        Some(
            PasskeyAssertionWithoutUserInterfaceRequest {
                rp_id,
                credential_id,
                user_name,
                user_handle,
                record_identifier,
                client_data_hash,
                user_verification,
                window_xy,
                client_window_handle,
                context,
            },
        )
    }

    /// No two members have the same name.
    proof fn lemma_names_distinct()
        ensures
            "rpId"@ != "credentialId"@,
            "rpId"@ != "userName"@,
            "rpId"@ != "userHandle"@,
            "rpId"@ != "recordIdentifier"@,
            "rpId"@ != "clientDataHash"@,
            "rpId"@ != "userVerification"@,
            "rpId"@ != "windowXy"@,
            "rpId"@ != "clientWindowHandle"@,
            "rpId"@ != "context"@,
            "credentialId"@ != "userName"@,
            "credentialId"@ != "userHandle"@,
            "credentialId"@ != "recordIdentifier"@,
            "credentialId"@ != "clientDataHash"@,
            "credentialId"@ != "userVerification"@,
            "credentialId"@ != "windowXy"@,
            "credentialId"@ != "clientWindowHandle"@,
            "credentialId"@ != "context"@,
            "userName"@ != "userHandle"@,
            "userName"@ != "recordIdentifier"@,
            "userName"@ != "clientDataHash"@,
            "userName"@ != "userVerification"@,
            "userName"@ != "windowXy"@,
            "userName"@ != "clientWindowHandle"@,
            "userName"@ != "context"@,
            "userHandle"@ != "recordIdentifier"@,
            "userHandle"@ != "clientDataHash"@,
            "userHandle"@ != "userVerification"@,
            "userHandle"@ != "windowXy"@,
            "userHandle"@ != "clientWindowHandle"@,
            "userHandle"@ != "context"@,
            "recordIdentifier"@ != "clientDataHash"@,
            "recordIdentifier"@ != "userVerification"@,
            "recordIdentifier"@ != "windowXy"@,
            "recordIdentifier"@ != "clientWindowHandle"@,
            "recordIdentifier"@ != "context"@,
            "clientDataHash"@ != "userVerification"@,
            "clientDataHash"@ != "windowXy"@,
            "clientDataHash"@ != "clientWindowHandle"@,
            "clientDataHash"@ != "context"@,
            "userVerification"@ != "windowXy"@,
            "userVerification"@ != "clientWindowHandle"@,
            "userVerification"@ != "context"@,
            "windowXy"@ != "clientWindowHandle"@,
            "windowXy"@ != "context"@,
            "clientWindowHandle"@ != "context"@,
    {
        reveal_strlit("rpId");
        reveal_strlit("credentialId");
        reveal_strlit("userName");
        reveal_strlit("userHandle");
        reveal_strlit("recordIdentifier");
        reveal_strlit("clientDataHash");
        reveal_strlit("userVerification");
        reveal_strlit("windowXy");
        reveal_strlit("clientWindowHandle");
        reveal_strlit("context");
        assert("rpId"@.len() != "credentialId"@.len());
        assert("rpId"@.len() != "userName"@.len());
        assert("rpId"@.len() != "userHandle"@.len());
        assert("rpId"@.len() != "recordIdentifier"@.len());
        assert("rpId"@.len() != "clientDataHash"@.len());
        assert("rpId"@.len() != "userVerification"@.len());
        assert("rpId"@.len() != "windowXy"@.len());
        assert("rpId"@.len() != "clientWindowHandle"@.len());
        assert("rpId"@.len() != "context"@.len());
        assert("credentialId"@.len() != "userName"@.len());
        assert("credentialId"@.len() != "userHandle"@.len());
        assert("credentialId"@.len() != "recordIdentifier"@.len());
        assert("credentialId"@.len() != "clientDataHash"@.len());
        assert("credentialId"@.len() != "userVerification"@.len());
        assert("credentialId"@.len() != "windowXy"@.len());
        assert("credentialId"@.len() != "clientWindowHandle"@.len());
        assert("credentialId"@.len() != "context"@.len());
        assert("userName"@.len() != "userHandle"@.len());
        assert("userName"@.len() != "recordIdentifier"@.len());
        assert("userName"@.len() != "clientDataHash"@.len());
        assert("userName"@.len() != "userVerification"@.len());
        assert("userName"@[0] != "windowXy"@[0]);
        assert("userName"@.len() != "clientWindowHandle"@.len());
        assert("userName"@.len() != "context"@.len());
        assert("userHandle"@.len() != "recordIdentifier"@.len());
        assert("userHandle"@.len() != "clientDataHash"@.len());
        assert("userHandle"@.len() != "userVerification"@.len());
        assert("userHandle"@.len() != "windowXy"@.len());
        assert("userHandle"@.len() != "clientWindowHandle"@.len());
        assert("userHandle"@.len() != "context"@.len());
        assert("recordIdentifier"@.len() != "clientDataHash"@.len());
        assert("recordIdentifier"@[0] != "userVerification"@[0]);
        assert("recordIdentifier"@.len() != "windowXy"@.len());
        assert("recordIdentifier"@.len() != "clientWindowHandle"@.len());
        assert("recordIdentifier"@.len() != "context"@.len());
        assert("clientDataHash"@.len() != "userVerification"@.len());
        assert("clientDataHash"@.len() != "windowXy"@.len());
        assert("clientDataHash"@.len() != "clientWindowHandle"@.len());
        assert("clientDataHash"@.len() != "context"@.len());
        assert("userVerification"@.len() != "windowXy"@.len());
        assert("userVerification"@.len() != "clientWindowHandle"@.len());
        assert("userVerification"@.len() != "context"@.len());
        assert("windowXy"@.len() != "clientWindowHandle"@.len());
        assert("windowXy"@.len() != "context"@.len());
        assert("clientWindowHandle"@.len() != "context"@.len());
    }

    /// What is written is read back: a value describes the object that
    /// writes it.
    pub proof fn lemma_round_trip(&self)
        ensures
            self.describes(self.json()),
    {
        Self::lemma_names_distinct();
        let members = self.members();
        lemma_find_member(members, "rpId"@, 0);
        lemma_find_member(members, "credentialId"@, 1);
        lemma_bytes_round_trip(self.credential_id@);
        lemma_find_member(members, "userName"@, 2);
        lemma_find_member(members, "userHandle"@, 3);
        if self.user_handle is Some {
            lemma_bytes_round_trip(self.user_handle->Some_0@);
        }
        lemma_find_member(members, "recordIdentifier"@, 4);
        lemma_find_member(members, "clientDataHash"@, 5);
        lemma_bytes_round_trip(self.client_data_hash@);
        lemma_find_member(members, "userVerification"@, 6);
        lemma_find_member(members, "windowXy"@, 7);
        self.window_xy.lemma_round_trip();
        lemma_find_member(members, "clientWindowHandle"@, 8);
        if self.client_window_handle is Some {
            lemma_bytes_round_trip(self.client_window_handle->Some_0@);
        }
        lemma_find_member(members, "context"@, 9);
    }
}
/// Response for a passkey assertion request.
#[derive(Debug, Clone, PartialEq, Eq)]
pub struct PasskeyAssertionResponse {
    /// Relying Party ID.
    pub rp_id: String,
    /// The user ID for the credential that was previously given to the OS.
    pub user_handle: Vec<u8>,
    /// The signature for the WebAuthn attestation response.
    pub signature: Vec<u8>,
    /// SHA-256 hash of the `clientDataJSON` used in the assertion.
    pub client_data_hash: Vec<u8>,
    /// The WebAuthn authenticator data structure.
    pub authenticator_data: Vec<u8>,
    /// The ID for the attested credential.
    pub credential_id: Vec<u8>,
}

impl PasskeyAssertionResponse {
    /// The members that are written, in order. An optional member that is
    /// absent is written as null.
    pub open spec fn members(&self) -> Seq<(Seq<char>, Json)> {
        seq![
            ("rpId"@, Json::Text(self.rp_id@)),
            ("userHandle"@, Json::of_bytes(self.user_handle@)),
            ("signature"@, Json::of_bytes(self.signature@)),
            ("clientDataHash"@, Json::of_bytes(self.client_data_hash@)),
            ("authenticatorData"@, Json::of_bytes(self.authenticator_data@)),
            ("credentialId"@, Json::of_bytes(self.credential_id@)),
        ]
    }

    /// The object that writes the value.
    pub open spec fn json(&self) -> Json {
        Json::Object(self.members())
    }

    /// Whether a JSON value holds this value: each member is there with the
    /// right content, and an optional member may be missing or null.
    pub open spec fn describes(&self, value: Json) -> bool {
        &&& value.text_field("rpId"@) == Some(self.rp_id@)
        &&& value.bytes_field("userHandle"@) == Some(self.user_handle@)
        &&& value.bytes_field("signature"@) == Some(self.signature@)
        &&& value.bytes_field("clientDataHash"@) == Some(self.client_data_hash@)
        &&& value.bytes_field("authenticatorData"@) == Some(self.authenticator_data@)
        &&& value.bytes_field("credentialId"@) == Some(self.credential_id@)
    }

    /// Writes the value.
    pub fn to_json(&self) -> (value: JsonValue)
        ensures
            value@ == self.json(),
    {
        let mut writer = ObjectWriter::new();
        writer.field("rpId", JsonValue::of_text(self.rp_id.as_str()));
        writer.field("userHandle", JsonValue::of_bytes(self.user_handle.as_slice()));
        writer.field("signature", JsonValue::of_bytes(self.signature.as_slice()));
        writer.field("clientDataHash", JsonValue::of_bytes(self.client_data_hash.as_slice()));
        writer.field("authenticatorData", JsonValue::of_bytes(self.authenticator_data.as_slice()));
        writer.field("credentialId", JsonValue::of_bytes(self.credential_id.as_slice()));
        assert(writer.written() =~= self.members());
        writer.finish()
    }

    /// Reads a value. Members that are not known are passed over.
    pub fn from_json(value: &JsonValue) -> (read: Option<PasskeyAssertionResponse>)
        ensures
            match read {
                Some(found) => found.describes(value@),
                None => forall|any: PasskeyAssertionResponse| !any.describes(value@),
            },
    {
        let rp_id = value.text_field("rpId")?;
        let user_handle = value.bytes_field("userHandle")?;
        let signature = value.bytes_field("signature")?;
        let client_data_hash = value.bytes_field("clientDataHash")?;
        let authenticator_data = value.bytes_field("authenticatorData")?;
        let credential_id = value.bytes_field("credentialId")?;
        Some(
            PasskeyAssertionResponse {
                rp_id,
                user_handle,
                signature,
                client_data_hash,
                authenticator_data,
                credential_id,
            },
        )
    }

    /// No two members have the same name.
    proof fn lemma_names_distinct()
        ensures
            "rpId"@ != "userHandle"@,
            "rpId"@ != "signature"@,
            "rpId"@ != "clientDataHash"@,
            "rpId"@ != "authenticatorData"@,
            "rpId"@ != "credentialId"@,
            "userHandle"@ != "signature"@,
            "userHandle"@ != "clientDataHash"@,
            "userHandle"@ != "authenticatorData"@,
            "userHandle"@ != "credentialId"@,
            "signature"@ != "clientDataHash"@,
            "signature"@ != "authenticatorData"@,
            "signature"@ != "credentialId"@,
            "clientDataHash"@ != "authenticatorData"@,
            "clientDataHash"@ != "credentialId"@,
            "authenticatorData"@ != "credentialId"@,
    {
        reveal_strlit("rpId");
        reveal_strlit("userHandle");
        reveal_strlit("signature");
        reveal_strlit("clientDataHash");
        reveal_strlit("authenticatorData");
        reveal_strlit("credentialId");
        assert("rpId"@.len() != "userHandle"@.len());
        assert("rpId"@.len() != "signature"@.len());
        assert("rpId"@.len() != "clientDataHash"@.len());
        assert("rpId"@.len() != "authenticatorData"@.len());
        assert("rpId"@.len() != "credentialId"@.len());
        assert("userHandle"@.len() != "signature"@.len());
        assert("userHandle"@.len() != "clientDataHash"@.len());
        assert("userHandle"@.len() != "authenticatorData"@.len());
        assert("userHandle"@.len() != "credentialId"@.len());
        assert("signature"@.len() != "clientDataHash"@.len());
        assert("signature"@.len() != "authenticatorData"@.len());
        assert("signature"@.len() != "credentialId"@.len());
        assert("clientDataHash"@.len() != "authenticatorData"@.len());
        assert("clientDataHash"@.len() != "credentialId"@.len());
        assert("authenticatorData"@.len() != "credentialId"@.len());
    }

    /// What is written is read back: a value describes the object that
    /// writes it.
    pub proof fn lemma_round_trip(&self)
        ensures
            self.describes(self.json()),
    {
        Self::lemma_names_distinct();
        let members = self.members();
        lemma_find_member(members, "rpId"@, 0);
        lemma_find_member(members, "userHandle"@, 1);
        lemma_bytes_round_trip(self.user_handle@);
        lemma_find_member(members, "signature"@, 2);
        lemma_bytes_round_trip(self.signature@);
        lemma_find_member(members, "clientDataHash"@, 3);
        lemma_bytes_round_trip(self.client_data_hash@);
        lemma_find_member(members, "authenticatorData"@, 4);
        lemma_bytes_round_trip(self.authenticator_data@);
        lemma_find_member(members, "credentialId"@, 5);
        lemma_bytes_round_trip(self.credential_id@);
    }
}
/// Callback to process a response to a passkey assertion request.
pub trait PreparePasskeyAssertionCallback {
    /// What the callback was told so far, in the order in which it was told:
    /// each response as `Ok`, each error as `Err`.
    spec fn told(&self) -> Seq<Result<PasskeyAssertionResponse, BitwardenError>>;

    /// Function to call if a successful response is returned.
    fn on_complete(&mut self, credential: PasskeyAssertionResponse)
        ensures
            final(self).told() == old(self).told().push(
                Ok::<PasskeyAssertionResponse, BitwardenError>(credential),
            ),
    ;

    /// Function to call if an error response is returned.
    fn on_error(&mut self, error: BitwardenError)
        ensures
            final(self).told() == old(self).told().push(
                Err::<PasskeyAssertionResponse, BitwardenError>(error),
            ),
    ;
}

} // verus!
