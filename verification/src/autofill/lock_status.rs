//! The request for the lock status of the desktop client, and its response.

use vstd::prelude::*;

use crate::autofill::BitwardenError;
use crate::json::Json;
use crate::json::JsonValue;
use crate::json::ObjectWriter;

verus! {

/// Request to retrieve the lock status of the desktop client.
#[derive(Debug, Clone, Copy, PartialEq, Eq)]
pub struct LockStatusRequest {}

/// Response for the lock status of the desktop client.
#[derive(Debug, Clone, Copy, PartialEq, Eq)]
pub struct LockStatusResponse {
    /// Whether the desktop client is unlocked.
    pub is_unlocked: bool,
}

/// Callback to process a response to a lock status request.
pub trait GetLockStatusCallback {
    /// What the callback was told so far, in the order in which it was told:
    /// each response as `Ok`, each error as `Err`.
    spec fn told(&self) -> Seq<Result<LockStatusResponse, BitwardenError>>;

    /// Function to call if a successful response is returned.
    fn on_complete(&mut self, response: LockStatusResponse)
        ensures
            final(self).told() == old(self).told().push(
                Ok::<LockStatusResponse, BitwardenError>(response),
            ),
    ;

    /// Function to call if an error response is returned.
    fn on_error(&mut self, error: BitwardenError)
        ensures
            final(self).told() == old(self).told().push(
                Err::<LockStatusResponse, BitwardenError>(error),
            ),
    ;
}

impl LockStatusRequest {
    /// The object that writes the request: it has no member.
    pub open spec fn json(&self) -> Json {
        Json::Object(Seq::empty())
    }

    /// Whether a JSON value holds the request: any object does.
    pub open spec fn describes(&self, value: Json) -> bool {
        value is Object
    }

    /// Writes the request.
    pub fn to_json(&self) -> (value: JsonValue)
        ensures
            value@ == self.json(),
    {
        ObjectWriter::new().finish()
    }

    /// Reads a request.
    pub fn from_json(value: &JsonValue) -> (read: Option<LockStatusRequest>)
        ensures
            match read {
                Some(found) => found.describes(value@),
                None => forall|any: LockStatusRequest| !any.describes(value@),
            },
    {
        match value {
            JsonValue::Object(_) => Some(LockStatusRequest {  }),
            _ => None,
        }
    }
}

impl LockStatusResponse {
    /// The object that writes the response.
    pub open spec fn json(&self) -> Json {
        Json::Object(seq![("isUnlocked"@, Json::Bool(self.is_unlocked))])
    }

    /// Whether a JSON value holds this response.
    pub open spec fn describes(&self, value: Json) -> bool {
        value.truth_field("isUnlocked"@) == Some(self.is_unlocked)
    }

    /// Writes the response.
    pub fn to_json(&self) -> (value: JsonValue)
        ensures
            value@ == self.json(),
    {
        let mut writer = ObjectWriter::new();
        writer.field("isUnlocked", JsonValue::Bool(self.is_unlocked));
        let value = writer.finish();
        assert(value@->Object_0 =~= self.json()->Object_0);
        value
    }

    /// Reads a response. Members that are not known are passed over.
    pub fn from_json(value: &JsonValue) -> (read: Option<LockStatusResponse>)
        ensures
            match read {
                Some(found) => found.describes(value@),
                None => forall|any: LockStatusResponse| !any.describes(value@),
            },
    {
        let is_unlocked = value.bool_field("isUnlocked")?;
        Some(LockStatusResponse { is_unlocked })
    }

    /// What is written is read back: a response describes the object that
    /// writes it.
    pub proof fn lemma_round_trip(&self)
        ensures
            self.describes(self.json()),
    {
    }
}

} // verus!
