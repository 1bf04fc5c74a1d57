//! The request for the native window of the desktop client, and its response.

use vstd::prelude::*;

use crate::autofill::BitwardenError;
use crate::encoding::base64_encodable;
use crate::encoding::base64_standard_bytes;
use crate::encoding::base64_standard_text;
use crate::encoding::decode_base64;
use crate::encoding::encode_base64;
use crate::json::Json;
use crate::json::JsonValue;
use crate::json::ObjectWriter;

verus! {

/// Request to get the window handle of the desktop client.
#[derive(Debug, Clone, PartialEq, Eq)]
pub struct WindowHandleQueryRequest {
    /// Marker field that tells the request from others; its content is
    /// never read.
    pub window_handle: String,
}

/// Response to window handle request.
#[derive(Debug, Clone, PartialEq, Eq)]
pub struct WindowHandleQueryResponse {
    /// Whether the desktop client is currently visible.
    pub is_visible: bool,
    /// Whether the desktop client is currently focused.
    pub is_focused: bool,
    /// Byte string representing the native OS window handle for the desktop
    /// client. On the wire it is base64 text.
    pub handle: Vec<u8>,
}

/// Callback to process a response to a window handle query request.
pub trait GetWindowHandleQueryCallback {
    /// What the callback was told so far, in the order in which it was told:
    /// each response as `Ok`, each error as `Err`.
    spec fn told(&self) -> Seq<Result<WindowHandleQueryResponse, BitwardenError>>;

    /// Function to call if a successful response is returned.
    fn on_complete(&mut self, response: WindowHandleQueryResponse)
        ensures
            final(self).told() == old(self).told().push(
                Ok::<WindowHandleQueryResponse, BitwardenError>(response),
            ),
    ;

    /// Function to call if an error response is returned.
    fn on_error(&mut self, error: BitwardenError)
        ensures
            final(self).told() == old(self).told().push(
                Err::<WindowHandleQueryResponse, BitwardenError>(error),
            ),
    ;
}

impl WindowHandleQueryRequest {
    /// The object that writes the request.
    pub open spec fn json(&self) -> Json {
        Json::Object(seq![("windowHandle"@, Json::Text(self.window_handle@))])
    }

    /// Whether a JSON value holds this request.
    pub open spec fn describes(&self, value: Json) -> bool {
        value.text_field("windowHandle"@) == Some(self.window_handle@)
    }

    /// The request with an empty marker.
    pub fn new() -> (request: WindowHandleQueryRequest)
        ensures
            request.window_handle@ == Seq::<char>::empty(),
    {
        WindowHandleQueryRequest { window_handle: String::new() }
    }

    /// Writes the request.
    pub fn to_json(&self) -> (value: JsonValue)
        ensures
            value@ == self.json(),
    {
        let mut writer = ObjectWriter::new();
        writer.field("windowHandle", JsonValue::of_text(self.window_handle.as_str()));
        let value = writer.finish();
        assert(value@->Object_0 =~= self.json()->Object_0);
        value
    }

    /// Reads a request. Members that are not known are passed over.
    pub fn from_json(value: &JsonValue) -> (read: Option<WindowHandleQueryRequest>)
        ensures
            match read {
                Some(found) => found.describes(value@),
                None => forall|any: WindowHandleQueryRequest| !any.describes(value@),
            },
    {
        let window_handle = value.text_field("windowHandle")?;
        Some(WindowHandleQueryRequest { window_handle })
    }
}

impl WindowHandleQueryResponse {
    /// The object that writes the response.
    pub open spec fn json(&self) -> Json {
        Json::Object(
            seq![
                ("isVisible"@, Json::Bool(self.is_visible)),
                ("isFocused"@, Json::Bool(self.is_focused)),
                ("handle"@, Json::Text(base64_standard_text(self.handle@))),
            ],
        )
    }

    /// Whether a JSON value holds this response: the handle is the bytes
    /// that the base64 text of the member stands for.
    pub open spec fn describes(&self, value: Json) -> bool {
        &&& value.truth_field("isVisible"@) == Some(self.is_visible)
        &&& value.truth_field("isFocused"@) == Some(self.is_focused)
        &&& value.text_field("handle"@) is Some
        &&& base64_standard_bytes(value.text_field("handle"@)->Some_0) == Some(self.handle@)
    }

    /// Writes the response.
    pub fn to_json(&self) -> (value: JsonValue)
        requires
            base64_encodable(self.handle@),
        ensures
            value@ == self.json(),
    {
        let mut writer = ObjectWriter::new();
        writer.field("isVisible", JsonValue::Bool(self.is_visible));
        writer.field("isFocused", JsonValue::Bool(self.is_focused));
        let handle = encode_base64(self.handle.as_slice());
        writer.field("handle", JsonValue::of_text(handle.as_str()));
        let value = writer.finish();
        assert(value@->Object_0 =~= self.json()->Object_0);
        value
    }

    /// Reads a response. Members that are not known are passed over.
    pub fn from_json(value: &JsonValue) -> (read: Option<WindowHandleQueryResponse>)
        ensures
            match read {
                Some(found) => found.describes(value@),
                None => forall|any: WindowHandleQueryResponse| !any.describes(value@),
            },
    {
        let is_visible = value.bool_field("isVisible")?;
        let is_focused = value.bool_field("isFocused")?;
        let text = value.text_field("handle")?;
        let handle = decode_base64(text.as_str())?;
        Some(WindowHandleQueryResponse { is_visible, is_focused, handle })
    }
}

} // verus!
