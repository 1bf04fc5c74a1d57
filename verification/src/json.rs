//! JSON values as plain data, and the calls that read and write JSON text.

use serde_json::Value;
use vstd::prelude::*;

use crate::text::str_equal;

verus! {

/// A JSON value, as a mathematical tree.
pub enum Json {
    Null,
    Bool(bool),
    /// A number without fraction or exponent.
    Integer(int),
    /// Any other number, by its text.
    Fraction(Seq<char>),
    Text(Seq<char>),
    Array(Seq<Json>),
    /// The members of an object, each a name and a value.
    Object(Seq<(Seq<char>, Json)>),
}

/// A member of a JSON object.
#[derive(Debug)]
pub struct JsonMember {
    pub name: String,
    pub value: JsonValue,
}

/// A JSON value.
#[derive(Debug)]
pub enum JsonValue {
    Null,
    Bool(bool),
    /// A number without fraction or exponent that is not negative.
    Unsigned(u64),
    /// A negative number without fraction or exponent.
    Negative(i64),
    /// Any other number, by its text.
    Fraction(String),
    Text(String),
    Array(Vec<JsonValue>),
    Object(Vec<JsonMember>),
}

#[verifier::external_type_specification]
#[verifier::external_body]
pub struct ExSerdeValue(serde_json::Value);

#[verifier::external_type_specification]
#[verifier::external_body]
pub struct ExSerdeNumber(serde_json::Number);

/// The value that `serde_json::from_str` reads from a text, or `None` where
/// it reports an error.
pub uninterp spec fn json_parsed(text: Seq<char>) -> Option<Json>;

/// The text that `serde_json::to_string` writes for a value.
pub uninterp spec fn json_rendered(value: Json) -> Seq<char>;

/// The value of the first member called `name` from place `from` on.
pub open spec fn find_member(members: Seq<(Seq<char>, Json)>, name: Seq<char>, from: int)
    -> Option<Json>
    decreases members.len() - from,
{
    if from < 0 || from >= members.len() {
        None
    } else if members[from].0 == name {
        Some(members[from].1)
    } else {
        find_member(members, name, from + 1)
    }
}

impl Json {
    /// The value of the member called `name`, where this is an object that
    /// has one.
    pub open spec fn member(self, name: Seq<char>) -> Option<Json> {
        match self {
            Json::Object(members) => find_member(members, name, 0),
            _ => None,
        }
    }

    /// The member called `name`, unless it is missing or null.
    pub open spec fn present(self, name: Seq<char>) -> Option<Json> {
        match self.member(name) {
            Some(Json::Null) => None,
            other => other,
        }
    }

    /// The string that this value is, if it is one.
    pub open spec fn text(self) -> Option<Seq<char>> {
        match self {
            Json::Text(text) => Some(text),
            _ => None,
        }
    }

    /// The truth value that this value is, if it is one.
    pub open spec fn truth(self) -> Option<bool> {
        match self {
            Json::Bool(b) => Some(b),
            _ => None,
        }
    }

    /// The integer that this value is, if it is one within the given bounds.
    pub open spec fn integer_within(self, low: int, high: int) -> Option<int> {
        match self {
            Json::Integer(n) => if low <= n <= high {
                Some(n)
            } else {
                None
            },
            _ => None,
        }
    }

    /// Whether this value is an integer that fits a byte.
    pub open spec fn is_byte(self) -> bool {
        self.integer_within(0, 255) is Some
    }

    /// The byte string that this value is, if it is an array of bytes.
    pub open spec fn bytes(self) -> Option<Seq<u8>> {
        match self {
            Json::Array(items) => if forall|i: int| 0 <= i < items.len() ==> (#[trigger] items[i]).is_byte() {
                Some(Seq::new(items.len(), |i: int| items[i]->Integer_0 as u8))
            } else {
                None
            },
            _ => None,
        }
    }

    /// The list of byte strings that this value is, if it is an array of
    /// arrays of bytes.
    pub open spec fn byte_lists(self) -> Option<Seq<Seq<u8>>> {
        match self {
            Json::Array(items) => if forall|i: int|
                0 <= i < items.len() ==> (#[trigger] items[i]).bytes() is Some {
                Some(Seq::new(items.len(), |i: int| items[i].bytes()->Some_0))
            } else {
                None
            },
            _ => None,
        }
    }

    /// The list of 32-bit integers that this value is, if it is an array of
    /// such.
    pub open spec fn int32_list(self) -> Option<Seq<i32>> {
        match self {
            Json::Array(items) => if forall|i: int|
                0 <= i < items.len() ==> (#[trigger] items[i]).integer_within(
                    -0x8000_0000,
                    0x7fff_ffff,
                ) is Some {
                Some(Seq::new(items.len(), |i: int| items[i]->Integer_0 as i32))
            } else {
                None
            },
            _ => None,
        }
    }

    /// The string held by the member called `name`.
    pub open spec fn text_field(self, name: Seq<char>) -> Option<Seq<char>> {
        match self.member(name) {
            Some(value) => value.text(),
            None => None,
        }
    }

    /// The truth value held by the member called `name`.
    pub open spec fn truth_field(self, name: Seq<char>) -> Option<bool> {
        match self.member(name) {
            Some(value) => value.truth(),
            None => None,
        }
    }

    /// The byte string held by the member called `name`.
    pub open spec fn bytes_field(self, name: Seq<char>) -> Option<Seq<u8>> {
        match self.member(name) {
            Some(value) => value.bytes(),
            None => None,
        }
    }

    /// The list of byte strings held by the member called `name`.
    pub open spec fn byte_lists_field(self, name: Seq<char>) -> Option<Seq<Seq<u8>>> {
        match self.member(name) {
            Some(value) => value.byte_lists(),
            None => None,
        }
    }

    /// The list of 32-bit integers held by the member called `name`.
    pub open spec fn int32_list_field(self, name: Seq<char>) -> Option<Seq<i32>> {
        match self.member(name) {
            Some(value) => value.int32_list(),
            None => None,
        }
    }

    /// The 32-bit integer held by the member called `name`.
    pub open spec fn int32_field(self, name: Seq<char>) -> Option<int> {
        match self.member(name) {
            Some(value) => value.integer_within(-0x8000_0000, 0x7fff_ffff),
            None => None,
        }
    }

    /// The string held by an optional member: `Some(None)` where the member
    /// is missing or null, `None` where it holds something else than a string.
    pub open spec fn optional_text_field(self, name: Seq<char>) -> Option<Option<Seq<char>>> {
        match self.present(name) {
            Some(value) => match value.text() {
                Some(text) => Some(Some(text)),
                None => None,
            },
            None => Some(None),
        }
    }

    /// The byte string held by an optional member: `Some(None)` where the
    /// member is missing or null, `None` where it holds something else than
    /// an array of bytes.
    pub open spec fn optional_bytes_field(self, name: Seq<char>) -> Option<Option<Seq<u8>>> {
        match self.present(name) {
            Some(value) => match value.bytes() {
                Some(bytes) => Some(Some(bytes)),
                None => None,
            },
            None => Some(None),
        }
    }

    /// The array of numbers that writes a byte string.
    pub open spec fn of_bytes(bytes: Seq<u8>) -> Json {
        Json::Array(Seq::new(bytes.len(), |i: int| Json::Integer(bytes[i] as int)))
    }

    /// The array of arrays of numbers that writes a list of byte strings.
    pub open spec fn of_byte_lists(lists: Seq<Seq<u8>>) -> Json {
        Json::Array(Seq::new(lists.len(), |i: int| Json::of_bytes(lists[i])))
    }

    /// The array of numbers that writes a list of 32-bit integers.
    pub open spec fn of_int32_list(numbers: Seq<i32>) -> Json {
        Json::Array(Seq::new(numbers.len(), |i: int| Json::Integer(numbers[i] as int)))
    }
}

impl JsonMember {
    /// The member as a pair of a name and a value.
    pub open spec fn pair(&self) -> (Seq<char>, Json)
        decreases self,
    {
        (self.name@, self.value.model())
    }
}

impl JsonValue {
    /// The value as a mathematical tree.
    pub open spec fn model(&self) -> Json
        decreases self,
    {
        match self {
            JsonValue::Null => Json::Null,
            JsonValue::Bool(b) => Json::Bool(*b),
            JsonValue::Unsigned(n) => Json::Integer(*n as int),
            JsonValue::Negative(n) => Json::Integer(*n as int),
            JsonValue::Fraction(text) => Json::Fraction(text@),
            JsonValue::Text(text) => Json::Text(text@),
            JsonValue::Array(items) => Json::Array(
                Seq::new(
                    items@.len(),
                    |i: int|
                        if 0 <= i < items@.len() {
                            items@[i].model()
                        } else {
                            Json::Null
                        },
                ),
            ),
            JsonValue::Object(members) => Json::Object(
                Seq::new(
                    members@.len(),
                    |i: int|
                        if 0 <= i < members@.len() {
                            members@[i].pair()
                        } else {
                            (Seq::empty(), Json::Null)
                        },
                ),
            ),
        }
    }
}

impl View for JsonMember {
    type V = (Seq<char>, Json);

    open spec fn view(&self) -> (Seq<char>, Json) {
        self.pair()
    }
}

impl View for JsonValue {
    type V = Json;

    open spec fn view(&self) -> Json {
        self.model()
    }
}

/// Converts a number of `serde_json` one for one: `as_u64` and `as_i64` tell
/// its variants apart, any other number is kept by its text.
#[verifier::external_body]
fn number_from_serde(number: &serde_json::Number) -> JsonValue {
    match (number.as_u64(), number.as_i64()) {
        (Some(n), _) => JsonValue::Unsigned(n),
        (None, Some(n)) => JsonValue::Negative(n),
        (None, None) => JsonValue::Fraction(number.to_string()),
    }
}

/// Converts a value of `serde_json` one for one.
#[verifier::external_body]
fn from_serde(value: &Value) -> JsonValue {
    match value {
        Value::Null => JsonValue::Null,
        Value::Bool(b) => JsonValue::Bool(*b),
        Value::Number(n) => number_from_serde(n),
        Value::String(s) => JsonValue::Text(s.clone()),
        Value::Array(items) => JsonValue::Array(items.iter().map(from_serde).collect()),
        Value::Object(members) => JsonValue::Object(members.iter().map(member_from_serde).collect()),
    }
}

/// Converts a member of an object of `serde_json` one for one.
#[verifier::external_body]
fn member_from_serde(member: (&String, &Value)) -> JsonMember {
    JsonMember { name: member.0.clone(), value: from_serde(member.1) }
}

/// Converts a number kept by its text to one of `serde_json` through
/// `Number::from_str`; a text that is no number becomes null.
#[verifier::external_body]
fn fraction_to_serde(text: &String) -> Value {
    text.parse().map(Value::Number).unwrap_or_default()
}

/// Converts a value to one of `serde_json`, one for one.
#[verifier::external_body]
fn to_serde(value: &JsonValue) -> Value {
    match value {
        JsonValue::Null => Value::Null,
        JsonValue::Bool(b) => Value::Bool(*b),
        JsonValue::Unsigned(n) => Value::Number((*n).into()),
        JsonValue::Negative(n) => Value::Number((*n).into()),
        JsonValue::Fraction(text) => fraction_to_serde(text),
        JsonValue::Text(s) => Value::String(s.clone()),
        JsonValue::Array(items) => Value::Array(items.iter().map(to_serde).collect()),
        JsonValue::Object(members) => Value::Object(members.iter().map(member_to_serde).collect()),
    }
}

/// Converts a member of an object to one of `serde_json`, one for one.
#[verifier::external_body]
fn member_to_serde(member: &JsonMember) -> (String, Value) {
    (member.name.clone(), to_serde(&member.value))
}

/// Calls `serde_json::from_str` for a `serde_json::Value`. The contract names
/// the value read; the outside error becomes `None`.
#[verifier::external_body]
fn read_json(text: &str) -> (value: Option<JsonValue>)
    ensures
        match value {
            Some(read) => json_parsed(text@) == Some(read@),
            None => json_parsed(text@) is None,
        },
{
    match serde_json::from_str::<Value>(text) {
        Ok(value) => Some(from_serde(&value)),
        Err(_) => None,
    }
}

/// Calls `serde_json::to_string` on a `serde_json::Value`, which it does not
/// fail on. The contract names the text written.
#[verifier::external_body]
fn write_json(value: &JsonValue) -> (text: String)
    ensures
        text@ == json_rendered(value@),
{
    serde_json::to_string(&to_serde(value)).unwrap_or_default()
}

impl JsonValue {
    /// Reads a JSON text.
    pub fn parse(text: &str) -> (value: Option<JsonValue>)
        ensures
            match value {
                Some(read) => json_parsed(text@) == Some(read@),
                None => json_parsed(text@) is None,
            },
    {
        read_json(text)
    }

    /// Writes this value as JSON text.
    pub fn render(&self) -> (text: String)
        ensures
            text@ == json_rendered(self@),
    {
        write_json(self)
    }

    /// The value of the first member called `name`, where this is an object
    /// that has one.
    pub fn get(&self, name: &str) -> (found: Option<&JsonValue>)
        ensures
            match found {
                Some(value) => self@.member(name@) == Some(value@),
                None => self@.member(name@) is None,
            },
    {
        match self {
            JsonValue::Object(members) => {
                let ghost model = self@->Object_0;
                let mut i: usize = 0;
                while i < members.len()
                    invariant
                        i <= members@.len(),
                        model.len() == members@.len(),
                        forall|j: int| 0 <= j < members@.len() ==> #[trigger] model[j] == members@[j]@,
                        self@ == Json::Object(model),
                        find_member(model, name@, 0) == find_member(model, name@, i as int),
                    decreases members@.len() - i,
                {
                    if str_equal(members[i].name.as_str(), name) {
                        assert(model[i as int].0 == name@);
                        return Some(&members[i].value);
                    }
                    assert(model[i as int].0 != name@);
                    i += 1;
                }
                None
            },
            _ => None,
        }
    }

    /// Takes the value of the first member called `name` out of an object.
    pub fn into_member(self, name: &str) -> (found: Option<JsonValue>)
        ensures
            match found {
                Some(value) => self@.member(name@) == Some(value@),
                None => self@.member(name@) is None,
            },
    {
        match self {
            JsonValue::Object(mut members) => {
                let ghost model = self@->Object_0;
                let mut i: usize = 0;
                while i < members.len()
                    invariant
                        i <= members@.len(),
                        model.len() == members@.len(),
                        forall|j: int| 0 <= j < members@.len() ==> #[trigger] model[j] == members@[j]@,
                        self@ == Json::Object(model),
                        find_member(model, name@, 0) == find_member(model, name@, i as int),
                    decreases members@.len() - i,
                {
                    if str_equal(members[i].name.as_str(), name) {
                        assert(model[i as int].0 == name@);
                        let member = members.remove(i);
                        return Some(member.value);
                    }
                    assert(model[i as int].0 != name@);
                    i += 1;
                }
                None
            },
            _ => None,
        }
    }

    /// The member called `name`, unless it is missing or null.
    pub fn get_present(&self, name: &str) -> (found: Option<&JsonValue>)
        ensures
            match found {
                Some(value) => self@.present(name@) == Some(value@),
                None => self@.present(name@) is None,
            },
    {
        match self.get(name) {
            Some(JsonValue::Null) => None,
            other => other,
        }
    }

    /// The string that this value is, if it is one.
    pub fn as_text(&self) -> (text: Option<&String>)
        ensures
            match text {
                Some(held) => self@.text() == Some(held@),
                None => self@.text() is None,
            },
    {
        match self {
            JsonValue::Text(text) => Some(text),
            _ => None,
        }
    }

    /// The truth value that this value is, if it is one.
    pub fn as_bool(&self) -> (truth: Option<bool>)
        ensures
            truth == self@.truth(),
    {
        match self {
            JsonValue::Bool(b) => Some(*b),
            _ => None,
        }
    }

    /// The unsigned 32-bit number that this value is, if it is one.
    pub fn as_u32(&self) -> (number: Option<u32>)
        ensures
            match number {
                Some(n) => self@.integer_within(0, 0xffff_ffff) == Some(n as int),
                None => self@.integer_within(0, 0xffff_ffff) is None,
            },
    {
        match self {
            JsonValue::Unsigned(n) => if *n <= 0xffff_ffff {
                Some(*n as u32)
            } else {
                None
            },
            JsonValue::Negative(n) => if 0 <= *n && *n <= 0xffff_ffff {
                Some(*n as u32)
            } else {
                None
            },
            _ => None,
        }
    }

    /// The signed 32-bit number that this value is, if it is one.
    pub fn as_i32(&self) -> (number: Option<i32>)
        ensures
            match number {
                Some(n) => self@.integer_within(-0x8000_0000, 0x7fff_ffff) == Some(n as int),
                None => self@.integer_within(-0x8000_0000, 0x7fff_ffff) is None,
            },
    {
        match self {
            JsonValue::Unsigned(n) => if *n <= 0x7fff_ffff {
                Some(*n as i32)
            } else {
                None
            },
            JsonValue::Negative(n) => if -0x8000_0000 <= *n && *n <= 0x7fff_ffff {
                Some(*n as i32)
            } else {
                None
            },
            _ => None,
        }
    }

    /// The byte that this value is, if it is one.
    pub fn as_byte(&self) -> (byte: Option<u8>)
        ensures
            match byte {
                Some(b) => self@.is_byte() && self@->Integer_0 == b as int,
                None => !self@.is_byte(),
            },
    {
        match self {
            JsonValue::Unsigned(n) => if *n <= 255 {
                Some(*n as u8)
            } else {
                None
            },
            JsonValue::Negative(n) => if 0 <= *n && *n <= 255 {
                Some(*n as u8)
            } else {
                None
            },
            _ => None,
        }
    }

    /// The byte string that this value is, if it is an array of bytes.
    pub fn as_bytes(&self) -> (bytes: Option<Vec<u8>>)
        ensures
            match bytes {
                Some(held) => self@.bytes() == Some(held@),
                None => self@.bytes() is None,
            },
    {
        match self {
            JsonValue::Array(items) => {
                let ghost model = self@->Array_0;
                let mut bytes: Vec<u8> = Vec::new();
                let mut i: usize = 0;
                while i < items.len()
                    invariant
                        i <= items@.len(),
                        model.len() == items@.len(),
                        self@ == Json::Array(model),
                        forall|j: int| 0 <= j < items@.len() ==> #[trigger] model[j] == items@[j]@,
                        bytes@.len() == i,
                        forall|j: int| 0 <= j < i ==> (#[trigger] model[j]).is_byte(),
                        forall|j: int| 0 <= j < i ==> bytes@[j] == (#[trigger] model[j])->Integer_0 as u8,
                    decreases items@.len() - i,
                {
                    match items[i].as_byte() {
                        Some(byte) => bytes.push(byte),
                        None => {
                            assert(!model[i as int].is_byte());
                            return None;
                        },
                    }
                    i += 1;
                }
                assert(bytes@ =~= self@.bytes()->Some_0);
                Some(bytes)
            },
            _ => None,
        }
    }

    /// The list of byte strings that this value is, if it is an array of
    /// arrays of bytes.
    pub fn as_byte_lists(&self) -> (lists: Option<Vec<Vec<u8>>>)
        ensures
            match lists {
                Some(held) => self@.byte_lists() is Some && held@.len()
                    == self@.byte_lists()->Some_0.len() && forall|i: int|
                    0 <= i < held@.len() ==> (#[trigger] held@[i])@ == self@.byte_lists()->Some_0[i],
                None => self@.byte_lists() is None,
            },
    {
        match self {
            JsonValue::Array(items) => {
                let ghost model = self@->Array_0;
                let mut lists: Vec<Vec<u8>> = Vec::new();
                let mut i: usize = 0;
                while i < items.len()
                    invariant
                        i <= items@.len(),
                        model.len() == items@.len(),
                        self@ == Json::Array(model),
                        forall|j: int| 0 <= j < items@.len() ==> #[trigger] model[j] == items@[j]@,
                        lists@.len() == i,
                        forall|j: int| 0 <= j < i ==> (#[trigger] model[j]).bytes() is Some,
                        forall|j: int|
                            0 <= j < i ==> (#[trigger] lists@[j])@ == model[j].bytes()->Some_0,
                    decreases items@.len() - i,
                {
                    match items[i].as_bytes() {
                        Some(bytes) => lists.push(bytes),
                        None => {
                            assert(model[i as int].bytes() is None);
                            return None;
                        },
                    }
                    i += 1;
                }
                Some(lists)
            },
            _ => None,
        }
    }

    /// The list of 32-bit integers that this value is, if it is an array of
    /// such.
    pub fn as_i32_list(&self) -> (numbers: Option<Vec<i32>>)
        ensures
            match numbers {
                Some(held) => self@.int32_list() == Some(held@),
                None => self@.int32_list() is None,
            },
    {
        match self {
            JsonValue::Array(items) => {
                let ghost model = self@->Array_0;
                let mut numbers: Vec<i32> = Vec::new();
                let mut i: usize = 0;
                while i < items.len()
                    invariant
                        i <= items@.len(),
                        model.len() == items@.len(),
                        self@ == Json::Array(model),
                        forall|j: int| 0 <= j < items@.len() ==> #[trigger] model[j] == items@[j]@,
                        numbers@.len() == i,
                        forall|j: int|
                            0 <= j < i ==> (#[trigger] model[j]).integer_within(
                                -0x8000_0000,
                                0x7fff_ffff,
                            ) is Some,
                        forall|j: int|
                            0 <= j < i ==> numbers@[j] == (#[trigger] model[j])->Integer_0 as i32,
                    decreases items@.len() - i,
                {
                    match items[i].as_i32() {
                        Some(number) => numbers.push(number),
                        None => {
                            assert(model[i as int].integer_within(-0x8000_0000, 0x7fff_ffff) is None);
                            return None;
                        },
                    }
                    i += 1;
                }
                assert(numbers@ =~= self@.int32_list()->Some_0);
                Some(numbers)
            },
            _ => None,
        }
    }

    /// A copy of the string held by the member called `name`.
    pub fn text_field(&self, name: &str) -> (text: Option<String>)
        ensures
            match text {
                Some(held) => self@.text_field(name@) == Some(held@),
                None => self@.text_field(name@) is None,
            },
    {
        match self.get(name) {
            Some(value) => match value.as_text() {
                Some(text) => Some(text.clone()),
                None => None,
            },
            None => None,
        }
    }

    /// The truth value held by the member called `name`.
    pub fn bool_field(&self, name: &str) -> (truth: Option<bool>)
        ensures
            truth == self@.truth_field(name@),
    {
        match self.get(name) {
            Some(value) => value.as_bool(),
            None => None,
        }
    }

    /// The byte string held by the member called `name`.
    pub fn bytes_field(&self, name: &str) -> (bytes: Option<Vec<u8>>)
        ensures
            match bytes {
                Some(held) => self@.bytes_field(name@) == Some(held@),
                None => self@.bytes_field(name@) is None,
            },
    {
        match self.get(name) {
            Some(value) => value.as_bytes(),
            None => None,
        }
    }

    /// The list of byte strings held by the member called `name`.
    pub fn byte_lists_field(&self, name: &str) -> (lists: Option<Vec<Vec<u8>>>)
        ensures
            match lists {
                Some(held) => self@.byte_lists_field(name@) == Some(held.deep_view()),
                None => self@.byte_lists_field(name@) is None,
            },
    {
        match self.get(name) {
            Some(value) => {
                let lists = value.as_byte_lists();
                proof {
                    if lists is Some {
                        let held = lists->Some_0;
                        assert(held.deep_view() =~= value@.byte_lists()->Some_0) by {
                            assert(held.deep_view().len() == held@.len());
                            assert forall|j: int| 0 <= j < held@.len() implies held.deep_view()[j]
                                == held@[j]@ by {}
                        }
                    }
                }
                lists
            },
            None => None,
        }
    }

    /// The list of 32-bit integers held by the member called `name`.
    pub fn i32_list_field(&self, name: &str) -> (numbers: Option<Vec<i32>>)
        ensures
            match numbers {
                Some(held) => self@.int32_list_field(name@) == Some(held@),
                None => self@.int32_list_field(name@) is None,
            },
    {
        match self.get(name) {
            Some(value) => value.as_i32_list(),
            None => None,
        }
    }

    /// The 32-bit integer held by the member called `name`.
    pub fn i32_field(&self, name: &str) -> (number: Option<i32>)
        ensures
            match number {
                Some(n) => self@.int32_field(name@) == Some(n as int),
                None => self@.int32_field(name@) is None,
            },
    {
        match self.get(name) {
            Some(value) => value.as_i32(),
            None => None,
        }
    }

    /// A copy of the string held by an optional member. The outer `None`
    /// says that the member holds something else than a string.
    pub fn optional_text_field(&self, name: &str) -> (text: Option<Option<String>>)
        ensures
            match text {
                Some(Some(held)) => self@.optional_text_field(name@) == Some(Some(held@)),
                Some(None) => self@.optional_text_field(name@) == Some(None::<Seq<char>>),
                None => self@.optional_text_field(name@) is None,
            },
    {
        match self.get_present(name) {
            Some(value) => match value.as_text() {
                Some(text) => Some(Some(text.clone())),
                None => None,
            },
            None => Some(None),
        }
    }

    /// The byte string held by an optional member. The outer `None` says
    /// that the member holds something else than an array of bytes.
    pub fn optional_bytes_field(&self, name: &str) -> (bytes: Option<Option<Vec<u8>>>)
        ensures
            match bytes {
                Some(Some(held)) => self@.optional_bytes_field(name@) == Some(Some(held@)),
                Some(None) => self@.optional_bytes_field(name@) == Some(None::<Seq<u8>>),
                None => self@.optional_bytes_field(name@) is None,
            },
    {
        match self.get_present(name) {
            Some(value) => match value.as_bytes() {
                Some(bytes) => Some(Some(bytes)),
                None => None,
            },
            None => Some(None),
        }
    }

    /// The string value with the characters of `text`.
    pub fn of_text(text: &str) -> (value: JsonValue)
        ensures
            value@ == Json::Text(text@),
    {
        JsonValue::Text(text.to_owned())
    }

    /// The number value of an unsigned 32-bit integer.
    pub fn of_u32(number: u32) -> (value: JsonValue)
        ensures
            value@ == Json::Integer(number as int),
    {
        JsonValue::Unsigned(number as u64)
    }

    /// The number value of a signed 32-bit integer.
    pub fn of_i32(number: i32) -> (value: JsonValue)
        ensures
            value@ == Json::Integer(number as int),
    {
        if number < 0 {
            JsonValue::Negative(number as i64)
        } else {
            JsonValue::Unsigned(number as u64)
        }
    }

    /// The array of numbers that writes a byte string.
    pub fn of_bytes(bytes: &[u8]) -> (value: JsonValue)
        ensures
            value@ == Json::of_bytes(bytes@),
    {
        let mut items: Vec<JsonValue> = Vec::new();
        let mut i: usize = 0;
        while i < bytes.len()
            invariant
                i <= bytes@.len(),
                items@.len() == i,
                forall|j: int| 0 <= j < i ==> (#[trigger] items@[j])@ == Json::Integer(bytes@[j] as int),
            decreases bytes@.len() - i,
        {
            items.push(JsonValue::Unsigned(bytes[i] as u64));
            i += 1;
        }
        let value = JsonValue::Array(items);
        assert(value@->Array_0 =~= Json::of_bytes(bytes@)->Array_0);
        value
    }

    /// The array of arrays of numbers that writes a list of byte strings.
    pub fn of_byte_lists(lists: &Vec<Vec<u8>>) -> (value: JsonValue)
        ensures
            value@ == Json::of_byte_lists(lists.deep_view()),
    {
        let mut items: Vec<JsonValue> = Vec::new();
        let mut i: usize = 0;
        while i < lists.len()
            invariant
                i <= lists@.len(),
                items@.len() == i,
                forall|j: int| 0 <= j < i ==> (#[trigger] items@[j])@ == Json::of_bytes(lists@[j]@),
            decreases lists@.len() - i,
        {
            items.push(JsonValue::of_bytes(lists[i].as_slice()));
            i += 1;
        }
        let value = JsonValue::Array(items);
        assert(lists.deep_view().len() == lists@.len());
        assert forall|j: int| 0 <= j < lists@.len() implies lists.deep_view()[j] == lists@[j]@ by {}
        assert(value@->Array_0 =~= Json::of_byte_lists(lists.deep_view())->Array_0);
        value
    }

    /// The array of numbers that writes a list of 32-bit integers.
    pub fn of_i32_list(numbers: &[i32]) -> (value: JsonValue)
        ensures
            value@ == Json::of_int32_list(numbers@),
    {
        let mut items: Vec<JsonValue> = Vec::new();
        let mut i: usize = 0;
        while i < numbers.len()
            invariant
                i <= numbers@.len(),
                items@.len() == i,
                forall|j: int|
                    0 <= j < i ==> (#[trigger] items@[j])@ == Json::Integer(numbers@[j] as int),
            decreases numbers@.len() - i,
        {
            items.push(JsonValue::of_i32(numbers[i]));
            i += 1;
        }
        let value = JsonValue::Array(items);
        assert(value@->Array_0 =~= Json::of_int32_list(numbers@)->Array_0);
        value
    }
}

/// A member stands where `find_member` finds it: at the first place that
/// has its name.
pub proof fn lemma_find_member(members: Seq<(Seq<char>, Json)>, name: Seq<char>, place: int)
    requires
        0 <= place < members.len(),
        members[place].0 == name,
        forall|j: int| 0 <= j < place ==> (#[trigger] members[j]).0 != name,
    ensures
        find_member(members, name, 0) == Some(members[place].1),
{
    lemma_find_member_from(members, name, place, 0);
}

proof fn lemma_find_member_from(
    members: Seq<(Seq<char>, Json)>,
    name: Seq<char>,
    place: int,
    from: int,
)
    requires
        0 <= from <= place < members.len(),
        members[place].0 == name,
        forall|j: int| 0 <= j < place ==> (#[trigger] members[j]).0 != name,
    ensures
        find_member(members, name, from) == Some(members[place].1),
    decreases place - from,
{
    if from < place {
        assert(members[from].0 != name);
        lemma_find_member_from(members, name, place, from + 1);
    }
}

/// The array that writes a byte string is read back as that byte string.
pub proof fn lemma_bytes_round_trip(bytes: Seq<u8>)
    ensures
        Json::of_bytes(bytes).bytes() == Some(bytes),
{
    let items = Json::of_bytes(bytes)->Array_0;
    assert forall|i: int| 0 <= i < items.len() implies (#[trigger] items[i]).is_byte() by {}
    assert(Seq::new(items.len(), |i: int| items[i]->Integer_0 as u8) =~= bytes);
}

/// The array that writes a list of byte strings is read back as that list.
pub proof fn lemma_byte_lists_round_trip(lists: Seq<Seq<u8>>)
    ensures
        Json::of_byte_lists(lists).byte_lists() == Some(lists),
{
    let items = Json::of_byte_lists(lists)->Array_0;
    assert forall|i: int| 0 <= i < items.len() implies (#[trigger] items[i]).bytes() == Some(
        lists[i],
    ) by {
        lemma_bytes_round_trip(lists[i]);
    }
    assert(Seq::new(items.len(), |i: int| items[i].bytes()->Some_0) =~= lists);
}

/// The array that writes a list of 32-bit integers is read back as that
/// list.
pub proof fn lemma_int32_list_round_trip(numbers: Seq<i32>)
    ensures
        Json::of_int32_list(numbers).int32_list() == Some(numbers),
{
    let items = Json::of_int32_list(numbers)->Array_0;
    assert forall|i: int| 0 <= i < items.len() implies (#[trigger] items[i]).integer_within(
        -0x8000_0000,
        0x7fff_ffff,
    ) is Some by {}
    assert(Seq::new(items.len(), |i: int| items[i]->Integer_0 as i32) =~= numbers);
}

/// Collects the members of an object that is written field by field.
pub struct ObjectWriter {
    members: Vec<JsonMember>,
}

impl ObjectWriter {
    /// The members written so far.
    pub closed spec fn written(&self) -> Seq<(Seq<char>, Json)> {
        Seq::new(self.members@.len(), |i: int| self.members@[i]@)
    }

    /// A writer with no member yet.
    pub fn new() -> (writer: ObjectWriter)
        ensures
            writer.written() == Seq::<(Seq<char>, Json)>::empty(),
    {
        let writer = ObjectWriter { members: Vec::new() };
        assert(writer.written() =~= Seq::<(Seq<char>, Json)>::empty());
        writer
    }

    /// Adds a member after those written so far.
    pub fn field(&mut self, name: &str, value: JsonValue)
        ensures
            final(self).written() == old(self).written().push((name@, value@)),
    {
        self.members.push(JsonMember { name: name.to_owned(), value });
        assert(self.written() =~= old(self).written().push((name@, value@)));
    }

    /// The object with the members written.
    pub fn finish(self) -> (value: JsonValue)
        ensures
            value@ == Json::Object(self.written()),
    {
        let ghost written = self.written();
        let value = JsonValue::Object(self.members);
        assert(value@->Object_0 =~= written);
        value
    }
}

} // verus!
