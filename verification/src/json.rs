//! JSON values, and the calls that turn them into bytes and back.

use serde_json::Value;
use vstd::prelude::*;

verus! {

// Makes `serde_json::Value` known as an opaque type.
#[verifier::external_type_specification]
#[verifier::external_body]
pub struct ExValue(Value);

/// A JSON value, as executable data.
#[derive(Debug)]
pub enum Json {
    Null,
    Bool(bool),
    /// A number: its value where it is an integer from 0 to 2^64 - 1, `None` for
    /// any other number.
    Number(Option<u64>),
    Text(String),
    Array(Vec<Json>),
    /// An object: its members in order, each a name and a value.
    Object(Vec<(String, Json)>),
}

/// A JSON value, as mathematics.
pub enum JsonView {
    Null,
    Bool(bool),
    Number(Option<u64>),
    Text(Seq<char>),
    Array(Seq<JsonView>),
    Object(Seq<(Seq<char>, JsonView)>),
}

impl View for Json {
    type V = JsonView;

    /// The same value with sequences for vectors. The sequences are built index
    /// by index; past the length, which no index reaches, stands a filler.
    open spec fn view(&self) -> JsonView
        decreases self,
    {
        match self {
            Json::Null => JsonView::Null,
            Json::Bool(b) => JsonView::Bool(*b),
            Json::Number(n) => JsonView::Number(*n),
            Json::Text(s) => JsonView::Text(s@),
            Json::Array(items) => JsonView::Array(
                Seq::new(
                    items.len() as nat,
                    |i: int|
                        if 0 <= i < items.len() {
                            items[i].view()
                        } else {
                            JsonView::Null
                        },
                ),
            ),
            Json::Object(members) => JsonView::Object(
                Seq::new(
                    members.len() as nat,
                    |i: int|
                        if 0 <= i < members.len() {
                            (members[i].0@, members[i].1.view())
                        } else {
                            (Seq::empty(), JsonView::Null)
                        },
                ),
            ),
        }
    }
}

/// The value of the last of `members` that is named `key`.
pub open spec fn member(members: Seq<(Seq<char>, JsonView)>, key: Seq<char>) -> Option<JsonView>
    decreases members.len(),
{
    if members.len() == 0 {
        None
    } else if members.last().0 == key {
        Some(members.last().1)
    } else {
        member(members.drop_last(), key)
    }
}

/// A member is found under its name where no later member bears that name.
pub proof fn lemma_member_found(members: Seq<(Seq<char>, JsonView)>, i: int)
    requires
        0 <= i < members.len(),
        forall|k: int| i < k < members.len() ==> members[k].0 != members[i].0,
    ensures
        member(members, members[i].0) == Some(members[i].1),
    decreases members.len(),
{
    if i < members.len() - 1 {
        let rest = members.drop_last();
        assert(rest[i] == members[i]);
        assert forall|k: int| i < k < rest.len() implies rest[k].0 != rest[i].0 by {
            assert(rest[k] == members[k]);
        }
        lemma_member_found(rest, i);
    }
}

impl JsonView {
    /// The member named `key` of an object; `None` for a value that is no object
    /// or has no such member.
    pub open spec fn field(self, key: Seq<char>) -> Option<JsonView> {
        match self {
            JsonView::Object(members) => member(members, key),
            _ => None,
        }
    }

    /// The characters of a string.
    pub open spec fn as_text(self) -> Option<Seq<char>> {
        match self {
            JsonView::Text(text) => Some(text),
            _ => None,
        }
    }

    /// The value of a number that is an unsigned integer of 64 bits.
    pub open spec fn as_uint(self) -> Option<u64> {
        match self {
            JsonView::Number(Some(n)) => Some(n),
            _ => None,
        }
    }

    /// The string that is the member named `key`.
    pub open spec fn text_field(self, key: Seq<char>) -> Option<Seq<char>> {
        match self.field(key) {
            Some(value) => value.as_text(),
            None => None,
        }
    }

    /// The unsigned integer that is the member named `key`.
    pub open spec fn uint_field(self, key: Seq<char>) -> Option<u64> {
        match self.field(key) {
            Some(value) => value.as_uint(),
            None => None,
        }
    }

    /// The member named `key`, where it is an unsigned integer of 32 bits.
    pub open spec fn u32_field(self, key: Seq<char>) -> Option<u32> {
        match self.uint_field(key) {
            Some(n) => if n <= u32::MAX {
                Some(n as u32)
            } else {
                None
            },
            None => None,
        }
    }

    /// The member named `key`, where it is an unsigned integer of 8 bits.
    pub open spec fn u8_field(self, key: Seq<char>) -> Option<u8> {
        match self.uint_field(key) {
            Some(n) => if n <= u8::MAX {
                Some(n as u8)
            } else {
                None
            },
            None => None,
        }
    }
}

/// The views of the values in `items`, in order.
pub open spec fn item_views(items: Seq<Json>) -> Seq<JsonView> {
    items.map_values(|item: Json| item@)
}

/// The views of `members`, in order: each name with its value.
pub open spec fn member_views(members: Seq<(String, Json)>) -> Seq<(Seq<char>, JsonView)> {
    members.map_values(|m: (String, Json)| (m.0@, m.1@))
}

/// The view of an array is the array of its items' views.
pub proof fn lemma_array_view(items: Vec<Json>)
    ensures
        Json::Array(items)@ == JsonView::Array(item_views(items@)),
{
    reveal_with_fuel(<Json as View>::view, 2);
    assert(Json::Array(items)@->Array_0 =~= item_views(items@));
}

/// The view of an object is the object of its members' views.
pub proof fn lemma_object_view(members: Vec<(String, Json)>)
    ensures
        Json::Object(members)@ == JsonView::Object(member_views(members@)),
{
    reveal_with_fuel(<Json as View>::view, 2);
    assert(Json::Object(members)@->Object_0 =~= member_views(members@));
}

/// What `serde_json::from_slice` reads from `bytes` as a JSON value; `None` where
/// it reports an error.
pub uninterp spec fn json_parse(bytes: Seq<u8>) -> Option<JsonView>;

/// The bytes that `serde_json::to_vec` writes for the JSON value `tree`.
pub uninterp spec fn json_bytes(tree: JsonView) -> Seq<u8>;

/// Moves a `serde_json::Value` into a `Json`, variant by variant and member by
/// member in the order in which the value holds them. A number keeps what
/// `Number::as_u64` gives for it.
#[verifier::external_body]
fn json_of_value(value: Value) -> Json {
    match value {
        Value::Null => Json::Null,
        Value::Bool(b) => Json::Bool(b),
        Value::Number(n) => Json::Number(n.as_u64()),
        Value::String(text) => Json::Text(text),
        Value::Array(items) => Json::Array(items.into_iter().map(json_of_value).collect()),
        Value::Object(members) => Json::Object(
            members.into_iter().map(|(name, value)| (name, json_of_value(value))).collect(),
        ),
    }
}

/// Copies a `Json` into a `serde_json::Value`, variant by variant and member by
/// member in order. A number without a value becomes what `Value::from` makes of
/// `None`.
#[verifier::external_body]
fn value_of_json(tree: &Json) -> Value {
    match tree {
        Json::Null => Value::Null,
        Json::Bool(b) => Value::Bool(*b),
        Json::Number(n) => Value::from(*n),
        Json::Text(text) => Value::String(text.clone()),
        Json::Array(items) => Value::Array(items.iter().map(value_of_json).collect()),
        Json::Object(members) => Value::Object(
            members.iter().map(|(name, value)| (name.clone(), value_of_json(value))).collect(),
        ),
    }
}

/// Calls `serde_json::from_slice` for a `Value`: the bytes have to be one JSON
/// text, with nothing but white space around it.
#[verifier::external_body]
fn parse(bytes: &[u8]) -> (found: Option<Json>)
    ensures
        match found {
            Some(tree) => json_parse(bytes@) == Some(tree@),
            None => json_parse(bytes@) is None,
        },
{
    match serde_json::from_slice::<Value>(bytes) {
        Ok(value) => Some(json_of_value(value)),
        Err(_) => None,
    }
}

/// Calls `serde_json::to_vec` on the value. Writing a `Value` into a vector
/// raises no error, so the empty default is never taken.
#[verifier::external_body]
pub(crate) fn print(tree: &Json) -> (bytes: Vec<u8>)
    ensures
        bytes@ == json_bytes(tree@),
{
    serde_json::to_vec(&value_of_json(tree)).unwrap_or_default()
}

impl Json {
    /// Reads one JSON text.
    pub fn from_bytes(bytes: &[u8]) -> (found: Option<Json>)
        ensures
            match found {
                Some(tree) => json_parse(bytes@) == Some(tree@),
                None => json_parse(bytes@) is None,
            },
    {
        parse(bytes)
    }

    /// The member named `key`, where this is an object that has one; of several
    /// that bear the name, the last.
    pub fn get(&self, key: &str) -> (found: Option<&Json>)
        ensures
            match found {
                Some(value) => self@.field(key@) == Some(value@),
                None => self@.field(key@) is None,
            },
    {
        match self {
            Json::Object(members) => {
                let ghost all = member_views(members@);
                let name = key.to_owned();
                let mut i: usize = members.len();
                proof {
                    lemma_object_view(*members);
                    assert(all.take(i as int) =~= all);
                }
                while i > 0
                    invariant
                        i <= members.len(),
                        name@ == key@,
                        all == member_views(members@),
                        self@ == JsonView::Object(all),
                        member(all, key@) == member(all.take(i as int), key@),
                    decreases i,
                {
                    i = i - 1;
                    proof {
                        assert(all.take(i + 1).drop_last() =~= all.take(i as int));
                    }
                    if members[i].0 == name {
                        return Some(&members[i].1);
                    }
                }
                None
            },
            _ => None,
        }
    }

    /// The string that is the member named `key`.
    pub fn text_field(&self, key: &str) -> (found: Option<String>)
        ensures
            match found {
                Some(text) => self@.text_field(key@) == Some(text@),
                None => self@.text_field(key@) is None,
            },
    {
        match self.get(key) {
            Some(Json::Text(text)) => Some(text.clone()),
            _ => None,
        }
    }

    /// The unsigned integer that is the member named `key`.
    pub fn uint_field(&self, key: &str) -> (found: Option<u64>)
        ensures
            found == self@.uint_field(key@),
    {
        match self.get(key) {
            Some(Json::Number(Some(n))) => Some(*n),
            _ => None,
        }
    }

    /// The member named `key`, where it is an unsigned integer of 32 bits.
    pub fn u32_field(&self, key: &str) -> (found: Option<u32>)
        ensures
            found == self@.u32_field(key@),
    {
        match self.uint_field(key) {
            Some(n) => {
                if n <= 0xffff_ffff {
                    Some(n as u32)
                } else {
                    None
                }
            },
            None => None,
        }
    }

    /// The member named `key`, where it is an unsigned integer of 8 bits.
    pub fn u8_field(&self, key: &str) -> (found: Option<u8>)
        ensures
            found == self@.u8_field(key@),
    {
        match self.uint_field(key) {
            Some(n) => {
                if n <= 0xff {
                    Some(n as u8)
                } else {
                    None
                }
            },
            None => None,
        }
    }
}

} // verus!
