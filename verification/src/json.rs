//! JSON values as `serde_json` reads them, held as plain data: enough of a
//! value to walk its objects and arrays and read its texts.

use vstd::prelude::*;

verus! {

#[verifier::external_type_specification]
#[verifier::external_body]
pub struct ExJsonValue(serde_json::Value);

/// A JSON value. Numbers are kept without their value, which nothing here
/// reads; an object keeps its members in the order `serde_json` hands them
/// out, each key once.
pub enum Json {
    Null,
    Bool(bool),
    Number,
    Text(String),
    Array(Vec<Json>),
    Object(Vec<JsonMember>),
}

/// A member of a JSON object.
pub struct JsonMember {
    pub key: String,
    pub value: Json,
}

pub enum JsonView {
    Null,
    Bool(bool),
    Number,
    Text(Seq<char>),
    Array(Seq<JsonView>),
    Object(Seq<(Seq<char>, JsonView)>),
}

impl Json {
    pub open spec fn view_of(self) -> JsonView
        decreases self,
    {
        match self {
            Json::Null => JsonView::Null,
            Json::Bool(b) => JsonView::Bool(b),
            Json::Number => JsonView::Number,
            Json::Text(t) => JsonView::Text(t@),
            Json::Array(items) => JsonView::Array(
                Seq::new(items@.len(), |i: int| if 0 <= i < items@.len() { items@[i].view_of() } else { JsonView::Null }),
            ),
            Json::Object(members) => JsonView::Object(
                Seq::new(members@.len(), |i: int| if 0 <= i < members@.len() {
                    (members@[i].key@, members@[i].value.view_of())
                } else {
                    (Seq::empty(), JsonView::Null)
                }),
            ),
        }
    }
}

/// The JSON value that `serde_json::from_slice` reads from the bytes, or
/// `None` where it reads none.
pub uninterp spec fn json_of(bytes: Seq<u8>) -> Option<JsonView>;

/// Copies a `serde_json::Value` into a `Json`, variant by variant (members
/// of an object in the order the map hands them out). Its result is stated
/// by `parse_json`, its only caller.
#[verifier::external_body]
fn from_value(value: &serde_json::Value) -> (r: Json) {
    match value {
        serde_json::Value::Null => Json::Null,
        serde_json::Value::Bool(b) => Json::Bool(*b),
        serde_json::Value::Number(_) => Json::Number,
        serde_json::Value::String(t) => Json::Text(t.clone()),
        serde_json::Value::Array(items) => Json::Array(items.iter().map(from_value).collect()),
        serde_json::Value::Object(members) => Json::Object(
            members.iter().map(|(key, value)| JsonMember { key: key.clone(), value: from_value(value) }).collect(),
        ),
    }
}

/// Calls `serde_json::from_slice` for a `serde_json::Value` and copies the
/// value it reads; the result is named by `json_of`.
#[verifier::external_body]
pub(crate) fn parse_json(bytes: &[u8]) -> (r: Option<Json>)
    ensures
        match r {
            Some(j) => json_of(bytes@) == Some(j.view_of()),
            None => json_of(bytes@) is None,
        },
{
    match serde_json::from_slice::<serde_json::Value>(bytes) {
        Ok(value) => Some(from_value(&value)),
        Err(_) => None,
    }
}

/// The value of the first member with this key.
pub open spec fn member_of(members: Seq<(Seq<char>, JsonView)>, key: Seq<char>) -> Option<JsonView>
    decreases members.len(),
{
    if members.len() == 0 {
        None
    } else if members[0].0 == key {
        Some(members[0].1)
    } else {
        member_of(members.drop_first(), key)
    }
}

/// The member of an object with this key; nothing for any other value.
pub open spec fn field(j: JsonView, key: Seq<char>) -> Option<JsonView> {
    match j {
        JsonView::Object(members) => member_of(members, key),
        _ => None,
    }
}

/// The element of an array at this position; nothing for any other value.
pub open spec fn element(j: JsonView, position: int) -> Option<JsonView> {
    match j {
        JsonView::Array(items) => if 0 <= position < items.len() { Some(items[position]) } else { None },
        _ => None,
    }
}

/// The text of a JSON string; nothing for any other value.
pub open spec fn text_of(j: JsonView) -> Option<Seq<char>> {
    match j {
        JsonView::Text(t) => Some(t),
        _ => None,
    }
}

pub open spec fn view_of_option(j: Option<&Json>) -> Option<JsonView> {
    match j {
        Some(v) => Some(v.view_of()),
        None => None,
    }
}

impl Json {
    /// The member of an object with this key.
    pub fn field(&self, key: &str) -> (r: Option<&Json>)
        ensures
            view_of_option(r) == field(self.view_of(), key@),
    {
        match self {
            Json::Object(members) => {
                let ghost ms = self.view_of()->Object_0;
                let wanted = String::from_str(key);
                let mut i: usize = 0;
                assert(ms.skip(0) =~= ms);
                while i < members.len()
                    invariant
                        i <= members@.len(),
                        ms.len() == members@.len(),
                        forall|k: int| 0 <= k < ms.len() ==> #[trigger] ms[k]
                            == (members@[k].key@, members@[k].value.view_of()),
                        wanted@ == key@,
                        self.view_of() == JsonView::Object(ms),
                        member_of(ms, key@) == member_of(ms.skip(i as int), key@),
                    decreases members@.len() - i,
                {
                    assert(ms.skip(i as int)[0] == ms[i as int]);
                    if members[i].key == wanted {
                        assert(ms.skip(i as int).len() > 0);
                        assert(ms[i as int].0 == key@);
                        assert(member_of(ms.skip(i as int), key@) == Some(ms[i as int].1));
                        return Some(&members[i].value);
                    }
                    assert(ms.skip(i as int).drop_first() =~= ms.skip(i + 1));
                    i = i + 1;
                }
                None
            },
            _ => None,
        }
    }

    /// The element of an array at this position.
    pub fn element(&self, position: usize) -> (r: Option<&Json>)
        ensures
            view_of_option(r) == element(self.view_of(), position as int),
    {
        match self {
            Json::Array(items) => if position < items.len() {
                Some(&items[position])
            } else {
                None
            },
            _ => None,
        }
    }

    /// The text of a JSON string.
    pub fn text(&self) -> (r: Option<String>)
        ensures
            match r {
                Some(t) => text_of(self.view_of()) == Some(t@),
                None => text_of(self.view_of()) is None,
            },
    {
        match self {
            Json::Text(t) => Some(t.clone()),
            _ => None,
        }
    }
}

} // verus!
