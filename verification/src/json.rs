//! JSON values as the library reads them.

use vstd::prelude::*;

verus! {

/// A JSON value, as mathematics: the view of [`Json`].
pub enum JsonValue {
    Null,
    Bool(bool),
    /// A number, by the characters it is written with.
    Number(Seq<char>),
    String(Seq<char>),
    Array(Seq<JsonValue>),
    /// An object, by its members in order: each a key and a value.
    Object(Seq<(Seq<char>, JsonValue)>),
}

/// The position of the first member of `members` whose key is `key`; the
/// length of `members`, if there is none.
pub open spec fn position_of(members: Seq<(Seq<char>, JsonValue)>, key: Seq<char>) -> int
    decreases members.len(),
{
    if members.len() == 0 || members.first().0 == key {
        0
    } else {
        1 + position_of(members.drop_first(), key)
    }
}

impl JsonValue {
    /// The value of the first member under `key`, if `self` is an object that
    /// has one.
    pub open spec fn get(self, key: Seq<char>) -> Option<JsonValue> {
        match self {
            JsonValue::Object(members) => {
                let at = position_of(members, key);
                if at < members.len() {
                    Some(members[at].1)
                } else {
                    None
                }
            },
            _ => None,
        }
    }

    /// The items of `self`, if it is an array.
    pub open spec fn as_array(self) -> Option<Seq<JsonValue>> {
        match self {
            JsonValue::Array(items) => Some(items),
            _ => None,
        }
    }

    /// The characters of `self`, if it is a string.
    pub open spec fn as_str(self) -> Option<Seq<char>> {
        match self {
            JsonValue::String(text) => Some(text),
            _ => None,
        }
    }
}

/// A JSON value.
#[derive(Debug, PartialEq, Eq)]
pub enum Json {
    Null,
    Bool(bool),
    /// A number, by the text it is written with.
    Number(String),
    String(String),
    Array(Vec<Json>),
    /// An object, by its members in order: each a key and a value.
    Object(Vec<(String, Json)>),
}

/// What `json` holds, as mathematics.
pub open spec fn value_of(json: Json) -> JsonValue
    decreases json,
{
    match json {
        Json::Null => JsonValue::Null,
        Json::Bool(b) => JsonValue::Bool(b),
        Json::Number(digits) => JsonValue::Number(digits@),
        Json::String(text) => JsonValue::String(text@),
        Json::Array(items) => JsonValue::Array(
            Seq::new(
                items@.len(),
                |i: int|
                    if 0 <= i < items@.len() {
                        value_of(items@[i])
                    } else {
                        JsonValue::Null
                    },
            ),
        ),
        Json::Object(members) => JsonValue::Object(
            Seq::new(
                members@.len(),
                |i: int|
                    if 0 <= i < members@.len() {
                        (members@[i].0@, value_of(members@[i].1))
                    } else {
                        (Seq::empty(), JsonValue::Null)
                    },
            ),
        ),
    }
}

impl View for Json {
    type V = JsonValue;

    open spec fn view(&self) -> JsonValue {
        value_of(*self)
    }
}

/// Where the first member under `key` stands, the position found is in range
/// and no earlier member has that key.
pub proof fn lemma_position_of(members: Seq<(Seq<char>, JsonValue)>, key: Seq<char>, at: int)
    requires
        0 <= at <= members.len(),
        forall|k: int| 0 <= k < at ==> (#[trigger] members[k]).0 != key,
        at < members.len() ==> members[at].0 == key,
    ensures
        position_of(members, key) == at,
    decreases at,
{
    if at > 0 {
        let rest = members.drop_first();
        assert forall|k: int| 0 <= k < at - 1 implies (#[trigger] rest[k]).0 != key by {
            assert(rest[k] == members[k + 1]);
        }
        lemma_position_of(rest, key, at - 1);
    }
}

/// A member put in anywhere, under another key, changes nothing for `key`.
pub proof fn lemma_get_skips_other_keys(
    members: Seq<(Seq<char>, JsonValue)>,
    at: int,
    other: (Seq<char>, JsonValue),
    key: Seq<char>,
)
    requires
        0 <= at <= members.len(),
        other.0 != key,
    ensures
        JsonValue::Object(members.insert(at, other)).get(key) == JsonValue::Object(members).get(
            key,
        ),
{
    let grown = members.insert(at, other);
    let found = position_of(members, key);
    lemma_position_of_is_first(members, key);
    let moved = if found < at {
        found
    } else {
        found + 1
    };
    assert forall|k: int| 0 <= k < moved implies (#[trigger] grown[k]).0 != key by {
        if k < at {
            assert(grown[k] == members[k]);
        } else if k > at {
            assert(grown[k] == members[k - 1]);
        }
    }
    if found < members.len() {
        assert(grown[moved] == members[found]);
    }
    lemma_position_of(grown, key, moved);
}

/// The position found is in range, the key stands there if it stands
/// anywhere, and no earlier member has it.
pub proof fn lemma_position_of_is_first(members: Seq<(Seq<char>, JsonValue)>, key: Seq<char>)
    ensures
        0 <= position_of(members, key) <= members.len(),
        position_of(members, key) < members.len() ==> members[position_of(members, key)].0 == key,
        forall|k: int| 0 <= k < position_of(members, key) ==> (#[trigger] members[k]).0 != key,
    decreases members.len(),
{
    if members.len() == 0 || members.first().0 == key {
    } else {
        let rest = members.drop_first();
        lemma_position_of_is_first(rest, key);
        assert forall|k: int| 0 <= k < position_of(members, key) implies (#[trigger] members[k]).0
            != key by {
            if k > 0 {
                assert(members[k] == rest[k - 1]);
            }
        }
    }
}

/// The view of an object holds, member by member, the views of its keys and
/// values.
pub proof fn lemma_object_view(members: Vec<(String, Json)>)
    ensures
        Json::Object(members)@ is Object,
        Json::Object(members)@->Object_0.len() == members@.len(),
        forall|k: int|
            0 <= k < members@.len() ==> (#[trigger] Json::Object(members)@->Object_0[k]) == (
                members@[k].0@,
                members@[k].1@,
            ),
{
}

/// The view of an array holds, item by item, the views of its items.
pub proof fn lemma_array_view(items: Vec<Json>)
    ensures
        Json::Array(items)@ is Array,
        Json::Array(items)@->Array_0.len() == items@.len(),
        forall|k: int|
            0 <= k < items@.len() ==> (#[trigger] Json::Array(items)@->Array_0[k]) == items@[k]@,
{
}

/// The tree that `serde_json` builds of a JSON text.
#[verifier::external_type_specification]
#[verifier::external_body]
pub struct ExValue(serde_json::Value);

/// What `serde_json` says of a text that is not JSON.
#[verifier::external_type_specification]
#[verifier::external_body]
pub struct ExError(serde_json::Error);

/// What `serde_json::from_slice` makes of `body`, read as a `serde_json::Value`:
/// the value, or nothing where it reports an error.
pub uninterp spec fn parsed_json(body: Seq<u8>) -> Option<JsonValue>;

/// Moves a `serde_json::Value` into a [`Json`], variant by variant: a number by
/// the text that `serde_json::Number` prints, an object by the members that
/// its map hands out, in the map's order.
#[verifier::external_body]
fn json_from_value(value: serde_json::Value) -> (json: Json) {
    match value {
        serde_json::Value::Null => Json::Null,
        serde_json::Value::Bool(b) => Json::Bool(b),
        serde_json::Value::Number(n) => Json::Number(n.to_string()),
        serde_json::Value::String(s) => Json::String(s),
        serde_json::Value::Array(a) => Json::Array(a.into_iter().map(json_from_value).collect()),
        serde_json::Value::Object(m) => Json::Object(
            m.into_iter().map(|(k, v)| (k, json_from_value(v))).collect(),
        ),
    }
}

/// Calls `serde_json::from_slice` for a `serde_json::Value`. The contract names
/// what it returns, a function of the bytes alone, and says nothing of which
/// bytes are JSON.
#[verifier::external_body]
pub(crate) fn parse_json(body: &[u8]) -> (r: Result<Json, serde_json::Error>)
    ensures
        match r {
            Ok(json) => parsed_json(body@) == Some(json@),
            Err(_) => parsed_json(body@) is None,
        },
{
    match serde_json::from_slice::<serde_json::Value>(body) {
        Ok(value) => Ok(json_from_value(value)),
        Err(error) => Err(error),
    }
}

impl Json {
    /// The value of the first member under `key`, if `self` is an object that
    /// has one.
    pub fn get(&self, key: &str) -> (r: Option<&Json>)
        ensures
            match r {
                Some(value) => self@.get(key@) == Some(value@),
                None => self@.get(key@) is None,
            },
    {
        match self {
            Json::Object(members) => {
                let wanted = key.to_owned();
                let mut at: usize = 0;
                proof {
                    lemma_object_view(*members);
                }
                while at < members.len() && members[at].0 != wanted
                    invariant
                        at <= members.len(),
                        wanted@ == key@,
                        self@ matches JsonValue::Object(ms) && ms.len() == members.len()
                            && forall|k: int| 0 <= k < at ==> (#[trigger] ms[k]).0 != key@,
                        forall|k: int| 0 <= k < members.len() ==> self@->Object_0[k] == (members[k].0@, members[k].1@),
                    decreases members.len() - at,
                {
                    at = at + 1;
                }
                proof {
                    lemma_position_of(self@->Object_0, key@, at as int);
                }
                if at < members.len() {
                    Some(&members[at].1)
                } else {
                    None
                }
            },
            _ => None,
        }
    }

    /// The items of `self`, if it is an array.
    pub fn as_array(&self) -> (r: Option<&Vec<Json>>)
        ensures
            match r {
                Some(items) => self@.as_array() is Some && self@.as_array()->0.len() == items@.len()
                    && forall|k: int|
                    0 <= k < items@.len() ==> (#[trigger] self@.as_array()->0[k]) == items@[k]@,
                None => self@.as_array() is None,
            },
    {
        match self {
            Json::Array(items) => {
                proof {
                    lemma_array_view(*items);
                }
                Some(items)
            },
            _ => None,
        }
    }

    /// The text of `self`, if it is a string.
    pub fn as_str(&self) -> (r: Option<&str>)
        ensures
            match r {
                Some(text) => self@.as_str() == Some(text@),
                None => self@.as_str() is None,
            },
    {
        match self {
            Json::String(text) => Some(text.as_str()),
            _ => None,
        }
    }
}

} // verus!
