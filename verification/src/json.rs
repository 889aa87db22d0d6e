//! A JSON object read one level deep: the keys of the object and, for each,
//! whether the value is a string, a null or something else. The socket feed's
//! payloads are flat objects of strings, so this is all that their decoding
//! reads.

use vstd::prelude::*;

verus! {

/// The value under one key of a JSON object. A string is kept with its text
/// and a boolean with its value; of a number, an array or a nested object only
/// the kind is kept.
#[derive(Debug, Clone, PartialEq, Eq)]
pub enum JsonField {
    Null,
    Bool(bool),
    Number,
    Text(String),
    Array,
    Object,
}

/// Mathematical counterpart of [`JsonField`].
pub enum JsonFieldView {
    Null,
    Bool(bool),
    Number,
    Text(Seq<char>),
    Array,
    Object,
}

impl View for JsonField {
    type V = JsonFieldView;

    open spec fn view(&self) -> JsonFieldView {
        match self {
            JsonField::Null => JsonFieldView::Null,
            JsonField::Bool(b) => JsonFieldView::Bool(*b),
            JsonField::Number => JsonFieldView::Number,
            JsonField::Text(s) => JsonFieldView::Text(s@),
            JsonField::Array => JsonFieldView::Array,
            JsonField::Object => JsonFieldView::Object,
        }
    }
}

/// The members of a JSON object, by key.
pub type JsonMembers = Map<Seq<char>, JsonFieldView>;

/// The object described by a list of members, a later member replacing an
/// earlier one of the same key.
spec fn members_of(entries: Seq<(String, JsonField)>) -> JsonMembers
    decreases entries.len(),
{
    if entries.len() == 0 {
        Map::empty()
    } else {
        members_of(entries.drop_last()).insert(entries.last().0@, entries.last().1@)
    }
}

/// The string under `key`, if the object holds one there.
pub open spec fn text_at(members: JsonMembers, key: Seq<char>) -> Option<Seq<char>> {
    if members.dom().contains(key) && members[key] is Text {
        Some(members[key]->Text_0)
    } else {
        None
    }
}

/// Whether `key` may be read as an optional string: it is absent, null or a
/// string.
pub open spec fn optional_text_ok(members: JsonMembers, key: Seq<char>) -> bool {
    !members.dom().contains(key) || members[key] is Null || members[key] is Text
}

/// A parsed JSON object.
#[derive(Debug, Clone)]
pub struct JsonObject {
    entries: Vec<(String, JsonField)>,
}

impl View for JsonObject {
    type V = JsonMembers;

    closed spec fn view(&self) -> JsonMembers {
        members_of(self.entries@)
    }
}

/// What `serde_json` makes of a text that is parsed as a JSON object: the
/// members of the object, or the parser's message where the text is no JSON
/// object.
pub uninterp spec fn json_object_of(text: Seq<char>) -> Result<JsonMembers, Seq<char>>;

/// Parses `text` with `serde_json::from_str` as a map from strings to JSON
/// values. The members come back one for one; numbers, arrays and nested
/// objects keep only their kind. The text alone decides the outcome, which the
/// contract names `json_object_of`. Nothing else is claimed and nothing here
/// is proved: which texts parse, and what the message of a failure says, is
/// for `serde_json` to decide.
#[verifier::external_body]
pub(crate) fn parse_members(text: &str) -> (parsed: Result<JsonObject, String>)
    ensures
        match parsed {
            Ok(object) => json_object_of(text@) == Ok::<JsonMembers, Seq<char>>(object@),
            Err(message) => json_object_of(text@) == Err::<JsonMembers, Seq<char>>(message@),
        },
{
    match serde_json::from_str::<serde_json::Map<String, serde_json::Value>>(text) {
        Err(error) => Err(error.to_string()),
        Ok(map) => Ok(JsonObject {
            entries: map.into_iter().map(|(key, value)| (key, match value {
                serde_json::Value::Null => JsonField::Null,
                serde_json::Value::Bool(b) => JsonField::Bool(b),
                serde_json::Value::Number(_) => JsonField::Number,
                serde_json::Value::String(s) => JsonField::Text(s),
                serde_json::Value::Array(_) => JsonField::Array,
                serde_json::Value::Object(_) => JsonField::Object,
            })).collect(),
        }),
    }
}

impl JsonObject {
    /// An object without members.
    pub fn new() -> (object: Self)
        ensures
            object@ == Map::<Seq<char>, JsonFieldView>::empty(),
    {
        JsonObject { entries: Vec::new() }
    }

    /// Sets the member `key` to `value`, replacing what was there.
    pub fn insert(&mut self, key: String, value: JsonField)
        ensures
            final(self)@ == old(self)@.insert(key@, value@),
    {
        self.entries.push((key, value));
        assert(self.entries@.drop_last() == old(self).entries@);
    }

    /// Looks up the member `key`.
    pub fn get(&self, key: &str) -> (found: Option<&JsonField>)
        ensures
            match found {
                Some(value) => self@.dom().contains(key@) && self@[key@] == value@,
                None => !self@.dom().contains(key@),
            },
    {
        let wanted = key.to_owned();
        let mut found: Option<&JsonField> = None;
        let mut i: usize = 0;
        while i < self.entries.len()
            invariant
                i <= self.entries.len(),
                wanted@ == key@,
                match found {
                    Some(value) => members_of(self.entries@.take(i as int)).dom().contains(key@)
                        && members_of(self.entries@.take(i as int))[key@] == value@,
                    None => !members_of(self.entries@.take(i as int)).dom().contains(key@),
                },
            decreases self.entries.len() - i,
        {
            proof {
                let next = self.entries@.take(i + 1);
                assert(next.drop_last() == self.entries@.take(i as int));
                assert(next.last() == self.entries@[i as int]);
            }
            if self.entries[i].0 == wanted {
                found = Some(&self.entries[i].1);
            }
            i += 1;
        }
        proof {
            assert(self.entries@.take(i as int) == self.entries@);
        }
        found
    }
}

} // verus!
