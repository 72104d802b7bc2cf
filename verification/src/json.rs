//! JSON documents.
use vstd::prelude::*;
use vstd::string::*;
use crate::text::same_text;

verus! {

/// A number of a JSON document, as far as it is an integer of 64 bits.
#[derive(Debug, Clone, Copy, PartialEq, Eq, Structural)]
pub struct JsonNumber {
    pub unsigned: Option<u64>,
    pub signed: Option<i64>,
}

/// A JSON value. The members of an object keep their order.
#[derive(Debug, PartialEq, Eq)]
pub enum Json {
    Null,
    Bool(bool),
    Number(JsonNumber),
    Text(String),
    Array(Vec<Json>),
    Object(Vec<(String, Json)>),
}

/// What a `Json` stands for.
pub enum JsonView {
    Null,
    Bool(bool),
    Number(JsonNumber),
    Text(Seq<char>),
    Array(Seq<JsonView>),
    Object(Seq<(Seq<char>, JsonView)>),
}

/// What a JSON value stands for.
pub open spec fn json_view(json: Json) -> JsonView
    decreases json,
{
    match json {
        Json::Null => JsonView::Null,
        Json::Bool(value) => JsonView::Bool(value),
        Json::Number(value) => JsonView::Number(value),
        Json::Text(value) => JsonView::Text(value@),
        Json::Array(items) => JsonView::Array(
            Seq::new(
                items@.len(),
                |i: int|
                    if 0 <= i < items@.len() {
                        json_view(items@[i])
                    } else {
                        JsonView::Null
                    },
            ),
        ),
        Json::Object(members) => JsonView::Object(
            Seq::new(
                members@.len(),
                |i: int|
                    if 0 <= i < members@.len() {
                        (members@[i].0@, json_view(members@[i].1))
                    } else {
                        (Seq::empty(), JsonView::Null)
                    },
            ),
        ),
    }
}

impl View for Json {
    type V = JsonView;

    open spec fn view(&self) -> JsonView {
        json_view(*self)
    }
}

impl DeepView for Json {
    type V = JsonView;

    open spec fn deep_view(&self) -> JsonView {
        json_view(*self)
    }
}

/// A value of the `serde_json` crate.
#[verifier::external_type_specification]
#[verifier::external_body]
pub struct ExValue(serde_json::Value);

/// What a `serde_json::Value` holds.
pub uninterp spec fn value_contents(value: serde_json::Value) -> JsonView;

/// What `serde_json::from_slice` makes of the bytes: the value that they hold, or the text of the
/// error.
pub uninterp spec fn json_document(bytes: Seq<u8>) -> Result<JsonView, Seq<char>>;

/// `serde_json::from_slice` for a `serde_json::Value`: the value that the bytes hold, or the text of
/// its error. Which bytes are a document, and what each holds, is left to the name `json_document`.
#[verifier::external_body]
pub(crate) fn parse_value(bytes: &[u8]) -> (r: Result<serde_json::Value, String>)
    ensures
        match r {
            Ok(value) => json_document(bytes@) == Ok::<JsonView, Seq<char>>(value_contents(value)),
            Err(text) => json_document(bytes@) == Err::<JsonView, Seq<char>>(text@),
        },
{
    serde_json::from_slice::<serde_json::Value>(bytes).map_err(|error| error.to_string())
}

/// The variants of `serde_json::Value`, one for one: what the value holds is what the `Json` stands
/// for. A number is asked for its `as_u64` and its `as_i64`.
#[verifier::external_body]
pub(crate) fn json_of_value(value: serde_json::Value) -> (r: Json)
    ensures
        r@ == value_contents(value),
{
    match value {
        serde_json::Value::Null => Json::Null,
        serde_json::Value::Bool(value) => Json::Bool(value),
        serde_json::Value::Number(value) => {
            Json::Number(JsonNumber { unsigned: value.as_u64(), signed: value.as_i64() })
        },
        serde_json::Value::String(value) => Json::Text(value),
        serde_json::Value::Array(items) => {
            Json::Array(items.into_iter().map(json_of_value).collect())
        },
        serde_json::Value::Object(members) => {
            Json::Object(members.into_iter().map(|(key, value)| (key, json_of_value(value))).collect())
        },
    }
}

/// The document that the bytes hold, or the text of the error.
pub fn parse_json(bytes: &[u8]) -> (r: Result<Json, String>)
    ensures
        match r {
            Ok(json) => json_document(bytes@) == Ok::<JsonView, Seq<char>>(json@),
            Err(text) => json_document(bytes@) == Err::<JsonView, Seq<char>>(text@),
        },
{
    match parse_value(bytes) {
        Ok(value) => Ok(json_of_value(value)),
        Err(text) => Err(text),
    }
}

/// The first member of the given name.
pub open spec fn member(members: Seq<(Seq<char>, JsonView)>, key: Seq<char>) -> Option<JsonView>
    decreases members.len(),
{
    if members.len() == 0 {
        None
    } else if members[0].0 == key {
        Some(members[0].1)
    } else {
        member(members.drop_first(), key)
    }
}

impl JsonView {
    /// The member of an object; other values have none.
    pub open spec fn get(self, key: Seq<char>) -> Option<JsonView> {
        match self {
            JsonView::Object(members) => member(members, key),
            _ => None,
        }
    }

    /// The first of two members that is there.
    pub open spec fn get_either(self, first: Seq<char>, second: Seq<char>) -> Option<JsonView> {
        match self.get(first) {
            Some(value) => Some(value),
            None => self.get(second),
        }
    }

    pub open spec fn as_text(self) -> Option<Seq<char>> {
        match self {
            JsonView::Text(value) => Some(value),
            _ => None,
        }
    }

    pub open spec fn as_bool(self) -> Option<bool> {
        match self {
            JsonView::Bool(value) => Some(value),
            _ => None,
        }
    }

    pub open spec fn as_unsigned(self) -> Option<u64> {
        match self {
            JsonView::Number(value) => value.unsigned,
            _ => None,
        }
    }

    pub open spec fn as_signed(self) -> Option<i64> {
        match self {
            JsonView::Number(value) => value.signed,
            _ => None,
        }
    }

    /// The text under the first of the keys that holds one.
    pub open spec fn text_under(self, keys: Seq<Seq<char>>) -> Option<Seq<char>>
        decreases keys.len(),
    {
        if keys.len() == 0 {
            None
        } else {
            match self.get(keys[0]) {
                Some(JsonView::Text(text)) => Some(text),
                _ => self.text_under(keys.drop_first()),
            }
        }
    }
}

/// A reference to a JSON value by what it stands for.
pub open spec fn seen_json(json: Option<&Json>) -> Option<JsonView> {
    match json {
        Some(value) => Some(value@),
        None => None,
    }
}

impl Json {
    /// The member of an object; other values have none.
    pub fn get(&self, key: &str) -> (r: Option<&Json>)
        ensures
            seen_json(r) == self@.get(key@),
    {
        match self {
            Json::Object(members) => {
                let ghost all = self@->Object_0;
                let mut i: usize = 0;
                assert(all.skip(0) =~= all);
                while i < members.len()
                    invariant
                        i <= members@.len(),
                        self@ == JsonView::Object(all),
                        all.len() == members@.len(),
                        forall|k: int|
                            0 <= k < members@.len() ==> #[trigger] all[k] == (
                                members@[k].0@,
                                members@[k].1@,
                            ),
                        member(all, key@) == member(all.skip(i as int), key@),
                    decreases members@.len() - i,
                {
                    assert(all.skip(i as int)[0] == all[i as int]);
                    assert(all.skip(i as int).drop_first() =~= all.skip(i as int + 1));
                    if same_text(members[i].0.as_str(), key) {
                        return Some(&members[i].1);
                    }
                    i = i + 1;
                }
                None
            },
            _ => None,
        }
    }

    /// The first of two members that is there.
    pub fn get_either(&self, first: &str, second: &str) -> (r: Option<&Json>)
        ensures
            seen_json(r) == self@.get_either(first@, second@),
    {
        match self.get(first) {
            Some(value) => Some(value),
            None => self.get(second),
        }
    }

    /// The text under the first of the keys that holds one.
    pub fn text_under(&self, keys: &Vec<String>) -> (r: Option<String>)
        ensures
            r.deep_view() == self@.text_under(keys.deep_view()),
    {
        let ghost all = keys.deep_view();
        let mut i: usize = 0;
        assert(all.skip(0) =~= all);
        while i < keys.len()
            invariant
                i <= keys@.len(),
                all == keys.deep_view(),
                self@.text_under(all) == self@.text_under(all.skip(i as int)),
            decreases keys@.len() - i,
        {
            assert(all.skip(i as int)[0] == keys@[i as int]@);
            assert(all.skip(i as int).drop_first() =~= all.skip(i as int + 1));
            if let Some(found) = self.get(keys[i].as_str()) {
                if let Some(text) = found.as_text() {
                    return Some(text);
                }
            }
            i = i + 1;
        }
        None
    }

    pub fn as_text(&self) -> (r: Option<String>)
        ensures
            r.deep_view() == self@.as_text(),
    {
        match self {
            Json::Text(value) => Some(value.clone()),
            _ => None,
        }
    }

    pub fn as_bool(&self) -> (r: Option<bool>)
        ensures
            r == self@.as_bool(),
    {
        match self {
            Json::Bool(value) => Some(*value),
            _ => None,
        }
    }

    pub fn as_unsigned(&self) -> (r: Option<u64>)
        ensures
            r == self@.as_unsigned(),
    {
        match self {
            Json::Number(value) => value.unsigned,
            _ => None,
        }
    }

    pub fn as_signed(&self) -> (r: Option<i64>)
        ensures
            r == self@.as_signed(),
    {
        match self {
            Json::Number(value) => value.signed,
            _ => None,
        }
    }
}

/// A member of an object is found by its key: the first one that bears it, and where one does, one is
/// found. Under several keys the first that holds a text counts.
pub proof fn law_member_is_found_by_its_key(
    before: Seq<(Seq<char>, JsonView)>,
    key: Seq<char>,
    value: JsonView,
    after: Seq<(Seq<char>, JsonView)>,
    other: Seq<char>,
    text: Seq<char>,
)
    requires
        forall|i: int| 0 <= i < before.len() ==> (#[trigger] before[i]).0 != key,
    ensures
        member(before + seq![(key, value)] + after, key) == Some(value),
        member(before, key) is None,
        JsonView::Object(before + seq![(key, value)] + after).get(key) == Some(value),
        JsonView::Object(before).get(key) is None,
        value.get(other) == Some(JsonView::Text(text)) ==> value.text_under(seq![other, key])
            == Some(text),
        value.get(other) is None && value.get(key) == Some(JsonView::Text(text))
            ==> value.text_under(seq![other, key]) == Some(text) && value.get_either(other, key)
            == Some(JsonView::Text(text)),
    decreases before.len(),
{
    reveal_with_fuel(JsonView::text_under, 3);
    assert(seq![other, key].drop_first() =~= seq![key]);
    let all = before + seq![(key, value)] + after;
    if before.len() == 0 {
        assert(all[0] == (key, value));
    } else {
        let fewer = before.drop_first();
        assert forall|i: int| 0 <= i < fewer.len() implies (#[trigger] fewer[i]).0 != key by {
            assert(fewer[i] == before[i + 1]);
        }
        law_member_is_found_by_its_key(fewer, key, value, after, other, text);
        assert(all[0] == before[0]);
        assert(all.drop_first() =~= fewer + seq![(key, value)] + after);
    }
}

} // verus!
