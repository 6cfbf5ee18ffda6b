//! JSON documents, and the search for a credential inside one.
use vstd::prelude::*;
use crate::search::{
    entry_under, first_index, is_first, lemma_first_index, lemma_first_index_absent,
    lemma_first_index_found, named,
};
use crate::text::{lemma_trimmed_is_trimmed, same_text, trim, trimmed};

verus! {

/// A JSON document, as it is held in memory. An object keeps its members in the
/// order of the document. A document that was parsed has no two members of one
/// object under the same name; the type admits them, and where there are several
/// under one name, the first is the one that is read.
#[derive(Debug, PartialEq, Eq)]
pub enum Json {
    Null,
    Bool(bool),
    /// A number, by its decimal text.
    Number(String),
    Text(String),
    Array(Vec<Json>),
    Object(Vec<(String, Json)>),
}

/// The mathematical value of a [`Json`].
pub ghost enum JsonValue {
    Null,
    Bool(bool),
    Number(Seq<char>),
    Text(Seq<char>),
    Array(Seq<JsonValue>),
    Object(Seq<(Seq<char>, JsonValue)>),
}

impl View for Json {
    type V = JsonValue;

    open spec fn view(&self) -> JsonValue
        decreases self,
    {
        match self {
            Json::Null => JsonValue::Null,
            Json::Bool(b) => JsonValue::Bool(*b),
            Json::Number(n) => JsonValue::Number(n@),
            Json::Text(t) => JsonValue::Text(t@),
            Json::Array(items) => JsonValue::Array(
                Seq::new(
                    items@.len(),
                    |i: int|
                        if 0 <= i < items@.len() {
                            items@[i]@
                        } else {
                            JsonValue::Null
                        },
                ),
            ),
            Json::Object(members) => JsonValue::Object(
                Seq::new(
                    members@.len(),
                    |i: int|
                        (
                            members@[i].0@,
                            if 0 <= i < members@.len() {
                                members@[i].1@
                            } else {
                                JsonValue::Null
                            },
                        ),
                ),
            ),
        }
    }
}

/// What `serde_json::from_str` makes of a text: the document that the text
/// writes down, or the parser's complaint about it.
pub uninterp spec fn parsed_json(text: Seq<char>) -> Result<JsonValue, Seq<char>>;

/// The document or the complaint that a call of [`parse_json`] gave, as mathematical values.
pub open spec fn parse_outcome(r: Result<Json, String>) -> Result<JsonValue, Seq<char>> {
    match r {
        Ok(document) => Ok(document@),
        Err(complaint) => Err(complaint@),
    }
}

#[verifier::external_type_specification]
#[verifier::external_body]
pub struct ExValue(serde_json::Value);

/// Rewrites a `serde_json::Value` as a [`Json`], variant by variant: a number by
/// the text that its `Display` prints, an object by its members in the order in
/// which `serde_json::Map` hands them out. Nothing is claimed of the result here;
/// [`parse_json`] names it.
#[verifier::external_body]
fn json_from_value(value: serde_json::Value) -> Json {
    match value {
        serde_json::Value::Null => Json::Null,
        serde_json::Value::Bool(b) => Json::Bool(b),
        serde_json::Value::Number(n) => Json::Number(n.to_string()),
        serde_json::Value::String(s) => Json::Text(s),
        serde_json::Value::Array(items) => Json::Array(
            items.into_iter().map(json_from_value).collect(),
        ),
        serde_json::Value::Object(members) => Json::Object(
            members.into_iter().map(|(name, v)| (name, json_from_value(v))).collect(),
        ),
    }
}

/// Calls `serde_json::from_str` for a `serde_json::Value`. The parser reads the
/// same text the same way every time, so its result has a name, [`parsed_json`]:
/// on success the document, on failure the text that the error's `Display` prints.
/// What the parser accepts is not stated.
#[verifier::external_body]
pub(crate) fn parse_json(text: &str) -> (r: Result<Json, String>)
    ensures
        parse_outcome(r) == parsed_json(text@),
{
    match serde_json::from_str::<serde_json::Value>(text) {
        Ok(value) => Ok(json_from_value(value)),
        Err(e) => Err(e.to_string()),
    }
}

/// The names under which a credential is looked for, first choice first.
pub open spec fn token_keys() -> Seq<Seq<char>> {
    seq!["api_key"@, "token"@, "access_token"@, "key"@, "oauth_token"@, "bearer_token"@]
}

/// The property of a search result that something was found.
pub open spec fn found() -> spec_fn(Option<Seq<char>>) -> bool {
    |result: Option<Seq<char>>| result is Some
}

/// The first of `results` that found something.
pub open spec fn first_found(results: Seq<Option<Seq<char>>>) -> Option<Seq<char>> {
    match first_index(results, found()) {
        Some(i) => results[i],
        None => None,
    }
}

/// The credential that the first member named `key` holds: its text without the
/// white space around it, where the member is text and not blank.
pub open spec fn token_under(members: Seq<(Seq<char>, JsonValue)>, key: Seq<char>) -> Option<Seq<char>> {
    match entry_under(members, key) {
        Some(JsonValue::Text(t)) => if trimmed(t).len() > 0 {
            Some(trimmed(t))
        } else {
            None
        },
        _ => None,
    }
}

/// The credential that an object holds in a member of its own: that of the first
/// name in [`token_keys`] under which there is one.
pub open spec fn own_token(members: Seq<(Seq<char>, JsonValue)>) -> Option<Seq<char>> {
    first_found(Seq::new(token_keys().len(), |k: int| token_under(members, token_keys()[k])))
}

/// The credential that a document holds. An object offers a member of its own first
/// and then what its members hold, in their order; an array offers what its items
/// hold, in their order; any other value holds none.
pub open spec fn find_token(value: JsonValue) -> Option<Seq<char>>
    decreases value, 1nat,
{
    match value {
        JsonValue::Object(members) => match own_token(members) {
            Some(t) => Some(t),
            None => first_found(found_in_children(value)),
        },
        JsonValue::Array(_) => first_found(found_in_children(value)),
        _ => None,
    }
}

/// What each member of an object, or each item of an array, holds.
pub open spec fn found_in_children(value: JsonValue) -> Seq<Option<Seq<char>>>
    decreases value, 0nat,
{
    match value {
        JsonValue::Object(members) => Seq::new(
            members.len(),
            |i: int|
                if 0 <= i < members.len() {
                    find_token(members[i].1)
                } else {
                    None
                },
        ),
        JsonValue::Array(items) => Seq::new(
            items.len(),
            |i: int|
                if 0 <= i < items.len() {
                    find_token(items[i])
                } else {
                    None
                },
        ),
        _ => Seq::empty(),
    }
}

/// The members of an object, each by its name and its value.
pub open spec fn members_view(members: Seq<(String, Json)>) -> Seq<(Seq<char>, JsonValue)> {
    Seq::new(members.len(), |i: int| (members[i].0@, members[i].1@))
}

/// The items of an array, each by its value.
pub open spec fn items_view(items: Seq<Json>) -> Seq<JsonValue> {
    Seq::new(items.len(), |i: int| items[i]@)
}

fn lookup<'a>(members: &'a Vec<(String, Json)>, key: &str) -> (r: Option<&'a Json>)
    ensures
        r matches Some(v) ==> entry_under(members_view(members@), key@) == Some(v@),
        r is None ==> entry_under(members_view(members@), key@) is None,
{
    let ghost all = members_view(members@);
    let mut i: usize = 0;
    while i < members.len()
        invariant
            i <= members.len(),
            all == members_view(members@),
            forall|j: int| 0 <= j < i ==> !named::<JsonValue>(key@)(#[trigger] all[j]),
        decreases members.len() - i,
    {
        if same_text(members[i].0.as_str(), key) {
            proof {
                lemma_first_index_found(all, named(key@), i as int);
            }
            return Some(&members[i].1);
        }
        i += 1;
    }
    proof {
        lemma_first_index_absent(all, named::<JsonValue>(key@));
    }
    None
}

fn member_token(members: &Vec<(String, Json)>, key: &str) -> (r: Option<String>)
    ensures
        r.deep_view() == token_under(members_view(members@), key@),
{
    match lookup(members, key) {
        Some(Json::Text(t)) => {
            let inner = trim(t.as_str());
            if inner.is_empty() {
                None
            } else {
                Some(inner.to_owned())
            }
        },
        _ => None,
    }
}

fn own_member_token(members: &Vec<(String, Json)>) -> (r: Option<String>)
    ensures
        r.deep_view() == own_token(members_view(members@)),
{
    let keys: [&str; 6] = ["api_key", "token", "access_token", "key", "oauth_token", "bearer_token"];
    let ghost all = members_view(members@);
    let ghost results = Seq::new(token_keys().len(), |k: int| token_under(all, token_keys()[k]));
    let mut k: usize = 0;
    while k < 6
        invariant
            k <= 6,
            all == members_view(members@),
            results == Seq::new(token_keys().len(), |k: int| token_under(all, token_keys()[k])),
            keys@.len() == 6,
            forall|j: int| 0 <= j < 6 ==> (#[trigger] keys@[j])@ == token_keys()[j],
            forall|j: int| 0 <= j < k ==> !found()(#[trigger] results[j]),
        decreases 6 - k,
    {
        let token = member_token(members, keys[k]);
        if token.is_some() {
            proof {
                lemma_first_index_found(results, found(), k as int);
            }
            return token;
        }
        k += 1;
    }
    proof {
        lemma_first_index_absent(results, found());
    }
    None
}

/// A credential that is found is never blank: values that are no text, and text
/// that is empty or blank, are passed over wherever they stand, and what is found
/// has no white space around it.
pub proof fn lemma_found_token_is_not_blank(value: JsonValue)
    ensures
        find_token(value) matches Some(token) ==> token.len() > 0 && trimmed(token) == token,
    decreases value,
{
    match value {
        JsonValue::Object(members) => {
            let own = Seq::new(token_keys().len(), |k: int| token_under(members, token_keys()[k]));
            lemma_first_index(own, found());
            if let Some(k) = first_index(own, found()) {
                if let Some(JsonValue::Text(t)) = entry_under(members, token_keys()[k]) {
                    lemma_trimmed_is_trimmed(t);
                }
            }
            let results = found_in_children(value);
            lemma_first_index(results, found());
            if let Some(i) = first_index(results, found()) {
                lemma_found_token_is_not_blank(members[i].1);
            }
        },
        JsonValue::Array(items) => {
            let results = found_in_children(value);
            lemma_first_index(results, found());
            if let Some(i) = first_index(results, found()) {
                lemma_found_token_is_not_blank(items[i]);
            }
        },
        _ => {},
    }
}

/// The value of an object, by its members.
pub proof fn lemma_object_view(members: Vec<(String, Json)>)
    ensures
        Json::Object(members)@ == JsonValue::Object(members_view(members@)),
{
    assert(Json::Object(members)@->Object_0 =~= members_view(members@));
}

/// The value of an array, by its items.
pub proof fn lemma_array_view(items: Vec<Json>)
    ensures
        Json::Array(items)@ == JsonValue::Array(items_view(items@)),
{
    assert(Json::Array(items)@->Array_0 =~= items_view(items@));
}

/// Searches a document for the credential it holds.
pub fn extract_api_key_from_json(value: &Json) -> (r: Option<String>)
    ensures
        r.deep_view() == find_token(value@),
    decreases value,
{
    match value {
        Json::Object(members) => {
            let ghost results = found_in_children(value@);
            proof {
                lemma_object_view(*members);
            }
            let own = own_member_token(members);
            if own.is_some() {
                return own;
            }
            let mut i: usize = 0;
            while i < members.len()
                invariant
                    i <= members.len(),
                    *value == Json::Object(*members),
                    value@ == JsonValue::Object(members_view(members@)),
                    own_token(members_view(members@)) is None,
                    results == found_in_children(value@),
                    forall|j: int| 0 <= j < i ==> !found()(#[trigger] results[j]),
                decreases members.len() - i,
            {
                let token = extract_api_key_from_json(&members[i].1);
                if token.is_some() {
                    proof {
                        lemma_first_index_found(results, found(), i as int);
                    }
                    return token;
                }
                i += 1;
            }
            proof {
                lemma_first_index_absent(results, found());
            }
            None
        },
        Json::Array(items) => {
            let ghost results = found_in_children(value@);
            proof {
                lemma_array_view(*items);
            }
            let mut i: usize = 0;
            while i < items.len()
                invariant
                    i <= items.len(),
                    *value == Json::Array(*items),
                    value@ == JsonValue::Array(items_view(items@)),
                    results == found_in_children(value@),
                    forall|j: int| 0 <= j < i ==> !found()(#[trigger] results[j]),
                decreases items.len() - i,
            {
                let token = extract_api_key_from_json(&items[i]);
                if token.is_some() {
                    proof {
                        lemma_first_index_found(results, found(), i as int);
                    }
                    return token;
                }
                i += 1;
            }
            proof {
                lemma_first_index_absent(results, found());
            }
            None
        },
        _ => None,
    }
}

} // verus!
