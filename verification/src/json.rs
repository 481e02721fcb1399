use vstd::prelude::*;

verus! {

/// A JSON document as plain data. An object keeps its members as a list of
/// name and value; a number is kept as its decimal text.
#[derive(Debug, PartialEq, Eq)]
pub enum Json {
    Null,
    Bool(bool),
    Number(String),
    Text(String),
    Array(Vec<Json>),
    Object(Vec<(String, Json)>),
}

/// `serde_json::Value`, carried from the parser to the conversion as an
/// opaque value.
#[verifier::external_type_specification]
#[verifier::external_body]
pub struct ExValue(serde_json::Value);

/// What `serde_json::from_str` makes of a text: the document, or nothing
/// where the text is no JSON.
pub uninterp spec fn parsed_json(text: Seq<char>) -> Option<Json>;

/// The document that a `serde_json::Value` holds.
pub uninterp spec fn json_of(value: serde_json::Value) -> Json;

/// Calls `serde_json::from_str` for a `serde_json::Value`. The parser is a
/// function of the text alone; the contract only gives its result a name and
/// claims nothing of which texts parse.
#[verifier::external_body]
fn parse_value(text: &str) -> (parsed: Option<serde_json::Value>)
    ensures
        match parsed {
            Some(value) => parsed_json(text@) == Some(json_of(value)),
            None => parsed_json(text@).is_none(),
        },
{
    serde_json::from_str::<serde_json::Value>(text).ok()
}

/// Takes a `serde_json::Value` apart, variant by variant, into the
/// library's own document. The contract names the result and says no more.
#[verifier::external_body]
fn mirror_value(value: serde_json::Value) -> (doc: Json)
    ensures
        doc == json_of(value),
{
    match value {
        serde_json::Value::Null => Json::Null,
        serde_json::Value::Bool(b) => Json::Bool(b),
        serde_json::Value::Number(n) => Json::Number(n.to_string()),
        serde_json::Value::String(s) => Json::Text(s),
        serde_json::Value::Array(items) => Json::Array(items.into_iter().map(mirror_value).collect()),
        serde_json::Value::Object(members) => Json::Object(
            members.into_iter().map(|(k, v)| (k, mirror_value(v))).collect(),
        ),
    }
}

/// Parses a JSON text into a document.
pub fn parse_document(text: &str) -> (doc: Option<Json>)
    ensures
        doc == parsed_json(text@),
{
    match parse_value(text) {
        Some(value) => Some(mirror_value(value)),
        None => None,
    }
}

/// The value of the first member named `key` among `entries`.
pub open spec fn find_member(entries: Seq<(String, Json)>, key: Seq<char>) -> Option<Json>
    decreases entries.len(),
{
    if entries.len() == 0 {
        None
    } else if entries[0].0@ == key {
        Some(entries[0].1)
    } else {
        find_member(entries.drop_first(), key)
    }
}

/// The text that the object `doc` holds under `key`; nothing where `doc` is
/// no object, has no such member, or holds something else than a text there.
pub open spec fn text_member(doc: Json, key: Seq<char>) -> Option<Seq<char>> {
    match doc {
        Json::Object(entries) => match find_member(entries@, key) {
            Some(Json::Text(s)) => Some(s@),
            _ => None,
        },
        _ => None,
    }
}

/// The items of the array that the object `doc` holds under `key`.
pub open spec fn array_member(doc: Json, key: Seq<char>) -> Option<Seq<Json>> {
    match doc {
        Json::Object(entries) => match find_member(entries@, key) {
            Some(Json::Array(items)) => Some(items@),
            _ => None,
        },
        _ => None,
    }
}

impl Json {
    /// Looks up the member named `key` of an object.
    pub fn member(&self, key: &str) -> (found: Option<&Json>)
        ensures
            match *self {
                Json::Object(entries) => match found {
                    Some(value) => find_member(entries@, key@) == Some(*value),
                    None => find_member(entries@, key@).is_none(),
                },
                _ => found.is_none(),
            },
    {
        match self {
            Json::Object(entries) => {
                let wanted = String::from_str(key);
                let mut i: usize = 0;
                proof {
                    assert(entries@.subrange(0, entries@.len() as int) =~= entries@);
                }
                while i < entries.len()
                    invariant
                        i <= entries@.len(),
                        wanted@ == key@,
                        *self == Json::Object(*entries),
                        find_member(entries@, key@) == find_member(
                            entries@.subrange(i as int, entries@.len() as int),
                            key@,
                        ),
                    decreases entries@.len() - i,
                {
                    let ghost rest = entries@.subrange(i as int, entries@.len() as int);
                    proof {
                        assert(rest[0] == entries@[i as int]);
                        assert(rest.drop_first() =~= entries@.subrange(
                            i + 1,
                            entries@.len() as int,
                        ));
                    }
                    if entries[i].0 == wanted {
                        assert(rest[0].0@ == key@);
                        assert(find_member(rest, key@) == Some(rest[0].1));
                        return Some(&entries[i].1);
                    }
                    assert(find_member(rest, key@) == find_member(rest.drop_first(), key@));
                    i = i + 1;
                }
                assert(entries@.subrange(i as int, entries@.len() as int).len() == 0);
                None
            },
            _ => None,
        }
    }

    /// The text under `key`, copied out.
    pub fn text(&self, key: &str) -> (found: Option<String>)
        ensures
            match found {
                Some(s) => text_member(*self, key@) == Some(s@),
                None => text_member(*self, key@).is_none(),
            },
    {
        match self.member(key) {
            Some(Json::Text(s)) => Some(s.clone()),
            _ => None,
        }
    }

    /// The array under `key`.
    pub fn array(&self, key: &str) -> (found: Option<&Vec<Json>>)
        ensures
            match found {
                Some(items) => array_member(*self, key@) == Some(items@),
                None => array_member(*self, key@).is_none(),
            },
    {
        match self.member(key) {
            Some(Json::Array(items)) => Some(items),
            _ => None,
        }
    }
}

} // verus!
