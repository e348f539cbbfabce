//! JSON documents as the payloads carry them: a tree of plain values, the
//! call that reads one from bytes, and the lookups that the payload schemas
//! are written with.
use crate::text::same_text;
use vstd::prelude::*;

verus! {

/// A JSON document.
pub enum JsonDoc {
    Null,
    Bool(bool),
    /// A number, with its value where it is an integer that fits 64 bits.
    Number(Option<i64>),
    Text(Seq<char>),
    Array(Seq<JsonDoc>),
    /// The members of an object, each a name and a value.
    Object(Seq<(Seq<char>, JsonDoc)>),
}

/// One member of an object: its name and its value.
#[derive(Debug, PartialEq, Eq)]
pub struct JsonMember {
    pub key: String,
    pub value: JsonValue,
}

/// A JSON document in memory; its view is the document.
#[derive(Debug, PartialEq, Eq)]
pub enum JsonValue {
    Null,
    Bool(bool),
    Number(Option<i64>),
    Text(String),
    Array(Vec<JsonValue>),
    Object(Vec<JsonMember>),
}

/// The document that a value in memory holds.
pub open spec fn doc_of(value: JsonValue) -> JsonDoc
    decreases value,
{
    match value {
        JsonValue::Null => JsonDoc::Null,
        JsonValue::Bool(b) => JsonDoc::Bool(b),
        JsonValue::Number(n) => JsonDoc::Number(n),
        JsonValue::Text(s) => JsonDoc::Text(s@),
        JsonValue::Array(items) => JsonDoc::Array(
            Seq::new(
                items@.len(),
                |i: int|
                    if 0 <= i < items@.len() {
                        doc_of(items@[i])
                    } else {
                        JsonDoc::Null
                    },
            ),
        ),
        JsonValue::Object(members) => JsonDoc::Object(
            Seq::new(
                members@.len(),
                |i: int|
                    if 0 <= i < members@.len() {
                        (members@[i].key@, doc_of(members@[i].value))
                    } else {
                        (Seq::empty(), JsonDoc::Null)
                    },
            ),
        ),
    }
}

impl View for JsonValue {
    type V = JsonDoc;

    open spec fn view(&self) -> JsonDoc {
        doc_of(*self)
    }
}

/// `serde_json::Value`, carried from the call that reads it to the call
/// that lifts it; nothing is known of what is inside.
#[verifier::external_type_specification]
#[verifier::external_body]
pub struct ExJsonTree(serde_json::Value);

/// `serde_json::Error`: why no document was read. Only that there is one
/// matters here.
#[verifier::external_type_specification]
#[verifier::external_body]
pub struct ExJsonError(serde_json::Error);

/// The document that `serde_json` reads from these bytes, if it reads one.
pub uninterp spec fn json_document(bytes: Seq<u8>) -> Option<JsonDoc>;

/// The document that a `serde_json::Value` holds: its members in the order
/// in which the value's map hands them out, a number by `as_i64`.
pub uninterp spec fn json_tree_doc(tree: serde_json::Value) -> JsonDoc;

/// `serde_json::from_slice` into a `serde_json::Value`. It fails exactly on
/// the bytes from which no document is read, and what it returns holds the
/// document read.
#[verifier::external_body]
fn parse_tree(bytes: &[u8]) -> (r: Result<serde_json::Value, serde_json::Error>)
    ensures
        r is Err <==> json_document(bytes@) is None,
        r matches Ok(tree) ==> json_document(bytes@) == Some(json_tree_doc(tree)),
{
    serde_json::from_slice::<serde_json::Value>(bytes)
}

/// Moves a `serde_json::Value` into a `JsonValue`, variant by variant; the
/// number of a `Number` is taken by `serde_json::Number::as_i64`.
#[verifier::external_body]
fn lift(tree: serde_json::Value) -> (value: JsonValue)
    ensures
        value@ == json_tree_doc(tree),
{
    match tree {
        serde_json::Value::Null => JsonValue::Null,
        serde_json::Value::Bool(b) => JsonValue::Bool(b),
        serde_json::Value::Number(n) => JsonValue::Number(n.as_i64()),
        serde_json::Value::String(s) => JsonValue::Text(s),
        serde_json::Value::Array(items) => JsonValue::Array(items.into_iter().map(lift).collect()),
        serde_json::Value::Object(members) => JsonValue::Object(
            members.into_iter().map(|(key, value)| JsonMember { key, value: lift(value) }).collect(),
        ),
    }
}

/// Reads a JSON document from bytes; `None` where the bytes hold none.
pub fn parse(bytes: &[u8]) -> (r: Option<JsonValue>)
    ensures
        r is None <==> json_document(bytes@) is None,
        r matches Some(value) ==> json_document(bytes@) == Some(value@),
{
    match parse_tree(bytes) {
        Ok(tree) => Some(lift(tree)),
        Err(_) => None,
    }
}

/// The value of the first member named `key`, from position `from` on.
pub open spec fn lookup_from(members: Seq<(Seq<char>, JsonDoc)>, key: Seq<char>, from: int) -> Option<
    JsonDoc,
>
    decreases members.len() - from,
{
    if from < 0 || from >= members.len() {
        None
    } else if members[from].0 == key {
        Some(members[from].1)
    } else {
        lookup_from(members, key, from + 1)
    }
}

/// The value of the first member named `key`.
pub open spec fn lookup(members: Seq<(Seq<char>, JsonDoc)>, key: Seq<char>) -> Option<JsonDoc> {
    lookup_from(members, key, 0)
}

/// Whether every member bears one of the names in `allowed`.
pub open spec fn only_keys(members: Seq<(Seq<char>, JsonDoc)>, allowed: Seq<Seq<char>>) -> bool {
    forall|i: int| 0 <= i < members.len() ==> allowed.contains((#[trigger] members[i]).0)
}

/// The text of the member named `key`, where there is such a member and it
/// holds a text.
pub open spec fn text_at(members: Seq<(Seq<char>, JsonDoc)>, key: Seq<char>) -> Option<Seq<char>> {
    match lookup(members, key) {
        Some(JsonDoc::Text(t)) => Some(t),
        _ => None,
    }
}

/// The truth value of the member named `key`, where it holds one.
pub open spec fn bool_at(members: Seq<(Seq<char>, JsonDoc)>, key: Seq<char>) -> Option<bool> {
    match lookup(members, key) {
        Some(JsonDoc::Bool(b)) => Some(b),
        _ => None,
    }
}

/// The integer of the member named `key`, where it holds one that fits 32
/// bits.
pub open spec fn i32_at(members: Seq<(Seq<char>, JsonDoc)>, key: Seq<char>) -> Option<i32> {
    match lookup(members, key) {
        Some(JsonDoc::Number(Some(n))) => if i32::MIN <= n <= i32::MAX {
            Some(n as i32)
        } else {
            None
        },
        _ => None,
    }
}

/// The texts of an array that holds texts only.
pub open spec fn texts_of(doc: JsonDoc) -> Option<Seq<Seq<char>>> {
    match doc {
        JsonDoc::Array(items) => if forall|i: int| 0 <= i < items.len() ==> (#[trigger] items[i])
            is Text {
            Some(Seq::new(items.len(), |i: int| items[i]->Text_0))
        } else {
            None
        },
        _ => None,
    }
}

/// The views of names in order.
pub open spec fn names_view(names: Seq<&'static str>) -> Seq<Seq<char>> {
    names.map_values(|s: &'static str| s@)
}

/// The views of texts in order.
pub open spec fn texts_view(texts: Seq<String>) -> Seq<Seq<char>> {
    texts.map_values(|s: String| s@)
}

/// The members of an object in memory, as the document has them.
pub open spec fn members_view(members: Seq<JsonMember>) -> Seq<(Seq<char>, JsonDoc)> {
    Seq::new(members.len(), |i: int| (members[i].key@, members[i].value@))
}

/// The items of an array in memory, as the document has them.
pub open spec fn items_view(items: Seq<JsonValue>) -> Seq<JsonDoc> {
    Seq::new(items.len(), |i: int| items[i]@)
}

impl JsonValue {
    /// The members, where this is an object.
    pub fn members(&self) -> (r: Option<&Vec<JsonMember>>)
        ensures
            match r {
                Some(members) => self@ == JsonDoc::Object(members_view(members@)),
                None => !(self@ is Object),
            },
    {
        match self {
            JsonValue::Object(members) => {
                assert(self@->Object_0 =~= members_view(members@));
                Some(members)
            },
            _ => None,
        }
    }

    /// The items, where this is an array.
    pub fn items(&self) -> (r: Option<&Vec<JsonValue>>)
        ensures
            match r {
                Some(items) => self@ == JsonDoc::Array(items_view(items@)),
                None => !(self@ is Array),
            },
    {
        match self {
            JsonValue::Array(items) => {
                assert(self@->Array_0 =~= items_view(items@));
                Some(items)
            },
            _ => None,
        }
    }
}

/// Finds the first member named `key`.
pub fn find<'a>(members: &'a Vec<JsonMember>, key: &str) -> (r: Option<&'a JsonValue>)
    ensures
        match r {
            Some(value) => lookup(members_view(members@), key@) == Some(value@),
            None => lookup(members_view(members@), key@) is None,
        },
{
    let mut i: usize = 0;
    while i < members.len()
        invariant
            i <= members.len(),
            lookup(members_view(members@), key@) == lookup_from(
                members_view(members@),
                key@,
                i as int,
            ),
        decreases members.len() - i,
    {
        if same_text(members[i].key.as_str(), key) {
            return Some(&members[i].value);
        }
        i = i + 1;
    }
    None
}

/// Whether every member bears one of the `allowed` names.
pub fn keys_within(members: &Vec<JsonMember>, allowed: &Vec<&'static str>) -> (r: bool)
    ensures
        r == only_keys(members_view(members@), names_view(allowed@)),
{
    let mut i: usize = 0;
    while i < members.len()
        invariant
            i <= members.len(),
            forall|k: int|
                0 <= k < i ==> names_view(allowed@).contains(
                    (#[trigger] members_view(members@)[k]).0,
                ),
        decreases members.len() - i,
    {
        let mut j: usize = 0;
        let mut found = false;
        while j < allowed.len() && !found
            invariant
                i < members.len(),
                j <= allowed.len(),
                found ==> names_view(allowed@).contains(members@[i as int].key@),
                !found ==> forall|k: int|
                    0 <= k < j ==> (#[trigger] names_view(allowed@)[k]) != members@[i as int].key@,
            decreases allowed.len() - j + (if found { 0int } else { 1int }),
        {
            if same_text(members[i].key.as_str(), allowed[j]) {
                found = true;
                assert(names_view(allowed@)[j as int] == members@[i as int].key@);
            } else {
                j = j + 1;
            }
        }
        if !found {
            assert(members_view(members@)[i as int].0 == members@[i as int].key@);
            assert(!names_view(allowed@).contains(members_view(members@)[i as int].0));
            return false;
        }
        assert(members_view(members@)[i as int].0 == members@[i as int].key@);
        i = i + 1;
    }
    true
}

/// The text of the member named `key`.
pub fn text_member(members: &Vec<JsonMember>, key: &str) -> (r: Option<String>)
    ensures
        match r {
            Some(t) => text_at(members_view(members@), key@) == Some(t@),
            None => text_at(members_view(members@), key@) is None,
        },
{
    match find(members, key) {
        Some(JsonValue::Text(t)) => Some(t.clone()),
        _ => None,
    }
}

/// The truth value of the member named `key`.
pub fn bool_member(members: &Vec<JsonMember>, key: &str) -> (r: Option<bool>)
    ensures
        r == bool_at(members_view(members@), key@),
{
    match find(members, key) {
        Some(JsonValue::Bool(b)) => Some(*b),
        _ => None,
    }
}

/// The 32-bit integer of the member named `key`.
pub fn i32_member(members: &Vec<JsonMember>, key: &str) -> (r: Option<i32>)
    ensures
        r == i32_at(members_view(members@), key@),
{
    match find(members, key) {
        Some(JsonValue::Number(Some(n))) => {
            if -2147483648 <= *n && *n <= 2147483647 {
                Some(*n as i32)
            } else {
                None
            }
        },
        _ => None,
    }
}

/// The texts of an array of texts.
pub fn text_items(value: &JsonValue) -> (r: Option<Vec<String>>)
    ensures
        match r {
            Some(texts) => texts_of(value@) == Some(texts_view(texts@)),
            None => texts_of(value@) is None,
        },
{
    match value.items() {
        None => None,
        Some(items) => {
            let mut texts: Vec<String> = Vec::new();
            let mut i: usize = 0;
            while i < items.len()
                invariant
                    i <= items.len(),
                    texts@.len() == i,
                    value@ == JsonDoc::Array(items_view(items@)),
                    forall|k: int| 0 <= k < i ==> (#[trigger] items@[k]@) is Text,
                    forall|k: int| 0 <= k < i ==> (#[trigger] texts@[k])@ == items@[k]@->Text_0,
                decreases items.len() - i,
            {
                match &items[i] {
                    JsonValue::Text(t) => {
                        texts.push(t.clone());
                    },
                    _ => {
                        assert(!(value@->Array_0[i as int] is Text));
                        return None;
                    },
                }
                i = i + 1;
            }
            assert(texts_of(value@)->0 =~= texts_view(texts@));
            Some(texts)
        },
    }
}

} // verus!
