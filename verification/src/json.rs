//! JSON documents as plain trees, read from and written to text by
//! `serde_json`.

use crate::text::pair_texts;
use vstd::prelude::*;

verus! {

/// A JSON document held as a tree of plain values.
#[derive(Debug)]
pub enum Json {
    Null,
    Bool(bool),
    /// A number, kept as the text that denotes it.
    Number(String),
    Text(String),
    List(Vec<Json>),
    /// The members of an object, in the order they are held.
    Record(Vec<(String, Json)>),
}

/// A JSON document as mathematics.
pub enum JsonView {
    Null,
    Bool(bool),
    Number(Seq<char>),
    Text(Seq<char>),
    List(Seq<JsonView>),
    Record(Seq<(Seq<char>, JsonView)>),
}

/// The mathematical content of a tree.
pub open spec fn json_view(doc: Json) -> JsonView
    decreases doc,
{
    match doc {
        Json::Null => JsonView::Null,
        Json::Bool(b) => JsonView::Bool(b),
        Json::Number(n) => JsonView::Number(n@),
        Json::Text(t) => JsonView::Text(t@),
        Json::List(items) => JsonView::List(list_views(items@)),
        Json::Record(members) => JsonView::Record(member_views(members@)),
    }
}

/// The mathematical content of each tree of a sequence.
pub open spec fn list_views(items: Seq<Json>) -> Seq<JsonView>
    decreases items,
{
    if items.len() == 0 {
        Seq::empty()
    } else {
        list_views(items.drop_last()).push(json_view(items.last()))
    }
}

/// The name and the mathematical content of each member of a sequence.
pub open spec fn member_views(members: Seq<(String, Json)>) -> Seq<(Seq<char>, JsonView)>
    decreases members,
{
    if members.len() == 0 {
        Seq::empty()
    } else {
        member_views(members.drop_last()).push((members.last().0@, json_view(members.last().1)))
    }
}

impl View for Json {
    type V = JsonView;

    open spec fn view(&self) -> JsonView {
        json_view(*self)
    }
}

impl DeepView for Json {
    type V = JsonView;

    open spec fn deep_view(&self) -> JsonView {
        json_view(*self)
    }
}

/// The views of a sequence of trees are the views of its elements, in order.
pub proof fn lemma_list_views(items: Seq<Json>)
    ensures
        list_views(items).len() == items.len(),
        forall|i: int| 0 <= i < items.len() ==> #[trigger] list_views(items)[i] == items[i]@,
    decreases items.len(),
{
    if items.len() > 0 {
        lemma_list_views(items.drop_last());
    }
}

/// The views of a sequence of members are the names and views of its
/// elements, in order.
pub proof fn lemma_member_views(members: Seq<(String, Json)>)
    ensures
        member_views(members).len() == members.len(),
        forall|i: int|
            0 <= i < members.len() ==> #[trigger] member_views(members)[i] == (
                members[i].0@,
                members[i].1@,
            ),
    decreases members.len(),
{
    if members.len() > 0 {
        lemma_member_views(members.drop_last());
    }
}

/// The value paired with the first occurrence of `key` in `members`.
pub open spec fn first_member(members: Seq<(Seq<char>, JsonView)>, key: Seq<char>) -> Option<
    JsonView,
>
    decreases members.len(),
{
    if members.len() == 0 {
        None
    } else if members[0].0 == key {
        Some(members[0].1)
    } else {
        first_member(members.drop_first(), key)
    }
}

/// The object that holds one string member for each field, in order.
pub open spec fn record_view(fields: Seq<(Seq<char>, Seq<char>)>) -> JsonView {
    JsonView::Record(fields.map_values(|f: (Seq<char>, Seq<char>)| (f.0, JsonView::Text(f.1))))
}

impl JsonView {
    /// The value of the first member named `key`, where this is an object
    /// that has one.
    pub open spec fn member(self, key: Seq<char>) -> Option<JsonView> {
        match self {
            JsonView::Record(members) => first_member(members, key),
            _ => None,
        }
    }

    /// The characters of this value, where it is a string.
    pub open spec fn text(self) -> Option<Seq<char>> {
        match self {
            JsonView::Text(t) => Some(t),
            _ => None,
        }
    }

    /// The elements of this value, where it is an array.
    pub open spec fn items(self) -> Option<Seq<JsonView>> {
        match self {
            JsonView::List(items) => Some(items),
            _ => None,
        }
    }

    /// The characters of the string held by the first member named `key`.
    pub open spec fn text_member(self, key: Seq<char>) -> Option<Seq<char>> {
        match self.member(key) {
            Some(value) => value.text(),
            None => None,
        }
    }
}

#[verifier::external_type_specification]
#[verifier::external_body]
pub struct ExValue(serde_json::Value);

#[verifier::external_type_specification]
#[verifier::external_body]
pub struct ExJsonError(serde_json::Error);

/// The document that `serde_json` reads from a text, or `None` where it
/// rejects the text.
pub uninterp spec fn json_document(text: Seq<char>) -> Option<JsonView>;

/// The document that a `serde_json::Value` holds.
pub uninterp spec fn value_document(value: serde_json::Value) -> JsonView;

/// The text that `serde_json` writes, indented, for an object with one
/// string member for each field.
pub uninterp spec fn json_record_text(fields: Seq<(Seq<char>, Seq<char>)>) -> Seq<char>;

/// Calls `serde_json::from_str` for a `serde_json::Value`. The contract only
/// names the outcome: a value that holds `json_document(text)` on success, and
/// an error exactly where `json_document(text)` is `None`.
#[verifier::external_body]
fn parse_value(text: &str) -> (r: Result<serde_json::Value, serde_json::Error>)
    ensures
        r matches Ok(value) ==> json_document(text@) == Some(value_document(value)),
        r is Err ==> json_document(text@) is None,
{
    serde_json::from_str::<serde_json::Value>(text)
}

/// Copies a `serde_json::Value` into a [`Json`] tree, variant by variant: a
/// number becomes the text that `serde_json::Number` displays, an object the
/// list of its members in the order `serde_json::Map` yields them. The
/// contract names what the value holds as `value_document`.
#[verifier::external_body]
fn document_of(value: &serde_json::Value) -> (doc: Json)
    ensures
        doc@ == value_document(*value),
{
    match value {
        serde_json::Value::Null => Json::Null,
        serde_json::Value::Bool(b) => Json::Bool(*b),
        serde_json::Value::Number(n) => Json::Number(n.to_string()),
        serde_json::Value::String(s) => Json::Text(s.clone()),
        serde_json::Value::Array(a) => Json::List(a.iter().map(document_of).collect()),
        serde_json::Value::Object(m) => Json::Record(
            m.iter().map(|(k, v)| (k.clone(), document_of(v))).collect(),
        ),
    }
}

/// Calls `serde_json::to_string_pretty` on the `serde_json::Map` that holds
/// one string for each field of `fields`, a later field replacing an earlier
/// one of the same name. `serde_json` documents that this call fails only
/// where an impl of `Serialize` fails or a map has a key that is no string.
/// The keys here are strings, and the impls of `serde_json` for its map and
/// for a string value write them through without failing. So the contract
/// claims that the call succeeds, and names the text that comes back.
#[verifier::external_body]
fn pretty_record(fields: &Vec<(String, String)>) -> (r: Result<String, serde_json::Error>)
    ensures
        r is Ok,
        r matches Ok(text) ==> text@ == json_record_text(pair_texts(fields@)),
{
    let map: serde_json::Map<String, serde_json::Value> = fields.iter().map(
        |(k, v)| (k.clone(), serde_json::Value::String(v.clone())),
    ).collect();
    serde_json::to_string_pretty(&map)
}

impl Json {
    /// The object that holds one string member for each field, in order.
    pub fn record(fields: &Vec<(String, String)>) -> (doc: Json)
        ensures
            doc@ == record_view(pair_texts(fields@)),
    {
        let mut members: Vec<(String, Json)> = Vec::new();
        let mut i: usize = 0;
        while i < fields.len()
            invariant
                i <= fields.len(),
                members.len() == i,
                forall|j: int|
                    0 <= j < i ==> (#[trigger] members@[j]).0@ == fields@[j].0@ && members@[j].1@
                        == JsonView::Text(fields@[j].1@),
            decreases fields.len() - i,
        {
            members.push((fields[i].0.clone(), Json::Text(fields[i].1.clone())));
            i += 1;
        }
        proof {
            lemma_member_views(members@);
            assert(member_views(members@) =~= pair_texts(fields@).map_values(
                |f: (Seq<char>, Seq<char>)| (f.0, JsonView::Text(f.1)),
            ));
        }
        Json::Record(members)
    }

    /// The indented JSON text of the object that holds one string member for
    /// each field. The text is always there: `serde_json` writes every object
    /// of strings.
    pub fn write_record(fields: &Vec<(String, String)>) -> (r: Option<String>)
        ensures
            r.deep_view() == Some(json_record_text(pair_texts(fields@))),
    {
        match pretty_record(fields) {
            Ok(text) => Some(text),
            Err(_) => None,
        }
    }

    /// Reads a document from JSON text; `None` where the text is not JSON.
    pub fn parse(text: &str) -> (r: Option<Json>)
        ensures
            r.deep_view() == json_document(text@),
    {
        match parse_value(text) {
            Ok(value) => Some(document_of(&value)),
            Err(_) => None,
        }
    }

    /// The value of the first member named `key`, where this is an object
    /// that has one.
    pub fn get(&self, key: &str) -> (r: Option<&Json>)
        ensures
            r.deep_view() == self@.member(key@),
    {
        match self {
            Json::Record(members) => {
                let wanted = key.to_owned();
                let ghost all = member_views(members@);
                proof {
                    lemma_member_views(members@);
                    assert(all.skip(0) =~= all);
                }
                let mut i: usize = 0;
                while i < members.len()
                    invariant
                        i <= members.len(),
                        wanted@ == key@,
                        all.len() == members.len(),
                        forall|j: int|
                            0 <= j < all.len() ==> #[trigger] all[j] == (
                                members@[j].0@,
                                members@[j].1@,
                            ),
                        self@.member(key@) == first_member(all.skip(i as int), key@),
                    decreases members.len() - i,
                {
                    assert(all.skip(i as int)[0] == all[i as int]);
                    assert(all.skip(i as int).drop_first() =~= all.skip(i as int + 1));
                    if members[i].0 == wanted {
                        return Some(&members[i].1);
                    }
                    i += 1;
                }
                None
            },
            _ => None,
        }
    }

    /// The string this value holds, where it is one.
    pub fn as_text(&self) -> (r: Option<&str>)
        ensures
            r.deep_view() == self@.text(),
    {
        match self {
            Json::Text(t) => Some(t.as_str()),
            _ => None,
        }
    }

    /// The elements this value holds, where it is an array.
    pub fn as_list(&self) -> (r: Option<&Vec<Json>>)
        ensures
            match r {
                Some(items) => self@.items() == Some(list_views(items@)),
                None => self@.items() is None,
            },
    {
        match self {
            Json::List(items) => Some(items),
            _ => None,
        }
    }

    /// The string held by the first member named `key`.
    pub fn text_member_of(&self, key: &str) -> (r: Option<&str>)
        ensures
            r.deep_view() == self@.text_member(key@),
    {
        match self.get(key) {
            Some(value) => value.as_text(),
            None => None,
        }
    }
}

} // verus!
