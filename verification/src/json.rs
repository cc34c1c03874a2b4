//! JSON documents as plain data, and the calls into `serde_json` that read
//! and write them.
//!
//! `serde_json` parses a text into its own `Value`, a tree that is opaque
//! here. What a `Value` holds goes by the name `value_json`, and each of the
//! accessors of `serde_json` that this module calls says one thing about that
//! name. The walk over the tree that copies it into a [`Json`] is verified
//! against those statements.

use vstd::prelude::*;
use vstd::string::StringSliceAdditionalSpecFns;
use vstd::utf8::{decode_utf8, encode_utf8_decode_utf8, valid_utf8};

verus! {

/// A JSON value, held as plain data.
///
/// A number is carried as the bit pattern of the IEEE-754 double that stands
/// for it. The members of an object keep the order in which the parser hands
/// them out.
#[derive(Debug, PartialEq, Eq)]
pub enum Json {
    Null,
    Bool(bool),
    Number(u64),
    Text(String),
    Array(Vec<Json>),
    Object(Vec<(String, Json)>),
}

/// The mathematical value of a [`Json`].
pub enum JsonView {
    Null,
    Bool(bool),
    Number(u64),
    Text(Seq<char>),
    Array(Seq<JsonView>),
    Object(Seq<(Seq<char>, JsonView)>),
}

impl View for Json {
    type V = JsonView;

    open spec fn view(&self) -> JsonView
        decreases self,
    {
        match self {
            Json::Null => JsonView::Null,
            Json::Bool(b) => JsonView::Bool(*b),
            Json::Number(n) => JsonView::Number(*n),
            Json::Text(s) => JsonView::Text(s@),
            Json::Array(items) => JsonView::Array(items_view(items@)),
            Json::Object(members) => JsonView::Object(members_view(members@)),
        }
    }
}

/// The values of the elements of an array, in order.
pub open spec fn items_view(items: Seq<Json>) -> Seq<JsonView>
    decreases items,
{
    if items.len() == 0 {
        Seq::empty()
    } else {
        items_view(items.drop_last()).push(items.last()@)
    }
}

/// The keys and values of the members of an object, in order.
pub open spec fn members_view(members: Seq<(String, Json)>) -> Seq<(Seq<char>, JsonView)>
    decreases members,
{
    if members.len() == 0 {
        Seq::empty()
    } else {
        members_view(members.drop_last()).push((members.last().0@, members.last().1@))
    }
}

/// `items_view` goes element by element.
pub proof fn lemma_items_view(items: Seq<Json>)
    ensures
        items_view(items).len() == items.len(),
        forall|i: int| 0 <= i < items.len() ==> (#[trigger] items_view(items)[i]) == items[i]@,
    decreases items.len(),
{
    reveal_with_fuel(items_view, 2);
    if items.len() > 0 {
        lemma_items_view(items.drop_last());
    }
}

/// `members_view` goes member by member.
pub proof fn lemma_members_view(members: Seq<(String, Json)>)
    ensures
        members_view(members).len() == members.len(),
        forall|i: int|
            0 <= i < members.len() ==> (#[trigger] members_view(members)[i]) == (
                members[i].0@,
                members[i].1@,
            ),
    decreases members.len(),
{
    reveal_with_fuel(members_view, 2);
    if members.len() > 0 {
        lemma_members_view(members.drop_last());
    }
}

/// `serde_json::Value`, the parser's tree. Nothing inside it is seen here.
#[verifier::external_type_specification]
#[verifier::external_body]
pub struct ExValue(serde_json::Value);

/// `serde_json::Error`, carried from the call that failed to the place where
/// it is turned into an error of this crate. Nothing inside it is seen here.
#[verifier::external_type_specification]
#[verifier::external_body]
pub struct ExJsonError(serde_json::Error);

/// The document that `serde_json::from_str` reads from a text, or `None`
/// where it rejects the text.
pub uninterp spec fn json_document(text: Seq<char>) -> Option<JsonView>;

/// The JSON value that a `serde_json::Value` holds.
pub uninterp spec fn value_json(value: serde_json::Value) -> JsonView;

/// What the values of a list hold, in order.
pub open spec fn values_json(values: Seq<serde_json::Value>) -> Seq<JsonView> {
    Seq::new(values.len(), |i: int| value_json(values[i]))
}

/// The keys of a list of members and what their values hold, in order.
pub open spec fn entries_json(entries: Seq<(&String, &serde_json::Value)>) -> Seq<
    (Seq<char>, JsonView),
> {
    Seq::new(entries.len(), |i: int| (entries[i].0@, value_json(*entries[i].1)))
}

/// Calls `serde_json::from_str` for a `serde_json::Value`.
///
/// Trusted: the call succeeds exactly on the texts that have a document, and
/// the value it returns holds that document.
#[verifier::external_body]
fn parse_value(text: &str) -> (res: Result<serde_json::Value, serde_json::Error>)
    ensures
        match res {
            Ok(value) => json_document(text@) == Some(value_json(value)),
            Err(_) => json_document(text@) is None,
        },
{
    serde_json::from_str::<serde_json::Value>(text)
}

/// Calls `serde_json::Value::as_bool`.
///
/// Trusted: a boolean is handed out, and nothing else is.
#[verifier::external_body]
fn value_as_bool(value: &serde_json::Value) -> (res: Option<bool>)
    ensures
        match res {
            Some(b) => value_json(*value) == JsonView::Bool(b),
            None => !(value_json(*value) is Bool),
        },
{
    value.as_bool()
}

/// Calls `serde_json::Value::as_f64` and takes the bits of the double.
///
/// Trusted: a number is handed out as the double that stands for it, and
/// nothing else is. (`serde_json` has a double for every number, unless it is
/// built for arbitrary precision, which it is not here.)
#[verifier::external_body]
fn value_as_number(value: &serde_json::Value) -> (res: Option<u64>)
    ensures
        match res {
            Some(bits) => value_json(*value) == JsonView::Number(bits),
            None => !(value_json(*value) is Number),
        },
{
    value.as_f64().map(|x| x.to_bits())
}

/// Calls `serde_json::Value::as_str`.
///
/// Trusted: a string is handed out, and nothing else is.
#[verifier::external_body]
fn value_as_str(value: &serde_json::Value) -> (res: Option<&str>)
    ensures
        match res {
            Some(text) => value_json(*value) == JsonView::Text(text@),
            None => !(value_json(*value) is Text),
        },
{
    value.as_str()
}

/// Calls `serde_json::Value::as_array`.
///
/// Trusted: the elements of an array are handed out in their order, and
/// nothing else is.
#[verifier::external_body]
fn value_as_array(value: &serde_json::Value) -> (res: Option<&Vec<serde_json::Value>>)
    ensures
        match res {
            Some(items) => value_json(*value) == JsonView::Array(values_json(items@)),
            None => !(value_json(*value) is Array),
        },
{
    value.as_array()
}

/// Calls `serde_json::Value::as_object` and lists what `serde_json::Map::iter`
/// walks over.
///
/// Trusted: the members of an object are handed out in the order of the
/// walk, and nothing else is.
#[verifier::external_body]
fn value_as_object(value: &serde_json::Value) -> (res: Option<
    Vec<(&String, &serde_json::Value)>,
>)
    ensures
        match res {
            Some(entries) => value_json(*value) == JsonView::Object(entries_json(entries@)),
            None => !(value_json(*value) is Object),
        },
{
    value.as_object().map(|members| members.iter().collect())
}

/// Copies a `serde_json::Value` into a [`Json`].
fn json_of_value(value: &serde_json::Value) -> (json: Json)
    ensures
        json@ == value_json(*value),
    decreases value_json(*value),
{
    if let Some(b) = value_as_bool(value) {
        return Json::Bool(b);
    }
    if let Some(bits) = value_as_number(value) {
        return Json::Number(bits);
    }
    if let Some(text) = value_as_str(value) {
        return Json::Text(text.to_owned());
    }
    if let Some(items) = value_as_array(value) {
        let ghost held = values_json(items@);
        let mut copied: Vec<Json> = Vec::new();
        let mut i: usize = 0;
        while i < items.len()
            invariant
                i <= items.len(),
                copied.len() == i,
                held == values_json(items@),
                value_json(*value) == JsonView::Array(held),
                forall|k: int| 0 <= k < i ==> (#[trigger] copied[k])@ == held[k],
            decreases items.len() - i,
        {
            proof {
                let whole = value_json(*value);
                assert(decreases_to!(whole => whole->Array_0));
                assert(decreases_to!(held => held[i as int]));
            }
            let item = json_of_value(&items[i]);
            copied.push(item);
            i += 1;
        }
        proof {
            lemma_items_view(copied@);
            assert(items_view(copied@) =~= held);
        }
        return Json::Array(copied);
    }
    if let Some(entries) = value_as_object(value) {
        let ghost held = entries_json(entries@);
        let mut copied: Vec<(String, Json)> = Vec::new();
        let mut i: usize = 0;
        while i < entries.len()
            invariant
                i <= entries.len(),
                copied.len() == i,
                held == entries_json(entries@),
                value_json(*value) == JsonView::Object(held),
                forall|k: int|
                    0 <= k < i ==> ((#[trigger] copied[k]).0@, copied[k].1@) == held[k],
            decreases entries.len() - i,
        {
            proof {
                let whole = value_json(*value);
                assert(decreases_to!(whole => whole->Object_0));
                assert(decreases_to!(held => held[i as int]));
                assert(decreases_to!(held[i as int] => held[i as int].1));
            }
            let key = entries[i].0.clone();
            let member = json_of_value(entries[i].1);
            copied.push((key, member));
            i += 1;
        }
        proof {
            lemma_members_view(copied@);
            assert(members_view(copied@) =~= held);
        }
        return Json::Object(copied);
    }
    Json::Null
}

/// The first member of an object that goes by `key`.
pub open spec fn member(members: Seq<(Seq<char>, JsonView)>, key: Seq<char>) -> Option<
    JsonView,
>
    decreases members.len(),
{
    if members.len() == 0 {
        None
    } else if members[0].0 == key {
        Some(members[0].1)
    } else {
        member(members.drop_first(), key)
    }
}

impl JsonView {
    /// The member `key` of this value, where it is an object that has one.
    pub open spec fn get(self, key: Seq<char>) -> Option<JsonView> {
        match self {
            JsonView::Object(members) => member(members, key),
            _ => None,
        }
    }

    /// The text held under `key`, where this is an object whose member `key`
    /// is a string.
    pub open spec fn text_at(self, key: Seq<char>) -> Option<Seq<char>> {
        match self.get(key) {
            Some(JsonView::Text(s)) => Some(s),
            _ => None,
        }
    }

    /// The number held under `key`, as the bits of its double, where this is
    /// an object whose member `key` is a number.
    pub open spec fn number_at(self, key: Seq<char>) -> Option<u64> {
        match self.get(key) {
            Some(JsonView::Number(bits)) => Some(bits),
            _ => None,
        }
    }
}

impl Json {
    /// Looks a member of an object up by its key. The first member that goes
    /// by the key is the one returned; a value that is no object has none.
    pub fn get(&self, key: &str) -> (res: Option<&Json>)
        ensures
            match res {
                Some(found) => self@.get(key@) == Some(found@),
                None => self@.get(key@) is None,
            },
    {
        match self {
            Json::Object(members) => {
                let wanted = key.to_owned();
                let ghost all = self@->Object_0;
                proof {
                    lemma_members_view(members@);
                    assert(all.skip(0) =~= all);
                }
                let mut i: usize = 0;
                while i < members.len()
                    invariant
                        i <= members.len(),
                        wanted@ == key@,
                        self@ == JsonView::Object(all),
                        all.len() == members.len(),
                        forall|k: int|
                            0 <= k < members.len() ==> (#[trigger] all[k]) == (
                                members[k].0@,
                                members[k].1@,
                            ),
                        member(all, key@) == member(all.skip(i as int), key@),
                    decreases members.len() - i,
                {
                    let ghost rest = all.skip(i as int);
                    assert(rest[0] == all[i as int]);
                    assert(rest.drop_first() =~= all.skip(i + 1));
                    if members[i].0 == wanted {
                        return Some(&members[i].1);
                    }
                    i += 1;
                }
                None
            },
            _ => None,
        }
    }

    /// The string under `key`, copied out.
    pub fn text_at(&self, key: &str) -> (res: Option<String>)
        ensures
            match res {
                Some(s) => self@.text_at(key@) == Some(s@),
                None => self@.text_at(key@) is None,
            },
    {
        match self.get(key) {
            Some(Json::Text(s)) => Some(s.clone()),
            _ => None,
        }
    }

    /// The number under `key`, as the bits of its double.
    pub fn number_at(&self, key: &str) -> (res: Option<u64>)
        ensures
            res == self@.number_at(key@),
    {
        match self.get(key) {
            Some(Json::Number(bits)) => Some(*bits),
            _ => None,
        }
    }
}

/// The views of a list of strings.
pub open spec fn phrases_view(phrases: Seq<String>) -> Seq<Seq<char>> {
    phrases.map_values(|p: String| p@)
}

/// The text that `serde_json::to_string` writes for a list of strings, or
/// `None` where it fails.
pub uninterp spec fn phrases_json(phrases: Seq<Seq<char>>) -> Option<Seq<char>>;

/// Calls `serde_json::to_string` on a list of strings.
///
/// Trusted: what comes back is the text that goes by the name above.
#[verifier::external_body]
fn encode_phrases(phrases: &Vec<String>) -> (res: Result<String, serde_json::Error>)
    ensures
        match res {
            Ok(text) => phrases_json(phrases_view(phrases@)) == Some(text@),
            Err(_) => phrases_json(phrases_view(phrases@)) is None,
        },
{
    serde_json::to_string(phrases)
}

/// The array of strings that a list of phrases makes.
pub open spec fn array_of_texts(phrases: Seq<Seq<char>>) -> JsonView {
    JsonView::Array(phrases.map_values(|p: Seq<char>| JsonView::Text(p)))
}

/// The JSON text of a list of phrases: the text that the writer gives, as
/// long as the reader finds in it the array of those very phrases.
pub open spec fn grammar_text(phrases: Seq<Seq<char>>) -> Option<Seq<char>> {
    match phrases_json(phrases) {
        Some(text) => if json_document(text) == Some(array_of_texts(phrases)) {
            Some(text)
        } else {
            None
        },
        None => None,
    }
}

impl Json {
    /// Tells whether this is the array of the given strings, in their order.
    pub fn is_array_of(&self, phrases: &Vec<String>) -> (same: bool)
        ensures
            same == (self@ == array_of_texts(phrases_view(phrases@))),
    {
        let ghost wanted = phrases_view(phrases@).map_values(|p: Seq<char>| JsonView::Text(p));
        match self {
            Json::Array(items) => {
                proof {
                    lemma_items_view(items@);
                }
                if items.len() != phrases.len() {
                    assert(items_view(items@).len() != wanted.len());
                    return false;
                }
                let mut i: usize = 0;
                while i < items.len()
                    invariant
                        i <= items.len(),
                        items.len() == phrases.len(),
                        wanted == phrases_view(phrases@).map_values(
                            |p: Seq<char>| JsonView::Text(p),
                        ),
                        self@ == JsonView::Array(items_view(items@)),
                        items_view(items@).len() == items.len(),
                        forall|k: int|
                            0 <= k < items.len() ==> (#[trigger] items_view(items@)[k])
                                == items[k]@,
                        forall|k: int| 0 <= k < i ==> items_view(items@)[k] == wanted[k],
                    decreases items.len() - i,
                {
                    let matches = match &items[i] {
                        Json::Text(text) => *text == phrases[i],
                        _ => false,
                    };
                    if !matches {
                        assert(items_view(items@)[i as int] != wanted[i as int]);
                        return false;
                    }
                    i += 1;
                }
                assert(items_view(items@) =~= wanted);
                true
            },
            _ => false,
        }
    }
}

/// Writes a list of phrases as a JSON array, and reads the text back to make
/// sure of it.
///
/// What is handed out is a text in which the reader finds the array of the
/// phrases, each as it was given.
pub fn phrases_to_json(phrases: &Vec<String>) -> (res: Option<String>)
    ensures
        match res {
            Some(text) => grammar_text(phrases_view(phrases@)) == Some(text@),
            None => grammar_text(phrases_view(phrases@)) is None,
        },
{
    match encode_phrases(phrases) {
        Ok(text) => match parse_json(text.as_str()) {
            Some(doc) => if doc.is_array_of(phrases) {
                Some(text)
            } else {
                None
            },
            None => None,
        },
        Err(_) => None,
    }
}

/// The text of a grammar, where there is one, holds the phrases and nothing
/// but the phrases.
pub proof fn lemma_grammar_text_holds_phrases(phrases: Seq<Seq<char>>)
    ensures
        grammar_text(phrases) matches Some(text) ==> json_document(text) == Some(
            array_of_texts(phrases),
        ),
{
}

/// `core::str::Utf8Error`. Nothing inside it is seen here.
#[verifier::external_type_specification]
#[verifier::external_body]
pub struct ExUtf8Error(core::str::Utf8Error);

/// `core::str::from_utf8` turns bytes into a string slice without copying.
///
/// Trusted: it succeeds exactly on the byte sequences that are UTF-8, and
/// the slice it returns is made of the bytes it was given.
pub assume_specification[ core::str::from_utf8 ](bytes: &[u8]) -> (res: Result<
    &str,
    core::str::Utf8Error,
>)
    ensures
        match res {
            Ok(text) => valid_utf8(bytes@) && text.spec_bytes() == bytes@,
            Err(_) => !valid_utf8(bytes@),
        },
;

/// The document that a reply holds: its bytes have to be UTF-8, and the text
/// that they encode has to be JSON.
pub open spec fn document_of(raw: Seq<u8>) -> Option<JsonView> {
    if valid_utf8(raw) {
        json_document(decode_utf8(raw))
    } else {
        None
    }
}

/// Reads a JSON text.
pub fn parse_json(text: &str) -> (res: Option<Json>)
    ensures
        match res {
            Some(json) => json_document(text@) == Some(json@),
            None => json_document(text@) is None,
        },
{
    match parse_value(text) {
        Ok(value) => Some(json_of_value(&value)),
        Err(_) => None,
    }
}

/// Reads the JSON document that a sequence of bytes holds.
pub fn parse_reply(raw: &[u8]) -> (res: Option<Json>)
    ensures
        match res {
            Some(json) => document_of(raw@) == Some(json@),
            None => document_of(raw@) is None,
        },
{
    match core::str::from_utf8(raw) {
        Ok(text) => {
            proof {
                encode_utf8_decode_utf8(text@);
            }
            parse_json(text)
        },
        Err(_) => None,
    }
}

} // verus!
