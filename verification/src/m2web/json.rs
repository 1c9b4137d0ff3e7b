//! JSON documents as plain trees, and the parser that produces them.

use crate::m2web::text::{parse_u32, same_text, u32_value};
use vstd::prelude::*;

verus! {

/// A JSON document.
///
/// Numbers keep the text they are printed with; the members of an object keep the
/// order in which the parser hands them out.
#[derive(Debug, PartialEq)]
pub enum Json {
    Null,
    Bool(bool),
    Number(String),
    Text(String),
    Array(Vec<Json>),
    Object(Vec<(String, Json)>),
}

/// The mathematical value of a [`Json`] document.
pub enum JsonView {
    Null,
    Bool(bool),
    Number(Seq<char>),
    Text(Seq<char>),
    Array(Seq<JsonView>),
    Object(Seq<(Seq<char>, JsonView)>),
}

/// The value of a document: the texts by their characters, the items and the
/// members in their order.
pub open spec fn json_view(tree: Json) -> JsonView
    decreases tree,
{
    match tree {
        Json::Null => JsonView::Null,
        Json::Bool(flag) => JsonView::Bool(flag),
        Json::Number(digits) => JsonView::Number(digits@),
        Json::Text(text) => JsonView::Text(text@),
        Json::Array(items) => JsonView::Array(
            Seq::new(
                items@.len(),
                |i: int|
                    if 0 <= i < items@.len() {
                        json_view(items@[i])
                    } else {
                        JsonView::Null
                    },
            ),
        ),
        Json::Object(members) => JsonView::Object(
            Seq::new(
                members@.len(),
                |i: int|
                    if 0 <= i < members@.len() {
                        (members@[i].0@, json_view(members@[i].1))
                    } else {
                        (Seq::empty(), JsonView::Null)
                    },
            ),
        ),
    }
}

impl View for Json {
    type V = JsonView;

    open spec fn view(&self) -> JsonView {
        json_view(*self)
    }
}

/// The value of the first member with a given name, in a list of members.
pub open spec fn member_of(members: Seq<(Seq<char>, JsonView)>, name: Seq<char>) -> Option<
    JsonView,
>
    decreases members.len(),
{
    if members.len() == 0 {
        None
    } else if members[0].0 == name {
        Some(members[0].1)
    } else {
        member_of(members.drop_first(), name)
    }
}

/// The texts that a list of documents holds, if each of them is a text.
pub open spec fn texts_of(items: Seq<JsonView>) -> Option<Seq<Seq<char>>>
    decreases items.len(),
{
    if items.len() == 0 {
        Some(Seq::empty())
    } else {
        match (texts_of(items.drop_last()), items.last()) {
            (Some(texts), JsonView::Text(text)) => Some(texts.push(text)),
            _ => None,
        }
    }
}

impl JsonView {
    /// The member of an object with a given name: the first, if there are several.
    pub open spec fn member(self, name: Seq<char>) -> Option<JsonView> {
        match self {
            JsonView::Object(members) => member_of(members, name),
            _ => None,
        }
    }

    /// The flag that the document holds, if it is one.
    pub open spec fn as_bool(self) -> Option<bool> {
        match self {
            JsonView::Bool(flag) => Some(flag),
            _ => None,
        }
    }

    /// The text that the document holds, if it is one.
    pub open spec fn as_text(self) -> Option<Seq<char>> {
        match self {
            JsonView::Text(text) => Some(text),
            _ => None,
        }
    }

    /// The number that the document holds, if it is a whole number from 0 to
    /// 4294967295.
    pub open spec fn as_u32(self) -> Option<u32> {
        match self {
            JsonView::Number(text) => u32_value(text),
            _ => None,
        }
    }

    /// The items that the document holds, if it is an array.
    pub open spec fn as_array(self) -> Option<Seq<JsonView>> {
        match self {
            JsonView::Array(items) => Some(items),
            _ => None,
        }
    }

    /// The texts that the document holds, if it is an array of texts.
    pub open spec fn as_texts(self) -> Option<Seq<Seq<char>>> {
        match self {
            JsonView::Array(items) => texts_of(items),
            _ => None,
        }
    }
}

impl Json {
    /// Tells whether the document is an object.
    pub fn is_object(&self) -> (yes: bool)
        ensures
            yes == (self@ is Object),
    {
        match self {
            Json::Object(_) => true,
            _ => false,
        }
    }

    /// The member of an object with a given name: the first, if there are several.
    pub fn member(&self, name: &str) -> (found: Option<&Json>)
        ensures
            found matches Some(value) ==> self@.member(name@) == Some(value@),
            found is None ==> self@.member(name@) is None,
    {
        match self {
            Json::Object(members) => {
                let ghost all = self@->Object_0;
                assert(all.skip(0) =~= all);
                let mut i: usize = 0;
                while i < members.len()
                    invariant
                        i <= members@.len(),
                        self@ == JsonView::Object(all),
                        all.len() == members@.len(),
                        forall|k: int|
                            0 <= k < members@.len() ==> all[k] == (members@[k].0@, members@[k].1@),
                        member_of(all, name@) == member_of(all.skip(i as int), name@),
                    decreases members@.len() - i,
                {
                    proof {
                        assert(all.skip(i as int).drop_first() =~= all.skip(i as int + 1));
                        assert(all.skip(i as int)[0] == all[i as int]);
                    }
                    if same_text(members[i].0.as_str(), name) {
                        return Some(&members[i].1);
                    }
                    i += 1;
                }
                None
            },
            _ => None,
        }
    }

    /// The flag that the document holds, if it is one.
    pub fn as_bool(&self) -> (flag: Option<bool>)
        ensures
            flag == self@.as_bool(),
    {
        match self {
            Json::Bool(flag) => Some(*flag),
            _ => None,
        }
    }

    /// The text that the document holds, if it is one.
    pub fn as_text(&self) -> (text: Option<&str>)
        ensures
            text matches Some(t) ==> self@.as_text() == Some(t@),
            text is None ==> self@.as_text() is None,
    {
        match self {
            Json::Text(text) => Some(text.as_str()),
            _ => None,
        }
    }

    /// The number that the document holds, if it is a whole number from 0 to
    /// 4294967295.
    pub fn as_u32(&self) -> (number: Option<u32>)
        ensures
            number == self@.as_u32(),
    {
        match self {
            Json::Number(text) => parse_u32(text.as_str()),
            _ => None,
        }
    }

    /// The items that the document holds, if it is an array.
    pub fn as_array(&self) -> (items: Option<&Vec<Json>>)
        ensures
            items matches Some(list) ==> self@.as_array() == Some(list.deep_view()),
            items is None ==> self@.as_array() is None,
    {
        match self {
            Json::Array(items) => {
                assert(self@->Array_0 =~= items.deep_view());
                Some(items)
            },
            _ => None,
        }
    }

    /// The texts that the document holds, if it is an array of texts.
    pub fn as_texts(&self) -> (texts: Option<Vec<String>>)
        ensures
            texts matches Some(list) ==> self@.as_texts() == Some(list.deep_view()),
            texts is None ==> self@.as_texts() is None,
    {
        match self {
            Json::Array(items) => {
                let ghost all = self@->Array_0;
                let mut texts: Vec<String> = Vec::new();
                let mut i: usize = 0;
                while i < items.len()
                    invariant
                        i <= items@.len(),
                        self@ == JsonView::Array(all),
                        all.len() == items@.len(),
                        forall|k: int| 0 <= k < items@.len() ==> all[k] == items@[k]@,
                        texts_of(all.take(i as int)) == Some(texts.deep_view()),
                    decreases items@.len() - i,
                {
                    let ghost before = texts.deep_view();
                    proof {
                        assert(all.take(i as int + 1).drop_last() =~= all.take(i as int));
                        assert(all.take(i as int + 1).last() == all[i as int]);
                    }
                    match &items[i] {
                        Json::Text(text) => {
                            texts.push(text.clone());
                            assert(texts.deep_view() =~= before.push(text@));
                        },
                        _ => {
                            proof {
                                assert(!(all[i as int] is Text));
                                if texts_of(all) is Some {
                                    lemma_texts_of_prefix(all, i as int + 1);
                                }
                            }
                            return None;
                        },
                    }
                    i += 1;
                }
                assert(all.take(i as int) =~= all);
                Some(texts)
            },
            _ => None,
        }
    }
}

impl DeepView for Json {
    type V = JsonView;

    open spec fn deep_view(&self) -> JsonView {
        self@
    }
}

/// Where every item of a list is a text, so is every item of its first part.
proof fn lemma_texts_of_prefix(items: Seq<JsonView>, len: int)
    requires
        0 <= len <= items.len(),
        texts_of(items) is Some,
    ensures
        texts_of(items.take(len)) is Some,
    decreases items.len(),
{
    if len == items.len() {
        assert(items.take(len) =~= items);
    } else {
        assert(items.drop_last().take(len) =~= items.take(len));
        lemma_texts_of_prefix(items.drop_last(), len);
    }
}

/// Why a text could not be read as JSON.
#[derive(Clone, Copy, Debug, PartialEq, Eq)]
pub enum Category {
    /// Bytes could not be read or written.
    Io,
    /// The text is not valid JSON.
    Syntax,
    /// The text is valid JSON of the wrong shape.
    Data,
    /// The text ends too early.
    Eof,
}

/// A failure to decode, with the parser's own words for it.
#[derive(Debug, PartialEq)]
pub struct DecodeError {
    pub category: Category,
    pub detail: String,
}

/// The mathematical value of a [`DecodeError`].
pub struct DecodeErrorView {
    pub category: Category,
    pub detail: Seq<char>,
}

impl View for DecodeError {
    type V = DecodeErrorView;

    open spec fn view(&self) -> DecodeErrorView {
        DecodeErrorView { category: self.category, detail: self.detail@ }
    }
}

/// The view of a parser's answer.
pub open spec fn parsed_view(parsed: Result<Json, DecodeError>) -> Result<JsonView, DecodeErrorView> {
    match parsed {
        Ok(tree) => Ok(tree@),
        Err(error) => Err(error@),
    }
}

/// What `serde_json::from_str` makes of a text when it is asked for a
/// `serde_json::Value`: the document, as a tree, or the category and the words of
/// the error.
pub uninterp spec fn json_parse(text: Seq<char>) -> Result<JsonView, DecodeErrorView>;

/// `serde_json::Value`, the parser's own tree. Nothing of it is visible to the
/// verifier.
#[verifier::external_type_specification]
#[verifier::external_body]
pub struct ExValue(serde_json::Value);

/// Turns a `serde_json::Value` into a [`Json`] tree, variant by variant: a number
/// by the text that `serde_json::Number` prints, the members of an object in the
/// order in which `serde_json::Map` hands them out. Nothing is claimed of it on
/// its own.
#[verifier::external_body]
fn json_from_value(value: serde_json::Value) -> Json {
    match value {
        serde_json::Value::Null => Json::Null,
        serde_json::Value::Bool(flag) => Json::Bool(flag),
        serde_json::Value::Number(number) => Json::Number(number.to_string()),
        serde_json::Value::String(text) => Json::Text(text),
        serde_json::Value::Array(items) => Json::Array(
            items.into_iter().map(json_from_value).collect(),
        ),
        serde_json::Value::Object(members) => Json::Object(
            members.into_iter().map(|(name, value)| (name, json_from_value(value))).collect(),
        ),
    }
}

/// Parses a text with `serde_json::from_str`, into a `serde_json::Value`.
///
/// The contract only names the outcome; it claims that the same text always
/// parses to the same tree, or fails with the same `Category` (what `classify`
/// says of the error) and the same words (what the error prints).
#[verifier::external_body]
fn parse_json(text: &str) -> (parsed: Result<Json, DecodeError>)
    ensures
        parsed_view(parsed) == json_parse(text@),
{
    match serde_json::from_str::<serde_json::Value>(text) {
        Ok(value) => Ok(json_from_value(value)),
        Err(error) => Err(DecodeError {
            category: match error.classify() {
                serde_json::error::Category::Io => Category::Io,
                serde_json::error::Category::Syntax => Category::Syntax,
                serde_json::error::Category::Data => Category::Data,
                serde_json::error::Category::Eof => Category::Eof,
            },
            detail: error.to_string(),
        }),
    }
}

/// Reads a text as a JSON document.
pub fn parse(text: &str) -> (parsed: Result<Json, DecodeError>)
    ensures
        parsed_view(parsed) == json_parse(text@),
{
    parse_json(text)
}

} // verus!
