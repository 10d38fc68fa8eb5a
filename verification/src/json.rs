//! JSON documents as plain values, read from text with `serde_json`.

use vstd::prelude::*;
use vstd::string::*;

verus! {

/// `serde_json::Value`. Nothing is known of what is inside a value but what
/// [`tree_of`] names.
#[verifier::external_type_specification]
#[verifier::external_body]
pub struct ExValue(serde_json::Value);

/// A JSON document.
#[derive(Debug, PartialEq)]
pub enum JsonValue {
    Null,
    Bool(bool),
    /// A number. The payload is its value where the number is a non-negative
    /// integer below 2^64, and `None` for every other number.
    Number(Option<u64>),
    Text(String),
    Array(Vec<JsonValue>),
    /// The members of an object, in the order in which they are held.
    Object(Vec<(String, JsonValue)>),
}

/// The mathematical value of a [`JsonValue`].
pub enum JsonView {
    Null,
    Bool(bool),
    Number(Option<u64>),
    Text(Seq<char>),
    Array(Seq<JsonView>),
    Object(Seq<(Seq<char>, JsonView)>),
}

/// The values of the items of an array.
pub open spec fn items_view(items: Seq<JsonValue>) -> Seq<JsonView>
    decreases items, 0int,
{
    Seq::new(
        items.len(),
        |i: int|
            if 0 <= i < items.len() {
                value_view(items[i])
            } else {
                JsonView::Null
            },
    )
}

/// The names and values of the members of an object.
pub open spec fn members_view(members: Seq<(String, JsonValue)>) -> Seq<(Seq<char>, JsonView)>
    decreases members, 0int,
{
    Seq::new(
        members.len(),
        |i: int|
            if 0 <= i < members.len() {
                (members[i].0@, value_view(members[i].1))
            } else {
                (Seq::empty(), JsonView::Null)
            },
    )
}

/// The value of a document.
pub open spec fn value_view(v: JsonValue) -> JsonView
    decreases v,
{
    match v {
        JsonValue::Null => JsonView::Null,
        JsonValue::Bool(b) => JsonView::Bool(b),
        JsonValue::Number(n) => JsonView::Number(n),
        JsonValue::Text(s) => JsonView::Text(s@),
        JsonValue::Array(items) => JsonView::Array(items_view(items@)),
        JsonValue::Object(members) => JsonView::Object(members_view(members@)),
    }
}

impl View for JsonValue {
    type V = JsonView;

    open spec fn view(&self) -> JsonView {
        value_view(*self)
    }
}

/// What a `serde_json::Value` holds: its scalar, or its children in order,
/// each by what it holds.
pub uninterp spec fn tree_of(v: serde_json::Value) -> JsonView;

/// What `serde_json::from_str` makes of a text: the document, or the message
/// of the error with which it refuses the text.
pub uninterp spec fn json_text_parsed(text: Seq<char>) -> Result<JsonView, Seq<char>>;

/// Where `serde_path_to_error::deserialize` finds that a text stops being
/// JSON: the path from the root to the value that was being read, or
/// nothing where it reads a value to its end.
pub uninterp spec fn json_fault_path(text: Seq<char>) -> Option<Seq<char>>;

/// The path of a document's root.
pub const ROOT: &'static str = ".";

/// Why a text is no JSON document, and the path to where it stops being one.
#[derive(Clone, Debug, PartialEq)]
pub struct JsonError {
    pub path: String,
    pub message: String,
}

/// The mathematical value of a [`JsonError`].
pub struct JsonErrorView {
    pub path: Seq<char>,
    pub message: Seq<char>,
}

impl View for JsonError {
    type V = JsonErrorView;

    open spec fn view(&self) -> JsonErrorView {
        JsonErrorView { path: self.path@, message: self.message@ }
    }
}

/// The outcome of reading a text as JSON: the document, or the reader's
/// message with the path to the fault, which is the root's where the reader
/// names no other.
pub open spec fn json_outcome(text: Seq<char>) -> Result<JsonView, JsonErrorView> {
    match json_text_parsed(text) {
        Ok(doc) => Ok(doc),
        Err(message) => Err(
            JsonErrorView {
                path: match json_fault_path(text) {
                    Some(path) => path,
                    None => ROOT@,
                },
                message,
            },
        ),
    }
}

/// The mathematical value of the outcome of reading a JSON text.
pub open spec fn json_result_view(parsed: Result<JsonValue, JsonError>) -> Result<
    JsonView,
    JsonErrorView,
> {
    match parsed {
        Ok(doc) => Ok(doc@),
        Err(e) => Err(e@),
    }
}

/// The top of a `serde_json::Value`, its children still in `serde_json`'s
/// keeping.
pub enum JsonNode<'a> {
    Null,
    Bool(bool),
    Number(Option<u64>),
    Text(&'a String),
    Array(&'a Vec<serde_json::Value>),
    Object(Vec<(&'a String, &'a serde_json::Value)>),
}

impl<'a> JsonNode<'a> {
    /// What the node holds, its children by what they hold.
    pub open spec fn view(&self) -> JsonView {
        match *self {
            JsonNode::Null => JsonView::Null,
            JsonNode::Bool(b) => JsonView::Bool(b),
            JsonNode::Number(n) => JsonView::Number(n),
            JsonNode::Text(s) => JsonView::Text(s@),
            JsonNode::Array(items) => JsonView::Array(
                Seq::new(items@.len(), |i: int| tree_of(items@[i])),
            ),
            JsonNode::Object(members) => JsonView::Object(
                Seq::new(members@.len(), |i: int| (members@[i].0@, tree_of(*members@[i].1))),
            ),
        }
    }
}

/// `serde_json::from_str` at type `serde_json::Value`. The contract names the
/// outcome [`json_text_parsed`]: the value's tree on success, the error's
/// message otherwise.
#[verifier::external_body]
fn value_from_text(text: &str) -> (r: Result<serde_json::Value, String>)
    ensures
        match r {
            Ok(v) => json_text_parsed(text@) == Ok::<JsonView, Seq<char>>(tree_of(v)),
            Err(m) => json_text_parsed(text@) == Err::<JsonView, Seq<char>>(m@),
        },
{
    match serde_json::from_str::<serde_json::Value>(text) {
        Ok(v) => Ok(v),
        Err(e) => Err(e.to_string()),
    }
}

/// `serde_path_to_error::deserialize` at type `serde_json::Value`, on
/// `serde_json`'s reader of the text. The contract names the outcome
/// [`json_fault_path`]: the error's path as it is displayed, or nothing where
/// there is no error.
#[verifier::external_body]
fn fault_path_of(text: &str) -> (r: Option<String>)
    ensures
        match r {
            Some(path) => json_fault_path(text@) == Some(path@),
            None => json_fault_path(text@) is None,
        },
{
    let mut reader = serde_json::Deserializer::from_str(text);
    match serde_path_to_error::deserialize::<_, serde_json::Value>(&mut reader) {
        Ok(_) => None,
        Err(e) => Some(e.path().to_string()),
    }
}

/// Takes the top of a `serde_json::Value` apart, one arm for each variant. The
/// contract says that the node holds what the value holds: the same scalar
/// (of a number, what `Number::as_u64` gives), or the same children in the
/// same order, an object's members under their keys in the order in which
/// the map hands them out.
#[verifier::external_body]
fn node_of<'a>(v: &'a serde_json::Value) -> (r: JsonNode<'a>)
    ensures
        r.view() == tree_of(*v),
{
    match v {
        serde_json::Value::Null => JsonNode::Null,
        serde_json::Value::Bool(b) => JsonNode::Bool(*b),
        serde_json::Value::Number(n) => JsonNode::Number(n.as_u64()),
        serde_json::Value::String(s) => JsonNode::Text(s),
        serde_json::Value::Array(a) => JsonNode::Array(a),
        serde_json::Value::Object(o) => JsonNode::Object(o.iter().collect()),
    }
}

/// Copies a `serde_json::Value` into a document of plain values.
fn document_of(v: &serde_json::Value) -> (r: JsonValue)
    ensures
        r@ == tree_of(*v),
    decreases tree_of(*v),
{
    match node_of(v) {
        JsonNode::Null => JsonValue::Null,
        JsonNode::Bool(b) => JsonValue::Bool(b),
        JsonNode::Number(n) => JsonValue::Number(n),
        JsonNode::Text(s) => JsonValue::Text(s.clone()),
        JsonNode::Array(items) => {
            let mut out: Vec<JsonValue> = Vec::new();
            let mut i: usize = 0;
            while i < items.len()
                invariant
                    i <= items@.len(),
                    tree_of(*v) == JsonView::Array(
                        Seq::new(items@.len(), |k: int| tree_of(items@[k])),
                    ),
                    out@.len() == i,
                    forall|k: int| 0 <= k < i ==> (#[trigger] out@[k])@ == tree_of(items@[k]),
                decreases items@.len() - i,
            {
                proof {
                    let children = tree_of(*v)->Array_0;
                    assert(children[i as int] == tree_of(items@[i as int]));
                    assert(decreases_to!(tree_of(*v) => children));
                    assert(decreases_to!(children => children[i as int]));
                }
                let child = document_of(&items[i]);
                out.push(child);
                i += 1;
            }
            assert(items_view(out@) =~= Seq::new(items@.len(), |k: int| tree_of(items@[k])));
            JsonValue::Array(out)
        },
        JsonNode::Object(members) => {
            let mut out: Vec<(String, JsonValue)> = Vec::new();
            let mut i: usize = 0;
            while i < members.len()
                invariant
                    i <= members@.len(),
                    tree_of(*v) == JsonView::Object(
                        Seq::new(members@.len(), |k: int| (members@[k].0@, tree_of(*members@[k].1))),
                    ),
                    out@.len() == i,
                    forall|k: int|
                        0 <= k < i ==> (#[trigger] out@[k]).0@ == members@[k].0@ && out@[k].1@
                            == tree_of(*members@[k].1),
                decreases members@.len() - i,
            {
                proof {
                    let children = tree_of(*v)->Object_0;
                    assert(children[i as int].1 == tree_of(*members@[i as int].1));
                    assert(decreases_to!(tree_of(*v) => children));
                    assert(decreases_to!(children => children[i as int]));
                    assert(decreases_to!(children[i as int] => children[i as int].1));
                }
                let child = document_of(members[i].1);
                out.push((members[i].0.clone(), child));
                i += 1;
            }
            assert(members_view(out@) =~= Seq::new(
                members@.len(),
                |k: int| (members@[k].0@, tree_of(*members@[k].1)),
            ));
            JsonValue::Object(out)
        },
    }
}

/// Reads a JSON text. On success the document is what `serde_json` read; on
/// failure the message is `serde_json`'s, and the path is where
/// `serde_path_to_error` saw the text stop being JSON.
pub fn parse_json(text: &str) -> (r: Result<JsonValue, JsonError>)
    ensures
        json_result_view(r) == json_outcome(text@),
{
    match value_from_text(text) {
        Ok(v) => Ok(document_of(&v)),
        Err(message) => {
            let path = match fault_path_of(text) {
                Some(path) => path,
                None => String::from_str(ROOT),
            };
            Err(JsonError { path, message })
        },
    }
}

} // verus!
