//! JSON documents: what the library reads of a `serde_json::Value` and how.

use vstd::prelude::*;

use crate::envelope::{distinct_keys, entry_map};

verus! {

/// What a JSON value holds. A number is given by its JSON text.
pub enum JsonTree {
    Null,
    Bool(bool),
    Number(Seq<char>),
    Text(Seq<char>),
    List(Seq<JsonTree>),
    Object(Map<Seq<char>, JsonTree>),
}

/// `serde_json::Value`: a JSON value.
#[verifier::external_type_specification]
#[verifier::external_body]
pub struct ExValue(serde_json::Value);

/// `serde_json::Error`: why a text is not JSON.
#[verifier::external_type_specification]
#[verifier::external_body]
pub struct ExJsonError(serde_json::Error);

/// What a `serde_json::Value` holds.
pub uninterp spec fn json_tree(value: serde_json::Value) -> JsonTree;

/// The value that a JSON Pointer (RFC 6901) addresses in a document, as
/// `serde_json::Value::pointer` finds it.
pub uninterp spec fn pointer_target(document: JsonTree, pointer: Seq<char>) -> Option<JsonTree>;

/// The compact JSON text of a value, as `serde_json` writes it.
pub uninterp spec fn compact_text(tree: JsonTree) -> Seq<char>;

/// The value of a JSON text, as `serde_json::from_slice` reads it.
pub uninterp spec fn parsed_json(bytes: Seq<u8>) -> Option<JsonTree>;

/// The compact JSON text of a value in UTF-8, as `serde_json::to_vec` writes it.
pub uninterp spec fn json_bytes(tree: JsonTree) -> Seq<u8>;

/// `serde_json::Value::pointer` gives the value that the pointer addresses, or `None`.
pub assume_specification<'a>[ serde_json::Value::pointer ](
    value: &'a serde_json::Value,
    pointer: &str,
) -> (target: Option<&'a serde_json::Value>)
    ensures
        match target {
            Some(target) => pointer_target(json_tree(*value), pointer@) == Some(json_tree(*target)),
            None => pointer_target(json_tree(*value), pointer@) is None,
        },
;

/// `serde_json::Value::as_str` gives the text of a string, and `None` for every other value.
pub assume_specification<'a>[ serde_json::Value::as_str ](
    value: &'a serde_json::Value,
) -> (text: Option<&'a str>)
    ensures
        match text {
            Some(text) => json_tree(*value) == JsonTree::Text(text@),
            None => json_tree(*value) !is Text,
        },
;

/// `serde_json::Value::is_null` tells whether the value is null.
pub assume_specification[ serde_json::Value::is_null ](value: &serde_json::Value) -> (b: bool)
    ensures
        b == (json_tree(*value) is Null),
;

/// `serde_json::Value::get` with a string index gives the member of an object that has
/// that name, and `None` for every other value.
#[verifier::external_body]
pub(crate) fn member<'a>(value: &'a serde_json::Value, name: &str) -> (member: Option<
    &'a serde_json::Value,
>)
    ensures
        match member {
            Some(member) => json_tree(*value) matches JsonTree::Object(members)
                && members.contains_key(name@) && members[name@] == json_tree(*member),
            None => json_tree(*value) matches JsonTree::Object(members) ==> !members.contains_key(
                name@,
            ),
        },
{
    value.get(name)
}

/// The `Display` form of a `serde_json::Value` is its compact JSON text.
#[verifier::external_body]
pub(crate) fn compact(value: &serde_json::Value) -> (text: String)
    ensures
        text@ == compact_text(json_tree(*value)),
{
    value.to_string()
}

/// `serde_json::from_slice` reads one JSON value that spans all of `bytes`, or fails.
#[verifier::external_body]
pub(crate) fn parse(bytes: &[u8]) -> (value: Result<serde_json::Value, serde_json::Error>)
    ensures
        match value {
            Ok(value) => parsed_json(bytes@) == Some(json_tree(value)),
            Err(_) => parsed_json(bytes@) is None,
        },
{
    serde_json::from_slice(bytes)
}

/// Whether a value is an object whose members are strings.
pub open spec fn is_text_object(tree: JsonTree) -> bool {
    tree matches JsonTree::Object(members) && forall|name: Seq<char>|
        members.contains_key(name) ==> #[trigger] members[name] is Text
}

/// `serde_json::to_vec` writes a value as compact JSON text. Of an object whose members
/// are strings the contract says more: it is written, and its text reads back as it was.
/// What is left unsaid is how other values read back: a fraction may come back changed.
#[verifier::external_body]
pub(crate) fn to_bytes(value: &serde_json::Value) -> (bytes: Result<Vec<u8>, serde_json::Error>)
    ensures
        bytes matches Ok(bytes) ==> bytes@ == json_bytes(json_tree(*value)),
        is_text_object(json_tree(*value)) ==> (bytes matches Ok(bytes) && parsed_json(bytes@)
            == Some(json_tree(*value))),
{
    serde_json::to_vec(value)
}

/// `serde_json::Value::from_iter` makes an object of pairs of a name and a value, here of
/// strings with distinct names.
#[verifier::external_body]
pub(crate) fn text_object(entries: Vec<(String, String)>) -> (value: serde_json::Value)
    requires
        distinct_keys(entries@),
    ensures
        json_tree(value) == JsonTree::Object(
            entry_map(entries@).map_values(|text: Seq<char>| JsonTree::Text(text)),
        ),
{
    serde_json::Value::from_iter(entries)
}

/// What a JSON Pointer finds in a document: nothing, null, a string, or another value by
/// its compact JSON text.
#[derive(Debug)]
pub enum InputNode {
    Missing,
    Null,
    Text(String),
    Other(String),
}

/// The view of an [`InputNode`].
pub enum InputNodeView {
    Missing,
    Null,
    Text(Seq<char>),
    Other(Seq<char>),
}

impl View for InputNode {
    type V = InputNodeView;

    open spec fn view(&self) -> InputNodeView {
        match self {
            InputNode::Missing => InputNodeView::Missing,
            InputNode::Null => InputNodeView::Null,
            InputNode::Text(text) => InputNodeView::Text(text@),
            InputNode::Other(text) => InputNodeView::Other(text@),
        }
    }
}

/// The node that the target of a pointer stands for.
pub open spec fn node_of(target: Option<JsonTree>) -> InputNodeView {
    match target {
        None => InputNodeView::Missing,
        Some(JsonTree::Null) => InputNodeView::Null,
        Some(JsonTree::Text(text)) => InputNodeView::Text(text),
        Some(tree) => InputNodeView::Other(compact_text(tree)),
    }
}

/// Reads what `pointer` addresses in `document`.
pub fn read_input(document: &serde_json::Value, pointer: &str) -> (node: InputNode)
    ensures
        node@ == node_of(pointer_target(json_tree(*document), pointer@)),
{
    match document.pointer(pointer) {
        None => InputNode::Missing,
        Some(target) => {
            if target.is_null() {
                return InputNode::Null;
            }
            match target.as_str() {
                Some(text) => InputNode::Text(text.to_owned()),
                None => InputNode::Other(compact(target)),
            }
        },
    }
}

/// What a JSON Pointer finds is told apart by what is there: nothing, null, a string with its
/// text, and any other value with its compact JSON text.
pub proof fn law_nodes_by_what_is_found(target: JsonTree, text: Seq<char>)
    ensures
        node_of(None) == InputNodeView::Missing,
        node_of(Some(JsonTree::Null)) == InputNodeView::Null,
        node_of(Some(JsonTree::Text(text))) == InputNodeView::Text(text),
        target !is Null && target !is Text ==> node_of(Some(target)) == InputNodeView::Other(
            compact_text(target),
        ),
{
}

/// The view of a node shows its kind and its text.
pub proof fn law_node_shows_its_text(text: String)
    ensures
        InputNode::Missing@ == InputNodeView::Missing,
        InputNode::Null@ == InputNodeView::Null,
        InputNode::Text(text)@ == InputNodeView::Text(text@),
        InputNode::Other(text)@ == InputNodeView::Other(text@),
{
}

/// An object is one of strings exactly if no member of it is anything but a string.
pub proof fn law_text_objects_hold_strings_only(
    members: Map<Seq<char>, JsonTree>,
    name: Seq<char>,
    text: Seq<char>,
    other: JsonTree,
)
    requires
        is_text_object(JsonTree::Object(members)),
        other !is Text,
    ensures
        is_text_object(JsonTree::Object(members.insert(name, JsonTree::Text(text)))),
        !is_text_object(JsonTree::Object(members.insert(name, other))),
        !is_text_object(other) || other is Object,
        is_text_object(JsonTree::Object(Map::empty())),
{
    let grown = members.insert(name, JsonTree::Text(text));
    assert forall|key: Seq<char>| grown.contains_key(key) implies #[trigger] grown[key] is Text by {
        if key != name {
            assert(members.contains_key(key));
            assert(grown[key] == members[key]);
        }
    }
    let spoilt = members.insert(name, other);
    assert(spoilt.contains_key(name) && spoilt[name] == other);
}

} // verus!
