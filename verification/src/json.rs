//! JSON values of `serde_json`, and what they hold.

use vstd::prelude::*;

verus! {

/// A JSON value as a tree.
pub enum JsonTree {
    Null,
    Bool(bool),
    /// An integer, by its value.
    Int(int),
    /// Any other number, by its printed form.
    Real(Seq<char>),
    Text(Seq<char>),
    Array(Seq<JsonTree>),
    Object(Map<Seq<char>, JsonTree>),
}

/// A JSON value of `serde_json`.
#[verifier::external_type_specification]
#[verifier::external_body]
pub struct ExValue(serde_json::Value);

/// The fields of a JSON object, as `serde_json` collects them.
#[verifier::external_type_specification]
#[verifier::external_body]
#[verifier::reject_recursive_types(K)]
#[verifier::reject_recursive_types(V)]
pub struct ExObject<K, V>(serde_json::Map<K, V>);

/// The tree that a value holds.
pub uninterp spec fn value_tree(value: serde_json::Value) -> JsonTree;

/// The fields that an object holds, by name.
pub uninterp spec fn object_fields(
    object: serde_json::Map<String, serde_json::Value>,
) -> Map<Seq<char>, JsonTree>;

/// What `serde_json::from_str` reads from a text: nothing where the text is not JSON.
pub uninterp spec fn parsed(text: Seq<char>) -> Option<JsonTree>;

/// What a value prints as: compact JSON.
pub uninterp spec fn printed(tree: JsonTree) -> Seq<char>;

/// An array of texts.
pub open spec fn text_array(texts: Seq<Seq<char>>) -> JsonTree {
    JsonTree::Array(texts.map_values(|t: Seq<char>| JsonTree::Text(t)))
}

/// An object that lists addresses, and holds nothing else.
pub open spec fn address_list(addresses: Seq<Seq<char>>) -> JsonTree {
    JsonTree::Object(no_fields().insert("addresses"@, text_array(addresses)))
}

/// How many arrays and objects may stand inside one another in a text that is read.
pub open spec fn max_depth() -> nat {
    127
}

/// A tree without other numbers than integers, without the field name that
/// `serde_json` keeps for raw values, and with at most so many arrays and objects
/// inside one another.
pub open spec fn plain(tree: JsonTree, depth: nat) -> bool
    decreases depth,
{
    match tree {
        JsonTree::Real(_) => false,
        JsonTree::Array(items) => depth > 0 && forall|i: int|
            0 <= i < items.len() ==> plain(#[trigger] items[i], (depth - 1) as nat),
        JsonTree::Object(fields) => depth > 0 && !fields.contains_key(
            "$serde_json::private::RawValue"@,
        ) && forall|name: Seq<char>| #[trigger]
            fields.contains_key(name) ==> plain(fields[name], (depth - 1) as nat),
        _ => true,
    }
}

/// Whether what a tree prints as reads back as that tree.
pub open spec fn reads_as_printed(tree: JsonTree) -> bool {
    parsed(printed(tree)) == Some(tree)
}

/// Calls `serde_json::from_str`: the value that a text denotes, which depends on
/// the text alone; nothing where the text is not JSON.
#[verifier::external_body]
pub(crate) fn parse_value(text: &str) -> (value: Option<serde_json::Value>)
    ensures
        match value {
            Some(v) => parsed(text@) == Some(value_tree(v)),
            None => parsed(text@) is None,
        },
{
    serde_json::from_str::<serde_json::Value>(text).ok()
}

/// Prints a value through the `Display` of `serde_json::Value`: compact JSON.
/// What a plain value prints as reads back as the same value. Of other values no
/// more is said: a number that is no integer may be rounded when it is read, a text
/// that nests too deep is refused, and an object with the field name of raw values
/// in front is not read as an object.
#[verifier::external_body]
pub(crate) fn print_value(value: &serde_json::Value) -> (text: String)
    ensures
        text@ == printed(value_tree(*value)),
        plain(value_tree(*value), max_depth()) ==> parsed(text@) == Some(value_tree(*value)),
{
    value.to_string()
}

/// Calls `serde_json::Value::get` with a field name: the field of an object,
/// nothing for any other value.
#[verifier::external_body]
pub(crate) fn field<'a>(value: &'a serde_json::Value, key: &str) -> (found: Option<
    &'a serde_json::Value,
>)
    ensures
        match found {
            Some(v) => tree_field(value_tree(*value), key@) == Some(value_tree(*v)),
            None => tree_field(value_tree(*value), key@) is None,
        },
{
    value.get(key)
}

/// The field of a tree: nothing where the tree is not an object or has no such field.
pub open spec fn tree_field(tree: JsonTree, key: Seq<char>) -> Option<JsonTree> {
    match tree {
        JsonTree::Object(fields) => if fields.contains_key(key) {
            Some(fields[key])
        } else {
            None
        },
        _ => None,
    }
}

/// The text that a tree is, if it is one.
pub open spec fn tree_text(tree: JsonTree) -> Option<Seq<char>> {
    match tree {
        JsonTree::Text(text) => Some(text),
        _ => None,
    }
}

/// The texts that a tree is an array of, if it is one.
pub open spec fn tree_texts(tree: JsonTree) -> Option<Seq<Seq<char>>> {
    match tree {
        JsonTree::Array(items) => if forall|i: int|
            0 <= i < items.len() ==> #[trigger] items[i] is Text {
            Some(items.map_values(|t: JsonTree| t->Text_0))
        } else {
            None
        },
        _ => None,
    }
}

/// Calls `serde_json::Value::as_str`: the text of a string value.
#[verifier::external_body]
pub(crate) fn as_text<'a>(value: &'a serde_json::Value) -> (text: Option<&'a str>)
    ensures
        text.deep_view() == tree_text(value_tree(*value)),
{
    value.as_str()
}

/// Calls `serde_json::from_value` for a list of strings, which takes an array
/// of string values and nothing else.
#[verifier::external_body]
pub(crate) fn as_texts(value: serde_json::Value) -> (texts: Option<Vec<String>>)
    ensures
        texts.deep_view() == tree_texts(value_tree(value)),
{
    serde_json::from_value::<Vec<String>>(value).ok()
}

/// Calls the `clone` of `serde_json::Value`, which copies the tree.
#[verifier::external_body]
pub(crate) fn copy_value(value: &serde_json::Value) -> (copy: serde_json::Value)
    ensures
        value_tree(copy) == value_tree(*value),
{
    value.clone()
}

/// Makes `serde_json::Value::Null`, which is the JSON null.
#[verifier::external_body]
pub(crate) fn null_value() -> (value: serde_json::Value)
    ensures
        value_tree(value) == JsonTree::Null,
{
    serde_json::Value::Null
}

/// Makes a `serde_json::Value::Bool`, which is a JSON truth value.
#[verifier::external_body]
pub(crate) fn bool_value(b: bool) -> (value: serde_json::Value)
    ensures
        value_tree(value) == JsonTree::Bool(b),
{
    serde_json::Value::Bool(b)
}

/// Calls the `From<i64>` of `serde_json::Value`: a JSON number, the integer itself.
#[verifier::external_body]
pub(crate) fn int_value(n: i64) -> (value: serde_json::Value)
    ensures
        value_tree(value) == JsonTree::Int(n as int),
{
    serde_json::Value::from(n)
}

/// Makes a `serde_json::Value::String`, which is a JSON text.
#[verifier::external_body]
pub(crate) fn text_value(text: String) -> (value: serde_json::Value)
    ensures
        value_tree(value) == JsonTree::Text(text@),
{
    serde_json::Value::String(text)
}

/// Makes a `serde_json::Value::Array`, which holds the given values in order.
#[verifier::external_body]
pub(crate) fn array_value(items: Vec<serde_json::Value>) -> (value: serde_json::Value)
    ensures
        value_tree(value) == JsonTree::Array(items@.map_values(|v: serde_json::Value| value_tree(v))),
{
    serde_json::Value::Array(items)
}

/// Makes a `serde_json::Value::Object`, which has the given fields.
#[verifier::external_body]
pub(crate) fn object_value(
    object: serde_json::Map<String, serde_json::Value>,
) -> (value: serde_json::Value)
    ensures
        value_tree(value) == JsonTree::Object(object_fields(object)),
{
    serde_json::Value::Object(object)
}

/// Tells a `serde_json::Value::Object` from the other values and hands out its fields.
#[verifier::external_body]
pub(crate) fn as_object(value: serde_json::Value) -> (object: Option<
    serde_json::Map<String, serde_json::Value>,
>)
    ensures
        match object {
            Some(o) => value_tree(value) == JsonTree::Object(object_fields(o)),
            None => !(value_tree(value) is Object),
        },
{
    match value {
        serde_json::Value::Object(object) => Some(object),
        _ => None,
    }
}

/// No fields.
pub open spec fn no_fields() -> Map<Seq<char>, JsonTree> {
    Map::empty()
}

/// Calls `serde_json::Map::new`: an object without fields.
#[verifier::external_body]
pub(crate) fn new_object() -> (object: serde_json::Map<String, serde_json::Value>)
    ensures
        object_fields(object) == no_fields(),
{
    serde_json::Map::new()
}

/// Calls `serde_json::Map::insert`, which sets a field and overwrites what it held.
#[verifier::external_body]
pub(crate) fn set_field(
    object: &mut serde_json::Map<String, serde_json::Value>,
    key: String,
    value: serde_json::Value,
)
    ensures
        object_fields(*final(object)) == object_fields(*old(object)).insert(
            key@,
            value_tree(value),
        ),
{
    object.insert(key, value);
}

/// The fields of a list of names and values, where a later field overwrites an
/// earlier one of the same name.
pub open spec fn listed_fields(list: Seq<(String, serde_json::Value)>) -> Map<Seq<char>, JsonTree>
    decreases list.len(),
{
    if list.len() == 0 {
        Map::empty()
    } else {
        listed_fields(list.drop_last()).insert(list.last().0@, value_tree(list.last().1))
    }
}

/// Walks an object through the iterator of `serde_json::Map`: each field once,
/// with its value.
#[verifier::external_body]
pub(crate) fn object_list(
    object: serde_json::Map<String, serde_json::Value>,
) -> (list: Vec<(String, serde_json::Value)>)
    ensures
        listed_fields(list@) == object_fields(object),
        forall|i: int, j: int| 0 <= i < j < list@.len() ==> list@[i].0@ != list@[j].0@,
{
    object.into_iter().collect()
}

} // verus!
