//! Contact profiles and the index by which they are found by name.
//!
//! Both stand in the state of the agent whose contacts they are: a profile
//! under the address of the contact, the index under each name in lower case.

use vstd::prelude::*;

use crate::json::{
    address_list, array_value, as_object, as_text, as_texts, copy_value, field, listed_fields,
    max_depth, new_object, no_fields, object_fields, object_list, object_value, parse_value, parsed,
    plain, print_value, printed, reads_as_printed, set_field, text_array, text_value, tree_field,
    tree_text, tree_texts, value_tree, JsonTree,
};
use crate::text::{lists, lowercase, same, to_lowercase};

verus! {

// Keys

/// The key of the profile of an address.
pub open spec fn profile_key(address: Seq<char>) -> Seq<char> {
    "profile:"@ + address
}

/// The key of the index of a name.
pub open spec fn name_key(name: Seq<char>) -> Seq<char> {
    "name:"@ + lowercase(name)
}

/// The key of the profile of an address.
pub fn key_of_profile(address: &str) -> (key: String)
    ensures
        key@ == profile_key(address@),
{
    let mut key = "profile:".to_string();
    key.append(address);
    key
}

/// The key of the index of a name.
pub fn key_of_name(name: &str) -> (key: String)
    ensures
        key@ == name_key(name@),
{
    let mut key = "name:".to_string();
    key.append(&to_lowercase(name));
    key
}

// Profiles

/// The name in a JSON value: empty where it is not an object with a text as its
/// `name`.
pub open spec fn name_in_tree(tree: JsonTree) -> Seq<char> {
    match tree_field(tree, "name"@) {
        Some(name) => match tree_text(name) {
            Some(text) => text,
            None => Seq::empty(),
        },
        None => Seq::empty(),
    }
}

/// The name in a profile: empty where the profile is not JSON or has none.
pub open spec fn profile_name(profile: Seq<char>) -> Seq<char> {
    match parsed(profile) {
        Some(tree) => name_in_tree(tree),
        None => Seq::empty(),
    }
}

/// The name in a JSON value.
pub fn name_in_value(value: &serde_json::Value) -> (name: String)
    ensures
        name@ == name_in_tree(value_tree(*value)),
{
    match field(value, "name") {
        Some(name) => match as_text(name) {
            Some(text) => text.to_owned(),
            None => String::new(),
        },
        None => String::new(),
    }
}

/// The name in a profile.
pub fn name_in_profile(profile: &str) -> (name: String)
    ensures
        name@ == profile_name(profile@),
{
    match parse_value(profile) {
        Some(value) => name_in_value(&value),
        None => String::new(),
    }
}

/// What a profile holds: no fields where it is not JSON.
pub open spec fn profile_tree(profile: Seq<char>) -> JsonTree {
    match parsed(profile) {
        Some(tree) => tree,
        None => JsonTree::Object(no_fields()),
    }
}

/// A tree with the fields of a patch. What is not an object stays as it is, and
/// does not change what it meets.
pub open spec fn patched(base: JsonTree, patch: JsonTree) -> JsonTree {
    match (base, patch) {
        (JsonTree::Object(fields), JsonTree::Object(changes)) => JsonTree::Object(
            fields.union_prefer_right(changes),
        ),
        _ => base,
    }
}

/// What a profile with the fields of a newer one holds.
pub open spec fn merged_tree(old_profile: Seq<char>, new_profile: Seq<char>) -> JsonTree {
    patched(profile_tree(old_profile), profile_tree(new_profile))
}

/// A profile with the fields of a newer one.
pub open spec fn merged_profile(old_profile: Seq<char>, new_profile: Seq<char>) -> Seq<char> {
    printed(merged_tree(old_profile, new_profile))
}

fn read_profile(profile: &str) -> (value: serde_json::Value)
    ensures
        value_tree(value) == profile_tree(profile@),
{
    match parse_value(profile) {
        Some(value) => value,
        None => object_value(new_object()),
    }
}

fn patch_fields(
    object: &mut serde_json::Map<String, serde_json::Value>,
    patch: serde_json::Map<String, serde_json::Value>,
)
    ensures
        object_fields(*final(object)) == object_fields(*old(object)).union_prefer_right(
            object_fields(patch),
        ),
{
    let changes = object_list(patch);
    let ghost base = object_fields(*object);
    let mut i: usize = 0;
    assert(base == base.union_prefer_right(listed_fields(changes@.take(0))));
    while i < changes.len()
        invariant
            i <= changes@.len(),
            object_fields(*object) == base.union_prefer_right(
                listed_fields(changes@.take(i as int)),
            ),
        decreases changes@.len() - i,
    {
        proof {
            let next = changes@.take(i + 1);
            assert(next.drop_last() == changes@.take(i as int));
            assert(next.last() == changes@[i as int]);
            assert(base.union_prefer_right(listed_fields(next)) == base.union_prefer_right(
                listed_fields(changes@.take(i as int)),
            ).insert(next.last().0@, value_tree(next.last().1)));
        }
        set_field(object, changes[i].0.clone(), copy_value(&changes[i].1));
        i += 1;
    }
    assert(changes@.take(changes@.len() as int) == changes@);
}

/// Puts the fields of one JSON value into another, where both are objects.
pub fn patch_value(base: serde_json::Value, patch: serde_json::Value) -> (value: serde_json::Value)
    ensures
        value_tree(value) == patched(value_tree(base), value_tree(patch)),
{
    match (as_object(copy_value(&base)), as_object(patch)) {
        (Some(fields), Some(changes)) => {
            let mut fields = fields;
            patch_fields(&mut fields, changes);
            object_value(fields)
        },
        _ => base,
    }
}

/// Merges two profiles, field by field, as JSON.
pub fn merge_profiles(old_profile: &str, new_profile: &str) -> (value: serde_json::Value)
    ensures
        value_tree(value) == merged_tree(old_profile@, new_profile@),
{
    patch_value(read_profile(old_profile), read_profile(new_profile))
}

/// A plain tree with the fields of another is plain.
pub proof fn lemma_patched_is_plain(base: JsonTree, patch: JsonTree, depth: nat)
    requires
        plain(base, depth),
        plain(patch, depth),
    ensures
        plain(patched(base, patch), depth),
{
}

/// Merges two profiles, field by field: a field of the new one replaces that of
/// the old one, arrays included. Where both are plain, what comes out reads back as
/// the merge.
pub fn merge_profile_json(old_profile: &str, new_profile: &str) -> (profile: String)
    ensures
        profile@ == merged_profile(old_profile@, new_profile@),
        plain(profile_tree(old_profile@), max_depth()) && plain(
            profile_tree(new_profile@),
            max_depth(),
        ) ==> reads_as_printed(merged_tree(old_profile@, new_profile@)),
{
    proof {
        let base = profile_tree(old_profile@);
        let patch = profile_tree(new_profile@);
        if plain(base, max_depth()) && plain(patch, max_depth()) {
            lemma_patched_is_plain(base, patch, max_depth());
        }
    }
    print_value(&merge_profiles(old_profile, new_profile))
}

/// The name in what is stored of a new profile: where it is merged into a former
/// one, the name that the merge comes to.
pub open spec fn stored_name(former: Option<Seq<char>>, profile: Seq<char>) -> Seq<char> {
    match former {
        Some(former) => name_in_tree(merged_tree(former, profile)),
        None => profile_name(profile),
    }
}

// The name index

/// The addresses in a JSON value: none where it is not an object with texts as
/// its `addresses`.
pub open spec fn addresses_in_tree(tree: JsonTree) -> Seq<Seq<char>> {
    match tree_field(tree, "addresses"@) {
        Some(addresses) => match tree_texts(addresses) {
            Some(texts) => texts,
            None => Seq::empty(),
        },
        None => Seq::empty(),
    }
}

/// The addresses that an index lists: none where it is not JSON.
pub open spec fn index_addresses(index: Seq<char>) -> Seq<Seq<char>> {
    match parsed(index) {
        Some(tree) => addresses_in_tree(tree),
        None => Seq::empty(),
    }
}

/// An index that lists these addresses, as it is stored.
pub open spec fn index_text(addresses: Seq<Seq<char>>) -> Seq<char> {
    printed(address_list(addresses))
}

/// A list with one more address, unless it is already there.
pub open spec fn with_address(addresses: Seq<Seq<char>>, address: Seq<char>) -> Seq<Seq<char>> {
    if addresses.contains(address) {
        addresses
    } else {
        addresses.push(address)
    }
}

/// A list without an address.
pub open spec fn without_address(
    addresses: Seq<Seq<char>>,
    address: Seq<char>,
) -> Seq<Seq<char>> {
    addresses.filter(|a: Seq<char>| a != address)
}

/// The addresses in a JSON value.
pub fn addresses_in_value(value: &serde_json::Value) -> (addresses: Vec<String>)
    ensures
        addresses.deep_view() == addresses_in_tree(value_tree(*value)),
{
    let none: Vec<String> = Vec::new();
    assert(none.deep_view() == Seq::<Seq<char>>::empty());
    match field(value, "addresses") {
        Some(addresses) => match as_texts(copy_value(addresses)) {
            Some(texts) => texts,
            None => none,
        },
        None => none,
    }
}

/// The addresses that an index lists.
pub fn addresses_in_index(index: &str) -> (addresses: Vec<String>)
    ensures
        addresses.deep_view() == index_addresses(index@),
{
    match parse_value(index) {
        Some(value) => addresses_in_value(&value),
        None => {
            let none: Vec<String> = Vec::new();
            assert(none.deep_view() == Seq::<Seq<char>>::empty());
            none
        },
    }
}

/// Whether the index of these addresses, as it is stored, reads back as what it
/// was made of.
pub open spec fn reads_back(addresses: Seq<Seq<char>>) -> bool {
    reads_as_printed(address_list(addresses))
}

/// An index that reads back lists the addresses that it was made of.
pub proof fn lemma_index_reads_back(addresses: Seq<Seq<char>>)
    requires
        reads_back(addresses),
    ensures
        index_addresses(index_text(addresses)) == addresses,
{
    let array = text_array(addresses);
    let items = array->Array_0;
    assert(items.map_values(|t: JsonTree| t->Text_0) == addresses);
    assert(tree_texts(array) == Some(addresses));
}

proof fn lemma_list_is_plain(addresses: Seq<Seq<char>>)
    ensures
        plain(address_list(addresses), max_depth()),
{
    reveal_strlit("addresses");
    reveal_strlit("$serde_json::private::RawValue");
    assert("addresses"@.len() != "$serde_json::private::RawValue"@.len());
    reveal_with_fuel(plain, 2);
    assert(plain(text_array(addresses), (max_depth() - 1) as nat));
}

fn print_index(addresses: &Vec<String>) -> (index: String)
    ensures
        index@ == index_text(addresses.deep_view()),
        reads_back(addresses.deep_view()),
{
    let ghost texts = addresses.deep_view();
    let mut items: Vec<serde_json::Value> = Vec::new();
    let mut i: usize = 0;
    while i < addresses.len()
        invariant
            i <= addresses@.len(),
            texts == addresses.deep_view(),
            items@.len() == i,
            forall|j: int|
                0 <= j < i ==> value_tree(#[trigger] items@[j]) == JsonTree::Text(texts[j]),
        decreases addresses@.len() - i,
    {
        items.push(text_value(addresses[i].clone()));
        i += 1;
    }
    let ghost trees = items@.map_values(|v: serde_json::Value| value_tree(v));
    assert(trees == texts.map_values(|t: Seq<char>| JsonTree::Text(t)));
    let mut object = new_object();
    set_field(&mut object, "addresses".to_string(), array_value(items));
    let value = object_value(object);
    assert(value_tree(value) == address_list(texts));
    proof {
        lemma_list_is_plain(texts);
    }
    print_value(&value)
}

/// Enters an address in the index of a name. What is stored then lists the
/// address, and everything that was listed before.
pub fn add_to_name_index(index: Option<&str>, address: &str) -> (updated: String)
    ensures
        updated@ == index_text(with_address(stored_addresses(index.deep_view()), address@)),
        reads_back(with_address(stored_addresses(index.deep_view()), address@)),
        index_addresses(updated@) == with_address(
            stored_addresses(index.deep_view()),
            address@,
        ),
{
    let mut addresses: Vec<String> = match index {
        Some(index) => addresses_in_index(index),
        None => Vec::new(),
    };
    let ghost before = addresses.deep_view();
    assert(before == stored_addresses(index.deep_view()));
    if !lists(&addresses, address) {
        addresses.push(address.to_owned());
        assert(addresses.deep_view() == before.push(address@));
    }
    let updated = print_index(&addresses);
    proof {
        lemma_index_reads_back(addresses.deep_view());
    }
    updated
}

/// The addresses that the index of a name lists, if there is one.
pub open spec fn stored_addresses(index: Option<Seq<char>>) -> Seq<Seq<char>> {
    match index {
        Some(index) => index_addresses(index),
        None => Seq::empty(),
    }
}

/// Takes an address out of the index of a name. Nothing is left to store where
/// no other address is listed.
pub fn remove_from_name_index(index: &str, address: &str) -> (updated: Option<String>)
    ensures
        match updated {
            Some(text) => {
                &&& without_address(index_addresses(index@), address@).len() > 0
                &&& text@ == index_text(without_address(index_addresses(index@), address@))
                &&& reads_back(without_address(index_addresses(index@), address@))
                &&& index_addresses(text@) == without_address(index_addresses(index@), address@)
            },
            None => without_address(index_addresses(index@), address@).len() == 0,
        },
{
    let listed = addresses_in_index(index);
    let ghost all = listed.deep_view();
    let ghost stays = |a: Seq<char>| a != address@;
    let mut left: Vec<String> = Vec::new();
    let mut i: usize = 0;
    proof {
        reveal(Seq::filter);
        assert(left.deep_view() == all.take(0).filter(stays));
    }
    while i < listed.len()
        invariant
            i <= listed@.len(),
            all == listed.deep_view(),
            stays == (|a: Seq<char>| a != address@),
            left.deep_view() == all.take(i as int).filter(stays),
        decreases listed@.len() - i,
    {
        let ghost before = left.deep_view();
        proof {
            reveal(Seq::filter);
            assert(all.take(i + 1).drop_last() == all.take(i as int));
        }
        if !same(&listed[i], address) {
            left.push(listed[i].clone());
            assert(left.deep_view() == before.push(all[i as int]));
        }
        i += 1;
    }
    assert(all.take(all.len() as int) == all);
    if left.len() == 0 {
        None
    } else {
        let updated = print_index(&left);
        proof {
            lemma_index_reads_back(left.deep_view());
        }
        Some(updated)
    }
}

} // verus!
