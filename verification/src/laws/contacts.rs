//! Contacts are found where they were put.

use vstd::prelude::*;

use crate::access::is_system_sender;
use crate::agent_state::success_body;
use crate::contact_profile::{
    contact_tree, former_name, get_contact_profile_plan, profile_to_store,
    put_contact_profile_plan,
};
use crate::contact_search::{
    batch_addresses, batch_body, batch_lookup, contact_fetched, get_contacts_by_name_plan,
    name_lookup, named_profile_got, persona_of, profile_fields, results_body, Contact, MAX_BATCH,
};
use crate::contacts::{
    index_addresses, index_text, lemma_index_reads_back, merged_profile, merged_tree, name_key,
    patched, profile_key, profile_name, profile_tree, reads_back, stored_addresses, stored_name,
    with_address, without_address,
};
use crate::json::{no_fields, parsed, reads_as_printed, tree_field, JsonTree};
use crate::laws::lists::lemma_push_contains;
use crate::laws::storage::{answer, effect, entry_of, run, stays_with, States, World};
use crate::plans::only;
use crate::protocol::{succeed, Action, ActionView, EventView};
use crate::text::{lowercase, segments, trimmed};
use crate::types::{ApiKeyRecord, BodyView, ContactProfileRequest, ContactsByNameQuery};

verus! {

// Keys

/// No profile stands where an index stands.
pub proof fn profiles_and_indexes_are_apart(address: Seq<char>, name: Seq<char>)
    ensures
        profile_key(address) != name_key(name),
{
    reveal_strlit("profile:");
    reveal_strlit("name:");
    assert(profile_key(address)[0] == 'p');
    assert(name_key(name)[0] == 'n');
}

/// Names share an index where they differ in letter case alone.
pub proof fn names_share_an_index(one: Seq<char>, other: Seq<char>)
    ensures
        name_key(one) == name_key(other) <==> lowercase(one) == lowercase(other),
{
    let n = "name:"@.len() as int;
    assert(name_key(one).skip(n) == lowercase(one));
    assert(name_key(other).skip(n) == lowercase(other));
}

// Putting a profile

/// The states once a profile is written.
pub open spec fn with_profile(
    states: States,
    agent: Seq<char>,
    address: Seq<char>,
    profile: Seq<char>,
) -> States {
    states.insert(
        (agent, profile_key(address)),
        profile_to_store(entry_of(states, agent, profile_key(address)), profile),
    )
}

/// The states once an address has left the index of a name.
pub open spec fn without_name(
    states: States,
    agent: Seq<char>,
    address: Seq<char>,
    name: Seq<char>,
) -> States {
    match entry_of(states, agent, name_key(name)) {
        Some(index) => {
            let left = without_address(index_addresses(index), address);
            if left.len() == 0 {
                states.remove((agent, name_key(name)))
            } else {
                states.insert((agent, name_key(name)), index_text(left))
            }
        },
        None => states,
    }
}

/// The states once an address has entered the index of a name.
pub open spec fn with_name(
    states: States,
    agent: Seq<char>,
    address: Seq<char>,
    name: Seq<char>,
) -> States {
    states.insert(
        (agent, name_key(name)),
        index_text(
            with_address(stored_addresses(entry_of(states, agent, name_key(name))), address),
        ),
    )
}

/// The states once a contact is put.
pub open spec fn contact_put(
    states: States,
    agent: Seq<char>,
    address: Seq<char>,
    profile: Seq<char>,
) -> States {
    let stored = entry_of(states, agent, profile_key(address));
    let former = former_name(stored);
    let name = stored_name(stored, profile);
    let written = with_profile(states, agent, address, profile);
    let cleared = if former.len() > 0 && lowercase(former) != lowercase(name) {
        without_name(written, agent, address, former)
    } else {
        written
    };
    if name.len() > 0 {
        with_name(cleared, agent, address, name)
    } else {
        cleared
    }
}

/// A contact that is put is written in one go: its profile, merged into the
/// former one, and the indexes of its former and its new name. Nothing else
/// changes.
pub proof fn put_writes_profile_and_indexes(
    world: World,
    address: Seq<char>,
    key: ApiKeyRecord<Seq<char>>,
    req: ContactProfileRequest<Seq<char>>,
)
    requires
        key.email_address.len() > 0,
    ensures
        run(put_contact_profile_plan(address, key, req), world).0 == succeed(200, success_body()),
        run(put_contact_profile_plan(address, key, req), world).1 == (World {
            states: contact_put(world.states, key.email_address, address, req.profile),
            ..world
        }),
{
    reveal_with_fuel(run, 8);
}

/// A profile that was put is what is read.
pub proof fn get_profile_after_put(
    world: World,
    address: Seq<char>,
    key: ApiKeyRecord<Seq<char>>,
    req: ContactProfileRequest<Seq<char>>,
    system_sender: Seq<char>,
)
    requires
        key.email_address.len() > 0,
        !is_system_sender(address, system_sender),
    ensures
        run(
            get_contact_profile_plan(address, key, system_sender),
            run(put_contact_profile_plan(address, key, req), world).1,
        ).0 == succeed(
            200,
            BodyView::Value(
                contact_tree(
                    address,
                    JsonTree::Text(
                        profile_to_store(
                            entry_of(world.states, key.email_address, profile_key(address)),
                            req.profile,
                        ),
                    ),
                ),
            ),
        ),
{
    put_writes_profile_and_indexes(world, address, key, req);
    lemma_profile_stays(world.states, key.email_address, address, req.profile);
    reveal_with_fuel(run, 3);
}

proof fn lemma_profile_stays(
    states: States,
    agent: Seq<char>,
    address: Seq<char>,
    profile: Seq<char>,
)
    ensures
        entry_of(contact_put(states, agent, address, profile), agent, profile_key(address))
            == Some(profile_to_store(entry_of(states, agent, profile_key(address)), profile)),
{
    let stored = entry_of(states, agent, profile_key(address));
    profiles_and_indexes_are_apart(address, former_name(stored));
    profiles_and_indexes_are_apart(address, stored_name(stored, profile));
}

/// The system's own sender is a known contact without a look at what is stored.
pub proof fn system_sender_is_known(
    address: Seq<char>,
    key: ApiKeyRecord<Seq<char>>,
    system_sender: Seq<char>,
)
    requires
        is_system_sender(address, system_sender),
    ensures
        only(
            get_contact_profile_plan(address, key, system_sender),
            |a: ActionView| a is RequireScope,
        ),
{
    reveal_with_fuel(only, 3);
}

// Merging profiles

/// A merge takes each field from the new profile where it has one, whatever it
/// holds, and else from the old one.
pub proof fn merge_overwrites_fields(
    fields: Map<Seq<char>, JsonTree>,
    changes: Map<Seq<char>, JsonTree>,
    name: Seq<char>,
)
    ensures
        tree_field(patched(JsonTree::Object(fields), JsonTree::Object(changes)), name)
            == if changes.contains_key(name) {
            Some(changes[name])
        } else {
            tree_field(JsonTree::Object(fields), name)
        },
{
}

/// To merge a profile once more changes nothing.
pub proof fn merge_is_idempotent(base: JsonTree, patch: JsonTree)
    ensures
        patched(patched(base, patch), patch) == patched(base, patch),
{
    if let (JsonTree::Object(fields), JsonTree::Object(changes)) = (base, patch) {
        assert(fields.union_prefer_right(changes).union_prefer_right(changes)
            == fields.union_prefer_right(changes));
    }
}

/// A profile without fields changes nothing when it is merged into another, and
/// becomes the other when the other is merged into it.
pub proof fn merge_with_no_fields_is_identity(base: JsonTree, changes: Map<Seq<char>, JsonTree>)
    ensures
        patched(base, JsonTree::Object(no_fields())) == base,
        patched(JsonTree::Object(no_fields()), JsonTree::Object(changes)) == JsonTree::Object(
            changes,
        ),
{
    if let JsonTree::Object(fields) = base {
        assert(fields.union_prefer_right(no_fields()) == fields);
    }
    assert(no_fields().union_prefer_right(changes) == changes);
}

/// To merge a profile once more into what the merge was printed as gives the same
/// text. That the merge reads back is what `merge_profile_json` ensures of plain
/// profiles when it prints it.
pub proof fn merged_text_is_idempotent(old_profile: Seq<char>, new_profile: Seq<char>)
    requires
        reads_as_printed(merged_tree(old_profile, new_profile)),
    ensures
        merged_profile(merged_profile(old_profile, new_profile), new_profile) == merged_profile(
            old_profile,
            new_profile,
        ),
{
    merge_is_idempotent(profile_tree(old_profile), profile_tree(new_profile));
}

/// To merge a text without fields into a profile gives a text that reads as the
/// profile. That the merge reads back is what `merge_profile_json` ensures of plain
/// profiles when it prints it.
pub proof fn merging_no_fields_keeps_the_profile(profile: Seq<char>, blank: Seq<char>)
    requires
        parsed(profile) is Some,
        profile_tree(blank) == JsonTree::Object(no_fields()),
        reads_as_printed(merged_tree(profile, blank)),
    ensures
        parsed(merged_profile(profile, blank)) == parsed(profile),
{
    merge_with_no_fields_is_identity(profile_tree(profile), no_fields());
}

/// To merge a profile that is an object into a text without fields gives a text
/// that reads as the profile. That the merge reads back is what
/// `merge_profile_json` ensures of plain profiles when it prints it.
pub proof fn merging_into_no_fields_gives_the_profile(
    blank: Seq<char>,
    profile: Seq<char>,
    fields: Map<Seq<char>, JsonTree>,
)
    requires
        parsed(profile) == Some(JsonTree::Object(fields)),
        profile_tree(blank) == JsonTree::Object(no_fields()),
        reads_as_printed(merged_tree(blank, profile)),
    ensures
        parsed(merged_profile(blank, profile)) == parsed(profile),
{
    merge_with_no_fields_is_identity(profile_tree(blank), fields);
}

/// A profile that is put without a name leaves a contact the name that it has.
pub proof fn nameless_profile_keeps_the_name(
    former: Seq<char>,
    profile: Seq<char>,
    fields: Map<Seq<char>, JsonTree>,
    changes: Map<Seq<char>, JsonTree>,
)
    requires
        profile_tree(former) == JsonTree::Object(fields),
        profile_tree(profile) == JsonTree::Object(changes),
        !changes.contains_key("name"@),
    ensures
        stored_name(Some(former), profile) == profile_name(former),
{
}

/// A profile that is put with a name gives a contact that name.
pub proof fn named_profile_sets_the_name(
    former: Seq<char>,
    profile: Seq<char>,
    fields: Map<Seq<char>, JsonTree>,
    changes: Map<Seq<char>, JsonTree>,
)
    requires
        profile_tree(former) == JsonTree::Object(fields),
        profile_tree(profile) == JsonTree::Object(changes),
        changes.contains_key("name"@),
    ensures
        stored_name(Some(former), profile) == profile_name(profile),
{
}

// Searching by name

/// The contacts at some addresses that have a profile.
pub open spec fn contacts_at(
    states: States,
    agent: Seq<char>,
    addresses: Seq<Seq<char>>,
) -> Seq<Contact<Seq<char>>>
    decreases addresses.len(),
{
    if addresses.len() == 0 {
        Seq::empty()
    } else {
        let left = contacts_at(states, agent, addresses.skip(1));
        match entry_of(states, agent, profile_key(addresses[0])) {
            Some(profile) => seq![Contact { address: addresses[0], profile, sender: false }] + left,
            None => left,
        }
    }
}

proof fn lemma_name_lookup(
    world: World,
    agent: Seq<char>,
    addresses: Seq<Seq<char>>,
    found: Seq<Contact<Seq<char>>>,
)
    ensures
        run(name_lookup(agent, addresses, found), world) == (
            succeed(200, results_body(found + contacts_at(world.states, agent, addresses))),
            world,
        ),
    decreases addresses.len(),
{
    if addresses.len() == 0 {
        assert(found + contacts_at(world.states, agent, addresses) == found);
    } else {
        let address = addresses[0];
        let left = addresses.skip(1);
        let rest = named_profile_got(agent, address, left, found);
        let action = Action::StateGet { agent, key: profile_key(address) };
        assert(run(name_lookup(agent, addresses, found), world) == run(
            rest(answer(action, world)),
            effect(action, world),
        ));
        match entry_of(world.states, agent, profile_key(address)) {
            Some(profile) => {
                let contact = Contact { address, profile, sender: false };
                lemma_name_lookup(world, agent, left, found.push(contact));
                assert(found.push(contact) + contacts_at(world.states, agent, left) == found
                    + contacts_at(world.states, agent, addresses));
            },
            None => {
                lemma_name_lookup(world, agent, left, found);
            },
        }
    }
}

/// A search by name shows the contacts that the index of the name lists and that
/// have a profile, in the order of the index. It changes nothing.
pub proof fn search_shows_indexed_contacts(
    world: World,
    key: ApiKeyRecord<Seq<char>>,
    name: Seq<char>,
)
    requires
        key.email_address.len() > 0,
        trimmed(name).len() > 0,
    ensures
        run(
            get_contacts_by_name_plan(
                (ContactsByNameQuery { name: Some(name), addresses: None }),
                key,
            ),
            world,
        ) == (
            succeed(
                200,
                results_body(
                    contacts_at(
                        world.states,
                        key.email_address,
                        stored_addresses(
                            entry_of(
                                world.states,
                                key.email_address,
                                name_key(trimmed(name)),
                            ),
                        ),
                    ),
                ),
            ),
            world,
        ),
{
    let agent = key.email_address;
    let addresses = stored_addresses(entry_of(world.states, agent, name_key(trimmed(name))));
    lemma_name_lookup(world, agent, addresses, Seq::empty());
    assert(Seq::empty() + contacts_at(world.states, agent, addresses) == contacts_at(
        world.states,
        agent,
        addresses,
    ));
    reveal_with_fuel(run, 3);
}

proof fn lemma_contacts_at(
    states: States,
    agent: Seq<char>,
    addresses: Seq<Seq<char>>,
    address: Seq<char>,
)
    ensures
        forall|c: Contact<Seq<char>>| #[trigger]
            contacts_at(states, agent, addresses).contains(c) ==> addresses.contains(c.address)
                && entry_of(states, agent, profile_key(c.address)) == Some(c.profile),
        match entry_of(states, agent, profile_key(address)) {
            Some(profile) => addresses.contains(address) ==> contacts_at(
                states,
                agent,
                addresses,
            ).contains(Contact { address, profile, sender: false }),
            None => true,
        },
    decreases addresses.len(),
{
    if addresses.len() > 0 {
        let left = addresses.skip(1);
        let rest = contacts_at(states, agent, left);
        let all = contacts_at(states, agent, addresses);
        lemma_contacts_at(states, agent, left, address);
        assert(addresses == seq![addresses[0]] + left);
        assert forall|c: Contact<Seq<char>>| #[trigger] all.contains(c) implies addresses.contains(
            c.address,
        ) && entry_of(states, agent, profile_key(c.address)) == Some(c.profile) by {
            let i = choose|i: int| 0 <= i < all.len() && all[i] == c;
            if rest.contains(c) {
                let j = choose|j: int| 0 <= j < left.len() && left[j] == c.address;
                assert(addresses[j + 1] == c.address);
            } else {
                match entry_of(states, agent, profile_key(addresses[0])) {
                    Some(profile) => {
                        if i > 0 {
                            assert(rest[i - 1] == c);
                        }
                        assert(addresses[0] == c.address);
                    },
                    None => {
                        assert(rest[i] == c);
                    },
                }
            }
        }
        if let Some(profile) = entry_of(states, agent, profile_key(address)) {
            let contact = Contact { address, profile, sender: false };
            if addresses.contains(address) {
                if addresses[0] == address {
                    assert(all[0] == contact);
                } else {
                    let i = choose|i: int| 0 <= i < addresses.len() && addresses[i] == address;
                    assert(left[i - 1] == address);
                    let j = choose|j: int| 0 <= j < rest.len() && rest[j] == contact;
                    match entry_of(states, agent, profile_key(addresses[0])) {
                        Some(_) => {
                            assert(all[j + 1] == contact);
                        },
                        None => {
                            assert(all[j] == contact);
                        },
                    }
                }
            }
        }
    }
}

/// The name under which a contact stands once a profile is put.
pub open spec fn name_after_put(
    states: States,
    agent: Seq<char>,
    address: Seq<char>,
    profile: Seq<char>,
) -> Seq<char> {
    stored_name(entry_of(states, agent, profile_key(address)), profile)
}

/// A contact is shown by a search for the name in its stored profile, in any
/// letter case, whether the last profile that was put named it or not. That the
/// index reads back is what `add_to_name_index` ensures when it writes it.
pub proof fn search_finds_what_was_put(
    world: World,
    address: Seq<char>,
    key: ApiKeyRecord<Seq<char>>,
    req: ContactProfileRequest<Seq<char>>,
    name: Seq<char>,
)
    requires
        key.email_address.len() > 0,
        name_after_put(world.states, key.email_address, address, req.profile).len() > 0,
        trimmed(name).len() > 0,
        lowercase(trimmed(name)) == lowercase(
            name_after_put(world.states, key.email_address, address, req.profile),
        ),
        reads_back(
            with_address(
                stored_addresses(
                    entry_of(
                        world.states,
                        key.email_address,
                        name_key(
                            name_after_put(
                                world.states,
                                key.email_address,
                                address,
                                req.profile,
                            ),
                        ),
                    ),
                ),
                address,
            ),
        ),
    ensures
        exists|found: Seq<Contact<Seq<char>>>|
            run(
                get_contacts_by_name_plan(
                    (ContactsByNameQuery { name: Some(name), addresses: None }),
                    key,
                ),
                run(put_contact_profile_plan(address, key, req), world).1,
            ).0 == succeed(200, #[trigger] results_body(found)) && found.contains(
                (Contact {
                    address,
                    profile: profile_to_store(
                        entry_of(world.states, key.email_address, profile_key(address)),
                        req.profile,
                    ),
                    sender: false,
                }),
            ),
{
    let agent = key.email_address;
    let states = world.states;
    let after = contact_put(states, agent, address, req.profile);
    let new_name = name_after_put(states, agent, address, req.profile);
    let former = former_name(entry_of(states, agent, profile_key(address)));
    let listed = with_address(
        stored_addresses(entry_of(states, agent, name_key(new_name))),
        address,
    );
    put_writes_profile_and_indexes(world, address, key, req);
    lemma_profile_stays(states, agent, address, req.profile);
    names_share_an_index(trimmed(name), new_name);
    names_share_an_index(former, new_name);
    profiles_and_indexes_are_apart(address, new_name);
    assert(entry_of(after, agent, name_key(new_name)) == Some(index_text(listed)));
    lemma_index_reads_back(listed);
    lemma_with_address(
        stored_addresses(entry_of(states, agent, name_key(new_name))),
        address,
    );
    lemma_contacts_at(after, agent, listed, address);
    search_shows_indexed_contacts(World { states: after, ..world }, key, name);
    assert(contacts_at(after, agent, listed).contains(
        Contact {
            address,
            profile: profile_to_store(entry_of(states, agent, profile_key(address)), req.profile),
            sender: false,
        },
    ));
}

/// An address that enters a list stands in it, next to all that stood there.
pub proof fn lemma_with_address(addresses: Seq<Seq<char>>, address: Seq<char>)
    ensures
        with_address(addresses, address).contains(address),
        forall|other: Seq<char>| #[trigger]
            addresses.contains(other) ==> with_address(addresses, address).contains(other),
        forall|other: Seq<char>|
            other != address && #[trigger] with_address(addresses, address).contains(other)
                ==> addresses.contains(other),
{
    let all = with_address(addresses, address);
    if !addresses.contains(address) {
        assert(all[addresses.len() as int] == address);
        assert forall|other: Seq<char>| #[trigger] addresses.contains(other) implies all.contains(
            other,
        ) by {
            let i = choose|i: int| 0 <= i < addresses.len() && addresses[i] == other;
            assert(all[i] == other);
        }
    }
}

/// An address that leaves a list does not stand in it any more; all others do.
pub proof fn lemma_without_address(addresses: Seq<Seq<char>>, address: Seq<char>)
    ensures
        !without_address(addresses, address).contains(address),
        forall|other: Seq<char>|
            other != address ==> (#[trigger] without_address(addresses, address).contains(other)
                <==> addresses.contains(other)),
    decreases addresses.len(),
{
    reveal(Seq::filter);
    if addresses.len() > 0 {
        let head = addresses.drop_last();
        let last = addresses.last();
        let left = without_address(addresses, address);
        let rest = without_address(head, address);
        lemma_without_address(head, address);
        assert(left == if last != address {
            rest.push(last)
        } else {
            rest
        });
        assert forall|other: Seq<char>| #[trigger] addresses.contains(other) <==> other == last
            || head.contains(other) by {
            lemma_push_contains(head, last, other);
            assert(head.push(last) == addresses);
        }
        assert forall|other: Seq<char>| #[trigger] left.contains(other) <==> (last != address
            && other == last) || rest.contains(other) by {
            lemma_push_contains(rest, last, other);
        }
    }
}

/// Once the name in a contact's stored profile has changed, a search for its
/// former name does not show it any more. That the index reads back is what `remove_from_name_index`
/// ensures when it writes it.
pub proof fn search_forgets_former_name(
    world: World,
    address: Seq<char>,
    key: ApiKeyRecord<Seq<char>>,
    req: ContactProfileRequest<Seq<char>>,
    name: Seq<char>,
    former_profile: Seq<char>,
)
    requires
        key.email_address.len() > 0,
        entry_of(world.states, key.email_address, profile_key(address)) == Some(former_profile),
        profile_name(former_profile).len() > 0,
        lowercase(profile_name(former_profile)) != lowercase(
            name_after_put(world.states, key.email_address, address, req.profile),
        ),
        trimmed(name).len() > 0,
        lowercase(trimmed(name)) == lowercase(profile_name(former_profile)),
        ({
            let left = without_address(
                stored_addresses(
                    entry_of(
                        world.states,
                        key.email_address,
                        name_key(profile_name(former_profile)),
                    ),
                ),
                address,
            );
            left.len() > 0 ==> reads_back(left)
        }),
    ensures
        exists|found: Seq<Contact<Seq<char>>>|
            run(
                get_contacts_by_name_plan(
                    (ContactsByNameQuery { name: Some(name), addresses: None }),
                    key,
                ),
                run(put_contact_profile_plan(address, key, req), world).1,
            ).0 == succeed(200, #[trigger] results_body(found)) && forall|i: int|
                0 <= i < found.len() ==> (#[trigger] found[i]).address != address,
{
    let agent = key.email_address;
    let states = world.states;
    let after = contact_put(states, agent, address, req.profile);
    let former = profile_name(former_profile);
    let new_name = name_after_put(states, agent, address, req.profile);
    let left = without_address(
        stored_addresses(entry_of(states, agent, name_key(former))),
        address,
    );
    put_writes_profile_and_indexes(world, address, key, req);
    names_share_an_index(trimmed(name), former);
    names_share_an_index(former, new_name);
    profiles_and_indexes_are_apart(address, former);
    lemma_without_address(stored_addresses(entry_of(states, agent, name_key(former))), address);
    if left.len() > 0 {
        lemma_index_reads_back(left);
    }
    let listed = stored_addresses(entry_of(after, agent, name_key(former)));
    assert(!listed.contains(address));
    lemma_contacts_at(after, agent, listed, address);
    search_shows_indexed_contacts(World { states: after, ..world }, key, name);
    let found = contacts_at(after, agent, listed);
    assert forall|i: int| 0 <= i < found.len() implies (#[trigger] found[i]).address
        != address by {
        assert(found.contains(found[i]));
    }
}

// Batches

/// The addresses of a batch stand in it once each, none of them empty: those of
/// the parts, trimmed and in lower case, and no others.
pub proof fn batch_lists_each_address_once(parts: Seq<Seq<char>>)
    ensures
        batch_addresses(parts).no_duplicates(),
        forall|i: int|
            0 <= i < parts.len() && lowercase(trimmed(#[trigger] parts[i])).len() > 0
                ==> batch_addresses(parts).contains(lowercase(trimmed(parts[i]))),
        forall|a: Seq<char>| #[trigger]
            batch_addresses(parts).contains(a) ==> a.len() > 0 && exists|i: int|
                0 <= i < parts.len() && a == lowercase(trimmed(#[trigger] parts[i])),
        batch_addresses(parts).len() <= parts.len(),
    decreases parts.len(),
{
    if parts.len() > 0 {
        let init = parts.drop_last();
        let head = batch_addresses(init);
        let all = batch_addresses(parts);
        let last = lowercase(trimmed(parts.last()));
        batch_lists_each_address_once(init);
        assert forall|i: int|
            0 <= i < parts.len() && lowercase(trimmed(#[trigger] parts[i])).len()
                > 0 implies all.contains(lowercase(trimmed(parts[i]))) by {
            let a = lowercase(trimmed(parts[i]));
            if i < init.len() {
                assert(init[i] == parts[i]);
                let j = choose|j: int| 0 <= j < head.len() && head[j] == a;
                assert(all[j] == a);
            } else if !head.contains(a) {
                assert(all[head.len() as int] == a);
            }
        }
        assert forall|a: Seq<char>| #[trigger] all.contains(a) implies a.len() > 0 && exists|
            i: int,
        | 0 <= i < parts.len() && a == lowercase(trimmed(#[trigger] parts[i])) by {
            let j = choose|j: int| 0 <= j < all.len() && all[j] == a;
            if j < head.len() {
                assert(head[j] == a);
                assert(head.contains(a));
                let i = choose|i: int|
                    0 <= i < init.len() && a == lowercase(trimmed(#[trigger] init[i]));
                assert(parts[i] == init[i]);
            } else {
                assert(parts[parts.len() - 1] == parts.last());
            }
        }
    }
}

/// The profile of an address: that of its base, or else its own.
pub open spec fn profile_of(world: World, agent: Seq<char>, address: Seq<char>) -> Option<
    Seq<char>,
> {
    match entry_of(world.states, agent, profile_key((world.base)(address))) {
        Some(profile) => Some(profile),
        None => entry_of(world.states, agent, profile_key(address)),
    }
}

/// The contacts of a batch that have a profile, in the order of the batch.
pub open spec fn batch_contacts(
    world: World,
    agent: Seq<char>,
    addresses: Seq<Seq<char>>,
    sender: bool,
) -> Seq<Contact<Seq<char>>>
    decreases addresses.len(),
{
    if addresses.len() == 0 {
        Seq::empty()
    } else {
        let left = batch_contacts(world, agent, addresses.skip(1), false);
        match profile_of(world, agent, addresses[0]) {
            Some(profile) => seq![Contact { address: addresses[0], profile, sender }] + left,
            None => left,
        }
    }
}

proof fn lemma_batch_lookup(
    world: World,
    agent: Seq<char>,
    persona: Option<Seq<char>>,
    addresses: Seq<Seq<char>>,
    sender: bool,
    found: Seq<Contact<Seq<char>>>,
)
    ensures
        run(batch_lookup(agent, persona, addresses, sender, found), world) == (
            succeed(
                200,
                batch_body(
                    agent,
                    persona,
                    found + batch_contacts(world, agent, addresses, sender),
                ),
            ),
            world,
        ),
    decreases addresses.len(),
{
    if addresses.len() == 0 {
        assert(found + batch_contacts(world, agent, addresses, sender) == found);
    } else {
        let address = addresses[0];
        let left = addresses.skip(1);
        let then = contact_fetched(agent, persona, address, left, sender, found);
        let profile = profile_of(world, agent, address);
        assert(run(batch_lookup(agent, persona, addresses, sender, found), world) == run(
            then(profile),
            world,
        )) by {
            reveal_with_fuel(run, 4);
        }
        match profile {
            Some(p) => {
                let contact = Contact { address, profile: p, sender };
                lemma_batch_lookup(world, agent, persona, left, false, found.push(contact));
                assert(found.push(contact) + batch_contacts(world, agent, left, false) == found
                    + batch_contacts(world, agent, addresses, sender));
            },
            None => {
                lemma_batch_lookup(world, agent, persona, left, false, found);
            },
        }
    }
}

/// A batch shows the agent's own persona, and the contacts of the batch that have
/// a profile, in its order; its first address is the sender. It changes nothing.
pub proof fn batch_shows_its_contacts(
    world: World,
    key: ApiKeyRecord<Seq<char>>,
    name: Option<Seq<char>>,
    raw: Seq<char>,
)
    requires
        key.email_address.len() > 0,
        trimmed(raw).len() > 0,
        batch_addresses(segments(trimmed(raw), ',')).len() <= MAX_BATCH,
    ensures
        run(
            get_contacts_by_name_plan((ContactsByNameQuery { name, addresses: Some(raw) }), key),
            world,
        ) == (
            succeed(
                200,
                batch_body(
                    key.email_address,
                    persona_of(world.meta),
                    batch_contacts(
                        world,
                        key.email_address,
                        batch_addresses(segments(trimmed(raw), ',')),
                        true,
                    ),
                ),
            ),
            world,
        ),
{
    let agent = key.email_address;
    let addresses = batch_addresses(segments(trimmed(raw), ','));
    let persona = persona_of(world.meta);
    lemma_batch_lookup(world, agent, persona, addresses, true, Seq::empty());
    assert(Seq::empty() + batch_contacts(world, agent, addresses, true) == batch_contacts(
        world,
        agent,
        addresses,
        true,
    ));
    reveal_with_fuel(run, 3);
}

proof fn lemma_recipients(world: World, agent: Seq<char>, addresses: Seq<Seq<char>>)
    ensures
        profile_fields(batch_contacts(world, agent, addresses, false), true) == Map::<
            Seq<char>,
            JsonTree,
        >::empty(),
        forall|a: Seq<char>| #[trigger]
            profile_fields(batch_contacts(world, agent, addresses, false), false).contains_key(a)
                <==> addresses.contains(a) && profile_of(world, agent, a) is Some,
        forall|a: Seq<char>|
            profile_fields(batch_contacts(world, agent, addresses, false), false).contains_key(a)
                ==> #[trigger] profile_fields(
                batch_contacts(world, agent, addresses, false),
                false,
            )[a] == JsonTree::Text(profile_of(world, agent, a)->0),
    decreases addresses.len(),
{
    if addresses.len() > 0 {
        let first = addresses[0];
        let left = addresses.skip(1);
        let rest = batch_contacts(world, agent, left, false);
        lemma_recipients(world, agent, left);
        assert(addresses == seq![first] + left);
        if let Some(profile) = profile_of(world, agent, first) {
            lemma_profile_fields(Contact { address: first, profile, sender: false }, rest, true);
            lemma_profile_fields(Contact { address: first, profile, sender: false }, rest, false);
        }
        assert forall|a: Seq<char>| #[trigger] addresses.contains(a) <==> a == first
            || left.contains(a) by {
            if left.contains(a) {
                let j = choose|j: int| 0 <= j < left.len() && left[j] == a;
                assert(addresses[j + 1] == a);
            }
            if addresses.contains(a) && a != first {
                let j = choose|j: int| 0 <= j < addresses.len() && addresses[j] == a;
                assert(left[j - 1] == a);
            }
            assert(addresses[0] == first);
        }
    }
}

proof fn lemma_profile_fields(
    contact: Contact<Seq<char>>,
    rest: Seq<Contact<Seq<char>>>,
    sender: bool,
)
    ensures
        profile_fields(seq![contact] + rest, sender) == if contact.sender == sender {
            Map::<Seq<char>, JsonTree>::empty().insert(
                contact.address,
                JsonTree::Text(contact.profile),
            ).union_prefer_right(profile_fields(rest, sender))
        } else {
            profile_fields(rest, sender)
        },
    decreases rest.len(),
{
    let all = seq![contact] + rest;
    if rest.len() == 0 {
        assert(all.drop_last() == Seq::<Contact<Seq<char>>>::empty());
        assert(all.last() == contact);
        reveal_with_fuel(profile_fields, 2);
        assert(profile_fields(all, sender) == if contact.sender == sender {
            Map::<Seq<char>, JsonTree>::empty().insert(
                contact.address,
                JsonTree::Text(contact.profile),
            ).union_prefer_right(profile_fields(rest, sender))
        } else {
            profile_fields(rest, sender)
        });
    } else {
        lemma_profile_fields(contact, rest.drop_last(), sender);
        assert(all.drop_last() == seq![contact] + rest.drop_last());
        assert(all.last() == rest.last());
        assert(profile_fields(all, sender) == if contact.sender == sender {
            Map::<Seq<char>, JsonTree>::empty().insert(
                contact.address,
                JsonTree::Text(contact.profile),
            ).union_prefer_right(profile_fields(rest, sender))
        } else {
            profile_fields(rest, sender)
        });
    }
}

/// The first address of a batch is the sender; its profile, if it has one, is the
/// sender's. The profiles of the others are the recipients'.
pub proof fn first_of_a_batch_is_the_sender(
    world: World,
    agent: Seq<char>,
    addresses: Seq<Seq<char>>,
)
    requires
        addresses.len() > 0,
        addresses.no_duplicates(),
    ensures
        profile_fields(batch_contacts(world, agent, addresses, true), true) == match profile_of(
            world,
            agent,
            addresses[0],
        ) {
            Some(profile) => Map::<Seq<char>, JsonTree>::empty().insert(
                addresses[0],
                JsonTree::Text(profile),
            ),
            None => Map::empty(),
        },
        forall|a: Seq<char>| #[trigger]
            profile_fields(batch_contacts(world, agent, addresses, true), false).contains_key(a)
                <==> addresses.skip(1).contains(a) && profile_of(world, agent, a) is Some,
        !profile_fields(batch_contacts(world, agent, addresses, true), false).contains_key(
            addresses[0],
        ),
{
    let first = addresses[0];
    let left = addresses.skip(1);
    let rest = batch_contacts(world, agent, left, false);
    lemma_recipients(world, agent, left);
    if left.contains(first) {
        let j = choose|j: int| 0 <= j < left.len() && left[j] == first;
        assert(addresses[j + 1] == first);
    }
    if let Some(profile) = profile_of(world, agent, first) {
        let contact = Contact { address: first, profile, sender: true };
        lemma_profile_fields(contact, rest, true);
        lemma_profile_fields(contact, rest, false);
        assert(Map::<Seq<char>, JsonTree>::empty().insert(
            first,
            JsonTree::Text(profile),
        ).union_prefer_right(Map::empty()) == Map::<Seq<char>, JsonTree>::empty().insert(
            first,
            JsonTree::Text(profile),
        ));
    }
}

// Privacy

proof fn lemma_lookups_stay(
    agent: Seq<char>,
    persona: Option<Seq<char>>,
    addresses: Seq<Seq<char>>,
    sender: bool,
    found: Seq<Contact<Seq<char>>>,
)
    ensures
        only(name_lookup(agent, addresses, found), |a: ActionView| stays_with(a, agent)),
        only(
            batch_lookup(agent, persona, addresses, sender, found),
            |a: ActionView| stays_with(a, agent),
        ),
    decreases addresses.len(),
{
    let kind = |a: ActionView| stays_with(a, agent);
    if addresses.len() > 0 {
        let address = addresses[0];
        let left = addresses.skip(1);
        let rest = named_profile_got(agent, address, left, found);
        let then = contact_fetched(agent, persona, address, left, sender, found);
        assert forall|event: EventView| only(#[trigger] rest(event), kind) by {
            if let EventView::State(Ok(Some(entry))) = event {
                lemma_lookups_stay(
                    agent,
                    persona,
                    left,
                    false,
                    found.push(Contact { address, profile: entry.1, sender: false }),
                );
            } else {
                lemma_lookups_stay(agent, persona, left, false, found);
            }
        }
        assert forall|profile: Option<Seq<char>>| only(#[trigger] then(profile), kind) by {
            match profile {
                Some(p) => lemma_lookups_stay(
                    agent,
                    persona,
                    left,
                    false,
                    found.push(Contact { address, profile: p, sender }),
                ),
                None => lemma_lookups_stay(agent, persona, left, false, found),
            }
        }
        reveal_with_fuel(only, 4);
    }
}

/// A key reaches the contacts of its own agent only.
pub proof fn contacts_are_private(
    address: Seq<char>,
    key: ApiKeyRecord<Seq<char>>,
    req: ContactProfileRequest<Seq<char>>,
    system_sender: Seq<char>,
    query: ContactsByNameQuery<Seq<char>>,
)
    ensures
        only(
            put_contact_profile_plan(address, key, req),
            |a: ActionView| stays_with(a, key.email_address),
        ),
        only(
            get_contact_profile_plan(address, key, system_sender),
            |a: ActionView| stays_with(a, key.email_address),
        ),
        only(
            get_contacts_by_name_plan(query, key),
            |a: ActionView| stays_with(a, key.email_address),
        ),
{
    let agent = key.email_address;
    let kind = |a: ActionView| stays_with(a, agent);
    assert forall|addresses: Seq<Seq<char>>|
        only(#[trigger] name_lookup(agent, addresses, Seq::empty()), kind) by {
        lemma_lookups_stay(agent, None, addresses, true, Seq::empty());
    }
    assert forall|persona: Option<Seq<char>>, addresses: Seq<Seq<char>>|
        only(#[trigger] batch_lookup(agent, persona, addresses, true, Seq::empty()), kind) by {
        lemma_lookups_stay(agent, persona, addresses, true, Seq::empty());
    }
    reveal_with_fuel(only, 8);
}

} // verus!
