//! Looking up contacts by name, or a batch of addresses at once.

use vstd::prelude::*;

use crate::agent_state::addressed;
use crate::contact_profile::{contact_tree, contact_value, found_value, value_found, NO_CONTACTS};
use crate::contacts::{
    addresses_in_index, index_addresses, key_of_name, key_of_profile, name_key, profile_key,
};
use crate::json::{
    array_value, new_object, no_fields, null_value, object_fields, object_value, set_field,
    text_value, value_tree, JsonTree,
};
use crate::protocol::{
    fail, failure, granted, scoped, stored, succeed, success, Action, Event, EventView, Machine,
    Next, Plan, ScopeRule, StoreFault, Waiting,
};
use crate::text::{lists, lowercase, same, segments, split, to_lowercase, trim, trimmed};
use crate::types::{
    ApiKeyRecord, Body, BodyView, ContactsByNameQuery, DomainAddrMetaRecord, Reply, StoreError,
};

verus! {

/// How many addresses a batch may hold.
pub const MAX_BATCH: usize = 50;

/// The addresses of a batch: trimmed, in lower case, none empty and none twice,
/// in the order in which they first occur.
pub open spec fn batch_addresses(parts: Seq<Seq<char>>) -> Seq<Seq<char>>
    decreases parts.len(),
{
    if parts.len() == 0 {
        Seq::empty()
    } else {
        entered(batch_addresses(parts.drop_last()), lowercase(trimmed(parts.last())))
    }
}

/// A batch with one more address, unless it is empty or already there.
pub open spec fn entered(addresses: Seq<Seq<char>>, address: Seq<char>) -> Seq<Seq<char>> {
    if address.len() == 0 || addresses.contains(address) {
        addresses
    } else {
        addresses.push(address)
    }
}

/// Enters an address in a batch, unless it is empty or already there.
pub fn enter(addresses: &mut Vec<String>, address: String)
    ensures
        final(addresses).deep_view() == entered(old(addresses).deep_view(), address@),
{
    if !address.as_str().is_empty() && !lists(addresses, &address) {
        let ghost before = addresses.deep_view();
        addresses.push(address);
        assert(addresses.deep_view() == before.push(address@));
    }
}

/// The addresses of a batch, which stand between commas.
pub fn split_batch(raw: &str) -> (addresses: Vec<String>)
    ensures
        addresses.deep_view() == batch_addresses(segments(raw@, ',')),
{
    let parts = split(raw, ',');
    let ghost all = parts.deep_view();
    let mut addresses: Vec<String> = Vec::new();
    let mut i: usize = 0;
    assert(addresses.deep_view() == batch_addresses(all.take(0)));
    while i < parts.len()
        invariant
            i <= parts@.len(),
            all == parts.deep_view(),
            addresses.deep_view() == batch_addresses(all.take(i as int)),
        decreases parts@.len() - i,
    {
        assert(all.take(i + 1).drop_last() == all.take(i as int));
        enter(&mut addresses, to_lowercase(trim(&parts[i])));
        i += 1;
    }
    assert(all.take(all.len() as int) == all);
    addresses
}

/// A contact that was found.
#[derive(Debug, PartialEq)]
pub struct Contact<S = String> {
    pub address: S,
    pub profile: S,
    /// Whether the contact is the sender of the mail that a batch is about.
    pub sender: bool,
}

impl DeepView for Contact {
    type V = Contact<Seq<char>>;

    open spec fn deep_view(&self) -> Contact<Seq<char>> {
        Contact { address: self.address@, profile: self.profile@, sender: self.sender }
    }
}

/// Contacts as replies list them.
pub open spec fn contacts_array(found: Seq<Contact<Seq<char>>>) -> JsonTree {
    JsonTree::Array(
        found.map_values(
            |c: Contact<Seq<char>>| contact_tree(c.address, JsonTree::Text(c.profile)),
        ),
    )
}

/// The profiles of the sender, or of the others, by address.
pub open spec fn profile_fields(found: Seq<Contact<Seq<char>>>, sender: bool) -> Map<
    Seq<char>,
    JsonTree,
>
    decreases found.len(),
{
    if found.len() == 0 {
        no_fields()
    } else {
        let fields = profile_fields(found.drop_last(), sender);
        if found.last().sender == sender {
            fields.insert(found.last().address, JsonTree::Text(found.last().profile))
        } else {
            fields
        }
    }
}

fn list_contacts(found: &Vec<Contact>) -> (value: serde_json::Value)
    ensures
        value_tree(value) == contacts_array(found.deep_view()),
{
    let ghost all = found.deep_view();
    let mut items: Vec<serde_json::Value> = Vec::new();
    let mut i: usize = 0;
    while i < found.len()
        invariant
            i <= found@.len(),
            all == found.deep_view(),
            items@.len() == i,
            forall|j: int|
                0 <= j < i ==> value_tree(#[trigger] items@[j]) == contact_tree(
                    all[j].address,
                    JsonTree::Text(all[j].profile),
                ),
        decreases found@.len() - i,
    {
        items.push(
            contact_value(found[i].address.clone(), text_value(found[i].profile.clone())),
        );
        i += 1;
    }
    assert(items@.map_values(|v: serde_json::Value| value_tree(v)) == all.map_values(
        |c: Contact<Seq<char>>| contact_tree(c.address, JsonTree::Text(c.profile)),
    ));
    array_value(items)
}

fn collect_profiles(found: &Vec<Contact>, sender: bool) -> (object: serde_json::Map<
    String,
    serde_json::Value,
>)
    ensures
        object_fields(object) == profile_fields(found.deep_view(), sender),
{
    let ghost all = found.deep_view();
    let mut object = new_object();
    let mut i: usize = 0;
    while i < found.len()
        invariant
            i <= found@.len(),
            all == found.deep_view(),
            object_fields(object) == profile_fields(all.take(i as int), sender),
        decreases found@.len() - i,
    {
        assert(all.take(i + 1).drop_last() == all.take(i as int));
        if found[i].sender == sender {
            set_field(&mut object, found[i].address.clone(), text_value(found[i].profile.clone()));
        }
        i += 1;
    }
    assert(all.take(all.len() as int) == all);
    object
}

/// Contacts are looked up for the key's own agent: a batch of addresses where
/// the query names any, else by name.
pub open spec fn get_contacts_by_name_plan(
    query: ContactsByNameQuery<Seq<char>>,
    key: ApiKeyRecord<Seq<char>>,
) -> Plan {
    scoped(
        ScopeRule::AgentOrAdmin,
        addressed(key, NO_CONTACTS@, contacts_wanted(key.email_address, query)),
    )
}

pub open spec fn contacts_wanted(
    agent: Seq<char>,
    query: ContactsByNameQuery<Seq<char>>,
) -> Plan {
    match query.addresses {
        Some(raw) => if trimmed(raw).len() > 0 {
            batch_wanted(agent, batch_addresses(segments(trimmed(raw), ',')))
        } else {
            name_wanted(agent, query.name)
        },
        None => name_wanted(agent, query.name),
    }
}

// Batches

pub open spec fn batch_wanted(agent: Seq<char>, addresses: Seq<Seq<char>>) -> Plan {
    if addresses.len() > MAX_BATCH {
        fail(400, "too many addresses (max 50)"@, None)
    } else {
        Plan::Do(Action::GetMetaRow { email: agent }, persona_got(agent, addresses))
    }
}

/// The agent's own profile is the persona of its metadata.
pub open spec fn persona_got(
    agent: Seq<char>,
    addresses: Seq<Seq<char>>,
) -> spec_fn(EventView) -> Plan {
    |event: EventView|
        match event {
            EventView::MaybeMeta(meta) => batch_lookup(
                agent,
                persona_of(meta),
                addresses,
                true,
                Seq::empty(),
            ),
            _ => Plan::Mismatch,
        }
}

/// The persona in an agent's metadata, if there is one.
pub open spec fn persona_of(
    meta: Result<Option<DomainAddrMetaRecord<Seq<char>>>, StoreFault>,
) -> Option<Seq<char>> {
    match meta {
        Ok(Some(m)) => if m.agent_persona.len() > 0 {
            Some(m.agent_persona)
        } else {
            None
        },
        _ => None,
    }
}

fn take_persona(meta: Result<Option<DomainAddrMetaRecord>, StoreError>) -> (persona: Option<String>)
    ensures
        persona.deep_view() == persona_of(stored(meta)),
{
    match meta {
        Ok(Some(m)) => {
            if !m.agent_persona.as_str().is_empty() {
                Some(m.agent_persona)
            } else {
                None
            }
        },
        _ => None,
    }
}

/// The addresses are looked up one by one. The first of a batch is the sender.
pub open spec fn batch_lookup(
    agent: Seq<char>,
    persona: Option<Seq<char>>,
    addresses: Seq<Seq<char>>,
    sender: bool,
    found: Seq<Contact<Seq<char>>>,
) -> Plan
    decreases addresses.len(), 1nat,
{
    if addresses.len() == 0 {
        succeed(200, batch_body(agent, persona, found))
    } else {
        fetch_contact_profile_plan(
            agent,
            addresses[0],
            contact_fetched(agent, persona, addresses[0], addresses.skip(1), sender, found),
        )
    }
}

/// What follows the profile of an address, where one was found.
pub open spec fn contact_fetched(
    agent: Seq<char>,
    persona: Option<Seq<char>>,
    address: Seq<char>,
    addresses: Seq<Seq<char>>,
    sender: bool,
    found: Seq<Contact<Seq<char>>>,
) -> spec_fn(Option<Seq<char>>) -> Plan
    decreases addresses.len(), 2nat,
{
    |profile: Option<Seq<char>>|
        match profile {
            Some(profile) => batch_lookup(
                agent,
                persona,
                addresses,
                false,
                found.push(Contact { address, profile, sender }),
            ),
            None => batch_lookup(agent, persona, addresses, false, found),
        }
}

/// The reply to a batch.
pub open spec fn batch_body(
    agent: Seq<char>,
    persona: Option<Seq<char>>,
    found: Seq<Contact<Seq<char>>>,
) -> BodyView {
    BodyView::Value(
        JsonTree::Object(
            Map::empty().insert(
                "my_profile"@,
                match persona {
                    Some(persona) => contact_tree(agent, JsonTree::Text(persona)),
                    None => JsonTree::Null,
                },
            ).insert("sender_profile"@, JsonTree::Object(profile_fields(found, true))).insert(
                "recipients_profile"@,
                JsonTree::Object(profile_fields(found, false)),
            ).insert("results"@, contacts_array(found)),
        ),
    )
}

/// The profile of an address stands under its base, the address without its
/// persona; where there is none, under the full address. A read that fails
/// finds nothing.
pub open spec fn fetch_contact_profile_plan(
    agent: Seq<char>,
    address: Seq<char>,
    then: spec_fn(Option<Seq<char>>) -> Plan,
) -> Plan {
    Plan::Do(Action::StripPersona { address }, base_known(agent, address, then))
}

pub open spec fn base_known(
    agent: Seq<char>,
    address: Seq<char>,
    then: spec_fn(Option<Seq<char>>) -> Plan,
) -> spec_fn(EventView) -> Plan {
    |event: EventView|
        match event {
            EventView::Text(base) => Plan::Do(
                Action::StateGet { agent, key: profile_key(base) },
                base_profile_got(agent, address, base, then),
            ),
            _ => Plan::Mismatch,
        }
}

pub open spec fn base_profile_got(
    agent: Seq<char>,
    address: Seq<char>,
    base: Seq<char>,
    then: spec_fn(Option<Seq<char>>) -> Plan,
) -> spec_fn(EventView) -> Plan {
    |event: EventView|
        match event {
            EventView::State(entry) => if found_value(entry) is None && base != address {
                Plan::Do(
                    Action::StateGet { agent, key: profile_key(address) },
                    literal_profile_got(then),
                )
            } else {
                then(found_value(entry))
            },
            _ => Plan::Mismatch,
        }
}

pub open spec fn literal_profile_got(
    then: spec_fn(Option<Seq<char>>) -> Plan,
) -> spec_fn(EventView) -> Plan {
    |event: EventView|
        match event {
            EventView::State(entry) => then(found_value(entry)),
            _ => Plan::Mismatch,
        }
}

// Names

pub open spec fn name_wanted(agent: Seq<char>, name: Option<Seq<char>>) -> Plan {
    match name {
        Some(name) => if trimmed(name).len() > 0 {
            Plan::Do(
                Action::StateGet { agent, key: name_key(trimmed(name)) },
                name_index_got(agent),
            )
        } else {
            nothing_asked()
        },
        None => nothing_asked(),
    }
}

/// The reply where the query names neither addresses nor a name.
pub open spec fn nothing_asked() -> Plan {
    fail(400, "either name or addresses query parameter is required"@, None)
}

pub open spec fn name_index_got(agent: Seq<char>) -> spec_fn(EventView) -> Plan {
    |event: EventView|
        match event {
            EventView::State(entry) => match found_value(entry) {
                Some(index) => name_lookup(agent, index_addresses(index), Seq::empty()),
                None => name_lookup(agent, Seq::empty(), Seq::empty()),
            },
            _ => Plan::Mismatch,
        }
}

/// The profiles of the addresses that the index lists, in its order. What has
/// no profile is left out.
pub open spec fn name_lookup(
    agent: Seq<char>,
    addresses: Seq<Seq<char>>,
    found: Seq<Contact<Seq<char>>>,
) -> Plan
    decreases addresses.len(), 1nat,
{
    if addresses.len() == 0 {
        succeed(200, results_body(found))
    } else {
        Plan::Do(
            Action::StateGet { agent, key: profile_key(addresses[0]) },
            named_profile_got(agent, addresses[0], addresses.skip(1), found),
        )
    }
}

pub open spec fn named_profile_got(
    agent: Seq<char>,
    address: Seq<char>,
    addresses: Seq<Seq<char>>,
    found: Seq<Contact<Seq<char>>>,
) -> spec_fn(EventView) -> Plan
    decreases addresses.len(), 2nat,
{
    |event: EventView|
        match event {
            EventView::State(entry) => match found_value(entry) {
                Some(profile) => name_lookup(
                    agent,
                    addresses,
                    found.push(Contact { address, profile, sender: false }),
                ),
                None => name_lookup(agent, addresses, found),
            },
            _ => Plan::Mismatch,
        }
}

/// The reply to a search by name.
pub open spec fn results_body(found: Seq<Contact<Seq<char>>>) -> BodyView {
    BodyView::Value(
        JsonTree::Object(Map::empty().insert("results"@, contacts_array(found))),
    )
}

/// What is known of a batch while it is looked up.
#[derive(Debug, PartialEq)]
pub struct Batch {
    pub agent: String,
    pub persona: Option<String>,
    pub addresses: Vec<String>,
    pub sender: bool,
    pub found: Vec<Contact>,
}

impl Batch {
    /// What is done from here on.
    pub open spec fn lookup(self) -> Plan {
        batch_lookup(
            self.agent@,
            self.persona.deep_view(),
            self.addresses.deep_view(),
            self.sender,
            self.found.deep_view(),
        )
    }

    /// What is done once the profile of an address is known.
    pub open spec fn fetched(self, address: Seq<char>) -> spec_fn(Option<Seq<char>>) -> Plan {
        contact_fetched(
            self.agent@,
            self.persona.deep_view(),
            address,
            self.addresses.deep_view(),
            self.sender,
            self.found.deep_view(),
        )
    }
}

/// A lookup of contacts, under way.
#[derive(Debug, PartialEq)]
#[allow(inconsistent_fields)]
pub enum GetContactsByName {
    Scope { query: ContactsByNameQuery, key: ApiKeyRecord },
    Persona { agent: String, addresses: Vec<String> },
    Base { batch: Batch, address: String },
    BaseProfile { batch: Batch, address: String, base: String },
    LiteralProfile { batch: Batch, address: String },
    Index { agent: String },
    Profile { agent: String, address: String, addresses: Vec<String>, found: Vec<Contact> },
}

/// `GET /api/v1/contacts`: looks up contacts by name, or a batch of addresses.
pub fn get_contacts_by_name(
    query: ContactsByNameQuery,
    api_key: ApiKeyRecord,
) -> (next: Next<GetContactsByName>)
    ensures
        next.plan() == get_contacts_by_name_plan(query.deep_view(), api_key.deep_view()),
{
    Next::Do(
        Action::RequireScope { rule: ScopeRule::AgentOrAdmin },
        GetContactsByName::Scope { query, key: api_key },
    )
}

impl GetContactsByName {
    fn begin(agent: String, query: ContactsByNameQuery) -> (next: Next<GetContactsByName>)
        ensures
            next.plan() == contacts_wanted(agent@, query.deep_view()),
    {
        match query.addresses {
            Some(raw) => {
                let core = trim(&raw);
                if !core.is_empty() {
                    Self::begin_batch(agent, split_batch(core))
                } else {
                    Self::begin_search(agent, query.name)
                }
            },
            None => Self::begin_search(agent, query.name),
        }
    }

    fn begin_batch(agent: String, addresses: Vec<String>) -> (next: Next<GetContactsByName>)
        ensures
            next.plan() == batch_wanted(agent@, addresses.deep_view()),
    {
        if addresses.len() > MAX_BATCH {
            failure(400, "too many addresses (max 50)", None)
        } else {
            Next::Do(
                Action::GetMetaRow { email: agent.clone() },
                GetContactsByName::Persona { agent, addresses },
            )
        }
    }

    fn begin_search(agent: String, name: Option<String>) -> (next: Next<GetContactsByName>)
        ensures
            next.plan() == name_wanted(agent@, name.deep_view()),
    {
        match name {
            Some(name) => {
                let core = trim(&name);
                if !core.is_empty() {
                    Next::Do(
                        Action::StateGet { agent: agent.clone(), key: key_of_name(core) },
                        GetContactsByName::Index { agent },
                    )
                } else {
                    failure(400, "either name or addresses query parameter is required", None)
                }
            },
            None => failure(400, "either name or addresses query parameter is required", None),
        }
    }

    fn look_up(batch: Batch) -> (next: Next<GetContactsByName>)
        ensures
            next.plan() == batch.lookup(),
    {
        let mut batch = batch;
        if batch.addresses.len() == 0 {
            let mut object = new_object();
            let my_profile = match batch.persona {
                Some(persona) => contact_value(batch.agent, text_value(persona)),
                None => null_value(),
            };
            set_field(&mut object, "my_profile".to_string(), my_profile);
            set_field(
                &mut object,
                "sender_profile".to_string(),
                object_value(collect_profiles(&batch.found, true)),
            );
            set_field(
                &mut object,
                "recipients_profile".to_string(),
                object_value(collect_profiles(&batch.found, false)),
            );
            set_field(&mut object, "results".to_string(), list_contacts(&batch.found));
            success(200, Body::Value(object_value(object)))
        } else {
            let ghost before = batch.addresses.deep_view();
            let address = batch.addresses.remove(0);
            assert(before[0] == address@);
            assert(batch.addresses.deep_view() == before.skip(1));
            Next::Do(
                Action::StripPersona { address: address.clone() },
                GetContactsByName::Base { batch, address },
            )
        }
    }

    fn note(batch: Batch, address: String, profile: Option<String>) -> (next: Next<
        GetContactsByName,
    >)
        ensures
            next.plan() == (batch.fetched(address@))(profile.deep_view()),
    {
        let mut batch = batch;
        let sender = batch.sender;
        batch.sender = false;
        if let Some(profile) = profile {
            let ghost before = batch.found.deep_view();
            let contact = Contact { address, profile, sender };
            batch.found.push(contact);
            assert(batch.found.deep_view() == before.push(contact.deep_view()));
        }
        Self::look_up(batch)
    }

    fn search(agent: String, addresses: Vec<String>, found: Vec<Contact>) -> (next: Next<
        GetContactsByName,
    >)
        ensures
            next.plan() == name_lookup(agent@, addresses.deep_view(), found.deep_view()),
    {
        let mut addresses = addresses;
        if addresses.len() == 0 {
            let mut object = new_object();
            set_field(&mut object, "results".to_string(), list_contacts(&found));
            success(200, Body::Value(object_value(object)))
        } else {
            let ghost before = addresses.deep_view();
            let address = addresses.remove(0);
            assert(before[0] == address@);
            assert(addresses.deep_view() == before.skip(1));
            Next::Do(
                Action::StateGet { agent: agent.clone(), key: key_of_profile(&address) },
                GetContactsByName::Profile { agent, address, addresses, found },
            )
        }
    }
}

impl Waiting for GetContactsByName {
    open spec fn rest(self) -> spec_fn(EventView) -> Plan {
        match self {
            GetContactsByName::Scope { query, key } => granted(
                addressed(
                    key.deep_view(),
                    NO_CONTACTS@,
                    contacts_wanted(key.email_address@, query.deep_view()),
                ),
            ),
            GetContactsByName::Persona { agent, addresses } => persona_got(
                agent@,
                addresses.deep_view(),
            ),
            GetContactsByName::Base { batch, address } => base_known(
                batch.agent@,
                address@,
                batch.fetched(address@),
            ),
            GetContactsByName::BaseProfile { batch, address, base } => base_profile_got(
                batch.agent@,
                address@,
                base@,
                batch.fetched(address@),
            ),
            GetContactsByName::LiteralProfile { batch, address } => literal_profile_got(
                batch.fetched(address@),
            ),
            GetContactsByName::Index { agent } => name_index_got(agent@),
            GetContactsByName::Profile { agent, address, addresses, found } => named_profile_got(
                agent@,
                address@,
                addresses.deep_view(),
                found.deep_view(),
            ),
        }
    }
}

impl Machine for GetContactsByName {
    fn resume(self, event: Event) -> (next: Next<GetContactsByName>) {
        match (self, event) {
            (GetContactsByName::Scope { .. }, Event::Access(Err(refusal))) => Next::Reply(
                Reply::Failed(refusal),
            ),
            (GetContactsByName::Scope { query, key }, Event::Access(Ok(()))) => {
                if key.email_address.as_str().is_empty() {
                    failure(403, NO_CONTACTS, None)
                } else {
                    Self::begin(key.email_address, query)
                }
            },
            (GetContactsByName::Persona { agent, addresses }, Event::MaybeMeta(meta)) => {
                let found: Vec<Contact> = Vec::new();
                assert(found.deep_view() == Seq::<Contact<Seq<char>>>::empty());
                let persona = take_persona(meta);
                Self::look_up(Batch { agent, persona, addresses, sender: true, found })
            },
            (GetContactsByName::Base { batch, address }, Event::Text(base)) => Next::Do(
                Action::StateGet { agent: batch.agent.clone(), key: key_of_profile(&base) },
                GetContactsByName::BaseProfile { batch, address, base },
            ),
            (
                GetContactsByName::BaseProfile { batch, address, base },
                Event::State(entry),
            ) => {
                let profile = value_found(entry);
                if profile.is_none() && !same(&base, &address) {
                    Next::Do(
                        Action::StateGet {
                            agent: batch.agent.clone(),
                            key: key_of_profile(&address),
                        },
                        GetContactsByName::LiteralProfile { batch, address },
                    )
                } else {
                    Self::note(batch, address, profile)
                }
            },
            (GetContactsByName::LiteralProfile { batch, address }, Event::State(entry)) => {
                Self::note(batch, address, value_found(entry))
            },
            (GetContactsByName::Index { agent }, Event::State(entry)) => {
                let found: Vec<Contact> = Vec::new();
                assert(found.deep_view() == Seq::<Contact<Seq<char>>>::empty());
                match value_found(entry) {
                    Some(index) => Self::search(agent, addresses_in_index(&index), found),
                    None => {
                        let none: Vec<String> = Vec::new();
                        assert(none.deep_view() == Seq::<Seq<char>>::empty());
                        Self::search(agent, none, found)
                    },
                }
            },
            (
                GetContactsByName::Profile { agent, address, addresses, found },
                Event::State(entry),
            ) => {
                let mut found = found;
                if let Some(profile) = value_found(entry) {
                    let ghost before = found.deep_view();
                    let contact = Contact { address, profile, sender: false };
                    found.push(contact);
                    assert(found.deep_view() == before.push(contact.deep_view()));
                }
                Self::search(agent, addresses, found)
            },
            _ => Next::Mismatch,
        }
    }
}

} // verus!
