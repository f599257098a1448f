//! Writing and reading one contact profile.

use vstd::prelude::*;

use crate::access::{is_system_sender, names_system_sender};
use crate::agent_state::{addressed, confirm, state_failed, state_failure, success_body};
use crate::contacts::{
    add_to_name_index, index_addresses, index_text, key_of_name, key_of_profile, merge_profiles,
    merged_profile, name_in_profile, name_in_value, name_key, profile_key, profile_name,
    remove_from_name_index, stored_addresses, stored_name, with_address, without_address,
};
use crate::json::{
    bool_value, new_object, object_value, print_value, set_field, text_value, JsonTree,
};
use crate::protocol::{
    fail, failure, granted, scoped, stored, succeed, success, Action, Event, EventView, Machine,
    Next, Plan, ScopeRule, StoreFault, Waiting,
};
use crate::text::{lowercase, same, to_lowercase};
use crate::types::{ApiKeyRecord, Body, BodyView, ContactProfileRequest, Reply, StoreError};

verus! {

/// Why a key without an address has no contacts.
pub const NO_CONTACTS: &'static str =
    "contacts require a non-empty email_address — system-level keys must use an agent-scoped key for this endpoint";

/// The value of a state entry that was found. A read that fails finds nothing.
pub open spec fn found_value(
    entry: Result<Option<(Seq<char>, Seq<char>)>, StoreFault>,
) -> Option<Seq<char>> {
    match entry {
        Ok(Some(e)) => Some(e.1),
        _ => None,
    }
}

/// The value of a state entry that was found.
pub fn value_found(entry: Result<Option<(String, String)>, StoreError>) -> (value: Option<String>)
    ensures
        value.deep_view() == found_value(stored(entry)),
{
    match entry {
        Ok(Some((_, value))) => Some(value),
        _ => None,
    }
}

// Writing a profile

/// A profile is written to the contacts of the key's own agent, and the index
/// of its name with it.
pub open spec fn put_contact_profile_plan(
    address: Seq<char>,
    key: ApiKeyRecord<Seq<char>>,
    req: ContactProfileRequest<Seq<char>>,
) -> Plan {
    scoped(
        ScopeRule::AgentOrAdmin,
        addressed(key, NO_CONTACTS@, profile_put(key.email_address, address, req.profile)),
    )
}

/// The profile that is there, if any, is read first.
pub open spec fn profile_put(agent: Seq<char>, address: Seq<char>, profile: Seq<char>) -> Plan {
    Plan::Do(
        Action::StateGet { agent, key: profile_key(address) },
        former_profile_got(agent, address, profile),
    )
}

/// A new profile is merged into the former one. The index follows the name in
/// what is stored.
pub open spec fn former_profile_got(
    agent: Seq<char>,
    address: Seq<char>,
    profile: Seq<char>,
) -> spec_fn(EventView) -> Plan {
    |event: EventView|
        match event {
            EventView::State(entry) => Plan::Do(
                Action::StatePut {
                    agent,
                    key: profile_key(address),
                    value: profile_to_store(found_value(entry), profile),
                },
                profile_written(
                    agent,
                    address,
                    former_name(found_value(entry)),
                    stored_name(found_value(entry), profile),
                ),
            ),
            _ => Plan::Mismatch,
        }
}

/// What is stored of a new profile, by the former one.
pub open spec fn profile_to_store(
    former: Option<Seq<char>>,
    profile: Seq<char>,
) -> Seq<char> {
    match former {
        Some(former) => merged_profile(former, profile),
        None => profile,
    }
}

/// The name in the former profile, if any.
pub open spec fn former_name(former: Option<Seq<char>>) -> Seq<char> {
    match former {
        Some(former) => profile_name(former),
        None => Seq::empty(),
    }
}

/// The address leaves the index of its former name, unless the name stays but
/// for letter case.
pub open spec fn profile_written(
    agent: Seq<char>,
    address: Seq<char>,
    former: Seq<char>,
    name: Seq<char>,
) -> spec_fn(EventView) -> Plan {
    |event: EventView|
        match event {
            EventView::Done(Ok(_)) => if former.len() > 0 && lowercase(former) != lowercase(name) {
                Plan::Do(
                    Action::StateGet { agent, key: name_key(former) },
                    former_index_got(agent, address, former, name),
                )
            } else {
                name_entered(agent, address, name)
            },
            EventView::Done(Err(e)) => state_failed(e),
            _ => Plan::Mismatch,
        }
}

/// An index without addresses is deleted. Whether that or the write succeeds
/// does not matter.
pub open spec fn former_index_got(
    agent: Seq<char>,
    address: Seq<char>,
    former: Seq<char>,
    name: Seq<char>,
) -> spec_fn(EventView) -> Plan {
    |event: EventView|
        match event {
            EventView::State(entry) => match found_value(entry) {
                Some(index) => Plan::Do(
                    index_without(
                        agent,
                        name_key(former),
                        without_address(index_addresses(index), address),
                    ),
                    former_index_written(agent, address, name),
                ),
                None => name_entered(agent, address, name),
            },
            _ => Plan::Mismatch,
        }
}

/// How the addresses that are left in an index are stored.
pub open spec fn index_without(
    agent: Seq<char>,
    key: Seq<char>,
    addresses: Seq<Seq<char>>,
) -> crate::protocol::ActionView {
    if addresses.len() == 0 {
        Action::StateDelete { agent, key }
    } else {
        Action::StatePut { agent, key, value: index_text(addresses) }
    }
}

pub open spec fn former_index_written(
    agent: Seq<char>,
    address: Seq<char>,
    name: Seq<char>,
) -> spec_fn(EventView) -> Plan {
    |event: EventView|
        match event {
            EventView::Done(_) => name_entered(agent, address, name),
            _ => Plan::Mismatch,
        }
}

/// The address enters the index of its name, if it has one.
pub open spec fn name_entered(agent: Seq<char>, address: Seq<char>, name: Seq<char>) -> Plan {
    if name.len() > 0 {
        Plan::Do(
            Action::StateGet { agent, key: name_key(name) },
            index_got(agent, address, name),
        )
    } else {
        succeed(200, success_body())
    }
}

pub open spec fn index_got(
    agent: Seq<char>,
    address: Seq<char>,
    name: Seq<char>,
) -> spec_fn(EventView) -> Plan {
    |event: EventView|
        match event {
            EventView::State(entry) => Plan::Do(
                Action::StatePut {
                    agent,
                    key: name_key(name),
                    value: index_text(with_address(stored_addresses(found_value(entry)), address)),
                },
                index_written(),
            ),
            _ => Plan::Mismatch,
        }
}

/// Whether the index was written does not matter.
pub open spec fn index_written() -> spec_fn(EventView) -> Plan {
    |event: EventView|
        match event {
            EventView::Done(_) => succeed(200, success_body()),
            _ => Plan::Mismatch,
        }
}

/// The writing of a profile, under way.
#[derive(Debug, PartialEq)]
pub enum PutContactProfile {
    Scope { address: String, key: ApiKeyRecord, req: ContactProfileRequest },
    Former { agent: String, address: String, profile: String },
    Put { agent: String, address: String, former: String, name: String },
    FormerIndex { agent: String, address: String, former: String, name: String },
    FormerIndexPut { agent: String, address: String, name: String },
    Index { agent: String, address: String, name: String },
    IndexPut,
}

/// `PUT /api/v1/contacts/:address`: writes a contact's profile.
pub fn put_contact_profile(
    address: String,
    api_key: ApiKeyRecord,
    req: ContactProfileRequest,
) -> (next: Next<PutContactProfile>)
    ensures
        next.plan() == put_contact_profile_plan(address@, api_key.deep_view(), req.deep_view()),
{
    Next::Do(
        Action::RequireScope { rule: ScopeRule::AgentOrAdmin },
        PutContactProfile::Scope { address, key: api_key, req },
    )
}

impl PutContactProfile {
    fn write_profile(
        agent: String,
        address: String,
        former: Option<String>,
        profile: String,
    ) -> (next: Next<PutContactProfile>)
        ensures
            next.plan() == Plan::Do(
                Action::StatePut {
                    agent: agent@,
                    key: profile_key(address@),
                    value: profile_to_store(former.deep_view(), profile@),
                },
                profile_written(
                    agent@,
                    address@,
                    former_name(former.deep_view()),
                    stored_name(former.deep_view(), profile@),
                ),
            ),
    {
        let (value, former, name) = match former {
            Some(former) => {
                let merged = merge_profiles(&former, &profile);
                (print_value(&merged), name_in_profile(&former), name_in_value(&merged))
            },
            None => {
                let name = name_in_profile(&profile);
                (profile, String::new(), name)
            },
        };
        Next::Do(
            Action::StatePut { agent: agent.clone(), key: key_of_profile(&address), value },
            PutContactProfile::Put { agent, address, former, name },
        )
    }

    fn enter_name(agent: String, address: String, name: String) -> (next: Next<PutContactProfile>)
        ensures
            next.plan() == name_entered(agent@, address@, name@),
    {
        if !name.as_str().is_empty() {
            Next::Do(
                Action::StateGet { agent: agent.clone(), key: key_of_name(&name) },
                PutContactProfile::Index { agent, address, name },
            )
        } else {
            confirm()
        }
    }

    fn leave_name(
        agent: String,
        address: String,
        former: String,
        name: String,
        index: String,
    ) -> (next: Next<PutContactProfile>)
        ensures
            next.plan() == Plan::Do(
                index_without(
                    agent@,
                    name_key(former@),
                    without_address(index_addresses(index@), address@),
                ),
                former_index_written(agent@, address@, name@),
            ),
    {
        let key = key_of_name(&former);
        let action = match remove_from_name_index(&index, &address) {
            Some(value) => Action::StatePut { agent: agent.clone(), key, value },
            None => Action::StateDelete { agent: agent.clone(), key },
        };
        Next::Do(action, PutContactProfile::FormerIndexPut { agent, address, name })
    }
}

impl Waiting for PutContactProfile {
    open spec fn rest(self) -> spec_fn(EventView) -> Plan {
        match self {
            PutContactProfile::Scope { address, key, req } => granted(
                addressed(
                    key.deep_view(),
                    NO_CONTACTS@,
                    profile_put(key.email_address@, address@, req.profile@),
                ),
            ),
            PutContactProfile::Former { agent, address, profile } => former_profile_got(
                agent@,
                address@,
                profile@,
            ),
            PutContactProfile::Put { agent, address, former, name } => profile_written(
                agent@,
                address@,
                former@,
                name@,
            ),
            PutContactProfile::FormerIndex { agent, address, former, name } => former_index_got(
                agent@,
                address@,
                former@,
                name@,
            ),
            PutContactProfile::FormerIndexPut { agent, address, name } => former_index_written(
                agent@,
                address@,
                name@,
            ),
            PutContactProfile::Index { agent, address, name } => index_got(
                agent@,
                address@,
                name@,
            ),
            PutContactProfile::IndexPut => index_written(),
        }
    }
}

impl Machine for PutContactProfile {
    fn resume(self, event: Event) -> (next: Next<PutContactProfile>) {
        match (self, event) {
            (PutContactProfile::Scope { .. }, Event::Access(Err(refusal))) => Next::Reply(
                Reply::Failed(refusal),
            ),
            (PutContactProfile::Scope { address, key, req }, Event::Access(Ok(()))) => {
                if key.email_address.as_str().is_empty() {
                    failure(403, NO_CONTACTS, None)
                } else {
                    let agent = key.email_address;
                    Next::Do(
                        Action::StateGet { agent: agent.clone(), key: key_of_profile(&address) },
                        PutContactProfile::Former { agent, address, profile: req.profile },
                    )
                }
            },
            (PutContactProfile::Former { agent, address, profile }, Event::State(entry)) => {
                Self::write_profile(agent, address, value_found(entry), profile)
            },
            (PutContactProfile::Put { agent, address, former, name }, Event::Done(Ok(()))) => {
                if !former.as_str().is_empty() && !same(
                    &to_lowercase(&former),
                    &to_lowercase(&name),
                ) {
                    Next::Do(
                        Action::StateGet { agent: agent.clone(), key: key_of_name(&former) },
                        PutContactProfile::FormerIndex { agent, address, former, name },
                    )
                } else {
                    Self::enter_name(agent, address, name)
                }
            },
            (PutContactProfile::Put { .. }, Event::Done(Err(e))) => state_failure(e),
            (
                PutContactProfile::FormerIndex { agent, address, former, name },
                Event::State(entry),
            ) => match value_found(entry) {
                Some(index) => Self::leave_name(agent, address, former, name, index),
                None => Self::enter_name(agent, address, name),
            },
            (PutContactProfile::FormerIndexPut { agent, address, name }, Event::Done(_)) => {
                Self::enter_name(agent, address, name)
            },
            (PutContactProfile::Index { agent, address, name }, Event::State(entry)) => {
                let index = value_found(entry);
                let value = match &index {
                    Some(index) => add_to_name_index(Some(index.as_str()), &address),
                    None => add_to_name_index(None, &address),
                };
                Next::Do(
                    Action::StatePut { agent, key: key_of_name(&name), value },
                    PutContactProfile::IndexPut,
                )
            },
            (PutContactProfile::IndexPut, Event::Done(_)) => confirm(),
            _ => Next::Mismatch,
        }
    }
}

// Reading a profile

/// A profile is read from the contacts of the key's own agent. The system's own
/// sender is known by construction: nothing is looked up for it.
pub open spec fn get_contact_profile_plan(
    address: Seq<char>,
    key: ApiKeyRecord<Seq<char>>,
    system_sender: Seq<char>,
) -> Plan {
    scoped(
        ScopeRule::AgentOrAdmin,
        addressed(
            key,
            NO_CONTACTS@,
            profile_wanted(key.email_address, address, system_sender),
        ),
    )
}

pub open spec fn profile_wanted(
    agent: Seq<char>,
    address: Seq<char>,
    system_sender: Seq<char>,
) -> Plan {
    if is_system_sender(address, system_sender) {
        succeed(200, BodyView::Value(contact_tree(address, system_profile())))
    } else {
        Plan::Do(Action::StateGet { agent, key: profile_key(address) }, profile_got(address))
    }
}

/// A contact as replies show it.
pub open spec fn contact_tree(address: Seq<char>, profile: JsonTree) -> JsonTree {
    JsonTree::Object(
        Map::empty().insert("address"@, JsonTree::Text(address)).insert("profile"@, profile),
    )
}

/// The profile of the system's own sender.
pub open spec fn system_profile() -> JsonTree {
    JsonTree::Object(
        Map::empty().insert("type"@, JsonTree::Text("system"@)).insert(
            "auto_mail"@,
            JsonTree::Bool(true),
        ),
    )
}

pub open spec fn profile_got(address: Seq<char>) -> spec_fn(EventView) -> Plan {
    |event: EventView|
        match event {
            EventView::State(Ok(Some(entry))) => succeed(
                200,
                BodyView::Value(contact_tree(address, JsonTree::Text(entry.1))),
            ),
            EventView::State(Ok(None)) => fail(404, "contact not found"@, None),
            EventView::State(Err(_)) => fail(500, "database error"@, None),
            _ => Plan::Mismatch,
        }
}

/// A contact as replies show it.
pub fn contact_value(address: String, profile: serde_json::Value) -> (value: serde_json::Value)
    ensures
        crate::json::value_tree(value) == contact_tree(
            address@,
            crate::json::value_tree(profile),
        ),
{
    let mut object = new_object();
    set_field(&mut object, "address".to_string(), text_value(address));
    set_field(&mut object, "profile".to_string(), profile);
    object_value(object)
}

/// The reading of a profile, under way.
#[derive(Debug, PartialEq)]
pub enum GetContactProfile {
    Scope { address: String, key: ApiKeyRecord, system_sender: String },
    Get { address: String },
}

/// `GET /api/v1/contacts/:address`: reads a contact's profile.
pub fn get_contact_profile(
    address: String,
    api_key: ApiKeyRecord,
    system_sender: String,
) -> (next: Next<GetContactProfile>)
    ensures
        next.plan() == get_contact_profile_plan(address@, api_key.deep_view(), system_sender@),
{
    Next::Do(
        Action::RequireScope { rule: ScopeRule::AgentOrAdmin },
        GetContactProfile::Scope { address, key: api_key, system_sender },
    )
}

impl Waiting for GetContactProfile {
    open spec fn rest(self) -> spec_fn(EventView) -> Plan {
        match self {
            GetContactProfile::Scope { address, key, system_sender } => granted(
                addressed(
                    key.deep_view(),
                    NO_CONTACTS@,
                    profile_wanted(key.email_address@, address@, system_sender@),
                ),
            ),
            GetContactProfile::Get { address } => profile_got(address@),
        }
    }
}

impl Machine for GetContactProfile {
    fn resume(self, event: Event) -> (next: Next<GetContactProfile>) {
        match (self, event) {
            (GetContactProfile::Scope { .. }, Event::Access(Err(refusal))) => Next::Reply(
                Reply::Failed(refusal),
            ),
            (
                GetContactProfile::Scope { address, key, system_sender },
                Event::Access(Ok(())),
            ) => {
                if key.email_address.as_str().is_empty() {
                    failure(403, NO_CONTACTS, None)
                } else if names_system_sender(&address, &system_sender) {
                    let mut profile = new_object();
                    set_field(&mut profile, "type".to_string(), text_value("system".to_string()));
                    set_field(&mut profile, "auto_mail".to_string(), bool_value(true));
                    success(200, Body::Value(contact_value(address, object_value(profile))))
                } else {
                    Next::Do(
                        Action::StateGet {
                            agent: key.email_address,
                            key: key_of_profile(&address),
                        },
                        GetContactProfile::Get { address },
                    )
                }
            },
            (GetContactProfile::Get { address }, Event::State(Ok(Some((_, value))))) => {
                success(200, Body::Value(contact_value(address, text_value(value))))
            },
            (GetContactProfile::Get { .. }, Event::State(Ok(None))) => {
                failure(404, "contact not found", None)
            },
            (GetContactProfile::Get { .. }, Event::State(Err(_))) => {
                failure(500, "database error", None)
            },
            _ => Next::Mismatch,
        }
    }
}

} // verus!
