//! Whitelist entries: creation, listing and checking.

use vstd::prelude::*;

use crate::access::{is_system_sender, manager_known, names_system_sender, refusal};
use crate::json::{bool_value, new_object, object_value, set_field, text_value, JsonTree};
use crate::protocol::{
    fail, failure, gate, granted, storage_failed, storage_failure, succeed, success, Action, Event,
    EventView, Machine, Next, Plan, StoreFault, Waiting,
};
use crate::text::same;
use crate::types::{
    ApiKeyRecord, Body, BodyView, CheckWhitelistQuery, CreateWhitelistRequest, ListWhitelistsQuery,
    Reply, StoreError, WhitelistRecord,
};

verus! {

// Creating an entry

/// A plan that refuses a key whose scopes do not suffice.
pub open spec fn insufficient_scope(detail: Option<Seq<char>>) -> Plan {
    fail(403, "Insufficient scope"@, detail)
}

/// Agents create entries for themselves, agent admins for the agents that they
/// manage, system admins for their domain. A platform admin creates none.
pub open spec fn create_whitelist_plan(
    key: ApiKeyRecord<Seq<char>>,
    req: CreateWhitelistRequest<Seq<char>>,
) -> Plan {
    if key.scopes.agent_admin {
        Plan::Do(
            Action::ResolveMeta { email: req.domain_addr },
            manager_known(key.email_address, req.domain_addr, agent_key_wanted(req)),
        )
    } else if key.scopes.agent {
        gate(
            Action::CheckWhitelistAccess { domain_addr: req.domain_addr },
            agent_entry(req, Some(key.id)),
        )
    } else if key.scopes.system_admin {
        gate(
            Action::CheckWhitelistAccess { domain_addr: req.domain_addr },
            domain_entry(req),
        )
    } else if key.scopes.platform_admin {
        insufficient_scope(Some("PlatformAdmin can only view and toggle whitelist entries"@))
    } else {
        insufficient_scope(None)
    }
}

/// An entry that a manager creates is bound to the key of the agent.
pub open spec fn agent_key_wanted(req: CreateWhitelistRequest<Seq<char>>) -> Plan {
    Plan::Do(Action::ResolveApiKeyByEmail { email: req.domain_addr }, agent_key_found(req))
}

pub open spec fn agent_key_found(
    req: CreateWhitelistRequest<Seq<char>>,
) -> spec_fn(EventView) -> Plan {
    |event: EventView|
        match event {
            EventView::MaybeKey(Ok(id)) => agent_entry(req, id),
            EventView::MaybeKey(Err(e)) => storage_failed(e),
            _ => Plan::Mismatch,
        }
}

/// An entry of the agent category, bound to a key.
pub open spec fn agent_entry(
    req: CreateWhitelistRequest<Seq<char>>,
    api_key_id: Option<i64>,
) -> Plan {
    Plan::Do(
        Action::CreateWhitelistEntryFull {
            domain_addr: req.domain_addr,
            direction: req.direction,
            value: req.value,
            category: "agent"@,
            api_key_id,
            description: req.description,
        },
        entry_created(),
    )
}

/// An entry of a domain.
pub open spec fn domain_entry(req: CreateWhitelistRequest<Seq<char>>) -> Plan {
    Plan::Do(
        Action::CreateWhitelistEntry {
            domain_addr: req.domain_addr,
            direction: req.direction,
            value: req.value,
            description: req.description,
        },
        entry_created(),
    )
}

pub open spec fn entry_created() -> spec_fn(EventView) -> Plan {
    |event: EventView|
        match event {
            EventView::Entry(Ok(entry)) => succeed(201, BodyView::Entry(entry)),
            EventView::Entry(Err(e)) => storage_failed(e),
            _ => Plan::Mismatch,
        }
}

/// The creation of a whitelist entry, under way.
#[derive(Debug, PartialEq)]
pub enum CreateWhitelist {
    Manager { key: ApiKeyRecord, req: CreateWhitelistRequest },
    AgentKey { req: CreateWhitelistRequest },
    AgentAccess { key: ApiKeyRecord, req: CreateWhitelistRequest },
    DomainAccess { req: CreateWhitelistRequest },
    Create,
}

/// `POST /api/v1/whitelists`: creates a whitelist entry.
pub fn create_whitelist(
    api_key: ApiKeyRecord,
    req: CreateWhitelistRequest,
) -> (next: Next<CreateWhitelist>)
    ensures
        next.plan() == create_whitelist_plan(api_key.deep_view(), req.deep_view()),
{
    if api_key.scopes.agent_admin {
        Next::Do(
            Action::ResolveMeta { email: req.domain_addr.clone() },
            CreateWhitelist::Manager { key: api_key, req },
        )
    } else if api_key.scopes.agent {
        Next::Do(
            Action::CheckWhitelistAccess { domain_addr: req.domain_addr.clone() },
            CreateWhitelist::AgentAccess { key: api_key, req },
        )
    } else if api_key.scopes.system_admin {
        Next::Do(
            Action::CheckWhitelistAccess { domain_addr: req.domain_addr.clone() },
            CreateWhitelist::DomainAccess { req },
        )
    } else if api_key.scopes.platform_admin {
        failure(
            403,
            "Insufficient scope",
            Some("PlatformAdmin can only view and toggle whitelist entries".to_string()),
        )
    } else {
        failure(403, "Insufficient scope", None)
    }
}

impl CreateWhitelist {
    fn create_agent_entry(req: CreateWhitelistRequest, api_key_id: Option<i64>) -> (next: Next<
        CreateWhitelist,
    >)
        ensures
            next.plan() == agent_entry(req.deep_view(), api_key_id),
    {
        Next::Do(
            Action::CreateWhitelistEntryFull {
                domain_addr: req.domain_addr,
                direction: req.direction,
                value: req.value,
                category: "agent".to_string(),
                api_key_id,
                description: req.description,
            },
            CreateWhitelist::Create,
        )
    }
}

impl Waiting for CreateWhitelist {
    open spec fn rest(self) -> spec_fn(EventView) -> Plan {
        match self {
            CreateWhitelist::Manager { key, req } => manager_known(
                key.email_address@,
                req.domain_addr@,
                agent_key_wanted(req.deep_view()),
            ),
            CreateWhitelist::AgentKey { req } => agent_key_found(req.deep_view()),
            CreateWhitelist::AgentAccess { key, req } => granted(
                agent_entry(req.deep_view(), Some(key.id)),
            ),
            CreateWhitelist::DomainAccess { req } => granted(domain_entry(req.deep_view())),
            CreateWhitelist::Create => entry_created(),
        }
    }
}

impl Machine for CreateWhitelist {
    fn resume(self, event: Event) -> (next: Next<CreateWhitelist>) {
        match (self, event) {
            (CreateWhitelist::Manager { key, req }, Event::MaybeMeta(meta)) => {
                match refusal(&key.email_address, &req.domain_addr, meta) {
                    Some(refused) => refused,
                    None => Next::Do(
                        Action::ResolveApiKeyByEmail { email: req.domain_addr.clone() },
                        CreateWhitelist::AgentKey { req },
                    ),
                }
            },
            (CreateWhitelist::AgentKey { req }, Event::MaybeKey(Ok(id))) => {
                Self::create_agent_entry(req, id)
            },
            (CreateWhitelist::AgentKey { .. }, Event::MaybeKey(Err(e))) => storage_failure(e),
            (CreateWhitelist::AgentAccess { .. }, Event::Access(Err(refused))) => Next::Reply(
                Reply::Failed(refused),
            ),
            (CreateWhitelist::AgentAccess { key, req }, Event::Access(Ok(()))) => {
                Self::create_agent_entry(req, Some(key.id))
            },
            (CreateWhitelist::DomainAccess { .. }, Event::Access(Err(refused))) => Next::Reply(
                Reply::Failed(refused),
            ),
            (CreateWhitelist::DomainAccess { req }, Event::Access(Ok(()))) => Next::Do(
                Action::CreateWhitelistEntry {
                    domain_addr: req.domain_addr,
                    direction: req.direction,
                    value: req.value,
                    description: req.description,
                },
                CreateWhitelist::Create,
            ),
            (CreateWhitelist::Create, Event::Entry(Ok(entry))) => success(201, Body::Entry(entry)),
            (CreateWhitelist::Create, Event::Entry(Err(e))) => storage_failure(e),
            _ => Next::Mismatch,
        }
    }
}

// Listing entries

/// Whether an entry belongs to an agent's own list.
pub open spec fn own_entry(entry: WhitelistRecord<Seq<char>>, key_id: i64) -> bool {
    entry.category == "agent"@ && entry.api_key_id == Some(key_id)
}

/// Agents see their own entries, agent admins those of the agents that they
/// manage, other admins all of them.
pub open spec fn list_whitelists_plan(
    key: ApiKeyRecord<Seq<char>>,
    query: ListWhitelistsQuery<Seq<char>>,
) -> Plan {
    let domain = match query.domain {
        Some(domain) => domain,
        None => Seq::empty(),
    };
    if key.scopes.agent && !key.scopes.admin {
        Plan::Do(Action::ListWhitelistEntries { domain }, own_entries_listed(key.id))
    } else if key.scopes.agent_admin && !key.scopes.system_admin && !key.scopes.platform_admin {
        Plan::Do(
            Action::ListWhitelistEntries { domain },
            entries_to_sift_listed(key.email_address),
        )
    } else if key.scopes.admin {
        Plan::Do(Action::ListWhitelistEntries { domain }, all_entries_listed())
    } else {
        insufficient_scope(None)
    }
}

pub open spec fn own_entries_listed(key_id: i64) -> spec_fn(EventView) -> Plan {
    |event: EventView|
        match event {
            EventView::Entries(Ok(entries)) => succeed(
                200,
                BodyView::Entries(
                    entries.filter(|e: WhitelistRecord<Seq<char>>| own_entry(e, key_id)),
                ),
            ),
            EventView::Entries(Err(e)) => storage_failed(e),
            _ => Plan::Mismatch,
        }
}

pub open spec fn all_entries_listed() -> spec_fn(EventView) -> Plan {
    |event: EventView|
        match event {
            EventView::Entries(Ok(entries)) => succeed(200, BodyView::Entries(entries)),
            EventView::Entries(Err(e)) => storage_failed(e),
            _ => Plan::Mismatch,
        }
}

pub open spec fn entries_to_sift_listed(manager: Seq<char>) -> spec_fn(EventView) -> Plan {
    |event: EventView|
        match event {
            EventView::Entries(Ok(entries)) => sifted(manager, entries, Seq::empty()),
            EventView::Entries(Err(e)) => storage_failed(e),
            _ => Plan::Mismatch,
        }
}

/// The entries of agents are kept, in order, where the agent's metadata names
/// the manager. `kept` are those kept so far.
pub open spec fn sifted(
    manager: Seq<char>,
    entries: Seq<WhitelistRecord<Seq<char>>>,
    kept: Seq<WhitelistRecord<Seq<char>>>,
) -> Plan
    decreases entries.len(), 1nat,
{
    if entries.len() == 0 {
        succeed(200, BodyView::Entries(kept))
    } else if entries[0].category != "agent"@ {
        sifted(manager, entries.skip(1), kept)
    } else {
        Plan::Do(
            Action::ResolveMeta { email: entries[0].domain_addr },
            entry_sifted(manager, entries[0], entries.skip(1), kept),
        )
    }
}

pub open spec fn entry_sifted(
    manager: Seq<char>,
    entry: WhitelistRecord<Seq<char>>,
    entries: Seq<WhitelistRecord<Seq<char>>>,
    kept: Seq<WhitelistRecord<Seq<char>>>,
) -> spec_fn(EventView) -> Plan
    decreases entries.len(), 2nat,
{
    |event: EventView|
        match event {
            EventView::MaybeMeta(meta) => if names_manager(meta, manager) {
                sifted(manager, entries, kept.push(entry))
            } else {
                sifted(manager, entries, kept)
            },
            _ => Plan::Mismatch,
        }
}

/// Whether metadata was found and names the manager.
pub open spec fn names_manager(
    meta: Result<Option<crate::types::DomainAddrMetaRecord<Seq<char>>>, StoreFault>,
    manager: Seq<char>,
) -> bool {
    match meta {
        Ok(Some(m)) => m.manager_address == manager,
        _ => false,
    }
}

fn has_manager(
    meta: &Result<Option<crate::types::DomainAddrMetaRecord>, StoreError>,
    manager: &str,
) -> (yes: bool)
    ensures
        yes == names_manager(crate::protocol::stored(*meta), manager@),
{
    match meta {
        Ok(Some(m)) => same(&m.manager_address, manager),
        _ => false,
    }
}

fn own_entries(entries: Vec<WhitelistRecord>, key_id: i64) -> (own: Vec<WhitelistRecord>)
    ensures
        own.deep_view() == entries.deep_view().filter(
            |e: WhitelistRecord<Seq<char>>| own_entry(e, key_id),
        ),
{
    let ghost all = entries.deep_view();
    let ghost is_own = |e: WhitelistRecord<Seq<char>>| own_entry(e, key_id);
    let mut own: Vec<WhitelistRecord> = Vec::new();
    proof {
        assert(all.take(0) == Seq::<WhitelistRecord<Seq<char>>>::empty());
        reveal(Seq::filter);
        assert(own.deep_view() == all.take(0).filter(is_own));
    }
    for entry in iter: entries
        invariant
            iter.seq() == entries@,
            all == entries.deep_view(),
            is_own == (|e: WhitelistRecord<Seq<char>>| own_entry(e, key_id)),
            own.deep_view() == all.take(iter.index() as int).filter(is_own),
    {
        let ghost i = iter.index() as int;
        let ghost before = own.deep_view();
        proof {
            reveal(Seq::filter);
            assert(all.take(i + 1).drop_last() == all.take(i));
            assert(all.take(i + 1).last() == entry.deep_view());
        }
        if same(&entry.category, "agent") && entry.api_key_id == Some(key_id) {
            own.push(entry);
            assert(own.deep_view() == before.push(entry.deep_view()));
        }
    }
    assert(all.take(all.len() as int) == all);
    own
}

/// The listing of whitelist entries, under way.
#[derive(Debug, PartialEq)]
pub enum ListWhitelists {
    Own { key_id: i64 },
    ToSift { manager: String },
    All,
    Sift {
        manager: String,
        entry: WhitelistRecord,
        entries: Vec<WhitelistRecord>,
        kept: Vec<WhitelistRecord>,
    },
}

/// `GET /api/v1/whitelists`: lists whitelist entries.
pub fn list_whitelists(
    api_key: ApiKeyRecord,
    query: ListWhitelistsQuery,
) -> (next: Next<ListWhitelists>)
    ensures
        next.plan() == list_whitelists_plan(api_key.deep_view(), query.deep_view()),
{
    let domain = match query.domain {
        Some(domain) => domain,
        None => String::new(),
    };
    if api_key.scopes.agent && !api_key.scopes.admin {
        Next::Do(
            Action::ListWhitelistEntries { domain },
            ListWhitelists::Own { key_id: api_key.id },
        )
    } else if api_key.scopes.agent_admin && !api_key.scopes.system_admin
        && !api_key.scopes.platform_admin {
        Next::Do(
            Action::ListWhitelistEntries { domain },
            ListWhitelists::ToSift { manager: api_key.email_address },
        )
    } else if api_key.scopes.admin {
        Next::Do(Action::ListWhitelistEntries { domain }, ListWhitelists::All)
    } else {
        failure(403, "Insufficient scope", None)
    }
}

impl ListWhitelists {
    fn sift(
        manager: String,
        entries: Vec<WhitelistRecord>,
        kept: Vec<WhitelistRecord>,
    ) -> (next: Next<ListWhitelists>)
        ensures
            next.plan() == sifted(manager@, entries.deep_view(), kept.deep_view()),
    {
        let mut left = entries;
        while left.len() > 0
            invariant
                sifted(manager@, entries.deep_view(), kept.deep_view()) == sifted(
                    manager@,
                    left.deep_view(),
                    kept.deep_view(),
                ),
            decreases left@.len(),
        {
            let ghost before = left.deep_view();
            let entry = left.remove(0);
            assert(left.deep_view() == before.skip(1));
            assert(before[0] == entry.deep_view());
            if same(&entry.category, "agent") {
                return Next::Do(
                    Action::ResolveMeta { email: entry.domain_addr.clone() },
                    ListWhitelists::Sift { manager, entry, entries: left, kept },
                );
            }
        }
        success(200, Body::Entries(kept))
    }
}

impl Waiting for ListWhitelists {
    open spec fn rest(self) -> spec_fn(EventView) -> Plan {
        match self {
            ListWhitelists::Own { key_id } => own_entries_listed(key_id),
            ListWhitelists::ToSift { manager } => entries_to_sift_listed(manager@),
            ListWhitelists::All => all_entries_listed(),
            ListWhitelists::Sift { manager, entry, entries, kept } => entry_sifted(
                manager@,
                entry.deep_view(),
                entries.deep_view(),
                kept.deep_view(),
            ),
        }
    }
}

impl Machine for ListWhitelists {
    fn resume(self, event: Event) -> (next: Next<ListWhitelists>) {
        match (self, event) {
            (ListWhitelists::Own { key_id }, Event::Entries(Ok(entries))) => {
                success(200, Body::Entries(own_entries(entries, key_id)))
            },
            (ListWhitelists::Own { .. }, Event::Entries(Err(e))) => storage_failure(e),
            (ListWhitelists::ToSift { manager }, Event::Entries(Ok(entries))) => {
                let kept: Vec<WhitelistRecord> = Vec::new();
                assert(kept.deep_view() == Seq::<WhitelistRecord<Seq<char>>>::empty());
                Self::sift(manager, entries, kept)
            },
            (ListWhitelists::ToSift { .. }, Event::Entries(Err(e))) => storage_failure(e),
            (ListWhitelists::All, Event::Entries(Ok(entries))) => {
                success(200, Body::Entries(entries))
            },
            (ListWhitelists::All, Event::Entries(Err(e))) => storage_failure(e),
            (
                ListWhitelists::Sift { manager, entry, entries, kept },
                Event::MaybeMeta(meta),
            ) => {
                let mut kept = kept;
                if has_manager(&meta, &manager) {
                    let ghost before = kept.deep_view();
                    kept.push(entry);
                    assert(kept.deep_view() == before.push(entry.deep_view()));
                }
                Self::sift(manager, entries, kept)
            },
            _ => Next::Mismatch,
        }
    }
}

// Checking a value

/// Every scope may check: a system admin for its domain, an agent admin for the
/// agents that it manages, an agent for itself. A key must pass for each of its
/// scopes.
pub open spec fn check_whitelist_plan(
    key: ApiKeyRecord<Seq<char>>,
    system_sender: Seq<char>,
    query: CheckWhitelistQuery<Seq<char>>,
) -> Plan {
    if !key.scopes.platform_admin && !key.scopes.system_admin && !key.scopes.agent_admin
        && !key.scopes.agent {
        insufficient_scope(
            Some("Whitelist check requires admin, system, agent_admin, or agent scope"@),
        )
    } else if key.scopes.system_admin {
        gate(
            Action::RequireDomainMatch { domain: query.domain_addr },
            check_by_manager(key, system_sender, query),
        )
    } else {
        check_by_manager(key, system_sender, query)
    }
}

pub open spec fn check_by_manager(
    key: ApiKeyRecord<Seq<char>>,
    system_sender: Seq<char>,
    query: CheckWhitelistQuery<Seq<char>>,
) -> Plan {
    if key.scopes.agent_admin {
        Plan::Do(
            Action::ResolveMeta { email: query.domain_addr },
            manager_known(
                key.email_address,
                query.domain_addr,
                check_by_agent(key, system_sender, query),
            ),
        )
    } else {
        check_by_agent(key, system_sender, query)
    }
}

/// The system's own sender is whitelisted by construction, in any direction,
/// whatever is stored.
pub open spec fn check_by_agent(
    key: ApiKeyRecord<Seq<char>>,
    system_sender: Seq<char>,
    query: CheckWhitelistQuery<Seq<char>>,
) -> Plan {
    if key.scopes.agent && key.email_address != query.domain_addr {
        fail(
            403,
            "forbidden"@,
            Some("Agent can only check whitelist for their own email address"@),
        )
    } else if is_system_sender(query.value, system_sender) {
        succeed(
            200,
            BodyView::Value(
                JsonTree::Object(
                    check_fields(
                        Map::empty().insert("whitelisted"@, JsonTree::Bool(true)).insert(
                            "system_sender"@,
                            JsonTree::Bool(true),
                        ),
                        query,
                    ),
                ),
            ),
        )
    } else {
        Plan::Do(
            Action::CheckWhitelisted {
                domain_addr: query.domain_addr,
                value: query.value,
                direction: query.direction,
            },
            value_checked(query),
        )
    }
}

/// The fields of a check's reply that repeat the query.
pub open spec fn check_fields(
    fields: Map<Seq<char>, JsonTree>,
    query: CheckWhitelistQuery<Seq<char>>,
) -> Map<Seq<char>, JsonTree> {
    fields.insert("domain_addr"@, JsonTree::Text(query.domain_addr)).insert(
        "value"@,
        JsonTree::Text(query.value),
    ).insert("direction"@, JsonTree::Text(query.direction))
}

pub open spec fn value_checked(
    query: CheckWhitelistQuery<Seq<char>>,
) -> spec_fn(EventView) -> Plan {
    |event: EventView|
        match event {
            EventView::Found(Ok(whitelisted)) => succeed(
                200,
                BodyView::Value(
                    JsonTree::Object(
                        check_fields(
                            Map::empty().insert("whitelisted"@, JsonTree::Bool(whitelisted)),
                            query,
                        ),
                    ),
                ),
            ),
            EventView::Found(Err(e)) => storage_failed(e),
            _ => Plan::Mismatch,
        }
}

/// The check of a value, under way.
#[derive(Debug, PartialEq)]
pub enum CheckWhitelist {
    DomainMatch { key: ApiKeyRecord, system_sender: String, query: CheckWhitelistQuery },
    Manager { key: ApiKeyRecord, system_sender: String, query: CheckWhitelistQuery },
    Check { query: CheckWhitelistQuery },
}

/// `GET /api/v1/whitelists/check`: whether a value is whitelisted.
pub fn check_whitelist(
    api_key: ApiKeyRecord,
    system_sender: String,
    query: CheckWhitelistQuery,
) -> (next: Next<CheckWhitelist>)
    ensures
        next.plan() == check_whitelist_plan(
            api_key.deep_view(),
            system_sender@,
            query.deep_view(),
        ),
{
    if !api_key.scopes.platform_admin && !api_key.scopes.system_admin
        && !api_key.scopes.agent_admin && !api_key.scopes.agent {
        failure(
            403,
            "Insufficient scope",
            Some(
                "Whitelist check requires admin, system, agent_admin, or agent scope".to_string(),
            ),
        )
    } else if api_key.scopes.system_admin {
        Next::Do(
            Action::RequireDomainMatch { domain: query.domain_addr.clone() },
            CheckWhitelist::DomainMatch { key: api_key, system_sender, query },
        )
    } else {
        CheckWhitelist::ask_manager(api_key, system_sender, query)
    }
}

impl CheckWhitelist {
    fn ask_manager(
        key: ApiKeyRecord,
        system_sender: String,
        query: CheckWhitelistQuery,
    ) -> (next: Next<CheckWhitelist>)
        ensures
            next.plan() == check_by_manager(key.deep_view(), system_sender@, query.deep_view()),
    {
        if key.scopes.agent_admin {
            Next::Do(
                Action::ResolveMeta { email: query.domain_addr.clone() },
                CheckWhitelist::Manager { key, system_sender, query },
            )
        } else {
            Self::check(key, system_sender, query)
        }
    }

    fn check(
        key: ApiKeyRecord,
        system_sender: String,
        query: CheckWhitelistQuery,
    ) -> (next: Next<CheckWhitelist>)
        ensures
            next.plan() == check_by_agent(key.deep_view(), system_sender@, query.deep_view()),
    {
        if key.scopes.agent && !same(&key.email_address, &query.domain_addr) {
            failure(
                403,
                "forbidden",
                Some("Agent can only check whitelist for their own email address".to_string()),
            )
        } else if names_system_sender(&query.value, &system_sender) {
            let mut object = new_object();
            set_field(&mut object, "whitelisted".to_string(), bool_value(true));
            set_field(&mut object, "system_sender".to_string(), bool_value(true));
            Self::answer(object, query)
        } else {
            Next::Do(
                Action::CheckWhitelisted {
                    domain_addr: query.domain_addr.clone(),
                    value: query.value.clone(),
                    direction: query.direction.clone(),
                },
                CheckWhitelist::Check { query },
            )
        }
    }

    fn answer(
        object: serde_json::Map<String, serde_json::Value>,
        query: CheckWhitelistQuery,
    ) -> (next: Next<CheckWhitelist>)
        ensures
            next.plan() == succeed(
                200,
                BodyView::Value(
                    JsonTree::Object(
                        check_fields(crate::json::object_fields(object), query.deep_view()),
                    ),
                ),
            ),
    {
        let mut object = object;
        set_field(&mut object, "domain_addr".to_string(), text_value(query.domain_addr));
        set_field(&mut object, "value".to_string(), text_value(query.value));
        set_field(&mut object, "direction".to_string(), text_value(query.direction));
        success(200, Body::Value(object_value(object)))
    }
}

impl Waiting for CheckWhitelist {
    open spec fn rest(self) -> spec_fn(EventView) -> Plan {
        match self {
            CheckWhitelist::DomainMatch { key, system_sender, query } => granted(
                check_by_manager(key.deep_view(), system_sender@, query.deep_view()),
            ),
            CheckWhitelist::Manager { key, system_sender, query } => manager_known(
                key.email_address@,
                query.domain_addr@,
                check_by_agent(key.deep_view(), system_sender@, query.deep_view()),
            ),
            CheckWhitelist::Check { query } => value_checked(query.deep_view()),
        }
    }
}

impl Machine for CheckWhitelist {
    fn resume(self, event: Event) -> (next: Next<CheckWhitelist>) {
        match (self, event) {
            (CheckWhitelist::DomainMatch { .. }, Event::Access(Err(refused))) => Next::Reply(
                Reply::Failed(refused),
            ),
            (
                CheckWhitelist::DomainMatch { key, system_sender, query },
                Event::Access(Ok(())),
            ) => Self::ask_manager(key, system_sender, query),
            (CheckWhitelist::Manager { key, system_sender, query }, Event::MaybeMeta(meta)) => {
                match refusal(&key.email_address, &query.domain_addr, meta) {
                    Some(refused) => refused,
                    None => Self::check(key, system_sender, query),
                }
            },
            (CheckWhitelist::Check { query }, Event::Found(Ok(whitelisted))) => {
                let mut object = new_object();
                set_field(&mut object, "whitelisted".to_string(), bool_value(whitelisted));
                Self::answer(object, query)
            },
            (CheckWhitelist::Check { .. }, Event::Found(Err(e))) => storage_failure(e),
            _ => Next::Mismatch,
        }
    }
}

} // verus!
