//! Whitelist entries: changing and deleting.

use vstd::prelude::*;

use crate::access::{manager_known, refusal};
use crate::protocol::{
    fail, failure, gate, granted, storage_failed, storage_failure, succeed, success, Action, Event,
    EventView, Machine, Next, Plan, Waiting,
};
use crate::text::same;
use crate::types::{
    ApiKeyRecord, Body, BodyView, DeleteWhitelistByParams, Reply, UpdateWhitelistByParams,
    UpdateWhitelistRequest, WhitelistRecord,
};
use crate::whitelist::insufficient_scope;

verus! {

/// What is to happen to an entry.
#[derive(Debug, PartialEq)]
pub enum Edit<S = String> {
    Update(UpdateWhitelistRequest<S>),
    Delete,
}

impl DeepView for Edit {
    type V = Edit<Seq<char>>;

    open spec fn deep_view(&self) -> Edit<Seq<char>> {
        match *self {
            Edit::Update(req) => Edit::Update(req.deep_view()),
            Edit::Delete => Edit::Delete,
        }
    }
}

/// The edit is carried out, and the reply shows how it went.
pub open spec fn edited(id: i64, edit: Edit<Seq<char>>) -> Plan {
    match edit {
        Edit::Update(req) => Plan::Do(
            Action::UpdateWhitelistEntry {
                id,
                is_active: req.is_active,
                direction: req.direction,
            },
            entry_updated(),
        ),
        Edit::Delete => Plan::Do(Action::DeleteWhitelistEntry { id }, entry_deleted()),
    }
}

pub open spec fn entry_updated() -> spec_fn(EventView) -> Plan {
    |event: EventView|
        match event {
            EventView::MaybeEntry(Ok(Some(entry))) => succeed(200, BodyView::Entry(entry)),
            EventView::MaybeEntry(Ok(None)) => entry_not_found(),
            EventView::MaybeEntry(Err(e)) => storage_failed(e),
            _ => Plan::Mismatch,
        }
}

pub open spec fn entry_deleted() -> spec_fn(EventView) -> Plan {
    |event: EventView|
        match event {
            EventView::Done(Ok(_)) => succeed(204, BodyView::Empty),
            EventView::Done(Err(e)) => storage_failed(e),
            _ => Plan::Mismatch,
        }
}

/// The reply where there is no such entry for the key.
pub open spec fn entry_not_found() -> Plan {
    fail(404, "Whitelist entry not found"@, None)
}

/// The reply where an admin is after an agent's entry.
pub open spec fn agent_category_kept(edit: Edit<Seq<char>>) -> Plan {
    fail(
        403,
        match edit {
            Edit::Update(_) => "Admin cannot update agent-category whitelist entries"@,
            Edit::Delete => "Admin cannot delete agent-category whitelist entries"@,
        },
        Some("Use the agent or agent_admin scope to manage agent whitelists"@),
    )
}

/// An edit of an entry on behalf of an admin, who leaves the entries of agents
/// alone.
pub open spec fn admin_edited(entry: WhitelistRecord<Seq<char>>, edit: Edit<Seq<char>>) -> Plan {
    if entry.category == "agent"@ {
        agent_category_kept(edit)
    } else {
        edited(entry.id, edit)
    }
}

fn reject_not_found<M: Waiting>() -> (next: Next<M>)
    ensures
        next.plan() == entry_not_found(),
{
    failure(404, "Whitelist entry not found", None)
}

fn reject_agent_category<M: Waiting>(edit: &Edit) -> (next: Next<M>)
    ensures
        next.plan() == agent_category_kept(edit.deep_view()),
{
    let error = match edit {
        Edit::Update(_) => "Admin cannot update agent-category whitelist entries",
        Edit::Delete => "Admin cannot delete agent-category whitelist entries",
    };
    failure(
        403,
        error,
        Some("Use the agent or agent_admin scope to manage agent whitelists".to_string()),
    )
}

/// The edit of an entry, when it is carried out.
#[derive(Debug, PartialEq)]
pub enum CarryOut {
    Update,
    Delete,
}

impl CarryOut {
    /// What the outcome leads to.
    pub open spec fn outcome(self) -> spec_fn(EventView) -> Plan {
        match self {
            CarryOut::Update => entry_updated(),
            CarryOut::Delete => entry_deleted(),
        }
    }

    fn begin(id: i64, edit: Edit) -> (step: (Action, CarryOut))
        ensures
            edited(id, edit.deep_view()) == Plan::Do(step.0.deep_view(), step.1.outcome()),
    {
        match edit {
            Edit::Update(req) => (
                Action::UpdateWhitelistEntry {
                    id,
                    is_active: req.is_active,
                    direction: req.direction,
                },
                CarryOut::Update,
            ),
            Edit::Delete => (Action::DeleteWhitelistEntry { id }, CarryOut::Delete),
        }
    }

    fn finish<M: Waiting>(self, event: Event) -> (next: Next<M>)
        ensures
            next.plan() == (self.outcome())(event.deep_view()),
    {
        match (self, event) {
            (CarryOut::Update, Event::MaybeEntry(Ok(Some(entry)))) => {
                success(200, Body::Entry(entry))
            },
            (CarryOut::Update, Event::MaybeEntry(Ok(None))) => reject_not_found(),
            (CarryOut::Update, Event::MaybeEntry(Err(e))) => storage_failure(e),
            (CarryOut::Delete, Event::Done(Ok(()))) => success(204, Body::Empty),
            (CarryOut::Delete, Event::Done(Err(e))) => storage_failure(e),
            _ => Next::Mismatch,
        }
    }
}

// By id

/// Agents change their own entries, agent admins those of the agents that they
/// manage, other admins any.
pub open spec fn update_whitelist_plan(
    key: ApiKeyRecord<Seq<char>>,
    id: i64,
    req: UpdateWhitelistRequest<Seq<char>>,
) -> Plan {
    if key.scopes.agent || key.scopes.agent_admin {
        Plan::Do(Action::GetWhitelistEntry { id }, own_entry_got(key, id, Edit::Update(req)))
    } else if key.scopes.system_admin || key.scopes.platform_admin {
        edited(id, Edit::Update(req))
    } else {
        insufficient_scope(None)
    }
}

/// Agents delete their own entries, agent admins those of the agents that they
/// manage. A system admin needs access to the entry's address. No platform or
/// system admin deletes an entry of the agent category.
pub open spec fn delete_whitelist_plan(key: ApiKeyRecord<Seq<char>>, id: i64) -> Plan {
    if key.scopes.agent || key.scopes.agent_admin {
        Plan::Do(Action::GetWhitelistEntry { id }, own_entry_got(key, id, Edit::Delete))
    } else if key.scopes.system_admin {
        Plan::Do(Action::GetWhitelistEntry { id }, system_entry_got(key, id, Edit::Delete))
    } else if key.scopes.platform_admin {
        admitted(key, id, Edit::Delete)
    } else {
        insufficient_scope(None)
    }
}

/// An agent without the agent admin scope reaches only what its own key created.
pub open spec fn own_entry_got(
    key: ApiKeyRecord<Seq<char>>,
    id: i64,
    edit: Edit<Seq<char>>,
) -> spec_fn(EventView) -> Plan {
    |event: EventView|
        match event {
            EventView::MaybeEntry(Ok(Some(entry))) => if key.scopes.agent_admin {
                Plan::Do(
                    Action::ResolveMeta { email: entry.domain_addr },
                    manager_known(
                        key.email_address,
                        entry.domain_addr,
                        access_wanted(key, entry.domain_addr, id, edit),
                    ),
                )
            } else if entry.api_key_id != Some(key.id) {
                entry_not_found()
            } else {
                access_wanted(key, entry.domain_addr, id, edit)
            },
            EventView::MaybeEntry(Ok(None)) => entry_not_found(),
            EventView::MaybeEntry(Err(e)) => storage_failed(e),
            _ => Plan::Mismatch,
        }
}

pub open spec fn system_entry_got(
    key: ApiKeyRecord<Seq<char>>,
    id: i64,
    edit: Edit<Seq<char>>,
) -> spec_fn(EventView) -> Plan {
    |event: EventView|
        match event {
            EventView::MaybeEntry(Ok(Some(entry))) => access_wanted(
                key,
                entry.domain_addr,
                id,
                edit,
            ),
            EventView::MaybeEntry(Ok(None)) => entry_not_found(),
            EventView::MaybeEntry(Err(e)) => storage_failed(e),
            _ => Plan::Mismatch,
        }
}

pub open spec fn access_wanted(
    key: ApiKeyRecord<Seq<char>>,
    domain_addr: Seq<char>,
    id: i64,
    edit: Edit<Seq<char>>,
) -> Plan {
    gate(Action::CheckWhitelistAccess { domain_addr }, admitted(key, id, edit))
}

/// Before an admin deletes an entry, its category is looked up.
pub open spec fn admitted(
    key: ApiKeyRecord<Seq<char>>,
    id: i64,
    edit: Edit<Seq<char>>,
) -> Plan {
    if edit is Delete && (key.scopes.platform_admin || key.scopes.system_admin) {
        Plan::Do(Action::GetWhitelistEntry { id }, category_got(id, edit))
    } else {
        edited(id, edit)
    }
}

pub open spec fn category_got(id: i64, edit: Edit<Seq<char>>) -> spec_fn(EventView) -> Plan {
    |event: EventView|
        match event {
            EventView::MaybeEntry(Ok(Some(entry))) => if entry.category == "agent"@ {
                agent_category_kept(edit)
            } else {
                edited(id, edit)
            },
            EventView::MaybeEntry(Ok(None)) => entry_not_found(),
            EventView::MaybeEntry(Err(e)) => storage_failed(e),
            _ => Plan::Mismatch,
        }
}

/// The edit of an entry that is named by its id, under way.
#[derive(Debug, PartialEq)]
pub enum EditWhitelist {
    OwnEntry { key: ApiKeyRecord, id: i64, edit: Edit },
    SystemEntry { key: ApiKeyRecord, id: i64, edit: Edit },
    Manager { key: ApiKeyRecord, domain_addr: String, id: i64, edit: Edit },
    Access { key: ApiKeyRecord, id: i64, edit: Edit },
    Category { id: i64, edit: Edit },
    CarryOut(CarryOut),
}

/// `PUT /api/v1/whitelists/:id`: changes a whitelist entry.
pub fn update_whitelist(
    api_key: ApiKeyRecord,
    id: i64,
    req: UpdateWhitelistRequest,
) -> (next: Next<EditWhitelist>)
    ensures
        next.plan() == update_whitelist_plan(api_key.deep_view(), id, req.deep_view()),
{
    if api_key.scopes.agent || api_key.scopes.agent_admin {
        Next::Do(
            Action::GetWhitelistEntry { id },
            EditWhitelist::OwnEntry { key: api_key, id, edit: Edit::Update(req) },
        )
    } else if api_key.scopes.system_admin || api_key.scopes.platform_admin {
        EditWhitelist::carry_out(id, Edit::Update(req))
    } else {
        failure(403, "Insufficient scope", None)
    }
}

/// `DELETE /api/v1/whitelists/:id`: deletes a whitelist entry.
pub fn delete_whitelist(api_key: ApiKeyRecord, id: i64) -> (next: Next<EditWhitelist>)
    ensures
        next.plan() == delete_whitelist_plan(api_key.deep_view(), id),
{
    if api_key.scopes.agent || api_key.scopes.agent_admin {
        Next::Do(
            Action::GetWhitelistEntry { id },
            EditWhitelist::OwnEntry { key: api_key, id, edit: Edit::Delete },
        )
    } else if api_key.scopes.system_admin {
        Next::Do(
            Action::GetWhitelistEntry { id },
            EditWhitelist::SystemEntry { key: api_key, id, edit: Edit::Delete },
        )
    } else if api_key.scopes.platform_admin {
        EditWhitelist::proceed(api_key, id, Edit::Delete)
    } else {
        failure(403, "Insufficient scope", None)
    }
}

impl EditWhitelist {
    fn carry_out(id: i64, edit: Edit) -> (next: Next<EditWhitelist>)
        ensures
            next.plan() == edited(id, edit.deep_view()),
    {
        let (action, step) = CarryOut::begin(id, edit);
        Next::Do(action, EditWhitelist::CarryOut(step))
    }

    fn proceed(key: ApiKeyRecord, id: i64, edit: Edit) -> (next: Next<EditWhitelist>)
        ensures
            next.plan() == admitted(key.deep_view(), id, edit.deep_view()),
    {
        if matches!(edit, Edit::Delete) && (key.scopes.platform_admin
            || key.scopes.system_admin) {
            Next::Do(Action::GetWhitelistEntry { id }, EditWhitelist::Category { id, edit })
        } else {
            Self::carry_out(id, edit)
        }
    }

    fn ask_access(key: ApiKeyRecord, domain_addr: String, id: i64, edit: Edit) -> (next: Next<
        EditWhitelist,
    >)
        ensures
            next.plan() == access_wanted(key.deep_view(), domain_addr@, id, edit.deep_view()),
    {
        Next::Do(
            Action::CheckWhitelistAccess { domain_addr },
            EditWhitelist::Access { key, id, edit },
        )
    }
}

impl Waiting for EditWhitelist {
    open spec fn rest(self) -> spec_fn(EventView) -> Plan {
        match self {
            EditWhitelist::OwnEntry { key, id, edit } => own_entry_got(
                key.deep_view(),
                id,
                edit.deep_view(),
            ),
            EditWhitelist::SystemEntry { key, id, edit } => system_entry_got(
                key.deep_view(),
                id,
                edit.deep_view(),
            ),
            EditWhitelist::Manager { key, domain_addr, id, edit } => manager_known(
                key.email_address@,
                domain_addr@,
                access_wanted(key.deep_view(), domain_addr@, id, edit.deep_view()),
            ),
            EditWhitelist::Access { key, id, edit } => granted(
                admitted(key.deep_view(), id, edit.deep_view()),
            ),
            EditWhitelist::Category { id, edit } => category_got(id, edit.deep_view()),
            EditWhitelist::CarryOut(step) => step.outcome(),
        }
    }
}

impl Machine for EditWhitelist {
    fn resume(self, event: Event) -> (next: Next<EditWhitelist>) {
        match (self, event) {
            (EditWhitelist::CarryOut(step), event) => step.finish(event),
            (
                EditWhitelist::OwnEntry { key, id, edit },
                Event::MaybeEntry(Ok(Some(entry))),
            ) => {
                if key.scopes.agent_admin {
                    Next::Do(
                        Action::ResolveMeta { email: entry.domain_addr.clone() },
                        EditWhitelist::Manager { key, domain_addr: entry.domain_addr, id, edit },
                    )
                } else if entry.api_key_id != Some(key.id) {
                    reject_not_found()
                } else {
                    Self::ask_access(key, entry.domain_addr, id, edit)
                }
            },
            (EditWhitelist::OwnEntry { .. }, Event::MaybeEntry(Ok(None))) => reject_not_found(),
            (EditWhitelist::OwnEntry { .. }, Event::MaybeEntry(Err(e))) => storage_failure(e),
            (
                EditWhitelist::SystemEntry { key, id, edit },
                Event::MaybeEntry(Ok(Some(entry))),
            ) => Self::ask_access(key, entry.domain_addr, id, edit),
            (EditWhitelist::SystemEntry { .. }, Event::MaybeEntry(Ok(None))) => {
                reject_not_found()
            },
            (EditWhitelist::SystemEntry { .. }, Event::MaybeEntry(Err(e))) => storage_failure(e),
            (EditWhitelist::Manager { key, domain_addr, id, edit }, Event::MaybeMeta(meta)) => {
                match refusal(&key.email_address, &domain_addr, meta) {
                    Some(refused) => refused,
                    None => Self::ask_access(key, domain_addr, id, edit),
                }
            },
            (EditWhitelist::Access { .. }, Event::Access(Err(refused))) => Next::Reply(
                Reply::Failed(refused),
            ),
            (EditWhitelist::Access { key, id, edit }, Event::Access(Ok(()))) => {
                Self::proceed(key, id, edit)
            },
            (EditWhitelist::Category { id, edit }, Event::MaybeEntry(Ok(Some(entry)))) => {
                if same(&entry.category, "agent") {
                    reject_agent_category(&edit)
                } else {
                    Self::carry_out(id, edit)
                }
            },
            (EditWhitelist::Category { .. }, Event::MaybeEntry(Ok(None))) => reject_not_found(),
            (EditWhitelist::Category { .. }, Event::MaybeEntry(Err(e))) => storage_failure(e),
            _ => Next::Mismatch,
        }
    }
}

// By address and value

/// The first entry of a list that has a value and, where an owner is given,
/// was created by the owner's key.
pub open spec fn first_entry(
    entries: Seq<WhitelistRecord<Seq<char>>>,
    value: Seq<char>,
    owner: Option<i64>,
) -> Option<WhitelistRecord<Seq<char>>>
    decreases entries.len(),
{
    if entries.len() == 0 {
        None
    } else if entries[0].value == value && (owner is None || entries[0].api_key_id == owner) {
        Some(entries[0])
    } else {
        first_entry(entries.skip(1), value, owner)
    }
}

fn find_entry<'a>(entries: &'a Vec<WhitelistRecord>, value: &str, owner: Option<i64>) -> (found:
    Option<&'a WhitelistRecord>)
    ensures
        found.deep_view() == first_entry(entries.deep_view(), value@, owner),
{
    let ghost all = entries.deep_view();
    let mut i: usize = 0;
    assert(all.skip(0) == all);
    while i < entries.len()
        invariant
            i <= entries@.len(),
            all == entries.deep_view(),
            first_entry(all, value@, owner) == first_entry(all.skip(i as int), value@, owner),
        decreases entries@.len() - i,
    {
        assert(all.skip(i as int).skip(1) == all.skip(i + 1));
        let entry = &entries[i];
        assert(all.skip(i as int)[0] == entry.deep_view());
        if same(&entry.value, value) && (owner.is_none() || entry.api_key_id == owner) {
            return Some(entry);
        }
        i += 1;
    }
    None
}

/// Agents and agent admins edit as they do by id, on the first entry of the
/// address with the value. Other admins need access to the address, and leave
/// the entries of agents alone.
pub open spec fn edit_by_params(
    key: ApiKeyRecord<Seq<char>>,
    domain_addr: Seq<char>,
    value: Seq<char>,
    edit: Edit<Seq<char>>,
) -> Plan {
    if key.scopes.agent_admin {
        Plan::Do(
            Action::ResolveMeta { email: domain_addr },
            manager_known(
                key.email_address,
                domain_addr,
                own_listing(domain_addr, value, None, edit),
            ),
        )
    } else if key.scopes.agent {
        own_listing(domain_addr, value, Some(key.id), edit)
    } else if key.scopes.system_admin || key.scopes.platform_admin {
        gate(
            Action::CheckWhitelistAccess { domain_addr },
            admin_listing(domain_addr, value, edit),
        )
    } else {
        insufficient_scope(None)
    }
}

/// Deleting an entry by its address and value.
pub open spec fn delete_whitelist_by_params_plan(
    key: ApiKeyRecord<Seq<char>>,
    query: DeleteWhitelistByParams<Seq<char>>,
) -> Plan {
    edit_by_params(key, query.domain_addr, query.value, Edit::Delete)
}

/// Changing an entry by its address and value.
pub open spec fn update_whitelist_by_params_plan(
    key: ApiKeyRecord<Seq<char>>,
    query: UpdateWhitelistByParams<Seq<char>>,
    req: UpdateWhitelistRequest<Seq<char>>,
) -> Plan {
    edit_by_params(key, query.domain_addr, query.value, Edit::Update(req))
}

pub open spec fn own_listing(
    domain_addr: Seq<char>,
    value: Seq<char>,
    owner: Option<i64>,
    edit: Edit<Seq<char>>,
) -> Plan {
    Plan::Do(
        Action::ListWhitelistEntries { domain: domain_addr },
        own_listed(value, owner, edit),
    )
}

pub open spec fn own_listed(
    value: Seq<char>,
    owner: Option<i64>,
    edit: Edit<Seq<char>>,
) -> spec_fn(EventView) -> Plan {
    |event: EventView|
        match event {
            EventView::Entries(Ok(entries)) => match first_entry(entries, value, owner) {
                Some(entry) => edited(entry.id, edit),
                None => entry_not_found(),
            },
            EventView::Entries(Err(e)) => storage_failed(e),
            _ => Plan::Mismatch,
        }
}

pub open spec fn admin_listing(
    domain_addr: Seq<char>,
    value: Seq<char>,
    edit: Edit<Seq<char>>,
) -> Plan {
    Plan::Do(
        Action::ListWhitelistEntries { domain: domain_addr },
        admin_listed(value, edit),
    )
}

pub open spec fn admin_listed(
    value: Seq<char>,
    edit: Edit<Seq<char>>,
) -> spec_fn(EventView) -> Plan {
    |event: EventView|
        match event {
            EventView::Entries(Ok(entries)) => match first_entry(entries, value, None) {
                Some(entry) => admin_edited(entry, edit),
                None => entry_not_found(),
            },
            EventView::Entries(Err(e)) => storage_failed(e),
            _ => Plan::Mismatch,
        }
}

/// The edit of an entry that is named by its address and value, under way.
#[derive(Debug, PartialEq)]
pub enum EditWhitelistByParams {
    Manager { key: ApiKeyRecord, domain_addr: String, value: String, edit: Edit },
    OwnEntries { value: String, owner: Option<i64>, edit: Edit },
    Access { domain_addr: String, value: String, edit: Edit },
    Entries { value: String, edit: Edit },
    CarryOut(CarryOut),
}

/// `DELETE /api/v1/whitelists`: deletes an entry by its address and value.
pub fn delete_whitelist_by_params(
    api_key: ApiKeyRecord,
    query: DeleteWhitelistByParams,
) -> (next: Next<EditWhitelistByParams>)
    ensures
        next.plan() == delete_whitelist_by_params_plan(api_key.deep_view(), query.deep_view()),
{
    EditWhitelistByParams::begin(api_key, query.domain_addr, query.value, Edit::Delete)
}

/// `PUT /api/v1/whitelists`: changes an entry by its address and value.
pub fn update_whitelist_by_params(
    api_key: ApiKeyRecord,
    query: UpdateWhitelistByParams,
    req: UpdateWhitelistRequest,
) -> (next: Next<EditWhitelistByParams>)
    ensures
        next.plan() == update_whitelist_by_params_plan(
            api_key.deep_view(),
            query.deep_view(),
            req.deep_view(),
        ),
{
    EditWhitelistByParams::begin(api_key, query.domain_addr, query.value, Edit::Update(req))
}

impl EditWhitelistByParams {
    fn begin(key: ApiKeyRecord, domain_addr: String, value: String, edit: Edit) -> (next: Next<
        EditWhitelistByParams,
    >)
        ensures
            next.plan() == edit_by_params(
                key.deep_view(),
                domain_addr@,
                value@,
                edit.deep_view(),
            ),
    {
        if key.scopes.agent_admin {
            Next::Do(
                Action::ResolveMeta { email: domain_addr.clone() },
                EditWhitelistByParams::Manager { key, domain_addr, value, edit },
            )
        } else if key.scopes.agent {
            Self::list_own(domain_addr, value, Some(key.id), edit)
        } else if key.scopes.system_admin || key.scopes.platform_admin {
            Next::Do(
                Action::CheckWhitelistAccess { domain_addr: domain_addr.clone() },
                EditWhitelistByParams::Access { domain_addr, value, edit },
            )
        } else {
            failure(403, "Insufficient scope", None)
        }
    }

    fn list_own(domain_addr: String, value: String, owner: Option<i64>, edit: Edit) -> (next: Next<
        EditWhitelistByParams,
    >)
        ensures
            next.plan() == own_listing(domain_addr@, value@, owner, edit.deep_view()),
    {
        Next::Do(
            Action::ListWhitelistEntries { domain: domain_addr },
            EditWhitelistByParams::OwnEntries { value, owner, edit },
        )
    }

    fn carry_out(id: i64, edit: Edit) -> (next: Next<EditWhitelistByParams>)
        ensures
            next.plan() == edited(id, edit.deep_view()),
    {
        let (action, step) = CarryOut::begin(id, edit);
        Next::Do(action, EditWhitelistByParams::CarryOut(step))
    }
}

impl Waiting for EditWhitelistByParams {
    open spec fn rest(self) -> spec_fn(EventView) -> Plan {
        match self {
            EditWhitelistByParams::Manager { key, domain_addr, value, edit } => manager_known(
                key.email_address@,
                domain_addr@,
                own_listing(domain_addr@, value@, None, edit.deep_view()),
            ),
            EditWhitelistByParams::OwnEntries { value, owner, edit } => own_listed(
                value@,
                owner,
                edit.deep_view(),
            ),
            EditWhitelistByParams::Access { domain_addr, value, edit } => granted(
                admin_listing(domain_addr@, value@, edit.deep_view()),
            ),
            EditWhitelistByParams::Entries { value, edit } => admin_listed(
                value@,
                edit.deep_view(),
            ),
            EditWhitelistByParams::CarryOut(step) => step.outcome(),
        }
    }
}

impl Machine for EditWhitelistByParams {
    fn resume(self, event: Event) -> (next: Next<EditWhitelistByParams>) {
        match (self, event) {
            (EditWhitelistByParams::CarryOut(step), event) => step.finish(event),
            (
                EditWhitelistByParams::Manager { key, domain_addr, value, edit },
                Event::MaybeMeta(meta),
            ) => {
                match refusal(&key.email_address, &domain_addr, meta) {
                    Some(refused) => refused,
                    None => Self::list_own(domain_addr, value, None, edit),
                }
            },
            (
                EditWhitelistByParams::OwnEntries { value, owner, edit },
                Event::Entries(Ok(entries)),
            ) => match find_entry(&entries, &value, owner) {
                Some(entry) => Self::carry_out(entry.id, edit),
                None => reject_not_found(),
            },
            (EditWhitelistByParams::OwnEntries { .. }, Event::Entries(Err(e))) => {
                storage_failure(e)
            },
            (EditWhitelistByParams::Access { .. }, Event::Access(Err(refused))) => Next::Reply(
                Reply::Failed(refused),
            ),
            (
                EditWhitelistByParams::Access { domain_addr, value, edit },
                Event::Access(Ok(())),
            ) => Next::Do(
                Action::ListWhitelistEntries { domain: domain_addr },
                EditWhitelistByParams::Entries { value, edit },
            ),
            (
                EditWhitelistByParams::Entries { value, edit },
                Event::Entries(Ok(entries)),
            ) => match find_entry(&entries, &value, None) {
                Some(entry) => {
                    if same(&entry.category, "agent") {
                        reject_agent_category(&edit)
                    } else {
                        Self::carry_out(entry.id, edit)
                    }
                },
                None => reject_not_found(),
            },
            (EditWhitelistByParams::Entries { .. }, Event::Entries(Err(e))) => storage_failure(e),
            _ => Next::Mismatch,
        }
    }
}

} // verus!
