//! How a request is worked off.
//!
//! A handler decides; it performs nothing. It names one `Action` at a time, is
//! resumed with the `Event` that the action led to, and ends in a `Reply`. What
//! a handler does on every sequence of events is stated as a `Plan`.

use vstd::prelude::*;

use crate::types::{
    Body, DomainAddrMetaRecord, ErrorResponse, Failure, PendingDelivery, Reply, ReplyView,
    StoreError, SystemDomainRecord, WhitelistRecord,
};

verus! {

/// The scopes of which a key must hold one.
#[derive(Debug, Clone, Copy, PartialEq, Eq, Structural)]
pub enum ScopeRule {
    System,
    SystemOrAgentAdmin,
    PlatformOrSystem,
    SystemOrBridge,
    Agent,
    AgentOrAdmin,
}

impl ScopeRule {
    /// The names of the scopes.
    pub open spec fn scopes(self) -> Seq<Seq<char>> {
        match self {
            ScopeRule::System => seq!["system"@],
            ScopeRule::SystemOrAgentAdmin => seq!["system"@, "agent_admin"@],
            ScopeRule::PlatformOrSystem => seq!["platform"@, "system"@],
            ScopeRule::SystemOrBridge => seq!["system"@, "bridge"@],
            ScopeRule::Agent => seq!["agent"@],
            ScopeRule::AgentOrAdmin => seq!["agent"@, "agent_admin"@, "system"@, "platform"@],
        }
    }

    /// The names of the scopes, as a list.
    pub fn names(self) -> (names: Vec<String>)
        ensures
            names.deep_view() == self.scopes(),
    {
        let mut names: Vec<String> = Vec::new();
        match self {
            ScopeRule::System => {
                names.push("system".to_string());
            },
            ScopeRule::SystemOrAgentAdmin => {
                names.push("system".to_string());
                names.push("agent_admin".to_string());
            },
            ScopeRule::PlatformOrSystem => {
                names.push("platform".to_string());
                names.push("system".to_string());
            },
            ScopeRule::SystemOrBridge => {
                names.push("system".to_string());
                names.push("bridge".to_string());
            },
            ScopeRule::Agent => {
                names.push("agent".to_string());
            },
            ScopeRule::AgentOrAdmin => {
                names.push("agent".to_string());
                names.push("agent_admin".to_string());
                names.push("system".to_string());
                names.push("platform".to_string());
            },
        }
        names
    }
}

/// What a handler wants done next. The comment on each action names the event
/// that answers it.
#[derive(Debug, PartialEq)]
#[allow(inconsistent_fields)]
pub enum Action<S = String, L = Vec<String>, I = Vec<i64>> {
    /// The key must hold one of these scopes. `Event::Access`
    RequireScope { rule: ScopeRule },
    /// The key must belong to this domain. `Event::Access`
    RequireDomainMatch { domain: S },
    /// The key must have access to this address's whitelist. `Event::Access`
    CheckWhitelistAccess { domain_addr: S },
    /// May the system take one more domain? `Event::Admission`
    AdmitDomain { system_id: S },
    /// May the system take one more address? `Event::Admission`
    AdmitAddress { system_id: S },
    /// The SHA-256 digest of a text, in hexadecimal. `Event::Text`
    Sha256Hex { text: S },
    /// An address without its persona prefix. `Event::Text`
    StripPersona { address: S },
    /// Re-points a key to a new secret. `Event::Found`
    RotateApiKey { id: i64, key_hash: S, prefix: S },
    /// Is there such a system? `Event::Found`
    ResolveSystem { system_id: S },
    /// `Event::Domain`
    CreateDomain {
        id: S,
        system_id: S,
        domain: S,
        webhook_url: Option<S>,
        webhook_secret: Option<S>,
        manager_address: Option<S>,
    },
    /// The domain record of a domain or an address. `Event::MaybeDomain`
    LookupDomainAddr { key: S },
    /// The domain record with this id. `Event::MaybeDomain`
    ResolveDomain { id: S },
    /// The stored domain record with this name. `Event::MaybeDomain`
    GetDomainByName { name: S },
    /// `Event::MaybeDomain`
    UpdateDomain {
        id: S,
        webhook_url: Option<S>,
        webhook_secret: Option<S>,
        is_active: Option<bool>,
    },
    /// `Event::Done`
    DeleteDomain { id: S },
    /// `Event::Domains`
    ListDomains { system_id: S },
    /// The metadata of an address. `Event::MaybeMeta`
    ResolveMeta { email: S },
    /// The stored metadata of an address. `Event::MaybeMeta`
    GetMetaRow { email: S },
    /// `Event::Metas`
    ListMetas { system_id: S },
    /// `Event::Done`
    UpsertMeta { email: S, system_id: S, manager: Option<S>, signature: Option<S>, persona: Option<S> },
    /// Writes the stored metadata of an address. `Event::Done`
    UpsertMetaRow {
        email: S,
        system_id: S,
        manager: Option<S>,
        signature: Option<S>,
        persona: Option<S>,
    },
    /// Moves every reference from one address to another. `Event::Done`
    RenameAddressRefs { from: S, to: S },
    /// `Event::Texts`
    GenerateActivationCodes { system_id: S, domain: S, email: S, count: u32 },
    /// The id of the key of an address. `Event::MaybeKey`
    ResolveApiKeyByEmail { email: S },
    /// `Event::Entry`
    CreateWhitelistEntry { domain_addr: S, direction: S, value: S, description: Option<S> },
    /// `Event::Entry`
    CreateWhitelistEntryFull {
        domain_addr: S,
        direction: S,
        value: S,
        category: S,
        api_key_id: Option<i64>,
        description: Option<S>,
    },
    /// `Event::MaybeEntry`
    GetWhitelistEntry { id: i64 },
    /// `Event::Entries`
    ListWhitelistEntries { domain: S },
    /// `Event::MaybeEntry`
    UpdateWhitelistEntry { id: i64, is_active: Option<bool>, direction: Option<S> },
    /// `Event::Done`
    DeleteWhitelistEntry { id: i64 },
    /// `Event::Done`
    DeleteWhitelistEntryByValue { domain_addr: S, value: S },
    /// `Event::Found`
    CheckWhitelisted { domain_addr: S, value: S, direction: S },
    /// The key and the value of an entry of an agent's state. `Event::State`
    StateGet { agent: S, key: S },
    /// `Event::Done`
    StatePut { agent: S, key: S, value: S },
    /// `Event::Done`
    StateDelete { agent: S, key: S },
    /// `Event::Pending`
    ListPendingDeliveries { system_id: S, limit: i64, domains: Option<L> },
    /// `Event::Count`
    AckDeliveries { ids: I },
}

/// An action in specifications.
pub type ActionView = Action<Seq<char>, Seq<Seq<char>>, Seq<i64>>;

impl DeepView for Action {
    type V = ActionView;

    open spec fn deep_view(&self) -> ActionView {
        match *self {
            Action::RequireScope { rule } => Action::RequireScope { rule },
            Action::RequireDomainMatch { domain } => Action::RequireDomainMatch {
                domain: domain@,
            },
            Action::CheckWhitelistAccess { domain_addr } => Action::CheckWhitelistAccess {
                domain_addr: domain_addr@,
            },
            Action::AdmitDomain { system_id } => Action::AdmitDomain { system_id: system_id@ },
            Action::AdmitAddress { system_id } => Action::AdmitAddress { system_id: system_id@ },
            Action::Sha256Hex { text } => Action::Sha256Hex { text: text@ },
            Action::StripPersona { address } => Action::StripPersona { address: address@ },
            Action::RotateApiKey { id, key_hash, prefix } => Action::RotateApiKey {
                id,
                key_hash: key_hash@,
                prefix: prefix@,
            },
            Action::ResolveSystem { system_id } => Action::ResolveSystem { system_id: system_id@ },
            Action::CreateDomain {
                id,
                system_id,
                domain,
                webhook_url,
                webhook_secret,
                manager_address,
            } => Action::CreateDomain {
                id: id@,
                system_id: system_id@,
                domain: domain@,
                webhook_url: webhook_url.deep_view(),
                webhook_secret: webhook_secret.deep_view(),
                manager_address: manager_address.deep_view(),
            },
            Action::LookupDomainAddr { key } => Action::LookupDomainAddr { key: key@ },
            Action::ResolveDomain { id } => Action::ResolveDomain { id: id@ },
            Action::GetDomainByName { name } => Action::GetDomainByName { name: name@ },
            Action::UpdateDomain { id, webhook_url, webhook_secret, is_active } =>
                Action::UpdateDomain {
                id: id@,
                webhook_url: webhook_url.deep_view(),
                webhook_secret: webhook_secret.deep_view(),
                is_active,
            },
            Action::DeleteDomain { id } => Action::DeleteDomain { id: id@ },
            Action::ListDomains { system_id } => Action::ListDomains { system_id: system_id@ },
            Action::ResolveMeta { email } => Action::ResolveMeta { email: email@ },
            Action::GetMetaRow { email } => Action::GetMetaRow { email: email@ },
            Action::ListMetas { system_id } => Action::ListMetas { system_id: system_id@ },
            Action::UpsertMeta { email, system_id, manager, signature, persona } =>
                Action::UpsertMeta {
                email: email@,
                system_id: system_id@,
                manager: manager.deep_view(),
                signature: signature.deep_view(),
                persona: persona.deep_view(),
            },
            Action::UpsertMetaRow { email, system_id, manager, signature, persona } =>
                Action::UpsertMetaRow {
                email: email@,
                system_id: system_id@,
                manager: manager.deep_view(),
                signature: signature.deep_view(),
                persona: persona.deep_view(),
            },
            Action::RenameAddressRefs { from, to } => Action::RenameAddressRefs {
                from: from@,
                to: to@,
            },
            Action::GenerateActivationCodes { system_id, domain, email, count } =>
                Action::GenerateActivationCodes {
                system_id: system_id@,
                domain: domain@,
                email: email@,
                count,
            },
            Action::ResolveApiKeyByEmail { email } => Action::ResolveApiKeyByEmail {
                email: email@,
            },
            Action::CreateWhitelistEntry { domain_addr, direction, value, description } =>
                Action::CreateWhitelistEntry {
                domain_addr: domain_addr@,
                direction: direction@,
                value: value@,
                description: description.deep_view(),
            },
            Action::CreateWhitelistEntryFull {
                domain_addr,
                direction,
                value,
                category,
                api_key_id,
                description,
            } => Action::CreateWhitelistEntryFull {
                domain_addr: domain_addr@,
                direction: direction@,
                value: value@,
                category: category@,
                api_key_id,
                description: description.deep_view(),
            },
            Action::GetWhitelistEntry { id } => Action::GetWhitelistEntry { id },
            Action::ListWhitelistEntries { domain } => Action::ListWhitelistEntries {
                domain: domain@,
            },
            Action::UpdateWhitelistEntry { id, is_active, direction } =>
                Action::UpdateWhitelistEntry { id, is_active, direction: direction.deep_view() },
            Action::DeleteWhitelistEntry { id } => Action::DeleteWhitelistEntry { id },
            Action::DeleteWhitelistEntryByValue { domain_addr, value } =>
                Action::DeleteWhitelistEntryByValue { domain_addr: domain_addr@, value: value@ },
            Action::CheckWhitelisted { domain_addr, value, direction } =>
                Action::CheckWhitelisted {
                domain_addr: domain_addr@,
                value: value@,
                direction: direction@,
            },
            Action::StateGet { agent, key } => Action::StateGet { agent: agent@, key: key@ },
            Action::StatePut { agent, key, value } => Action::StatePut {
                agent: agent@,
                key: key@,
                value: value@,
            },
            Action::StateDelete { agent, key } => Action::StateDelete { agent: agent@, key: key@ },
            Action::ListPendingDeliveries { system_id, limit, domains } =>
                Action::ListPendingDeliveries {
                system_id: system_id@,
                limit,
                domains: domains.deep_view(),
            },
            Action::AckDeliveries { ids } => Action::AckDeliveries { ids: ids@ },
        }
    }
}

/// What an action led to.
#[derive(Debug, PartialEq)]
pub enum Event {
    Access(Result<(), Failure>),
    Admission(Result<(), String>),
    Text(String),
    Found(Result<bool, StoreError>),
    Done(Result<(), StoreError>),
    Domain(Result<SystemDomainRecord, StoreError>),
    MaybeDomain(Result<Option<SystemDomainRecord>, StoreError>),
    Domains(Result<Vec<SystemDomainRecord>, StoreError>),
    MaybeMeta(Result<Option<DomainAddrMetaRecord>, StoreError>),
    Metas(Result<Vec<DomainAddrMetaRecord>, StoreError>),
    Texts(Result<Vec<String>, StoreError>),
    MaybeKey(Result<Option<i64>, StoreError>),
    Entry(Result<WhitelistRecord, StoreError>),
    MaybeEntry(Result<Option<WhitelistRecord>, StoreError>),
    Entries(Result<Vec<WhitelistRecord>, StoreError>),
    State(Result<Option<(String, String)>, StoreError>),
    Pending(Result<Vec<PendingDelivery>, StoreError>),
    Count(Result<i64, StoreError>),
}

/// Why a storage call failed, in specifications.
pub type StoreFault = StoreError<Seq<char>>;

/// What an `Event` says.
pub enum EventView {
    Access(Result<(), Failure<Seq<char>>>),
    Admission(Result<(), Seq<char>>),
    Text(Seq<char>),
    Found(Result<bool, StoreFault>),
    Done(Result<(), StoreFault>),
    Domain(Result<SystemDomainRecord<Seq<char>>, StoreFault>),
    MaybeDomain(Result<Option<SystemDomainRecord<Seq<char>>>, StoreFault>),
    Domains(Result<Seq<SystemDomainRecord<Seq<char>>>, StoreFault>),
    MaybeMeta(Result<Option<DomainAddrMetaRecord<Seq<char>>>, StoreFault>),
    Metas(Result<Seq<DomainAddrMetaRecord<Seq<char>>>, StoreFault>),
    Texts(Result<Seq<Seq<char>>, StoreFault>),
    MaybeKey(Result<Option<i64>, StoreFault>),
    Entry(Result<WhitelistRecord<Seq<char>>, StoreFault>),
    MaybeEntry(Result<Option<WhitelistRecord<Seq<char>>>, StoreFault>),
    Entries(Result<Seq<WhitelistRecord<Seq<char>>>, StoreFault>),
    State(Result<Option<(Seq<char>, Seq<char>)>, StoreFault>),
    Pending(Result<Seq<PendingDelivery<Seq<char>>>, StoreFault>),
    Count(Result<i64, StoreFault>),
}

/// What a storage result says.
pub open spec fn stored<T: DeepView>(result: Result<T, StoreError>) -> Result<T::V, StoreFault> {
    match result {
        Ok(t) => Ok(t.deep_view()),
        Err(e) => Err(e.deep_view()),
    }
}

impl DeepView for Event {
    type V = EventView;

    open spec fn deep_view(&self) -> EventView {
        match *self {
            Event::Access(r) => EventView::Access(
                match r {
                    Ok(_) => Ok(()),
                    Err(f) => Err(f.deep_view()),
                },
            ),
            Event::Admission(r) => EventView::Admission(
                match r {
                    Ok(_) => Ok(()),
                    Err(m) => Err(m@),
                },
            ),
            Event::Text(t) => EventView::Text(t@),
            Event::Found(r) => EventView::Found(stored(r)),
            Event::Done(r) => EventView::Done(stored(r)),
            Event::Domain(r) => EventView::Domain(stored(r)),
            Event::MaybeDomain(r) => EventView::MaybeDomain(stored(r)),
            Event::Domains(r) => EventView::Domains(stored(r)),
            Event::MaybeMeta(r) => EventView::MaybeMeta(stored(r)),
            Event::Metas(r) => EventView::Metas(stored(r)),
            Event::Texts(r) => EventView::Texts(stored(r)),
            Event::MaybeKey(r) => EventView::MaybeKey(stored(r)),
            Event::Entry(r) => EventView::Entry(stored(r)),
            Event::MaybeEntry(r) => EventView::MaybeEntry(stored(r)),
            Event::Entries(r) => EventView::Entries(stored(r)),
            Event::State(r) => EventView::State(stored(r)),
            Event::Pending(r) => EventView::Pending(stored(r)),
            Event::Count(r) => EventView::Count(stored(r)),
        }
    }
}

/// Everything that a handler may yet do: reply, or have an action performed and
/// go on with what it led to. `Mismatch` stands where an event does not answer
/// the action.
pub enum Plan {
    Reply(ReplyView),
    Do(ActionView, spec_fn(EventView) -> Plan),
    Mismatch,
}

/// What a handler does next. With an action comes the handler that is to be
/// resumed.
#[derive(Debug, PartialEq)]
pub enum Next<M> {
    Reply(Reply),
    Do(Action, M),
    Mismatch,
}

/// A handler that waits for the event that answers its action.
pub trait Waiting: Sized {
    /// What it will do, by the event.
    spec fn rest(self) -> spec_fn(EventView) -> Plan;
}

impl<M: Waiting> Next<M> {
    /// What is yet to be done.
    pub open spec fn plan(self) -> Plan {
        match self {
            Next::Reply(reply) => Plan::Reply(reply.deep_view()),
            Next::Do(action, machine) => Plan::Do(action.deep_view(), machine.rest()),
            Next::Mismatch => Plan::Mismatch,
        }
    }
}

/// A handler that goes on with the event it waits for.
pub trait Machine: Waiting {
    fn resume(self, event: Event) -> (next: Next<Self>)
        ensures
            next.plan() == (self.rest())(event.deep_view()),
    ;
}

/// A plan that goes on with `then` where access is granted, and replies with
/// the refusal where it is not.
pub open spec fn gate(ask: ActionView, then: Plan) -> Plan {
    Plan::Do(ask, granted(then))
}

/// What follows the answer to a question of access.
pub open spec fn granted(then: Plan) -> spec_fn(EventView) -> Plan {
    |event: EventView|
        match event {
            EventView::Access(Ok(_)) => then,
            EventView::Access(Err(refusal)) => Plan::Reply(ReplyView::Failed(refusal)),
            _ => Plan::Mismatch,
        }
}

/// A plan that asks for one of the scopes of a rule before anything else.
pub open spec fn scoped(rule: ScopeRule, then: Plan) -> Plan {
    gate(Action::RequireScope { rule }, then)
}

/// A reply that fails.
pub open spec fn failed(status: u16, error: Seq<char>, detail: Option<Seq<char>>) -> ReplyView {
    ReplyView::Failed(Failure { status, response: ErrorResponse { error, detail } })
}

/// A plan that ends in a failure.
pub open spec fn fail(status: u16, error: Seq<char>, detail: Option<Seq<char>>) -> Plan {
    Plan::Reply(failed(status, error, detail))
}

/// A plan that ends because storage failed.
pub open spec fn storage_failed(fault: StoreFault) -> Plan {
    fail(500, "Database error"@, Some(fault.message))
}

/// A plan that ends in success.
pub open spec fn succeed(status: u16, body: crate::types::BodyView) -> Plan {
    Plan::Reply(ReplyView::Success { status, body })
}

/// Replies with a failure.
pub fn failure<M: Waiting>(status: u16, error: &str, detail: Option<String>) -> (next: Next<M>)
    ensures
        next.plan() == fail(status, error@, detail.deep_view()),
{
    Next::Reply(
        Reply::Failed(
            Failure { status, response: ErrorResponse { error: error.to_string(), detail } },
        ),
    )
}

/// Replies that storage failed.
pub fn storage_failure<M: Waiting>(error: StoreError) -> (next: Next<M>)
    ensures
        next.plan() == storage_failed(error.deep_view()),
{
    failure(500, "Database error", Some(error.message))
}

/// Replies with success.
pub fn success<M: Waiting>(status: u16, body: Body) -> (next: Next<M>)
    ensures
        next.plan() == succeed(status, body.deep_view()),
{
    Next::Reply(Reply::Success { status, body })
}

} // verus!
