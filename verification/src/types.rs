//! Records, requests and replies.
//!
//! The types that carry text take it as a parameter `S`: a `String` in running
//! code, a sequence of characters in specifications. `deep_view` leads from the
//! first form to the second.

use vstd::prelude::*;

use crate::json::{value_tree, JsonTree};

verus! {

/// What the authorisation layer makes of a key's scopes.
#[derive(Debug, Clone, Copy, PartialEq, Eq, Structural)]
pub struct Scopes {
    pub platform_admin: bool,
    pub system_admin: bool,
    pub agent_admin: bool,
    pub agent: bool,
    /// Any admin scope.
    pub admin: bool,
}

/// The key under which a request is made.
#[derive(Debug, PartialEq)]
pub struct ApiKeyRecord<S = String> {
    pub id: i64,
    pub system_id: S,
    pub email_address: S,
    pub scopes: Scopes,
}

impl DeepView for ApiKeyRecord {
    type V = ApiKeyRecord<Seq<char>>;

    open spec fn deep_view(&self) -> ApiKeyRecord<Seq<char>> {
        ApiKeyRecord {
            id: self.id,
            system_id: self.system_id@,
            email_address: self.email_address@,
            scopes: self.scopes,
        }
    }
}

/// A row of the domain table: a bare domain, or an agent address.
#[derive(Debug, PartialEq)]
pub struct SystemDomainRecord<S = String> {
    pub id: S,
    pub system_id: S,
    pub domain: S,
    pub webhook_url: Option<S>,
    pub webhook_secret: Option<S>,
    pub is_active: bool,
    pub created_at: S,
    pub updated_at: S,
}

impl DeepView for SystemDomainRecord {
    type V = SystemDomainRecord<Seq<char>>;

    open spec fn deep_view(&self) -> SystemDomainRecord<Seq<char>> {
        SystemDomainRecord {
            id: self.id@,
            system_id: self.system_id@,
            domain: self.domain@,
            webhook_url: self.webhook_url.deep_view(),
            webhook_secret: self.webhook_secret.deep_view(),
            is_active: self.is_active,
            created_at: self.created_at@,
            updated_at: self.updated_at@,
        }
    }
}

/// The metadata of one agent address.
#[derive(Debug, PartialEq)]
pub struct DomainAddrMetaRecord<S = String> {
    pub email_address: S,
    pub system_id: S,
    pub manager_address: S,
    pub agent_signature: S,
    pub agent_persona: S,
    pub is_active: bool,
    pub created_at: S,
    pub updated_at: S,
}

impl DeepView for DomainAddrMetaRecord {
    type V = DomainAddrMetaRecord<Seq<char>>;

    open spec fn deep_view(&self) -> DomainAddrMetaRecord<Seq<char>> {
        DomainAddrMetaRecord {
            email_address: self.email_address@,
            system_id: self.system_id@,
            manager_address: self.manager_address@,
            agent_signature: self.agent_signature@,
            agent_persona: self.agent_persona@,
            is_active: self.is_active,
            created_at: self.created_at@,
            updated_at: self.updated_at@,
        }
    }
}

/// A domain record as it is shown to callers, with the metadata of its agent.
#[derive(Debug, PartialEq)]
pub struct SystemDomainResponse<S = String> {
    pub id: S,
    pub system_id: S,
    pub domain: S,
    pub webhook_url: Option<S>,
    pub webhook_secret: Option<S>,
    pub is_active: bool,
    pub created_at: S,
    pub updated_at: S,
    pub manager_address: S,
    pub agent_signature: S,
    pub agent_persona: S,
}

impl DeepView for SystemDomainResponse {
    type V = SystemDomainResponse<Seq<char>>;

    open spec fn deep_view(&self) -> SystemDomainResponse<Seq<char>> {
        SystemDomainResponse {
            id: self.id@,
            system_id: self.system_id@,
            domain: self.domain@,
            webhook_url: self.webhook_url.deep_view(),
            webhook_secret: self.webhook_secret.deep_view(),
            is_active: self.is_active,
            created_at: self.created_at@,
            updated_at: self.updated_at@,
            manager_address: self.manager_address@,
            agent_signature: self.agent_signature@,
            agent_persona: self.agent_persona@,
        }
    }
}

/// The response for a record whose agent metadata is not known: those fields
/// are empty.
pub open spec fn bare_response(record: SystemDomainRecord<Seq<char>>) -> SystemDomainResponse<
    Seq<char>,
> {
    SystemDomainResponse {
        id: record.id,
        system_id: record.system_id,
        domain: record.domain,
        webhook_url: record.webhook_url,
        webhook_secret: record.webhook_secret,
        is_active: record.is_active,
        created_at: record.created_at,
        updated_at: record.updated_at,
        manager_address: Seq::empty(),
        agent_signature: Seq::empty(),
        agent_persona: Seq::empty(),
    }
}

impl From<SystemDomainRecord> for SystemDomainResponse {
    fn from(record: SystemDomainRecord) -> (response: SystemDomainResponse)
        ensures
            response.deep_view() == bare_response(record.deep_view()),
    {
        SystemDomainResponse {
            id: record.id,
            system_id: record.system_id,
            domain: record.domain,
            webhook_url: record.webhook_url,
            webhook_secret: record.webhook_secret,
            is_active: record.is_active,
            created_at: record.created_at,
            updated_at: record.updated_at,
            manager_address: String::new(),
            agent_signature: String::new(),
            agent_persona: String::new(),
        }
    }
}

impl vstd::std_specs::convert::FromSpecImpl<SystemDomainRecord> for SystemDomainResponse {
    open spec fn obeys_from_spec() -> bool {
        false
    }

    open spec fn from_spec(record: SystemDomainRecord) -> SystemDomainResponse {
        arbitrary()
    }
}

/// An entry of the whitelists.
#[derive(Debug, PartialEq)]
pub struct WhitelistRecord<S = String> {
    pub id: i64,
    pub domain_addr: S,
    pub direction: S,
    pub value: S,
    pub category: S,
    pub api_key_id: Option<i64>,
    pub description: Option<S>,
    pub is_active: bool,
}

impl DeepView for WhitelistRecord {
    type V = WhitelistRecord<Seq<char>>;

    open spec fn deep_view(&self) -> WhitelistRecord<Seq<char>> {
        WhitelistRecord {
            id: self.id,
            domain_addr: self.domain_addr@,
            direction: self.direction@,
            value: self.value@,
            category: self.category@,
            api_key_id: self.api_key_id,
            description: self.description.deep_view(),
            is_active: self.is_active,
        }
    }
}

/// A message that waits to be fetched.
#[derive(Debug, PartialEq)]
pub struct PendingDelivery<S = String> {
    pub id: i64,
    pub email: S,
    pub headers: S,
    pub payload: S,
}

impl DeepView for PendingDelivery {
    type V = PendingDelivery<Seq<char>>;

    open spec fn deep_view(&self) -> PendingDelivery<Seq<char>> {
        PendingDelivery {
            id: self.id,
            email: self.email@,
            headers: self.headers@,
            payload: self.payload@,
        }
    }
}

/// Why a storage call failed.
#[derive(Debug, PartialEq)]
pub struct StoreError<S = String> {
    /// The record to create is already there.
    pub conflict: bool,
    pub message: S,
}

impl DeepView for StoreError {
    type V = StoreError<Seq<char>>;

    open spec fn deep_view(&self) -> StoreError<Seq<char>> {
        StoreError { conflict: self.conflict, message: self.message@ }
    }
}

/// The body of a reply that refuses or fails.
#[derive(Debug, PartialEq)]
pub struct ErrorResponse<S = String> {
    pub error: S,
    pub detail: Option<S>,
}

/// A reply that refuses or fails, with its HTTP status.
#[derive(Debug, PartialEq)]
pub struct Failure<S = String> {
    pub status: u16,
    pub response: ErrorResponse<S>,
}

impl DeepView for Failure {
    type V = Failure<Seq<char>>;

    open spec fn deep_view(&self) -> Failure<Seq<char>> {
        Failure {
            status: self.status,
            response: ErrorResponse {
                error: self.response.error@,
                detail: self.response.detail.deep_view(),
            },
        }
    }
}

/// The body of a reply that succeeds.
#[derive(Debug, PartialEq)]
pub enum Body {
    Empty,
    Domain(SystemDomainResponse),
    Domains(Vec<SystemDomainResponse>),
    Registered { status: String, domain: SystemDomainResponse, activation_code: Option<String> },
    Entry(WhitelistRecord),
    Entries(Vec<WhitelistRecord>),
    Value(serde_json::Value),
}

/// What a `Body` says.
pub enum BodyView {
    Empty,
    Domain(SystemDomainResponse<Seq<char>>),
    Domains(Seq<SystemDomainResponse<Seq<char>>>),
    Registered {
        status: Seq<char>,
        domain: SystemDomainResponse<Seq<char>>,
        activation_code: Option<Seq<char>>,
    },
    Entry(WhitelistRecord<Seq<char>>),
    Entries(Seq<WhitelistRecord<Seq<char>>>),
    Value(JsonTree),
}

impl DeepView for Body {
    type V = BodyView;

    open spec fn deep_view(&self) -> BodyView {
        match *self {
            Body::Empty => BodyView::Empty,
            Body::Domain(d) => BodyView::Domain(d.deep_view()),
            Body::Domains(l) => BodyView::Domains(l.deep_view()),
            Body::Registered { status, domain, activation_code } => BodyView::Registered {
                status: status@,
                domain: domain.deep_view(),
                activation_code: activation_code.deep_view(),
            },
            Body::Entry(w) => BodyView::Entry(w.deep_view()),
            Body::Entries(l) => BodyView::Entries(l.deep_view()),
            Body::Value(v) => BodyView::Value(value_tree(v)),
        }
    }
}

/// The answer to a request.
#[derive(Debug, PartialEq)]
pub enum Reply {
    Success { status: u16, body: Body },
    Failed(Failure),
}

/// What a `Reply` says.
pub enum ReplyView {
    Success { status: u16, body: BodyView },
    Failed(Failure<Seq<char>>),
}

impl DeepView for Reply {
    type V = ReplyView;

    open spec fn deep_view(&self) -> ReplyView {
        match *self {
            Reply::Success { status, body } => ReplyView::Success {
                status,
                body: body.deep_view(),
            },
            Reply::Failed(f) => ReplyView::Failed(f.deep_view()),
        }
    }
}

/// `POST` body that creates a bare domain.
#[derive(Debug, PartialEq)]
pub struct CreateSystemDomainRequest<S = String> {
    pub id: S,
    pub domain: S,
    pub webhook_url: Option<S>,
    pub webhook_secret: Option<S>,
    pub manager_address: Option<S>,
}

impl DeepView for CreateSystemDomainRequest {
    type V = CreateSystemDomainRequest<Seq<char>>;

    open spec fn deep_view(&self) -> CreateSystemDomainRequest<Seq<char>> {
        CreateSystemDomainRequest {
            id: self.id@,
            domain: self.domain@,
            webhook_url: self.webhook_url.deep_view(),
            webhook_secret: self.webhook_secret.deep_view(),
            manager_address: self.manager_address.deep_view(),
        }
    }
}

/// Query of the address registration.
#[derive(Debug, Clone, Copy, PartialEq, Eq, Default)]
pub struct RegisterAddressQuery {
    /// Whether an activation code is to be generated: not, unless the query says so.
    pub generate_code: bool,
}

/// `POST` body that registers an agent address.
#[derive(Debug, PartialEq)]
pub struct RegisterAddressRequest<S = String> {
    pub id: S,
    pub email: S,
    pub webhook_url: Option<S>,
    pub webhook_secret: Option<S>,
    pub manager_address: Option<S>,
}

impl DeepView for RegisterAddressRequest {
    type V = RegisterAddressRequest<Seq<char>>;

    open spec fn deep_view(&self) -> RegisterAddressRequest<Seq<char>> {
        RegisterAddressRequest {
            id: self.id@,
            email: self.email@,
            webhook_url: self.webhook_url.deep_view(),
            webhook_secret: self.webhook_secret.deep_view(),
            manager_address: self.manager_address.deep_view(),
        }
    }
}

/// `PUT` body that changes a domain.
#[derive(Debug, PartialEq)]
pub struct UpdateSystemDomainRequest<S = String> {
    pub webhook_url: Option<S>,
    pub webhook_secret: Option<S>,
    pub is_active: Option<bool>,
}

impl DeepView for UpdateSystemDomainRequest {
    type V = UpdateSystemDomainRequest<Seq<char>>;

    open spec fn deep_view(&self) -> UpdateSystemDomainRequest<Seq<char>> {
        UpdateSystemDomainRequest {
            webhook_url: self.webhook_url.deep_view(),
            webhook_secret: self.webhook_secret.deep_view(),
            is_active: self.is_active,
        }
    }
}

/// `POST` body that renames an agent address on its domain.
///
/// The agent's key is re-pointed, not regenerated, and every reference to the
/// old address moves to the new one in one transaction. The old address stops
/// working.
#[derive(Debug, PartialEq)]
pub struct RenameAddressRequest<S = String> {
    pub old_email: S,
    pub new_email: S,
}

impl DeepView for RenameAddressRequest {
    type V = RenameAddressRequest<Seq<char>>;

    open spec fn deep_view(&self) -> RenameAddressRequest<Seq<char>> {
        RenameAddressRequest { old_email: self.old_email@, new_email: self.new_email@ }
    }
}

/// `PUT` body that changes an agent's metadata: what is absent stays.
#[derive(Debug, PartialEq)]
pub struct UpdateAgentMetaRequest<S = String> {
    pub manager_address: Option<S>,
    pub agent_signature: Option<S>,
    pub agent_persona: Option<S>,
}

impl DeepView for UpdateAgentMetaRequest {
    type V = UpdateAgentMetaRequest<Seq<char>>;

    open spec fn deep_view(&self) -> UpdateAgentMetaRequest<Seq<char>> {
        UpdateAgentMetaRequest {
            manager_address: self.manager_address.deep_view(),
            agent_signature: self.agent_signature.deep_view(),
            agent_persona: self.agent_persona.deep_view(),
        }
    }
}

/// `POST` body that creates a whitelist entry.
#[derive(Debug, PartialEq)]
pub struct CreateWhitelistRequest<S = String> {
    pub domain_addr: S,
    pub direction: S,
    pub value: S,
    pub description: Option<S>,
}

impl DeepView for CreateWhitelistRequest {
    type V = CreateWhitelistRequest<Seq<char>>;

    open spec fn deep_view(&self) -> CreateWhitelistRequest<Seq<char>> {
        CreateWhitelistRequest {
            domain_addr: self.domain_addr@,
            direction: self.direction@,
            value: self.value@,
            description: self.description.deep_view(),
        }
    }
}

/// Query of the whitelist listing.
#[derive(Debug, PartialEq)]
pub struct ListWhitelistsQuery<S = String> {
    pub domain: Option<S>,
}

impl DeepView for ListWhitelistsQuery {
    type V = ListWhitelistsQuery<Seq<char>>;

    open spec fn deep_view(&self) -> ListWhitelistsQuery<Seq<char>> {
        ListWhitelistsQuery { domain: self.domain.deep_view() }
    }
}

/// Query of the whitelist check.
#[derive(Debug, PartialEq)]
pub struct CheckWhitelistQuery<S = String> {
    pub domain_addr: S,
    pub value: S,
    /// `default_whitelist_direction` where the query names none.
    pub direction: S,
}

impl DeepView for CheckWhitelistQuery {
    type V = CheckWhitelistQuery<Seq<char>>;

    open spec fn deep_view(&self) -> CheckWhitelistQuery<Seq<char>> {
        CheckWhitelistQuery {
            domain_addr: self.domain_addr@,
            value: self.value@,
            direction: self.direction@,
        }
    }
}

/// The direction that a whitelist check takes where the query names none.
pub fn default_whitelist_direction() -> (direction: String)
    ensures
        direction@ == "all"@,
{
    "all".to_string()
}

/// `PUT` body that changes a whitelist entry.
#[derive(Debug, PartialEq)]
pub struct UpdateWhitelistRequest<S = String> {
    pub is_active: Option<bool>,
    pub direction: Option<S>,
}

impl DeepView for UpdateWhitelistRequest {
    type V = UpdateWhitelistRequest<Seq<char>>;

    open spec fn deep_view(&self) -> UpdateWhitelistRequest<Seq<char>> {
        UpdateWhitelistRequest {
            is_active: self.is_active,
            direction: self.direction.deep_view(),
        }
    }
}

/// Query that names a whitelist entry by its address and value, to delete it.
#[derive(Debug, PartialEq)]
pub struct DeleteWhitelistByParams<S = String> {
    pub domain_addr: S,
    pub value: S,
}

impl DeepView for DeleteWhitelistByParams {
    type V = DeleteWhitelistByParams<Seq<char>>;

    open spec fn deep_view(&self) -> DeleteWhitelistByParams<Seq<char>> {
        DeleteWhitelistByParams { domain_addr: self.domain_addr@, value: self.value@ }
    }
}

/// Query that names a whitelist entry by its address and value, to change it.
#[derive(Debug, PartialEq)]
pub struct UpdateWhitelistByParams<S = String> {
    pub domain_addr: S,
    pub value: S,
}

impl DeepView for UpdateWhitelistByParams {
    type V = UpdateWhitelistByParams<Seq<char>>;

    open spec fn deep_view(&self) -> UpdateWhitelistByParams<Seq<char>> {
        UpdateWhitelistByParams { domain_addr: self.domain_addr@, value: self.value@ }
    }
}

/// `PUT` body that writes an entry of an agent's state.
#[derive(Debug, PartialEq)]
pub struct AgentStatePutRequest<S = String> {
    pub value: S,
}

impl DeepView for AgentStatePutRequest {
    type V = AgentStatePutRequest<Seq<char>>;

    open spec fn deep_view(&self) -> AgentStatePutRequest<Seq<char>> {
        AgentStatePutRequest { value: self.value@ }
    }
}

/// `PUT` body that writes a contact's profile, which is JSON.
#[derive(Debug, PartialEq)]
pub struct ContactProfileRequest<S = String> {
    pub profile: S,
}

impl DeepView for ContactProfileRequest {
    type V = ContactProfileRequest<Seq<char>>;

    open spec fn deep_view(&self) -> ContactProfileRequest<Seq<char>> {
        ContactProfileRequest { profile: self.profile@ }
    }
}

/// Query of the contact search.
#[derive(Debug, PartialEq)]
pub struct ContactsByNameQuery<S = String> {
    pub name: Option<S>,
    pub addresses: Option<S>,
}

impl DeepView for ContactsByNameQuery {
    type V = ContactsByNameQuery<Seq<char>>;

    open spec fn deep_view(&self) -> ContactsByNameQuery<Seq<char>> {
        ContactsByNameQuery {
            name: self.name.deep_view(),
            addresses: self.addresses.deep_view(),
        }
    }
}

/// `POST` body that polls for pending deliveries.
#[derive(Debug, PartialEq)]
pub struct PendingPollRequest {
    /// `default_limit` where the body names none.
    pub limit: i64,
    pub emails: Vec<String>,
    pub filter: Vec<String>,
}

/// How many deliveries a poll returns at most where the body names no limit.
pub fn default_limit() -> (limit: i64)
    ensures
        limit == 20,
{
    20
}

/// `POST` body that acknowledges deliveries.
#[derive(Debug, PartialEq)]
pub struct AckRequest {
    pub ids: Vec<i64>,
}

} // verus!
