//! The routes of the API.

use vstd::prelude::*;

verus! {

/// An HTTP method.
#[derive(Debug, Clone, Copy, PartialEq, Eq, Structural)]
pub enum Method {
    Get,
    Post,
    Put,
    Delete,
}

/// A part of the router. What stands before a handler depends on it.
#[derive(Debug, Clone, Copy, PartialEq, Eq, Structural)]
pub enum Section {
    /// Open to everyone.
    Health,
    /// Behind the layer that authenticates API keys.
    Api,
    /// Open: an activation code is the credential.
    Activation,
    /// Open: the handlers verify board tokens. Mounted last.
    Board,
}

/// What a request is for.
#[derive(Debug, Clone, Copy, PartialEq, Eq, Structural)]
pub enum Endpoint {
    HealthCheck,
    RotateOwnKey,
    CreateApiKey,
    ListApiKeys,
    GetApiKey,
    UpdateApiKey,
    DeleteApiKey,
    SendEmail,
    SendWelcome,
    Whoami,
    UploadAttachment,
    DownloadAttachment,
    CreateSystemDomain,
    ListSystemDomains,
    UpdateSystemDomain,
    DeleteSystemDomain,
    RegisterAddress,
    RenameAgentAddress,
    UpdateAgentMeta,
    GetAgentState,
    PutAgentState,
    DeleteAgentState,
    PutContactProfile,
    GetContactProfile,
    GetContactsByName,
    CreateWhitelist,
    ListWhitelists,
    CheckWhitelist,
    UpdateWhitelist,
    DeleteWhitelist,
    DeleteWhitelistByParams,
    UpdateWhitelistByParams,
    ListPendingDeliveries,
    AckPendingDeliveries,
    CheckDomainExists,
    ActivateAddress,
    BoardTask,
    BoardTasks,
    BoardMembers,
    BoardStatus,
    BoardRoles,
    BoardHeartbeat,
}

impl Endpoint {
    /// The method of the endpoint.
    pub open spec fn takes(self) -> Method {
        match self {
            Endpoint::HealthCheck
            | Endpoint::ListApiKeys
            | Endpoint::GetApiKey
            | Endpoint::Whoami
            | Endpoint::DownloadAttachment
            | Endpoint::ListSystemDomains
            | Endpoint::GetAgentState
            | Endpoint::GetContactProfile
            | Endpoint::GetContactsByName
            | Endpoint::ListWhitelists
            | Endpoint::CheckWhitelist
            | Endpoint::CheckDomainExists
            | Endpoint::BoardTask
            | Endpoint::BoardTasks
            | Endpoint::BoardMembers
            | Endpoint::BoardStatus
            | Endpoint::BoardRoles => Method::Get,
            Endpoint::RotateOwnKey
            | Endpoint::CreateApiKey
            | Endpoint::SendEmail
            | Endpoint::SendWelcome
            | Endpoint::UploadAttachment
            | Endpoint::CreateSystemDomain
            | Endpoint::RegisterAddress
            | Endpoint::RenameAgentAddress
            | Endpoint::CreateWhitelist
            | Endpoint::ListPendingDeliveries
            | Endpoint::AckPendingDeliveries
            | Endpoint::ActivateAddress
            | Endpoint::BoardHeartbeat => Method::Post,
            Endpoint::UpdateApiKey
            | Endpoint::UpdateSystemDomain
            | Endpoint::UpdateAgentMeta
            | Endpoint::PutAgentState
            | Endpoint::PutContactProfile
            | Endpoint::UpdateWhitelist
            | Endpoint::UpdateWhitelistByParams => Method::Put,
            Endpoint::DeleteApiKey
            | Endpoint::DeleteSystemDomain
            | Endpoint::DeleteAgentState
            | Endpoint::DeleteWhitelist
            | Endpoint::DeleteWhitelistByParams => Method::Delete,
        }
    }

    /// The path of the endpoint. A segment with a colon stands for any value.
    pub open spec fn stands_at(self) -> Seq<char> {
        match self {
            Endpoint::HealthCheck => "/health"@,
            Endpoint::RotateOwnKey => "/api/v1/key/rotate"@,
            Endpoint::CreateApiKey
            | Endpoint::ListApiKeys => "/api/v1/admin/api-keys"@,
            Endpoint::GetApiKey
            | Endpoint::UpdateApiKey
            | Endpoint::DeleteApiKey => "/api/v1/admin/api-keys/:id"@,
            Endpoint::SendEmail => "/api/v1/send"@,
            Endpoint::SendWelcome => "/api/v1/system/welcome"@,
            Endpoint::Whoami => "/api/v1/whoami"@,
            Endpoint::UploadAttachment => "/api/v1/upload"@,
            Endpoint::DownloadAttachment => "/api/v1/attachments/:id"@,
            Endpoint::CreateSystemDomain
            | Endpoint::ListSystemDomains => "/api/v1/admin/systems/:sid/domains"@,
            Endpoint::UpdateSystemDomain
            | Endpoint::DeleteSystemDomain => "/api/v1/admin/system-domains/:id"@,
            Endpoint::RegisterAddress => "/api/v1/admin/systems/:sid/addresses"@,
            Endpoint::RenameAgentAddress => "/api/v1/admin/systems/:sid/addresses/rename"@,
            Endpoint::UpdateAgentMeta => "/api/v1/admin/agent-meta/:email"@,
            Endpoint::GetAgentState
            | Endpoint::PutAgentState
            | Endpoint::DeleteAgentState => "/api/v1/agent-state/:key"@,
            Endpoint::PutContactProfile
            | Endpoint::GetContactProfile => "/api/v1/contacts/:address"@,
            Endpoint::GetContactsByName => "/api/v1/contacts"@,
            Endpoint::CreateWhitelist
            | Endpoint::ListWhitelists
            | Endpoint::DeleteWhitelistByParams
            | Endpoint::UpdateWhitelistByParams => "/api/v1/whitelists"@,
            Endpoint::CheckWhitelist => "/api/v1/whitelists/check"@,
            Endpoint::UpdateWhitelist
            | Endpoint::DeleteWhitelist => "/api/v1/whitelists/:id"@,
            Endpoint::ListPendingDeliveries => "/api/v1/admin/pending"@,
            Endpoint::AckPendingDeliveries => "/api/v1/admin/pending/ack"@,
            Endpoint::CheckDomainExists => "/api/v1/admin/domains/check"@,
            Endpoint::ActivateAddress => "/api/v1/activate-address"@,
            Endpoint::BoardTask => "/api/v1/board/:board_id/task/:task_id"@,
            Endpoint::BoardTasks => "/api/v1/board/:board_id/tasks"@,
            Endpoint::BoardMembers => "/api/v1/board/:board_id/members"@,
            Endpoint::BoardStatus => "/api/v1/board/:board_id/status"@,
            Endpoint::BoardRoles => "/api/v1/board/:board_id/roles"@,
            Endpoint::BoardHeartbeat => "/api/v1/board/:board_id/task/:task_id/heartbeat"@,
        }
    }

    /// The part of the router in which the endpoint stands.
    pub open spec fn stands_in(self) -> Section {
        match self {
            Endpoint::HealthCheck => Section::Health,
            Endpoint::ActivateAddress => Section::Activation,
            Endpoint::BoardTask
            | Endpoint::BoardTasks
            | Endpoint::BoardMembers
            | Endpoint::BoardStatus
            | Endpoint::BoardRoles
            | Endpoint::BoardHeartbeat => Section::Board,
            _ => Section::Api,
        }
    }

    /// The method of the endpoint.
    pub fn method(self) -> (method: Method)
        ensures
            method == self.takes(),
    {
        match self {
            Endpoint::HealthCheck
            | Endpoint::ListApiKeys
            | Endpoint::GetApiKey
            | Endpoint::Whoami
            | Endpoint::DownloadAttachment
            | Endpoint::ListSystemDomains
            | Endpoint::GetAgentState
            | Endpoint::GetContactProfile
            | Endpoint::GetContactsByName
            | Endpoint::ListWhitelists
            | Endpoint::CheckWhitelist
            | Endpoint::CheckDomainExists
            | Endpoint::BoardTask
            | Endpoint::BoardTasks
            | Endpoint::BoardMembers
            | Endpoint::BoardStatus
            | Endpoint::BoardRoles => Method::Get,
            Endpoint::RotateOwnKey
            | Endpoint::CreateApiKey
            | Endpoint::SendEmail
            | Endpoint::SendWelcome
            | Endpoint::UploadAttachment
            | Endpoint::CreateSystemDomain
            | Endpoint::RegisterAddress
            | Endpoint::RenameAgentAddress
            | Endpoint::CreateWhitelist
            | Endpoint::ListPendingDeliveries
            | Endpoint::AckPendingDeliveries
            | Endpoint::ActivateAddress
            | Endpoint::BoardHeartbeat => Method::Post,
            Endpoint::UpdateApiKey
            | Endpoint::UpdateSystemDomain
            | Endpoint::UpdateAgentMeta
            | Endpoint::PutAgentState
            | Endpoint::PutContactProfile
            | Endpoint::UpdateWhitelist
            | Endpoint::UpdateWhitelistByParams => Method::Put,
            Endpoint::DeleteApiKey
            | Endpoint::DeleteSystemDomain
            | Endpoint::DeleteAgentState
            | Endpoint::DeleteWhitelist
            | Endpoint::DeleteWhitelistByParams => Method::Delete,
        }
    }

    /// The path of the endpoint.
    pub fn path(self) -> (path: &'static str)
        ensures
            path@ == self.stands_at(),
    {
        match self {
            Endpoint::HealthCheck => "/health",
            Endpoint::RotateOwnKey => "/api/v1/key/rotate",
            Endpoint::CreateApiKey
            | Endpoint::ListApiKeys => "/api/v1/admin/api-keys",
            Endpoint::GetApiKey
            | Endpoint::UpdateApiKey
            | Endpoint::DeleteApiKey => "/api/v1/admin/api-keys/:id",
            Endpoint::SendEmail => "/api/v1/send",
            Endpoint::SendWelcome => "/api/v1/system/welcome",
            Endpoint::Whoami => "/api/v1/whoami",
            Endpoint::UploadAttachment => "/api/v1/upload",
            Endpoint::DownloadAttachment => "/api/v1/attachments/:id",
            Endpoint::CreateSystemDomain
            | Endpoint::ListSystemDomains => "/api/v1/admin/systems/:sid/domains",
            Endpoint::UpdateSystemDomain
            | Endpoint::DeleteSystemDomain => "/api/v1/admin/system-domains/:id",
            Endpoint::RegisterAddress => "/api/v1/admin/systems/:sid/addresses",
            Endpoint::RenameAgentAddress => "/api/v1/admin/systems/:sid/addresses/rename",
            Endpoint::UpdateAgentMeta => "/api/v1/admin/agent-meta/:email",
            Endpoint::GetAgentState
            | Endpoint::PutAgentState
            | Endpoint::DeleteAgentState => "/api/v1/agent-state/:key",
            Endpoint::PutContactProfile
            | Endpoint::GetContactProfile => "/api/v1/contacts/:address",
            Endpoint::GetContactsByName => "/api/v1/contacts",
            Endpoint::CreateWhitelist
            | Endpoint::ListWhitelists
            | Endpoint::DeleteWhitelistByParams
            | Endpoint::UpdateWhitelistByParams => "/api/v1/whitelists",
            Endpoint::CheckWhitelist => "/api/v1/whitelists/check",
            Endpoint::UpdateWhitelist
            | Endpoint::DeleteWhitelist => "/api/v1/whitelists/:id",
            Endpoint::ListPendingDeliveries => "/api/v1/admin/pending",
            Endpoint::AckPendingDeliveries => "/api/v1/admin/pending/ack",
            Endpoint::CheckDomainExists => "/api/v1/admin/domains/check",
            Endpoint::ActivateAddress => "/api/v1/activate-address",
            Endpoint::BoardTask => "/api/v1/board/:board_id/task/:task_id",
            Endpoint::BoardTasks => "/api/v1/board/:board_id/tasks",
            Endpoint::BoardMembers => "/api/v1/board/:board_id/members",
            Endpoint::BoardStatus => "/api/v1/board/:board_id/status",
            Endpoint::BoardRoles => "/api/v1/board/:board_id/roles",
            Endpoint::BoardHeartbeat => "/api/v1/board/:board_id/task/:task_id/heartbeat",
        }
    }

    /// The part of the router in which the endpoint stands.
    pub fn section(self) -> (section: Section)
        ensures
            section == self.stands_in(),
    {
        match self {
            Endpoint::HealthCheck => Section::Health,
            Endpoint::ActivateAddress => Section::Activation,
            Endpoint::BoardTask
            | Endpoint::BoardTasks
            | Endpoint::BoardMembers
            | Endpoint::BoardStatus
            | Endpoint::BoardRoles
            | Endpoint::BoardHeartbeat => Section::Board,
            _ => Section::Api,
        }
    }
}

/// An endpoint that an edition may serve with a handler of its own.
#[derive(Debug, Clone, Copy, PartialEq, Eq, Structural)]
pub enum Slot {
    CreateDomain,
    ListDomains,
    Send,
    CreateWhitelist,
}

/// Who serves a route.
#[derive(Debug, Clone, Copy, PartialEq, Eq, Structural)]
pub enum Handler {
    Endpoint(Endpoint),
    Slot(Slot),
}

/// A route of the router.
#[derive(Debug, PartialEq)]
pub struct Route<S = String> {
    pub section: Section,
    pub path: S,
    /// None where the handler that fills a slot brings its own methods.
    pub method: Option<Method>,
    pub handler: Handler,
}

impl DeepView for Route {
    type V = Route<Seq<char>>;

    open spec fn deep_view(&self) -> Route<Seq<char>> {
        Route {
            section: self.section,
            path: self.path@,
            method: self.method,
            handler: self.handler,
        }
    }
}

/// The slots that are filled.
#[derive(Debug, Clone, Copy, PartialEq, Eq, Structural)]
pub struct Slots {
    pub domain_handler: bool,
    pub list_domain_handler: bool,
    pub send_handler: bool,
    pub whitelist_handler: bool,
}

/// How an endpoint is routed. A filled slot takes its place; only that of the
/// whitelist stays bound to the endpoint's method.
pub open spec fn route_of(endpoint: Endpoint, slots: Slots) -> Route<Seq<char>> {
    let own = Route {
        section: endpoint.stands_in(),
        path: endpoint.stands_at(),
        method: Some(endpoint.takes()),
        handler: Handler::Endpoint(endpoint),
    };
    match endpoint {
        Endpoint::CreateSystemDomain if slots.domain_handler => Route {
            method: None,
            handler: Handler::Slot(Slot::CreateDomain),
            ..own
        },
        Endpoint::ListSystemDomains if slots.list_domain_handler => Route {
            method: None,
            handler: Handler::Slot(Slot::ListDomains),
            ..own
        },
        Endpoint::SendEmail if slots.send_handler => Route {
            method: None,
            handler: Handler::Slot(Slot::Send),
            ..own
        },
        Endpoint::CreateWhitelist if slots.whitelist_handler => Route {
            handler: Handler::Slot(Slot::CreateWhitelist),
            ..own
        },
        _ => own,
    }
}

/// All endpoints, in the order in which they are mounted.
pub open spec fn endpoints() -> Seq<Endpoint> {
    seq![
        Endpoint::HealthCheck,
        Endpoint::RotateOwnKey,
        Endpoint::CreateApiKey,
        Endpoint::ListApiKeys,
        Endpoint::GetApiKey,
        Endpoint::UpdateApiKey,
        Endpoint::DeleteApiKey,
        Endpoint::SendEmail,
        Endpoint::SendWelcome,
        Endpoint::Whoami,
        Endpoint::UploadAttachment,
        Endpoint::DownloadAttachment,
        Endpoint::CreateSystemDomain,
        Endpoint::ListSystemDomains,
        Endpoint::UpdateSystemDomain,
        Endpoint::DeleteSystemDomain,
        Endpoint::RegisterAddress,
        Endpoint::RenameAgentAddress,
        Endpoint::UpdateAgentMeta,
        Endpoint::GetAgentState,
        Endpoint::PutAgentState,
        Endpoint::DeleteAgentState,
        Endpoint::PutContactProfile,
        Endpoint::GetContactProfile,
        Endpoint::GetContactsByName,
        Endpoint::CreateWhitelist,
        Endpoint::ListWhitelists,
        Endpoint::CheckWhitelist,
        Endpoint::UpdateWhitelist,
        Endpoint::DeleteWhitelist,
        Endpoint::DeleteWhitelistByParams,
        Endpoint::UpdateWhitelistByParams,
        Endpoint::ListPendingDeliveries,
        Endpoint::AckPendingDeliveries,
        Endpoint::CheckDomainExists,
        Endpoint::ActivateAddress,
        Endpoint::BoardTask,
        Endpoint::BoardTasks,
        Endpoint::BoardMembers,
        Endpoint::BoardStatus,
        Endpoint::BoardRoles,
        Endpoint::BoardHeartbeat,
    ]
}

/// The routes of the router.
pub open spec fn route_table(slots: Slots) -> Seq<Route<Seq<char>>> {
    endpoints().map_values(|endpoint: Endpoint| route_of(endpoint, slots))
}

fn route_to(endpoint: Endpoint, slots: Slots) -> (route: Route)
    ensures
        route.deep_view() == route_of(endpoint, slots),
{
    let (method, handler) = match endpoint {
        Endpoint::CreateSystemDomain if slots.domain_handler => (
            None,
            Handler::Slot(Slot::CreateDomain),
        ),
        Endpoint::ListSystemDomains if slots.list_domain_handler => (
            None,
            Handler::Slot(Slot::ListDomains),
        ),
        Endpoint::SendEmail if slots.send_handler => (None, Handler::Slot(Slot::Send)),
        Endpoint::CreateWhitelist if slots.whitelist_handler => (
            Some(Method::Post),
            Handler::Slot(Slot::CreateWhitelist),
        ),
        _ => (Some(endpoint.method()), Handler::Endpoint(endpoint)),
    };
    Route { section: endpoint.section(), path: endpoint.path().to_string(), method, handler }
}

fn list_endpoints() -> (list: Vec<Endpoint>)
    ensures
        list@ == endpoints(),
{
    vec![
        Endpoint::HealthCheck,
        Endpoint::RotateOwnKey,
        Endpoint::CreateApiKey,
        Endpoint::ListApiKeys,
        Endpoint::GetApiKey,
        Endpoint::UpdateApiKey,
        Endpoint::DeleteApiKey,
        Endpoint::SendEmail,
        Endpoint::SendWelcome,
        Endpoint::Whoami,
        Endpoint::UploadAttachment,
        Endpoint::DownloadAttachment,
        Endpoint::CreateSystemDomain,
        Endpoint::ListSystemDomains,
        Endpoint::UpdateSystemDomain,
        Endpoint::DeleteSystemDomain,
        Endpoint::RegisterAddress,
        Endpoint::RenameAgentAddress,
        Endpoint::UpdateAgentMeta,
        Endpoint::GetAgentState,
        Endpoint::PutAgentState,
        Endpoint::DeleteAgentState,
        Endpoint::PutContactProfile,
        Endpoint::GetContactProfile,
        Endpoint::GetContactsByName,
        Endpoint::CreateWhitelist,
        Endpoint::ListWhitelists,
        Endpoint::CheckWhitelist,
        Endpoint::UpdateWhitelist,
        Endpoint::DeleteWhitelist,
        Endpoint::DeleteWhitelistByParams,
        Endpoint::UpdateWhitelistByParams,
        Endpoint::ListPendingDeliveries,
        Endpoint::AckPendingDeliveries,
        Endpoint::CheckDomainExists,
        Endpoint::ActivateAddress,
        Endpoint::BoardTask,
        Endpoint::BoardTasks,
        Endpoint::BoardMembers,
        Endpoint::BoardStatus,
        Endpoint::BoardRoles,
        Endpoint::BoardHeartbeat,
    ]
}

/// The routes of the router, given which slots are filled.
pub fn create_router(
    domain_handler: bool,
    list_domain_handler: bool,
    send_handler: bool,
    whitelist_handler: bool,
) -> (routes: Vec<Route>)
    ensures
        routes.deep_view() == route_table(
            (Slots { domain_handler, list_domain_handler, send_handler, whitelist_handler }),
        ),
{
    let slots = Slots { domain_handler, list_domain_handler, send_handler, whitelist_handler };
    let list = list_endpoints();
    let mut routes: Vec<Route> = Vec::new();
    let mut i: usize = 0;
    while i < list.len()
        invariant
            i <= list@.len(),
            list@ == endpoints(),
            routes@.len() == i,
            forall|j: int|
                0 <= j < i ==> (#[trigger] routes@[j]).deep_view() == route_of(list@[j], slots),
        decreases list@.len() - i,
    {
        routes.push(route_to(list[i], slots));
        i += 1;
    }
    assert(routes.deep_view() == route_table(slots));
    routes
}

} // verus!
