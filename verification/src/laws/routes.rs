//! What the router lets through.

use vstd::prelude::*;

use crate::router::{
    endpoints, route_of, route_table, Endpoint, Handler, Method, Section, Slot, Slots,
};

verus! {

/// Where an endpoint stands in the order of mounting.
spec fn position(endpoint: Endpoint) -> int {
    match endpoint {
        Endpoint::HealthCheck => 0,
        Endpoint::RotateOwnKey => 1,
        Endpoint::CreateApiKey => 2,
        Endpoint::ListApiKeys => 3,
        Endpoint::GetApiKey => 4,
        Endpoint::UpdateApiKey => 5,
        Endpoint::DeleteApiKey => 6,
        Endpoint::SendEmail => 7,
        Endpoint::SendWelcome => 8,
        Endpoint::Whoami => 9,
        Endpoint::UploadAttachment => 10,
        Endpoint::DownloadAttachment => 11,
        Endpoint::CreateSystemDomain => 12,
        Endpoint::ListSystemDomains => 13,
        Endpoint::UpdateSystemDomain => 14,
        Endpoint::DeleteSystemDomain => 15,
        Endpoint::RegisterAddress => 16,
        Endpoint::RenameAgentAddress => 17,
        Endpoint::UpdateAgentMeta => 18,
        Endpoint::GetAgentState => 19,
        Endpoint::PutAgentState => 20,
        Endpoint::DeleteAgentState => 21,
        Endpoint::PutContactProfile => 22,
        Endpoint::GetContactProfile => 23,
        Endpoint::GetContactsByName => 24,
        Endpoint::CreateWhitelist => 25,
        Endpoint::ListWhitelists => 26,
        Endpoint::CheckWhitelist => 27,
        Endpoint::UpdateWhitelist => 28,
        Endpoint::DeleteWhitelist => 29,
        Endpoint::DeleteWhitelistByParams => 30,
        Endpoint::UpdateWhitelistByParams => 31,
        Endpoint::ListPendingDeliveries => 32,
        Endpoint::AckPendingDeliveries => 33,
        Endpoint::CheckDomainExists => 34,
        Endpoint::ActivateAddress => 35,
        Endpoint::BoardTask => 36,
        Endpoint::BoardTasks => 37,
        Endpoint::BoardMembers => 38,
        Endpoint::BoardStatus => 39,
        Endpoint::BoardRoles => 40,
        Endpoint::BoardHeartbeat => 41,
    }
}

/// Each endpoint is mounted once.
pub proof fn every_endpoint_is_mounted_once()
    ensures
        endpoints().no_duplicates(),
        forall|e: Endpoint| #[trigger] endpoints().contains(e),
{
    assert forall|e: Endpoint| #[trigger] endpoints().contains(e) by {
        let i = position(e);
        assert(endpoints()[i] == e);
    }
    assert forall|i: int| 0 <= i < endpoints().len() implies position(#[trigger] endpoints()[i])
        == i by {}
}

/// What tells the paths apart.
proof fn lemma_paths()
    ensures
        "/api/v1/activate-address"@.len() == 24,
        "/api/v1/activate-address"@[8] == 'a',
        "/api/v1/activate-address"@[9] == 'c',
        "/api/v1/admin/agent-meta/:email"@.len() == 31,
        "/api/v1/admin/agent-meta/:email"@[8] == 'a',
        "/api/v1/admin/api-keys"@.len() == 22,
        "/api/v1/admin/api-keys"@[8] == 'a',
        "/api/v1/admin/api-keys/:id"@.len() == 26,
        "/api/v1/admin/api-keys/:id"@[8] == 'a',
        "/api/v1/admin/domains/check"@.len() == 27,
        "/api/v1/admin/domains/check"@[8] == 'a',
        "/api/v1/admin/pending"@.len() == 21,
        "/api/v1/admin/pending"@[8] == 'a',
        "/api/v1/admin/pending/ack"@.len() == 25,
        "/api/v1/admin/pending/ack"@[8] == 'a',
        "/api/v1/admin/system-domains/:id"@.len() == 32,
        "/api/v1/admin/system-domains/:id"@[8] == 'a',
        "/api/v1/admin/systems/:sid/addresses"@.len() == 36,
        "/api/v1/admin/systems/:sid/addresses"@[8] == 'a',
        "/api/v1/admin/systems/:sid/addresses/rename"@.len() == 43,
        "/api/v1/admin/systems/:sid/addresses/rename"@[8] == 'a',
        "/api/v1/admin/systems/:sid/domains"@.len() == 34,
        "/api/v1/admin/systems/:sid/domains"@[8] == 'a',
        "/api/v1/agent-state/:key"@.len() == 24,
        "/api/v1/agent-state/:key"@[8] == 'a',
        "/api/v1/agent-state/:key"@[9] == 'g',
        "/api/v1/attachments/:id"@.len() == 23,
        "/api/v1/attachments/:id"@[8] == 'a',
        "/api/v1/board/:board_id/members"@.len() == 31,
        "/api/v1/board/:board_id/members"@[8] == 'b',
        "/api/v1/board/:board_id/roles"@.len() == 29,
        "/api/v1/board/:board_id/roles"@[8] == 'b',
        "/api/v1/board/:board_id/roles"@[24] == 'r',
        "/api/v1/board/:board_id/status"@.len() == 30,
        "/api/v1/board/:board_id/status"@[8] == 'b',
        "/api/v1/board/:board_id/task/:task_id"@.len() == 37,
        "/api/v1/board/:board_id/task/:task_id"@[8] == 'b',
        "/api/v1/board/:board_id/task/:task_id/heartbeat"@.len() == 47,
        "/api/v1/board/:board_id/task/:task_id/heartbeat"@[8] == 'b',
        "/api/v1/board/:board_id/tasks"@.len() == 29,
        "/api/v1/board/:board_id/tasks"@[8] == 'b',
        "/api/v1/board/:board_id/tasks"@[24] == 't',
        "/api/v1/contacts"@.len() == 16,
        "/api/v1/contacts"@[8] == 'c',
        "/api/v1/contacts/:address"@.len() == 25,
        "/api/v1/contacts/:address"@[8] == 'c',
        "/api/v1/key/rotate"@.len() == 18,
        "/api/v1/key/rotate"@[8] == 'k',
        "/api/v1/send"@.len() == 12,
        "/api/v1/send"@[8] == 's',
        "/api/v1/system/welcome"@.len() == 22,
        "/api/v1/system/welcome"@[8] == 's',
        "/api/v1/upload"@.len() == 14,
        "/api/v1/upload"@[8] == 'u',
        "/api/v1/whitelists"@.len() == 18,
        "/api/v1/whitelists"@[8] == 'w',
        "/api/v1/whitelists/:id"@.len() == 22,
        "/api/v1/whitelists/:id"@[8] == 'w',
        "/api/v1/whitelists/check"@.len() == 24,
        "/api/v1/whitelists/check"@[8] == 'w',
        "/api/v1/whoami"@.len() == 14,
        "/api/v1/whoami"@[8] == 'w',
        "/health"@.len() == 7,
{
    reveal_strlit("/api/v1/activate-address");
    reveal_strlit("/api/v1/admin/agent-meta/:email");
    reveal_strlit("/api/v1/admin/api-keys");
    reveal_strlit("/api/v1/admin/api-keys/:id");
    reveal_strlit("/api/v1/admin/domains/check");
    reveal_strlit("/api/v1/admin/pending");
    reveal_strlit("/api/v1/admin/pending/ack");
    reveal_strlit("/api/v1/admin/system-domains/:id");
    reveal_strlit("/api/v1/admin/systems/:sid/addresses");
    reveal_strlit("/api/v1/admin/systems/:sid/addresses/rename");
    reveal_strlit("/api/v1/admin/systems/:sid/domains");
    reveal_strlit("/api/v1/agent-state/:key");
    reveal_strlit("/api/v1/attachments/:id");
    reveal_strlit("/api/v1/board/:board_id/members");
    reveal_strlit("/api/v1/board/:board_id/roles");
    reveal_strlit("/api/v1/board/:board_id/status");
    reveal_strlit("/api/v1/board/:board_id/task/:task_id");
    reveal_strlit("/api/v1/board/:board_id/task/:task_id/heartbeat");
    reveal_strlit("/api/v1/board/:board_id/tasks");
    reveal_strlit("/api/v1/contacts");
    reveal_strlit("/api/v1/contacts/:address");
    reveal_strlit("/api/v1/key/rotate");
    reveal_strlit("/api/v1/send");
    reveal_strlit("/api/v1/system/welcome");
    reveal_strlit("/api/v1/upload");
    reveal_strlit("/api/v1/whitelists");
    reveal_strlit("/api/v1/whitelists/:id");
    reveal_strlit("/api/v1/whitelists/check");
    reveal_strlit("/api/v1/whoami");
    reveal_strlit("/health");
}

/// Whether an endpoint is reached by a method and a path.
pub open spec fn serves(method: Method, path: Seq<char>, endpoint: Endpoint) -> bool {
    endpoint.takes() == method && endpoint.stands_at() == path
}

/// Each endpoint is reached by its method and its path.
pub proof fn endpoints_are_where_clients_look()
    ensures
        serves(Method::Get, "/health"@, Endpoint::HealthCheck),
        serves(Method::Post, "/api/v1/key/rotate"@, Endpoint::RotateOwnKey),
        serves(Method::Post, "/api/v1/admin/api-keys"@, Endpoint::CreateApiKey),
        serves(Method::Get, "/api/v1/admin/api-keys"@, Endpoint::ListApiKeys),
        serves(Method::Get, "/api/v1/admin/api-keys/:id"@, Endpoint::GetApiKey),
        serves(Method::Put, "/api/v1/admin/api-keys/:id"@, Endpoint::UpdateApiKey),
        serves(Method::Delete, "/api/v1/admin/api-keys/:id"@, Endpoint::DeleteApiKey),
        serves(Method::Post, "/api/v1/send"@, Endpoint::SendEmail),
        serves(Method::Post, "/api/v1/system/welcome"@, Endpoint::SendWelcome),
        serves(Method::Get, "/api/v1/whoami"@, Endpoint::Whoami),
        serves(Method::Post, "/api/v1/upload"@, Endpoint::UploadAttachment),
        serves(Method::Get, "/api/v1/attachments/:id"@, Endpoint::DownloadAttachment),
        serves(Method::Post, "/api/v1/admin/systems/:sid/domains"@, Endpoint::CreateSystemDomain),
        serves(Method::Get, "/api/v1/admin/systems/:sid/domains"@, Endpoint::ListSystemDomains),
        serves(Method::Put, "/api/v1/admin/system-domains/:id"@, Endpoint::UpdateSystemDomain),
        serves(Method::Delete, "/api/v1/admin/system-domains/:id"@, Endpoint::DeleteSystemDomain),
        serves(Method::Post, "/api/v1/admin/systems/:sid/addresses"@, Endpoint::RegisterAddress),
        serves(Method::Post, "/api/v1/admin/systems/:sid/addresses/rename"@, Endpoint::RenameAgentAddress),
        serves(Method::Put, "/api/v1/admin/agent-meta/:email"@, Endpoint::UpdateAgentMeta),
        serves(Method::Get, "/api/v1/agent-state/:key"@, Endpoint::GetAgentState),
        serves(Method::Put, "/api/v1/agent-state/:key"@, Endpoint::PutAgentState),
        serves(Method::Delete, "/api/v1/agent-state/:key"@, Endpoint::DeleteAgentState),
        serves(Method::Put, "/api/v1/contacts/:address"@, Endpoint::PutContactProfile),
        serves(Method::Get, "/api/v1/contacts/:address"@, Endpoint::GetContactProfile),
        serves(Method::Get, "/api/v1/contacts"@, Endpoint::GetContactsByName),
        serves(Method::Post, "/api/v1/whitelists"@, Endpoint::CreateWhitelist),
        serves(Method::Get, "/api/v1/whitelists"@, Endpoint::ListWhitelists),
        serves(Method::Delete, "/api/v1/whitelists"@, Endpoint::DeleteWhitelistByParams),
        serves(Method::Put, "/api/v1/whitelists"@, Endpoint::UpdateWhitelistByParams),
        serves(Method::Get, "/api/v1/whitelists/check"@, Endpoint::CheckWhitelist),
        serves(Method::Put, "/api/v1/whitelists/:id"@, Endpoint::UpdateWhitelist),
        serves(Method::Delete, "/api/v1/whitelists/:id"@, Endpoint::DeleteWhitelist),
        serves(Method::Post, "/api/v1/admin/pending"@, Endpoint::ListPendingDeliveries),
        serves(Method::Post, "/api/v1/admin/pending/ack"@, Endpoint::AckPendingDeliveries),
        serves(Method::Get, "/api/v1/admin/domains/check"@, Endpoint::CheckDomainExists),
        serves(Method::Post, "/api/v1/activate-address"@, Endpoint::ActivateAddress),
        serves(Method::Get, "/api/v1/board/:board_id/task/:task_id"@, Endpoint::BoardTask),
        serves(Method::Get, "/api/v1/board/:board_id/tasks"@, Endpoint::BoardTasks),
        serves(Method::Get, "/api/v1/board/:board_id/members"@, Endpoint::BoardMembers),
        serves(Method::Get, "/api/v1/board/:board_id/status"@, Endpoint::BoardStatus),
        serves(Method::Get, "/api/v1/board/:board_id/roles"@, Endpoint::BoardRoles),
        serves(Method::Post, "/api/v1/board/:board_id/task/:task_id/heartbeat"@, Endpoint::BoardHeartbeat),
{
}

/// Two endpoints differ in their path or in their method.
pub proof fn endpoints_do_not_clash(one: Endpoint, other: Endpoint)
    requires
        one != other,
    ensures
        one.stands_at() != other.stands_at() || one.takes() != other.takes(),
{
    lemma_paths();
}

/// A filled slot changes who serves its endpoint. Every other endpoint is served
/// as without it.
pub proof fn slots_replace_their_endpoint(endpoint: Endpoint, slots: Slots)
    ensures
        route_of(endpoint, slots).path == endpoint.stands_at(),
        route_of(endpoint, slots).section == endpoint.stands_in(),
        match route_of(endpoint, slots).handler {
            Handler::Endpoint(served) => served == endpoint && route_of(endpoint, slots).method
                == Some(endpoint.takes()),
            Handler::Slot(Slot::CreateDomain) => endpoint == Endpoint::CreateSystemDomain
                && slots.domain_handler,
            Handler::Slot(Slot::ListDomains) => endpoint == Endpoint::ListSystemDomains
                && slots.list_domain_handler,
            Handler::Slot(Slot::Send) => endpoint == Endpoint::SendEmail && slots.send_handler,
            Handler::Slot(Slot::CreateWhitelist) => endpoint == Endpoint::CreateWhitelist
                && slots.whitelist_handler && route_of(endpoint, slots).method == Some(
                Method::Post,
            ),
        },
{
}

/// Whether a path is open to requests without an API key.
pub open spec fn open_path(path: Seq<char>) -> bool {
    path == "/health"@ || path == "/api/v1/activate-address"@ || "/api/v1/board/"@.is_prefix_of(
        path,
    )
}

/// Every route is behind the layer that authenticates API keys, but for the
/// health check, the activation of addresses and the boards.
pub proof fn routes_are_authenticated(slots: Slots, i: int)
    requires
        0 <= i < route_table(slots).len(),
    ensures
        route_table(slots)[i].section == Section::Api <==> !open_path(route_table(slots)[i].path),
{
    lemma_section(endpoints()[i]);
}

proof fn lemma_section(endpoint: Endpoint)
    ensures
        endpoint.stands_in() == Section::Api <==> !open_path(endpoint.stands_at()),
{
    lemma_paths();
    reveal_strlit("/api/v1/board/:board_id/members");
    reveal_strlit("/api/v1/board/:board_id/roles");
    reveal_strlit("/api/v1/board/:board_id/status");
    reveal_strlit("/api/v1/board/:board_id/task/:task_id");
    reveal_strlit("/api/v1/board/:board_id/task/:task_id/heartbeat");
    reveal_strlit("/api/v1/board/:board_id/tasks");
    reveal_strlit("/api/v1/board/");
    let path = endpoint.stands_at();
    assert("/api/v1/board/"@[8] == 'b');
    if endpoint.stands_in() == Section::Board {
        assert(path.subrange(0, 14) == "/api/v1/board/"@);
    } else if "/api/v1/board/"@.is_prefix_of(path) {
        assert(path.subrange(0, 14)[8] == path[8]);
    }
}

} // verus!
