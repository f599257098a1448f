use amail_api::protocol::{Action, Event, Machine, Next};
use amail_api::types::{
    ApiKeyRecord, Body, CheckWhitelistQuery, CreateWhitelistRequest, DeleteWhitelistByParams,
    DomainAddrMetaRecord, ErrorResponse, Failure, ListWhitelistsQuery, Reply, Scopes, StoreError,
    UpdateWhitelistByParams, UpdateWhitelistRequest, WhitelistRecord, default_whitelist_direction,
};
use amail_api::whitelist::{check_whitelist, create_whitelist, list_whitelists};
use amail_api::whitelist_edit::{
    delete_whitelist, delete_whitelist_by_params, update_whitelist, update_whitelist_by_params,
};

fn none() -> Scopes {
    Scopes {
        platform_admin: false,
        system_admin: false,
        agent_admin: false,
        agent: false,
        admin: false,
    }
}

fn agent() -> ApiKeyRecord {
    key("bot@x.com", Scopes { agent: true, ..none() })
}

fn agent_admin() -> ApiKeyRecord {
    key("boss@x.com", Scopes { agent_admin: true, admin: true, ..none() })
}

fn system_admin() -> ApiKeyRecord {
    key("", Scopes { system_admin: true, admin: true, ..none() })
}

fn platform_admin() -> ApiKeyRecord {
    key("", Scopes { platform_admin: true, admin: true, ..none() })
}

fn key(email: &str, scopes: Scopes) -> ApiKeyRecord {
    ApiKeyRecord {
        id: 7,
        system_id: "sys1".to_string(),
        email_address: email.to_string(),
        scopes,
    }
}

fn meta(manager: &str) -> DomainAddrMetaRecord {
    DomainAddrMetaRecord {
        email_address: "bot@x.com".to_string(),
        system_id: "sys1".to_string(),
        manager_address: manager.to_string(),
        agent_signature: String::new(),
        agent_persona: String::new(),
        is_active: true,
        created_at: "t".to_string(),
        updated_at: "t".to_string(),
    }
}

fn entry(id: i64, value: &str, category: &str, api_key_id: Option<i64>) -> WhitelistRecord {
    WhitelistRecord {
        id,
        domain_addr: "bot@x.com".to_string(),
        direction: "all".to_string(),
        value: value.to_string(),
        category: category.to_string(),
        api_key_id,
        description: None,
        is_active: true,
    }
}

fn doing<M>(next: Next<M>) -> (Action, M) {
    match next {
        Next::Do(action, machine) => (action, machine),
        _ => panic!("an action was expected"),
    }
}

fn replied<M>(next: Next<M>) -> Reply {
    match next {
        Next::Reply(reply) => reply,
        _ => panic!("a reply was expected"),
    }
}

fn failed(status: u16, error: &str, detail: Option<&str>) -> Reply {
    Reply::Failed(Failure {
        status,
        response: ErrorResponse {
            error: error.to_string(),
            detail: detail.map(|d| d.to_string()),
        },
    })
}

fn refusal() -> Failure {
    Failure { status: 403, response: ErrorResponse { error: "no".to_string(), detail: None } }
}

fn broken() -> StoreError {
    StoreError { conflict: false, message: "down".to_string() }
}

fn create_request() -> CreateWhitelistRequest {
    CreateWhitelistRequest {
        domain_addr: "bot@x.com".to_string(),
        direction: "in".to_string(),
        value: "friend@y.com".to_string(),
        description: Some("a friend".to_string()),
    }
}

fn full_entry(api_key_id: Option<i64>) -> Action {
    Action::CreateWhitelistEntryFull {
        domain_addr: "bot@x.com".to_string(),
        direction: "in".to_string(),
        value: "friend@y.com".to_string(),
        category: "agent".to_string(),
        api_key_id,
        description: Some("a friend".to_string()),
    }
}

fn access() -> Action {
    Action::CheckWhitelistAccess { domain_addr: "bot@x.com".to_string() }
}

fn resolve_meta() -> Action {
    Action::ResolveMeta { email: "bot@x.com".to_string() }
}

#[test]
fn agents_create_entries_of_their_own() {
    let (action, m) = doing(create_whitelist(agent(), create_request()));
    assert_eq!(action, access());
    let (action, m) = doing(m.resume(Event::Access(Ok(()))));
    assert_eq!(action, full_entry(Some(7)));
    let made = || entry(1, "friend@y.com", "agent", Some(7));
    assert_eq!(
        replied(m.resume(Event::Entry(Ok(made())))),
        Reply::Success { status: 201, body: Body::Entry(made()) }
    );
    let (_, m) = doing(create_whitelist(agent(), create_request()));
    assert_eq!(replied(m.resume(Event::Access(Err(refusal())))), failed(403, "no", None));
}

#[test]
fn managers_create_entries_for_their_agents() {
    let (action, m) = doing(create_whitelist(agent_admin(), create_request()));
    assert_eq!(action, resolve_meta());
    let (action, m) = doing(m.resume(Event::MaybeMeta(Ok(Some(meta("boss@x.com"))))));
    assert_eq!(action, Action::ResolveApiKeyByEmail { email: "bot@x.com".to_string() });
    let (action, _) = doing(m.resume(Event::MaybeKey(Ok(Some(42)))));
    assert_eq!(action, full_entry(Some(42)));
    let start = || doing(create_whitelist(agent_admin(), create_request())).1;
    assert_eq!(
        replied(start().resume(Event::MaybeMeta(Ok(None)))),
        failed(403, "Agent not found", Some("No metadata for agent 'bot@x.com'"))
    );
    assert_eq!(
        replied(start().resume(Event::MaybeMeta(Ok(Some(meta("other@x.com")))))),
        failed(
            403,
            "Not the manager of this agent",
            Some("You (boss@x.com) are not the manager of 'bot@x.com'"),
        )
    );
    assert_eq!(
        replied(start().resume(Event::MaybeMeta(Err(broken())))),
        failed(500, "Database error", Some("down"))
    );
}

#[test]
fn admins_create_domain_entries_or_none() {
    let (action, m) = doing(create_whitelist(system_admin(), create_request()));
    assert_eq!(action, access());
    let (action, m) = doing(m.resume(Event::Access(Ok(()))));
    assert_eq!(
        action,
        Action::CreateWhitelistEntry {
            domain_addr: "bot@x.com".to_string(),
            direction: "in".to_string(),
            value: "friend@y.com".to_string(),
            description: Some("a friend".to_string()),
        }
    );
    assert_eq!(
        replied(m.resume(Event::Entry(Err(broken())))),
        failed(500, "Database error", Some("down"))
    );
    assert_eq!(
        replied(create_whitelist(platform_admin(), create_request())),
        failed(
            403,
            "Insufficient scope",
            Some("PlatformAdmin can only view and toggle whitelist entries"),
        )
    );
    assert_eq!(
        replied(create_whitelist(key("", none()), create_request())),
        failed(403, "Insufficient scope", None)
    );
}

fn everything() -> Vec<WhitelistRecord> {
    vec![
        entry(1, "a@y.com", "agent", Some(7)),
        entry(2, "b@y.com", "domain", Some(7)),
        entry(3, "c@y.com", "agent", Some(8)),
        entry(4, "d@y.com", "agent", Some(7)),
    ]
}

fn listed_ids(reply: Reply) -> Vec<i64> {
    match reply {
        Reply::Success { status: 200, body: Body::Entries(entries) } => {
            entries.iter().map(|e| e.id).collect()
        }
        other => panic!("{:?}", other),
    }
}

#[test]
fn agents_list_their_own_entries() {
    let query = ListWhitelistsQuery { domain: Some("x.com".to_string()) };
    let (action, m) = doing(list_whitelists(agent(), query));
    assert_eq!(action, Action::ListWhitelistEntries { domain: "x.com".to_string() });
    assert_eq!(listed_ids(replied(m.resume(Event::Entries(Ok(everything()))))), vec![1, 4]);
}

#[test]
fn managers_list_entries_of_their_agents() {
    let (action, m) = doing(list_whitelists(agent_admin(), ListWhitelistsQuery { domain: None }));
    assert_eq!(action, Action::ListWhitelistEntries { domain: String::new() });
    let (action, m) = doing(m.resume(Event::Entries(Ok(everything()))));
    assert_eq!(action, resolve_meta());
    let (_, m) = doing(m.resume(Event::MaybeMeta(Ok(Some(meta("boss@x.com"))))));
    let (_, m) = doing(m.resume(Event::MaybeMeta(Ok(Some(meta("other@x.com"))))));
    assert_eq!(
        listed_ids(replied(m.resume(Event::MaybeMeta(Ok(Some(meta("boss@x.com"))))))),
        vec![1, 4]
    );
    let (_, m) = doing(list_whitelists(agent_admin(), ListWhitelistsQuery { domain: None }));
    let (_, m) = doing(m.resume(Event::Entries(Ok(vec![entry(1, "a@y.com", "agent", None)]))));
    assert_eq!(listed_ids(replied(m.resume(Event::MaybeMeta(Err(broken()))))), Vec::<i64>::new());
}

#[test]
fn admins_list_everything() {
    let both = key("bot@x.com", Scopes { agent: true, system_admin: true, admin: true, ..none() });
    for k in [system_admin(), platform_admin(), both] {
        let (_, m) = doing(list_whitelists(k, ListWhitelistsQuery { domain: None }));
        assert_eq!(
            listed_ids(replied(m.resume(Event::Entries(Ok(everything()))))),
            vec![1, 2, 3, 4]
        );
    }
    assert_eq!(
        replied(list_whitelists(key("", none()), ListWhitelistsQuery { domain: None })),
        failed(403, "Insufficient scope", None)
    );
}

fn query(value: &str) -> CheckWhitelistQuery {
    CheckWhitelistQuery {
        domain_addr: "bot@x.com".to_string(),
        value: value.to_string(),
        direction: default_whitelist_direction(),
    }
}

fn sender() -> String {
    "NoReply@mail.x.com".to_string()
}

fn value_text(reply: Reply) -> String {
    match reply {
        Reply::Success { status: 200, body: Body::Value(value) } => value.to_string(),
        other => panic!("{:?}", other),
    }
}

#[test]
fn check_asks_storage() {
    let (action, m) = doing(check_whitelist(agent(), sender(), query("friend@y.com")));
    assert_eq!(
        action,
        Action::CheckWhitelisted {
            domain_addr: "bot@x.com".to_string(),
            value: "friend@y.com".to_string(),
            direction: "all".to_string(),
        }
    );
    assert_eq!(
        value_text(replied(m.resume(Event::Found(Ok(false))))),
        "{\"direction\":\"all\",\"domain_addr\":\"bot@x.com\",\"value\":\"friend@y.com\",\"whitelisted\":false}"
    );
}

#[test]
fn check_knows_the_system_sender() {
    assert_eq!(
        value_text(replied(check_whitelist(agent(), sender(), query(" noreply@MAIL.x.com ")))),
        "{\"direction\":\"all\",\"domain_addr\":\"bot@x.com\",\"system_sender\":true,\"value\":\" noreply@MAIL.x.com \",\"whitelisted\":true}"
    );
}

#[test]
fn check_passes_every_scope_of_the_key() {
    assert_eq!(
        replied(check_whitelist(key("", none()), sender(), query("v"))),
        failed(
            403,
            "Insufficient scope",
            Some("Whitelist check requires admin, system, agent_admin, or agent scope"),
        )
    );
    let stranger = key("other@x.com", Scopes { agent: true, ..none() });
    assert_eq!(
        replied(check_whitelist(stranger, sender(), query("v"))),
        failed(
            403,
            "forbidden",
            Some("Agent can only check whitelist for their own email address"),
        )
    );
    let all = key(
        "bot@x.com",
        Scopes { agent: true, agent_admin: true, system_admin: true, admin: true, ..none() },
    );
    let (action, m) = doing(check_whitelist(all, sender(), query("v")));
    assert_eq!(action, Action::RequireDomainMatch { domain: "bot@x.com".to_string() });
    let (action, m) = doing(m.resume(Event::Access(Ok(()))));
    assert_eq!(action, resolve_meta());
    let (action, _) = doing(m.resume(Event::MaybeMeta(Ok(Some(meta("bot@x.com"))))));
    assert!(matches!(action, Action::CheckWhitelisted { .. }));
}

fn toggle() -> UpdateWhitelistRequest {
    UpdateWhitelistRequest { is_active: Some(false), direction: None }
}

fn not_found() -> Reply {
    failed(404, "Whitelist entry not found", None)
}

#[test]
fn agents_update_their_own_entries() {
    let (action, m) = doing(update_whitelist(agent(), 3, toggle()));
    assert_eq!(action, Action::GetWhitelistEntry { id: 3 });
    let (action, m) = doing(m.resume(Event::MaybeEntry(Ok(Some(entry(3, "v", "agent", Some(7)))))));
    assert_eq!(action, access());
    let (action, m) = doing(m.resume(Event::Access(Ok(()))));
    assert_eq!(
        action,
        Action::UpdateWhitelistEntry { id: 3, is_active: Some(false), direction: None }
    );
    let changed = || entry(3, "v", "agent", Some(7));
    assert_eq!(
        replied(m.resume(Event::MaybeEntry(Ok(Some(changed()))))),
        Reply::Success { status: 200, body: Body::Entry(changed()) }
    );
    let start = || doing(update_whitelist(agent(), 3, toggle())).1;
    assert_eq!(
        replied(start().resume(Event::MaybeEntry(Ok(Some(entry(3, "v", "agent", Some(8))))))),
        not_found()
    );
    assert_eq!(replied(start().resume(Event::MaybeEntry(Ok(None)))), not_found());
    assert_eq!(
        replied(start().resume(Event::MaybeEntry(Err(broken())))),
        failed(500, "Database error", Some("down"))
    );
}

#[test]
fn managers_update_entries_of_their_agents() {
    let (_, m) = doing(update_whitelist(agent_admin(), 3, toggle()));
    let (action, m) = doing(m.resume(Event::MaybeEntry(Ok(Some(entry(3, "v", "agent", Some(8)))))));
    assert_eq!(action, resolve_meta());
    let (action, _) = doing(m.resume(Event::MaybeMeta(Ok(Some(meta("boss@x.com"))))));
    assert_eq!(action, access());
    let (_, m) = doing(update_whitelist(agent_admin(), 3, toggle()));
    let (_, m) = doing(m.resume(Event::MaybeEntry(Ok(Some(entry(3, "v", "agent", Some(8)))))));
    assert!(matches!(
        m.resume(Event::MaybeMeta(Ok(Some(meta("other@x.com"))))),
        Next::Reply(Reply::Failed(Failure { status: 403, .. }))
    ));
}

#[test]
fn admins_update_anything_by_id() {
    for k in [system_admin(), platform_admin()] {
        let (action, m) = doing(update_whitelist(k, 3, toggle()));
        assert!(matches!(action, Action::UpdateWhitelistEntry { id: 3, .. }));
        assert_eq!(replied(m.resume(Event::MaybeEntry(Ok(None)))), not_found());
    }
    assert_eq!(
        replied(update_whitelist(key("", none()), 3, toggle())),
        failed(403, "Insufficient scope", None)
    );
}

fn agent_category(verb: &str) -> Reply {
    failed(
        403,
        &format!("Admin cannot {} agent-category whitelist entries", verb),
        Some("Use the agent or agent_admin scope to manage agent whitelists"),
    )
}

#[test]
fn admins_delete_no_agent_entry_by_id() {
    let (action, m) = doing(delete_whitelist(platform_admin(), 3));
    assert_eq!(action, Action::GetWhitelistEntry { id: 3 });
    assert_eq!(
        replied(m.resume(Event::MaybeEntry(Ok(Some(entry(3, "v", "agent", None)))))),
        agent_category("delete")
    );
    let (_, m) = doing(delete_whitelist(system_admin(), 3));
    let (action, m) = doing(m.resume(Event::MaybeEntry(Ok(Some(entry(3, "v", "domain", None))))));
    assert_eq!(action, access());
    let (action, m) = doing(m.resume(Event::Access(Ok(()))));
    assert_eq!(action, Action::GetWhitelistEntry { id: 3 });
    let (action, m) = doing(m.resume(Event::MaybeEntry(Ok(Some(entry(3, "v", "domain", None))))));
    assert_eq!(action, Action::DeleteWhitelistEntry { id: 3 });
    assert_eq!(
        replied(m.resume(Event::Done(Ok(())))),
        Reply::Success { status: 204, body: Body::Empty }
    );
}

#[test]
fn agents_delete_their_own_entries() {
    let (_, m) = doing(delete_whitelist(agent(), 3));
    let (_, m) = doing(m.resume(Event::MaybeEntry(Ok(Some(entry(3, "v", "agent", Some(7)))))));
    let (action, m) = doing(m.resume(Event::Access(Ok(()))));
    assert_eq!(action, Action::DeleteWhitelistEntry { id: 3 });
    assert_eq!(
        replied(m.resume(Event::Done(Err(broken())))),
        failed(500, "Database error", Some("down"))
    );
    assert_eq!(
        replied(delete_whitelist(key("", none()), 3)),
        failed(403, "Insufficient scope", None)
    );
}

fn delete_query(value: &str) -> DeleteWhitelistByParams {
    DeleteWhitelistByParams { domain_addr: "bot@x.com".to_string(), value: value.to_string() }
}

fn update_query(value: &str) -> UpdateWhitelistByParams {
    UpdateWhitelistByParams { domain_addr: "bot@x.com".to_string(), value: value.to_string() }
}

fn same_value() -> Vec<WhitelistRecord> {
    vec![
        entry(1, "other", "agent", Some(7)),
        entry(2, "v", "agent", Some(8)),
        entry(3, "v", "agent", Some(7)),
        entry(4, "v", "domain", Some(7)),
    ]
}

#[test]
fn agents_delete_by_params_what_is_theirs() {
    let (action, m) = doing(delete_whitelist_by_params(agent(), delete_query("v")));
    assert_eq!(action, Action::ListWhitelistEntries { domain: "bot@x.com".to_string() });
    let (action, m) = doing(m.resume(Event::Entries(Ok(same_value()))));
    assert_eq!(action, Action::DeleteWhitelistEntry { id: 3 });
    assert_eq!(
        replied(m.resume(Event::Done(Ok(())))),
        Reply::Success { status: 204, body: Body::Empty }
    );
    let (_, m) = doing(delete_whitelist_by_params(agent(), delete_query("nothing")));
    assert_eq!(replied(m.resume(Event::Entries(Ok(same_value())))), not_found());
}

#[test]
fn managers_edit_by_params_the_first_entry() {
    let (action, m) = doing(update_whitelist_by_params(agent_admin(), update_query("v"), toggle()));
    assert_eq!(action, resolve_meta());
    let (_, m) = doing(m.resume(Event::MaybeMeta(Ok(Some(meta("boss@x.com"))))));
    let (action, m) = doing(m.resume(Event::Entries(Ok(same_value()))));
    assert_eq!(
        action,
        Action::UpdateWhitelistEntry { id: 2, is_active: Some(false), direction: None }
    );
    assert_eq!(replied(m.resume(Event::MaybeEntry(Ok(None)))), not_found());
}

#[test]
fn admins_edit_by_params_no_agent_entry() {
    let (action, m) = doing(delete_whitelist_by_params(system_admin(), delete_query("v")));
    assert_eq!(action, access());
    let (_, m) = doing(m.resume(Event::Access(Ok(()))));
    assert_eq!(replied(m.resume(Event::Entries(Ok(same_value())))), agent_category("delete"));
    let (_, m) = doing(update_whitelist_by_params(platform_admin(), update_query("v"), toggle()));
    let (_, m) = doing(m.resume(Event::Access(Ok(()))));
    assert_eq!(replied(m.resume(Event::Entries(Ok(same_value())))), agent_category("update"));
    let (_, m) = doing(update_whitelist_by_params(platform_admin(), update_query("v"), toggle()));
    let (_, m) = doing(m.resume(Event::Access(Ok(()))));
    let (action, _) = doing(m.resume(Event::Entries(Ok(vec![entry(9, "v", "domain", None)]))));
    assert!(matches!(action, Action::UpdateWhitelistEntry { id: 9, .. }));
    assert_eq!(
        replied(delete_whitelist_by_params(key("", none()), delete_query("v"))),
        failed(403, "Insufficient scope", None)
    );
}
