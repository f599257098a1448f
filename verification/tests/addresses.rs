use amail_api::address::{check_address, check_local_part, is_atext_no_dot};
use amail_api::addresses::{
    register_address, rename_agent_address, update_agent_meta, RegisterAddress,
};
use amail_api::protocol::{Action, Event, Machine, Next, ScopeRule};
use amail_api::types::{
    ApiKeyRecord, Body, DomainAddrMetaRecord, ErrorResponse, Failure, RegisterAddressQuery,
    RegisterAddressRequest, RenameAddressRequest, Reply, Scopes, StoreError, SystemDomainRecord,
    UpdateAgentMetaRequest, WhitelistRecord,
};

fn key(agent_admin: bool) -> ApiKeyRecord {
    ApiKeyRecord {
        id: 7,
        system_id: "sys1".to_string(),
        email_address: "boss@x.com".to_string(),
        scopes: Scopes {
            platform_admin: false,
            system_admin: !agent_admin,
            agent_admin,
            agent: false,
            admin: true,
        },
    }
}

fn record(system_id: &str, domain: &str, is_active: bool) -> SystemDomainRecord {
    SystemDomainRecord {
        id: "d1".to_string(),
        system_id: system_id.to_string(),
        domain: domain.to_string(),
        webhook_url: None,
        webhook_secret: None,
        is_active,
        created_at: "t".to_string(),
        updated_at: "t".to_string(),
    }
}

fn meta(manager: &str) -> DomainAddrMetaRecord {
    DomainAddrMetaRecord {
        email_address: "bot@x.com".to_string(),
        system_id: "sys1".to_string(),
        manager_address: manager.to_string(),
        agent_signature: "sig".to_string(),
        agent_persona: "persona".to_string(),
        is_active: true,
        created_at: "t".to_string(),
        updated_at: "t".to_string(),
    }
}

fn entry() -> WhitelistRecord {
    WhitelistRecord {
        id: 1,
        domain_addr: "bot@x.com".to_string(),
        direction: "all".to_string(),
        value: "boss@x.com".to_string(),
        category: "domain".to_string(),
        api_key_id: None,
        description: None,
        is_active: true,
    }
}

fn doing<M>(next: Next<M>) -> (Action, M) {
    match next {
        Next::Do(action, machine) => (action, machine),
        _ => panic!("an action was expected"),
    }
}

fn replied<M>(next: Next<M>) -> Reply {
    match next {
        Next::Reply(reply) => reply,
        _ => panic!("a reply was expected"),
    }
}

fn failed(status: u16, error: &str, detail: Option<&str>) -> Reply {
    Reply::Failed(Failure {
        status,
        response: ErrorResponse {
            error: error.to_string(),
            detail: detail.map(|d| d.to_string()),
        },
    })
}

fn request(email: &str, manager: Option<&str>) -> RegisterAddressRequest {
    RegisterAddressRequest {
        id: "d1".to_string(),
        email: email.to_string(),
        webhook_url: None,
        webhook_secret: None,
        manager_address: manager.map(|m| m.to_string()),
    }
}

fn fault(system_id: &str, email: &str) -> Option<String> {
    check_address(system_id, email)
}

#[test]
fn atext_is_told_from_the_rest() {
    for c in "AZaz09!#$%&'*+-/=?^_`{|}~".bytes() {
        assert!(is_atext_no_dot(c), "{}", c as char);
    }
    for c in ". @\",:;<>()[]\\\u{7f}é".bytes() {
        assert!(!is_atext_no_dot(c), "{}", c);
    }
}

#[test]
fn own_domain_addresses_have_no_dots() {
    assert_eq!(fault("sys1", "bot@x.com"), None);
    assert_eq!(fault("sys1", "b+o_t@x.com"), None);
    assert_eq!(
        fault("sys1", "b.ot@x.com").as_deref(),
        Some("non-shared address must not contain dots")
    );
    assert_eq!(
        fault("sys1", "b ot@x.com").as_deref(),
        Some("illegal character ' ' in local-part (0x20)")
    );
    assert_eq!(
        fault("sys1", "bé@x.com").as_deref(),
        Some("illegal character 'Ã' in local-part (0xC3)")
    );
}

#[test]
fn addresses_need_both_parts() {
    let invalid = Some("email must be a valid agent@domain address".to_string());
    assert_eq!(fault("sys1", "bot"), invalid);
    assert_eq!(fault("sys1", "bot@"), invalid);
    assert_eq!(fault("sys1", ""), invalid);
    let length = Some("local-part must be 1-64 characters".to_string());
    assert_eq!(fault("sys1", "@x.com"), length);
    let long = "a".repeat(65) + "@x.com";
    assert_eq!(fault("sys1", &long), length);
    let fits = "a".repeat(64) + "@x.com";
    assert_eq!(fault("sys1", &fits), None);
    assert_eq!(fault("sys1", "a.b@bot@x.com"), None);
}

#[test]
fn shared_addresses_name_a_system() {
    assert_eq!(fault("shared-1", "bot.vfy@x.com"), None);
    assert_eq!(
        fault("shared-1", "bot@x.com").as_deref(),
        Some("shared-domain address must use profile.system_id@domain format")
    );
    assert_eq!(
        fault("shared-1", "a.b.c@x.com").as_deref(),
        Some("shared-domain address must use profile.system_id@domain format")
    );
    assert_eq!(
        fault("shared-1", ".vfy@x.com").as_deref(),
        Some("profile segment must not be empty")
    );
    assert_eq!(
        fault("shared-1", "b(t.vfy@x.com").as_deref(),
        Some("illegal char in profile: '(' (0x28)")
    );
    for bad in ["bot.ab@x.com", "bot.abcdefghi@x.com", "bot.1ab@x.com", "bot.aBc@x.com", "bot.@x.com"] {
        assert_eq!(
            fault("shared-1", bad).as_deref(),
            Some("system-id must be 3-8 chars, lowercase letter start, [a-z0-9_-] only"),
            "{}",
            bad
        );
    }
}

#[test]
fn board_addresses_cannot_be_registered() {
    assert_eq!(
        fault("sys1", "task.a2a@x.com").as_deref(),
        Some("'.a2a@' is reserved for board addresses")
    );
    assert_eq!(
        fault("shared-1", "task.a2a@x.com").as_deref(),
        Some("'a2a' is a reserved system-id")
    );
}

fn until_anchor(key: ApiKeyRecord, tid: &str, query: RegisterAddressQuery, req: RegisterAddressRequest) -> (Action, RegisterAddress) {
    let (action, m) = doing(register_address(key, tid.to_string(), query, req));
    assert_eq!(action, Action::RequireScope { rule: ScopeRule::SystemOrAgentAdmin });
    let (action, m) = doing(m.resume(Event::Access(Ok(()))));
    assert_eq!(action, Action::ResolveSystem { system_id: tid.to_string() });
    doing(m.resume(Event::Found(Ok(true))))
}

fn until_created(tid: &str, generate_code: bool, manager: Option<&str>) -> RegisterAddress {
    let (_, m) = until_anchor(
        key(false),
        tid,
        RegisterAddressQuery { generate_code },
        request("bot@x.com", manager),
    );
    let (action, m) = doing(m.resume(Event::MaybeDomain(Ok(Some(record(tid, "x.com", true))))));
    assert_eq!(action, Action::AdmitAddress { system_id: tid.to_string() });
    let (action, m) = doing(m.resume(Event::Admission(Ok(()))));
    assert_eq!(
        action,
        Action::CreateDomain {
            id: "d1".to_string(),
            system_id: tid.to_string(),
            domain: "bot@x.com".to_string(),
            webhook_url: None,
            webhook_secret: None,
            manager_address: manager.map(|m| m.to_string()),
        }
    );
    m
}

fn manager_entry() -> Action {
    Action::CreateWhitelistEntry {
        domain_addr: "bot@x.com".to_string(),
        direction: "all".to_string(),
        value: "boss@x.com".to_string(),
        description: Some("Agent <-> Manager (auto-created)".to_string()),
    }
}

#[test]
fn register_whitelists_the_manager_and_makes_a_code() {
    let m = until_created("sys1", true, Some("boss@x.com"));
    let (action, m) = doing(m.resume(Event::Domain(Ok(record("sys1", "bot@x.com", true)))));
    assert_eq!(action, manager_entry());
    let failed_entry = StoreError { conflict: true, message: "there".to_string() };
    let (action, m) = doing(m.resume(Event::Entry(Err(failed_entry))));
    assert_eq!(
        action,
        Action::GenerateActivationCodes {
            system_id: "sys1".to_string(),
            domain: "x.com".to_string(),
            email: "bot@x.com".to_string(),
            count: 1,
        }
    );
    let codes = vec!["c1".to_string(), "c2".to_string()];
    assert_eq!(
        replied(m.resume(Event::Texts(Ok(codes)))),
        Reply::Success {
            status: 201,
            body: Body::Registered {
                status: "created".to_string(),
                domain: record("sys1", "bot@x.com", true).into(),
                activation_code: Some("c1".to_string()),
            },
        }
    );
}

#[test]
fn register_reports_code_failures() {
    let m = until_created("sys1", true, None);
    let (_, m) = doing(m.resume(Event::Domain(Ok(record("sys1", "bot@x.com", true)))));
    assert_eq!(
        replied(m.resume(Event::Texts(Ok(vec![])))),
        failed(500, "Backend returned empty code list", None)
    );
    let m = until_created("sys1", true, None);
    let (_, m) = doing(m.resume(Event::Domain(Ok(record("sys1", "bot@x.com", true)))));
    let error = StoreError { conflict: false, message: "no codes".to_string() };
    assert_eq!(
        replied(m.resume(Event::Texts(Err(error)))),
        failed(500, "Failed to generate activation code", Some("no codes"))
    );
}

#[test]
fn register_without_code_shows_the_record() {
    let m = until_created("sys1", false, None);
    assert_eq!(
        replied(m.resume(Event::Domain(Ok(record("sys1", "bot@x.com", true))))),
        Reply::Success {
            status: 201,
            body: Body::Registered {
                status: "created".to_string(),
                domain: record("sys1", "bot@x.com", true).into(),
                activation_code: None,
            },
        }
    );
    assert!(!RegisterAddressQuery::default().generate_code);
}

#[test]
fn register_again_syncs_the_manager() {
    let m = until_created("sys1", true, Some("boss@x.com"));
    let conflict = StoreError { conflict: true, message: "bot@x.com is there".to_string() };
    let (action, m) = doing(m.resume(Event::Domain(Err(conflict))));
    assert_eq!(
        action,
        Action::UpsertMetaRow {
            email: "bot@x.com".to_string(),
            system_id: "sys1".to_string(),
            manager: Some("boss@x.com".to_string()),
            signature: None,
            persona: None,
        }
    );
    let (action, m) = doing(m.resume(Event::Done(Ok(()))));
    assert_eq!(action, manager_entry());
    assert_eq!(
        replied(m.resume(Event::Entry(Ok(entry())))),
        failed(409, "already_exists", Some("bot@x.com is there"))
    );
    let m = until_created("sys1", true, None);
    let conflict = StoreError { conflict: true, message: "there".to_string() };
    assert_eq!(
        replied(m.resume(Event::Domain(Err(conflict)))),
        failed(409, "already_exists", Some("there"))
    );
}

#[test]
fn register_needs_an_active_anchor_of_the_system() {
    let anchored = |tid: &str, email: &str| {
        until_anchor(key(false), tid, RegisterAddressQuery::default(), request(email, None))
    };
    let (action, m) = anchored("sys1", "bot@x.com");
    assert_eq!(action, Action::LookupDomainAddr { key: "x.com".to_string() });
    assert_eq!(
        replied(m.resume(Event::MaybeDomain(Ok(None)))),
        failed(
            412,
            "Bare domain not found",
            Some("Register domain 'x.com' first via POST /api/v1/admin/systems/sys1/domains"),
        )
    );
    let (action, m) = anchored("shared-1", "bot.vfy@x.com");
    assert_eq!(action, Action::LookupDomainAddr { key: "vfy@x.com".to_string() });
    assert_eq!(
        replied(m.resume(Event::MaybeDomain(Ok(None)))),
        failed(
            412,
            "System anchor not found",
            Some("System anchor 'vfy@x.com' not found — the shared-domain system must be activated to create it"),
        )
    );
    let (_, m) = anchored("sys1", "bot@x.com");
    assert_eq!(
        replied(m.resume(Event::MaybeDomain(Ok(Some(record("sys1", "x.com", false)))))),
        failed(412, "Domain is inactive", None)
    );
    let (_, m) = anchored("sys1", "bot@x.com");
    assert_eq!(
        replied(m.resume(Event::MaybeDomain(Ok(Some(record("sys2", "x.com", true)))))),
        failed(403, "forbidden", Some("Domain does not belong to this system"))
    );
    let (_, m) = anchored("sys1", "bot@x.com");
    let (_, m) = doing(m.resume(Event::MaybeDomain(Ok(Some(record("sys1", "x.com", true))))));
    assert_eq!(
        replied(m.resume(Event::Admission(Err("full".to_string())))),
        failed(403, "quota_exceeded", Some("full"))
    );
}

#[test]
fn register_as_agent_admin_stays_on_the_domain() {
    let (_, m) = doing(register_address(
        key(true),
        "sys1".to_string(),
        RegisterAddressQuery::default(),
        request("bot@x.com", None),
    ));
    let (action, m) = doing(m.resume(Event::Access(Ok(()))));
    assert_eq!(action, Action::RequireDomainMatch { domain: "x.com".to_string() });
    let (action, _) = doing(m.resume(Event::Access(Ok(()))));
    assert_eq!(action, Action::ResolveSystem { system_id: "sys1".to_string() });
}

#[test]
fn register_rejects_bad_shapes_at_once() {
    let (_, m) = doing(register_address(
        key(false),
        "sys1".to_string(),
        RegisterAddressQuery::default(),
        request("b.ot@x.com", None),
    ));
    assert_eq!(
        replied(m.resume(Event::Access(Ok(())))),
        failed(400, "invalid_email", Some("non-shared address must not contain dots"))
    );
}

fn rename(key: ApiKeyRecord, tid: &str, from: &str, to: &str) -> Next<amail_api::addresses::RenameAgentAddress> {
    let req = RenameAddressRequest { old_email: from.to_string(), new_email: to.to_string() };
    let (action, m) = doing(rename_agent_address(key, tid.to_string(), req));
    assert_eq!(action, Action::RequireScope { rule: ScopeRule::System });
    m.resume(Event::Access(Ok(())))
}

#[test]
fn rename_moves_references_once() {
    let (action, m) = doing(rename(key(false), "sys1", " Bot@X.com ", "New@x.com"));
    assert_eq!(action, Action::LookupDomainAddr { key: "new@x.com".to_string() });
    let (action, m) = doing(m.resume(Event::MaybeDomain(Ok(None))));
    assert_eq!(action, Action::GetMetaRow { email: "new@x.com".to_string() });
    let (action, m) = doing(m.resume(Event::MaybeMeta(Ok(None))));
    assert_eq!(action, Action::GetDomainByName { name: "bot@x.com".to_string() });
    let (action, m) = doing(m.resume(Event::MaybeDomain(Ok(Some(record("sys1", "bot@x.com", true))))));
    assert_eq!(
        action,
        Action::RenameAddressRefs { from: "bot@x.com".to_string(), to: "new@x.com".to_string() }
    );
    match replied(m.resume(Event::Done(Ok(())))) {
        Reply::Success { status: 200, body: Body::Value(value) } => assert_eq!(
            value.to_string(),
            "{\"key_preserved\":true,\"new\":\"new@x.com\",\"old\":\"bot@x.com\",\"status\":\"renamed\",\"system_id\":\"sys1\"}"
        ),
        other => panic!("{:?}", other),
    }
}

#[test]
fn rename_refuses_what_it_cannot_do() {
    assert_eq!(
        replied(rename(key(true), "sys1", "bot@x.com", "new@x.com")),
        failed(403, "not_owner", Some("agent_admin keys may only rename their own address"))
    );
    assert_eq!(
        replied(rename(key(false), "sys1", "bot@x.com", " BOT@x.com")),
        failed(400, "same_address", None)
    );
    assert_eq!(
        replied(rename(key(false), "sys1", "bot@x.com", "bot@y.com")),
        failed(400, "cross_domain_rename", Some("rename must stay on the same bare domain"))
    );
    assert_eq!(
        replied(rename(key(false), "sys1", "bot@", "new@")),
        failed(400, "cross_domain_rename", Some("rename must stay on the same bare domain"))
    );
    let shape = Some("new local-part must match the system's address format (shared: one dot; non-shared: none), atext-no-dot only");
    assert_eq!(
        replied(rename(key(false), "sys1", "bot@x.com", "n.ew@x.com")),
        failed(400, "invalid_email", shape)
    );
    assert_eq!(
        replied(rename(key(false), "shared-1", "bot.vfy@x.com", "new@x.com")),
        failed(400, "invalid_email", shape)
    );
}

#[test]
fn rename_accepts_what_can_be_registered() {
    let (action, _) = doing(rename(key(false), "shared-1", "bot.vfy@x.com", "new.vfy@x.com"));
    assert_eq!(action, Action::LookupDomainAddr { key: "new.vfy@x.com".to_string() });
    assert_eq!(check_address("shared-1", "new.vfy@x.com"), None);
    assert_eq!(check_local_part(true, "new.vfy"), None);
    assert!(check_local_part(false, "new.vfy").is_some());
    let (action, _) = doing(rename(key(true), "sys1", "boss@x.com", "chief@x.com"));
    assert_eq!(action, Action::LookupDomainAddr { key: "chief@x.com".to_string() });
}

#[test]
fn rename_checks_both_addresses() {
    let taken = failed(409, "already_exists", Some("'new@x.com' is already a registered address"));
    let (_, m) = doing(rename(key(false), "sys1", "bot@x.com", "new@x.com"));
    assert_eq!(
        replied(m.resume(Event::MaybeDomain(Ok(Some(record("sys1", "new@x.com", true)))))),
        taken
    );
    let broken = || StoreError { conflict: false, message: "down".to_string() };
    let (_, m) = doing(rename(key(false), "sys1", "bot@x.com", "new@x.com"));
    let (_, m) = doing(m.resume(Event::MaybeDomain(Err(broken()))));
    assert_eq!(replied(m.resume(Event::MaybeMeta(Ok(Some(meta("boss@x.com")))))), taken);
    let looked_up = || {
        let (_, m) = doing(rename(key(false), "sys1", "bot@x.com", "new@x.com"));
        let (_, m) = doing(m.resume(Event::MaybeDomain(Ok(None))));
        doing(m.resume(Event::MaybeMeta(Err(broken())))).1
    };
    assert_eq!(
        replied(looked_up().resume(Event::MaybeDomain(Ok(None)))),
        failed(404, "agent_not_found", Some("No registered address 'bot@x.com'"))
    );
    assert_eq!(
        replied(looked_up().resume(Event::MaybeDomain(Err(broken())))),
        failed(500, "Database error", Some("down"))
    );
    assert_eq!(
        replied(looked_up().resume(Event::MaybeDomain(Ok(Some(record("sys2", "bot@x.com", true)))))),
        failed(403, "forbidden", Some("Address does not belong to this system"))
    );
}

fn change(manager: Option<&str>) -> UpdateAgentMetaRequest {
    UpdateAgentMetaRequest {
        manager_address: manager.map(|m| m.to_string()),
        agent_signature: None,
        agent_persona: Some("new persona".to_string()),
    }
}

#[test]
fn meta_change_moves_the_whitelist() {
    let (action, m) = doing(update_agent_meta(key(false), "Bot@X.com".to_string(), change(Some("chief@x.com"))));
    assert_eq!(action, Action::RequireScope { rule: ScopeRule::SystemOrAgentAdmin });
    let (action, m) = doing(m.resume(Event::Access(Ok(()))));
    assert_eq!(action, Action::ResolveMeta { email: "bot@x.com".to_string() });
    let (action, m) = doing(m.resume(Event::MaybeMeta(Ok(Some(meta("boss@x.com"))))));
    assert_eq!(
        action,
        Action::UpsertMeta {
            email: "bot@x.com".to_string(),
            system_id: "sys1".to_string(),
            manager: Some("chief@x.com".to_string()),
            signature: Some("sig".to_string()),
            persona: Some("new persona".to_string()),
        }
    );
    let (action, m) = doing(m.resume(Event::Done(Ok(()))));
    assert_eq!(
        action,
        Action::DeleteWhitelistEntryByValue {
            domain_addr: "bot@x.com".to_string(),
            value: "boss@x.com".to_string(),
        }
    );
    let broken = StoreError { conflict: false, message: "down".to_string() };
    let (action, m) = doing(m.resume(Event::Done(Err(broken))));
    assert_eq!(
        action,
        Action::CreateWhitelistEntry {
            domain_addr: "bot@x.com".to_string(),
            direction: "all".to_string(),
            value: "chief@x.com".to_string(),
            description: Some("Agent ↔ Manager (auto-synced)".to_string()),
        }
    );
    match replied(m.resume(Event::Entry(Ok(entry())))) {
        Reply::Success { status: 200, body: Body::Value(value) } => assert_eq!(
            value.to_string(),
            "{\"agent_persona\":\"new persona\",\"agent_signature\":\"sig\",\"email\":\"bot@x.com\",\"manager_address\":\"chief@x.com\"}"
        ),
        other => panic!("{:?}", other),
    }
}

#[test]
fn meta_change_without_manager_leaves_the_whitelist() {
    let (_, m) = doing(update_agent_meta(key(true), "bot@x.com".to_string(), change(None)));
    let (_, m) = doing(m.resume(Event::Access(Ok(()))));
    let (_, m) = doing(m.resume(Event::MaybeMeta(Ok(Some(meta("boss@x.com"))))));
    assert!(matches!(
        m.resume(Event::Done(Ok(()))),
        Next::Reply(Reply::Success { status: 200, .. })
    ));
}

#[test]
fn meta_change_reports_failures() {
    let resolve = |k: ApiKeyRecord| {
        let (_, m) = doing(update_agent_meta(k, "bot@x.com".to_string(), change(None)));
        doing(m.resume(Event::Access(Ok(())))).1
    };
    assert_eq!(
        replied(resolve(key(false)).resume(Event::MaybeMeta(Ok(None)))),
        failed(
            404,
            "Agent not found",
            Some("No metadata for agent 'bot@x.com' — register the address first via POST /api/v1/admin/systems/{sid}/addresses"),
        )
    );
    assert_eq!(
        replied(resolve(key(true)).resume(Event::MaybeMeta(Ok(Some(meta("other@x.com")))))),
        failed(
            403,
            "Not the manager of this agent",
            Some("You (boss@x.com) are not the manager of 'bot@x.com'"),
        )
    );
    let (_, m) = doing(resolve(key(false)).resume(Event::MaybeMeta(Ok(Some(meta("other@x.com"))))));
    let broken = StoreError { conflict: false, message: "down".to_string() };
    assert_eq!(
        replied(m.resume(Event::Done(Err(broken)))),
        failed(500, "Database error", Some("down"))
    );
}
