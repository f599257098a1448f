use amail_api::domains::{
    apply_domain_meta, check_domain_exists, create_system_domain, delete_system_domain, enrich,
    list_system_domains, update_system_domain,
};
use amail_api::protocol::{Action, Event, Machine, Next, ScopeRule};
use amail_api::types::{
    ApiKeyRecord, Body, CreateSystemDomainRequest, DomainAddrMetaRecord, ErrorResponse, Failure,
    Reply, Scopes, StoreError, SystemDomainRecord, SystemDomainResponse,
    UpdateSystemDomainRequest,
};

fn domain_record(domain: &str) -> SystemDomainRecord {
    SystemDomainRecord {
        id: "d1".to_string(),
        system_id: "sys1".to_string(),
        domain: domain.to_string(),
        webhook_url: None,
        webhook_secret: None,
        is_active: true,
        created_at: "t".to_string(),
        updated_at: "t".to_string(),
    }
}

fn meta_record(email: &str, manager: &str) -> DomainAddrMetaRecord {
    DomainAddrMetaRecord {
        email_address: email.to_string(),
        system_id: "sys1".to_string(),
        manager_address: manager.to_string(),
        agent_signature: "sig".to_string(),
        agent_persona: "persona".to_string(),
        is_active: true,
        created_at: "t".to_string(),
        updated_at: "t".to_string(),
    }
}

fn no_scopes() -> Scopes {
    Scopes {
        platform_admin: false,
        system_admin: false,
        agent_admin: false,
        agent: false,
        admin: false,
    }
}

fn key(scopes: Scopes) -> ApiKeyRecord {
    ApiKeyRecord {
        id: 7,
        system_id: "sys1".to_string(),
        email_address: "boss@x.com".to_string(),
        scopes,
    }
}

fn system_key() -> ApiKeyRecord {
    key(Scopes { system_admin: true, admin: true, ..no_scopes() })
}

fn doing<M>(next: Next<M>) -> (Action, M) {
    match next {
        Next::Do(action, machine) => (action, machine),
        _ => panic!("an action was expected"),
    }
}

fn replied<M>(next: Next<M>) -> Reply {
    match next {
        Next::Reply(reply) => reply,
        _ => panic!("a reply was expected"),
    }
}

fn failed(status: u16, error: &str, detail: Option<&str>) -> Reply {
    Reply::Failed(Failure {
        status,
        response: ErrorResponse {
            error: error.to_string(),
            detail: detail.map(|d| d.to_string()),
        },
    })
}

fn broken() -> StoreError {
    StoreError { conflict: false, message: "disk full".to_string() }
}

fn create_request(domain: &str) -> CreateSystemDomainRequest {
    CreateSystemDomainRequest {
        id: "d1".to_string(),
        domain: domain.to_string(),
        webhook_url: Some("https://hook".to_string()),
        webhook_secret: None,
        manager_address: None,
    }
}

#[test]
fn apply_domain_meta_fills_address_record() {
    // Address-type record with a meta row → fields filled.
    let mut resp: SystemDomainResponse = domain_record("agent@x.com").into();
    assert_eq!(resp.manager_address, "", "baseline must be empty");
    apply_domain_meta(&mut resp, Some(&meta_record("agent@x.com", "mgr@x.com")));
    assert_eq!(resp.manager_address, "mgr@x.com");
    assert_eq!(resp.agent_signature, "sig");
    assert_eq!(resp.agent_persona, "persona");
}

#[test]
fn apply_domain_meta_leaves_bare_domain_empty() {
    // Bare domain has no meta row → fields stay empty.
    let mut resp: SystemDomainResponse = domain_record("x.com").into();
    apply_domain_meta(&mut resp, None);
    assert_eq!(resp.manager_address, "");
    assert_eq!(resp.agent_signature, "");
    assert_eq!(resp.agent_persona, "");
}

#[test]
fn enrich_fills_addresses_only() {
    let metas = vec![meta_record("agent@x.com", "old@x.com"), meta_record("agent@x.com", "m@x.com")];
    let shown = enrich(
        vec![domain_record("x.com"), domain_record("agent@x.com"), domain_record("other@x.com")],
        &metas,
    );
    assert_eq!(shown.len(), 3);
    assert_eq!(shown[0].manager_address, "");
    assert_eq!(shown[1].manager_address, "m@x.com");
    assert_eq!(shown[1].domain, "agent@x.com");
    assert_eq!(shown[2].agent_persona, "");
}

#[test]
fn create_domain_goes_through() {
    let (action, m) =
        doing(create_system_domain(system_key(), "sys1".to_string(), create_request("x.com")));
    assert_eq!(action, Action::RequireScope { rule: ScopeRule::System });
    assert_eq!(ScopeRule::System.names(), vec!["system".to_string()]);
    let (action, m) = doing(m.resume(Event::Access(Ok(()))));
    assert_eq!(action, Action::ResolveSystem { system_id: "sys1".to_string() });
    let (action, m) = doing(m.resume(Event::Found(Ok(true))));
    assert_eq!(action, Action::AdmitDomain { system_id: "sys1".to_string() });
    let (action, m) = doing(m.resume(Event::Admission(Ok(()))));
    assert_eq!(
        action,
        Action::CreateDomain {
            id: "d1".to_string(),
            system_id: "sys1".to_string(),
            domain: "x.com".to_string(),
            webhook_url: Some("https://hook".to_string()),
            webhook_secret: None,
            manager_address: None,
        }
    );
    let reply = replied(m.resume(Event::Domain(Ok(domain_record("x.com")))));
    assert_eq!(
        reply,
        Reply::Success { status: 201, body: Body::Domain(domain_record("x.com").into()) }
    );
}

#[test]
fn create_domain_rejects_addresses() {
    let (_, m) =
        doing(create_system_domain(system_key(), "sys1".to_string(), create_request("a@x.com")));
    assert_eq!(
        replied(m.resume(Event::Access(Ok(())))),
        failed(
            400,
            "invalid_domain",
            Some("Use POST /api/v1/admin/systems/{sid}/addresses to register agent email addresses"),
        )
    );
}

#[test]
fn create_domain_matches_domain_for_other_keys() {
    let (_, m) = doing(create_system_domain(
        key(no_scopes()),
        "sys1".to_string(),
        create_request("x.com"),
    ));
    let (action, m) = doing(m.resume(Event::Access(Ok(()))));
    assert_eq!(action, Action::RequireDomainMatch { domain: "x.com".to_string() });
    let refusal = Failure {
        status: 403,
        response: ErrorResponse { error: "domain".to_string(), detail: None },
    };
    assert_eq!(
        replied(m.resume(Event::Access(Err(refusal)))),
        failed(403, "domain", None)
    );
}

#[test]
fn create_domain_reports_each_failure() {
    let start = || {
        let (_, m) =
            doing(create_system_domain(system_key(), "sys1".to_string(), create_request("x.com")));
        doing(m.resume(Event::Access(Ok(())))).1
    };
    assert_eq!(
        replied(start().resume(Event::Found(Ok(false)))),
        failed(404, "System not found", None)
    );
    assert_eq!(
        replied(start().resume(Event::Found(Err(broken())))),
        failed(500, "Database error", Some("disk full"))
    );
    let (_, m) = doing(start().resume(Event::Found(Ok(true))));
    assert_eq!(
        replied(m.resume(Event::Admission(Err("ten at most".to_string())))),
        failed(403, "quota_exceeded", Some("ten at most"))
    );
    let (_, m) = doing(start().resume(Event::Found(Ok(true))));
    let (_, m) = doing(m.resume(Event::Admission(Ok(()))));
    assert_eq!(
        replied(m.resume(Event::Domain(Err(broken())))),
        failed(500, "Database error", Some("disk full"))
    );
}

#[test]
fn list_domains_is_kept_to_the_system() {
    let (action, m) = doing(list_system_domains(system_key(), "sys2".to_string()));
    assert_eq!(action, Action::RequireScope { rule: ScopeRule::System });
    assert_eq!(
        replied(m.resume(Event::Access(Ok(())))),
        failed(
            403,
            "Cross-system access denied",
            Some("Key system 'sys1' cannot list domains of system 'sys2'"),
        )
    );
    let platform = key(Scopes { platform_admin: true, admin: true, ..no_scopes() });
    let (action, m) = doing(list_system_domains(platform, "sys2".to_string()));
    assert_eq!(action, Action::ListDomains { system_id: "sys2".to_string() });
    let (action, m) =
        doing(m.resume(Event::Domains(Ok(vec![domain_record("agent@x.com")]))));
    assert_eq!(action, Action::ListMetas { system_id: "sys2".to_string() });
    match replied(m.resume(Event::Metas(Ok(vec![meta_record("agent@x.com", "m@x.com")])))) {
        Reply::Success { status: 200, body: Body::Domains(shown) } => {
            assert_eq!(shown[0].manager_address, "m@x.com");
        }
        other => panic!("{:?}", other),
    }
}

#[test]
fn list_domains_does_without_metadata() {
    let (_, m) = doing(list_system_domains(system_key(), "sys1".to_string()));
    let (_, m) = doing(m.resume(Event::Access(Ok(()))));
    let (_, m) = doing(m.resume(Event::Domains(Ok(vec![domain_record("agent@x.com")]))));
    assert_eq!(
        replied(m.resume(Event::Metas(Err(broken())))),
        Reply::Success {
            status: 200,
            body: Body::Domains(vec![domain_record("agent@x.com").into()]),
        }
    );
}

#[test]
fn check_domain_wants_a_domain() {
    let (action, m) = doing(check_domain_exists(None));
    assert_eq!(action, Action::RequireScope { rule: ScopeRule::PlatformOrSystem });
    assert_eq!(
        replied(m.resume(Event::Access(Ok(())))),
        failed(400, "Missing 'domain' query parameter", None)
    );
}

#[test]
fn check_domain_tells_whether_it_exists() {
    for (found, text) in [(None, "{\"exists\":false}"), (Some(domain_record("x.com")), "{\"exists\":true}")] {
        let (_, m) = doing(check_domain_exists(Some("x.com".to_string())));
        let (action, m) = doing(m.resume(Event::Access(Ok(()))));
        assert_eq!(action, Action::LookupDomainAddr { key: "x.com".to_string() });
        match replied(m.resume(Event::MaybeDomain(Ok(found)))) {
            Reply::Success { status: 200, body: Body::Value(value) } => {
                assert_eq!(value.to_string(), text);
            }
            other => panic!("{:?}", other),
        }
    }
}

#[test]
fn update_domain_shows_metadata_of_addresses() {
    let req = UpdateSystemDomainRequest {
        webhook_url: None,
        webhook_secret: None,
        is_active: Some(false),
    };
    let (_, m) = doing(update_system_domain(key(no_scopes()), "d1".to_string(), req));
    let (action, m) = doing(m.resume(Event::Access(Ok(()))));
    assert_eq!(action, Action::ResolveDomain { id: "d1".to_string() });
    let (action, m) = doing(m.resume(Event::MaybeDomain(Ok(Some(domain_record("agent@x.com"))))));
    assert_eq!(action, Action::RequireDomainMatch { domain: "x.com".to_string() });
    let (action, m) = doing(m.resume(Event::Access(Ok(()))));
    assert_eq!(
        action,
        Action::UpdateDomain {
            id: "d1".to_string(),
            webhook_url: None,
            webhook_secret: None,
            is_active: Some(false),
        }
    );
    let (action, m) = doing(m.resume(Event::MaybeDomain(Ok(Some(domain_record("agent@x.com"))))));
    assert_eq!(action, Action::ResolveMeta { email: "agent@x.com".to_string() });
    match replied(m.resume(Event::MaybeMeta(Ok(Some(meta_record("agent@x.com", "m@x.com")))))) {
        Reply::Success { status: 200, body: Body::Domain(shown) } => {
            assert_eq!(shown.manager_address, "m@x.com");
        }
        other => panic!("{:?}", other),
    }
}

#[test]
fn update_domain_reports_missing() {
    let req = || UpdateSystemDomainRequest {
        webhook_url: None,
        webhook_secret: None,
        is_active: None,
    };
    let (_, m) = doing(update_system_domain(system_key(), "d1".to_string(), req()));
    let (_, m) = doing(m.resume(Event::Access(Ok(()))));
    assert_eq!(
        replied(m.resume(Event::MaybeDomain(Ok(None)))),
        failed(404, "System domain not found", None)
    );
    let (_, m) = doing(update_system_domain(system_key(), "d1".to_string(), req()));
    let (_, m) = doing(m.resume(Event::Access(Ok(()))));
    let (_, m) = doing(m.resume(Event::MaybeDomain(Ok(Some(domain_record("x.com"))))));
    assert_eq!(
        replied(m.resume(Event::MaybeDomain(Ok(None)))),
        failed(404, "System domain not found", None)
    );
}

#[test]
fn delete_domain_replies_without_body() {
    let (_, m) = doing(delete_system_domain(system_key(), "d1".to_string()));
    let (_, m) = doing(m.resume(Event::Access(Ok(()))));
    let (action, m) = doing(m.resume(Event::MaybeDomain(Ok(Some(domain_record("x.com"))))));
    assert_eq!(action, Action::DeleteDomain { id: "d1".to_string() });
    assert_eq!(
        replied(m.resume(Event::Done(Ok(())))),
        Reply::Success { status: 204, body: Body::Empty }
    );
}

#[test]
fn an_event_that_does_not_fit_is_a_mismatch() {
    let (_, m) = doing(delete_system_domain(system_key(), "d1".to_string()));
    assert!(matches!(m.resume(Event::Count(Ok(1))), Next::Mismatch));
}
