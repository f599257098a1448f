use amail_api::router::{create_router, Endpoint, Handler, Method, Section, Slot};

#[test]
fn routes_do_not_clash() {
    let routes = create_router(false, false, false, false);
    assert_eq!(routes.len(), 42);
    for (i, one) in routes.iter().enumerate() {
        for other in &routes[i + 1..] {
            assert!(one.path != other.path || one.method != other.method, "{:?}", one);
        }
    }
}

#[test]
fn only_three_kinds_of_route_are_open() {
    for route in create_router(true, true, true, true) {
        let open = route.path == "/health"
            || route.path == "/api/v1/activate-address"
            || route.path.starts_with("/api/v1/board/");
        assert_eq!(open, route.section != Section::Api, "{:?}", route);
    }
}

#[test]
fn slots_replace_endpoints() {
    let plain = create_router(false, false, false, false);
    let filled = create_router(true, true, true, true);
    let changed: Vec<(Handler, Handler, Option<Method>)> = plain
        .iter()
        .zip(filled.iter())
        .filter(|(p, f)| p != f)
        .map(|(p, f)| (p.handler, f.handler, f.method))
        .collect();
    assert_eq!(
        changed,
        vec![
            (Handler::Endpoint(Endpoint::SendEmail), Handler::Slot(Slot::Send), None),
            (
                Handler::Endpoint(Endpoint::CreateSystemDomain),
                Handler::Slot(Slot::CreateDomain),
                None,
            ),
            (
                Handler::Endpoint(Endpoint::ListSystemDomains),
                Handler::Slot(Slot::ListDomains),
                None,
            ),
            (
                Handler::Endpoint(Endpoint::CreateWhitelist),
                Handler::Slot(Slot::CreateWhitelist),
                Some(Method::Post),
            ),
        ]
    );
}

#[test]
fn endpoints_stand_where_they_should() {
    assert_eq!(Endpoint::RenameAgentAddress.path(), "/api/v1/admin/systems/:sid/addresses/rename");
    assert_eq!(Endpoint::RenameAgentAddress.method(), Method::Post);
    assert_eq!(Endpoint::UpdateWhitelistByParams.path(), "/api/v1/whitelists");
    assert_eq!(Endpoint::UpdateWhitelistByParams.method(), Method::Put);
    assert_eq!(Endpoint::BoardHeartbeat.path(), "/api/v1/board/:board_id/task/:task_id/heartbeat");
    assert_eq!(Endpoint::BoardHeartbeat.section(), Section::Board);
    assert_eq!(Endpoint::HealthCheck.section(), Section::Health);
    assert_eq!(Endpoint::ActivateAddress.section(), Section::Activation);
}
