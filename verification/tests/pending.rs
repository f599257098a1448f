use amail_api::pending::{
    ack_pending_deliveries, batch_deliveries, enter_delivery, filter_of_poll, hash_payload,
    list_pending_deliveries, preprocess_pending_filter,
};
use amail_api::protocol::{Action, Event, Machine, Next, ScopeRule};
use amail_api::types::{
    default_limit, AckRequest, ApiKeyRecord, Body, ErrorResponse, Failure, PendingDelivery,
    PendingPollRequest, Reply, Scopes, StoreError,
};

fn key() -> ApiKeyRecord {
    ApiKeyRecord {
        id: 7,
        system_id: "sys1".to_string(),
        email_address: String::new(),
        scopes: Scopes {
            platform_admin: false,
            system_admin: true,
            agent_admin: false,
            agent: false,
            admin: true,
        },
    }
}

fn delivery(id: i64, email: &str, headers: &str, payload: &str) -> PendingDelivery {
    PendingDelivery {
        id,
        email: email.to_string(),
        headers: headers.to_string(),
        payload: payload.to_string(),
    }
}

fn strings(list: &[&str]) -> Vec<String> {
    list.iter().map(|s| s.to_string()).collect()
}

fn doing<M>(next: Next<M>) -> (Action, M) {
    match next {
        Next::Do(action, machine) => (action, machine),
        _ => panic!("an action was expected"),
    }
}

fn replied<M>(next: Next<M>) -> Reply {
    match next {
        Next::Reply(reply) => reply,
        _ => panic!("a reply was expected"),
    }
}

fn failed(status: u16, error: &str, detail: Option<&str>) -> Reply {
    Reply::Failed(Failure {
        status,
        response: ErrorResponse {
            error: error.to_string(),
            detail: detail.map(|d| d.to_string()),
        },
    })
}

fn text(reply: Reply) -> String {
    match reply {
        Reply::Success { status: 200, body: Body::Value(value) } => value.to_string(),
        other => panic!("{:?}", other),
    }
}

#[test]
fn test_domain_absorbs_exact() {
    let r = preprocess_pending_filter(&["x.com".into(), "alice@x.com".into()]);
    assert_eq!(r, vec!["x.com"]);
}

#[test]
fn test_unmatched_preserved() {
    let r = preprocess_pending_filter(&["x.com".into(), "bob@y.com".into()]);
    assert_eq!(r.len(), 2);
    assert!(r.contains(&"x.com".to_string()));
    assert!(r.contains(&"bob@y.com".to_string()));
}

#[test]
fn filters_are_trimmed_and_ordered() {
    let raw = strings(&[" bob@y.com ", "", "x.com", "  ", ".*@x.com", " x.com", "z.com", "bob@y.com"]);
    assert_eq!(
        preprocess_pending_filter(&raw),
        strings(&["x.com", "z.com", "bob@y.com", "bob@y.com"])
    );
    let only = strings(&["a@y.com", " a@y.com"]);
    assert_eq!(preprocess_pending_filter(&only), strings(&["a@y.com", "a@y.com"]));
    assert_eq!(preprocess_pending_filter(&[]), Vec::<String>::new());
    assert_eq!(
        preprocess_pending_filter(&strings(&["x.com", "a@sub.x.com"])),
        strings(&["x.com", "a@sub.x.com"])
    );
}

#[test]
fn polls_prefer_the_filter() {
    let emails = strings(&["a@x.com", "b@y.com", "c@x.com", "bare"]);
    assert_eq!(
        filter_of_poll(&emails, &vec![]),
        Some(strings(&["x.com", "y.com", "bare"]))
    );
    assert_eq!(filter_of_poll(&emails, &strings(&["z.com"])), Some(strings(&["z.com"])));
    assert_eq!(filter_of_poll(&emails, &strings(&[" "])), None);
    assert_eq!(filter_of_poll(&vec![], &vec![]), None);
}

#[test]
fn equal_payloads_are_batched() {
    assert_eq!(hash_payload("one"), hash_payload("one"));
    assert_ne!(hash_payload("one"), hash_payload("two"));
    let batches = batch_deliveries(vec![
        delivery(1, "a@x.com", "{}", "one"),
        delivery(2, "b@x.com", "{}", "two"),
        delivery(3, "c@x.com", "{}", "one"),
    ]);
    let ids: Vec<Vec<i64>> =
        batches.iter().map(|b| b.iter().map(|d| d.id).collect()).collect();
    assert_eq!(ids, vec![vec![1, 3], vec![2]]);
}

#[test]
fn a_poll_shows_batches() {
    let req = PendingPollRequest { limit: default_limit(), emails: vec![], filter: strings(&["x.com"]) };
    let (action, m) = doing(list_pending_deliveries(key(), req));
    assert_eq!(action, Action::RequireScope { rule: ScopeRule::SystemOrBridge });
    assert_eq!(ScopeRule::SystemOrBridge.names(), strings(&["system", "bridge"]));
    let (action, m) = doing(m.resume(Event::Access(Ok(()))));
    assert_eq!(
        action,
        Action::ListPendingDeliveries {
            system_id: "sys1".to_string(),
            limit: 20,
            domains: Some(strings(&["x.com"])),
        }
    );
    let records = vec![
        delivery(1, "a@x.com", "{\"h\":1}", "{\"n\":-4,\"b\":true}"),
        delivery(-2, "b@x.com", "no json", "no json"),
        delivery(3, "c@x.com", "[]", "{\"n\":-4,\"b\":true}"),
    ];
    assert_eq!(
        text(replied(m.resume(Event::Pending(Ok(records))))),
        "{\"batches\":[{\"body\":{\"b\":true,\"n\":-4},\"deliveries\":[{\"email\":\"a@x.com\",\"headers\":{\"h\":1},\"id\":1},{\"email\":\"c@x.com\",\"headers\":[],\"id\":3}]},{\"body\":null,\"deliveries\":[{\"email\":\"b@x.com\",\"headers\":null,\"id\":-2}]}]}"
    );
}

#[test]
fn a_poll_can_be_empty_or_fail() {
    let start = || {
        let req = PendingPollRequest { limit: 5, emails: vec![], filter: vec![] };
        let (_, m) = doing(list_pending_deliveries(key(), req));
        doing(m.resume(Event::Access(Ok(()))))
    };
    let (action, m) = start();
    assert_eq!(
        action,
        Action::ListPendingDeliveries { system_id: "sys1".to_string(), limit: 5, domains: None }
    );
    assert_eq!(text(replied(m.resume(Event::Pending(Ok(vec![]))))), "{\"batches\":[]}");
    let broken = StoreError { conflict: false, message: "down".to_string() };
    assert_eq!(
        replied(start().1.resume(Event::Pending(Err(broken)))),
        failed(500, "Database error", Some("down"))
    );
}

#[test]
fn acks_are_counted_and_limited() {
    let (_, m) = doing(ack_pending_deliveries(AckRequest { ids: vec![1; 501] }));
    assert_eq!(
        replied(m.resume(Event::Access(Ok(())))),
        failed(400, "too many ids", Some("max 500 ids per ACK"))
    );
    let (_, m) = doing(ack_pending_deliveries(AckRequest { ids: vec![1; 500] }));
    let (action, m) = doing(m.resume(Event::Access(Ok(()))));
    assert_eq!(action, Action::AckDeliveries { ids: vec![1; 500] });
    assert_eq!(text(replied(m.resume(Event::Count(Ok(499))))), "{\"acked\":499}");
}

#[test]
fn deliveries_enter_the_batch_of_their_hash() {
    let mut hashes: Vec<u64> = vec![5];
    let mut batches = vec![vec![delivery(1, "a@x.com", "{}", "p")]];
    enter_delivery(&mut hashes, &mut batches, 5, delivery(2, "b@x.com", "{}", "other"));
    enter_delivery(&mut hashes, &mut batches, 6, delivery(3, "c@x.com", "{}", "p"));
    assert_eq!(hashes, vec![5, 6]);
    let ids: Vec<Vec<i64>> = batches.iter().map(|b| b.iter().map(|d| d.id).collect()).collect();
    assert_eq!(ids, vec![vec![1, 2], vec![3]]);
}

#[test]
fn domains_absorb_regexes() {
    assert_eq!(
        preprocess_pending_filter(&strings(&["x.com", r".*@x\.com"])),
        strings(&["x.com"])
    );
    assert_eq!(
        preprocess_pending_filter(&strings(&[r"a.*@mail\.x\.com", "mail.x.com", r".*@y\.com"])),
        strings(&["mail.x.com", r".*@y\.com"])
    );
    assert_eq!(
        preprocess_pending_filter(&strings(&["x.com", r".*@xzcom", r".*@x\\.com"])),
        strings(&["x.com", r".*@xzcom", r".*@x\\.com"])
    );
}
