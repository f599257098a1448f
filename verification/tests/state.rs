use std::collections::BTreeMap;

use amail_api::agent_state::{delete_agent_state, get_agent_state, put_agent_state};
use amail_api::contact_profile::{get_contact_profile, put_contact_profile};
use amail_api::contact_search::{enter, get_contacts_by_name, split_batch};
use amail_api::contacts::{
    add_to_name_index, addresses_in_index, addresses_in_value, key_of_name, key_of_profile,
    merge_profile_json, merge_profiles, name_in_profile, name_in_value, patch_value, remove_from_name_index,
};
use amail_api::protocol::{Action, Event, Machine, Next, ScopeRule};
use amail_api::types::{
    AgentStatePutRequest, ApiKeyRecord, Body, ContactProfileRequest, ContactsByNameQuery,
    DomainAddrMetaRecord, ErrorResponse, Failure, Reply, Scopes, StoreError,
};

type States = BTreeMap<(String, String), String>;

fn key(email: &str) -> ApiKeyRecord {
    ApiKeyRecord {
        id: 7,
        system_id: "sys1".to_string(),
        email_address: email.to_string(),
        scopes: Scopes {
            platform_admin: false,
            system_admin: false,
            agent_admin: false,
            agent: true,
            admin: false,
        },
    }
}

fn failed(status: u16, error: &str, detail: Option<&str>) -> Reply {
    Reply::Failed(Failure {
        status,
        response: ErrorResponse {
            error: error.to_string(),
            detail: detail.map(|d| d.to_string()),
        },
    })
}

fn persona() -> DomainAddrMetaRecord {
    DomainAddrMetaRecord {
        email_address: "me@x.com".to_string(),
        system_id: "sys1".to_string(),
        manager_address: String::new(),
        agent_signature: String::new(),
        agent_persona: "a helper".to_string(),
        is_active: true,
        created_at: "t".to_string(),
        updated_at: "t".to_string(),
    }
}

fn answer(action: Action, states: &mut States) -> Event {
    match action {
        Action::RequireScope { rule } => {
            assert!(matches!(rule, ScopeRule::Agent | ScopeRule::AgentOrAdmin));
            Event::Access(Ok(()))
        }
        Action::StateGet { agent, key } => {
            let value = states.get(&(agent, key.clone())).cloned();
            Event::State(Ok(value.map(|v| (key, v))))
        }
        Action::StatePut { agent, key, value } => {
            states.insert((agent, key), value);
            Event::Done(Ok(()))
        }
        Action::StateDelete { agent, key } => {
            states.remove(&(agent, key));
            Event::Done(Ok(()))
        }
        Action::StripPersona { address } => Event::Text(match address.split_once('.') {
            Some((_, base)) if base.contains('@') => base.to_string(),
            _ => address,
        }),
        Action::GetMetaRow { .. } => Event::MaybeMeta(Ok(Some(persona()))),
        other => panic!("{:?}", other),
    }
}

fn run<M: Machine>(next: Next<M>, states: &mut States) -> Reply {
    let mut next = next;
    loop {
        match next {
            Next::Reply(reply) => return reply,
            Next::Do(action, machine) => {
                let event = answer(action, states);
                next = machine.resume(event);
            }
            Next::Mismatch => panic!("the event does not fit"),
        }
    }
}

fn text(reply: Reply) -> String {
    match reply {
        Reply::Success { status: 200, body: Body::Value(value) } => value.to_string(),
        other => panic!("{:?}", other),
    }
}

fn put(states: &mut States, address: &str, profile: &str) {
    let req = ContactProfileRequest { profile: profile.to_string() };
    let reply = run(put_contact_profile(address.to_string(), key("me@x.com"), req), states);
    assert_eq!(text(reply), "{\"success\":true}");
}

fn by_name(name: &str) -> ContactsByNameQuery {
    ContactsByNameQuery { name: Some(name.to_string()), addresses: None }
}

fn search(states: &mut States, name: &str) -> String {
    text(run(get_contacts_by_name(by_name(name), key("me@x.com")), states))
}

fn batch(states: &mut States, addresses: &str) -> String {
    let query = ContactsByNameQuery { name: None, addresses: Some(addresses.to_string()) };
    text(run(get_contacts_by_name(query, key("me@x.com")), states))
}

fn sender() -> String {
    "noreply@mail.x.com".to_string()
}

#[test]
fn state_is_read_back_until_deleted() {
    let mut states = States::new();
    let req = AgentStatePutRequest { value: "v".to_string() };
    let reply = run(put_agent_state("k".to_string(), key("me@x.com"), req), &mut states);
    assert_eq!(text(reply), "{\"success\":true}");
    assert_eq!(
        text(run(get_agent_state("k".to_string(), key("me@x.com")), &mut states)),
        "{\"key\":\"k\",\"value\":\"v\"}"
    );
    assert_eq!(
        run(get_agent_state("k".to_string(), key("you@x.com")), &mut states),
        failed(404, "agent_state entry not found", None)
    );
    assert_eq!(
        run(delete_agent_state("k".to_string(), key("me@x.com")), &mut states),
        Reply::Success { status: 204, body: Body::Empty }
    );
    assert_eq!(
        run(get_agent_state("k".to_string(), key("me@x.com")), &mut states),
        failed(404, "agent_state entry not found", None)
    );
}

#[test]
fn state_and_contacts_need_an_address() {
    let mut states = States::new();
    let no_state = failed(403, "agent state requires a non-empty email_address — system-level keys must use an agent-scoped key for this endpoint", None);
    let req = AgentStatePutRequest { value: "v".to_string() };
    assert_eq!(run(get_agent_state("k".to_string(), key("")), &mut states), no_state);
    assert_eq!(run(put_agent_state("k".to_string(), key(""), req), &mut states), no_state);
    assert_eq!(run(delete_agent_state("k".to_string(), key("")), &mut states), no_state);
    let no_contacts = failed(403, "contacts require a non-empty email_address — system-level keys must use an agent-scoped key for this endpoint", None);
    let req = ContactProfileRequest { profile: "{}".to_string() };
    assert_eq!(run(put_contact_profile("a".to_string(), key(""), req), &mut states), no_contacts);
    assert_eq!(
        run(get_contact_profile("a".to_string(), key(""), sender()), &mut states),
        no_contacts
    );
    assert_eq!(run(get_contacts_by_name(by_name("n"), key("")), &mut states), no_contacts);
    assert!(states.is_empty());
}

#[test]
fn state_failures_are_reported() {
    let broken = || StoreError { conflict: false, message: "down".to_string() };
    let reported = failed(500, "database error", Some("down"));
    let granted = |next: Next<amail_api::agent_state::GetAgentState>| match next {
        Next::Do(_, m) => match m.resume(Event::Access(Ok(()))) {
            Next::Do(_, m) => m,
            _ => panic!("an action was expected"),
        },
        _ => panic!("an action was expected"),
    };
    let m = granted(get_agent_state("k".to_string(), key("me@x.com")));
    assert_eq!(m.resume(Event::State(Err(broken()))), Next::Reply(reported));
}

#[test]
fn refusals_end_state_requests() {
    let refusal = Failure {
        status: 401,
        response: ErrorResponse { error: "no".to_string(), detail: None },
    };
    match get_agent_state("k".to_string(), key("me@x.com")) {
        Next::Do(_, m) => assert_eq!(
            m.resume(Event::Access(Err(refusal))),
            Next::Reply(failed(401, "no", None))
        ),
        _ => panic!("an action was expected"),
    }
}

#[test]
fn keys_tell_profiles_from_names() {
    assert_eq!(key_of_profile("Ann@y.com"), "profile:Ann@y.com");
    assert_eq!(key_of_name("ANN Été"), "name:ann été");
}

#[test]
fn names_are_found_in_profiles() {
    assert_eq!(name_in_profile("{\"name\":\"Ann\"}"), "Ann");
    assert_eq!(name_in_profile("{\"name\":7}"), "");
    assert_eq!(name_in_profile("[\"name\"]"), "");
    assert_eq!(name_in_profile("no json"), "");
}

#[test]
fn merge_takes_new_fields() {
    assert_eq!(
        merge_profile_json("{\"a\":1,\"b\":[1,2],\"c\":{\"d\":1}}", "{\"b\":[3],\"c\":{},\"e\":null}"),
        "{\"a\":1,\"b\":[3],\"c\":{},\"e\":null}"
    );
    assert_eq!(merge_profile_json("no json", "{\"a\":1}"), "{\"a\":1}");
    assert_eq!(merge_profile_json("{\"a\":1}", "no json"), "{\"a\":1}");
    assert_eq!(merge_profile_json("[ 1 ]", "{\"a\":1}"), "[1]");
    assert_eq!(merge_profile_json("{\"a\":1}", "[2]"), "{\"a\":1}");
    let once = merge_profile_json("{\"a\":1}", "{\"b\":2}");
    assert_eq!(merge_profile_json(&once, "{\"b\":2}"), once);
}

#[test]
fn merging_with_no_fields_changes_nothing() {
    let profile = "{\"a\":-1,\"b\":[18446744073709551615,\"\\u0007\\\"\"],\"c\":{\"d\":null}}";
    assert_eq!(merge_profile_json(profile, "{}"), profile);
    assert_eq!(merge_profile_json("{}", profile), profile);
    assert_eq!(merge_profile_json("{}", "{}"), "{}");
    let once = merge_profile_json(" { \"z\" : 1, \"a\" : 2 } ", profile);
    assert_eq!(merge_profile_json(&once, profile), once);
    assert_eq!(merge_profile_json(&once, "{}"), once);
}

#[test]
fn deep_profiles_read_back_up_to_a_limit() {
    let deep = format!("{{\"a\":{}{}}}", "[".repeat(126), "]".repeat(126));
    assert_eq!(merge_profile_json(&deep, "{}"), deep);
    assert_eq!(merge_profile_json(&merge_profile_json("{}", &deep), &deep), deep);
    let deeper = format!("{{\"a\":{}{}}}", "[".repeat(127), "]".repeat(127));
    assert_eq!(merge_profile_json(&deeper, "{}"), "{}");
}

#[test]
fn the_index_takes_each_address_once() {
    let one = add_to_name_index(None, "a@y.com");
    assert_eq!(one, "{\"addresses\":[\"a@y.com\"]}");
    let two = add_to_name_index(Some(one.as_str()), "b\"@y.com");
    assert_eq!(two, "{\"addresses\":[\"a@y.com\",\"b\\\"@y.com\"]}");
    assert_eq!(add_to_name_index(Some(two.as_str()), "a@y.com"), two);
    assert_eq!(addresses_in_index(&two), vec!["a@y.com".to_string(), "b\"@y.com".to_string()]);
    assert_eq!(addresses_in_index("{\"addresses\":[1]}"), Vec::<String>::new());
    assert_eq!(addresses_in_index("{}"), Vec::<String>::new());
    assert_eq!(addresses_in_index("broken"), Vec::<String>::new());
}

#[test]
fn the_index_gives_addresses_up() {
    let two = add_to_name_index(Some("{\"addresses\":[\"a@y.com\"]}"), "b@y.com");
    let one = remove_from_name_index(&two, "a@y.com");
    assert_eq!(one.as_deref(), Some("{\"addresses\":[\"b@y.com\"]}"));
    assert_eq!(remove_from_name_index("{\"addresses\":[\"b@y.com\"]}", "b@y.com"), None);
    assert_eq!(remove_from_name_index("broken", "b@y.com"), None);
}

#[test]
fn a_contact_is_found_by_name_and_address() {
    let mut states = States::new();
    put(&mut states, "ann@y.com", "{\"name\":\"Ann\"}");
    put(&mut states, "bea@y.com", "{\"name\":\"ANN\"}");
    assert_eq!(
        search(&mut states, "  ann "),
        "{\"results\":[{\"address\":\"ann@y.com\",\"profile\":\"{\\\"name\\\":\\\"Ann\\\"}\"},{\"address\":\"bea@y.com\",\"profile\":\"{\\\"name\\\":\\\"ANN\\\"}\"}]}"
    );
    let read = run(
        get_contact_profile("ann@y.com".to_string(), key("me@x.com"), sender()),
        &mut states,
    );
    assert_eq!(
        text(read),
        "{\"address\":\"ann@y.com\",\"profile\":\"{\\\"name\\\":\\\"Ann\\\"}\"}"
    );
    assert_eq!(
        run(get_contact_profile("ann@y.com".to_string(), key("you@x.com"), sender()), &mut states),
        failed(404, "contact not found", None)
    );
}

#[test]
fn a_changed_name_leaves_its_index() {
    let mut states = States::new();
    put(&mut states, "ann@y.com", "{\"name\":\"Ann\",\"age\":3}");
    put(&mut states, "ann@y.com", "{\"name\":\"Anna\"}");
    assert_eq!(search(&mut states, "ann"), "{\"results\":[]}");
    assert_eq!(
        search(&mut states, "anna"),
        "{\"results\":[{\"address\":\"ann@y.com\",\"profile\":\"{\\\"age\\\":3,\\\"name\\\":\\\"Anna\\\"}\"}]}"
    );
    assert!(!states.contains_key(&("me@x.com".to_string(), "name:ann".to_string())));
}

#[test]
fn the_system_sender_is_a_known_contact() {
    let mut states = States::new();
    let read = run(
        get_contact_profile(" NoReply@mail.x.com".to_string(), key("me@x.com"), sender()),
        &mut states,
    );
    assert_eq!(
        text(read),
        "{\"address\":\" NoReply@mail.x.com\",\"profile\":{\"auto_mail\":true,\"type\":\"system\"}}"
    );
}

#[test]
fn a_batch_has_each_address_once() {
    assert_eq!(
        split_batch(" Ann@y.com ,bea@y.com,, ANN@y.com"),
        vec!["ann@y.com".to_string(), "bea@y.com".to_string()]
    );
    assert_eq!(split_batch(" , "), Vec::<String>::new());
}

#[test]
fn a_batch_tells_sender_from_recipients() {
    let mut states = States::new();
    put(&mut states, "ann@y.com", "A");
    put(&mut states, "vip.bea@y.com", "B");
    put(&mut states, "cat@y.com", "C");
    assert_eq!(
        batch(&mut states, "cat@y.com,work.Ann@y.com,vip.bea@y.com,none@y.com"),
        "{\"my_profile\":{\"address\":\"me@x.com\",\"profile\":\"a helper\"},\"recipients_profile\":{\"vip.bea@y.com\":\"B\",\"work.ann@y.com\":\"A\"},\"results\":[{\"address\":\"cat@y.com\",\"profile\":\"C\"},{\"address\":\"work.ann@y.com\",\"profile\":\"A\"},{\"address\":\"vip.bea@y.com\",\"profile\":\"B\"}],\"sender_profile\":{\"cat@y.com\":\"C\"}}"
    );
}

#[test]
fn a_batch_without_persona_shows_null() {
    let query = ContactsByNameQuery { name: None, addresses: Some("a@y.com".to_string()) };
    let m = match get_contacts_by_name(query, key("me@x.com")) {
        Next::Do(_, m) => m,
        _ => panic!("an action was expected"),
    };
    let m = match m.resume(Event::Access(Ok(()))) {
        Next::Do(Action::GetMetaRow { email }, m) => {
            assert_eq!(email, "me@x.com");
            m
        }
        _ => panic!("an action was expected"),
    };
    let mut states = States::new();
    assert_eq!(
        text(run(m.resume(Event::MaybeMeta(Ok(None))), &mut states)),
        "{\"my_profile\":null,\"recipients_profile\":{},\"results\":[],\"sender_profile\":{}}"
    );
}

#[test]
fn a_batch_has_fifty_addresses_at_most() {
    let list = |n: usize| (0..n).map(|i| format!("a{}@y.com", i)).collect::<Vec<String>>().join(",");
    let mut states = States::new();
    let query = ContactsByNameQuery { name: None, addresses: Some(list(51)) };
    assert_eq!(
        run(get_contacts_by_name(query, key("me@x.com")), &mut states),
        failed(400, "too many addresses (max 50)", None)
    );
    let query = ContactsByNameQuery { name: None, addresses: Some(list(50)) };
    assert!(matches!(
        run(get_contacts_by_name(query, key("me@x.com")), &mut states),
        Reply::Success { status: 200, .. }
    ));
}

#[test]
fn a_search_needs_something_to_search_for() {
    let mut states = States::new();
    let asked = failed(400, "either name or addresses query parameter is required", None);
    for query in [
        ContactsByNameQuery { name: None, addresses: None },
        ContactsByNameQuery { name: Some("  ".to_string()), addresses: Some(" ".to_string()) },
    ] {
        assert_eq!(run(get_contacts_by_name(query, key("me@x.com")), &mut states), asked);
    }
    assert_eq!(search(&mut states, "nobody"), "{\"results\":[]}");
}

#[test]
fn contact_failures_are_reported() {
    let broken = || StoreError { conflict: false, message: "down".to_string() };
    let m = match get_contact_profile("a@y.com".to_string(), key("me@x.com"), sender()) {
        Next::Do(_, m) => m,
        _ => panic!("an action was expected"),
    };
    let m = match m.resume(Event::Access(Ok(()))) {
        Next::Do(_, m) => m,
        _ => panic!("an action was expected"),
    };
    assert_eq!(
        m.resume(Event::State(Err(broken()))),
        Next::Reply(failed(500, "database error", None))
    );
    let req = ContactProfileRequest { profile: "{}".to_string() };
    let m = match put_contact_profile("a@y.com".to_string(), key("me@x.com"), req) {
        Next::Do(_, m) => m,
        _ => panic!("an action was expected"),
    };
    let m = match m.resume(Event::Access(Ok(()))) {
        Next::Do(_, m) => m,
        _ => panic!("an action was expected"),
    };
    let m = match m.resume(Event::State(Err(broken()))) {
        Next::Do(action, m) => {
            assert_eq!(
                action,
                Action::StatePut {
                    agent: "me@x.com".to_string(),
                    key: "profile:a@y.com".to_string(),
                    value: "{}".to_string(),
                }
            );
            m
        }
        _ => panic!("an action was expected"),
    };
    assert_eq!(
        m.resume(Event::Done(Err(broken()))),
        Next::Reply(failed(500, "database error", Some("down")))
    );
}

#[test]
fn values_are_patched_and_searched() {
    let value = |text: &str| serde_json::from_str::<serde_json::Value>(text).unwrap();
    assert_eq!(
        patch_value(value("{\"a\":1}"), value("{\"a\":[2],\"b\":3}")).to_string(),
        "{\"a\":[2],\"b\":3}"
    );
    assert_eq!(patch_value(value("7"), value("{\"a\":1}")).to_string(), "7");
    assert_eq!(name_in_value(&value("{\"name\":\"Ann\"}")), "Ann");
    assert_eq!(addresses_in_value(&value("{\"addresses\":[\"a\",\"b\"]}")), vec!["a", "b"]);
    assert_eq!(addresses_in_value(&value("{\"addresses\":\"a\"}")), Vec::<String>::new());
}

#[test]
fn a_batch_takes_no_address_twice() {
    let mut addresses = vec!["a@y.com".to_string()];
    enter(&mut addresses, "b@y.com".to_string());
    enter(&mut addresses, String::new());
    enter(&mut addresses, "a@y.com".to_string());
    assert_eq!(addresses, vec!["a@y.com", "b@y.com"]);
}

#[test]
fn state_is_read_under_the_agent_scope() {
    match get_agent_state("k".to_string(), key("me@x.com")) {
        Next::Do(action, _) => {
            assert_eq!(action, Action::RequireScope { rule: ScopeRule::Agent });
        }
        _ => panic!("an action was expected"),
    }
    let req = AgentStatePutRequest { value: "v".to_string() };
    match put_agent_state("k".to_string(), key("me@x.com"), req) {
        Next::Do(action, _) => {
            assert_eq!(action, Action::RequireScope { rule: ScopeRule::AgentOrAdmin });
        }
        _ => panic!("an action was expected"),
    }
    assert_eq!(ScopeRule::Agent.names(), vec!["agent"]);
    assert_eq!(
        ScopeRule::AgentOrAdmin.names(),
        vec!["agent", "agent_admin", "system", "platform"]
    );
}

#[test]
fn a_profile_without_a_name_keeps_the_index() {
    let mut states = States::new();
    put(&mut states, "al@y.com", "{\"name\":\"Al\"}");
    put(&mut states, "al@y.com", "{\"note\":\"x\"}");
    let at = |k: &str| states.get(&("me@x.com".to_string(), k.to_string())).cloned();
    assert_eq!(at("profile:al@y.com").as_deref(), Some("{\"name\":\"Al\",\"note\":\"x\"}"));
    assert_eq!(at("name:al").as_deref(), Some("{\"addresses\":[\"al@y.com\"]}"));
    assert_eq!(
        search(&mut states, "AL"),
        "{\"results\":[{\"address\":\"al@y.com\",\"profile\":\"{\\\"name\\\":\\\"Al\\\",\\\"note\\\":\\\"x\\\"}\"}]}"
    );
}

#[test]
fn a_name_that_is_taken_away_leaves_its_index() {
    let mut states = States::new();
    put(&mut states, "al@y.com", "{\"name\":\"Al\"}");
    put(&mut states, "al@y.com", "{\"name\":null}");
    assert_eq!(search(&mut states, "al"), "{\"results\":[]}");
    assert!(!states.contains_key(&("me@x.com".to_string(), "name:al".to_string())));
}

#[test]
fn the_index_follows_the_stored_profile() {
    let mut states = States::new();
    put(&mut states, "al@y.com", "[1]");
    put(&mut states, "al@y.com", "{\"name\":\"Al\"}");
    assert_eq!(
        states.get(&("me@x.com".to_string(), "profile:al@y.com".to_string())).map(String::as_str),
        Some("[1]")
    );
    assert_eq!(search(&mut states, "al"), "{\"results\":[]}");
    assert_eq!(merge_profiles("{\"a\":1}", "{\"b\":2}").to_string(), "{\"a\":1,\"b\":2}");
}
