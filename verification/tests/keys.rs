use amail_api::keys::{rotate_own_key, rotate_own_key_to};
use amail_api::protocol::{Action, Event, Machine, Next};
use amail_api::types::{ApiKeyRecord, Body, ErrorResponse, Failure, Reply, Scopes, StoreError};

fn key() -> ApiKeyRecord {
    ApiKeyRecord {
        id: 7,
        system_id: "sys1".to_string(),
        email_address: "me@x.com".to_string(),
        scopes: Scopes {
            platform_admin: false,
            system_admin: false,
            agent_admin: false,
            agent: true,
            admin: false,
        },
    }
}

fn doing<M>(next: Next<M>) -> (Action, M) {
    match next {
        Next::Do(action, machine) => (action, machine),
        _ => panic!("an action was expected"),
    }
}

const UUID: &str = "936da01f-9abd-4d9d-80c7-02af85c822a8";

#[test]
fn rotation_stores_digest_and_prefix() {
    let (action, m) = doing(rotate_own_key_to(key(), UUID));
    assert_eq!(action, Action::Sha256Hex { text: "936da01f9abd4d9d80c702af85c822a8".to_string() });
    let (action, m) = doing(m.resume(Event::Text("digest".to_string())));
    assert_eq!(
        action,
        Action::RotateApiKey {
            id: 7,
            key_hash: "digest".to_string(),
            prefix: "936da01f".to_string(),
        }
    );
    match m.resume(Event::Found(Ok(true))) {
        Next::Reply(Reply::Success { status: 200, body: Body::Value(value) }) => assert_eq!(
            value.to_string(),
            "{\"raw_key\":\"936da01f9abd4d9d80c702af85c822a8\"}"
        ),
        other => panic!("{:?}", other),
    }
}

#[test]
fn rotation_reports_failures() {
    let rotate = || {
        let (_, m) = doing(rotate_own_key_to(key(), UUID));
        doing(m.resume(Event::Text("digest".to_string()))).1
    };
    let failed = |status: u16, error: &str, detail: Option<String>| {
        Next::Reply(Reply::Failed(Failure {
            status,
            response: ErrorResponse { error: error.to_string(), detail },
        }))
    };
    assert_eq!(rotate().resume(Event::Found(Ok(false))), failed(404, "API key not found", None));
    let broken = StoreError { conflict: false, message: "down".to_string() };
    assert_eq!(
        rotate().resume(Event::Found(Err(broken))),
        failed(500, "Database error", Some("down".to_string()))
    );
}

#[test]
fn new_secrets_are_random_digits() {
    let secret = || match doing(rotate_own_key(key())).0 {
        Action::Sha256Hex { text } => text,
        other => panic!("{:?}", other),
    };
    let one = secret();
    assert_eq!(one.len(), 32);
    assert!(one.chars().all(|c| c.is_ascii_digit() || ('a'..='f').contains(&c)));
    assert_eq!(one.chars().nth(12), Some('4'));
    assert_ne!(one, secret());
}
