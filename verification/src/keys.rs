//! Rotation of the key under which a request is made.

use vstd::prelude::*;

use crate::json::{new_object, object_value, set_field, text_value, JsonTree};
use crate::protocol::{
    fail, failure, storage_failed, storage_failure, succeed, success, Action, Event, EventView,
    Machine, Next, Plan, Waiting,
};
use crate::types::{ApiKeyRecord, Body, BodyView};

verus! {

/// Whether a character is a hexadecimal digit in lower case.
pub open spec fn lower_hex(c: char) -> bool {
    '0' <= c <= '9' || 'a' <= c <= 'f'
}

/// Whether a position of a hyphenated UUID holds a hyphen.
pub open spec fn hyphen_position(i: int) -> bool {
    i == 8 || i == 13 || i == 18 || i == 23
}

/// Whether a text is a random UUID, hyphenated and in lower case.
pub open spec fn random_uuid(text: Seq<char>) -> bool {
    &&& text.len() == 36
    &&& forall|i: int|
        0 <= i < 36 ==> if hyphen_position(i) {
            #[trigger] text[i] == '-'
        } else {
            lower_hex(text[i])
        }
    &&& text[14] == '4'
    &&& text[19] == '8' || text[19] == '9' || text[19] == 'a' || text[19] == 'b'
}

/// Calls `uuid::Uuid::new_v4` and prints what it returns: a UUID of version 4
/// and the standard variant, hyphenated and in lower case. Which one is left to
/// chance; where the operating system has no randomness to give, the call
/// panics.
#[verifier::external_body]
fn new_uuid() -> (text: String)
    ensures
        random_uuid(text@),
{
    uuid::Uuid::new_v4().to_string()
}

/// A text without its hyphens.
pub open spec fn without_hyphens(text: Seq<char>) -> Seq<char> {
    text.filter(|c: char| c != '-')
}

fn remove_hyphens(text: &str) -> (plain: String)
    ensures
        plain@ == without_hyphens(text@),
{
    let ghost stays = |c: char| c != '-';
    let mut plain = String::new();
    proof {
        reveal(Seq::filter);
        assert(plain@ == text@.take(0).filter(stays));
    }
    for c in iter: text.chars()
        invariant
            iter.seq() == text@,
            stays == (|c: char| c != '-'),
            plain@ == text@.take(iter.index() as int).filter(stays),
    {
        proof {
            reveal(Seq::filter);
            assert(text@.take(iter.index() + 1).drop_last() == text@.take(iter.index() as int));
        }
        if c != '-' {
            plain.push(c);
        }
    }
    assert(text@.take(text@.len() as int) == text@);
    plain
}

proof fn lemma_no_hyphens(text: Seq<char>)
    requires
        forall|i: int| 0 <= i < text.len() ==> #[trigger] text[i] != '-',
    ensures
        without_hyphens(text) == text,
    decreases text.len(),
{
    reveal(Seq::filter);
    if text.len() > 0 {
        assert(text[text.len() - 1] == text.last());
        lemma_no_hyphens(text.drop_last());
        assert(text.drop_last().push(text.last()) == text);
    }
}

proof fn lemma_hyphen()
    ensures
        without_hyphens(seq!['-']) == Seq::<char>::empty(),
{
    reveal_with_fuel(Seq::<_>::filter, 2);
}

/// A raw key is made of the digits of a random UUID: it has thirty-two of them.
pub proof fn raw_key_shape(uuid: Seq<char>)
    requires
        random_uuid(uuid),
    ensures
        without_hyphens(uuid).len() == 32,
        forall|i: int| 0 <= i < 32 ==> lower_hex(#[trigger] without_hyphens(uuid)[i]),
        without_hyphens(uuid).take(8) == uuid.take(8),
{
    let stays = |c: char| c != '-';
    let hyphen = seq!['-'];
    let a = uuid.subrange(0, 8);
    let b = uuid.subrange(9, 13);
    let c = uuid.subrange(14, 18);
    let d = uuid.subrange(19, 23);
    let e = uuid.subrange(24, 36);
    assert(uuid == a + hyphen + b + hyphen + c + hyphen + d + hyphen + e);
    broadcast use Seq::filter_distributes_over_add;

    lemma_hyphen();
    lemma_no_hyphens(a);
    lemma_no_hyphens(b);
    lemma_no_hyphens(c);
    lemma_no_hyphens(d);
    lemma_no_hyphens(e);
    assert(without_hyphens(uuid) == a + b + c + d + e);
}

/// A key's secret is replaced by a new one, which the reply shows. What is
/// stored is the digest of the secret, and its first characters.
pub open spec fn rotate_own_key_plan(key: ApiKeyRecord<Seq<char>>, raw_key: Seq<char>) -> Plan {
    Plan::Do(
        Action::Sha256Hex { text: raw_key },
        raw_key_hashed(key.id, raw_key, raw_key.take(8)),
    )
}

pub open spec fn raw_key_hashed(
    id: i64,
    raw_key: Seq<char>,
    prefix: Seq<char>,
) -> spec_fn(EventView) -> Plan {
    |event: EventView|
        match event {
            EventView::Text(key_hash) => Plan::Do(
                Action::RotateApiKey { id, key_hash, prefix },
                key_rotated(raw_key),
            ),
            _ => Plan::Mismatch,
        }
}

pub open spec fn key_rotated(raw_key: Seq<char>) -> spec_fn(EventView) -> Plan {
    |event: EventView|
        match event {
            EventView::Found(Ok(true)) => succeed(
                200,
                BodyView::Value(
                    JsonTree::Object(Map::empty().insert("raw_key"@, JsonTree::Text(raw_key))),
                ),
            ),
            EventView::Found(Ok(false)) => fail(404, "API key not found"@, None),
            EventView::Found(Err(e)) => storage_failed(e),
            _ => Plan::Mismatch,
        }
}

/// The rotation of a key, under way.
#[derive(Debug, PartialEq)]
pub enum RotateOwnKey {
    Hash { id: i64, raw_key: String, prefix: String },
    Rotate { raw_key: String },
}

/// `POST /api/v1/key/rotate`: gives the key of the request a new secret, which
/// is left to chance.
pub fn rotate_own_key(api_key: ApiKeyRecord) -> (next: Next<RotateOwnKey>)
    ensures
        exists|uuid: Seq<char>| #[trigger]
            random_uuid(uuid) && next.plan() == rotate_own_key_plan(
                api_key.deep_view(),
                without_hyphens(uuid),
            ),
{
    let uuid = new_uuid();
    rotate_own_key_to(api_key, &uuid)
}

/// Gives the key of the request the digits of a random UUID as its new secret.
pub fn rotate_own_key_to(api_key: ApiKeyRecord, uuid: &str) -> (next: Next<RotateOwnKey>)
    requires
        random_uuid(uuid@),
    ensures
        next.plan() == rotate_own_key_plan(api_key.deep_view(), without_hyphens(uuid@)),
{
    let raw_key = remove_hyphens(uuid);
    proof {
        raw_key_shape(uuid@);
    }
    let prefix = raw_key.as_str().substring_char(0, 8).to_owned();
    assert(prefix@ == raw_key@.take(8));
    Next::Do(
        Action::Sha256Hex { text: raw_key.clone() },
        RotateOwnKey::Hash { id: api_key.id, raw_key, prefix },
    )
}

impl Waiting for RotateOwnKey {
    open spec fn rest(self) -> spec_fn(EventView) -> Plan {
        match self {
            RotateOwnKey::Hash { id, raw_key, prefix } => raw_key_hashed(
                id,
                raw_key@,
                prefix@,
            ),
            RotateOwnKey::Rotate { raw_key } => key_rotated(raw_key@),
        }
    }
}

impl Machine for RotateOwnKey {
    fn resume(self, event: Event) -> (next: Next<RotateOwnKey>) {
        match (self, event) {
            (RotateOwnKey::Hash { id, raw_key, prefix }, Event::Text(key_hash)) => Next::Do(
                Action::RotateApiKey { id, key_hash, prefix },
                RotateOwnKey::Rotate { raw_key },
            ),
            (RotateOwnKey::Rotate { raw_key }, Event::Found(Ok(true))) => {
                let mut object = new_object();
                set_field(&mut object, "raw_key".to_string(), text_value(raw_key));
                success(200, Body::Value(object_value(object)))
            },
            (RotateOwnKey::Rotate { .. }, Event::Found(Ok(false))) => {
                failure(404, "API key not found", None)
            },
            (RotateOwnKey::Rotate { .. }, Event::Found(Err(e))) => storage_failure(e),
            _ => Next::Mismatch,
        }
    }
}

} // verus!
