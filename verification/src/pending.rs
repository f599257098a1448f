//! Pending deliveries, which a bridge polls for and acknowledges.

use std::collections::hash_map::DefaultHasher;
use std::hash::Hasher;
use vstd::prelude::*;
use vstd::std_specs::hash::DefaultHasherAdditionalSpecFns;
use vstd::utf8::encode_utf8;

use crate::json::{
    array_value, int_value, max_depth, new_object, null_value, object_value, parse_value, parsed,
    plain, print_value, printed, reads_as_printed, set_field, text_value, value_tree, JsonTree,
};
use crate::protocol::{
    fail, failure, granted, scoped, storage_failed, storage_failure, succeed, success, Action,
    Event, EventView, Machine, Next, Plan, ScopeRule, Waiting,
};
use crate::text::{
    behind_last, has_char, last_segment, lists, trim, trimmed, unescape, unescaped,
};
use crate::types::{
    AckRequest, ApiKeyRecord, Body, BodyView, PendingDelivery, PendingPollRequest, Reply,
};

verus! {

// The filter of a poll

/// The bare domains of a filter, without an `@`: trimmed, none empty and none
/// twice, in the order in which they first occur.
pub open spec fn bare_domains(raw: Seq<Seq<char>>) -> Seq<Seq<char>>
    decreases raw.len(),
{
    if raw.len() == 0 {
        Seq::empty()
    } else {
        let head = bare_domains(raw.drop_last());
        let entry = trimmed(raw.last());
        if entry.len() == 0 || entry.contains('@') || head.contains(entry) {
            head
        } else {
            head.push(entry)
        }
    }
}

/// The other entries of a filter, with an `@`: trimmed, in their order.
pub open spec fn other_entries(raw: Seq<Seq<char>>) -> Seq<Seq<char>>
    decreases raw.len(),
{
    if raw.len() == 0 {
        Seq::empty()
    } else {
        let head = other_entries(raw.drop_last());
        let entry = trimmed(raw.last());
        if entry.contains('@') {
            head.push(entry)
        } else {
            head
        }
    }
}

/// Whether one of some domains absorbs an entry: the domain of an address, or
/// that of a regex, which may escape its dots.
pub open spec fn absorbed(entry: Seq<char>, domains: Seq<Seq<char>>) -> bool {
    domains.contains(last_segment(entry, '@')) || domains.contains(
        unescaped(last_segment(entry, '@')),
    )
}

/// A filter in which the bare domains, which come first, absorb the entries
/// under them, addresses and regexes alike.
pub open spec fn effective_filter(raw: Seq<Seq<char>>) -> Seq<Seq<char>> {
    bare_domains(raw) + other_entries(raw).filter(
        |e: Seq<char>| !absorbed(e, bare_domains(raw)),
    )
}

/// Prepares the filter of a poll: bare domains come first and absorb the
/// entries under them.
pub fn preprocess_pending_filter(raw: &[String]) -> (filter: Vec<String>)
    ensures
        filter.deep_view() == effective_filter(raw.deep_view()),
{
    let ghost all = raw.deep_view();
    let mut domains: Vec<String> = Vec::new();
    let mut others: Vec<String> = Vec::new();
    let mut i: usize = 0;
    assert(domains.deep_view() == bare_domains(all.take(0)));
    assert(others.deep_view() == other_entries(all.take(0)));
    while i < raw.len()
        invariant
            i <= raw@.len(),
            all == raw.deep_view(),
            domains.deep_view() == bare_domains(all.take(i as int)),
            others.deep_view() == other_entries(all.take(i as int)),
        decreases raw@.len() - i,
    {
        let ghost domains_before = domains.deep_view();
        let ghost others_before = others.deep_view();
        assert(all.take(i + 1).drop_last() == all.take(i as int));
        let entry = trim(&raw[i]);
        if has_char(entry, '@') {
            others.push(entry.to_owned());
            assert(others.deep_view() == others_before.push(entry@));
        } else if !entry.is_empty() && !lists(&domains, entry) {
            domains.push(entry.to_owned());
            assert(domains.deep_view() == domains_before.push(entry@));
        }
        i += 1;
    }
    assert(all.take(all.len() as int) == all);
    let mut kept = not_absorbed(&others, &domains);
    let ghost domain_texts = domains.deep_view();
    let ghost kept_texts = kept.deep_view();
    domains.append(&mut kept);
    assert(domains.deep_view() == domain_texts + kept_texts);
    domains
}

fn not_absorbed(entries: &Vec<String>, domains: &Vec<String>) -> (kept: Vec<String>)
    ensures
        kept.deep_view() == entries.deep_view().filter(
            |e: Seq<char>| !absorbed(e, domains.deep_view()),
        ),
{
    let ghost all = entries.deep_view();
    let ghost stays = |e: Seq<char>| !absorbed(e, domains.deep_view());
    let mut kept: Vec<String> = Vec::new();
    let mut i: usize = 0;
    proof {
        reveal(Seq::filter);
        assert(kept.deep_view() == all.take(0).filter(stays));
    }
    while i < entries.len()
        invariant
            i <= entries@.len(),
            all == entries.deep_view(),
            stays == (|e: Seq<char>| !absorbed(e, domains.deep_view())),
            kept.deep_view() == all.take(i as int).filter(stays),
        decreases entries@.len() - i,
    {
        let ghost before = kept.deep_view();
        proof {
            reveal(Seq::filter);
            assert(all.take(i + 1).drop_last() == all.take(i as int));
        }
        let domain = behind_last(&entries[i], '@');
        if !lists(domains, domain) && !lists(domains, &unescape(domain)) {
            kept.push(entries[i].clone());
            assert(kept.deep_view() == before.push(all[i as int]));
        }
        i += 1;
    }
    assert(all.take(all.len() as int) == all);
    kept
}

/// The domains of a list of addresses, none twice, in the order in which they
/// first occur.
pub open spec fn email_domains(emails: Seq<Seq<char>>) -> Seq<Seq<char>>
    decreases emails.len(),
{
    if emails.len() == 0 {
        Seq::empty()
    } else {
        let head = email_domains(emails.drop_last());
        let domain = last_segment(emails.last(), '@');
        if head.contains(domain) {
            head
        } else {
            head.push(domain)
        }
    }
}

fn collect_domains(emails: &Vec<String>) -> (domains: Vec<String>)
    ensures
        domains.deep_view() == email_domains(emails.deep_view()),
{
    let ghost all = emails.deep_view();
    let mut domains: Vec<String> = Vec::new();
    let mut i: usize = 0;
    assert(domains.deep_view() == email_domains(all.take(0)));
    while i < emails.len()
        invariant
            i <= emails@.len(),
            all == emails.deep_view(),
            domains.deep_view() == email_domains(all.take(i as int)),
        decreases emails@.len() - i,
    {
        let ghost before = domains.deep_view();
        assert(all.take(i + 1).drop_last() == all.take(i as int));
        let domain = behind_last(&emails[i], '@');
        if !lists(&domains, domain) {
            domains.push(domain.to_owned());
            assert(domains.deep_view() == before.push(domain@));
        }
        i += 1;
    }
    assert(all.take(all.len() as int) == all);
    domains
}

/// What a poll asks for: the filter where there is one, else the domains of the
/// addresses. A poll that leaves nothing of either is not filtered.
pub open spec fn poll_filter(emails: Seq<Seq<char>>, filter: Seq<Seq<char>>) -> Option<
    Seq<Seq<char>>,
> {
    let entries = if filter.len() > 0 {
        effective_filter(filter)
    } else {
        email_domains(emails)
    };
    if entries.len() == 0 {
        None
    } else {
        Some(entries)
    }
}

/// What a poll asks for.
pub fn filter_of_poll(emails: &Vec<String>, filter: &Vec<String>) -> (entries: Option<Vec<String>>)
    ensures
        entries.deep_view() == poll_filter(emails.deep_view(), filter.deep_view()),
{
    let entries = if filter.len() > 0 {
        let entries = filter.as_slice();
        assert(entries.deep_view() == filter.deep_view());
        preprocess_pending_filter(entries)
    } else {
        collect_domains(emails)
    };
    if entries.len() == 0 {
        None
    } else {
        Some(entries)
    }
}

// Batches

/// What a payload is grouped by: its hash.
pub open spec fn payload_hash(payload: Seq<char>) -> u64 {
    DefaultHasher::spec_finish(seq![encode_utf8(payload), seq![0xffu8]])
}

/// The deliveries whose payload has a hash, in their order.
pub open spec fn deliveries_with(
    records: Seq<PendingDelivery<Seq<char>>>,
    hash: u64,
) -> Seq<PendingDelivery<Seq<char>>> {
    records.filter(|r: PendingDelivery<Seq<char>>| payload_hash(r.payload) == hash)
}

/// The hashes of the payloads, none twice, in the order in which they first
/// occur.
pub open spec fn payload_hashes(records: Seq<PendingDelivery<Seq<char>>>) -> Seq<u64>
    decreases records.len(),
{
    if records.len() == 0 {
        Seq::empty()
    } else {
        let head = payload_hashes(records.drop_last());
        let hash = payload_hash(records.last().payload);
        if head.contains(hash) {
            head
        } else {
            head.push(hash)
        }
    }
}

/// The deliveries of a poll, in batches of equal payload. Each batch shows the
/// payload of its first delivery.
pub open spec fn delivery_batches(records: Seq<PendingDelivery<Seq<char>>>) -> Seq<
    Seq<PendingDelivery<Seq<char>>>,
> {
    payload_hashes(records).map_values(|hash: u64| deliveries_with(records, hash))
}

/// A stored text as JSON: null where it is not.
pub open spec fn parsed_or_null(text: Seq<char>) -> JsonTree {
    match parsed(text) {
        Some(tree) => tree,
        None => JsonTree::Null,
    }
}

/// A delivery as the reply shows it, with its headers as JSON.
pub open spec fn delivery_with(id: i64, email: Seq<char>, headers: JsonTree) -> JsonTree {
    JsonTree::Object(
        Map::empty().insert("id"@, JsonTree::Int(id as int)).insert(
            "email"@,
            JsonTree::Text(email),
        ).insert("headers"@, headers),
    )
}

/// A delivery as the reply shows it.
pub open spec fn delivery_tree(record: PendingDelivery<Seq<char>>) -> JsonTree {
    delivery_with(record.id, record.email, parsed_or_null(record.headers))
}

/// A batch as the reply shows it.
pub open spec fn batch_tree(batch: Seq<PendingDelivery<Seq<char>>>) -> JsonTree {
    JsonTree::Object(
        Map::empty().insert(
            "body"@,
            parsed_or_null(printed(parsed_or_null(batch[0].payload))),
        ).insert(
            "deliveries"@,
            JsonTree::Array(batch.map_values(|r: PendingDelivery<Seq<char>>| delivery_tree(r))),
        ),
    )
}

/// The reply to a poll.
pub open spec fn batches_body(records: Seq<PendingDelivery<Seq<char>>>) -> BodyView {
    BodyView::Value(
        JsonTree::Object(
            Map::empty().insert(
                "batches"@,
                JsonTree::Array(
                    delivery_batches(records).map_values(
                        |b: Seq<PendingDelivery<Seq<char>>>| batch_tree(b),
                    ),
                ),
            ),
        ),
    )
}

/// The hash that a payload is grouped by.
pub fn hash_payload(payload: &str) -> (hash: u64)
    ensures
        hash == payload_hash(payload@),
{
    let mut hasher = DefaultHasher::new();
    hasher.write(payload.as_bytes());
    let end: [u8; 1] = [0xff];
    hasher.write(end.as_slice());
    proof {
        assert(end@ == seq![0xffu8]);
        assert(hasher@ == seq![encode_utf8(payload@), seq![0xffu8]]);
    }
    hasher.finish()
}

/// No hash is listed twice, and the hash of each payload is listed.
pub proof fn lemma_payload_hashes(records: Seq<PendingDelivery<Seq<char>>>)
    ensures
        payload_hashes(records).no_duplicates(),
        forall|i: int|
            0 <= i < records.len() ==> payload_hashes(records).contains(
                payload_hash((#[trigger] records[i]).payload),
            ),
    decreases records.len(),
{
    if records.len() > 0 {
        let head = payload_hashes(records.drop_last());
        let hash = payload_hash(records.last().payload);
        lemma_payload_hashes(records.drop_last());
        assert forall|i: int| 0 <= i < records.len() implies payload_hashes(records).contains(
            payload_hash((#[trigger] records[i]).payload),
        ) by {
            if i < records.len() - 1 {
                assert(records.drop_last()[i] == records[i]);
                let j = choose|j: int|
                    0 <= j < head.len() && head[j] == payload_hash(records[i].payload);
                assert(payload_hashes(records)[j] == head[j]);
            } else if !head.contains(hash) {
                assert(payload_hashes(records)[head.len() as int] == hash);
            }
        }
    }
}

/// A hash that is not listed has no deliveries.
pub proof fn lemma_no_deliveries(records: Seq<PendingDelivery<Seq<char>>>, hash: u64)
    requires
        !payload_hashes(records).contains(hash),
    ensures
        deliveries_with(records, hash).len() == 0,
    decreases records.len(),
{
    reveal(Seq::filter);
    if records.len() > 0 {
        let head = payload_hashes(records.drop_last());
        lemma_payload_hashes(records);
        assert(records[records.len() - 1] == records.last());
        if head.contains(hash) {
            let j = choose|j: int| 0 <= j < head.len() && head[j] == hash;
            assert(payload_hashes(records)[j] == hash);
        }
        lemma_no_deliveries(records.drop_last(), hash);
    }
}

/// What one more delivery does to the deliveries with a hash.
proof fn lemma_one_more(
    records: Seq<PendingDelivery<Seq<char>>>,
    record: PendingDelivery<Seq<char>>,
    hash: u64,
)
    ensures
        deliveries_with(records.push(record), hash) == if payload_hash(record.payload) == hash {
            deliveries_with(records, hash).push(record)
        } else {
            deliveries_with(records, hash)
        },
{
    reveal(Seq::filter);
    assert(records.push(record).drop_last() == records);
}

fn position_of(hashes: &Vec<u64>, hash: u64) -> (position: Option<usize>)
    ensures
        match position {
            Some(i) => i < hashes@.len() && hashes@[i as int] == hash,
            None => !hashes@.contains(hash),
        },
{
    let mut i: usize = 0;
    while i < hashes.len()
        invariant
            i <= hashes@.len(),
            forall|j: int| 0 <= j < i ==> hashes@[j] != hash,
        decreases hashes@.len() - i,
    {
        if hashes[i] == hash {
            return Some(i);
        }
        i += 1;
    }
    None
}

/// Puts a delivery, whose payload has a hash, in the batch of that hash: a new
/// one where there is none yet.
pub fn enter_delivery(
    hashes: &mut Vec<u64>,
    batches: &mut Vec<Vec<PendingDelivery>>,
    hash: u64,
    record: PendingDelivery,
)
    requires
        old(hashes)@.len() == old(batches)@.len(),
        old(hashes)@.no_duplicates(),
    ensures
        final(hashes)@ == if old(hashes)@.contains(hash) {
            old(hashes)@
        } else {
            old(hashes)@.push(hash)
        },
        final(batches)@.len() == final(hashes)@.len(),
        forall|j: int|
            0 <= j < old(batches)@.len() ==> (#[trigger] final(batches)@[j]).deep_view() == if old(
                hashes,
            )@[j] == hash {
                old(batches)@[j].deep_view().push(record.deep_view())
            } else {
                old(batches)@[j].deep_view()
            },
        !old(hashes)@.contains(hash) ==> final(batches)@.last().deep_view() == seq![
            record.deep_view(),
        ],
{
    match position_of(hashes, hash) {
        Some(i) => {
            let ghost before = batches@[i as int].deep_view();
            batches[i].push(record);
            assert(batches@[i as int].deep_view() == before.push(record.deep_view()));
        },
        None => {
            let mut batch: Vec<PendingDelivery> = Vec::new();
            batch.push(record);
            assert(batch.deep_view() == seq![record.deep_view()]);
            hashes.push(hash);
            batches.push(batch);
            assert(batches@.last() == batch);
        },
    }
}

/// Puts deliveries in batches of equal payload.
pub fn batch_deliveries(records: Vec<PendingDelivery>) -> (batches: Vec<Vec<PendingDelivery>>)
    ensures
        batches.deep_view() == delivery_batches(records.deep_view()),
{
    let ghost all = records.deep_view();
    let mut hashes: Vec<u64> = Vec::new();
    let mut batches: Vec<Vec<PendingDelivery>> = Vec::new();
    for record in iter: records
        invariant
            iter.seq() == records@,
            all == records.deep_view(),
            hashes@ == payload_hashes(all.take(iter.index() as int)),
            batches@.len() == hashes@.len(),
            forall|j: int|
                0 <= j < batches@.len() ==> (#[trigger] batches@[j]).deep_view()
                    == deliveries_with(all.take(iter.index() as int), hashes@[j]),
    {
        let ghost done = all.take(iter.index() as int);
        let ghost next = record.deep_view();
        let hash: u64 = hash_payload(&record.payload);
        proof {
            lemma_payload_hashes(done);
            assert(all.take(iter.index() + 1) == done.push(next));
            assert(done.push(next).drop_last() == done);
            assert forall|h: u64| true implies #[trigger] deliveries_with(done.push(next), h)
                == if payload_hash(next.payload) == h {
                deliveries_with(done, h).push(next)
            } else {
                deliveries_with(done, h)
            } by {
                lemma_one_more(done, next, h);
            }
            if !hashes@.contains(hash) {
                lemma_no_deliveries(done, hash);
                assert(deliveries_with(done, hash).push(next) == seq![next]);
            }
        }
        enter_delivery(&mut hashes, &mut batches, hash, record);
    }
    assert(all.take(all.len() as int) == all);
    batches
}

fn read_or_null(text: &str) -> (value: serde_json::Value)
    ensures
        value_tree(value) == parsed_or_null(text@),
{
    match parse_value(text) {
        Some(value) => value,
        None => null_value(),
    }
}

/// A delivery as the reply shows it, with its headers as JSON.
pub fn delivery_value(id: i64, email: String, headers: serde_json::Value) -> (value:
    serde_json::Value)
    ensures
        value_tree(value) == delivery_with(id, email@, value_tree(headers)),
{
    let mut object = new_object();
    set_field(&mut object, "id".to_string(), int_value(id));
    set_field(&mut object, "email".to_string(), text_value(email));
    set_field(&mut object, "headers".to_string(), headers);
    object_value(object)
}

fn show_batch(batch: &Vec<PendingDelivery>) -> (value: serde_json::Value)
    requires
        batch@.len() > 0,
    ensures
        value_tree(value) == batch_tree(batch.deep_view()),
        plain(parsed_or_null(batch.deep_view()[0].payload), max_depth()) ==> reads_as_printed(
            parsed_or_null(batch.deep_view()[0].payload),
        ),
{
    let ghost all = batch.deep_view();
    let mut items: Vec<serde_json::Value> = Vec::new();
    let mut i: usize = 0;
    while i < batch.len()
        invariant
            i <= batch@.len(),
            all == batch.deep_view(),
            items@.len() == i,
            forall|j: int|
                0 <= j < i ==> value_tree(#[trigger] items@[j]) == delivery_tree(all[j]),
        decreases batch@.len() - i,
    {
        let headers = read_or_null(&batch[i].headers);
        items.push(delivery_value(batch[i].id, batch[i].email.clone(), headers));
        i += 1;
    }
    assert(items@.map_values(|v: serde_json::Value| value_tree(v)) == all.map_values(
        |r: PendingDelivery<Seq<char>>| delivery_tree(r),
    ));
    let body = read_or_null(&print_value(&read_or_null(&batch[0].payload)));
    let mut object = new_object();
    set_field(&mut object, "body".to_string(), body);
    set_field(&mut object, "deliveries".to_string(), array_value(items));
    object_value(object)
}

/// No batch is empty.
pub proof fn lemma_batches_not_empty(records: Seq<PendingDelivery<Seq<char>>>)
    ensures
        forall|b: int|
            0 <= b < delivery_batches(records).len() ==> (#[trigger] delivery_batches(
                records,
            )[b]).len() > 0,
    decreases records.len(),
{
    if records.len() > 0 {
        let done = records.drop_last();
        let hashes = payload_hashes(records);
        lemma_batches_not_empty(done);
        assert(done.push(records.last()) == records);
        assert forall|b: int| 0 <= b < delivery_batches(records).len() implies (
        #[trigger] delivery_batches(records)[b]).len() > 0 by {
            lemma_one_more(done, records.last(), hashes[b]);
            if b < payload_hashes(done).len() {
                assert(delivery_batches(done)[b] == deliveries_with(done, hashes[b]));
            }
        }
    }
}

/// Shows deliveries in batches of equal payload, as JSON. A payload that is plain
/// reads back once it is printed.
pub fn show_deliveries(records: Vec<PendingDelivery>) -> (body: Body)
    ensures
        body.deep_view() == batches_body(records.deep_view()),
        forall|b: int|
            0 <= b < delivery_batches(records.deep_view()).len() ==> plain(
                parsed_or_null((#[trigger] delivery_batches(records.deep_view())[b])[0].payload),
                max_depth(),
            ) ==> reads_as_printed(
                parsed_or_null(delivery_batches(records.deep_view())[b][0].payload),
            ),
{
    let ghost all = records.deep_view();
    let batches = batch_deliveries(records);
    proof {
        lemma_batches_not_empty(all);
    }
    let ghost lists = delivery_batches(all);
    let mut items: Vec<serde_json::Value> = Vec::new();
    let mut i: usize = 0;
    while i < batches.len()
        invariant
            i <= batches@.len(),
            lists == batches.deep_view(),
            forall|b: int| 0 <= b < lists.len() ==> (#[trigger] lists[b]).len() > 0,
            items@.len() == i,
            forall|j: int| 0 <= j < i ==> value_tree(#[trigger] items@[j]) == batch_tree(lists[j]),
            forall|b: int|
                0 <= b < i ==> plain(
                    parsed_or_null((#[trigger] lists[b])[0].payload),
                    max_depth(),
                ) ==> reads_as_printed(parsed_or_null(lists[b][0].payload)),
        decreases batches@.len() - i,
    {
        assert(lists[i as int] == batches@[i as int].deep_view());
        items.push(show_batch(&batches[i]));
        i += 1;
    }
    assert(items@.map_values(|v: serde_json::Value| value_tree(v)) == lists.map_values(
        |b: Seq<PendingDelivery<Seq<char>>>| batch_tree(b),
    ));
    let mut object = new_object();
    set_field(&mut object, "batches".to_string(), array_value(items));
    Body::Value(object_value(object))
}

// Polling

/// Pending deliveries of the key's system are listed for a key with the system
/// or the bridge scope.
pub open spec fn list_pending_deliveries_plan(
    key: ApiKeyRecord<Seq<char>>,
    limit: i64,
    emails: Seq<Seq<char>>,
    filter: Seq<Seq<char>>,
) -> Plan {
    scoped(
        ScopeRule::SystemOrBridge,
        pending_wanted(key.system_id, limit, emails, filter),
    )
}

pub open spec fn pending_wanted(
    system_id: Seq<char>,
    limit: i64,
    emails: Seq<Seq<char>>,
    filter: Seq<Seq<char>>,
) -> Plan {
    Plan::Do(
        Action::ListPendingDeliveries { system_id, limit, domains: poll_filter(emails, filter) },
        pending_listed(),
    )
}

pub open spec fn pending_listed() -> spec_fn(EventView) -> Plan {
    |event: EventView|
        match event {
            EventView::Pending(Ok(records)) => succeed(200, batches_body(records)),
            EventView::Pending(Err(e)) => storage_failed(e),
            _ => Plan::Mismatch,
        }
}

/// A poll, under way.
#[derive(Debug, PartialEq)]
pub enum ListPendingDeliveries {
    Scope { key: ApiKeyRecord, req: PendingPollRequest },
    List,
}

/// `POST /api/v1/admin/pending`: lists pending deliveries.
pub fn list_pending_deliveries(
    api_key: ApiKeyRecord,
    req: PendingPollRequest,
) -> (next: Next<ListPendingDeliveries>)
    ensures
        next.plan() == list_pending_deliveries_plan(
            api_key.deep_view(),
            req.limit,
            req.emails.deep_view(),
            req.filter.deep_view(),
        ),
{
    Next::Do(
        Action::RequireScope { rule: ScopeRule::SystemOrBridge },
        ListPendingDeliveries::Scope { key: api_key, req },
    )
}

impl Waiting for ListPendingDeliveries {
    open spec fn rest(self) -> spec_fn(EventView) -> Plan {
        match self {
            ListPendingDeliveries::Scope { key, req } => granted(
                pending_wanted(
                    key.system_id@,
                    req.limit,
                    req.emails.deep_view(),
                    req.filter.deep_view(),
                ),
            ),
            ListPendingDeliveries::List => pending_listed(),
        }
    }
}

impl Machine for ListPendingDeliveries {
    fn resume(self, event: Event) -> (next: Next<ListPendingDeliveries>) {
        match (self, event) {
            (ListPendingDeliveries::Scope { .. }, Event::Access(Err(refusal))) => Next::Reply(
                Reply::Failed(refusal),
            ),
            (ListPendingDeliveries::Scope { key, req }, Event::Access(Ok(()))) => Next::Do(
                Action::ListPendingDeliveries {
                    system_id: key.system_id,
                    limit: req.limit,
                    domains: filter_of_poll(&req.emails, &req.filter),
                },
                ListPendingDeliveries::List,
            ),
            (ListPendingDeliveries::List, Event::Pending(Ok(records))) => {
                success(200, show_deliveries(records))
            },
            (ListPendingDeliveries::List, Event::Pending(Err(e))) => storage_failure(e),
            _ => Next::Mismatch,
        }
    }
}

// Acknowledging

/// How many deliveries can be acknowledged at once.
pub const MAX_ACK: usize = 500;

/// Deliveries are acknowledged by a key with the system or the bridge scope, a
/// limited number at once.
pub open spec fn ack_pending_deliveries_plan(ids: Seq<i64>) -> Plan {
    scoped(ScopeRule::SystemOrBridge, ack_wanted(ids))
}

pub open spec fn ack_wanted(ids: Seq<i64>) -> Plan {
    if ids.len() > MAX_ACK {
        fail(400, "too many ids"@, Some("max 500 ids per ACK"@))
    } else {
        Plan::Do(Action::AckDeliveries { ids }, deliveries_acked())
    }
}

pub open spec fn deliveries_acked() -> spec_fn(EventView) -> Plan {
    |event: EventView|
        match event {
            EventView::Count(Ok(count)) => succeed(
                200,
                BodyView::Value(
                    JsonTree::Object(
                        Map::empty().insert("acked"@, JsonTree::Int(count as int)),
                    ),
                ),
            ),
            EventView::Count(Err(e)) => storage_failed(e),
            _ => Plan::Mismatch,
        }
}

/// An acknowledgement, under way.
#[derive(Debug, PartialEq)]
pub enum AckPendingDeliveries {
    Scope { req: AckRequest },
    Ack,
}

/// `POST /api/v1/admin/pending/ack`: acknowledges deliveries.
pub fn ack_pending_deliveries(req: AckRequest) -> (next: Next<AckPendingDeliveries>)
    ensures
        next.plan() == ack_pending_deliveries_plan(req.ids@),
{
    Next::Do(
        Action::RequireScope { rule: ScopeRule::SystemOrBridge },
        AckPendingDeliveries::Scope { req },
    )
}

impl Waiting for AckPendingDeliveries {
    open spec fn rest(self) -> spec_fn(EventView) -> Plan {
        match self {
            AckPendingDeliveries::Scope { req } => granted(ack_wanted(req.ids@)),
            AckPendingDeliveries::Ack => deliveries_acked(),
        }
    }
}

impl Machine for AckPendingDeliveries {
    fn resume(self, event: Event) -> (next: Next<AckPendingDeliveries>) {
        match (self, event) {
            (AckPendingDeliveries::Scope { .. }, Event::Access(Err(refusal))) => Next::Reply(
                Reply::Failed(refusal),
            ),
            (AckPendingDeliveries::Scope { req }, Event::Access(Ok(()))) => {
                if req.ids.len() > MAX_ACK {
                    failure(400, "too many ids", Some("max 500 ids per ACK".to_string()))
                } else {
                    Next::Do(Action::AckDeliveries { ids: req.ids }, AckPendingDeliveries::Ack)
                }
            },
            (AckPendingDeliveries::Ack, Event::Count(Ok(count))) => {
                let mut object = new_object();
                set_field(&mut object, "acked".to_string(), int_value(count));
                success(200, Body::Value(object_value(object)))
            },
            (AckPendingDeliveries::Ack, Event::Count(Err(e))) => storage_failure(e),
            _ => Next::Mismatch,
        }
    }
}

} // verus!
