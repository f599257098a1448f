//! What a poll for pending deliveries shows.

use vstd::prelude::*;

use crate::json::{parsed, reads_as_printed, JsonTree};
use crate::laws::outcomes::{done, ending, grants, nothing, refused, writes, Answers};
use crate::pending::{
    ack_pending_deliveries_plan, batch_tree, deliveries_with, delivery_batches, delivery_tree,
    effective_filter, email_domains, lemma_batches_not_empty, list_pending_deliveries_plan,
    payload_hash, payload_hashes,
};
use crate::laws::pending::batches_are_uniform;
use crate::protocol::{Action, ActionView, EventView, Plan, ScopeRule};
use crate::types::{ApiKeyRecord, BodyView, PendingDelivery, ReplyView};

verus! {

/// Whether a tree is what a text says: its JSON, or null where it is none.
pub open spec fn is_json_of(tree: JsonTree, text: Seq<char>) -> bool {
    match parsed(text) {
        Some(read) => tree == read,
        None => tree == JsonTree::Null,
    }
}

/// Whether what a text says reads back once it is printed.
pub open spec fn survives_printing(text: Seq<char>) -> bool {
    match parsed(text) {
        Some(read) => reads_as_printed(read),
        None => reads_as_printed(JsonTree::Null),
    }
}

/// Whether a tree shows a delivery: its id, its address and its headers as JSON.
pub open spec fn shows_delivery(tree: JsonTree, record: PendingDelivery<Seq<char>>) -> bool {
    tree matches JsonTree::Object(fields) && {
        &&& fields.dom() == set!["id"@, "email"@, "headers"@]
        &&& fields["id"@] == JsonTree::Int(record.id as int)
        &&& fields["email"@] == JsonTree::Text(record.email)
        &&& is_json_of(fields["headers"@], record.headers)
    }
}

/// Whether a tree shows a batch: a body, and each of its deliveries in order.
pub open spec fn shows_batch(tree: JsonTree, batch: Seq<PendingDelivery<Seq<char>>>) -> bool {
    tree matches JsonTree::Object(fields) && {
        &&& fields.dom() == set!["body"@, "deliveries"@]
        &&& survives_printing(batch[0].payload) ==> is_json_of(fields["body"@], batch[0].payload)
        &&& fields["deliveries"@] matches JsonTree::Array(items) && items.len() == batch.len()
            && forall|i: int|
            0 <= i < batch.len() ==> shows_delivery(#[trigger] items[i], batch[i])
    }
}

proof fn lemma_names()
    ensures
        "id"@ != "email"@,
        "id"@ != "headers"@,
        "email"@ != "headers"@,
        "body"@ != "deliveries"@,
{
    reveal_strlit("id");
    reveal_strlit("email");
    reveal_strlit("headers");
    reveal_strlit("body");
    reveal_strlit("deliveries");
    assert("id"@.len() == 2 && "email"@.len() == 5 && "headers"@.len() == 7);
    assert("body"@.len() == 4 && "deliveries"@.len() == 10);
}

proof fn lemma_shows_delivery(record: PendingDelivery<Seq<char>>)
    ensures
        shows_delivery(delivery_tree(record), record),
{
    lemma_names();
    if let JsonTree::Object(fields) = delivery_tree(record) {
        assert(fields.dom() =~= set!["id"@, "email"@, "headers"@]);
    }
}

/// A batch is shown with the JSON of its payload as its body, however many
/// deliveries it has, and with each of them.
pub proof fn batches_show_their_payload(batch: Seq<PendingDelivery<Seq<char>>>)
    requires
        batch.len() > 0,
    ensures
        shows_batch(batch_tree(batch), batch),
{
    lemma_names();
    if let JsonTree::Object(fields) = batch_tree(batch) {
        assert(fields.dom() =~= set!["body"@, "deliveries"@]);
        if let JsonTree::Array(items) = fields["deliveries"@] {
            assert forall|i: int| 0 <= i < batch.len() implies shows_delivery(
                #[trigger] items[i],
                batch[i],
            ) by {
                lemma_shows_delivery(batch[i]);
            }
        }
    }
}

/// The batches that a reply to a poll shows.
pub open spec fn batches_shown(end: Plan) -> Option<Seq<JsonTree>> {
    match end {
        Plan::Reply(ReplyView::Success { status: 200, body: BodyView::Value(JsonTree::Object(f)) })
            => if f.dom() == set!["batches"@] {
            match f["batches"@] {
                JsonTree::Array(items) => Some(items),
                _ => None,
            }
        } else {
            None
        },
        _ => None,
    }
}

/// What a poll asks storage for: the deliveries of the key's system, up to the
/// limit, of what the filter comes to or else of the domains of the addresses; of
/// all where that leaves nothing.
pub open spec fn asks_for(
    key: ApiKeyRecord<Seq<char>>,
    limit: i64,
    emails: Seq<Seq<char>>,
    filter: Seq<Seq<char>>,
) -> ActionView {
    let wanted = if filter.len() > 0 {
        effective_filter(filter)
    } else {
        email_domains(emails)
    };
    Action::ListPendingDeliveries {
        system_id: key.system_id,
        limit,
        domains: if wanted.len() > 0 {
            Some(wanted)
        } else {
            None
        },
    }
}

/// A poll shows each batch of what storage returned, with the JSON of its payload
/// and its deliveries. It writes nothing.
pub proof fn polls_show_every_batch(
    answers: Answers,
    key: ApiKeyRecord<Seq<char>>,
    limit: i64,
    emails: Seq<Seq<char>>,
    filter: Seq<Seq<char>>,
)
    requires
        grants(answers, Action::RequireScope { rule: ScopeRule::SystemOrBridge }),
    ensures
        ({
            let plan = list_pending_deliveries_plan(key, limit, emails, filter);
            &&& writes(plan, answers) == nothing()
            &&& match answers(asks_for(key, limit, emails, filter)) {
                EventView::Pending(Ok(records)) => {
                    let batches = delivery_batches(records);
                    &&& batches_shown(ending(plan, answers)) matches Some(items) && items.len()
                        == batches.len() && forall|b: int|
                        0 <= b < batches.len() ==> shows_batch(#[trigger] items[b], batches[b])
                },
                EventView::Pending(Err(e)) => ending(plan, answers) == refused(
                    500,
                    "Database error"@,
                    Some(e.message),
                ),
                _ => true,
            }
        }),
{
    reveal_with_fuel(writes, 3);
    reveal_with_fuel(ending, 3);
    let plan = list_pending_deliveries_plan(key, limit, emails, filter);
    if let EventView::Pending(Ok(records)) = answers(asks_for(key, limit, emails, filter)) {
        let batches = delivery_batches(records);
        let items = batches.map_values(|b: Seq<PendingDelivery<Seq<char>>>| batch_tree(b));
        let fields = Map::<Seq<char>, JsonTree>::empty().insert(
            "batches"@,
            JsonTree::Array(items),
        );
        assert(fields.dom() =~= set!["batches"@]);
        lemma_batches_not_empty(records);
        assert forall|b: int| 0 <= b < batches.len() implies shows_batch(
            #[trigger] items[b],
            batches[b],
        ) by {
            batches_show_their_payload(batches[b]);
        }
        assert(ending(plan, answers) == done(200, BodyView::Value(JsonTree::Object(fields))));
        assert(batches_shown(ending(plan, answers)) == Some(items));
    }
}

/// Whether payloads that differ in some deliveries differ in their hashes.
pub open spec fn hashes_tell_apart(records: Seq<PendingDelivery<Seq<char>>>) -> bool {
    forall|i: int, j: int|
        0 <= i < records.len() && 0 <= j < records.len() && payload_hash(
            (#[trigger] records[i]).payload,
        ) == payload_hash((#[trigger] records[j]).payload) ==> records[i].payload
            == records[j].payload
}

proof fn lemma_from_records(records: Seq<PendingDelivery<Seq<char>>>, hash: u64, k: int) -> (i: int)
    requires
        0 <= k < deliveries_with(records, hash).len(),
    ensures
        0 <= i < records.len(),
        records[i] == deliveries_with(records, hash)[k],
    decreases records.len(),
{
    reveal(Seq::filter);
    let head = deliveries_with(records.drop_last(), hash);
    if k < head.len() {
        lemma_from_records(records.drop_last(), hash, k)
    } else {
        records.len() - 1
    }
}

/// Where no two payloads share a hash, the deliveries of a batch all have the
/// payload that the batch shows.
pub proof fn batches_share_one_payload(
    records: Seq<PendingDelivery<Seq<char>>>,
    b: int,
    k: int,
)
    requires
        hashes_tell_apart(records),
        0 <= b < delivery_batches(records).len(),
        0 <= k < delivery_batches(records)[b].len(),
    ensures
        delivery_batches(records)[b][k].payload == delivery_batches(records)[b][0].payload,
{
    let hash = payload_hashes(records)[b];
    batches_are_uniform(records, b);
    let i = lemma_from_records(records, hash, k);
    let j = lemma_from_records(records, hash, 0);
    assert(delivery_batches(records)[b][k] == records[i]);
    assert(delivery_batches(records)[b][0] == records[j]);
}

/// What is acknowledged is what was asked, unless it is too much at once; the
/// reply shows how many storage acknowledged.
pub proof fn acknowledgements_are_carried_out(answers: Answers, ids: Seq<i64>)
    requires
        grants(answers, Action::RequireScope { rule: ScopeRule::SystemOrBridge }),
    ensures
        ({
            let plan = ack_pending_deliveries_plan(ids);
            if ids.len() > 500 {
                &&& writes(plan, answers) == nothing()
                &&& ending(plan, answers) == refused(
                    400,
                    "too many ids"@,
                    Some("max 500 ids per ACK"@),
                )
            } else {
                &&& writes(plan, answers) == seq![
                    Action::<Seq<char>, Seq<Seq<char>>, Seq<i64>>::AckDeliveries { ids },
                ]
                &&& match answers(Action::AckDeliveries { ids }) {
                    EventView::Count(Ok(count)) => ending(plan, answers) == done(
                        200,
                        BodyView::Value(
                            JsonTree::Object(map!["acked"@ => JsonTree::Int(count as int)]),
                        ),
                    ),
                    EventView::Count(Err(e)) => ending(plan, answers) == refused(
                        500,
                        "Database error"@,
                        Some(e.message),
                    ),
                    _ => true,
                }
            }
        }),
{
    reveal_with_fuel(writes, 3);
    reveal_with_fuel(ending, 3);
}

} // verus!
