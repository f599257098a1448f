//! What a poll asks for, and how deliveries are batched.

use vstd::prelude::*;

use crate::laws::lists::{lemma_concat_contains, lemma_push_contains};
use crate::pending::{
    absorbed, ack_pending_deliveries_plan, bare_domains, deliveries_with, delivery_batches, effective_filter,
    email_domains, lemma_no_deliveries, lemma_payload_hashes, other_entries, payload_hash,
    payload_hashes, MAX_ACK,
};
use crate::plans::only;
use crate::protocol::{Action, ActionView};
use crate::text::{last_segment, lemma_last_segment, lemma_unescaped, trimmed, unescaped};
use crate::types::PendingDelivery;

verus! {

// Filters

proof fn lemma_filter_parts(raw: Seq<Seq<char>>)
    ensures
        bare_domains(raw).no_duplicates(),
        forall|i: int|
            0 <= i < raw.len() && trimmed(#[trigger] raw[i]).len() > 0 ==> if trimmed(
                raw[i],
            ).contains('@') {
                other_entries(raw).contains(trimmed(raw[i]))
            } else {
                bare_domains(raw).contains(trimmed(raw[i]))
            },
        forall|d: Seq<char>| #[trigger]
            bare_domains(raw).contains(d) ==> d.len() > 0 && !d.contains('@') && exists|i: int|
                0 <= i < raw.len() && d == trimmed(#[trigger] raw[i]),
        forall|e: Seq<char>| #[trigger]
            other_entries(raw).contains(e) ==> e.contains('@') && exists|i: int|
                0 <= i < raw.len() && e == trimmed(#[trigger] raw[i]),
    decreases raw.len(),
{
    if raw.len() > 0 {
        let init = raw.drop_last();
        let entry = trimmed(raw.last());
        lemma_filter_parts(init);
        assert forall|x: Seq<char>|
            #![trigger bare_domains(raw).contains(x)]
            #![trigger other_entries(raw).contains(x)]
            {
                &&& bare_domains(raw).contains(x) <==> bare_domains(init).contains(x) || (x
                    == entry && entry.len() > 0 && !entry.contains('@'))
                &&& other_entries(raw).contains(x) <==> other_entries(init).contains(x) || (x
                    == entry && entry.contains('@'))
            } by {
            lemma_push_contains(bare_domains(init), entry, x);
            lemma_push_contains(other_entries(init), entry, x);
        }
        assert forall|i: int|
            0 <= i < raw.len() && trimmed(#[trigger] raw[i]).len() > 0 implies if trimmed(
            raw[i],
        ).contains('@') {
            other_entries(raw).contains(trimmed(raw[i]))
        } else {
            bare_domains(raw).contains(trimmed(raw[i]))
        } by {
            if i < init.len() {
                assert(init[i] == raw[i]);
            }
        }
        assert forall|d: Seq<char>| #[trigger] bare_domains(raw).contains(d) implies d.len() > 0
            && !d.contains('@') && exists|i: int|
            0 <= i < raw.len() && d == trimmed(#[trigger] raw[i]) by {
            if bare_domains(init).contains(d) {
                let i = choose|i: int|
                    0 <= i < init.len() && d == trimmed(#[trigger] init[i]);
                assert(raw[i] == init[i]);
            } else {
                assert(raw[raw.len() - 1] == raw.last());
            }
        }
        assert forall|e: Seq<char>| #[trigger] other_entries(raw).contains(e) implies e.contains(
            '@',
        ) && exists|i: int| 0 <= i < raw.len() && e == trimmed(#[trigger] raw[i]) by {
            if other_entries(init).contains(e) {
                let i = choose|i: int|
                    0 <= i < init.len() && e == trimmed(#[trigger] init[i]);
                assert(raw[i] == init[i]);
            } else {
                assert(raw[raw.len() - 1] == raw.last());
            }
        }
    }
}

/// Whether a filter has an entry, or a bare domain that absorbs it.
pub open spec fn covers(filter: Seq<Seq<char>>, entry: Seq<char>) -> bool {
    filter.contains(entry) || absorbed(entry, filter)
}

proof fn lemma_kept(entries: Seq<Seq<char>>, domains: Seq<Seq<char>>, entry: Seq<char>)
    ensures
        entries.filter(|e: Seq<char>| !absorbed(e, domains)).contains(entry)
            <==> entries.contains(entry) && !absorbed(entry, domains),
    decreases entries.len(),
{
    reveal(Seq::filter);
    if entries.len() > 0 {
        let init = entries.drop_last();
        let last = entries.last();
        lemma_kept(init, domains, entry);
        assert(init.push(last) == entries);
        lemma_push_contains(init, last, entry);
        lemma_push_contains(
            init.filter(|e: Seq<char>| !absorbed(e, domains)),
            last,
            entry,
        );
    }
}

/// A prepared filter covers each entry that it was given, but for empty ones, and
/// has no others.
pub proof fn filter_covers_its_entries(raw: Seq<Seq<char>>)
    ensures
        forall|i: int|
            0 <= i < raw.len() && trimmed(#[trigger] raw[i]).len() > 0 ==> covers(
                effective_filter(raw),
                trimmed(raw[i]),
            ),
        forall|e: Seq<char>| #[trigger]
            effective_filter(raw).contains(e) ==> exists|i: int|
                0 <= i < raw.len() && e == trimmed(#[trigger] raw[i]),
{
    let domains = bare_domains(raw);
    let others = other_entries(raw);
    let kept = others.filter(|e: Seq<char>| !absorbed(e, domains));
    let all = effective_filter(raw);
    lemma_filter_parts(raw);
    assert(all == domains + kept);
    assert forall|e: Seq<char>| #[trigger] all.contains(e) <==> domains.contains(e)
        || kept.contains(e) by {
        lemma_concat_contains(domains, kept, e);
    }
    assert forall|i: int| 0 <= i < raw.len() && trimmed(#[trigger] raw[i]).len() > 0 implies covers(
        all,
        trimmed(raw[i]),
    ) by {
        lemma_kept(others, domains, trimmed(raw[i]));
    }
    assert forall|e: Seq<char>| #[trigger] all.contains(e) implies exists|i: int|
        0 <= i < raw.len() && e == trimmed(#[trigger] raw[i]) by {
        lemma_kept(others, domains, e);
    }
}

/// A bare domain absorbs every entry under it: a prepared filter that has the
/// domain has none of them. It has no bare domain twice.
pub proof fn domains_absorb_entries(raw: Seq<Seq<char>>, entry: Seq<char>)
    requires
        effective_filter(raw).contains(entry),
        entry.contains('@'),
    ensures
        !absorbed(entry, effective_filter(raw)),
        bare_domains(raw).no_duplicates(),
        bare_domains(raw).is_prefix_of(effective_filter(raw)),
{
    let domains = bare_domains(raw);
    let others = other_entries(raw);
    let kept = others.filter(|e: Seq<char>| !absorbed(e, domains));
    let domain = last_segment(entry, '@');
    let plain = unescaped(domain);
    lemma_filter_parts(raw);
    assert(effective_filter(raw) == domains + kept);
    lemma_concat_contains(domains, kept, entry);
    lemma_concat_contains(domains, kept, domain);
    lemma_concat_contains(domains, kept, plain);
    lemma_kept(others, domains, entry);
    lemma_kept(others, domains, domain);
    lemma_kept(others, domains, plain);
    lemma_last_segment(entry, '@');
    lemma_unescaped(domain, '@');
}

/// Where a filter names no bare domain, its entries stay as they are.
pub proof fn without_domains_nothing_is_absorbed(raw: Seq<Seq<char>>)
    requires
        bare_domains(raw).len() == 0,
    ensures
        effective_filter(raw) == other_entries(raw),
{
    let domains = bare_domains(raw);
    lemma_nothing_absorbed(other_entries(raw), domains);
    assert(domains + other_entries(raw) == other_entries(raw));
}

proof fn lemma_nothing_absorbed(entries: Seq<Seq<char>>, domains: Seq<Seq<char>>)
    requires
        domains.len() == 0,
    ensures
        entries.filter(|e: Seq<char>| !absorbed(e, domains)) == entries,
    decreases entries.len(),
{
    reveal(Seq::filter);
    if entries.len() > 0 {
        lemma_nothing_absorbed(entries.drop_last(), domains);
        assert(entries.drop_last().push(entries.last()) == entries);
    }
}

/// The domains of a list of addresses stand in the filter once each, and no
/// others.
pub proof fn email_domains_are_listed_once(emails: Seq<Seq<char>>)
    ensures
        email_domains(emails).no_duplicates(),
        forall|d: Seq<char>| #[trigger]
            email_domains(emails).contains(d) <==> exists|i: int|
                0 <= i < emails.len() && d == last_segment(#[trigger] emails[i], '@'),
    decreases emails.len(),
{
    if emails.len() > 0 {
        let init = emails.drop_last();
        let last = last_segment(emails.last(), '@');
        email_domains_are_listed_once(init);
        assert forall|d: Seq<char>| #[trigger] email_domains(emails).contains(d) <==> exists|i: int|
            0 <= i < emails.len() && d == last_segment(#[trigger] emails[i], '@') by {
            lemma_push_contains(email_domains(init), last, d);
            if email_domains(init).contains(d) {
                let i = choose|i: int|
                    0 <= i < init.len() && d == last_segment(#[trigger] init[i], '@');
                assert(emails[i] == init[i]);
            }
            if d == last {
                assert(emails[emails.len() - 1] == emails.last());
            }
            if exists|i: int| 0 <= i < emails.len() && d == last_segment(#[trigger] emails[i], '@') {
                let i = choose|i: int|
                    0 <= i < emails.len() && d == last_segment(#[trigger] emails[i], '@');
                if i < init.len() {
                    assert(init[i] == emails[i]);
                }
            }
        }
    }
}

// Batches

/// The batch of a payload is one of the batches.
proof fn lemma_batch_of(records: Seq<PendingDelivery<Seq<char>>>, i: int) -> (b: int)
    requires
        0 <= i < records.len(),
    ensures
        0 <= b < delivery_batches(records).len(),
        payload_hashes(records)[b] == payload_hash(records[i].payload),
        delivery_batches(records)[b] == deliveries_with(
            records,
            payload_hash(records[i].payload),
        ),
{
    lemma_payload_hashes(records);
    let hash = payload_hash(records[i].payload);
    assert(payload_hashes(records).contains(hash));
    choose|b: int| 0 <= b < payload_hashes(records).len() && payload_hashes(records)[b] == hash
}

/// Deliveries with the same payload stand in the same batch.
pub proof fn equal_payloads_share_a_batch(
    records: Seq<PendingDelivery<Seq<char>>>,
    i: int,
    j: int,
) -> (b: int)
    requires
        0 <= i < records.len(),
        0 <= j < records.len(),
        records[i].payload == records[j].payload,
    ensures
        0 <= b < delivery_batches(records).len(),
        delivery_batches(records)[b].contains(records[i]),
        delivery_batches(records)[b].contains(records[j]),
{
    let b = lemma_batch_of(records, i);
    let hash = payload_hash(records[i].payload);
    lemma_delivery_listed(records, hash, i);
    lemma_delivery_listed(records, hash, j);
    b
}

proof fn lemma_delivery_listed(records: Seq<PendingDelivery<Seq<char>>>, hash: u64, i: int)
    requires
        0 <= i < records.len(),
        payload_hash(records[i].payload) == hash,
    ensures
        deliveries_with(records, hash).contains(records[i]),
    decreases records.len(),
{
    reveal(Seq::filter);
    let all = deliveries_with(records, hash);
    let head = deliveries_with(records.drop_last(), hash);
    if i < records.len() - 1 {
        lemma_delivery_listed(records.drop_last(), hash, i);
        let j = choose|j: int| 0 <= j < head.len() && head[j] == records[i];
        assert(all[j] == records[i]);
    } else {
        assert(all[head.len() as int] == records[i]);
    }
}

/// All deliveries of a batch have payloads with one hash.
pub proof fn batches_are_uniform(records: Seq<PendingDelivery<Seq<char>>>, b: int)
    requires
        0 <= b < delivery_batches(records).len(),
    ensures
        forall|k: int|
            0 <= k < delivery_batches(records)[b].len() ==> payload_hash(
                (#[trigger] delivery_batches(records)[b][k]).payload,
            ) == payload_hashes(records)[b],
{
    lemma_uniform(records, payload_hashes(records)[b]);
}

proof fn lemma_uniform(records: Seq<PendingDelivery<Seq<char>>>, hash: u64)
    ensures
        forall|k: int|
            0 <= k < deliveries_with(records, hash).len() ==> payload_hash(
                (#[trigger] deliveries_with(records, hash)[k]).payload,
            ) == hash,
    decreases records.len(),
{
    reveal(Seq::filter);
    if records.len() > 0 {
        lemma_uniform(records.drop_last(), hash);
        assert forall|k: int|
            0 <= k < deliveries_with(records, hash).len() implies payload_hash(
            (#[trigger] deliveries_with(records, hash)[k]).payload,
        ) == hash by {
            let head = deliveries_with(records.drop_last(), hash);
            if k < head.len() {
                assert(deliveries_with(records, hash)[k] == head[k]);
            }
        }
    }
}

/// How many deliveries some batches hold.
pub open spec fn total(batches: Seq<Seq<PendingDelivery<Seq<char>>>>) -> nat
    decreases batches.len(),
{
    if batches.len() == 0 {
        0
    } else {
        total(batches.drop_last()) + batches.last().len()
    }
}

/// No delivery is lost and none is shown twice: the batches hold as many
/// deliveries as there are, and each stands in one of them.
pub proof fn batches_hold_every_delivery_once(records: Seq<PendingDelivery<Seq<char>>>)
    ensures
        total(delivery_batches(records)) == records.len(),
        forall|i: int|
            0 <= i < records.len() ==> exists|b: int|
                0 <= b < delivery_batches(records).len() && (#[trigger] delivery_batches(
                    records,
                )[b]).contains(#[trigger] records[i]),
{
    assert forall|i: int| 0 <= i < records.len() implies exists|b: int|
        0 <= b < delivery_batches(records).len() && (#[trigger] delivery_batches(
            records,
        )[b]).contains(#[trigger] records[i]) by {
        let b = equal_payloads_share_a_batch(records, i, i);
    }
    lemma_total(records);
}

proof fn lemma_total(records: Seq<PendingDelivery<Seq<char>>>)
    ensures
        total(delivery_batches(records)) == records.len(),
    decreases records.len(),
{
    if records.len() == 0 {
        assert(delivery_batches(records).len() == 0);
    } else {
        let init = records.drop_last();
        let last = records.last();
        let hash = payload_hash(last.payload);
        let hashes = payload_hashes(init);
        let before = delivery_batches(init);
        let after = delivery_batches(records);
        lemma_total(init);
        lemma_payload_hashes(init);
        assert(init.push(last) == records);
        assert forall|h: u64| true implies #[trigger] deliveries_with(records, h) == if h == hash {
            deliveries_with(init, h).push(last)
        } else {
            deliveries_with(init, h)
        } by {
            reveal(Seq::filter);
        }
        if hashes.contains(hash) {
            let b = choose|b: int| 0 <= b < hashes.len() && hashes[b] == hash;
            assert(after == before.update(b, before[b].push(last)));
            lemma_total_update(before, b, before[b].push(last));
        } else {
            lemma_no_deliveries(init, hash);
            assert(after == before.push(deliveries_with(init, hash).push(last)));
            assert(after.drop_last() == before);
        }
    }
}

proof fn lemma_total_update(
    batches: Seq<Seq<PendingDelivery<Seq<char>>>>,
    b: int,
    batch: Seq<PendingDelivery<Seq<char>>>,
)
    requires
        0 <= b < batches.len(),
    ensures
        total(batches.update(b, batch)) == total(batches) + batch.len() - batches[b].len(),
    decreases batches.len(),
{
    let after = batches.update(b, batch);
    if b == batches.len() - 1 {
        assert(after.drop_last() == batches.drop_last());
    } else {
        assert(after.drop_last() == batches.drop_last().update(b, batch));
        lemma_total_update(batches.drop_last(), b, batch);
    }
}

// Acknowledgements

/// No more than the limit is acknowledged at once.
pub proof fn acks_are_limited(ids: Seq<i64>)
    ensures
        only(
            ack_pending_deliveries_plan(ids),
            |a: ActionView| a matches Action::AckDeliveries { ids: acked } ==> acked.len() <= MAX_ACK,
        ),
{
    reveal_with_fuel(only, 3);
}

} // verus!
