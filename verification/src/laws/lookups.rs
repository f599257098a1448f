//! What the lookups and the lists behind the handlers come to.

use vstd::prelude::*;

use crate::address::{atext_no_dot, local_part_fault, system_id_shape};
use crate::contact_search::{batch_addresses, get_contacts_by_name_plan, persona_of};
use crate::laws::outcomes::{ending, grants, refused, Answers};
use crate::pending::{
    bare_domains, deliveries_with, delivery_batches, email_domains, other_entries, payload_hashes,
};
use crate::protocol::{Action, ActionView, EventView, Plan, ScopeRule, StoreFault};
use crate::text::{segments, trimmed, white_space};
use crate::types::{ApiKeyRecord, ContactsByNameQuery, DomainAddrMetaRecord, PendingDelivery};
use crate::whitelist::names_manager;
use vstd::utf8::encode_utf8;

verus! {

// Metadata

/// Metadata names a manager where it was found and its manager is that one.
pub proof fn found_metadata_names_its_manager(
    meta: DomainAddrMetaRecord<Seq<char>>,
    fault: StoreFault,
    manager: Seq<char>,
)
    ensures
        names_manager(Ok(Some(meta)), manager) <==> meta.manager_address == manager,
        !names_manager(Ok(None), manager),
        !names_manager(Err(fault), manager),
{
}

/// An agent has a persona where its metadata was found and gives one.
pub proof fn found_metadata_gives_the_persona(
    meta: DomainAddrMetaRecord<Seq<char>>,
    fault: StoreFault,
)
    ensures
        meta.agent_persona.len() > 0 ==> persona_of(Ok(Some(meta))) == Some(meta.agent_persona),
        meta.agent_persona.len() == 0 ==> persona_of(Ok(Some(meta))) is None,
        persona_of(Ok(None)) is None,
        persona_of(Err(fault)) is None,
{
}

// Orders

/// More addresses behind a batch leave those that it has in their places.
pub proof fn batches_keep_their_order(parts: Seq<Seq<char>>, more: Seq<Seq<char>>)
    ensures
        batch_addresses(parts).is_prefix_of(batch_addresses(parts + more)),
    decreases more.len(),
{
    if more.len() == 0 {
        assert(parts + more == parts);
    } else {
        batches_keep_their_order(parts, more.drop_last());
        assert((parts + more).drop_last() == parts + more.drop_last());
    }
}

/// More entries behind a filter leave those that it has in their places, and more
/// addresses the domains.
pub proof fn filters_keep_their_order(raw: Seq<Seq<char>>, more: Seq<Seq<char>>)
    ensures
        bare_domains(raw).is_prefix_of(bare_domains(raw + more)),
        other_entries(raw).is_prefix_of(other_entries(raw + more)),
        email_domains(raw).is_prefix_of(email_domains(raw + more)),
    decreases more.len(),
{
    if more.len() == 0 {
        assert(raw + more == raw);
    } else {
        filters_keep_their_order(raw, more.drop_last());
        assert((raw + more).drop_last() == raw + more.drop_last());
    }
}

/// More deliveries leave the batches in their places, and the deliveries of each
/// batch in theirs. The first delivery is the first of the first batch.
pub proof fn deliveries_keep_their_order(
    records: Seq<PendingDelivery<Seq<char>>>,
    more: Seq<PendingDelivery<Seq<char>>>,
)
    ensures
        payload_hashes(records).is_prefix_of(payload_hashes(records + more)),
        forall|b: int|
            0 <= b < delivery_batches(records).len() ==> (#[trigger] delivery_batches(
                records,
            )[b]).is_prefix_of(delivery_batches(records + more)[b]),
        records.len() > 0 ==> delivery_batches(records).len() > 0 && delivery_batches(
            records,
        )[0].len() > 0 && delivery_batches(records)[0][0] == records[0],
{
    lemma_hashes_prefix(records, more);
    assert forall|b: int| 0 <= b < delivery_batches(records).len() implies (
    #[trigger] delivery_batches(records)[b]).is_prefix_of(delivery_batches(records + more)[b]) by {
        assert(payload_hashes(records + more)[b] == payload_hashes(records)[b]);
        lemma_with_prefix(records, more, payload_hashes(records)[b]);
    }
    if records.len() > 0 {
        let one = seq![records[0]];
        let left = records.skip(1);
        assert(records == one + left);
        lemma_hashes_prefix(one, left);
        reveal_with_fuel(payload_hashes, 2);
        assert(one.drop_last() == Seq::<PendingDelivery<Seq<char>>>::empty());
        let hash = crate::pending::payload_hash(records[0].payload);
        assert(payload_hashes(one) == seq![hash]);
        let all = payload_hashes(records);
        assert(all.subrange(0, 1) == seq![hash]);
        assert(all.subrange(0, 1)[0] == all[0]);
        lemma_with_prefix(one, left, hash);
        reveal_with_fuel(Seq::<_>::filter, 2);
        assert(deliveries_with(one, hash) == one);
        let batch = deliveries_with(records, hash);
        assert(batch.subrange(0, 1) == one);
        assert(batch.subrange(0, 1)[0] == batch[0]);
    }
}

proof fn lemma_hashes_prefix(
    records: Seq<PendingDelivery<Seq<char>>>,
    more: Seq<PendingDelivery<Seq<char>>>,
)
    ensures
        payload_hashes(records).is_prefix_of(payload_hashes(records + more)),
    decreases more.len(),
{
    if more.len() == 0 {
        assert(records + more == records);
    } else {
        lemma_hashes_prefix(records, more.drop_last());
        assert((records + more).drop_last() == records + more.drop_last());
    }
}

proof fn lemma_with_prefix(
    records: Seq<PendingDelivery<Seq<char>>>,
    more: Seq<PendingDelivery<Seq<char>>>,
    hash: u64,
)
    ensures
        deliveries_with(records, hash).is_prefix_of(deliveries_with(records + more, hash)),
{
    let stays = |r: PendingDelivery<Seq<char>>| crate::pending::payload_hash(r.payload) == hash;
    Seq::filter_distributes_over_add(records, more, stays);
    let head = records.filter(stays);
    let all = (records + more).filter(stays);
    assert(all == head + more.filter(stays));
    assert(all.subrange(0, head.len() as int) == head);
}

// Searches

/// A search that names more than fifty addresses is refused, and so is one that
/// names neither addresses nor a name.
pub proof fn searches_need_something_to_look_for(
    answers: Answers,
    query: ContactsByNameQuery<Seq<char>>,
    key: ApiKeyRecord<Seq<char>>,
)
    requires
        grants(answers, Action::RequireScope { rule: ScopeRule::AgentOrAdmin }),
        key.email_address.len() > 0,
    ensures
        ({
            let end = ending(get_contacts_by_name_plan(query, key), answers);
            let named = query.addresses is Some && trimmed(query.addresses->0).len() > 0;
            &&& named && batch_addresses(segments(trimmed(query.addresses->0), ',')).len() > 50
                ==> end == refused(400, "too many addresses (max 50)"@, None)
            &&& !named && (query.name is None || trimmed(query.name->0).len() == 0) ==> end
                == refused(400, "either name or addresses query parameter is required"@, None)
        }),
{
    reveal_with_fuel(ending, 3);
}

/// As many as fifty addresses are looked up, after the agent's own metadata.
pub proof fn batches_of_fifty_are_looked_up(
    query: ContactsByNameQuery<Seq<char>>,
    key: ApiKeyRecord<Seq<char>>,
    event: EventView,
)
    requires
        key.email_address.len() > 0,
        query.addresses is Some,
        trimmed(query.addresses->0).len() > 0,
        batch_addresses(segments(trimmed(query.addresses->0), ',')).len() <= 50,
        event matches EventView::Access(Ok(_)),
    ensures
        get_contacts_by_name_plan(query, key) matches Plan::Do(_, rest) && (rest(
            event,
        ) matches Plan::Do(asks, _) && asks == meta_row(key.email_address)),
{
}

/// The question for an agent's stored metadata.
pub open spec fn meta_row(email: Seq<char>) -> ActionView {
    Action::GetMetaRow { email }
}

// Shapes

/// A byte may stand in a profile where it is printable ASCII and none of those
/// that have a meaning in addresses.
pub proof fn atext_is_printable_without_specials(b: u8)
    ensures
        atext_no_dot(b) <==> 33 <= b <= 126 && b != 34 && b != 40 && b != 41 && b != 44 && b != 46
            && b != 58 && b != 59 && b != 60 && b != 62 && b != 64 && b != 91 && b != 92 && b
            != 93,
{
}

/// The id of a system is three to eight bytes: lower case letters, digits, hyphens
/// and underscores, the first of them a letter.
pub proof fn system_ids_have_their_shape(bytes: Seq<u8>)
    ensures
        system_id_shape(bytes) <==> {
            &&& 3 <= bytes.len() <= 8
            &&& 97 <= bytes[0] <= 122
            &&& forall|i: int|
                0 <= i < bytes.len() ==> 97 <= #[trigger] bytes[i] <= 122 || 48 <= bytes[i] <= 57
                    || bytes[i] == 45 || bytes[i] == 95
        },
{
    if 3 <= bytes.len() <= 8 && forall|i: int|
        0 <= i < bytes.len() ==> 97 <= #[trigger] bytes[i] <= 122 || 48 <= bytes[i] <= 57
            || bytes[i] == 45 || bytes[i] == 95 {
        assert forall|i: int| 0 <= i < bytes.len() implies crate::address::system_id_byte(
            #[trigger] bytes[i],
        ) by {}
    }
    if system_id_shape(bytes) {
        assert forall|i: int| 0 <= i < bytes.len() implies 97 <= #[trigger] bytes[i] <= 122
            || 48 <= bytes[i] <= 57 || bytes[i] == 45 || bytes[i] == 95 by {
            assert(crate::address::system_id_byte(bytes[i]));
        }
    }
}

/// What is said of a local part of the wrong length, and of one with dots where
/// the system has its own domain.
pub proof fn local_parts_are_faulted(shared: bool, local: Seq<char>)
    ensures
        !(1 <= encode_utf8(local).len() <= 64) ==> local_part_fault(shared, local) == Some(
            "local-part must be 1-64 characters"@,
        ),
        1 <= encode_utf8(local).len() <= 64 && shared && crate::text::count_char(local, '.') != 1
            ==> local_part_fault(shared, local) == Some(
            "shared-domain address must use profile.system_id@domain format"@,
        ),
        1 <= encode_utf8(local).len() <= 64 && !shared && ".a2a"@.is_suffix_of(local)
            ==> local_part_fault(shared, local) == Some(
            "'.a2a@' is reserved for board addresses"@,
        ),
        1 <= encode_utf8(local).len() <= 64 && !shared && !".a2a"@.is_suffix_of(local)
            && crate::text::count_char(local, '.') != 0 ==> local_part_fault(shared, local) == Some(
            "non-shared address must not contain dots"@,
        ),
{
}

/// White space of ASCII is the tab, the line breaks and the space.
pub proof fn ascii_white_space(c: char)
    requires
        c <= '\u{7f}',
    ensures
        white_space(c) <==> c == '\u{20}' || '\u{9}' <= c <= '\u{d}',
{
}

} // verus!
