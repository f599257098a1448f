//! Which addresses can be had, and what registering and renaming touch.

use vstd::prelude::*;
use vstd::utf8::encode_utf8;

use crate::address::{
    address_fault, atext_no_dot, bare_domain, first_illegal, shared_system, system_id_shape,
};
use crate::addresses::{
    address_conflict, address_created, anchor_looked_up, canonical, manager_entry, merged,
    meta_resolved, meta_updated, register_address_plan, rename_agent_address_plan, rename_checked,
    AgentMeta,
};
use crate::laws::whitelists::shows_manager;
use crate::plans::{is_write, only};
use crate::protocol::{Action, ActionView, EventView, Plan, StoreFault};
use crate::text::{
    count_char, first_pos, first_segment, last_pos, last_segment, lemma_first_pos, lemma_last_pos,
    lemma_last_pos_unique, segment_before_last,
};
use crate::types::{
    ApiKeyRecord, DomainAddrMetaRecord, RegisterAddressRequest, RenameAddressRequest,
    UpdateAgentMetaRequest,
};

verus! {

// Shapes

/// Whether all bytes of a text are `atext` other than a dot.
pub open spec fn all_atext(text: Seq<char>) -> bool {
    forall|i: int|
        0 <= i < encode_utf8(text).len() ==> atext_no_dot(#[trigger] encode_utf8(text)[i])
}

proof fn lemma_first_illegal(bytes: Seq<u8>)
    ensures
        first_illegal(bytes) is None <==> forall|i: int|
            0 <= i < bytes.len() ==> atext_no_dot(#[trigger] bytes[i]),
    decreases bytes.len(),
{
    if bytes.len() > 0 {
        let left = bytes.skip(1);
        lemma_first_illegal(left);
        assert forall|i: int| 0 < i < bytes.len() implies #[trigger] bytes[i] == left[i - 1] by {}
        assert forall|i: int| 0 <= i < left.len() implies #[trigger] left[i] == bytes[i + 1] by {}
    }
}

/// An address can be registered under a system with its own domain where its
/// local part is one to sixty-four bytes of `atext` without dots.
pub proof fn own_addresses(system_id: Seq<char>, email: Seq<char>)
    requires
        !shared_system(system_id),
    ensures
        address_fault(system_id, email) is None <==> {
            let local = segment_before_last(email, '@');
            &&& email.contains('@')
            &&& bare_domain(email).len() > 0
            &&& 1 <= encode_utf8(local).len() <= 64
            &&& count_char(local, '.') == 0
            &&& all_atext(local)
        },
{
    let local = segment_before_last(email, '@');
    lemma_first_illegal(encode_utf8(local));
    if ".a2a"@.is_suffix_of(local) {
        reveal_strlit(".a2a");
        let p = local.len() - 4;
        assert(local.subrange(p, local.len() as int)[0] == '.');
        assert(local[p] == '.');
        lemma_count_char(local, '.', p);
    }
}

/// A character that stands in a text is counted.
proof fn lemma_count_char(s: Seq<char>, c: char, p: int)
    requires
        0 <= p < s.len(),
        s[p] == c,
    ensures
        count_char(s, c) > 0,
    decreases s.len(),
{
    if p < s.len() - 1 {
        lemma_count_char(s.drop_last(), c, p);
    }
}

/// An address can be registered under a system on a shared domain where its
/// local part is one to sixty-four bytes: a profile of `atext`, a dot and the
/// id of a system, which is not `a2a`.
pub proof fn shared_addresses(system_id: Seq<char>, email: Seq<char>)
    requires
        shared_system(system_id),
    ensures
        address_fault(system_id, email) is None <==> {
            let local = segment_before_last(email, '@');
            &&& email.contains('@')
            &&& bare_domain(email).len() > 0
            &&& 1 <= encode_utf8(local).len() <= 64
            &&& count_char(local, '.') == 1
            &&& first_segment(local, '.').len() > 0
            &&& all_atext(first_segment(local, '.'))
            &&& system_id_shape(encode_utf8(last_segment(local, '.')))
            &&& last_segment(local, '.') != "a2a"@
        },
{
    lemma_first_illegal(
        encode_utf8(first_segment(segment_before_last(email, '@'), '.')),
    );
}

/// No address of the form that is reserved for boards can be registered.
pub proof fn board_addresses_are_reserved(system_id: Seq<char>, email: Seq<char>)
    requires
        ".a2a"@.is_suffix_of(segment_before_last(email, '@')),
    ensures
        address_fault(system_id, email) is Some,
{
    let local = segment_before_last(email, '@');
    reveal_strlit(".a2a");
    reveal_strlit("a2a");
    let p = local.len() - 4;
    let tail = local.subrange(p, local.len() as int);
    assert(tail[0] == '.' && tail[1] == 'a' && tail[2] == '2' && tail[3] == 'a');
    assert(local[p] == '.' && local[p + 1] == 'a' && local[p + 2] == '2' && local[p + 3] == 'a');
    lemma_last_pos_unique(local, '.', p);
    assert(last_segment(local, '.') == "a2a"@);
}

proof fn lemma_one_separator(s: Seq<char>, c: char)
    requires
        count_char(s, c) == 1,
    ensures
        s.contains(c),
        first_segment(s, c) == segment_before_last(s, c),
    decreases s.len(),
{
    lemma_last_pos(s, c);
    lemma_first_pos(s, c);
    let p = last_pos(s, c);
    if !s.contains(c) {
        lemma_no_char(s, c);
    }
    let head = s.take(p);
    lemma_count_parts(s, c, p);
    lemma_last_pos(head, c);
    if head.contains(c) {
        let i = choose|i: int| 0 <= i < head.len() && head[i] == c;
        lemma_count_char(head, c, i);
    }
    if first_pos(s, c) < p {
        assert(head[first_pos(s, c)] == c);
    }
    assert(first_pos(s, c) == p);
    assert(last_segment(head, c) == head);
}

proof fn lemma_no_char(s: Seq<char>, c: char)
    requires
        !s.contains(c),
    ensures
        count_char(s, c) == 0,
    decreases s.len(),
{
    if s.len() > 0 {
        assert(s[s.len() - 1] == s.last());
        if s.drop_last().contains(c) {
            let i = choose|i: int| 0 <= i < s.len() - 1 && s.drop_last()[i] == c;
            assert(s[i] == c);
        }
        lemma_no_char(s.drop_last(), c);
    }
}

proof fn lemma_count_parts(s: Seq<char>, c: char, p: int)
    requires
        0 <= p < s.len(),
        s[p] == c,
        forall|i: int| p < i < s.len() ==> s[i] != c,
    ensures
        count_char(s, c) == count_char(s.take(p), c) + 1,
    decreases s.len(),
{
    if p == s.len() - 1 {
        assert(s.drop_last() == s.take(p));
    } else {
        assert(s[s.len() - 1] == s.last());
        lemma_count_parts(s.drop_last(), c, p);
        assert(s.drop_last().take(p) == s.take(p));
    }
}

/// A rename leads to an address that could as well be registered, where the new
/// address has one `@`.
pub proof fn renames_lead_to_registrable_addresses(
    system_id: Seq<char>,
    old_address: Seq<char>,
    new_address: Seq<char>,
)
    requires
        count_char(new_address, '@') == 1,
        rename_checked(system_id, old_address, new_address) is Do,
    ensures
        address_fault(system_id, new_address) is None,
        bare_domain(new_address) == bare_domain(old_address),
{
    lemma_one_separator(new_address, '@');
}

// What is touched

/// A rename changes what is stored in one step, which moves every reference from
/// the old address to the new one on the same domain.
pub proof fn rename_is_one_step(
    key: ApiKeyRecord<Seq<char>>,
    system_id: Seq<char>,
    req: RenameAddressRequest<Seq<char>>,
)
    ensures
        only(
            rename_agent_address_plan(key, system_id, req),
            |a: ActionView|
                is_write(a) ==> {
                    &&& a == Action::<Seq<char>, Seq<Seq<char>>, Seq<i64>>::RenameAddressRefs {
                        from: canonical(req.old_email),
                        to: canonical(req.new_email),
                    }
                    &&& bare_domain(canonical(req.new_email)) == bare_domain(
                        canonical(req.old_email),
                    )
                },
        ),
{
    reveal_with_fuel(only, 6);
}

/// Whether an event shows the anchor of an address: a record that is active and
/// belongs to the system.
pub open spec fn shows_anchor(event: EventView, system_id: Seq<char>) -> bool {
    event matches EventView::MaybeDomain(Ok(Some(record))) && record.is_active
        && record.system_id == system_id
}

/// Nothing is written for an address whose anchor is missing, inactive or another
/// system's.
pub proof fn registration_needs_an_anchor(
    system_id: Seq<char>,
    generate_code: bool,
    req: RegisterAddressRequest<Seq<char>>,
    event: EventView,
)
    requires
        !shows_anchor(event, system_id),
    ensures
        only(
            (anchor_looked_up(system_id, generate_code, req))(event),
            |a: ActionView| false,
        ),
{
}

/// An address that fails the shape of its system is not so much as looked up.
pub proof fn registration_needs_the_shape(
    key: ApiKeyRecord<Seq<char>>,
    system_id: Seq<char>,
    generate_code: bool,
    req: RegisterAddressRequest<Seq<char>>,
)
    requires
        address_fault(system_id, req.email) is Some,
    ensures
        only(
            register_address_plan(key, system_id, generate_code, req),
            |a: ActionView| a is RequireScope,
        ),
{
    reveal_with_fuel(only, 3);
}

/// A registration that is tried again is safe: where the address is already
/// there, its manager is entered in the metadata and in the whitelist once more,
/// nothing else is written, and the reply tells of the conflict.
pub proof fn registration_can_be_retried(
    system_id: Seq<char>,
    generate_code: bool,
    email: Seq<char>,
    manager: Seq<char>,
    conflict: StoreFault,
    synced: EventView,
    entered: EventView,
)
    requires
        conflict.conflict,
        synced is Done,
        entered is Entry,
    ensures
        ({
            let retried = (address_created(system_id, generate_code, email, Some(manager)))(
                EventView::Domain(Err(conflict)),
            );
            &&& retried matches Plan::Do(sync, after_sync)
            &&& sync == Action::<Seq<char>, Seq<Seq<char>>, Seq<i64>>::UpsertMetaRow {
                email,
                system_id,
                manager: Some(manager),
                signature: None,
                persona: None,
            }
            &&& after_sync(synced) matches Plan::Do(enter, after_enter)
            &&& enter == manager_entry(email, manager)
            &&& after_enter(entered) == address_conflict(conflict)
        }),
        (address_created(system_id, generate_code, email, None))(EventView::Domain(Err(conflict)))
            == address_conflict(conflict),
{
}

/// An agent admin changes the metadata of the agents that it manages only.
pub proof fn agent_admins_change_what_they_manage(
    key: ApiKeyRecord<Seq<char>>,
    email: Seq<char>,
    req: UpdateAgentMetaRequest<Seq<char>>,
    event: EventView,
)
    requires
        key.scopes.agent_admin,
        !shows_manager(event, key.email_address),
    ensures
        only((meta_resolved(key, email, req))(event), |a: ActionView| false),
{
}

/// A change that names nothing leaves an agent's metadata as it is, and its
/// whitelist untouched.
pub proof fn empty_change_keeps_everything(
    email: Seq<char>,
    meta: DomainAddrMetaRecord<Seq<char>>,
    event: EventView,
)
    ensures
        ({
            let req = UpdateAgentMetaRequest {
                manager_address: None,
                agent_signature: None,
                agent_persona: None,
            };
            &&& merged(req, meta).manager_address == meta.manager_address
            &&& merged(req, meta).agent_signature == meta.agent_signature
            &&& merged(req, meta).agent_persona == meta.agent_persona
            &&& !((meta_updated(email, meta.manager_address, merged(req, meta)))(event) is Do)
        }),
{
}

/// The whitelist follows the manager of an agent: where the manager changes, the
/// former one leaves it and the new one enters it.
pub proof fn whitelist_follows_the_manager(
    email: Seq<char>,
    former: Seq<char>,
    meta: AgentMeta<Seq<char>>,
    removed: EventView,
)
    requires
        meta.manager_address != former,
        former.len() > 0,
        meta.manager_address.len() > 0,
        removed is Done,
    ensures
        ({
            &&& (meta_updated(email, former, meta))(EventView::Done(Ok(()))) matches Plan::Do(
                remove,
                after_remove,
            )
            &&& remove == Action::<
                Seq<char>,
                Seq<Seq<char>>,
                Seq<i64>,
            >::DeleteWhitelistEntryByValue { domain_addr: email, value: former }
            &&& after_remove(removed) matches Plan::Do(enter, _)
            &&& enter matches Action::CreateWhitelistEntry { domain_addr, direction, value, .. }
            &&& domain_addr == email
            &&& direction == "all"@
            &&& value == meta.manager_address
        }),
{
}

} // verus!
