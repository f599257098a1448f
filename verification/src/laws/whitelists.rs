//! Who reaches which whitelist entries.

use vstd::prelude::*;

use crate::access::is_system_sender;
use crate::plans::{is_write, only};
use crate::protocol::{gate, succeed, Action, ActionView, EventView, Plan, StoreFault};
use crate::types::{
    ApiKeyRecord, BodyView, CheckWhitelistQuery, CreateWhitelistRequest, DomainAddrMetaRecord,
    ListWhitelistsQuery, UpdateWhitelistRequest, WhitelistRecord,
};
use crate::whitelist::{
    check_whitelist_plan, create_whitelist_plan, entry_sifted, list_whitelists_plan, names_manager,
    own_entry, sifted,
};
use crate::whitelist_edit::{
    delete_whitelist_plan, edit_by_params, first_entry, update_whitelist_plan, Edit,
};

verus! {

/// Whether an action changes or deletes the entry with an id.
pub open spec fn edits(action: ActionView, id: i64) -> bool {
    match action {
        Action::UpdateWhitelistEntry { id: edited, .. } => edited == id,
        Action::DeleteWhitelistEntry { id: edited } => edited == id,
        _ => false,
    }
}

/// Whether a plan changes and deletes no entry but those with certain ids.
pub open spec fn edits_only(plan: Plan, ids: spec_fn(i64) -> bool) -> bool {
    only(plan, |a: ActionView| forall|id: i64| #[trigger] edits(a, id) ==> ids(id))
}

/// Whether an event shows an entry that a key created.
pub open spec fn shows_own_entry(event: EventView, key_id: i64) -> bool {
    event matches EventView::MaybeEntry(Ok(Some(entry))) && entry.api_key_id == Some(key_id)
}

/// Whether a plan looks up an entry by its id, and edits that entry alone, where
/// it turns out to be one that a key created.
pub open spec fn edits_own_entry(plan: Plan, id: i64, key_id: i64) -> bool {
    match plan {
        Plan::Do(action, rest) => {
            &&& action == Action::<Seq<char>, Seq<Seq<char>>, Seq<i64>>::GetWhitelistEntry { id }
            &&& forall|event: EventView|
                edits_only(
                    #[trigger] rest(event),
                    |i: i64| i == id && shows_own_entry(event, key_id),
                )
        },
        _ => false,
    }
}

/// An agent changes and deletes by id what its own key created, and nothing else.
pub proof fn agents_edit_what_they_created(
    key: ApiKeyRecord<Seq<char>>,
    id: i64,
    req: UpdateWhitelistRequest<Seq<char>>,
)
    requires
        key.scopes.agent,
        !key.scopes.agent_admin,
    ensures
        edits_own_entry(update_whitelist_plan(key, id, req), id, key.id),
        edits_own_entry(delete_whitelist_plan(key, id), id, key.id),
{
    reveal_with_fuel(only, 6);
}

/// Whether the metadata in an event names a manager.
pub open spec fn shows_manager(event: EventView, manager: Seq<char>) -> bool {
    event matches EventView::MaybeMeta(meta) && names_manager(meta, manager)
}

/// Whether a plan looks up an entry by its id, then the metadata of the entry's
/// address, and edits that entry alone, where the metadata names a manager.
pub open spec fn edits_managed_entry(plan: Plan, id: i64, manager: Seq<char>) -> bool {
    match plan {
        Plan::Do(action, rest) => {
            &&& action == Action::<Seq<char>, Seq<Seq<char>>, Seq<i64>>::GetWhitelistEntry { id }
            &&& forall|event: EventView|
                match event {
                    EventView::MaybeEntry(Ok(Some(entry))) => edits_where_managed(
                        #[trigger] rest(event),
                        entry.domain_addr,
                        manager,
                        |i: i64| i == id,
                    ),
                    _ => edits_only(rest(event), |i: i64| false),
                }
        },
        _ => false,
    }
}

/// Whether a plan looks up the metadata of an address, and edits only where it
/// names a manager.
pub open spec fn edits_where_managed(
    plan: Plan,
    domain_addr: Seq<char>,
    manager: Seq<char>,
    ids: spec_fn(i64) -> bool,
) -> bool {
    match plan {
        Plan::Do(action, rest) => {
            &&& action == Action::<Seq<char>, Seq<Seq<char>>, Seq<i64>>::ResolveMeta {
                email: domain_addr,
            }
            &&& forall|event: EventView|
                edits_only(
                    #[trigger] rest(event),
                    |i: i64| ids(i) && shows_manager(event, manager),
                )
        },
        _ => false,
    }
}

/// An agent admin changes and deletes entries of the agents that it manages, and
/// no others.
pub proof fn agent_admins_edit_what_they_manage(
    key: ApiKeyRecord<Seq<char>>,
    id: i64,
    req: UpdateWhitelistRequest<Seq<char>>,
    domain_addr: Seq<char>,
    value: Seq<char>,
    edit: Edit<Seq<char>>,
)
    requires
        key.scopes.agent_admin,
    ensures
        edits_managed_entry(update_whitelist_plan(key, id, req), id, key.email_address),
        edits_managed_entry(delete_whitelist_plan(key, id), id, key.email_address),
        edits_where_managed(
            edit_by_params(key, domain_addr, value, edit),
            domain_addr,
            key.email_address,
            |i: i64| true,
        ),
{
    reveal_with_fuel(only, 7);
}

/// Whether an event shows an entry that is not of the agent category.
pub open spec fn shows_other_category(event: EventView) -> bool {
    event matches EventView::MaybeEntry(Ok(Some(entry))) && entry.category != "agent"@
}

/// Whether a plan deletes the entry with an id only right after it has looked it
/// up and seen that it is not of the agent category. `seen` says whether that
/// has just happened.
pub open spec fn deletes_after_look(plan: Plan, id: i64, seen: bool) -> bool
    decreases plan,
{
    match plan {
        Plan::Do(action, rest) => {
            &&& forall|i: i64| #[trigger] edits(action, i) ==> i == id && seen
            &&& forall|event: EventView|
                deletes_after_look(
                    #[trigger] rest(event),
                    id,
                    action == (Action::<
                        Seq<char>,
                        Seq<Seq<char>>,
                        Seq<i64>,
                    >::GetWhitelistEntry { id }) && shows_other_category(event),
                )
        },
        _ => true,
    }
}

/// A platform or system admin deletes no entry of the agent category, whatever
/// other scopes the key holds.
pub proof fn admins_delete_no_agent_entries(key: ApiKeyRecord<Seq<char>>, id: i64)
    requires
        key.scopes.platform_admin || key.scopes.system_admin,
    ensures
        deletes_after_look(delete_whitelist_plan(key, id), id, false),
{
    reveal_with_fuel(deletes_after_look, 7);
}

/// Whether an event lists an entry with an id and a value.
pub open spec fn lists_entry(
    event: EventView,
    id: i64,
    value: Seq<char>,
    kind: spec_fn(WhitelistRecord<Seq<char>>) -> bool,
) -> bool {
    event matches EventView::Entries(Ok(entries)) && exists|i: int|
        0 <= i < entries.len() && (#[trigger] entries[i]).id == id && entries[i].value == value
            && kind(entries[i])
}

/// Whether a plan lists the entries of an address, and edits one of them with a
/// value, of a kind.
pub open spec fn edits_listed(
    plan: Plan,
    domain_addr: Seq<char>,
    value: Seq<char>,
    kind: spec_fn(WhitelistRecord<Seq<char>>) -> bool,
) -> bool {
    match plan {
        Plan::Do(action, rest) => {
            &&& action == Action::<Seq<char>, Seq<Seq<char>>, Seq<i64>>::ListWhitelistEntries {
                domain: domain_addr,
            }
            &&& forall|event: EventView|
                edits_only(#[trigger] rest(event), |i: i64| lists_entry(event, i, value, kind))
        },
        _ => false,
    }
}

/// The first entry is one of the list, has the value, and is its owner's.
pub proof fn lemma_first_entry(
    entries: Seq<WhitelistRecord<Seq<char>>>,
    value: Seq<char>,
    owner: Option<i64>,
)
    ensures
        match first_entry(entries, value, owner) {
            Some(entry) => exists|i: int|
                0 <= i < entries.len() && #[trigger] entries[i] == entry && entry.value == value
                    && (owner is None || entry.api_key_id == owner),
            None => forall|i: int|
                0 <= i < entries.len() ==> !((#[trigger] entries[i]).value == value && (
                owner is None || entries[i].api_key_id == owner)),
        },
    decreases entries.len(),
{
    if entries.len() > 0 {
        let rest = entries.skip(1);
        lemma_first_entry(rest, value, owner);
        assert forall|i: int| 0 < i < entries.len() implies #[trigger] entries[i] == rest[i - 1] by {}
        assert forall|i: int| 0 <= i < rest.len() implies #[trigger] rest[i] == entries[i + 1] by {}
    }
}

/// An agent edits by address and value what its own key created.
pub proof fn agents_edit_by_params_what_they_created(
    key: ApiKeyRecord<Seq<char>>,
    domain_addr: Seq<char>,
    value: Seq<char>,
    edit: Edit<Seq<char>>,
)
    requires
        key.scopes.agent,
        !key.scopes.agent_admin,
    ensures
        edits_listed(
            edit_by_params(key, domain_addr, value, edit),
            domain_addr,
            value,
            |e: WhitelistRecord<Seq<char>>| e.api_key_id == Some(key.id),
        ),
{
    reveal_with_fuel(only, 4);
    let kind = |e: WhitelistRecord<Seq<char>>| e.api_key_id == Some(key.id);
    assert forall|entries: Seq<WhitelistRecord<Seq<char>>>|
        (match #[trigger] first_entry(entries, value, Some(key.id)) {
            Some(entry) => lists_entry(EventView::Entries(Ok(entries)), entry.id, value, kind),
            None => true,
        }) by {
        lemma_first_entry(entries, value, Some(key.id));
    }
}

/// Other admins edit by address and value, where they have access to the
/// address, what is not of the agent category.
pub proof fn admins_edit_by_params_no_agent_entries(
    key: ApiKeyRecord<Seq<char>>,
    domain_addr: Seq<char>,
    value: Seq<char>,
    edit: Edit<Seq<char>>,
)
    requires
        !key.scopes.agent,
        !key.scopes.agent_admin,
        key.scopes.system_admin || key.scopes.platform_admin,
    ensures
        exists|listing: Plan|
            edit_by_params(key, domain_addr, value, edit) == #[trigger] gate(
                Action::CheckWhitelistAccess { domain_addr },
                listing,
            ) && edits_listed(
                listing,
                domain_addr,
                value,
                |e: WhitelistRecord<Seq<char>>| e.category != "agent"@,
            ),
{
    reveal_with_fuel(only, 4);
    let kind = |e: WhitelistRecord<Seq<char>>| e.category != "agent"@;
    assert forall|entries: Seq<WhitelistRecord<Seq<char>>>|
        (match #[trigger] first_entry(entries, value, None) {
            Some(entry) => entry.category == "agent"@ || lists_entry(
                EventView::Entries(Ok(entries)),
                entry.id,
                value,
                kind,
            ),
            None => true,
        }) by {
        lemma_first_entry(entries, value, None);
    }
    let listing = crate::whitelist_edit::admin_listing(domain_addr, value, edit);
    assert(edits_listed(listing, domain_addr, value, kind));
    assert(edit_by_params(key, domain_addr, value, edit) == gate(
        Action::CheckWhitelistAccess { domain_addr },
        listing,
    ));
}

/// What an agent creates is of the agent category and bound to its own key; what
/// an agent admin creates is of the agent category; what a system admin creates
/// is an entry of a domain. A platform admin creates nothing.
pub proof fn creation_follows_scope(
    key: ApiKeyRecord<Seq<char>>,
    req: CreateWhitelistRequest<Seq<char>>,
)
    ensures
        key.scopes.agent || key.scopes.agent_admin ==> only(
            create_whitelist_plan(key, req),
            |a: ActionView|
                is_write(a) ==> {
                    &&& a matches Action::CreateWhitelistEntryFull { category, api_key_id, .. }
                    &&& category == "agent"@
                    &&& key.scopes.agent_admin || api_key_id == Some(key.id)
                },
        ),
        !key.scopes.agent && !key.scopes.agent_admin ==> only(
            create_whitelist_plan(key, req),
            |a: ActionView|
                is_write(a) ==> key.scopes.system_admin && a is CreateWhitelistEntry,
        ),
{
    reveal_with_fuel(only, 5);
}

/// An agent without an admin scope is shown its own entries, all of them, in the
/// order of the list.
pub proof fn agents_see_their_own(
    key: ApiKeyRecord<Seq<char>>,
    query: ListWhitelistsQuery<Seq<char>>,
    entries: Seq<WhitelistRecord<Seq<char>>>,
)
    requires
        key.scopes.agent,
        !key.scopes.admin,
    ensures
        list_whitelists_plan(key, query) matches Plan::Do(_, rest) && rest(
            EventView::Entries(Ok(entries)),
        ) == succeed(
            200,
            BodyView::Entries(
                entries.filter(|e: WhitelistRecord<Seq<char>>| own_entry(e, key.id)),
            ),
        ),
{
}

/// What becomes of a plan where each action is answered by a fixed table.
pub open spec fn answered(plan: Plan, table: spec_fn(ActionView) -> EventView) -> Plan
    decreases plan,
{
    match plan {
        Plan::Do(action, rest) => answered(rest(table(action)), table),
        _ => plan,
    }
}

/// The entries that a manager is shown: those of the agent category whose agent
/// has metadata that names the manager.
pub open spec fn managed_entry(
    entry: WhitelistRecord<Seq<char>>,
    manager: Seq<char>,
    metas: spec_fn(Seq<char>) -> Result<Option<DomainAddrMetaRecord<Seq<char>>>, StoreFault>,
) -> bool {
    entry.category == "agent"@ && names_manager(metas(entry.domain_addr), manager)
}

/// The answers of storage that holds some entries and some metadata.
pub open spec fn entries_and_metas(
    entries: Seq<WhitelistRecord<Seq<char>>>,
    metas: spec_fn(Seq<char>) -> Result<Option<DomainAddrMetaRecord<Seq<char>>>, StoreFault>,
) -> spec_fn(ActionView) -> EventView {
    |action: ActionView|
        match action {
            Action::ResolveMeta { email } => EventView::MaybeMeta(metas(email)),
            _ => EventView::Entries(Ok(entries)),
        }
}

proof fn lemma_sifted_entries(
    manager: Seq<char>,
    all: Seq<WhitelistRecord<Seq<char>>>,
    entries: Seq<WhitelistRecord<Seq<char>>>,
    kept: Seq<WhitelistRecord<Seq<char>>>,
    metas: spec_fn(Seq<char>) -> Result<Option<DomainAddrMetaRecord<Seq<char>>>, StoreFault>,
)
    ensures
        answered(sifted(manager, entries, kept), entries_and_metas(all, metas)) == succeed(
            200,
            BodyView::Entries(
                kept + entries.filter(
                    |e: WhitelistRecord<Seq<char>>| managed_entry(e, manager, metas),
                ),
            ),
        ),
    decreases entries.len(),
{
    let stays = |e: WhitelistRecord<Seq<char>>| managed_entry(e, manager, metas);
    if entries.len() == 0 {
        reveal(Seq::filter);
        assert(kept + entries.filter(stays) == kept);
    } else {
        let first = entries[0];
        let left = entries.skip(1);
        let rest = entry_sifted(manager, first, left, kept);
        assert(entries == seq![first] + left);
        Seq::filter_distributes_over_add(seq![first], left, stays);
        assert(seq![first].filter(stays) == if stays(first) {
            seq![first]
        } else {
            Seq::empty()
        }) by {
            reveal_with_fuel(Seq::<_>::filter, 2);
            assert(seq![first].drop_last() == Seq::<WhitelistRecord<Seq<char>>>::empty());
            assert(seq![first].last() == first);
        }
        if stays(first) {
            assert(kept + (seq![first] + left.filter(stays)) == kept.push(first) + left.filter(
                stays,
            ));
            lemma_sifted_entries(manager, all, left, kept.push(first), metas);
        } else {
            assert(kept + (Seq::empty() + left.filter(stays)) == kept + left.filter(stays));
            lemma_sifted_entries(manager, all, left, kept, metas);
        }
        let table = entries_and_metas(all, metas);
        if first.category == "agent"@ {
            let event = EventView::MaybeMeta(metas(first.domain_addr));
            assert(table(Action::ResolveMeta { email: first.domain_addr }) == event);
            assert(answered(sifted(manager, entries, kept), table) == answered(
                rest(event),
                table,
            ));
        }
    }
}

/// An agent admin is shown the entries of the agents that it manages, all of
/// them, in the order of the list.
pub proof fn agent_admins_see_what_they_manage(
    key: ApiKeyRecord<Seq<char>>,
    query: ListWhitelistsQuery<Seq<char>>,
    entries: Seq<WhitelistRecord<Seq<char>>>,
    metas: spec_fn(Seq<char>) -> Result<Option<DomainAddrMetaRecord<Seq<char>>>, StoreFault>,
)
    requires
        key.scopes.agent_admin,
        !key.scopes.agent || key.scopes.admin,
        !key.scopes.system_admin,
        !key.scopes.platform_admin,
    ensures
        answered(list_whitelists_plan(key, query), entries_and_metas(entries, metas)) == succeed(
            200,
            BodyView::Entries(
                entries.filter(
                    |e: WhitelistRecord<Seq<char>>| managed_entry(e, key.email_address, metas),
                ),
            ),
        ),
{
    let stays = |e: WhitelistRecord<Seq<char>>| managed_entry(e, key.email_address, metas);
    lemma_sifted_entries(key.email_address, entries, entries, Seq::empty(), metas);
    assert(Seq::empty() + entries.filter(stays) == entries.filter(stays));
    reveal_with_fuel(answered, 2);
}

/// The system's own sender is whitelisted without a look at what is stored: no
/// check reaches storage.
pub proof fn system_sender_needs_no_entry(
    key: ApiKeyRecord<Seq<char>>,
    system_sender: Seq<char>,
    query: CheckWhitelistQuery<Seq<char>>,
)
    requires
        is_system_sender(query.value, system_sender),
    ensures
        only(
            check_whitelist_plan(key, system_sender, query),
            |a: ActionView| !(a is CheckWhitelisted),
        ),
{
    reveal_with_fuel(only, 4);
}

} // verus!
