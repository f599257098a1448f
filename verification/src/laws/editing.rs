//! What an edit of a whitelist entry comes to.

use vstd::prelude::*;

use crate::laws::outcomes::{done, ending, grants, nothing, refused, writes, Answers};
use crate::plans::{is_write, only};
use crate::protocol::{Action, ActionView, EventView, Plan};
use crate::types::{
    ApiKeyRecord, BodyView, DeleteWhitelistByParams, UpdateWhitelistByParams,
    UpdateWhitelistRequest, WhitelistRecord,
};
use crate::whitelist_edit::{
    delete_whitelist_by_params_plan, delete_whitelist_plan, first_entry,
    update_whitelist_by_params_plan, update_whitelist_plan,
};

verus! {

// What is asked and what is done

/// The change of an entry, with what a request gives.
pub open spec fn changes_entry(id: i64, req: UpdateWhitelistRequest<Seq<char>>) -> ActionView {
    Action::UpdateWhitelistEntry { id, is_active: req.is_active, direction: req.direction }
}

/// The deletion of an entry.
pub open spec fn deletes_entry(id: i64) -> ActionView {
    Action::DeleteWhitelistEntry { id }
}

/// Whether storage has metadata of an agent that names a manager.
pub open spec fn manages(answers: Answers, manager: Seq<char>, agent: Seq<char>) -> bool {
    answers(Action::ResolveMeta { email: agent }) matches EventView::MaybeMeta(Ok(Some(meta)))
        && meta.manager_address == manager
}

/// Whether access to the whitelist of an address is granted.
pub open spec fn has_access(answers: Answers, domain_addr: Seq<char>) -> bool {
    grants(answers, Action::CheckWhitelistAccess { domain_addr })
}

/// Whether the reply to a change shows what storage answered.
pub open spec fn shows_change(end: Plan, event: EventView) -> bool {
    match event {
        EventView::MaybeEntry(Ok(Some(entry))) => end == done(200, BodyView::Entry(entry)),
        EventView::MaybeEntry(Ok(None)) => end == refused(
            404,
            "Whitelist entry not found"@,
            None,
        ),
        EventView::MaybeEntry(Err(e)) => end == refused(500, "Database error"@, Some(e.message)),
        _ => true,
    }
}

/// Whether the reply to a deletion shows what storage answered.
pub open spec fn shows_deletion(end: Plan, event: EventView) -> bool {
    match event {
        EventView::Done(Ok(_)) => end == done(204, BodyView::Empty),
        EventView::Done(Err(e)) => end == refused(500, "Database error"@, Some(e.message)),
        _ => true,
    }
}

/// The ending where there is no such entry for the key.
pub open spec fn no_such_entry() -> Plan {
    refused(404, "Whitelist entry not found"@, None)
}

// By id

/// Whether a key of an agent or of an agent admin may edit an entry: it is the
/// agent's own, or that of an agent that the admin manages, and there is access to
/// its address.
pub open spec fn may_edit(
    answers: Answers,
    key: ApiKeyRecord<Seq<char>>,
    entry: WhitelistRecord<Seq<char>>,
) -> bool {
    &&& if key.scopes.agent_admin {
        manages(answers, key.email_address, entry.domain_addr)
    } else {
        entry.api_key_id == Some(key.id)
    }
    &&& has_access(answers, entry.domain_addr)
}

/// Whatever the answers, a change by id writes one thing only: the entry with
/// that id, with what the request gives, unchanged.
pub proof fn changes_carry_the_request(
    key: ApiKeyRecord<Seq<char>>,
    id: i64,
    req: UpdateWhitelistRequest<Seq<char>>,
)
    ensures
        only(
            update_whitelist_plan(key, id, req),
            |a: ActionView| is_write(a) ==> a == changes_entry(id, req),
        ),
{
    reveal_with_fuel(only, 7);
}

/// Whatever the answers, a change by address and value carries what the request
/// gives, unchanged.
pub proof fn changes_by_params_carry_the_request(
    key: ApiKeyRecord<Seq<char>>,
    query: UpdateWhitelistByParams<Seq<char>>,
    req: UpdateWhitelistRequest<Seq<char>>,
)
    ensures
        only(
            update_whitelist_by_params_plan(key, query, req),
            |a: ActionView|
                is_write(a) ==> (a matches Action::UpdateWhitelistEntry {
                    is_active,
                    direction,
                    ..
                } && is_active == req.is_active && direction == req.direction),
        ),
{
    reveal_with_fuel(only, 7);
}

/// Whatever the answers, a deletion deletes: by id, the entry with that id.
pub proof fn deletions_delete(
    key: ApiKeyRecord<Seq<char>>,
    id: i64,
    query: DeleteWhitelistByParams<Seq<char>>,
)
    ensures
        only(
            delete_whitelist_plan(key, id),
            |a: ActionView| is_write(a) ==> a == deletes_entry(id),
        ),
        only(
            delete_whitelist_by_params_plan(key, query),
            |a: ActionView| is_write(a) ==> a is DeleteWhitelistEntry,
        ),
{
    reveal_with_fuel(only, 7);
}

/// An agent or an agent admin that may edit an entry changes it as requested, and
/// the reply shows the entry as storage has it then. Where it may not, nothing is
/// written.
pub proof fn agents_change_entries(
    answers: Answers,
    key: ApiKeyRecord<Seq<char>>,
    id: i64,
    req: UpdateWhitelistRequest<Seq<char>>,
    entry: WhitelistRecord<Seq<char>>,
)
    requires
        key.scopes.agent || key.scopes.agent_admin,
        answers(Action::GetWhitelistEntry { id }) == EventView::MaybeEntry(Ok(Some(entry))),
    ensures
        may_edit(answers, key, entry) ==> {
            &&& writes(update_whitelist_plan(key, id, req), answers) == seq![
                changes_entry(id, req),
            ]
            &&& shows_change(
                ending(update_whitelist_plan(key, id, req), answers),
                answers(changes_entry(id, req)),
            )
        },
        !may_edit(answers, key, entry) ==> writes(update_whitelist_plan(key, id, req), answers)
            == nothing(),
        !key.scopes.agent_admin && entry.api_key_id != Some(key.id) ==> ending(
            update_whitelist_plan(key, id, req),
            answers,
        ) == no_such_entry(),
{
    reveal_with_fuel(writes, 7);
    reveal_with_fuel(ending, 7);
}

/// Another admin changes any entry as requested. A key without any of these
/// scopes changes none.
pub proof fn admins_change_entries(
    answers: Answers,
    key: ApiKeyRecord<Seq<char>>,
    id: i64,
    req: UpdateWhitelistRequest<Seq<char>>,
)
    requires
        !key.scopes.agent,
        !key.scopes.agent_admin,
    ensures
        key.scopes.system_admin || key.scopes.platform_admin ==> {
            &&& writes(update_whitelist_plan(key, id, req), answers) == seq![
                changes_entry(id, req),
            ]
            &&& shows_change(
                ending(update_whitelist_plan(key, id, req), answers),
                answers(changes_entry(id, req)),
            )
        },
        !key.scopes.system_admin && !key.scopes.platform_admin ==> {
            &&& update_whitelist_plan(key, id, req) == refused(403, "Insufficient scope"@, None)
            &&& delete_whitelist_plan(key, id) == refused(403, "Insufficient scope"@, None)
        },
{
    reveal_with_fuel(writes, 3);
    reveal_with_fuel(ending, 3);
}

/// The ending where an admin is after an agent's entry.
pub open spec fn agent_entries_stay(error: Seq<char>) -> Plan {
    refused(
        403,
        error,
        Some("Use the agent or agent_admin scope to manage agent whitelists"@),
    )
}

/// Whether a key may delete an entry: an agent its own, an agent admin that of an
/// agent that it manages, a system admin one whose address it has access to. With
/// a platform or system admin scope, none of the agent category.
pub open spec fn may_delete(
    answers: Answers,
    key: ApiKeyRecord<Seq<char>>,
    entry: WhitelistRecord<Seq<char>>,
) -> bool {
    &&& if key.scopes.agent || key.scopes.agent_admin {
        may_edit(answers, key, entry)
    } else if key.scopes.system_admin {
        has_access(answers, entry.domain_addr)
    } else {
        key.scopes.platform_admin
    }
    &&& key.scopes.platform_admin || key.scopes.system_admin ==> entry.category != "agent"@
}

/// An entry that the key may delete is deleted, and the reply says so. One that it
/// may not delete stays.
pub proof fn entries_are_deleted(
    answers: Answers,
    key: ApiKeyRecord<Seq<char>>,
    id: i64,
    entry: WhitelistRecord<Seq<char>>,
)
    requires
        answers(Action::GetWhitelistEntry { id }) == EventView::MaybeEntry(Ok(Some(entry))),
    ensures
        may_delete(answers, key, entry) ==> {
            &&& writes(delete_whitelist_plan(key, id), answers) == seq![deletes_entry(id)]
            &&& shows_deletion(
                ending(delete_whitelist_plan(key, id), answers),
                answers(deletes_entry(id)),
            )
        },
        !may_delete(answers, key, entry) ==> writes(delete_whitelist_plan(key, id), answers)
            == nothing(),
        !key.scopes.agent && !key.scopes.agent_admin && !key.scopes.system_admin
            && key.scopes.platform_admin && entry.category == "agent"@ ==> ending(
            delete_whitelist_plan(key, id),
            answers,
        ) == agent_entries_stay("Admin cannot delete agent-category whitelist entries"@),
        !key.scopes.agent && !key.scopes.agent_admin && key.scopes.system_admin && has_access(
            answers,
            entry.domain_addr,
        ) && entry.category == "agent"@ ==> ending(delete_whitelist_plan(key, id), answers)
            == agent_entries_stay("Admin cannot delete agent-category whitelist entries"@),
{
    reveal_with_fuel(writes, 7);
    reveal_with_fuel(ending, 7);
}

/// Where there is no entry with the id, or storage fails to tell, nothing is
/// written, and the reply says which it was.
pub proof fn missing_entries_are_reported(
    answers: Answers,
    key: ApiKeyRecord<Seq<char>>,
    id: i64,
    req: UpdateWhitelistRequest<Seq<char>>,
)
    requires
        key.scopes.agent || key.scopes.agent_admin,
    ensures
        match answers(Action::GetWhitelistEntry { id }) {
            EventView::MaybeEntry(Ok(None)) => {
                &&& writes(update_whitelist_plan(key, id, req), answers) == nothing()
                &&& writes(delete_whitelist_plan(key, id), answers) == nothing()
                &&& ending(update_whitelist_plan(key, id, req), answers) == no_such_entry()
                &&& ending(delete_whitelist_plan(key, id), answers) == no_such_entry()
            },
            EventView::MaybeEntry(Err(e)) => {
                let end = refused(500, "Database error"@, Some(e.message));
                &&& writes(update_whitelist_plan(key, id, req), answers) == nothing()
                &&& writes(delete_whitelist_plan(key, id), answers) == nothing()
                &&& ending(update_whitelist_plan(key, id, req), answers) == end
                &&& ending(delete_whitelist_plan(key, id), answers) == end
            },
            _ => true,
        },
{
    reveal_with_fuel(writes, 3);
    reveal_with_fuel(ending, 3);
}

// By address and value

/// Whether an entry is one that a key may be after, by its value: an agent looks
/// among its own.
pub open spec fn sought(
    key: ApiKeyRecord<Seq<char>>,
    value: Seq<char>,
    entry: WhitelistRecord<Seq<char>>,
) -> bool {
    entry.value == value && (key.scopes.agent && !key.scopes.agent_admin ==> entry.api_key_id
        == Some(key.id))
}

/// Whether an entry is the first of a list that a key is after.
pub open spec fn first_sought(
    key: ApiKeyRecord<Seq<char>>,
    value: Seq<char>,
    entries: Seq<WhitelistRecord<Seq<char>>>,
    i: int,
) -> bool {
    &&& 0 <= i < entries.len()
    &&& sought(key, value, entries[i])
    &&& forall|j: int| 0 <= j < i ==> !sought(key, value, #[trigger] entries[j])
}

proof fn lemma_first_sought(
    key: ApiKeyRecord<Seq<char>>,
    value: Seq<char>,
    entries: Seq<WhitelistRecord<Seq<char>>>,
    owner: Option<i64>,
    i: int,
)
    requires
        first_sought(key, value, entries, i),
        owner == if key.scopes.agent && !key.scopes.agent_admin {
            Some(key.id)
        } else {
            None
        },
    ensures
        first_entry(entries, value, owner) == Some(entries[i]),
    decreases entries.len(),
{
    if i > 0 {
        let left = entries.skip(1);
        assert(!sought(key, value, entries[0]));
        assert forall|j: int| 0 <= j < i - 1 implies !sought(key, value, #[trigger] left[j]) by {
            assert(left[j] == entries[j + 1]);
        }
        lemma_first_sought(key, value, left, owner, i - 1);
    }
}

proof fn lemma_none_sought(
    key: ApiKeyRecord<Seq<char>>,
    value: Seq<char>,
    entries: Seq<WhitelistRecord<Seq<char>>>,
    owner: Option<i64>,
)
    requires
        forall|j: int| 0 <= j < entries.len() ==> !sought(key, value, #[trigger] entries[j]),
        owner == if key.scopes.agent && !key.scopes.agent_admin {
            Some(key.id)
        } else {
            None
        },
    ensures
        first_entry(entries, value, owner) is None,
    decreases entries.len(),
{
    if entries.len() > 0 {
        let left = entries.skip(1);
        assert(!sought(key, value, entries[0]));
        assert forall|j: int| 0 <= j < left.len() implies !sought(
            key,
            value,
            #[trigger] left[j],
        ) by {
            assert(left[j] == entries[j + 1]);
        }
        lemma_none_sought(key, value, left, owner);
    }
}

/// Whether a key may look among the entries of an address at all.
pub open spec fn may_look(
    answers: Answers,
    key: ApiKeyRecord<Seq<char>>,
    domain_addr: Seq<char>,
) -> bool {
    if key.scopes.agent_admin {
        manages(answers, key.email_address, domain_addr)
    } else if key.scopes.agent {
        true
    } else {
        (key.scopes.system_admin || key.scopes.platform_admin) && has_access(answers, domain_addr)
    }
}

/// Whether an entry of the agent category is out of a key's reach.
pub open spec fn out_of_reach(
    key: ApiKeyRecord<Seq<char>>,
    entry: WhitelistRecord<Seq<char>>,
) -> bool {
    !key.scopes.agent && !key.scopes.agent_admin && entry.category == "agent"@
}

/// An edit by address and value is made to the first entry of the address that
/// the key is after, as requested. An entry of the agent category is out of other
/// admins' reach.
pub proof fn first_sought_entry_is_edited(
    answers: Answers,
    key: ApiKeyRecord<Seq<char>>,
    domain_addr: Seq<char>,
    value: Seq<char>,
    req: UpdateWhitelistRequest<Seq<char>>,
    entries: Seq<WhitelistRecord<Seq<char>>>,
    i: int,
)
    requires
        may_look(answers, key, domain_addr),
        answers(Action::ListWhitelistEntries { domain: domain_addr }) == EventView::Entries(
            Ok(entries),
        ),
        first_sought(key, value, entries, i),
    ensures
        ({
            let update = update_whitelist_by_params_plan(
                key,
                UpdateWhitelistByParams { domain_addr, value },
                req,
            );
            let delete = delete_whitelist_by_params_plan(
                key,
                DeleteWhitelistByParams { domain_addr, value },
            );
            let id = entries[i].id;
            if out_of_reach(key, entries[i]) {
                &&& writes(update, answers) == nothing()
                &&& writes(delete, answers) == nothing()
                &&& ending(update, answers) == agent_entries_stay(
                    "Admin cannot update agent-category whitelist entries"@,
                )
                &&& ending(delete, answers) == agent_entries_stay(
                    "Admin cannot delete agent-category whitelist entries"@,
                )
            } else {
                &&& writes(update, answers) == seq![changes_entry(id, req)]
                &&& writes(delete, answers) == seq![deletes_entry(id)]
                &&& shows_change(ending(update, answers), answers(changes_entry(id, req)))
                &&& shows_deletion(ending(delete, answers), answers(deletes_entry(id)))
            }
        }),
{
    let owner = if key.scopes.agent && !key.scopes.agent_admin {
        Some(key.id)
    } else {
        None
    };
    lemma_first_sought(key, value, entries, owner, i);
    reveal_with_fuel(writes, 5);
    reveal_with_fuel(ending, 5);
}

/// Where the key may not look, or the address has no entry that it is after,
/// nothing is written.
pub proof fn nothing_sought_nothing_edited(
    answers: Answers,
    key: ApiKeyRecord<Seq<char>>,
    domain_addr: Seq<char>,
    value: Seq<char>,
    req: UpdateWhitelistRequest<Seq<char>>,
    entries: Seq<WhitelistRecord<Seq<char>>>,
)
    requires
        answers(Action::ListWhitelistEntries { domain: domain_addr }) == EventView::Entries(
            Ok(entries),
        ),
        !may_look(answers, key, domain_addr) || forall|j: int|
            0 <= j < entries.len() ==> !sought(key, value, #[trigger] entries[j]),
    ensures
        ({
            let update = update_whitelist_by_params_plan(
                key,
                UpdateWhitelistByParams { domain_addr, value },
                req,
            );
            let delete = delete_whitelist_by_params_plan(
                key,
                DeleteWhitelistByParams { domain_addr, value },
            );
            &&& writes(update, answers) == nothing()
            &&& writes(delete, answers) == nothing()
            &&& may_look(answers, key, domain_addr) ==> ending(update, answers) == no_such_entry()
                && ending(delete, answers) == no_such_entry()
        }),
{
    let owner = if key.scopes.agent && !key.scopes.agent_admin {
        Some(key.id)
    } else {
        None
    };
    if may_look(answers, key, domain_addr) {
        lemma_none_sought(key, value, entries, owner);
    }
    reveal_with_fuel(writes, 5);
    reveal_with_fuel(ending, 5);
}

/// A key that is not the manager's is told so.
pub proof fn non_managers_are_told(
    answers: Answers,
    key: ApiKeyRecord<Seq<char>>,
    domain_addr: Seq<char>,
    value: Seq<char>,
    req: UpdateWhitelistRequest<Seq<char>>,
)
    requires
        key.scopes.agent_admin,
    ensures
        ({
            let end = ending(
                update_whitelist_by_params_plan(
                    key,
                    UpdateWhitelistByParams { domain_addr, value },
                    req,
                ),
                answers,
            );
            match answers(Action::ResolveMeta { email: domain_addr }) {
                EventView::MaybeMeta(Ok(Some(meta))) => meta.manager_address != key.email_address
                    ==> end == refused(
                    403,
                    "Not the manager of this agent"@,
                    Some(
                        "You ("@ + key.email_address + ") are not the manager of '"@ + domain_addr
                            + "'"@,
                    ),
                ),
                EventView::MaybeMeta(Ok(None)) => end == refused(
                    403,
                    "Agent not found"@,
                    Some("No metadata for agent '"@ + domain_addr + "'"@),
                ),
                EventView::MaybeMeta(Err(e)) => end == refused(
                    500,
                    "Database error"@,
                    Some(e.message),
                ),
                _ => true,
            }
        }),
{
    reveal_with_fuel(ending, 3);
}

} // verus!
