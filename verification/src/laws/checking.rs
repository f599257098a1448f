//! What checking, creating and listing whitelist entries comes to.

use vstd::prelude::*;

use crate::json::{tree_field, JsonTree};
use crate::laws::editing::{has_access, manages};
use crate::laws::outcomes::{done, ending, grants, nothing, refused, writes, Answers};
use crate::plans::{is_write, only};
use crate::protocol::{Action, ActionView, EventView, Plan};
use crate::text::{lowercase, trimmed};
use crate::types::{
    ApiKeyRecord, BodyView, CheckWhitelistQuery, CreateWhitelistRequest, ListWhitelistsQuery,
    ReplyView, WhitelistRecord,
};
use crate::whitelist::{check_whitelist_plan, create_whitelist_plan, list_whitelists_plan};

verus! {

// Checking

/// Whether a key may check the whitelist of an address: it has one of the scopes,
/// and passes for each that it has.
pub open spec fn may_check(
    answers: Answers,
    key: ApiKeyRecord<Seq<char>>,
    domain_addr: Seq<char>,
) -> bool {
    &&& key.scopes.platform_admin || key.scopes.system_admin || key.scopes.agent_admin
        || key.scopes.agent
    &&& key.scopes.system_admin ==> grants(
        answers,
        Action::RequireDomainMatch { domain: domain_addr },
    )
    &&& key.scopes.agent_admin ==> manages(answers, key.email_address, domain_addr)
    &&& key.scopes.agent ==> key.email_address == domain_addr
}

/// Whether a value is the system's own sender.
pub open spec fn from_the_system(value: Seq<char>, system_sender: Seq<char>) -> bool {
    lowercase(trimmed(value)) == lowercase(system_sender)
}

/// The question that a check puts to storage.
pub open spec fn asks_storage(query: CheckWhitelistQuery<Seq<char>>) -> ActionView {
    Action::CheckWhitelisted {
        domain_addr: query.domain_addr,
        value: query.value,
        direction: query.direction,
    }
}

/// A check says what storage says: whether the value is whitelisted for the
/// address in the direction, all three as they were asked for.
pub proof fn checks_say_what_storage_says(
    answers: Answers,
    key: ApiKeyRecord<Seq<char>>,
    system_sender: Seq<char>,
    query: CheckWhitelistQuery<Seq<char>>,
)
    requires
        may_check(answers, key, query.domain_addr),
        !from_the_system(query.value, system_sender),
    ensures
        ({
            let end = ending(check_whitelist_plan(key, system_sender, query), answers);
            match answers(asks_storage(query)) {
                EventView::Found(Ok(whitelisted)) => end == done(
                    200,
                    BodyView::Value(
                        JsonTree::Object(
                            map![
                                "whitelisted"@ => JsonTree::Bool(whitelisted),
                                "domain_addr"@ => JsonTree::Text(query.domain_addr),
                                "value"@ => JsonTree::Text(query.value),
                                "direction"@ => JsonTree::Text(query.direction),
                            ],
                        ),
                    ),
                ),
                EventView::Found(Err(e)) => end == refused(
                    500,
                    "Database error"@,
                    Some(e.message),
                ),
                _ => true,
            }
        }),
{
    reveal_with_fuel(ending, 5);
}

/// The field of a reply in which a check is answered.
pub open spec fn says_whitelisted(end: Plan) -> Option<JsonTree> {
    match end {
        Plan::Reply(ReplyView::Success { status: _, body: BodyView::Value(tree) }) => tree_field(
            tree,
            "whitelisted"@,
        ),
        _ => None,
    }
}

/// The field in which a check is answered holds what storage answered, whichever
/// it was.
pub proof fn whitelisted_is_what_storage_answered(
    answers: Answers,
    key: ApiKeyRecord<Seq<char>>,
    system_sender: Seq<char>,
    query: CheckWhitelistQuery<Seq<char>>,
    whitelisted: bool,
)
    requires
        may_check(answers, key, query.domain_addr),
        !from_the_system(query.value, system_sender),
        answers(asks_storage(query)) == EventView::Found(Ok(whitelisted)),
    ensures
        says_whitelisted(ending(check_whitelist_plan(key, system_sender, query), answers)) == Some(
            JsonTree::Bool(whitelisted),
        ),
{
    checks_say_what_storage_says(answers, key, system_sender, query);
    reveal_strlit("whitelisted");
    reveal_strlit("domain_addr");
    reveal_strlit("value");
    reveal_strlit("direction");
    assert("whitelisted"@[0] == 'w');
    assert("domain_addr"@[0] == 'd');
    assert("direction"@[0] == 'd');
    assert("value"@[0] == 'v');
}

/// The system's own sender is whitelisted, whatever is stored.
pub proof fn system_sender_is_whitelisted(
    answers: Answers,
    key: ApiKeyRecord<Seq<char>>,
    system_sender: Seq<char>,
    query: CheckWhitelistQuery<Seq<char>>,
)
    requires
        may_check(answers, key, query.domain_addr),
        from_the_system(query.value, system_sender),
    ensures
        ending(check_whitelist_plan(key, system_sender, query), answers) == done(
            200,
            BodyView::Value(
                JsonTree::Object(
                    map![
                        "whitelisted"@ => JsonTree::Bool(true),
                        "system_sender"@ => JsonTree::Bool(true),
                        "domain_addr"@ => JsonTree::Text(query.domain_addr),
                        "value"@ => JsonTree::Text(query.value),
                        "direction"@ => JsonTree::Text(query.direction),
                    ],
                ),
            ),
        ),
{
    reveal_with_fuel(ending, 5);
}

/// A key that may not check is told nothing: it gets no success. A check writes
/// nothing in any case.
pub proof fn only_those_who_may_check_are_told(
    answers: Answers,
    key: ApiKeyRecord<Seq<char>>,
    system_sender: Seq<char>,
    query: CheckWhitelistQuery<Seq<char>>,
)
    ensures
        !may_check(answers, key, query.domain_addr) ==> !(ending(
            check_whitelist_plan(key, system_sender, query),
            answers,
        ) matches Plan::Reply(ReplyView::Success { .. })),
        only(check_whitelist_plan(key, system_sender, query), |a: ActionView| !is_write(a)),
        !key.scopes.platform_admin && !key.scopes.system_admin && !key.scopes.agent_admin
            && !key.scopes.agent ==> check_whitelist_plan(key, system_sender, query) == refused(
            403,
            "Insufficient scope"@,
            Some("Whitelist check requires admin, system, agent_admin, or agent scope"@),
        ),
        key.scopes.agent && !key.scopes.agent_admin && !key.scopes.system_admin
            && key.email_address != query.domain_addr ==> ending(
            check_whitelist_plan(key, system_sender, query),
            answers,
        ) == refused(
            403,
            "forbidden"@,
            Some("Agent can only check whitelist for their own email address"@),
        ),
{
    reveal_with_fuel(ending, 5);
    reveal_with_fuel(only, 5);
}

// Creating

/// An entry of the agent category, with what a request gives.
pub open spec fn creates_agent_entry(
    req: CreateWhitelistRequest<Seq<char>>,
    api_key_id: Option<i64>,
) -> ActionView {
    Action::CreateWhitelistEntryFull {
        domain_addr: req.domain_addr,
        direction: req.direction,
        value: req.value,
        category: "agent"@,
        api_key_id,
        description: req.description,
    }
}

/// An entry of a domain, with what a request gives.
pub open spec fn creates_domain_entry(req: CreateWhitelistRequest<Seq<char>>) -> ActionView {
    Action::CreateWhitelistEntry {
        domain_addr: req.domain_addr,
        direction: req.direction,
        value: req.value,
        description: req.description,
    }
}

/// Whether the reply to a creation shows what storage answered.
pub open spec fn shows_creation(end: Plan, event: EventView) -> bool {
    match event {
        EventView::Entry(Ok(entry)) => end == done(201, BodyView::Entry(entry)),
        EventView::Entry(Err(e)) => end == refused(500, "Database error"@, Some(e.message)),
        _ => true,
    }
}

/// An entry is created as it was requested: for an agent that the key manages,
/// bound to the agent's key; by an agent with access, bound to its own; by a system
/// admin with access, for the domain. The reply shows the entry. Nothing is
/// written where this is not granted.
pub proof fn entries_are_created_as_requested(
    answers: Answers,
    key: ApiKeyRecord<Seq<char>>,
    req: CreateWhitelistRequest<Seq<char>>,
)
    ensures
        ({
            let plan = create_whitelist_plan(key, req);
            let agent_key = answers(Action::ResolveApiKeyByEmail { email: req.domain_addr });
            if key.scopes.agent_admin {
                if manages(answers, key.email_address, req.domain_addr) {
                    match agent_key {
                        EventView::MaybeKey(Ok(id)) => {
                            &&& writes(plan, answers) == seq![creates_agent_entry(req, id)]
                            &&& shows_creation(
                                ending(plan, answers),
                                answers(creates_agent_entry(req, id)),
                            )
                        },
                        EventView::MaybeKey(Err(e)) => {
                            &&& writes(plan, answers) == nothing()
                            &&& ending(plan, answers) == refused(
                                500,
                                "Database error"@,
                                Some(e.message),
                            )
                        },
                        _ => writes(plan, answers) == nothing(),
                    }
                } else {
                    writes(plan, answers) == nothing()
                }
            } else if key.scopes.agent {
                if has_access(answers, req.domain_addr) {
                    &&& writes(plan, answers) == seq![creates_agent_entry(req, Some(key.id))]
                    &&& shows_creation(
                        ending(plan, answers),
                        answers(creates_agent_entry(req, Some(key.id))),
                    )
                } else {
                    writes(plan, answers) == nothing()
                }
            } else if key.scopes.system_admin {
                if has_access(answers, req.domain_addr) {
                    &&& writes(plan, answers) == seq![creates_domain_entry(req)]
                    &&& shows_creation(ending(plan, answers), answers(creates_domain_entry(req)))
                } else {
                    writes(plan, answers) == nothing()
                }
            } else {
                plan == refused(
                    403,
                    "Insufficient scope"@,
                    if key.scopes.platform_admin {
                        Some("PlatformAdmin can only view and toggle whitelist entries"@)
                    } else {
                        None
                    },
                )
            }
        }),
{
    reveal_with_fuel(writes, 5);
    reveal_with_fuel(ending, 5);
}

// Listing

/// The domain that a listing asks for: the one that was named, or else none.
pub open spec fn domain_asked_for(query: ListWhitelistsQuery<Seq<char>>) -> Seq<char> {
    if query.domain is Some {
        query.domain->0
    } else {
        Seq::empty()
    }
}

/// A listing asks storage for the entries of the domain that was named. An admin
/// is shown all of them; an agent those of the agent category that its own key
/// created. A key without such a scope is refused.
pub proof fn listings_show_the_entries(
    answers: Answers,
    key: ApiKeyRecord<Seq<char>>,
    query: ListWhitelistsQuery<Seq<char>>,
)
    ensures
        ({
            let plan = list_whitelists_plan(key, query);
            let listed = answers(
                Action::ListWhitelistEntries { domain: domain_asked_for(query) },
            );
            let own = key.scopes.agent && !key.scopes.admin;
            let managed = key.scopes.agent_admin && !key.scopes.system_admin
                && !key.scopes.platform_admin;
            &&& own || managed || key.scopes.admin ==> match listed {
                EventView::Entries(Ok(entries)) => {
                    &&& own ==> ending(plan, answers) == done(
                        200,
                        BodyView::Entries(
                            entries.filter(
                                |e: WhitelistRecord<Seq<char>>|
                                    e.category == "agent"@ && e.api_key_id == Some(key.id),
                            ),
                        ),
                    )
                    &&& !own && !managed ==> ending(plan, answers) == done(
                        200,
                        BodyView::Entries(entries),
                    )
                },
                EventView::Entries(Err(e)) => ending(plan, answers) == refused(
                    500,
                    "Database error"@,
                    Some(e.message),
                ),
                _ => true,
            }
            &&& !own && !managed && !key.scopes.admin ==> plan == refused(
                403,
                "Insufficient scope"@,
                None,
            )
        }),
{
    reveal_with_fuel(ending, 3);
    if let EventView::Entries(Ok(entries)) = answers(
        Action::ListWhitelistEntries { domain: domain_asked_for(query) },
    ) {
        let ours = |e: WhitelistRecord<Seq<char>>|
            e.category == "agent"@ && e.api_key_id == Some(key.id);
        let theirs = |e: WhitelistRecord<Seq<char>>| crate::whitelist::own_entry(e, key.id);
        assert(ours =~= theirs);
    }
}

} // verus!
