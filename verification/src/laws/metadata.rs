//! What a change of an agent's metadata comes to.

use vstd::prelude::*;

use crate::addresses::update_agent_meta_plan;
use crate::json::JsonTree;
use crate::laws::outcomes::{done, ending, grants, nothing, refused, writes, Answers};
use crate::plans::{is_write, only};
use crate::protocol::{Action, ActionView, EventView, ScopeRule};
use crate::text::lowercase;
use crate::types::{ApiKeyRecord, BodyView, DomainAddrMetaRecord, UpdateAgentMetaRequest};

verus! {

/// What becomes of one field: what was given, or else what is stored.
pub open spec fn given_or_stored(given: Option<Seq<char>>, kept: Seq<char>) -> Seq<char> {
    if given is Some {
        given->0
    } else {
        kept
    }
}

/// The metadata of an agent with what a request gives.
pub open spec fn writes_given(
    email: Seq<char>,
    req: UpdateAgentMetaRequest<Seq<char>>,
    meta: DomainAddrMetaRecord<Seq<char>>,
) -> ActionView {
    Action::UpsertMeta {
        email,
        system_id: meta.system_id,
        manager: Some(given_or_stored(req.manager_address, meta.manager_address)),
        signature: Some(given_or_stored(req.agent_signature, meta.agent_signature)),
        persona: Some(given_or_stored(req.agent_persona, meta.agent_persona)),
    }
}

/// The entry of a former manager, which goes.
pub open spec fn drops_manager(email: Seq<char>, manager: Seq<char>) -> ActionView {
    Action::DeleteWhitelistEntryByValue { domain_addr: email, value: manager }
}

/// The entry of a new manager, which comes.
pub open spec fn enters_manager(email: Seq<char>, manager: Seq<char>) -> ActionView {
    Action::CreateWhitelistEntry {
        domain_addr: email,
        direction: "all"@,
        value: manager,
        description: Some("Agent ↔ Manager (auto-synced)"@),
    }
}

/// How the whitelist of an agent follows its manager: not at all where the
/// manager stays; else the former one goes and the new one comes.
pub open spec fn follows(
    email: Seq<char>,
    former: Seq<char>,
    manager: Seq<char>,
) -> Seq<ActionView> {
    if former == manager {
        nothing()
    } else {
        (if former.len() > 0 {
            seq![drops_manager(email, former)]
        } else {
            nothing()
        }) + (if manager.len() > 0 {
            seq![enters_manager(email, manager)]
        } else {
            nothing()
        })
    }
}

/// Whether the key may change the metadata that was found: an agent admin must
/// be the agent's manager.
pub open spec fn may_change(
    key: ApiKeyRecord<Seq<char>>,
    meta: DomainAddrMetaRecord<Seq<char>>,
) -> bool {
    key.scopes.agent_admin ==> meta.manager_address == key.email_address
}

/// Each field that a request gives is written and shown as it was given, each
/// field that it leaves out as it is stored. The whitelist follows the manager,
/// whether or not its entries go and come as they should.
pub proof fn given_metadata_is_written_and_shown(
    answers: Answers,
    key: ApiKeyRecord<Seq<char>>,
    email: Seq<char>,
    req: UpdateAgentMetaRequest<Seq<char>>,
    meta: DomainAddrMetaRecord<Seq<char>>,
)
    requires
        grants(answers, Action::RequireScope { rule: ScopeRule::SystemOrAgentAdmin }),
        answers(Action::ResolveMeta { email: lowercase(email) }) == EventView::MaybeMeta(
            Ok(Some(meta)),
        ),
        may_change(key, meta),
        answers(writes_given(lowercase(email), req, meta)) matches EventView::Done(Ok(_)),
        answers(drops_manager(lowercase(email), meta.manager_address)) is Done,
        answers(
            enters_manager(
                lowercase(email),
                given_or_stored(req.manager_address, meta.manager_address),
            ),
        ) is Entry,
    ensures
        writes(update_agent_meta_plan(key, email, req), answers) == seq![
            writes_given(lowercase(email), req, meta),
        ] + follows(
            lowercase(email),
            meta.manager_address,
            given_or_stored(req.manager_address, meta.manager_address),
        ),
        ending(update_agent_meta_plan(key, email, req), answers) == done(
            200,
            BodyView::Value(
                JsonTree::Object(
                    map![
                        "email"@ => JsonTree::Text(lowercase(email)),
                        "manager_address"@ => JsonTree::Text(
                            given_or_stored(req.manager_address, meta.manager_address),
                        ),
                        "agent_signature"@ => JsonTree::Text(
                            given_or_stored(req.agent_signature, meta.agent_signature),
                        ),
                        "agent_persona"@ => JsonTree::Text(
                            given_or_stored(req.agent_persona, meta.agent_persona),
                        ),
                    ],
                ),
            ),
        ),
{
    reveal_with_fuel(writes, 7);
    reveal_with_fuel(ending, 7);
}

/// Whatever the answers, what is written of an agent's metadata names the agent
/// of the request, and holds in each field that the request gives what it gives.
pub proof fn metadata_is_never_written_otherwise(
    key: ApiKeyRecord<Seq<char>>,
    email: Seq<char>,
    req: UpdateAgentMetaRequest<Seq<char>>,
)
    ensures
        only(
            update_agent_meta_plan(key, email, req),
            |a: ActionView|
                is_write(a) ==> match a {
                    Action::UpsertMeta { email: written, manager, signature, persona, .. } => {
                        &&& written == lowercase(email)
                        &&& req.manager_address is Some ==> manager == req.manager_address
                        &&& req.agent_signature is Some ==> signature == req.agent_signature
                        &&& req.agent_persona is Some ==> persona == req.agent_persona
                        &&& manager is Some && signature is Some && persona is Some
                    },
                    Action::DeleteWhitelistEntryByValue { domain_addr, value } => {
                        &&& domain_addr == lowercase(email)
                        &&& req.manager_address is Some && value != req.manager_address->0
                    },
                    Action::CreateWhitelistEntry { domain_addr, direction, value, .. } => {
                        &&& domain_addr == lowercase(email)
                        &&& direction == "all"@
                        &&& req.manager_address == Some(value)
                    },
                    _ => false,
                },
        ),
{
    reveal_with_fuel(only, 7);
}

/// A change that is refused writes nothing, and the reply says why.
pub proof fn refused_metadata_is_not_written(
    answers: Answers,
    key: ApiKeyRecord<Seq<char>>,
    email: Seq<char>,
    req: UpdateAgentMetaRequest<Seq<char>>,
)
    requires
        grants(answers, Action::RequireScope { rule: ScopeRule::SystemOrAgentAdmin }),
    ensures
        ({
            let plan = update_agent_meta_plan(key, email, req);
            let end = ending(plan, answers);
            let agent = lowercase(email);
            match answers(Action::ResolveMeta { email: agent }) {
                EventView::MaybeMeta(Ok(Some(meta))) => {
                    &&& !may_change(key, meta) ==> writes(plan, answers) == nothing() && end
                        == refused(
                        403,
                        "Not the manager of this agent"@,
                        Some(
                            "You ("@ + key.email_address + ") are not the manager of '"@ + agent
                                + "'"@,
                        ),
                    )
                    &&& may_change(key, meta) ==> (answers(
                        writes_given(agent, req, meta),
                    ) matches EventView::Done(Err(e)) ==> end == refused(
                        500,
                        "Database error"@,
                        Some(e.message),
                    ) && writes(plan, answers) == seq![writes_given(agent, req, meta)])
                },
                EventView::MaybeMeta(Ok(None)) => writes(plan, answers) == nothing() && end
                    == refused(
                    404,
                    "Agent not found"@,
                    Some(
                        "No metadata for agent '"@ + agent
                            + "' — register the address first via POST /api/v1/admin/systems/{sid}/addresses"@,
                    ),
                ),
                EventView::MaybeMeta(Err(e)) => writes(plan, answers) == nothing() && end
                    == refused(500, "Database error"@, Some(e.message)),
                _ => writes(plan, answers) == nothing(),
            }
        }),
{
    reveal_with_fuel(writes, 7);
    reveal_with_fuel(ending, 7);
}

} // verus!
