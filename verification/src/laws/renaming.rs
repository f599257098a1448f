//! What the renaming of an address comes to.

use vstd::prelude::*;

use crate::address::{bare_domain, local_part_fault};
use crate::addresses::rename_agent_address_plan;
use crate::json::JsonTree;
use crate::laws::outcomes::{done, ending, grants, nothing, refused, writes, Answers};
use crate::protocol::{Action, ActionView, EventView, ScopeRule};
use crate::text::{first_segment, lowercase, trimmed};
use crate::types::{ApiKeyRecord, BodyView, RenameAddressRequest};

verus! {

/// The address that is to get another name: trimmed and in lower case.
pub open spec fn renamed_from(req: RenameAddressRequest<Seq<char>>) -> Seq<char> {
    lowercase(trimmed(req.old_email))
}

/// The name that it is to get: trimmed and in lower case.
pub open spec fn renamed_to(req: RenameAddressRequest<Seq<char>>) -> Seq<char> {
    lowercase(trimmed(req.new_email))
}

/// Whether an agent admin is after an address that is not its own.
pub open spec fn not_its_own(
    key: ApiKeyRecord<Seq<char>>,
    req: RenameAddressRequest<Seq<char>>,
) -> bool {
    key.scopes.agent_admin && key.email_address != req.old_email
}

/// Whether the new name lies on the domain of the old one.
pub open spec fn stays_on_domain(req: RenameAddressRequest<Seq<char>>) -> bool {
    bare_domain(renamed_from(req)).len() > 0 && bare_domain(renamed_to(req)) == bare_domain(
        renamed_from(req),
    )
}

/// Whether the new name has the shape of the system's addresses.
pub open spec fn keeps_shape(system_id: Seq<char>, req: RenameAddressRequest<Seq<char>>) -> bool {
    local_part_fault("shared-"@.is_prefix_of(system_id), first_segment(renamed_to(req), '@')) is None
}

/// Whether the rename can be asked of storage at all.
pub open spec fn may_rename(
    answers: Answers,
    key: ApiKeyRecord<Seq<char>>,
    system_id: Seq<char>,
    req: RenameAddressRequest<Seq<char>>,
) -> bool {
    &&& grants(answers, Action::RequireScope { rule: ScopeRule::System })
    &&& !not_its_own(key, req)
    &&& renamed_from(req) != renamed_to(req)
    &&& stays_on_domain(req)
    &&& keeps_shape(system_id, req)
}

/// Whether storage answers the two questions for the new name at all.
pub open spec fn name_is_looked_up(answers: Answers, name: Seq<char>) -> bool {
    &&& answers(Action::LookupDomainAddr { key: name }) is MaybeDomain
    &&& answers(Action::GetMetaRow { email: name }) is MaybeMeta
}

/// Whether the new name is taken, by a record or by metadata.
pub open spec fn name_is_taken(answers: Answers, name: Seq<char>) -> bool {
    ||| answers(Action::LookupDomainAddr { key: name }) matches EventView::MaybeDomain(Ok(Some(_)))
    ||| answers(Action::GetMetaRow { email: name }) matches EventView::MaybeMeta(Ok(Some(_)))
}

/// The one step of a rename.
pub open spec fn moves_references(req: RenameAddressRequest<Seq<char>>) -> ActionView {
    Action::RenameAddressRefs { from: renamed_from(req), to: renamed_to(req) }
}

/// A rename that nothing stands against moves every reference from the old
/// address to the new one, and does nothing else. The reply shows both, and that
/// the key stays.
pub proof fn granted_rename_moves_the_address(
    answers: Answers,
    key: ApiKeyRecord<Seq<char>>,
    system_id: Seq<char>,
    req: RenameAddressRequest<Seq<char>>,
)
    requires
        may_rename(answers, key, system_id, req),
        name_is_looked_up(answers, renamed_to(req)),
        !name_is_taken(answers, renamed_to(req)),
        answers(Action::GetDomainByName { name: renamed_from(req) }) matches EventView::MaybeDomain(
            Ok(Some(record)),
        ) && record.system_id == system_id,
    ensures
        ({
            let plan = rename_agent_address_plan(key, system_id, req);
            &&& writes(plan, answers) == seq![moves_references(req)]
            &&& match answers(moves_references(req)) {
                EventView::Done(Ok(_)) => ending(plan, answers) == done(
                    200,
                    BodyView::Value(
                        JsonTree::Object(
                            map![
                                "status"@ => JsonTree::Text("renamed"@),
                                "old"@ => JsonTree::Text(renamed_from(req)),
                                "new"@ => JsonTree::Text(renamed_to(req)),
                                "system_id"@ => JsonTree::Text(system_id),
                                "key_preserved"@ => JsonTree::Bool(true),
                            ],
                        ),
                    ),
                ),
                EventView::Done(Err(e)) => ending(plan, answers) == refused(
                    500,
                    "Database error"@,
                    Some(e.message),
                ),
                _ => true,
            }
        }),
{
    reveal_with_fuel(writes, 7);
    reveal_with_fuel(ending, 7);
}

/// A rename that is refused writes nothing, and the reply says why. What is
/// wrong with the request itself is found before storage is asked.
pub proof fn refused_renames_write_nothing(
    answers: Answers,
    key: ApiKeyRecord<Seq<char>>,
    system_id: Seq<char>,
    req: RenameAddressRequest<Seq<char>>,
)
    requires
        grants(answers, Action::RequireScope { rule: ScopeRule::System }),
    ensures
        ({
            let plan = rename_agent_address_plan(key, system_id, req);
            let end = ending(plan, answers);
            let from = renamed_from(req);
            let to = renamed_to(req);
            let own = !not_its_own(key, req);
            let record = answers(Action::GetDomainByName { name: from });
            &&& !may_rename(answers, key, system_id, req) || name_is_taken(answers, to)
                ==> writes(plan, answers) == nothing()
            &&& !own ==> end == refused(
                403,
                "not_owner"@,
                Some("agent_admin keys may only rename their own address"@),
            )
            &&& own && from == to ==> end == refused(400, "same_address"@, None)
            &&& own && from != to && !stays_on_domain(req) ==> end == refused(
                400,
                "cross_domain_rename"@,
                Some("rename must stay on the same bare domain"@),
            )
            &&& own && from != to && stays_on_domain(req) && !keeps_shape(system_id, req) ==> end
                == refused(
                400,
                "invalid_email"@,
                Some(
                    "new local-part must match the system's address format (shared: one dot; non-shared: none), atext-no-dot only"@,
                ),
            )
            &&& may_rename(answers, key, system_id, req) && name_is_looked_up(answers, to)
                && name_is_taken(answers, to) ==> end == refused(
                409,
                "already_exists"@,
                Some("'"@ + to + "' is already a registered address"@),
            )
            &&& may_rename(answers, key, system_id, req) && name_is_looked_up(answers, to)
                && !name_is_taken(answers, to) ==> match record {
                EventView::MaybeDomain(Ok(Some(record))) => record.system_id != system_id ==> end
                    == refused(
                    403,
                    "forbidden"@,
                    Some("Address does not belong to this system"@),
                ) && writes(plan, answers) == nothing(),
                EventView::MaybeDomain(Ok(None)) => end == refused(
                    404,
                    "agent_not_found"@,
                    Some("No registered address '"@ + from + "'"@),
                ) && writes(plan, answers) == nothing(),
                EventView::MaybeDomain(Err(e)) => end == refused(
                    500,
                    "Database error"@,
                    Some(e.message),
                ) && writes(plan, answers) == nothing(),
                _ => true,
            }
        }),
{
    reveal_with_fuel(writes, 7);
    reveal_with_fuel(ending, 7);
}

} // verus!
