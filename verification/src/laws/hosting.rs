//! What requests on the domains of a system come to.

use vstd::prelude::*;

use crate::domains::{
    check_domain_exists_plan, create_system_domain_plan, delete_system_domain_plan, enriched,
    list_system_domains_plan, meta_of, update_system_domain_plan,
};
use crate::json::JsonTree;
use crate::laws::outcomes::{
    done, ending, grants, nothing, refused, shown, shown_bare, writes, Answers,
};
use crate::plans::{is_write, only};
use crate::protocol::{Action, ActionView, EventView, ScopeRule};
use crate::text::last_segment;
use crate::types::{
    ApiKeyRecord, BodyView, CreateSystemDomainRequest, DomainAddrMetaRecord, SystemDomainRecord,
    SystemDomainResponse, UpdateSystemDomainRequest,
};

verus! {

// Creating

/// The domain that a request asks for, as it is created.
pub open spec fn creates_domain(
    system_id: Seq<char>,
    req: CreateSystemDomainRequest<Seq<char>>,
) -> ActionView {
    Action::CreateDomain {
        id: req.id,
        system_id,
        domain: req.domain,
        webhook_url: req.webhook_url,
        webhook_secret: req.webhook_secret,
        manager_address: req.manager_address,
    }
}

/// Whether a key may create a domain: it has the scope, the domain is bare, and a
/// key that is not a system admin's belongs to it.
pub open spec fn may_create(
    answers: Answers,
    key: ApiKeyRecord<Seq<char>>,
    req: CreateSystemDomainRequest<Seq<char>>,
) -> bool {
    &&& grants(answers, Action::RequireScope { rule: ScopeRule::System })
    &&& !req.domain.contains('@')
    &&& !key.scopes.system_admin ==> grants(
        answers,
        Action::RequireDomainMatch { domain: req.domain },
    )
}

/// A domain is created as it was requested where the key may, the system is there
/// and it has room; the reply shows the record. Else nothing is written, and the
/// reply says why.
pub proof fn domains_are_created_as_requested(
    answers: Answers,
    key: ApiKeyRecord<Seq<char>>,
    system_id: Seq<char>,
    req: CreateSystemDomainRequest<Seq<char>>,
)
    requires
        grants(answers, Action::RequireScope { rule: ScopeRule::System }),
    ensures
        only(
            create_system_domain_plan(key, system_id, req),
            |a: ActionView| is_write(a) ==> a == creates_domain(system_id, req),
        ),
        ({
            let plan = create_system_domain_plan(key, system_id, req);
            let end = ending(plan, answers);
            let allowed = may_create(answers, key, req);
            let system = answers(Action::ResolveSystem { system_id });
            let room = answers(Action::AdmitDomain { system_id });
            &&& if allowed && system == EventView::Found(Ok(true)) && (
            room matches EventView::Admission(Ok(_))) {
                &&& writes(plan, answers) == seq![creates_domain(system_id, req)]
                &&& match answers(creates_domain(system_id, req)) {
                    EventView::Domain(Ok(record)) => end == done(
                        201,
                        BodyView::Domain(shown_bare(record)),
                    ),
                    EventView::Domain(Err(e)) => end == refused(
                        500,
                        "Database error"@,
                        Some(e.message),
                    ),
                    _ => true,
                }
            } else {
                writes(plan, answers) == nothing()
            }
            &&& req.domain.contains('@') ==> end == refused(
                400,
                "invalid_domain"@,
                Some(
                    "Use POST /api/v1/admin/systems/{sid}/addresses to register agent email addresses"@,
                ),
            )
            &&& allowed ==> match system {
                EventView::Found(Ok(true)) => (room matches EventView::Admission(Err(m)) ==> end
                    == refused(403, "quota_exceeded"@, Some(m))),
                EventView::Found(Ok(false)) => end == refused(404, "System not found"@, None),
                EventView::Found(Err(e)) => end == refused(
                    500,
                    "Database error"@,
                    Some(e.message),
                ),
                _ => true,
            }
        }),
{
    reveal_with_fuel(only, 6);
    reveal_with_fuel(writes, 6);
    reveal_with_fuel(ending, 6);
}

// Listing

/// Whether a response shows a record: an address with the metadata of the last
/// row that there is for it, anything else with none.
pub open spec fn shows_record(
    response: SystemDomainResponse<Seq<char>>,
    record: SystemDomainRecord<Seq<char>>,
    metas: Seq<DomainAddrMetaRecord<Seq<char>>>,
) -> bool {
    &&& forall|i: int|
        0 <= i < metas.len() && (#[trigger] metas[i]).email_address == record.domain && (forall|
            j: int,
        |
            i < j < metas.len() ==> (#[trigger] metas[j]).email_address != record.domain)
            && record.domain.contains('@') ==> response == shown(
            record,
            metas[i].manager_address,
            metas[i].agent_signature,
            metas[i].agent_persona,
        )
    &&& !record.domain.contains('@') || (forall|j: int|
        0 <= j < metas.len() ==> (#[trigger] metas[j]).email_address != record.domain)
        ==> response == shown_bare(record)
}

proof fn lemma_last_meta(metas: Seq<DomainAddrMetaRecord<Seq<char>>>, email: Seq<char>)
    ensures
        forall|i: int|
            0 <= i < metas.len() && (#[trigger] metas[i]).email_address == email && (forall|
                j: int,
            |
                i < j < metas.len() ==> (#[trigger] metas[j]).email_address != email) ==> meta_of(
                metas,
                email,
            ) == Some(metas[i]),
        (forall|j: int| 0 <= j < metas.len() ==> (#[trigger] metas[j]).email_address != email)
            ==> meta_of(metas, email) is None,
    decreases metas.len(),
{
    if metas.len() > 0 {
        let init = metas.drop_last();
        lemma_last_meta(init, email);
        assert(metas[metas.len() - 1] == metas.last());
        assert forall|i: int|
            0 <= i < metas.len() && (#[trigger] metas[i]).email_address == email && (forall|
                j: int,
            |
                i < j < metas.len() ==> (#[trigger] metas[j]).email_address
                    != email) implies meta_of(metas, email) == Some(metas[i]) by {
            if i < init.len() {
                assert(init[i] == metas[i]);
                assert forall|j: int| i < j < init.len() implies (
                #[trigger] init[j]).email_address != email by {
                    assert(init[j] == metas[j]);
                }
            }
        }
        if forall|j: int| 0 <= j < metas.len() ==> (#[trigger] metas[j]).email_address != email {
            assert forall|j: int| 0 <= j < init.len() implies (#[trigger] init[j]).email_address
                != email by {
                assert(init[j] == metas[j]);
            }
        }
    }
}

proof fn lemma_shows_record(
    record: SystemDomainRecord<Seq<char>>,
    metas: Seq<DomainAddrMetaRecord<Seq<char>>>,
)
    ensures
        shows_record(enriched(record, metas), record, metas),
{
    lemma_last_meta(metas, record.domain);
}

/// Whether a key may list the domains of a system.
pub open spec fn may_list(
    answers: Answers,
    key: ApiKeyRecord<Seq<char>>,
    system_id: Seq<char>,
) -> bool {
    key.scopes.platform_admin || (grants(
        answers,
        Action::RequireScope { rule: ScopeRule::System },
    ) && key.system_id == system_id)
}

/// A listing shows each domain record of the system that was asked for, in order,
/// with its metadata; without any where the metadata cannot be read.
pub proof fn listings_show_each_domain(
    answers: Answers,
    key: ApiKeyRecord<Seq<char>>,
    system_id: Seq<char>,
)
    requires
        may_list(answers, key, system_id),
        answers(Action::ListMetas { system_id }) is Metas,
    ensures
        match answers(Action::ListDomains { system_id }) {
            EventView::Domains(Ok(records)) => exists|list: Seq<SystemDomainResponse<Seq<char>>>|
                {
                    &&& ending(list_system_domains_plan(key, system_id), answers)
                        == #[trigger] done(200, BodyView::Domains(list))
                    &&& list.len() == records.len()
                    &&& forall|i: int|
                        0 <= i < list.len() ==> shows_record(
                            #[trigger] list[i],
                            records[i],
                            match answers(Action::ListMetas { system_id }) {
                                EventView::Metas(Ok(metas)) => metas,
                                _ => Seq::empty(),
                            },
                        )
                },
            EventView::Domains(Err(e)) => ending(list_system_domains_plan(key, system_id), answers)
                == refused(500, "Database error"@, Some(e.message)),
            _ => true,
        },
{
    reveal_with_fuel(ending, 4);
    if let EventView::Domains(Ok(records)) = answers(Action::ListDomains { system_id }) {
        let metas = match answers(Action::ListMetas { system_id }) {
            EventView::Metas(Ok(metas)) => metas,
            _ => Seq::empty(),
        };
        let list = records.map_values(|r: SystemDomainRecord<Seq<char>>| enriched(r, metas));
        assert forall|i: int| 0 <= i < list.len() implies shows_record(
            #[trigger] list[i],
            records[i],
            metas,
        ) by {
            lemma_shows_record(records[i], metas);
        }
        assert(ending(list_system_domains_plan(key, system_id), answers) == done(
            200,
            BodyView::Domains(list),
        ));
    }
}

/// A key that lists another system's domains is told which is its own.
pub proof fn other_systems_are_refused(
    answers: Answers,
    key: ApiKeyRecord<Seq<char>>,
    system_id: Seq<char>,
)
    requires
        !key.scopes.platform_admin,
        grants(answers, Action::RequireScope { rule: ScopeRule::System }),
        key.system_id != system_id,
    ensures
        ending(list_system_domains_plan(key, system_id), answers) == refused(
            403,
            "Cross-system access denied"@,
            Some(
                "Key system '"@ + key.system_id + "' cannot list domains of system '"@ + system_id
                    + "'"@,
            ),
        ),
{
    reveal_with_fuel(ending, 3);
}

// Asking for a domain

/// A domain exists where storage has a record of it.
pub proof fn domains_exist_where_stored(answers: Answers, domain: Seq<char>)
    requires
        grants(answers, Action::RequireScope { rule: ScopeRule::PlatformOrSystem }),
    ensures
        domain.len() > 0 ==> match answers(Action::LookupDomainAddr { key: domain }) {
            EventView::MaybeDomain(Ok(record)) => ending(
                check_domain_exists_plan(Some(domain)),
                answers,
            ) == done(
                200,
                BodyView::Value(
                    JsonTree::Object(map!["exists"@ => JsonTree::Bool(record is Some)]),
                ),
            ),
            EventView::MaybeDomain(Err(e)) => ending(
                check_domain_exists_plan(Some(domain)),
                answers,
            ) == refused(500, "Database error"@, Some(e.message)),
            _ => true,
        },
        domain.len() == 0 ==> ending(check_domain_exists_plan(Some(domain)), answers) == refused(
            400,
            "Missing 'domain' query parameter"@,
            None,
        ),
        ending(check_domain_exists_plan(None), answers) == refused(
            400,
            "Missing 'domain' query parameter"@,
            None,
        ),
        only(check_domain_exists_plan(Some(domain)), |a: ActionView| !is_write(a)),
{
    reveal_with_fuel(ending, 3);
    reveal_with_fuel(only, 3);
}

// Changing and deleting

/// Whether a key owns a record: a system admin's does; any other must belong to
/// the record's bare domain.
pub open spec fn owns(
    answers: Answers,
    key: ApiKeyRecord<Seq<char>>,
    record: SystemDomainRecord<Seq<char>>,
) -> bool {
    key.scopes.system_admin || grants(
        answers,
        Action::RequireDomainMatch { domain: last_segment(record.domain, '@') },
    )
}

/// The change of a record, with what a request gives.
pub open spec fn changes_domain(
    id: Seq<char>,
    req: UpdateSystemDomainRequest<Seq<char>>,
) -> ActionView {
    Action::UpdateDomain {
        id,
        webhook_url: req.webhook_url,
        webhook_secret: req.webhook_secret,
        is_active: req.is_active,
    }
}

/// The deletion of a record.
pub open spec fn deletes_domain(id: Seq<char>) -> ActionView {
    Action::DeleteDomain { id }
}

/// A record that the key owns is changed as requested and deleted when asked; the
/// reply to a change shows the record as storage has it then, an address with its
/// metadata. One that it does not own stays.
pub proof fn owned_domains_are_changed_as_requested(
    answers: Answers,
    key: ApiKeyRecord<Seq<char>>,
    id: Seq<char>,
    req: UpdateSystemDomainRequest<Seq<char>>,
    record: SystemDomainRecord<Seq<char>>,
)
    requires
        grants(answers, Action::RequireScope { rule: ScopeRule::System }),
        answers(Action::ResolveDomain { id }) == EventView::MaybeDomain(Ok(Some(record))),
    ensures
        ({
            let update = update_system_domain_plan(key, id, req);
            let delete = delete_system_domain_plan(key, id);
            let end = ending(update, answers);
            &&& !owns(answers, key, record) ==> writes(update, answers) == nothing() && writes(
                delete,
                answers,
            ) == nothing()
            &&& owns(answers, key, record) ==> {
                &&& writes(update, answers) == seq![changes_domain(id, req)]
                &&& writes(delete, answers) == seq![deletes_domain(id)]
                &&& match answers(deletes_domain(id)) {
                    EventView::Done(Ok(_)) => ending(delete, answers) == done(
                        204,
                        BodyView::Empty,
                    ),
                    EventView::Done(Err(e)) => ending(delete, answers) == refused(
                        500,
                        "Database error"@,
                        Some(e.message),
                    ),
                    _ => true,
                }
                &&& match answers(changes_domain(id, req)) {
                    EventView::MaybeDomain(Ok(Some(new))) => if new.domain.contains('@') {
                        match answers(Action::ResolveMeta { email: new.domain }) {
                            EventView::MaybeMeta(Ok(Some(m))) => end == done(
                                200,
                                BodyView::Domain(
                                    shown(
                                        new,
                                        m.manager_address,
                                        m.agent_signature,
                                        m.agent_persona,
                                    ),
                                ),
                            ),
                            EventView::MaybeMeta(_) => end == done(
                                200,
                                BodyView::Domain(shown_bare(new)),
                            ),
                            _ => true,
                        }
                    } else {
                        end == done(200, BodyView::Domain(shown_bare(new)))
                    },
                    EventView::MaybeDomain(Ok(None)) => end == refused(
                        404,
                        "System domain not found"@,
                        None,
                    ),
                    EventView::MaybeDomain(Err(e)) => end == refused(
                        500,
                        "Database error"@,
                        Some(e.message),
                    ),
                    _ => true,
                }
            }
        }),
{
    reveal_with_fuel(writes, 6);
    reveal_with_fuel(ending, 6);
}

/// Where there is no such record, or storage fails to tell, nothing is written.
pub proof fn missing_domains_are_reported(
    answers: Answers,
    key: ApiKeyRecord<Seq<char>>,
    id: Seq<char>,
    req: UpdateSystemDomainRequest<Seq<char>>,
)
    requires
        grants(answers, Action::RequireScope { rule: ScopeRule::System }),
    ensures
        ({
            let update = update_system_domain_plan(key, id, req);
            let delete = delete_system_domain_plan(key, id);
            match answers(Action::ResolveDomain { id }) {
                EventView::MaybeDomain(Ok(None)) => {
                    &&& writes(update, answers) == nothing()
                    &&& writes(delete, answers) == nothing()
                    &&& ending(update, answers) == refused(404, "System domain not found"@, None)
                    &&& ending(delete, answers) == refused(404, "System domain not found"@, None)
                },
                EventView::MaybeDomain(Err(e)) => {
                    let end = refused(500, "Database error"@, Some(e.message));
                    &&& writes(update, answers) == nothing()
                    &&& writes(delete, answers) == nothing()
                    &&& ending(update, answers) == end
                    &&& ending(delete, answers) == end
                },
                _ => true,
            }
        }),
{
    reveal_with_fuel(writes, 4);
    reveal_with_fuel(ending, 4);
}

} // verus!
