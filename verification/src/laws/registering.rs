//! What the registration of an address comes to.

use vstd::prelude::*;

use crate::address::{address_fault, anchor, bare_domain};
use crate::addresses::register_address_plan;
use crate::laws::outcomes::{
    done, ending, grants, nothing, refused, shown_bare, writes, Answers,
};
use crate::plans::{is_write, only};
use crate::protocol::{Action, ActionView, EventView, ScopeRule};
use crate::types::{ApiKeyRecord, BodyView, RegisterAddressRequest};

verus! {

/// The address that a request asks for, as it is created.
pub open spec fn created_as_requested(
    system_id: Seq<char>,
    req: RegisterAddressRequest<Seq<char>>,
) -> ActionView {
    Action::CreateDomain {
        id: req.id,
        system_id,
        domain: req.email,
        webhook_url: req.webhook_url,
        webhook_secret: req.webhook_secret,
        manager_address: req.manager_address,
    }
}

/// The entry that lets an agent and its manager write to each other.
pub open spec fn lets_write(email: Seq<char>, manager: Seq<char>) -> ActionView {
    Action::CreateWhitelistEntry {
        domain_addr: email,
        direction: "all"@,
        value: manager,
        description: Some("Agent <-> Manager (auto-created)"@),
    }
}

/// The manager of an agent that is already there.
pub open spec fn gives_manager(
    email: Seq<char>,
    system_id: Seq<char>,
    manager: Seq<char>,
) -> ActionView {
    Action::UpsertMetaRow {
        email,
        system_id,
        manager: Some(manager),
        signature: None,
        persona: None,
    }
}

/// The generation of one activation code for an address.
pub open spec fn makes_code(system_id: Seq<char>, email: Seq<char>) -> ActionView {
    Action::GenerateActivationCodes { system_id, domain: bare_domain(email), email, count: 1 }
}

/// Whatever the answers, a registration creates no address but the one that was
/// requested, with each field as it was requested. It whitelists no one but the
/// manager that was named, and generates a code only where one was asked for.
pub proof fn registration_writes_what_was_requested(
    key: ApiKeyRecord<Seq<char>>,
    system_id: Seq<char>,
    generate_code: bool,
    req: RegisterAddressRequest<Seq<char>>,
)
    ensures
        only(
            register_address_plan(key, system_id, generate_code, req),
            |a: ActionView|
                is_write(a) ==> {
                    ||| a == created_as_requested(system_id, req)
                    ||| req.manager_address is Some && a == lets_write(
                        req.email,
                        req.manager_address->0,
                    )
                    ||| req.manager_address is Some && a == gives_manager(
                        req.email,
                        system_id,
                        req.manager_address->0,
                    )
                    ||| generate_code && a == makes_code(system_id, req.email)
                },
        ),
{
    reveal_with_fuel(only, 10);
}

/// Whether the key may register the address: the scope is granted, the address
/// has the shape of the system's, and it is an agent admin's own domain.
pub open spec fn may_register(
    answers: Answers,
    key: ApiKeyRecord<Seq<char>>,
    system_id: Seq<char>,
    email: Seq<char>,
) -> bool {
    &&& grants(answers, Action::RequireScope { rule: ScopeRule::SystemOrAgentAdmin })
    &&& address_fault(system_id, email) is None
    &&& key.scopes.agent_admin ==> grants(
        answers,
        Action::RequireDomainMatch { domain: bare_domain(email) },
    )
}

/// Whether the system is there and has an active anchor of its own for the
/// address.
pub open spec fn has_anchor(answers: Answers, system_id: Seq<char>, email: Seq<char>) -> bool {
    &&& answers(Action::ResolveSystem { system_id }) == EventView::Found(Ok(true))
    &&& answers(
        Action::LookupDomainAddr { key: anchor(system_id, email) },
    ) matches EventView::MaybeDomain(Ok(Some(record))) && record.is_active && record.system_id
        == system_id
}

/// Whether the system has room for one more address.
pub open spec fn has_room(answers: Answers, system_id: Seq<char>) -> bool {
    answers(Action::AdmitAddress { system_id }) matches EventView::Admission(Ok(_))
}

/// A registration that nothing stands against is carried out: the address is
/// created first, as it was requested.
pub proof fn granted_registration_creates_the_address(
    answers: Answers,
    key: ApiKeyRecord<Seq<char>>,
    system_id: Seq<char>,
    generate_code: bool,
    req: RegisterAddressRequest<Seq<char>>,
)
    requires
        may_register(answers, key, system_id, req.email),
        has_anchor(answers, system_id, req.email),
        has_room(answers, system_id),
    ensures
        writes(register_address_plan(key, system_id, generate_code, req), answers).len() > 0,
        writes(register_address_plan(key, system_id, generate_code, req), answers)[0]
            == created_as_requested(system_id, req),
{
    reveal_with_fuel(writes, 7);
}

/// Once the address is created, its manager is whitelisted where one was named,
/// and the reply shows the record that storage returned, with the first of the
/// codes where one was asked for. Whether the entry came about does not matter.
pub proof fn registration_shows_the_record(
    answers: Answers,
    key: ApiKeyRecord<Seq<char>>,
    system_id: Seq<char>,
    generate_code: bool,
    req: RegisterAddressRequest<Seq<char>>,
)
    requires
        may_register(answers, key, system_id, req.email),
        has_anchor(answers, system_id, req.email),
        has_room(answers, system_id),
        answers(created_as_requested(system_id, req)) matches EventView::Domain(Ok(_)),
        req.manager_address is Some ==> answers(
            lets_write(req.email, req.manager_address->0),
        ) is Entry,
        generate_code ==> answers(makes_code(system_id, req.email)) is Texts,
    ensures
        writes(register_address_plan(key, system_id, generate_code, req), answers) == seq![
            created_as_requested(system_id, req),
        ] + (match req.manager_address {
            Some(manager) => seq![lets_write(req.email, manager)],
            None => nothing(),
        }) + (if generate_code {
            seq![makes_code(system_id, req.email)]
        } else {
            nothing()
        }),
        answers(created_as_requested(system_id, req)) matches EventView::Domain(Ok(record)) && {
            let end = ending(register_address_plan(key, system_id, generate_code, req), answers);
            if !generate_code {
                end == done(
                    201,
                    BodyView::Registered {
                        status: "created"@,
                        domain: shown_bare(record),
                        activation_code: None,
                    },
                )
            } else {
                match answers(makes_code(system_id, req.email)) {
                    EventView::Texts(Ok(codes)) => if codes.len() > 0 {
                        end == done(
                            201,
                            BodyView::Registered {
                                status: "created"@,
                                domain: shown_bare(record),
                                activation_code: Some(codes[0]),
                            },
                        )
                    } else {
                        end == refused(500, "Backend returned empty code list"@, None)
                    },
                    EventView::Texts(Err(e)) => end == refused(
                        500,
                        "Failed to generate activation code"@,
                        Some(e.message),
                    ),
                    _ => true,
                }
            }
        },
{
    reveal_with_fuel(writes, 9);
    reveal_with_fuel(ending, 9);
}

/// Where the address is already there, its manager is entered in its metadata
/// and its whitelist, and the reply tells of the conflict. Any other fault of
/// storage ends the registration.
pub proof fn registration_tells_of_conflicts(
    answers: Answers,
    key: ApiKeyRecord<Seq<char>>,
    system_id: Seq<char>,
    generate_code: bool,
    req: RegisterAddressRequest<Seq<char>>,
)
    requires
        may_register(answers, key, system_id, req.email),
        has_anchor(answers, system_id, req.email),
        has_room(answers, system_id),
        answers(created_as_requested(system_id, req)) matches EventView::Domain(Err(_)),
        req.manager_address is Some ==> answers(
            lets_write(req.email, req.manager_address->0),
        ) is Entry && answers(
            gives_manager(req.email, system_id, req.manager_address->0),
        ) is Done,
    ensures
        answers(created_as_requested(system_id, req)) matches EventView::Domain(Err(e)) && {
            let plan = register_address_plan(key, system_id, generate_code, req);
            if e.conflict {
                &&& ending(plan, answers) == refused(409, "already_exists"@, Some(e.message))
                &&& writes(plan, answers) == seq![created_as_requested(system_id, req)] + (
                match req.manager_address {
                    Some(manager) => seq![
                        gives_manager(req.email, system_id, manager),
                        lets_write(req.email, manager),
                    ],
                    None => nothing(),
                })
            } else {
                &&& ending(plan, answers) == refused(500, "Database error"@, Some(e.message))
                &&& writes(plan, answers) == seq![created_as_requested(system_id, req)]
            }
        },
{
    reveal_with_fuel(writes, 9);
    reveal_with_fuel(ending, 9);
}

/// A registration that is refused writes nothing, and the reply says why.
pub proof fn refused_registrations_write_nothing(
    answers: Answers,
    key: ApiKeyRecord<Seq<char>>,
    system_id: Seq<char>,
    generate_code: bool,
    req: RegisterAddressRequest<Seq<char>>,
)
    requires
        grants(answers, Action::RequireScope { rule: ScopeRule::SystemOrAgentAdmin }),
    ensures
        ({
            let plan = register_address_plan(key, system_id, generate_code, req);
            let end = ending(plan, answers);
            let found = answers(Action::LookupDomainAddr { key: anchor(system_id, req.email) });
            let allowed = may_register(answers, key, system_id, req.email);
            let system = answers(Action::ResolveSystem { system_id });
            &&& !(allowed && has_anchor(answers, system_id, req.email) && has_room(
                answers,
                system_id,
            )) ==> writes(plan, answers) == nothing()
            &&& address_fault(system_id, req.email) is Some ==> end == refused(
                400,
                "invalid_email"@,
                address_fault(system_id, req.email),
            )
            &&& allowed && system == EventView::Found(Ok(false)) ==> end == refused(
                404,
                "System not found"@,
                None,
            )
            &&& allowed ==> (system matches EventView::Found(Err(e)) ==> end == refused(
                500,
                "Database error"@,
                Some(e.message),
            ))
            &&& allowed && system == EventView::Found(Ok(true)) ==> match found {
                EventView::MaybeDomain(Ok(Some(record))) => {
                    &&& !record.is_active ==> end == refused(412, "Domain is inactive"@, None)
                    &&& record.is_active && record.system_id != system_id ==> end == refused(
                        403,
                        "forbidden"@,
                        Some("Domain does not belong to this system"@),
                    )
                },
                EventView::MaybeDomain(Ok(None)) => {
                    &&& !("shared-"@.is_prefix_of(system_id)) ==> end == refused(
                        412,
                        "Bare domain not found"@,
                        Some(
                            "Register domain '"@ + bare_domain(req.email)
                                + "' first via POST /api/v1/admin/systems/"@ + system_id
                                + "/domains"@,
                        ),
                    )
                    &&& "shared-"@.is_prefix_of(system_id) ==> end == refused(
                        412,
                        "System anchor not found"@,
                        Some(
                            "System anchor '"@ + anchor(system_id, req.email)
                                + "' not found — the shared-domain system must be activated to create it"@,
                        ),
                    )
                },
                EventView::MaybeDomain(Err(e)) => end == refused(
                    500,
                    "Database error"@,
                    Some(e.message),
                ),
                _ => true,
            }
            &&& allowed && has_anchor(answers, system_id, req.email) ==> (answers(
                Action::AdmitAddress { system_id },
            ) matches EventView::Admission(Err(m)) ==> end == refused(
                403,
                "quota_exceeded"@,
                Some(m),
            ))
        }),
{
    reveal_with_fuel(writes, 7);
    reveal_with_fuel(ending, 7);
}

} // verus!
