//! Agent addresses: registration, renaming and metadata.

use vstd::prelude::*;

use crate::access::{refuse_non_manager, reject_non_manager};
use crate::address::{
    address_fault, anchor, anchor_of, bare_domain, check_address, check_local_part,
    is_shared_system, local_part_fault, shared_system,
};
use crate::json::{bool_value, new_object, object_value, set_field, text_value, JsonTree};
use crate::protocol::{
    fail, failure, gate, granted, scoped, storage_failed, storage_failure, succeed, success,
    Action, Event, EventView, Machine, Next, Plan, ScopeRule, StoreFault, Waiting,
};
use crate::text::{
    before_first, behind_last, first_segment, lowercase, same, to_lowercase, trim, trimmed,
};
use crate::types::{
    bare_response, ApiKeyRecord, Body, BodyView, DomainAddrMetaRecord, RegisterAddressQuery,
    RegisterAddressRequest, RenameAddressRequest, Reply, StoreError, SystemDomainRecord,
    SystemDomainResponse, UpdateAgentMetaRequest,
};

verus! {

// Registering an address

/// An address is registered under a system by a key with the system or the
/// agent admin scope. It must have the shape of the system's addresses; an
/// agent admin registers addresses of its own domain only.
pub open spec fn register_address_plan(
    key: ApiKeyRecord<Seq<char>>,
    system_id: Seq<char>,
    generate_code: bool,
    req: RegisterAddressRequest<Seq<char>>,
) -> Plan {
    scoped(
        ScopeRule::SystemOrAgentAdmin,
        address_requested(key, system_id, generate_code, req),
    )
}

pub open spec fn address_requested(
    key: ApiKeyRecord<Seq<char>>,
    system_id: Seq<char>,
    generate_code: bool,
    req: RegisterAddressRequest<Seq<char>>,
) -> Plan {
    match address_fault(system_id, req.email) {
        Some(detail) => fail(400, "invalid_email"@, Some(detail)),
        None => if key.scopes.agent_admin {
            gate(
                Action::RequireDomainMatch { domain: bare_domain(req.email) },
                address_allowed(system_id, generate_code, req),
            )
        } else {
            address_allowed(system_id, generate_code, req)
        },
    }
}

/// The system must exist, and then the record that anchors the address.
pub open spec fn address_allowed(
    system_id: Seq<char>,
    generate_code: bool,
    req: RegisterAddressRequest<Seq<char>>,
) -> Plan {
    Plan::Do(
        Action::ResolveSystem { system_id },
        address_system_resolved(system_id, generate_code, req),
    )
}

pub open spec fn address_system_resolved(
    system_id: Seq<char>,
    generate_code: bool,
    req: RegisterAddressRequest<Seq<char>>,
) -> spec_fn(EventView) -> Plan {
    |event: EventView|
        match event {
            EventView::Found(Ok(true)) => Plan::Do(
                Action::LookupDomainAddr { key: anchor(system_id, req.email) },
                anchor_looked_up(system_id, generate_code, req),
            ),
            EventView::Found(Ok(false)) => fail(404, "System not found"@, None),
            EventView::Found(Err(e)) => storage_failed(e),
            _ => Plan::Mismatch,
        }
}

/// The anchor must be there, be active and belong to the system.
pub open spec fn anchor_looked_up(
    system_id: Seq<char>,
    generate_code: bool,
    req: RegisterAddressRequest<Seq<char>>,
) -> spec_fn(EventView) -> Plan {
    |event: EventView|
        match event {
            EventView::MaybeDomain(Ok(Some(record))) => if !record.is_active {
                fail(412, "Domain is inactive"@, None)
            } else if record.system_id != system_id {
                fail(403, "forbidden"@, Some("Domain does not belong to this system"@))
            } else {
                Plan::Do(
                    Action::AdmitAddress { system_id },
                    address_admitted(system_id, generate_code, req),
                )
            },
            EventView::MaybeDomain(Ok(None)) => anchor_missing(system_id, req.email),
            EventView::MaybeDomain(Err(e)) => storage_failed(e),
            _ => Plan::Mismatch,
        }
}

/// The reply where the anchor is missing.
pub open spec fn anchor_missing(system_id: Seq<char>, email: Seq<char>) -> Plan {
    if shared_system(system_id) {
        fail(
            412,
            "System anchor not found"@,
            Some(
                "System anchor '"@ + anchor(system_id, email)
                    + "' not found — the shared-domain system must be activated to create it"@,
            ),
        )
    } else {
        fail(
            412,
            "Bare domain not found"@,
            Some(
                "Register domain '"@ + bare_domain(email)
                    + "' first via POST /api/v1/admin/systems/"@ + system_id + "/domains"@,
            ),
        )
    }
}

/// The address is created as it was requested.
pub open spec fn address_admitted(
    system_id: Seq<char>,
    generate_code: bool,
    req: RegisterAddressRequest<Seq<char>>,
) -> spec_fn(EventView) -> Plan {
    |event: EventView|
        match event {
            EventView::Admission(Ok(_)) => Plan::Do(
                Action::CreateDomain {
                    id: req.id,
                    system_id,
                    domain: req.email,
                    webhook_url: req.webhook_url,
                    webhook_secret: req.webhook_secret,
                    manager_address: req.manager_address,
                },
                address_created(system_id, generate_code, req.email, req.manager_address),
            ),
            EventView::Admission(Err(m)) => fail(403, "quota_exceeded"@, Some(m)),
            _ => Plan::Mismatch,
        }
}

/// The whitelist entry that lets an agent and its manager write to each other.
pub open spec fn manager_entry(
    email: Seq<char>,
    manager: Seq<char>,
) -> crate::protocol::ActionView {
    Action::CreateWhitelistEntry {
        domain_addr: email,
        direction: "all"@,
        value: manager,
        description: Some("Agent <-> Manager (auto-created)"@),
    }
}

/// Agent and manager are whitelisted for each other. An address that is already
/// there gets its manager, and the request is answered with a conflict.
pub open spec fn address_created(
    system_id: Seq<char>,
    generate_code: bool,
    email: Seq<char>,
    manager: Option<Seq<char>>,
) -> spec_fn(EventView) -> Plan {
    |event: EventView|
        match event {
            EventView::Domain(Ok(record)) => match manager {
                Some(m) => Plan::Do(
                    manager_entry(email, m),
                    address_whitelisted(system_id, generate_code, email, record),
                ),
                None => address_registered(system_id, generate_code, email, record),
            },
            EventView::Domain(Err(e)) => if e.conflict {
                match manager {
                    Some(m) => Plan::Do(
                        Action::UpsertMetaRow {
                            email,
                            system_id,
                            manager: Some(m),
                            signature: None,
                            persona: None,
                        },
                        existing_meta_synced(email, m, e),
                    ),
                    None => address_conflict(e),
                }
            } else {
                storage_failed(e)
            },
            _ => Plan::Mismatch,
        }
}

/// Whether the whitelist entry came about does not matter.
pub open spec fn address_whitelisted(
    system_id: Seq<char>,
    generate_code: bool,
    email: Seq<char>,
    record: SystemDomainRecord<Seq<char>>,
) -> spec_fn(EventView) -> Plan {
    |event: EventView|
        match event {
            EventView::Entry(_) => address_registered(system_id, generate_code, email, record),
            _ => Plan::Mismatch,
        }
}

/// The reply shows the record, with an activation code where one was asked for.
pub open spec fn address_registered(
    system_id: Seq<char>,
    generate_code: bool,
    email: Seq<char>,
    record: SystemDomainRecord<Seq<char>>,
) -> Plan {
    if generate_code {
        Plan::Do(
            Action::GenerateActivationCodes {
                system_id,
                domain: bare_domain(email),
                email,
                count: 1,
            },
            code_generated(record),
        )
    } else {
        succeed(
            201,
            BodyView::Registered {
                status: "created"@,
                domain: bare_response(record),
                activation_code: None,
            },
        )
    }
}

pub open spec fn code_generated(
    record: SystemDomainRecord<Seq<char>>,
) -> spec_fn(EventView) -> Plan {
    |event: EventView|
        match event {
            EventView::Texts(Ok(codes)) => if codes.len() == 0 {
                fail(500, "Backend returned empty code list"@, None)
            } else {
                succeed(
                    201,
                    BodyView::Registered {
                        status: "created"@,
                        domain: bare_response(record),
                        activation_code: Some(codes[0]),
                    },
                )
            },
            EventView::Texts(Err(e)) => fail(
                500,
                "Failed to generate activation code"@,
                Some(e.message),
            ),
            _ => Plan::Mismatch,
        }
}

pub open spec fn existing_meta_synced(
    email: Seq<char>,
    manager: Seq<char>,
    conflict: StoreFault,
) -> spec_fn(EventView) -> Plan {
    |event: EventView|
        match event {
            EventView::Done(_) => Plan::Do(
                manager_entry(email, manager),
                existing_whitelisted(conflict),
            ),
            _ => Plan::Mismatch,
        }
}

pub open spec fn existing_whitelisted(conflict: StoreFault) -> spec_fn(EventView) -> Plan {
    |event: EventView|
        match event {
            EventView::Entry(_) => address_conflict(conflict),
            _ => Plan::Mismatch,
        }
}

/// The reply for an address that is already there.
pub open spec fn address_conflict(conflict: StoreFault) -> Plan {
    fail(409, "already_exists"@, Some(conflict.message))
}

/// The registration of an address, under way.
#[derive(Debug, PartialEq)]
#[allow(inconsistent_fields)]
pub enum RegisterAddress {
    Scope { key: ApiKeyRecord, system_id: String, generate_code: bool, req: RegisterAddressRequest },
    DomainMatch { system_id: String, generate_code: bool, req: RegisterAddressRequest },
    System { system_id: String, generate_code: bool, req: RegisterAddressRequest },
    Anchor { system_id: String, generate_code: bool, req: RegisterAddressRequest },
    Admission { system_id: String, generate_code: bool, req: RegisterAddressRequest },
    Create { system_id: String, generate_code: bool, email: String, manager: Option<String> },
    Whitelist { system_id: String, generate_code: bool, email: String, record: SystemDomainRecord },
    Code { record: SystemDomainRecord },
    SyncMeta { email: String, manager: String, conflict: StoreError },
    SyncWhitelist { conflict: StoreError },
}

/// `POST /api/v1/admin/systems/:sid/addresses`: registers an agent address.
pub fn register_address(
    api_key: ApiKeyRecord,
    tid: String,
    query: RegisterAddressQuery,
    req: RegisterAddressRequest,
) -> (next: Next<RegisterAddress>)
    ensures
        next.plan() == register_address_plan(
            api_key.deep_view(),
            tid@,
            query.generate_code,
            req.deep_view(),
        ),
{
    Next::Do(
        Action::RequireScope { rule: ScopeRule::SystemOrAgentAdmin },
        RegisterAddress::Scope {
            key: api_key,
            system_id: tid,
            generate_code: query.generate_code,
            req,
        },
    )
}

impl RegisterAddress {
    fn resolve_system(
        system_id: String,
        generate_code: bool,
        req: RegisterAddressRequest,
    ) -> (next: Next<RegisterAddress>)
        ensures
            next.plan() == address_allowed(system_id@, generate_code, req.deep_view()),
    {
        Next::Do(
            Action::ResolveSystem { system_id: system_id.clone() },
            RegisterAddress::System { system_id, generate_code, req },
        )
    }

    fn reject_missing_anchor(system_id: &str, email: &str) -> (next: Next<RegisterAddress>)
        ensures
            next.plan() == anchor_missing(system_id@, email@),
    {
        if is_shared_system(system_id) {
            let mut detail = "System anchor '".to_string();
            detail.append(&anchor_of(system_id, email));
            detail.append(
                "' not found — the shared-domain system must be activated to create it",
            );
            failure(412, "System anchor not found", Some(detail))
        } else {
            let mut detail = "Register domain '".to_string();
            detail.append(behind_last(email, '@'));
            detail.append("' first via POST /api/v1/admin/systems/");
            detail.append(system_id);
            detail.append("/domains");
            failure(412, "Bare domain not found", Some(detail))
        }
    }

    fn create_manager_entry(email: String, manager: String) -> (action: Action)
        ensures
            action.deep_view() == manager_entry(email@, manager@),
    {
        Action::CreateWhitelistEntry {
            domain_addr: email,
            direction: "all".to_string(),
            value: manager,
            description: Some("Agent <-> Manager (auto-created)".to_string()),
        }
    }

    fn finish(
        system_id: String,
        generate_code: bool,
        email: String,
        record: SystemDomainRecord,
    ) -> (next: Next<RegisterAddress>)
        ensures
            next.plan() == address_registered(
                system_id@,
                generate_code,
                email@,
                record.deep_view(),
            ),
    {
        if generate_code {
            let domain = behind_last(&email, '@').to_owned();
            Next::Do(
                Action::GenerateActivationCodes { system_id, domain, email, count: 1 },
                RegisterAddress::Code { record },
            )
        } else {
            success(
                201,
                Body::Registered {
                    status: "created".to_string(),
                    domain: SystemDomainResponse::from(record),
                    activation_code: None,
                },
            )
        }
    }

    fn reject_conflict(conflict: StoreError) -> (next: Next<RegisterAddress>)
        ensures
            next.plan() == address_conflict(conflict.deep_view()),
    {
        failure(409, "already_exists", Some(conflict.message))
    }
}

impl Waiting for RegisterAddress {
    open spec fn rest(self) -> spec_fn(EventView) -> Plan {
        match self {
            RegisterAddress::Scope { key, system_id, generate_code, req } => granted(
                address_requested(key.deep_view(), system_id@, generate_code, req.deep_view()),
            ),
            RegisterAddress::DomainMatch { system_id, generate_code, req } => granted(
                address_allowed(system_id@, generate_code, req.deep_view()),
            ),
            RegisterAddress::System { system_id, generate_code, req } => address_system_resolved(
                system_id@,
                generate_code,
                req.deep_view(),
            ),
            RegisterAddress::Anchor { system_id, generate_code, req } => anchor_looked_up(
                system_id@,
                generate_code,
                req.deep_view(),
            ),
            RegisterAddress::Admission { system_id, generate_code, req } => address_admitted(
                system_id@,
                generate_code,
                req.deep_view(),
            ),
            RegisterAddress::Create { system_id, generate_code, email, manager } =>
                address_created(system_id@, generate_code, email@, manager.deep_view()),
            RegisterAddress::Whitelist { system_id, generate_code, email, record } =>
                address_whitelisted(system_id@, generate_code, email@, record.deep_view()),
            RegisterAddress::Code { record } => code_generated(record.deep_view()),
            RegisterAddress::SyncMeta { email, manager, conflict } => existing_meta_synced(
                email@,
                manager@,
                conflict.deep_view(),
            ),
            RegisterAddress::SyncWhitelist { conflict } => existing_whitelisted(
                conflict.deep_view(),
            ),
        }
    }
}

impl Machine for RegisterAddress {
    fn resume(self, event: Event) -> (next: Next<RegisterAddress>) {
        match (self, event) {
            (RegisterAddress::Scope { .. }, Event::Access(Err(refusal))) => Next::Reply(
                Reply::Failed(refusal),
            ),
            (
                RegisterAddress::Scope { key, system_id, generate_code, req },
                Event::Access(Ok(())),
            ) => {
                match check_address(&system_id, &req.email) {
                    Some(detail) => failure(400, "invalid_email", Some(detail)),
                    None => {
                        if key.scopes.agent_admin {
                            Next::Do(
                                Action::RequireDomainMatch {
                                    domain: behind_last(&req.email, '@').to_owned(),
                                },
                                RegisterAddress::DomainMatch { system_id, generate_code, req },
                            )
                        } else {
                            Self::resolve_system(system_id, generate_code, req)
                        }
                    },
                }
            },
            (RegisterAddress::DomainMatch { .. }, Event::Access(Err(refusal))) => Next::Reply(
                Reply::Failed(refusal),
            ),
            (
                RegisterAddress::DomainMatch { system_id, generate_code, req },
                Event::Access(Ok(())),
            ) => Self::resolve_system(system_id, generate_code, req),
            (RegisterAddress::System { system_id, generate_code, req }, Event::Found(Ok(true))) => {
                Next::Do(
                    Action::LookupDomainAddr { key: anchor_of(&system_id, &req.email) },
                    RegisterAddress::Anchor { system_id, generate_code, req },
                )
            },
            (RegisterAddress::System { .. }, Event::Found(Ok(false))) => {
                failure(404, "System not found", None)
            },
            (RegisterAddress::System { .. }, Event::Found(Err(e))) => storage_failure(e),
            (
                RegisterAddress::Anchor { system_id, generate_code, req },
                Event::MaybeDomain(Ok(Some(record))),
            ) => {
                if !record.is_active {
                    failure(412, "Domain is inactive", None)
                } else if !same(&record.system_id, &system_id) {
                    failure(
                        403,
                        "forbidden",
                        Some("Domain does not belong to this system".to_string()),
                    )
                } else {
                    Next::Do(
                        Action::AdmitAddress { system_id: system_id.clone() },
                        RegisterAddress::Admission { system_id, generate_code, req },
                    )
                }
            },
            (RegisterAddress::Anchor { system_id, req, .. }, Event::MaybeDomain(Ok(None))) => {
                Self::reject_missing_anchor(&system_id, &req.email)
            },
            (RegisterAddress::Anchor { .. }, Event::MaybeDomain(Err(e))) => storage_failure(e),
            (
                RegisterAddress::Admission { system_id, generate_code, req },
                Event::Admission(Ok(())),
            ) => Next::Do(
                Action::CreateDomain {
                    id: req.id,
                    system_id: system_id.clone(),
                    domain: req.email.clone(),
                    webhook_url: req.webhook_url,
                    webhook_secret: req.webhook_secret,
                    manager_address: req.manager_address.clone(),
                },
                RegisterAddress::Create {
                    system_id,
                    generate_code,
                    email: req.email,
                    manager: req.manager_address,
                },
            ),
            (RegisterAddress::Admission { .. }, Event::Admission(Err(m))) => {
                failure(403, "quota_exceeded", Some(m))
            },
            (
                RegisterAddress::Create { system_id, generate_code, email, manager },
                Event::Domain(Ok(record)),
            ) => match manager {
                Some(m) => Next::Do(
                    Self::create_manager_entry(email.clone(), m),
                    RegisterAddress::Whitelist { system_id, generate_code, email, record },
                ),
                None => Self::finish(system_id, generate_code, email, record),
            },
            (
                RegisterAddress::Create { system_id, email, manager, .. },
                Event::Domain(Err(e)),
            ) => {
                if e.conflict {
                    match manager {
                        Some(m) => Next::Do(
                            Action::UpsertMetaRow {
                                email: email.clone(),
                                system_id,
                                manager: Some(m.clone()),
                                signature: None,
                                persona: None,
                            },
                            RegisterAddress::SyncMeta { email, manager: m, conflict: e },
                        ),
                        None => Self::reject_conflict(e),
                    }
                } else {
                    storage_failure(e)
                }
            },
            (
                RegisterAddress::Whitelist { system_id, generate_code, email, record },
                Event::Entry(_),
            ) => Self::finish(system_id, generate_code, email, record),
            (RegisterAddress::Code { record }, Event::Texts(Ok(codes))) => {
                if codes.len() == 0 {
                    failure(500, "Backend returned empty code list", None)
                } else {
                    success(
                        201,
                        Body::Registered {
                            status: "created".to_string(),
                            domain: SystemDomainResponse::from(record),
                            activation_code: Some(codes[0].clone()),
                        },
                    )
                }
            },
            (RegisterAddress::Code { .. }, Event::Texts(Err(e))) => {
                failure(500, "Failed to generate activation code", Some(e.message))
            },
            (RegisterAddress::SyncMeta { email, manager, conflict }, Event::Done(_)) => Next::Do(
                Self::create_manager_entry(email, manager),
                RegisterAddress::SyncWhitelist { conflict },
            ),
            (RegisterAddress::SyncWhitelist { conflict }, Event::Entry(_)) => {
                Self::reject_conflict(conflict)
            },
            _ => Next::Mismatch,
        }
    }
}

// Renaming an address

/// An address is renamed, on its domain, by a key with the system scope.
pub open spec fn rename_agent_address_plan(
    key: ApiKeyRecord<Seq<char>>,
    system_id: Seq<char>,
    req: RenameAddressRequest<Seq<char>>,
) -> Plan {
    scoped(ScopeRule::System, rename_requested(key, system_id, req))
}

/// The form in which a renamed address is compared and stored.
pub open spec fn canonical(address: Seq<char>) -> Seq<char> {
    lowercase(trimmed(address))
}

/// An agent admin renames its own address only.
pub open spec fn rename_requested(
    key: ApiKeyRecord<Seq<char>>,
    system_id: Seq<char>,
    req: RenameAddressRequest<Seq<char>>,
) -> Plan {
    if key.scopes.agent_admin && key.email_address != req.old_email {
        fail(
            403,
            "not_owner"@,
            Some("agent_admin keys may only rename their own address"@),
        )
    } else {
        rename_checked(system_id, canonical(req.old_email), canonical(req.new_email))
    }
}

/// The domain stays, and the new local part has the shape of those that can be
/// registered under the system.
pub open spec fn rename_checked(system_id: Seq<char>, old: Seq<char>, new: Seq<char>) -> Plan {
    if old == new {
        fail(400, "same_address"@, None)
    } else if bare_domain(old).len() == 0 || bare_domain(new) != bare_domain(old) {
        fail(
            400,
            "cross_domain_rename"@,
            Some("rename must stay on the same bare domain"@),
        )
    } else if local_part_fault(shared_system(system_id), first_segment(new, '@')) is Some {
        fail(
            400,
            "invalid_email"@,
            Some(
                "new local-part must match the system's address format (shared: one dot; non-shared: none), atext-no-dot only"@,
            ),
        )
    } else {
        Plan::Do(
            Action::LookupDomainAddr { key: new },
            new_address_looked_up(system_id, old, new),
        )
    }
}

/// The new address must not be taken, neither by a record nor by metadata. A
/// lookup that fails does not stand in the way.
pub open spec fn new_address_looked_up(
    system_id: Seq<char>,
    old: Seq<char>,
    new: Seq<char>,
) -> spec_fn(EventView) -> Plan {
    |event: EventView|
        match event {
            EventView::MaybeDomain(Ok(Some(_))) => address_taken(new),
            EventView::MaybeDomain(_) => Plan::Do(
                Action::GetMetaRow { email: new },
                new_meta_looked_up(system_id, old, new),
            ),
            _ => Plan::Mismatch,
        }
}

pub open spec fn new_meta_looked_up(
    system_id: Seq<char>,
    old: Seq<char>,
    new: Seq<char>,
) -> spec_fn(EventView) -> Plan {
    |event: EventView|
        match event {
            EventView::MaybeMeta(Ok(Some(_))) => address_taken(new),
            EventView::MaybeMeta(_) => Plan::Do(
                Action::GetDomainByName { name: old },
                old_address_looked_up(system_id, old, new),
            ),
            _ => Plan::Mismatch,
        }
}

/// The reply where the new address is taken.
pub open spec fn address_taken(new: Seq<char>) -> Plan {
    fail(
        409,
        "already_exists"@,
        Some("'"@ + new + "' is already a registered address"@),
    )
}

/// The old address must be there and belong to the system.
pub open spec fn old_address_looked_up(
    system_id: Seq<char>,
    old: Seq<char>,
    new: Seq<char>,
) -> spec_fn(EventView) -> Plan {
    |event: EventView|
        match event {
            EventView::MaybeDomain(Ok(Some(record))) => if record.system_id != system_id {
                fail(403, "forbidden"@, Some("Address does not belong to this system"@))
            } else {
                Plan::Do(
                    Action::RenameAddressRefs { from: old, to: new },
                    address_renamed(system_id, old, new),
                )
            },
            EventView::MaybeDomain(Ok(None)) => fail(
                404,
                "agent_not_found"@,
                Some("No registered address '"@ + old + "'"@),
            ),
            EventView::MaybeDomain(Err(e)) => storage_failed(e),
            _ => Plan::Mismatch,
        }
}

pub open spec fn address_renamed(
    system_id: Seq<char>,
    old: Seq<char>,
    new: Seq<char>,
) -> spec_fn(EventView) -> Plan {
    |event: EventView|
        match event {
            EventView::Done(Ok(_)) => succeed(200, renamed_body(system_id, old, new)),
            EventView::Done(Err(e)) => storage_failed(e),
            _ => Plan::Mismatch,
        }
}

/// What a rename is answered: both addresses, and that the key stays.
pub open spec fn renamed_body(system_id: Seq<char>, old: Seq<char>, new: Seq<char>) -> BodyView {
    BodyView::Value(
        JsonTree::Object(
            Map::empty().insert("status"@, JsonTree::Text("renamed"@)).insert(
                "old"@,
                JsonTree::Text(old),
            ).insert("new"@, JsonTree::Text(new)).insert(
                "system_id"@,
                JsonTree::Text(system_id),
            ).insert("key_preserved"@, JsonTree::Bool(true)),
        ),
    )
}

/// The renaming of an address, under way.
#[derive(Debug, PartialEq)]
pub enum RenameAgentAddress {
    Scope { key: ApiKeyRecord, system_id: String, req: RenameAddressRequest },
    NewRecord { system_id: String, from: String, to: String },
    NewMeta { system_id: String, from: String, to: String },
    OldRecord { system_id: String, from: String, to: String },
    Rename { system_id: String, from: String, to: String },
}

/// `POST /api/v1/admin/systems/:sid/addresses/rename`: renames an agent address.
pub fn rename_agent_address(
    api_key: ApiKeyRecord,
    tid: String,
    req: RenameAddressRequest,
) -> (next: Next<RenameAgentAddress>)
    ensures
        next.plan() == rename_agent_address_plan(api_key.deep_view(), tid@, req.deep_view()),
{
    Next::Do(
        Action::RequireScope { rule: ScopeRule::System },
        RenameAgentAddress::Scope { key: api_key, system_id: tid, req },
    )
}

/// Begins to rename an address, where both addresses are trimmed and in lower
/// case.
pub fn begin_rename(system_id: String, from: String, to: String) -> (next: Next<RenameAgentAddress>)
    ensures
        next.plan() == rename_checked(system_id@, from@, to@),
{
    if same(&from, &to) {
        failure(400, "same_address", None)
    } else if behind_last(&from, '@').is_empty() || !same(
        behind_last(&to, '@'),
        behind_last(&from, '@'),
    ) {
        failure(
            400,
            "cross_domain_rename",
            Some("rename must stay on the same bare domain".to_string()),
        )
    } else if check_local_part(
        is_shared_system(&system_id),
        before_first(&to, '@'),
    ).is_some() {
        failure(
            400,
            "invalid_email",
            Some(
                "new local-part must match the system's address format (shared: one dot; non-shared: none), atext-no-dot only".to_string(),
            ),
        )
    } else {
        Next::Do(
            Action::LookupDomainAddr { key: to.clone() },
            RenameAgentAddress::NewRecord { system_id, from, to },
        )
    }
}

impl RenameAgentAddress {
    fn reject_taken(to: &str) -> (next: Next<RenameAgentAddress>)
        ensures
            next.plan() == address_taken(to@),
    {
        let mut detail = "'".to_string();
        detail.append(to);
        detail.append("' is already a registered address");
        failure(409, "already_exists", Some(detail))
    }

    fn confirm(system_id: String, from: String, to: String) -> (next: Next<RenameAgentAddress>)
        ensures
            next.plan() == succeed(200, renamed_body(system_id@, from@, to@)),
    {
        let mut object = new_object();
        set_field(&mut object, "status".to_string(), text_value("renamed".to_string()));
        set_field(&mut object, "old".to_string(), text_value(from));
        set_field(&mut object, "new".to_string(), text_value(to));
        set_field(&mut object, "system_id".to_string(), text_value(system_id));
        set_field(&mut object, "key_preserved".to_string(), bool_value(true));
        success(200, Body::Value(object_value(object)))
    }
}

impl Waiting for RenameAgentAddress {
    open spec fn rest(self) -> spec_fn(EventView) -> Plan {
        match self {
            RenameAgentAddress::Scope { key, system_id, req } => granted(
                rename_requested(key.deep_view(), system_id@, req.deep_view()),
            ),
            RenameAgentAddress::NewRecord { system_id, from, to } => new_address_looked_up(
                system_id@,
                from@,
                to@,
            ),
            RenameAgentAddress::NewMeta { system_id, from, to } => new_meta_looked_up(
                system_id@,
                from@,
                to@,
            ),
            RenameAgentAddress::OldRecord { system_id, from, to } => old_address_looked_up(
                system_id@,
                from@,
                to@,
            ),
            RenameAgentAddress::Rename { system_id, from, to } => address_renamed(
                system_id@,
                from@,
                to@,
            ),
        }
    }
}

impl Machine for RenameAgentAddress {
    fn resume(self, event: Event) -> (next: Next<RenameAgentAddress>) {
        match (self, event) {
            (RenameAgentAddress::Scope { .. }, Event::Access(Err(refusal))) => Next::Reply(
                Reply::Failed(refusal),
            ),
            (RenameAgentAddress::Scope { key, system_id, req }, Event::Access(Ok(()))) => {
                if key.scopes.agent_admin && !same(&key.email_address, &req.old_email) {
                    failure(
                        403,
                        "not_owner",
                        Some("agent_admin keys may only rename their own address".to_string()),
                    )
                } else {
                    let from = to_lowercase(trim(&req.old_email));
                    let to = to_lowercase(trim(&req.new_email));
                    begin_rename(system_id, from, to)
                }
            },
            (
                RenameAgentAddress::NewRecord { to, .. },
                Event::MaybeDomain(Ok(Some(_))),
            ) => Self::reject_taken(&to),
            (
                RenameAgentAddress::NewRecord { system_id, from, to },
                Event::MaybeDomain(_),
            ) => Next::Do(
                Action::GetMetaRow { email: to.clone() },
                RenameAgentAddress::NewMeta { system_id, from, to },
            ),
            (RenameAgentAddress::NewMeta { to, .. }, Event::MaybeMeta(Ok(Some(_)))) => {
                Self::reject_taken(&to)
            },
            (RenameAgentAddress::NewMeta { system_id, from, to }, Event::MaybeMeta(_)) => Next::Do(
                Action::GetDomainByName { name: from.clone() },
                RenameAgentAddress::OldRecord { system_id, from, to },
            ),
            (
                RenameAgentAddress::OldRecord { system_id, from, to },
                Event::MaybeDomain(Ok(Some(record))),
            ) => {
                if !same(&record.system_id, &system_id) {
                    failure(
                        403,
                        "forbidden",
                        Some("Address does not belong to this system".to_string()),
                    )
                } else {
                    Next::Do(
                        Action::RenameAddressRefs { from: from.clone(), to: to.clone() },
                        RenameAgentAddress::Rename { system_id, from, to },
                    )
                }
            },
            (RenameAgentAddress::OldRecord { from, .. }, Event::MaybeDomain(Ok(None))) => {
                let mut detail = "No registered address '".to_string();
                detail.append(&from);
                detail.append("'");
                failure(404, "agent_not_found", Some(detail))
            },
            (RenameAgentAddress::OldRecord { .. }, Event::MaybeDomain(Err(e))) => {
                storage_failure(e)
            },
            (RenameAgentAddress::Rename { system_id, from, to }, Event::Done(Ok(()))) => {
                Self::confirm(system_id, from, to)
            },
            (RenameAgentAddress::Rename { .. }, Event::Done(Err(e))) => storage_failure(e),
            _ => Next::Mismatch,
        }
    }
}

// Agent metadata

/// An agent's metadata is changed by a key with the system or the agent admin
/// scope.
pub open spec fn update_agent_meta_plan(
    key: ApiKeyRecord<Seq<char>>,
    email: Seq<char>,
    req: UpdateAgentMetaRequest<Seq<char>>,
) -> Plan {
    scoped(ScopeRule::SystemOrAgentAdmin, meta_to_update(key, lowercase(email), req))
}

pub open spec fn meta_to_update(
    key: ApiKeyRecord<Seq<char>>,
    email: Seq<char>,
    req: UpdateAgentMetaRequest<Seq<char>>,
) -> Plan {
    Plan::Do(Action::ResolveMeta { email }, meta_resolved(key, email, req))
}

/// The metadata must be there; an agent admin must be the agent's manager.
pub open spec fn meta_resolved(
    key: ApiKeyRecord<Seq<char>>,
    email: Seq<char>,
    req: UpdateAgentMetaRequest<Seq<char>>,
) -> spec_fn(EventView) -> Plan {
    |event: EventView|
        match event {
            EventView::MaybeMeta(Ok(Some(meta))) => if key.scopes.agent_admin
                && meta.manager_address != key.email_address {
                refuse_non_manager(key.email_address, email)
            } else {
                Plan::Do(
                    Action::UpsertMeta {
                        email,
                        system_id: meta.system_id,
                        manager: Some(merged(req, meta).manager_address),
                        signature: Some(merged(req, meta).agent_signature),
                        persona: Some(merged(req, meta).agent_persona),
                    },
                    meta_updated(email, meta.manager_address, merged(req, meta)),
                )
            },
            EventView::MaybeMeta(Ok(None)) => fail(
                404,
                "Agent not found"@,
                Some(
                    "No metadata for agent '"@ + email
                        + "' — register the address first via POST /api/v1/admin/systems/{sid}/addresses"@,
                ),
            ),
            EventView::MaybeMeta(Err(e)) => storage_failed(e),
            _ => Plan::Mismatch,
        }
}

/// What an agent's manager, signature and persona become: what the request
/// leaves out stays.
pub open spec fn merged(
    req: UpdateAgentMetaRequest<Seq<char>>,
    meta: DomainAddrMetaRecord<Seq<char>>,
) -> AgentMeta<Seq<char>> {
    AgentMeta {
        manager_address: match req.manager_address {
            Some(manager) => manager,
            None => meta.manager_address,
        },
        agent_signature: match req.agent_signature {
            Some(signature) => signature,
            None => meta.agent_signature,
        },
        agent_persona: match req.agent_persona {
            Some(persona) => persona,
            None => meta.agent_persona,
        },
    }
}

/// The whitelist follows the manager: the former one leaves, the new one
/// enters. Neither step need succeed.
pub open spec fn meta_updated(
    email: Seq<char>,
    former: Seq<char>,
    meta: AgentMeta<Seq<char>>,
) -> spec_fn(EventView) -> Plan {
    |event: EventView|
        match event {
            EventView::Done(Ok(_)) => if meta.manager_address == former {
                succeed(200, meta_body(email, meta))
            } else if former.len() > 0 {
                Plan::Do(
                    Action::DeleteWhitelistEntryByValue { domain_addr: email, value: former },
                    former_manager_removed(email, meta),
                )
            } else {
                manager_granted(email, meta)
            },
            EventView::Done(Err(e)) => storage_failed(e),
            _ => Plan::Mismatch,
        }
}

pub open spec fn former_manager_removed(
    email: Seq<char>,
    meta: AgentMeta<Seq<char>>,
) -> spec_fn(EventView) -> Plan {
    |event: EventView|
        match event {
            EventView::Done(_) => manager_granted(email, meta),
            _ => Plan::Mismatch,
        }
}

pub open spec fn manager_granted(email: Seq<char>, meta: AgentMeta<Seq<char>>) -> Plan {
    if meta.manager_address.len() > 0 {
        Plan::Do(
            Action::CreateWhitelistEntry {
                domain_addr: email,
                direction: "all"@,
                value: meta.manager_address,
                description: Some("Agent ↔ Manager (auto-synced)"@),
            },
            new_manager_entered(email, meta),
        )
    } else {
        succeed(200, meta_body(email, meta))
    }
}

pub open spec fn new_manager_entered(
    email: Seq<char>,
    meta: AgentMeta<Seq<char>>,
) -> spec_fn(EventView) -> Plan {
    |event: EventView|
        match event {
            EventView::Entry(_) => succeed(200, meta_body(email, meta)),
            _ => Plan::Mismatch,
        }
}

/// The metadata as the reply shows it.
pub open spec fn meta_body(email: Seq<char>, meta: AgentMeta<Seq<char>>) -> BodyView {
    BodyView::Value(
        JsonTree::Object(
            Map::empty().insert("email"@, JsonTree::Text(email)).insert(
                "manager_address"@,
                JsonTree::Text(meta.manager_address),
            ).insert("agent_signature"@, JsonTree::Text(meta.agent_signature)).insert(
                "agent_persona"@,
                JsonTree::Text(meta.agent_persona),
            ),
        ),
    )
}

/// The part of an agent's metadata that can be changed.
#[derive(Debug, PartialEq)]
pub struct AgentMeta<S = String> {
    pub manager_address: S,
    pub agent_signature: S,
    pub agent_persona: S,
}

impl DeepView for AgentMeta {
    type V = AgentMeta<Seq<char>>;

    open spec fn deep_view(&self) -> AgentMeta<Seq<char>> {
        AgentMeta {
            manager_address: self.manager_address@,
            agent_signature: self.agent_signature@,
            agent_persona: self.agent_persona@,
        }
    }
}

/// The change of an agent's metadata, under way.
#[derive(Debug, PartialEq)]
pub enum UpdateAgentMeta {
    Scope { key: ApiKeyRecord, email: String, req: UpdateAgentMetaRequest },
    Resolve { key: ApiKeyRecord, email: String, req: UpdateAgentMetaRequest },
    Upsert { email: String, former: String, meta: AgentMeta },
    Remove { email: String, meta: AgentMeta },
    Enter { email: String, meta: AgentMeta },
}

/// `PUT /api/v1/admin/agent-meta/:email`: changes an agent's metadata.
pub fn update_agent_meta(
    api_key: ApiKeyRecord,
    email: String,
    req: UpdateAgentMetaRequest,
) -> (next: Next<UpdateAgentMeta>)
    ensures
        next.plan() == update_agent_meta_plan(api_key.deep_view(), email@, req.deep_view()),
{
    change_agent_meta(api_key, to_lowercase(&email), req)
}

/// Changes the metadata of an agent whose address is in lower case.
pub fn change_agent_meta(
    api_key: ApiKeyRecord,
    email: String,
    req: UpdateAgentMetaRequest,
) -> (next: Next<UpdateAgentMeta>)
    ensures
        next.plan() == scoped(
            ScopeRule::SystemOrAgentAdmin,
            meta_to_update(api_key.deep_view(), email@, req.deep_view()),
        ),
{
    Next::Do(
        Action::RequireScope { rule: ScopeRule::SystemOrAgentAdmin },
        UpdateAgentMeta::Scope { key: api_key, email, req },
    )
}

impl UpdateAgentMeta {
    fn merge(req: UpdateAgentMetaRequest, existing: &DomainAddrMetaRecord) -> (meta: AgentMeta)
        ensures
            meta.deep_view() == merged(req.deep_view(), existing.deep_view()),
    {
        AgentMeta {
            manager_address: match req.manager_address {
                Some(manager) => manager,
                None => existing.manager_address.clone(),
            },
            agent_signature: match req.agent_signature {
                Some(signature) => signature,
                None => existing.agent_signature.clone(),
            },
            agent_persona: match req.agent_persona {
                Some(persona) => persona,
                None => existing.agent_persona.clone(),
            },
        }
    }

    fn confirm(email: String, meta: AgentMeta) -> (next: Next<UpdateAgentMeta>)
        ensures
            next.plan() == succeed(200, meta_body(email@, meta.deep_view())),
    {
        let mut object = new_object();
        set_field(&mut object, "email".to_string(), text_value(email));
        set_field(&mut object, "manager_address".to_string(), text_value(meta.manager_address));
        set_field(&mut object, "agent_signature".to_string(), text_value(meta.agent_signature));
        set_field(&mut object, "agent_persona".to_string(), text_value(meta.agent_persona));
        success(200, Body::Value(object_value(object)))
    }

    fn enter_manager(email: String, meta: AgentMeta) -> (next: Next<UpdateAgentMeta>)
        ensures
            next.plan() == manager_granted(email@, meta.deep_view()),
    {
        if !meta.manager_address.as_str().is_empty() {
            Next::Do(
                Action::CreateWhitelistEntry {
                    domain_addr: email.clone(),
                    direction: "all".to_string(),
                    value: meta.manager_address.clone(),
                    description: Some("Agent ↔ Manager (auto-synced)".to_string()),
                },
                UpdateAgentMeta::Enter { email, meta },
            )
        } else {
            Self::confirm(email, meta)
        }
    }
}

impl Waiting for UpdateAgentMeta {
    open spec fn rest(self) -> spec_fn(EventView) -> Plan {
        match self {
            UpdateAgentMeta::Scope { key, email, req } => granted(
                meta_to_update(key.deep_view(), email@, req.deep_view()),
            ),
            UpdateAgentMeta::Resolve { key, email, req } => meta_resolved(
                key.deep_view(),
                email@,
                req.deep_view(),
            ),
            UpdateAgentMeta::Upsert { email, former, meta } => meta_updated(
                email@,
                former@,
                meta.deep_view(),
            ),
            UpdateAgentMeta::Remove { email, meta } => former_manager_removed(
                email@,
                meta.deep_view(),
            ),
            UpdateAgentMeta::Enter { email, meta } => new_manager_entered(
                email@,
                meta.deep_view(),
            ),
        }
    }
}

impl Machine for UpdateAgentMeta {
    fn resume(self, event: Event) -> (next: Next<UpdateAgentMeta>) {
        match (self, event) {
            (UpdateAgentMeta::Scope { .. }, Event::Access(Err(refusal))) => Next::Reply(
                Reply::Failed(refusal),
            ),
            (UpdateAgentMeta::Scope { key, email, req }, Event::Access(Ok(()))) => Next::Do(
                Action::ResolveMeta { email: email.clone() },
                UpdateAgentMeta::Resolve { key, email, req },
            ),
            (
                UpdateAgentMeta::Resolve { key, email, req },
                Event::MaybeMeta(Ok(Some(existing))),
            ) => {
                if key.scopes.agent_admin && !same(&existing.manager_address, &key.email_address) {
                    reject_non_manager(&key.email_address, &email)
                } else {
                    let meta = Self::merge(req, &existing);
                    Next::Do(
                        Action::UpsertMeta {
                            email: email.clone(),
                            system_id: existing.system_id,
                            manager: Some(meta.manager_address.clone()),
                            signature: Some(meta.agent_signature.clone()),
                            persona: Some(meta.agent_persona.clone()),
                        },
                        UpdateAgentMeta::Upsert {
                            email,
                            former: existing.manager_address,
                            meta,
                        },
                    )
                }
            },
            (UpdateAgentMeta::Resolve { email, .. }, Event::MaybeMeta(Ok(None))) => {
                let mut detail = "No metadata for agent '".to_string();
                detail.append(&email);
                detail.append(
                    "' — register the address first via POST /api/v1/admin/systems/{sid}/addresses",
                );
                failure(404, "Agent not found", Some(detail))
            },
            (UpdateAgentMeta::Resolve { .. }, Event::MaybeMeta(Err(e))) => storage_failure(e),
            (UpdateAgentMeta::Upsert { email, former, meta }, Event::Done(Ok(()))) => {
                if same(&meta.manager_address, &former) {
                    Self::confirm(email, meta)
                } else if !former.as_str().is_empty() {
                    Next::Do(
                        Action::DeleteWhitelistEntryByValue {
                            domain_addr: email.clone(),
                            value: former,
                        },
                        UpdateAgentMeta::Remove { email, meta },
                    )
                } else {
                    Self::enter_manager(email, meta)
                }
            },
            (UpdateAgentMeta::Upsert { .. }, Event::Done(Err(e))) => storage_failure(e),
            (UpdateAgentMeta::Remove { email, meta }, Event::Done(_)) => {
                Self::enter_manager(email, meta)
            },
            (UpdateAgentMeta::Enter { email, meta }, Event::Entry(_)) => {
                Self::confirm(email, meta)
            },
            _ => Next::Mismatch,
        }
    }
}

} // verus!
