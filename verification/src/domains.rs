//! Bare domains and domain records of a system.

use vstd::prelude::*;

use crate::json::{bool_value, new_object, object_value, set_field, JsonTree};
use crate::protocol::{
    fail, failure, gate, granted, scoped, storage_failed, storage_failure, succeed, success,
    Action, Event, EventView, Machine, Next, Plan, ScopeRule, Waiting,
};
use crate::text::{behind_last, has_char, last_segment, same};
use crate::types::{
    bare_response, ApiKeyRecord, Body, BodyView, CreateSystemDomainRequest, DomainAddrMetaRecord,
    Reply, SystemDomainRecord, SystemDomainResponse, UpdateSystemDomainRequest,
};

verus! {

// Agent metadata on domain responses

/// A response with the fields of an agent's metadata filled in.
pub open spec fn with_meta(
    response: SystemDomainResponse<Seq<char>>,
    meta: Option<DomainAddrMetaRecord<Seq<char>>>,
) -> SystemDomainResponse<Seq<char>> {
    match meta {
        Some(m) => SystemDomainResponse {
            manager_address: m.manager_address,
            agent_signature: m.agent_signature,
            agent_persona: m.agent_persona,
            ..response
        },
        None => response,
    }
}

/// Fills the agent metadata fields of a domain response. A bare domain has no
/// metadata: its fields stay as they are.
pub fn apply_domain_meta(resp: &mut SystemDomainResponse, meta: Option<&DomainAddrMetaRecord>)
    ensures
        final(resp).deep_view() == with_meta(old(resp).deep_view(), meta.deep_view()),
{
    if let Some(m) = meta {
        resp.manager_address = m.manager_address.clone();
        resp.agent_signature = m.agent_signature.clone();
        resp.agent_persona = m.agent_persona.clone();
    }
}

/// The metadata of an address in a list: the last row where there are several.
pub open spec fn meta_of(
    metas: Seq<DomainAddrMetaRecord<Seq<char>>>,
    email: Seq<char>,
) -> Option<DomainAddrMetaRecord<Seq<char>>>
    decreases metas.len(),
{
    if metas.len() == 0 {
        None
    } else if metas.last().email_address == email {
        Some(metas.last())
    } else {
        meta_of(metas.drop_last(), email)
    }
}

/// The response for a record: an address shows the metadata of its agent.
pub open spec fn enriched(
    record: SystemDomainRecord<Seq<char>>,
    metas: Seq<DomainAddrMetaRecord<Seq<char>>>,
) -> SystemDomainResponse<Seq<char>> {
    if record.domain.contains('@') {
        with_meta(bare_response(record), meta_of(metas, record.domain))
    } else {
        bare_response(record)
    }
}

fn find_meta<'a>(metas: &'a Vec<DomainAddrMetaRecord>, email: &str) -> (found: Option<
    &'a DomainAddrMetaRecord,
>)
    ensures
        found.deep_view() == meta_of(metas.deep_view(), email@),
{
    let mut i: usize = metas.len();
    let ghost all = metas.deep_view();
    assert(all.take(i as int) == all);
    while i > 0
        invariant
            i <= metas@.len(),
            all == metas.deep_view(),
            meta_of(all, email@) == meta_of(all.take(i as int), email@),
        decreases i,
    {
        assert(all.take(i as int).drop_last() == all.take(i - 1));
        if same(&metas[i - 1].email_address, email) {
            return Some(&metas[i - 1]);
        }
        i -= 1;
    }
    None
}

/// The responses for the records of a system.
pub fn enrich(records: Vec<SystemDomainRecord>, metas: &Vec<DomainAddrMetaRecord>) -> (responses:
    Vec<SystemDomainResponse>)
    ensures
        responses.deep_view() == records.deep_view().map_values(
            |r: SystemDomainRecord<Seq<char>>| enriched(r, metas.deep_view()),
        ),
{
    let mut responses: Vec<SystemDomainResponse> = Vec::new();
    for record in iter: records
        invariant
            iter.seq() == records@,
            responses@.len() == iter.index(),
            forall|i: int|
                0 <= i < responses@.len() ==> (#[trigger] responses@[i]).deep_view() == enriched(
                    records@[i].deep_view(),
                    metas.deep_view(),
                ),
    {
        let is_address = has_char(&record.domain, '@');
        let domain = record.domain.clone();
        let mut response = SystemDomainResponse::from(record);
        if is_address {
            let meta = find_meta(metas, &domain);
            apply_domain_meta(&mut response, meta);
        }
        responses.push(response);
    }
    responses
}

// Creating a bare domain

/// A bare domain is created by a key with the system scope, under a system that
/// exists and has room for it. Addresses are not created here.
pub open spec fn create_system_domain_plan(
    key: ApiKeyRecord<Seq<char>>,
    system_id: Seq<char>,
    req: CreateSystemDomainRequest<Seq<char>>,
) -> Plan {
    scoped(ScopeRule::System, domain_requested(key, system_id, req))
}

/// A key without the system admin scope must belong to the domain.
pub open spec fn domain_requested(
    key: ApiKeyRecord<Seq<char>>,
    system_id: Seq<char>,
    req: CreateSystemDomainRequest<Seq<char>>,
) -> Plan {
    if req.domain.contains('@') {
        fail(400, "invalid_domain"@, Some(ADDRESS_ENDPOINT@))
    } else if key.scopes.system_admin {
        domain_allowed(system_id, req)
    } else {
        gate(Action::RequireDomainMatch { domain: req.domain }, domain_allowed(system_id, req))
    }
}

/// Where addresses are registered.
pub const ADDRESS_ENDPOINT: &'static str =
    "Use POST /api/v1/admin/systems/{sid}/addresses to register agent email addresses";

/// The system must exist.
pub open spec fn domain_allowed(
    system_id: Seq<char>,
    req: CreateSystemDomainRequest<Seq<char>>,
) -> Plan {
    Plan::Do(Action::ResolveSystem { system_id }, domain_system_resolved(system_id, req))
}

/// The system must have room for the domain.
pub open spec fn domain_system_resolved(
    system_id: Seq<char>,
    req: CreateSystemDomainRequest<Seq<char>>,
) -> spec_fn(EventView) -> Plan {
    |event: EventView|
        match event {
            EventView::Found(Ok(true)) => Plan::Do(
                Action::AdmitDomain { system_id },
                domain_admitted(system_id, req),
            ),
            EventView::Found(Ok(false)) => fail(404, "System not found"@, None),
            EventView::Found(Err(e)) => storage_failed(e),
            _ => Plan::Mismatch,
        }
}

/// The domain is created as it was requested.
pub open spec fn domain_admitted(
    system_id: Seq<char>,
    req: CreateSystemDomainRequest<Seq<char>>,
) -> spec_fn(EventView) -> Plan {
    |event: EventView|
        match event {
            EventView::Admission(Ok(_)) => Plan::Do(
                Action::CreateDomain {
                    id: req.id,
                    system_id,
                    domain: req.domain,
                    webhook_url: req.webhook_url,
                    webhook_secret: req.webhook_secret,
                    manager_address: req.manager_address,
                },
                domain_created(),
            ),
            EventView::Admission(Err(m)) => fail(403, "quota_exceeded"@, Some(m)),
            _ => Plan::Mismatch,
        }
}

/// The reply shows the new record.
pub open spec fn domain_created() -> spec_fn(EventView) -> Plan {
    |event: EventView|
        match event {
            EventView::Domain(Ok(record)) => succeed(201, BodyView::Domain(bare_response(record))),
            EventView::Domain(Err(e)) => storage_failed(e),
            _ => Plan::Mismatch,
        }
}

/// The creation of a bare domain, under way.
#[derive(Debug, PartialEq)]
pub enum CreateSystemDomain {
    Scope { key: ApiKeyRecord, system_id: String, req: CreateSystemDomainRequest },
    DomainMatch { system_id: String, req: CreateSystemDomainRequest },
    System { system_id: String, req: CreateSystemDomainRequest },
    Admission { system_id: String, req: CreateSystemDomainRequest },
    Create,
}

/// `POST /api/v1/admin/systems/:sid/domains`: creates a bare domain.
pub fn create_system_domain(
    api_key: ApiKeyRecord,
    tid: String,
    req: CreateSystemDomainRequest,
) -> (next: Next<CreateSystemDomain>)
    ensures
        next.plan() == create_system_domain_plan(api_key.deep_view(), tid@, req.deep_view()),
{
    Next::Do(
        Action::RequireScope { rule: ScopeRule::System },
        CreateSystemDomain::Scope { key: api_key, system_id: tid, req },
    )
}

impl CreateSystemDomain {
    fn resolve_system(system_id: String, req: CreateSystemDomainRequest) -> (next: Next<
        CreateSystemDomain,
    >)
        ensures
            next.plan() == domain_allowed(system_id@, req.deep_view()),
    {
        Next::Do(
            Action::ResolveSystem { system_id: system_id.clone() },
            CreateSystemDomain::System { system_id, req },
        )
    }
}

impl Waiting for CreateSystemDomain {
    open spec fn rest(self) -> spec_fn(EventView) -> Plan {
        match self {
            CreateSystemDomain::Scope { key, system_id, req } => granted(
                domain_requested(key.deep_view(), system_id@, req.deep_view()),
            ),
            CreateSystemDomain::DomainMatch { system_id, req } => granted(
                domain_allowed(system_id@, req.deep_view()),
            ),
            CreateSystemDomain::System { system_id, req } => domain_system_resolved(
                system_id@,
                req.deep_view(),
            ),
            CreateSystemDomain::Admission { system_id, req } => domain_admitted(
                system_id@,
                req.deep_view(),
            ),
            CreateSystemDomain::Create => domain_created(),
        }
    }

}

impl Machine for CreateSystemDomain {
    fn resume(self, event: Event) -> (next: Next<CreateSystemDomain>) {
        match (self, event) {
            (CreateSystemDomain::Scope { .. }, Event::Access(Err(refusal))) => Next::Reply(
                Reply::Failed(refusal),
            ),
            (CreateSystemDomain::Scope { key, system_id, req }, Event::Access(Ok(()))) => {
                if has_char(&req.domain, '@') {
                    failure(400, "invalid_domain", Some(ADDRESS_ENDPOINT.to_string()))
                } else if key.scopes.system_admin {
                    Self::resolve_system(system_id, req)
                } else {
                    Next::Do(
                        Action::RequireDomainMatch { domain: req.domain.clone() },
                        CreateSystemDomain::DomainMatch { system_id, req },
                    )
                }
            },
            (CreateSystemDomain::DomainMatch { .. }, Event::Access(Err(refusal))) => Next::Reply(
                Reply::Failed(refusal),
            ),
            (CreateSystemDomain::DomainMatch { system_id, req }, Event::Access(Ok(()))) => {
                Self::resolve_system(system_id, req)
            },
            (CreateSystemDomain::System { system_id, req }, Event::Found(Ok(true))) => Next::Do(
                Action::AdmitDomain { system_id: system_id.clone() },
                CreateSystemDomain::Admission { system_id, req },
            ),
            (CreateSystemDomain::System { .. }, Event::Found(Ok(false))) => {
                failure(404, "System not found", None)
            },
            (CreateSystemDomain::System { .. }, Event::Found(Err(e))) => storage_failure(e),
            (CreateSystemDomain::Admission { system_id, req }, Event::Admission(Ok(()))) => {
                Next::Do(
                    Action::CreateDomain {
                        id: req.id,
                        system_id,
                        domain: req.domain,
                        webhook_url: req.webhook_url,
                        webhook_secret: req.webhook_secret,
                        manager_address: req.manager_address,
                    },
                    CreateSystemDomain::Create,
                )
            },
            (CreateSystemDomain::Admission { .. }, Event::Admission(Err(m))) => {
                failure(403, "quota_exceeded", Some(m))
            },
            (CreateSystemDomain::Create, Event::Domain(Ok(record))) => {
                success(201, Body::Domain(SystemDomainResponse::from(record)))
            },
            (CreateSystemDomain::Create, Event::Domain(Err(e))) => storage_failure(e),
            _ => Next::Mismatch,
        }
    }
}

// Listing the domains of a system

/// A platform admin lists the domains of any system. Any other key needs the
/// system scope and lists those of its own system.
pub open spec fn list_system_domains_plan(
    key: ApiKeyRecord<Seq<char>>,
    system_id: Seq<char>,
) -> Plan {
    if key.scopes.platform_admin {
        domains_listing(system_id)
    } else {
        scoped(ScopeRule::System, own_domains_listing(key, system_id))
    }
}

/// The system must be the key's own.
pub open spec fn own_domains_listing(key: ApiKeyRecord<Seq<char>>, system_id: Seq<char>) -> Plan {
    if key.system_id == system_id {
        domains_listing(system_id)
    } else {
        fail(
            403,
            "Cross-system access denied"@,
            Some(cross_system_detail(key.system_id, system_id)),
        )
    }
}

/// Why a listing of another system's domains is refused.
pub open spec fn cross_system_detail(own: Seq<char>, other: Seq<char>) -> Seq<char> {
    "Key system '"@ + own + "' cannot list domains of system '"@ + other + "'"@
}

/// The domain records are read, then the metadata of the system's addresses.
pub open spec fn domains_listing(system_id: Seq<char>) -> Plan {
    Plan::Do(Action::ListDomains { system_id }, domains_listed(system_id))
}

pub open spec fn domains_listed(system_id: Seq<char>) -> spec_fn(EventView) -> Plan {
    |event: EventView|
        match event {
            EventView::Domains(Ok(records)) => Plan::Do(
                Action::ListMetas { system_id },
                domain_metas_listed(records),
            ),
            EventView::Domains(Err(e)) => storage_failed(e),
            _ => Plan::Mismatch,
        }
}

/// Where the metadata cannot be read, the records are shown without it.
pub open spec fn domain_metas_listed(
    records: Seq<SystemDomainRecord<Seq<char>>>,
) -> spec_fn(EventView) -> Plan {
    |event: EventView|
        match event {
            EventView::Metas(Ok(metas)) => succeed(200, enriched_body(records, metas)),
            EventView::Metas(Err(_)) => succeed(200, enriched_body(records, Seq::empty())),
            _ => Plan::Mismatch,
        }
}

/// The body that shows a list of records.
pub open spec fn enriched_body(
    records: Seq<SystemDomainRecord<Seq<char>>>,
    metas: Seq<DomainAddrMetaRecord<Seq<char>>>,
) -> BodyView {
    BodyView::Domains(records.map_values(|r: SystemDomainRecord<Seq<char>>| enriched(r, metas)))
}

/// A listing of domains, under way.
#[derive(Debug, PartialEq)]
pub enum ListSystemDomains {
    Scope { key: ApiKeyRecord, system_id: String },
    Domains { system_id: String },
    Metas { records: Vec<SystemDomainRecord> },
}

/// `GET /api/v1/admin/systems/:sid/domains`: lists the domains of a system.
pub fn list_system_domains(api_key: ApiKeyRecord, tid: String) -> (next: Next<ListSystemDomains>)
    ensures
        next.plan() == list_system_domains_plan(api_key.deep_view(), tid@),
{
    if api_key.scopes.platform_admin {
        ListSystemDomains::list(tid)
    } else {
        Next::Do(
            Action::RequireScope { rule: ScopeRule::System },
            ListSystemDomains::Scope { key: api_key, system_id: tid },
        )
    }
}

impl ListSystemDomains {
    fn list(system_id: String) -> (next: Next<ListSystemDomains>)
        ensures
            next.plan() == domains_listing(system_id@),
    {
        Next::Do(
            Action::ListDomains { system_id: system_id.clone() },
            ListSystemDomains::Domains { system_id },
        )
    }
}

impl Waiting for ListSystemDomains {
    open spec fn rest(self) -> spec_fn(EventView) -> Plan {
        match self {
            ListSystemDomains::Scope { key, system_id } => granted(
                own_domains_listing(key.deep_view(), system_id@),
            ),
            ListSystemDomains::Domains { system_id } => domains_listed(system_id@),
            ListSystemDomains::Metas { records } => domain_metas_listed(records.deep_view()),
        }
    }
}

impl Machine for ListSystemDomains {
    fn resume(self, event: Event) -> (next: Next<ListSystemDomains>) {
        match (self, event) {
            (ListSystemDomains::Scope { .. }, Event::Access(Err(refusal))) => Next::Reply(
                Reply::Failed(refusal),
            ),
            (ListSystemDomains::Scope { key, system_id }, Event::Access(Ok(()))) => {
                if same(&key.system_id, &system_id) {
                    Self::list(system_id)
                } else {
                    let mut detail = "Key system '".to_string();
                    detail.append(&key.system_id);
                    detail.append("' cannot list domains of system '");
                    detail.append(&system_id);
                    detail.append("'");
                    failure(403, "Cross-system access denied", Some(detail))
                }
            },
            (ListSystemDomains::Domains { system_id }, Event::Domains(Ok(records))) => Next::Do(
                Action::ListMetas { system_id },
                ListSystemDomains::Metas { records },
            ),
            (ListSystemDomains::Domains { .. }, Event::Domains(Err(e))) => storage_failure(e),
            (ListSystemDomains::Metas { records }, Event::Metas(Ok(metas))) => {
                success(200, Body::Domains(enrich(records, &metas)))
            },
            (ListSystemDomains::Metas { records }, Event::Metas(Err(_))) => {
                let metas: Vec<DomainAddrMetaRecord> = Vec::new();
                assert(metas.deep_view() == Seq::<DomainAddrMetaRecord<Seq<char>>>::empty());
                success(200, Body::Domains(enrich(records, &metas)))
            },
            _ => Next::Mismatch,
        }
    }
}

// Whether a domain is registered

/// A key with the platform or the system scope asks whether any system has a
/// domain. The query must name one.
pub open spec fn check_domain_exists_plan(domain: Option<Seq<char>>) -> Plan {
    scoped(
        ScopeRule::PlatformOrSystem,
        domain_asked(
            match domain {
                Some(d) => d,
                None => Seq::empty(),
            },
        ),
    )
}

pub open spec fn domain_asked(domain: Seq<char>) -> Plan {
    if domain.len() == 0 {
        fail(400, "Missing 'domain' query parameter"@, None)
    } else {
        Plan::Do(Action::LookupDomainAddr { key: domain }, domain_looked_up())
    }
}

pub open spec fn domain_looked_up() -> spec_fn(EventView) -> Plan {
    |event: EventView|
        match event {
            EventView::MaybeDomain(Ok(record)) => succeed(200, exists_body(record is Some)),
            EventView::MaybeDomain(Err(e)) => storage_failed(e),
            _ => Plan::Mismatch,
        }
}

/// The body that says whether a domain exists.
pub open spec fn exists_body(exists: bool) -> BodyView {
    BodyView::Value(JsonTree::Object(Map::empty().insert("exists"@, JsonTree::Bool(exists))))
}

/// A question whether a domain is registered, under way.
#[derive(Debug, PartialEq)]
pub enum CheckDomainExists {
    Scope { domain: String },
    Lookup,
}

/// `GET /api/v1/admin/domains/check?domain=`: whether any system has the domain.
pub fn check_domain_exists(domain: Option<String>) -> (next: Next<CheckDomainExists>)
    ensures
        next.plan() == check_domain_exists_plan(domain.deep_view()),
{
    let domain = match domain {
        Some(d) => d,
        None => String::new(),
    };
    Next::Do(
        Action::RequireScope { rule: ScopeRule::PlatformOrSystem },
        CheckDomainExists::Scope { domain },
    )
}

impl Waiting for CheckDomainExists {
    open spec fn rest(self) -> spec_fn(EventView) -> Plan {
        match self {
            CheckDomainExists::Scope { domain } => granted(domain_asked(domain@)),
            CheckDomainExists::Lookup => domain_looked_up(),
        }
    }
}

impl Machine for CheckDomainExists {
    fn resume(self, event: Event) -> (next: Next<CheckDomainExists>) {
        match (self, event) {
            (CheckDomainExists::Scope { .. }, Event::Access(Err(refusal))) => Next::Reply(
                Reply::Failed(refusal),
            ),
            (CheckDomainExists::Scope { domain }, Event::Access(Ok(()))) => {
                if domain.as_str().is_empty() {
                    failure(400, "Missing 'domain' query parameter", None)
                } else {
                    Next::Do(Action::LookupDomainAddr { key: domain }, CheckDomainExists::Lookup)
                }
            },
            (CheckDomainExists::Lookup, Event::MaybeDomain(Ok(record))) => {
                let mut object = new_object();
                set_field(&mut object, "exists".to_string(), bool_value(record.is_some()));
                success(200, Body::Value(object_value(object)))
            },
            (CheckDomainExists::Lookup, Event::MaybeDomain(Err(e))) => storage_failure(e),
            _ => Next::Mismatch,
        }
    }
}

// Changing a domain record

/// A domain record is changed by a key with the system scope. A key without the
/// system admin scope must belong to the record's bare domain.
pub open spec fn update_system_domain_plan(
    key: ApiKeyRecord<Seq<char>>,
    id: Seq<char>,
    req: UpdateSystemDomainRequest<Seq<char>>,
) -> Plan {
    scoped(
        ScopeRule::System,
        Plan::Do(Action::ResolveDomain { id }, domain_to_update(key, id, req)),
    )
}

pub open spec fn domain_to_update(
    key: ApiKeyRecord<Seq<char>>,
    id: Seq<char>,
    req: UpdateSystemDomainRequest<Seq<char>>,
) -> spec_fn(EventView) -> Plan {
    |event: EventView|
        match event {
            EventView::MaybeDomain(Ok(Some(record))) => owned(
                key,
                record,
                domain_update(id, req),
            ),
            EventView::MaybeDomain(Ok(None)) => fail(404, "System domain not found"@, None),
            EventView::MaybeDomain(Err(e)) => storage_failed(e),
            _ => Plan::Mismatch,
        }
}

/// A plan on a domain record that the key must own: a key without the system
/// admin scope must belong to the record's bare domain.
pub open spec fn owned(
    key: ApiKeyRecord<Seq<char>>,
    record: SystemDomainRecord<Seq<char>>,
    then: Plan,
) -> Plan {
    if key.scopes.system_admin {
        then
    } else {
        gate(Action::RequireDomainMatch { domain: last_segment(record.domain, '@') }, then)
    }
}

pub open spec fn domain_update(
    id: Seq<char>,
    req: UpdateSystemDomainRequest<Seq<char>>,
) -> Plan {
    Plan::Do(
        Action::UpdateDomain {
            id,
            webhook_url: req.webhook_url,
            webhook_secret: req.webhook_secret,
            is_active: req.is_active,
        },
        domain_updated(),
    )
}

/// The reply shows the changed record: an address with its agent's metadata.
pub open spec fn domain_updated() -> spec_fn(EventView) -> Plan {
    |event: EventView|
        match event {
            EventView::MaybeDomain(Ok(Some(record))) => if record.domain.contains('@') {
                Plan::Do(Action::ResolveMeta { email: record.domain }, updated_meta(record))
            } else {
                succeed(200, BodyView::Domain(bare_response(record)))
            },
            EventView::MaybeDomain(Ok(None)) => fail(404, "System domain not found"@, None),
            EventView::MaybeDomain(Err(e)) => storage_failed(e),
            _ => Plan::Mismatch,
        }
}

/// Where there is no metadata, or it cannot be read, its fields stay empty.
pub open spec fn updated_meta(
    record: SystemDomainRecord<Seq<char>>,
) -> spec_fn(EventView) -> Plan {
    |event: EventView|
        match event {
            EventView::MaybeMeta(Ok(meta)) => succeed(
                200,
                BodyView::Domain(with_meta(bare_response(record), meta)),
            ),
            EventView::MaybeMeta(Err(_)) => succeed(200, BodyView::Domain(bare_response(record))),
            _ => Plan::Mismatch,
        }
}

/// The change of a domain record, under way.
#[derive(Debug, PartialEq)]
pub enum UpdateSystemDomain {
    Scope { key: ApiKeyRecord, id: String, req: UpdateSystemDomainRequest },
    Resolve { key: ApiKeyRecord, id: String, req: UpdateSystemDomainRequest },
    DomainMatch { id: String, req: UpdateSystemDomainRequest },
    Update,
    Meta { record: SystemDomainRecord },
}

/// `PUT /api/v1/admin/system-domains/:id`: changes a domain record.
pub fn update_system_domain(
    api_key: ApiKeyRecord,
    id: String,
    req: UpdateSystemDomainRequest,
) -> (next: Next<UpdateSystemDomain>)
    ensures
        next.plan() == update_system_domain_plan(api_key.deep_view(), id@, req.deep_view()),
{
    Next::Do(
        Action::RequireScope { rule: ScopeRule::System },
        UpdateSystemDomain::Scope { key: api_key, id, req },
    )
}

impl UpdateSystemDomain {
    fn update(id: String, req: UpdateSystemDomainRequest) -> (next: Next<UpdateSystemDomain>)
        ensures
            next.plan() == domain_update(id@, req.deep_view()),
    {
        Next::Do(
            Action::UpdateDomain {
                id,
                webhook_url: req.webhook_url,
                webhook_secret: req.webhook_secret,
                is_active: req.is_active,
            },
            UpdateSystemDomain::Update,
        )
    }
}

impl Waiting for UpdateSystemDomain {
    open spec fn rest(self) -> spec_fn(EventView) -> Plan {
        match self {
            UpdateSystemDomain::Scope { key, id, req } => granted(
                Plan::Do(
                    Action::ResolveDomain { id: id@ },
                    domain_to_update(key.deep_view(), id@, req.deep_view()),
                ),
            ),
            UpdateSystemDomain::Resolve { key, id, req } => domain_to_update(
                key.deep_view(),
                id@,
                req.deep_view(),
            ),
            UpdateSystemDomain::DomainMatch { id, req } => granted(
                domain_update(id@, req.deep_view()),
            ),
            UpdateSystemDomain::Update => domain_updated(),
            UpdateSystemDomain::Meta { record } => updated_meta(record.deep_view()),
        }
    }
}

impl Machine for UpdateSystemDomain {
    fn resume(self, event: Event) -> (next: Next<UpdateSystemDomain>) {
        match (self, event) {
            (UpdateSystemDomain::Scope { .. }, Event::Access(Err(refusal))) => Next::Reply(
                Reply::Failed(refusal),
            ),
            (UpdateSystemDomain::Scope { key, id, req }, Event::Access(Ok(()))) => Next::Do(
                Action::ResolveDomain { id: id.clone() },
                UpdateSystemDomain::Resolve { key, id, req },
            ),
            (
                UpdateSystemDomain::Resolve { key, id, req },
                Event::MaybeDomain(Ok(Some(record))),
            ) => {
                if key.scopes.system_admin {
                    Self::update(id, req)
                } else {
                    Next::Do(
                        Action::RequireDomainMatch {
                            domain: behind_last(&record.domain, '@').to_owned(),
                        },
                        UpdateSystemDomain::DomainMatch { id, req },
                    )
                }
            },
            (UpdateSystemDomain::Resolve { .. }, Event::MaybeDomain(Ok(None))) => {
                failure(404, "System domain not found", None)
            },
            (UpdateSystemDomain::Resolve { .. }, Event::MaybeDomain(Err(e))) => storage_failure(e),
            (UpdateSystemDomain::DomainMatch { .. }, Event::Access(Err(refusal))) => Next::Reply(
                Reply::Failed(refusal),
            ),
            (UpdateSystemDomain::DomainMatch { id, req }, Event::Access(Ok(()))) => {
                Self::update(id, req)
            },
            (UpdateSystemDomain::Update, Event::MaybeDomain(Ok(Some(record)))) => {
                if has_char(&record.domain, '@') {
                    Next::Do(
                        Action::ResolveMeta { email: record.domain.clone() },
                        UpdateSystemDomain::Meta { record },
                    )
                } else {
                    success(200, Body::Domain(SystemDomainResponse::from(record)))
                }
            },
            (UpdateSystemDomain::Update, Event::MaybeDomain(Ok(None))) => {
                failure(404, "System domain not found", None)
            },
            (UpdateSystemDomain::Update, Event::MaybeDomain(Err(e))) => storage_failure(e),
            (UpdateSystemDomain::Meta { record }, Event::MaybeMeta(Ok(meta))) => {
                let mut response = SystemDomainResponse::from(record);
                apply_domain_meta(&mut response, meta.as_ref());
                success(200, Body::Domain(response))
            },
            (UpdateSystemDomain::Meta { record }, Event::MaybeMeta(Err(_))) => {
                success(200, Body::Domain(SystemDomainResponse::from(record)))
            },
            _ => Next::Mismatch,
        }
    }
}

// Deleting a domain record

/// A domain record is deleted by a key with the system scope that owns it.
pub open spec fn delete_system_domain_plan(key: ApiKeyRecord<Seq<char>>, id: Seq<char>) -> Plan {
    scoped(
        ScopeRule::System,
        Plan::Do(Action::ResolveDomain { id }, domain_to_delete(key, id)),
    )
}

pub open spec fn domain_to_delete(
    key: ApiKeyRecord<Seq<char>>,
    id: Seq<char>,
) -> spec_fn(EventView) -> Plan {
    |event: EventView|
        match event {
            EventView::MaybeDomain(Ok(Some(record))) => owned(key, record, domain_delete(id)),
            EventView::MaybeDomain(Ok(None)) => fail(404, "System domain not found"@, None),
            EventView::MaybeDomain(Err(e)) => storage_failed(e),
            _ => Plan::Mismatch,
        }
}

pub open spec fn domain_delete(id: Seq<char>) -> Plan {
    Plan::Do(Action::DeleteDomain { id }, domain_deleted())
}

pub open spec fn domain_deleted() -> spec_fn(EventView) -> Plan {
    |event: EventView|
        match event {
            EventView::Done(Ok(_)) => succeed(204, BodyView::Empty),
            EventView::Done(Err(e)) => storage_failed(e),
            _ => Plan::Mismatch,
        }
}

/// The deletion of a domain record, under way.
#[derive(Debug, PartialEq)]
pub enum DeleteSystemDomain {
    Scope { key: ApiKeyRecord, id: String },
    Resolve { key: ApiKeyRecord, id: String },
    DomainMatch { id: String },
    Delete,
}

/// `DELETE /api/v1/admin/system-domains/:id`: deletes a domain record.
pub fn delete_system_domain(api_key: ApiKeyRecord, id: String) -> (next: Next<DeleteSystemDomain>)
    ensures
        next.plan() == delete_system_domain_plan(api_key.deep_view(), id@),
{
    Next::Do(
        Action::RequireScope { rule: ScopeRule::System },
        DeleteSystemDomain::Scope { key: api_key, id },
    )
}

impl Waiting for DeleteSystemDomain {
    open spec fn rest(self) -> spec_fn(EventView) -> Plan {
        match self {
            DeleteSystemDomain::Scope { key, id } => granted(
                Plan::Do(
                    Action::ResolveDomain { id: id@ },
                    domain_to_delete(key.deep_view(), id@),
                ),
            ),
            DeleteSystemDomain::Resolve { key, id } => domain_to_delete(key.deep_view(), id@),
            DeleteSystemDomain::DomainMatch { id } => granted(domain_delete(id@)),
            DeleteSystemDomain::Delete => domain_deleted(),
        }
    }
}

impl Machine for DeleteSystemDomain {
    fn resume(self, event: Event) -> (next: Next<DeleteSystemDomain>) {
        match (self, event) {
            (DeleteSystemDomain::Scope { .. }, Event::Access(Err(refusal))) => Next::Reply(
                Reply::Failed(refusal),
            ),
            (DeleteSystemDomain::Scope { key, id }, Event::Access(Ok(()))) => Next::Do(
                Action::ResolveDomain { id: id.clone() },
                DeleteSystemDomain::Resolve { key, id },
            ),
            (DeleteSystemDomain::Resolve { key, id }, Event::MaybeDomain(Ok(Some(record)))) => {
                if key.scopes.system_admin {
                    Next::Do(Action::DeleteDomain { id }, DeleteSystemDomain::Delete)
                } else {
                    Next::Do(
                        Action::RequireDomainMatch {
                            domain: behind_last(&record.domain, '@').to_owned(),
                        },
                        DeleteSystemDomain::DomainMatch { id },
                    )
                }
            },
            (DeleteSystemDomain::Resolve { .. }, Event::MaybeDomain(Ok(None))) => {
                failure(404, "System domain not found", None)
            },
            (DeleteSystemDomain::Resolve { .. }, Event::MaybeDomain(Err(e))) => storage_failure(e),
            (DeleteSystemDomain::DomainMatch { .. }, Event::Access(Err(refusal))) => Next::Reply(
                Reply::Failed(refusal),
            ),
            (DeleteSystemDomain::DomainMatch { id }, Event::Access(Ok(()))) => Next::Do(
                Action::DeleteDomain { id },
                DeleteSystemDomain::Delete,
            ),
            (DeleteSystemDomain::Delete, Event::Done(Ok(()))) => success(204, Body::Empty),
            (DeleteSystemDomain::Delete, Event::Done(Err(e))) => storage_failure(e),
            _ => Next::Mismatch,
        }
    }
}

} // verus!
