//! Which domains a key sees, and what it sees of them.

use vstd::prelude::*;

use crate::domains::{create_system_domain_plan, enriched, list_system_domains_plan, meta_of};
use crate::plans::only;
use crate::protocol::{Action, ActionView, Plan};
use crate::types::{
    bare_response, ApiKeyRecord, CreateSystemDomainRequest, DomainAddrMetaRecord,
    SystemDomainRecord, SystemDomainResponse,
};

verus! {

/// A key that is not a platform admin's lists the domains of its own system only:
/// of another system it reads nothing.
pub proof fn systems_see_their_own_domains(key: ApiKeyRecord<Seq<char>>, system_id: Seq<char>)
    requires
        !key.scopes.platform_admin,
        key.system_id != system_id,
    ensures
        only(list_system_domains_plan(key, system_id), |a: ActionView| a is RequireScope),
{
    reveal_with_fuel(only, 3);
}

/// A platform admin lists the domains of any system, without another question.
pub proof fn platform_admins_see_all_domains(key: ApiKeyRecord<Seq<char>>, system_id: Seq<char>)
    requires
        key.scopes.platform_admin,
    ensures
        list_system_domains_plan(key, system_id) matches Plan::Do(action, _) && action == (Action::<
            Seq<char>,
            Seq<Seq<char>>,
            Seq<i64>,
        >::ListDomains { system_id }),
{
}

/// What is created as a domain is bare: it has no `@`.
pub proof fn created_domains_are_bare(
    key: ApiKeyRecord<Seq<char>>,
    system_id: Seq<char>,
    req: CreateSystemDomainRequest<Seq<char>>,
)
    ensures
        only(
            create_system_domain_plan(key, system_id, req),
            |a: ActionView|
                a matches Action::CreateDomain { domain, .. } ==> !domain.contains('@'),
        ),
{
    reveal_with_fuel(only, 6);
}

/// A bare domain shows no agent metadata, whatever metadata there is.
pub proof fn bare_domains_show_no_metadata(
    record: SystemDomainRecord<Seq<char>>,
    metas: Seq<DomainAddrMetaRecord<Seq<char>>>,
)
    requires
        !record.domain.contains('@'),
    ensures
        enriched(record, metas) == bare_response(record),
        enriched(record, metas).manager_address.len() == 0,
        enriched(record, metas).agent_signature.len() == 0,
        enriched(record, metas).agent_persona.len() == 0,
{
}

/// An address shows the metadata of its agent, and the rest of its record as it
/// is.
pub proof fn addresses_show_their_metadata(
    record: SystemDomainRecord<Seq<char>>,
    metas: Seq<DomainAddrMetaRecord<Seq<char>>>,
    i: int,
)
    requires
        record.domain.contains('@'),
        0 <= i < metas.len(),
        metas[i].email_address == record.domain,
        forall|j: int|
            0 <= j < metas.len() && j != i ==> (#[trigger] metas[j]).email_address
                != record.domain,
    ensures
        enriched(record, metas) == (SystemDomainResponse {
            manager_address: metas[i].manager_address,
            agent_signature: metas[i].agent_signature,
            agent_persona: metas[i].agent_persona,
            ..bare_response(record)
        }),
{
    lemma_meta_of(metas, record.domain, i);
}

proof fn lemma_meta_of(metas: Seq<DomainAddrMetaRecord<Seq<char>>>, email: Seq<char>, i: int)
    requires
        0 <= i < metas.len(),
        metas[i].email_address == email,
        forall|j: int| i < j < metas.len() ==> (#[trigger] metas[j]).email_address != email,
    ensures
        meta_of(metas, email) == Some(metas[i]),
    decreases metas.len(),
{
    if i < metas.len() - 1 {
        assert(metas[metas.len() - 1] == metas.last());
        lemma_meta_of(metas.drop_last(), email, i);
    }
}

} // verus!
