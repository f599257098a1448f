//! Every request is answered, and none goes on where access is refused.

use vstd::prelude::*;

use crate::addresses::{register_address_plan, rename_agent_address_plan, update_agent_meta_plan};
use crate::agent_state::{delete_agent_state_plan, get_agent_state_plan, put_agent_state_plan};
use crate::contact_profile::{get_contact_profile_plan, put_contact_profile_plan};
use crate::contact_search::{
    batch_lookup, contact_fetched, get_contacts_by_name_plan, name_lookup, named_profile_got,
    Contact,
};
use crate::domains::{
    check_domain_exists_plan, create_system_domain_plan, delete_system_domain_plan,
    list_system_domains_plan, update_system_domain_plan,
};
use crate::keys::rotate_own_key_plan;
use crate::pending::{ack_pending_deliveries_plan, list_pending_deliveries_plan};
use crate::plans::{always_replies, answers, asks_first, refusals_are_final};
use crate::protocol::{EventView, Next, ScopeRule, Waiting};
use crate::types::{
    AgentStatePutRequest, ApiKeyRecord, CheckWhitelistQuery, ContactProfileRequest,
    ContactsByNameQuery, CreateSystemDomainRequest, CreateWhitelistRequest,
    DeleteWhitelistByParams, ListWhitelistsQuery, RegisterAddressRequest, RenameAddressRequest,
    UpdateAgentMetaRequest, UpdateSystemDomainRequest, UpdateWhitelistByParams,
    UpdateWhitelistRequest, WhitelistRecord,
};
use crate::whitelist::{
    check_whitelist_plan, create_whitelist_plan, entry_sifted, list_whitelists_plan, sifted,
};
use crate::whitelist_edit::{
    delete_whitelist_by_params_plan, delete_whitelist_plan, update_whitelist_by_params_plan,
    update_whitelist_plan,
};

verus! {

/// `create_system_domain` asks for its scopes first. It ends in a reply, and a refusal
/// is the reply.
pub proof fn create_system_domain_is_answered(
    key: ApiKeyRecord<Seq<char>>,
    system_id: Seq<char>,
    req: CreateSystemDomainRequest<Seq<char>>,
)
    ensures
        always_replies(create_system_domain_plan(key, system_id, req)),
        refusals_are_final(create_system_domain_plan(key, system_id, req)),
        asks_first(create_system_domain_plan(key, system_id, req), ScopeRule::System),
{
    reveal_with_fuel(always_replies, 7);
    reveal_with_fuel(refusals_are_final, 7);
}

/// `list_system_domains` ends in a reply, and a refusal is the reply.
pub proof fn list_system_domains_is_answered(key: ApiKeyRecord<Seq<char>>, system_id: Seq<char>)
    ensures
        always_replies(list_system_domains_plan(key, system_id)),
        refusals_are_final(list_system_domains_plan(key, system_id)),
{
    reveal_with_fuel(always_replies, 5);
    reveal_with_fuel(refusals_are_final, 5);
}

/// `check_domain_exists` asks for its scopes first. It ends in a reply, and a refusal
/// is the reply.
pub proof fn check_domain_exists_is_answered(domain: Option<Seq<char>>)
    ensures
        always_replies(check_domain_exists_plan(domain)),
        refusals_are_final(check_domain_exists_plan(domain)),
        asks_first(check_domain_exists_plan(domain), ScopeRule::PlatformOrSystem),
{
    reveal_with_fuel(always_replies, 4);
    reveal_with_fuel(refusals_are_final, 4);
}

/// `update_system_domain` asks for its scopes first. It ends in a reply, and a refusal
/// is the reply.
pub proof fn update_system_domain_is_answered(
    key: ApiKeyRecord<Seq<char>>,
    id: Seq<char>,
    req: UpdateSystemDomainRequest<Seq<char>>,
)
    ensures
        always_replies(update_system_domain_plan(key, id, req)),
        refusals_are_final(update_system_domain_plan(key, id, req)),
        asks_first(update_system_domain_plan(key, id, req), ScopeRule::System),
{
    reveal_with_fuel(always_replies, 7);
    reveal_with_fuel(refusals_are_final, 7);
}

/// `delete_system_domain` asks for its scopes first. It ends in a reply, and a refusal
/// is the reply.
pub proof fn delete_system_domain_is_answered(key: ApiKeyRecord<Seq<char>>, id: Seq<char>)
    ensures
        always_replies(delete_system_domain_plan(key, id)),
        refusals_are_final(delete_system_domain_plan(key, id)),
        asks_first(delete_system_domain_plan(key, id), ScopeRule::System),
{
    reveal_with_fuel(always_replies, 6);
    reveal_with_fuel(refusals_are_final, 6);
}

/// `register_address` asks for its scopes first. It ends in a reply, and a refusal
/// is the reply.
pub proof fn register_address_is_answered(
    key: ApiKeyRecord<Seq<char>>,
    system_id: Seq<char>,
    generate_code: bool,
    req: RegisterAddressRequest<Seq<char>>,
)
    ensures
        always_replies(register_address_plan(key, system_id, generate_code, req)),
        refusals_are_final(register_address_plan(key, system_id, generate_code, req)),
        asks_first(register_address_plan(key, system_id, generate_code, req), ScopeRule::SystemOrAgentAdmin),
{
    reveal_with_fuel(always_replies, 10);
    reveal_with_fuel(refusals_are_final, 10);
}

/// `rename_agent_address` asks for its scopes first. It ends in a reply, and a refusal
/// is the reply.
pub proof fn rename_agent_address_is_answered(
    key: ApiKeyRecord<Seq<char>>,
    system_id: Seq<char>,
    req: RenameAddressRequest<Seq<char>>,
)
    ensures
        always_replies(rename_agent_address_plan(key, system_id, req)),
        refusals_are_final(rename_agent_address_plan(key, system_id, req)),
        asks_first(rename_agent_address_plan(key, system_id, req), ScopeRule::System),
{
    reveal_with_fuel(always_replies, 7);
    reveal_with_fuel(refusals_are_final, 7);
}

/// `update_agent_meta` asks for its scopes first. It ends in a reply, and a refusal
/// is the reply.
pub proof fn update_agent_meta_is_answered(
    key: ApiKeyRecord<Seq<char>>,
    email: Seq<char>,
    req: UpdateAgentMetaRequest<Seq<char>>,
)
    ensures
        always_replies(update_agent_meta_plan(key, email, req)),
        refusals_are_final(update_agent_meta_plan(key, email, req)),
        asks_first(update_agent_meta_plan(key, email, req), ScopeRule::SystemOrAgentAdmin),
{
    reveal_with_fuel(always_replies, 7);
    reveal_with_fuel(refusals_are_final, 7);
}

/// `create_whitelist` ends in a reply, and a refusal is the reply.
pub proof fn create_whitelist_is_answered(
    key: ApiKeyRecord<Seq<char>>,
    req: CreateWhitelistRequest<Seq<char>>,
)
    ensures
        always_replies(create_whitelist_plan(key, req)),
        refusals_are_final(create_whitelist_plan(key, req)),
{
    reveal_with_fuel(always_replies, 5);
    reveal_with_fuel(refusals_are_final, 5);
}

/// `check_whitelist` ends in a reply, and a refusal is the reply.
pub proof fn check_whitelist_is_answered(
    key: ApiKeyRecord<Seq<char>>,
    system_sender: Seq<char>,
    query: CheckWhitelistQuery<Seq<char>>,
)
    ensures
        always_replies(check_whitelist_plan(key, system_sender, query)),
        refusals_are_final(check_whitelist_plan(key, system_sender, query)),
{
    reveal_with_fuel(always_replies, 5);
    reveal_with_fuel(refusals_are_final, 5);
}

/// `update_whitelist` ends in a reply, and a refusal is the reply.
pub proof fn update_whitelist_is_answered(
    key: ApiKeyRecord<Seq<char>>,
    id: i64,
    req: UpdateWhitelistRequest<Seq<char>>,
)
    ensures
        always_replies(update_whitelist_plan(key, id, req)),
        refusals_are_final(update_whitelist_plan(key, id, req)),
{
    reveal_with_fuel(always_replies, 7);
    reveal_with_fuel(refusals_are_final, 7);
}

/// `delete_whitelist` ends in a reply, and a refusal is the reply.
pub proof fn delete_whitelist_is_answered(key: ApiKeyRecord<Seq<char>>, id: i64)
    ensures
        always_replies(delete_whitelist_plan(key, id)),
        refusals_are_final(delete_whitelist_plan(key, id)),
{
    reveal_with_fuel(always_replies, 7);
    reveal_with_fuel(refusals_are_final, 7);
}

/// `delete_whitelist_by_params` ends in a reply, and a refusal is the reply.
pub proof fn delete_whitelist_by_params_is_answered(
    key: ApiKeyRecord<Seq<char>>,
    query: DeleteWhitelistByParams<Seq<char>>,
)
    ensures
        always_replies(delete_whitelist_by_params_plan(key, query)),
        refusals_are_final(delete_whitelist_by_params_plan(key, query)),
{
    reveal_with_fuel(always_replies, 5);
    reveal_with_fuel(refusals_are_final, 5);
}

/// `update_whitelist_by_params` ends in a reply, and a refusal is the reply.
pub proof fn update_whitelist_by_params_is_answered(
    key: ApiKeyRecord<Seq<char>>,
    query: UpdateWhitelistByParams<Seq<char>>,
    req: UpdateWhitelistRequest<Seq<char>>,
)
    ensures
        always_replies(update_whitelist_by_params_plan(key, query, req)),
        refusals_are_final(update_whitelist_by_params_plan(key, query, req)),
{
    reveal_with_fuel(always_replies, 5);
    reveal_with_fuel(refusals_are_final, 5);
}

/// `get_agent_state` asks for its scopes first. It ends in a reply, and a refusal
/// is the reply.
pub proof fn get_agent_state_is_answered(key: Seq<char>, api_key: ApiKeyRecord<Seq<char>>)
    ensures
        always_replies(get_agent_state_plan(key, api_key)),
        refusals_are_final(get_agent_state_plan(key, api_key)),
        asks_first(get_agent_state_plan(key, api_key), ScopeRule::Agent),
{
    reveal_with_fuel(always_replies, 4);
    reveal_with_fuel(refusals_are_final, 4);
}

/// `put_agent_state` asks for its scopes first. It ends in a reply, and a refusal
/// is the reply.
pub proof fn put_agent_state_is_answered(
    key: Seq<char>,
    api_key: ApiKeyRecord<Seq<char>>,
    req: AgentStatePutRequest<Seq<char>>,
)
    ensures
        always_replies(put_agent_state_plan(key, api_key, req)),
        refusals_are_final(put_agent_state_plan(key, api_key, req)),
        asks_first(put_agent_state_plan(key, api_key, req), ScopeRule::AgentOrAdmin),
{
    reveal_with_fuel(always_replies, 4);
    reveal_with_fuel(refusals_are_final, 4);
}

/// `delete_agent_state` asks for its scopes first. It ends in a reply, and a refusal
/// is the reply.
pub proof fn delete_agent_state_is_answered(key: Seq<char>, api_key: ApiKeyRecord<Seq<char>>)
    ensures
        always_replies(delete_agent_state_plan(key, api_key)),
        refusals_are_final(delete_agent_state_plan(key, api_key)),
        asks_first(delete_agent_state_plan(key, api_key), ScopeRule::AgentOrAdmin),
{
    reveal_with_fuel(always_replies, 4);
    reveal_with_fuel(refusals_are_final, 4);
}

/// `put_contact_profile` asks for its scopes first. It ends in a reply, and a refusal
/// is the reply.
pub proof fn put_contact_profile_is_answered(
    address: Seq<char>,
    key: ApiKeyRecord<Seq<char>>,
    req: ContactProfileRequest<Seq<char>>,
)
    ensures
        always_replies(put_contact_profile_plan(address, key, req)),
        refusals_are_final(put_contact_profile_plan(address, key, req)),
        asks_first(put_contact_profile_plan(address, key, req), ScopeRule::AgentOrAdmin),
{
    reveal_with_fuel(always_replies, 9);
    reveal_with_fuel(refusals_are_final, 9);
}

/// `get_contact_profile` asks for its scopes first. It ends in a reply, and a refusal
/// is the reply.
pub proof fn get_contact_profile_is_answered(
    address: Seq<char>,
    key: ApiKeyRecord<Seq<char>>,
    system_sender: Seq<char>,
)
    ensures
        always_replies(get_contact_profile_plan(address, key, system_sender)),
        refusals_are_final(get_contact_profile_plan(address, key, system_sender)),
        asks_first(get_contact_profile_plan(address, key, system_sender), ScopeRule::AgentOrAdmin),
{
    reveal_with_fuel(always_replies, 4);
    reveal_with_fuel(refusals_are_final, 4);
}

/// `list_pending_deliveries` asks for its scopes first. It ends in a reply, and a refusal
/// is the reply.
pub proof fn list_pending_deliveries_is_answered(
    key: ApiKeyRecord<Seq<char>>,
    limit: i64,
    emails: Seq<Seq<char>>,
    filter: Seq<Seq<char>>,
)
    ensures
        always_replies(list_pending_deliveries_plan(key, limit, emails, filter)),
        refusals_are_final(list_pending_deliveries_plan(key, limit, emails, filter)),
        asks_first(list_pending_deliveries_plan(key, limit, emails, filter), ScopeRule::SystemOrBridge),
{
    reveal_with_fuel(always_replies, 4);
    reveal_with_fuel(refusals_are_final, 4);
}

/// `ack_pending_deliveries` asks for its scopes first. It ends in a reply, and a refusal
/// is the reply.
pub proof fn ack_pending_deliveries_is_answered(ids: Seq<i64>)
    ensures
        always_replies(ack_pending_deliveries_plan(ids)),
        refusals_are_final(ack_pending_deliveries_plan(ids)),
        asks_first(ack_pending_deliveries_plan(ids), ScopeRule::SystemOrBridge),
{
    reveal_with_fuel(always_replies, 4);
    reveal_with_fuel(refusals_are_final, 4);
}

/// `rotate_own_key` ends in a reply, and a refusal is the reply.
pub proof fn rotate_own_key_is_answered(key: ApiKeyRecord<Seq<char>>, raw_key: Seq<char>)
    ensures
        always_replies(rotate_own_key_plan(key, raw_key)),
        refusals_are_final(rotate_own_key_plan(key, raw_key)),
{
    reveal_with_fuel(always_replies, 4);
    reveal_with_fuel(refusals_are_final, 4);
}

proof fn lemma_sifted(
    manager: Seq<char>,
    entries: Seq<WhitelistRecord<Seq<char>>>,
    kept: Seq<WhitelistRecord<Seq<char>>>,
)
    ensures
        always_replies(sifted(manager, entries, kept)),
        refusals_are_final(sifted(manager, entries, kept)),
    decreases entries.len(),
{
    if entries.len() > 0 {
        let rest = entry_sifted(manager, entries[0], entries.skip(1), kept);
        lemma_sifted(manager, entries.skip(1), kept);
        lemma_sifted(manager, entries.skip(1), kept.push(entries[0]));
        assert forall|event: EventView| refusals_are_final(#[trigger] rest(event)) && (event
            is MaybeMeta ==> always_replies(rest(event))) by {}
    }
}

/// `list_whitelists` ends in a reply, and a refusal is the reply.
pub proof fn list_whitelists_is_answered(
    key: ApiKeyRecord<Seq<char>>,
    query: ListWhitelistsQuery<Seq<char>>,
)
    ensures
        always_replies(list_whitelists_plan(key, query)),
        refusals_are_final(list_whitelists_plan(key, query)),
{
    reveal_with_fuel(always_replies, 2);
    reveal_with_fuel(refusals_are_final, 2);
    assert forall|entries: Seq<WhitelistRecord<Seq<char>>>|
        always_replies(#[trigger] sifted(key.email_address, entries, Seq::empty()))
            && refusals_are_final(sifted(key.email_address, entries, Seq::empty())) by {
        lemma_sifted(key.email_address, entries, Seq::empty());
    }
}

proof fn lemma_batch_lookup(
    agent: Seq<char>,
    persona: Option<Seq<char>>,
    addresses: Seq<Seq<char>>,
    sender: bool,
    found: Seq<Contact<Seq<char>>>,
)
    ensures
        always_replies(batch_lookup(agent, persona, addresses, sender, found)),
        refusals_are_final(batch_lookup(agent, persona, addresses, sender, found)),
    decreases addresses.len(),
{
    if addresses.len() > 0 {
        let address = addresses[0];
        let left = addresses.skip(1);
        let then = contact_fetched(agent, persona, address, left, sender, found);
        assert forall|profile: Option<Seq<char>>|
            always_replies(#[trigger] then(profile)) && refusals_are_final(then(profile)) by {
            match profile {
                Some(p) => lemma_batch_lookup(
                    agent,
                    persona,
                    left,
                    false,
                    found.push(Contact { address, profile: p, sender }),
                ),
                None => lemma_batch_lookup(agent, persona, left, false, found),
            }
        }
        reveal_with_fuel(always_replies, 4);
        reveal_with_fuel(refusals_are_final, 4);
    }
}

proof fn lemma_name_lookup(
    agent: Seq<char>,
    addresses: Seq<Seq<char>>,
    found: Seq<Contact<Seq<char>>>,
)
    ensures
        always_replies(name_lookup(agent, addresses, found)),
        refusals_are_final(name_lookup(agent, addresses, found)),
    decreases addresses.len(),
{
    if addresses.len() > 0 {
        let address = addresses[0];
        let left = addresses.skip(1);
        let rest = named_profile_got(agent, address, left, found);
        assert forall|event: EventView| refusals_are_final(#[trigger] rest(event)) && (event
            is State ==> always_replies(rest(event))) by {
            if let EventView::State(Ok(Some(entry))) = event {
                lemma_name_lookup(
                    agent,
                    left,
                    found.push(Contact { address, profile: entry.1, sender: false }),
                );
            } else {
                lemma_name_lookup(agent, left, found);
            }
        }
    }
}

/// `get_contacts_by_name` asks for its scopes first. It ends in a reply, and a
/// refusal is the reply.
pub proof fn get_contacts_by_name_is_answered(
    query: ContactsByNameQuery<Seq<char>>,
    key: ApiKeyRecord<Seq<char>>,
)
    ensures
        always_replies(get_contacts_by_name_plan(query, key)),
        refusals_are_final(get_contacts_by_name_plan(query, key)),
        asks_first(get_contacts_by_name_plan(query, key), ScopeRule::AgentOrAdmin),
{
    let agent = key.email_address;
    assert forall|persona: Option<Seq<char>>, addresses: Seq<Seq<char>>|
        always_replies(#[trigger] batch_lookup(agent, persona, addresses, true, Seq::empty()))
            && refusals_are_final(
            batch_lookup(agent, persona, addresses, true, Seq::empty()),
        ) by {
        lemma_batch_lookup(agent, persona, addresses, true, Seq::empty());
    }
    assert forall|addresses: Seq<Seq<char>>|
        always_replies(#[trigger] name_lookup(agent, addresses, Seq::empty()))
            && refusals_are_final(name_lookup(agent, addresses, Seq::empty())) by {
        lemma_name_lookup(agent, addresses, Seq::empty());
    }
    reveal_with_fuel(always_replies, 3);
    reveal_with_fuel(refusals_are_final, 3);
}

/// A handler that always replies still does once its action is answered.
pub proof fn answers_keep_a_handler_going<M: Waiting>(next: Next<M>, event: EventView)
    requires
        always_replies(next.plan()),
    ensures
        next matches Next::Do(action, machine) ==> (answers(event, action.deep_view())
            ==> always_replies((machine.rest())(event))),
        !(next is Mismatch),
{
}

} // verus!
