//! Who manages an agent, and who the system's own sender is.

use vstd::prelude::*;

use crate::protocol::{
    fail, failure, storage_failed, storage_failure, EventView, Next, Plan, StoreFault, Waiting,
};
use crate::text::{lowercase, same, to_lowercase, trim, trimmed};
use crate::types::{DomainAddrMetaRecord, StoreError};

verus! {

/// Why a key that is not the manager's is refused.
pub open spec fn not_manager_detail(caller: Seq<char>, agent: Seq<char>) -> Seq<char> {
    "You ("@ + caller + ") are not the manager of '"@ + agent + "'"@
}

/// A plan that refuses a key that is not the manager's.
pub open spec fn refuse_non_manager(caller: Seq<char>, agent: Seq<char>) -> Plan {
    fail(403, "Not the manager of this agent"@, Some(not_manager_detail(caller, agent)))
}

/// Refuses a key that is not the manager's.
pub fn reject_non_manager<M: Waiting>(caller: &str, agent: &str) -> (next: Next<M>)
    ensures
        next.plan() == refuse_non_manager(caller@, agent@),
{
    let mut detail = "You (".to_string();
    detail.append(caller);
    detail.append(") are not the manager of '");
    detail.append(agent);
    detail.append("'");
    failure(403, "Not the manager of this agent", Some(detail))
}

/// Why an agent without metadata cannot be managed.
pub open spec fn unknown_agent_detail(agent: Seq<char>) -> Seq<char> {
    "No metadata for agent '"@ + agent + "'"@
}

/// What follows the metadata of an agent: `then`, where the caller is its manager.
pub open spec fn managed(
    caller: Seq<char>,
    agent: Seq<char>,
    meta: Result<Option<DomainAddrMetaRecord<Seq<char>>>, StoreFault>,
    then: Plan,
) -> Plan {
    match meta {
        Ok(Some(m)) => if m.manager_address == caller {
            then
        } else {
            refuse_non_manager(caller, agent)
        },
        Ok(None) => fail(403, "Agent not found"@, Some(unknown_agent_detail(agent))),
        Err(e) => storage_failed(e),
    }
}

/// What follows the question for the metadata of an agent that the caller must manage.
pub open spec fn manager_known(
    caller: Seq<char>,
    agent: Seq<char>,
    then: Plan,
) -> spec_fn(EventView) -> Plan {
    |event: EventView|
        match event {
            EventView::MaybeMeta(meta) => managed(caller, agent, meta, then),
            _ => Plan::Mismatch,
        }
}

/// The refusal of a caller that does not manage an agent; nothing where it does.
pub fn refusal<M: Waiting>(
    caller: &str,
    agent: &str,
    meta: Result<Option<DomainAddrMetaRecord>, StoreError>,
) -> (refused: Option<Next<M>>)
    ensures
        match refused {
            Some(next) => forall|then: Plan|
                next.plan() == #[trigger] managed(
                    caller@,
                    agent@,
                    crate::protocol::stored(meta),
                    then,
                ),
            None => forall|then: Plan|
                then == #[trigger] managed(caller@, agent@, crate::protocol::stored(meta), then),
        },
{
    match meta {
        Ok(Some(m)) => {
            if same(&m.manager_address, caller) {
                None
            } else {
                Some(reject_non_manager(caller, agent))
            }
        },
        Ok(None) => {
            let mut detail = "No metadata for agent '".to_string();
            detail.append(agent);
            detail.append("'");
            Some(failure(403, "Agent not found", Some(detail)))
        },
        Err(e) => Some(storage_failure(e)),
    }
}

/// Whether an address is the one from which the system itself writes.
pub open spec fn is_system_sender(address: Seq<char>, system_sender: Seq<char>) -> bool {
    lowercase(trimmed(address)) == lowercase(system_sender)
}

/// Whether an address is the system's own sender.
pub fn names_system_sender(address: &str, system_sender: &str) -> (yes: bool)
    ensures
        yes == is_system_sender(address@, system_sender@),
{
    same(&to_lowercase(trim(address)), &to_lowercase(system_sender))
}

} // verus!
