//! What is written can be read back.
//!
//! The laws speak of requests that are granted access, one after the other, on
//! storage that keeps what it is given.

use vstd::prelude::*;

use crate::agent_state::{
    delete_agent_state_plan, get_agent_state_plan, put_agent_state_plan, state_body, success_body,
};
use crate::plans::only;
use crate::protocol::{fail, succeed, Action, ActionView, EventView, Plan, StoreFault};
use crate::types::{AgentStatePutRequest, ApiKeyRecord, BodyView, DomainAddrMetaRecord};

verus! {

/// The state of all agents: values by agent and key.
pub type States = Map<(Seq<char>, Seq<char>), Seq<char>>;

/// What storage is like: the states that it keeps, what it answers when asked
/// for an agent's metadata, and how it tells an address from its persona.
pub struct World {
    pub states: States,
    pub meta: Result<Option<DomainAddrMetaRecord<Seq<char>>>, StoreFault>,
    pub base: spec_fn(Seq<char>) -> Seq<char>,
}

/// The entry of an agent's state under a key, if there is one.
pub open spec fn entry_of(states: States, agent: Seq<char>, key: Seq<char>) -> Option<Seq<char>> {
    if states.contains_key((agent, key)) {
        Some(states[(agent, key)])
    } else {
        None
    }
}

/// How an action is answered.
pub open spec fn answer(action: ActionView, world: World) -> EventView {
    match action {
        Action::RequireScope { .. } => EventView::Access(Ok(())),
        Action::StateGet { agent, key } => EventView::State(
            Ok(
                match entry_of(world.states, agent, key) {
                    Some(value) => Some((key, value)),
                    None => None,
                },
            ),
        ),
        Action::StripPersona { address } => EventView::Text((world.base)(address)),
        Action::GetMetaRow { .. } => EventView::MaybeMeta(world.meta),
        _ => EventView::Done(Ok(())),
    }
}

/// What an action leaves behind.
pub open spec fn effect(action: ActionView, world: World) -> World {
    match action {
        Action::StatePut { agent, key, value } => World {
            states: world.states.insert((agent, key), value),
            ..world
        },
        Action::StateDelete { agent, key } => World {
            states: world.states.remove((agent, key)),
            ..world
        },
        _ => world,
    }
}

/// What a plan comes to: how it ends, and the world that it leaves behind.
pub open spec fn run(plan: Plan, world: World) -> (Plan, World)
    decreases plan,
{
    match plan {
        Plan::Do(action, rest) => run(rest(answer(action, world)), effect(action, world)),
        _ => (plan, world),
    }
}

/// A write to an agent's state changes the entry, and nothing else.
pub proof fn put_state_writes_one_entry(
    world: World,
    key: Seq<char>,
    api_key: ApiKeyRecord<Seq<char>>,
    req: AgentStatePutRequest<Seq<char>>,
)
    requires
        api_key.email_address.len() > 0,
    ensures
        run(put_agent_state_plan(key, api_key, req), world).0 == succeed(200, success_body()),
        run(put_agent_state_plan(key, api_key, req), world).1.states == world.states.insert(
            (api_key.email_address, key),
            req.value,
        ),
{
    reveal_with_fuel(run, 3);
}

/// What was written to an agent's state is what is read.
pub proof fn get_state_after_put(
    world: World,
    key: Seq<char>,
    api_key: ApiKeyRecord<Seq<char>>,
    req: AgentStatePutRequest<Seq<char>>,
)
    requires
        api_key.email_address.len() > 0,
    ensures
        run(
            get_agent_state_plan(key, api_key),
            run(put_agent_state_plan(key, api_key, req), world).1,
        ).0 == succeed(200, state_body(key, req.value)),
{
    reveal_with_fuel(run, 3);
}

/// What was deleted from an agent's state is not found.
pub proof fn get_state_after_delete(
    world: World,
    key: Seq<char>,
    api_key: ApiKeyRecord<Seq<char>>,
)
    requires
        api_key.email_address.len() > 0,
    ensures
        run(delete_agent_state_plan(key, api_key), world).0 == succeed(204, BodyView::Empty),
        run(
            get_agent_state_plan(key, api_key),
            run(delete_agent_state_plan(key, api_key), world).1,
        ).0 == fail(404, "agent_state entry not found"@, None),
{
    reveal_with_fuel(run, 3);
}

/// Whether an action touches the state of no agent but one.
pub open spec fn stays_with(action: ActionView, agent: Seq<char>) -> bool {
    match action {
        Action::StateGet { agent: other, .. } => other == agent,
        Action::StatePut { agent: other, .. } => other == agent,
        Action::StateDelete { agent: other, .. } => other == agent,
        _ => true,
    }
}

/// A key reaches the state of its own agent only.
pub proof fn state_is_private(
    key: Seq<char>,
    api_key: ApiKeyRecord<Seq<char>>,
    req: AgentStatePutRequest<Seq<char>>,
)
    ensures
        only(
            get_agent_state_plan(key, api_key),
            |a: ActionView| stays_with(a, api_key.email_address),
        ),
        only(
            put_agent_state_plan(key, api_key, req),
            |a: ActionView| stays_with(a, api_key.email_address),
        ),
        only(
            delete_agent_state_plan(key, api_key),
            |a: ActionView| stays_with(a, api_key.email_address),
        ),
{
    reveal_with_fuel(only, 3);
}

} // verus!
