//! Key-value state of an agent.

use vstd::prelude::*;

use crate::json::{bool_value, new_object, object_value, set_field, text_value, JsonTree};
use crate::protocol::{
    fail, failure, granted, scoped, succeed, success, Action, Event, EventView, Machine, Next,
    Plan, ScopeRule, StoreFault, Waiting,
};
use crate::types::{AgentStatePutRequest, ApiKeyRecord, Body, BodyView, Reply, StoreError};

verus! {

/// State belongs to an address: a key without one has none.
pub open spec fn addressed(key: ApiKeyRecord<Seq<char>>, error: Seq<char>, then: Plan) -> Plan {
    if key.email_address.len() == 0 {
        fail(403, error, None)
    } else {
        then
    }
}

/// Why a key without an address has no agent state.
pub const NO_STATE: &'static str =
    "agent state requires a non-empty email_address — system-level keys must use an agent-scoped key for this endpoint";

/// A plan that ends because the state could not be read or written.
pub open spec fn state_failed(fault: StoreFault) -> Plan {
    fail(500, "database error"@, Some(fault.message))
}

/// Replies that the state could not be read or written.
pub fn state_failure<M: Waiting>(error: StoreError) -> (next: Next<M>)
    ensures
        next.plan() == state_failed(error.deep_view()),
{
    failure(500, "database error", Some(error.message))
}

/// The body that reports a write.
pub open spec fn success_body() -> BodyView {
    BodyView::Value(JsonTree::Object(Map::empty().insert("success"@, JsonTree::Bool(true))))
}

/// Replies that a write succeeded.
pub fn confirm<M: Waiting>() -> (next: Next<M>)
    ensures
        next.plan() == succeed(200, success_body()),
{
    let mut object = new_object();
    set_field(&mut object, "success".to_string(), bool_value(true));
    success(200, Body::Value(object_value(object)))
}

// Reading

/// An entry of the key's own agent is read, by a key with the agent scope.
pub open spec fn get_agent_state_plan(key: Seq<char>, api_key: ApiKeyRecord<Seq<char>>) -> Plan {
    scoped(
        ScopeRule::Agent,
        addressed(
            api_key,
            NO_STATE@,
            Plan::Do(Action::StateGet { agent: api_key.email_address, key }, state_got()),
        ),
    )
}

pub open spec fn state_got() -> spec_fn(EventView) -> Plan {
    |event: EventView|
        match event {
            EventView::State(Ok(Some(entry))) => succeed(200, state_body(entry.0, entry.1)),
            EventView::State(Ok(None)) => fail(404, "agent_state entry not found"@, None),
            EventView::State(Err(e)) => state_failed(e),
            _ => Plan::Mismatch,
        }
}

/// An entry as the reply shows it.
pub open spec fn state_body(key: Seq<char>, value: Seq<char>) -> BodyView {
    BodyView::Value(
        JsonTree::Object(
            Map::empty().insert("key"@, JsonTree::Text(key)).insert(
                "value"@,
                JsonTree::Text(value),
            ),
        ),
    )
}

/// The reading of an entry, under way.
#[derive(Debug, PartialEq)]
pub enum GetAgentState {
    Scope { key: String, api_key: ApiKeyRecord },
    Get,
}

/// `GET /api/v1/agent-state/:key`: reads an entry of the agent's state.
pub fn get_agent_state(key: String, api_key: ApiKeyRecord) -> (next: Next<GetAgentState>)
    ensures
        next.plan() == get_agent_state_plan(key@, api_key.deep_view()),
{
    Next::Do(
        Action::RequireScope { rule: ScopeRule::Agent },
        GetAgentState::Scope { key, api_key },
    )
}

impl Waiting for GetAgentState {
    open spec fn rest(self) -> spec_fn(EventView) -> Plan {
        match self {
            GetAgentState::Scope { key, api_key } => granted(
                addressed(
                    api_key.deep_view(),
                    NO_STATE@,
                    Plan::Do(
                        Action::StateGet { agent: api_key.email_address@, key: key@ },
                        state_got(),
                    ),
                ),
            ),
            GetAgentState::Get => state_got(),
        }
    }
}

impl Machine for GetAgentState {
    fn resume(self, event: Event) -> (next: Next<GetAgentState>) {
        match (self, event) {
            (GetAgentState::Scope { .. }, Event::Access(Err(refusal))) => Next::Reply(
                Reply::Failed(refusal),
            ),
            (GetAgentState::Scope { key, api_key }, Event::Access(Ok(()))) => {
                if api_key.email_address.as_str().is_empty() {
                    failure(403, NO_STATE, None)
                } else {
                    Next::Do(
                        Action::StateGet { agent: api_key.email_address, key },
                        GetAgentState::Get,
                    )
                }
            },
            (GetAgentState::Get, Event::State(Ok(Some((key, value))))) => {
                let mut object = new_object();
                set_field(&mut object, "key".to_string(), text_value(key));
                set_field(&mut object, "value".to_string(), text_value(value));
                success(200, Body::Value(object_value(object)))
            },
            (GetAgentState::Get, Event::State(Ok(None))) => {
                failure(404, "agent_state entry not found", None)
            },
            (GetAgentState::Get, Event::State(Err(e))) => state_failure(e),
            _ => Next::Mismatch,
        }
    }
}

// Writing

/// An entry of the key's own agent is written.
pub open spec fn put_agent_state_plan(
    key: Seq<char>,
    api_key: ApiKeyRecord<Seq<char>>,
    req: AgentStatePutRequest<Seq<char>>,
) -> Plan {
    scoped(
        ScopeRule::AgentOrAdmin,
        addressed(
            api_key,
            NO_STATE@,
            Plan::Do(
                Action::StatePut { agent: api_key.email_address, key, value: req.value },
                state_put(),
            ),
        ),
    )
}

pub open spec fn state_put() -> spec_fn(EventView) -> Plan {
    |event: EventView|
        match event {
            EventView::Done(Ok(_)) => succeed(200, success_body()),
            EventView::Done(Err(e)) => state_failed(e),
            _ => Plan::Mismatch,
        }
}

/// The writing of an entry, under way.
#[derive(Debug, PartialEq)]
pub enum PutAgentState {
    Scope { key: String, api_key: ApiKeyRecord, req: AgentStatePutRequest },
    Put,
}

/// `PUT /api/v1/agent-state/:key`: writes an entry of the agent's state.
pub fn put_agent_state(
    key: String,
    api_key: ApiKeyRecord,
    req: AgentStatePutRequest,
) -> (next: Next<PutAgentState>)
    ensures
        next.plan() == put_agent_state_plan(key@, api_key.deep_view(), req.deep_view()),
{
    Next::Do(
        Action::RequireScope { rule: ScopeRule::AgentOrAdmin },
        PutAgentState::Scope { key, api_key, req },
    )
}

impl Waiting for PutAgentState {
    open spec fn rest(self) -> spec_fn(EventView) -> Plan {
        match self {
            PutAgentState::Scope { key, api_key, req } => granted(
                addressed(
                    api_key.deep_view(),
                    NO_STATE@,
                    Plan::Do(
                        Action::StatePut {
                            agent: api_key.email_address@,
                            key: key@,
                            value: req.value@,
                        },
                        state_put(),
                    ),
                ),
            ),
            PutAgentState::Put => state_put(),
        }
    }
}

impl Machine for PutAgentState {
    fn resume(self, event: Event) -> (next: Next<PutAgentState>) {
        match (self, event) {
            (PutAgentState::Scope { .. }, Event::Access(Err(refusal))) => Next::Reply(
                Reply::Failed(refusal),
            ),
            (PutAgentState::Scope { key, api_key, req }, Event::Access(Ok(()))) => {
                if api_key.email_address.as_str().is_empty() {
                    failure(403, NO_STATE, None)
                } else {
                    Next::Do(
                        Action::StatePut { agent: api_key.email_address, key, value: req.value },
                        PutAgentState::Put,
                    )
                }
            },
            (PutAgentState::Put, Event::Done(Ok(()))) => confirm(),
            (PutAgentState::Put, Event::Done(Err(e))) => state_failure(e),
            _ => Next::Mismatch,
        }
    }
}

// Deleting

/// An entry of the key's own agent is deleted.
pub open spec fn delete_agent_state_plan(
    key: Seq<char>,
    api_key: ApiKeyRecord<Seq<char>>,
) -> Plan {
    scoped(
        ScopeRule::AgentOrAdmin,
        addressed(
            api_key,
            NO_STATE@,
            Plan::Do(Action::StateDelete { agent: api_key.email_address, key }, state_deleted()),
        ),
    )
}

pub open spec fn state_deleted() -> spec_fn(EventView) -> Plan {
    |event: EventView|
        match event {
            EventView::Done(Ok(_)) => succeed(204, BodyView::Empty),
            EventView::Done(Err(e)) => state_failed(e),
            _ => Plan::Mismatch,
        }
}

/// The deletion of an entry, under way.
#[derive(Debug, PartialEq)]
pub enum DeleteAgentState {
    Scope { key: String, api_key: ApiKeyRecord },
    Delete,
}

/// `DELETE /api/v1/agent-state/:key`: deletes an entry of the agent's state.
pub fn delete_agent_state(key: String, api_key: ApiKeyRecord) -> (next: Next<DeleteAgentState>)
    ensures
        next.plan() == delete_agent_state_plan(key@, api_key.deep_view()),
{
    Next::Do(
        Action::RequireScope { rule: ScopeRule::AgentOrAdmin },
        DeleteAgentState::Scope { key, api_key },
    )
}

impl Waiting for DeleteAgentState {
    open spec fn rest(self) -> spec_fn(EventView) -> Plan {
        match self {
            DeleteAgentState::Scope { key, api_key } => granted(
                addressed(
                    api_key.deep_view(),
                    NO_STATE@,
                    Plan::Do(
                        Action::StateDelete { agent: api_key.email_address@, key: key@ },
                        state_deleted(),
                    ),
                ),
            ),
            DeleteAgentState::Delete => state_deleted(),
        }
    }
}

impl Machine for DeleteAgentState {
    fn resume(self, event: Event) -> (next: Next<DeleteAgentState>) {
        match (self, event) {
            (DeleteAgentState::Scope { .. }, Event::Access(Err(refusal))) => Next::Reply(
                Reply::Failed(refusal),
            ),
            (DeleteAgentState::Scope { key, api_key }, Event::Access(Ok(()))) => {
                if api_key.email_address.as_str().is_empty() {
                    failure(403, NO_STATE, None)
                } else {
                    Next::Do(
                        Action::StateDelete { agent: api_key.email_address, key },
                        DeleteAgentState::Delete,
                    )
                }
            },
            (DeleteAgentState::Delete, Event::Done(Ok(()))) => success(204, Body::Empty),
            (DeleteAgentState::Delete, Event::Done(Err(e))) => state_failure(e),
            _ => Next::Mismatch,
        }
    }
}

} // verus!
