//! What a request comes to, given how storage and authorisation answer.

use vstd::prelude::*;

use crate::plans::is_write;
use crate::protocol::{ActionView, EventView, Plan};
use crate::types::{
    BodyView, ErrorResponse, Failure, ReplyView, SystemDomainRecord, SystemDomainResponse,
};

verus! {

/// How storage and authorisation answer each action.
pub type Answers = spec_fn(ActionView) -> EventView;

/// How a plan ends.
pub open spec fn ending(plan: Plan, answers: Answers) -> Plan
    decreases plan,
{
    match plan {
        Plan::Do(action, rest) => ending(rest(answers(action)), answers),
        _ => plan,
    }
}

/// What a plan writes, in order.
pub open spec fn writes(plan: Plan, answers: Answers) -> Seq<ActionView>
    decreases plan,
{
    match plan {
        Plan::Do(action, rest) => {
            let later = writes(rest(answers(action)), answers);
            if is_write(action) {
                seq![action] + later
            } else {
                later
            }
        },
        _ => Seq::empty(),
    }
}

/// Whether a question of access is answered with yes.
pub open spec fn grants(answers: Answers, action: ActionView) -> bool {
    answers(action) matches EventView::Access(Ok(_))
}

/// An ending in success.
pub open spec fn done(status: u16, body: BodyView) -> Plan {
    Plan::Reply(ReplyView::Success { status, body })
}

/// An ending in a failure.
pub open spec fn refused(status: u16, error: Seq<char>, detail: Option<Seq<char>>) -> Plan {
    Plan::Reply(ReplyView::Failed(Failure { status, response: ErrorResponse { error, detail } }))
}

/// No writes.
pub open spec fn nothing() -> Seq<ActionView> {
    Seq::empty()
}

/// A domain record as it is shown, with some metadata.
pub open spec fn shown(
    record: SystemDomainRecord<Seq<char>>,
    manager: Seq<char>,
    signature: Seq<char>,
    persona: Seq<char>,
) -> SystemDomainResponse<Seq<char>> {
    SystemDomainResponse {
        id: record.id,
        system_id: record.system_id,
        domain: record.domain,
        webhook_url: record.webhook_url,
        webhook_secret: record.webhook_secret,
        is_active: record.is_active,
        created_at: record.created_at,
        updated_at: record.updated_at,
        manager_address: manager,
        agent_signature: signature,
        agent_persona: persona,
    }
}

/// A domain record as it is shown where no metadata is known.
pub open spec fn shown_bare(record: SystemDomainRecord<Seq<char>>) -> SystemDomainResponse<
    Seq<char>,
> {
    shown(record, Seq::empty(), Seq::empty(), Seq::empty())
}

} // verus!
