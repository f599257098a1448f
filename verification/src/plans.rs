//! What can be said of a plan as a whole.

use vstd::prelude::*;

use crate::protocol::{Action, ActionView, EventView, Plan, ScopeRule};
use crate::types::{Failure, ReplyView};

verus! {

/// Whether an event is of the kind that answers an action.
pub open spec fn answers(event: EventView, action: ActionView) -> bool {
    match action {
        Action::RequireScope { .. }
        | Action::RequireDomainMatch { .. }
        | Action::CheckWhitelistAccess { .. } => event is Access,
        Action::AdmitDomain { .. } | Action::AdmitAddress { .. } => event is Admission,
        Action::Sha256Hex { .. } | Action::StripPersona { .. } => event is Text,
        Action::RotateApiKey { .. }
        | Action::ResolveSystem { .. }
        | Action::CheckWhitelisted { .. } => event is Found,
        Action::CreateDomain { .. } => event is Domain,
        Action::LookupDomainAddr { .. }
        | Action::ResolveDomain { .. }
        | Action::GetDomainByName { .. }
        | Action::UpdateDomain { .. } => event is MaybeDomain,
        Action::DeleteDomain { .. }
        | Action::UpsertMeta { .. }
        | Action::UpsertMetaRow { .. }
        | Action::RenameAddressRefs { .. }
        | Action::DeleteWhitelistEntry { .. }
        | Action::DeleteWhitelistEntryByValue { .. }
        | Action::StatePut { .. }
        | Action::StateDelete { .. } => event is Done,
        Action::ListDomains { .. } => event is Domains,
        Action::ResolveMeta { .. } | Action::GetMetaRow { .. } => event is MaybeMeta,
        Action::ListMetas { .. } => event is Metas,
        Action::GenerateActivationCodes { .. } => event is Texts,
        Action::ResolveApiKeyByEmail { .. } => event is MaybeKey,
        Action::CreateWhitelistEntry { .. }
        | Action::CreateWhitelistEntryFull { .. } => event is Entry,
        Action::GetWhitelistEntry { .. } | Action::UpdateWhitelistEntry { .. } => event is MaybeEntry,
        Action::ListWhitelistEntries { .. } => event is Entries,
        Action::StateGet { .. } => event is State,
        Action::ListPendingDeliveries { .. } => event is Pending,
        Action::AckDeliveries { .. } => event is Count,
    }
}

/// Whether a plan ends in a reply, whatever the events that answer its actions.
pub open spec fn always_replies(plan: Plan) -> bool
    decreases plan,
{
    match plan {
        Plan::Reply(_) => true,
        Plan::Do(action, rest) => forall|event: EventView| #[trigger]
            answers(event, action) ==> always_replies(rest(event)),
        Plan::Mismatch => false,
    }
}

/// Whether an action changes what is stored.
pub open spec fn is_write(action: ActionView) -> bool {
    match action {
        Action::RotateApiKey { .. }
        | Action::CreateDomain { .. }
        | Action::UpdateDomain { .. }
        | Action::DeleteDomain { .. }
        | Action::UpsertMeta { .. }
        | Action::UpsertMetaRow { .. }
        | Action::RenameAddressRefs { .. }
        | Action::GenerateActivationCodes { .. }
        | Action::CreateWhitelistEntry { .. }
        | Action::CreateWhitelistEntryFull { .. }
        | Action::UpdateWhitelistEntry { .. }
        | Action::DeleteWhitelistEntry { .. }
        | Action::DeleteWhitelistEntryByValue { .. }
        | Action::StatePut { .. }
        | Action::StateDelete { .. }
        | Action::AckDeliveries { .. } => true,
        _ => false,
    }
}

/// Whether every action that a plan may come to is one of a kind.
pub open spec fn only(plan: Plan, kind: spec_fn(ActionView) -> bool) -> bool
    decreases plan,
{
    match plan {
        Plan::Do(action, rest) => kind(action) && forall|event: EventView| #[trigger]
            only(rest(event), kind),
        _ => true,
    }
}

/// Whether an action asks for access.
pub open spec fn asks_access(action: ActionView) -> bool {
    match action {
        Action::RequireScope { .. }
        | Action::RequireDomainMatch { .. }
        | Action::CheckWhitelistAccess { .. } => true,
        _ => false,
    }
}

/// Whether every refusal of access is the reply, and nothing is done after it.
pub open spec fn refusals_are_final(plan: Plan) -> bool
    decreases plan,
{
    match plan {
        Plan::Do(action, rest) => {
            &&& asks_access(action) ==> forall|refusal: Failure<Seq<char>>| #[trigger]
                rest(EventView::Access(Err(refusal))) == Plan::Reply(ReplyView::Failed(refusal))
            &&& forall|event: EventView| #[trigger] refusals_are_final(rest(event))
        },
        _ => true,
    }
}

/// Whether a plan asks for the scopes of a rule first, and does nothing else
/// unless they are granted.
pub open spec fn asks_first(plan: Plan, rule: ScopeRule) -> bool {
    match plan {
        Plan::Do(action, rest) => {
            &&& action == Action::<Seq<char>, Seq<Seq<char>>, Seq<i64>>::RequireScope { rule }
            &&& forall|event: EventView|
                #[trigger] rest(event) is Do ==> event matches EventView::Access(Ok(_))
        },
        _ => false,
    }
}

} // verus!
