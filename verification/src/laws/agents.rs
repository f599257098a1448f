//! What requests on an agent's key, state and contacts come to.

use vstd::prelude::*;

use crate::agent_state::{delete_agent_state_plan, get_agent_state_plan, put_agent_state_plan};
use crate::contact_profile::{get_contact_profile_plan, put_contact_profile_plan};
use crate::contact_search::{
    batch_body, contacts_array, get_contacts_by_name_plan, profile_fields, results_body, Contact,
};
use crate::contacts::{profile_name, with_address};
use crate::json::{parsed, printed, text_array, JsonTree};
use crate::keys::rotate_own_key_plan;
use crate::laws::outcomes::{done, ending, grants, refused, writes, Answers};
use crate::plans::{is_write, only};
use crate::protocol::{Action, ActionView, EventView, ScopeRule};
use crate::text::{lowercase, trimmed};
use crate::types::{
    AgentStatePutRequest, ApiKeyRecord, BodyView, ContactProfileRequest, ContactsByNameQuery,
};

verus! {

// Keys

/// A key that is rotated gets the digest of the new secret and its first eight
/// characters, under its own id; the reply shows the secret.
pub proof fn rotation_stores_the_digest_and_shows_the_secret(
    answers: Answers,
    key: ApiKeyRecord<Seq<char>>,
    raw_key: Seq<char>,
    digest: Seq<char>,
)
    requires
        answers(Action::Sha256Hex { text: raw_key }) == EventView::Text(digest),
    ensures
        ({
            let plan = rotate_own_key_plan(key, raw_key);
            let rotates = Action::RotateApiKey {
                id: key.id,
                key_hash: digest,
                prefix: raw_key.take(8),
            };
            &&& writes(plan, answers) == seq![rotates]
            &&& match answers(rotates) {
                EventView::Found(Ok(true)) => ending(plan, answers) == done(
                    200,
                    BodyView::Value(
                        JsonTree::Object(map!["raw_key"@ => JsonTree::Text(raw_key)]),
                    ),
                ),
                EventView::Found(Ok(false)) => ending(plan, answers) == refused(
                    404,
                    "API key not found"@,
                    None,
                ),
                EventView::Found(Err(e)) => ending(plan, answers) == refused(
                    500,
                    "Database error"@,
                    Some(e.message),
                ),
                _ => true,
            }
        }),
{
    reveal_with_fuel(writes, 3);
    reveal_with_fuel(ending, 3);
}

// State

/// An entry is read from the state of the key's own agent, and the reply shows the
/// key and the value that storage returned.
pub proof fn state_is_read_as_stored(
    answers: Answers,
    key: Seq<char>,
    api_key: ApiKeyRecord<Seq<char>>,
)
    requires
        grants(answers, Action::RequireScope { rule: ScopeRule::Agent }),
        api_key.email_address.len() > 0,
    ensures
        ({
            let end = ending(get_agent_state_plan(key, api_key), answers);
            match answers(Action::StateGet { agent: api_key.email_address, key }) {
                EventView::State(Ok(Some(entry))) => end == done(
                    200,
                    BodyView::Value(
                        JsonTree::Object(
                            map![
                                "key"@ => JsonTree::Text(entry.0),
                                "value"@ => JsonTree::Text(entry.1),
                            ],
                        ),
                    ),
                ),
                EventView::State(Ok(None)) => end == refused(
                    404,
                    "agent_state entry not found"@,
                    None,
                ),
                EventView::State(Err(e)) => end == refused(
                    500,
                    "database error"@,
                    Some(e.message),
                ),
                _ => true,
            }
        }),
        only(get_agent_state_plan(key, api_key), |a: ActionView| !is_write(a)),
{
    reveal_with_fuel(ending, 3);
    reveal_with_fuel(only, 3);
}

/// An entry is written to the state of the key's own agent as it was given, and
/// deleted when asked.
pub proof fn state_is_written_as_given(
    answers: Answers,
    key: Seq<char>,
    api_key: ApiKeyRecord<Seq<char>>,
    req: AgentStatePutRequest<Seq<char>>,
)
    requires
        grants(answers, Action::RequireScope { rule: ScopeRule::AgentOrAdmin }),
        api_key.email_address.len() > 0,
    ensures
        ({
            let put = put_agent_state_plan(key, api_key, req);
            let delete = delete_agent_state_plan(key, api_key);
            let puts = Action::StatePut { agent: api_key.email_address, key, value: req.value };
            let deletes = Action::StateDelete { agent: api_key.email_address, key };
            &&& writes(put, answers) == seq![puts]
            &&& writes(delete, answers) == seq![deletes]
            &&& match answers(puts) {
                EventView::Done(Ok(_)) => ending(put, answers) == done(
                    200,
                    BodyView::Value(JsonTree::Object(map!["success"@ => JsonTree::Bool(true)])),
                ),
                EventView::Done(Err(e)) => ending(put, answers) == refused(
                    500,
                    "database error"@,
                    Some(e.message),
                ),
                _ => true,
            }
            &&& match answers(deletes) {
                EventView::Done(Ok(_)) => ending(delete, answers) == done(204, BodyView::Empty),
                EventView::Done(Err(e)) => ending(delete, answers) == refused(
                    500,
                    "database error"@,
                    Some(e.message),
                ),
                _ => true,
            }
        }),
{
    reveal_with_fuel(writes, 3);
    reveal_with_fuel(ending, 3);
}

/// A key without an address has neither state nor contacts: it reaches nothing.
pub proof fn keys_without_an_address_reach_nothing(
    key: Seq<char>,
    api_key: ApiKeyRecord<Seq<char>>,
    put: AgentStatePutRequest<Seq<char>>,
    profile: ContactProfileRequest<Seq<char>>,
    system_sender: Seq<char>,
    query: ContactsByNameQuery<Seq<char>>,
)
    requires
        api_key.email_address.len() == 0,
    ensures
        only(get_agent_state_plan(key, api_key), |a: ActionView| a is RequireScope),
        only(put_agent_state_plan(key, api_key, put), |a: ActionView| a is RequireScope),
        only(delete_agent_state_plan(key, api_key), |a: ActionView| a is RequireScope),
        only(put_contact_profile_plan(key, api_key, profile), |a: ActionView| a is RequireScope),
        only(
            get_contact_profile_plan(key, api_key, system_sender),
            |a: ActionView| a is RequireScope,
        ),
        only(get_contacts_by_name_plan(query, api_key), |a: ActionView| a is RequireScope),
{
    reveal_with_fuel(only, 3);
}

// Contacts

/// The reading of an entry of an agent's state.
pub open spec fn reads_state(agent: Seq<char>, key: Seq<char>) -> ActionView {
    Action::StateGet { agent, key }
}

/// Whether the reading of an entry finds nothing: there is none, or the read fails.
pub open spec fn finds_nothing(answers: Answers, agent: Seq<char>, key: Seq<char>) -> bool {
    answers(reads_state(agent, key)) matches EventView::State(found) && !(
    found matches Ok(Some(_)))
}

/// The writing of an entry of an agent's state.
pub open spec fn puts_state(agent: Seq<char>, key: Seq<char>, value: Seq<char>) -> ActionView {
    Action::StatePut { agent, key, value }
}

/// A profile is shown with its address, as it is stored; that of the system's own
/// sender says what it is.
pub proof fn profiles_are_shown_as_stored(
    answers: Answers,
    address: Seq<char>,
    key: ApiKeyRecord<Seq<char>>,
    system_sender: Seq<char>,
)
    requires
        grants(answers, Action::RequireScope { rule: ScopeRule::AgentOrAdmin }),
        key.email_address.len() > 0,
    ensures
        ({
            let end = ending(get_contact_profile_plan(address, key, system_sender), answers);
            if lowercase(trimmed(address)) == lowercase(system_sender) {
                end == done(
                    200,
                    BodyView::Value(
                        JsonTree::Object(
                            map![
                                "address"@ => JsonTree::Text(address),
                                "profile"@ => JsonTree::Object(
                                    map![
                                        "type"@ => JsonTree::Text("system"@),
                                        "auto_mail"@ => JsonTree::Bool(true),
                                    ],
                                ),
                            ],
                        ),
                    ),
                )
            } else {
                match answers(reads_state(key.email_address, "profile:"@ + address)) {
                    EventView::State(Ok(Some(entry))) => end == done(
                        200,
                        BodyView::Value(
                            JsonTree::Object(
                                map![
                                    "address"@ => JsonTree::Text(address),
                                    "profile"@ => JsonTree::Text(entry.1),
                                ],
                            ),
                        ),
                    ),
                    EventView::State(Ok(None)) => end == refused(404, "contact not found"@, None),
                    EventView::State(Err(_)) => end == refused(500, "database error"@, None),
                    _ => true,
                }
            }
        }),
{
    reveal_with_fuel(ending, 3);
}

/// The name that a profile gives: empty where it gives none.
pub open spec fn gives_name(profile: Seq<char>, name: Seq<char>) -> bool {
    match parsed(profile) {
        Some(JsonTree::Object(fields)) => if fields.contains_key("name"@)
            && fields["name"@] is Text {
            fields["name"@] == JsonTree::Text(name)
        } else {
            name.len() == 0
        },
        _ => name.len() == 0,
    }
}

/// A first profile is stored as it was given, under its address. Where it gives no
/// name, nothing else is written; where it does, the index of the name in lower
/// case is, and nothing but that.
pub proof fn first_profile_is_stored_as_given(
    answers: Answers,
    address: Seq<char>,
    key: ApiKeyRecord<Seq<char>>,
    req: ContactProfileRequest<Seq<char>>,
    name: Seq<char>,
)
    requires
        grants(answers, Action::RequireScope { rule: ScopeRule::AgentOrAdmin }),
        key.email_address.len() > 0,
        finds_nothing(answers, key.email_address, "profile:"@ + address),
        gives_name(req.profile, name),
        answers(
            Action::StatePut {
                agent: key.email_address,
                key: "profile:"@ + address,
                value: req.profile,
            },
        ) matches EventView::Done(Ok(_)),
        answers(reads_state(key.email_address, "name:"@ + lowercase(name))) is State,
    ensures
        ({
            let all = writes(put_contact_profile_plan(address, key, req), answers);
            &&& all.len() == if name.len() > 0 {
                2nat
            } else {
                1
            }
            &&& all[0] == Action::<Seq<char>, Seq<Seq<char>>, Seq<i64>>::StatePut {
                agent: key.email_address,
                key: "profile:"@ + address,
                value: req.profile,
            }
            &&& name.len() > 0 ==> (all[1] matches Action::StatePut { agent, key: at, .. } && agent
                == key.email_address && at == "name:"@ + lowercase(name))
            &&& name.len() > 0 && finds_nothing(
                answers,
                key.email_address,
                "name:"@ + lowercase(name),
            ) ==> all[1] == puts_state(
                key.email_address,
                "name:"@ + lowercase(name),
                printed(
                    JsonTree::Object(
                        map!["addresses"@ => JsonTree::Array(seq![JsonTree::Text(address)])],
                    ),
                ),
            )
        }),
{
    if let Some(JsonTree::Object(fields)) = parsed(req.profile) {
        if !(fields.contains_key("name"@) && fields["name"@] is Text) {
            assert(name =~= Seq::empty());
        }
    } else {
        assert(name =~= Seq::empty());
    }
    assert(profile_name(req.profile) == name);
    assert(with_address(Seq::empty(), address) == seq![address]);
    assert(text_array(seq![address]) == JsonTree::Array(seq![JsonTree::Text(address)])) by {
        assert(seq![address].map_values(|t: Seq<char>| JsonTree::Text(t)) == seq![
            JsonTree::Text(address),
        ]);
    }
    reveal_with_fuel(writes, 6);
}

/// A profile that is put where one is stored is merged into it: what is written
/// under its address is the merge, as it is printed.
pub proof fn further_profiles_are_merged(
    answers: Answers,
    address: Seq<char>,
    key: ApiKeyRecord<Seq<char>>,
    req: ContactProfileRequest<Seq<char>>,
    former: Seq<char>,
    fields: Map<Seq<char>, JsonTree>,
    changes: Map<Seq<char>, JsonTree>,
)
    requires
        grants(answers, Action::RequireScope { rule: ScopeRule::AgentOrAdmin }),
        key.email_address.len() > 0,
        answers(reads_state(key.email_address, "profile:"@ + address)) matches EventView::State(
            Ok(Some(entry)),
        ) && entry.1 == former,
        parsed(former) == Some(JsonTree::Object(fields)),
        parsed(req.profile) == Some(JsonTree::Object(changes)),
    ensures
        writes(put_contact_profile_plan(address, key, req), answers).len() > 0,
        writes(put_contact_profile_plan(address, key, req), answers)[0] == puts_state(
            key.email_address,
            "profile:"@ + address,
            printed(JsonTree::Object(fields.union_prefer_right(changes))),
        ),
{
    reveal_with_fuel(writes, 4);
}

/// A profile that could not be written is reported, and no index is touched.
pub proof fn unwritten_profiles_are_reported(
    answers: Answers,
    address: Seq<char>,
    key: ApiKeyRecord<Seq<char>>,
    req: ContactProfileRequest<Seq<char>>,
)
    requires
        grants(answers, Action::RequireScope { rule: ScopeRule::AgentOrAdmin }),
        key.email_address.len() > 0,
        finds_nothing(answers, key.email_address, "profile:"@ + address),
    ensures
        answers(
            Action::StatePut {
                agent: key.email_address,
                key: "profile:"@ + address,
                value: req.profile,
            },
        ) matches EventView::Done(Err(e)) ==> ending(
            put_contact_profile_plan(address, key, req),
            answers,
        ) == refused(500, "database error"@, Some(e.message)) && writes(
            put_contact_profile_plan(address, key, req),
            answers,
        ).len() == 1,
{
    reveal_with_fuel(writes, 5);
    reveal_with_fuel(ending, 5);
}

/// Whether a tree lists contacts: each with its address and its profile, in order.
pub open spec fn lists_contacts(tree: JsonTree, found: Seq<Contact<Seq<char>>>) -> bool {
    tree matches JsonTree::Array(items) && items.len() == found.len() && forall|i: int|
        0 <= i < found.len() ==> #[trigger] items[i] == JsonTree::Object(
            map![
                "address"@ => JsonTree::Text(found[i].address),
                "profile"@ => JsonTree::Text(found[i].profile),
            ],
        )
}

proof fn lemma_lists_contacts(found: Seq<Contact<Seq<char>>>)
    ensures
        lists_contacts(contacts_array(found), found),
{
}

/// The reply to a search by name lists the contacts that were found.
pub proof fn results_list_the_contacts(found: Seq<Contact<Seq<char>>>)
    ensures
        exists|list: JsonTree|
            results_body(found) == BodyView::Value(
                JsonTree::Object(map!["results"@ => list]),
            ) && #[trigger] lists_contacts(list, found),
{
    lemma_lists_contacts(found);
    assert(lists_contacts(contacts_array(found), found));
}

/// The reply to a batch shows the agent's own persona, or null, and lists the
/// contacts that were found.
pub proof fn batches_list_the_contacts(
    agent: Seq<char>,
    persona: Option<Seq<char>>,
    found: Seq<Contact<Seq<char>>>,
)
    ensures
        batch_body(agent, persona, found) matches BodyView::Value(JsonTree::Object(fields)) && {
            &&& fields.dom() == set![
                "my_profile"@,
                "sender_profile"@,
                "recipients_profile"@,
                "results"@,
            ]
            &&& lists_contacts(fields["results"@], found)
            &&& fields["my_profile"@] == match persona {
                Some(text) => JsonTree::Object(
                    map![
                        "address"@ => JsonTree::Text(agent),
                        "profile"@ => JsonTree::Text(text),
                    ],
                ),
                None => JsonTree::Null,
            }
            &&& fields["sender_profile"@] is Object
            &&& fields["recipients_profile"@] is Object
            &&& forall|i: int|
                0 <= i < found.len() ==> {
                    let side = if (#[trigger] found[i]).sender {
                        fields["sender_profile"@]
                    } else {
                        fields["recipients_profile"@]
                    };
                    side->Object_0.contains_key(found[i].address)
                }
        },
{
    lemma_lists_contacts(found);
    reveal_strlit("my_profile");
    reveal_strlit("sender_profile");
    reveal_strlit("recipients_profile");
    reveal_strlit("results");
    assert("my_profile"@.len() == 10 && "sender_profile"@.len() == 14
        && "recipients_profile"@.len() == 18 && "results"@.len() == 7);
    if let BodyView::Value(JsonTree::Object(fields)) = batch_body(agent, persona, found) {
        assert(fields.dom() =~= set![
            "my_profile"@,
            "sender_profile"@,
            "recipients_profile"@,
            "results"@,
        ]);
    }
    lemma_sides(found, true);
    lemma_sides(found, false);
}

proof fn lemma_sides(found: Seq<Contact<Seq<char>>>, sender: bool)
    ensures
        forall|i: int|
            0 <= i < found.len() && (#[trigger] found[i]).sender == sender
                ==> profile_fields(found, sender).contains_key(
                found[i].address,
            ),
    decreases found.len(),
{
    if found.len() > 0 {
        let init = found.drop_last();
        lemma_sides(init, sender);
        assert forall|i: int|
            0 <= i < found.len() && (#[trigger] found[i]).sender
                == sender implies profile_fields(found, sender).contains_key(
            found[i].address,
        ) by {
            if i < init.len() {
                assert(init[i] == found[i]);
            }
        }
    }
}

} // verus!
