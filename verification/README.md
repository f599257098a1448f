# amail_api

Decision logic of the amail HTTP API: domains, agent addresses, whitelists, agent
state, contacts, pending deliveries and the routes that lead to them.

A handler decides and performs nothing. It names one action at a time, is resumed
with the event that the action led to, and ends in a reply. Its contract is a
plan: what it does on every sequence of events.

- `src/protocol.rs` - actions, events, plans and the machines that follow them
- `src/types.rs`, `src/json.rs`, `src/text.rs` - records, JSON values and text
- `src/address.rs`, `src/access.rs`, `src/contacts.rs` - rules that handlers share
- `src/domains.rs`, `src/addresses.rs`, `src/whitelist.rs`, `src/whitelist_edit.rs`,
  `src/agent_state.rs`, `src/contact_profile.rs`, `src/contact_search.rs`,
  `src/pending.rs`, `src/keys.rs` - the handlers
- `src/router.rs` - the table of routes
- `src/plans.rs`, `src/laws/` - what holds of whole plans, and the laws
- `tests/` - examples
- `app/` - the service: it reads requests, performs actions and writes replies

Trusted are the calls of `serde_json` in `src/json.rs`, of `uuid` in `src/keys.rs`,
and of `str::to_lowercase` and `String::push` in `src/text.rs`.
