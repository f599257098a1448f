//! Decision logic of the amail HTTP API.
//!
//! A handler of the API is a state machine: it names the actions that storage
//! and authorisation are to perform, one at a time, and ends in a reply. The
//! contract of a handler is a plan, which says what it does on every sequence of
//! answers.

pub mod access;
pub mod address;
pub mod addresses;
pub mod agent_state;
pub mod contact_profile;
pub mod contact_search;
pub mod contacts;
pub mod domains;
pub mod json;
pub mod keys;
pub mod laws;
pub mod pending;
pub mod plans;
pub mod protocol;
pub mod router;
pub mod text;
pub mod types;
pub mod whitelist;
pub mod whitelist_edit;
