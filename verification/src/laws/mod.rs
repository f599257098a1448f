//! Laws of the handlers, over their plans and over what the plans are made of.

pub mod addresses;
pub mod agents;
pub mod answers;
pub mod checking;
pub mod contacts;
pub mod domains;
pub mod editing;
pub mod hosting;
mod lists;
pub mod lookups;
pub mod metadata;
pub mod outcomes;
pub mod pending;
pub mod polling;
pub mod registering;
pub mod renaming;
pub mod routes;
pub mod storage;
pub mod texts;
pub mod whitelists;
