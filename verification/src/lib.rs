//! Fetch-and-reconcile rules for a monthly publication: which issue a link
//! names, what the issue is called on disk, and what a run does next.

pub mod text;
pub mod period;
pub mod naming;
pub mod engine;
pub mod index;
pub mod fetch;
pub mod notices;
pub mod document;
pub mod args;
pub mod settings;
