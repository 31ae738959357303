//! Request handling rules of a journey-sharing service: localized
//! validation messages, request extraction, the journey creation flow and
//! the bridge that mirrors written records into a search index.

pub mod auth;
pub mod error;
pub mod extract;
pub mod journey;
pub mod messages;
pub mod rules;
pub mod search;
pub mod violations;
