//! A secret-retrieval gateway core: bearer-token request authentication, a
//! vault session state machine, a two-phase name-to-value secret lookup, and a
//! bounded exponential-backoff retry policy, composed into a per-request flow.
//!
//! The upstream vault is an external collaborator: callers of this library
//! perform the actual vault calls (login, list identifiers, fetch by id) and
//! feed the outcomes back in as events.

pub mod auth;
pub mod config;
pub mod errors;
pub mod gateway;
pub mod model;
pub mod orgid;
pub mod resolver;
pub mod retry;
pub mod session;
