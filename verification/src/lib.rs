//! Client-side control plane for a remote agent-centric application host.
//!
//! The crate models the administrative wire protocol as closed tagged
//! unions, decodes every response against the one variant each operation
//! accepts, drives connection establishment with a bounded retry policy,
//! and issues scoped signing credentials whose grant is restricted to a
//! freshly generated keypair.

pub mod admin_calls;
pub mod connect;
pub mod error;
pub mod session;
pub mod signing;
pub mod payloads;
pub mod protocol;
pub mod types;

pub use error::{ConductorApiError, ConductorApiResult};
