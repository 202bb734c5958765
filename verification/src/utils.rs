//! Support subsystems: the template engine boundary, the credential/scope
//! aggregation hub, and the authentication configuration it carries.

pub mod context_hub;
pub mod google_auth;
pub mod template;

pub use template::{TEngine, TEngineError};
