//! A tool that marks a mailbox message as read through the shared
//! authentication hub. Construction registers the scope the tool needs; the
//! handshake and the API call are external collaborators run by the
//! composing layer.

use vstd::prelude::*;

use crate::utils::context_hub::{spec_register, AuthHandle, ContextHub};
use crate::utils::google_auth::GmailScope;

verus! {

/// An error of the mailbox tool.
#[derive(Debug)]
pub enum GmailToolError {
    /// The tool could not be built.
    BuildError(String),
    /// Marking the message as read failed.
    MarkUnreadError(String),
}

/// A builder for [`GmailTool`].
///
/// Construction registers the modify scope the tool needs with the shared
/// hub; the authentication handshake itself is performed later, once, for
/// all consumers together.
pub struct GmailToolBuilder;

impl GmailToolBuilder {
    /// Creates a builder, registering the modify scope with the hub.
    pub fn new(hub: &mut ContextHub) -> (r: Self)
        ensures
            final(hub).spec_scopes() == spec_register(old(hub).spec_scopes(), GmailScope::Modify),
            final(hub).spec_hub() == old(hub).spec_hub(),
            old(hub).wf() ==> final(hub).wf(),
    {
        hub.add_scope(GmailScope::Modify);
        Self
    }
}

/// The arguments of the mailbox tool.
pub struct GTArgs {
    /// The identifier of the message to mark as read.
    pub message_id: String,
}

/// A tool that marks a message as read through a shared authenticated
/// session.
pub struct GmailTool {
    /// The handle of the authenticated session the tool calls with.
    pub hub: AuthHandle,
}

} // verus!
