//! A trigger that watches a mailbox for new unread messages. The polling of
//! the mailbox API is an external collaborator run by the composing layer;
//! the library holds the scope registration the trigger needs and decides
//! what each new message emits.

use vstd::prelude::*;

use crate::triggers::event::TEvent;
use crate::utils::context_hub::{spec_register, AuthHandle, ContextHub};
use crate::utils::google_auth::GmailScope;

verus! {

/// A builder for [`GmailWatchTrigger`].
///
/// Construction registers the read-only scope the trigger needs with the
/// shared hub; the authentication handshake itself is performed later,
/// once, for all consumers together.
pub struct GmailWatchTriggerBuilder;

impl GmailWatchTriggerBuilder {
    /// Creates a builder, registering the read-only scope with the hub.
    pub fn new(hub: &mut ContextHub) -> (r: Self)
        ensures
            final(hub).spec_scopes() == spec_register(
                old(hub).spec_scopes(),
                GmailScope::Readonly,
            ),
            final(hub).spec_hub() == old(hub).spec_hub(),
            old(hub).wf() ==> final(hub).wf(),
    {
        hub.add_scope(GmailScope::Readonly);
        Self
    }
}

/// A trigger that watches for new unread messages in a mailbox.
pub struct GmailWatchTrigger {
    /// The handle of the authenticated session the trigger polls with.
    pub hub: AuthHandle,
}

impl GmailWatchTrigger {
    /// The event a newly seen message emits: named `NewEmail`, carrying the
    /// message's JSON document as payload.
    pub fn new_email_event(message_json: String) -> (r: TEvent)
        ensures
            r.name@ == "NewEmail"@,
            r.spec_payload() == Some(message_json@),
    {
        TEvent { name: "NewEmail".to_owned(), payload: Some(message_json) }
    }
}

} // verus!
