//! A tool that marks a mailbox message as read by removing its unread
//! label. This variant authenticates on each call from its own
//! configuration; the API call is an external collaborator run by the
//! composing layer. The library holds the configuration and the exact
//! request the tool issues.

use vstd::prelude::*;

use crate::utils::google_auth::GConf;

verus! {

/// An error of the mailbox tool.
#[derive(Debug)]
pub enum GmailToolError {
    /// Authentication for the tool failed.
    GmailAuthError(String),
    /// Marking the message as read failed.
    MarkUnreadError(String),
    /// The background task running the call failed.
    SpawnError(String),
}

/// The arguments of the mailbox tool.
pub struct GTArgs {
    /// The identifier of the message to mark as read.
    pub message_id: String,
}

/// A request to change the labels of a message: the label identifiers to
/// add, and those to remove.
pub struct LabelChange {
    /// The labels to add to the message.
    pub add_label_ids: Option<Vec<String>>,
    /// The labels to remove from the message.
    pub remove_label_ids: Option<Vec<String>>,
}

/// The label change that marks a message as read: remove the `UNREAD` label,
/// add nothing.
pub fn mark_read_change() -> (r: LabelChange)
    ensures
        r.add_label_ids is None,
        r.remove_label_ids is Some,
        r.remove_label_ids->0@.len() == 1,
        r.remove_label_ids->0@[0]@ == "UNREAD"@,
{
    let mut remove: Vec<String> = Vec::new();
    remove.push("UNREAD".to_owned());
    LabelChange { add_label_ids: None, remove_label_ids: Some(remove) }
}

/// A tool that marks a message as read, authenticating from its own
/// configuration.
#[derive(Clone)]
pub struct GmailTool {
    gconf: GConf,
}

impl GmailTool {
    /// The authentication configuration of this tool.
    pub closed spec fn spec_gconf(&self) -> GConf {
        self.gconf
    }

    /// Creates the tool with the given authentication configuration.
    pub fn new(gconf: GConf) -> (r: Self)
        ensures
            r.spec_gconf() == gconf,
    {
        Self { gconf }
    }

    /// The authentication configuration of this tool.
    pub fn gconf(&self) -> (r: &GConf)
        ensures
            *r == self.spec_gconf(),
    {
        &self.gconf
    }
}

} // verus!
