//! A trigger that listens for chat-bot messages. The long-poll protocol is
//! an external collaborator run by the composing layer; the library holds
//! the token configuration and its validation.

use vstd::prelude::*;

use crate::triggers::event::{decimal_string, json_string_repr, spec_decimal, TEvent};
use crate::triggers::TriggerError;

verus! {

/// The payload document of a chat-message event: the message and chat
/// identifiers, the sender's user name (or `null`) and first name, the
/// message text, and the send date as a timestamp.
pub open spec fn spec_message_payload(
    message_id: int,
    chat_id: int,
    username: Option<Seq<char>>,
    first_name: Seq<char>,
    text: Seq<char>,
    date: int,
) -> Seq<char> {
    "{\"message_id\":"@ + spec_decimal(message_id) + ",\"chat_id\":"@ + spec_decimal(chat_id)
        + ",\"username\":"@ + (match username {
        Some(u) => json_string_repr(u),
        None => "null"@,
    }) + ",\"first_name\":"@ + json_string_repr(first_name) + ",\"text\":"@ + json_string_repr(
        text,
    ) + ",\"date\":"@ + spec_decimal(date) + "}"@
}

/// A builder for [`TelegramBotTrigger`]. The bot token is an explicit
/// configuration value resolved by the bootstrap layer.
pub struct TelegramBotTriggerBuilder {
    token: Option<String>,
}

impl TelegramBotTriggerBuilder {
    /// The token set so far, if any.
    pub closed spec fn spec_token(&self) -> Option<Seq<char>> {
        match self.token {
            Some(ref t) => Some(t@),
            None => None,
        }
    }

    /// Creates a new builder with no token set.
    pub fn new() -> (r: Self)
        ensures
            r.spec_token() is None,
    {
        Self { token: None }
    }

    /// Sets the bot token.
    pub fn with_token(self, token: &str) -> (r: Self)
        ensures
            r.spec_token() == Some(token@),
    {
        let mut b = self;
        b.token = Some(token.to_owned());
        b
    }

    /// Builds a `TelegramBotTrigger`: succeeds exactly when a token was set,
    /// and fails to activate otherwise.
    pub fn build(&self) -> (r: Result<TelegramBotTrigger, TriggerError>)
        ensures
            match r {
                Result::Ok(t) => self.spec_token() == Some(t.token@),
                Result::Err(e) => self.spec_token() is None && e is ActivationError,
            },
            r is Ok <==> self.spec_token() is Some,
    {
        match &self.token {
            Some(token) => Ok(TelegramBotTrigger { token: token.clone() }),
            None => Err(TriggerError::ActivationError),
        }
    }
}

/// A trigger that listens for incoming chat-bot messages with the given
/// bot token.
pub struct TelegramBotTrigger {
    /// The bot token the listener authenticates with.
    pub token: String,
}

impl TelegramBotTrigger {
    /// The event an incoming text message emits: named `TelegramMessage`,
    /// carrying the message's identifiers, sender, text and date as payload.
    pub fn message_event(
        message_id: i32,
        chat_id: i64,
        username: Option<&str>,
        first_name: &str,
        text: &str,
        date: i64,
    ) -> (r: TEvent)
        ensures
            r.name@ == "TelegramMessage"@,
            r.spec_payload() == Some(
                spec_message_payload(
                    message_id as int,
                    chat_id as int,
                    match username {
                        Some(u) => Some(u@),
                        None => None,
                    },
                    first_name@,
                    text@,
                    date as int,
                ),
            ),
    {
        let mut payload = "{\"message_id\":".to_owned();
        payload.append(decimal_string(message_id as i64).as_str());
        payload.append(",\"chat_id\":");
        payload.append(decimal_string(chat_id).as_str());
        payload.append(",\"username\":");
        match username {
            Some(u) => payload.append(crate::triggers::event::json_quote(u).as_str()),
            None => payload.append("null"),
        }
        payload.append(",\"first_name\":");
        payload.append(crate::triggers::event::json_quote(first_name).as_str());
        payload.append(",\"text\":");
        payload.append(crate::triggers::event::json_quote(text).as_str());
        payload.append(",\"date\":");
        payload.append(decimal_string(date).as_str());
        payload.append("}");
        TEvent { name: "TelegramMessage".to_owned(), payload: Some(payload) }
    }
}

} // verus!
