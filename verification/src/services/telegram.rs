//! Telegram notifications: the bot token and chat id of a user and the
//! request that sends a message.

use crate::api::opt_str;
use crate::db::{find_key_value, lookup_key, ApiKeyRecord};
use vstd::prelude::*;
use vstd::string::*;

verus! {

/// A stored value, or the empty string when it is missing.
pub open spec fn value_or_empty(v: Option<Seq<char>>) -> Seq<char> {
    match v {
        Some(s) => s,
        None => seq![],
    }
}

/// The user's Telegram bot token and chat id from the stored keys (empty
/// when missing).
pub fn telegram_credentials(keys: &Vec<ApiKeyRecord>) -> (creds: (String, String))
    ensures
        creds.0@ == value_or_empty(lookup_key(keys@, "telegram_bot_token"@)),
        creds.1@ == value_or_empty(lookup_key(keys@, "telegram_chat_id"@)),
{
    let token = match find_key_value(keys, "telegram_bot_token") {
        Some(t) => t,
        None => String::new(),
    };
    let chat_id = match find_key_value(keys, "telegram_chat_id") {
        Some(c) => c,
        None => String::new(),
    };
    (token, chat_id)
}

/// Whether a message can be sent: both the token and the chat id are set.
/// Without them the notification is skipped, which is not an error.
pub fn can_send(token: &str, chat_id: &str) -> (res: bool)
    ensures
        res == (token@.len() > 0 && chat_id@.len() > 0),
{
    !token.is_empty() && !chat_id.is_empty()
}

/// The Bot API URL that sends a message with a token.
pub fn send_message_url(token: &str) -> (url: String)
    ensures
        url@ == "https://api.telegram.org/bot"@ + token@ + "/sendMessage"@,
{
    let mut url = "https://api.telegram.org/bot".to_string();
    url.append(token);
    url.append("/sendMessage");
    url
}

} // verus!
