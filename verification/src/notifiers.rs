use vstd::prelude::*;

verus! {

/// Whether an optional setting is present and not empty.
pub open spec fn is_set(o: Option<String>) -> bool {
    o matches Some(s) && s@.len() > 0
}

/// Where the Telegram message about a finding is posted: nowhere unless both
/// the bot token and the chat are set and not empty.
pub fn telegram_endpoint(api_token: &Option<String>, chat_id: &Option<String>) -> (url: Option<String>)
    ensures
        url is Some <==> is_set(*api_token) && is_set(*chat_id),
        url matches Some(u) ==> u@ == "https://api.telegram.org/bot"@ + api_token->Some_0@
            + "/sendMessage"@,
{
    let token = match api_token {
        Some(t) => t,
        None => {
            return None;
        },
    };
    let chat = match chat_id {
        Some(c) => c,
        None => {
            return None;
        },
    };
    if token.as_str().unicode_len() == 0 || chat.as_str().unicode_len() == 0 {
        return None;
    }
    let mut u = String::from_str("https://api.telegram.org/bot");
    u.append(token.as_str());
    u.append("/sendMessage");
    Some(u)
}

/// The Telegram message about a finding whose printed form is `finding`.
pub fn telegram_text(finding: &str) -> (t: String)
    ensures
        t@ == "New vulnerability found:\n```"@ + finding@ + "```"@,
{
    let mut t = String::from_str("New vulnerability found:\n```");
    t.append(finding);
    t.append("```");
    t
}

} // verus!
