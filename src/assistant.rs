use vstd::prelude::*;

use crate::text::{contains_text, lower_of, lowercase, occurs_in};

verus! {

/// One turn of a conversation with the assistant.
#[derive(Clone, Debug)]
pub struct AssistantMessage {
    pub role: String,
    pub content: String,
}

/// The conversation with the assistant so far.
pub struct AssistantState {
    pub conversation: Vec<AssistantMessage>,
}

impl AssistantState {
    /// A state with an empty conversation.
    pub fn new() -> (r: AssistantState)
        ensures
            r.conversation@.len() == 0,
    {
        AssistantState { conversation: Vec::new() }
    }
}

/// The action, as JSON text, for a spoken command already in lower case:
/// the first group of words found decides, and a command with none of them
/// gets a chat reply that lists examples.
pub open spec fn command_reply(cmd: Seq<char>) -> Seq<char> {
    if occurs_in(cmd, "курсор"@) {
        "{\"action\": \"open_cursors\"}"@
    } else if occurs_in(cmd, "питом"@) || occurs_in(cmd, "pet"@) {
        "{\"action\": \"add_pet\"}"@
    } else if occurs_in(cmd, "обои"@) || occurs_in(cmd, "wallpaper"@) {
        "{\"action\": \"open_wallpaper\"}"@
    } else if occurs_in(cmd, "панель"@) || occurs_in(cmd, "toolbar"@) {
        "{\"action\": \"open_toolbar\"}"@
    } else if occurs_in(cmd, "окн"@) || occurs_in(cmd, "переключ"@) {
        "{\"action\": \"open_task_switcher\"}"@
    } else if occurs_in(cmd, "сверн"@) || occurs_in(cmd, "спрячь"@) {
        "{\"action\": \"minimize\"}"@
    } else if occurs_in(cmd, "закр"@) || occurs_in(cmd, "выход"@) || occurs_in(cmd, "quit"@) {
        "{\"action\": \"quit\"}"@
    } else {
        "{\"action\": \"chat\", \"response\": \"Извините, я не понял команду. Попробуйте: 'открой курсоры', 'добавь питомца', 'открой обои'\"}"@
    }
}

/// The action for a spoken command, in any case, found without the language
/// model.
pub fn parse_command_simple(command: &str) -> (r: String)
    ensures
        r@ == command_reply(lower_of(command@)),
{
    let cmd = lowercase(command);
    reply_for_lowercase(cmd.as_str())
}

/// The action for a spoken command already in lower case.
pub fn reply_for_lowercase(cmd: &str) -> (r: String)
    ensures
        r@ == command_reply(cmd@),
{
    if contains_text(cmd, "курсор") {
        String::from_str("{\"action\": \"open_cursors\"}")
    } else if contains_text(cmd, "питом") || contains_text(cmd, "pet") {
        String::from_str("{\"action\": \"add_pet\"}")
    } else if contains_text(cmd, "обои") || contains_text(cmd, "wallpaper") {
        String::from_str("{\"action\": \"open_wallpaper\"}")
    } else if contains_text(cmd, "панель") || contains_text(cmd, "toolbar") {
        String::from_str("{\"action\": \"open_toolbar\"}")
    } else if contains_text(cmd, "окн") || contains_text(cmd, "переключ") {
        String::from_str("{\"action\": \"open_task_switcher\"}")
    } else if contains_text(cmd, "сверн") || contains_text(cmd, "спрячь") {
        String::from_str("{\"action\": \"minimize\"}")
    } else if contains_text(cmd, "закр") || contains_text(cmd, "выход") || contains_text(
        cmd,
        "quit",
    ) {
        String::from_str("{\"action\": \"quit\"}")
    } else {
        String::from_str(
            "{\"action\": \"chat\", \"response\": \"Извините, я не понял команду. Попробуйте: 'открой курсоры', 'добавь питомца', 'открой обои'\"}",
        )
    }
}

} // verus!
