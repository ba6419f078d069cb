use vstd::prelude::*;

use crate::chat::ChatMessage;

verus! {

/// Events passed from the voice assistant's back end to its window.
#[derive(Clone, Debug)]
pub enum AppEvent {
    VoiceStart,
    VoiceEnd,
    ClapDetected,
    MessageReceived(String),
    Error(String),
}

/// The service that turns speech into text.
#[derive(Clone, Copy, Debug, PartialEq, Eq, Structural)]
pub enum SpeechProvider {
    Browser,
    Whisper,
    Google,
    Azure,
    Aws,
}

impl Default for SpeechProvider {
    fn default() -> (r: SpeechProvider)
        ensures
            r == SpeechProvider::Browser,
    {
        SpeechProvider::Browser
    }
}

/// Where speech recognition stands.
#[derive(Clone, Copy, Debug, PartialEq, Eq, Structural)]
pub enum RecognitionState {
    Idle,
    Starting,
    Listening,
    Processing,
    Stopped,
    Error,
}

/// Where the chat history is kept on disk.
pub struct ChatStorage {
    storage_path: String,
}

impl ChatStorage {
    /// The file the history is kept in.
    pub closed spec fn spec_storage_path(&self) -> Seq<char> {
        self.storage_path@
    }

    /// Storage in the file at `storage_path`.
    pub fn new(storage_path: String) -> (r: ChatStorage)
        ensures
            r.spec_storage_path() == storage_path@,
    {
        ChatStorage { storage_path }
    }

    /// The file the history is kept in.
    pub fn storage_path(&self) -> (r: &String)
        ensures
            r@ == self.spec_storage_path(),
    {
        &self.storage_path
    }
}

/// What is known of the history file.
#[derive(Clone, Copy, Debug)]
pub struct StorageInfo {
    pub exists: bool,
    pub size_bytes: u64,
    pub modified: Option<u64>,
}

/// Whether the assistant listens, and the conversation so far.
pub struct AppState {
    pub is_listening: bool,
    pub chat_history: Vec<ChatMessage>,
}

impl Default for AppState {
    fn default() -> (r: AppState)
        ensures
            !r.is_listening,
            r.chat_history@.len() == 0,
    {
        AppState { is_listening: false, chat_history: Vec::new() }
    }
}

impl AppState {
    /// Switches listening on or off and returns the new setting.
    pub fn toggle_listening(&mut self) -> (r: bool)
        ensures
            r == !old(self).is_listening,
            final(self).is_listening == r,
            final(self).chat_history == old(self).chat_history,
    {
        self.is_listening = !self.is_listening;
        self.is_listening
    }
}

} // verus!
