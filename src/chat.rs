use vstd::prelude::*;

use crate::keyed::{key_index, lemma_key_index_at, with_entry};
use crate::text::{contains_text, is_text_less, lower_of, lowercase, occurs_in, text_less};

verus! {

/// Relies on std's `SystemTime::now` and `SystemTime::duration_since`: the time
/// elapsed since the Unix epoch as whole seconds and nanoseconds, the flag
/// telling whether the clock reads after the epoch (`true`) or before it.
/// Nothing is promised of the time itself; the nanoseconds are below one
/// second, as `Duration::subsec_nanos` documents.
#[verifier::external_body]
fn clock_since_epoch() -> (r: (bool, u64, u32))
    ensures
        r.2 < 1_000_000_000,
{
    match std::time::SystemTime::now().duration_since(std::time::UNIX_EPOCH) {
        Ok(d) => (true, d.as_secs(), d.subsec_nanos()),
        Err(e) => (false, e.duration().as_secs(), e.duration().subsec_nanos()),
    }
}

/// Relies on chrono's `DateTime::<Utc>::from_timestamp`, which returns `None`
/// for a moment it cannot represent, and `DateTime::to_rfc3339`.
#[verifier::external_body]
fn rfc3339_at(seconds: i64, nanos: u32) -> (r: Option<String>) {
    chrono::DateTime::<chrono::Utc>::from_timestamp(seconds, nanos).map(|t| t.to_rfc3339())
}

/// The moment `sign * (seconds + nanos / 10^9)` as whole seconds (rounded
/// down) and the nanoseconds past them, or `None` when the seconds do not fit
/// an `i64`.
pub fn unix_timestamp_parts(after_epoch: bool, seconds: u64, nanos: u32) -> (r: Option<(i64, u32)>)
    requires
        nanos < 1_000_000_000,
    ensures
        seconds > i64::MAX ==> r is None,
        seconds <= i64::MAX ==> r is Some,
        r matches Some(p) ==> {
            &&& p.1 < 1_000_000_000
            &&& p.0 * 1_000_000_000 + p.1 == (if after_epoch {
                1int
            } else {
                -1int
            }) * (seconds * 1_000_000_000 + nanos)
        },
{
    if seconds > i64::MAX as u64 {
        return None;
    }
    let s = seconds as i64;
    if after_epoch {
        Some((s, nanos))
    } else if nanos == 0 {
        Some((-s, 0))
    } else {
        Some((-s - 1, 1_000_000_000 - nanos))
    }
}

/// The current time as RFC 3339 text; empty in the unlikely case that the
/// clock reads a moment the calendar cannot represent. Nothing is promised of
/// its value.
pub fn get_timestamp() -> (r: String) {
    let (after, seconds, nanos) = clock_since_epoch();
    match unix_timestamp_parts(after, seconds, nanos) {
        Some((s, n)) => match rfc3339_at(s, n) {
            Some(text) => text,
            None => String::new(),
        },
        None => String::new(),
    }
}

/// One message of a conversation.
#[derive(Debug)]
pub struct ChatMessage {
    pub message: String,
    pub sender: String,
    pub timestamp: String,
}

impl Clone for ChatMessage {
    fn clone(&self) -> (r: ChatMessage)
        ensures
            r == *self,
    {
        ChatMessage {
            message: self.message.clone(),
            sender: self.sender.clone(),
            timestamp: self.timestamp.clone(),
        }
    }
}

/// Settings of the chat history.
#[derive(Clone, Debug)]
pub struct ChatConfig {
    pub max_messages: usize,
    pub auto_save: bool,
    pub storage_path: String,
}

impl Default for ChatConfig {
    fn default() -> (r: ChatConfig)
        ensures
            r.max_messages == 1000,
            r.auto_save,
            r.storage_path@ == "chat_history.json"@,
    {
        ChatConfig {
            max_messages: 1000,
            auto_save: true,
            storage_path: String::from_str("chat_history.json"),
        }
    }
}

/// Something that happened to the chat history.
#[derive(Clone, Debug)]
pub enum ChatEvent {
    MessageAdded(ChatMessage),
    MessageUpdated(ChatMessage),
    MessageDeleted(String),
    HistoryCleared,
    Error(String),
}

/// How urgent a message is, least first.
#[derive(Clone, Copy, Debug, PartialEq, Eq, Structural, PartialOrd, Ord, Hash)]
pub enum MessagePriority {
    Low,
    Normal,
    High,
    System,
}

impl Default for MessagePriority {
    fn default() -> (r: MessagePriority)
        ensures
            r == MessagePriority::Normal,
    {
        MessagePriority::Normal
    }
}

/// Key-value pairs as text.
pub open spec fn pairs_view(m: Seq<(String, String)>) -> Seq<(Seq<char>, Seq<char>)> {
    m.map_values(|p: (String, String)| (p.0@, p.1@))
}

/// A message with its priority, edit state and free-form metadata. The
/// metadata is a list of key-value pairs in which each key appears once.
#[derive(Debug)]
pub struct EnhancedChatMessage {
    pub base: ChatMessage,
    pub priority: MessagePriority,
    pub edited: bool,
    pub edit_timestamp: Option<String>,
    pub metadata: Vec<(String, String)>,
}

impl EnhancedChatMessage {
    /// A new, unedited message of normal priority, stamped with the current
    /// time.
    pub fn new(message: String, sender: String) -> (r: EnhancedChatMessage)
        ensures
            r.base.message@ == message@,
            r.base.sender@ == sender@,
            r.priority == MessagePriority::Normal,
            !r.edited,
            r.edit_timestamp is None,
            r.metadata@.len() == 0,
    {
        EnhancedChatMessage {
            base: ChatMessage { message, sender, timestamp: get_timestamp() },
            priority: MessagePriority::Normal,
            edited: false,
            edit_timestamp: None,
            metadata: Vec::new(),
        }
    }

    /// The message with the given priority.
    pub fn with_priority(self, priority: MessagePriority) -> (r: EnhancedChatMessage)
        ensures
            r == (EnhancedChatMessage { priority, ..self }),
    {
        let mut m = self;
        m.priority = priority;
        m
    }

    /// The message with metadata `key` set to `value`.
    pub fn with_metadata(self, key: String, value: String) -> (r: EnhancedChatMessage)
        ensures
            r.base == self.base,
            r.priority == self.priority,
            r.edited == self.edited,
            r.edit_timestamp == self.edit_timestamp,
            pairs_view(r.metadata@) == with_entry(pairs_view(self.metadata@), key@, value@),
    {
        let mut m = self;
        set_pair(&mut m.metadata, key, value);
        m
    }

    /// Replaces the text of the message and marks it edited now.
    pub fn edit_message(&mut self, new_message: String)
        ensures
            final(self).base.message@ == new_message@,
            final(self).base.sender == old(self).base.sender,
            final(self).base.timestamp == old(self).base.timestamp,
            final(self).priority == old(self).priority,
            final(self).edited,
            final(self).edit_timestamp is Some,
            final(self).metadata == old(self).metadata,
    {
        self.base.message = new_message;
        self.edited = true;
        self.edit_timestamp = Some(get_timestamp());
    }
}

/// A copy of a list of text pairs.
fn clone_pairs(pairs: &Vec<(String, String)>) -> (r: Vec<(String, String)>)
    ensures
        r@ == pairs@,
{
    let mut out: Vec<(String, String)> = Vec::new();
    let mut i: usize = 0;
    while i < pairs.len()
        invariant
            i <= pairs@.len(),
            out@ == pairs@.subrange(0, i as int),
        decreases pairs@.len() - i,
    {
        let pair = (pairs[i].0.clone(), pairs[i].1.clone());
        out.push(pair);
        i = i + 1;
        assert(out@ =~= pairs@.subrange(0, i as int));
    }
    assert(out@ =~= pairs@);
    out
}

impl Clone for EnhancedChatMessage {
    fn clone(&self) -> (r: EnhancedChatMessage)
        ensures
            r.base == self.base,
            r.priority == self.priority,
            r.edited == self.edited,
            r.edit_timestamp == self.edit_timestamp,
            r.metadata@ == self.metadata@,
    {
        EnhancedChatMessage {
            base: self.base.clone(),
            priority: self.priority,
            edited: self.edited,
            edit_timestamp: match &self.edit_timestamp {
                Some(t) => Some(t.clone()),
                None => None,
            },
            metadata: clone_pairs(&self.metadata),
        }
    }
}

impl From<ChatMessage> for EnhancedChatMessage {
    /// An unedited message of normal priority without metadata.
    fn from(base: ChatMessage) -> (r: EnhancedChatMessage)
        ensures
            r == (EnhancedChatMessage {
                base,
                priority: MessagePriority::Normal,
                edited: false,
                edit_timestamp: None,
                metadata: r.metadata,
            }),
            r.metadata@.len() == 0,
    {
        EnhancedChatMessage {
            priority: MessagePriority::Normal,
            edited: false,
            edit_timestamp: None,
            metadata: Vec::new(),
            base,
        }
    }
}

impl vstd::std_specs::convert::FromSpecImpl<ChatMessage> for EnhancedChatMessage {
    open spec fn obeys_from_spec() -> bool {
        false
    }

    open spec fn from_spec(v: ChatMessage) -> EnhancedChatMessage {
        arbitrary()
    }
}

/// Sets `key` to `value` in a list of pairs.
fn set_pair(pairs: &mut Vec<(String, String)>, key: String, value: String)
    ensures
        pairs_view(final(pairs)@) == with_entry(pairs_view(old(pairs)@), key@, value@),
{
    let ghost before = pairs_view(pairs@);
    let mut i: usize = 0;
    while i < pairs.len()
        invariant
            i <= pairs@.len(),
            pairs_view(pairs@) == before,
            before == pairs_view(old(pairs)@),
            key_index(before.subrange(0, i as int), key@) is None,
        decreases pairs@.len() - i,
    {
        assert(before.subrange(0, i + 1).drop_last() =~= before.subrange(0, i as int));
        if pairs[i].0 == key {
            proof {
                lemma_key_index_at(before, key@, i as int);
            }
            pairs.set(i, (key, value));
            assert(pairs_view(pairs@) =~= with_entry(before, key@, value@));
            return;
        }
        i = i + 1;
    }
    assert(before.subrange(0, before.len() as int) =~= before);
    pairs.push((key, value));
    assert(pairs_view(pairs@) =~= with_entry(before, key@, value@));
}

/// Whether two sender names, both already in lower case, are the same.
pub fn same_folded_sender(a: &str, b: &str) -> (r: bool)
    ensures
        r == (a@ == b@),
{
    let x = String::from_str(a);
    let y = String::from_str(b);
    x == y
}

/// Selects messages by sender, time range, keyword and priority; a criterion
/// that is not set lets every message through.
pub struct MessageFilter {
    pub sender_filter: Option<String>,
    pub date_range: Option<(String, String)>,
    pub keyword_filter: Option<String>,
    pub priority_filter: Option<MessagePriority>,
}

/// Whether a message passes a filter. Senders compare without regard to case,
/// time stamps compare as text, and the keyword is looked for without regard
/// to case.
pub open spec fn filter_accepts(f: MessageFilter, m: EnhancedChatMessage) -> bool {
    &&& (f.sender_filter matches Some(s) ==> lower_of(m.base.sender@) == lower_of(s@))
    &&& (f.date_range matches Some(range) ==> !text_less(m.base.timestamp@, range.0@)
        && !text_less(range.1@, m.base.timestamp@))
    &&& (f.keyword_filter matches Some(k) ==> occurs_in(lower_of(m.base.message@), lower_of(k@)))
    &&& (f.priority_filter matches Some(p) ==> m.priority == p)
}

impl MessageFilter {
    /// A filter that lets every message through.
    pub fn new() -> (r: MessageFilter)
        ensures
            r.sender_filter is None,
            r.date_range is None,
            r.keyword_filter is None,
            r.priority_filter is None,
    {
        MessageFilter {
            sender_filter: None,
            date_range: None,
            keyword_filter: None,
            priority_filter: None,
        }
    }

    /// The filter, also requiring the given sender.
    pub fn with_sender(self, sender: String) -> (r: MessageFilter)
        ensures
            r == (MessageFilter { sender_filter: Some(sender), ..self }),
    {
        let mut f = self;
        f.sender_filter = Some(sender);
        f
    }

    /// The filter, also requiring a time stamp from `start` to `end`, both
    /// included.
    pub fn with_date_range(self, start: String, end: String) -> (r: MessageFilter)
        ensures
            r == (MessageFilter { date_range: Some((start, end)), ..self }),
    {
        let mut f = self;
        f.date_range = Some((start, end));
        f
    }

    /// The filter, also requiring the keyword in the text.
    pub fn with_keyword(self, keyword: String) -> (r: MessageFilter)
        ensures
            r == (MessageFilter { keyword_filter: Some(keyword), ..self }),
    {
        let mut f = self;
        f.keyword_filter = Some(keyword);
        f
    }

    /// The filter, also requiring the given priority.
    pub fn with_priority(self, priority: MessagePriority) -> (r: MessageFilter)
        ensures
            r == (MessageFilter { priority_filter: Some(priority), ..self }),
    {
        let mut f = self;
        f.priority_filter = Some(priority);
        f
    }

    /// Whether the message passes every criterion that is set.
    pub fn matches(&self, message: &EnhancedChatMessage) -> (r: bool)
        ensures
            r == filter_accepts(*self, *message),
    {
        match &self.sender_filter {
            Some(sender) => {
                let a = lowercase(message.base.sender.as_str());
                let b = lowercase(sender.as_str());
                if !same_folded_sender(a.as_str(), b.as_str()) {
                    return false;
                }
            },
            None => {},
        }
        match &self.date_range {
            Some((start, end)) => {
                let time = message.base.timestamp.as_str();
                if is_text_less(time, start.as_str()) || is_text_less(end.as_str(), time) {
                    return false;
                }
            },
            None => {},
        }
        match &self.keyword_filter {
            Some(keyword) => {
                let text = lowercase(message.base.message.as_str());
                let key = lowercase(keyword.as_str());
                if !contains_text(text.as_str(), key.as_str()) {
                    return false;
                }
            },
            None => {},
        }
        match &self.priority_filter {
            Some(priority) => {
                if message.priority != *priority {
                    return false;
                }
            },
            None => {},
        }
        true
    }
}

impl Default for MessageFilter {
    fn default() -> (r: MessageFilter)
        ensures
            r.sender_filter is None,
            r.date_range is None,
            r.keyword_filter is None,
            r.priority_filter is None,
    {
        MessageFilter::new()
    }
}

} // verus!
