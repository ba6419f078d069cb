use vstd::prelude::*;

use crate::chat::{
    filter_accepts, ChatConfig, ChatEvent, ChatMessage, EnhancedChatMessage, MessageFilter,
    MessagePriority,
};

use crate::stats::{bytes_total, count_kind, earliest, latest, opt_text, ChatTally, SenderKind};

verus! {

/// What a message holds, for comparing copies.
pub type MessageView = (ChatMessage, MessagePriority, bool, Option<String>, Seq<(String, String)>);

/// What a message holds.
pub open spec fn message_view(m: EnhancedChatMessage) -> MessageView {
    (m.base, m.priority, m.edited, m.edit_timestamp, m.metadata@)
}

/// What each message of a list holds, in order.
pub open spec fn history_view(s: Seq<EnhancedChatMessage>) -> Seq<MessageView> {
    s.map_values(|m: EnhancedChatMessage| message_view(m))
}

/// The last `max` messages of a list (all of them when there are fewer).
pub open spec fn keep_last<A>(s: Seq<A>, max: nat) -> Seq<A> {
    if s.len() <= max {
        s
    } else {
        s.subrange(s.len() - max, s.len() as int)
    }
}

/// Index of the first message with the given time stamp, which serves as
/// the message's id.
pub open spec fn stamp_index(s: Seq<EnhancedChatMessage>, id: Seq<char>, from: int) -> Option<int>
    decreases s.len() - from,
{
    if from < 0 || from >= s.len() {
        None
    } else if s[from].base.timestamp@ == id {
        Some(from)
    } else {
        stamp_index(s, id, from + 1)
    }
}

/// Whether a message does not carry the given id.
pub open spec fn keeps(m: EnhancedChatMessage, id: Seq<char>) -> bool {
    m.base.timestamp@ != id
}

/// The chat history kept in memory, bounded by the configured number of
/// messages, oldest first, with the events that changes to it raised and that
/// nobody has collected yet.
pub struct ChatManager {
    messages: Vec<EnhancedChatMessage>,
    config: ChatConfig,
    events: Vec<ChatEvent>,
}

impl ChatManager {
    /// The messages, oldest first.
    pub closed spec fn spec_messages(&self) -> Seq<EnhancedChatMessage> {
        self.messages@
    }

    /// The settings.
    pub closed spec fn spec_config(&self) -> ChatConfig {
        self.config
    }

    /// The events not yet collected, oldest first.
    pub closed spec fn spec_events(&self) -> Seq<ChatEvent> {
        self.events@
    }

    /// An empty history with the given settings.
    pub fn new(config: ChatConfig) -> (r: ChatManager)
        ensures
            r.spec_messages().len() == 0,
            r.spec_events().len() == 0,
            r.spec_config() == config,
    {
        ChatManager { messages: Vec::new(), config, events: Vec::new() }
    }

    /// Appends a message, dropping the oldest ones beyond the configured
    /// maximum, and raises `MessageAdded`. Returns whether the message is to
    /// be saved (auto-save is on).
    pub fn add_message(&mut self, message: EnhancedChatMessage) -> (r: bool)
        ensures
            history_view(final(self).spec_messages()) == keep_last(
                history_view(old(self).spec_messages().push(message)),
                old(self).spec_config().max_messages as nat,
            ),
            final(self).spec_events() == old(self).spec_events().push(
                ChatEvent::MessageAdded(message.base),
            ),
            final(self).spec_config() == old(self).spec_config(),
            r == old(self).spec_config().auto_save,
    {
        let ghost pushed = history_view(self.messages@.push(message));
        let base = message.base.clone();
        self.messages.push(message);
        assert(history_view(self.messages@) =~= pushed);
        let max = self.config.max_messages;
        while self.messages.len() > max
            invariant
                max == self.config.max_messages,
                self.events@ == old(self).events@,
                self.config == old(self).config,
                pushed.len() >= self.messages@.len(),
                self.messages@.len() >= (if pushed.len() <= max {
                    pushed.len()
                } else {
                    max as nat
                }),
                history_view(self.messages@) == pushed.subrange(
                    pushed.len() - self.messages@.len(),
                    pushed.len() as int,
                ),
            decreases self.messages@.len(),
        {
            let ghost before = self.messages@;
            self.messages.remove(0);
            assert(self.messages@ =~= before.subrange(1, before.len() as int));
            assert forall|k: int| 0 <= k < self.messages@.len() implies #[trigger] history_view(
                self.messages@,
            )[k] == pushed[pushed.len() - self.messages@.len() + k] by {
                assert(history_view(before)[k + 1] == message_view(before[k + 1]));
            }
            assert(history_view(self.messages@) =~= pushed.subrange(
                pushed.len() - self.messages@.len(),
                pushed.len() as int,
            ));
        }
        assert(history_view(self.messages@) =~= keep_last(pushed, max as nat));
        self.events.push(ChatEvent::MessageAdded(base));
        self.config.auto_save
    }

    /// Replaces the text of the first message whose time stamp is
    /// `message_id`, marks it edited and raises `MessageUpdated`; no such
    /// message is an error.
    pub fn edit_message(&mut self, message_id: &str, new_content: &str) -> (r: Result<(), String>)
        ensures
            match stamp_index(old(self).spec_messages(), message_id@, 0) {
                Some(i) => {
                    &&& r is Ok
                    &&& final(self).spec_messages().len() == old(self).spec_messages().len()
                    &&& forall|j: int|
                        0 <= j < old(self).spec_messages().len() && j != i ==> message_view(
                            #[trigger] final(self).spec_messages()[j],
                        ) == message_view(old(self).spec_messages()[j])
                    &&& final(self).spec_messages()[i].base.message@ == new_content@
                    &&& final(self).spec_messages()[i].base.sender == old(
                        self,
                    ).spec_messages()[i].base.sender
                    &&& final(self).spec_messages()[i].base.timestamp == old(
                        self,
                    ).spec_messages()[i].base.timestamp
                    &&& final(self).spec_messages()[i].edited
                    &&& final(self).spec_events() == old(self).spec_events().push(
                        ChatEvent::MessageUpdated(final(self).spec_messages()[i].base),
                    )
                },
                None => {
                    &&& r is Err
                    &&& final(self).spec_messages() == old(self).spec_messages()
                    &&& final(self).spec_events() == old(self).spec_events()
                },
            },
            final(self).spec_config() == old(self).spec_config(),
    {
        let wanted = String::from_str(message_id);
        let mut i: usize = 0;
        while i < self.messages.len()
            invariant
                i <= self.messages@.len(),
                self.messages@ == old(self).messages@,
                self.events@ == old(self).events@,
                self.config == old(self).config,
                wanted@ == message_id@,
                stamp_index(self.messages@, message_id@, 0) == stamp_index(
                    self.messages@,
                    message_id@,
                    i as int,
                ),
            decreases self.messages@.len() - i,
        {
            if self.messages[i].base.timestamp == wanted {
                let ghost before = self.messages@;
                let mut m = self.messages.remove(i);
                m.edit_message(String::from_str(new_content));
                let base = m.base.clone();
                self.messages.insert(i, m);
                assert forall|j: int| 0 <= j < before.len() && j != i implies message_view(
                    #[trigger] self.messages@[j],
                ) == message_view(before[j]) by {
                    if j < i {
                        assert(self.messages@[j] == before[j]);
                    } else {
                        assert(self.messages@[j] == before[j]);
                    }
                }
                self.events.push(ChatEvent::MessageUpdated(base));
                return Ok(());
            }
            i = i + 1;
        }
        Err(String::from_str("Message not found"))
    }

    /// Removes every message whose time stamp is `message_id` and raises
    /// `MessageDeleted`; no such message is an error.
    pub fn delete_message(&mut self, message_id: &str) -> (r: Result<(), String>)
        ensures
            final(self).spec_messages() == old(self).spec_messages().filter(
                |m: EnhancedChatMessage| keeps(m, message_id@),
            ),
            r is Ok <==> final(self).spec_messages().len() < old(self).spec_messages().len(),
            r is Ok ==> final(self).spec_events().len() == old(self).spec_events().len() + 1,
            r is Err ==> final(self).spec_events() == old(self).spec_events(),
            final(self).spec_config() == old(self).spec_config(),
    {
        let wanted = String::from_str(message_id);
        let ghost all = self.messages@;
        let mut kept: Vec<EnhancedChatMessage> = Vec::new();
        let mut rest: Vec<EnhancedChatMessage> = Vec::new();
        core::mem::swap(&mut self.messages, &mut rest);
        let n = rest.len();
        let mut i: usize = 0;
        proof {
            reveal_with_fuel(Seq::filter, 1);
        }
        assert(all.subrange(0, 0).filter(|m: EnhancedChatMessage| keeps(m, message_id@)) =~= kept@);
        assert(rest@ =~= all.subrange(0, n as int));
        while i < n
            invariant
                n == all.len(),
                rest@ == all.subrange(i as int, n as int),
                i <= n,
                wanted@ == message_id@,
                self.events@ == old(self).events@,
                self.config == old(self).config,
                kept@ == all.subrange(0, i as int).filter(
                    |m: EnhancedChatMessage| keeps(m, message_id@),
                ),
            decreases n - i,
        {
            proof {
                reveal_with_fuel(Seq::filter, 1);
                assert(all.subrange(0, i + 1).drop_last() =~= all.subrange(0, i as int));
            }
            let m = rest.remove(0);
            assert(rest@ =~= all.subrange(i + 1, n as int));
            if !(m.base.timestamp == wanted) {
                kept.push(m);
            }
            i = i + 1;
        }
        assert(all.subrange(0, n as int) =~= all);
        proof {
            all.lemma_filter_len(|m: EnhancedChatMessage| keeps(m, message_id@));
        }
        let removed = kept.len() < n;
        self.messages = kept;
        if removed {
            self.events.push(ChatEvent::MessageDeleted(wanted));
            Ok(())
        } else {
            Err(String::from_str("Message not found"))
        }
    }

    /// Removes every message and raises `HistoryCleared`.
    pub fn clear_history(&mut self)
        ensures
            final(self).spec_messages().len() == 0,
            final(self).spec_events() == old(self).spec_events().push(ChatEvent::HistoryCleared),
            final(self).spec_config() == old(self).spec_config(),
    {
        self.messages.clear();
        self.events.push(ChatEvent::HistoryCleared);
    }

    /// Copies of the messages that pass the filter, oldest first; every
    /// message without a filter.
    pub fn get_messages(&self, filter: Option<MessageFilter>) -> (r: Vec<EnhancedChatMessage>)
        ensures
            history_view(r@) == history_view(
                match filter {
                    Some(f) => self.spec_messages().filter(
                        |m: EnhancedChatMessage| filter_accepts(f, m),
                    ),
                    None => self.spec_messages(),
                },
            ),
    {
        let ghost all = self.messages@;
        let mut out: Vec<EnhancedChatMessage> = Vec::new();
        let n = self.messages.len();
        let mut i: usize = 0;
        proof {
            reveal_with_fuel(Seq::filter, 1);
        }
        assert(history_view(out@) =~= history_view(
            match filter {
                Some(f) => all.subrange(0, 0).filter(|m: EnhancedChatMessage| filter_accepts(f, m)),
                None => all.subrange(0, 0),
            },
        ));
        while i < n
            invariant
                n == all.len(),
                all == self.messages@,
                i <= n,
                history_view(out@) == history_view(
                    match filter {
                        Some(f) => all.subrange(0, i as int).filter(
                            |m: EnhancedChatMessage| filter_accepts(f, m),
                        ),
                        None => all.subrange(0, i as int),
                    },
                ),
            decreases n - i,
        {
            proof {
                reveal_with_fuel(Seq::filter, 1);
                assert(all.subrange(0, i + 1).drop_last() =~= all.subrange(0, i as int));
            }
            let wanted = match &filter {
                Some(f) => f.matches(&self.messages[i]),
                None => true,
            };
            if wanted {
                let copy = self.messages[i].clone();
                let ghost prev = out@;
                out.push(copy);
                assert(history_view(out@) =~= history_view(prev).push(message_view(all[i as int])));
            }
            i = i + 1;
        }
        assert(all.subrange(0, n as int) =~= all);
        out
    }

    /// Copies of the last `count` messages (all of them when there are fewer),
    /// oldest first.
    pub fn get_recent_messages(&self, count: usize) -> (r: Vec<EnhancedChatMessage>)
        ensures
            history_view(r@) == keep_last(history_view(self.spec_messages()), count as nat),
    {
        let n = self.messages.len();
        let start = if n > count {
            n - count
        } else {
            0
        };
        let mut out: Vec<EnhancedChatMessage> = Vec::new();
        let mut i: usize = start;
        while i < n
            invariant
                start <= i <= n,
                n == self.messages@.len(),
                history_view(out@) == history_view(self.messages@).subrange(
                    start as int,
                    i as int,
                ),
            decreases n - i,
        {
            let ghost prev = out@;
            let copy = self.messages[i].clone();
            assert(message_view(copy) == history_view(self.messages@)[i as int]);
            out.push(copy);
            assert(history_view(out@) =~= history_view(prev).push(message_view(copy)));
            i = i + 1;
            assert(history_view(out@) =~= history_view(self.messages@).subrange(
                start as int,
                i as int,
            ));
        }
        assert(history_view(self.messages@).subrange(0, n as int) =~= history_view(
            self.messages@,
        ));
        out
    }

    /// Counts over the messages held.
    pub fn get_stats(&self) -> (r: ChatTally)
        ensures
            r.total_messages == self.spec_messages().len(),
            r.user_messages == count_kind(self.spec_messages(), SenderKind::User),
            r.lucy_messages == count_kind(self.spec_messages(), SenderKind::Assistant),
            r.system_messages == count_kind(self.spec_messages(), SenderKind::System),
            r.total_length == bytes_total(self.spec_messages()),
            opt_text(r.first_message_time) == earliest(self.spec_messages()),
            opt_text(r.last_message_time) == latest(self.spec_messages()),
    {
        ChatTally::from_messages(&self.messages)
    }

    /// Hands over the events raised since the last call, oldest first.
    pub fn take_events(&mut self) -> (r: Vec<ChatEvent>)
        ensures
            r@ == old(self).spec_events(),
            final(self).spec_events().len() == 0,
            final(self).spec_messages() == old(self).spec_messages(),
            final(self).spec_config() == old(self).spec_config(),
    {
        let mut taken: Vec<ChatEvent> = Vec::new();
        core::mem::swap(&mut self.events, &mut taken);
        taken
    }

    /// Replaces the history with messages loaded from storage.
    pub fn load_history(&mut self, messages: Vec<EnhancedChatMessage>)
        ensures
            final(self).spec_messages() == messages@,
            final(self).spec_events() == old(self).spec_events(),
            final(self).spec_config() == old(self).spec_config(),
    {
        self.messages = messages;
    }

    /// Replaces the settings.
    pub fn update_config(&mut self, config: ChatConfig)
        ensures
            final(self).spec_config() == config,
            final(self).spec_messages() == old(self).spec_messages(),
            final(self).spec_events() == old(self).spec_events(),
    {
        self.config = config;
    }

    /// The settings.
    pub fn get_config(&self) -> (r: &ChatConfig)
        ensures
            *r == self.spec_config(),
    {
        &self.config
    }

    /// Number of messages held.
    pub fn message_count(&self) -> (r: usize)
        ensures
            r == self.spec_messages().len(),
    {
        self.messages.len()
    }

    /// Whether no message is held.
    pub fn is_empty(&self) -> (r: bool)
        ensures
            r == (self.spec_messages().len() == 0),
    {
        self.messages.len() == 0
    }
}

} // verus!
