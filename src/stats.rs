use vstd::prelude::*;
use vstd::utf8::encode_utf8;

use crate::chat::EnhancedChatMessage;
use crate::text::{is_text_less, lower_of, lowercase, text_less};

verus! {

/// Who wrote a message, as far as the statistics are concerned.
#[derive(Clone, Copy, Debug, PartialEq, Eq, Structural)]
pub enum SenderKind {
    User,
    Assistant,
    System,
}

/// The kind of a sender name already in lower case.
pub open spec fn kind_of(lowered: Seq<char>) -> SenderKind {
    if lowered == "user"@ || lowered == "пользователь"@ || lowered == "вы"@ {
        SenderKind::User
    } else if lowered == "lucy"@ || lowered == "люси"@ || lowered == "ai"@ {
        SenderKind::Assistant
    } else {
        SenderKind::System
    }
}

/// Whether a string holds exactly the given text.
fn is_text(s: &String, literal: &str) -> (r: bool)
    ensures
        r == (s@ == literal@),
{
    let expected = String::from_str(literal);
    *s == expected
}

/// The kind of a sender name already in lower case.
pub fn lowercase_sender_kind(lowered: &String) -> (r: SenderKind)
    ensures
        r == kind_of(lowered@),
{
    if is_text(lowered, "user") || is_text(lowered, "пользователь") || is_text(lowered, "вы") {
        SenderKind::User
    } else if is_text(lowered, "lucy") || is_text(lowered, "люси") || is_text(lowered, "ai") {
        SenderKind::Assistant
    } else {
        SenderKind::System
    }
}

/// The kind of a sender name, in any case.
pub fn sender_kind(sender: &str) -> (r: SenderKind)
    ensures
        r == kind_of(lower_of(sender@)),
{
    let lowered = lowercase(sender);
    lowercase_sender_kind(&lowered)
}

/// Number of messages from senders of kind `k`.
pub open spec fn count_kind(s: Seq<EnhancedChatMessage>, k: SenderKind) -> nat
    decreases s.len(),
{
    if s.len() == 0 {
        0
    } else {
        count_kind(s.drop_last(), k) + if kind_of(lower_of(s.last().base.sender@)) == k {
            1nat
        } else {
            0nat
        }
    }
}

/// Length of a text in UTF-8 bytes, as `str::len` reports it.
pub open spec fn byte_len(s: Seq<char>) -> nat {
    (encode_utf8(s).len() as usize) as nat
}

/// Total length of the message texts, in UTF-8 bytes.
pub open spec fn bytes_total(s: Seq<EnhancedChatMessage>) -> nat
    decreases s.len(),
{
    if s.len() == 0 {
        0
    } else {
        bytes_total(s.drop_last()) + byte_len(s.last().base.message@)
    }
}

/// The earliest time stamp, by text order; of equal ones the first.
pub open spec fn earliest(s: Seq<EnhancedChatMessage>) -> Option<Seq<char>>
    decreases s.len(),
{
    if s.len() == 0 {
        None
    } else {
        let t = s.last().base.timestamp@;
        match earliest(s.drop_last()) {
            None => Some(t),
            Some(e) => if text_less(t, e) {
                Some(t)
            } else {
                Some(e)
            },
        }
    }
}

/// The latest time stamp, by text order; of equal ones the first.
pub open spec fn latest(s: Seq<EnhancedChatMessage>) -> Option<Seq<char>>
    decreases s.len(),
{
    if s.len() == 0 {
        None
    } else {
        let t = s.last().base.timestamp@;
        match latest(s.drop_last()) {
            None => Some(t),
            Some(e) => if text_less(e, t) {
                Some(t)
            } else {
                Some(e)
            },
        }
    }
}

/// The text of an optional string.
pub open spec fn opt_text(o: Option<String>) -> Option<Seq<char>> {
    match o {
        Some(s) => Some(s@),
        None => None,
    }
}

/// Counts over a chat history: messages by kind of sender, total text
/// length, and the first and last time stamps. The average length is the
/// total divided by the number of messages.
#[derive(Clone, Debug)]
pub struct ChatTally {
    pub total_messages: usize,
    pub user_messages: usize,
    pub lucy_messages: usize,
    pub system_messages: usize,
    pub total_length: u128,
    pub first_message_time: Option<String>,
    pub last_message_time: Option<String>,
}

impl ChatTally {
    /// Tallies a list of messages.
    pub fn from_messages(messages: &Vec<EnhancedChatMessage>) -> (r: ChatTally)
        ensures
            r.total_messages == messages@.len(),
            r.user_messages == count_kind(messages@, SenderKind::User),
            r.lucy_messages == count_kind(messages@, SenderKind::Assistant),
            r.system_messages == count_kind(messages@, SenderKind::System),
            r.total_length == bytes_total(messages@),
            opt_text(r.first_message_time) == earliest(messages@),
            opt_text(r.last_message_time) == latest(messages@),
    {
        let n = messages.len();
        let mut user: usize = 0;
        let mut lucy: usize = 0;
        let mut system: usize = 0;
        let mut total: u128 = 0;
        let mut first: Option<String> = None;
        let mut last: Option<String> = None;
        let mut i: usize = 0;
        while i < n
            invariant
                n == messages@.len(),
                i <= n,
                user == count_kind(messages@.subrange(0, i as int), SenderKind::User),
                lucy == count_kind(messages@.subrange(0, i as int), SenderKind::Assistant),
                system == count_kind(messages@.subrange(0, i as int), SenderKind::System),
                user + lucy + system == i,
                total == bytes_total(messages@.subrange(0, i as int)),
                total <= i * 0x1_0000_0000_0000_0000,
                opt_text(first) == earliest(messages@.subrange(0, i as int)),
                opt_text(last) == latest(messages@.subrange(0, i as int)),
            decreases n - i,
        {
            let ghost prefix = messages@.subrange(0, i as int);
            let ghost next = messages@.subrange(0, i + 1);
            assert(next.drop_last() =~= prefix);
            assert(next.last() == messages@[i as int]);
            let m = &messages[i];
            match sender_kind(m.base.sender.as_str()) {
                SenderKind::User => user = user + 1,
                SenderKind::Assistant => lucy = lucy + 1,
                SenderKind::System => system = system + 1,
            }
            let text = m.base.message.as_str();
            let len = text.len();
            assert(text@ == m.base.message@);
            assert(len == byte_len(m.base.message@));
            assert(total + len <= (i + 1) * 0x1_0000_0000_0000_0000) by (nonlinear_arith)
                requires
                    total <= i * 0x1_0000_0000_0000_0000,
                    len <= 0xffff_ffff_ffff_ffff,
            ;
            assert((i + 1) * 0x1_0000_0000_0000_0000 <= 0x1_0000_0000_0000_0000 * 0x1_0000_0000_0000_0000)
                by (nonlinear_arith)
                requires
                    i < 0xffff_ffff_ffff_ffff,
            ;
            total = total + len as u128;
            let stamp = m.base.timestamp.as_str();
            let replace_first = match &first {
                None => true,
                Some(f) => is_text_less(stamp, f.as_str()),
            };
            if replace_first {
                first = Some(m.base.timestamp.clone());
            }
            let replace_last = match &last {
                None => true,
                Some(l) => is_text_less(l.as_str(), stamp),
            };
            if replace_last {
                last = Some(m.base.timestamp.clone());
            }
            i = i + 1;
        }
        assert(messages@.subrange(0, n as int) =~= messages@);
        ChatTally {
            total_messages: n,
            user_messages: user,
            lucy_messages: lucy,
            system_messages: system,
            total_length: total,
            first_message_time: first,
            last_message_time: last,
        }
    }
}

} // verus!
