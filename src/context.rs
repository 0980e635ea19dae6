//! The per-session state that every task reads and writes: a keyed store of
//! JSON-shaped values and a bounded, timestamped chat history.

use vstd::prelude::*;
use dashmap::DashMap;
use crate::json::JsonValue;
use crate::store::{
    lookup, store_clear, store_entries, store_get, store_insert, store_list, store_new,
    store_remove,
};

verus! {

/// How many messages a history keeps unless told otherwise.
pub const DEFAULT_MAX_MESSAGES: usize = 1000;

/// Who wrote a chat message.
#[derive(Debug, Clone, Copy, PartialEq, Eq, Structural)]
pub enum MessageRole {
    User,
    Assistant,
    System,
}

/// A point in UTC time: whole seconds since the Unix epoch and the
/// nanoseconds past that second.
#[derive(Debug, Clone, Copy, PartialEq, Eq, Structural)]
pub struct Timestamp {
    pub seconds: i64,
    pub nanos: u32,
}

/// `a` is not later than `b`.
pub open spec fn not_after(a: Timestamp, b: Timestamp) -> bool {
    a.seconds < b.seconds || (a.seconds == b.seconds && a.nanos <= b.nanos)
}

impl Timestamp {
    /// The later of two points in time.
    pub fn later_of(self, other: Timestamp) -> (r: Timestamp)
        ensures
            r == (if not_after(self, other) { other } else { self }),
    {
        if self.seconds < other.seconds || (self.seconds == other.seconds && self.nanos
            <= other.nanos) {
            other
        } else {
            self
        }
    }
}

/// Relies on `chrono::Utc::now`: the current UTC time, read as seconds since
/// the epoch and nanoseconds within the second.
#[verifier::external_body]
fn clock_now() -> (r: Timestamp)
    ensures
        r.nanos < 1_000_000_000,
{
    let now = chrono::Utc::now();
    Timestamp { seconds: now.timestamp(), nanos: now.timestamp_subsec_nanos() }
}

/// One chat message.
#[derive(Debug)]
pub struct SerializableMessage {
    pub role: MessageRole,
    pub content: String,
    pub timestamp: Timestamp,
}

impl Clone for SerializableMessage {
    fn clone(&self) -> (r: Self)
        ensures
            r == *self,
    {
        SerializableMessage {
            role: self.role,
            content: self.content.clone(),
            timestamp: self.timestamp,
        }
    }
}

impl SerializableMessage {
    /// A message stamped with the current time.
    pub fn new(role: MessageRole, content: String) -> (r: Self)
        ensures
            r.role == role,
            r.content == content,
    {
        SerializableMessage { role, content, timestamp: clock_now() }
    }

    /// A message with the given time stamp.
    pub fn at(role: MessageRole, content: String, timestamp: Timestamp) -> (r: Self)
        ensures
            r == message(role, content, timestamp),
    {
        SerializableMessage { role, content, timestamp }
    }

    /// A user message stamped with the current time.
    pub fn user(content: String) -> (r: Self)
        ensures
            r.role == MessageRole::User,
            r.content == content,
    {
        Self::new(MessageRole::User, content)
    }

    /// An assistant message stamped with the current time.
    pub fn assistant(content: String) -> (r: Self)
        ensures
            r.role == MessageRole::Assistant,
            r.content == content,
    {
        Self::new(MessageRole::Assistant, content)
    }

    /// A system message stamped with the current time.
    pub fn system(content: String) -> (r: Self)
        ensures
            r.role == MessageRole::System,
            r.content == content,
    {
        Self::new(MessageRole::System, content)
    }
}

/// The message with these parts.
pub open spec fn message(role: MessageRole, content: String, timestamp: Timestamp) -> SerializableMessage {
    SerializableMessage { role, content, timestamp }
}

/// `s` holds no more messages than `bound` allows.
pub open spec fn within_bound(s: Seq<SerializableMessage>, bound: Option<usize>) -> bool {
    match bound {
        Some(n) => s.len() <= n,
        None => true,
    }
}

/// `s` with `m` appended, after which the oldest messages are dropped until
/// the bound holds.
pub open spec fn bounded_push(
    s: Seq<SerializableMessage>,
    m: SerializableMessage,
    bound: Option<usize>,
) -> Seq<SerializableMessage> {
    let t = s.push(m);
    match bound {
        Some(n) => if t.len() > n {
            t.subrange(t.len() - n, t.len() as int)
        } else {
            t
        },
        None => t,
    }
}

/// The oldest messages of `s` dropped until the bound holds.
pub open spec fn keep_latest(s: Seq<SerializableMessage>, bound: Option<usize>) -> Seq<
    SerializableMessage,
> {
    match bound {
        Some(n) => if s.len() > n {
            s.subrange(s.len() - n, s.len() as int)
        } else {
            s
        },
        None => s,
    }
}

/// The time stamp that a message added at clock time `now` gets: never
/// earlier than the newest message already in `s`.
pub open spec fn stamp_after(s: Seq<SerializableMessage>, now: Timestamp) -> Timestamp {
    if s.len() > 0 && !not_after(s.last().timestamp, now) {
        s.last().timestamp
    } else {
        now
    }
}

/// The last `n` messages of `s`, or all of them if there are fewer.
pub open spec fn last_n(s: Seq<SerializableMessage>, n: nat) -> Seq<SerializableMessage> {
    if s.len() > n {
        s.subrange(s.len() - n, s.len() as int)
    } else {
        s
    }
}

/// An ordered chat history with an optional bound on its length.
#[derive(Debug)]
pub struct ChatHistory {
    messages: Vec<SerializableMessage>,
    max_messages: Option<usize>,
}

impl View for ChatHistory {
    type V = Seq<SerializableMessage>;

    closed spec fn view(&self) -> Seq<SerializableMessage> {
        self.messages@
    }
}

impl ChatHistory {
    /// The most messages this history keeps, if it is bounded.
    pub closed spec fn bound(&self) -> Option<usize> {
        self.max_messages
    }

    #[verifier::type_invariant]
    closed spec fn inv(&self) -> bool {
        within_bound(self.messages@, self.max_messages)
    }

    /// An empty history that keeps the last [`DEFAULT_MAX_MESSAGES`] messages.
    pub fn new() -> (r: Self)
        ensures
            r@ == Seq::<SerializableMessage>::empty(),
            r.bound() == Some(DEFAULT_MAX_MESSAGES),
    {
        ChatHistory { messages: Vec::new(), max_messages: Some(DEFAULT_MAX_MESSAGES) }
    }

    /// An empty history that keeps the last `max` messages.
    pub fn with_max_messages(max: usize) -> (r: Self)
        ensures
            r@ == Seq::<SerializableMessage>::empty(),
            r.bound() == Some(max),
    {
        ChatHistory { messages: Vec::new(), max_messages: Some(max) }
    }

    /// A history with the given bound that holds the given messages, less the
    /// oldest ones where there are more than the bound allows.
    pub fn from_parts(messages: Vec<SerializableMessage>, max_messages: Option<usize>) -> (r: Self)
        ensures
            r@ == keep_latest(messages@, max_messages),
            r.bound() == max_messages,
    {
        let mut messages = messages;
        let ghost s = messages@;
        if let Some(max) = max_messages {
            while messages.len() > max
                invariant
                    s.len() > max ==> messages@.len() >= max,
                    s.len() <= max ==> messages@ == s,
                    messages@.len() <= s.len(),
                    messages@ == s.subrange(s.len() - messages@.len(), s.len() as int),
                decreases messages.len(),
            {
                messages.remove(0);
                assert(messages@ =~= s.subrange(s.len() - messages@.len(), s.len() as int));
            }
        }
        ChatHistory { messages, max_messages }
    }

    /// Appends a message with the given role and content, stamped with `now`
    /// or, if the newest message is later, with that message's time; then drops
    /// the oldest messages while there are more than the bound allows.
    pub fn add_message_at(&mut self, role: MessageRole, content: String, now: Timestamp)
        ensures
            final(self)@ == bounded_push(
                old(self)@,
                message(role, content, stamp_after(old(self)@, now)),
                old(self).bound(),
            ),
            final(self).bound() == old(self).bound(),
    {
        proof {
            use_type_invariant(&*self);
        }
        let n = self.messages.len();
        let timestamp = if n > 0 {
            let last = self.messages[n - 1].timestamp;
            last.later_of(now)
        } else {
            now
        };
        let ghost old_view = self.messages@;
        let message = SerializableMessage { role, content, timestamp };
        let ghost t = self.messages@.push(message);
        let mut messages: Vec<SerializableMessage> = Vec::new();
        std::mem::swap(&mut messages, &mut self.messages);
        messages.push(message);
        if let Some(max) = self.max_messages {
            while messages.len() > max
                invariant
                    t.len() > max ==> messages@.len() >= max,
                    t.len() <= max ==> messages@ == t,
                    messages@.len() <= t.len(),
                    messages@ == t.subrange(t.len() - messages@.len(), t.len() as int),
                decreases messages.len(),
            {
                messages.remove(0);
                assert(messages@ =~= t.subrange(t.len() - messages@.len(), t.len() as int));
            }
        }
        proof {
            assert(timestamp == stamp_after(old_view, now));
        }
        self.messages = messages;
    }

    /// Appends a message with the given role and content, stamped with the
    /// current time, as [`ChatHistory::add_message_at`] does.
    pub fn add_message(&mut self, role: MessageRole, content: String)
        ensures
            exists|now: Timestamp|
                final(self)@ == bounded_push(
                    old(self)@,
                    message(role, content, #[trigger] stamp_after(old(self)@, now)),
                    old(self).bound(),
                ),
            final(self).bound() == old(self).bound(),
    {
        let now = clock_now();
        self.add_message_at(role, content, now);
    }

    /// Appends a user message stamped with the current time.
    pub fn add_user_message(&mut self, content: String)
        ensures
            exists|now: Timestamp|
                final(self)@ == bounded_push(
                    old(self)@,
                    message(MessageRole::User, content, #[trigger] stamp_after(old(self)@, now)),
                    old(self).bound(),
                ),
            final(self).bound() == old(self).bound(),
    {
        self.add_message(MessageRole::User, content);
    }

    /// Appends an assistant message stamped with the current time.
    pub fn add_assistant_message(&mut self, content: String)
        ensures
            exists|now: Timestamp|
                final(self)@ == bounded_push(
                    old(self)@,
                    message(MessageRole::Assistant, content, #[trigger] stamp_after(old(self)@, now)),
                    old(self).bound(),
                ),
            final(self).bound() == old(self).bound(),
    {
        self.add_message(MessageRole::Assistant, content);
    }

    /// Appends a system message stamped with the current time.
    pub fn add_system_message(&mut self, content: String)
        ensures
            exists|now: Timestamp|
                final(self)@ == bounded_push(
                    old(self)@,
                    message(MessageRole::System, content, #[trigger] stamp_after(old(self)@, now)),
                    old(self).bound(),
                ),
            final(self).bound() == old(self).bound(),
    {
        self.add_message(MessageRole::System, content);
    }

    /// Removes every message; the bound stays.
    pub fn clear(&mut self)
        ensures
            final(self)@ == Seq::<SerializableMessage>::empty(),
            final(self).bound() == old(self).bound(),
    {
        self.messages = Vec::new();
    }

    /// The number of messages.
    pub fn len(&self) -> (r: usize)
        ensures
            r == self@.len(),
            within_bound(self@, self.bound()),
    {
        proof {
            use_type_invariant(self);
        }
        self.messages.len()
    }

    /// Whether there are no messages.
    pub fn is_empty(&self) -> (r: bool)
        ensures
            r == (self@.len() == 0),
    {
        self.messages.len() == 0
    }

    /// The bound this history was made with.
    pub fn max_messages(&self) -> (r: Option<usize>)
        ensures
            r == self.bound(),
    {
        self.max_messages
    }

    /// All messages, oldest first.
    pub fn messages(&self) -> (r: &[SerializableMessage])
        ensures
            r@ == self@,
    {
        self.messages.as_slice()
    }

    /// The last `n` messages, oldest first; all of them if there are fewer.
    pub fn last_messages(&self, n: usize) -> (r: &[SerializableMessage])
        ensures
            r@ == last_n(self@, n as nat),
    {
        let len = self.messages.len();
        let start = if len > n {
            len - n
        } else {
            0
        };
        let r = vstd::slice::slice_subrange(self.messages.as_slice(), start, len);
        proof {
            if len <= n {
                assert(r@ =~= self@);
            }
        }
        r
    }

    /// A copy of this history: the same messages and the same bound.
    pub fn duplicate(&self) -> (r: ChatHistory)
        ensures
            r@ == self@,
            r.bound() == self.bound(),
    {
        proof {
            use_type_invariant(self);
        }
        let copy = copy_messages(self.messages.as_slice());
        ChatHistory { messages: copy, max_messages: self.max_messages }
    }
}

/// A new vector that holds the same messages as `s`.
pub fn copy_messages(s: &[SerializableMessage]) -> (r: Vec<SerializableMessage>)
    ensures
        r@ == s@,
{
    let mut r: Vec<SerializableMessage> = Vec::new();
    let mut i: usize = 0;
    while i < s.len()
        invariant
            i <= s@.len(),
            r@ == s@.subrange(0, i as int),
        decreases s@.len() - i,
    {
        r.push(s[i].clone());
        i = i + 1;
    }
    assert(r@ =~= s@);
    r
}

/// The map that results from inserting the pairs of `s` in order: where a key
/// occurs twice, the later value wins.
pub open spec fn entries_map(s: Seq<(String, JsonValue)>) -> Map<Seq<char>, JsonValue>
    decreases s.len(),
{
    if s.len() == 0 {
        Map::empty()
    } else {
        entries_map(s.drop_last()).insert(s.last().0@, s.last().1)
    }
}

/// No key occurs twice in `s`.
pub open spec fn keys_unique(s: Seq<(String, JsonValue)>) -> bool {
    forall|i: int, j: int| 0 <= i < j < s.len() ==> s[i].0@ != s[j].0@
}

/// What a context holds, laid out for serialization: its values as key/value
/// pairs, and its chat history.
#[derive(Debug)]
pub struct ContextData {
    pub data: Vec<(String, JsonValue)>,
    pub chat_history: ChatHistory,
}

/// The state shared by the tasks of one session: a store of JSON-shaped
/// values under string keys, where the last write to a key wins, and a
/// bounded chat history.
#[derive(Debug)]
pub struct Context {
    data: DashMap<String, JsonValue>,
    chat_history: ChatHistory,
}

impl Context {
    /// The values held, by key.
    pub closed spec fn values(&self) -> Map<Seq<char>, JsonValue> {
        store_entries(self.data)
    }

    /// The chat history.
    pub closed spec fn history(&self) -> ChatHistory {
        self.chat_history
    }

    /// An empty context whose history keeps the last
    /// [`DEFAULT_MAX_MESSAGES`] messages.
    pub fn new() -> (r: Self)
        ensures
            r.values().dom() == Set::<Seq<char>>::empty(),
            r.history()@ == Seq::<SerializableMessage>::empty(),
            r.history().bound() == Some(DEFAULT_MAX_MESSAGES),
    {
        Context { data: store_new(), chat_history: ChatHistory::new() }
    }

    /// An empty context whose history keeps the last `max` messages.
    pub fn with_max_chat_messages(max: usize) -> (r: Self)
        ensures
            r.values().dom() == Set::<Seq<char>>::empty(),
            r.history()@ == Seq::<SerializableMessage>::empty(),
            r.history().bound() == Some(max),
    {
        Context { data: store_new(), chat_history: ChatHistory::with_max_messages(max) }
    }

    /// Stores `value` under `key`, replacing what was there.
    pub fn set(&mut self, key: &str, value: JsonValue)
        ensures
            final(self).values() == old(self).values().insert(key@, value),
            final(self).history() == old(self).history(),
    {
        store_insert(&mut self.data, key.to_owned(), value);
    }

    /// The value stored under `key`, if any.
    pub fn get(&self, key: &str) -> (r: Option<JsonValue>)
        ensures
            r == lookup(self.values(), key@),
    {
        store_get(&self.data, key)
    }

    /// Takes the value stored under `key` out of the context.
    pub fn remove(&mut self, key: &str) -> (r: Option<JsonValue>)
        ensures
            r == lookup(old(self).values(), key@),
            final(self).values() == old(self).values().remove(key@),
            final(self).history() == old(self).history(),
    {
        store_remove(&mut self.data, key)
    }

    /// Removes every value; the chat history stays.
    pub fn clear(&mut self)
        ensures
            final(self).values().dom() == Set::<Seq<char>>::empty(),
            final(self).history() == old(self).history(),
    {
        store_clear(&mut self.data);
    }

    /// The same as [`Context::get`], for callers that may not wait, such as
    /// edge conditions.
    pub fn get_sync(&self, key: &str) -> (r: Option<JsonValue>)
        ensures
            r == lookup(self.values(), key@),
    {
        self.get(key)
    }

    /// The same as [`Context::set`], for callers that may not wait.
    pub fn set_sync(&mut self, key: &str, value: JsonValue)
        ensures
            final(self).values() == old(self).values().insert(key@, value),
            final(self).history() == old(self).history(),
    {
        self.set(key, value);
    }

    /// Appends a message to the chat history with the given clock time, as
    /// [`ChatHistory::add_message_at`] does.
    pub fn add_message_at(&mut self, role: MessageRole, content: String, now: Timestamp)
        ensures
            final(self).history()@ == bounded_push(
                old(self).history()@,
                message(role, content, stamp_after(old(self).history()@, now)),
                old(self).history().bound(),
            ),
            final(self).history().bound() == old(self).history().bound(),
            final(self).values() == old(self).values(),
    {
        self.chat_history.add_message_at(role, content, now);
    }

    /// Appends a user message stamped with the current time.
    pub fn add_user_message(&mut self, content: String)
        ensures
            exists|now: Timestamp|
                final(self).history()@ == bounded_push(
                    old(self).history()@,
                    message(MessageRole::User, content, #[trigger] stamp_after(old(self).history()@, now)),
                    old(self).history().bound(),
                ),
            final(self).history().bound() == old(self).history().bound(),
            final(self).values() == old(self).values(),
    {
        self.chat_history.add_user_message(content);
    }

    /// Appends an assistant message stamped with the current time.
    pub fn add_assistant_message(&mut self, content: String)
        ensures
            exists|now: Timestamp|
                final(self).history()@ == bounded_push(
                    old(self).history()@,
                    message(MessageRole::Assistant, content, #[trigger] stamp_after(old(self).history()@, now)),
                    old(self).history().bound(),
                ),
            final(self).history().bound() == old(self).history().bound(),
            final(self).values() == old(self).values(),
    {
        self.chat_history.add_assistant_message(content);
    }

    /// Appends a system message stamped with the current time.
    pub fn add_system_message(&mut self, content: String)
        ensures
            exists|now: Timestamp|
                final(self).history()@ == bounded_push(
                    old(self).history()@,
                    message(MessageRole::System, content, #[trigger] stamp_after(old(self).history()@, now)),
                    old(self).history().bound(),
                ),
            final(self).history().bound() == old(self).history().bound(),
            final(self).values() == old(self).values(),
    {
        self.chat_history.add_system_message(content);
    }

    /// A copy of the chat history.
    pub fn get_chat_history(&self) -> (r: ChatHistory)
        ensures
            r@ == self.history()@,
            r.bound() == self.history().bound(),
    {
        self.chat_history.duplicate()
    }

    /// Removes every message from the chat history; its bound and the values
    /// stay.
    pub fn clear_chat_history(&mut self)
        ensures
            final(self).history()@ == Seq::<SerializableMessage>::empty(),
            final(self).history().bound() == old(self).history().bound(),
            final(self).values() == old(self).values(),
    {
        self.chat_history.clear();
    }

    /// The number of messages in the chat history.
    pub fn chat_history_len(&self) -> (r: usize)
        ensures
            r == self.history()@.len(),
            within_bound(self.history()@, self.history().bound()),
    {
        self.chat_history.len()
    }

    /// Whether the chat history holds no message.
    pub fn is_chat_history_empty(&self) -> (r: bool)
        ensures
            r == (self.history()@.len() == 0),
    {
        self.chat_history.is_empty()
    }

    /// The last `n` messages of the chat history, oldest first.
    pub fn get_last_messages(&self, n: usize) -> (r: Vec<SerializableMessage>)
        ensures
            r@ == last_n(self.history()@, n as nat),
    {
        copy_messages(self.chat_history.last_messages(n))
    }

    /// Every message of the chat history, oldest first.
    pub fn get_all_messages(&self) -> (r: Vec<SerializableMessage>)
        ensures
            r@ == self.history()@,
    {
        copy_messages(self.chat_history.messages())
    }

    /// What this context holds, as key/value pairs in no particular order and
    /// a copy of the chat history.
    pub fn to_data(&self) -> (r: ContextData)
        ensures
            keys_unique(r.data@),
            entries_map(r.data@) == self.values(),
            r.chat_history@ == self.history()@,
            r.chat_history.bound() == self.history().bound(),
    {
        let data = store_list(&self.data);
        proof {
            lemma_entries_map(data@);
            assert forall|k: Seq<char>|
                #[trigger] entries_map(data@).contains_key(k) <==> self.values().contains_key(
                    k,
                ) by {
                if self.values().contains_key(k) {
                    let i = choose|i: int| 0 <= i < data@.len() && data@[i].0@ == k;
                }
                if entries_map(data@).contains_key(k) {
                    let i = choose|i: int| 0 <= i < data@.len() && data@[i].0@ == k;
                    assert(self.values().contains_key(data@[i].0@));
                }
            }
            assert forall|k: Seq<char>| #[trigger]
                entries_map(data@).contains_key(k) implies entries_map(data@)[k]
                == self.values()[k] by {
                let i = choose|i: int| 0 <= i < data@.len() && data@[i].0@ == k;
                assert(entries_map(data@)[data@[i].0@] == data@[i].1);
            }
            assert(entries_map(data@) =~= self.values());
        }
        ContextData { data, chat_history: self.chat_history.duplicate() }
    }

    /// A context that holds the given pairs, inserted in order, and the given
    /// chat history.
    pub fn from_data(d: ContextData) -> (r: Context)
        ensures
            r.values() == entries_map(d.data@),
            r.history() == d.chat_history,
    {
        let ContextData { data, chat_history } = d;
        let mut store = store_new();
        let mut i: usize = 0;
        while i < data.len()
            invariant
                i <= data@.len(),
                store_entries(store) == entries_map(data@.subrange(0, i as int)),
            decreases data@.len() - i,
        {
            let (key, value) = (data[i].0.clone(), data[i].1.clone());
            store_insert(&mut store, key, value);
            proof {
                assert(data@.subrange(0, i + 1).drop_last() =~= data@.subrange(0, i as int));
            }
            i = i + 1;
        }
        assert(data@.subrange(0, data@.len() as int) =~= data@);
        Context { data: store, chat_history }
    }

    /// An independent copy of this context: the same values and the same chat
    /// history.
    pub fn duplicate(&self) -> (r: Context)
        ensures
            r.values() == self.values(),
            r.history()@ == self.history()@,
            r.history().bound() == self.history().bound(),
    {
        Context::from_data(self.to_data())
    }
}

/// What [`entries_map`] holds: the keys of `s`, each with its last value; where
/// no key occurs twice, each pair of `s` is an entry.
pub proof fn lemma_entries_map(s: Seq<(String, JsonValue)>)
    ensures
        forall|k: Seq<char>|
            #[trigger] entries_map(s).contains_key(k) <==> exists|i: int|
                0 <= i < s.len() && s[i].0@ == k,
        keys_unique(s) ==> forall|i: int|
            0 <= i < s.len() ==> #[trigger] entries_map(s)[s[i].0@] == s[i].1,
    decreases s.len(),
{
    if s.len() > 0 {
        let p = s.drop_last();
        lemma_entries_map(p);
        assert forall|k: Seq<char>|
            #[trigger] entries_map(s).contains_key(k) <==> exists|i: int|
                0 <= i < s.len() && s[i].0@ == k by {
            if k == s.last().0@ {
                assert(s[s.len() - 1].0@ == k);
            } else if entries_map(s).contains_key(k) {
                assert(entries_map(p).contains_key(k));
                let i = choose|i: int| 0 <= i < p.len() && p[i].0@ == k;
                assert(s[i] == p[i]);
            }
            if exists|i: int| 0 <= i < s.len() && s[i].0@ == k {
                let i = choose|i: int| 0 <= i < s.len() && s[i].0@ == k;
                if i < s.len() - 1 {
                    assert(p[i] == s[i]);
                    assert(entries_map(p).contains_key(k));
                }
            }
        }
        if keys_unique(s) {
            assert forall|i: int, j: int| 0 <= i < j < p.len() implies p[i].0@ != p[j].0@ by {
                assert(p[i] == s[i] && p[j] == s[j]);
            }
            assert forall|i: int| 0 <= i < s.len() implies #[trigger] entries_map(s)[s[i].0@]
                == s[i].1 by {
                if i < s.len() - 1 {
                    assert(p[i] == s[i]);
                    assert(s[i].0@ != s[s.len() - 1].0@);
                    assert(entries_map(p)[p[i].0@] == p[i].1);
                }
            }
        }
    }
}

} // verus!
