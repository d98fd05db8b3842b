use vstd::prelude::*;
use crate::models::{Conversation, Message, Sender};

verus! {

/// Note stored as the last message of a freshly created conversation.
pub const NEW_CONVERSATION_NOTE: &'static str = "开始新的对话";

/// Why a store operation was refused.
#[derive(Clone, Copy, Debug, PartialEq, Eq, Structural)]
pub enum StoreError {
    /// No conversation has the requested id.
    ConversationNotFound,
    /// The largest conversation id is already `u64::MAX`, so no fresh id exists.
    IdSpaceExhausted,
}

/// No two conversations share an id.
pub open spec fn distinct_ids(s: Seq<Conversation>) -> bool {
    forall|i: int, j: int| 0 <= i < j < s.len() ==> s[i].id != s[j].id
}

/// The largest conversation id, or 0 for no conversation.
pub open spec fn max_id(s: Seq<Conversation>) -> nat
    decreases s.len(),
{
    if s.len() == 0 {
        0
    } else {
        let rest = max_id(s.drop_last());
        if s.last().id > rest {
            s.last().id as nat
        } else {
            rest
        }
    }
}

/// Whether some conversation has id `id`.
pub open spec fn has_conversation(s: Seq<Conversation>, id: u64) -> bool {
    exists|i: int| 0 <= i < s.len() && s[i].id == id
}

/// The messages that belong to conversation `cid`, in store order.
pub open spec fn history_of(s: Seq<Message>, cid: u64) -> Seq<Message> {
    s.filter(|m: Message| m.conversation_id == cid)
}

/// The messages that do not belong to conversation `cid`, in store order.
pub open spec fn without_conversation(s: Seq<Message>, cid: u64) -> Seq<Message> {
    s.filter(|m: Message| m.conversation_id != cid)
}

/// The conversations other than `cid`, in store order.
pub open spec fn conversations_without(s: Seq<Conversation>, cid: u64) -> Seq<Conversation> {
    s.filter(|c: Conversation| c.id != cid)
}

/// `m` with its content replaced.
pub open spec fn with_content(m: Message, content: String) -> Message {
    Message { content, ..m }
}

/// Every message whose id is `id` gets `content`; the others stay.
pub open spec fn set_content(s: Seq<Message>, id: u64, content: String) -> Seq<Message> {
    s.map_values(|m: Message| if m.id == id { with_content(m, content) } else { m })
}

/// `c` with a new last message and timestamp.
pub open spec fn touched(c: Conversation, last: String, ts: u64) -> Conversation {
    Conversation { last_message: last, timestamp: ts, ..c }
}

/// Every conversation whose id is `cid` gets a new last message and timestamp.
pub open spec fn touch(s: Seq<Conversation>, cid: u64, last: String, ts: u64) -> Seq<Conversation> {
    s.map_values(|c: Conversation| if c.id == cid { touched(c, last, ts) } else { c })
}

/// The texts of the user's messages in conversation `cid`, in store order.
pub open spec fn user_texts(s: Seq<Message>, cid: u64) -> Seq<Seq<char>> {
    s.filter(|m: Message| m.conversation_id == cid && m.sender == Sender::User).map_values(|m: Message| m.content@)
}

/// The parts joined, with `sep` between each two neighbours.
pub open spec fn joined(parts: Seq<Seq<char>>, sep: Seq<char>) -> Seq<char>
    decreases parts.len(),
{
    if parts.len() == 0 {
        Seq::empty()
    } else if parts.len() == 1 {
        parts[0]
    } else {
        joined(parts.drop_last(), sep) + sep + parts.last()
    }
}

/// Separator between the user messages that make up a prompt.
pub open spec fn prompt_separator() -> Seq<char> {
    seq!['\n', '\n']
}

proof fn lemma_touch_keeps_ids(s: Seq<Conversation>, cid: u64, last: String, ts: u64)
    requires
        distinct_ids(s),
    ensures
        distinct_ids(touch(s, cid, last, ts)),
        touch(s, cid, last, ts).len() == s.len(),
        forall|i: int| 0 <= i < s.len() ==> #[trigger] touch(s, cid, last, ts)[i].id == s[i].id,
{
}

proof fn lemma_max_id_bounds(s: Seq<Conversation>)
    ensures
        forall|i: int| 0 <= i < s.len() ==> s[i].id <= max_id(s),
        max_id(s) <= u64::MAX,
    decreases s.len(),
{
    if s.len() > 0 {
        lemma_max_id_bounds(s.drop_last());
        assert forall|i: int| 0 <= i < s.len() implies s[i].id <= max_id(s) by {
            if i < s.len() - 1 {
                assert(s[i] == s.drop_last()[i]);
            }
        }
    }
}

proof fn lemma_filter_step<A>(s: Seq<A>, i: int, p: spec_fn(A) -> bool)
    requires
        0 <= i < s.len(),
    ensures
        s.subrange(0, i + 1).filter(p) == if p(s[i]) {
            s.subrange(0, i).filter(p).push(s[i])
        } else {
            s.subrange(0, i).filter(p)
        },
{
    let a = s.subrange(0, i);
    let b = seq![s[i]];
    assert(s.subrange(0, i + 1) == a + b);
    Seq::filter_distributes_over_add(a, b, p);
    reveal_with_fuel(Seq::filter, 2);
    assert(b.drop_last() == Seq::<A>::empty());
}

/// Conversations and messages, the single source of truth for chat history.
pub struct ConversationStore {
    conversations: Vec<Conversation>,
    messages: Vec<Message>,
}

impl ConversationStore {
    /// Conversation ids are unique.
    pub open spec fn wf(&self) -> bool {
        distinct_ids(self.conversations_view())
    }

    pub closed spec fn conversations_view(&self) -> Seq<Conversation> {
        self.conversations@
    }

    pub closed spec fn messages_view(&self) -> Seq<Message> {
        self.messages@
    }

    /// A store holding the given records.
    pub fn new(conversations: Vec<Conversation>, messages: Vec<Message>) -> (r: Self)
        requires
            distinct_ids(conversations@),
        ensures
            r.wf(),
            r.conversations_view() == conversations@,
            r.messages_view() == messages@,
    {
        ConversationStore { conversations, messages }
    }

    /// Whether the conversation ids of `conversations` are unique, which
    /// `new` requires.
    pub fn ids_are_distinct(conversations: &Vec<Conversation>) -> (r: bool)
        ensures
            r == distinct_ids(conversations@),
    {
        let n = conversations.len();
        let mut i: usize = 0;
        while i < n
            invariant
                n == conversations@.len(),
                i <= n,
                forall|a: int, b: int| 0 <= a < b < n && a < i ==> conversations@[a].id != conversations@[b].id,
            decreases n - i,
        {
            let mut j: usize = i + 1;
            while j < n
                invariant
                    n == conversations@.len(),
                    i < n,
                    i + 1 <= j <= n,
                    forall|a: int, b: int| 0 <= a < b < n && a < i ==> conversations@[a].id != conversations@[b].id,
                    forall|b: int| i < b < j ==> conversations@[i as int].id != conversations@[b].id,
                decreases n - j,
            {
                if conversations[i].id == conversations[j].id {
                    return false;
                }
                j += 1;
            }
            i += 1;
        }
        true
    }

    /// All conversations, in store order.
    pub fn get_conversations(&self) -> (r: Vec<Conversation>)
        ensures
            r@ == self.conversations_view(),
    {
        let mut r: Vec<Conversation> = Vec::new();
        let mut i: usize = 0;
        while i < self.conversations.len()
            invariant
                i <= self.conversations@.len(),
                r@ == self.conversations@.subrange(0, i as int),
            decreases self.conversations@.len() - i,
        {
            r.push(self.conversations[i].duplicate());
            i += 1;
        }
        assert(self.conversations@.subrange(0, i as int) == self.conversations@);
        r
    }

    /// All messages, in store order.
    pub fn get_messages(&self) -> (r: Vec<Message>)
        ensures
            r@ == self.messages_view(),
    {
        let mut r: Vec<Message> = Vec::new();
        let mut i: usize = 0;
        while i < self.messages.len()
            invariant
                i <= self.messages@.len(),
                r@ == self.messages@.subrange(0, i as int),
            decreases self.messages@.len() - i,
        {
            r.push(self.messages[i].duplicate());
            i += 1;
        }
        assert(self.messages@.subrange(0, i as int) == self.messages@);
        r
    }

    /// The conversation with id `cid`, if any.
    pub fn find_conversation(&self, cid: u64) -> (r: Option<Conversation>)
        requires
            self.wf(),
        ensures
            r is None <==> !has_conversation(self.conversations_view(), cid),
            r matches Some(c) ==> self.conversations_view().contains(c) && c.id == cid,
    {
        let mut i: usize = 0;
        while i < self.conversations.len()
            invariant
                i <= self.conversations@.len(),
                forall|k: int| 0 <= k < i ==> self.conversations@[k].id != cid,
            decreases self.conversations@.len() - i,
        {
            if self.conversations[i].id == cid {
                return Some(self.conversations[i].duplicate());
            }
            i += 1;
        }
        None
    }

    /// The messages of conversation `cid`, in store order.
    pub fn get_conversation_history(&self, cid: u64) -> (r: Vec<Message>)
        ensures
            r@ == history_of(self.messages_view(), cid),
    {
        let mut r: Vec<Message> = Vec::new();
        let mut i: usize = 0;
        while i < self.messages.len()
            invariant
                i <= self.messages@.len(),
                r@ == history_of(self.messages@.subrange(0, i as int), cid),
            decreases self.messages@.len() - i,
        {
            proof {
                lemma_filter_step(self.messages@, i as int, |m: Message| m.conversation_id == cid);
            }
            if self.messages[i].conversation_id == cid {
                r.push(self.messages[i].duplicate());
            }
            i += 1;
        }
        assert(self.messages@.subrange(0, i as int) == self.messages@);
        r
    }

    /// Adds a conversation titled `title` whose id is one more than the
    /// largest id in the store (1 for an empty store).
    pub fn create_conversation(&mut self, title: String, timestamp: u64) -> (r: Result<Conversation, StoreError>)
        requires
            old(self).wf(),
        ensures
            final(self).wf(),
            final(self).messages_view() == old(self).messages_view(),
            max_id(old(self).conversations_view()) == u64::MAX <==> r is Err,
            r matches Err(e) ==> e == StoreError::IdSpaceExhausted
                && final(self).conversations_view() == old(self).conversations_view(),
            r matches Ok(c) ==> {
                &&& c.id == max_id(old(self).conversations_view()) + 1
                &&& c.title == title
                &&& c.last_message@ == NEW_CONVERSATION_NOTE@
                &&& c.timestamp == timestamp
                &&& final(self).conversations_view() == old(self).conversations_view().push(c)
            },
    {
        let mut top: u64 = 0;
        let mut i: usize = 0;
        proof {
            lemma_max_id_bounds(self.conversations@);
        }
        while i < self.conversations.len()
            invariant
                i <= self.conversations@.len(),
                top == max_id(self.conversations@.subrange(0, i as int)),
            decreases self.conversations@.len() - i,
        {
            proof {
                let s = self.conversations@.subrange(0, i as int + 1);
                assert(s.drop_last() == self.conversations@.subrange(0, i as int));
            }
            if self.conversations[i].id > top {
                top = self.conversations[i].id;
            }
            i += 1;
        }
        assert(self.conversations@.subrange(0, i as int) == self.conversations@);
        if top == u64::MAX {
            return Err(StoreError::IdSpaceExhausted);
        }
        let c = Conversation {
            id: top + 1,
            title,
            last_message: String::from_str(NEW_CONVERSATION_NOTE),
            timestamp,
        };
        let r = c.duplicate();
        proof {
            lemma_max_id_bounds(self.conversations@);
        }
        self.conversations.push(c);
        Ok(r)
    }

    /// Every conversation with id `cid` gets `last` as its last message and
    /// `timestamp` as its time; the others stay.
    pub fn touch_conversation(&mut self, cid: u64, last: &String, timestamp: u64)
        requires
            old(self).wf(),
        ensures
            final(self).wf(),
            final(self).conversations_view() == touch(old(self).conversations_view(), cid, *last, timestamp),
            final(self).messages_view() == old(self).messages_view(),
    {
        let mut out: Vec<Conversation> = Vec::new();
        let mut i: usize = 0;
        let ghost old_s = self.conversations@;
        while i < self.conversations.len()
            invariant
                old_s == self.conversations@,
                i <= old_s.len(),
                out@ == touch(old_s, cid, *last, timestamp).subrange(0, i as int),
            decreases old_s.len() - i,
        {
            let c = &self.conversations[i];
            if c.id == cid {
                out.push(Conversation {
                    id: c.id,
                    title: c.title.clone(),
                    last_message: last.clone(),
                    timestamp,
                });
            } else {
                out.push(c.duplicate());
            }
            i += 1;
        }
        proof {
            lemma_touch_keeps_ids(old_s, cid, *last, timestamp);
            assert(touch(old_s, cid, *last, timestamp).subrange(0, i as int) == touch(old_s, cid, *last, timestamp));
        }
        self.conversations = out;
    }

    /// Every message with id `id` gets `content`; the others stay.
    pub fn set_message_content(&mut self, id: u64, content: &String)
        requires
            old(self).wf(),
        ensures
            final(self).wf(),
            final(self).messages_view() == set_content(old(self).messages_view(), id, *content),
            final(self).conversations_view() == old(self).conversations_view(),
    {
        let mut out: Vec<Message> = Vec::new();
        let mut i: usize = 0;
        let ghost old_s = self.messages@;
        while i < self.messages.len()
            invariant
                old_s == self.messages@,
                i <= old_s.len(),
                out@ == set_content(old_s, id, *content).subrange(0, i as int),
            decreases old_s.len() - i,
        {
            let m = &self.messages[i];
            if m.id == id {
                out.push(Message {
                    id: m.id,
                    content: content.clone(),
                    sender: m.sender,
                    timestamp: m.timestamp,
                    conversation_id: m.conversation_id,
                });
            } else {
                out.push(m.duplicate());
            }
            i += 1;
        }
        assert(set_content(old_s, id, *content).subrange(0, i as int) == set_content(old_s, id, *content));
        self.messages = out;
    }

    /// Records a message the user sent to conversation `cid` at time `now`
    /// (which also serves as its id), and makes it the conversation's last
    /// message. Returns the new message.
    pub fn send_user_message(&mut self, content: String, cid: u64, now: u64) -> (r: Message)
        requires
            old(self).wf(),
        ensures
            final(self).wf(),
            r == (Message { id: now, content, sender: Sender::User, timestamp: now, conversation_id: cid }),
            final(self).messages_view() == old(self).messages_view().push(r),
            final(self).conversations_view() == touch(old(self).conversations_view(), cid, content, now),
    {
        let m = Message { id: now, content, sender: Sender::User, timestamp: now, conversation_id: cid };
        let r = m.duplicate();
        self.touch_conversation(cid, &m.content, now);
        self.messages.push(m);
        r
    }

    /// Adds the empty bot message that generated text will fill, with id and
    /// time `now`. Returns the placeholder.
    pub fn start_bot_message(&mut self, cid: u64, now: u64) -> (r: Message)
        requires
            old(self).wf(),
        ensures
            final(self).wf(),
            r.id == now && r.timestamp == now && r.sender == Sender::Bot && r.conversation_id == cid,
            r.content@ == Seq::<char>::empty(),
            final(self).messages_view() == old(self).messages_view().push(r),
            final(self).conversations_view() == old(self).conversations_view(),
    {
        let m = Message { id: now, content: String::new(), sender: Sender::Bot, timestamp: now, conversation_id: cid };
        let r = m.duplicate();
        self.messages.push(m);
        r
    }

    /// Stores the complete generated text: it becomes the content of message
    /// `message_id` and the last message of conversation `cid`, dated `now`.
    pub fn finish_generation(&mut self, cid: u64, message_id: u64, full_response: &String, now: u64)
        requires
            old(self).wf(),
        ensures
            final(self).wf(),
            final(self).conversations_view() == touch(old(self).conversations_view(), cid, *full_response, now),
            final(self).messages_view() == set_content(old(self).messages_view(), message_id, *full_response),
    {
        self.touch_conversation(cid, full_response, now);
        self.set_message_content(message_id, full_response);
    }

    /// The prompt for the generation engine: the texts of the user's
    /// messages in conversation `cid`, joined by a blank line.
    pub fn user_prompt(&self, cid: u64) -> (r: String)
        ensures
            r@ == joined(user_texts(self.messages_view(), cid), prompt_separator()),
    {
        let mut r = String::new();
        let mut first = true;
        let mut i: usize = 0;
        let ghost p = |m: Message| m.conversation_id == cid && m.sender == Sender::User;
        let ghost f = |m: Message| m.content@;
        while i < self.messages.len()
            invariant
                i <= self.messages@.len(),
                p == (|m: Message| m.conversation_id == cid && m.sender == Sender::User),
                f == (|m: Message| m.content@),
                r@ == joined(user_texts(self.messages@.subrange(0, i as int), cid), prompt_separator()),
                first <==> user_texts(self.messages@.subrange(0, i as int), cid).len() == 0,
            decreases self.messages@.len() - i,
        {
            proof {
                lemma_filter_step(self.messages@, i as int, p);
            }
            let m = &self.messages[i];
            if m.conversation_id == cid && m.sender == Sender::User {
                let ghost before = user_texts(self.messages@.subrange(0, i as int), cid);
                proof {
                    let fs = self.messages@.subrange(0, i as int).filter(p);
                    assert(fs.push(*m).map_values(f) == fs.map_values(f).push(m.content@));
                    let after = before.push(m.content@);
                    assert(after.drop_last() == before);
                    assert(user_texts(self.messages@.subrange(0, i as int + 1), cid) == after);
                    reveal_strlit("\n\n");
                }
                if !first {
                    r.append("\n\n");
                }
                r.append(m.content.as_str());
                first = false;
            } else {
                assert(user_texts(self.messages@.subrange(0, i as int + 1), cid) == user_texts(
                    self.messages@.subrange(0, i as int),
                    cid,
                ));
            }
            i += 1;
        }
        assert(self.messages@.subrange(0, i as int) == self.messages@);
        r
    }

    /// Removes conversation `cid` and every message that belongs to it.
    pub fn delete_conversation(&mut self, cid: u64) -> (r: Result<(), StoreError>)
        requires
            old(self).wf(),
        ensures
            final(self).wf(),
            r is Err <==> !has_conversation(old(self).conversations_view(), cid),
            r matches Err(e) ==> e == StoreError::ConversationNotFound && *final(self) == *old(self),
            r is Ok ==> final(self).conversations_view() == conversations_without(old(self).conversations_view(), cid)
                && final(self).messages_view() == without_conversation(old(self).messages_view(), cid),
    {
        let mut found = false;
        let mut kept: Vec<Conversation> = Vec::new();
        let mut i: usize = 0;
        while i < self.conversations.len()
            invariant
                i <= self.conversations@.len(),
                kept@ == conversations_without(self.conversations@.subrange(0, i as int), cid),
                found <==> exists|k: int| 0 <= k < i && self.conversations@[k].id == cid,
            decreases self.conversations@.len() - i,
        {
            proof {
                lemma_filter_step(self.conversations@, i as int, |c: Conversation| c.id != cid);
            }
            if self.conversations[i].id == cid {
                found = true;
            } else {
                kept.push(self.conversations[i].duplicate());
            }
            i += 1;
        }
        assert(self.conversations@.subrange(0, i as int) == self.conversations@);
        if !found {
            return Err(StoreError::ConversationNotFound);
        }
        let mut rest: Vec<Message> = Vec::new();
        let mut j: usize = 0;
        while j < self.messages.len()
            invariant
                j <= self.messages@.len(),
                rest@ == without_conversation(self.messages@.subrange(0, j as int), cid),
            decreases self.messages@.len() - j,
        {
            proof {
                lemma_filter_step(self.messages@, j as int, |m: Message| m.conversation_id != cid);
            }
            if self.messages[j].conversation_id != cid {
                rest.push(self.messages[j].duplicate());
            }
            j += 1;
        }
        assert(self.messages@.subrange(0, j as int) == self.messages@);
        proof {
            let p = |c: Conversation| c.id != cid;
            let old_s = self.conversations@;
            let new_s = kept@;
            assert forall|a: int, b: int| 0 <= a < b < new_s.len() implies new_s[a].id != new_s[b].id by {
                lemma_filter_order(old_s, p, a, b);
                let (x, y) = choose|x: int, y: int| 0 <= x < y < old_s.len() && old_s[x] == new_s[a] && old_s[y] == new_s[b];
                assert(old_s[x].id != old_s[y].id);
            }
        }
        self.conversations = kept;
        self.messages = rest;
        Ok(())
    }
}

/// Each element kept by a filter comes from the source.
proof fn lemma_filter_source<A>(s: Seq<A>, p: spec_fn(A) -> bool, a: int)
    requires
        0 <= a < s.filter(p).len(),
    ensures
        exists|x: int| 0 <= x < s.len() && s[x] == s.filter(p)[a],
    decreases s.len(),
{
    reveal(Seq::filter);
    let rest = s.drop_last();
    let fr = rest.filter(p);
    if p(s.last()) && a == fr.len() {
        assert(s[s.len() - 1] == s.filter(p)[a]);
    } else {
        lemma_filter_source(rest, p, a);
        let x = choose|x: int| 0 <= x < rest.len() && rest[x] == fr[a];
        assert(s[x] == rest[x]);
    }
}

/// Elements kept by a filter appear in the same relative order as in the source.
proof fn lemma_filter_order<A>(s: Seq<A>, p: spec_fn(A) -> bool, a: int, b: int)
    requires
        0 <= a < b < s.filter(p).len(),
    ensures
        exists|x: int, y: int| 0 <= x < y < s.len() && s[x] == s.filter(p)[a] && s[y] == s.filter(p)[b],
    decreases s.len(),
{
    reveal(Seq::filter);
    let rest = s.drop_last();
    let fr = rest.filter(p);
    if p(s.last()) && b == fr.len() {
        lemma_filter_source(rest, p, a);
        let x = choose|x: int| 0 <= x < rest.len() && rest[x] == fr[a];
        assert(s[x] == rest[x]);
        assert(s[s.len() - 1] == s.filter(p)[b]);
    } else {
        lemma_filter_order(rest, p, a, b);
        let (x, y) = choose|x: int, y: int| 0 <= x < y < rest.len() && rest[x] == fr[a] && rest[y] == fr[b];
        assert(s[x] == rest[x] && s[y] == rest[y]);
    }
}

} // verus!
