//! Messages and the bounded, ordered message log of a conversation.
use vstd::prelude::*;
use crate::json::JsonValue;

verus! {

/// Who wrote a message.
#[derive(Debug, Clone, Copy, PartialEq, Eq, Structural)]
pub enum MessageRole {
    System,
    User,
    Assistant,
}

/// One message of a conversation.
#[derive(Debug)]
pub struct Message {
    pub role: MessageRole,
    pub content: String,
    pub metadata: Option<JsonValue>,
}

/// What a message says: its role and its text.
pub type Entry = (MessageRole, Seq<char>);

pub open spec fn entry_of(m: Message) -> Entry {
    (m.role, m.content@)
}

/// The last `n` entries of a log: what is left once the oldest are evicted.
pub open spec fn window(s: Seq<Entry>, n: nat) -> Seq<Entry> {
    if s.len() <= n {
        s
    } else {
        s.subrange(s.len() - n, s.len() as int)
    }
}

/// The log after adding each message of `ms` in turn, each add followed by
/// eviction down to `n` messages.
pub open spec fn add_all(s: Seq<Entry>, ms: Seq<Entry>, n: nat) -> Seq<Entry>
    decreases ms.len(),
{
    if ms.len() == 0 {
        s
    } else {
        add_all(window(s.push(ms[0]), n), ms.drop_first(), n)
    }
}

/// The position of the last message written by the user.
pub open spec fn last_user_index(s: Seq<Entry>) -> Option<int>
    decreases s.len(),
{
    if s.len() == 0 {
        None
    } else if s.last().0 == MessageRole::User {
        Some(s.len() - 1)
    } else {
        last_user_index(s.drop_last())
    }
}

/// An ordered message log that keeps at most `max_history` messages,
/// evicting the oldest first.
#[derive(Debug)]
pub struct Context {
    messages: Vec<Message>,
    max_history: usize,
}

impl View for Context {
    type V = Seq<Entry>;

    closed spec fn view(&self) -> Seq<Entry> {
        self.messages@.map_values(|m: Message| entry_of(m))
    }
}

impl Context {
    /// The most messages the log keeps.
    pub closed spec fn max_history(&self) -> nat {
        self.max_history as nat
    }

    /// The log holds no more than `max_history` messages.
    pub closed spec fn wf(&self) -> bool {
        self.messages@.len() <= self.max_history
    }

    pub fn new(max_history: usize) -> (r: Context)
        ensures
            r.wf(),
            r@.len() == 0,
            r.max_history() == max_history,
    {
        Context { messages: Vec::new(), max_history }
    }

    /// Evicts the oldest messages until no more than `max_history` are left.
    fn trim(&mut self)
        ensures
            final(self).max_history == old(self).max_history,
            final(self).messages@.len() <= final(self).max_history,
            final(self)@ == window(old(self)@, old(self).max_history as nat),
    {
        let ghost all = self.messages@;
        while self.messages.len() > self.max_history
            invariant
                self.max_history == old(self).max_history,
                all == old(self).messages@,
                self.messages@.len() <= all.len(),
                self.messages@ == all.subrange(
                    all.len() - self.messages@.len(),
                    all.len() as int,
                ),
                all.len() > self.max_history ==> self.messages@.len() >= self.max_history,
                all.len() <= self.max_history ==> self.messages@.len() == all.len(),
            decreases self.messages.len(),
        {
            self.messages.remove(0);
            assert(self.messages@ =~= all.subrange(
                all.len() - self.messages@.len(),
                all.len() as int,
            ));
        }
        assert(all.len() <= self.max_history ==> self.messages@ =~= all);
        assert(self@ =~= window(old(self)@, old(self).max_history as nat));
    }

    /// Appends a message, then evicts the oldest messages beyond `max_history`.
    /// Gives a copy of the message that was appended.
    pub fn add_message(&mut self, role: MessageRole, content: String) -> (r: Message)
        requires
            old(self).wf(),
        ensures
            entry_of(r) == (role, content@),
            r.metadata.is_none(),
            final(self).wf(),
            final(self).max_history() == old(self).max_history(),
            final(self)@ == window(old(self)@.push((role, content@)), old(self).max_history()),
            final(self)@.len() <= final(self).max_history(),
    {
        let ghost before = self@;
        let copy = Message { role, content: content.clone(), metadata: None };
        self.messages.push(Message { role, content, metadata: None });
        assert(self@ =~= before.push((role, copy.content@)));
        self.trim();
        copy
    }

    /// Adds each message in turn, keeping its role and content.
    pub fn add_messages(&mut self, messages: Vec<Message>)
        requires
            old(self).wf(),
        ensures
            final(self).wf(),
            final(self).max_history() == old(self).max_history(),
            final(self)@.len() <= final(self).max_history(),
            final(self)@ == add_all(
                old(self)@,
                messages@.map_values(|m: Message| entry_of(m)),
                old(self).max_history(),
            ),
    {
        let ghost all = messages@.map_values(|m: Message| entry_of(m));
        let mut rest = messages;
        while rest.len() > 0
            invariant
                self.wf(),
                self.max_history() == old(self).max_history(),
                add_all(old(self)@, all, self.max_history()) == add_all(
                    self@,
                    rest@.map_values(|m: Message| entry_of(m)),
                    self.max_history(),
                ),
            decreases rest.len(),
        {
            let ghost cur = rest@;
            let m = rest.remove(0);
            assert(rest@.map_values(|m: Message| entry_of(m)) =~= cur.map_values(
                |m: Message| entry_of(m),
            ).drop_first());
            self.add_message(m.role, m.content);
        }
    }

    pub fn add_user_message(&mut self, content: String) -> (r: Message)
        requires
            old(self).wf(),
        ensures
            entry_of(r) == (MessageRole::User, content@),
            final(self).wf(),
            final(self).max_history() == old(self).max_history(),
            final(self)@ == window(
                old(self)@.push((MessageRole::User, content@)),
                old(self).max_history(),
            ),
    {
        self.add_message(MessageRole::User, content)
    }

    pub fn add_assistant_message(&mut self, content: String) -> (r: Message)
        requires
            old(self).wf(),
        ensures
            entry_of(r) == (MessageRole::Assistant, content@),
            final(self).wf(),
            final(self).max_history() == old(self).max_history(),
            final(self)@ == window(
                old(self)@.push((MessageRole::Assistant, content@)),
                old(self).max_history(),
            ),
    {
        self.add_message(MessageRole::Assistant, content)
    }

    pub fn add_system_message(&mut self, content: String) -> (r: Message)
        requires
            old(self).wf(),
        ensures
            entry_of(r) == (MessageRole::System, content@),
            final(self).wf(),
            final(self).max_history() == old(self).max_history(),
            final(self)@ == window(
                old(self)@.push((MessageRole::System, content@)),
                old(self).max_history(),
            ),
    {
        self.add_message(MessageRole::System, content)
    }

    /// The messages, oldest first.
    pub fn get_messages(&self) -> (r: &Vec<Message>)
        ensures
            r@.map_values(|m: Message| entry_of(m)) == self@,
    {
        &self.messages
    }

    pub fn clear(&mut self)
        ensures
            final(self).wf(),
            final(self)@.len() == 0,
            final(self).max_history() == old(self).max_history(),
    {
        self.messages.clear();
        assert(self@ =~= Seq::<Entry>::empty());
    }

    pub fn len(&self) -> (r: usize)
        ensures
            r == self@.len(),
    {
        self.messages.len()
    }

    pub fn is_empty(&self) -> (r: bool)
        ensures
            r == (self@.len() == 0),
    {
        self.messages.len() == 0
    }

    /// The content of the last message that the user wrote.
    pub fn get_last_user_prompt(&self) -> (r: Option<String>)
        ensures
            match last_user_index(self@) {
                Some(i) => r.is_some() && r.unwrap()@ == self@[i].1,
                None => r.is_none(),
            },
    {
        let mut i: usize = self.messages.len();
        assert(self@.subrange(0, i as int) =~= self@);
        while i > 0
            invariant
                i <= self.messages@.len(),
                last_user_index(self@) == last_user_index(self@.subrange(0, i as int)),
            decreases i,
        {
            let ghost pre = self@.subrange(0, i as int);
            assert(pre.drop_last() =~= self@.subrange(0, i - 1));
            if self.messages[i - 1].role == MessageRole::User {
                return Some(self.messages[i - 1].content.clone());
            }
            i = i - 1;
        }
        None
    }
}

/// A well-formed log holds at most `max_history` messages.
pub proof fn lemma_context_bounded(c: Context)
    requires
        c.wf(),
    ensures
        c@.len() <= c.max_history(),
{
}

/// However many messages are added, and whatever they hold, a log never holds
/// more than its `max_history`: one add keeps the bound.
pub proof fn lemma_add_keeps_bound(s: Seq<Entry>, m: Entry, n: nat)
    ensures
        window(s.push(m), n).len() <= n,
{
}

} // verus!
