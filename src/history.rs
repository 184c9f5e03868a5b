//! Conversation history: an ordered, turn-bounded log of chat messages.

use vstd::prelude::*;

verus! {

/// Speaker of a chat message.
#[derive(Debug, Clone, Copy, PartialEq, Eq, Structural)]
pub enum Role {
    System,
    User,
    Assistant,
}

/// The role type under the name the SDK layer uses.
pub type ChatRole = Role;

/// One message of a conversation.
#[derive(Debug, Clone)]
pub struct ChatMessage {
    pub role: Role,
    pub content: String,
}

/// What a message is: its role and its text.
pub type MessageView = (Role, Seq<char>);

impl View for ChatMessage {
    type V = MessageView;

    open spec fn view(&self) -> MessageView {
        (self.role, self.content@)
    }
}

impl ChatMessage {
    pub fn new(role: Role, content: &str) -> (r: ChatMessage)
        ensures
            r@ == (role, content@),
    {
        ChatMessage { role, content: String::from_str(content) }
    }

    pub fn user(content: &str) -> (r: ChatMessage)
        ensures
            r@ == (Role::User, content@),
    {
        Self::new(Role::User, content)
    }

    pub fn assistant(content: &str) -> (r: ChatMessage)
        ensures
            r@ == (Role::Assistant, content@),
    {
        Self::new(Role::Assistant, content)
    }

    pub fn system(content: &str) -> (r: ChatMessage)
        ensures
            r@ == (Role::System, content@),
    {
        Self::new(Role::System, content)
    }
}

/// The last `n` elements of `s`, or all of `s` when it is no longer than `n`.
pub open spec fn keep_last<A>(s: Seq<A>, n: nat) -> Seq<A> {
    if s.len() > n {
        s.subrange(s.len() - n, s.len() as int)
    } else {
        s
    }
}

/// The number of messages a history with `max_turns` turns keeps:
/// one user and one assistant message per turn.
pub open spec fn message_capacity(max_turns: nat) -> nat {
    2 * max_turns
}

/// The messages of `s` that are not system messages, in order.
pub open spec fn without_system(s: Seq<MessageView>) -> Seq<MessageView>
    decreases s.len(),
{
    if s.len() == 0 {
        s
    } else {
        let rest = without_system(s.drop_last());
        if s.last().0 == Role::System {
            rest
        } else {
            rest.push(s.last())
        }
    }
}

/// `s` with its system messages replaced by one system message `prompt` in front.
pub open spec fn with_system_prompt(s: Seq<MessageView>, prompt: Seq<char>) -> Seq<MessageView> {
    seq![(Role::System, prompt)] + without_system(s)
}

/// The history that `add_message` leaves after appending each of `ms` in turn to `h`.
pub open spec fn append_all(h: Seq<MessageView>, ms: Seq<MessageView>, max_turns: nat) -> Seq<MessageView>
    decreases ms.len(),
{
    if ms.len() == 0 {
        h
    } else {
        keep_last(append_all(h, ms.drop_last(), max_turns).push(ms.last()), message_capacity(max_turns))
    }
}

/// `without_system` keeps no system message.
pub proof fn lemma_without_system_has_none(s: Seq<MessageView>)
    ensures
        forall|i: int| 0 <= i < without_system(s).len() ==> #[trigger] without_system(s)[i].0 != Role::System,
    decreases s.len(),
{
    if s.len() > 0 {
        lemma_without_system_has_none(s.drop_last());
    }
}

/// A sequence without system messages is left as it is by `without_system`.
pub proof fn lemma_without_system_unchanged(s: Seq<MessageView>)
    requires
        forall|i: int| 0 <= i < s.len() ==> #[trigger] s[i].0 != Role::System,
    ensures
        without_system(s) == s,
    decreases s.len(),
{
    if s.len() > 0 {
        lemma_without_system_unchanged(s.drop_last());
        assert(s.drop_last().push(s.last()) =~= s);
    }
}

/// A system message in front is dropped by `without_system`.
pub proof fn lemma_without_system_drops_front(x: MessageView, s: Seq<MessageView>)
    requires
        x.0 == Role::System,
    ensures
        without_system(seq![x] + s) == without_system(s),
    decreases s.len(),
{
    if s.len() == 0 {
        assert((seq![x] + s).drop_last() =~= Seq::<MessageView>::empty());
        assert(without_system(Seq::<MessageView>::empty()) =~= s);
    } else {
        assert((seq![x] + s).drop_last() =~= seq![x] + s.drop_last());
        lemma_without_system_drops_front(x, s.drop_last());
    }
}

/// Appending messages one at a time with `max_turns` turns, starting from an empty
/// history, never keeps more than two messages per turn, and what is kept is exactly
/// the most recently appended messages, in the order they were appended.
pub proof fn lemma_appends_keep_recent(ms: Seq<MessageView>, max_turns: nat)
    ensures
        append_all(Seq::empty(), ms, max_turns).len() <= message_capacity(max_turns),
        append_all(Seq::empty(), ms, max_turns).len() == if ms.len() <= message_capacity(max_turns) {
            ms.len()
        } else {
            message_capacity(max_turns)
        },
        append_all(Seq::empty(), ms, max_turns) == ms.subrange(
            ms.len() - append_all(Seq::empty(), ms, max_turns).len(),
            ms.len() as int,
        ),
    decreases ms.len(),
{
    let cap = message_capacity(max_turns);
    if ms.len() == 0 {
        assert(ms.subrange(0, 0) =~= Seq::<MessageView>::empty());
    } else {
        let prev = ms.drop_last();
        lemma_appends_keep_recent(prev, max_turns);
        let kept = append_all(Seq::empty(), prev, max_turns);
        let r = append_all(Seq::empty(), ms, max_turns);
        assert(kept.push(ms.last()) =~= ms.subrange(ms.len() - kept.len() - 1, ms.len() as int));
        assert(r == keep_last(kept.push(ms.last()), cap));
        if kept.len() + 1 > cap {
            assert(r =~= ms.subrange(ms.len() - cap, ms.len() as int));
        }
    }
}

/// Setting the system prompt twice leaves exactly one system message, at the front,
/// holding the later prompt; the rest of the conversation is what the first call kept.
pub proof fn lemma_system_prompt_twice(h: Seq<MessageView>, first: Seq<char>, second: Seq<char>)
    ensures
        with_system_prompt(with_system_prompt(h, first), second) == with_system_prompt(h, second),
        with_system_prompt(with_system_prompt(h, first), second)[0] == (Role::System, second),
        forall|i: int|
            0 < i < with_system_prompt(with_system_prompt(h, first), second).len()
                ==> #[trigger] with_system_prompt(with_system_prompt(h, first), second)[i].0 != Role::System,
{
    lemma_without_system_drops_front((Role::System, first), without_system(h));
    lemma_without_system_has_none(h);
    lemma_without_system_unchanged(without_system(h));
    let r = with_system_prompt(h, second);
    assert forall|i: int| 0 < i < r.len() implies #[trigger] r[i].0 != Role::System by {
        assert(r[i] == without_system(h)[i - 1]);
    }
}

/// Conversation history that keeps the most recent `max_turns` turns.
#[derive(Debug, Clone)]
pub struct ChatHistory {
    pub messages: Vec<ChatMessage>,
    pub max_turns: usize,
}

impl View for ChatHistory {
    type V = Seq<MessageView>;

    open spec fn view(&self) -> Seq<MessageView> {
        self.messages@.map_values(|m: ChatMessage| m@)
    }
}

impl ChatHistory {
    pub fn new(max_turns: usize) -> (r: ChatHistory)
        ensures
            r@ == Seq::<MessageView>::empty(),
            r.max_turns == max_turns,
    {
        let r = ChatHistory { messages: Vec::new(), max_turns };
        assert(r@ =~= Seq::<MessageView>::empty());
        r
    }

    /// Appends `message`, then drops the oldest messages beyond two per turn.
    pub fn add_message(&mut self, message: ChatMessage)
        ensures
            final(self)@ == keep_last(old(self)@.push(message@), message_capacity(old(self).max_turns as nat)),
            final(self).max_turns == old(self).max_turns,
    {
        let ghost cap = message_capacity(self.max_turns as nat);
        self.messages.push(message);
        let ghost full = self.messages@;
        assert(self@ =~= old(self)@.push(message@));
        let limit: usize = if self.max_turns <= usize::MAX / 2 {
            self.max_turns * 2
        } else {
            usize::MAX
        };
        if self.messages.len() > limit {
            let excess: usize = self.messages.len() - limit;
            let mut k: usize = 0;
            while k < excess
                invariant
                    0 <= k <= excess,
                    excess == full.len() - limit,
                    limit < full.len(),
                    self.messages@ =~= full.subrange(k as int, full.len() as int),
                    self.max_turns == old(self).max_turns,
                decreases excess - k,
            {
                self.messages.remove(0);
                k = k + 1;
            }
            assert(limit == cap);
            assert(self@ =~= keep_last(old(self)@.push(message@), cap));
        } else {
            assert(self@ =~= keep_last(old(self)@.push(message@), cap));
        }
    }

    /// Removes every message, the system message included.
    pub fn clear(&mut self)
        ensures
            final(self)@ == Seq::<MessageView>::empty(),
            final(self).max_turns == old(self).max_turns,
    {
        self.messages.clear();
        assert(self@ =~= Seq::<MessageView>::empty());
    }

    /// The messages in conversation order.
    pub fn snapshot(&self) -> (r: &Vec<ChatMessage>)
        ensures
            r@.map_values(|m: ChatMessage| m@) == self@,
    {
        &self.messages
    }

    pub fn len(&self) -> (r: usize)
        ensures
            r == self@.len(),
    {
        self.messages.len()
    }

    /// Removes any system message and puts a system message `prompt` at the front.
    pub fn set_system_prompt(&mut self, prompt: &str)
        ensures
            final(self)@ == with_system_prompt(old(self)@, prompt@),
            final(self).max_turns == old(self).max_turns,
    {
        let ghost orig = old(self)@;
        let mut i: usize = 0;
        let ghost mut j: int = 0;
        while i < self.messages.len()
            invariant
                0 <= i <= self.messages.len(),
                0 <= j <= orig.len(),
                self@.subrange(0, i as int) == without_system(orig.subrange(0, j)),
                self@.subrange(i as int, self@.len() as int) == orig.subrange(j, orig.len() as int),
                self.max_turns == old(self).max_turns,
            decreases self.messages.len() - i,
        {
            let ghost before = self@;
            proof {
                assert(before.subrange(i as int, before.len() as int).len() == orig.len() - j);
                assert(j < orig.len());
                assert(orig.subrange(0, j + 1).drop_last() =~= orig.subrange(0, j));
                assert(orig[j] == before[i as int]) by {
                    assert(before.subrange(i as int, before.len() as int)[0] == before[i as int]);
                    assert(orig.subrange(j, orig.len() as int)[0] == orig[j]);
                }
            }
            if self.messages[i].role == Role::System {
                self.messages.remove(i);
                proof {
                    assert(self@ =~= before.remove(i as int));
                    assert(self@.subrange(0, i as int) =~= before.subrange(0, i as int));
                    assert forall|k: int| 0 <= k < self@.len() - i implies #[trigger] self@.subrange(i as int, self@.len() as int)[k] == orig.subrange(j + 1, orig.len() as int)[k] by {
                        assert(before.subrange(i as int, before.len() as int)[k + 1] == orig.subrange(j, orig.len() as int)[k + 1]);
                    }
                    assert(self@.subrange(i as int, self@.len() as int) =~= orig.subrange(j + 1, orig.len() as int));
                    j = j + 1;
                }
            } else {
                i = i + 1;
                proof {
                    assert(self@.subrange(0, i as int) =~= before.subrange(0, i - 1).push(before[i - 1]));
                    assert forall|k: int| 0 <= k < self@.len() - i implies #[trigger] self@.subrange(i as int, self@.len() as int)[k] == orig.subrange(j + 1, orig.len() as int)[k] by {
                        assert(before.subrange(i - 1, before.len() as int)[k + 1] == orig.subrange(j, orig.len() as int)[k + 1]);
                    }
                    assert(self@.subrange(i as int, self@.len() as int) =~= orig.subrange(j + 1, orig.len() as int));
                    j = j + 1;
                }
            }
        }
        proof {
            assert(self@ =~= self@.subrange(0, i as int));
            assert(orig.subrange(0, j) =~= orig) by {
                assert(self@.subrange(i as int, self@.len() as int).len() == 0);
            }
        }
        self.messages.insert(0, ChatMessage::system(prompt));
        assert(self@ =~= with_system_prompt(orig, prompt@));
    }
}

} // verus!
