//! Relaying streamed tokens from a generation worker to an observer.

use vstd::prelude::*;

verus! {

/// What a generation worker sends while it produces a reply.
#[derive(Debug, Clone)]
pub enum StreamEvent {
    /// A decoded fragment of the reply.
    Token(String),
    /// Generation is over.
    End,
}

/// The fragments of `ts` joined in order.
pub open spec fn concat_all(ts: Seq<Seq<char>>) -> Seq<char>
    decreases ts.len(),
{
    if ts.len() == 0 {
        Seq::empty()
    } else {
        concat_all(ts.drop_last()) + ts.last()
    }
}

/// Forwards each streamed fragment to an observer, in arrival order, and keeps the
/// reply that the fragments make up.
pub struct TokenRelay {
    reply: String,
    delivered: Ghost<Seq<Seq<char>>>,
    finished: bool,
}

impl TokenRelay {
    /// The fragments handed to the observer so far, in order.
    pub closed spec fn delivered(&self) -> Seq<Seq<char>> {
        self.delivered@
    }

    /// The reply collected so far.
    pub closed spec fn reply_text(&self) -> Seq<char> {
        self.reply@
    }

    /// Whether the end of the stream has been seen.
    pub closed spec fn is_finished(&self) -> bool {
        self.finished
    }

    pub closed spec fn wf(&self) -> bool {
        self.reply@ == concat_all(self.delivered@)
    }

    pub fn new() -> (r: TokenRelay)
        ensures
            r.wf(),
            r.delivered() == Seq::<Seq<char>>::empty(),
            !r.is_finished(),
    {
        TokenRelay { reply: String::new(), delivered: Ghost(Seq::empty()), finished: false }
    }

    /// Handles one event: a fragment is handed to `on_token`, then added to the reply;
    /// the end of the stream is recorded. Returns whether more events are expected.
    pub fn on_event<F: Fn(&str)>(&mut self, event: StreamEvent, on_token: F) -> (more: bool)
        requires
            old(self).wf(),
            !old(self).is_finished(),
            forall|s: &str| on_token.requires((s,)),
        ensures
            final(self).wf(),
            match event {
                StreamEvent::Token(t) => {
                    &&& exists|s: &str| s@ == t@ && #[trigger] on_token.ensures((s,), ())
                    &&& more
                    &&& !final(self).is_finished()
                    &&& final(self).delivered() == old(self).delivered().push(t@)
                },
                StreamEvent::End => {
                    &&& !more
                    &&& final(self).is_finished()
                    &&& final(self).delivered() == old(self).delivered()
                },
            },
    {
        match event {
            StreamEvent::Token(t) => {
                on_token(t.as_str());
                self.reply.append(t.as_str());
                self.delivered = Ghost(self.delivered@.push(t@));
                assert(self.delivered@.drop_last() =~= old(self).delivered@);
                true
            },
            StreamEvent::End => {
                self.finished = true;
                false
            },
        }
    }

    /// The reply: every fragment handed to the observer, joined in order.
    pub fn finish(self) -> (r: String)
        requires
            self.wf(),
        ensures
            r@ == concat_all(self.delivered()),
            self.delivered().len() == 0 ==> r@.len() == 0,
    {
        self.reply
    }
}

/// The reply of a stream is the fragments handed to the observer, joined in order;
/// when no fragment was handed over, the reply is empty.
pub proof fn lemma_reply_is_delivered_fragments(relay: TokenRelay)
    requires
        relay.wf(),
    ensures
        relay.reply_text() == concat_all(relay.delivered()),
        relay.delivered().len() == 0 ==> relay.reply_text().len() == 0,
{
}

} // verus!
