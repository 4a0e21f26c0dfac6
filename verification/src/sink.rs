//! The callback protocol: how generated tokens and the terminal status reach
//! the host.
//!
//! The host hands the bridge a set of callbacks; the bridge may only drive
//! them in a fixed shape (tokens, then one completion report). A sink's
//! ghost history of [`Event`]s is the record the generation contracts speak
//! of: what was delivered, in what order, and how the host answered.

use vstd::prelude::*;

verus! {

/// One observable interaction with the host's callback set.
pub enum Event {
    /// One token was delivered through the token callback; `code` is the
    /// status the host answered with (nonzero asks generation to stop).
    Token { text: Seq<char>, code: i32 },
    /// The completion callback reported that generation ended with `status`.
    Done { status: i32 },
}

/// Whether an event is a token delivery.
pub open spec fn is_token_event(e: Event) -> bool {
    match e {
        Event::Token { .. } => true,
        Event::Done { .. } => false,
    }
}

/// The text a token event carried (the empty sequence for a completion event).
pub open spec fn event_text(e: Event) -> Seq<char> {
    match e {
        Event::Token { text, .. } => text,
        Event::Done { .. } => Seq::empty(),
    }
}

/// The host's answer to a token event, or the status a completion event
/// carried.
pub open spec fn event_code(e: Event) -> i32 {
    match e {
        Event::Token { code, .. } => code,
        Event::Done { status } => status,
    }
}

/// A destination for one generation run's output.
///
/// The host's callback set stands behind an implementation of this trait;
/// `events` is the full record of what the sink has been handed, oldest
/// first. Nothing is promised about the host's answers: `on_token` may
/// return any code, and the contracts only record it.
pub trait TokenSink {
    /// Every interaction this sink has received so far, oldest first.
    ///
    /// The default record is empty and never grows, which no sink the
    /// contracts are to speak of can satisfy: a sink meant for verified
    /// callers overrides it (as [`RecordingSink`] does), while a foreign
    /// implementation at the boundary, which has no ghost state to record
    /// with, leaves the default and gets no promise about its record.
    open spec fn events(&self) -> Seq<Event> {
        Seq::empty()
    }

    /// Deliver one token. The result is the host's answer: nonzero means
    /// "stop generation now".
    fn on_token(&mut self, token: &str) -> (code: i32)
        ensures
            final(self).events() == old(self).events().push(
                Event::Token { text: token@, code: code },
            ),
    ;

    /// Report that generation has ended with `status`. Callers invoke this
    /// exactly once per run, after the last token.
    fn on_done(&mut self, status: i32)
        ensures
            final(self).events() == old(self).events().push(Event::Done { status: status }),
    ;
}

/// A sink that stores everything it is handed, for tests and diagnostics.
///
/// `stop_at`, when set to `k`, makes the `k`-th token delivery (counting
/// from one) answer 1, asking the generator to stop early; every other
/// delivery answers 0.
pub struct RecordingSink {
    /// The token texts received, oldest first.
    pub tokens: Vec<String>,
    /// The statuses of the completion reports received, oldest first.
    pub statuses: Vec<i32>,
    /// Which token delivery, if any, answers with a stop request.
    pub stop_at: Option<usize>,
    /// The full interaction record the contracts speak of.
    pub history: Ghost<Seq<Event>>,
}

impl RecordingSink {
    /// A fresh sink with an empty record; token deliveries answer 0, except
    /// the `stop_at`-th (counting from one), which answers 1.
    pub fn new(stop_at: Option<usize>) -> (r: RecordingSink)
        ensures
            r.events() == Seq::<Event>::empty(),
            r.tokens@ == Seq::<String>::empty(),
            r.statuses@ == Seq::<i32>::empty(),
            r.stop_at == stop_at,
    {
        RecordingSink {
            tokens: Vec::new(),
            statuses: Vec::new(),
            stop_at: stop_at,
            history: Ghost(Seq::empty()),
        }
    }
}

impl TokenSink for RecordingSink {
    open spec fn events(&self) -> Seq<Event> {
        self.history@
    }

    fn on_token(&mut self, token: &str) -> (code: i32) {
        self.tokens.push(token.to_owned());
        let code: i32 = match self.stop_at {
            Some(k) => {
                if self.tokens.len() >= k {
                    1
                } else {
                    0
                }
            },
            None => 0,
        };
        proof {
            self.history@ = self.history@.push(Event::Token { text: token@, code: code });
        }
        code
    }

    fn on_done(&mut self, status: i32) {
        self.statuses.push(status);
        proof {
            self.history@ = self.history@.push(Event::Done { status: status });
        }
    }
}

} // verus!
