//! The serving-backend contract's shared pieces: the model's name, committed
//! text, the consumer of a streamed request, the cancellation flag, and the
//! classified failure.
use vstd::prelude::*;
use crate::chat::outcome::Admission;
use crate::chat::outcome::Channel;
use crate::chat::request::ThinkingBudget;

verus! {

/// A model's name, as its artifact records it.
#[derive(Debug, Clone, PartialEq, Eq, Hash)]
pub struct ModelName(pub String);

/// Committed text on one output channel.
#[derive(Debug, Clone, Copy, PartialEq, Eq, Hash)]
pub struct DeltaText<'text>(pub &'text str);

/// Whether a request's consumer asked to stop.
#[derive(Debug, Clone, Copy, PartialEq, Eq, Structural, Hash)]
pub enum Cancellation {
    /// Keep generating.
    Live,
    /// Stop at the next opportunity.
    Requested,
}

/// A request's cancellation flag, shared between its consumer and the
/// backend running it; every clone reads the same flag.
#[derive(Debug, Clone)]
pub struct CancelToken(std::sync::Arc<core::sync::atomic::AtomicBool>);

impl CancelToken {
    /// A live token.
    pub fn new() -> (r: Self) {
        CancelToken(std::sync::Arc::new(core::sync::atomic::AtomicBool::new(false)))
    }

    /// Ask the backend to stop: every clone of this token reads
    /// `Requested` from now on.
    pub fn request(&self) {
        self.0.store(true, core::sync::atomic::Ordering::Release);
    }

    /// Read the flag: `Requested` exactly after some clone called
    /// `request`. Another thread may set the flag at any time, so nothing is
    /// stated of the answer.
    pub fn state(&self) -> (r: Cancellation) {
        if self.0.load(core::sync::atomic::Ordering::Acquire) {
            Cancellation::Requested
        } else {
            Cancellation::Live
        }
    }
}

impl Default for CancelToken {
    fn default() -> (r: Self) {
        CancelToken::new()
    }
}

/// Whether the assistant turn opens in thinking.
#[derive(Debug, Clone, Copy, PartialEq, Eq, Structural, Hash)]
pub enum Thinking {
    /// The turn opens inside thinking.
    Open,
    /// The turn opens in content.
    Closed,
}

/// What preparation decided when the request was submitted.
#[derive(Debug, Clone, Copy, PartialEq, Eq, Structural, Hash)]
pub struct Submission {
    /// Whether the turn opens in thinking.
    pub thinking: Thinking,
    /// The budget thinking runs under.
    pub thinking_budget: ThinkingBudget,
}

/// An event a consumer has been handed.
pub ghost enum Forwarded {
    /// The submission, with what preparation decided.
    Submitted(Submission),
    /// The admission record.
    Admitted(Admission),
    /// Committed text on a channel.
    Published(Channel, Seq<char>),
}

/// The record of the events a consumer has been handed, in order. It is
/// ghost: it occupies no space and costs nothing at run time.
#[derive(Clone, Copy)]
pub struct Ledger(Ghost<Seq<Forwarded>>);

impl Ledger {
    /// The events recorded, in order.
    pub closed spec fn events(self) -> Seq<Forwarded> {
        self.0@
    }

    /// A record of nothing handed yet.
    pub fn new() -> (r: Self)
        ensures
            r.events() == Seq::<Forwarded>::empty(),
    {
        Ledger(Ghost(Seq::empty()))
    }

    /// Record a submission handed to the consumer.
    pub fn submitted(&mut self, submission: Submission)
        ensures
            final(self).events() == old(self).events().push(Forwarded::Submitted(submission)),
    {
        self.0 = Ghost(self.0@.push(Forwarded::Submitted(submission)));
    }

    /// Record an admission handed to the consumer.
    pub fn admitted(&mut self, admission: Admission)
        ensures
            final(self).events() == old(self).events().push(Forwarded::Admitted(admission)),
    {
        self.0 = Ghost(self.0@.push(Forwarded::Admitted(admission)));
    }

    /// Record committed text handed to the consumer.
    pub fn published(&mut self, channel: Channel, text: DeltaText<'_>)
        ensures
            final(self).events() == old(self).events().push(Forwarded::Published(channel, text.0@)),
    {
        self.0 = Ghost(self.0@.push(Forwarded::Published(channel, text.0@)));
    }
}

/// The consumer side of a streaming request, called on the thread running
/// the request, in commit order. Each consumer keeps a [`Ledger`] of what it
/// was handed and records each event in it as it takes it.
pub trait ChatEvents {
    /// The events this consumer has been handed, in order.
    spec fn received(&self) -> Ledger;

    /// The request passed preparation and was submitted; called once, before
    /// the admission. A failure before this call rejects the request; a
    /// failure after it ends a response already begun.
    fn submitted(&mut self, submission: Submission)
        ensures
            final(self).received().events() == old(self).received().events().push(
                Forwarded::Submitted(submission),
            ),
    ;

    /// The request was admitted with this prompt accounting; called once,
    /// before any delta.
    fn admitted(&mut self, admission: Admission)
        ensures
            final(self).received().events() == old(self).received().events().push(
                Forwarded::Admitted(admission),
            ),
    ;

    /// Committed text on one channel: non-empty, following every earlier
    /// delta.
    fn publish(&mut self, channel: Channel, text: DeltaText<'_>)
        ensures
            final(self).received().events() == old(self).received().events().push(
                Forwarded::Published(channel, text.0@),
            ),
    ;
}

/// How a request failed.
#[derive(Debug, Clone, Copy, PartialEq, Eq, Structural, Hash)]
pub enum FailureKind {
    /// The prompt or its options are invalid.
    InvalidPrompt,
    /// The prompt does not fit the context ceiling.
    ContextLength,
    /// The thinking budget leaves no room for its closing control tokens.
    ThinkingBudgetCapacity,
    /// The request queue is full.
    Overloaded,
    /// The request waited past its pending deadline.
    QueueTimeout,
    /// The consumer cancelled before admission.
    Cancelled,
    /// The backend is not serving.
    Unavailable,
    /// Anything else.
    Internal,
}

/// A failed request: its kind and the backend's message.
#[derive(Debug, Clone, PartialEq, Eq)]
pub struct ChatFailure {
    /// How it failed.
    pub kind: FailureKind,
    /// The backend's message.
    pub message: String,
}

impl ChatFailure {
    /// Render the backend's message.
    pub fn render(&self) -> (r: &str)
        ensures
            r@ == self.message@,
    {
        self.message.as_str()
    }
}

} // verus!
