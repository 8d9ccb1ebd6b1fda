//! The host side of a ninfer generation: reading the adapter's outcomes, the
//! round reviews the Engine asks for, and the generation's result.
//!
//! The Engine hands every round to a [`ReviewSink`] whose
//! [`crate::round::preview::Preview`] makes the output decision; ninfer
//! applies it and commits.
use vstd::prelude::*;
use crate::clock::duration_from_nanos;
use crate::clock::duration_of_nanos;
use crate::clock::nanos_of;
use crate::round::maybe::Maybe;
use crate::round::preview::admitted_of;
use crate::round::preview::verdict_is;
use crate::round::preview::Preview;
use crate::round::preview::RoundKind;
use crate::round::preview::RoundOffer;
use crate::round::preview::RoundRecord;
use crate::round::preview::RoundVerdict;
use crate::round::token::CountOverflow;
use crate::round::token::TokenCount;
use crate::round::token::TokenId;
use crate::ninfer::wire;

verus! {

/// The Engine operation a failure came from.
#[derive(Debug, Clone, Copy, PartialEq, Eq, Structural)]
pub enum Operation {
    /// Opening the Engine.
    Open,
    /// Reading the capacities the Engine resolved.
    Capacity,
    /// Tokenizing the prompt.
    Tokenize,
    /// Generating.
    Generate,
    /// Rendering ids to bytes.
    Detokenize,
}

/// How an operation is named in a failure.
pub open spec fn operation_text(operation: Operation) -> Seq<char> {
    match operation {
        Operation::Open => "opening the engine"@,
        Operation::Capacity => "reading the capacities"@,
        Operation::Tokenize => "tokenizing"@,
        Operation::Generate => "generating"@,
        Operation::Detokenize => "detokenizing"@,
    }
}

impl Operation {
    /// Render the operation.
    pub fn render(&self) -> (r: &'static str)
        ensures
            r@ == operation_text(*self),
    {
        match *self {
            Operation::Open => "opening the engine",
            Operation::Capacity => "reading the capacities",
            Operation::Tokenize => "tokenizing",
            Operation::Generate => "generating",
            Operation::Detokenize => "detokenizing",
        }
    }
}

/// How ninfer failed.
#[derive(Debug, Clone, Copy, PartialEq, Eq, Structural)]
pub enum ThrownKind {
    /// It threw `std::invalid_argument`.
    InvalidArgument,
    /// It threw another `std::exception`.
    Runtime,
    /// It threw a value that is not a `std::exception`.
    Unknown,
}

/// How an exception's kind is named in a failure.
pub open spec fn thrown_text(kind: ThrownKind) -> Seq<char> {
    match kind {
        ThrownKind::InvalidArgument => "std::invalid_argument"@,
        ThrownKind::Runtime => "a std::exception"@,
        ThrownKind::Unknown => "a non-exception value"@,
    }
}

impl ThrownKind {
    /// Render the exception's kind.
    pub fn render(&self) -> (r: &'static str)
        ensures
            r@ == thrown_text(*self),
    {
        match *self {
            ThrownKind::InvalidArgument => "std::invalid_argument",
            ThrownKind::Runtime => "a std::exception",
            ThrownKind::Unknown => "a non-exception value",
        }
    }
}

/// A failure opening or driving the Engine.
#[derive(Debug, Clone, PartialEq, Eq)]
pub enum EngineFailure {
    /// The artifact path is not Unicode, which the bridge's string cannot
    /// carry.
    ArtifactPath(String),
    /// The chat template path is not Unicode.
    TemplatePath(String),
    /// ninfer threw.
    Thrown {
        /// What was being done.
        operation: Operation,
        /// What kind of exception.
        kind: ThrownKind,
        /// Its message.
        message: String,
    },
    /// A count left its range while the preview reviewed a round.
    Preview(CountOverflow),
    /// A prompt longer than the bridge's count.
    PromptLength,
}

/// The operator's reading of an engine failure.
pub open spec fn engine_failure_text(failure: EngineFailure) -> Seq<char> {
    match failure {
        EngineFailure::ArtifactPath(path) => "the artifact path "@ + path@ + " is not Unicode"@,
        EngineFailure::TemplatePath(path) => "the chat template path "@ + path@
            + " is not Unicode"@,
        EngineFailure::Thrown { operation, kind, message } => "ninfer failed "@ + operation_text(
            operation,
        ) + ", throwing "@ + thrown_text(kind) + ": "@ + message@,
        EngineFailure::Preview(_) => "the round preview failed: "@
            + "a token count exceeds its 32-bit range"@,
        EngineFailure::PromptLength => "the prompt is longer than a count can hold"@,
    }
}

impl EngineFailure {
    /// Render the failure for an operator.
    pub fn render(&self) -> (r: String)
        ensures
            r@ == engine_failure_text(*self),
    {
        match self {
            EngineFailure::ArtifactPath(path) => {
                let mut out = String::from_str("the artifact path ");
                out.append(path.as_str());
                out.append(" is not Unicode");
                out
            },
            EngineFailure::TemplatePath(path) => {
                let mut out = String::from_str("the chat template path ");
                out.append(path.as_str());
                out.append(" is not Unicode");
                out
            },
            EngineFailure::Thrown { operation, kind, message } => {
                let mut out = String::from_str("ninfer failed ");
                out.append(operation.render());
                out.append(", throwing ");
                out.append(kind.render());
                out.append(": ");
                out.append(message.as_str());
                out
            },
            EngineFailure::Preview(overflow) => {
                let mut out = String::from_str("the round preview failed: ");
                let overflow_text = overflow.render();
                out.append(overflow_text.as_str());
                out
            },
            EngineFailure::PromptLength => String::from_str(
                "the prompt is longer than a count can hold",
            ),
        }
    }
}

/// An outcome the adapter has not written yet.
pub fn pending() -> (r: wire::Outcome)
    ensures
        r.status == wire::Status::Unknown,
        r.refusal == wire::Refusal::NotRefused,
        r.message@ == Seq::<char>::empty(),
{
    wire::Outcome {
        status: wire::Status::Unknown,
        refusal: wire::Refusal::NotRefused,
        message: String::new(),
    }
}

/// The exception kind a status that is not a completion stands for: an
/// invalid argument or a refusal is `std::invalid_argument`.
pub open spec fn thrown_of(status: wire::Status) -> ThrownKind {
    match status {
        wire::Status::InvalidArgument => ThrownKind::InvalidArgument,
        wire::Status::Refused => ThrownKind::InvalidArgument,
        wire::Status::Runtime => ThrownKind::Runtime,
        _ => ThrownKind::Unknown,
    }
}

/// Read an adapter outcome: `Ok` exactly for a completed call; otherwise the
/// failure carries the operation, the exception's kind, and ninfer's message.
pub fn check(operation: Operation, outcome: wire::Outcome) -> (r: Result<(), EngineFailure>)
    ensures
        outcome.status == wire::Status::Completed ==> r == Ok::<(), EngineFailure>(()),
        outcome.status != wire::Status::Completed ==> {
            &&& r matches Err(EngineFailure::Thrown { operation: o, kind, message })
            &&& o == operation
            &&& kind == thrown_of(outcome.status)
            &&& message@ == outcome.message@
        },
{
    let kind = match outcome.status {
        wire::Status::Completed => return Ok(()),
        wire::Status::InvalidArgument => ThrownKind::InvalidArgument,
        wire::Status::Refused => ThrownKind::InvalidArgument,
        wire::Status::Runtime => ThrownKind::Runtime,
        wire::Status::Unknown => ThrownKind::Unknown,
    };
    Err(EngineFailure::Thrown { operation, kind, message: outcome.message })
}

/// Why a generation ended.
#[derive(Debug, Clone, Copy, PartialEq, Eq, Structural)]
pub enum Finish {
    /// ninfer reported no reason.
    Unfinished,
    /// The budget, or a round verdict's limit, was reached.
    OutputLimit,
    /// The context ceiling was reached.
    ContextCapacity,
    /// A stop token was generated.
    StopToken,
    /// A stop string was generated.
    StopString,
    /// The request was cancelled.
    Cancelled,
    /// A reason the bridge does not know.
    Unrecognized,
}

/// How a finish reason is named.
pub open spec fn finish_text(finish: Finish) -> Seq<char> {
    match finish {
        Finish::Unfinished => "unfinished"@,
        Finish::OutputLimit => "output limit"@,
        Finish::ContextCapacity => "context capacity"@,
        Finish::StopToken => "stop token"@,
        Finish::StopString => "stop string"@,
        Finish::Cancelled => "cancelled"@,
        Finish::Unrecognized => "unrecognized"@,
    }
}

/// The finish reason ninfer's report stands for.
pub open spec fn finish_for(finish: wire::Finish) -> Finish {
    match finish {
        wire::Finish::Unfinished => Finish::Unfinished,
        wire::Finish::OutputLimit => Finish::OutputLimit,
        wire::Finish::ContextCapacity => Finish::ContextCapacity,
        wire::Finish::StopToken => Finish::StopToken,
        wire::Finish::StopString => Finish::StopString,
        wire::Finish::Cancelled => Finish::Cancelled,
        wire::Finish::Unrecognized => Finish::Unrecognized,
    }
}

impl Finish {
    /// Render the reason.
    pub fn render(&self) -> (r: &'static str)
        ensures
            r@ == finish_text(*self),
    {
        match *self {
            Finish::Unfinished => "unfinished",
            Finish::OutputLimit => "output limit",
            Finish::ContextCapacity => "context capacity",
            Finish::StopToken => "stop token",
            Finish::StopString => "stop string",
            Finish::Cancelled => "cancelled",
            Finish::Unrecognized => "unrecognized",
        }
    }

    /// Read ninfer's finish reason.
    pub fn of(finish: wire::Finish) -> (r: Finish)
        ensures
            r == finish_for(finish),
    {
        match finish {
            wire::Finish::Unfinished => Finish::Unfinished,
            wire::Finish::OutputLimit => Finish::OutputLimit,
            wire::Finish::ContextCapacity => Finish::ContextCapacity,
            wire::Finish::StopToken => Finish::StopToken,
            wire::Finish::StopString => Finish::StopString,
            wire::Finish::Cancelled => Finish::Cancelled,
            wire::Finish::Unrecognized => Finish::Unrecognized,
        }
    }
}

/// A tally ninfer keeps over one generation.
#[derive(Debug, Clone, Copy, PartialEq, Eq, Structural, PartialOrd, Ord)]
pub struct RoundTally(pub u64);

impl RoundTally {
    /// Render the tally in decimal.
    pub fn render(&self) -> (r: String)
        ensures
            r@ == crate::pretty::decimal_digits(self.0 as nat),
    {
        crate::pretty::decimal(self.0)
    }
}

/// How the speculation of one generation went, as ninfer counted it.
#[derive(Debug, Clone, Copy, PartialEq, Eq, Structural)]
pub struct Speculation {
    /// Speculative rounds run.
    rounds: RoundTally,
    /// Tokens drafted.
    drafted: RoundTally,
    /// Drafted tokens accepted.
    accepted: RoundTally,
    /// Steps that fell back to plain decode.
    fallback_steps: RoundTally,
}

impl Speculation {
    /// The tallies as rounds, drafted, accepted and fallback steps.
    pub closed spec fn view(self) -> (u64, u64, u64, u64) {
        (self.rounds.0, self.drafted.0, self.accepted.0, self.fallback_steps.0)
    }

    /// The tallies of a generation record.
    pub fn of(record: &wire::GenerationRecord) -> (r: Speculation)
        ensures
            r.view() == (record.decode_rounds, record.drafted, record.accepted, record.fallback_steps),
    {
        Speculation {
            rounds: RoundTally(record.decode_rounds),
            drafted: RoundTally(record.drafted),
            accepted: RoundTally(record.accepted),
            fallback_steps: RoundTally(record.fallback_steps),
        }
    }

    /// Speculative rounds run.
    pub fn rounds(&self) -> (r: RoundTally)
        ensures
            r.0 == self.view().0,
    {
        self.rounds
    }

    /// Tokens drafted.
    pub fn drafted(&self) -> (r: RoundTally)
        ensures
            r.0 == self.view().1,
    {
        self.drafted
    }

    /// Drafted tokens accepted.
    pub fn accepted(&self) -> (r: RoundTally)
        ensures
            r.0 == self.view().2,
    {
        self.accepted
    }

    /// Steps that fell back to plain decode.
    pub fn fallback_steps(&self) -> (r: RoundTally)
        ensures
            r.0 == self.view().3,
    {
        self.fallback_steps
    }
}

/// Why a sink holds no failure.
#[derive(Debug, Clone, Copy, PartialEq, Eq, Structural)]
pub enum Reviewing {
    /// Every review so far succeeded.
    Clean,
}

/// The host side of a generation's round reviews.
pub struct ReviewSink {
    /// infinitum's decision and ledger.
    preview: Preview,
    /// The offer's ids, reused across rounds.
    scratch: Vec<TokenId>,
    /// The first failure, which ends every later review with no decision.
    failure: Maybe<CountOverflow, Reviewing>,
}

impl ReviewSink {
    /// The preview deciding the rounds.
    pub closed spec fn spec_preview(&self) -> Preview {
        self.preview
    }

    /// The first failure a review met, or why there is none.
    pub closed spec fn spec_failure(&self) -> Maybe<CountOverflow, Reviewing> {
        self.failure
    }

    /// The sink's preview keeps its ledger.
    pub open spec fn well_formed(&self) -> bool {
        self.spec_preview().well_formed()
    }

    /// A sink whose preview admits at most `budget` tokens.
    pub fn new(budget: TokenCount) -> (r: Self)
        ensures
            r.well_formed(),
            r.spec_preview().spec_budget() == budget.0,
            r.spec_preview().spec_rounds() == Seq::<RoundRecord>::empty(),
            r.spec_preview().spec_tokens() == Seq::<TokenId>::empty(),
            r.spec_failure() == Maybe::<CountOverflow, Reviewing>::Absent(Reviewing::Clean),
    {
        ReviewSink {
            preview: Preview::new(budget),
            scratch: Vec::new(),
            failure: Maybe::Absent(Reviewing::Clean),
        }
    }

    /// The first failure a review met, or why there is none.
    pub fn failure(&self) -> (r: Maybe<CountOverflow, Reviewing>)
        ensures
            r == self.spec_failure(),
    {
        self.failure
    }

    /// Every round the preview reviewed, in order.
    pub fn rounds(&self) -> (r: &[RoundRecord])
        requires
            self.well_formed(),
        ensures
            r@ == self.spec_preview().spec_rounds(),
    {
        self.preview.rounds()
    }
}

/// The ids a bridge offer carries, as token ids.
pub open spec fn offered_ids(licensed: Seq<i32>) -> Seq<TokenId> {
    licensed.map_values(|id: i32| TokenId(id))
}

/// The answer the bridge reads for a verdict.
pub open spec fn answer_for(verdict: RoundVerdict) -> wire::ReviewAnswer {
    match verdict {
        RoundVerdict::Continue => wire::ReviewAnswer { verdict: wire::Verdict::Continue, limit: 0 },
        RoundVerdict::Limit(limit) => wire::ReviewAnswer {
            verdict: wire::Verdict::Limit,
            limit: limit.view() as u32,
        },
    }
}

/// The round kind a bridge offer names.
pub open spec fn round_kind_for(kind: wire::RoundKind) -> RoundKind {
    match kind {
        wire::RoundKind::Decode => RoundKind::Decode,
        wire::RoundKind::PrefillFinalization => RoundKind::PrefillFinalization,
    }
}

/// Review one round: the bridge's entry into the preview. The answer is the
/// preview's verdict for the offer; after a preview failure the failure is
/// kept and every answer is continue, so the generation completes and the
/// failure is reported with its result. Nothing fails across the boundary.
pub fn review_round(sink: &mut ReviewSink, licensed: &[i32], kind: wire::RoundKind) -> (r:
    wire::ReviewAnswer)
    requires
        old(sink).well_formed(),
    ensures
        final(sink).well_formed(),
        final(sink).spec_preview().spec_budget() == old(sink).spec_preview().spec_budget(),
        old(sink).spec_failure() is Present ==> {
            &&& r == answer_for(RoundVerdict::Continue)
            &&& final(sink).spec_failure() == old(sink).spec_failure()
            &&& final(sink).spec_preview().spec_tokens() == old(sink).spec_preview().spec_tokens()
            &&& final(sink).spec_preview().spec_rounds() == old(sink).spec_preview().spec_rounds()
        },
        old(sink).spec_failure() is Absent && licensed@.len() > u32::MAX ==> {
            &&& r == answer_for(RoundVerdict::Continue)
            &&& final(sink).spec_failure() == Maybe::<CountOverflow, Reviewing>::Present(CountOverflow)
            &&& final(sink).spec_preview().spec_tokens() == old(sink).spec_preview().spec_tokens()
            &&& final(sink).spec_preview().spec_rounds() == old(sink).spec_preview().spec_rounds()
        },
        old(sink).spec_failure() is Absent && licensed@.len() <= u32::MAX ==> {
            let remaining = old(sink).spec_preview().spec_remaining();
            let admitted = admitted_of(licensed@.len(), remaining);
            &&& final(sink).spec_failure() == old(sink).spec_failure()
            &&& exists|verdict: RoundVerdict|
                verdict_is(verdict, licensed@.len(), remaining) && r == answer_for(verdict)
            &&& final(sink).spec_preview().spec_tokens() == old(sink).spec_preview().spec_tokens()
                + offered_ids(licensed@).take(admitted as int)
            &&& final(sink).spec_preview().spec_rounds().drop_last() == old(sink).spec_preview().spec_rounds()
            &&& final(sink).spec_preview().spec_rounds().last().spec_kind() == round_kind_for(kind)
            &&& final(sink).spec_preview().spec_rounds().last().spec_admitted() == admitted
        },
{
    let proceed = wire::ReviewAnswer { verdict: wire::Verdict::Continue, limit: 0 };
    if let Maybe::Present(_) = sink.failure {
        return proceed;
    }
    sink.scratch.clear();
    let mut i: usize = 0;
    while i < licensed.len()
        invariant
            i <= licensed@.len(),
            sink.scratch@ == offered_ids(licensed@).take(i as int),
            sink.preview == old(sink).preview,
            sink.failure == old(sink).failure,
        decreases licensed@.len() - i,
    {
        sink.scratch.push(TokenId::from(licensed[i]));
        i = i + 1;
        assert(offered_ids(licensed@).take(i as int) == offered_ids(licensed@).take(
            (i - 1) as int,
        ).push(TokenId(licensed@[i - 1])));
    }
    assert(sink.scratch@ == offered_ids(licensed@));
    let round = match kind {
        wire::RoundKind::Decode => RoundKind::Decode,
        wire::RoundKind::PrefillFinalization => RoundKind::PrefillFinalization,
    };
    match sink.preview.review(RoundOffer::new(sink.scratch.as_slice(), round)) {
        Ok(verdict) => {
            let answer = match verdict {
                RoundVerdict::Continue => proceed,
                RoundVerdict::Limit(limit) => wire::ReviewAnswer {
                    verdict: wire::Verdict::Limit,
                    limit: limit.get(),
                },
            };
            assert(answer == answer_for(verdict));
            answer
        },
        Err(overflow) => {
            sink.failure = Maybe::Present(overflow);
            proceed
        },
    }
}

/// One generation's result.
#[derive(Debug, Clone, PartialEq, Eq)]
pub struct Generation {
    /// The generated ids.
    generated: Vec<TokenId>,
    /// Why it ended.
    finish: Finish,
    /// ninfer's speculation tallies.
    speculation: Speculation,
    /// Wall time from the first to the last generated token, in
    /// nanoseconds.
    wall_ns: u64,
    /// Every round infinitum's preview reviewed.
    rounds: Vec<RoundRecord>,
}

impl Generation {
    /// The generated ids.
    pub closed spec fn spec_generated(&self) -> Seq<TokenId> {
        self.generated@
    }

    /// Why it ended.
    pub closed spec fn spec_finish(&self) -> Finish {
        self.finish
    }

    /// ninfer's speculation tallies.
    pub closed spec fn spec_speculation(&self) -> Speculation {
        self.speculation
    }

    /// Wall time in nanoseconds.
    pub closed spec fn spec_wall_ns(&self) -> u64 {
        self.wall_ns
    }

    /// Every round the preview reviewed.
    pub closed spec fn spec_rounds(&self) -> Seq<RoundRecord> {
        self.rounds@
    }

    /// The result of a generation that ninfer completed: the record's ids,
    /// finish reason, tallies and wall time, with the preview's ledger; or
    /// the preview's failure, when a review met one.
    pub fn of(record: wire::GenerationRecord, sink: &ReviewSink) -> (r: Result<
        Generation,
        EngineFailure,
    >)
        requires
            sink.well_formed(),
        ensures
            sink.spec_failure() matches Maybe::Present(overflow) ==> r == Err::<
                Generation,
                EngineFailure,
            >(EngineFailure::Preview(overflow)),
            sink.spec_failure() is Absent ==> {
                &&& r matches Ok(g)
                &&& g.spec_generated() == offered_ids(record.generated@)
                &&& g.spec_finish() == finish_for(record.finish)
                &&& g.spec_speculation().view() == (
                    record.decode_rounds,
                    record.drafted,
                    record.accepted,
                    record.fallback_steps,
                )
                &&& g.spec_wall_ns() == record.generation_wall_ns
                &&& g.spec_rounds() == sink.spec_preview().spec_rounds()
            },
    {
        if let Maybe::Present(overflow) = sink.failure() {
            return Err(EngineFailure::Preview(overflow));
        }
        let mut generated: Vec<TokenId> = Vec::new();
        let mut i: usize = 0;
        while i < record.generated.len()
            invariant
                i <= record.generated@.len(),
                generated@ == offered_ids(record.generated@).take(i as int),
            decreases record.generated@.len() - i,
        {
            generated.push(TokenId::from(record.generated[i]));
            i = i + 1;
            assert(offered_ids(record.generated@).take(i as int) == offered_ids(
                record.generated@,
            ).take((i - 1) as int).push(TokenId(record.generated@[i - 1])));
        }
        assert(generated@ == offered_ids(record.generated@));
        let speculation = Speculation::of(&record);
        let rounds = vstd::slice::slice_to_vec(sink.rounds());
        Ok(
            Generation {
                generated,
                finish: Finish::of(record.finish),
                speculation,
                wall_ns: record.generation_wall_ns,
                rounds,
            },
        )
    }

    /// The generated ids.
    pub fn generated(&self) -> (r: &[TokenId])
        ensures
            r@ == self.spec_generated(),
    {
        self.generated.as_slice()
    }

    /// Why it ended.
    pub fn finish(&self) -> (r: Finish)
        ensures
            r == self.spec_finish(),
    {
        self.finish
    }

    /// ninfer's speculation tallies.
    pub fn speculation(&self) -> (r: Speculation)
        ensures
            r == self.spec_speculation(),
    {
        self.speculation
    }

    /// Wall time from the first to the last generated token.
    pub fn wall(&self) -> (r: core::time::Duration)
        ensures
            r == duration_of_nanos(self.spec_wall_ns()),
            nanos_of(r) == self.spec_wall_ns() as u128,
    {
        duration_from_nanos(self.wall_ns)
    }

    /// Every round the preview reviewed, in order.
    pub fn rounds(&self) -> (r: &[RoundRecord])
        ensures
            r@ == self.spec_rounds(),
    {
        self.rounds.as_slice()
    }
}

} // verus!
