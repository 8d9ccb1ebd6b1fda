//! The operational log: one line per request start, end or failure, and the
//! startup and throughput lines, in ninfer's server's words and number
//! formats, so the journal reads the same from either server. The durations,
//! ratios and rates a line shows are rendered beside the library, which reads
//! them as doubles; every line here is composed from them and the counts.
use vstd::prelude::*;
use vstd::string::*;
use crate::chat::backend::ChatFailure;
use crate::chat::backend::ModelName;
use crate::chat::backend::Submission;
use crate::chat::backend::Thinking;
use crate::chat::outcome::ChatOutcome;
use crate::chat::outcome::Finish;
use crate::chat::outcome::ReusePath;
use crate::chat::outcome::Tally;
use crate::chat::request::Delivery;
use crate::chat::request::Effort;
use crate::chat::request::Prompt;
use crate::chat::request::Switch;
use crate::chat::request::ThinkingBudget;
use crate::chat::runtime::Capacity;
use crate::chat::runtime::ContextCache;
use crate::chat::runtime::KvSizing;
use crate::chat::runtime::LoadReport;
use crate::chat::runtime::RuntimeCounters;
use crate::clock::nanos;
use crate::clock::nanos_of;
use crate::pretty::Count;
use crate::pretty::decimal_digits;
use crate::pretty::decimal_into;
use crate::pretty::grouped_digits;
use crate::pretty::grouped_into;
use crate::pretty::push_char;
use crate::pretty::shown_into;
use crate::pretty::shown_text;
use crate::round::token::TokenCount;
use crate::serve::error::ApiError;
use crate::serve::server::Access;
use crate::serve::server::ModelId;

verus! {

/// A request's number in the log, counted from one.
#[derive(Debug, Clone, Copy, PartialEq, Eq, Structural)]
pub struct RequestId(pub u64);

/// How severe a log line is.
#[derive(Debug, Clone, Copy, PartialEq, Eq, Structural)]
pub enum Severity {
    /// Routine.
    Info,
    /// Degraded service.
    Warning,
    /// A server fault.
    Error,
}

/// One rendered log line.
#[derive(Debug, Clone, PartialEq, Eq)]
pub struct Record {
    /// Its severity.
    pub severity: Severity,
    /// Its text, without timestamp or level.
    pub message: String,
}

/// What the log knows of a request before it runs.
#[derive(Debug, Clone, Copy, PartialEq, Eq, Structural)]
pub struct RequestShape {
    /// Its number.
    pub id: RequestId,
    /// Streamed or aggregate.
    pub delivery: Delivery,
    /// Messages in the conversation.
    pub messages: Count,
    /// Tools offered.
    pub tools: Count,
    /// The output limit.
    pub max_output: TokenCount,
    /// The reasoning effort asked for.
    pub effort: Effort,
    /// Whether closed turns keep their reasoning.
    pub preserve_thinking: Switch,
}

/// Where in its life a request failed.
#[derive(Debug, Clone, Copy, PartialEq, Eq, Structural)]
pub enum Phase {
    /// Before submission.
    Prepare,
    /// After submission.
    Generation,
}

/// ninfer's failure class for an API error.
#[derive(Debug, Clone, Copy, PartialEq, Eq, Structural)]
pub enum Class {
    /// The client's request was refused.
    ClientInput,
    /// The client went away.
    ClientDisconnected,
    /// The server was full.
    Overload,
    /// A deadline passed.
    Timeout,
    /// The service is unavailable.
    Unavailable,
    /// An upstream fetch failed.
    Upstream,
    /// A server fault.
    Internal,
}

/// ninfer's class of an error with this status and code, as its
/// `make_request_failure` decides: 499 or `client_disconnected` is a
/// disconnect; 429 or 529 overload; `request_queue_timeout`,
/// `media_fetch_timeout` or 504 a timeout; `service_unavailable` or 503
/// unavailable; `media_fetch_failed` or 502 upstream; any other 4xx client
/// input; everything else internal; the first matching rule wins.
pub open spec fn class_for(status: u16, code: Seq<char>) -> Class {
    if status == 499 || code == "client_disconnected"@ {
        Class::ClientDisconnected
    } else if status == 429 || status == 529 {
        Class::Overload
    } else if code == "request_queue_timeout"@ || code == "media_fetch_timeout"@ || status == 504 {
        Class::Timeout
    } else if code == "service_unavailable"@ || status == 503 {
        Class::Unavailable
    } else if code == "media_fetch_failed"@ || status == 502 {
        Class::Upstream
    } else if 400 <= status < 500 {
        Class::ClientInput
    } else {
        Class::Internal
    }
}

/// ninfer's name for a class.
pub open spec fn class_name(class: Class) -> Seq<char> {
    match class {
        Class::ClientInput => "client input"@,
        Class::ClientDisconnected => "client disconnected"@,
        Class::Overload => "overload"@,
        Class::Timeout => "timeout"@,
        Class::Unavailable => "unavailable"@,
        Class::Upstream => "upstream error"@,
        Class::Internal => "internal error"@,
    }
}

/// ninfer's severity for a class.
pub open spec fn class_severity(class: Class) -> Severity {
    match class {
        Class::ClientInput | Class::ClientDisconnected => Severity::Info,
        Class::Overload | Class::Timeout | Class::Unavailable | Class::Upstream => Severity::Warning,
        Class::Internal => Severity::Error,
    }
}

impl Class {
    /// Classify `error` as ninfer's `make_request_failure` does.
    pub fn of(error: &ApiError) -> (r: Self)
        ensures
            r == class_for(error.status, error.code@),
    {
        let status = error.status;
        let code = error.code.as_str();
        if status == 499 || crate::letters::same_text(code, "client_disconnected") {
            return Class::ClientDisconnected;
        }
        if status == 429 || status == 529 {
            return Class::Overload;
        }
        if crate::letters::same_text(code, "request_queue_timeout") || crate::letters::same_text(
            code,
            "media_fetch_timeout",
        ) || status == 504 {
            return Class::Timeout;
        }
        if crate::letters::same_text(code, "service_unavailable") || status == 503 {
            return Class::Unavailable;
        }
        if crate::letters::same_text(code, "media_fetch_failed") || status == 502 {
            return Class::Upstream;
        }
        if 400 <= status && status < 500 {
            return Class::ClientInput;
        }
        Class::Internal
    }

    /// ninfer's name for the class.
    pub fn name(self) -> (r: &'static str)
        ensures
            r@ == class_name(self),
    {
        match self {
            Class::ClientInput => "client input",
            Class::ClientDisconnected => "client disconnected",
            Class::Overload => "overload",
            Class::Timeout => "timeout",
            Class::Unavailable => "unavailable",
            Class::Upstream => "upstream error",
            Class::Internal => "internal error",
        }
    }

    /// ninfer's severity for the class.
    pub fn severity(self) -> (r: Severity)
        ensures
            r == class_severity(self),
    {
        match self {
            Class::ClientInput | Class::ClientDisconnected => Severity::Info,
            Class::Overload | Class::Timeout | Class::Unavailable | Class::Upstream => Severity::Warning,
            Class::Internal => Severity::Error,
        }
    }
}

/// ninfer's name for a delivery.
pub open spec fn delivery_name(delivery: Delivery) -> Seq<char> {
    match delivery {
        Delivery::Streaming => "stream"@,
        Delivery::Aggregate => "non-stream"@,
    }
}

fn delivery_label(delivery: Delivery) -> (r: &'static str)
    ensures
        r@ == delivery_name(delivery),
{
    match delivery {
        Delivery::Streaming => "stream",
        Delivery::Aggregate => "non-stream",
    }
}

/// ninfer's name for a requested effort.
pub open spec fn effort_name(effort: Effort) -> Seq<char> {
    match effort {
        Effort::Unrequested => "template default"@,
        Effort::NoEffort => "none"@,
        Effort::Minimal => "minimal"@,
        Effort::Low => "low"@,
        Effort::Medium => "medium"@,
        Effort::High => "high"@,
        Effort::XHigh => "xhigh"@,
        Effort::Max => "max"@,
    }
}

fn effort_label(effort: Effort) -> (r: &'static str)
    ensures
        r@ == effort_name(effort),
{
    match effort {
        Effort::Unrequested => "template default",
        Effort::NoEffort => "none",
        Effort::Minimal => "minimal",
        Effort::Low => "low",
        Effort::Medium => "medium",
        Effort::High => "high",
        Effort::XHigh => "xhigh",
        Effort::Max => "max",
    }
}

/// ninfer's name for a finish.
pub open spec fn finish_name(finish: Finish) -> Seq<char> {
    match finish {
        Finish::Unfinished => "none"@,
        Finish::OutputLimit => "output limit"@,
        Finish::ContextCapacity => "context capacity"@,
        Finish::StopToken => "stop token"@,
        Finish::StopString => "stop string"@,
        Finish::Cancelled => "cancelled"@,
    }
}

fn finish_label(finish: Finish) -> (r: &'static str)
    ensures
        r@ == finish_name(finish),
{
    match finish {
        Finish::Unfinished => "none",
        Finish::OutputLimit => "output limit",
        Finish::ContextCapacity => "context capacity",
        Finish::StopToken => "stop token",
        Finish::StopString => "stop string",
        Finish::Cancelled => "cancelled",
    }
}

/// ninfer's name for a reuse path.
pub open spec fn reuse_name(reuse: ReusePath) -> Seq<char> {
    match reuse {
        ReusePath::Root => "root"@,
        ReusePath::PrivateEndpoint => "private endpoint"@,
        ReusePath::TurnClosure => "turn closure"@,
        ReusePath::ResponseReplay => "response replay"@,
        ReusePath::LongAnchor => "long anchor"@,
        ReusePath::SharedPrefix => "shared prefix"@,
    }
}

fn reuse_label(reuse: ReusePath) -> (r: &'static str)
    ensures
        r@ == reuse_name(reuse),
{
    match reuse {
        ReusePath::Root => "root",
        ReusePath::PrivateEndpoint => "private endpoint",
        ReusePath::TurnClosure => "turn closure",
        ReusePath::ResponseReplay => "response replay",
        ReusePath::LongAnchor => "long anchor",
        ReusePath::SharedPrefix => "shared prefix",
    }
}

/// A code with its underscores read as spaces.
pub open spec fn spaced(code: Seq<char>) -> Seq<char> {
    code.map_values(|c: char| if c == '_' {
        ' '
    } else {
        c
    })
}

/// ninfer's failure fields: ` | HTTP <status>`, then ` | ` and the code with
/// `_` as spaces, or the class name when the code is empty.
pub open spec fn failure_fields_text(error: ApiError) -> Seq<char> {
    " | HTTP "@ + decimal_digits(error.status as nat) + " | "@ + if error.code@.len() == 0 {
        class_name(class_for(error.status, error.code@))
    } else {
        spaced(error.code@)
    }
}

/// Append ninfer's HTTP status and code, or class, to a failure line.
fn failure_fields(out: &mut String, error: &ApiError)
    ensures
        final(out)@ == old(out)@ + failure_fields_text(*error),
{
    out.append(" | HTTP ");
    decimal_into(out, error.status as u64);
    out.append(" | ");
    let code = error.code.as_str();
    if code.unicode_len() == 0 {
        out.append(Class::of(error).name());
    } else {
        let ghost start = out@;
        let length = code.unicode_len();
        let mut i: usize = 0;
        while i < length
            invariant
                length == code@.len(),
                i <= length,
                out@ == start + spaced(code@.subrange(0, i as int)),
            decreases length - i,
        {
            let c = code.get_char(i);
            push_char(out, if c == '_' { ' ' } else { c });
            proof {
                assert(code@.subrange(0, i + 1) == code@.subrange(0, i as int).push(c));
                assert(spaced(code@.subrange(0, i + 1)) == spaced(code@.subrange(0, i as int)).push(
                    if c == '_' { ' ' } else { c },
                ));
            }
            i = i + 1;
        }
        assert(code@.subrange(0, length as int) == code@);
    }
}

/// The start line's head: `req#<id> started | openai-chat <delivery> | <n>
/// message(s) | max output <n> | thinking `.
pub open spec fn started_head(shape: RequestShape) -> Seq<char> {
    "req#"@ + decimal_digits(shape.id.0 as nat) + " started | openai-chat "@ + delivery_name(
        shape.delivery,
    ) + " | "@ + grouped_digits(shape.messages.0 as nat) + " "@ + (if shape.messages.0 == 1 {
        "message"@
    } else {
        "messages"@
    }) + " | max output "@ + grouped_digits(shape.max_output.0 as nat) + " | thinking "@
}

/// The thinking clause: the effort's name, with `, budget <n>` under a
/// budget, or `off` when the turn does not open in thinking.
pub open spec fn thinking_clause(effort: Effort, submission: Submission) -> Seq<char> {
    match submission.thinking {
        Thinking::Open => effort_name(effort) + match submission.thinking_budget {
            ThinkingBudget::Tokens(budget) => ", budget "@ + grouped_digits(budget@),
            ThinkingBudget::Unlimited => Seq::empty(),
        },
        Thinking::Closed => "off"@,
    }
}

/// The start line's optional tail: ` | tools <n>` when tools are offered and
/// ` | preserve thinking` when asked.
pub open spec fn started_tail(shape: RequestShape) -> Seq<char> {
    (if shape.tools.0 != 0 {
        " | tools "@ + grouped_digits(shape.tools.0 as nat)
    } else {
        Seq::empty()
    }) + (if shape.preserve_thinking == Switch::On {
        " | preserve thinking"@
    } else {
        Seq::empty()
    })
}

/// The start line, as ninfer's `render_request_start`.
pub open spec fn started_text(shape: RequestShape, submission: Submission) -> Seq<char> {
    started_head(shape) + thinking_clause(shape.effort, submission) + started_tail(shape)
}

fn append_started_head(out: &mut String, shape: &RequestShape)
    ensures
        final(out)@ == old(out)@ + started_head(*shape),
{
    let ghost start = out@;
    out.append("req#");
    decimal_into(out, shape.id.0);
    out.append(" started | openai-chat ");
    out.append(delivery_label(shape.delivery));
    out.append(" | ");
    grouped_into(out, shape.messages.0);
    out.append(" ");
    out.append(if shape.messages.0 == 1 { "message" } else { "messages" });
    out.append(" | max output ");
    grouped_into(out, shape.max_output.get() as u64);
    out.append(" | thinking ");
    assert(out@ == start + started_head(*shape));
}

fn append_thinking(out: &mut String, effort: Effort, submission: Submission)
    ensures
        final(out)@ == old(out)@ + thinking_clause(effort, submission),
{
    let ghost start = out@;
    match submission.thinking {
        Thinking::Open => {
            out.append(effort_label(effort));
            match submission.thinking_budget {
                ThinkingBudget::Tokens(budget) => {
                    out.append(", budget ");
                    grouped_into(out, budget.get() as u64);
                },
                ThinkingBudget::Unlimited => {},
            }
            assert(out@ == start + thinking_clause(effort, submission));
        },
        Thinking::Closed => out.append("off"),
    }
}

fn append_started_tail(out: &mut String, shape: &RequestShape)
    ensures
        final(out)@ == old(out)@ + started_tail(*shape),
{
    let ghost start = out@;
    if shape.tools.0 != 0 {
        out.append(" | tools ");
        grouped_into(out, shape.tools.0);
    }
    let ghost middle = out@;
    if shape.preserve_thinking == Switch::On {
        out.append(" | preserve thinking");
    }
    assert(out@ == start + started_tail(*shape));
}

/// The line for a request submitted to the backend.
pub fn started(shape: &RequestShape, submission: Submission) -> (r: Record)
    ensures
        r.severity == Severity::Info,
        r.message@ == started_text(*shape, submission),
{
    let mut out = String::new();
    append_started_head(&mut out, shape);
    append_thinking(&mut out, shape.effort, submission);
    append_started_tail(&mut out, shape);
    assert(out@ == started_text(*shape, submission));
    Record { severity: Severity::Info, message: out }
}

/// The durations, ratios and rates a done line shows, each rendered in
/// ninfer's format from the outcome's figures.
#[derive(Debug, Clone, PartialEq, Eq)]
pub struct DoneFigures {
    /// The reused share of the prompt, as a percentage.
    pub cache_percent: String,
    /// The time to the first token.
    pub first_token: String,
    /// The request's total time.
    pub total: String,
    /// The time spent queued.
    pub queue: String,
    /// The prefill rate over the computed prompt tokens.
    pub prefill_rate: String,
    /// The decode rate over all but the first output token.
    pub decode_rate: String,
    /// The accepted share of the drafted tokens, as a percentage.
    pub accepted_percent: String,
}

/// The tallies joined by `/`, each with thousands separators.
pub open spec fn positions_text(tallies: Seq<Tally>) -> Seq<char>
    decreases tallies.len(),
{
    if tallies.len() == 0 {
        Seq::empty()
    } else if tallies.len() == 1 {
        grouped_digits(tallies[0].0 as nat)
    } else {
        positions_text(tallies.drop_last()) + "/"@ + grouped_digits(tallies.last().0 as nat)
    }
}

/// The done line's head: `req#<id> done | openai-chat | ` and the finish, or
/// `tool calls <n>`.
pub open spec fn done_head(shape: RequestShape, outcome: ChatOutcome) -> Seq<char> {
    "req#"@ + decimal_digits(shape.id.0 as nat) + " done | openai-chat | "@ + if outcome.tool_calls@.len()
        == 0 {
        finish_name(outcome.finish)
    } else {
        "tool calls "@ + grouped_digits(outcome.tool_calls@.len())
    }
}

/// The done line's counts: prompt, output and cache, then the first-token
/// and total times.
pub open spec fn done_counts(outcome: ChatOutcome, figures: DoneFigures) -> Seq<char> {
    " | prompt "@ + grouped_digits(outcome.admission.prompt_tokens.0 as nat) + " | output "@
        + grouped_digits(outcome.generated@.len()) + " | cache "@ + grouped_digits(
        outcome.admission.reused_tokens.0 as nat,
    ) + " ("@ + figures.cache_percent@ + (if outcome.telemetry.reuse != ReusePath::Root {
        ", "@ + reuse_name(outcome.telemetry.reuse)
    } else {
        Seq::empty()
    }) + ") | TTFT "@ + figures.first_token@ + " | total "@ + figures.total@
}

/// The done line's optional timings: the queue from 10 ms, and the prefill
/// and decode rates when their times are positive.
pub open spec fn done_timing(outcome: ChatOutcome, figures: DoneFigures) -> Seq<char> {
    (if nanos_of(outcome.telemetry.queue_wait) >= 10_000_000 {
        " | queue "@ + figures.queue@
    } else {
        Seq::empty()
    }) + (if nanos_of(outcome.telemetry.prefill) > 0 {
        " | prefill "@ + figures.prefill_rate@
    } else {
        Seq::empty()
    }) + (if nanos_of(outcome.telemetry.decode) > 0 {
        " | decode "@ + figures.decode_rate@
    } else {
        Seq::empty()
    })
}

/// The accepted drafts, when tokens were drafted.
pub open spec fn drafts_clause(outcome: ChatOutcome, figures: DoneFigures) -> Seq<char> {
    if outcome.drafted.0 != 0 {
        " | dflash2 accepted "@ + grouped_digits(outcome.accepted.0 as nat) + "/"@
            + grouped_digits(outcome.drafted.0 as nat) + " ("@ + figures.accepted_percent@ + ")"@
    } else {
        Seq::empty()
    }
}

/// The thinking spend, under a budget, with the injected control tokens when
/// there were any.
pub open spec fn spend_clause(outcome: ChatOutcome) -> Seq<char> {
    match outcome.telemetry.thinking.budget {
        ThinkingBudget::Tokens(budget) => " | thinking "@ + grouped_digits(
            outcome.telemetry.thinking.model_tokens.0 as nat,
        ) + "/"@ + grouped_digits(budget@) + if outcome.telemetry.thinking.injected_tokens.0 != 0 {
            ", control "@ + grouped_digits(outcome.telemetry.thinking.injected_tokens.0 as nat)
        } else {
            Seq::empty()
        },
        ThinkingBudget::Unlimited => Seq::empty(),
    }
}

/// The acceptances per draft position, when they were tallied.
pub open spec fn positions_clause(outcome: ChatOutcome) -> Seq<char> {
    if outcome.telemetry.accepted_per_position@.len() > 0 {
        " | per position "@ + positions_text(outcome.telemetry.accepted_per_position@)
    } else {
        Seq::empty()
    }
}

/// The done line's drafting and thinking clauses.
pub open spec fn done_tail(outcome: ChatOutcome, figures: DoneFigures) -> Seq<char> {
    drafts_clause(outcome, figures) + spend_clause(outcome) + positions_clause(outcome)
}

/// The done line, as ninfer's `render_request_done`, with infinitum's
/// acceptances per draft position last.
pub open spec fn done_text(shape: RequestShape, outcome: ChatOutcome, figures: DoneFigures) -> Seq<char> {
    done_head(shape, outcome) + done_counts(outcome, figures) + done_timing(outcome, figures)
        + done_tail(outcome, figures)
}

fn append_done_head(out: &mut String, shape: &RequestShape, outcome: &ChatOutcome)
    ensures
        final(out)@ == old(out)@ + done_head(*shape, *outcome),
{
    let ghost start = out@;
    out.append("req#");
    decimal_into(out, shape.id.0);
    out.append(" done | openai-chat | ");
    if outcome.tool_calls.len() == 0 {
        out.append(finish_label(outcome.finish));
    } else {
        out.append("tool calls ");
        grouped_into(out, outcome.tool_calls.len() as u64);
    }
    assert(out@ == start + done_head(*shape, *outcome));
}

fn append_done_counts(out: &mut String, outcome: &ChatOutcome, figures: &DoneFigures)
    ensures
        final(out)@ == old(out)@ + done_counts(*outcome, *figures),
{
    let ghost start = out@;
    out.append(" | prompt ");
    grouped_into(out, outcome.admission.prompt_tokens.get() as u64);
    out.append(" | output ");
    grouped_into(out, outcome.generated.len() as u64);
    out.append(" | cache ");
    grouped_into(out, outcome.admission.reused_tokens.get() as u64);
    out.append(" (");
    out.append(figures.cache_percent.as_str());
    if outcome.telemetry.reuse != ReusePath::Root {
        out.append(", ");
        out.append(reuse_label(outcome.telemetry.reuse));
    }
    out.append(") | TTFT ");
    out.append(figures.first_token.as_str());
    out.append(" | total ");
    out.append(figures.total.as_str());
    assert(out@ == start + done_counts(*outcome, *figures));
}

fn append_done_timing(out: &mut String, outcome: &ChatOutcome, figures: &DoneFigures)
    ensures
        final(out)@ == old(out)@ + done_timing(*outcome, *figures),
{
    let ghost start = out@;
    if nanos(outcome.telemetry.queue_wait) >= 10_000_000 {
        out.append(" | queue ");
        out.append(figures.queue.as_str());
    }
    let ghost first = out@;
    if nanos(outcome.telemetry.prefill) > 0 {
        out.append(" | prefill ");
        out.append(figures.prefill_rate.as_str());
    }
    let ghost second = out@;
    if nanos(outcome.telemetry.decode) > 0 {
        out.append(" | decode ");
        out.append(figures.decode_rate.as_str());
    }
    assert(out@ == start + done_timing(*outcome, *figures));
}

fn append_positions(out: &mut String, tallies: &Vec<Tally>)
    ensures
        final(out)@ == old(out)@ + positions_text(tallies@),
{
    let ghost start = out@;
    let mut i: usize = 0;
    assert(tallies@.take(0).len() == 0);
    while i < tallies.len()
        invariant
            i <= tallies@.len(),
            out@ == start + positions_text(tallies@.take(i as int)),
        decreases tallies@.len() - i,
    {
        let ghost before = out@;
        if i > 0 {
            out.append("/");
        }
        grouped_into(out, tallies[i].0);
        proof {
            let taken = tallies@.take(i + 1);
            assert(taken.drop_last() == tallies@.take(i as int));
            assert(taken.last() == tallies@[i as int]);
        }
        i = i + 1;
    }
    assert(tallies@.take(tallies@.len() as int) == tallies@);
}

fn append_drafts(out: &mut String, outcome: &ChatOutcome, figures: &DoneFigures)
    ensures
        final(out)@ == old(out)@ + drafts_clause(*outcome, *figures),
{
    let ghost start = out@;
    if outcome.drafted.0 != 0 {
        out.append(" | dflash2 accepted ");
        grouped_into(out, outcome.accepted.0);
        out.append("/");
        grouped_into(out, outcome.drafted.0);
        out.append(" (");
        out.append(figures.accepted_percent.as_str());
        out.append(")");
    }
    assert(out@ == start + drafts_clause(*outcome, *figures));
}

fn append_spend(out: &mut String, outcome: &ChatOutcome)
    ensures
        final(out)@ == old(out)@ + spend_clause(*outcome),
{
    let ghost start = out@;
    match outcome.telemetry.thinking.budget {
        ThinkingBudget::Tokens(budget) => {
            out.append(" | thinking ");
            grouped_into(out, outcome.telemetry.thinking.model_tokens.get() as u64);
            out.append("/");
            grouped_into(out, budget.get() as u64);
            let ghost middle = out@;
            if outcome.telemetry.thinking.injected_tokens.get() != 0 {
                out.append(", control ");
                grouped_into(out, outcome.telemetry.thinking.injected_tokens.get() as u64);
            }
            assert(out@ == start + spend_clause(*outcome));
        },
        ThinkingBudget::Unlimited => {
            assert(out@ == start + spend_clause(*outcome));
        },
    }
}

fn append_done_tail(out: &mut String, outcome: &ChatOutcome, figures: &DoneFigures)
    ensures
        final(out)@ == old(out)@ + done_tail(*outcome, *figures),
{
    let ghost start = out@;
    append_drafts(out, outcome, figures);
    append_spend(out, outcome);
    let ghost second = out@;
    if outcome.telemetry.accepted_per_position.len() > 0 {
        out.append(" | per position ");
        append_positions(out, &outcome.telemetry.accepted_per_position);
    }
    assert(out@ == second + positions_clause(*outcome));
    assert(out@ == start + done_tail(*outcome, *figures));
}

/// The line for a request that finished.
pub fn done(shape: &RequestShape, outcome: &ChatOutcome, figures: &DoneFigures) -> (r: Record)
    ensures
        r.severity == Severity::Info,
        r.message@ == done_text(*shape, *outcome, *figures),
{
    let mut out = String::new();
    append_done_head(&mut out, shape, outcome);
    append_done_counts(&mut out, outcome, figures);
    append_done_timing(&mut out, outcome, figures);
    append_done_tail(&mut out, outcome, figures);
    Record { severity: Severity::Info, message: out }
}

/// The verb a failure line uses.
pub open spec fn failure_verb(phase: Phase, class: Class) -> Seq<char> {
    match phase {
        Phase::Prepare => match class {
            Class::ClientDisconnected => "cancelled"@,
            Class::ClientInput | Class::Overload => "rejected"@,
            _ => "failed"@,
        },
        Phase::Generation => if class == Class::ClientDisconnected {
            "cancelled"@
        } else {
            "failed"@
        },
    }
}

/// The failure line: before submission, `req#<id> <rejected|cancelled|failed>
/// during prepare | openai-chat <delivery>` with the failure fields, `|
/// messages <n>` and ` | tools <n>` when tools were offered, as ninfer's
/// `render_request_rejected`; after it, `req#<id> <failed|cancelled> during
/// <generation|transport> | openai-chat` with the failure fields, as ninfer's
/// `render_request_failure`.
pub open spec fn failed_text(shape: RequestShape, phase: Phase, error: ApiError) -> Seq<char> {
    let class = class_for(error.status, error.code@);
    let head = "req#"@ + decimal_digits(shape.id.0 as nat) + " "@ + failure_verb(phase, class);
    match phase {
        Phase::Prepare => head + " during prepare | openai-chat "@ + delivery_name(shape.delivery)
            + failure_fields_text(error) + " | messages "@ + grouped_digits(
            shape.messages.0 as nat,
        ) + if shape.tools.0 != 0 {
            " | tools "@ + grouped_digits(shape.tools.0 as nat)
        } else {
            Seq::empty()
        },
        Phase::Generation => head + " during "@ + (if class == Class::ClientDisconnected {
            "transport"@
        } else {
            "generation"@
        }) + " | openai-chat"@ + failure_fields_text(error),
    }
}

/// The line for a request that failed, at its class's severity.
pub fn failed(shape: &RequestShape, phase: Phase, error: &ApiError) -> (r: Record)
    ensures
        r.severity == class_severity(class_for(error.status, error.code@)),
        r.message@ == failed_text(*shape, phase, *error),
{
    let class = Class::of(error);
    let mut out = String::from_str("req#");
    decimal_into(&mut out, shape.id.0);
    out.append(" ");
    let verb = match phase {
        Phase::Prepare => match class {
            Class::ClientDisconnected => "cancelled",
            Class::ClientInput | Class::Overload => "rejected",
            _ => "failed",
        },
        Phase::Generation => if class == Class::ClientDisconnected {
            "cancelled"
        } else {
            "failed"
        },
    };
    out.append(verb);
    let ghost head = out@;
    match phase {
        Phase::Prepare => {
            out.append(" during prepare | openai-chat ");
            out.append(delivery_label(shape.delivery));
            failure_fields(&mut out, error);
            out.append(" | messages ");
            grouped_into(&mut out, shape.messages.0);
            let ghost before = out@;
            if shape.tools.0 != 0 {
                out.append(" | tools ");
                grouped_into(&mut out, shape.tools.0);
            }
            assert(out@ == failed_text(*shape, phase, *error));
        },
        Phase::Generation => {
            out.append(" during ");
            out.append(if class == Class::ClientDisconnected { "transport" } else { "generation" });
            out.append(" | openai-chat");
            failure_fields(&mut out, error);
            assert(out@ == failed_text(*shape, phase, *error));
        },
    }
    Record { severity: class.severity(), message: out }
}

impl RequestShape {
    /// The shape of a request numbered `id`: its delivery, message and
    /// offered-tool counts, output limit, effort and preserve-thinking choice.
    pub fn of(id: RequestId, delivery: Delivery, prompt: &Prompt, max_output: TokenCount) -> (r: Self)
        ensures
            r.id == id,
            r.delivery == delivery,
            r.messages.0 == prompt.messages@.len(),
            r.tools.0 == prompt.tools@.len(),
            r.max_output == max_output,
            r.effort == prompt.effort,
            r.preserve_thinking == prompt.preserve_thinking,
    {
        RequestShape {
            id,
            delivery,
            messages: Count(prompt.messages.len() as u64),
            tools: Count(prompt.tools.len() as u64),
            max_output,
            effort: prompt.effort,
            preserve_thinking: prompt.preserve_thinking,
        }
    }
}

/// A level as a service line shows it, padded to five characters.
pub open spec fn level_text(severity: Severity) -> Seq<char> {
    match severity {
        Severity::Info => "INFO "@,
        Severity::Warning => "WARN "@,
        Severity::Error => "ERROR"@,
    }
}

/// One service log line for `record` stamped `stamp` (`YYYY-MM-DD
/// HH:MM:SS.mmm`): the stamp, two spaces, the level padded to five
/// characters, a space and the message, as ninfer's service presentation
/// formats a line.
pub fn service_line(stamp: &str, record: &Record) -> (r: String)
    ensures
        r@ == stamp@ + "  "@ + level_text(record.severity) + " "@ + record.message@,
{
    let mut out = String::from_str(stamp);
    out.append("  ");
    out.append(
        match record.severity {
            Severity::Info => "INFO ",
            Severity::Warning => "WARN ",
            Severity::Error => "ERROR",
        },
    );
    out.append(" ");
    out.append(record.message.as_str());
    out
}

/// The byte sizes a capacity report shows, each rendered in ninfer's binary
/// units.
#[derive(Debug, Clone, PartialEq, Eq)]
pub struct CapacityFigures {
    /// The runtime's size.
    pub runtime: String,
    /// The free device memory.
    pub free: String,
    /// The host cache's KV size.
    pub host_kv: String,
}

/// The KV capacity line: `capacity | KV <n> tokens, <storage>,
/// <auto|explicit> | pages <p>/<m> | runtime <bytes> | free <bytes>`.
pub open spec fn kv_line(summary: Capacity, figures: CapacityFigures) -> Seq<char> {
    "capacity | KV "@ + grouped_digits(summary.kv_tokens.0 as nat) + " tokens, "@
        + summary.kv_storage@ + ", "@ + (match summary.kv_sizing {
        KvSizing::Explicit => "explicit"@,
        KvSizing::Automatic => "auto"@,
    }) + " | pages "@ + grouped_digits(summary.pages.0 as nat) + "/"@ + grouped_digits(
        summary.max_pages.0 as nat,
    ) + " | runtime "@ + figures.runtime@ + " | free "@ + figures.free@
}

/// The context-cache line: `context cache | root only`, or the cache's
/// counts unseparated.
pub open spec fn cache_line(summary: Capacity, figures: CapacityFigures) -> Seq<char> {
    match summary.cache {
        ContextCache::RootOnly => "context cache | root only"@,
        ContextCache::Enabled { lanes, device_states, host_states, private, shared, anchors, .. } =>
            "context cache | "@ + decimal_digits(lanes.0 as nat) + " active + "@ + decimal_digits(
            device_states.0 as nat,
        ) + " cached device states | host "@ + decimal_digits(host_states.0 as nat)
            + " states, "@ + figures.host_kv@ + " KV | private "@ + decimal_digits(
            private.0 as nat,
        ) + " | shared "@ + decimal_digits(shared.0 as nat) + " | anchors "@ + decimal_digits(
            anchors.0 as nat,
        ),
    }
}

fn append_cache_line(out: &mut String, summary: &Capacity, figures: &CapacityFigures)
    ensures
        final(out)@ == old(out)@ + cache_line(*summary, *figures),
{
    let ghost start = out@;
    match summary.cache {
        ContextCache::RootOnly => out.append("context cache | root only"),
        ContextCache::Enabled { lanes, device_states, host_states, private, shared, anchors, .. } => {
            out.append("context cache | ");
            decimal_into(out, lanes.0);
            out.append(" active + ");
            decimal_into(out, device_states.0);
            out.append(" cached device states | host ");
            decimal_into(out, host_states.0);
            out.append(" states, ");
            out.append(figures.host_kv.as_str());
            out.append(" KV | private ");
            decimal_into(out, private.0);
            out.append(" | shared ");
            decimal_into(out, shared.0);
            out.append(" | anchors ");
            decimal_into(out, anchors.0);
            assert(out@ == start + cache_line(*summary, *figures));
        },
    }
}

/// The startup capacity lines, as ninfer's `engine_capacity`: the KV line,
/// then the context-cache line.
pub fn capacity(summary: &Capacity, figures: &CapacityFigures) -> (r: [Record; 2])
    ensures
        r[0].severity == Severity::Info,
        r[0].message@ == kv_line(*summary, *figures),
        r[1].severity == Severity::Info,
        r[1].message@ == cache_line(*summary, *figures),
{
    let mut first = String::from_str("capacity | KV ");
    grouped_into(&mut first, summary.kv_tokens.0);
    first.append(" tokens, ");
    first.append(summary.kv_storage.as_str());
    first.append(", ");
    first.append(
        match summary.kv_sizing {
            KvSizing::Explicit => "explicit",
            KvSizing::Automatic => "auto",
        },
    );
    first.append(" | pages ");
    grouped_into(&mut first, summary.pages.0);
    first.append("/");
    grouped_into(&mut first, summary.max_pages.0);
    first.append(" | runtime ");
    first.append(figures.runtime.as_str());
    first.append(" | free ");
    first.append(figures.free.as_str());
    let mut second = String::new();
    append_cache_line(&mut second, summary, figures);
    [
        Record { severity: Severity::Info, message: first },
        Record { severity: Severity::Info, message: second },
    ]
}

/// The durations a load report shows, each rendered in ninfer's formats.
#[derive(Debug, Clone, PartialEq, Eq)]
pub struct LoadFigures {
    /// The whole load's time.
    pub total: String,
    /// The weights' size.
    pub weights: String,
}

/// The line for an Engine that finished loading: `engine ready | <model> |
/// total <duration> | weights <bytes> | CUDA sync <mode>`, the model made
/// safe for one line, as ninfer's `engine_ready`.
pub fn engine_ready(model: &ModelName, load: &LoadReport, figures: &LoadFigures) -> (r: Record)
    ensures
        r.severity == Severity::Info,
        r.message@ == "engine ready | "@ + shown_text(model.0@) + " | total "@ + figures.total@
            + " | weights "@ + figures.weights@ + " | CUDA sync "@ + load.cuda_sync@,
{
    let mut out = String::from_str("engine ready | ");
    shown_into(&mut out, model.0.as_str());
    out.append(" | total ");
    out.append(figures.total.as_str());
    out.append(" | weights ");
    out.append(figures.weights.as_str());
    out.append(" | CUDA sync ");
    out.append(load.cuda_sync.as_str());
    Record { severity: Severity::Info, message: out }
}

/// The line for a server ready to accept: `listening on http://<address> |
/// model <id> | auth <bearer|disabled>`, the id made safe for one line, as
/// ninfer's `server_ready`.
pub fn listening(address: &str, model: &ModelId, access: &Access) -> (r: Record)
    ensures
        r.severity == Severity::Info,
        r.message@ == "listening on http://"@ + address@ + " | model "@ + shown_text(model.0@)
            + " | auth "@ + match access {
            Access::Open => "disabled"@,
            Access::Key(_) => "bearer"@,
        },
{
    let mut out = String::from_str("listening on http://");
    out.append(address);
    out.append(" | model ");
    shown_into(&mut out, model.0.as_str());
    out.append(" | auth ");
    out.append(
        match access {
            Access::Open => "disabled",
            Access::Key(_) => "bearer",
        },
    );
    Record { severity: Severity::Info, message: out }
}

/// The line for an Engine about to load: `starting engine`.
pub fn engine_start() -> (r: Record)
    ensures
        r.severity == Severity::Info,
        r.message@ == "starting engine"@,
{
    Record { severity: Severity::Info, message: String::from_str("starting engine") }
}

/// The line for a server that stopped accepting: `server stopped`.
pub fn server_stopped() -> (r: Record)
    ensures
        r.severity == Severity::Info,
        r.message@ == "server stopped"@,
{
    Record { severity: Severity::Info, message: String::from_str("server stopped") }
}

/// The warning that throughput reporting ended because the backend's
/// counters could not be read: `throughput reporting stopped | <message>`.
pub fn reporting_stopped(failure: &ChatFailure) -> (r: Record)
    ensures
        r.severity == Severity::Warning,
        r.message@ == "throughput reporting stopped | "@ + failure.message@,
{
    let mut out = String::from_str("throughput reporting stopped | ");
    out.append(failure.message.as_str());
    Record { severity: Severity::Warning, message: out }
}

/// The rates, ratios and durations a throughput line shows, each rendered in
/// ninfer's formats from the interval's figures.
#[derive(Debug, Clone, PartialEq, Eq)]
pub struct ThroughputFigures {
    /// The interval's length.
    pub interval: String,
    /// The prefill rate over the interval.
    pub prefill_rate: String,
    /// The decode rate over the interval.
    pub decode_rate: String,
    /// The decode rows per round, to two places.
    pub batch: String,
    /// The host's active share of the interval, as a percentage.
    pub host_percent: String,
    /// The host's active time over the interval.
    pub host_time: String,
}

/// An interval's throughput record, when the interval saw activity.
#[derive(Debug, Clone, PartialEq, Eq)]
pub enum Throughput {
    /// Nothing moved; ninfer writes no line.
    Quiet,
    /// The line to write.
    Active(Record),
}

/// How far a total moved over an interval; a total that went backwards
/// reads as zero.
pub open spec fn moved(previous: u64, current: u64) -> nat {
    if current >= previous {
        (current - previous) as nat
    } else {
        0
    }
}

/// Whether an interval saw activity, as ninfer's `report_has_activity`: a
/// token total or decode round moved, a request is running, waiting,
/// materializing or pending a capture or terminal record, or the digests
/// differ.
pub open spec fn has_activity(previous: RuntimeCounters, current: RuntimeCounters) -> bool {
    ||| moved(previous.prefill_tokens.0, current.prefill_tokens.0) != 0
    ||| moved(previous.decode_tokens.0, current.decode_tokens.0) != 0
    ||| moved(previous.decode_rounds.0, current.decode_rounds.0) != 0
    ||| current.requests.running.0 != 0
    ||| current.requests.waiting.0 != 0
    ||| current.requests.materializing.0 != 0
    ||| current.requests.capture_pending.0 != 0
    ||| current.requests.terminal_pending.0 != 0
    ||| current.digest != previous.digest
}

/// The token clauses: `prefill <rate> (<n> tok)` and `decode <rate> (<n>
/// tok)` when nonzero.
pub open spec fn token_clauses(previous: RuntimeCounters, current: RuntimeCounters, figures: ThroughputFigures) -> Seq<char> {
    let prefill = moved(previous.prefill_tokens.0, current.prefill_tokens.0);
    let decode = moved(previous.decode_tokens.0, current.decode_tokens.0);
    (if prefill != 0 {
        " | prefill "@ + figures.prefill_rate@ + " ("@ + grouped_digits(prefill) + " tok)"@
    } else {
        Seq::empty()
    }) + (if decode != 0 {
        " | decode "@ + figures.decode_rate@ + " ("@ + grouped_digits(decode) + " tok)"@
    } else {
        Seq::empty()
    })
}

/// The running clause: `running <n>` with its prefill and decode-ready split
/// when either is nonzero.
pub open spec fn running_clause(current: RuntimeCounters) -> Seq<char> {
    let gauges = current.requests;
    let prefilling = gauges.prefilling.0;
    let ready = gauges.decode_ready.0;
    " | running "@ + decimal_digits(gauges.running.0 as nat) + if prefilling == 0 && ready == 0 {
        Seq::empty()
    } else if ready == 0 {
        " (prefill "@ + decimal_digits(prefilling as nat) + ")"@
    } else if prefilling == 0 {
        " (decode-ready "@ + decimal_digits(ready as nat) + ")"@
    } else {
        " (prefill "@ + decimal_digits(prefilling as nat) + ", decode-ready "@ + decimal_digits(
            ready as nat,
        ) + ")"@
    }
}

/// A gauge's clause, when it is nonzero.
pub open spec fn gauge_clause(label: Seq<char>, gauge: u64) -> Seq<char> {
    if gauge != 0 {
        " | "@ + label + " "@ + decimal_digits(gauge as nat)
    } else {
        Seq::empty()
    }
}

/// The waiting, materializing, capture-pending and terminal-pending
/// clauses.
pub open spec fn gauge_clauses(current: RuntimeCounters) -> Seq<char> {
    gauge_clause("waiting"@, current.requests.waiting.0) + gauge_clause(
        "materializing"@,
        current.requests.materializing.0,
    ) + gauge_clause("capture-pending"@, current.requests.capture_pending.0) + gauge_clause(
        "terminal-pending"@,
        current.requests.terminal_pending.0,
    )
}

/// The throughput line, clause by clause as ninfer's `render_throughput`:
/// `throughput | <interval>`, the token clauses, the running clause, the
/// nonzero gauges, `batch` when rounds ran, and the host's share and time.
pub open spec fn throughput_text(previous: RuntimeCounters, current: RuntimeCounters, figures: ThroughputFigures) -> Seq<char> {
    "throughput | "@ + figures.interval@ + token_clauses(previous, current, figures)
        + running_clause(current) + gauge_clauses(current) + (if moved(
        previous.decode_rounds.0,
        current.decode_rounds.0,
    ) != 0 {
        " | batch "@ + figures.batch@
    } else {
        Seq::empty()
    }) + " | host "@ + figures.host_percent@ + " ("@ + figures.host_time@ + ")"@
}

fn append_token_clauses(
    out: &mut String,
    previous: &RuntimeCounters,
    current: &RuntimeCounters,
    figures: &ThroughputFigures,
)
    ensures
        final(out)@ == old(out)@ + token_clauses(*previous, *current, *figures),
{
    let ghost start = out@;
    let prefill = current.prefill_tokens.0.saturating_sub(previous.prefill_tokens.0);
    let decode = current.decode_tokens.0.saturating_sub(previous.decode_tokens.0);
    if prefill != 0 {
        out.append(" | prefill ");
        out.append(figures.prefill_rate.as_str());
        out.append(" (");
        grouped_into(out, prefill);
        out.append(" tok)");
    }
    let ghost middle = out@;
    if decode != 0 {
        out.append(" | decode ");
        out.append(figures.decode_rate.as_str());
        out.append(" (");
        grouped_into(out, decode);
        out.append(" tok)");
    }
    assert(out@ == start + token_clauses(*previous, *current, *figures));
}

fn append_running(out: &mut String, current: &RuntimeCounters)
    ensures
        final(out)@ == old(out)@ + running_clause(*current),
{
    let ghost start = out@;
    let gauges = current.requests;
    out.append(" | running ");
    decimal_into(out, gauges.running.0);
    let prefilling = gauges.prefilling.0;
    let ready = gauges.decode_ready.0;
    if prefilling == 0 && ready == 0 {
    } else if ready == 0 {
        out.append(" (prefill ");
        decimal_into(out, prefilling);
        out.append(")");
    } else if prefilling == 0 {
        out.append(" (decode-ready ");
        decimal_into(out, ready);
        out.append(")");
    } else {
        out.append(" (prefill ");
        decimal_into(out, prefilling);
        out.append(", decode-ready ");
        decimal_into(out, ready);
        out.append(")");
    }
    assert(out@ == start + running_clause(*current));
}

fn append_gauge(out: &mut String, label: &str, gauge: u64)
    ensures
        final(out)@ == old(out)@ + gauge_clause(label@, gauge),
{
    let ghost start = out@;
    if gauge != 0 {
        out.append(" | ");
        out.append(label);
        out.append(" ");
        decimal_into(out, gauge);
    }
    assert(out@ == start + gauge_clause(label@, gauge));
}

fn append_gauges(out: &mut String, current: &RuntimeCounters)
    ensures
        final(out)@ == old(out)@ + gauge_clauses(*current),
{
    let ghost start = out@;
    append_gauge(out, "waiting", current.requests.waiting.0);
    append_gauge(out, "materializing", current.requests.materializing.0);
    append_gauge(out, "capture-pending", current.requests.capture_pending.0);
    append_gauge(out, "terminal-pending", current.requests.terminal_pending.0);
    assert(out@ == start + gauge_clauses(*current));
}

/// The throughput record for the interval from `previous` to `current`:
/// quiet when the interval saw no activity, else its line.
pub fn throughput(previous: &RuntimeCounters, current: &RuntimeCounters, figures: &ThroughputFigures) -> (r: Throughput)
    ensures
        !has_activity(*previous, *current) ==> r == Throughput::Quiet,
        has_activity(*previous, *current) ==> (r matches Throughput::Active(record)
            && record.severity == Severity::Info && record.message@ == throughput_text(
            *previous,
            *current,
            *figures,
        )),
{
    let prefill = current.prefill_tokens.0.saturating_sub(previous.prefill_tokens.0);
    let decode = current.decode_tokens.0.saturating_sub(previous.decode_tokens.0);
    let rounds = current.decode_rounds.0.saturating_sub(previous.decode_rounds.0);
    let gauges = current.requests;
    let active = prefill != 0 || decode != 0 || rounds != 0 || gauges.running.0 != 0
        || gauges.waiting.0 != 0 || gauges.materializing.0 != 0 || gauges.capture_pending.0 != 0
        || gauges.terminal_pending.0 != 0 || current.digest.0 != previous.digest.0;
    if !active {
        return Throughput::Quiet;
    }
    let mut out = String::from_str("throughput | ");
    out.append(figures.interval.as_str());
    append_token_clauses(&mut out, previous, current, figures);
    append_running(&mut out, current);
    append_gauges(&mut out, current);
    let ghost before = out@;
    if rounds != 0 {
        out.append(" | batch ");
        out.append(figures.batch.as_str());
    }
    out.append(" | host ");
    out.append(figures.host_percent.as_str());
    out.append(" (");
    out.append(figures.host_time.as_str());
    out.append(")");
    assert(out@ == throughput_text(*previous, *current, *figures));
    Throughput::Active(Record { severity: Severity::Info, message: out })
}

/// A done line names the finish only for an outcome without tool calls:
/// with tool calls its finish field reads `tool calls <n>`, `n` the number
/// of calls with thousands separators; without, the finish's own name.
pub proof fn law_done_names_tool_calls(shape: RequestShape, outcome: ChatOutcome, figures: DoneFigures)
    ensures
        ({
            let head = "req#"@ + decimal_digits(shape.id.0 as nat) + " done | openai-chat | "@;
            let line = done_text(shape, outcome, figures);
            &&& outcome.tool_calls@.len() > 0 ==> (head + "tool calls "@ + grouped_digits(
                outcome.tool_calls@.len(),
            )).is_prefix_of(line)
            &&& outcome.tool_calls@.len() == 0 ==> (head + finish_name(outcome.finish)).is_prefix_of(
                line,
            )
        }),
{
    let line = done_text(shape, outcome, figures);
    let first = done_head(shape, outcome);
    assert(line.subrange(0, first.len() as int) =~= first);
}

} // verus!
