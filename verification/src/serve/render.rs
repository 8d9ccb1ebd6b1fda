//! Chat Completions responses: the aggregate body, and the server-sent-event
//! chunks of a streamed one, each following ninfer's server field for
//! field: the same message shape, finish reasons, `usage` and llama.cpp-style
//! `timings`, and the same chunk sequence. Bodies are written as compact JSON
//! text, members in the order ninfer's server writes them; the timings'
//! rates, which are doubles, arrive rendered.
use core::hash::BuildHasher;
use vstd::prelude::*;
use vstd::string::*;
use crate::chat::outcome::ChatOutcome;
use crate::chat::outcome::Finish;
use crate::chat::outcome::GeneratedToolCall;
use crate::clock::nanos;
use crate::clock::nanos_of;
use crate::json::json_quoted;
use crate::json::quote;
use crate::pretty::decimal_digits;
use crate::pretty::decimal_into;
use crate::pretty::push_char;
use crate::serve::error::ApiError;
use crate::serve::error::error_body;
use crate::serve::parse::Usage;
use crate::chat::backend::DeltaText;
use crate::chat::outcome::Channel;

verus! {

/// Random bits.
#[derive(Debug, Clone, Copy, PartialEq, Eq, Structural)]
pub struct Bits(pub u64);

/// A time in seconds since the Unix epoch.
#[derive(Debug, Clone, Copy, PartialEq, Eq, Structural)]
pub struct UnixSeconds(pub u64);

/// std's `RandomState::new`: a hasher builder keyed from the standard
/// library's per-process random keys. Nothing is claimed of the keys.
#[verifier::external_body]
fn random_state() -> (r: std::hash::RandomState) {
    std::hash::RandomState::new()
}

/// std's `BuildHasher::hash_one` of the byte zero under `state`. The hash
/// rests on the state's random keys, so nothing is claimed of it.
#[verifier::external_body]
fn hash_zero(state: &std::hash::RandomState) -> (r: u64) {
    state.hash_one(0u8)
}

/// Fresh bits: the byte zero hashed under a newly keyed hasher. They rest on
/// chance, so nothing is claimed of them.
pub fn fresh_bits() -> (r: Bits) {
    let state = random_state();
    Bits(hash_zero(&state))
}

/// A reading of the system clock.
#[verifier::external_type_specification]
#[verifier::external_body]
pub struct ExSystemTime(std::time::SystemTime);

/// std's `SystemTime::now`. Nothing is claimed of the time read.
#[verifier::external_body]
fn system_now() -> (r: std::time::SystemTime) {
    std::time::SystemTime::now()
}

/// std's `SystemTime::duration_since` the Unix epoch: the time since it, or
/// none for a time before it. Nothing is claimed of the time itself.
#[verifier::external_body]
fn since_epoch(time: std::time::SystemTime) -> (r: Option<core::time::Duration>) {
    time.duration_since(std::time::UNIX_EPOCH).ok()
}

/// The whole seconds of a time since the Unix epoch, zero for a time before
/// it.
pub fn unix_seconds_of(since: Option<core::time::Duration>) -> (r: UnixSeconds)
    ensures
        since is None ==> r.0 == 0,
        since matches Some(d) ==> r.0 == nanos_of(d) / 1_000_000_000,
{
    match since {
        Some(d) => {
            let whole = nanos(d) / 1_000_000_000;
            UnixSeconds(whole as u64)
        },
        None => UnixSeconds(0),
    }
}

/// The system clock read as whole seconds since the Unix epoch, zero before
/// it. Nothing is claimed of the time read.
pub fn unix_now() -> (r: UnixSeconds) {
    let since = since_epoch(system_now());
    unix_seconds_of(since)
}

/// The lowercase hexadecimal digit for `d`, which is below sixteen.
pub open spec fn hex_char(d: nat) -> char {
    if d < 10 {
        (48 + d) as char
    } else {
        (87 + d) as char
    }
}

/// The last `count` hexadecimal digits of `n`, zero-padded, most significant
/// first.
pub open spec fn hex_digits(n: nat, count: nat) -> Seq<char>
    decreases count,
{
    if count == 0 {
        Seq::empty()
    } else {
        hex_digits(n / 16, (count - 1) as nat).push(hex_char(n % 16))
    }
}

/// Append the last `count` hexadecimal digits of `n`, zero-padded.
fn hex_into(out: &mut String, n: u64, count: u64)
    ensures
        final(out)@ == old(out)@ + hex_digits(n as nat, count as nat),
    decreases count,
{
    if count > 0 {
        hex_into(out, n / 16, count - 1);
        let d = n % 16;
        let code: u8 = if d < 10 {
            48u8 + d as u8
        } else {
            87u8 + d as u8
        };
        push_char(out, code as char);
    }
}

/// An id: the prefix, then the sixteen lowercase hex digits of `bits`.
pub open spec fn id_text(prefix: Seq<char>, bits: Bits) -> Seq<char> {
    prefix + hex_digits(bits.0 as nat, 16)
}

/// The identity every chunk of one response shares.
#[derive(Debug, Clone, PartialEq, Eq)]
pub struct Identity {
    /// `chatcmpl-` and sixteen hex digits.
    id: String,
    /// The model id the request named.
    model: String,
    /// The response's creation time, in Unix seconds.
    created: u64,
}

impl Identity {
    /// The response id.
    pub closed spec fn spec_id(self) -> Seq<char> {
        self.id@
    }

    /// The model id.
    pub closed spec fn spec_model(self) -> Seq<char> {
        self.model@
    }

    /// The creation time.
    pub closed spec fn spec_created(self) -> u64 {
        self.created
    }

    /// The identity of a response from `model`, named by `bits` and created
    /// at `created`: its id is `chatcmpl-` and the bits' sixteen hex digits.
    pub fn named(model: String, bits: Bits, created: UnixSeconds) -> (r: Self)
        ensures
            r.spec_id() == id_text("chatcmpl-"@, bits),
            r.spec_model() == model@,
            r.spec_created() == created.0,
    {
        let mut id = String::from_str("chatcmpl-");
        hex_into(&mut id, bits.0, 16);
        Identity { id, model, created: created.0 }
    }

    /// A fresh identity for a response from `model`: fresh bits name it and
    /// it is created now.
    pub fn new(model: String) -> (r: Self)
        ensures
            exists|bits: Bits| r.spec_id() == id_text("chatcmpl-"@, bits),
            r.spec_model() == model@,
    {
        let bits = fresh_bits();
        let created = unix_now();
        Identity::named(model, bits, created)
    }
}

/// A payload's `object`.
#[derive(Debug, Clone, Copy, PartialEq, Eq, Structural)]
pub enum ObjectKind {
    /// `chat.completion`.
    Completion,
    /// `chat.completion.chunk`.
    Chunk,
}

/// The `object` a kind names.
pub open spec fn object_name(kind: ObjectKind) -> Seq<char> {
    match kind {
        ObjectKind::Completion => "chat.completion"@,
        ObjectKind::Chunk => "chat.completion.chunk"@,
    }
}

/// `"key":` as serde_json writes a member's start.
pub open spec fn key_text(key: Seq<char>) -> Seq<char> {
    json_quoted(key) + ":"@
}

/// The members every payload opens with, after its `{`: `id`, `object`,
/// `created` and `model`.
pub open spec fn payload_head(identity: Identity, kind: ObjectKind) -> Seq<char> {
    "{"@ + key_text("id"@) + json_quoted(identity.spec_id()) + ","@ + key_text("object"@)
        + json_quoted(object_name(kind)) + ","@ + key_text("created"@) + decimal_digits(
        identity.spec_created() as nat,
    ) + ","@ + key_text("model"@) + json_quoted(identity.spec_model())
}

/// Append `"key":`.
fn append_key(out: &mut String, key: &str)
    ensures
        final(out)@ == old(out)@ + key_text(key@),
{
    out.append(quote(key).as_str());
    out.append(":");
}

/// Append a payload's opening members.
fn append_head(out: &mut String, identity: &Identity, kind: ObjectKind)
    ensures
        final(out)@ == old(out)@ + payload_head(*identity, kind),
{
    let ghost start = out@;
    out.append("{");
    append_key(out, "id");
    out.append(quote(identity.id.as_str()).as_str());
    out.append(",");
    append_key(out, "object");
    out.append(
        quote(
            match kind {
                ObjectKind::Completion => "chat.completion",
                ObjectKind::Chunk => "chat.completion.chunk",
            },
        ).as_str(),
    );
    out.append(",");
    append_key(out, "created");
    decimal_into(out, identity.created);
    out.append(",");
    append_key(out, "model");
    out.append(quote(identity.model.as_str()).as_str());
    assert(out@ == start + payload_head(*identity, kind));
}

/// A choice's `finish_reason`.
#[derive(Debug, Clone, Copy, PartialEq, Eq, Structural)]
pub enum FinishReason {
    /// `length`: a limit bound.
    Length,
    /// `stop`: the model or a stop string ended it.
    Stop,
    /// `tool_calls`: the model called tools.
    ToolCalls,
}

/// The finish reason of a generation without tool calls: the output limit
/// and the context ceiling finish `length`; every other reason `stop`.
pub open spec fn reason_for(finish: Finish) -> FinishReason {
    match finish {
        Finish::OutputLimit | Finish::ContextCapacity => FinishReason::Length,
        _ => FinishReason::Stop,
    }
}

/// The finish reason of a generation without tool calls.
pub fn finish_reason(finish: Finish) -> (r: FinishReason)
    ensures
        r == reason_for(finish),
{
    match finish {
        Finish::OutputLimit | Finish::ContextCapacity => FinishReason::Length,
        _ => FinishReason::Stop,
    }
}

/// The finish reason's wire string.
pub open spec fn reason_name(reason: FinishReason) -> Seq<char> {
    match reason {
        FinishReason::Length => "length"@,
        FinishReason::Stop => "stop"@,
        FinishReason::ToolCalls => "tool_calls"@,
    }
}

fn reason_label(reason: FinishReason) -> (r: &'static str)
    ensures
        r@ == reason_name(reason),
{
    match reason {
        FinishReason::Length => "length",
        FinishReason::Stop => "stop",
        FinishReason::ToolCalls => "tool_calls",
    }
}

/// The reused prompt tokens, clamped to the prompt.
pub open spec fn cached_of(outcome: ChatOutcome) -> nat {
    let prompt = outcome.admission.prompt_tokens.0;
    let reused = outcome.admission.reused_tokens.0;
    if reused < prompt {
        reused as nat
    } else {
        prompt as nat
    }
}

/// The usage's prompt members: `{"prompt_tokens":<n>,
/// "prompt_tokens_details":{"cached_tokens":<n>},`.
pub open spec fn usage_prompt(outcome: ChatOutcome) -> Seq<char> {
    "{"@ + key_text("prompt_tokens"@) + decimal_digits(outcome.admission.prompt_tokens.0 as nat)
        + ","@ + key_text("prompt_tokens_details"@) + "{"@ + key_text("cached_tokens"@)
        + decimal_digits(cached_of(outcome)) + "},"@
}

/// The usage's completion members: `"completion_tokens":<n>,
/// "completion_tokens_details":{"reasoning_tokens":<n>},`.
pub open spec fn usage_completion(outcome: ChatOutcome) -> Seq<char> {
    key_text("completion_tokens"@) + decimal_digits(outcome.generated@.len()) + ","@ + key_text(
        "completion_tokens_details"@,
    ) + "{"@ + key_text("reasoning_tokens"@) + decimal_digits(outcome.reasoning_tokens.0 as nat)
        + "},"@
}

/// The prompt and completion tokens together, saturating at `u64::MAX`.
pub open spec fn total_tokens(outcome: ChatOutcome) -> nat {
    let sum = outcome.admission.prompt_tokens.0 as nat + outcome.generated@.len();
    if sum > u64::MAX {
        u64::MAX as nat
    } else {
        sum
    }
}

/// The `usage` object: prompt, cached (clamped to the prompt), completion,
/// reasoning and total tokens, in ninfer's nesting.
pub open spec fn usage_text(outcome: ChatOutcome) -> Seq<char> {
    usage_prompt(outcome) + usage_completion(outcome) + key_text("total_tokens"@)
        + decimal_digits(total_tokens(outcome)) + "}"@
}

fn append_usage_prompt(out: &mut String, outcome: &ChatOutcome)
    ensures
        final(out)@ == old(out)@ + usage_prompt(*outcome),
{
    let ghost start = out@;
    let prompt = outcome.admission.prompt_tokens.get();
    let reused = outcome.admission.reused_tokens.get();
    let cached = if reused < prompt {
        reused
    } else {
        prompt
    };
    out.append("{");
    append_key(out, "prompt_tokens");
    decimal_into(out, prompt as u64);
    out.append(",");
    append_key(out, "prompt_tokens_details");
    out.append("{");
    append_key(out, "cached_tokens");
    decimal_into(out, cached as u64);
    out.append("},");
    assert(out@ == start + usage_prompt(*outcome));
}

fn append_usage_completion(out: &mut String, outcome: &ChatOutcome)
    ensures
        final(out)@ == old(out)@ + usage_completion(*outcome),
{
    let ghost start = out@;
    append_key(out, "completion_tokens");
    decimal_into(out, outcome.generated.len() as u64);
    out.append(",");
    append_key(out, "completion_tokens_details");
    out.append("{");
    append_key(out, "reasoning_tokens");
    decimal_into(out, outcome.reasoning_tokens.get() as u64);
    out.append("},");
    assert(out@ == start + usage_completion(*outcome));
}

/// Append the `usage` object.
fn append_usage(out: &mut String, outcome: &ChatOutcome)
    ensures
        final(out)@ == old(out)@ + usage_text(*outcome),
{
    let ghost start = out@;
    append_usage_prompt(out, outcome);
    append_usage_completion(out, outcome);
    append_key(out, "total_tokens");
    decimal_into(out, (outcome.admission.prompt_tokens.get() as u64).saturating_add(
        outcome.generated.len() as u64,
    ));
    out.append("}");
    assert(out@ == start + usage_text(*outcome));
}

/// The rates and times a `timings` object reports, each rendered as the JSON
/// number serde_json writes for the double ninfer's server computes.
#[derive(Debug, Clone, PartialEq, Eq)]
pub struct TimingFigures {
    /// The prompt's time in milliseconds.
    pub prompt_ms: String,
    /// Milliseconds per prefilled token; zero without prefilled tokens.
    pub prompt_per_token_ms: String,
    /// Prefilled tokens per second; zero without prompt time.
    pub prompt_per_second: String,
    /// The generation's time in milliseconds.
    pub predicted_ms: String,
    /// Milliseconds per decode interval; zero without intervals.
    pub predicted_per_token_ms: String,
    /// Decode intervals per second; zero without generation time.
    pub predicted_per_second: String,
}

/// The timings' prompt members: `{"cache_n":<n>,"prompt_n":<n>,
/// "prompt_ms":<ms>,"prompt_per_token_ms":<ms>,"prompt_per_second":<rate>,`.
pub open spec fn timings_prompt(outcome: ChatOutcome, figures: TimingFigures) -> Seq<char> {
    let prompt = outcome.admission.prompt_tokens.0 as nat;
    "{"@ + key_text("cache_n"@) + decimal_digits(cached_of(outcome)) + ","@ + key_text(
        "prompt_n"@,
    ) + decimal_digits((prompt - cached_of(outcome)) as nat) + ","@ + key_text("prompt_ms"@)
        + figures.prompt_ms@ + ","@ + key_text("prompt_per_token_ms"@) + figures.prompt_per_token_ms@
        + ","@ + key_text("prompt_per_second"@) + figures.prompt_per_second@ + ","@
}

/// The timings' generation members: `"predicted_n":<n>,"predicted_ms":<ms>,
/// "predicted_per_token_ms":<ms>,"predicted_per_second":<rate>`.
pub open spec fn timings_predicted(outcome: ChatOutcome, figures: TimingFigures) -> Seq<char> {
    key_text("predicted_n"@) + decimal_digits(outcome.generated@.len()) + ","@ + key_text(
        "predicted_ms"@,
    ) + figures.predicted_ms@ + ","@ + key_text("predicted_per_token_ms"@)
        + figures.predicted_per_token_ms@ + ","@ + key_text("predicted_per_second"@)
        + figures.predicted_per_second@
}

/// The timings' draft members, once something was drafted.
pub open spec fn timings_drafts(outcome: ChatOutcome) -> Seq<char> {
    if outcome.drafted.0 != 0 {
        ","@ + key_text("draft_n"@) + decimal_digits(outcome.drafted.0 as nat) + ","@ + key_text(
            "draft_n_accepted"@,
        ) + decimal_digits(outcome.accepted.0 as nat)
    } else {
        Seq::empty()
    }
}

/// The llama.cpp-style `timings` object: `cache_n` the reused prompt tokens
/// clamped to the prompt, `prompt_n` the rest, `predicted_n` the generated
/// tokens, the rates as rendered, and the draft counts only when something
/// was drafted.
pub open spec fn timings_text(outcome: ChatOutcome, figures: TimingFigures) -> Seq<char> {
    timings_prompt(outcome, figures) + timings_predicted(outcome, figures) + timings_drafts(
        outcome,
    ) + "}"@
}

fn append_timings_prompt(out: &mut String, outcome: &ChatOutcome, figures: &TimingFigures)
    ensures
        final(out)@ == old(out)@ + timings_prompt(*outcome, *figures),
{
    let ghost start = out@;
    let prompt = outcome.admission.prompt_tokens.get();
    let reused = outcome.admission.reused_tokens.get();
    let cached = if reused < prompt {
        reused
    } else {
        prompt
    };
    out.append("{");
    append_key(out, "cache_n");
    decimal_into(out, cached as u64);
    out.append(",");
    append_key(out, "prompt_n");
    decimal_into(out, (prompt - cached) as u64);
    out.append(",");
    append_key(out, "prompt_ms");
    out.append(figures.prompt_ms.as_str());
    out.append(",");
    append_key(out, "prompt_per_token_ms");
    out.append(figures.prompt_per_token_ms.as_str());
    out.append(",");
    append_key(out, "prompt_per_second");
    out.append(figures.prompt_per_second.as_str());
    out.append(",");
    assert(out@ == start + timings_prompt(*outcome, *figures));
}

fn append_timings_predicted(out: &mut String, outcome: &ChatOutcome, figures: &TimingFigures)
    ensures
        final(out)@ == old(out)@ + timings_predicted(*outcome, *figures),
{
    let ghost start = out@;
    append_key(out, "predicted_n");
    decimal_into(out, outcome.generated.len() as u64);
    out.append(",");
    append_key(out, "predicted_ms");
    out.append(figures.predicted_ms.as_str());
    out.append(",");
    append_key(out, "predicted_per_token_ms");
    out.append(figures.predicted_per_token_ms.as_str());
    out.append(",");
    append_key(out, "predicted_per_second");
    out.append(figures.predicted_per_second.as_str());
    assert(out@ == start + timings_predicted(*outcome, *figures));
}

/// Append the `timings` object.
fn append_timings(out: &mut String, outcome: &ChatOutcome, figures: &TimingFigures)
    ensures
        final(out)@ == old(out)@ + timings_text(*outcome, *figures),
{
    let ghost start = out@;
    append_timings_prompt(out, outcome, figures);
    append_timings_predicted(out, outcome, figures);
    let ghost before = out@;
    if outcome.drafted.0 != 0 {
        out.append(",");
        append_key(out, "draft_n");
        decimal_into(out, outcome.drafted.0);
        out.append(",");
        append_key(out, "draft_n_accepted");
        decimal_into(out, outcome.accepted.0);
    }
    assert(out@ == before + timings_drafts(*outcome));
    out.append("}");
    assert(out@ == start + timings_text(*outcome, *figures));
}

/// Whether rendered tool calls carry their position.
#[derive(Debug, Clone, Copy, PartialEq, Eq, Structural)]
pub enum Indexing {
    /// The aggregate message's calls.
    Unindexed,
    /// A stream chunk's calls.
    Indexed,
}

/// A tool call's opening members: `{"id":"call_<hex>","type":"function",`.
pub open spec fn call_head(bits: Bits) -> Seq<char> {
    "{"@ + key_text("id"@) + json_quoted(id_text("call_"@, bits)) + ","@ + key_text("type"@)
        + json_quoted("function"@) + ","@
}

/// A tool call's function: `"function":{"name":<name>,"arguments":<text>}`.
pub open spec fn call_function(call: GeneratedToolCall) -> Seq<char> {
    key_text("function"@) + "{"@ + key_text("name"@) + json_quoted(call.name@) + ","@ + key_text(
        "arguments"@,
    ) + json_quoted(call.arguments@) + "}"@
}

/// One tool call: `{"id","type":"function","function":{"name","arguments"}}`
/// with its position after when indexed.
pub open spec fn call_text(call: GeneratedToolCall, bits: Bits, index: nat, indexed: Indexing) -> Seq<char> {
    call_head(bits) + call_function(call) + (if indexed == Indexing::Indexed {
        ","@ + key_text("index"@) + decimal_digits(index)
    } else {
        Seq::empty()
    }) + "}"@
}

/// The first `n` tool calls, joined by commas.
pub open spec fn calls_text(calls: Seq<GeneratedToolCall>, bits: Seq<Bits>, indexed: Indexing, n: int) -> Seq<char>
    decreases n,
{
    if n <= 0 {
        Seq::empty()
    } else if n == 1 {
        call_text(calls[0], bits[0], 0, indexed)
    } else {
        calls_text(calls, bits, indexed, n - 1) + ","@ + call_text(
            calls[n - 1],
            bits[n - 1],
            (n - 1) as nat,
            indexed,
        )
    }
}

/// The tool calls as a JSON array, each named by its bits.
pub open spec fn calls_array(calls: Seq<GeneratedToolCall>, bits: Seq<Bits>, indexed: Indexing) -> Seq<char> {
    "["@ + calls_text(calls, bits, indexed, calls.len() as int) + "]"@
}

fn append_call_head(out: &mut String, bits: Bits)
    ensures
        final(out)@ == old(out)@ + call_head(bits),
{
    let ghost start = out@;
    let mut id = String::from_str("call_");
    hex_into(&mut id, bits.0, 16);
    out.append("{");
    append_key(out, "id");
    out.append(quote(id.as_str()).as_str());
    out.append(",");
    append_key(out, "type");
    out.append(quote("function").as_str());
    out.append(",");
    assert(out@ == start + call_head(bits));
}

fn append_call_function(out: &mut String, call: &GeneratedToolCall)
    ensures
        final(out)@ == old(out)@ + call_function(*call),
{
    let ghost start = out@;
    append_key(out, "function");
    out.append("{");
    append_key(out, "name");
    out.append(quote(call.name.as_str()).as_str());
    out.append(",");
    append_key(out, "arguments");
    out.append(quote(call.arguments.as_str()).as_str());
    out.append("}");
    assert(out@ == start + call_function(*call));
}

/// Append one tool call.
fn append_call(out: &mut String, call: &GeneratedToolCall, bits: Bits, index: usize, indexed: Indexing)
    ensures
        final(out)@ == old(out)@ + call_text(*call, bits, index as nat, indexed),
{
    let ghost start = out@;
    append_call_head(out, bits);
    append_call_function(out, call);
    let ghost before = out@;
    if indexed == Indexing::Indexed {
        out.append(",");
        append_key(out, "index");
        decimal_into(out, index as u64);
    }
    out.append("}");
    assert(out@ == start + call_text(*call, bits, index as nat, indexed));
}

/// Append the tool calls as a JSON array, each named by its bits.
fn append_calls(out: &mut String, calls: &Vec<GeneratedToolCall>, bits: &[Bits], indexed: Indexing)
    requires
        bits@.len() == calls@.len(),
    ensures
        final(out)@ == old(out)@ + calls_array(calls@, bits@, indexed),
{
    out.append("[");
    let ghost start = out@;
    let mut i: usize = 0;
    while i < calls.len()
        invariant
            i <= calls@.len(),
            bits@.len() == calls@.len(),
            out@ == start + calls_text(calls@, bits@, indexed, i as int),
        decreases calls@.len() - i,
    {
        if i > 0 {
            out.append(",");
        }
        append_call(out, &calls[i], bits[i], i, indexed);
        i = i + 1;
    }
    out.append("]");
}

/// Fresh bits for each of `count` tool calls.
fn fresh_call_bits(count: usize) -> (r: Vec<Bits>)
    ensures
        r@.len() == count,
{
    let mut bits: Vec<Bits> = Vec::new();
    let mut i: usize = 0;
    while i < count
        invariant
            i <= count,
            bits@.len() == i,
        decreases count - i,
    {
        bits.push(fresh_bits());
        i = i + 1;
    }
    bits
}

/// The reason a generation finished, tool calls first.
pub open spec fn outcome_reason(outcome: ChatOutcome) -> FinishReason {
    if outcome.tool_calls@.len() == 0 {
        reason_for(outcome.finish)
    } else {
        FinishReason::ToolCalls
    }
}

/// The aggregate message's opening members: the assistant role, the
/// content (null when empty beside tool calls), and `refusal` null.
pub open spec fn message_head(outcome: ChatOutcome) -> Seq<char> {
    "{"@ + key_text("role"@) + json_quoted("assistant"@) + ","@ + key_text("content"@) + (if outcome.tool_calls@.len()
        > 0 && outcome.content@.len() == 0 {
        "null"@
    } else {
        json_quoted(outcome.content@)
    }) + ","@ + key_text("refusal"@) + "null"@
}

/// The reasoning member, when there is any reasoning.
pub open spec fn reasoning_member(outcome: ChatOutcome) -> Seq<char> {
    if outcome.reasoning@.len() > 0 {
        ","@ + key_text("reasoning_content"@) + json_quoted(outcome.reasoning@)
    } else {
        Seq::empty()
    }
}

/// The tool calls member, when there are calls.
pub open spec fn calls_member(outcome: ChatOutcome, bits: Seq<Bits>) -> Seq<char> {
    if outcome.tool_calls@.len() > 0 {
        ","@ + key_text("tool_calls"@) + calls_array(outcome.tool_calls@, bits, Indexing::Unindexed)
    } else {
        Seq::empty()
    }
}

/// The aggregate message: the assistant's content (null when empty beside
/// tool calls), `refusal` null, the reasoning when there is any, and the tool
/// calls when there are any.
pub open spec fn message_text(outcome: ChatOutcome, bits: Seq<Bits>) -> Seq<char> {
    message_head(outcome) + reasoning_member(outcome) + calls_member(outcome, bits) + "}"@
}

/// The aggregate choice: index zero, the message, `logprobs` null and the
/// finish reason.
pub open spec fn choice_text(outcome: ChatOutcome, bits: Seq<Bits>) -> Seq<char> {
    "[{"@ + key_text("index"@) + "0,"@ + key_text("message"@) + message_text(outcome, bits) + ","@
        + key_text("logprobs"@) + "null,"@ + key_text("finish_reason"@) + json_quoted(
        reason_name(outcome_reason(outcome)),
    ) + "}]"@
}

/// The aggregate `chat.completion` body: the identity's members, one choice,
/// then `usage` and `timings`; the tool calls named by `bits`.
pub open spec fn completion_text(identity: Identity, outcome: ChatOutcome, figures: TimingFigures, bits: Seq<Bits>) -> Seq<char> {
    payload_head(identity, ObjectKind::Completion) + ","@ + key_text("choices"@) + choice_text(
        outcome,
        bits,
    ) + ","@ + key_text("usage"@) + usage_text(outcome) + ","@ + key_text("timings"@)
        + timings_text(outcome, figures) + "}"@
}

fn append_message_head(out: &mut String, outcome: &ChatOutcome)
    ensures
        final(out)@ == old(out)@ + message_head(*outcome),
{
    let ghost start = out@;
    let calls = outcome.tool_calls.len() > 0;
    out.append("{");
    append_key(out, "role");
    out.append(quote("assistant").as_str());
    out.append(",");
    append_key(out, "content");
    if calls && outcome.content.as_str().unicode_len() == 0 {
        out.append("null");
    } else {
        out.append(quote(outcome.content.as_str()).as_str());
    }
    out.append(",");
    append_key(out, "refusal");
    out.append("null");
    assert(out@ == start + message_head(*outcome));
}

fn append_message(out: &mut String, outcome: &ChatOutcome, bits: &[Bits])
    requires
        bits@.len() == outcome.tool_calls@.len(),
    ensures
        final(out)@ == old(out)@ + message_text(*outcome, bits@),
{
    let ghost start = out@;
    append_message_head(out, outcome);
    let ghost middle = out@;
    if outcome.reasoning.as_str().unicode_len() > 0 {
        out.append(",");
        append_key(out, "reasoning_content");
        out.append(quote(outcome.reasoning.as_str()).as_str());
    }
    assert(out@ == middle + reasoning_member(*outcome));
    let ghost later = out@;
    if outcome.tool_calls.len() > 0 {
        out.append(",");
        append_key(out, "tool_calls");
        append_calls(out, &outcome.tool_calls, bits, Indexing::Unindexed);
    }
    assert(out@ == later + calls_member(*outcome, bits@));
    out.append("}");
    assert(out@ == start + message_text(*outcome, bits@));
}

fn append_choice(out: &mut String, outcome: &ChatOutcome, bits: &[Bits])
    requires
        bits@.len() == outcome.tool_calls@.len(),
    ensures
        final(out)@ == old(out)@ + choice_text(*outcome, bits@),
{
    let ghost start = out@;
    out.append("[{");
    append_key(out, "index");
    out.append("0,");
    append_key(out, "message");
    append_message(out, outcome, bits);
    out.append(",");
    append_key(out, "logprobs");
    out.append("null,");
    append_key(out, "finish_reason");
    let reason = if outcome.tool_calls.len() == 0 {
        finish_reason(outcome.finish)
    } else {
        FinishReason::ToolCalls
    };
    out.append(quote(reason_label(reason)).as_str());
    out.append("}]");
    assert(out@ == start + choice_text(*outcome, bits@));
}

/// The aggregate body, its tool calls named by `bits`.
pub fn completion_named(identity: &Identity, outcome: &ChatOutcome, figures: &TimingFigures, bits: &[Bits]) -> (r: String)
    requires
        bits@.len() == outcome.tool_calls@.len(),
    ensures
        r@ == completion_text(*identity, *outcome, *figures, bits@),
{
    let mut out = String::new();
    append_head(&mut out, identity, ObjectKind::Completion);
    out.append(",");
    append_key(&mut out, "choices");
    append_choice(&mut out, outcome, bits);
    out.append(",");
    append_key(&mut out, "usage");
    append_usage(&mut out, outcome);
    out.append(",");
    append_key(&mut out, "timings");
    append_timings(&mut out, outcome, figures);
    out.append("}");
    out
}

/// The aggregate `chat.completion` body: one choice whose message carries
/// the content, `refusal` null, the reasoning when there is any and the tool
/// calls, each with a fresh `call_` id, when there are any, the content then
/// null when empty; the finish reason is `tool_calls` when there are calls;
/// `usage` and `timings` follow the choices.
pub fn completion(identity: &Identity, outcome: &ChatOutcome, figures: &TimingFigures) -> (r: String)
    ensures
        exists|bits: Seq<Bits>| bits.len() == outcome.tool_calls@.len() && r@ == completion_text(
            *identity,
            *outcome,
            *figures,
            bits,
        ),
{
    let bits = fresh_call_bits(outcome.tool_calls.len());
    completion_named(identity, outcome, figures, bits.as_slice())
}

/// A server-sent event carrying a payload's text.
pub open spec fn event_text(payload: Seq<char>) -> Seq<char> {
    "data: "@ + payload + "\n\n"@
}

/// A stream's error event: the error's body as one event.
pub fn error_event(error: &ApiError) -> (r: String)
    ensures
        r@ == event_text(error_body(*error)),
{
    let mut out = String::from_str("data: ");
    out.append(error.body().as_str());
    out.append("\n\n");
    out
}

/// The stream's closing event.
pub const DONE: &'static str = "data: [DONE]\n\n";

/// The comment a quiet event stream sends to stay open.
pub const KEEP_ALIVE: &'static str = ": keep-alive\n\n";

/// The seconds of quiet after which a stream sends [`KEEP_ALIVE`].
pub const HEARTBEAT_SECONDS: u64 = 5;

/// The `x-request-id` a response carries: `req_` and the sixteen hex digits
/// of each of two draws.
pub open spec fn request_id_text(first: Bits, second: Bits) -> Seq<char> {
    "req_"@ + hex_digits(first.0 as nat, 16) + hex_digits(second.0 as nat, 16)
}

/// The request id the two draws name.
pub fn request_id(first: Bits, second: Bits) -> (r: String)
    ensures
        r@ == request_id_text(first, second),
{
    let mut id = String::from_str("req_");
    hex_into(&mut id, first.0, 16);
    hex_into(&mut id, second.0, 16);
    id
}

/// A fresh request id, named by two fresh draws.
pub fn fresh_request_id() -> (r: String)
    ensures
        exists|first: Bits, second: Bits| r@ == request_id_text(first, second),
{
    let first = fresh_bits();
    let second = fresh_bits();
    request_id(first, second)
}

/// A chunk's members up to its choice's delta.
pub open spec fn chunk_open(identity: Identity) -> Seq<char> {
    payload_head(identity, ObjectKind::Chunk) + ","@ + key_text("choices"@) + "[{"@ + key_text(
        "index"@,
    ) + "0,"@ + key_text("delta"@)
}

/// A chunk's choice after its delta: `logprobs` null and the finish reason,
/// null until the end.
pub open spec fn chunk_finish(finish: Option<FinishReason>) -> Seq<char> {
    ","@ + key_text("logprobs"@) + "null,"@ + key_text("finish_reason"@) + (match finish {
        Some(reason) => json_quoted(reason_name(reason)),
        None => "null"@,
    }) + "}]"@
}

/// A chunk's members after its choices: `usage` null when a usage chunk will
/// follow, and `timings` when given.
pub open spec fn chunk_extras(usage: Usage, timings: Option<Seq<char>>) -> Seq<char> {
    (if usage == Usage::Included {
        ","@ + key_text("usage"@) + "null"@
    } else {
        Seq::empty()
    }) + (match timings {
        Some(t) => ","@ + key_text("timings"@) + t,
        None => Seq::empty(),
    })
}

/// A chunk with one choice carrying `delta`, as one event.
pub open spec fn chunk_text(
    identity: Identity,
    usage: Usage,
    delta: Seq<char>,
    finish: Option<FinishReason>,
    timings: Option<Seq<char>>,
) -> Seq<char> {
    event_text(
        chunk_open(identity) + delta + chunk_finish(finish) + chunk_extras(usage, timings) + "}"@,
    )
}

/// A delta carrying one text member: `{"<key>":<text>}`.
pub open spec fn text_delta(key: Seq<char>, text: Seq<char>) -> Seq<char> {
    "{"@ + key_text(key) + json_quoted(text) + "}"@
}

/// The opening delta: the assistant role with empty content.
pub open spec fn role_delta() -> Seq<char> {
    "{"@ + key_text("role"@) + json_quoted("assistant"@) + ","@ + key_text("content"@)
        + json_quoted(""@) + "}"@
}

/// The usage chunk: no choices, then `usage` and `timings`.
pub open spec fn usage_chunk_text(identity: Identity, outcome: ChatOutcome, figures: TimingFigures) -> Seq<char> {
    event_text(
        payload_head(identity, ObjectKind::Chunk) + ","@ + key_text("choices"@) + "[],"@ + key_text(
            "usage"@,
        ) + usage_text(outcome) + ","@ + key_text("timings"@) + timings_text(outcome, figures)
            + "}"@,
    )
}

/// `text` without its leading `prefix`, when `prefix` begins it.
fn strip(text: &str, prefix: &str) -> (r: Option<String>)
    ensures
        begins(text@, prefix@) ==> (r matches Some(rest) && rest@ == text@.skip(prefix@.len() as int)),
        !begins(text@, prefix@) ==> r is None,
{
    let chars = crate::letters::chars_of(text);
    let head = crate::letters::chars_of(prefix);
    if head.len() > chars.len() {
        return None;
    }
    let mut i: usize = 0;
    while i < head.len()
        invariant
            head@ == prefix@,
            chars@ == text@,
            head@.len() <= chars@.len(),
            i <= head@.len(),
            forall|k: int| 0 <= k < i ==> chars@[k] == head@[k],
        decreases head@.len() - i,
    {
        if chars[i] != head[i] {
            assert(chars@.take(head@.len() as int)[i as int] != head@[i as int]);
            return None;
        }
        i = i + 1;
    }
    assert(chars@.take(head@.len() as int) =~= head@);
    let mut rest = String::new();
    let mut j = head.len();
    while j < chars.len()
        invariant
            chars@ == text@,
            head@.len() <= j <= chars@.len(),
            rest@ == chars@.subrange(head@.len() as int, j as int),
        decreases chars@.len() - j,
    {
        crate::pretty::push_char(&mut rest, chars[j]);
        assert(chars@.subrange(head@.len() as int, j + 1) == chars@.subrange(
            head@.len() as int,
            j as int,
        ).push(chars@[j as int]));
        j = j + 1;
    }
    assert(chars@.skip(head@.len() as int) == chars@.subrange(head@.len() as int, chars@.len() as int));
    Some(rest)
}

/// Whether `prefix` begins `text`.
pub open spec fn begins(text: Seq<char>, prefix: Seq<char>) -> bool {
    prefix.len() <= text.len() && text.take(prefix.len() as int) == prefix
}

/// A streamed response's encoder: it turns the backend's deltas and outcome
/// into chunks, keeping what it has streamed to check the outcome against.
#[derive(Debug, Clone)]
pub struct ChunkStream {
    /// The response's identity.
    identity: Identity,
    /// Whether a usage chunk ends the stream.
    usage: Usage,
    /// The reasoning streamed so far.
    reasoning: String,
    /// The content streamed so far.
    content: String,
}

/// The closing events of a stream whose reasoning and content remainders
/// are these: the remainders as delta chunks, the tool calls as one chunk,
/// the finish chunk with `timings` unless a usage chunk follows, the usage
/// chunk when asked, and `[DONE]`.
pub open spec fn closing_events(
    identity: Identity,
    usage: Usage,
    rest_reasoning: Seq<char>,
    rest_content: Seq<char>,
    outcome: ChatOutcome,
    figures: TimingFigures,
    bits: Seq<Bits>,
) -> Seq<Seq<char>> {
    let chunk = |delta: Seq<char>| chunk_text(identity, usage, delta, None, None);
    (if rest_reasoning.len() > 0 {
        seq![chunk(text_delta("reasoning_content"@, rest_reasoning))]
    } else {
        Seq::empty()
    }) + (if rest_content.len() > 0 {
        seq![chunk(text_delta("content"@, rest_content))]
    } else {
        Seq::empty()
    }) + (if outcome.tool_calls@.len() > 0 {
        seq![
            chunk(
                "{"@ + key_text("tool_calls"@) + calls_array(
                    outcome.tool_calls@,
                    bits,
                    Indexing::Indexed,
                ) + "}"@,
            ),
        ]
    } else {
        Seq::empty()
    }) + match usage {
        Usage::Omitted => seq![
            chunk_text(
                identity,
                usage,
                "{}"@,
                Some(outcome_reason(outcome)),
                Some(timings_text(outcome, figures)),
            ),
        ],
        Usage::Included => seq![
            chunk_text(identity, usage, "{}"@, Some(outcome_reason(outcome)), None),
            usage_chunk_text(identity, outcome, figures),
        ],
    } + seq!["data: [DONE]\n\n"@]
}

impl ChunkStream {
    /// The response's identity.
    pub closed spec fn spec_identity(self) -> Identity {
        self.identity
    }

    /// Whether a usage chunk ends the stream.
    pub closed spec fn spec_usage(self) -> Usage {
        self.usage
    }

    /// The reasoning streamed so far.
    pub closed spec fn spec_reasoning(self) -> Seq<char> {
        self.reasoning@
    }

    /// The content streamed so far.
    pub closed spec fn spec_content(self) -> Seq<char> {
        self.content@
    }

    /// The closing events `finish` gives for `outcome`, its tool calls named
    /// by `bits`: refused when the streamed text is not a prefix of the
    /// outcome's on either channel, or reasoning remains after content was
    /// streamed.
    pub open spec fn closing(self, outcome: ChatOutcome, figures: TimingFigures, bits: Seq<Bits>) -> Result<Seq<Seq<char>>, Seq<char>> {
        if !begins(outcome.reasoning@, self.spec_reasoning()) || !begins(
            outcome.content@,
            self.spec_content(),
        ) {
            Err("streamed output does not match terminal output"@)
        } else {
            let rest_reasoning = outcome.reasoning@.skip(self.spec_reasoning().len() as int);
            let rest_content = outcome.content@.skip(self.spec_content().len() as int);
            if rest_reasoning.len() > 0 && self.spec_content().len() > 0 {
                Err("terminal reasoning appeared after streamed content"@)
            } else {
                Ok(
                    closing_events(
                        self.spec_identity(),
                        self.spec_usage(),
                        rest_reasoning,
                        rest_content,
                        outcome,
                        figures,
                        bits,
                    ),
                )
            }
        }
    }

    /// An encoder for one response, nothing streamed yet.
    pub fn new(identity: Identity, usage: Usage) -> (r: Self)
        ensures
            r.spec_identity() == identity,
            r.spec_usage() == usage,
            r.spec_reasoning() == Seq::<char>::empty(),
            r.spec_content() == Seq::<char>::empty(),
    {
        ChunkStream { identity, usage, reasoning: String::new(), content: String::new() }
    }

    /// Append a chunk's members up to its choice's delta.
    fn append_chunk_open(&self, out: &mut String)
        ensures
            final(out)@ == old(out)@ + chunk_open(self.identity),
    {
        let ghost start = out@;
        append_head(out, &self.identity, ObjectKind::Chunk);
        out.append(",");
        append_key(out, "choices");
        out.append("[{");
        append_key(out, "index");
        out.append("0,");
        append_key(out, "delta");
        assert(out@ == start + chunk_open(self.identity));
    }

    /// Append a chunk's choice after its delta.
    fn append_chunk_finish(out: &mut String, finish: Option<FinishReason>)
        ensures
            final(out)@ == old(out)@ + chunk_finish(finish),
    {
        let ghost start = out@;
        out.append(",");
        append_key(out, "logprobs");
        out.append("null,");
        append_key(out, "finish_reason");
        match finish {
            Some(reason) => out.append(quote(reason_label(reason)).as_str()),
            None => out.append("null"),
        }
        out.append("}]");
        assert(out@ == start + chunk_finish(finish));
    }

    /// Append a chunk's members after its choices.
    fn append_chunk_extras(&self, out: &mut String, timings: Option<&str>)
        ensures
            final(out)@ == old(out)@ + chunk_extras(
                self.usage,
                match timings {
                    Some(t) => Some(t@),
                    None => None,
                },
            ),
    {
        let ghost start = out@;
        if self.usage == Usage::Included {
            out.append(",");
            append_key(out, "usage");
            out.append("null");
        }
        let ghost middle = out@;
        match timings {
            Some(t) => {
                out.append(",");
                append_key(out, "timings");
                out.append(t);
            },
            None => {},
        }
        assert(out@ == start + chunk_extras(
            self.usage,
            match timings {
                Some(t) => Some(t@),
                None => None,
            },
        ));
    }

    /// A chunk with one choice carrying `delta`.
    fn chunk(&self, delta: &str, finish: Option<FinishReason>, timings: Option<&str>) -> (r: String)
        ensures
            r@ == chunk_text(
                self.identity,
                self.usage,
                delta@,
                finish,
                match timings {
                    Some(t) => Some(t@),
                    None => None,
                },
            ),
    {
        let mut payload = String::new();
        self.append_chunk_open(&mut payload);
        payload.append(delta);
        ChunkStream::append_chunk_finish(&mut payload, finish);
        self.append_chunk_extras(&mut payload, timings);
        payload.append("}");
        let mut out = String::from_str("data: ");
        out.append(payload.as_str());
        out.append("\n\n");
        proof {
            assert(payload@ =~= chunk_open(self.identity) + delta@ + chunk_finish(finish)
                + chunk_extras(
                self.usage,
                match timings {
                    Some(t) => Some(t@),
                    None => None,
                },
            ) + "}"@);
        }
        out
    }

    /// The opening chunk: the assistant role with empty content.
    pub fn start(&self) -> (r: String)
        ensures
            r@ == chunk_text(self.spec_identity(), self.spec_usage(), role_delta(), None, None),
    {
        let mut delta = String::from_str("{");
        append_key(&mut delta, "role");
        delta.append(quote("assistant").as_str());
        delta.append(",");
        append_key(&mut delta, "content");
        delta.append(quote("").as_str());
        delta.append("}");
        self.chunk(delta.as_str(), None, None)
    }

    /// A delta chunk on `channel`: the text is carried as
    /// `reasoning_content` or `content`, and recorded for
    /// [`ChunkStream::finish`].
    pub fn delta(&mut self, channel: Channel, text: DeltaText<'_>) -> (r: String)
        ensures
            final(self).spec_identity() == old(self).spec_identity(),
            final(self).spec_usage() == old(self).spec_usage(),
            channel == Channel::Reasoning ==> final(self).spec_reasoning() == old(
                self,
            ).spec_reasoning() + text.0@ && final(self).spec_content() == old(self).spec_content(),
            channel == Channel::Content ==> final(self).spec_content() == old(self).spec_content()
                + text.0@ && final(self).spec_reasoning() == old(self).spec_reasoning(),
            r@ == chunk_text(
                old(self).spec_identity(),
                old(self).spec_usage(),
                text_delta(
                    if channel == Channel::Reasoning {
                        "reasoning_content"@
                    } else {
                        "content"@
                    },
                    text.0@,
                ),
                None,
                None,
            ),
    {
        let key = match channel {
            Channel::Reasoning => {
                self.reasoning.append(text.0);
                "reasoning_content"
            },
            Channel::Content => {
                self.content.append(text.0);
                "content"
            },
        };
        let mut delta = String::from_str("{");
        append_key(&mut delta, key);
        delta.append(quote(text.0).as_str());
        delta.append("}");
        self.chunk(delta.as_str(), None, None)
    }

    /// The remainders' delta chunks: any unstreamed reasoning, then any
    /// unstreamed content.
    fn remainder_events(&self, rest_reasoning: &str, rest_content: &str) -> (r: Vec<String>)
        ensures
            r@.map_values(|e: String| e@) == (if rest_reasoning@.len() > 0 {
                seq![
                    chunk_text(
                        self.identity,
                        self.usage,
                        text_delta("reasoning_content"@, rest_reasoning@),
                        None,
                        None,
                    ),
                ]
            } else {
                Seq::<Seq<char>>::empty()
            }) + (if rest_content@.len() > 0 {
                seq![
                    chunk_text(
                        self.identity,
                        self.usage,
                        text_delta("content"@, rest_content@),
                        None,
                        None,
                    ),
                ]
            } else {
                Seq::<Seq<char>>::empty()
            }),
    {
        let mut events: Vec<String> = Vec::new();
        if rest_reasoning.unicode_len() > 0 {
            let mut delta = String::from_str("{");
            append_key(&mut delta, "reasoning_content");
            delta.append(quote(rest_reasoning).as_str());
            delta.append("}");
            events.push(self.chunk(delta.as_str(), None, None));
        }
        let ghost first = events@;
        if rest_content.unicode_len() > 0 {
            let mut delta = String::from_str("{");
            append_key(&mut delta, "content");
            delta.append(quote(rest_content).as_str());
            delta.append("}");
            events.push(self.chunk(delta.as_str(), None, None));
        }
        assert(events@.map_values(|e: String| e@) =~= (if rest_reasoning@.len() > 0 {
            seq![
                chunk_text(
                    self.identity,
                    self.usage,
                    text_delta("reasoning_content"@, rest_reasoning@),
                    None,
                    None,
                ),
            ]
        } else {
            Seq::<Seq<char>>::empty()
        }) + (if rest_content@.len() > 0 {
            seq![
                chunk_text(
                    self.identity,
                    self.usage,
                    text_delta("content"@, rest_content@),
                    None,
                    None,
                ),
            ]
        } else {
            Seq::<Seq<char>>::empty()
        }));
        events
    }

    /// The usage chunk.
    fn usage_chunk(&self, outcome: &ChatOutcome, figures: &TimingFigures) -> (r: String)
        ensures
            r@ == usage_chunk_text(self.identity, *outcome, *figures),
    {
        let mut payload = String::new();
        append_head(&mut payload, &self.identity, ObjectKind::Chunk);
        payload.append(",");
        append_key(&mut payload, "choices");
        payload.append("[],");
        append_key(&mut payload, "usage");
        append_usage(&mut payload, outcome);
        payload.append(",");
        append_key(&mut payload, "timings");
        append_timings(&mut payload, outcome, figures);
        payload.append("}");
        let mut event = String::from_str("data: ");
        event.append(payload.as_str());
        event.append("\n\n");
        event
    }

    /// The finish chunk, with `timings` unless a usage chunk follows, then
    /// the usage chunk when asked, then `[DONE]`.
    fn ending_events(&self, outcome: &ChatOutcome, figures: &TimingFigures) -> (r: Vec<String>)
        ensures
            r@.map_values(|e: String| e@) == match self.usage {
                Usage::Omitted => seq![
                    chunk_text(
                        self.identity,
                        self.usage,
                        "{}"@,
                        Some(outcome_reason(*outcome)),
                        Some(timings_text(*outcome, *figures)),
                    ),
                ],
                Usage::Included => seq![
                    chunk_text(self.identity, self.usage, "{}"@, Some(outcome_reason(*outcome)), None),
                    usage_chunk_text(self.identity, *outcome, *figures),
                ],
            } + seq!["data: [DONE]\n\n"@],
    {
        let reason = if outcome.tool_calls.len() == 0 {
            finish_reason(outcome.finish)
        } else {
            FinishReason::ToolCalls
        };
        let mut events: Vec<String> = Vec::new();
        match self.usage {
            Usage::Omitted => {
                let mut timings = String::new();
                append_timings(&mut timings, outcome, figures);
                events.push(self.chunk("{}", Some(reason), Some(timings.as_str())));
            },
            Usage::Included => {
                events.push(self.chunk("{}", Some(reason), None));
                events.push(self.usage_chunk(outcome, figures));
            },
        }
        events.push(String::from_str(DONE));
        proof {
            reveal_strlit("data: [DONE]\n\n");
        }
        assert(events@.map_values(|e: String| e@) =~= match self.usage {
            Usage::Omitted => seq![
                chunk_text(
                    self.identity,
                    self.usage,
                    "{}"@,
                    Some(outcome_reason(*outcome)),
                    Some(timings_text(*outcome, *figures)),
                ),
            ],
            Usage::Included => seq![
                chunk_text(self.identity, self.usage, "{}"@, Some(outcome_reason(*outcome)), None),
                usage_chunk_text(self.identity, *outcome, *figures),
            ],
        } + seq!["data: [DONE]\n\n"@]);
        events
    }

    /// The closing chunks, the tool calls named by `bits`: any unstreamed
    /// reasoning, then any unstreamed content, each as one delta chunk; the
    /// tool calls as one chunk when there are any; the finish chunk, with
    /// `timings` unless a usage chunk follows; the usage chunk when asked;
    /// and the closing `[DONE]`. Refused with an internal error when the
    /// streamed text is not a prefix of the outcome's on either channel, or
    /// reasoning remains after content was streamed.
    #[verifier::rlimit(40)]
    pub fn finish_named(&self, outcome: &ChatOutcome, figures: &TimingFigures, bits: &[Bits]) -> (r: Result<Vec<String>, ApiError>)
        requires
            bits@.len() == outcome.tool_calls@.len(),
        ensures
            match (r, self.closing(*outcome, *figures, bits@)) {
                (Ok(events), Ok(wanted)) => events@.map_values(|e: String| e@) == wanted,
                (Err(e), Err(message)) => e.status == 500 && e.kind@ == "internal_error"@
                    && e.message@ == message && e.param@.len() == 0 && e.code@.len() == 0,
                _ => false,
            },
    {
        let rest_reasoning = match strip(outcome.reasoning.as_str(), self.reasoning.as_str()) {
            Some(rest) => rest,
            None => return Err(
                ApiError::internal(
                    String::from_str("streamed output does not match terminal output"),
                ),
            ),
        };
        let rest_content = match strip(outcome.content.as_str(), self.content.as_str()) {
            Some(rest) => rest,
            None => return Err(
                ApiError::internal(
                    String::from_str("streamed output does not match terminal output"),
                ),
            ),
        };
        if rest_reasoning.as_str().unicode_len() > 0 && self.content.as_str().unicode_len() > 0 {
            return Err(
                ApiError::internal(
                    String::from_str("terminal reasoning appeared after streamed content"),
                ),
            );
        }
        let mut events = self.remainder_events(rest_reasoning.as_str(), rest_content.as_str());
        let ghost first = events@;
        let mut calls: Vec<String> = Vec::new();
        if outcome.tool_calls.len() > 0 {
            let mut delta = String::from_str("{");
            append_key(&mut delta, "tool_calls");
            append_calls(&mut delta, &outcome.tool_calls, bits, Indexing::Indexed);
            delta.append("}");
            calls.push(self.chunk(delta.as_str(), None, None));
        }
        let ghost middle = calls@;
        let mut ending = self.ending_events(outcome, figures);
        let ghost last = ending@;
        events.append(&mut calls);
        events.append(&mut ending);
        proof {
            assert(events@ == first + middle + last);
            assert(events@.map_values(|e: String| e@) =~= first.map_values(|e: String| e@)
                + middle.map_values(|e: String| e@) + last.map_values(|e: String| e@));
            assert(middle.map_values(|e: String| e@) =~= (if outcome.tool_calls@.len() > 0 {
                seq![
                    chunk_text(
                        self.identity,
                        self.usage,
                        "{"@ + key_text("tool_calls"@) + calls_array(
                            outcome.tool_calls@,
                            bits@,
                            Indexing::Indexed,
                        ) + "}"@,
                        None,
                        None,
                    ),
                ]
            } else {
                Seq::<Seq<char>>::empty()
            }));
        }
        Ok(events)
    }

    /// The closing chunks, each tool call with a fresh `call_` id.
    pub fn finish(&self, outcome: &ChatOutcome, figures: &TimingFigures) -> (r: Result<Vec<String>, ApiError>)
        ensures
            exists|bits: Seq<Bits>| bits.len() == outcome.tool_calls@.len() && match (
                r,
                #[trigger] self.closing(*outcome, *figures, bits),
            ) {
                (Ok(events), Ok(wanted)) => events@.map_values(|e: String| e@) == wanted,
                (Err(e), Err(message)) => e.status == 500 && e.kind@ == "internal_error"@
                    && e.message@ == message && e.param@.len() == 0 && e.code@.len() == 0,
                _ => false,
            },
    {
        let bits = fresh_call_bits(outcome.tool_calls.len());
        self.finish_named(outcome, figures, bits.as_slice())
    }
}

/// A stream that has streamed a prefix of the outcome's text on each
/// channel, with no reasoning left once content began, as a backend's
/// deltas are, closes without error: its closing events carry exactly the
/// rest of each channel, and what was streamed followed by that rest is the
/// outcome's text.
pub proof fn law_faithful_stream_closes(
    stream: ChunkStream,
    outcome: ChatOutcome,
    figures: TimingFigures,
    bits: Seq<Bits>,
)
    requires
        begins(outcome.reasoning@, stream.spec_reasoning()),
        begins(outcome.content@, stream.spec_content()),
        stream.spec_content().len() == 0 || stream.spec_reasoning() == outcome.reasoning@,
    ensures
        ({
            let rest_reasoning = outcome.reasoning@.skip(stream.spec_reasoning().len() as int);
            let rest_content = outcome.content@.skip(stream.spec_content().len() as int);
            &&& stream.closing(outcome, figures, bits) == Ok::<Seq<Seq<char>>, Seq<char>>(
                closing_events(
                    stream.spec_identity(),
                    stream.spec_usage(),
                    rest_reasoning,
                    rest_content,
                    outcome,
                    figures,
                    bits,
                ),
            )
            &&& stream.spec_reasoning() + rest_reasoning == outcome.reasoning@
            &&& stream.spec_content() + rest_content == outcome.content@
        }),
{
    let streamed_reasoning = stream.spec_reasoning();
    let streamed_content = stream.spec_content();
    let rest_reasoning = outcome.reasoning@.skip(streamed_reasoning.len() as int);
    let rest_content = outcome.content@.skip(streamed_content.len() as int);
    assert(streamed_reasoning + rest_reasoning =~= outcome.reasoning@);
    assert(streamed_content + rest_content =~= outcome.content@);
    if streamed_content.len() > 0 {
        assert(rest_reasoning.len() == 0);
    }
}

/// The finish reason a client reads: `tool_calls` whenever the model called
/// tools; otherwise `length` exactly when the output limit or the context
/// ceiling ended the generation, and `stop` for a stop token, a stop
/// string, a cancellation or an unfinished generation.
pub proof fn law_finish_reason_names_the_limit(outcome: ChatOutcome)
    ensures
        outcome.tool_calls@.len() > 0 ==> reason_name(outcome_reason(outcome)) == "tool_calls"@,
        outcome.tool_calls@.len() == 0 ==> reason_name(outcome_reason(outcome)) == (if outcome.finish
            == Finish::OutputLimit || outcome.finish == Finish::ContextCapacity {
            "length"@
        } else {
            "stop"@
        }),
        reason_name(reason_for(outcome.finish)) == "length"@ <==> (outcome.finish == Finish::OutputLimit
            || outcome.finish == Finish::ContextCapacity),
{
    reveal_strlit("length");
    reveal_strlit("stop");
    reveal_strlit("tool_calls");
    assert("stop"@.len() != "length"@.len());
    assert("tool_calls"@.len() != "length"@.len());
}

} // verus!
