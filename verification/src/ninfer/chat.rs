//! Chat requests on ninfer's Engine: infinitum's serving contract over the
//! bridge.
//!
//! ninfer's frontend renders the chat template, parses reasoning and tool
//! calls, and runs admission and the prefix cache; infinitum supplies the
//! request, receives the committed output, and reviews every speculative
//! round through its preview before the commit. This module holds the
//! bridge's entries from the Engine and every conversion between the chat
//! contract's terms and the adapter's.
use vstd::prelude::*;
use crate::serve::parse::Directives;
use crate::chat::backend::CancelToken;
use crate::chat::backend::Cancellation;
use crate::chat::backend::ChatEvents;
use crate::chat::backend::ChatFailure;
use crate::chat::backend::DeltaText;
use crate::chat::backend::FailureKind;
use crate::chat::backend::Forwarded;
use crate::chat::backend::Submission;
use crate::chat::backend::Thinking;
use crate::chat::outcome::Admission;
use crate::chat::outcome::Channel;
use crate::chat::outcome::ChatOutcome;
use crate::chat::outcome::Finish;
use crate::chat::outcome::GeneratedToolCall;
use crate::chat::outcome::ReusePath;
use crate::chat::outcome::Tally;
use crate::chat::outcome::Telemetry;
use crate::chat::outcome::ThinkingSpend;
use crate::chat::request::Automatic;
use crate::chat::request::CacheBoundary;
use crate::chat::request::CacheMarker;
use crate::chat::request::Delivery;
use crate::chat::request::Effort;
use crate::chat::request::Marked;
use crate::chat::request::Message;
use crate::chat::request::PrefixReuse;
use crate::chat::request::Prompt;
use crate::chat::request::Role;
use crate::chat::request::Seed;
use crate::chat::request::SpecialTokens;
use crate::chat::request::StopScope;
use crate::chat::request::StructuralPrefixes;
use crate::chat::request::Switch;
use crate::chat::request::ThinkingBudget;
use crate::chat::request::ToolCall;
use crate::chat::runtime::ByteSize;
use crate::chat::runtime::Capacity;
use crate::chat::runtime::ContextCache;
use crate::chat::runtime::CounterDigest;
use crate::chat::runtime::KvSizing;
use crate::chat::runtime::RequestGauges;
use crate::chat::runtime::RuntimeCounters;
use crate::clock::duration_from_nanos;
use crate::clock::duration_of_nanos;
use crate::clock::nanos_of;
use crate::letters::copy_texts;
use crate::letters::same_texts;
use crate::letters::lossy_text;
use crate::letters::text_of_bytes;
use crate::numeral::Positive;
use crate::ninfer::session::offered_ids;
use crate::ninfer::session::ReviewSink;
use crate::ninfer::wire;
use crate::round::maybe::Maybe;
use crate::round::token::TokenCount;
use crate::round::token::TokenId;

verus! {

/// The consumer side of a chat request's streamed output.
pub struct ChatSink<'events> {
    /// The consumer.
    pub events: &'events mut dyn ChatEvents,
}

/// A chat request's cancellation flag, as the adapter polls it.
pub struct CancelFlag(pub CancelToken);

/// The budget a wire count stands for: zero is unlimited.
pub fn thinking_budget_of(tokens: u32) -> (r: ThinkingBudget)
    ensures
        tokens == 0 ==> r == ThinkingBudget::Unlimited,
        tokens > 0 ==> (r matches ThinkingBudget::Tokens(p) && p.view() == tokens),
{
    match Positive::new(tokens) {
        Some(limit) => ThinkingBudget::Tokens(limit),
        None => ThinkingBudget::Unlimited,
    }
}

/// What preparation decided, as the adapter reports it: whether the turn
/// opens in thinking, and its budget, zero read as unlimited.
pub fn submission_of(thinking_open: bool, thinking_budget: u32) -> (r: Submission)
    ensures
        r.thinking == (if thinking_open {
            Thinking::Open
        } else {
            Thinking::Closed
        }),
        thinking_budget == 0 ==> r.thinking_budget == ThinkingBudget::Unlimited,
        thinking_budget > 0 ==> (r.thinking_budget matches ThinkingBudget::Tokens(p) && p.view()
            == thinking_budget),
{
    Submission {
        thinking: if thinking_open {
            Thinking::Open
        } else {
            Thinking::Closed
        },
        thinking_budget: thinking_budget_of(thinking_budget),
    }
}

/// Tell the consumer the request was submitted, with what preparation
/// decided; called once, after the submission and before the admission.
pub fn chat_submitted(sink: &mut ChatSink<'_>, thinking_open: bool, thinking_budget: u32)
    ensures
        final(sink).events.received().events().len() == old(sink).events.received().events().len() + 1,
        final(sink).events.received().events().drop_last() == old(sink).events.received().events(),
        final(sink).events.received().events().last() matches Forwarded::Submitted(submission) && {
            &&& submission.thinking == (if thinking_open {
                Thinking::Open
            } else {
                Thinking::Closed
            })
            &&& thinking_budget == 0 ==> submission.thinking_budget == ThinkingBudget::Unlimited
            &&& thinking_budget > 0 ==> (submission.thinking_budget matches ThinkingBudget::Tokens(p)
                && p.view() == thinking_budget)
        },
{
    let submission = submission_of(thinking_open, thinking_budget);
    sink.events.submitted(submission);
    assert(sink.events.received().events().drop_last() =~= old(sink).events.received().events());
}

/// Forward the admission record to the consumer; called once, before any
/// publication.
pub fn chat_admitted(sink: &mut ChatSink<'_>, prompt_tokens: u32, reused_tokens: u32)
    ensures
        final(sink).events.received().events() == old(sink).events.received().events().push(
            Forwarded::Admitted(
                Admission {
                    prompt_tokens: TokenCount(prompt_tokens),
                    reused_tokens: TokenCount(reused_tokens),
                },
            ),
        ),
{
    let admission = Admission {
        prompt_tokens: TokenCount::from(prompt_tokens),
        reused_tokens: TokenCount::from(reused_tokens),
    };
    sink.events.admitted(admission);
}

/// The channel committed text belongs to.
pub fn channel_of(channel: wire::DeltaChannel) -> (r: Channel)
    ensures
        r == (if channel == wire::DeltaChannel::Reasoning {
            Channel::Reasoning
        } else {
            Channel::Content
        }),
{
    if channel == wire::DeltaChannel::Reasoning {
        Channel::Reasoning
    } else {
        Channel::Content
    }
}

/// Forward committed text to the consumer: non-empty text reaches it on its
/// channel; bytes that are not UTF-8 are replaced with U+FFFD, which ninfer's
/// frontend does not produce because it publishes only complete characters.
pub fn chat_publish(sink: &mut ChatSink<'_>, channel: wire::DeltaChannel, text: &[u8])
    ensures
        text@.len() == 0 ==> final(sink).events.received().events() == old(sink).events.received().events(),
        text@.len() > 0 ==> final(sink).events.received().events() == old(sink).events.received().events().push(
            Forwarded::Published(
                if channel == wire::DeltaChannel::Reasoning {
                    Channel::Reasoning
                } else {
                    Channel::Content
                },
                lossy_text(text@),
            ),
        ),
{
    if text.len() == 0 {
        return;
    }
    let channel = channel_of(channel);
    let decoded = text_of_bytes(text);
    sink.events.publish(channel, DeltaText(decoded.as_str()));
}

/// Whether the consumer asked to stop: true exactly after the request's token
/// was cancelled, which another thread may do at any time.
pub fn chat_cancelled(flag: &CancelFlag) -> bool {
    match flag.0.state() {
        Cancellation::Requested => true,
        Cancellation::Live => false,
    }
}

/// The wire form of a template switch.
pub open spec fn switch_for(switch: Switch) -> wire::TemplateSwitch {
    match switch {
        Switch::ModelDefault => wire::TemplateSwitch::Unset,
        Switch::On => wire::TemplateSwitch::On,
        Switch::Off => wire::TemplateSwitch::Off,
    }
}

/// Lower a template switch.
pub fn lower_switch(switch: Switch) -> (r: wire::TemplateSwitch)
    ensures
        r == switch_for(switch),
{
    match switch {
        Switch::ModelDefault => wire::TemplateSwitch::Unset,
        Switch::On => wire::TemplateSwitch::On,
        Switch::Off => wire::TemplateSwitch::Off,
    }
}

/// The wire form of a reasoning effort.
pub open spec fn effort_for(effort: Effort) -> wire::EffortLevel {
    match effort {
        Effort::Unrequested => wire::EffortLevel::Unset,
        Effort::NoEffort => wire::EffortLevel::NoEffort,
        Effort::Minimal => wire::EffortLevel::Minimal,
        Effort::Low => wire::EffortLevel::Low,
        Effort::Medium => wire::EffortLevel::Medium,
        Effort::High => wire::EffortLevel::High,
        Effort::XHigh => wire::EffortLevel::XHigh,
        Effort::Max => wire::EffortLevel::Max,
    }
}

/// Lower a reasoning effort.
pub fn lower_effort(effort: Effort) -> (r: wire::EffortLevel)
    ensures
        r == effort_for(effort),
{
    match effort {
        Effort::Unrequested => wire::EffortLevel::Unset,
        Effort::NoEffort => wire::EffortLevel::NoEffort,
        Effort::Minimal => wire::EffortLevel::Minimal,
        Effort::Low => wire::EffortLevel::Low,
        Effort::Medium => wire::EffortLevel::Medium,
        Effort::High => wire::EffortLevel::High,
        Effort::XHigh => wire::EffortLevel::XHigh,
        Effort::Max => wire::EffortLevel::Max,
    }
}

/// The wire form of a role.
pub open spec fn role_for(role: Role) -> wire::ChatRole {
    match role {
        Role::System => wire::ChatRole::System,
        Role::Developer => wire::ChatRole::Developer,
        Role::User => wire::ChatRole::User,
        Role::Assistant => wire::ChatRole::Assistant,
        Role::Tool => wire::ChatRole::Tool,
    }
}

/// Lower a role.
pub fn lower_role(role: Role) -> (r: wire::ChatRole)
    ensures
        r == role_for(role),
{
    match role {
        Role::System => wire::ChatRole::System,
        Role::Developer => wire::ChatRole::Developer,
        Role::User => wire::ChatRole::User,
        Role::Assistant => wire::ChatRole::Assistant,
        Role::Tool => wire::ChatRole::Tool,
    }
}

/// Whether a wire tool call carries a request's call.
pub open spec fn carries_call(wire_call: wire::ChatToolCall, call: ToolCall) -> bool {
    &&& wire_call.id@ == call.id@
    &&& wire_call.name@ == call.name@
    &&& wire_call.arguments@ == call.arguments@
}

/// Whether a wire turn carries a message: its role, parts, reasoning, calls
/// and answered call, in order.
pub open spec fn carries_turn(turn: wire::ChatTurn, message: Message) -> bool {
    &&& turn.role == role_for(message.role)
    &&& same_texts(turn.parts@, message.parts@)
    &&& turn.reasoning@ == message.reasoning@
    &&& turn.tool_calls@.len() == message.tool_calls@.len()
    &&& forall|i: int|
        0 <= i < turn.tool_calls@.len() ==> carries_call(
            #[trigger] turn.tool_calls@[i],
            message.tool_calls@[i],
        )
    &&& turn.tool_call_id@ == message.tool_call_id@
}

/// Lower one message.
pub fn lower_turn(message: &Message) -> (r: wire::ChatTurn)
    ensures
        carries_turn(r, *message),
{
    let mut calls: Vec<wire::ChatToolCall> = Vec::new();
    let mut i: usize = 0;
    while i < message.tool_calls.len()
        invariant
            i <= message.tool_calls@.len(),
            calls@.len() == i,
            forall|k: int|
                0 <= k < i ==> carries_call(#[trigger] calls@[k], message.tool_calls@[k]),
        decreases message.tool_calls@.len() - i,
    {
        let call = &message.tool_calls[i];
        calls.push(
            wire::ChatToolCall {
                id: call.id.clone(),
                name: call.name.clone(),
                arguments: call.arguments.clone(),
            },
        );
        i = i + 1;
    }
    wire::ChatTurn {
        role: lower_role(message.role),
        parts: copy_texts(message.parts.as_slice()),
        reasoning: message.reasoning.clone(),
        tool_calls: calls,
        tool_call_id: message.tool_call_id.clone(),
    }
}

/// The evidence bits of a marker: 1 for an explicit mark, and 2 for a
/// requested or 4 for a default automatic write.
pub open spec fn evidence_for(marked: Marked, automatic: Automatic) -> u8 {
    let explicit: u8 = match marked {
        Marked::Unmarked => 0,
        Marked::Explicit => 1,
    };
    let written: u8 = match automatic {
        Automatic::Not => 0,
        Automatic::Requested => 2,
        Automatic::Default => 4,
    };
    (explicit + written) as u8
}

/// The wire form of a cache marker: its location and counts from its
/// boundary, and its evidence bits.
pub open spec fn mark_for(marker: CacheMarker) -> wire::CacheMark {
    let (location, count, parts) = match marker.boundary {
        CacheBoundary::LeadingInstruction(bytes) => (
            wire::MarkLocation::LeadingInstruction,
            bytes.0,
            0u32,
        ),
        CacheBoundary::MessagePart { message, parts } => (
            wire::MarkLocation::MessagePart,
            message.0,
            parts.0,
        ),
        CacheBoundary::Message(messages) => (wire::MarkLocation::Message, messages.0, 0u32),
        CacheBoundary::Tool(tools) => (wire::MarkLocation::Tool, tools.0, 0u32),
    };
    wire::CacheMark {
        location,
        count,
        parts,
        evidence: evidence_for(marker.marked, marker.automatic),
    }
}

/// Lower one cache marker to its location, counts and ninfer's evidence
/// bits.
pub fn lower_mark(marker: &CacheMarker) -> (r: wire::CacheMark)
    ensures
        r == mark_for(*marker),
{
    let (location, count, parts) = match marker.boundary {
        CacheBoundary::LeadingInstruction(bytes) => (
            wire::MarkLocation::LeadingInstruction,
            bytes.0,
            0u32,
        ),
        CacheBoundary::MessagePart { message, parts } => (
            wire::MarkLocation::MessagePart,
            message.0,
            parts.0,
        ),
        CacheBoundary::Message(messages) => (wire::MarkLocation::Message, messages.0, 0u32),
        CacheBoundary::Tool(tools) => (wire::MarkLocation::Tool, tools.0, 0u32),
    };
    let explicit: u8 = match marker.marked {
        Marked::Unmarked => 0,
        Marked::Explicit => 1,
    };
    let written: u8 = match marker.automatic {
        Automatic::Not => 0,
        Automatic::Requested => 2,
        Automatic::Default => 4,
    };
    wire::CacheMark { location, count, parts, evidence: explicit + written }
}

/// Lower the request's prompt: the wire prompt carries every turn, tool
/// definition, template argument and choice, in order.
pub fn lower_prompt(prompt: &Prompt) -> (r: wire::ChatPrompt)
    ensures
        r.turns@.len() == prompt.messages@.len(),
        forall|i: int|
            0 <= i < r.turns@.len() ==> carries_turn(#[trigger] r.turns@[i], prompt.messages@[i]),
        same_texts(r.tools@, prompt.tools@),
        r.template_arguments@ == prompt.template_arguments@,
        r.thinking == switch_for(prompt.thinking),
        r.preserve_thinking == switch_for(prompt.preserve_thinking),
        r.effort == effort_for(prompt.effort),
        r.cache_marks@.len() == prompt.cache.markers@.len(),
        forall|i: int|
            0 <= i < r.cache_marks@.len() ==> #[trigger] r.cache_marks@[i] == mark_for(
                prompt.cache.markers@[i],
            ),
        r.structural_prefixes == (prompt.cache.structural == StructuralPrefixes::Allowed),
{
    let mut turns: Vec<wire::ChatTurn> = Vec::new();
    let mut i: usize = 0;
    while i < prompt.messages.len()
        invariant
            i <= prompt.messages@.len(),
            turns@.len() == i,
            forall|k: int| 0 <= k < i ==> carries_turn(#[trigger] turns@[k], prompt.messages@[k]),
        decreases prompt.messages@.len() - i,
    {
        turns.push(lower_turn(&prompt.messages[i]));
        i = i + 1;
    }
    let mut marks: Vec<wire::CacheMark> = Vec::new();
    let mut j: usize = 0;
    while j < prompt.cache.markers.len()
        invariant
            j <= prompt.cache.markers@.len(),
            marks@.len() == j,
            forall|k: int| 0 <= k < j ==> #[trigger] marks@[k] == mark_for(prompt.cache.markers@[k]),
        decreases prompt.cache.markers@.len() - j,
    {
        marks.push(lower_mark(&prompt.cache.markers[j]));
        j = j + 1;
    }
    let structural = match prompt.cache.structural {
        StructuralPrefixes::Allowed => true,
        StructuralPrefixes::Withheld => false,
    };
    wire::ChatPrompt {
        turns,
        tools: copy_texts(prompt.tools.as_slice()),
        template_arguments: prompt.template_arguments.clone(),
        thinking: lower_switch(prompt.thinking),
        preserve_thinking: lower_switch(prompt.preserve_thinking),
        effort: lower_effort(prompt.effort),
        cache_marks: marks,
        structural_prefixes: structural,
    }
}

/// Lower how a request runs, beside its sampling: the output limit, seeds,
/// thinking budget (zero for unlimited), stops and their scope, special
/// tokens, tool-name limit, prefix reuse and delivery, each as the adapter
/// reads it.
pub fn lower_settings(directives: &Directives, delivery: Delivery) -> (r: wire::ChatSettings)
    ensures
        r.output_tokens == directives.output_tokens.0,
        r.seed == directives.seed,
        r.post_thinking_seed_set == (directives.post_thinking_seed is Fixed),
        r.post_thinking_seed == match directives.post_thinking_seed {
            Seed::Inherited => 0u64,
            Seed::Fixed(seed) => seed,
        },
        r.thinking_budget == match directives.thinking_budget {
            ThinkingBudget::Unlimited => 0u32,
            ThinkingBudget::Tokens(tokens) => tokens.view() as u32,
        },
        same_texts(r.stops@, directives.stops@),
        r.stops_end_reasoning == (directives.stop_scope == StopScope::ContentAndReasoning),
        r.preserve_special_tokens == (directives.special_tokens == SpecialTokens::Preserved),
        r.tool_name_limit == directives.tool_name_limit,
        r.prefix_reuse == (directives.prefix_reuse == PrefixReuse::ReadWrite),
        r.streaming == (delivery == Delivery::Streaming),
{
    let (post_thinking_seed, post_thinking_seed_set) = match directives.post_thinking_seed {
        Seed::Inherited => (0u64, false),
        Seed::Fixed(seed) => (seed, true),
    };
    wire::ChatSettings {
        output_tokens: directives.output_tokens.get(),
        seed: directives.seed,
        post_thinking_seed,
        post_thinking_seed_set,
        thinking_budget: match directives.thinking_budget {
            ThinkingBudget::Unlimited => 0,
            ThinkingBudget::Tokens(tokens) => tokens.get(),
        },
        stops: copy_texts(directives.stops.as_slice()),
        stops_end_reasoning: directives.stop_scope == StopScope::ContentAndReasoning,
        preserve_special_tokens: directives.special_tokens == SpecialTokens::Preserved,
        tool_name_limit: directives.tool_name_limit,
        prefix_reuse: directives.prefix_reuse == PrefixReuse::ReadWrite,
        streaming: delivery == Delivery::Streaming,
    }
}

/// The failure kind an adapter outcome that did not complete stands for: a
/// refusal's own class, an invalid argument or an unlisted refusal as an
/// invalid prompt, and anything else as internal.
pub open spec fn failure_kind_for(status: wire::Status, refusal: wire::Refusal) -> FailureKind {
    match status {
        wire::Status::InvalidArgument => FailureKind::InvalidPrompt,
        wire::Status::Refused => match refusal {
            wire::Refusal::ContextLength => FailureKind::ContextLength,
            wire::Refusal::ThinkingBudgetCapacity => FailureKind::ThinkingBudgetCapacity,
            wire::Refusal::Overloaded => FailureKind::Overloaded,
            wire::Refusal::QueueTimeout => FailureKind::QueueTimeout,
            wire::Refusal::Cancelled => FailureKind::Cancelled,
            wire::Refusal::Unavailable => FailureKind::Unavailable,
            _ => FailureKind::InvalidPrompt,
        },
        _ => FailureKind::Internal,
    }
}

/// Classify an adapter outcome as a chat failure: `Ok` exactly for a
/// completed call; otherwise the failure's kind by status and refusal, with
/// ninfer's message.
pub fn classify(outcome: wire::Outcome) -> (r: Result<(), ChatFailure>)
    ensures
        outcome.status == wire::Status::Completed ==> r == Ok::<(), ChatFailure>(()),
        outcome.status != wire::Status::Completed ==> (r matches Err(failure) && failure.kind
            == failure_kind_for(outcome.status, outcome.refusal) && failure.message@
            == outcome.message@),
{
    let kind = match outcome.status {
        wire::Status::Completed => return Ok(()),
        wire::Status::InvalidArgument => FailureKind::InvalidPrompt,
        wire::Status::Refused => match outcome.refusal {
            wire::Refusal::ContextLength => FailureKind::ContextLength,
            wire::Refusal::ThinkingBudgetCapacity => FailureKind::ThinkingBudgetCapacity,
            wire::Refusal::Overloaded => FailureKind::Overloaded,
            wire::Refusal::QueueTimeout => FailureKind::QueueTimeout,
            wire::Refusal::Cancelled => FailureKind::Cancelled,
            wire::Refusal::Unavailable => FailureKind::Unavailable,
            wire::Refusal::NotRefused => FailureKind::InvalidPrompt,
            wire::Refusal::Media => FailureKind::InvalidPrompt,
        },
        wire::Status::Runtime => FailureKind::Internal,
        wire::Status::Unknown => FailureKind::Internal,
    };
    Err(ChatFailure { kind, message: outcome.message })
}

/// The chat finish reason ninfer's report stands for; one the chat contract
/// has no name for is unfinished.
pub open spec fn chat_finish_for(finish: wire::Finish) -> Finish {
    match finish {
        wire::Finish::OutputLimit => Finish::OutputLimit,
        wire::Finish::ContextCapacity => Finish::ContextCapacity,
        wire::Finish::StopToken => Finish::StopToken,
        wire::Finish::StopString => Finish::StopString,
        wire::Finish::Cancelled => Finish::Cancelled,
        _ => Finish::Unfinished,
    }
}

/// Read ninfer's finish reason.
pub fn finish_of(finish: wire::Finish) -> (r: Finish)
    ensures
        r == chat_finish_for(finish),
{
    match finish {
        wire::Finish::OutputLimit => Finish::OutputLimit,
        wire::Finish::ContextCapacity => Finish::ContextCapacity,
        wire::Finish::StopToken => Finish::StopToken,
        wire::Finish::StopString => Finish::StopString,
        wire::Finish::Cancelled => Finish::Cancelled,
        wire::Finish::Unfinished => Finish::Unfinished,
        wire::Finish::Unrecognized => Finish::Unfinished,
    }
}

/// The reuse path the adapter's source stands for.
pub open spec fn reuse_for(source: wire::ReuseSource) -> ReusePath {
    match source {
        wire::ReuseSource::PrivateEndpoint => ReusePath::PrivateEndpoint,
        wire::ReuseSource::TurnClosure => ReusePath::TurnClosure,
        wire::ReuseSource::ResponseReplay => ReusePath::ResponseReplay,
        wire::ReuseSource::LongAnchor => ReusePath::LongAnchor,
        wire::ReuseSource::SharedPrefix => ReusePath::SharedPrefix,
        wire::ReuseSource::Root => ReusePath::Root,
    }
}

/// Read the adapter's reuse source.
pub fn reuse_of(source: wire::ReuseSource) -> (r: ReusePath)
    ensures
        r == reuse_for(source),
{
    match source {
        wire::ReuseSource::PrivateEndpoint => ReusePath::PrivateEndpoint,
        wire::ReuseSource::TurnClosure => ReusePath::TurnClosure,
        wire::ReuseSource::ResponseReplay => ReusePath::ResponseReplay,
        wire::ReuseSource::LongAnchor => ReusePath::LongAnchor,
        wire::ReuseSource::SharedPrefix => ReusePath::SharedPrefix,
        wire::ReuseSource::Root => ReusePath::Root,
    }
}

/// An empty record for the adapter to fill.
pub fn blank_record() -> (r: wire::ChatRecord)
    ensures
        r.content@ == Seq::<char>::empty(),
        r.reasoning@ == Seq::<char>::empty(),
        r.tool_calls@.len() == 0,
        r.finish == wire::Finish::Unrecognized,
        r.generated@.len() == 0,
        r.accepted_per_position@.len() == 0,
        r.reuse == wire::ReuseSource::Root,
        r.prompt_tokens == 0 && r.reused_tokens == 0 && r.reasoning_tokens == 0,
        r.prompt_wall_ns == 0 && r.generation_wall_ns == 0 && r.drafted == 0 && r.accepted == 0,
        r.first_token_ns == 0 && r.total_ns == 0 && r.prefill_ns == 0 && r.decode_ns == 0
            && r.queue_wait_ns == 0,
        r.thinking_budget == 0 && r.thinking_model_tokens == 0 && r.thinking_injected_tokens == 0,
{
    wire::ChatRecord {
        content: String::new(),
        reasoning: String::new(),
        tool_calls: Vec::new(),
        finish: wire::Finish::Unrecognized,
        prompt_tokens: 0,
        reused_tokens: 0,
        generated: Vec::new(),
        reasoning_tokens: 0,
        prompt_wall_ns: 0,
        generation_wall_ns: 0,
        drafted: 0,
        accepted: 0,
        first_token_ns: 0,
        total_ns: 0,
        prefill_ns: 0,
        decode_ns: 0,
        queue_wait_ns: 0,
        reuse: wire::ReuseSource::Root,
        thinking_budget: 0,
        thinking_model_tokens: 0,
        thinking_injected_tokens: 0,
        accepted_per_position: Vec::new(),
    }
}

/// ninfer's name for a KV storage, as its command-line option spells it.
pub open spec fn storage_name(storage: wire::KvStorage) -> Seq<char> {
    match storage {
        wire::KvStorage::Int8 => "int8"@,
        wire::KvStorage::Fp8 => "fp8"@,
        wire::KvStorage::Nvfp4 => "nvfp4"@,
        wire::KvStorage::Fp8KeyNvfp4Value => "k8v4"@,
        wire::KvStorage::BFloat16 => "bf16"@,
    }
}

/// The context cache a capacity record reports: root-only when disabled,
/// whatever its counts read, else every count carried over.
pub open spec fn cache_for(record: wire::CapacityRecord) -> ContextCache {
    if record.cache_enabled {
        ContextCache::Enabled {
            lanes: Tally(record.lanes as u64),
            device_states: Tally(record.device_states as u64),
            host_states: Tally(record.host_states as u64),
            host_kv: ByteSize(record.host_kv_bytes),
            private: Tally(record.private_continuations as u64),
            shared: Tally(record.shared_prefixes as u64),
            anchors: Tally(record.long_anchors as u64),
        }
    } else {
        ContextCache::RootOnly
    }
}

/// The bridge's capacity record in the chat contract's terms: every count
/// carried over, the storage named as its command-line option, the cache
/// root-only when disabled.
pub fn capacity_of(record: &wire::CapacityRecord) -> (r: Capacity)
    ensures
        r.kv_tokens == Tally(record.kv_tokens as u64),
        r.kv_storage@ == storage_name(record.kv_storage),
        r.kv_sizing == (if record.kv_sizing == wire::KvSizing::Automatic {
            KvSizing::Automatic
        } else {
            KvSizing::Explicit
        }),
        r.pages == Tally(record.pages as u64),
        r.max_pages == Tally(record.max_pages as u64),
        r.runtime == ByteSize(record.runtime_bytes),
        r.free == ByteSize(record.free_bytes),
        r.cache == cache_for(*record),
{
    let kv_storage = match record.kv_storage {
        wire::KvStorage::Int8 => "int8",
        wire::KvStorage::Fp8 => "fp8",
        wire::KvStorage::Nvfp4 => "nvfp4",
        wire::KvStorage::Fp8KeyNvfp4Value => "k8v4",
        wire::KvStorage::BFloat16 => "bf16",
    };
    let cache = if record.cache_enabled {
        ContextCache::Enabled {
            lanes: Tally(record.lanes as u64),
            device_states: Tally(record.device_states as u64),
            host_states: Tally(record.host_states as u64),
            host_kv: ByteSize(record.host_kv_bytes),
            private: Tally(record.private_continuations as u64),
            shared: Tally(record.shared_prefixes as u64),
            anchors: Tally(record.long_anchors as u64),
        }
    } else {
        ContextCache::RootOnly
    };
    Capacity {
        kv_tokens: Tally(record.kv_tokens as u64),
        kv_storage: String::from_str(kv_storage),
        kv_sizing: if record.kv_sizing == wire::KvSizing::Automatic {
            KvSizing::Automatic
        } else {
            KvSizing::Explicit
        },
        pages: Tally(record.pages as u64),
        max_pages: Tally(record.max_pages as u64),
        runtime: ByteSize(record.runtime_bytes),
        free: ByteSize(record.free_bytes),
        cache,
    }
}

/// The bridge's counter record in the chat contract's terms: every total and
/// gauge carried over, the host-active time from its nanoseconds.
pub fn counters_of(record: &wire::CounterRecord) -> (r: RuntimeCounters)
    ensures
        r.prefill_tokens == Tally(record.prefill_tokens),
        r.decode_tokens == Tally(record.decode_tokens),
        r.decode_rounds == Tally(record.decode_rounds),
        r.decode_rows == Tally(record.decode_rows),
        r.requests == (RequestGauges {
            running: Tally(record.running as u64),
            prefilling: Tally(record.prefilling as u64),
            decode_ready: Tally(record.decode_ready as u64),
            waiting: Tally(record.waiting as u64),
            materializing: Tally(record.materializing as u64),
            capture_pending: Tally(record.capture_pending as u64),
            terminal_pending: Tally(record.terminal_pending as u64),
        }),
        r.host_active == duration_of_nanos(record.host_active_ns),
        nanos_of(r.host_active) == record.host_active_ns as u128,
        r.digest == CounterDigest(record.digest),
{
    RuntimeCounters {
        prefill_tokens: Tally(record.prefill_tokens),
        decode_tokens: Tally(record.decode_tokens),
        decode_rounds: Tally(record.decode_rounds),
        decode_rows: Tally(record.decode_rows),
        requests: RequestGauges {
            running: Tally(record.running as u64),
            prefilling: Tally(record.prefilling as u64),
            decode_ready: Tally(record.decode_ready as u64),
            waiting: Tally(record.waiting as u64),
            materializing: Tally(record.materializing as u64),
            capture_pending: Tally(record.capture_pending as u64),
            terminal_pending: Tally(record.terminal_pending as u64),
        },
        host_active: duration_from_nanos(record.host_active_ns),
        digest: CounterDigest(record.digest),
    }
}

/// The message of a chat request whose preview failed.
pub open spec fn preview_failure_text() -> Seq<char> {
    "the round preview failed: "@ + "a token count exceeds its 32-bit range"@
}

/// The outcome of a chat request ninfer completed: the record's text, tool
/// calls, ids, accounting and tallies, with its durations from their
/// nanoseconds; or an internal failure when the round preview met one.
pub fn chat_outcome(record: wire::ChatRecord, review: &ReviewSink) -> (r: Result<
    ChatOutcome,
    ChatFailure,
>)
    ensures
        review.spec_failure() is Present ==> (r matches Err(failure) && failure.kind
            == FailureKind::Internal && failure.message@ == preview_failure_text()),
        review.spec_failure() is Absent ==> {
            &&& r matches Ok(outcome)
            &&& outcome.content@ == record.content@
            &&& outcome.reasoning@ == record.reasoning@
            &&& outcome.tool_calls@.len() == record.tool_calls@.len()
            &&& forall|i: int|
                0 <= i < outcome.tool_calls@.len() ==> (#[trigger] outcome.tool_calls@[i]).name@
                    == record.tool_calls@[i].name@ && outcome.tool_calls@[i].arguments@
                    == record.tool_calls@[i].arguments@
            &&& outcome.finish == chat_finish_for(record.finish)
            &&& outcome.admission == (Admission {
                prompt_tokens: TokenCount(record.prompt_tokens),
                reused_tokens: TokenCount(record.reused_tokens),
            })
            &&& outcome.generated@ == offered_ids(record.generated@)
            &&& outcome.reasoning_tokens == TokenCount(record.reasoning_tokens)
            &&& outcome.prompt_wall == duration_of_nanos(record.prompt_wall_ns)
            &&& nanos_of(outcome.prompt_wall) == record.prompt_wall_ns as u128
            &&& outcome.generation_wall == duration_of_nanos(record.generation_wall_ns)
            &&& nanos_of(outcome.generation_wall) == record.generation_wall_ns as u128
            &&& outcome.drafted == Tally(record.drafted)
            &&& outcome.accepted == Tally(record.accepted)
            &&& outcome.telemetry.first_token == duration_of_nanos(record.first_token_ns)
            &&& nanos_of(outcome.telemetry.first_token) == record.first_token_ns as u128
            &&& outcome.telemetry.total == duration_of_nanos(record.total_ns)
            &&& nanos_of(outcome.telemetry.total) == record.total_ns as u128
            &&& outcome.telemetry.prefill == duration_of_nanos(record.prefill_ns)
            &&& nanos_of(outcome.telemetry.prefill) == record.prefill_ns as u128
            &&& outcome.telemetry.decode == duration_of_nanos(record.decode_ns)
            &&& nanos_of(outcome.telemetry.decode) == record.decode_ns as u128
            &&& outcome.telemetry.queue_wait == duration_of_nanos(record.queue_wait_ns)
            &&& nanos_of(outcome.telemetry.queue_wait) == record.queue_wait_ns as u128
            &&& outcome.telemetry.reuse == reuse_for(record.reuse)
            &&& (record.thinking_budget == 0 ==> outcome.telemetry.thinking.budget
                == ThinkingBudget::Unlimited)
            &&& (record.thinking_budget > 0 ==> (outcome.telemetry.thinking.budget matches ThinkingBudget::Tokens(p)
                && p.view() == record.thinking_budget))
            &&& outcome.telemetry.thinking.model_tokens == TokenCount(record.thinking_model_tokens)
            &&& outcome.telemetry.thinking.injected_tokens == TokenCount(
                record.thinking_injected_tokens,
            )
            &&& outcome.telemetry.accepted_per_position@ == record.accepted_per_position@.map_values(
                |n: u64| Tally(n),
            )
        },
{
    if let Maybe::Present(overflow) = review.failure() {
        let mut message = String::from_str("the round preview failed: ");
        let overflow_text = overflow.render();
        message.append(overflow_text.as_str());
        return Err(ChatFailure { kind: FailureKind::Internal, message });
    }
    let mut tool_calls: Vec<GeneratedToolCall> = Vec::new();
    let mut i: usize = 0;
    while i < record.tool_calls.len()
        invariant
            i <= record.tool_calls@.len(),
            tool_calls@.len() == i,
            forall|k: int|
                0 <= k < i ==> (#[trigger] tool_calls@[k]).name@ == record.tool_calls@[k].name@
                    && tool_calls@[k].arguments@ == record.tool_calls@[k].arguments@,
        decreases record.tool_calls@.len() - i,
    {
        let call = &record.tool_calls[i];
        tool_calls.push(
            GeneratedToolCall { name: call.name.clone(), arguments: call.arguments.clone() },
        );
        i = i + 1;
    }
    let mut generated: Vec<TokenId> = Vec::new();
    let mut j: usize = 0;
    while j < record.generated.len()
        invariant
            j <= record.generated@.len(),
            generated@ == offered_ids(record.generated@).take(j as int),
        decreases record.generated@.len() - j,
    {
        generated.push(TokenId::from(record.generated[j]));
        j = j + 1;
        assert(offered_ids(record.generated@).take(j as int) == offered_ids(
            record.generated@,
        ).take((j - 1) as int).push(TokenId(record.generated@[j - 1])));
    }
    assert(generated@ == offered_ids(record.generated@));
    let mut per_position: Vec<Tally> = Vec::new();
    let mut k: usize = 0;
    while k < record.accepted_per_position.len()
        invariant
            k <= record.accepted_per_position@.len(),
            per_position@ == record.accepted_per_position@.map_values(|n: u64| Tally(n)).take(
                k as int,
            ),
        decreases record.accepted_per_position@.len() - k,
    {
        per_position.push(Tally(record.accepted_per_position[k]));
        k = k + 1;
        assert(record.accepted_per_position@.map_values(|n: u64| Tally(n)).take(k as int)
            == record.accepted_per_position@.map_values(|n: u64| Tally(n)).take(
            (k - 1) as int,
        ).push(Tally(record.accepted_per_position@[k - 1])));
    }
    assert(per_position@ == record.accepted_per_position@.map_values(|n: u64| Tally(n)));
    Ok(
        ChatOutcome {
            content: record.content,
            reasoning: record.reasoning,
            tool_calls,
            finish: finish_of(record.finish),
            admission: Admission {
                prompt_tokens: TokenCount::from(record.prompt_tokens),
                reused_tokens: TokenCount::from(record.reused_tokens),
            },
            generated,
            reasoning_tokens: TokenCount::from(record.reasoning_tokens),
            prompt_wall: duration_from_nanos(record.prompt_wall_ns),
            generation_wall: duration_from_nanos(record.generation_wall_ns),
            drafted: Tally(record.drafted),
            accepted: Tally(record.accepted),
            telemetry: Telemetry {
                first_token: duration_from_nanos(record.first_token_ns),
                total: duration_from_nanos(record.total_ns),
                prefill: duration_from_nanos(record.prefill_ns),
                decode: duration_from_nanos(record.decode_ns),
                queue_wait: duration_from_nanos(record.queue_wait_ns),
                reuse: reuse_of(record.reuse),
                thinking: ThinkingSpend {
                    budget: thinking_budget_of(record.thinking_budget),
                    model_tokens: TokenCount::from(record.thinking_model_tokens),
                    injected_tokens: TokenCount::from(record.thinking_injected_tokens),
                },
                accepted_per_position: per_position,
            },
        },
    )
}

} // verus!
