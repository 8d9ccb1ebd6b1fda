//! The Engine boundary's wire shapes, in the primitives the C++ adapter
//! reads. The host side fills and reads these; [`crate::ninfer::session`] and
//! [`crate::ninfer::chat`] wrap every one of them before it reaches a caller.
use vstd::prelude::*;

verus! {

/// How an adapter call ended.
#[derive(Debug, Clone, Copy, PartialEq, Eq, Structural)]
pub enum Status {
    /// The call succeeded.
    Completed,
    /// ninfer threw `std::invalid_argument`.
    InvalidArgument,
    /// ninfer refused the request, for the outcome's refusal.
    Refused,
    /// ninfer threw another `std::exception`.
    Runtime,
    /// ninfer threw something that is not a `std::exception`.
    Unknown,
}

/// Why ninfer refused a request.
#[derive(Debug, Clone, Copy, PartialEq, Eq, Structural)]
pub enum Refusal {
    /// No refusal.
    NotRefused,
    /// The prompt does not fit the context ceiling.
    ContextLength,
    /// The thinking budget leaves no room for its closing tokens.
    ThinkingBudgetCapacity,
    /// The queue is full.
    Overloaded,
    /// The request waited past its pending deadline.
    QueueTimeout,
    /// The request was cancelled before admission.
    Cancelled,
    /// The engine is not serving.
    Unavailable,
    /// The prompt carries media the engine does not take.
    Media,
}

/// An adapter call's status and, on failure, ninfer's refusal and message.
#[derive(Debug, Clone, PartialEq, Eq)]
pub struct Outcome {
    /// How the call ended.
    pub status: Status,
    /// Why ninfer refused, under `Refused`.
    pub refusal: Refusal,
    /// ninfer's message, empty on success.
    pub message: String,
}

/// Why a generation ended, as ninfer reports it.
#[derive(Debug, Clone, Copy, PartialEq, Eq, Structural)]
pub enum Finish {
    /// ninfer reported no reason.
    Unfinished,
    /// The output budget, or a round verdict's limit, was reached.
    OutputLimit,
    /// The context ceiling was reached.
    ContextCapacity,
    /// A stop token was generated.
    StopToken,
    /// A stop string was generated.
    StopString,
    /// The request was cancelled.
    Cancelled,
    /// A reason the adapter does not know.
    Unrecognized,
}

/// What one generation produced and how its speculation went.
#[derive(Debug, Clone, PartialEq, Eq)]
pub struct GenerationRecord {
    /// The generated ids.
    pub generated: Vec<i32>,
    /// Why it ended.
    pub finish: Finish,
    /// Speculative rounds run.
    pub decode_rounds: u64,
    /// Tokens drafted over all rounds.
    pub drafted: u64,
    /// Drafted tokens accepted.
    pub accepted: u64,
    /// Steps that fell back to plain decode.
    pub fallback_steps: u64,
    /// Wall time from the first to the last generated token, in nanoseconds.
    pub generation_wall_ns: u64,
}

/// Which kind of round an offer comes from.
#[derive(Debug, Clone, Copy, PartialEq, Eq, Structural)]
pub enum RoundKind {
    /// A decode round.
    Decode,
    /// Prefill finalization.
    PrefillFinalization,
}

/// The preview's decision, as the adapter reads it.
#[derive(Debug, Clone, Copy, PartialEq, Eq, Structural)]
pub enum Verdict {
    /// Leave the round to the output policy.
    Continue,
    /// Keep at most `limit` licensed tokens.
    Limit,
}

/// The preview's answer for one round.
#[derive(Debug, Clone, Copy, PartialEq, Eq, Structural)]
pub struct ReviewAnswer {
    /// The decision.
    pub verdict: Verdict,
    /// The limit under `Limit`, at least one; zero otherwise.
    pub limit: u32,
}

/// The KV storage format the Engine resolved.
#[derive(Debug, Clone, Copy, PartialEq, Eq, Structural)]
pub enum KvStorage {
    /// bfloat16.
    BFloat16,
    /// 8-bit integers.
    Int8,
    /// 8-bit floats.
    Fp8,
    /// 4-bit NVFP4.
    Nvfp4,
    /// 8-bit float keys and NVFP4 values.
    Fp8KeyNvfp4Value,
}

/// How the Engine sized its KV capacity.
#[derive(Debug, Clone, Copy, PartialEq, Eq, Structural)]
pub enum KvSizing {
    /// As configured.
    Explicit,
    /// From device memory.
    Automatic,
}

/// The capacities the Engine resolved when it opened.
#[derive(Debug, Clone, Copy, PartialEq, Eq, Structural)]
pub struct CapacityRecord {
    /// Main KV capacity in tokens.
    pub kv_tokens: u32,
    /// The KV storage format.
    pub kv_storage: KvStorage,
    /// How the KV capacity was sized.
    pub kv_sizing: KvSizing,
    /// KV page groups in use.
    pub pages: u32,
    /// KV page groups at most.
    pub max_pages: u32,
    /// The runtime reservation in bytes.
    pub runtime_bytes: u64,
    /// Device memory free after startup, in bytes.
    pub free_bytes: u64,
    /// Whether the context cache is enabled.
    pub cache_enabled: bool,
    /// Active lanes.
    pub lanes: u32,
    /// Device checkpoint slots beyond the lanes.
    pub device_states: u32,
    /// Host checkpoint slots.
    pub host_states: u32,
    /// Host KV capacity in bytes.
    pub host_kv_bytes: u64,
    /// Private continuations.
    pub private_continuations: u32,
    /// Shared prefixes.
    pub shared_prefixes: u32,
    /// Long anchors per continuation.
    pub long_anchors: u32,
}

/// The Engine's running counters.
#[derive(Debug, Clone, Copy, PartialEq, Eq, Structural)]
pub struct CounterRecord {
    /// Prompt tokens prefill evaluated.
    pub prefill_tokens: u64,
    /// Tokens decode rounds committed.
    pub decode_tokens: u64,
    /// Decode batches run.
    pub decode_rounds: u64,
    /// Rows over every decode batch.
    pub decode_rows: u64,
    /// Requests running.
    pub running: u32,
    /// Requests prefilling.
    pub prefilling: u32,
    /// Requests ready to decode.
    pub decode_ready: u32,
    /// Requests waiting for admission.
    pub waiting: u32,
    /// Requests materializing a cached prefix.
    pub materializing: u32,
    /// Requests waiting on a capture.
    pub capture_pending: u32,
    /// Requests awaiting their terminal record.
    pub terminal_pending: u32,
    /// Host time spent active, in nanoseconds.
    pub host_active_ns: u64,
    /// A digest of every other counter.
    pub digest: u64,
}

/// Where a cache mark sits.
#[derive(Debug, Clone, Copy, PartialEq, Eq, Structural)]
pub enum MarkLocation {
    /// Within the leading instruction.
    LeadingInstruction,
    /// After some parts of one message.
    MessagePart,
    /// After some messages.
    Message,
    /// After some tool definitions.
    Tool,
}

/// One cache mark: its location, its counts, and ninfer's evidence bits.
#[derive(Debug, Clone, Copy, PartialEq, Eq, Structural)]
pub struct CacheMark {
    /// Where it sits.
    pub location: MarkLocation,
    /// The bytes, the message's position, the messages or the tools.
    pub count: u32,
    /// The parts before the boundary, for a message-part mark.
    pub parts: u32,
    /// Bit 1 for an explicit mark, bit 2 for a requested and bit 4 for a
    /// default automatic write.
    pub evidence: u8,
}

/// Where an admitted prompt's reused prefix came from.
#[derive(Debug, Clone, Copy, PartialEq, Eq, Structural)]
pub enum ReuseSource {
    /// The root.
    Root,
    /// The end of a private continuation.
    PrivateEndpoint,
    /// A private continuation's closed turn.
    TurnClosure,
    /// A replayed private response.
    ResponseReplay,
    /// A private long anchor.
    LongAnchor,
    /// A shared stable prefix.
    SharedPrefix,
}

/// A template switch as the adapter reads it.
#[derive(Debug, Clone, Copy, PartialEq, Eq, Structural)]
pub enum TemplateSwitch {
    /// Left to the template.
    Unset,
    /// On.
    On,
    /// Off.
    Off,
}

/// A reasoning effort as the adapter reads it.
#[derive(Debug, Clone, Copy, PartialEq, Eq, Structural)]
pub enum EffortLevel {
    /// None requested.
    Unset,
    /// No reasoning.
    NoEffort,
    /// Minimal.
    Minimal,
    /// Low.
    Low,
    /// Medium.
    Medium,
    /// High.
    High,
    /// Extra high.
    XHigh,
    /// The most.
    Max,
}

/// Who wrote a turn, as the adapter reads it.
#[derive(Debug, Clone, Copy, PartialEq, Eq, Structural)]
pub enum ChatRole {
    /// A system instruction.
    System,
    /// A developer instruction.
    Developer,
    /// The user.
    User,
    /// The model.
    Assistant,
    /// A tool's result.
    Tool,
}

/// One tool call of a turn.
#[derive(Debug, Clone, PartialEq, Eq)]
pub struct ChatToolCall {
    /// The call's identity.
    pub id: String,
    /// The function's name.
    pub name: String,
    /// The arguments' JSON text.
    pub arguments: String,
}

/// One turn of the conversation.
#[derive(Debug, Clone, PartialEq, Eq)]
pub struct ChatTurn {
    /// Who wrote it.
    pub role: ChatRole,
    /// Its text parts.
    pub parts: Vec<String>,
    /// Its reasoning.
    pub reasoning: String,
    /// Its tool calls.
    pub tool_calls: Vec<ChatToolCall>,
    /// The call it answers.
    pub tool_call_id: String,
}

/// The prompt as the adapter renders it.
#[derive(Debug, Clone, PartialEq, Eq)]
pub struct ChatPrompt {
    /// The turns, in order.
    pub turns: Vec<ChatTurn>,
    /// The tool definitions' JSON text, in order.
    pub tools: Vec<String>,
    /// Extra template arguments' JSON text.
    pub template_arguments: String,
    /// Whether the turn opens in thinking.
    pub thinking: TemplateSwitch,
    /// Whether closed turns keep their reasoning.
    pub preserve_thinking: TemplateSwitch,
    /// The reasoning effort.
    pub effort: EffortLevel,
    /// The cache marks, in order.
    pub cache_marks: Vec<CacheMark>,
    /// Whether structural shared prefixes are allowed.
    pub structural_prefixes: bool,
}

/// How the adapter runs a chat request, beside its sampling fields.
#[derive(Debug, Clone, PartialEq, Eq)]
pub struct ChatSettings {
    /// The most tokens to generate.
    pub output_tokens: u32,
    /// The initial seed.
    pub seed: u64,
    /// The seed after thinking closes, when `post_thinking_seed_set`.
    pub post_thinking_seed: u64,
    /// Whether the request fixed the post-thinking seed.
    pub post_thinking_seed_set: bool,
    /// The thinking budget; zero is unlimited.
    pub thinking_budget: u32,
    /// The stop strings, in order.
    pub stops: Vec<String>,
    /// Whether a stop string also ends reasoning.
    pub stops_end_reasoning: bool,
    /// Whether special tokens survive into the output.
    pub preserve_special_tokens: bool,
    /// The longest function name accepted.
    pub tool_name_limit: u32,
    /// Whether the prefix cache is read and written.
    pub prefix_reuse: bool,
    /// Whether deltas are published as they commit.
    pub streaming: bool,
}

/// The channel of committed text.
#[derive(Debug, Clone, Copy, PartialEq, Eq, Structural)]
pub enum DeltaChannel {
    /// The answer.
    Content,
    /// Thinking.
    Reasoning,
}

/// A tool call the model generated.
#[derive(Debug, Clone, PartialEq, Eq)]
pub struct GeneratedCall {
    /// The function's name.
    pub name: String,
    /// The arguments' JSON text.
    pub arguments: String,
}

/// What one chat request produced, as the adapter records it.
#[derive(Debug, Clone, PartialEq, Eq)]
pub struct ChatRecord {
    /// The answer text.
    pub content: String,
    /// The thinking text.
    pub reasoning: String,
    /// The generated tool calls.
    pub tool_calls: Vec<GeneratedCall>,
    /// Why generation ended.
    pub finish: Finish,
    /// Tokens in the rendered prompt.
    pub prompt_tokens: u32,
    /// Prompt tokens served from a cached prefix.
    pub reused_tokens: u32,
    /// Every generated id.
    pub generated: Vec<i32>,
    /// Generated tokens of thinking.
    pub reasoning_tokens: u32,
    /// From admission to the first output token, in nanoseconds.
    pub prompt_wall_ns: u64,
    /// From the first to the last output token, in nanoseconds.
    pub generation_wall_ns: u64,
    /// Tokens drafted.
    pub drafted: u64,
    /// Drafted tokens accepted.
    pub accepted: u64,
    /// From arrival to the first output token, in nanoseconds.
    pub first_token_ns: u64,
    /// From arrival to the end, in nanoseconds.
    pub total_ns: u64,
    /// Prefill execution, in nanoseconds.
    pub prefill_ns: u64,
    /// Decode execution, in nanoseconds.
    pub decode_ns: u64,
    /// Waiting for admission, in nanoseconds.
    pub queue_wait_ns: u64,
    /// Where the reused prefix came from.
    pub reuse: ReuseSource,
    /// The thinking budget, zero for unlimited.
    pub thinking_budget: u32,
    /// Model tokens spent in budgeted thinking.
    pub thinking_model_tokens: u32,
    /// Control tokens injected to close thinking.
    pub thinking_injected_tokens: u32,
    /// Drafted tokens accepted at each position.
    pub accepted_per_position: Vec<u64>,
}

} // verus!
