//! What a chat request asks for: the conversation and the prompt options.
//! The sampling settings, which are floating point, stay with the serving
//! surface.
use vstd::prelude::*;
use crate::numeral::Positive;

verus! {

/// Who wrote a turn.
#[derive(Debug, Clone, Copy, PartialEq, Eq, Structural, Hash)]
pub enum Role {
    /// A system instruction.
    System,
    /// A developer instruction.
    Developer,
    /// The user.
    User,
    /// The model.
    Assistant,
    /// A tool's result.
    Tool,
}

/// One tool call an assistant turn made.
#[derive(Debug, Clone, PartialEq, Eq)]
pub struct ToolCall {
    /// The call's wire identity, which a later tool turn answers.
    pub id: String,
    /// The called function's name.
    pub name: String,
    /// The call's arguments, as the JSON text the model wrote.
    pub arguments: String,
}

/// One turn of the conversation.
#[derive(Debug, Clone, PartialEq, Eq)]
pub struct Message {
    /// Who wrote it.
    pub role: Role,
    /// Its text parts, in order.
    pub parts: Vec<String>,
    /// The reasoning an assistant turn carried; empty for every other role.
    pub reasoning: String,
    /// The calls an assistant turn made; empty for every other role.
    pub tool_calls: Vec<ToolCall>,
    /// The call a tool turn answers; empty for every other role.
    pub tool_call_id: String,
}

/// A chat-template switch the request set or left to the model.
#[derive(Debug, Clone, Copy, PartialEq, Eq, Structural, Hash)]
pub enum Switch {
    /// Unset: the template's own default applies.
    ModelDefault,
    /// Set on.
    On,
    /// Set off.
    Off,
}

/// The reasoning effort a request asked for.
#[derive(Debug, Clone, Copy, PartialEq, Eq, Structural, Hash)]
pub enum Effort {
    /// The request named no effort.
    Unrequested,
    /// No reasoning.
    NoEffort,
    /// Minimal reasoning.
    Minimal,
    /// Low reasoning.
    Low,
    /// Medium reasoning.
    Medium,
    /// High reasoning.
    High,
    /// Extra-high reasoning.
    XHigh,
    /// The most reasoning.
    Max,
}

/// Where a prompt-cache marker sits in the prompt.
#[derive(Debug, Clone, Copy, PartialEq, Eq, Structural, Hash)]
pub enum CacheBoundary {
    /// After this many bytes of the leading system or developer message's
    /// text.
    LeadingInstruction(InstructionBytes),
    /// After this many parts of the message at this one-based position.
    MessagePart {
        /// The message's one-based position.
        message: Count,
        /// The parts before the boundary.
        parts: Count,
    },
    /// After this many messages.
    Message(Count),
    /// After this many tool definitions.
    Tool(Count),
}

/// A byte count within the leading instruction.
#[derive(Debug, Clone, Copy, PartialEq, Eq, Structural, Hash)]
pub struct InstructionBytes(pub u32);

/// A count of messages, parts or tools; a count of messages also names the
/// last one's one-based position.
#[derive(Debug, Clone, Copy, PartialEq, Eq, Structural, Hash)]
pub struct Count(pub u32);

/// Whether a client marked a boundary explicitly.
#[derive(Debug, Clone, Copy, PartialEq, Eq, Structural, Hash)]
pub enum Marked {
    /// No explicit breakpoint.
    Unmarked,
    /// An explicit breakpoint.
    Explicit,
}

/// Whether a boundary is the request's automatic cache write, and on whose
/// word.
#[derive(Debug, Clone, Copy, PartialEq, Eq, Structural, Hash)]
pub enum Automatic {
    /// Not the automatic write.
    Not,
    /// The protocol's default automatic write.
    Default,
    /// An automatic write the client asked for.
    Requested,
}

/// A boundary at which the backend may publish the prompt prefix for reuse
/// by later requests, and why.
#[derive(Debug, Clone, Copy, PartialEq, Eq, Structural, Hash)]
pub struct CacheMarker {
    /// Where it sits.
    pub boundary: CacheBoundary,
    /// Whether the client marked it.
    pub marked: Marked,
    /// Whether it is the automatic write.
    pub automatic: Automatic,
}

/// Whether the backend may also choose shared prefixes from the prompt's
/// structure.
#[derive(Debug, Clone, Copy, PartialEq, Eq, Structural, Hash)]
pub enum StructuralPrefixes {
    /// It may.
    Allowed,
    /// Only the markers name shared prefixes, as a protocol with its own
    /// write policy requires.
    Withheld,
}

/// The prompt's cache hints.
#[derive(Debug, Clone, PartialEq, Eq)]
pub struct PromptCache {
    /// The marked boundaries, in the order the backend lowers them.
    pub markers: Vec<CacheMarker>,
    /// Whether the backend may add structural shared prefixes.
    pub structural: StructuralPrefixes,
}

/// What the prompt renders from.
#[derive(Debug, Clone, PartialEq, Eq)]
pub struct Prompt {
    /// The conversation, in order.
    pub messages: Vec<Message>,
    /// Each offered tool's definition, as a JSON object's text, in order.
    pub tools: Vec<String>,
    /// Extra chat-template arguments, as a JSON object's text.
    pub template_arguments: String,
    /// Whether the assistant turn opens in thinking.
    pub thinking: Switch,
    /// Whether closed turns keep their reasoning in the prompt.
    pub preserve_thinking: Switch,
    /// The reasoning effort asked for.
    pub effort: Effort,
    /// Where the prompt may be published for reuse.
    pub cache: PromptCache,
}

/// A sampling field the request set or left to the model's default for the
/// phase.
#[derive(Debug, Clone, Copy, PartialEq, Eq, Structural)]
pub enum Setting<Value> {
    /// Unset: the model's default for the phase applies.
    ModelDefault,
    /// Set to this value.
    Given(Value),
}

/// The seed a later phase samples with.
#[derive(Debug, Clone, Copy, PartialEq, Eq, Structural, Hash)]
pub enum Seed {
    /// The request's initial seed.
    Inherited,
    /// This seed.
    Fixed(u64),
}

/// The most model-origin tokens thinking may spend.
#[derive(Debug, Clone, Copy, PartialEq, Eq, Structural, Hash)]
pub enum ThinkingBudget {
    /// Thinking runs until the model closes it or the output limit binds.
    Unlimited,
    /// Thinking closes after this many tokens.
    Tokens(Positive),
}

/// Which output channels a stop string ends.
#[derive(Debug, Clone, Copy, PartialEq, Eq, Structural, Hash)]
pub enum StopScope {
    /// Content only.
    Content,
    /// Content and reasoning.
    ContentAndReasoning,
}

/// Whether special tokens survive into the rendered output.
#[derive(Debug, Clone, Copy, PartialEq, Eq, Structural, Hash)]
pub enum SpecialTokens {
    /// Removed.
    Trimmed,
    /// Kept, as tool-call parsing needs.
    Preserved,
}

/// Whether the request may reuse and publish cached prefixes.
#[derive(Debug, Clone, Copy, PartialEq, Eq, Structural, Hash)]
pub enum PrefixReuse {
    /// Read and write the prefix cache.
    ReadWrite,
    /// Neither read nor write it.
    Disabled,
}

/// How the backend delivers output.
#[derive(Debug, Clone, Copy, PartialEq, Eq, Structural, Hash)]
pub enum Delivery {
    /// Only the terminal outcome.
    Aggregate,
    /// Admission and every text delta as it commits, then the outcome.
    Streaming,
}

} // verus!
