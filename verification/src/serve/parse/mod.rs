//! `OpenAI` Chat Completions request bodies, validated and read as a
//! chat request. Both follow ninfer's server field for
//! field, so the same body renders the same prompt and runs the same request
//! on either server, and a body one refuses the other refuses with the same
//! parameter and code.
pub mod read;
pub mod refuse;
pub mod hints;
pub mod tools;
pub mod turns;
pub mod choices;
pub mod cache;
pub mod writes;

use vstd::prelude::*;
use vstd::string::*;
use crate::chat::request::Delivery;
use crate::chat::request::Effort;
use crate::chat::request::Marked;
use crate::chat::request::Message;
use crate::chat::request::PrefixReuse;
use crate::chat::request::Prompt;
use crate::chat::request::Role;
use crate::chat::request::Seed;
use crate::chat::request::SpecialTokens;
use crate::chat::request::StopScope;
use crate::chat::request::Switch;
use crate::chat::request::ThinkingBudget;
use crate::round::token::TokenCount;
use crate::serve::error::ApiError;
use crate::serve::error::Why;
use crate::serve::error::refused_as;
use crate::serve::server::ModelId;
use crate::serve::value::Json;
use crate::serve::value::well_keyed;
use crate::serve::value::field;
use crate::serve::value::field_of;
use crate::serve::value::lookup;
use crate::serve::value::member;
use crate::serve::value::string_at;
use crate::serve::value::string_member;
use crate::serve::parse::cache::MarkView;
use crate::serve::parse::cache::mark_views;
use crate::serve::parse::cache::prompt_cache;
use crate::serve::parse::cache::prompt_cache_of;
use crate::serve::parse::cache::turn_views;
use crate::serve::parse::choices::choices_of;
use crate::serve::parse::choices::output_tokens;
use crate::serve::parse::choices::output_tokens_of;
use crate::serve::parse::choices::template_choices;
use crate::serve::parse::hints::AutomaticWrite;
use crate::serve::parse::hints::cache_policy;
use crate::serve::parse::hints::cache_policy_of;
use crate::serve::parse::read::Flag;
use crate::serve::parse::read::boolean;
use crate::serve::parse::read::flag_of;
use crate::serve::parse::read::integer;
use crate::serve::parse::read::integer_of;
use crate::serve::parse::read::not_boolean;
use crate::serve::parse::read::seed;
use crate::serve::parse::read::seed_of;
use crate::serve::parse::refuse::refuse_unsupported;
use crate::serve::parse::refuse::unsupported_refusal;
use crate::serve::parse::tools::Tool;
use crate::serve::parse::tools::ToolUse;
use crate::serve::parse::tools::choice_of;
use crate::serve::parse::tools::stops;
use crate::serve::parse::tools::stops_of;
use crate::serve::parse::tools::tool_choice;
use crate::serve::parse::tools::tool_views;
use crate::serve::parse::tools::tools;
use crate::serve::parse::tools::tools_of;
use crate::serve::parse::turns::CallView;
use crate::serve::parse::turns::Turn;
use crate::serve::parse::turns::TurnView;
use crate::serve::parse::turns::call_views;
use crate::serve::parse::turns::message;
use crate::serve::parse::turns::turn_of;

verus! {

/// Whether a stream carries a final usage chunk.
#[derive(Debug, Clone, Copy, PartialEq, Eq, Structural)]
pub enum Usage {
    /// No usage chunk; the finish chunk carries the timings.
    Omitted,
    /// A usage chunk after the finish chunk.
    Included,
}

/// A fresh seed for a request that names none.
#[derive(Debug, Clone, Copy, PartialEq, Eq, Structural)]
pub struct FreshSeed(pub u64);

/// Server-side settings a request falls back on.
#[derive(Debug, Clone, Copy, PartialEq, Eq, Structural)]
pub struct Defaults {
    /// Output tokens when the request names none.
    pub output_tokens: TokenCount,
    /// The thinking budget of a request that does not turn thinking off.
    pub thinking_budget: ThinkingBudget,
}

/// The longest function name the chat surface accepts.
pub const TOOL_NAME_LIMIT: u32 = 64;

/// The verdicts on the sampling fields of the body's top level and of its
/// `post_thinking` object, which read the fields as doubles; the second is
/// consulted only when `post_thinking` is an object.
pub struct SamplingChecks {
    /// The top level's fields.
    pub initial: Result<(), ApiError>,
    /// The `post_thinking` object's fields.
    pub post_thinking: Result<(), ApiError>,
}

/// How a request is run, beside its sampling settings.
#[derive(Debug, Clone, PartialEq, Eq)]
pub struct Directives {
    /// The most tokens to generate.
    pub output_tokens: TokenCount,
    /// The initial seed.
    pub seed: u64,
    /// The seed of the answer after thinking closes.
    pub post_thinking_seed: Seed,
    /// The most tokens thinking may spend.
    pub thinking_budget: ThinkingBudget,
    /// The stop strings, in order.
    pub stops: Vec<String>,
    /// Which channels a stop string ends.
    pub stop_scope: StopScope,
    /// Whether special tokens survive into the output.
    pub special_tokens: SpecialTokens,
    /// The longest function name accepted.
    pub tool_name_limit: u32,
    /// Whether the request may reuse and publish cached prefixes.
    pub prefix_reuse: PrefixReuse,
}

/// What a parsed body asks the server for.
#[derive(Debug, Clone, PartialEq, Eq)]
pub struct ParsedChat {
    /// The requested model id.
    pub model: ModelId,
    /// Whether to stream.
    pub delivery: Delivery,
    /// Whether a streamed response ends with a usage chunk.
    pub include_usage: Usage,
    /// What the prompt renders from.
    pub prompt: Prompt,
    /// How the request runs, beside sampling.
    pub directives: Directives,
}

/// A chat message as its role, parts, reasoning, calls and answered call.
pub type MessageView = (Role, Seq<Seq<char>>, Seq<char>, Seq<CallView>, Seq<char>);

/// The view of a message.
pub open spec fn message_view(m: Message) -> MessageView {
    (m.role, m.parts@.map_values(|p: String| p@), m.reasoning@, call_views(m.tool_calls@), m.tool_call_id@)
}

/// The message a turn becomes: its breakpoints left beside it.
pub open spec fn turn_message(turn: TurnView) -> MessageView {
    (turn.0, turn.1.map_values(|p: (Seq<char>, Marked)| p.0), turn.2, turn.3, turn.4)
}

/// A parsed body, as values.
pub struct ChatView {
    /// The requested model id.
    pub model: Seq<char>,
    /// Whether to stream.
    pub delivery: Delivery,
    /// Whether a streamed response ends with a usage chunk.
    pub usage: Usage,
    /// The conversation.
    pub messages: Seq<MessageView>,
    /// The offered tools' definitions.
    pub tools: Seq<Seq<char>>,
    /// The remaining template arguments' JSON text.
    pub template_arguments: Seq<char>,
    /// Whether the assistant turn opens in thinking.
    pub thinking: Switch,
    /// Whether closed turns keep their reasoning.
    pub preserve_thinking: Switch,
    /// The reasoning effort.
    pub effort: Effort,
    /// The cache markers.
    pub marks: Seq<MarkView>,
    /// The most tokens to generate.
    pub output_tokens: TokenCount,
    /// The initial seed.
    pub seed: u64,
    /// The seed after thinking.
    pub post_thinking_seed: Seed,
    /// The thinking budget.
    pub thinking_budget: ThinkingBudget,
    /// The stop strings.
    pub stops: Seq<Seq<char>>,
    /// Which channels a stop ends.
    pub stop_scope: StopScope,
    /// Whether special tokens survive.
    pub special_tokens: SpecialTokens,
}

/// The view of a parsed body.
pub open spec fn parsed_view(parsed: ParsedChat) -> ChatView {
    ChatView {
        model: parsed.model.0@,
        delivery: parsed.delivery,
        usage: parsed.include_usage,
        messages: parsed.prompt.messages@.map_values(|m: Message| message_view(m)),
        tools: parsed.prompt.tools@.map_values(|t: String| t@),
        template_arguments: parsed.prompt.template_arguments@,
        thinking: parsed.prompt.thinking,
        preserve_thinking: parsed.prompt.preserve_thinking,
        effort: parsed.prompt.effort,
        marks: mark_views(parsed.prompt.cache.markers@),
        output_tokens: parsed.directives.output_tokens,
        seed: parsed.directives.seed,
        post_thinking_seed: parsed.directives.post_thinking_seed,
        thinking_budget: parsed.directives.thinking_budget,
        stops: parsed.directives.stops@.map_values(|t: String| t@),
        stop_scope: parsed.directives.stop_scope,
        special_tokens: parsed.directives.special_tokens,
    }
}

/// Why a body is refused: ninfer's refusal, or a sampling verdict passed on.
pub enum Denial {
    /// This refusal.
    Refused(Why),
    /// The sampling verdict's error.
    Passed(ApiError),
}

/// Whether `error` is the denial.
pub open spec fn denies(error: ApiError, denial: Denial) -> bool {
    match denial {
        Denial::Refused(why) => refused_as(error, why),
        Denial::Passed(given) => error == given,
    }
}

/// The turns of `messages`, or the first turn's refusal.
pub open spec fn turns_in(values: Seq<Json>) -> Result<Seq<TurnView>, Why>
    decreases values.len(),
{
    if values.len() == 0 {
        Ok(Seq::empty())
    } else {
        match turns_in(values.drop_last()) {
            Err(why) => Err(why),
            Ok(earlier) => match turn_of(values.last(), (values.len() - 1) as nat) {
                Err(why) => Err(why),
                Ok(turn) => Ok(earlier.push(turn)),
            },
        }
    }
}

/// A refusal among the first `j` turns is the refusal of them all.
pub proof fn lemma_turns_in_refused(values: Seq<Json>, j: int)
    requires
        0 <= j <= values.len(),
        turns_in(values.take(j)) is Err,
    ensures
        turns_in(values) == turns_in(values.take(j)),
    decreases values.len(),
{
    if j == values.len() {
        assert(values.take(j) == values);
    } else {
        assert(values.drop_last().take(j) == values.take(j));
        lemma_turns_in_refused(values.drop_last(), j);
    }
}

/// The requested model: a non-empty string.
pub open spec fn model_of(body: Seq<(String, Json)>) -> Result<Seq<char>, Why> {
    match string_member(body, "model"@) {
        Some(name) => if name.len() > 0 {
            Ok(name)
        } else {
            Err(("missing required field: model"@, "model"@, ""@))
        },
        None => Err(("missing required field: model"@, "model"@, ""@)),
    }
}

/// The `messages` array: present, an array, not empty.
pub open spec fn messages_of(body: Seq<(String, Json)>) -> Result<Seq<Json>, Why> {
    match lookup(body, "messages"@) {
        None => Err(("missing required field: messages"@, "messages"@, ""@)),
        Some(Json::Array(list)) => if list@.len() > 0 {
            Ok(list@)
        } else {
            Err(("messages must be a non-empty array"@, "messages"@, ""@))
        },
        Some(_) => Err(("messages must be a non-empty array"@, "messages"@, ""@)),
    }
}

/// The refusal of `parallel_tool_calls=false` while tools are offered.
pub open spec fn parallel_refusal(body: Seq<(String, Json)>, offered: bool) -> Option<Why> {
    match flag_of(body, "parallel_tool_calls"@, not_boolean()) {
        Err(why) => Some(why),
        Ok(Flag::False) => if offered {
            Some(
                (
                    "parallel_tool_calls=false requires at most one tool call"@,
                    "parallel_tool_calls"@,
                    "parallel_tool_calls_not_supported"@,
                ),
            )
        } else {
            None
        },
        Ok(_) => None,
    }
}

/// The seed after thinking: inherited without `post_thinking`; when it is an
/// object, the error of its sampling check passed on, else its seed; refused
/// when it is anything else.
pub open spec fn post_thinking_of(body: Seq<(String, Json)>, verdict: Result<(), ApiError>) -> Result<Seed, Denial> {
    match field_of(body, "post_thinking"@) {
        None => Ok(Seed::Inherited),
        Some(Json::Object(object)) => match verdict {
            Err(e) => Err(Denial::Passed(e)),
            Ok(()) => match seed_of(object@, "post_thinking.seed"@) {
                Err(why) => Err(Denial::Refused(why)),
                Ok(seed) => Ok(seed),
            },
        },
        Some(_) => Err(Denial::Refused(("post_thinking must be an object"@, "post_thinking"@, ""@))),
    }
}

/// The refusal of `n` other than one.
pub open spec fn n_refusal(body: Seq<(String, Json)>) -> Option<Why> {
    match integer_of(body, "n"@) {
        Err(why) => Some(why),
        Ok(Some(count)) => if count != 1 {
            Some(
                (
                    "n requests multiple completions, while NInfer produces one completion per request; only n=1 is supported"@,
                    "n"@,
                    "n_not_supported"@,
                ),
            )
        } else {
            None
        },
        Ok(None) => None,
    }
}

/// Whether a stream ends with a usage chunk: `stream_options.include_usage`.
pub open spec fn usage_of(body: Seq<(String, Json)>) -> Result<Usage, Why> {
    match field_of(body, "stream_options"@) {
        None => Ok(Usage::Omitted),
        Some(Json::Object(options)) => match field_of(options@, "include_obfuscation"@) {
            Some(value) => if !(value matches Json::Bool(_)) {
                Err(("include_obfuscation must be a boolean"@, "stream_options"@, ""@))
            } else {
                usage_flag(options@)
            },
            None => usage_flag(options@),
        },
        Some(_) => Err(("stream_options must be an object"@, "stream_options"@, ""@)),
    }
}

/// `include_usage` read from the stream options.
pub open spec fn usage_flag(options: Seq<(String, Json)>) -> Result<Usage, Why> {
    match flag_of(options, "include_usage"@, not_boolean()) {
        Err(why) => Err(why),
        Ok(Flag::True) => Ok(Usage::Included),
        Ok(_) => Ok(Usage::Omitted),
    }
}

/// Whether a turn is a tool result or made tool calls.
pub open spec fn tool_history(turns: Seq<TurnView>) -> bool {
    exists|i: int| 0 <= i < turns.len() && (turns[i].0 == Role::Tool || turns[i].3.len() > 0)
}

/// The steps of reading a body after its turns are read.
pub open spec fn finish_of(
    body: Seq<(String, Json)>,
    defaults: Defaults,
    fresh: u64,
    checks_initial: Result<(), ApiError>,
    checks_post: Result<(), ApiError>,
    model: Seq<char>,
    policy: AutomaticWrite,
    tool_use: ToolUse,
    kept: Seq<(Seq<char>, Seq<char>)>,
    turns: Seq<TurnView>,
) -> Result<ChatView, Denial> {
    match stops_of(body) {
        Err(why) => Err(Denial::Refused(why)),
        Ok((stops, stop_scope)) => match post_thinking_of(body, checks_post) {
            Err(denial) => Err(denial),
            Ok(post_thinking_seed) => match checks_initial {
                Err(e) => Err(Denial::Passed(e)),
                Ok(()) => match seed_of(body, "seed"@) {
                    Err(why) => Err(Denial::Refused(why)),
                    Ok(seed) => match n_refusal(body) {
                        Some(why) => Err(Denial::Refused(why)),
                        None => match flag_of(body, "stream"@, not_boolean()) {
                            Err(why) => Err(Denial::Refused(why)),
                            Ok(stream) => match usage_of(body) {
                                Err(why) => Err(Denial::Refused(why)),
                                Ok(usage) => match output_tokens_of(body, defaults.output_tokens) {
                                    Err(why) => Err(Denial::Refused(why)),
                                    Ok(output_tokens) => match choices_of(body) {
                                        Err(why) => Err(Denial::Refused(why)),
                                        Ok((thinking, preserve, effort, arguments)) => {
                                            let offered = tool_use == ToolUse::Auto && kept.len() > 0;
                                            let tools = if offered {
                                                kept.map_values(
                                                    |t: (Seq<char>, Seq<char>)| t.1,
                                                )
                                            } else {
                                                Seq::empty()
                                            };
                                            match prompt_cache_of(turns, tools.len(), policy) {
                                                Err(why) => Err(Denial::Refused(why)),
                                                Ok(marks) => Ok(
                                                    ChatView {
                                                        model,
                                                        delivery: if stream == Flag::True {
                                                            Delivery::Streaming
                                                        } else {
                                                            Delivery::Aggregate
                                                        },
                                                        usage,
                                                        messages: turns.map_values(
                                                            |t: TurnView| turn_message(t),
                                                        ),
                                                        tools,
                                                        template_arguments: arguments,
                                                        thinking,
                                                        preserve_thinking: preserve,
                                                        effort,
                                                        marks,
                                                        output_tokens,
                                                        seed: match seed {
                                                            Seed::Fixed(bits) => bits,
                                                            Seed::Inherited => fresh,
                                                        },
                                                        post_thinking_seed,
                                                        thinking_budget: if thinking
                                                            == Switch::Off || effort
                                                            == Effort::NoEffort {
                                                            ThinkingBudget::Unlimited
                                                        } else {
                                                            defaults.thinking_budget
                                                        },
                                                        stops,
                                                        stop_scope,
                                                        special_tokens: if offered
                                                            || tool_history(turns) {
                                                            SpecialTokens::Preserved
                                                        } else {
                                                            SpecialTokens::Trimmed
                                                        },
                                                    },
                                                ),
                                            }
                                        },
                                    },
                                },
                            },
                        },
                    },
                },
            },
        },
    }
}

/// A Chat Completions body as ninfer's server reads it: its refusals
/// in ninfer's order, or the request it renders and runs.
pub open spec fn chat_of(body: Json, defaults: Defaults, fresh: u64, checks_initial: Result<(), ApiError>, checks_post: Result<(), ApiError>) -> Result<ChatView, Denial> {
    match body {
        Json::Object(members) => {
            let b = members@;
            match unsupported_refusal(b) {
                Some(why) => Err(Denial::Refused(why)),
                None => match model_of(b) {
                    Err(why) => Err(Denial::Refused(why)),
                    Ok(model) => match cache_policy_of(b) {
                        Err(why) => Err(Denial::Refused(why)),
                        Ok(policy) => match tools_of(b) {
                            Err(why) => Err(Denial::Refused(why)),
                            Ok(declared) => match choice_of(b, declared) {
                                Err(why) => Err(Denial::Refused(why)),
                                Ok((tool_use, kept)) => match parallel_refusal(
                                    b,
                                    tool_use == ToolUse::Auto && kept.len() > 0,
                                ) {
                                    Some(why) => Err(Denial::Refused(why)),
                                    None => match messages_of(b) {
                                        Err(why) => Err(Denial::Refused(why)),
                                        Ok(values) => match turns_in(values) {
                                            Err(why) => Err(Denial::Refused(why)),
                                            Ok(turns) => finish_of(
                                                b,
                                                defaults,
                                                fresh,
                                                checks_initial,
                                                checks_post,
                                                model,
                                                policy,
                                                tool_use,
                                                kept,
                                                turns,
                                            ),
                                        },
                                    },
                                },
                            },
                        },
                    },
                },
            }
        },
        _ => Err(Denial::Refused(("request body must be a JSON object"@, ""@, ""@))),
    }
}

/// The definitions of the declared tools, in order.
fn definitions(declared: Vec<Tool>) -> (r: Vec<String>)
    ensures
        r@.map_values(|t: String| t@) == tool_views(declared@).map_values(
            |t: (Seq<char>, Seq<char>)| t.1,
        ),
{
    let ghost original = declared@;
    let mut pending = declared;
    let total = pending.len();
    let mut out: Vec<String> = Vec::new();
    let mut j: usize = 0;
    assert(out@.map_values(|t: String| t@) =~= tool_views(original.take(0)).map_values(
        |t: (Seq<char>, Seq<char>)| t.1,
    ));
    assert(pending@ == original.skip(0));
    while pending.len() > 0
        invariant
            j + pending@.len() == original.len(),
            original.len() == total,
            pending@ == original.skip(j as int),
            out@.map_values(|t: String| t@) == tool_views(original.take(j as int)).map_values(
                |t: (Seq<char>, Seq<char>)| t.1,
            ),
        decreases pending@.len(),
    {
        let tool = pending.remove(0);
        assert(pending@ == original.skip(j + 1));
        let ghost earlier = out@;
        out.push(tool.definition);
        proof {
            assert(original.take(j + 1) == original.take(j as int).push(tool));
            assert(tool_views(original.take(j + 1)) =~= tool_views(original.take(j as int)).push(
                tool@,
            ));
            assert(out@.map_values(|t: String| t@) =~= earlier.map_values(|t: String| t@).push(
                tool.definition@,
            ));
        }
        j = j + 1;
    }
    assert(original.take(j as int) == original);
    out
}

/// A turn as a chat message, its breakpoints left beside it.
fn into_message(turn: Turn) -> (m: Message)
    ensures
        message_view(m) == turn_message(turn@),
{
    let Turn { role, parts, reasoning, tool_calls, tool_call_id } = turn;
    let ghost original = parts@;
    let mut pending = parts;
    let total = pending.len();
    let mut texts: Vec<String> = Vec::new();
    let mut j: usize = 0;
    assert(texts@.map_values(|p: String| p@) =~= crate::serve::parse::turns::part_views(
        original.take(0),
    ).map_values(|p: (Seq<char>, Marked)| p.0));
    assert(pending@ == original.skip(0));
    while pending.len() > 0
        invariant
            j + pending@.len() == original.len(),
            original.len() == total,
            pending@ == original.skip(j as int),
            texts@.map_values(|p: String| p@) == crate::serve::parse::turns::part_views(
                original.take(j as int),
            ).map_values(|p: (Seq<char>, Marked)| p.0),
        decreases pending@.len(),
    {
        let part = pending.remove(0);
        assert(pending@ == original.skip(j + 1));
        let ghost earlier = texts@;
        let (text, mark) = part;
        texts.push(text);
        proof {
            assert(original.take(j + 1) == original.take(j as int).push((text, mark)));
            assert(crate::serve::parse::turns::part_views(original.take(j + 1)) =~= crate::serve::parse::turns::part_views(
                original.take(j as int),
            ).push((text@, mark)));
            assert(texts@.map_values(|p: String| p@) =~= earlier.map_values(|p: String| p@).push(
                text@,
            ));
        }
        j = j + 1;
    }
    assert(original.take(j as int) == original);
    Message { role, parts: texts, reasoning, tool_calls, tool_call_id }
}

/// The turns as chat messages, in order.
fn into_messages(turns: Vec<Turn>) -> (r: Vec<Message>)
    ensures
        r@.map_values(|m: Message| message_view(m)) == turn_views(turns@).map_values(
            |t: TurnView| turn_message(t),
        ),
{
    let ghost original = turns@;
    let mut pending = turns;
    let total = pending.len();
    let mut out: Vec<Message> = Vec::new();
    let mut j: usize = 0;
    assert(out@.map_values(|m: Message| message_view(m)) =~= turn_views(original.take(0)).map_values(
        |t: TurnView| turn_message(t),
    ));
    assert(pending@ == original.skip(0));
    while pending.len() > 0
        invariant
            j + pending@.len() == original.len(),
            original.len() == total,
            pending@ == original.skip(j as int),
            out@.map_values(|m: Message| message_view(m)) == turn_views(
                original.take(j as int),
            ).map_values(|t: TurnView| turn_message(t)),
        decreases pending@.len(),
    {
        let turn = pending.remove(0);
        assert(pending@ == original.skip(j + 1));
        let ghost earlier = out@;
        let ghost view = turn@;
        let m = into_message(turn);
        out.push(m);
        proof {
            assert(original.take(j + 1) == original.take(j as int).push(original[j as int]));
            assert(turn_views(original.take(j + 1)) =~= turn_views(original.take(j as int)).push(
                view,
            ));
            assert(out@.map_values(|m: Message| message_view(m)) =~= earlier.map_values(
                |m: Message| message_view(m),
            ).push(message_view(m)));
        }
        j = j + 1;
    }
    assert(original.take(j as int) == original);
    out
}

/// Whether a turn is a tool result or made tool calls.
fn has_tool_history(turns: &[Turn]) -> (r: bool)
    ensures
        r == tool_history(turn_views(turns@)),
{
    let ghost views = turn_views(turns@);
    let mut i: usize = 0;
    while i < turns.len()
        invariant
            i <= turns@.len(),
            views == turn_views(turns@),
            forall|k: int| 0 <= k < i ==> !(views[k].0 == Role::Tool || views[k].3.len() > 0),
        decreases turns@.len() - i,
    {
        assert(views[i as int] == turns@[i as int]@);
        if turns[i].role == Role::Tool || turns[i].tool_calls.len() > 0 {
            assert(views[i as int].0 == Role::Tool || views[i as int].3.len() > 0);
            return true;
        }
        i = i + 1;
    }
    false
}

/// The turns of a non-empty `messages` array.
fn read_turns(list: &Vec<Json>) -> (r: Result<Vec<Turn>, ApiError>)
    ensures
        match (r, turns_in(list@)) {
            (Ok(turns), Ok(wanted)) => turn_views(turns@) == wanted,
            (Err(e), Err(why)) => refused_as(e, why),
            _ => false,
        },
{
    let mut turns: Vec<Turn> = Vec::new();
    let mut i: usize = 0;
    assert(list@.take(0).len() == 0);
    assert(turn_views(turns@) =~= Seq::empty());
    while i < list.len()
        invariant
            i <= list@.len(),
            turns_in(list@.take(i as int)) == Ok::<Seq<TurnView>, Why>(turn_views(turns@)),
        decreases list@.len() - i,
    {
        let turn = message(&list[i], i);
        proof {
            let taken = list@.take(i + 1);
            assert(taken.drop_last() == list@.take(i as int));
            assert(taken.last() == list@[i as int]);
            assert(taken.len() - 1 == i);
        }
        match turn {
            Err(e) => {
                proof {
                    lemma_turns_in_refused(list@, i + 1);
                }
                return Err(e);
            },
            Ok(turn) => {
                let ghost earlier = turns@;
                turns.push(turn);
                proof {
                    assert(turn_views(turns@) =~= turn_views(earlier).push(turns@.last()@));
                }
            },
        }
        i = i + 1;
    }
    assert(list@.take(list@.len() as int) == list@);
    Ok(turns)
}

/// The steps of reading a body after its turns are read.
fn finish(
    b: &[(String, Json)],
    defaults: Defaults,
    fresh: u64,
    checks: SamplingChecks,
    model: ModelId,
    policy: AutomaticWrite,
    tool_use: ToolUse,
    declared: Vec<Tool>,
    turns: Vec<Turn>,
) -> (r: Result<ParsedChat, ApiError>)
    ensures
        match (
            r,
            finish_of(
                b@,
                defaults,
                fresh,
                checks.initial,
                checks.post_thinking,
                model.0@,
                policy,
                tool_use,
                tool_views(declared@),
                turn_views(turns@),
            ),
        ) {
            (Ok(p), Ok(v)) => parsed_view(p) == v,
            (Err(e), Err(d)) => denies(e, d),
            _ => false,
        },
{
    proof {
        reveal_strlit("post_thinking.seed");
        reveal_strlit("seed");
        reveal_strlit("stream");
        reveal_strlit("include_usage");
    }
    let (stop_texts, stop_scope) = stops(b)?;
    let post_thinking_seed = match field(b, "post_thinking") {
        None => Seed::Inherited,
        Some(Json::Object(object)) => {
            match checks.post_thinking {
                Err(e) => return Err(e),
                Ok(()) => {},
            }
            seed(object.as_slice(), "post_thinking.seed")?
        },
        Some(_) => return Err(
            ApiError::refusal("post_thinking must be an object", "post_thinking", ""),
        ),
    };
    match checks.initial {
        Err(e) => return Err(e),
        Ok(()) => {},
    }
    let seed = match seed(b, "seed")? {
        Seed::Fixed(bits) => bits,
        Seed::Inherited => fresh,
    };
    match integer(b, "n")? {
        Some(count) => {
            if count != 1 {
                return Err(
                    ApiError::refusal(
                        "n requests multiple completions, while NInfer produces one completion per request; only n=1 is supported",
                        "n",
                        "n_not_supported",
                    ),
                );
            }
        },
        None => {},
    }
    let stream = boolean(b, "stream")?;
    let delivery = if stream == Flag::True {
        Delivery::Streaming
    } else {
        Delivery::Aggregate
    };
    let include_usage = match field(b, "stream_options") {
        None => Usage::Omitted,
        Some(Json::Object(options)) => {
            match field(options.as_slice(), "include_obfuscation") {
                Some(Json::Bool(_)) => {},
                Some(_) => return Err(
                    ApiError::refusal("include_obfuscation must be a boolean", "stream_options", ""),
                ),
                None => {},
            }
            match boolean(options.as_slice(), "include_usage")? {
                Flag::True => Usage::Included,
                _ => Usage::Omitted,
            }
        },
        Some(_) => return Err(
            ApiError::refusal("stream_options must be an object", "stream_options", ""),
        ),
    };
    let output_tokens = output_tokens(b, defaults.output_tokens)?;
    let (thinking, preserve_thinking, effort, template_arguments) = template_choices(b)?;
    let thinking_budget = if thinking == Switch::Off || effort == Effort::NoEffort {
        ThinkingBudget::Unlimited
    } else {
        defaults.thinking_budget
    };
    let offered = tool_use == ToolUse::Auto && declared.len() > 0;
    let history = has_tool_history(turns.as_slice());
    let special_tokens = if offered || history {
        SpecialTokens::Preserved
    } else {
        SpecialTokens::Trimmed
    };
    let tools_text: Vec<String> = if offered {
        definitions(declared)
    } else {
        let none: Vec<String> = Vec::new();
        assert(none@.map_values(|t: String| t@) =~= Seq::empty());
        none
    };
    proof {
        assert(tools_text@.len() == tools_text@.map_values(|t: String| t@).len());
    }
    let cache = prompt_cache(turns.as_slice(), tools_text.as_slice(), policy)?;
    let messages = into_messages(turns);
    Ok(
        ParsedChat {
            model,
            delivery,
            include_usage,
            prompt: Prompt {
                messages,
                tools: tools_text,
                template_arguments,
                thinking,
                preserve_thinking,
                effort,
                cache,
            },
            directives: Directives {
                output_tokens,
                seed,
                post_thinking_seed,
                thinking_budget,
                stops: stop_texts,
                stop_scope,
                special_tokens,
                tool_name_limit: TOOL_NAME_LIMIT,
                prefix_reuse: PrefixReuse::ReadWrite,
            },
        },
    )
}

/// Read a Chat Completions body: on success the chat request renders
/// and runs as ninfer's server renders and runs the same body: the same
/// turns, tool definitions, template arguments and choices, output limit,
/// seeds, stops and special-token handling, with the default thinking budget
/// unless thinking is turned off, by `enable_thinking` or by effort `none`;
/// each body ninfer refuses is refused with its parameter and code, and the
/// sampling verdicts are passed on where ninfer makes them. The body is a
/// parsed JSON value, whose objects name each member once.
pub fn chat_request(body: &Json, defaults: Defaults, seed_if_unset: FreshSeed, checks: SamplingChecks) -> (r: Result<
    ParsedChat,
    ApiError,
>)
    requires
        well_keyed(*body),
    ensures
        match (r, chat_of(*body, defaults, seed_if_unset.0, checks.initial, checks.post_thinking)) {
            (Ok(p), Ok(v)) => parsed_view(p) == v,
            (Err(e), Err(d)) => denies(e, d),
            _ => false,
        },
{
    proof {
        reveal_strlit("model");
        reveal_strlit("messages");
        reveal_strlit("parallel_tool_calls");
    }
    let b = match body {
        Json::Object(members) => members.as_slice(),
        _ => return Err(ApiError::refusal("request body must be a JSON object", "", "")),
    };
    refuse_unsupported(b)?;
    let model = match string_at(b, "model") {
        Some(name) => {
            if name.unicode_len() == 0 {
                return Err(ApiError::refusal("missing required field: model", "model", ""));
            }
            ModelId(String::from_str(name))
        },
        None => return Err(ApiError::refusal("missing required field: model", "model", "")),
    };
    let policy = cache_policy(b)?;
    let mut declared = tools(b)?;
    let tool_use = tool_choice(b, &mut declared)?;
    let offered = tool_use == ToolUse::Auto && declared.len() > 0;
    proof {
        assert(tool_views(declared@).len() == declared@.len());
    }
    if boolean(b, "parallel_tool_calls")? == Flag::False && offered {
        return Err(
            ApiError::refusal(
                "parallel_tool_calls=false requires at most one tool call",
                "parallel_tool_calls",
                "parallel_tool_calls_not_supported",
            ),
        );
    }
    let list = match member(b, "messages") {
        None => return Err(ApiError::refusal("missing required field: messages", "messages", "")),
        Some(Json::Array(list)) => {
            if list.len() == 0 {
                return Err(
                    ApiError::refusal("messages must be a non-empty array", "messages", ""),
                );
            }
            list
        },
        Some(_) => return Err(
            ApiError::refusal("messages must be a non-empty array", "messages", ""),
        ),
    };
    let turns = read_turns(list)?;
    finish(b, defaults, seed_if_unset.0, checks, model, policy, tool_use, declared, turns)
}

/// A body that names an integer seed runs with that seed, a negative one
/// taken as its two's-complement bits; the fresh seed is used exactly when
/// the body names none (absent or null); a body naming anything else as its
/// seed is refused.
pub proof fn law_named_seed_is_used(
    body: Json,
    defaults: Defaults,
    fresh: u64,
    checks_initial: Result<(), ApiError>,
    checks_post: Result<(), ApiError>,
)
    ensures
        chat_of(body, defaults, fresh, checks_initial, checks_post) matches Ok(v) ==> (
        body matches Json::Object(members) && match field_of(members@, "seed"@) {
            None => v.seed == fresh,
            Some(Json::Number(n)) => match n.reading {
                crate::serve::value::Reading::Unsigned(u) => v.seed == u,
                crate::serve::value::Reading::Negative(i) => v.seed == (if i < 0 {
                    (i + 0x1_0000_0000_0000_0000) as u64
                } else {
                    i as u64
                }),
                crate::serve::value::Reading::Fraction { .. } => false,
            },
            Some(_) => false,
        }),
{
    if chat_of(body, defaults, fresh, checks_initial, checks_post) is Ok {
        if let Json::Object(members) = body {
            let b = members@;
            reveal_strlit("seed");
            assert(seed_of(b, "seed"@) is Ok);
        }
    }
}

} // verus!
