//! The conversation: each message's role, text parts with their cache
//! breakpoints, and the reasoning, tool calls or tool-call id its role
//! admits, checked as ninfer checks them.
use vstd::prelude::*;
use vstd::string::*;
use crate::chat::request::Marked;
use crate::chat::request::Role;
use crate::chat::request::ToolCall;
use crate::pretty::decimal;
use crate::pretty::decimal_digits;
use crate::serve::error::ApiError;
use crate::serve::error::Why;
use crate::serve::error::refused_as;
use crate::serve::value::Json;
use crate::serve::value::field;
use crate::serve::value::field_of;
use crate::serve::value::member;
use crate::serve::value::string_at;
use crate::serve::value::string_member;
use crate::serve::parse::read::function_name;
use crate::serve::parse::read::function_name_of;
use crate::serve::parse::tools::object_member;

verus! {

/// A part's text and whether a client marked a cache breakpoint after it.
pub type PartView = (Seq<char>, Marked);

/// A tool call's id, name and arguments.
pub type CallView = (Seq<char>, Seq<char>, Seq<char>);

/// A turn: its role, parts, carried reasoning, tool calls and the call a
/// tool turn answers.
pub type TurnView = (Role, Seq<PartView>, Seq<char>, Seq<CallView>, Seq<char>);

/// The views of a list of parts.
pub open spec fn part_views(parts: Seq<(String, Marked)>) -> Seq<PartView> {
    parts.map_values(|p: (String, Marked)| (p.0@, p.1))
}

/// The view of a tool call.
pub open spec fn call_view(call: ToolCall) -> CallView {
    (call.id@, call.name@, call.arguments@)
}

/// The views of a list of tool calls.
pub open spec fn call_views(calls: Seq<ToolCall>) -> Seq<CallView> {
    calls.map_values(|c: ToolCall| call_view(c))
}

/// A turn as read, with the explicit breakpoint after each of its parts.
#[derive(Debug, Clone, PartialEq, Eq)]
pub struct Turn {
    /// Who wrote it.
    pub role: Role,
    /// Its text parts in order, each with its breakpoint.
    pub parts: Vec<(String, Marked)>,
    /// The reasoning an assistant turn carried.
    pub reasoning: String,
    /// The calls an assistant turn made.
    pub tool_calls: Vec<ToolCall>,
    /// The call a tool turn answers.
    pub tool_call_id: String,
}

impl View for Turn {
    type V = TurnView;

    open spec fn view(&self) -> TurnView {
        (
            self.role,
            part_views(self.parts@),
            self.reasoning@,
            call_views(self.tool_calls@),
            self.tool_call_id@,
        )
    }
}

/// `"message <index>"`, the start of ninfer's messages about one turn.
pub open spec fn message_at(index: nat) -> Seq<char> {
    "message "@ + decimal_digits(index)
}

/// `"assistant message <index>"`.
pub open spec fn assistant_at(index: nat) -> Seq<char> {
    "assistant message "@ + decimal_digits(index)
}

/// The cache breakpoint a content part carries: none when absent; refused
/// unless it is `{"mode":"explicit"}`.
pub open spec fn breakpoint_of(part: Seq<(String, Json)>) -> Result<Marked, Why> {
    match field_of(part, "prompt_cache_breakpoint"@) {
        None => Ok(Marked::Unmarked),
        Some(mark) => if type_of_mode(mark) == Some("explicit"@) {
            Ok(Marked::Explicit)
        } else {
            Err(
                (
                    "prompt_cache_breakpoint must be {mode:'explicit'}"@,
                    "messages"@,
                    "invalid_cache_breakpoint"@,
                ),
            )
        },
    }
}

/// The string `mode` of a value, which only an object has.
pub open spec fn type_of_mode(value: Json) -> Option<Seq<char>> {
    match value {
        Json::Object(members) => string_member(members@, "mode"@),
        _ => None,
    }
}

/// The refusal of a part with no string type.
pub open spec fn untyped_part() -> Why {
    ("message content parts must contain a string type"@, "messages"@, ""@)
}

/// One content part: a `text` part, or a `refusal` part of an assistant
/// turn, with its breakpoint; media and other types refused.
pub open spec fn part_of(part: Json, role: Role) -> Result<PartView, Why> {
    match part {
        Json::Object(object) => match string_member(object@, "type"@) {
            None => Err(untyped_part()),
            Some(kind) => {
                let text = if kind == "text"@ {
                    match string_member(object@, "text"@) {
                        Some(t) => Ok(t),
                        None => Err(("text content part must contain a string text"@, "messages"@, ""@)),
                    }
                } else if kind == "refusal"@ {
                    if role != Role::Assistant {
                        Err(("refusal content is only valid on assistant messages"@, "messages"@, ""@))
                    } else {
                        match string_member(object@, "refusal"@) {
                            Some(t) => Ok(t),
                            None => Err(
                                ("refusal content part must contain a string refusal"@, "messages"@, ""@),
                            ),
                        }
                    }
                } else if kind == "image_url"@ || kind == "video_url"@ {
                    Err(("Vision is disabled for this server"@, "messages"@, "vision_disabled"@))
                } else {
                    Err(
                        (
                            "content type '"@ + kind + "' is not supported"@,
                            "messages"@,
                            "modality_not_supported"@,
                        ),
                    )
                };
                match text {
                    Err(why) => Err(why),
                    Ok(t) => match breakpoint_of(object@) {
                        Err(why) => Err(why),
                        Ok(marked) => Ok((t, marked)),
                    },
                }
            },
        },
        _ => Err(untyped_part()),
    }
}

/// The parts of an array, or the first part's refusal.
pub open spec fn parts_in(parts: Seq<Json>, role: Role) -> Result<Seq<PartView>, Why>
    decreases parts.len(),
{
    if parts.len() == 0 {
        Ok(Seq::empty())
    } else {
        match parts_in(parts.drop_last(), role) {
            Err(why) => Err(why),
            Ok(earlier) => match part_of(parts.last(), role) {
                Err(why) => Err(why),
                Ok(part) => Ok(earlier.push(part)),
            },
        }
    }
}

/// A refusal among the first `j` parts is the refusal of them all.
pub proof fn lemma_parts_in_refused(parts: Seq<Json>, role: Role, j: int)
    requires
        0 <= j <= parts.len(),
        parts_in(parts.take(j), role) is Err,
    ensures
        parts_in(parts, role) == parts_in(parts.take(j), role),
    decreases parts.len(),
{
    if j == parts.len() {
        assert(parts.take(j) == parts);
    } else {
        assert(parts.drop_last().take(j) == parts.take(j));
        lemma_parts_in_refused(parts.drop_last(), role, j);
    }
}

/// A message's content as text parts: a string is one unmarked part; an
/// array yields its parts in order.
pub open spec fn content_of(content: Json, role: Role, index: nat) -> Result<Seq<PartView>, Why> {
    match content {
        Json::Text(s) => Ok(seq![(s@, Marked::Unmarked)]),
        Json::Array(parts) => parts_in(parts@, role),
        _ => Err(
            (message_at(index) + " content must be a string or array"@, "messages"@, ""@),
        ),
    }
}

/// A content part's cache breakpoint.
fn breakpoint(part: &[(String, Json)]) -> (r: Result<Marked, ApiError>)
    ensures
        match (r, breakpoint_of(part@)) {
            (Ok(m), Ok(wanted)) => m == wanted,
            (Err(e), Err(why)) => refused_as(e, why),
            _ => false,
        },
{
    proof {
        reveal_strlit("mode");
    }
    let mark = match field(part, "prompt_cache_breakpoint") {
        None => return Ok(Marked::Unmarked),
        Some(mark) => mark,
    };
    let explicit = match mark {
        Json::Object(members) => match string_at(members.as_slice(), "mode") {
            Some(mode) => crate::letters::same_text(mode, "explicit"),
            None => false,
        },
        _ => false,
    };
    if explicit {
        Ok(Marked::Explicit)
    } else {
        Err(
            ApiError::refusal(
                "prompt_cache_breakpoint must be {mode:'explicit'}",
                "messages",
                "invalid_cache_breakpoint",
            ),
        )
    }
}

/// One content part.
fn content_part(part: &Json, role: Role) -> (r: Result<(String, Marked), ApiError>)
    ensures
        match (r, part_of(*part, role)) {
            (Ok(p), Ok(wanted)) => (p.0@, p.1) == wanted,
            (Err(e), Err(why)) => refused_as(e, why),
            _ => false,
        },
{
    proof {
        reveal_strlit("type");
        reveal_strlit("text");
        reveal_strlit("refusal");
        reveal_strlit("content type '");
        reveal_strlit("' is not supported");
    }
    let object = match part {
        Json::Object(object) => object.as_slice(),
        _ => return Err(
            ApiError::refusal("message content parts must contain a string type", "messages", ""),
        ),
    };
    let kind = match string_at(object, "type") {
        None => return Err(
            ApiError::refusal("message content parts must contain a string type", "messages", ""),
        ),
        Some(kind) => kind,
    };
    let text = if crate::letters::same_text(kind, "text") {
        match string_at(object, "text") {
            Some(t) => t,
            None => return Err(
                ApiError::refusal("text content part must contain a string text", "messages", ""),
            ),
        }
    } else if crate::letters::same_text(kind, "refusal") {
        if role != Role::Assistant {
            return Err(
                ApiError::refusal(
                    "refusal content is only valid on assistant messages",
                    "messages",
                    "",
                ),
            );
        }
        match string_at(object, "refusal") {
            Some(t) => t,
            None => return Err(
                ApiError::refusal(
                    "refusal content part must contain a string refusal",
                    "messages",
                    "",
                ),
            ),
        }
    } else if crate::letters::same_text(kind, "image_url") || crate::letters::same_text(
        kind,
        "video_url",
    ) {
        return Err(
            ApiError::refusal("Vision is disabled for this server", "messages", "vision_disabled"),
        );
    } else {
        let mut message = String::from_str("content type '");
        message.append(kind);
        message.append("' is not supported");
        return Err(ApiError::refusal(message.as_str(), "messages", "modality_not_supported"));
    };
    let marked = breakpoint(object)?;
    Ok((String::from_str(text), marked))
}

/// A message's content as text parts, each with its breakpoint.
pub fn content_parts(content: &Json, role: Role, index: usize) -> (r: Result<Vec<(String, Marked)>, ApiError>)
    ensures
        match (r, content_of(*content, role, index as nat)) {
            (Ok(parts), Ok(wanted)) => part_views(parts@) == wanted,
            (Err(e), Err(why)) => refused_as(e, why),
            _ => false,
        },
{
    proof {
        reveal_strlit("message ");
        reveal_strlit(" content must be a string or array");
    }
    let list = match content {
        Json::Text(s) => {
            let mut parts: Vec<(String, Marked)> = Vec::new();
            parts.push((String::from_str(s.as_str()), Marked::Unmarked));
            assert(part_views(parts@) =~= seq![(s@, Marked::Unmarked)]);
            return Ok(parts);
        },
        Json::Array(list) => list,
        _ => {
            let mut message = String::from_str("message ");
            message.append(decimal(index as u64).as_str());
            message.append(" content must be a string or array");
            return Err(ApiError::refusal(message.as_str(), "messages", ""));
        },
    };
    let mut parts: Vec<(String, Marked)> = Vec::new();
    let mut i: usize = 0;
    assert(list@.take(0).len() == 0);
    assert(part_views(parts@) =~= Seq::empty());
    while i < list.len()
        invariant
            i <= list@.len(),
            *content == Json::Array(*list),
            parts_in(list@.take(i as int), role) == Ok::<Seq<PartView>, Why>(part_views(parts@)),
        decreases list@.len() - i,
    {
        let part = content_part(&list[i], role);
        proof {
            let taken = list@.take(i + 1);
            assert(taken.drop_last() == list@.take(i as int));
            assert(taken.last() == list@[i as int]);
        }
        match part {
            Err(e) => {
                proof {
                    lemma_parts_in_refused(list@, role, i + 1);
                }
                return Err(e);
            },
            Ok(part) => {
                let ghost earlier = parts@;
                parts.push(part);
                proof {
                    assert(part_views(parts@) =~= part_views(earlier).push((part.0@, part.1)));
                }
            },
        }
        i = i + 1;
    }
    assert(list@.take(list@.len() as int) == list@);
    Ok(parts)
}

/// A role's name as ninfer reads it: the five roles by name, and the legacy
/// `function` role as a tool turn.
pub open spec fn role_named(name: Seq<char>) -> Result<Role, Why> {
    if name == "system"@ {
        Ok(Role::System)
    } else if name == "developer"@ {
        Ok(Role::Developer)
    } else if name == "user"@ {
        Ok(Role::User)
    } else if name == "assistant"@ {
        Ok(Role::Assistant)
    } else if name == "tool"@ || name == "function"@ {
        Ok(Role::Tool)
    } else {
        Err(("unsupported role: "@ + name, "messages"@, "unsupported_role"@))
    }
}

/// A turn's role.
pub fn role_of(name: &str) -> (r: Result<Role, ApiError>)
    ensures
        crate::serve::error::answers(r, role_named(name@)),
{
    proof {
        reveal_strlit("unsupported role: ");
    }
    if crate::letters::same_text(name, "system") {
        Ok(Role::System)
    } else if crate::letters::same_text(name, "developer") {
        Ok(Role::Developer)
    } else if crate::letters::same_text(name, "user") {
        Ok(Role::User)
    } else if crate::letters::same_text(name, "assistant") {
        Ok(Role::Assistant)
    } else if crate::letters::same_text(name, "tool") || crate::letters::same_text(name, "function") {
        Ok(Role::Tool)
    } else {
        let mut message = String::from_str("unsupported role: ");
        message.append(name);
        Err(ApiError::refusal(message.as_str(), "messages", "unsupported_role"))
    }
}

/// The refusal of a string field a role may not carry: present and not a
/// string, or not empty.
pub open spec fn nonempty_refusal(item: Seq<(String, Json)>, key: Seq<char>, message: Seq<char>) -> Option<Why> {
    match field_of(item, key) {
        None => None,
        Some(Json::Text(s)) => if s@.len() == 0 {
            None
        } else {
            Some((message, "messages"@, ""@))
        },
        Some(_) => Some((key + " must be a string"@, "messages"@, ""@)),
    }
}

/// A string field that must be absent, null, or empty.
fn require_empty(item: &[(String, Json)], key: &str, message: &str) -> (r: Result<(), ApiError>)
    ensures
        crate::serve::error::refuses(r, nonempty_refusal(item@, key@, message@)),
{
    proof {
        reveal_strlit(" must be a string");
    }
    match field(item, key) {
        None => Ok(()),
        Some(Json::Text(s)) => {
            if s.as_str().unicode_len() == 0 {
                Ok(())
            } else {
                Err(ApiError::refusal(message, "messages", ""))
            }
        },
        Some(_) => Err(
            ApiError::refusal(
                crate::serve::parse::read::about(key, " must be a string").as_str(),
                "messages",
                "",
            ),
        ),
    }
}

/// The string member `key` of a value, which only an object has.
pub open spec fn string_in(value: Json, key: Seq<char>) -> Option<Seq<char>> {
    match value {
        Json::Object(members) => string_member(members@, key),
        _ => None,
    }
}

/// One `tool_calls` entry of an assistant turn: a `function` call with a
/// string id, a function object, string arguments and a valid name.
pub open spec fn history_call(value: Json) -> Result<CallView, Why> {
    match string_in(value, "id"@) {
        None => Err(("tool_calls entries must contain a string id"@, "messages"@, ""@)),
        Some(id) => if string_in(value, "type"@) != Some("function"@) {
            Err(("only function tool_calls are supported"@, "messages"@, "tool_type_not_supported"@))
        } else {
            match object_member(value->Object_0@, "function"@) {
                None => Err(("tool_calls entries must contain a function object"@, "messages"@, ""@)),
                Some(function) => match string_member(function, "arguments"@) {
                    None => Err(("function tool_calls must contain string arguments"@, "messages"@, ""@)),
                    Some(arguments) => match function_name_of(function, "messages"@) {
                        Err(why) => Err(why),
                        Ok(name) => Ok((id, name, arguments)),
                    },
                },
            }
        },
    }
}

/// The calls of a `tool_calls` array, or the first entry's refusal.
pub open spec fn history_calls(values: Seq<Json>) -> Result<Seq<CallView>, Why>
    decreases values.len(),
{
    if values.len() == 0 {
        Ok(Seq::empty())
    } else {
        match history_calls(values.drop_last()) {
            Err(why) => Err(why),
            Ok(earlier) => match history_call(values.last()) {
                Err(why) => Err(why),
                Ok(call) => Ok(earlier.push(call)),
            },
        }
    }
}

/// A refusal among the first `j` calls is the refusal of them all.
pub proof fn lemma_history_calls_refused(values: Seq<Json>, j: int)
    requires
        0 <= j <= values.len(),
        history_calls(values.take(j)) is Err,
    ensures
        history_calls(values) == history_calls(values.take(j)),
    decreases values.len(),
{
    if j == values.len() {
        assert(values.take(j) == values);
    } else {
        assert(values.drop_last().take(j) == values.take(j));
        lemma_history_calls_refused(values.drop_last(), j);
    }
}

/// The legacy `function_call` of an assistant turn, as a first call with an
/// empty id: an object with string arguments and a valid name.
pub open spec fn legacy_call(item: Seq<(String, Json)>, index: nat) -> Result<Option<CallView>, Why> {
    match field_of(item, "function_call"@) {
        None => Ok(None),
        Some(Json::Object(object)) => match string_member(object@, "arguments"@) {
            None => Err(("assistant function_call must contain string arguments"@, "messages"@, ""@)),
            Some(arguments) => match function_name_of(object@, "messages"@) {
                Err(why) => Err(why),
                Ok(name) => Ok(Some((Seq::empty(), name, arguments))),
            },
        },
        Some(_) => Err(
            (assistant_at(index) + " function_call must be an object"@, "messages"@, ""@),
        ),
    }
}

/// An assistant turn's tool calls, the legacy `function_call` first.
pub open spec fn calls_of(item: Seq<(String, Json)>, index: nat) -> Result<Seq<CallView>, Why> {
    match legacy_call(item, index) {
        Err(why) => Err(why),
        Ok(legacy) => {
            let first = match legacy {
                Some(call) => seq![call],
                None => Seq::empty(),
            };
            match field_of(item, "tool_calls"@) {
                None => Ok(first),
                Some(Json::Array(values)) => match history_calls(values@) {
                    Err(why) => Err(why),
                    Ok(calls) => Ok(first + calls),
                },
                Some(_) => Err(
                    (assistant_at(index) + " tool_calls must be an array"@, "messages"@, ""@),
                ),
            }
        },
    }
}

/// One `tool_calls` entry of an assistant turn.
fn history_entry(value: &Json) -> (r: Result<ToolCall, ApiError>)
    ensures
        match (r, history_call(*value)) {
            (Ok(call), Ok(wanted)) => call_view(call) == wanted,
            (Err(e), Err(why)) => refused_as(e, why),
            _ => false,
        },
{
    proof {
        reveal_strlit("id");
        reveal_strlit("type");
        reveal_strlit("arguments");
    }
    let object = match value {
        Json::Object(object) => object.as_slice(),
        _ => return Err(
            ApiError::refusal("tool_calls entries must contain a string id", "messages", ""),
        ),
    };
    let id = match string_at(object, "id") {
        None => return Err(
            ApiError::refusal("tool_calls entries must contain a string id", "messages", ""),
        ),
        Some(id) => id,
    };
    let function_type = match string_at(object, "type") {
        Some(kind) => crate::letters::same_text(kind, "function"),
        None => false,
    };
    if !function_type {
        return Err(
            ApiError::refusal(
                "only function tool_calls are supported",
                "messages",
                "tool_type_not_supported",
            ),
        );
    }
    let function = match member(object, "function") {
        Some(Json::Object(function)) => function.as_slice(),
        _ => return Err(
            ApiError::refusal("tool_calls entries must contain a function object", "messages", ""),
        ),
    };
    let arguments = match string_at(function, "arguments") {
        None => return Err(
            ApiError::refusal("function tool_calls must contain string arguments", "messages", ""),
        ),
        Some(arguments) => arguments,
    };
    let name = function_name(function, "messages")?;
    Ok(
        ToolCall {
            id: String::from_str(id),
            name,
            arguments: String::from_str(arguments),
        },
    )
}

/// An assistant turn's tool calls, the legacy `function_call` first: every
/// `tool_calls` entry becomes a call with its id, name and argument text; a
/// legacy `function_call` becomes a first call with an empty id.
pub fn assistant_calls(item: &[(String, Json)], index: usize) -> (r: Result<Vec<ToolCall>, ApiError>)
    ensures
        match (r, calls_of(item@, index as nat)) {
            (Ok(calls), Ok(wanted)) => call_views(calls@) == wanted,
            (Err(e), Err(why)) => refused_as(e, why),
            _ => false,
        },
{
    proof {
        reveal_strlit("assistant message ");
        reveal_strlit(" function_call must be an object");
        reveal_strlit(" tool_calls must be an array");
        reveal_strlit("arguments");
        reveal_strlit("");
    }
    let mut calls: Vec<ToolCall> = Vec::new();
    match field(item, "function_call") {
        None => {
            assert(call_views(calls@) =~= Seq::<CallView>::empty());
        },
        Some(Json::Object(object)) => {
            let arguments = match string_at(object.as_slice(), "arguments") {
                None => return Err(
                    ApiError::refusal(
                        "assistant function_call must contain string arguments",
                        "messages",
                        "",
                    ),
                ),
                Some(arguments) => arguments,
            };
            let name = function_name(object.as_slice(), "messages")?;
            calls.push(
                ToolCall { id: String::new(), name, arguments: String::from_str(arguments) },
            );
            assert(call_views(calls@) =~= seq![call_view(calls@[0])]);
        },
        Some(_) => {
            let mut message = String::from_str("assistant message ");
            message.append(decimal(index as u64).as_str());
            message.append(" function_call must be an object");
            return Err(ApiError::refusal(message.as_str(), "messages", ""));
        },
    }
    let ghost first = call_views(calls@);
    assert(first == match legacy_call(item@, index as nat) {
        Ok(Some(call)) => seq![call],
        _ => Seq::<CallView>::empty(),
    });
    let values = match field(item, "tool_calls") {
        None => return Ok(calls),
        Some(Json::Array(values)) => values,
        Some(_) => {
            let mut message = String::from_str("assistant message ");
            message.append(decimal(index as u64).as_str());
            message.append(" tool_calls must be an array");
            return Err(ApiError::refusal(message.as_str(), "messages", ""));
        },
    };
    let mut i: usize = 0;
    assert(values@.take(0).len() == 0);
    assert(call_views(calls@) == first + Seq::<CallView>::empty());
    while i < values.len()
        invariant
            i <= values@.len(),
            field_of(item@, "tool_calls"@) == Some(Json::Array(*values)),
            legacy_call(item@, index as nat) is Ok,
            first == match legacy_call(item@, index as nat) {
                Ok(Some(call)) => seq![call],
                _ => Seq::<CallView>::empty(),
            },
            history_calls(values@.take(i as int)) is Ok,
            call_views(calls@) == first + history_calls(values@.take(i as int))->Ok_0,
        decreases values@.len() - i,
    {
        let call = history_entry(&values[i]);
        proof {
            let taken = values@.take(i + 1);
            assert(taken.drop_last() == values@.take(i as int));
            assert(taken.last() == values@[i as int]);
        }
        match call {
            Err(e) => {
                proof {
                    lemma_history_calls_refused(values@, i + 1);
                }
                return Err(e);
            },
            Ok(call) => {
                let ghost earlier = calls@;
                calls.push(call);
                proof {
                    assert(call_views(calls@) =~= call_views(earlier).push(call_view(call)));
                }
            },
        }
        i = i + 1;
    }
    assert(values@.take(values@.len() as int) == values@);
    Ok(calls)
}

/// An assistant turn's carried reasoning, from `reasoning_content` or its
/// alias `reasoning`: the non-empty value of either, empty when neither has
/// one; refused when a field is not a string, or both are non-empty and
/// differ.
pub open spec fn reasoning_of(item: Seq<(String, Json)>, index: nat) -> Result<Seq<char>, Why> {
    let content = field_of(item, "reasoning_content"@);
    let alias = field_of(item, "reasoning"@);
    if !(content is None || content matches Some(Json::Text(_))) {
        Err((assistant_at(index) + " reasoning_content must be a string"@, "messages"@, ""@))
    } else if !(alias is None || alias matches Some(Json::Text(_))) {
        Err((assistant_at(index) + " reasoning must be a string"@, "messages"@, ""@))
    } else {
        let first = match content {
            Some(Json::Text(t)) => t@,
            _ => Seq::empty(),
        };
        let second = match alias {
            Some(Json::Text(t)) => t@,
            _ => Seq::empty(),
        };
        if first.len() == 0 {
            Ok(second)
        } else if second.len() == 0 || first == second {
            Ok(first)
        } else {
            Err(
                (
                    "conflicting assistant reasoning and reasoning_content values"@,
                    "messages"@,
                    "conflicting_template_option"@,
                ),
            )
        }
    }
}

/// A reasoning field's text: empty when absent; `None` when mistyped.
fn reasoning_text<'a>(item: &'a [(String, Json)], key: &str) -> (r: Option<&'a str>)
    ensures
        match r {
            Some(text) => (field_of(item@, key@) is None && text@.len() == 0) || field_of(
                item@,
                key@,
            ) == Some(Json::Text(field_of(item@, key@)->Some_0->Text_0)) && field_of(
                item@,
                key@,
            )->Some_0->Text_0@ == text@,
            None => !(field_of(item@, key@) is None || field_of(item@, key@) matches Some(
                Json::Text(_),
            )),
        },
{
    match field(item, key) {
        None => {
            proof {
                reveal_strlit("");
            }
            Some("")
        },
        Some(Json::Text(t)) => Some(t.as_str()),
        Some(_) => None,
    }
}

/// An assistant turn's carried reasoning.
pub fn assistant_reasoning(item: &[(String, Json)], index: usize) -> (r: Result<String, ApiError>)
    ensures
        match (r, reasoning_of(item@, index as nat)) {
            (Ok(text), Ok(wanted)) => text@ == wanted,
            (Err(e), Err(why)) => refused_as(e, why),
            _ => false,
        },
{
    proof {
        reveal_strlit("assistant message ");
        reveal_strlit(" reasoning_content must be a string");
        reveal_strlit(" reasoning must be a string");
    }
    let first = match reasoning_text(item, "reasoning_content") {
        Some(text) => text,
        None => {
            let mut message = String::from_str("assistant message ");
            message.append(decimal(index as u64).as_str());
            message.append(" reasoning_content must be a string");
            return Err(ApiError::refusal(message.as_str(), "messages", ""));
        },
    };
    let second = match reasoning_text(item, "reasoning") {
        Some(text) => text,
        None => {
            let mut message = String::from_str("assistant message ");
            message.append(decimal(index as u64).as_str());
            message.append(" reasoning must be a string");
            return Err(ApiError::refusal(message.as_str(), "messages", ""));
        },
    };
    if first.unicode_len() == 0 {
        Ok(String::from_str(second))
    } else if second.unicode_len() == 0 || crate::letters::same_text(first, second) {
        Ok(String::from_str(first))
    } else {
        Err(
            ApiError::refusal(
                "conflicting assistant reasoning and reasoning_content values",
                "messages",
                "conflicting_template_option",
            ),
        )
    }
}

/// Whether a `tool_calls` field is present with anything but an empty
/// array.
pub open spec fn carries_calls(item: Seq<(String, Json)>) -> bool {
    match field_of(item, "tool_calls"@) {
        None => false,
        Some(Json::Array(list)) => list@.len() > 0,
        Some(_) => true,
    }
}

/// A tool turn: no calls, a string `tool_call_id` (which a legacy
/// `function` turn may omit), and content.
pub open spec fn tool_turn(item: Seq<(String, Json)>, legacy: bool, index: nat) -> Result<TurnView, Why> {
    if carries_calls(item) {
        Err(("tool messages cannot contain tool_calls"@, "messages"@, ""@))
    } else {
        let id = match field_of(item, "tool_call_id"@) {
            Some(Json::Text(id)) => Ok(id@),
            Some(_) => Err(("tool_call_id must be a string"@, "messages"@, ""@)),
            None => if legacy {
                Ok(Seq::empty())
            } else {
                Err(("tool messages must contain a string tool_call_id"@, "messages"@, ""@))
            },
        };
        match id {
            Err(why) => Err(why),
            Ok(id) => match field_of(item, "content"@) {
                None => Err(("tool messages must contain content"@, "messages"@, ""@)),
                Some(content) => match content_of(content, Role::Tool, index) {
                    Err(why) => Err(why),
                    Ok(parts) => Ok((Role::Tool, parts, Seq::empty(), Seq::empty(), id)),
                },
            },
        }
    }
}

/// An assistant turn: no audio; its calls, reasoning, content parts, and a
/// non-empty `refusal` as a last unmarked part.
pub open spec fn assistant_turn(item: Seq<(String, Json)>, index: nat) -> Result<TurnView, Why> {
    if field_of(item, "audio"@) is Some {
        Err(
            (
                "assistant audio history is not supported"@,
                "messages"@,
                "assistant_history_not_supported"@,
            ),
        )
    } else {
        match calls_of(item, index) {
            Err(why) => Err(why),
            Ok(calls) => match reasoning_of(item, index) {
                Err(why) => Err(why),
                Ok(reasoning) => {
                    let parts = match field_of(item, "content"@) {
                        Some(content) => content_of(content, Role::Assistant, index),
                        None => Ok(Seq::empty()),
                    };
                    match parts {
                        Err(why) => Err(why),
                        Ok(parts) => match field_of(item, "refusal"@) {
                            None => Ok((Role::Assistant, parts, reasoning, calls, Seq::empty())),
                            Some(Json::Text(t)) => if t@.len() == 0 {
                                Ok((Role::Assistant, parts, reasoning, calls, Seq::empty()))
                            } else {
                                Ok(
                                    (
                                        Role::Assistant,
                                        parts.push((t@, Marked::Unmarked)),
                                        reasoning,
                                        calls,
                                        Seq::empty(),
                                    ),
                                )
                            },
                            Some(_) => Err(("assistant refusal must be a string"@, "messages"@, ""@)),
                        },
                    }
                },
            },
        }
    }
}

/// A system, developer or user turn: no calls, and content.
pub open spec fn plain_turn(item: Seq<(String, Json)>, role: Role, index: nat) -> Result<TurnView, Why> {
    if carries_calls(item) {
        Err(("non-empty tool_calls are only valid on assistant messages"@, "messages"@, ""@))
    } else {
        match field_of(item, "content"@) {
            None => Err((message_at(index) + " must have content"@, "messages"@, ""@)),
            Some(content) => match content_of(content, role, index) {
                Err(why) => Err(why),
                Ok(parts) => Ok((role, parts, Seq::empty(), Seq::empty(), Seq::empty())),
            },
        }
    }
}

/// A turn whose role reads as `role`, as ninfer checks it: the name only a
/// tool turn may carry, the legacy function's name, the fields only an
/// assistant turn may carry, the call id only a tool turn may carry, then
/// the role's own fields.
pub open spec fn turn_with_role(item: Seq<(String, Json)>, role_name: Seq<char>, role: Role, index: nat) -> Result<
    TurnView,
    Why,
> {
    let legacy = role_name == "function"@;
    let name = field_of(item, "name"@);
    if !(name is None || name matches Some(Json::Text(_))) {
        Err(("message name must be a string"@, "messages"@, ""@))
    } else if (name matches Some(Json::Text(t)) && t@.len() > 0) && role != Role::Tool {
        Err(
            (
                "a non-empty message name changes participant identity"@,
                "messages"@,
                "message_name_not_supported"@,
            ),
        )
    } else if legacy && function_name_of(item, "messages"@) is Err {
        Err(function_name_of(item, "messages"@)->Err_0)
    } else if role != Role::Assistant && field_of(item, "function_call"@) is Some {
        Err(("function_call is only valid on assistant messages"@, "messages"@, ""@))
    } else if role != Role::Assistant && nonempty_refusal(
        item,
        "reasoning"@,
        "reasoning is only valid on assistant messages"@,
    ) is Some {
        Err(
            nonempty_refusal(
                item,
                "reasoning"@,
                "reasoning is only valid on assistant messages"@,
            )->Some_0,
        )
    } else if role != Role::Assistant && nonempty_refusal(
        item,
        "reasoning_content"@,
        "reasoning_content is only valid on assistant messages"@,
    ) is Some {
        Err(
            nonempty_refusal(
                item,
                "reasoning_content"@,
                "reasoning_content is only valid on assistant messages"@,
            )->Some_0,
        )
    } else if role == Role::Tool {
        tool_turn(item, legacy, index)
    } else if nonempty_refusal(
        item,
        "tool_call_id"@,
        "a non-empty tool_call_id is only valid on tool messages"@,
    ) is Some {
        Err(
            nonempty_refusal(
                item,
                "tool_call_id"@,
                "a non-empty tool_call_id is only valid on tool messages"@,
            )->Some_0,
        )
    } else if role == Role::Assistant {
        assistant_turn(item, index)
    } else {
        plain_turn(item, role, index)
    }
}

/// One turn of `messages`, at `index`, as ninfer reads it.
pub open spec fn turn_of(value: Json, index: nat) -> Result<TurnView, Why> {
    match value {
        Json::Object(object) => match string_member(object@, "role"@) {
            None => Err(
                (message_at(index) + " must be an object with a string role"@, "messages"@, ""@),
            ),
            Some(role_name) => match role_named(role_name) {
                Err(why) => Err(why),
                Ok(role) => turn_with_role(object@, role_name, role, index),
            },
        },
        _ => Err((message_at(index) + " must be an object with a string role"@, "messages"@, ""@)),
    }
}

/// Whether a `tool_calls` field is present with anything but an empty
/// array.
fn has_calls(item: &[(String, Json)]) -> (r: bool)
    ensures
        r == carries_calls(item@),
{
    match field(item, "tool_calls") {
        None => false,
        Some(Json::Array(list)) => list.len() > 0,
        Some(_) => true,
    }
}

/// The turn of a tool.
fn tool_message(item: &[(String, Json)], legacy: bool, index: usize) -> (r: Result<Turn, ApiError>)
    ensures
        match (r, tool_turn(item@, legacy, index as nat)) {
            (Ok(turn), Ok(wanted)) => turn@ == wanted,
            (Err(e), Err(why)) => refused_as(e, why),
            _ => false,
        },
{
    if has_calls(item) {
        return Err(ApiError::refusal("tool messages cannot contain tool_calls", "messages", ""));
    }
    let id = match field(item, "tool_call_id") {
        Some(Json::Text(id)) => String::from_str(id.as_str()),
        Some(_) => return Err(ApiError::refusal("tool_call_id must be a string", "messages", "")),
        None => {
            if legacy {
                String::new()
            } else {
                return Err(
                    ApiError::refusal(
                        "tool messages must contain a string tool_call_id",
                        "messages",
                        "",
                    ),
                );
            }
        },
    };
    let content = match field(item, "content") {
        None => return Err(ApiError::refusal("tool messages must contain content", "messages", "")),
        Some(content) => content,
    };
    let parts = content_parts(content, Role::Tool, index)?;
    let turn = Turn {
        role: Role::Tool,
        parts,
        reasoning: String::new(),
        tool_calls: Vec::new(),
        tool_call_id: id,
    };
    assert(call_views(turn.tool_calls@) =~= Seq::empty());
    Ok(turn)
}

/// The turn of the assistant.
fn assistant_message(item: &[(String, Json)], index: usize) -> (r: Result<Turn, ApiError>)
    ensures
        match (r, assistant_turn(item@, index as nat)) {
            (Ok(turn), Ok(wanted)) => turn@ == wanted,
            (Err(e), Err(why)) => refused_as(e, why),
            _ => false,
        },
{
    if field(item, "audio").is_some() {
        return Err(
            ApiError::refusal(
                "assistant audio history is not supported",
                "messages",
                "assistant_history_not_supported",
            ),
        );
    }
    let tool_calls = assistant_calls(item, index)?;
    let reasoning = assistant_reasoning(item, index)?;
    let mut parts = match field(item, "content") {
        Some(content) => content_parts(content, Role::Assistant, index)?,
        None => {
            let none: Vec<(String, Marked)> = Vec::new();
            assert(part_views(none@) =~= Seq::empty());
            none
        },
    };
    match field(item, "refusal") {
        None => {},
        Some(Json::Text(t)) => {
            if t.as_str().unicode_len() > 0 {
                let ghost earlier = parts@;
                parts.push((String::from_str(t.as_str()), Marked::Unmarked));
                assert(part_views(parts@) =~= part_views(earlier).push((t@, Marked::Unmarked)));
            }
        },
        Some(_) => return Err(
            ApiError::refusal("assistant refusal must be a string", "messages", ""),
        ),
    }
    Ok(Turn { role: Role::Assistant, parts, reasoning, tool_calls, tool_call_id: String::new() })
}

/// The turn of a system, developer or user.
fn plain_message(item: &[(String, Json)], role: Role, index: usize) -> (r: Result<Turn, ApiError>)
    ensures
        match (r, plain_turn(item@, role, index as nat)) {
            (Ok(turn), Ok(wanted)) => turn@ == wanted,
            (Err(e), Err(why)) => refused_as(e, why),
            _ => false,
        },
{
    proof {
        reveal_strlit("message ");
        reveal_strlit(" must have content");
    }
    if has_calls(item) {
        return Err(
            ApiError::refusal(
                "non-empty tool_calls are only valid on assistant messages",
                "messages",
                "",
            ),
        );
    }
    let content = match field(item, "content") {
        None => {
            let mut message = String::from_str("message ");
            message.append(decimal(index as u64).as_str());
            message.append(" must have content");
            return Err(ApiError::refusal(message.as_str(), "messages", ""));
        },
        Some(content) => content,
    };
    let parts = content_parts(content, role, index)?;
    let turn = Turn {
        role,
        parts,
        reasoning: String::new(),
        tool_calls: Vec::new(),
        tool_call_id: String::new(),
    };
    assert(call_views(turn.tool_calls@) =~= Seq::empty());
    Ok(turn)
}

/// One turn: its role, parts, and the reasoning, tool calls or tool-call id
/// its role admits, with each part's explicit breakpoint beside it.
pub fn message(value: &Json, index: usize) -> (r: Result<Turn, ApiError>)
    ensures
        match (r, turn_of(*value, index as nat)) {
            (Ok(turn), Ok(wanted)) => turn@ == wanted,
            (Err(e), Err(why)) => refused_as(e, why),
            _ => false,
        },
{
    proof {
        reveal_strlit("message ");
        reveal_strlit(" must be an object with a string role");
        reveal_strlit("role");
        reveal_strlit("function");
    }
    let shape = " must be an object with a string role";
    let item = match value {
        Json::Object(item) => item.as_slice(),
        _ => {
            let mut message = String::from_str("message ");
            message.append(decimal(index as u64).as_str());
            message.append(shape);
            return Err(ApiError::refusal(message.as_str(), "messages", ""));
        },
    };
    let role_name = match string_at(item, "role") {
        None => {
            let mut message = String::from_str("message ");
            message.append(decimal(index as u64).as_str());
            message.append(shape);
            return Err(ApiError::refusal(message.as_str(), "messages", ""));
        },
        Some(name) => name,
    };
    let role = role_of(role_name)?;
    let legacy = crate::letters::same_text(role_name, "function");
    match field(item, "name") {
        None => {},
        Some(Json::Text(t)) => {
            if t.as_str().unicode_len() > 0 && role != Role::Tool {
                return Err(
                    ApiError::refusal(
                        "a non-empty message name changes participant identity",
                        "messages",
                        "message_name_not_supported",
                    ),
                );
            }
        },
        Some(_) => return Err(ApiError::refusal("message name must be a string", "messages", "")),
    }
    if legacy {
        function_name(item, "messages")?;
    }
    if role != Role::Assistant {
        if field(item, "function_call").is_some() {
            return Err(
                ApiError::refusal(
                    "function_call is only valid on assistant messages",
                    "messages",
                    "",
                ),
            );
        }
        require_empty(item, "reasoning", "reasoning is only valid on assistant messages")?;
        require_empty(
            item,
            "reasoning_content",
            "reasoning_content is only valid on assistant messages",
        )?;
    }
    if role == Role::Tool {
        return tool_message(item, legacy, index);
    }
    require_empty(
        item,
        "tool_call_id",
        "a non-empty tool_call_id is only valid on tool messages",
    )?;
    if role == Role::Assistant {
        return assistant_message(item, index);
    }
    plain_message(item, role, index)
}

} // verus!
