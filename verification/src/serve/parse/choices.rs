//! The template choices a body makes: thinking, preserved thinking and
//! reasoning effort, in their typed and `chat_template_kwargs` spellings,
//! the remaining template arguments, and the output limit.
use vstd::prelude::*;
use vstd::string::*;
use crate::chat::request::Effort;
use crate::chat::request::Switch;
use crate::json::quote;
use crate::round::token::TokenCount;
use crate::serve::error::ApiError;
use crate::serve::error::Why;
use crate::serve::error::refused_as;
use crate::serve::value::Json;
use crate::serve::value::field;
use crate::serve::value::field_of;
use crate::serve::value::member_text;
use crate::serve::value::members_text;
use crate::serve::value::write_json;
use crate::serve::parse::read::Flag;
use crate::serve::parse::read::flag_of;
use crate::serve::parse::read::integer;
use crate::serve::parse::read::integer_of;
use crate::serve::parse::read::not_nullable_boolean;
use crate::serve::parse::read::nullable_boolean;

verus! {

/// The effort a value names: the seven efforts by name.
pub open spec fn effort_named(value: Json) -> Option<Effort> {
    match value {
        Json::Text(s) => if s@ == "none"@ {
            Some(Effort::NoEffort)
        } else if s@ == "minimal"@ {
            Some(Effort::Minimal)
        } else if s@ == "low"@ {
            Some(Effort::Low)
        } else if s@ == "medium"@ {
            Some(Effort::Medium)
        } else if s@ == "high"@ {
            Some(Effort::High)
        } else if s@ == "xhigh"@ {
            Some(Effort::XHigh)
        } else if s@ == "max"@ {
            Some(Effort::Max)
        } else {
            None
        },
        _ => None,
    }
}

/// The effort a value names.
fn effort_of(value: &Json) -> (r: Option<Effort>)
    ensures
        r == effort_named(*value),
{
    let name = match value {
        Json::Text(s) => s.as_str(),
        _ => return None,
    };
    if crate::letters::same_text(name, "none") {
        Some(Effort::NoEffort)
    } else if crate::letters::same_text(name, "minimal") {
        Some(Effort::Minimal)
    } else if crate::letters::same_text(name, "low") {
        Some(Effort::Low)
    } else if crate::letters::same_text(name, "medium") {
        Some(Effort::Medium)
    } else if crate::letters::same_text(name, "high") {
        Some(Effort::High)
    } else if crate::letters::same_text(name, "xhigh") {
        Some(Effort::XHigh)
    } else if crate::letters::same_text(name, "max") {
        Some(Effort::Max)
    } else {
        None
    }
}

/// A switch's neutral form.
pub open spec fn switch_for(value: Flag) -> Switch {
    match value {
        Flag::True => Switch::On,
        Flag::False => Switch::Off,
        Flag::Unset => Switch::ModelDefault,
    }
}

/// A switch's neutral form.
pub fn switch_of(value: Flag) -> (r: Switch)
    ensures
        r == switch_for(value),
{
    match value {
        Flag::True => Switch::On,
        Flag::False => Switch::Off,
        Flag::Unset => Switch::ModelDefault,
    }
}

/// A typed template switch merged with its `chat_template_kwargs` spelling:
/// the nested value when set, else the typed one; refused when the nested
/// value is not a boolean, or both are set and differ.
pub open spec fn merged_switch(kwargs: Seq<(String, Json)>, key: Seq<char>, typed: Flag) -> Result<Flag, Why> {
    match flag_of(kwargs, key, not_nullable_boolean()) {
        Err(why) => Err(why),
        Ok(Flag::Unset) => Ok(typed),
        Ok(nested) => if typed != Flag::Unset && typed != nested {
            Err(("conflicting "@ + key + " values"@, key, "conflicting_template_option"@))
        } else {
            Ok(nested)
        },
    }
}

/// Merge a typed template switch with its `chat_template_kwargs` spelling.
fn merge_switch(kwargs: &[(String, Json)], key: &str, typed: Flag) -> (r: Result<Flag, ApiError>)
    ensures
        crate::serve::error::answers(r, merged_switch(kwargs@, key@, typed)),
{
    proof {
        reveal_strlit("conflicting ");
        reveal_strlit(" values");
    }
    let nested = nullable_boolean(kwargs, key)?;
    if nested == Flag::Unset {
        return Ok(typed);
    }
    if typed != Flag::Unset && typed != nested {
        let mut message = String::from_str("conflicting ");
        message.append(key);
        message.append(" values");
        return Err(ApiError::refusal(message.as_str(), key, "conflicting_template_option"));
    }
    Ok(nested)
}

/// Whether a member is one of the choices merged out of the template
/// arguments.
pub open spec fn merged_key(key: Seq<char>) -> bool {
    key == "enable_thinking"@ || key == "preserve_thinking"@ || key == "reasoning_effort"@
}

/// The template arguments left once the merged choices leave them, in wire
/// order.
pub open spec fn remaining(members: Seq<(String, Json)>) -> Seq<(String, Json)>
    decreases members.len(),
{
    if members.len() == 0 {
        Seq::empty()
    } else if merged_key(members.last().0@) {
        remaining(members.drop_last())
    } else {
        remaining(members.drop_last()).push(members.last())
    }
}

/// The remaining template arguments' JSON object text, `{}` when there are
/// none.
pub open spec fn arguments_text(kwargs: Seq<(String, Json)>) -> Seq<char> {
    "{"@ + members_text(remaining(kwargs)) + "}"@
}

/// Write the remaining template arguments as a JSON object.
fn write_arguments(kwargs: &[(String, Json)]) -> (r: String)
    ensures
        r@ == arguments_text(kwargs@),
{
    let mut out = String::from_str("{");
    let ghost start = out@;
    let mut written: usize = 0;
    let mut i: usize = 0;
    assert(kwargs@.take(0).len() == 0);
    while i < kwargs.len()
        invariant
            i <= kwargs@.len(),
            written == remaining(kwargs@.take(i as int)).len(),
            written <= i,
            out@ == start + members_text(remaining(kwargs@.take(i as int))),
        decreases kwargs@.len() - i,
    {
        let key = kwargs[i].0.as_str();
        let ghost taken = kwargs@.take(i + 1);
        proof {
            assert(taken.drop_last() == kwargs@.take(i as int));
            assert(taken.last() == kwargs@[i as int]);
        }
        let merged = crate::letters::same_text(key, "enable_thinking") || crate::letters::same_text(
            key,
            "preserve_thinking",
        ) || crate::letters::same_text(key, "reasoning_effort");
        if !merged {
            let ghost earlier = remaining(kwargs@.take(i as int));
            if written > 0 {
                out.append(",");
            }
            out.append(quote(key).as_str());
            out.append(":");
            write_json(&mut out, &kwargs[i].1);
            written = written + 1;
            proof {
                let grown = earlier.push(kwargs@[i as int]);
                assert(remaining(taken) == grown);
                assert(grown.drop_last() == earlier);
                if earlier.len() == 0 {
                    assert(members_text(grown) == member_text(grown[0]));
                } else {
                    assert(members_text(grown) == members_text(earlier) + ","@ + member_text(
                        grown.last(),
                    ));
                }
            }
        }
        i = i + 1;
    }
    assert(kwargs@.take(kwargs@.len() as int) == kwargs@);
    out.append("}");
    out
}

/// The template choices as ninfer reads them: the typed and nested
/// spellings of `enable_thinking`, `preserve_thinking` and
/// `reasoning_effort` merge into one value each and leave the arguments; an
/// effort sets thinking on unless it is `none`, and conflicts with thinking
/// turned the other way; the remaining arguments keep their wire order.
pub open spec fn choices_of(body: Seq<(String, Json)>) -> Result<(Switch, Switch, Effort, Seq<char>), Why> {
    let kwargs = match field_of(body, "chat_template_kwargs"@) {
        None => Ok(Seq::<(String, Json)>::empty()),
        Some(Json::Object(map)) => Ok(map@),
        Some(_) => Err(("chat_template_kwargs must be an object"@, "chat_template_kwargs"@, ""@)),
    };
    match kwargs {
        Err(why) => Err(why),
        Ok(kwargs) => match flag_of(body, "enable_thinking"@, not_nullable_boolean()) {
            Err(why) => Err(why),
            Ok(typed_thinking) => match merged_switch(kwargs, "enable_thinking"@, typed_thinking) {
                Err(why) => Err(why),
                Ok(thinking) => match flag_of(body, "preserve_thinking"@, not_nullable_boolean()) {
                    Err(why) => Err(why),
                    Ok(typed_preserve) => match merged_switch(
                        kwargs,
                        "preserve_thinking"@,
                        typed_preserve,
                    ) {
                        Err(why) => Err(why),
                        Ok(preserve) => match typed_effort(body) {
                            Err(why) => Err(why),
                            Ok(typed) => match nested_effort(kwargs, typed) {
                                Err(why) => Err(why),
                                Ok(effort) => match effort_thinking(switch_for(thinking), effort) {
                                    Err(why) => Err(why),
                                    Ok(switch) => Ok(
                                        (switch, switch_for(preserve), effort, arguments_text(kwargs)),
                                    ),
                                },
                            },
                        },
                    },
                },
            },
        },
    }
}

/// The typed `reasoning_effort`: unrequested when absent; refused when not a
/// string or not one of the seven names.
pub open spec fn typed_effort(body: Seq<(String, Json)>) -> Result<Effort, Why> {
    match field_of(body, "reasoning_effort"@) {
        None => Ok(Effort::Unrequested),
        Some(value) => if !(value matches Json::Text(_)) {
            Err(("reasoning_effort must be a string or null"@, "reasoning_effort"@, ""@))
        } else {
            match effort_named(value) {
                Some(effort) => Ok(effort),
                None => Err(
                    (
                        "reasoning_effort must be one of none, minimal, low, medium, high, xhigh, or max"@,
                        "reasoning_effort"@,
                        ""@,
                    ),
                ),
            }
        },
    }
}

/// The nested `reasoning_effort` merged with the typed one: a string naming
/// an effort, which must agree with a typed one.
pub open spec fn nested_effort(kwargs: Seq<(String, Json)>, typed: Effort) -> Result<Effort, Why> {
    match field_of(kwargs, "reasoning_effort"@) {
        None => Ok(typed),
        Some(Json::Text(s)) => match effort_named(Json::Text(s)) {
            None => Err(("invalid reasoning_effort"@, "reasoning_effort"@, "invalid_template_option"@)),
            Some(nested) => if typed != Effort::Unrequested && typed != nested {
                Err(
                    (
                        "conflicting reasoning_effort values"@,
                        "reasoning_effort"@,
                        "conflicting_template_option"@,
                    ),
                )
            } else {
                Ok(nested)
            },
        },
        Some(_) => Err(
            ("reasoning_effort must be a string"@, "reasoning_effort"@, "invalid_template_option"@),
        ),
    }
}

/// Thinking once an effort applies: an effort turns thinking on, `none`
/// turns it off, and either conflicts with thinking set the other way.
pub open spec fn effort_thinking(thinking: Switch, effort: Effort) -> Result<Switch, Why> {
    if effort == Effort::Unrequested {
        Ok(thinking)
    } else {
        let enables = if effort == Effort::NoEffort {
            Switch::Off
        } else {
            Switch::On
        };
        if thinking != Switch::ModelDefault && thinking != enables {
            Err(
                (
                    "reasoning effort conflicts with enable_thinking"@,
                    "reasoning_effort"@,
                    "conflicting_template_option"@,
                ),
            )
        } else {
            Ok(enables)
        }
    }
}

/// The template choices: thinking, preserved thinking, effort, and the
/// remaining template arguments as a JSON object's text.
pub fn template_choices(body: &[(String, Json)]) -> (r: Result<(Switch, Switch, Effort, String), ApiError>)
    ensures
        match (r, choices_of(body@)) {
            (Ok((thinking, preserve, effort, arguments)), Ok(wanted)) => (
                thinking,
                preserve,
                effort,
                arguments@,
            ) == wanted,
            (Err(e), Err(why)) => refused_as(e, why),
            _ => false,
        },
{
    let empty: Vec<(String, Json)> = Vec::new();
    let kwargs: &[(String, Json)] = match field(body, "chat_template_kwargs") {
        None => empty.as_slice(),
        Some(Json::Object(map)) => map.as_slice(),
        Some(_) => return Err(
            ApiError::refusal(
                "chat_template_kwargs must be an object",
                "chat_template_kwargs",
                "",
            ),
        ),
    };
    let typed_thinking = nullable_boolean(body, "enable_thinking")?;
    let thinking = merge_switch(kwargs, "enable_thinking", typed_thinking)?;
    let typed_preserve = nullable_boolean(body, "preserve_thinking")?;
    let preserve = merge_switch(kwargs, "preserve_thinking", typed_preserve)?;
    let mut effort = match field(body, "reasoning_effort") {
        None => Effort::Unrequested,
        Some(value) => {
            if !matches!(value, Json::Text(_)) {
                return Err(
                    ApiError::refusal(
                        "reasoning_effort must be a string or null",
                        "reasoning_effort",
                        "",
                    ),
                );
            }
            match effort_of(value) {
                Some(effort) => effort,
                None => return Err(
                    ApiError::refusal(
                        "reasoning_effort must be one of none, minimal, low, medium, high, xhigh, or max",
                        "reasoning_effort",
                        "",
                    ),
                ),
            }
        },
    };
    match field(kwargs, "reasoning_effort") {
        None => {},
        Some(Json::Text(s)) => {
            let named = match field(kwargs, "reasoning_effort") {
                Some(value) => effort_of(value),
                None => None,
            };
            match named {
                None => return Err(
                    ApiError::refusal(
                        "invalid reasoning_effort",
                        "reasoning_effort",
                        "invalid_template_option",
                    ),
                ),
                Some(nested) => {
                    if effort != Effort::Unrequested && effort != nested {
                        return Err(
                            ApiError::refusal(
                                "conflicting reasoning_effort values",
                                "reasoning_effort",
                                "conflicting_template_option",
                            ),
                        );
                    }
                    effort = nested;
                },
            }
        },
        Some(_) => return Err(
            ApiError::refusal(
                "reasoning_effort must be a string",
                "reasoning_effort",
                "invalid_template_option",
            ),
        ),
    }
    let mut switch = switch_of(thinking);
    if effort != Effort::Unrequested {
        let enables = if effort == Effort::NoEffort {
            Switch::Off
        } else {
            Switch::On
        };
        if switch != Switch::ModelDefault && switch != enables {
            return Err(
                ApiError::refusal(
                    "reasoning effort conflicts with enable_thinking",
                    "reasoning_effort",
                    "conflicting_template_option",
                ),
            );
        }
        switch = enables;
    }
    let arguments = write_arguments(kwargs);
    Ok((switch, switch_of(preserve), effort, arguments))
}

/// The output limit as ninfer reads it: `max_completion_tokens`, else
/// `max_tokens`, else the default; refused when the named field is
/// malformed or negative.
pub open spec fn output_tokens_of(body: Seq<(String, Json)>, default: TokenCount) -> Result<TokenCount, Why> {
    match integer_of(body, "max_completion_tokens"@) {
        Err(why) => Err(why),
        Ok(Some(limit)) => if limit >= 0 {
            Ok(TokenCount(limit as u32))
        } else {
            Err(("max_completion_tokens must be nonnegative"@, "max_completion_tokens"@, ""@))
        },
        Ok(None) => match integer_of(body, "max_tokens"@) {
            Err(why) => Err(why),
            Ok(Some(limit)) => if limit >= 0 {
                Ok(TokenCount(limit as u32))
            } else {
                Err(("max_tokens must be nonnegative"@, "max_tokens"@, ""@))
            },
            Ok(None) => Ok(default),
        },
    }
}

/// The output limit.
pub fn output_tokens(body: &[(String, Json)], default: TokenCount) -> (r: Result<TokenCount, ApiError>)
    ensures
        crate::serve::error::answers(r, output_tokens_of(body@, default)),
{
    match integer(body, "max_completion_tokens")? {
        Some(limit) => {
            if limit >= 0 {
                return Ok(TokenCount::from(limit as u32));
            }
            return Err(
                ApiError::refusal(
                    "max_completion_tokens must be nonnegative",
                    "max_completion_tokens",
                    "",
                ),
            );
        },
        None => {},
    }
    match integer(body, "max_tokens")? {
        Some(limit) => {
            if limit >= 0 {
                return Ok(TokenCount::from(limit as u32));
            }
            Err(ApiError::refusal("max_tokens must be nonnegative", "max_tokens", ""))
        },
        None => Ok(default),
    }
}

} // verus!
