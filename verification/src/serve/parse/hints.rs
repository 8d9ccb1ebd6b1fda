//! The prompt-cache hints a body may carry, checked as ninfer checks them,
//! and the automatic-write policy they name.
use vstd::prelude::*;
use vstd::utf8::encode_utf8;
use crate::serve::error::ApiError;
use crate::serve::error::Why;
use crate::serve::error::answers;
use crate::serve::value::Json;
use crate::serve::value::field;
use crate::serve::value::field_of;
use crate::serve::parse::read::about;

verus! {

/// Which automatic cache write a body asks for.
#[derive(Debug, Clone, Copy, PartialEq, Eq, Structural)]
pub enum AutomaticWrite {
    /// None: only explicit breakpoints write.
    Disabled,
    /// The protocol's default, absent `prompt_cache_options`.
    Default,
    /// The one `prompt_cache_options` asks for.
    Requested,
}

/// The refusal of an identifying hint: not a string, or longer than `limit`
/// bytes when a limit applies.
pub open spec fn identity_refusal(body: Seq<(String, Json)>, key: Seq<char>, limit: Option<nat>) -> Option<Why> {
    match field_of(body, key) {
        None => None,
        Some(Json::Text(s)) => match limit {
            Some(most) => if encode_utf8(s@).len() > most {
                Some((key + " is too long"@, key, ""@))
            } else {
                None
            },
            None => None,
        },
        Some(_) => Some((key + " must be a string"@, key, ""@)),
    }
}

/// The refusal of `prompt_cache_retention`: anything but `in_memory` or
/// `24h`.
pub open spec fn retention_refusal(body: Seq<(String, Json)>) -> Option<Why> {
    match field_of(body, "prompt_cache_retention"@) {
        None => None,
        Some(Json::Text(s)) => if s@ == "in_memory"@ || s@ == "24h"@ {
            None
        } else {
            Some(
                (
                    "prompt_cache_retention must be 'in_memory' or '24h'"@,
                    "prompt_cache_retention"@,
                    ""@,
                ),
            )
        },
        Some(_) => Some(("prompt_cache_retention must be a string"@, "prompt_cache_retention"@, ""@)),
    }
}

/// The policy `prompt_cache_options` names, or its refusal: absent, the
/// default automatic write; a `mode` other than `implicit` or `explicit`, or
/// a `ttl` other than `30m`, refused; mode `explicit`, no automatic write;
/// otherwise the requested one.
pub open spec fn options_policy(body: Seq<(String, Json)>) -> Result<AutomaticWrite, Why> {
    match field_of(body, "prompt_cache_options"@) {
        None => Ok(AutomaticWrite::Default),
        Some(Json::Object(map)) => {
            let mode = field_of(map@, "mode"@);
            let ttl = field_of(map@, "ttl"@);
            if mode is Some && !(mode matches Some(Json::Text(m)) && (m@ == "implicit"@ || m@
                == "explicit"@)) {
                Err(
                    (
                        "prompt_cache_options.mode must be 'implicit' or 'explicit'"@,
                        "prompt_cache_options"@,
                        ""@,
                    ),
                )
            } else if ttl is Some && !(ttl matches Some(Json::Text(t)) && t@ == "30m"@) {
                Err(("prompt_cache_options.ttl must be '30m'"@, "prompt_cache_options"@, ""@))
            } else if mode matches Some(Json::Text(m)) && m@ == "explicit"@ {
                Ok(AutomaticWrite::Disabled)
            } else {
                Ok(AutomaticWrite::Requested)
            }
        },
        Some(_) => Err(("prompt_cache_options must be an object"@, "prompt_cache_options"@, ""@)),
    }
}

/// The hints' verdict, as ninfer checks them in order: `prompt_cache_key`
/// and `safety_identifier` strings of at most 64 bytes, a `user` string,
/// `prompt_cache_retention`, then `prompt_cache_options` and the policy it
/// names.
pub open spec fn cache_policy_of(body: Seq<(String, Json)>) -> Result<AutomaticWrite, Why> {
    match identity_refusal(body, "prompt_cache_key"@, Some(64)) {
        Some(why) => Err(why),
        None => match identity_refusal(body, "safety_identifier"@, Some(64)) {
            Some(why) => Err(why),
            None => match identity_refusal(body, "user"@, None) {
                Some(why) => Err(why),
                None => match retention_refusal(body) {
                    Some(why) => Err(why),
                    None => options_policy(body),
                },
            },
        },
    }
}

fn check_identity(body: &[(String, Json)], key: &str, limited: bool) -> (r: Result<(), ApiError>)
    ensures
        crate::serve::error::refuses(r, identity_refusal(body@, key@, if limited {
            Some(64)
        } else {
            None
        })),
{
    proof {
        reveal_strlit(" is too long");
        reveal_strlit(" must be a string");
        reveal_strlit("");
    }
    match field(body, key) {
        None => Ok(()),
        Some(Json::Text(s)) => {
            if limited && s.as_str().as_bytes().len() > 64 {
                Err(ApiError::refusal(about(key, " is too long").as_str(), key, ""))
            } else {
                Ok(())
            }
        },
        Some(_) => Err(ApiError::refusal(about(key, " must be a string").as_str(), key, "")),
    }
}

/// The text of a present string member, if it is one.
fn text_field<'a>(members: &'a [(String, Json)], key: &str) -> (r: Option<&'a str>)
    ensures
        match r {
            Some(text) => field_of(members@, key@) == Some(Json::Text(
                field_of(members@, key@)->Some_0->Text_0,
            )) && field_of(members@, key@)->Some_0->Text_0@ == text@,
            None => !(field_of(members@, key@) matches Some(Json::Text(_))),
        },
{
    match field(members, key) {
        Some(Json::Text(s)) => Some(s.as_str()),
        _ => None,
    }
}

/// Validate the prompt-cache hints and read the automatic-write policy.
pub fn cache_policy(body: &[(String, Json)]) -> (r: Result<AutomaticWrite, ApiError>)
    ensures
        answers(r, cache_policy_of(body@)),
{
    check_identity(body, "prompt_cache_key", true)?;
    check_identity(body, "safety_identifier", true)?;
    check_identity(body, "user", false)?;
    match field(body, "prompt_cache_retention") {
        None => {},
        Some(Json::Text(s)) => {
            if !(crate::letters::same_text(s.as_str(), "in_memory") || crate::letters::same_text(
                s.as_str(),
                "24h",
            )) {
                return Err(
                    ApiError::refusal(
                        "prompt_cache_retention must be 'in_memory' or '24h'",
                        "prompt_cache_retention",
                        "",
                    ),
                );
            }
        },
        Some(_) => return Err(
            ApiError::refusal(
                "prompt_cache_retention must be a string",
                "prompt_cache_retention",
                "",
            ),
        ),
    }
    let map = match field(body, "prompt_cache_options") {
        None => return Ok(AutomaticWrite::Default),
        Some(Json::Object(map)) => map,
        Some(_) => return Err(
            ApiError::refusal(
                "prompt_cache_options must be an object",
                "prompt_cache_options",
                "",
            ),
        ),
    };
    let mode_present = field(map.as_slice(), "mode").is_some();
    let mode = text_field(map.as_slice(), "mode");
    let mut explicit = false;
    if mode_present {
        let known = match mode {
            Some(m) => {
                explicit = crate::letters::same_text(m, "explicit");
                crate::letters::same_text(m, "implicit") || explicit
            },
            None => false,
        };
        if !known {
            return Err(
                ApiError::refusal(
                    "prompt_cache_options.mode must be 'implicit' or 'explicit'",
                    "prompt_cache_options",
                    "",
                ),
            );
        }
    }
    if field(map.as_slice(), "ttl").is_some() {
        let fixed = match text_field(map.as_slice(), "ttl") {
            Some(t) => crate::letters::same_text(t, "30m"),
            None => false,
        };
        if !fixed {
            return Err(
                ApiError::refusal(
                    "prompt_cache_options.ttl must be '30m'",
                    "prompt_cache_options",
                    "",
                ),
            );
        }
    }
    if explicit {
        Ok(AutomaticWrite::Disabled)
    } else {
        Ok(AutomaticWrite::Requested)
    }
}

} // verus!
