//! The output controls the Engine cannot honour, refused unless they carry
//! their neutral values, as ninfer's server refuses them.
use vstd::prelude::*;
use crate::serve::error::ApiError;
use crate::serve::error::Why;
use crate::serve::error::either;
use crate::serve::error::refuses;
use crate::serve::value::Json;
use crate::serve::value::field;
use crate::serve::value::field_of;
use crate::serve::value::string_at;
use crate::serve::value::string_member;
use crate::serve::parse::read::Flag;
use crate::serve::parse::read::about;
use crate::serve::parse::read::boolean;
use crate::serve::parse::read::flag_of;
use crate::serve::parse::read::integer;
use crate::serve::parse::read::integer_of;
use crate::serve::parse::read::is_zero;
use crate::serve::parse::read::is_one;
use crate::serve::parse::read::not_boolean;
use crate::serve::parse::read::number;
use crate::serve::parse::read::number_of;
use crate::serve::parse::read::reads_one;
use crate::serve::parse::read::reads_zero;

verus! {

/// The refusal of legacy `functions`: present and not an array, or a
/// non-empty array.
pub open spec fn functions_refusal(body: Seq<(String, Json)>) -> Option<Why> {
    match field_of(body, "functions"@) {
        None => None,
        Some(Json::Array(list)) => if list@.len() == 0 {
            None
        } else {
            Some(
                (
                    "non-empty legacy functions are not supported; use tools instead"@,
                    "functions"@,
                    "legacy_tools_not_supported"@,
                ),
            )
        },
        Some(_) => Some(("functions must be an array"@, "functions"@, ""@)),
    }
}

/// The refusal of a legacy `function_call`: anything but `none`, `auto`.
pub open spec fn function_call_refusal(body: Seq<(String, Json)>) -> Option<Why> {
    match field_of(body, "function_call"@) {
        None => None,
        Some(Json::Text(s)) => if s@ == "none"@ || s@ == "auto"@ {
            None
        } else {
            Some(("function_call must be 'none', 'auto', or an object"@, "function_call"@, ""@))
        },
        Some(Json::Object(_)) => Some(
            (
                "a named legacy function_call requires forced tool invocation"@,
                "function_call"@,
                "legacy_tools_not_supported"@,
            ),
        ),
        Some(_) => Some(("function_call must be 'none', 'auto', or an object"@, "function_call"@, ""@)),
    }
}

/// The refusal of one `logit_bias` entry: not a number, or not zero.
pub open spec fn bias_refusal(entry: (String, Json)) -> Option<Why> {
    match entry.1 {
        Json::Number(n) => if reads_zero(n) {
            None
        } else {
            Some(
                (
                    "nonzero logit_bias requires per-token logit modification"@,
                    "logit_bias"@,
                    "logit_bias_not_supported"@,
                ),
            )
        },
        _ => Some(("logit_bias values must be numbers"@, "logit_bias"@, ""@)),
    }
}

/// The refusal of the first refused `logit_bias` entry.
pub open spec fn first_bias_refusal(entries: Seq<(String, Json)>) -> Option<Why>
    decreases entries.len(),
{
    if entries.len() == 0 {
        None
    } else {
        either(bias_refusal(entries[0]), first_bias_refusal(entries.drop_first()))
    }
}

/// The refusal of `logit_bias`: not an object, or its first entry refused.
pub open spec fn logit_bias_refusal(body: Seq<(String, Json)>) -> Option<Why> {
    match field_of(body, "logit_bias"@) {
        None => None,
        Some(Json::Object(map)) => first_bias_refusal(map@),
        Some(_) => Some(("logit_bias must be an object"@, "logit_bias"@, ""@)),
    }
}

/// The refusal of `logprobs`: mistyped, or true.
pub open spec fn logprobs_refusal(body: Seq<(String, Json)>) -> Option<Why> {
    match flag_of(body, "logprobs"@, not_boolean()) {
        Err(why) => Some(why),
        Ok(Flag::True) => Some(
            (
                "logprobs=true requires per-token log probabilities"@,
                "logprobs"@,
                "logprobs_not_supported"@,
            ),
        ),
        Ok(_) => None,
    }
}

/// The refusal of `top_logprobs`: mistyped, or not zero.
pub open spec fn top_logprobs_refusal(body: Seq<(String, Json)>) -> Option<Why> {
    match integer_of(body, "top_logprobs"@) {
        Err(why) => Some(why),
        Ok(Some(count)) => if count != 0 {
            Some(
                (
                    "nonzero top_logprobs requires alternative-token probabilities"@,
                    "top_logprobs"@,
                    "logprobs_not_supported"@,
                ),
            )
        } else {
            None
        },
        Ok(None) => None,
    }
}

/// The string `type` of a value, which only an object has.
pub open spec fn type_of(value: Json) -> Option<Seq<char>> {
    match value {
        Json::Object(members) => string_member(members@, "type"@),
        _ => None,
    }
}

/// The refusal of `response_format`: any type but `text`.
pub open spec fn response_format_refusal(body: Seq<(String, Json)>) -> Option<Why> {
    match field_of(body, "response_format"@) {
        None => None,
        Some(format) => match type_of(format) {
            Some(kind) => if kind == "text"@ {
                None
            } else {
                Some(
                    (
                        "only {\"type\":\"text\"} response_format is available"@,
                        "response_format"@,
                        "response_format_not_supported"@,
                    ),
                )
            },
            None => Some(("response_format must contain a string type"@, "response_format"@, ""@)),
        },
    }
}

/// The refusal of one `modalities` entry: anything but `text`.
pub open spec fn modality_refusal(entry: Json) -> Option<Why> {
    match entry {
        Json::Text(s) => if s@ == "text"@ {
            None
        } else {
            Some(("only text output is produced"@, "modalities"@, "modality_not_supported"@))
        },
        _ => Some(("modalities entries must be strings"@, "modalities"@, ""@)),
    }
}

/// The refusal of the first refused `modalities` entry.
pub open spec fn first_modality_refusal(entries: Seq<Json>) -> Option<Why>
    decreases entries.len(),
{
    if entries.len() == 0 {
        None
    } else {
        either(modality_refusal(entries[0]), first_modality_refusal(entries.drop_first()))
    }
}

/// The refusal of `modalities`: not a non-empty array, or its first entry
/// refused.
pub open spec fn modalities_refusal(body: Seq<(String, Json)>) -> Option<Why> {
    match field_of(body, "modalities"@) {
        None => None,
        Some(Json::Array(list)) => if list@.len() == 0 {
            Some(("modalities must be a non-empty array"@, "modalities"@, ""@))
        } else {
            first_modality_refusal(list@)
        },
        Some(_) => Some(("modalities must be a non-empty array"@, "modalities"@, ""@)),
    }
}

/// The refusal of a field this server does not provide at all.
pub open spec fn unprovided_refusal(body: Seq<(String, Json)>, key: Seq<char>, code: Seq<char>) -> Option<Why> {
    match field_of(body, key) {
        None => None,
        Some(_) => Some((key + " is not provided"@, key, code)),
    }
}

/// The refusal of `verbosity`: anything but `medium`.
pub open spec fn verbosity_refusal(body: Seq<(String, Json)>) -> Option<Why> {
    match field_of(body, "verbosity"@) {
        None => None,
        Some(Json::Text(s)) => if s@ == "medium"@ {
            None
        } else if s@ == "low"@ || s@ == "high"@ {
            Some(
                (
                    "only the default verbosity 'medium' is accepted"@,
                    "verbosity"@,
                    "verbosity_not_supported"@,
                ),
            )
        } else {
            Some(("verbosity must be 'low', 'medium', or 'high'"@, "verbosity"@, ""@))
        },
        Some(_) => Some(("verbosity must be 'low', 'medium', or 'high'"@, "verbosity"@, ""@)),
    }
}

/// The refusal of `store`: mistyped, or true.
pub open spec fn store_refusal(body: Seq<(String, Json)>) -> Option<Why> {
    match flag_of(body, "store"@, not_boolean()) {
        Err(why) => Some(why),
        Ok(Flag::True) => Some(
            (
                "store=true requires a retrievable stored Chat Completion"@,
                "store"@,
                "store_not_supported"@,
            ),
        ),
        Ok(_) => None,
    }
}

/// The refusal of a constrained-decoding extension: any value, but an empty
/// `grammar` string.
pub open spec fn constrained_refusal(body: Seq<(String, Json)>, key: Seq<char>) -> Option<Why> {
    match field_of(body, key) {
        None => None,
        Some(value) => if key == "grammar"@ && (value matches Json::Text(text) && text@.len() == 0) {
            None
        } else {
            Some((key + " requests constrained decoding"@, key, "constrained_decoding_not_supported"@))
        },
    }
}

/// The refusal of every constrained-decoding extension, in ninfer's order.
pub open spec fn constraints_refusal(body: Seq<(String, Json)>) -> Option<Why> {
    either(
        constrained_refusal(body, "grammar"@),
        either(
            constrained_refusal(body, "structured_outputs"@),
            either(
                constrained_refusal(body, "guided_json"@),
                either(
                    constrained_refusal(body, "guided_regex"@),
                    either(
                        constrained_refusal(body, "guided_choice"@),
                        constrained_refusal(body, "guided_grammar"@),
                    ),
                ),
            ),
        ),
    )
}

/// The refusal of `repetition_penalty`: mistyped, or not one.
pub open spec fn repetition_refusal(body: Seq<(String, Json)>) -> Option<Why> {
    match number_of(body, "repetition_penalty"@) {
        Err(why) => Some(why),
        Ok(Some(n)) => if reads_one(n) {
            None
        } else {
            Some(
                (
                    "only repetition_penalty=1 is accepted"@,
                    "repetition_penalty"@,
                    "repetition_penalty_not_supported"@,
                ),
            )
        },
        Ok(None) => None,
    }
}

/// The refusal of `mm_processor_kwargs`: not an object, or any member not
/// `null`.
pub open spec fn mm_refusal(body: Seq<(String, Json)>) -> Option<Why> {
    match field_of(body, "mm_processor_kwargs"@) {
        None => None,
        Some(Json::Object(map)) => if exists|i: int| 0 <= i < map@.len() && map@[i].1 != Json::Null {
            Some(
                (
                    "mm_processor_kwargs overrides preprocessing, which vision-disabled serving cannot apply"@,
                    "mm_processor_kwargs"@,
                    "mm_processor_kwargs_not_supported"@,
                ),
            )
        } else {
            None
        },
        Some(_) => Some(("mm_processor_kwargs must be an object"@, "mm_processor_kwargs"@, ""@)),
    }
}

/// The refusal of a live-observation extension: mistyped, or true.
pub open spec fn observation_refusal(body: Seq<(String, Json)>, key: Seq<char>) -> Option<Why> {
    match flag_of(body, key, not_boolean()) {
        Err(why) => Some(why),
        Ok(Flag::True) => Some(
            (key + " live observations are not published"@, key, "observation_not_supported"@),
        ),
        Ok(_) => None,
    }
}

/// The first refusal ninfer's server makes of an output control, in its
/// order.
pub open spec fn unsupported_refusal(body: Seq<(String, Json)>) -> Option<Why> {
    either(
        functions_refusal(body),
        either(
            function_call_refusal(body),
            either(
                logit_bias_refusal(body),
                either(
                    logprobs_refusal(body),
                    either(
                        top_logprobs_refusal(body),
                        either(
                            response_format_refusal(body),
                            either(
                                modalities_refusal(body),
                                either(
                                    unprovided_refusal(
                                        body,
                                        "web_search_options"@,
                                        "web_search_not_supported"@,
                                    ),
                                    either(
                                        unprovided_refusal(
                                            body,
                                            "moderation"@,
                                            "moderation_not_supported"@,
                                        ),
                                        either(
                                            verbosity_refusal(body),
                                            either(
                                                store_refusal(body),
                                                either(
                                                    constraints_refusal(body),
                                                    either(
                                                        repetition_refusal(body),
                                                        either(
                                                            mm_refusal(body),
                                                            either(
                                                                observation_refusal(
                                                                    body,
                                                                    "timings_per_token"@,
                                                                ),
                                                                observation_refusal(
                                                                    body,
                                                                    "return_progress"@,
                                                                ),
                                                            ),
                                                        ),
                                                    ),
                                                ),
                                            ),
                                        ),
                                    ),
                                ),
                            ),
                        ),
                    ),
                ),
            ),
        ),
    )
}

fn refuse_functions(body: &[(String, Json)]) -> (r: Result<(), ApiError>)
    ensures
        refuses(r, functions_refusal(body@)),
{
    match field(body, "functions") {
        None => Ok(()),
        Some(Json::Array(list)) => {
            if list.len() == 0 {
                Ok(())
            } else {
                Err(
                    ApiError::refusal(
                        "non-empty legacy functions are not supported; use tools instead",
                        "functions",
                        "legacy_tools_not_supported",
                    ),
                )
            }
        },
        Some(_) => Err(ApiError::refusal("functions must be an array", "functions", "")),
    }
}

fn refuse_function_call(body: &[(String, Json)]) -> (r: Result<(), ApiError>)
    ensures
        refuses(r, function_call_refusal(body@)),
{
    let mistyped = "function_call must be 'none', 'auto', or an object";
    match field(body, "function_call") {
        None => Ok(()),
        Some(Json::Text(s)) => {
            if crate::letters::same_text(s.as_str(), "none") || crate::letters::same_text(
                s.as_str(),
                "auto",
            ) {
                Ok(())
            } else {
                Err(ApiError::refusal(mistyped, "function_call", ""))
            }
        },
        Some(Json::Object(_)) => Err(
            ApiError::refusal(
                "a named legacy function_call requires forced tool invocation",
                "function_call",
                "legacy_tools_not_supported",
            ),
        ),
        Some(_) => Err(ApiError::refusal(mistyped, "function_call", "")),
    }
}

fn refuse_logit_bias(body: &[(String, Json)]) -> (r: Result<(), ApiError>)
    ensures
        refuses(r, logit_bias_refusal(body@)),
{
    let map = match field(body, "logit_bias") {
        None => return Ok(()),
        Some(Json::Object(map)) => map,
        Some(_) => return Err(ApiError::refusal("logit_bias must be an object", "logit_bias", "")),
    };
    let mut i: usize = 0;
    assert(map@.skip(0) == map@);
    while i < map.len()
        invariant
            i <= map@.len(),
            field_of(body@, "logit_bias"@) == Some(Json::Object(*map)),
            first_bias_refusal(map@) == first_bias_refusal(map@.skip(i as int)),
        decreases map@.len() - i,
    {
        assert(map@.skip(i as int).drop_first() == map@.skip(i + 1));
        assert(map@.skip(i as int)[0] == map@[i as int]);
        match &map[i].1 {
            Json::Number(n) => {
                if !is_zero(n) {
                    return Err(
                        ApiError::refusal(
                            "nonzero logit_bias requires per-token logit modification",
                            "logit_bias",
                            "logit_bias_not_supported",
                        ),
                    );
                }
            },
            _ => return Err(
                ApiError::refusal("logit_bias values must be numbers", "logit_bias", ""),
            ),
        }
        i = i + 1;
    }
    Ok(())
}

fn refuse_logprobs(body: &[(String, Json)]) -> (r: Result<(), ApiError>)
    ensures
        refuses(r, logprobs_refusal(body@)),
{
    match boolean(body, "logprobs") {
        Err(e) => Err(e),
        Ok(Flag::True) => Err(
            ApiError::refusal(
                "logprobs=true requires per-token log probabilities",
                "logprobs",
                "logprobs_not_supported",
            ),
        ),
        Ok(_) => Ok(()),
    }
}

fn refuse_top_logprobs(body: &[(String, Json)]) -> (r: Result<(), ApiError>)
    ensures
        refuses(r, top_logprobs_refusal(body@)),
{
    match integer(body, "top_logprobs") {
        Err(e) => Err(e),
        Ok(Some(count)) => {
            if count != 0 {
                Err(
                    ApiError::refusal(
                        "nonzero top_logprobs requires alternative-token probabilities",
                        "top_logprobs",
                        "logprobs_not_supported",
                    ),
                )
            } else {
                Ok(())
            }
        },
        Ok(None) => Ok(()),
    }
}

/// The string `type` of a value, which only an object has.
pub fn type_at(value: &Json) -> (r: Option<&str>)
    ensures
        match r {
            Some(kind) => type_of(*value) == Some(kind@),
            None => type_of(*value) is None,
        },
{
    proof {
        reveal_strlit("type");
    }
    match value {
        Json::Object(members) => string_at(members.as_slice(), "type"),
        _ => None,
    }
}

fn refuse_response_format(body: &[(String, Json)]) -> (r: Result<(), ApiError>)
    ensures
        refuses(r, response_format_refusal(body@)),
{
    let format = match field(body, "response_format") {
        None => return Ok(()),
        Some(format) => format,
    };
    match type_at(format) {
        Some(kind) => {
            if crate::letters::same_text(kind, "text") {
                Ok(())
            } else {
                Err(
                    ApiError::refusal(
                        "only {\"type\":\"text\"} response_format is available",
                        "response_format",
                        "response_format_not_supported",
                    ),
                )
            }
        },
        None => Err(
            ApiError::refusal(
                "response_format must contain a string type",
                "response_format",
                "",
            ),
        ),
    }
}

fn refuse_modalities(body: &[(String, Json)]) -> (r: Result<(), ApiError>)
    ensures
        refuses(r, modalities_refusal(body@)),
{
    let empty = "modalities must be a non-empty array";
    let list = match field(body, "modalities") {
        None => return Ok(()),
        Some(Json::Array(list)) => list,
        Some(_) => return Err(ApiError::refusal(empty, "modalities", "")),
    };
    if list.len() == 0 {
        return Err(ApiError::refusal(empty, "modalities", ""));
    }
    let mut i: usize = 0;
    assert(list@.skip(0) == list@);
    while i < list.len()
        invariant
            i <= list@.len(),
            list@.len() > 0,
            field_of(body@, "modalities"@) == Some(Json::Array(*list)),
            first_modality_refusal(list@) == first_modality_refusal(list@.skip(i as int)),
        decreases list@.len() - i,
    {
        assert(list@.skip(i as int).drop_first() == list@.skip(i + 1));
        assert(list@.skip(i as int)[0] == list@[i as int]);
        match &list[i] {
            Json::Text(s) => {
                if !crate::letters::same_text(s.as_str(), "text") {
                    return Err(
                        ApiError::refusal(
                            "only text output is produced",
                            "modalities",
                            "modality_not_supported",
                        ),
                    );
                }
            },
            _ => return Err(
                ApiError::refusal("modalities entries must be strings", "modalities", ""),
            ),
        }
        i = i + 1;
    }
    Ok(())
}

fn refuse_unprovided(body: &[(String, Json)], key: &str, code: &str) -> (r: Result<(), ApiError>)
    ensures
        refuses(r, unprovided_refusal(body@, key@, code@)),
{
    proof {
        reveal_strlit(" is not provided");
    }
    match field(body, key) {
        None => Ok(()),
        Some(_) => Err(ApiError::refusal(about(key, " is not provided").as_str(), key, code)),
    }
}

fn refuse_verbosity(body: &[(String, Json)]) -> (r: Result<(), ApiError>)
    ensures
        refuses(r, verbosity_refusal(body@)),
{
    let mistyped = "verbosity must be 'low', 'medium', or 'high'";
    match field(body, "verbosity") {
        None => Ok(()),
        Some(Json::Text(s)) => {
            if crate::letters::same_text(s.as_str(), "medium") {
                Ok(())
            } else if crate::letters::same_text(s.as_str(), "low") || crate::letters::same_text(
                s.as_str(),
                "high",
            ) {
                Err(
                    ApiError::refusal(
                        "only the default verbosity 'medium' is accepted",
                        "verbosity",
                        "verbosity_not_supported",
                    ),
                )
            } else {
                Err(ApiError::refusal(mistyped, "verbosity", ""))
            }
        },
        Some(_) => Err(ApiError::refusal(mistyped, "verbosity", "")),
    }
}

fn refuse_store(body: &[(String, Json)]) -> (r: Result<(), ApiError>)
    ensures
        refuses(r, store_refusal(body@)),
{
    match boolean(body, "store") {
        Err(e) => Err(e),
        Ok(Flag::True) => Err(
            ApiError::refusal(
                "store=true requires a retrievable stored Chat Completion",
                "store",
                "store_not_supported",
            ),
        ),
        Ok(_) => Ok(()),
    }
}

fn refuse_constrained(body: &[(String, Json)], key: &str) -> (r: Result<(), ApiError>)
    ensures
        refuses(r, constrained_refusal(body@, key@)),
{
    proof {
        reveal_strlit(" requests constrained decoding");
    }
    match field(body, key) {
        None => Ok(()),
        Some(value) => {
            if crate::letters::same_text(key, "grammar") {
                if let Json::Text(text) = value {
                    if text.as_str().unicode_len() == 0 {
                        return Ok(());
                    }
                }
            }
            Err(
                ApiError::refusal(
                    about(key, " requests constrained decoding").as_str(),
                    key,
                    "constrained_decoding_not_supported",
                ),
            )
        },
    }
}

fn refuse_repetition(body: &[(String, Json)]) -> (r: Result<(), ApiError>)
    ensures
        refuses(r, repetition_refusal(body@)),
{
    match number(body, "repetition_penalty") {
        Err(e) => Err(e),
        Ok(Some(n)) => {
            if is_one(n) {
                Ok(())
            } else {
                Err(
                    ApiError::refusal(
                        "only repetition_penalty=1 is accepted",
                        "repetition_penalty",
                        "repetition_penalty_not_supported",
                    ),
                )
            }
        },
        Ok(None) => Ok(()),
    }
}

fn refuse_mm(body: &[(String, Json)]) -> (r: Result<(), ApiError>)
    ensures
        refuses(r, mm_refusal(body@)),
{
    let map = match field(body, "mm_processor_kwargs") {
        None => return Ok(()),
        Some(Json::Object(map)) => map,
        Some(_) => return Err(
            ApiError::refusal("mm_processor_kwargs must be an object", "mm_processor_kwargs", ""),
        ),
    };
    let mut i: usize = 0;
    while i < map.len()
        invariant
            i <= map@.len(),
            field_of(body@, "mm_processor_kwargs"@) == Some(Json::Object(*map)),
            forall|k: int| 0 <= k < i ==> map@[k].1 == Json::Null,
        decreases map@.len() - i,
    {
        if !matches!(map[i].1, Json::Null) {
            return Err(
                ApiError::refusal(
                    "mm_processor_kwargs overrides preprocessing, which vision-disabled serving cannot apply",
                    "mm_processor_kwargs",
                    "mm_processor_kwargs_not_supported",
                ),
            );
        }
        i = i + 1;
    }
    Ok(())
}

fn refuse_observation(body: &[(String, Json)], key: &str) -> (r: Result<(), ApiError>)
    ensures
        refuses(r, observation_refusal(body@, key@)),
{
    proof {
        reveal_strlit(" live observations are not published");
    }
    match boolean(body, key) {
        Err(e) => Err(e),
        Ok(Flag::True) => Err(
            ApiError::refusal(
                about(key, " live observations are not published").as_str(),
                key,
                "observation_not_supported",
            ),
        ),
        Ok(_) => Ok(()),
    }
}

/// Refuse the output controls the Engine cannot honour, accepting their
/// neutral values: the first refusal, in ninfer's order, of `functions`,
/// `function_call`, `logit_bias`, `logprobs`, `top_logprobs`,
/// `response_format`, `modalities`, `web_search_options`, `moderation`,
/// `verbosity`, `store`, the constrained-decoding extensions,
/// `repetition_penalty`, `mm_processor_kwargs`, and the live-observation
/// extensions this surface does not publish.
pub fn refuse_unsupported(body: &[(String, Json)]) -> (r: Result<(), ApiError>)
    ensures
        refuses(r, unsupported_refusal(body@)),
{
    refuse_functions(body)?;
    refuse_function_call(body)?;
    refuse_logit_bias(body)?;
    refuse_logprobs(body)?;
    refuse_top_logprobs(body)?;
    refuse_response_format(body)?;
    refuse_modalities(body)?;
    refuse_unprovided(body, "web_search_options", "web_search_not_supported")?;
    refuse_unprovided(body, "moderation", "moderation_not_supported")?;
    refuse_verbosity(body)?;
    refuse_store(body)?;
    refuse_constrained(body, "grammar")?;
    refuse_constrained(body, "structured_outputs")?;
    refuse_constrained(body, "guided_json")?;
    refuse_constrained(body, "guided_regex")?;
    refuse_constrained(body, "guided_choice")?;
    refuse_constrained(body, "guided_grammar")?;
    refuse_repetition(body)?;
    refuse_mm(body)?;
    refuse_observation(body, "timings_per_token")?;
    refuse_observation(body, "return_progress")?;
    Ok(())
}

} // verus!
