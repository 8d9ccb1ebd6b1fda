use infinitum::chat::request::Automatic;
use infinitum::chat::request::CacheBoundary;
use infinitum::chat::request::CacheMarker;
use infinitum::chat::request::Count;
use infinitum::chat::request::Delivery;
use infinitum::chat::request::Effort;
use infinitum::chat::request::InstructionBytes;
use infinitum::chat::request::Marked;
use infinitum::chat::request::Role;
use infinitum::chat::request::Seed;
use infinitum::chat::request::SpecialTokens;
use infinitum::chat::request::StopScope;
use infinitum::chat::request::StructuralPrefixes;
use infinitum::chat::request::Switch;
use infinitum::chat::request::ThinkingBudget;
use infinitum::numeral::Positive;
use infinitum::round::token::TokenCount;
use infinitum::serve::error::ApiError;
use infinitum::serve::parse::chat_request;
use infinitum::serve::parse::choices::template_choices;
use infinitum::serve::parse::hints::cache_policy;
use infinitum::serve::parse::hints::AutomaticWrite;
use infinitum::serve::parse::read::integer;
use infinitum::serve::parse::read::seed;
use infinitum::serve::parse::read::top_k;
use infinitum::chat::request::Setting;
use infinitum::serve::parse::refuse::refuse_unsupported;
use infinitum::serve::parse::tools::stops;
use infinitum::serve::parse::tools::tool_choice;
use infinitum::serve::parse::tools::tools;
use infinitum::serve::parse::tools::ToolUse;
use infinitum::serve::parse::Defaults;
use infinitum::serve::parse::FreshSeed;
use infinitum::serve::parse::ParsedChat;
use infinitum::serve::parse::SamplingChecks;
use infinitum::serve::parse::Usage;
use infinitum::serve::value::write_json;
use infinitum::serve::value::Json;
use infinitum::serve::value::Number;
use infinitum::serve::value::Reading;

/// The library's reading of a serde_json value.
fn convert(value: &serde_json::Value) -> Json {
    match value {
        serde_json::Value::Null => Json::Null,
        serde_json::Value::Bool(b) => Json::Bool(*b),
        serde_json::Value::Number(n) => {
            let reading = if let Some(u) = n.as_u64() {
                Reading::Unsigned(u)
            } else if let Some(i) = n.as_i64() {
                Reading::Negative(i)
            } else {
                let double = n.as_f64().unwrap_or(f64::NAN);
                Reading::Fraction { zero: double == 0.0, one: double == 1.0 }
            };
            Json::Number(Number { reading, text: n.to_string() })
        }
        serde_json::Value::String(s) => Json::Text(s.clone()),
        serde_json::Value::Array(items) => Json::Array(items.iter().map(convert).collect()),
        serde_json::Value::Object(map) => {
            Json::Object(map.iter().map(|(k, v)| (k.clone(), convert(v))).collect())
        }
    }
}

/// The library's reading of a JSON text.
fn json(text: &str) -> Json {
    let value: serde_json::Value = serde_json::from_str(text).unwrap();
    convert(&value)
}

/// The members of an object's JSON text.
fn object(text: &str) -> Vec<(String, Json)> {
    match json(text) {
        Json::Object(members) => members,
        _ => panic!("not an object: {text}"),
    }
}

/// The defaults the tests read bodies under.
fn defaults() -> Defaults {
    Defaults { output_tokens: TokenCount::zero(), thinking_budget: ThinkingBudget::Unlimited }
}

/// Sampling verdicts that accept.
fn accepted() -> SamplingChecks {
    SamplingChecks { initial: Ok(()), post_thinking: Ok(()) }
}

/// Read a body's text.
fn read_body(text: &str, defaults: Defaults, seed: u64) -> Result<ParsedChat, ApiError> {
    chat_request(&json(text), defaults, FreshSeed(seed), accepted())
}

/// The markers of a read body's prompt.
fn markers(messages: &str, options: Option<&str>) -> Vec<(CacheBoundary, Marked, Automatic)> {
    let body = match options {
        Some(options) => {
            format!(r#"{{"model":"m","messages":{messages},"prompt_cache_options":{options}}}"#)
        }
        None => format!(r#"{{"model":"m","messages":{messages}}}"#),
    };
    let cache = read_body(&body, defaults(), 0).unwrap().prompt.cache;
    assert_eq!(
        cache.structural,
        StructuralPrefixes::Withheld,
        "Chat Completions has its own write policy"
    );
    cache
        .markers
        .into_iter()
        .map(|CacheMarker { boundary, marked, automatic }| (boundary, marked, automatic))
        .collect()
}

fn part(message: u32, parts: u32) -> CacheBoundary {
    CacheBoundary::MessagePart { message: Count(message), parts: Count(parts) }
}

fn marked(text: &str) -> String {
    format!(r#"{{"type":"text","text":"{text}","prompt_cache_breakpoint":{{"mode":"explicit"}}}}"#)
}

#[test]
fn the_default_thinking_budget_skips_requests_without_thinking() {
    let budget = ThinkingBudget::Tokens(Positive::new(1).unwrap());
    let defaults = Defaults { thinking_budget: budget, ..defaults() };
    let cases = [
        ("", budget, "left to the model"),
        (r#","chat_template_kwargs":{"enable_thinking":true}"#, budget, "turned on"),
        (r#","chat_template_kwargs":{"enable_thinking":false}"#, ThinkingBudget::Unlimited, "turned off"),
        (r#","reasoning_effort":"none""#, ThinkingBudget::Unlimited, "effort none"),
        (r#","reasoning_effort":"low""#, budget, "effort low"),
    ];
    for (extra, expected, case) in cases {
        let body = format!(r#"{{"model":"m","messages":[{{"role":"user","content":"u"}}]{extra}}}"#);
        let parsed = read_body(&body, defaults, 0).unwrap();
        assert_eq!(parsed.directives.thinking_budget, expected, "{case}");
    }
}

#[test]
fn cache_markers_follow_ninfers_policy() {
    let plain = r#"[{"role":"system","content":"s"},{"role":"user","content":"u"}]"#;
    assert_eq!(
        markers(plain, None),
        vec![(part(2, 1), Marked::Unmarked, Automatic::Default)],
        "the default write lands after the last part"
    );
    assert_eq!(
        markers(plain, Some(r#"{"mode":"implicit"}"#)),
        vec![(part(2, 1), Marked::Unmarked, Automatic::Requested)],
        "prompt_cache_options requests the write"
    );
    assert!(
        markers(plain, Some(r#"{"mode":"explicit"}"#)).is_empty(),
        "explicit mode leaves only breakpoints"
    );
    let leading = format!(
        r#"[{{"role":"system","content":[{{"type":"text","text":"ab"}},{}]}},{{"role":"user","content":"u"}}]"#,
        marked("cde")
    );
    assert_eq!(
        markers(&leading, None),
        vec![
            (CacheBoundary::LeadingInstruction(InstructionBytes(5)), Marked::Explicit, Automatic::Not),
            (part(2, 1), Marked::Unmarked, Automatic::Default),
        ],
        "a leading instruction's breakpoint is placed by its cumulative bytes"
    );
    let called = r#"[{"role":"user","content":"u"},{"role":"assistant","content":null,"tool_calls":[{"id":"c","type":"function","function":{"name":"ls","arguments":"{}"}}]}]"#;
    assert_eq!(
        markers(called, None),
        vec![(CacheBoundary::Message(Count(2)), Marked::Unmarked, Automatic::Default)],
        "a turn ending in tool calls takes the write at its boundary"
    );
    let merged = format!(
        r#"[{{"role":"user","content":[{},{},{},{},{}]}}]"#,
        marked("a"),
        marked("b"),
        marked("c"),
        marked("d"),
        marked("e")
    );
    assert_eq!(
        markers(&merged, None),
        vec![
            (part(1, 2), Marked::Explicit, Automatic::Not),
            (part(1, 3), Marked::Explicit, Automatic::Not),
            (part(1, 4), Marked::Explicit, Automatic::Not),
            (part(1, 5), Marked::Explicit, Automatic::Default),
        ],
        "four writes are kept when the automatic one joins a breakpoint"
    );
    let apart = format!(
        r#"[{{"role":"user","content":[{},{},{},{},{{"type":"text","text":"e"}}]}}]"#,
        marked("a"),
        marked("b"),
        marked("c"),
        marked("d")
    );
    assert_eq!(
        markers(&apart, None),
        vec![
            (part(1, 2), Marked::Explicit, Automatic::Not),
            (part(1, 3), Marked::Explicit, Automatic::Not),
            (part(1, 4), Marked::Explicit, Automatic::Not),
            (part(1, 5), Marked::Unmarked, Automatic::Default),
        ],
        "three breakpoints are kept when the automatic write needs its own slot"
    );
    assert_eq!(
        markers(&apart, Some(r#"{"mode":"explicit"}"#)).len(),
        4,
        "without the automatic write all four breakpoints are kept"
    );
}

#[test]
fn integers_are_checked_and_bounded() {
    let members = object(r#"{"a":2147483647,"b":2147483648,"c":1.5,"d":null}"#);
    assert_eq!(integer(&members, "a").unwrap(), Some(i32::MAX), "i32::MAX is accepted");
    assert!(integer(&members, "b").is_err(), "one past i32::MAX is out of range");
    assert!(integer(&members, "c").is_err(), "a fraction is not an integer");
    assert!(matches!(integer(&members, "d"), Ok(None)), "null is omitted");
}

#[test]
fn tools_render_in_ninfer_key_order() {
    let body = object(
        r#"{"tools":[
            {"type":"function","function":{"description":"d","name":"read","parameters":{"type":"object","properties":{"z":{},"a":{}}}}},
            {"type":"function","function":{"name":"ls"}}
        ]}"#,
    );
    let declared = tools(&body).unwrap();
    let rendered: Vec<&str> = declared.iter().map(|tool| tool.definition.as_str()).collect();
    assert_eq!(
        rendered,
        [
            r#"{"type":"function","function":{"name":"read","parameters":{"type":"object","properties":{"z":{},"a":{}}},"strict":false,"description":"d"}}"#,
            r#"{"type":"function","function":{"name":"ls","parameters":{"type":"object","properties":{}},"strict":false}}"#,
        ],
        "definitions keep ninfer's key order and the schema's wire order"
    );
}

#[test]
fn template_choices_merge_and_leave_the_arguments() {
    let body = object(
        r#"{"chat_template_kwargs":{"x":1,"enable_thinking":true,"a":2},"reasoning_effort":"low"}"#,
    );
    let (thinking, preserve, effort, arguments) = template_choices(&body).unwrap();
    assert_eq!(thinking, Switch::On, "the nested switch and the effort agree on thinking");
    assert_eq!(preserve, Switch::ModelDefault, "an unset switch stays unset");
    assert_eq!(effort, Effort::Low, "the effort is carried");
    assert_eq!(arguments, r#"{"x":1,"a":2}"#, "merged keys leave the arguments, the rest keep order");
    let conflict = object(r#"{"enable_thinking":false,"reasoning_effort":"high"}"#);
    assert_eq!(
        template_choices(&conflict).unwrap_err().code,
        "conflicting_template_option",
        "an effort that implies thinking conflicts with thinking off"
    );
    let none = object("{}");
    assert_eq!(template_choices(&none).unwrap().3, "{}", "no arguments serialize as an empty object");
    let mistyped = object(r#"{"chat_template_kwargs":{"enable_thinking":"yes"}}"#);
    let refused = template_choices(&mistyped).unwrap_err();
    assert_eq!(
        (refused.message.as_str(), refused.code.as_str()),
        ("enable_thinking must be a boolean or null", ""),
        "a mistyped nested switch fails as ninfer's parser fails it"
    );
    let unnamed = object(r#"{"reasoning_effort":3}"#);
    assert_eq!(
        template_choices(&unnamed).unwrap_err().message,
        "reasoning_effort must be a string or null",
        "an effort that is not a string"
    );
}

#[test]
fn a_tool_turn_translates_whole() {
    let body = r#"{
        "model": "m",
        "stream": true,
        "stream_options": {"include_usage": true},
        "max_completion_tokens": 32,
        "temperature": 0,
        "stop": "END",
        "tools": [{"type": "function", "function": {"name": "ls"}}],
        "messages": [
            {"role": "system", "content": "s"},
            {"role": "user", "content": [{"type": "text", "text": "u"}]},
            {"role": "assistant", "content": null, "reasoning_content": "r", "tool_calls": [{"id": "c1", "type": "function", "function": {"name": "ls", "arguments": "{}"}}]},
            {"role": "tool", "tool_call_id": "c1", "content": "out"}
        ]
    }"#;
    let parsed = read_body(body, defaults(), 7).unwrap();
    assert_eq!(parsed.model.0, "m", "the model is carried");
    assert_eq!(parsed.delivery, Delivery::Streaming, "stream selects streaming");
    assert_eq!(parsed.include_usage, Usage::Included, "include_usage is carried");
    assert_eq!(parsed.directives.output_tokens, TokenCount::from(32), "the limit is carried");
    assert_eq!(parsed.directives.seed, 7, "an unset seed takes the fresh one");
    assert_eq!(parsed.directives.stops, ["END"], "the stop is carried");
    assert_eq!(
        parsed.directives.stop_scope,
        StopScope::ContentAndReasoning,
        "a stop also ends reasoning"
    );
    assert_eq!(
        parsed.directives.special_tokens,
        SpecialTokens::Preserved,
        "tools preserve special tokens"
    );
    assert_eq!(parsed.prompt.tools.len(), 1, "the tool is offered");
    let roles: Vec<Role> = parsed.prompt.messages.iter().map(|turn| turn.role).collect();
    assert_eq!(
        roles,
        [Role::System, Role::User, Role::Assistant, Role::Tool],
        "turns keep order"
    );
    let assistant = &parsed.prompt.messages[2];
    assert_eq!(assistant.reasoning, "r", "carried reasoning is kept");
    assert_eq!(assistant.tool_calls.first().unwrap().id, "c1", "the call id is kept");
    assert_eq!(parsed.prompt.messages[3].tool_call_id, "c1", "the tool turn names its call");
    let withheld = r#"{"model":"m","tool_choice":"none","tools":[{"type":"function","function":{"name":"ls"}}],"messages":[{"role":"user","content":"u"}]}"#;
    let parsed = read_body(withheld, defaults(), 0).unwrap();
    assert!(parsed.prompt.tools.is_empty(), "tool_choice none withholds the tools");
    assert_eq!(
        parsed.directives.special_tokens,
        SpecialTokens::Trimmed,
        "withheld tools trim special tokens"
    );
}

#[test]
fn refusals_name_their_field_and_code() {
    let cases = [
        (r#"{"logprobs":true}"#, "logprobs", "logprobs_not_supported"),
        (r#"{"logit_bias":{"5":0,"6":1.5}}"#, "logit_bias", "logit_bias_not_supported"),
        (r#"{"functions":[{}]}"#, "functions", "legacy_tools_not_supported"),
        (r#"{"response_format":{"type":"json_object"}}"#, "response_format", "response_format_not_supported"),
        (r#"{"modalities":["text","audio"]}"#, "modalities", "modality_not_supported"),
        (r#"{"moderation":{}}"#, "moderation", "moderation_not_supported"),
        (r#"{"verbosity":"low"}"#, "verbosity", "verbosity_not_supported"),
        (r#"{"guided_json":{}}"#, "guided_json", "constrained_decoding_not_supported"),
        (r#"{"repetition_penalty":1.1}"#, "repetition_penalty", "repetition_penalty_not_supported"),
        (r#"{"mm_processor_kwargs":{"a":null,"b":1}}"#, "mm_processor_kwargs", "mm_processor_kwargs_not_supported"),
        (r#"{"return_progress":true}"#, "return_progress", "observation_not_supported"),
        (r#"{"store":"yes"}"#, "store", ""),
    ];
    for (body, param, code) in cases {
        let refused = refuse_unsupported(&object(body)).unwrap_err();
        assert_eq!(refused.status, 400, "{body}");
        assert_eq!((refused.param.as_str(), refused.code.as_str()), (param, code), "{body}");
    }
    let neutral = object(
        r#"{"logit_bias":{"5":0},"function_call":"auto","grammar":"","repetition_penalty":1,"top_logprobs":0,"verbosity":"medium","mm_processor_kwargs":{"a":null}}"#,
    );
    assert!(refuse_unsupported(&neutral).is_ok(), "neutral values are accepted");
    let named = refuse_unsupported(&object(r#"{"web_search_options":null,"moderation":1}"#)).unwrap_err();
    assert_eq!(named.message, "moderation is not provided", "a null field is absent");
}

#[test]
fn cache_hints_are_checked_in_order() {
    assert_eq!(cache_policy(&object("{}")).unwrap(), AutomaticWrite::Default, "no options");
    assert_eq!(
        cache_policy(&object(r#"{"prompt_cache_options":{"ttl":"30m"}}"#)).unwrap(),
        AutomaticWrite::Requested,
        "options request the write"
    );
    let long = format!(r#"{{"prompt_cache_key":"{}"}}"#, "k".repeat(65));
    assert_eq!(cache_policy(&object(&long)).unwrap_err().message, "prompt_cache_key is too long");
    let fits = format!(r#"{{"prompt_cache_key":"{}","user":"{}"}}"#, "k".repeat(64), "u".repeat(500));
    assert!(cache_policy(&object(&fits)).is_ok(), "64 bytes fit, and a user has no limit");
    assert_eq!(
        cache_policy(&object(r#"{"prompt_cache_retention":"1h"}"#)).unwrap_err().message,
        "prompt_cache_retention must be 'in_memory' or '24h'"
    );
    assert_eq!(
        cache_policy(&object(r#"{"prompt_cache_options":{"mode":"explicit","ttl":"1h"}}"#))
            .unwrap_err()
            .message,
        "prompt_cache_options.ttl must be '30m'"
    );
}

#[test]
fn allowed_tools_keep_the_declared_order() {
    let body = object(
        r#"{"tools":[
            {"type":"function","function":{"name":"a"}},
            {"type":"function","function":{"name":"b"}},
            {"type":"function","function":{"name":"c"}}
        ],
        "tool_choice":{"type":"allowed_tools","allowed_tools":{"mode":"auto","tools":[
            {"type":"function","name":"c"},{"type":"function","name":"a"}
        ]}}}"#,
    );
    let mut declared = tools(&body).unwrap();
    assert_eq!(tool_choice(&body, &mut declared).unwrap(), ToolUse::Auto);
    let names: Vec<&str> = declared.iter().map(|t| t.name.as_str()).collect();
    assert_eq!(names, ["a", "c"], "the allowed tools keep their declared order");
    let unknown = object(
        r#"{"tool_choice":{"type":"allowed_tools","mode":"auto","tools":[{"type":"function","name":"z"}]}}"#,
    );
    let mut declared = tools(&body).unwrap();
    let refused = tool_choice(&unknown, &mut declared).unwrap_err();
    assert_eq!(refused.message, "allowed tool 'z' is not present in tools");
    assert_eq!(declared.len(), 3, "a refused choice leaves the tools");
    let required = object(r#"{"tool_choice":"required"}"#);
    assert_eq!(tool_choice(&required, &mut declared).unwrap_err().code, "tool_choice_not_supported");
}

#[test]
fn stops_are_strings_at_most_four() {
    let (texts, scope) = stops(&object(r#"{"stop":["a","b"]}"#)).unwrap();
    assert_eq!((texts, scope), (vec![String::from("a"), String::from("b")], StopScope::ContentAndReasoning));
    let (texts, scope) = stops(&object("{}")).unwrap();
    assert_eq!((texts.len(), scope), (0, StopScope::Content), "no stop ends content only");
    assert_eq!(
        stops(&object(r#"{"stop":["a","b","c","d","e"]}"#)).unwrap_err().message,
        "stop supports at most four strings"
    );
    assert_eq!(stops(&object(r#"{"stop":""}"#)).unwrap_err().message, "stop strings must not be empty");
}

#[test]
fn messages_are_checked_as_ninfer_checks_them() {
    let refused = |messages: &str| {
        read_body(&format!(r#"{{"model":"m","messages":{messages}}}"#), defaults(), 0).unwrap_err()
    };
    assert_eq!(refused("[]").message, "messages must be a non-empty array");
    assert_eq!(refused(r#"[{"role":"user"}]"#).message, "message 0 must have content");
    assert_eq!(
        refused(r#"[{"role":"user","content":"a"},{"role":"narrator","content":"b"}]"#).code,
        "unsupported_role"
    );
    assert_eq!(
        refused(r#"[{"role":"user","content":[{"type":"image_url"}]}]"#).code,
        "vision_disabled"
    );
    assert_eq!(
        refused(r#"[{"role":"tool","content":"x"}]"#).message,
        "tool messages must contain a string tool_call_id"
    );
    assert_eq!(
        refused(r#"[{"role":"assistant","content":"a","reasoning":"x","reasoning_content":"y"}]"#).code,
        "conflicting_template_option"
    );
    assert_eq!(
        refused(r#"[{"role":"user","content":"a"},{"role":"assistant","content":"b","tool_calls":7}]"#)
            .message,
        "assistant message 1 tool_calls must be an array"
    );
    let legacy = read_body(
        r#"{"model":"m","messages":[{"role":"function","name":"ls","content":"out"}]}"#,
        defaults(),
        0,
    )
    .unwrap();
    assert_eq!(legacy.prompt.messages[0].role, Role::Tool, "the legacy function role is a tool turn");
    assert_eq!(legacy.prompt.messages[0].tool_call_id, "", "and may omit its call id");
}

#[test]
fn seeds_take_their_twos_complement_bits() {
    assert_eq!(seed(&object(r#"{"seed":-1}"#), "seed").unwrap(), Seed::Fixed(u64::MAX));
    assert_eq!(seed(&object(r#"{"seed":18446744073709551615}"#), "seed").unwrap(), Seed::Fixed(u64::MAX));
    assert_eq!(seed(&object("{}"), "seed").unwrap(), Seed::Inherited);
    assert_eq!(seed(&object(r#"{"seed":1.5}"#), "post_thinking.seed").unwrap_err().message, "post_thinking.seed must be an integer");
}

#[test]
fn sampling_verdicts_are_passed_on_in_order() {
    let body = json(r#"{"model":"m","messages":[{"role":"user","content":"u"}],"post_thinking":{"seed":3}}"#);
    let bad = ApiError::invalid(
        String::from("temperature must be in [0,2]"),
        infinitum::serve::error::Param("temperature"),
        infinitum::serve::error::Code::none(),
    );
    let checks = SamplingChecks { initial: Err(bad.clone()), post_thinking: Ok(()) };
    assert_eq!(chat_request(&body, defaults(), FreshSeed(0), checks).unwrap_err(), bad);
    let parsed = chat_request(&body, defaults(), FreshSeed(0), accepted()).unwrap();
    assert_eq!(parsed.directives.post_thinking_seed, Seed::Fixed(3), "the post-thinking seed is carried");
    assert_eq!(parsed.directives.tool_name_limit, 64);
}

#[test]
fn values_write_compact_json() {
    let mut out = String::new();
    write_json(&mut out, &json(r#"{"a":[1,-2,1.5,"q\"",null,true,{}],"b":{"c":false}}"#));
    assert_eq!(out, r#"{"a":[1,-2,1.5,"q\"",null,true,{}],"b":{"c":false}}"#);
}

#[test]
fn top_k_is_bounded_inclusively() {
    assert_eq!(top_k(&object(r#"{"top_k": 20}"#), ""), Ok(Setting::Given(20)));
    assert_eq!(top_k(&object(r#"{"top_k": 0}"#), ""), Ok(Setting::Given(0)));
    assert_eq!(top_k(&object(r#"{"top_k": null}"#), ""), Ok(Setting::ModelDefault));
    let refused = top_k(&object(r#"{"top_k": 21}"#), "post_thinking.").unwrap_err();
    assert_eq!(refused.status, 400);
    assert_eq!(refused.message, "post_thinking.top_k must be in [0,20]");
    assert_eq!(refused.param, "post_thinking.top_k");
    assert_eq!(top_k(&object(r#"{"top_k": 1.5}"#), "").unwrap_err().message, "top_k must be an integer");
}
