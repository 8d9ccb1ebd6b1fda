//! The server's configuration and its API-key check.
use vstd::prelude::*;
use crate::letters::chars_of;
use crate::letters::same_text;
use vstd::utf8::encode_utf8;
use vstd::string::*;
use crate::serve::parse::Defaults;
use crate::round::token::TokenCount;
use crate::chat::request::Delivery;
use crate::chat::request::Effort;
use crate::chat::request::Message;
use crate::chat::request::PrefixReuse;
use crate::chat::request::Prompt;
use crate::chat::request::PromptCache;
use crate::chat::request::Role;
use crate::chat::request::Seed;
use crate::chat::request::SpecialTokens;
use crate::chat::request::StopScope;
use crate::chat::request::StructuralPrefixes;
use crate::chat::request::Switch;
use crate::chat::request::ThinkingBudget;
use crate::clock::nanos;
use crate::clock::nanos_of;
use crate::json::json_quoted;
use crate::json::quote;
use crate::pretty::decimal_digits;
use crate::pretty::decimal_into;
use crate::serve::error::ApiError;
use crate::serve::error::refused_as;
use crate::serve::oplog::Record;
use crate::serve::oplog::Severity;
use crate::serve::parse::Directives;
use crate::serve::parse::TOOL_NAME_LIMIT;
use crate::serve::render::Bits;
use crate::serve::render::UnixSeconds;
use crate::serve::render::key_text;

verus! {

/// The largest request body accepted, in bytes; at least one.
#[derive(Debug, Clone, Copy, PartialEq, Eq, Structural)]
pub struct RequestBytes(usize);

impl RequestBytes {
    #[verifier::type_invariant]
    spec fn positive(self) -> bool {
        self.0 > 0
    }

    /// The cap in bytes.
    pub closed spec fn view(self) -> nat {
        self.0 as nat
    }

    /// A cap of `bytes`, when it is at least one.
    pub fn new(bytes: usize) -> (r: Option<Self>)
        ensures
            r is Some <==> bytes > 0,
            r matches Some(cap) ==> cap.view() == bytes,
    {
        if bytes > 0 {
            Some(RequestBytes(bytes))
        } else {
            None
        }
    }

    /// ninfer's default: 384 MiB.
    pub fn default_cap() -> (r: Self)
        ensures
            r.view() == 402653184,
    {
        RequestBytes(402653184)
    }

    /// The cap in bytes, at least one.
    pub fn get(self) -> (r: usize)
        ensures
            r == self.view(),
            r > 0,
    {
        proof {
            use_type_invariant(&self);
        }
        self.0
    }
}

/// The model id the server answers to.
#[derive(Debug, Clone, PartialEq, Eq)]
pub struct ModelId(pub String);

/// A client credential; it has no debug rendering, so it never reaches a
/// log.
#[derive(Clone, PartialEq, Eq)]
pub struct ApiKey(pub String);

/// Who may call the API.
#[derive(Clone, PartialEq, Eq)]
pub enum Access {
    /// Anyone.
    Open,
    /// Callers presenting the key as a bearer token or an `x-api-key`
    /// header; `/health` stays open.
    Key(ApiKey),
}

impl Access {
    /// The access a configured key grants: open for an empty key, as
    /// ninfer's server treats an empty `--api-key` as no authentication, and
    /// gated by the key otherwise, so no empty credential is ever accepted.
    pub fn of(key: ApiKey) -> (r: Self)
        ensures
            key.0@.len() == 0 ==> r == Access::Open,
            key.0@.len() > 0 ==> r == Access::Key(key),
    {
        if key.0.as_str().unicode_len() == 0 {
            Access::Open
        } else {
            Access::Key(key)
        }
    }
}

/// How often the server logs throughput.
#[derive(Debug, Clone, Copy, PartialEq, Eq)]
pub enum StatsInterval {
    /// Never.
    Off,
    /// At this period, for intervals that saw activity.
    Every(core::time::Duration),
}

/// How the server answers.
#[derive(Clone, PartialEq, Eq)]
pub struct ServeConfig {
    /// The public model id.
    pub model: ModelId,
    /// Who may call.
    pub access: Access,
    /// The per-request context ceiling `/v1/models` reports.
    pub max_model_len: TokenCount,
    /// Request defaults.
    pub defaults: Defaults,
    /// The largest request body accepted.
    pub max_request: RequestBytes,
    /// How often throughput is logged.
    pub stats: StatsInterval,
}

/// Whether a request is let through.
#[derive(Debug, Clone, Copy, PartialEq, Eq, Structural)]
pub enum Verdict {
    /// It may.
    Admitted,
    /// It lacks a valid credential.
    Refused,
}

/// Whether a header byte is visible ASCII or a tab, the bytes a header value
/// reads as text from.
pub open spec fn visible_byte(b: u8) -> bool {
    (32 <= b && b < 127) || b == 9
}

/// Whether a character is a blank: a space or a tab.
pub open spec fn blank_char(c: char) -> bool {
    c == ' ' || c == '\t'
}

/// A character in ASCII lower case.
pub open spec fn lower_char(c: char) -> char {
    if 'A' <= c && c <= 'Z' {
        (((c as u32) + 32) as u8) as char
    } else {
        c
    }
}

/// `text` without its leading blanks.
pub open spec fn skip_blanks(text: Seq<char>) -> Seq<char>
    decreases text.len(),
{
    if text.len() > 0 && blank_char(text[0]) {
        skip_blanks(text.drop_first())
    } else {
        text
    }
}

/// `text` without its trailing blanks.
pub open spec fn drop_trailing_blanks(text: Seq<char>) -> Seq<char>
    decreases text.len(),
{
    if text.len() > 0 && blank_char(text.last()) {
        drop_trailing_blanks(text.drop_last())
    } else {
        text
    }
}

/// Whether an `Authorization` value presents `key` as a bearer token, as
/// ninfer's server reads it: visible ASCII; after leading blanks, the scheme
/// `Bearer` in any case, at least one blank, and the key with blanks around
/// it trimmed.
pub open spec fn bearer_admits(value: Seq<u8>, key: Seq<char>) -> bool {
    let text = value.map_values(|b: u8| b as char);
    let rest = skip_blanks(text);
    &&& forall|i: int| 0 <= i < value.len() ==> visible_byte(#[trigger] value[i])
    &&& rest.len() >= 6
    &&& rest.take(6).map_values(|c: char| lower_char(c)) == "bearer"@
    &&& rest.len() > 6 && blank_char(rest[6])
    &&& drop_trailing_blanks(skip_blanks(rest.skip(6))) == key
}

/// Index of the first character at or after `from` that is not a blank.
fn skip_blank_chars(chars: &[char], from: usize) -> (r: usize)
    requires
        from <= chars@.len(),
    ensures
        from <= r <= chars@.len(),
        skip_blanks(chars@.skip(from as int)) == chars@.skip(r as int),
{
    let mut i = from;
    while i < chars.len() && (chars[i] == ' ' || chars[i] == '\t')
        invariant
            from <= i <= chars@.len(),
            skip_blanks(chars@.skip(from as int)) == skip_blanks(chars@.skip(i as int)),
        decreases chars@.len() - i,
    {
        assert(chars@.skip(i as int).drop_first() == chars@.skip(i + 1));
        i = i + 1;
    }
    i
}

/// A character in ASCII lower case.
fn lower(c: char) -> (r: char)
    ensures
        r == lower_char(c),
{
    if 'A' <= c && c <= 'Z' {
        (((c as u32) + 32) as u8) as char
    } else {
        c
    }
}

/// Whether an `Authorization` header value presents `key` as a bearer token:
/// the scheme's case and the blanks around the key are forgiven, the
/// separator is required.
pub fn bearer_matches(authorization: &[u8], key: &ApiKey) -> (r: Verdict)
    ensures
        r == (if bearer_admits(authorization@, key.0@) {
            Verdict::Admitted
        } else {
            Verdict::Refused
        }),
{
    let ghost text = authorization@.map_values(|b: u8| b as char);
    let mut chars: Vec<char> = Vec::new();
    let mut i: usize = 0;
    while i < authorization.len()
        invariant
            i <= authorization@.len(),
            text == authorization@.map_values(|b: u8| b as char),
            chars@ == text.take(i as int),
            forall|k: int| 0 <= k < i ==> visible_byte(#[trigger] authorization@[k]),
        decreases authorization@.len() - i,
    {
        let b = authorization[i];
        if !((32 <= b && b < 127) || b == 9) {
            return Verdict::Refused;
        }
        chars.push(b as char);
        i = i + 1;
        assert(text.take(i as int) == text.take((i - 1) as int).push(text[i - 1]));
    }
    assert(chars@ == text);
    let start = skip_blank_chars(chars.as_slice(), 0);
    assert(chars@.skip(0) == text);
    let ghost rest = text.skip(start as int);
    assert(rest == skip_blanks(text));
    if chars.len() - start < 6 {
        return Verdict::Refused;
    }
    let bearer = ['b', 'e', 'a', 'r', 'e', 'r'];
    let mut k: usize = 0;
    while k < 6
        invariant
            k <= 6,
            start <= chars@.len(),
            start + 6 <= chars.len(),
            rest == skip_blanks(authorization@.map_values(|b: u8| b as char)),
            rest == chars@.skip(start as int),
            bearer@ == seq!['b', 'e', 'a', 'r', 'e', 'r'],
            forall|j: int| 0 <= j < k ==> lower_char(#[trigger] rest[j]) == bearer@[j],
        decreases 6 - k,
    {
        let c = chars[start + k];
        if lower(c) != bearer[k] {
            proof {
                reveal_strlit("bearer");
                assert(rest[k as int] == c);
                assert(rest.take(6).map_values(|c: char| lower_char(c))[k as int] != "bearer"@[k as int]);
                assert(rest.take(6).map_values(|c: char| lower_char(c)) != "bearer"@);
                assert(!bearer_admits(authorization@, key.0@));
            }
            return Verdict::Refused;
        }
        k = k + 1;
    }
    proof {
        reveal_strlit("bearer");
        assert(rest.take(6).map_values(|c: char| lower_char(c)) == "bearer"@);
    }
    if chars.len() - start == 6 || !(chars[start + 6] == ' ' || chars[start + 6] == '\t') {
        return Verdict::Refused;
    }
    let from = skip_blank_chars(chars.as_slice(), start + 6);
    assert(rest.skip(6) == chars@.skip(start + 6));
    let mut end = chars.len();
    while end > from && (chars[end - 1] == ' ' || chars[end - 1] == '\t')
        invariant
            from <= end <= chars@.len(),
            drop_trailing_blanks(chars@.skip(from as int)) == drop_trailing_blanks(
                chars@.subrange(from as int, end as int),
            ),
        decreases end - from,
    {
        assert(chars@.subrange(from as int, end as int).drop_last() == chars@.subrange(
            from as int,
            end - 1,
        ));
        end = end - 1;
    }
    assert(chars@.skip(from as int) == chars@.subrange(from as int, chars@.len() as int));
    assert(drop_trailing_blanks(chars@.subrange(from as int, end as int)) == chars@.subrange(
        from as int,
        end as int,
    ));
    assert(drop_trailing_blanks(skip_blanks(rest.skip(6))) == chars@.subrange(from as int, end as int));
    let wanted = chars_of(key.0.as_str());
    let presented = vstd::slice::slice_subrange(chars.as_slice(), from, end);
    if crate::letters::same_chars(presented, wanted.as_slice()) {
        Verdict::Admitted
    } else {
        Verdict::Refused
    }
}

/// Whether a request may reach its route, as the key check decides: admitted when
/// access is open, for `/health`, for `OPTIONS`, for a matching bearer token,
/// and for an `x-api-key` whose bytes are the key's.
pub open spec fn admits(
    access: Access,
    path: Seq<char>,
    is_options: bool,
    authorization: Option<Seq<u8>>,
    api_key: Option<Seq<u8>>,
) -> bool {
    match access {
        Access::Open => true,
        Access::Key(key) => path == "/health"@ || is_options || (authorization matches Some(
            value,
        ) && bearer_admits(value, key.0@)) || api_key == Some(encode_utf8(key.0@)),
    }
}

/// Whether two byte strings are equal.
fn same_bytes(a: &[u8], b: &[u8]) -> (r: bool)
    ensures
        r == (a@ == b@),
{
    if a.len() != b.len() {
        return false;
    }
    let mut i: usize = 0;
    while i < a.len()
        invariant
            a@.len() == b@.len(),
            i <= a@.len(),
            forall|k: int| 0 <= k < i ==> a@[k] == b@[k],
        decreases a@.len() - i,
    {
        if a[i] != b[i] {
            return false;
        }
        i = i + 1;
    }
    assert(a@ == b@);
    true
}

/// The key check's decision on a request, from its path, whether it is an
/// `OPTIONS` request, and its `Authorization` and `x-api-key` header values.
pub fn admission(
    access: &Access,
    path: &str,
    is_options: bool,
    authorization: Option<&[u8]>,
    api_key: Option<&[u8]>,
) -> (r: Verdict)
    ensures
        r == (if admits(
            *access,
            path@,
            is_options,
            match authorization {
                Some(value) => Some(value@),
                None => None,
            },
            match api_key {
                Some(value) => Some(value@),
                None => None,
            },
        ) {
            Verdict::Admitted
        } else {
            Verdict::Refused
        }),
{
    let key = match access {
        Access::Open => return Verdict::Admitted,
        Access::Key(key) => key,
    };
    if same_text(path, "/health") || is_options {
        return Verdict::Admitted;
    }
    if let Some(value) = authorization {
        if bearer_matches(value, key) == Verdict::Admitted {
            return Verdict::Admitted;
        }
    }
    if let Some(value) = api_key {
        if same_bytes(value, key.0.as_str().as_bytes()) {
            return Verdict::Admitted;
        }
    }
    Verdict::Refused
}

/// The error naming an unknown model: 404 `model_not_found`, naming
/// `model`.
pub fn model_not_found(requested: &ModelId) -> (r: ApiError)
    ensures
        r.status == 404,
        r.kind@ == "invalid_request_error"@,
        r.message@ == "model '"@ + requested.0@ + "' not found"@,
        r.param@ == "model"@,
        r.code@ == "model_not_found"@,
{
    let mut message = String::from_str("model '");
    message.append(requested.0.as_str());
    message.append("' not found");
    ApiError {
        status: 404,
        kind: "invalid_request_error",
        message,
        param: String::from_str("model"),
        code: String::from_str("model_not_found"),
    }
}

/// The refusal of a body past the configured cap: 413 `request_too_large`,
/// naming the cap in bytes, as ninfer's.
pub fn too_large(cap: RequestBytes) -> (r: ApiError)
    ensures
        r.status == 413,
        r.kind@ == "invalid_request_error"@,
        r.message@ == "request body exceeds the configured payload limit of "@ + decimal_digits(
            cap.view(),
        ) + " bytes"@,
        r.param@.len() == 0,
        r.code@ == "request_too_large"@,
{
    let mut message = String::from_str("request body exceeds the configured payload limit of ");
    decimal_into(&mut message, cap.get() as u64);
    message.append(" bytes");
    ApiError {
        status: 413,
        kind: "invalid_request_error",
        message,
        param: String::new(),
        code: String::from_str("request_too_large"),
    }
}

/// The refusal of a request without a valid key: 401 `invalid_api_key`.
pub fn unauthorized() -> (r: ApiError)
    ensures
        r.status == 401,
        r.kind@ == "invalid_request_error"@,
        r.message@ == "missing or invalid API key"@,
        r.param@.len() == 0,
        r.code@ == "invalid_api_key"@,
{
    ApiError {
        status: 401,
        kind: "invalid_request_error",
        message: String::from_str("missing or invalid API key"),
        param: String::new(),
        code: String::from_str("invalid_api_key"),
    }
}

/// Whether a path is under the versioned API, whose responses carry a
/// request id: it begins `/v1/`.
pub fn versioned(path: &str) -> (r: bool)
    ensures
        r == "/v1/"@.is_prefix_of(path@),
{
    proof {
        reveal_strlit("/v1/");
    }
    let prefix = "/v1/";
    let n = prefix.unicode_len();
    if path.unicode_len() < n {
        return false;
    }
    let mut i: usize = 0;
    while i < n
        invariant
            n == prefix@.len(),
            prefix@ == "/v1/"@,
            n <= path@.len(),
            i <= n,
            forall|j: int| 0 <= j < i ==> path@[j] == prefix@[j],
        decreases n - i,
    {
        if path.get_char(i) != prefix.get_char(i) {
            return false;
        }
        i = i + 1;
    }
    assert(path@.take(n as int) =~= prefix@);
    true
}

/// The refusal of a body that is not JSON.
pub fn not_json() -> (r: ApiError)
    ensures
        refused_as(r, ("request body is not valid JSON"@, ""@, ""@)),
{
    ApiError::refusal("request body is not valid JSON", "", "")
}

/// Whether a parsed request names the served model: refused with
/// `model_not_found` otherwise.
pub fn served_model(config: &ServeConfig, requested: &ModelId) -> (r: Result<(), ApiError>)
    ensures
        requested.0@ == config.model.0@ ==> r is Ok,
        requested.0@ != config.model.0@ ==> (r matches Err(e) && e.status == 404
            && e.message@ == "model '"@ + requested.0@ + "' not found"@ && e.param@ == "model"@
            && e.code@ == "model_not_found"@),
{
    if crate::letters::same_text(requested.0.as_str(), config.model.0.as_str()) {
        Ok(())
    } else {
        Err(model_not_found(requested))
    }
}

/// The health body: `{"status":"ok"}`.
pub fn health_body() -> (r: String)
    ensures
        r@ == "{"@ + key_text("status"@) + json_quoted("ok"@) + "}"@,
{
    let mut out = String::from_str("{");
    out.append(quote("status").as_str());
    out.append(":");
    out.append(quote("ok").as_str());
    out.append("}");
    out
}

/// The model object: the served id, `object` `model`, its creation time,
/// `owned_by` `infinitum` and the context ceiling.
pub open spec fn model_text(config: ServeConfig, created: UnixSeconds) -> Seq<char> {
    "{"@ + key_text("id"@) + json_quoted(config.model.0@) + ","@ + key_text("object"@)
        + json_quoted("model"@) + ","@ + key_text("created"@) + decimal_digits(created.0 as nat)
        + ","@ + key_text("owned_by"@) + json_quoted("infinitum"@) + ","@ + key_text(
        "max_model_len"@,
    ) + decimal_digits(config.max_model_len.0 as nat) + "}"@
}

/// The model object.
pub fn model_object(config: &ServeConfig, created: UnixSeconds) -> (r: String)
    ensures
        r@ == model_text(*config, created),
{
    let mut out = String::from_str("{");
    out.append(quote("id").as_str());
    out.append(":");
    out.append(quote(config.model.0.as_str()).as_str());
    out.append(",");
    out.append(quote("object").as_str());
    out.append(":");
    out.append(quote("model").as_str());
    out.append(",");
    out.append(quote("created").as_str());
    out.append(":");
    decimal_into(&mut out, created.0);
    out.append(",");
    out.append(quote("owned_by").as_str());
    out.append(":");
    out.append(quote("infinitum").as_str());
    out.append(",");
    out.append(quote("max_model_len").as_str());
    out.append(":");
    decimal_into(&mut out, config.max_model_len.get() as u64);
    out.append("}");
    proof {
        reveal_strlit(":");
    }
    out
}

/// `GET /v1/models`: a list holding the model object.
pub fn model_list(config: &ServeConfig, created: UnixSeconds) -> (r: String)
    ensures
        r@ == "{"@ + key_text("object"@) + json_quoted("list"@) + ","@ + key_text("data"@) + "["@
            + model_text(*config, created) + "]}"@,
{
    let mut out = String::from_str("{");
    out.append(quote("object").as_str());
    out.append(":");
    out.append(quote("list").as_str());
    out.append(",");
    out.append(quote("data").as_str());
    out.append(":");
    out.append("[");
    out.append(model_object(config, created).as_str());
    out.append("]}");
    out
}

/// `GET /v1/models/{id}`: the model object for the served id; 404
/// `model_not_found` otherwise, with no `param`, as ninfer answers.
pub fn model_lookup(config: &ServeConfig, id: &ModelId, created: UnixSeconds) -> (r: Result<String, ApiError>)
    ensures
        id.0@ == config.model.0@ ==> (r matches Ok(body) && body@ == model_text(*config, created)),
        id.0@ != config.model.0@ ==> (r matches Err(e) && e.status == 404
            && e.message@ == "model '"@ + id.0@ + "' not found"@ && e.param@.len() == 0
            && e.code@ == "model_not_found"@),
{
    if crate::letters::same_text(id.0.as_str(), config.model.0.as_str()) {
        Ok(model_object(config, created))
    } else {
        let mut error = model_not_found(id);
        error.param = String::new();
        Err(error)
    }
}

/// The warm-up's prompt: one user turn `hi`, no tools, `{}` template
/// arguments, thinking and effort left to the model, no cache markers.
pub open spec fn is_warm_up_prompt(prompt: Prompt) -> bool {
    &&& prompt.messages@.len() == 1
    &&& prompt.messages@[0].role == Role::User
    &&& prompt.messages@[0].parts@.len() == 1
    &&& prompt.messages@[0].parts@[0]@ == "hi"@
    &&& prompt.messages@[0].reasoning@.len() == 0
    &&& prompt.messages@[0].tool_calls@.len() == 0
    &&& prompt.messages@[0].tool_call_id@.len() == 0
    &&& prompt.tools@.len() == 0
    &&& prompt.template_arguments@ == "{}"@
    &&& prompt.thinking == Switch::ModelDefault
    &&& prompt.preserve_thinking == Switch::ModelDefault
    &&& prompt.effort == Effort::Unrequested
    &&& prompt.cache.markers@.len() == 0
    &&& prompt.cache.structural == StructuralPrefixes::Allowed
}

/// The request ninfer's server warms up with, beside its sampling, which is
/// the model's default in both phases: the one-turn `hi` prompt, up to four
/// tokens seeded by `seed`, the default thinking budget, no stops, special
/// tokens trimmed, and the prefix cache neither read nor written; it is
/// delivered aggregate.
pub fn warm_up_request(thinking_budget: ThinkingBudget, seed: Bits) -> (r: (Prompt, Directives, Delivery))
    ensures
        is_warm_up_prompt(r.0),
        r.1.output_tokens.0 == 4,
        r.1.seed == seed.0,
        r.1.post_thinking_seed == Seed::Inherited,
        r.1.thinking_budget == thinking_budget,
        r.1.stops@.len() == 0,
        r.1.stop_scope == StopScope::Content,
        r.1.special_tokens == SpecialTokens::Trimmed,
        r.1.tool_name_limit == TOOL_NAME_LIMIT,
        r.1.prefix_reuse == PrefixReuse::Disabled,
        r.2 == Delivery::Aggregate,
{
    let mut parts: Vec<String> = Vec::new();
    parts.push(String::from_str("hi"));
    let mut messages: Vec<Message> = Vec::new();
    messages.push(
        Message {
            role: Role::User,
            parts,
            reasoning: String::new(),
            tool_calls: Vec::new(),
            tool_call_id: String::new(),
        },
    );
    let prompt = Prompt {
        messages,
        tools: Vec::new(),
        template_arguments: String::from_str("{}"),
        thinking: Switch::ModelDefault,
        preserve_thinking: Switch::ModelDefault,
        effort: Effort::Unrequested,
        cache: PromptCache { markers: Vec::new(), structural: StructuralPrefixes::Allowed },
    };
    let directives = Directives {
        output_tokens: TokenCount::from(4),
        seed: seed.0,
        post_thinking_seed: Seed::Inherited,
        thinking_budget,
        stops: Vec::new(),
        stop_scope: StopScope::Content,
        special_tokens: SpecialTokens::Trimmed,
        tool_name_limit: TOOL_NAME_LIMIT,
        prefix_reuse: PrefixReuse::Disabled,
    };
    (prompt, directives, Delivery::Aggregate)
}

/// The warm-up's log line, `warmup complete | <duration>`, for a warm-up of a
/// quarter second or more, as ninfer logs it at its info level; `shown` is
/// the elapsed time rendered in ninfer's format.
pub fn warm_up_record(elapsed: core::time::Duration, shown: &str) -> (r: Option<Record>)
    ensures
        nanos_of(elapsed) >= 250_000_000 ==> (r matches Some(record) && record.severity
            == Severity::Info && record.message@ == "warmup complete | "@ + shown@),
        nanos_of(elapsed) < 250_000_000 ==> r is None,
{
    if nanos(elapsed) >= 250_000_000 {
        let mut message = String::from_str("warmup complete | ");
        message.append(shown);
        Some(Record { severity: Severity::Info, message })
    } else {
        None
    }
}

} // verus!
