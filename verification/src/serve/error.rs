//! The `OpenAI` error shape: an HTTP status and a body naming the message,
//! type, parameter and code.
use vstd::prelude::*;
use crate::chat::backend::ChatFailure;
use crate::chat::backend::FailureKind;
use crate::json::json_quoted;
use crate::json::quote;

verus! {

/// The request parameter an error names; empty names none.
#[derive(Debug, Clone, Copy, PartialEq, Eq)]
pub struct Param<'name>(pub &'name str);

impl Param<'static> {
    /// No parameter: the error body's `param` is `null`.
    pub fn none() -> (r: Param<'static>)
        ensures
            r.0@ == Seq::<char>::empty(),
    {
        proof {
            reveal_strlit("");
        }
        Param("")
    }
}

/// The machine-readable code an error carries; empty carries none.
#[derive(Debug, Clone, Copy, PartialEq, Eq)]
pub struct Code<'name>(pub &'name str);

impl Code<'static> {
    /// No code: the error body's `code` is `null`.
    pub fn none() -> (r: Code<'static>)
        ensures
            r.0@ == Seq::<char>::empty(),
    {
        proof {
            reveal_strlit("");
        }
        Code("")
    }
}

/// One API error, as the response renders it.
#[derive(Debug, Clone, PartialEq, Eq)]
pub struct ApiError {
    /// The HTTP status.
    pub status: u16,
    /// The error's `type`.
    pub kind: &'static str,
    /// The human-readable message.
    pub message: String,
    /// The offending parameter; empty renders as `null`.
    pub param: String,
    /// The machine-readable code; empty renders as `null`.
    pub code: String,
}

/// The status, type, parameter and code ninfer's server gives a failure
/// class: 400 for an invalid prompt, an over-long prompt and an unplaceable
/// thinking budget; 429 for a full queue; 503 for a pending timeout and an
/// unavailable backend; 499 for a cancellation; 500 otherwise.
pub open spec fn failure_shape(kind: FailureKind) -> (u16, Seq<char>, Seq<char>, Seq<char>) {
    match kind {
        FailureKind::InvalidPrompt => (400, "invalid_request_error"@, "messages"@, "invalid_prompt"@),
        FailureKind::ContextLength => (
            400,
            "invalid_request_error"@,
            "messages"@,
            "context_length_exceeded"@,
        ),
        FailureKind::ThinkingBudgetCapacity => (
            400,
            "invalid_request_error"@,
            ""@,
            "thinking_budget_capacity_insufficient"@,
        ),
        FailureKind::Overloaded => (429, "rate_limit_error"@, ""@, "server_overloaded"@),
        FailureKind::QueueTimeout => (503, "server_error"@, ""@, "request_queue_timeout"@),
        FailureKind::Cancelled => (499, "request_cancelled"@, ""@, "client_disconnected"@),
        FailureKind::Unavailable => (503, "server_error"@, ""@, "service_unavailable"@),
        FailureKind::Internal => (500, "internal_error"@, ""@, ""@),
    }
}

/// The message, parameter and code of a refused request; an empty parameter
/// or code names none.
pub type Why = (Seq<char>, Seq<char>, Seq<char>);

/// Whether `error` is the 400 `invalid_request_error` that `why` describes.
pub open spec fn refused_as(error: ApiError, why: Why) -> bool {
    &&& error.status == 400
    &&& error.kind@ == "invalid_request_error"@
    &&& error.message@ == why.0
    &&& error.param@ == why.1
    &&& error.code@ == why.2
}

/// Whether `result` is `expected`: the same value, or the refusal it
/// describes.
pub open spec fn answers<T>(result: Result<T, ApiError>, expected: Result<T, Why>) -> bool {
    match (result, expected) {
        (Ok(value), Ok(wanted)) => value == wanted,
        (Err(error), Err(why)) => refused_as(error, why),
        _ => false,
    }
}

/// Whether a check's result is the refusal expected of it, or success when
/// none is.
pub open spec fn refuses(result: Result<(), ApiError>, refusal: Option<Why>) -> bool {
    match (result, refusal) {
        (Ok(()), None) => true,
        (Err(error), Some(why)) => refused_as(error, why),
        _ => false,
    }
}

/// The first of two checks' refusals: `first`'s when it refuses, else
/// `then`'s.
pub open spec fn either(first: Option<Why>, then: Option<Why>) -> Option<Why> {
    match first {
        Some(why) => Some(why),
        None => then,
    }
}

/// The refusal of the first item that `verdict` refuses, if any.
pub open spec fn first_refusal<T>(items: Seq<T>, verdict: spec_fn(T) -> Option<Why>) -> Option<Why>
    decreases items.len(),
{
    if items.len() == 0 {
        None
    } else {
        either(verdict(items[0]), first_refusal(items.drop_first(), verdict))
    }
}

/// A field of an error body: `null` when empty, else its JSON string.
pub open spec fn nullable(text: Seq<char>) -> Seq<char> {
    if text.len() == 0 {
        "null"@
    } else {
        json_quoted(text)
    }
}

/// The JSON body `{"error":{"message","type","param","code"}}`, the four
/// fields in that order, an empty parameter or code `null`.
pub open spec fn error_body(error: ApiError) -> Seq<char> {
    "{\"error\":{\"message\":"@ + json_quoted(error.message@) + ",\"type\":"@ + json_quoted(
        error.kind@,
    ) + ",\"param\":"@ + nullable(error.param@) + ",\"code\":"@ + nullable(error.code@) + "}}"@
}

/// Append a field that is `null` when empty.
fn append_nullable(out: &mut String, text: &str)
    ensures
        final(out)@ == old(out)@ + nullable(text@),
{
    if text.unicode_len() == 0 {
        out.append("null");
    } else {
        let literal = quote(text);
        out.append(literal.as_str());
    }
}

impl ApiError {
    /// A 400 `invalid_request_error` naming `param` and `code`.
    pub fn invalid(message: String, param: Param<'_>, code: Code<'_>) -> (r: Self)
        ensures
            r.status == 400,
            r.kind@ == "invalid_request_error"@,
            r.message@ == message@,
            r.param@ == param.0@,
            r.code@ == code.0@,
    {
        ApiError {
            status: 400,
            kind: "invalid_request_error",
            message,
            param: String::from_str(param.0),
            code: String::from_str(code.0),
        }
    }

    /// The 400 `invalid_request_error` that `why` describes, its message,
    /// parameter and code given as texts.
    pub(crate) fn refusal(message: &str, param: &str, code: &str) -> (r: Self)
        ensures
            refused_as(r, (message@, param@, code@)),
    {
        ApiError::invalid(String::from_str(message), Param(param), Code(code))
    }

    /// A 500 `internal_error` carrying `message`.
    pub fn internal(message: String) -> (r: Self)
        ensures
            r.status == 500,
            r.kind@ == "internal_error"@,
            r.message@ == message@,
            r.param@ == Seq::<char>::empty(),
            r.code@ == Seq::<char>::empty(),
    {
        ApiError {
            status: 500,
            kind: "internal_error",
            message,
            param: String::new(),
            code: String::new(),
        }
    }

    /// The error a backend failure renders as: the class's status, type,
    /// parameter and code, with the backend's message.
    pub fn from_failure(failure: ChatFailure) -> (r: Self)
        ensures
            (r.status, r.kind@, r.param@, r.code@) == failure_shape(failure.kind),
            r.message@ == failure.message@,
    {
        let (status, kind, param, code): (u16, &'static str, &'static str, &'static str) = match failure.kind {
            FailureKind::InvalidPrompt => (400, "invalid_request_error", "messages", "invalid_prompt"),
            FailureKind::ContextLength => (
                400,
                "invalid_request_error",
                "messages",
                "context_length_exceeded",
            ),
            FailureKind::ThinkingBudgetCapacity => (
                400,
                "invalid_request_error",
                "",
                "thinking_budget_capacity_insufficient",
            ),
            FailureKind::Overloaded => (429, "rate_limit_error", "", "server_overloaded"),
            FailureKind::QueueTimeout => (503, "server_error", "", "request_queue_timeout"),
            FailureKind::Cancelled => (499, "request_cancelled", "", "client_disconnected"),
            FailureKind::Unavailable => (503, "server_error", "", "service_unavailable"),
            FailureKind::Internal => (500, "internal_error", "", ""),
        };
        ApiError {
            status,
            kind,
            message: failure.message,
            param: String::from_str(param),
            code: String::from_str(code),
        }
    }

    /// The JSON body: `{"error":{"message","type","param","code"}}`.
    pub fn body(&self) -> (r: String)
        ensures
            r@ == error_body(*self),
    {
        let mut out = String::from_str("{\"error\":{\"message\":");
        let message = quote(self.message.as_str());
        out.append(message.as_str());
        out.append(",\"type\":");
        let kind = quote(self.kind);
        out.append(kind.as_str());
        out.append(",\"param\":");
        append_nullable(&mut out, self.param.as_str());
        out.append(",\"code\":");
        append_nullable(&mut out, self.code.as_str());
        out.append("}}");
        out
    }
}

} // verus!
