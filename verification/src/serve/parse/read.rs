//! Reading typed fields of a request body, with ninfer's refusal for each
//! mistyped one.
use vstd::prelude::*;
use vstd::string::*;
use crate::serve::error::ApiError;
use crate::serve::error::Why;
use crate::serve::error::answers;
use crate::serve::error::refused_as;
use crate::serve::value::Json;
use crate::serve::value::Number;
use crate::serve::value::Reading;
use crate::serve::value::field;
use crate::serve::value::field_of;
use crate::serve::value::string_at;
use crate::serve::value::string_member;
use crate::chat::request::Seed;
use crate::chat::request::Setting;

verus! {

/// An optional boolean field.
#[derive(Debug, Clone, Copy, PartialEq, Eq, Structural)]
pub enum Flag {
    /// Absent or `null`.
    Unset,
    /// `true`.
    True,
    /// `false`.
    False,
}

/// `key` followed by `tail`: the message of a refusal about that field.
pub fn about(key: &str, tail: &str) -> (r: String)
    ensures
        r@ == key@ + tail@,
{
    let mut message = String::from_str(key);
    message.append(tail);
    message
}

/// The refusal naming `key`, its message `key` then `tail`, with no code.
pub open spec fn mistyped(key: Seq<char>, tail: Seq<char>) -> Why {
    (key + tail, key, ""@)
}

/// An optional boolean as ninfer reads it, refused with `tail` when it is
/// present and not a boolean.
pub open spec fn flag_of(object: Seq<(String, Json)>, key: Seq<char>, tail: Seq<char>) -> Result<
    Flag,
    Why,
> {
    match field_of(object, key) {
        None => Ok(Flag::Unset),
        Some(Json::Bool(true)) => Ok(Flag::True),
        Some(Json::Bool(false)) => Ok(Flag::False),
        Some(_) => Err(mistyped(key, tail)),
    }
}

/// The refusal of a mistyped boolean.
pub open spec fn not_boolean() -> Seq<char> {
    " must be a boolean"@
}

/// The refusal of a mistyped template switch.
pub open spec fn not_nullable_boolean() -> Seq<char> {
    " must be a boolean or null"@
}

fn flag_with(object: &[(String, Json)], key: &str, tail: &str) -> (r: Result<Flag, ApiError>)
    ensures
        answers(r, flag_of(object@, key@, tail@)),
{
    proof {
        reveal_strlit("");
    }
    match field(object, key) {
        None => Ok(Flag::Unset),
        Some(Json::Bool(b)) => if *b {
            Ok(Flag::True)
        } else {
            Ok(Flag::False)
        },
        Some(_) => Err(ApiError::refusal(about(key, tail).as_str(), key, "")),
    }
}

/// An optional boolean: refused, naming `key`, with `"<key> must be a
/// boolean"` when present and not a boolean.
pub fn boolean(object: &[(String, Json)], key: &str) -> (r: Result<Flag, ApiError>)
    ensures
        answers(r, flag_of(object@, key@, not_boolean())),
{
    proof {
        reveal_strlit(" must be a boolean");
    }
    flag_with(object, key, " must be a boolean")
}

/// An optional template switch: as [`boolean`], with ninfer's message for
/// the switches it reads as optional, `"<key> must be a boolean or null"`.
pub fn nullable_boolean(object: &[(String, Json)], key: &str) -> (r: Result<Flag, ApiError>)
    ensures
        answers(r, flag_of(object@, key@, not_nullable_boolean())),
{
    proof {
        reveal_strlit(" must be a boolean or null");
    }
    flag_with(object, key, " must be a boolean or null")
}

/// An optional number field: its number when present, refused naming `key`
/// with `"<key> must be a number"` when present and not a number.
pub open spec fn number_of(object: Seq<(String, Json)>, key: Seq<char>) -> Result<Option<Number>, Why> {
    match field_of(object, key) {
        None => Ok(None),
        Some(Json::Number(n)) => Ok(Some(n)),
        Some(_) => Err(mistyped(key, " must be a number"@)),
    }
}

/// An optional number.
pub fn number<'a>(object: &'a [(String, Json)], key: &str) -> (r: Result<Option<&'a Number>, ApiError>)
    ensures
        match (r, number_of(object@, key@)) {
            (Ok(Some(n)), Ok(Some(wanted))) => *n == wanted,
            (Ok(None), Ok(None)) => true,
            (Err(e), Err(why)) => refused_as(e, why),
            _ => false,
        },
{
    match field(object, key) {
        None => Ok(None),
        Some(Json::Number(n)) => Ok(Some(n)),
        Some(_) => {
            proof {
                reveal_strlit(" must be a number");
                reveal_strlit("");
            }
            Err(ApiError::refusal(about(key, " must be a number").as_str(), key, ""))
        },
    }
}

/// Whether a number reads as the double zero.
pub open spec fn reads_zero(n: Number) -> bool {
    match n.reading {
        Reading::Unsigned(u) => u == 0,
        Reading::Negative(_) => false,
        Reading::Fraction { zero, .. } => zero,
    }
}

/// Whether a number reads as the double one.
pub open spec fn reads_one(n: Number) -> bool {
    match n.reading {
        Reading::Unsigned(u) => u == 1,
        Reading::Negative(_) => false,
        Reading::Fraction { one, .. } => one,
    }
}

/// Whether a number reads as the double zero.
pub fn is_zero(n: &Number) -> (r: bool)
    ensures
        r == reads_zero(*n),
{
    match n.reading {
        Reading::Unsigned(u) => u == 0,
        Reading::Negative(_) => false,
        Reading::Fraction { zero, .. } => zero,
    }
}

/// Whether a number reads as the double one.
pub fn is_one(n: &Number) -> (r: bool)
    ensures
        r == reads_one(*n),
{
    match n.reading {
        Reading::Unsigned(u) => u == 1,
        Reading::Negative(_) => false,
        Reading::Fraction { one, .. } => one,
    }
}

/// An optional 32-bit integer as ninfer reads it: omitted when absent or
/// null; refused naming `key` with `"<key> is out of range"` for an integer
/// outside `i32`, and `"<key> must be an integer"` for anything else.
pub open spec fn integer_of(object: Seq<(String, Json)>, key: Seq<char>) -> Result<Option<i32>, Why> {
    match field_of(object, key) {
        None => Ok(None),
        Some(Json::Number(n)) => match n.reading {
            Reading::Unsigned(u) => if u <= i32::MAX {
                Ok(Some(u as i32))
            } else {
                Err(mistyped(key, " is out of range"@))
            },
            Reading::Negative(i) => if i32::MIN <= i <= i32::MAX {
                Ok(Some(i as i32))
            } else {
                Err(mistyped(key, " is out of range"@))
            },
            Reading::Fraction { .. } => Err(mistyped(key, " must be an integer"@)),
        },
        Some(_) => Err(mistyped(key, " must be an integer"@)),
    }
}

/// An optional 32-bit integer.
pub fn integer(object: &[(String, Json)], key: &str) -> (r: Result<Option<i32>, ApiError>)
    ensures
        answers(r, integer_of(object@, key@)),
{
    proof {
        reveal_strlit(" is out of range");
        reveal_strlit(" must be an integer");
        reveal_strlit("");
    }
    let value = match field(object, key) {
        None => return Ok(None),
        Some(value) => value,
    };
    if let Json::Number(n) = value {
        match n.reading {
            Reading::Unsigned(u) => {
                if u <= 2147483647 {
                    return Ok(Some(u as i32));
                }
                return Err(ApiError::refusal(about(key, " is out of range").as_str(), key, ""));
            },
            Reading::Negative(i) => {
                if -2147483648 <= i && i <= 2147483647 {
                    return Ok(Some(i as i32));
                }
                return Err(ApiError::refusal(about(key, " is out of range").as_str(), key, ""));
            },
            Reading::Fraction { .. } => {},
        }
    }
    Err(ApiError::refusal(about(key, " must be an integer").as_str(), key, ""))
}

/// The `top_k` sampling field of a phase's object, `prefix` naming the
/// phase (empty, or `post_thinking.`): the model's default when absent or
/// null; refused as [`integer_of`] refuses a mistyped one; refused naming
/// `<prefix>top_k` with `"<prefix>top_k must be in [0,20]"` outside zero to
/// twenty.
pub open spec fn top_k_of(object: Seq<(String, Json)>, prefix: Seq<char>) -> Result<Setting<i32>, Why> {
    match integer_of(object, "top_k"@) {
        Err(why) => Err(why),
        Ok(None) => Ok(Setting::ModelDefault),
        Ok(Some(value)) => if 0 <= value <= 20 {
            Ok(Setting::Given(value))
        } else {
            Err((prefix + "top_k must be in [0,20]"@, prefix + "top_k"@, ""@))
        },
    }
}

/// The `top_k` sampling field of a phase's object.
pub fn top_k(object: &[(String, Json)], prefix: &str) -> (r: Result<Setting<i32>, ApiError>)
    ensures
        answers(r, top_k_of(object@, prefix@)),
{
    match integer(object, "top_k") {
        Err(error) => Err(error),
        Ok(None) => Ok(Setting::ModelDefault),
        Ok(Some(value)) => {
            if 0 <= value && value <= 20 {
                Ok(Setting::Given(value))
            } else {
                let mut message = String::from_str(prefix);
                message.append("top_k must be in [0,20]");
                let mut param = String::from_str(prefix);
                param.append("top_k");
                proof {
                    reveal_strlit("");
                }
                Err(ApiError::refusal(message.as_str(), param.as_str(), ""))
            }
        },
    }
}

/// The bits of a negative `i64`, its two's complement.
pub open spec fn twos_complement(i: int) -> int {
    i + 0x1_0000_0000_0000_0000
}

/// The `seed` field of `object` as ninfer reads it: any integer, a negative
/// one taken as its two's complement bits; inherited when absent or null;
/// refused naming `param` with `"<param> must be an integer"` otherwise.
pub open spec fn seed_of(object: Seq<(String, Json)>, param: Seq<char>) -> Result<Seed, Why> {
    match field_of(object, "seed"@) {
        None => Ok(Seed::Inherited),
        Some(Json::Number(n)) => match n.reading {
            Reading::Unsigned(u) => Ok(Seed::Fixed(u)),
            Reading::Negative(i) => if i < 0 {
                Ok(Seed::Fixed(twos_complement(i as int) as u64))
            } else {
                Ok(Seed::Fixed(i as u64))
            },
            Reading::Fraction { .. } => Err(mistyped(param, " must be an integer"@)),
        },
        Some(_) => Err(mistyped(param, " must be an integer"@)),
    }
}

/// The `seed` field, naming `param` when it is refused.
pub fn seed(object: &[(String, Json)], param: &str) -> (r: Result<Seed, ApiError>)
    ensures
        answers(r, seed_of(object@, param@)),
{
    proof {
        reveal_strlit(" must be an integer");
        reveal_strlit("seed");
        reveal_strlit("");
    }
    if let Some(Json::Number(n)) = field(object, "seed") {
        match n.reading {
            Reading::Unsigned(u) => return Ok(Seed::Fixed(u)),
            Reading::Negative(i) => {
                if i < 0 {
                    let magnitude: u64 = (-(i + 1)) as u64;
                    return Ok(Seed::Fixed(18446744073709551615u64 - magnitude));
                }
                return Ok(Seed::Fixed(i as u64));
            },
            Reading::Fraction { .. } => {},
        }
    } else if field(object, "seed").is_none() {
        return Ok(Seed::Inherited);
    }
    Err(ApiError::refusal(about(param, " must be an integer").as_str(), param, ""))
}

/// A character a function name may hold: `[A-Za-z0-9_-]`.
pub open spec fn name_char(c: char) -> bool {
    ('A' <= c && c <= 'Z') || ('a' <= c && c <= 'z') || ('0' <= c && c <= '9') || c == '_' || c
        == '-'
}

/// Whether `name` matches `[A-Za-z0-9_-]{1,64}`.
pub open spec fn valid_name(name: Seq<char>) -> bool {
    &&& 1 <= name.len() <= 64
    &&& forall|i: int| 0 <= i < name.len() ==> name_char(#[trigger] name[i])
}

/// A function object's name as ninfer reads it: a string matching
/// `[A-Za-z0-9_-]{1,64}`, refused naming `param` otherwise.
pub open spec fn function_name_of(object: Seq<(String, Json)>, param: Seq<char>) -> Result<
    Seq<char>,
    Why,
> {
    match string_member(object, "name"@) {
        None => Err(("function name must be a string"@, param, ""@)),
        Some(name) => if valid_name(name) {
            Ok(name)
        } else {
            Err(("function name must match [A-Za-z0-9_-]{1,64}"@, param, ""@))
        },
    }
}

/// Whether a character may stand in a function name.
fn is_name_char(c: char) -> (r: bool)
    ensures
        r == name_char(c),
{
    ('A' <= c && c <= 'Z') || ('a' <= c && c <= 'z') || ('0' <= c && c <= '9') || c == '_' || c
        == '-'
}

/// A function object's validated name.
pub fn function_name(object: &[(String, Json)], param: &str) -> (r: Result<String, ApiError>)
    ensures
        match (r, function_name_of(object@, param@)) {
            (Ok(name), Ok(wanted)) => name@ == wanted,
            (Err(e), Err(why)) => refused_as(e, why),
            _ => false,
        },
{
    proof {
        reveal_strlit("name");
        reveal_strlit("function name must be a string");
        reveal_strlit("function name must match [A-Za-z0-9_-]{1,64}");
        reveal_strlit("");
    }
    let name = match string_at(object, "name") {
        None => return Err(ApiError::refusal("function name must be a string", param, "")),
        Some(name) => name,
    };
    let chars = crate::letters::chars_of(name);
    let mut valid = 1 <= chars.len() && chars.len() <= 64;
    let mut i: usize = 0;
    while i < chars.len()
        invariant
            i <= chars@.len(),
            chars@ == name@,
            valid == (1 <= chars@.len() <= 64 && forall|k: int| 0 <= k < i ==> name_char(#[trigger] chars@[k])),
        decreases chars@.len() - i,
    {
        if !is_name_char(chars[i]) {
            valid = false;
        }
        i = i + 1;
    }
    if !valid {
        return Err(ApiError::refusal("function name must match [A-Za-z0-9_-]{1,64}", param, ""));
    }
    Ok(String::from_str(name))
}

} // verus!
