//! The declared tools, rendered as the chat template receives them, the
//! `tool_choice` applied to them, and the stop strings.
use vstd::prelude::*;
use vstd::string::*;
use crate::json::json_quoted;
use crate::json::quote;
use crate::chat::request::StopScope;
use crate::serve::error::ApiError;
use crate::serve::error::Why;
use crate::serve::error::refused_as;
use crate::serve::value::Json;
use crate::serve::value::field;
use crate::serve::value::field_of;
use crate::serve::value::json_text;
use crate::serve::value::lookup;
use crate::serve::value::member;
use crate::serve::value::write_json;
use crate::serve::parse::read::Flag;
use crate::serve::parse::read::boolean;
use crate::serve::parse::read::flag_of;
use crate::serve::parse::read::function_name;
use crate::serve::parse::read::function_name_of;
use crate::serve::parse::read::not_boolean;
use crate::serve::parse::refuse::type_at;
use crate::serve::parse::refuse::type_of;

verus! {

/// The most stop strings one request may carry.
pub const MAXIMUM_STOPS: usize = 4;

/// One declared tool: its name and rendered definition.
#[derive(Debug, Clone, PartialEq, Eq)]
pub struct Tool {
    /// The function name.
    pub name: String,
    /// The definition as the chat template receives it.
    pub definition: String,
}

impl View for Tool {
    type V = (Seq<char>, Seq<char>);

    open spec fn view(&self) -> (Seq<char>, Seq<char>) {
        (self.name@, self.definition@)
    }
}

/// The views of a list of tools.
pub open spec fn tool_views(tools: Seq<Tool>) -> Seq<(Seq<char>, Seq<char>)> {
    tools.map_values(|tool: Tool| tool@)
}

/// The members of the object stored under `key`, when it is an object; a
/// `null` there, or any other value, has none.
pub open spec fn object_member(members: Seq<(String, Json)>, key: Seq<char>) -> Option<Seq<(String, Json)>> {
    match lookup(members, key) {
        Some(Json::Object(inner)) => Some(inner@),
        _ => None,
    }
}

/// The members of a value, when it is an object.
pub open spec fn object_of(value: Json) -> Option<Seq<(String, Json)>> {
    match value {
        Json::Object(members) => Some(members@),
        _ => None,
    }
}

/// The schema a function without `parameters` takes: an empty object
/// schema, `{"type":"object","properties":{}}` as serde_json writes it.
pub open spec fn default_schema() -> Seq<char> {
    "{"@ + json_quoted("type"@) + ":"@ + json_quoted("object"@) + ","@ + json_quoted(
        "properties"@,
    ) + ":{}}"@
}

/// A tool's definition as serde_json writes the object ninfer builds:
/// `{"type":"function","function":{"name","parameters","strict":false,
/// "description"}}`, the description only when it is not empty.
pub open spec fn definition_text(name: Seq<char>, parameters: Seq<char>, description: Seq<char>) -> Seq<char> {
    "{"@ + json_quoted("type"@) + ":"@ + json_quoted("function"@) + ","@ + json_quoted(
        "function"@,
    ) + ":{"@ + json_quoted("name"@) + ":"@ + json_quoted(name) + ","@ + json_quoted(
        "parameters"@,
    ) + ":"@ + parameters + ","@ + json_quoted("strict"@) + ":false"@ + (if description.len()
        == 0 {
        Seq::empty()
    } else {
        ","@ + json_quoted("description"@) + ":"@ + json_quoted(description)
    }) + "}}"@
}

/// One `tools` entry as ninfer reads it: a `function` tool with a valid name,
/// an optional string description, an optional object schema and a `strict`
/// that is not true; its name and rendered definition.
pub open spec fn tool_of(item: Json) -> Result<(Seq<char>, Seq<char>), Why> {
    match type_of(item) {
        None => Err(("tools entries must contain a string type"@, "tools"@, ""@)),
        Some(kind) => if kind != "function"@ {
            Err(
                (
                    "tool type '"@ + kind + "' requires a non-function output contract"@,
                    "tools"@,
                    "tool_type_not_supported"@,
                ),
            )
        } else {
            match object_member(object_of(item).unwrap_or(Seq::empty()), "function"@) {
                None => Err(("function tools must contain a function object"@, "tools"@, ""@)),
                Some(function) => match function_name_of(function, "tools"@) {
                    Err(why) => Err(why),
                    Ok(name) => {
                        let description = field_of(function, "description"@);
                        let parameters = field_of(function, "parameters"@);
                        if !(description is None || description matches Some(Json::Text(_))) {
                            Err(("function description must be a string"@, "tools"@, ""@))
                        } else if !(parameters is None || parameters matches Some(Json::Object(_))) {
                            Err(("function parameters must be a JSON object"@, "tools"@, ""@))
                        } else if flag_of(function, "strict"@, not_boolean()) is Err {
                            Err(("function strict must be a boolean"@, "tools"@, ""@))
                        } else if flag_of(function, "strict"@, not_boolean()) == Ok::<Flag, Why>(
                            Flag::True,
                        ) {
                            Err(
                                (
                                    "strict=true requires schema-constrained arguments"@,
                                    "tools"@,
                                    "strict_tools_not_supported"@,
                                ),
                            )
                        } else {
                            let text = match description {
                                Some(Json::Text(d)) => d@,
                                _ => Seq::empty(),
                            };
                            let schema = match parameters {
                                Some(p) => json_text(p),
                                None => default_schema(),
                            };
                            Ok((name, definition_text(name, schema, text)))
                        }
                    },
                },
            }
        }
    }
}

/// The first refusal among `items`, or every tool they declare.
pub open spec fn tools_in(items: Seq<Json>) -> Result<Seq<(Seq<char>, Seq<char>)>, Why>
    decreases items.len(),
{
    if items.len() == 0 {
        Ok(Seq::empty())
    } else {
        match tools_in(items.drop_last()) {
            Err(why) => Err(why),
            Ok(earlier) => match tool_of(items.last()) {
                Err(why) => Err(why),
                Ok(tool) => Ok(earlier.push(tool)),
            },
        }
    }
}

/// A refusal among the first `j` items is the refusal of them all.
pub proof fn lemma_tools_in_refused(items: Seq<Json>, j: int)
    requires
        0 <= j <= items.len(),
        tools_in(items.take(j)) is Err,
    ensures
        tools_in(items) == tools_in(items.take(j)),
    decreases items.len(),
{
    if j == items.len() {
        assert(items.take(j) == items);
    } else {
        assert(items.drop_last().take(j) == items.take(j));
        lemma_tools_in_refused(items.drop_last(), j);
    }
}

/// The declared tools: none when `tools` is absent; refused when it is not
/// an array, or with the first refused entry's refusal.
pub open spec fn tools_of(body: Seq<(String, Json)>) -> Result<Seq<(Seq<char>, Seq<char>)>, Why> {
    match field_of(body, "tools"@) {
        None => Ok(Seq::empty()),
        Some(Json::Array(list)) => tools_in(list@),
        Some(_) => Err(("tools must be an array"@, "tools"@, ""@)),
    }
}

/// The members of the object stored under `key`.
fn object_at<'a>(members: &'a [(String, Json)], key: &str) -> (r: Option<&'a Vec<(String, Json)>>)
    ensures
        match r {
            Some(inner) => object_member(members@, key@) == Some(inner@),
            None => object_member(members@, key@) is None,
        },
{
    match member(members, key) {
        Some(Json::Object(inner)) => Some(inner),
        _ => None,
    }
}

/// Render one tool's definition.
fn render_definition(name: &str, parameters: Option<&Json>, description: &str) -> (r: String)
    ensures
        r@ == definition_text(
            name@,
            match parameters {
                Some(p) => json_text(*p),
                None => default_schema(),
            },
            description@,
        ),
{
    let mut out = String::from_str("{");
    out.append(quote("type").as_str());
    out.append(":");
    out.append(quote("function").as_str());
    out.append(",");
    out.append(quote("function").as_str());
    out.append(":{");
    out.append(quote("name").as_str());
    out.append(":");
    out.append(quote(name).as_str());
    out.append(",");
    out.append(quote("parameters").as_str());
    out.append(":");
    match parameters {
        Some(p) => write_json(&mut out, p),
        None => {
            out.append("{");
            out.append(quote("type").as_str());
            out.append(":");
            out.append(quote("object").as_str());
            out.append(",");
            out.append(quote("properties").as_str());
            out.append(":{}}");
        },
    }
    out.append(",");
    out.append(quote("strict").as_str());
    out.append(":false");
    let ghost before = out@;
    if description.unicode_len() > 0 {
        out.append(",");
        out.append(quote("description").as_str());
        out.append(":");
        out.append(quote(description).as_str());
    }
    out.append("}}");
    proof {
        reveal_strlit("{");
        reveal_strlit(":{");
        reveal_strlit(":{}}");
        reveal_strlit(",");
        reveal_strlit(":");
        reveal_strlit(":false");
        reveal_strlit("}}");
    }
    out
}

/// One declared tool.
fn declare(item: &Json) -> (r: Result<Tool, ApiError>)
    ensures
        match (r, tool_of(*item)) {
            (Ok(tool), Ok(wanted)) => tool@ == wanted,
            (Err(e), Err(why)) => refused_as(e, why),
            _ => false,
        },
{
    proof {
        reveal_strlit("tool type '");
        reveal_strlit("' requires a non-function output contract");
    }
    match type_at(item) {
        None => return Err(
            ApiError::refusal("tools entries must contain a string type", "tools", ""),
        ),
        Some(kind) => {
            if !crate::letters::same_text(kind, "function") {
                let mut message = String::from_str("tool type '");
                message.append(kind);
                message.append("' requires a non-function output contract");
                return Err(
                    ApiError::refusal(message.as_str(), "tools", "tool_type_not_supported"),
                );
            }
        },
    }
    let members: &[(String, Json)] = match item {
        Json::Object(members) => members.as_slice(),
        _ => {
            proof {
                assert(Seq::<(String, Json)>::empty().len() == 0);
            }
            return Err(
                ApiError::refusal("function tools must contain a function object", "tools", ""),
            );
        },
    };
    let function = match object_at(members, "function") {
        None => return Err(
            ApiError::refusal("function tools must contain a function object", "tools", ""),
        ),
        Some(function) => function.as_slice(),
    };
    let name = function_name(function, "tools")?;
    let description = field(function, "description");
    let parameters = field(function, "parameters");
    let text: &str = match description {
        None => "",
        Some(Json::Text(d)) => d.as_str(),
        Some(_) => return Err(
            ApiError::refusal("function description must be a string", "tools", ""),
        ),
    };
    match parameters {
        None => {},
        Some(Json::Object(_)) => {},
        Some(_) => return Err(
            ApiError::refusal("function parameters must be a JSON object", "tools", ""),
        ),
    }
    match boolean(function, "strict") {
        Err(_) => return Err(
            ApiError::refusal("function strict must be a boolean", "tools", ""),
        ),
        Ok(Flag::True) => return Err(
            ApiError::refusal(
                "strict=true requires schema-constrained arguments",
                "tools",
                "strict_tools_not_supported",
            ),
        ),
        Ok(_) => {},
    }
    proof {
        reveal_strlit("");
    }
    let definition = render_definition(name.as_str(), parameters, text);
    Ok(Tool { name, definition })
}

/// The declared tools, each rendered as
/// `{"type":"function","function":{"name","parameters","strict":false,"description"}}`:
/// every tool keeps its name, its parameter schema in wire order (an empty
/// object schema when absent), `strict` false, and its description when
/// given, in that key order.
pub fn tools(body: &[(String, Json)]) -> (r: Result<Vec<Tool>, ApiError>)
    ensures
        match (r, tools_of(body@)) {
            (Ok(declared), Ok(wanted)) => tool_views(declared@) == wanted,
            (Err(e), Err(why)) => refused_as(e, why),
            _ => false,
        },
{
    let list = match field(body, "tools") {
        None => return Ok(Vec::new()),
        Some(Json::Array(list)) => list,
        Some(_) => return Err(ApiError::refusal("tools must be an array", "tools", "")),
    };
    let mut declared: Vec<Tool> = Vec::new();
    let mut i: usize = 0;
    assert(list@.take(0).len() == 0);
    assert(tool_views(declared@) =~= Seq::empty());
    while i < list.len()
        invariant
            i <= list@.len(),
            field_of(body@, "tools"@) == Some(Json::Array(*list)),
            tools_in(list@.take(i as int)) == Ok::<Seq<(Seq<char>, Seq<char>)>, Why>(
                tool_views(declared@),
            ),
        decreases list@.len() - i,
    {
        let tool = declare(&list[i]);
        proof {
            let taken = list@.take(i + 1);
            assert(taken.drop_last() == list@.take(i as int));
            assert(taken.last() == list@[i as int]);
        }
        match tool {
            Err(e) => {
                proof {
                    lemma_tools_in_refused(list@, i + 1);
                }
                return Err(e);
            },
            Ok(tool) => {
                let ghost earlier = declared@;
                declared.push(tool);
                proof {
                    assert(tool_views(declared@) =~= tool_views(earlier).push(declared@.last()@));
                }
            },
        }
        i = i + 1;
    }
    assert(list@.take(list@.len() as int) == list@);
    Ok(declared)
}

/// Whether the tools reach the prompt.
#[derive(Debug, Clone, Copy, PartialEq, Eq, Structural)]
pub enum ToolUse {
    /// Offered.
    Auto,
    /// Withheld: `tool_choice` is `none`.
    Withheld,
}

/// Whether a tool of this name is declared.
pub open spec fn declares(tools: Seq<(Seq<char>, Seq<char>)>, name: Seq<char>) -> bool {
    exists|i: int| 0 <= i < tools.len() && tools[i].0 == name
}

/// The declared tools whose names are allowed, in their declared order.
pub open spec fn kept_tools(tools: Seq<(Seq<char>, Seq<char>)>, allowed: Seq<Seq<char>>) -> Seq<
    (Seq<char>, Seq<char>),
>
    decreases tools.len(),
{
    if tools.len() == 0 {
        Seq::empty()
    } else if allowed.contains(tools.last().0) {
        kept_tools(tools.drop_last(), allowed).push(tools.last())
    } else {
        kept_tools(tools.drop_last(), allowed)
    }
}

/// One `allowed_tools` entry: a `function` entry naming a declared tool.
pub open spec fn allowed_entry(entry: Json, declared: Seq<(Seq<char>, Seq<char>)>) -> Result<Seq<char>, Why> {
    match entry {
        Json::Object(item) => if type_of(entry) != Some("function"@) {
            Err(
                (
                    "allowed_tools can select only function tools"@,
                    "tool_choice"@,
                    "tool_type_not_supported"@,
                ),
            )
        } else {
            match function_name_of(item@, "tool_choice"@) {
                Err(why) => Err(why),
                Ok(name) => if declares(declared, name) {
                    Ok(name)
                } else {
                    Err(
                        (
                            "allowed tool '"@ + name + "' is not present in tools"@,
                            "tool_choice"@,
                            ""@,
                        ),
                    )
                },
            }
        },
        _ => Err(("allowed tool entries must contain a string type"@, "tool_choice"@, ""@)),
    }
}

/// The names the `allowed_tools` entries allow, or the first entry's
/// refusal.
pub open spec fn allowed_in(entries: Seq<Json>, declared: Seq<(Seq<char>, Seq<char>)>) -> Result<
    Seq<Seq<char>>,
    Why,
>
    decreases entries.len(),
{
    if entries.len() == 0 {
        Ok(Seq::empty())
    } else {
        match allowed_in(entries.drop_last(), declared) {
            Err(why) => Err(why),
            Ok(earlier) => match allowed_entry(entries.last(), declared) {
                Err(why) => Err(why),
                Ok(name) => Ok(earlier.push(name)),
            },
        }
    }
}

/// A refusal among the first `j` entries is the refusal of them all.
pub proof fn lemma_allowed_in_refused(entries: Seq<Json>, declared: Seq<(Seq<char>, Seq<char>)>, j: int)
    requires
        0 <= j <= entries.len(),
        allowed_in(entries.take(j), declared) is Err,
    ensures
        allowed_in(entries, declared) == allowed_in(entries.take(j), declared),
    decreases entries.len(),
{
    if j == entries.len() {
        assert(entries.take(j) == entries);
    } else {
        assert(entries.drop_last().take(j) == entries.take(j));
        lemma_allowed_in_refused(entries.drop_last(), declared, j);
    }
}

/// The refusal of a `tool_choice` that forces a call.
pub open spec fn required_refusal() -> Why {
    (
        "tool_choice='required' requires at least one tool call"@,
        "tool_choice"@,
        "tool_choice_not_supported"@,
    )
}

/// An `allowed_tools` choice, read from `config`: a mode of `auto` or
/// `required`, and the tools it selects; `required` is refused once the
/// entries are checked, `auto` keeps the selected tools.
pub open spec fn allowed_choice(config: Json, declared: Seq<(Seq<char>, Seq<char>)>) -> Result<
    (ToolUse, Seq<(Seq<char>, Seq<char>)>),
    Why,
> {
    match config {
        Json::Object(members) => {
            let mode = crate::serve::value::string_member(members@, "mode"@);
            if !(mode == Some("auto"@) || mode == Some("required"@)) {
                Err(
                    (
                        "tool_choice.allowed_tools.mode must be 'auto' or 'required'"@,
                        "tool_choice"@,
                        ""@,
                    ),
                )
            } else {
                match lookup(members@, "tools"@) {
                    Some(Json::Array(entries)) => match allowed_in(entries@, declared) {
                        Err(why) => Err(why),
                        Ok(allowed) => if mode == Some("required"@) {
                            Err(
                                (
                                    "tool_choice.allowed_tools mode='required' requires at least one tool call"@,
                                    "tool_choice"@,
                                    "tool_choice_not_supported"@,
                                ),
                            )
                        } else {
                            Ok((ToolUse::Auto, kept_tools(declared, allowed)))
                        },
                    },
                    _ => Err(
                        (
                            "tool_choice.allowed_tools.tools must be an array"@,
                            "tool_choice"@,
                            ""@,
                        ),
                    ),
                }
            }
        },
        _ => Err(("tool_choice.allowed_tools must be an object"@, "tool_choice"@, ""@)),
    }
}

/// `tool_choice` applied to the declared tools, as ninfer applies it: `auto`
/// or omission offers every tool; `none` withholds them; `allowed_tools` in
/// `auto` mode offers only the named ones, in their declared order; a forced
/// call, a named function, a custom choice, or a malformed choice is
/// refused.
pub open spec fn choice_of(body: Seq<(String, Json)>, declared: Seq<(Seq<char>, Seq<char>)>) -> Result<
    (ToolUse, Seq<(Seq<char>, Seq<char>)>),
    Why,
> {
    match field_of(body, "tool_choice"@) {
        None => Ok((ToolUse::Auto, declared)),
        Some(Json::Text(s)) => if s@ == "auto"@ {
            Ok((ToolUse::Auto, declared))
        } else if s@ == "none"@ {
            Ok((ToolUse::Withheld, declared))
        } else if s@ == "required"@ {
            Err(required_refusal())
        } else {
            Err(
                (
                    "tool_choice must be 'auto', 'none', 'required', or a function choice"@,
                    "tool_choice"@,
                    ""@,
                ),
            )
        },
        Some(Json::Object(object)) => match crate::serve::value::string_member(
            object@,
            "type"@,
        ) {
            None => Err(("tool_choice objects must contain a string type"@, "tool_choice"@, ""@)),
            Some(kind) => if kind == "allowed_tools"@ {
                match lookup(object@, "allowed_tools"@) {
                    Some(config) => allowed_choice(config, declared),
                    None => allowed_choice(Json::Object(object), declared),
                }
            } else if kind == "function"@ {
                Err(
                    (
                        "a named tool_choice requires that exact function to be called"@,
                        "tool_choice"@,
                        "tool_choice_not_supported"@,
                    ),
                )
            } else if kind == "custom"@ {
                Err(
                    (
                        "custom tool_choice requires custom tool output"@,
                        "tool_choice"@,
                        "tool_type_not_supported"@,
                    ),
                )
            } else {
                Err(("unsupported tool_choice type: "@ + kind, "tool_choice"@, ""@))
            },
        },
        Some(_) => Err(("tool_choice must be a string or object"@, "tool_choice"@, ""@)),
    }
}

/// Whether a tool named `name` is declared.
fn is_declared(declared: &[Tool], name: &str) -> (r: bool)
    ensures
        r == declares(tool_views(declared@), name@),
{
    let mut i: usize = 0;
    while i < declared.len()
        invariant
            i <= declared@.len(),
            forall|k: int| 0 <= k < i ==> declared@[k].name@ != name@,
        decreases declared@.len() - i,
    {
        if crate::letters::same_text(declared[i].name.as_str(), name) {
            assert(tool_views(declared@)[i as int].0 == name@);
            return true;
        }
        i = i + 1;
    }
    assert forall|k: int| 0 <= k < tool_views(declared@).len() implies tool_views(declared@)[k].0
        != name@ by {
        assert(tool_views(declared@)[k] == declared@[k]@);
    }
    false
}

/// Whether `name` is among `allowed`.
fn is_allowed(allowed: &[String], name: &str) -> (r: bool)
    ensures
        r == allowed@.map_values(|a: String| a@).contains(name@),
{
    let ghost names = allowed@.map_values(|a: String| a@);
    let mut i: usize = 0;
    while i < allowed.len()
        invariant
            i <= allowed@.len(),
            names == allowed@.map_values(|a: String| a@),
            forall|k: int| 0 <= k < i ==> names[k] != name@,
        decreases allowed@.len() - i,
    {
        if crate::letters::same_text(allowed[i].as_str(), name) {
            assert(names[i as int] == name@);
            return true;
        }
        i = i + 1;
    }
    false
}

/// Read one `allowed_tools` entry.
fn allow(entry: &Json, declared: &[Tool]) -> (r: Result<String, ApiError>)
    ensures
        match (r, allowed_entry(*entry, tool_views(declared@))) {
            (Ok(name), Ok(wanted)) => name@ == wanted,
            (Err(e), Err(why)) => refused_as(e, why),
            _ => false,
        },
{
    proof {
        reveal_strlit("allowed tool '");
        reveal_strlit("' is not present in tools");
        reveal_strlit("");
    }
    let item = match entry {
        Json::Object(item) => item,
        _ => return Err(
            ApiError::refusal("allowed tool entries must contain a string type", "tool_choice", ""),
        ),
    };
    let function = match type_at(entry) {
        Some(kind) => crate::letters::same_text(kind, "function"),
        None => false,
    };
    if !function {
        return Err(
            ApiError::refusal(
                "allowed_tools can select only function tools",
                "tool_choice",
                "tool_type_not_supported",
            ),
        );
    }
    let name = function_name(item.as_slice(), "tool_choice")?;
    if !is_declared(declared, name.as_str()) {
        let mut message = String::from_str("allowed tool '");
        message.append(name.as_str());
        message.append("' is not present in tools");
        return Err(ApiError::refusal(message.as_str(), "tool_choice", ""));
    }
    Ok(name)
}

/// Apply an `allowed_tools` choice read from `config`.
fn choose_allowed(config: &Json, declared: &mut Vec<Tool>) -> (r: Result<ToolUse, ApiError>)
    ensures
        match (r, allowed_choice(*config, tool_views(old(declared)@))) {
            (Ok(choice), Ok((wanted, kept))) => choice == wanted && tool_views(final(declared)@)
                == kept,
            (Err(e), Err(why)) => refused_as(e, why) && final(declared)@ == old(declared)@,
            _ => false,
        },
{
    let members = match config {
        Json::Object(members) => members,
        _ => return Err(
            ApiError::refusal("tool_choice.allowed_tools must be an object", "tool_choice", ""),
        ),
    };
    let mode = crate::serve::value::string_at(members.as_slice(), "mode");
    let required = match mode {
        Some(m) => crate::letters::same_text(m, "required"),
        None => false,
    };
    let auto = match mode {
        Some(m) => crate::letters::same_text(m, "auto"),
        None => false,
    };
    proof {
        reveal_strlit("mode");
        reveal_strlit("tools");
    }
    if !(auto || required) {
        return Err(
            ApiError::refusal(
                "tool_choice.allowed_tools.mode must be 'auto' or 'required'",
                "tool_choice",
                "",
            ),
        );
    }
    let entries = match member(members.as_slice(), "tools") {
        Some(Json::Array(entries)) => entries,
        _ => return Err(
            ApiError::refusal("tool_choice.allowed_tools.tools must be an array", "tool_choice", ""),
        ),
    };
    let ghost views = tool_views(declared@);
    let mut allowed: Vec<String> = Vec::new();
    let mut i: usize = 0;
    assert(entries@.take(0).len() == 0);
    assert(allowed@.map_values(|a: String| a@) =~= Seq::empty());
    while i < entries.len()
        invariant
            i <= entries@.len(),
            views == tool_views(declared@),
            declared@ == old(declared)@,
            *config == Json::Object(*members),
            lookup(members@, "tools"@) == Some(Json::Array(*entries)),
            crate::serve::value::string_member(members@, "mode"@) == Some("auto"@)
                || crate::serve::value::string_member(members@, "mode"@) == Some("required"@),
            allowed_in(entries@.take(i as int), views) == Ok::<Seq<Seq<char>>, Why>(
                allowed@.map_values(|a: String| a@),
            ),
        decreases entries@.len() - i,
    {
        let name = allow(&entries[i], declared.as_slice());
        proof {
            let taken = entries@.take(i + 1);
            assert(taken.drop_last() == entries@.take(i as int));
            assert(taken.last() == entries@[i as int]);
        }
        match name {
            Err(e) => {
                proof {
                    lemma_allowed_in_refused(entries@, views, i + 1);
                }
                return Err(e);
            },
            Ok(name) => {
                let ghost earlier = allowed@;
                allowed.push(name);
                proof {
                    assert(allowed@.map_values(|a: String| a@) =~= earlier.map_values(
                        |a: String| a@,
                    ).push(allowed@.last()@));
                }
            },
        }
        i = i + 1;
    }
    assert(entries@.take(entries@.len() as int) == entries@);
    if required {
        return Err(
            ApiError::refusal(
                "tool_choice.allowed_tools mode='required' requires at least one tool call",
                "tool_choice",
                "tool_choice_not_supported",
            ),
        );
    }
    let ghost names = allowed@.map_values(|a: String| a@);
    let mut pending: Vec<Tool> = Vec::new();
    core::mem::swap(&mut pending, declared);
    let ghost given = pending@;
    let total = pending.len();
    let mut j: usize = 0;
    assert(tool_views(given.take(0)) =~= Seq::empty());
    assert(tool_views(declared@) =~= Seq::empty());
    assert(pending@ == given.skip(0));
    while pending.len() > 0
        invariant
            j + pending@.len() == given.len(),
            given.len() <= usize::MAX,
            pending@ == given.skip(j as int),
            views == tool_views(given),
            names == allowed@.map_values(|a: String| a@),
            tool_views(declared@) == kept_tools(tool_views(given.take(j as int)), names),
        decreases pending@.len(),
    {
        let tool = pending.remove(0);
        proof {
            assert(pending@ == given.skip(j + 1));
            let taken = tool_views(given.take(j + 1));
            assert(taken.drop_last() == tool_views(given.take(j as int)));
            assert(taken.last() == tool@);
        }
        if is_allowed(allowed.as_slice(), tool.name.as_str()) {
            let ghost earlier = declared@;
            declared.push(tool);
            proof {
                assert(tool_views(declared@) =~= tool_views(earlier).push(tool@));
            }
        }
        j = j + 1;
    }
    assert(given.take(j as int) == given);
    Ok(ToolUse::Auto)
}

/// Apply `tool_choice` to the declared tools.
pub fn tool_choice(body: &[(String, Json)], declared: &mut Vec<Tool>) -> (r: Result<ToolUse, ApiError>)
    ensures
        match (r, choice_of(body@, tool_views(old(declared)@))) {
            (Ok(choice), Ok((wanted, kept))) => choice == wanted && tool_views(final(declared)@)
                == kept,
            (Err(e), Err(why)) => refused_as(e, why) && final(declared)@ == old(declared)@,
            _ => false,
        },
{
    proof {
        reveal_strlit("unsupported tool_choice type: ");
        reveal_strlit("type");
        reveal_strlit("allowed_tools");
        reveal_strlit("");
    }
    let choice = match field(body, "tool_choice") {
        None => return Ok(ToolUse::Auto),
        Some(choice) => choice,
    };
    let object = match choice {
        Json::Text(value) => {
            if crate::letters::same_text(value.as_str(), "auto") {
                return Ok(ToolUse::Auto);
            } else if crate::letters::same_text(value.as_str(), "none") {
                return Ok(ToolUse::Withheld);
            } else if crate::letters::same_text(value.as_str(), "required") {
                return Err(
                    ApiError::refusal(
                        "tool_choice='required' requires at least one tool call",
                        "tool_choice",
                        "tool_choice_not_supported",
                    ),
                );
            } else {
                return Err(
                    ApiError::refusal(
                        "tool_choice must be 'auto', 'none', 'required', or a function choice",
                        "tool_choice",
                        "",
                    ),
                );
            }
        },
        Json::Object(object) => object,
        _ => return Err(
            ApiError::refusal("tool_choice must be a string or object", "tool_choice", ""),
        ),
    };
    match crate::serve::value::string_at(object.as_slice(), "type") {
        None => return Err(
            ApiError::refusal("tool_choice objects must contain a string type", "tool_choice", ""),
        ),
        Some(kind) => {
            if crate::letters::same_text(kind, "allowed_tools") {
            } else if crate::letters::same_text(kind, "function") {
                return Err(
                    ApiError::refusal(
                        "a named tool_choice requires that exact function to be called",
                        "tool_choice",
                        "tool_choice_not_supported",
                    ),
                );
            } else if crate::letters::same_text(kind, "custom") {
                return Err(
                    ApiError::refusal(
                        "custom tool_choice requires custom tool output",
                        "tool_choice",
                        "tool_type_not_supported",
                    ),
                );
            } else {
                let mut message = String::from_str("unsupported tool_choice type: ");
                message.append(kind);
                return Err(ApiError::refusal(message.as_str(), "tool_choice", ""));
            }
        },
    }
    match member(object.as_slice(), "allowed_tools") {
        Some(config) => choose_allowed(config, declared),
        None => choose_allowed(choice, declared),
    }
}

/// One stop entry: a non-empty string.
pub open spec fn stop_entry(entry: Json) -> Result<Seq<char>, Why> {
    match entry {
        Json::Text(s) => if s@.len() == 0 {
            Err(("stop strings must not be empty"@, "stop"@, ""@))
        } else {
            Ok(s@)
        },
        _ => Err(("stop entries must be strings"@, "stop"@, ""@)),
    }
}

/// The stop strings the entries name, or the first entry's refusal.
pub open spec fn stops_in(entries: Seq<Json>) -> Result<Seq<Seq<char>>, Why>
    decreases entries.len(),
{
    if entries.len() == 0 {
        Ok(Seq::empty())
    } else {
        match stops_in(entries.drop_last()) {
            Err(why) => Err(why),
            Ok(earlier) => match stop_entry(entries.last()) {
                Err(why) => Err(why),
                Ok(text) => Ok(earlier.push(text)),
            },
        }
    }
}

/// A refusal among the first `j` entries is the refusal of them all.
pub proof fn lemma_stops_in_refused(entries: Seq<Json>, j: int)
    requires
        0 <= j <= entries.len(),
        stops_in(entries.take(j)) is Err,
    ensures
        stops_in(entries) == stops_in(entries.take(j)),
    decreases entries.len(),
{
    if j == entries.len() {
        assert(entries.take(j) == entries);
    } else {
        assert(entries.drop_last().take(j) == entries.take(j));
        lemma_stops_in_refused(entries.drop_last(), j);
    }
}

/// The stop strings as ninfer reads them: a string or an array of at most
/// four non-empty strings, in order; stop strings end reasoning as well as
/// content whenever `stop` is given.
pub open spec fn stops_of(body: Seq<(String, Json)>) -> Result<(Seq<Seq<char>>, StopScope), Why> {
    match field_of(body, "stop"@) {
        None => Ok((Seq::empty(), StopScope::Content)),
        Some(Json::Text(s)) => match stop_entry(Json::Text(s)) {
            Err(why) => Err(why),
            Ok(text) => Ok((seq![text], StopScope::ContentAndReasoning)),
        },
        Some(Json::Array(list)) => if list@.len() <= MAXIMUM_STOPS {
            match stops_in(list@) {
                Err(why) => Err(why),
                Ok(texts) => Ok((texts, StopScope::ContentAndReasoning)),
            }
        } else {
            Err(("stop supports at most four strings"@, "stop"@, ""@))
        },
        Some(_) => Err(("stop must be a string or array of strings"@, "stop"@, ""@)),
    }
}

/// One stop entry.
fn stop_text(entry: &Json) -> (r: Result<String, ApiError>)
    ensures
        match (r, stop_entry(*entry)) {
            (Ok(text), Ok(wanted)) => text@ == wanted,
            (Err(e), Err(why)) => refused_as(e, why),
            _ => false,
        },
{
    match entry {
        Json::Text(s) => {
            if s.as_str().unicode_len() == 0 {
                Err(ApiError::refusal("stop strings must not be empty", "stop", ""))
            } else {
                Ok(String::from_str(s.as_str()))
            }
        },
        _ => Err(ApiError::refusal("stop entries must be strings", "stop", "")),
    }
}

/// The stop strings and the channels they end.
pub fn stops(body: &[(String, Json)]) -> (r: Result<(Vec<String>, StopScope), ApiError>)
    ensures
        match (r, stops_of(body@)) {
            (Ok((texts, scope)), Ok((wanted, wanted_scope))) => texts@.map_values(|t: String| t@)
                == wanted && scope == wanted_scope,
            (Err(e), Err(why)) => refused_as(e, why),
            _ => false,
        },
{
    let value = match field(body, "stop") {
        None => {
            let texts: Vec<String> = Vec::new();
            assert(texts@.map_values(|t: String| t@) =~= Seq::empty());
            return Ok((texts, StopScope::Content));
        },
        Some(value) => value,
    };
    let list = match value {
        Json::Text(_) => {
            let text = stop_text(value)?;
            let mut texts: Vec<String> = Vec::new();
            texts.push(text);
            assert(texts@.map_values(|t: String| t@) =~= seq![texts@[0]@]);
            return Ok((texts, StopScope::ContentAndReasoning));
        },
        Json::Array(list) => {
            if list.len() > MAXIMUM_STOPS {
                return Err(ApiError::refusal("stop supports at most four strings", "stop", ""));
            }
            list
        },
        _ => return Err(
            ApiError::refusal("stop must be a string or array of strings", "stop", ""),
        ),
    };
    let mut texts: Vec<String> = Vec::new();
    let mut i: usize = 0;
    assert(list@.take(0).len() == 0);
    assert(texts@.map_values(|t: String| t@) =~= Seq::empty());
    while i < list.len()
        invariant
            i <= list@.len(),
            field_of(body@, "stop"@) == Some(Json::Array(*list)),
            list@.len() <= MAXIMUM_STOPS,
            stops_in(list@.take(i as int)) == Ok::<Seq<Seq<char>>, Why>(
                texts@.map_values(|t: String| t@),
            ),
        decreases list@.len() - i,
    {
        let text = stop_text(&list[i]);
        proof {
            let taken = list@.take(i + 1);
            assert(taken.drop_last() == list@.take(i as int));
            assert(taken.last() == list@[i as int]);
        }
        match text {
            Err(e) => {
                proof {
                    lemma_stops_in_refused(list@, i + 1);
                }
                return Err(e);
            },
            Ok(text) => {
                let ghost earlier = texts@;
                texts.push(text);
                proof {
                    assert(texts@.map_values(|t: String| t@) =~= earlier.map_values(|t: String| t@).push(
                        texts@.last()@,
                    ));
                }
            },
        }
        i = i + 1;
    }
    assert(list@.take(list@.len() as int) == list@);
    Ok((texts, StopScope::ContentAndReasoning))
}

} // verus!
