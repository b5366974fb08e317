use vstd::prelude::*;
use crate::error::LlmError;
use crate::json::{field, member, get_member, json_parse, parse_json, required_text, JsonValue};
use crate::text::same_text;

verus! {

/// A callable function as a provider sees it: its name, what it does, and the JSON schema
/// of its parameters.
#[derive(Debug)]
pub struct OpenAiFunction {
    pub name: String,
    pub description: String,
    pub parameters: JsonValue,
}

/// One entry of the tool registry, in the form both wire protocols advertise.
#[derive(Debug)]
pub struct OpenAiTool {
    pub tool_type: String,
    pub function: OpenAiFunction,
}

/// A call of a tool that a provider asked for.
#[derive(Debug)]
pub struct ToolCall {
    pub id: String,
    pub name: String,
    pub arguments: JsonValue,
}

/// The schema of the echo tool, member for member: an object type with one property,
/// the string `text`, which is required.
pub open spec fn is_echo_schema(v: JsonValue) -> bool {
    &&& member_count(v) == 3
    &&& required_text(field(v, "type"@)) == Some("object"@)
    &&& field(v, "properties"@) matches Some(props) && is_echo_properties(props)
    &&& field(v, "required"@) matches Some(JsonValue::Array(names)) && names@.len() == 1
        && required_text(Some(names@[0])) == Some("text"@)
}

/// The echo tool's properties: the one string property `text`.
pub open spec fn is_echo_properties(props: JsonValue) -> bool {
    &&& member_count(props) == 1
    &&& field(props, "text"@) matches Some(text) && is_text_property(text)
}

pub open spec fn is_text_property(text: JsonValue) -> bool {
    &&& member_count(text) == 2
    &&& required_text(field(text, "type"@)) == Some("string"@)
    &&& required_text(field(text, "description"@)) == Some("Text to echo back"@)
}

/// The number of members of an object; -1 for a value that is no object.
pub open spec fn member_count(v: JsonValue) -> int {
    match v {
        JsonValue::Object(fs) => fs@.len() as int,
        _ => -1,
    }
}

/// The text the echo tool repeats: the string member `text` of the arguments, or nothing.
pub open spec fn echo_text(arguments: JsonValue) -> Seq<char> {
    match field(arguments, "text"@) {
        Some(JsonValue::Str(s)) => s@,
        _ => Seq::empty(),
    }
}

/// What running a tool gives: the echo tool's reply, or the name of an unknown tool.
pub open spec fn tool_result(name: Seq<char>, arguments: JsonValue) -> Result<Seq<char>, Seq<char>> {
    if name == "mock_echo"@ {
        Ok("Echo: "@ + echo_text(arguments))
    } else {
        Err("Unknown tool: "@ + name)
    }
}

/// Arguments as they are used: a string that holds a JSON document stands for that
/// document; anything else stays as it came.
pub open spec fn normalized_arguments(arguments: JsonValue) -> JsonValue {
    match arguments {
        JsonValue::Str(raw) => match json_parse(raw@) {
            Some(v) => v,
            None => arguments,
        },
        _ => arguments,
    }
}

pub fn text_value(s: &str) -> (r: JsonValue)
    ensures
        r matches JsonValue::Str(t) && t@ == s@,
{
    JsonValue::Str(String::from_str(s))
}

pub fn member_entry(key: &str, value: JsonValue) -> (r: (String, JsonValue))
    ensures
        r.0@ == key@,
        r.1 == value,
{
    (String::from_str(key), value)
}

/// The registry: one function tool, `mock_echo`, that echoes its `text` argument.
pub open spec fn is_registry(ts: Seq<OpenAiTool>) -> bool {
    &&& ts.len() == 1
    &&& ts[0].tool_type@ == "function"@
    &&& ts[0].function.name@ == "mock_echo"@
    &&& ts[0].function.description@ == "Echo a short string for debugging the dialogue loop"@
    &&& is_echo_schema(ts[0].function.parameters)
}

/// The registry of tools offered to a provider on every call.
pub fn available_tools() -> (r: Vec<OpenAiTool>)
    ensures
        is_registry(r@),
{
    let text = JsonValue::Object(
        vec![
            member_entry("type", text_value("string")),
            member_entry("description", text_value("Text to echo back")),
        ],
    );
    let properties = JsonValue::Object(vec![member_entry("text", text)]);
    let parameters = JsonValue::Object(
        vec![
            member_entry("type", text_value("object")),
            member_entry("properties", properties),
            member_entry("required", JsonValue::Array(vec![text_value("text")])),
        ],
    );
    proof {
        reveal_strlit("type");
        reveal_strlit("description");
        reveal_strlit("properties");
        reveal_strlit("required");
        reveal_strlit("text");
        reveal_with_fuel(member, 4);
        assert("type"@.len() != "properties"@.len());
        assert("type"@.len() != "required"@.len());
    }
    let function = OpenAiFunction {
        name: String::from_str("mock_echo"),
        description: String::from_str("Echo a short string for debugging the dialogue loop"),
        parameters,
    };
    vec![OpenAiTool { tool_type: String::from_str("function"), function }]
}

/// Runs a tool call: the echo tool answers with its text; any other name is an unknown
/// tool.
pub fn execute_tool(call: &ToolCall) -> (r: Result<String, LlmError>)
    ensures
        match tool_result(call.name@, call.arguments) {
            Ok(out) => r matches Ok(s) && s@ == out,
            Err(msg) => r matches Err(LlmError::Tool(m)) && m@ == msg,
        },
{
    proof {
        reveal_strlit("mock_echo");
    }
    if same_text(call.name.as_str(), "mock_echo") {
        let text = match get_member(&call.arguments, "text") {
            Some(JsonValue::Str(s)) => s.clone(),
            _ => String::new(),
        };
        Ok(String::from_str("Echo: ").concat(text.as_str()))
    } else {
        Err(LlmError::Tool(String::from_str("Unknown tool: ").concat(call.name.as_str())))
    }
}

/// Decodes arguments that came as a JSON string; keeps the string where it holds no JSON.
pub fn normalize_arguments(arguments: JsonValue) -> (r: JsonValue)
    ensures
        r == normalized_arguments(arguments),
{
    match arguments {
        JsonValue::Str(raw) => {
            match parse_json(raw.as_str()) {
                Ok(v) => v,
                Err(_) => JsonValue::Str(raw),
            }
        },
        other => other,
    }
}

} // verus!
