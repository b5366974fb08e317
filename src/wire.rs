use vstd::prelude::*;
use crate::config::{LlmProvider, ProviderConnectionConfig, clone_optional};
use crate::json::{field, json_text, member, render_json, required_text, JsonValue};
use crate::message::{role_name, role_text, ChatMessage};
use crate::tools::{member_entry, text_value, OpenAiTool};

verus! {

/// An HTTP POST to a provider's chat endpoint: where it goes, the bearer credential it
/// carries, and its JSON body.
#[derive(Debug)]
pub struct ChatRequest {
    pub url: String,
    pub bearer: Option<String>,
    pub payload: JsonValue,
}

/// The chat endpoint's path of each protocol.
pub open spec fn chat_path(provider: LlmProvider) -> Seq<char> {
    match provider {
        LlmProvider::Vllm => "/v1/chat/completions"@,
        LlmProvider::Ollama => "/api/chat"@,
    }
}

/// A message as the protocol writes it: role and content, the link to a tool call where
/// the message has one, and for Ollama an empty list of tool calls.
pub open spec fn is_wire_message(v: JsonValue, m: ChatMessage, provider: LlmProvider) -> bool {
    let extra: nat = if provider == LlmProvider::Ollama {
        1
    } else {
        0
    };
    let linked: nat = if m.tool_call_id is Some {
        1
    } else {
        0
    };
    &&& v matches JsonValue::Object(fs) && fs@.len() == 2 + extra + linked
    &&& required_text(field(v, "role"@)) == Some(role_text(m.role))
    &&& required_text(field(v, "content"@)) == Some(m.content@)
    &&& match m.tool_call_id {
        Some(l) => required_text(field(v, "tool_call_id"@)) == Some(l@),
        None => field(v, "tool_call_id"@) is None,
    }
    &&& if provider == LlmProvider::Ollama {
        field(v, "tool_calls"@) matches Some(JsonValue::Array(a)) && a@.len() == 0
    } else {
        field(v, "tool_calls"@) is None
    }
}

/// A tool as both protocols advertise it.
pub open spec fn is_wire_tool(v: JsonValue, t: OpenAiTool) -> bool {
    &&& v matches JsonValue::Object(fs) && fs@.len() == 2
    &&& required_text(field(v, "type"@)) == Some(t.tool_type@)
    &&& field(v, "function"@) matches Some(f) && f matches JsonValue::Object(gs) && gs@.len() == 3
        && required_text(field(f, "name"@)) == Some(t.function.name@) && required_text(
        field(f, "description"@),
    ) == Some(t.function.description@) && field(f, "parameters"@) == Some(
        t.function.parameters,
    )
}

/// The body of a chat request: the model, every message in order, whether to stream, and
/// the tools where there are any.
pub open spec fn is_chat_payload(
    v: JsonValue,
    provider: LlmProvider,
    model: Seq<char>,
    messages: Seq<ChatMessage>,
    tools: Seq<OpenAiTool>,
    stream: bool,
) -> bool {
    let with_tools: nat = if tools.len() > 0 {
        1
    } else {
        0
    };
    &&& v matches JsonValue::Object(fs) && fs@.len() == 3 + with_tools
    &&& required_text(field(v, "model"@)) == Some(model)
    &&& field(v, "stream"@) == Some(JsonValue::Bool(stream))
    &&& field(v, "messages"@) matches Some(JsonValue::Array(ms)) && ms@.len() == messages.len()
        && forall|i: int|
        0 <= i < messages.len() ==> is_wire_message(#[trigger] ms@[i], messages[i], provider)
    &&& if tools.len() > 0 {
        field(v, "tools"@) matches Some(JsonValue::Array(ts)) && ts@.len() == tools.len()
            && forall|i: int| 0 <= i < tools.len() ==> is_wire_tool(#[trigger] ts@[i], tools[i])
    } else {
        field(v, "tools"@) is None
    }
}

/// A message in the form `provider` expects.
pub fn message_json(m: &ChatMessage, provider: LlmProvider) -> (r: JsonValue)
    ensures
        is_wire_message(r, *m, provider),
{
    let mut fields: Vec<(String, JsonValue)> = Vec::new();
    fields.push(member_entry("role", text_value(role_name(m.role))));
    fields.push(member_entry("content", JsonValue::Str(m.content.clone())));
    if provider == LlmProvider::Ollama {
        fields.push(member_entry("tool_calls", JsonValue::Array(Vec::new())));
    }
    match &m.tool_call_id {
        Some(l) => fields.push(member_entry("tool_call_id", JsonValue::Str(l.clone()))),
        None => {},
    }
    proof {
        reveal_strlit("role");
        reveal_strlit("content");
        reveal_strlit("tool_call_id");
        reveal_strlit("tool_calls");
        reveal_with_fuel(member, 5);
        assert("role"@.len() != "tool_call_id"@.len());
        assert("content"@.len() != "tool_call_id"@.len());
        assert("role"@.len() != "tool_calls"@.len());
        assert("content"@.len() != "tool_calls"@.len());
        assert("tool_call_id"@.len() != "tool_calls"@.len());
        assert("role"@ != "content"@);
    }
    JsonValue::Object(fields)
}

/// A tool in the form both protocols advertise.
pub fn tool_json(t: OpenAiTool) -> (r: JsonValue)
    ensures
        is_wire_tool(r, t),
{
    let OpenAiTool { tool_type, function } = t;
    let f = JsonValue::Object(
        vec![
            member_entry("name", JsonValue::Str(function.name)),
            member_entry("description", JsonValue::Str(function.description)),
            member_entry("parameters", function.parameters),
        ],
    );
    proof {
        reveal_strlit("name");
        reveal_strlit("description");
        reveal_strlit("parameters");
        reveal_strlit("type");
        reveal_strlit("function");
        reveal_with_fuel(member, 4);
        assert("name"@.len() != "description"@.len());
        assert("name"@.len() != "parameters"@.len());
        assert("description"@.len() != "parameters"@.len());
        assert("type"@.len() != "function"@.len());
    }
    JsonValue::Object(vec![member_entry("type", JsonValue::Str(tool_type)), member_entry("function", f)])
}

/// The body of a chat request to `provider`.
pub fn chat_payload(
    provider: LlmProvider,
    model: &str,
    messages: &Vec<ChatMessage>,
    tools: Vec<OpenAiTool>,
    stream: bool,
) -> (r: JsonValue)
    ensures
        is_chat_payload(r, provider, model@, messages@, tools@, stream),
{
    let mut wire: Vec<JsonValue> = Vec::new();
    let mut i: usize = 0;
    while i < messages.len()
        invariant
            i <= messages@.len(),
            wire@.len() == i,
            forall|k: int| 0 <= k < i ==> is_wire_message(#[trigger] wire@[k], messages@[k], provider),
        decreases messages@.len() - i,
    {
        wire.push(message_json(&messages[i], provider));
        i = i + 1;
    }
    let ghost all_tools = tools@;
    let mut rest = tools;
    let mut advertised: Vec<JsonValue> = Vec::new();
    while rest.len() > 0
        invariant
            advertised@.len() + rest@.len() == all_tools.len(),
            rest@ == all_tools.subrange(advertised@.len() as int, all_tools.len() as int),
            forall|k: int| 0 <= k < advertised@.len() ==> is_wire_tool(#[trigger] advertised@[k], all_tools[k]),
        decreases rest@.len(),
    {
        let ghost n: int = advertised@.len() as int;
        let t = rest.remove(0);
        assert(t == all_tools[n]);
        advertised.push(tool_json(t));
        assert(rest@ =~= all_tools.subrange(n + 1, all_tools.len() as int));
    }
    let has_tools = advertised.len() > 0;
    let mut fields: Vec<(String, JsonValue)> = Vec::new();
    fields.push(member_entry("model", JsonValue::Str(String::from_str(model))));
    fields.push(member_entry("messages", JsonValue::Array(wire)));
    fields.push(member_entry("stream", JsonValue::Bool(stream)));
    if has_tools {
        fields.push(member_entry("tools", JsonValue::Array(advertised)));
    }
    proof {
        reveal_strlit("model");
        reveal_strlit("messages");
        reveal_strlit("stream");
        reveal_strlit("tools");
        reveal_with_fuel(member, 5);
        assert("model"@.len() != "messages"@.len());
        assert("stream"@.len() != "messages"@.len());
        assert("tools"@.len() != "messages"@.len());
        assert("model"@ != "stream"@);
        assert("model"@[0] != "tools"@[0]);
        assert("stream"@.len() != "tools"@.len());
    }
    JsonValue::Object(fields)
}

/// The request a chat round trip sends: to the protocol's chat endpoint under the base
/// URL, with the key as bearer credential for the OpenAI-style protocol.
pub fn chat_request(
    provider: LlmProvider,
    connection: &ProviderConnectionConfig,
    model: &str,
    messages: &Vec<ChatMessage>,
    tools: Vec<OpenAiTool>,
    stream: bool,
) -> (r: ChatRequest)
    ensures
        r.url@ == connection.base_url@ + chat_path(provider),
        r.bearer.deep_view() == (if provider == LlmProvider::Vllm {
            connection.api_key.deep_view()
        } else {
            None
        }),
        is_chat_payload(r.payload, provider, model@, messages@, tools@, stream),
{
    let path = match provider {
        LlmProvider::Vllm => "/v1/chat/completions",
        LlmProvider::Ollama => "/api/chat",
    };
    let url = connection.base_url.clone().concat(path);
    let bearer = match provider {
        LlmProvider::Vllm => clone_optional(&connection.api_key),
        LlmProvider::Ollama => None,
    };
    ChatRequest { url, bearer, payload: chat_payload(provider, model, messages, tools, stream) }
}

impl ChatRequest {
    /// The body as JSON text.
    pub fn body_text(&self) -> (r: String)
        ensures
            r@ == json_text(self.payload),
    {
        render_json(&self.payload)
    }
}

} // verus!
