use vstd::prelude::*;
use crate::error::LlmError;
use crate::json::{
    field, get_member, json_parse, member, optional_text, parse_json, read_optional_text,
    read_required_text, required_text, JsonValue,
};
use crate::text::same_text;

verus! {

/// A tool call as a provider wrote it: its id where it gave one, the tool's name and the
/// arguments as they came.
#[derive(Debug)]
pub struct WireCall {
    pub id: Option<String>,
    pub name: String,
    pub arguments: JsonValue,
}

pub struct CallView {
    pub id: Option<Seq<char>>,
    pub name: Seq<char>,
    pub arguments: JsonValue,
}

impl View for WireCall {
    type V = CallView;

    open spec fn view(&self) -> CallView {
        CallView { id: self.id.deep_view(), name: self.name@, arguments: self.arguments }
    }
}

/// An assistant message as a provider wrote it.
#[derive(Debug)]
pub struct WireReply {
    pub content: Option<String>,
    pub calls: Vec<WireCall>,
}

pub struct ReplyView {
    pub content: Option<Seq<char>>,
    pub calls: Seq<CallView>,
}

impl View for WireReply {
    type V = ReplyView;

    open spec fn view(&self) -> ReplyView {
        ReplyView {
            content: self.content.deep_view(),
            calls: self.calls@.map_values(|c: WireCall| c@),
        }
    }
}

/// A tool call object: an optional id and a `function` object with a `name` and
/// `arguments` of any kind.
pub open spec fn call_of(v: JsonValue) -> Option<CallView> {
    match (optional_text(field(v, "id"@)), field(v, "function"@)) {
        (Some(id), Some(f)) => match (required_text(field(f, "name"@)), field(f, "arguments"@)) {
            (Some(name), Some(arguments)) => Some(CallView { id, name, arguments }),
            _ => None,
        },
        _ => None,
    }
}

pub open spec fn calls_of(cs: Seq<JsonValue>) -> Option<Seq<CallView>>
    decreases cs.len(),
{
    if cs.len() == 0 {
        Some(Seq::empty())
    } else {
        match (calls_of(cs.drop_last()), call_of(cs.last())) {
            (Some(done), Some(c)) => Some(done.push(c)),
            _ => None,
        }
    }
}

/// The `tool_calls` member: absent means none.
pub open spec fn calls_member(m: Option<JsonValue>) -> Option<Seq<CallView>> {
    match m {
        None => Some(Seq::empty()),
        Some(JsonValue::Array(a)) => calls_of(a@),
        _ => None,
    }
}

/// An assistant message object: a `role`, optional `content`, optional `tool_calls`, and
/// where `linked` an optional `tool_call_id`.
pub open spec fn reply_of(v: JsonValue, linked: bool) -> Option<ReplyView> {
    if v is Object && required_text(field(v, "role"@)) is Some && (linked ==> optional_text(
        field(v, "tool_call_id"@),
    ) is Some) {
        match (optional_text(field(v, "content"@)), calls_member(field(v, "tool_calls"@))) {
            (Some(content), Some(calls)) => Some(ReplyView { content, calls }),
            _ => None,
        }
    } else {
        None
    }
}

pub open spec fn choices_of(cs: Seq<JsonValue>) -> Option<Seq<ReplyView>>
    decreases cs.len(),
{
    if cs.len() == 0 {
        Some(Seq::empty())
    } else {
        match (choices_of(cs.drop_last()), field(cs.last(), "message"@)) {
            (Some(done), Some(m)) => match reply_of(m, false) {
                Some(r) => Some(done.push(r)),
                None => None,
            },
            _ => None,
        }
    }
}

/// The replies of an OpenAI-style chat completion, one per choice.
pub open spec fn openai_replies(v: JsonValue) -> Option<Seq<ReplyView>> {
    match field(v, "choices"@) {
        Some(JsonValue::Array(cs)) => choices_of(cs@),
        _ => None,
    }
}

/// The reply of an Ollama chat response: its `message`.
pub open spec fn ollama_reply(v: JsonValue) -> Option<ReplyView> {
    match field(v, "message"@) {
        Some(m) => reply_of(m, true),
        None => None,
    }
}

/// Removes the member `key` from an object's members and hands it over.
pub fn take_member(fields: &mut Vec<(String, JsonValue)>, key: &str) -> (r: Option<JsonValue>)
    ensures
        r == member(old(fields)@, key@),
{
    let mut i: usize = 0;
    assert(fields@.subrange(0, fields@.len() as int) =~= fields@);
    while i < fields.len()
        invariant
            i <= fields@.len(),
            fields@ == old(fields)@,
            member(fields@, key@) == member(fields@.subrange(i as int, fields@.len() as int), key@),
        decreases fields@.len() - i,
    {
        let ghost rest = fields@.subrange(i as int, fields@.len() as int);
        assert(rest[0] == fields@[i as int]);
        if same_text(fields[i].0.as_str(), key) {
            assert(member(rest, key@) == Some(rest[0].1));
            let (_, v) = fields.remove(i);
            return Some(v);
        }
        assert(rest.drop_first() =~= fields@.subrange(i + 1, fields@.len() as int));
        i = i + 1;
    }
    assert(fields@.subrange(i as int, fields@.len() as int) =~= Seq::<(String, JsonValue)>::empty());
    None
}

/// Reads a tool call object, moving its arguments out.
pub fn decode_call(v: JsonValue) -> (r: Option<WireCall>)
    ensures
        match call_of(v) {
            Some(c) => r matches Some(w) && w@ == c,
            None => r is None,
        },
{
    let id = match read_optional_text(get_member(&v, "id")) {
        Ok(id) => id,
        Err(_) => return None,
    };
    let mut fields = match v {
        JsonValue::Object(fields) => fields,
        _ => return None,
    };
    let f = match take_member(&mut fields, "function") {
        Some(f) => f,
        None => return None,
    };
    let name = match read_required_text(get_member(&f, "name")) {
        Ok(name) => name,
        Err(_) => return None,
    };
    let mut inner = match f {
        JsonValue::Object(inner) => inner,
        _ => return None,
    };
    match take_member(&mut inner, "arguments") {
        Some(arguments) => Some(WireCall { id, name, arguments }),
        None => None,
    }
}

/// Reads the tool calls of an array, in order; `None` where one of them does not decode.
pub fn decode_calls(items: Vec<JsonValue>) -> (r: Option<Vec<WireCall>>)
    ensures
        match calls_of(items@) {
            Some(cs) => r matches Some(ws) && ws@.map_values(|c: WireCall| c@) == cs,
            None => r is None,
        },
{
    let ghost all = items@;
    let mut rest = items;
    let mut out: Vec<WireCall> = Vec::new();
    assert(all.subrange(0, 0) =~= Seq::<JsonValue>::empty());
    assert(out@.map_values(|c: WireCall| c@) =~= Seq::<CallView>::empty());
    while rest.len() > 0
        invariant
            all == items@,
            out@.len() + rest@.len() == all.len(),
            rest@ == all.subrange(out@.len() as int, all.len() as int),
            calls_of(all.subrange(0, out@.len() as int)) == Some(out@.map_values(|c: WireCall| c@)),
        decreases rest@.len(),
    {
        let ghost n: int = out@.len() as int;
        let item = rest.remove(0);
        assert(item == all[n]);
        assert(rest@ =~= all.subrange(n + 1, all.len() as int));
        let ghost prefix = all.subrange(0, n + 1);
        assert(prefix.drop_last() =~= all.subrange(0, n));
        assert(prefix.last() == item);
        match decode_call(item) {
            Some(c) => {
                out.push(c);
                assert(out@.map_values(|c: WireCall| c@) =~= calls_of(all.subrange(0, n))->0.push(
                    out@[n]@,
                ));
            },
            None => {
                assert(calls_of(prefix) is None);
                proof {
                    lemma_calls_prefix_fails(all, n + 1);
                }
                return None;
            },
        }
    }
    assert(all.subrange(0, all.len() as int) =~= all);
    Some(out)
}

proof fn lemma_calls_prefix_fails(all: Seq<JsonValue>, n: int)
    requires
        0 <= n <= all.len(),
        calls_of(all.subrange(0, n)) is None,
    ensures
        calls_of(all) is None,
    decreases all.len() - n,
{
    if n < all.len() {
        let p = all.subrange(0, n + 1);
        assert(p.drop_last() =~= all.subrange(0, n));
        lemma_calls_prefix_fails(all, n + 1);
    } else {
        assert(all.subrange(0, n) =~= all);
    }
}

proof fn lemma_choices_prefix_fails(all: Seq<JsonValue>, n: int)
    requires
        0 <= n <= all.len(),
        choices_of(all.subrange(0, n)) is None,
    ensures
        choices_of(all) is None,
    decreases all.len() - n,
{
    if n < all.len() {
        let p = all.subrange(0, n + 1);
        assert(p.drop_last() =~= all.subrange(0, n));
        lemma_choices_prefix_fails(all, n + 1);
    } else {
        assert(all.subrange(0, n) =~= all);
    }
}

/// Reads an assistant message object, moving its tool calls out.
pub fn decode_reply(v: JsonValue, linked: bool) -> (r: Option<WireReply>)
    ensures
        match reply_of(v, linked) {
            Some(m) => r matches Some(w) && w@ == m,
            None => r is None,
        },
{
    if read_required_text(get_member(&v, "role")).is_err() {
        return None;
    }
    if linked && read_optional_text(get_member(&v, "tool_call_id")).is_err() {
        return None;
    }
    let content = match read_optional_text(get_member(&v, "content")) {
        Ok(c) => c,
        Err(_) => return None,
    };
    let ghost message_value = v;
    let mut fields = match v {
        JsonValue::Object(fields) => fields,
        _ => return None,
    };
    let calls = match take_member(&mut fields, "tool_calls") {
        None => Vec::new(),
        Some(JsonValue::Array(items)) => match decode_calls(items) {
            Some(calls) => calls,
            None => return None,
        },
        Some(_) => return None,
    };
    let r = WireReply { content, calls };
    assert(r@.calls =~= calls_member(field(message_value, "tool_calls"@))->0);
    Some(r)
}

/// Reads the body of an OpenAI-style chat completion: the first choice's message; a
/// failure where the body does not decode or holds no choice.
pub fn decode_openai_reply(body: &str) -> (r: Result<WireReply, LlmError>)
    ensures
        match json_parse(body@) {
            None => r matches Err(LlmError::Http(_)),
            Some(v) => match openai_replies(v) {
                None => r matches Err(LlmError::Http(_)),
                Some(rs) => if rs.len() == 0 {
                    r matches Err(LlmError::Path(m)) && m@ == "No response from provider"@
                } else {
                    r matches Ok(w) && w@ == rs[0]
                },
            },
        },
{
    let v = match parse_json(body) {
        Ok(v) => v,
        Err(e) => return Err(LlmError::Http(e)),
    };
    let ghost parsed = v;
    let mut fields = match v {
        JsonValue::Object(fields) => fields,
        _ => return Err(LlmError::Http(String::from_str("malformed chat completion"))),
    };
    let items = match take_member(&mut fields, "choices") {
        Some(JsonValue::Array(items)) => items,
        _ => return Err(LlmError::Http(String::from_str("malformed chat completion"))),
    };
    let ghost all = items@;
    proof {
        assert(openai_replies(parsed) == choices_of(all));
    }
    let mut rest = items;
    let count = rest.len();
    let mut first: Option<WireReply> = None;
    let mut n: usize = 0;
    assert(all.subrange(0, 0) =~= Seq::<JsonValue>::empty());
    while rest.len() > 0
        invariant
            json_parse(body@) == Some(parsed),
            openai_replies(parsed) == choices_of(all),
            count == all.len(),
            n + rest@.len() == all.len(),
            n == 0 ==> first is None,
            rest@ == all.subrange(n as int, all.len() as int),
            choices_of(all.subrange(0, n as int)) is Some,
            choices_of(all.subrange(0, n as int))->0.len() == n,
            n > 0 ==> (first matches Some(w) && w@ == choices_of(all.subrange(0, n as int))->0[0]),
        decreases rest@.len(),
    {
        let item = rest.remove(0);
        assert(item == all[n as int]);
        assert(rest@ =~= all.subrange(n + 1, all.len() as int));
        let ghost prefix = all.subrange(0, n + 1);
        assert(prefix.drop_last() =~= all.subrange(0, n as int));
        assert(prefix.last() == item);
        let ghost done = choices_of(all.subrange(0, n as int))->0;
        let ghost item_value = item;
        let mut choice = match item {
            JsonValue::Object(choice) => choice,
            _ => {
                proof {
                    lemma_choices_prefix_fails(all, n + 1);
                }
                return Err(LlmError::Http(String::from_str("malformed chat completion")));
            },
        };
        let message = match take_member(&mut choice, "message") {
            Some(m) => m,
            None => {
                proof {
                    assert(field(item_value, "message"@) is None);
                    lemma_choices_prefix_fails(all, n + 1);
                }
                return Err(LlmError::Http(String::from_str("malformed chat completion")));
            },
        };
        match decode_reply(message, false) {
            Some(w) => {
                if n == 0 {
                    first = Some(w);
                }
            },
            None => {
                proof {
                    lemma_choices_prefix_fails(all, n + 1);
                }
                return Err(LlmError::Http(String::from_str("malformed chat completion")));
            },
        }
        proof {
            assert(choices_of(prefix)->0 == done.push(choices_of(prefix)->0.last()));
        }
        n = n + 1;
    }
    assert(all.subrange(0, all.len() as int) =~= all);
    match first {
        Some(w) => Ok(w),
        None => Err(LlmError::Path(String::from_str("No response from provider"))),
    }
}

/// Reads the body of an Ollama chat response: its message.
pub fn decode_ollama_reply(body: &str) -> (r: Result<WireReply, LlmError>)
    ensures
        match json_parse(body@) {
            None => r matches Err(LlmError::Http(_)),
            Some(v) => match ollama_reply(v) {
                None => r matches Err(LlmError::Http(_)),
                Some(m) => r matches Ok(w) && w@ == m,
            },
        },
{
    let v = match parse_json(body) {
        Ok(v) => v,
        Err(e) => return Err(LlmError::Http(e)),
    };
    let mut fields = match v {
        JsonValue::Object(fields) => fields,
        _ => return Err(LlmError::Http(String::from_str("malformed chat response"))),
    };
    match take_member(&mut fields, "message") {
        Some(m) => match decode_reply(m, true) {
            Some(w) => Ok(w),
            None => Err(LlmError::Http(String::from_str("malformed chat response"))),
        },
        None => Err(LlmError::Http(String::from_str("malformed chat response"))),
    }
}

} // verus!
