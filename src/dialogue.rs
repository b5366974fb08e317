use vstd::prelude::*;
use crate::config::{connection_of, LlmConfiguration, LlmProvider, ProviderConnectionConfig, clone_text};
use crate::error::LlmError;
use crate::json::json_parse;
use crate::message::{is_stamped, ChatMessage, ChatRole, IdSource};
use crate::reply::{
    decode_ollama_reply, decode_openai_reply, ollama_reply, openai_replies, ReplyView, WireCall,
    WireReply,
};
use crate::stream::StreamDecoder;
use crate::text::{is_blank, is_blank_text, trim, trim_text};
use crate::tools::{
    available_tools, execute_tool, is_registry, normalize_arguments, normalized_arguments,
    tool_result, OpenAiTool, ToolCall,
};
use crate::wire::{chat_path, chat_request, is_chat_payload, ChatRequest};

verus! {

/// A user's turn: the conversation so far and the new input.
#[derive(Debug)]
pub struct DialogueRequest {
    pub history: Vec<ChatMessage>,
    pub input: String,
}

/// A user's streaming turn, with the id that tags its events.
#[derive(Debug)]
pub struct StreamRequest {
    pub history: Vec<ChatMessage>,
    pub input: String,
    pub request_id: String,
}

/// The messages a turn appended to the conversation.
#[derive(Debug)]
pub struct DialogueResponse {
    pub messages: Vec<ChatMessage>,
}

/// A provider's reply, ready for use: its text, and its tool calls with ids and decoded
/// arguments.
#[derive(Debug)]
pub struct AssistantTurn {
    pub content: Option<String>,
    pub tool_calls: Vec<ToolCall>,
}

/// The turn stands for the reply: same text, and each call with the provider's id (or a
/// fresh one), the same name and normalized arguments.
pub open spec fn turn_matches(t: AssistantTurn, w: ReplyView) -> bool {
    &&& t.content.deep_view() == w.content
    &&& t.tool_calls@.len() == w.calls.len()
    &&& forall|i: int|
        0 <= i < w.calls.len() ==> {
            let c = #[trigger] t.tool_calls@[i];
            &&& c.name@ == w.calls[i].name
            &&& c.arguments == normalized_arguments(w.calls[i].arguments)
            &&& match w.calls[i].id {
                Some(id) => c.id@ == id,
                None => is_stamped(c.id@, "tool-call"@),
            }
        }
}

/// The reply a chat response body holds, as each protocol writes it: an OpenAI-style
/// body's first choice, an Ollama body's message.
pub open spec fn decoded_reply(provider: LlmProvider, body: Seq<char>) -> Option<ReplyView> {
    match json_parse(body) {
        None => None,
        Some(v) => match provider {
            LlmProvider::Vllm => match openai_replies(v) {
                Some(rs) => if rs.len() > 0 {
                    Some(rs[0])
                } else {
                    None
                },
                None => None,
            },
            LlmProvider::Ollama => ollama_reply(v),
        },
    }
}

/// An OpenAI-style body that decodes but holds no choice.
pub open spec fn holds_no_choice(provider: LlmProvider, body: Seq<char>) -> bool {
    &&& provider == LlmProvider::Vllm
    &&& json_parse(body) is Some
    &&& openai_replies(json_parse(body)->0) is Some
    &&& openai_replies(json_parse(body)->0)->0.len() == 0
}

impl AssistantTurn {
    /// Gives each call an id (a fresh one where the provider gave none) and decodes
    /// arguments that came as JSON text.
    pub fn from_reply(reply: WireReply, ids: &mut IdSource) -> (r: AssistantTurn)
        ensures
            turn_matches(r, reply@),
            final(ids).last >= old(ids).last,
    {
        let WireReply { content, calls } = reply;
        let ghost all = calls@;
        let mut rest = calls;
        let mut tool_calls: Vec<ToolCall> = Vec::new();
        while rest.len() > 0
            invariant
                tool_calls@.len() + rest@.len() == all.len(),
                rest@ == all.subrange(tool_calls@.len() as int, all.len() as int),
                ids.last >= old(ids).last,
                forall|i: int|
                    0 <= i < tool_calls@.len() ==> {
                        let c = #[trigger] tool_calls@[i];
                        &&& c.name@ == all[i]@.name
                        &&& c.arguments == normalized_arguments(all[i]@.arguments)
                        &&& match all[i]@.id {
                            Some(id) => c.id@ == id,
                            None => is_stamped(c.id@, "tool-call"@),
                        }
                    },
            decreases rest@.len(),
        {
            let ghost n: int = tool_calls@.len() as int;
            let WireCall { id, name, arguments } = rest.remove(0);
            assert(rest@ =~= all.subrange(n + 1, all.len() as int));
            let id = match id {
                Some(id) => id,
                None => {
                    let id = ids.next_id("tool-call");
                    assert(is_stamped(id@, "tool-call"@)) by {
                        let n = ids.last as nat;
                        assert(id@ == "tool-call"@ + "-"@ + crate::message::decimal(n));
                    }
                    id
                },
            };
            tool_calls.push(ToolCall { id, name, arguments: normalize_arguments(arguments) });
        }
        AssistantTurn { content, tool_calls }
    }
}

/// Reads a chat response body of `provider` into a turn.
pub fn decode_turn(provider: LlmProvider, body: &str, ids: &mut IdSource) -> (r: Result<
    AssistantTurn,
    LlmError,
>)
    ensures
        final(ids).last >= old(ids).last,
        match decoded_reply(provider, body@) {
            Some(w) => r matches Ok(t) && turn_matches(t, w),
            None => if holds_no_choice(provider, body@) {
                r matches Err(LlmError::Path(m)) && m@ == "No response from provider"@
            } else {
                r matches Err(LlmError::Http(_))
            },
        },
{
    let reply = match provider {
        LlmProvider::Vllm => decode_openai_reply(body),
        LlmProvider::Ollama => decode_ollama_reply(body),
    };
    match reply {
        Ok(w) => Ok(AssistantTurn::from_reply(w, ids)),
        Err(e) => Err(e),
    }
}

/// The state of one non-streaming turn between round trips with the provider.
#[derive(Debug)]
pub struct Dialogue {
    pub provider: LlmProvider,
    pub connection: ProviderConnectionConfig,
    pub model: String,
    pub conversation: Vec<ChatMessage>,
    pub appended: Vec<ChatMessage>,
    /// The requests sent so far, the one awaiting its reply included.
    pub round_trips: u8,
    pub finished: bool,
}

/// The most round trips one turn makes: the first request and three more after tool
/// calls.
pub open spec fn max_round_trips() -> nat {
    4
}

/// Whether a decoded reply's text is kept as an assistant message.
pub open spec fn reply_keeps_content(w: ReplyView) -> bool {
    w.content matches Some(c) && !is_blank(c)
}

/// Whether the reply's text is kept as an assistant message.
pub open spec fn keeps_content(turn: AssistantTurn) -> bool {
    turn.content matches Some(c) && !is_blank(c@)
}

/// Two messages say the same: role, content and link.
pub open spec fn same_message(a: ChatMessage, b: ChatMessage) -> bool {
    a.role == b.role && a.content@ == b.content@ && a.tool_call_id.deep_view()
        == b.tool_call_id.deep_view()
}

/// What taking in a turn does: provider, connection and model stay; the turn succeeds
/// exactly when every tool call runs, and fails with the first unknown tool otherwise,
/// which ends the turn; on success the reply's kept text and one tool message per call,
/// in order, are appended (and added to the conversation), and the turn ends when the
/// reply asks for no tool or the last round trip is spent.
pub open spec fn turn_applied(
    before: Dialogue,
    after: Dialogue,
    turn: AssistantTurn,
    r: Result<(), LlmError>,
) -> bool {
    &&& (after.provider == before.provider)
    &&& (after.connection == before.connection)
    &&& (after.model == before.model)
    &&& (r is Ok <==> forall|j: int|
        0 <= j < turn.tool_calls@.len() ==> tool_result(
            (#[trigger] turn.tool_calls@[j]).name@,
            turn.tool_calls@[j].arguments,
        ) is Ok)
    &&& (r is Err ==> exists|j: int|
        0 <= j < turn.tool_calls@.len() && (tool_result(
            (#[trigger] turn.tool_calls@[j]).name@,
            turn.tool_calls@[j].arguments,
        ) matches Err(msg) && r matches Err(LlmError::Tool(m)) && m@ == msg))
    &&& (r is Ok ==> {
        let kept: int = if keeps_content(turn) {
            1
        } else {
            0
        };
        let base = before.appended@.len() as int;
        let n = turn.tool_calls@.len() as int;
        &&& after.appended@.len() == base + kept + n
        &&& after.appended@.subrange(0, base) == before.appended@
        &&& keeps_content(turn) ==> after.appended@[base].role == ChatRole::Assistant
            && after.appended@[base].content@ == turn.content->0@
        &&& forall|j: int|
            0 <= j < n ==> {
                let m = #[trigger] after.appended@[base + kept + j];
                let c = turn.tool_calls@[j];
                &&& m.role == ChatRole::Tool
                &&& m.content@ == tool_result(c.name@, c.arguments)->Ok_0
                &&& m.tool_call_id matches Some(l) && l@ == c.id@
            }
        &&& after.conversation@.len() == before.conversation@.len() + kept + n
        &&& after.conversation@.subrange(0, before.conversation@.len() as int)
            == before.conversation@
        &&& forall|j: int|
            0 <= j < kept + n ==> same_message(
                #[trigger] after.conversation@[before.conversation@.len() + j],
                after.appended@[base + j],
            )
        &&& n == 0 ==> after.finished && after.round_trips
            == before.round_trips
        &&& n > 0 ==> (after.finished <==> before.round_trips
            == max_round_trips())
        &&& n > 0 && !after.finished ==> after.round_trips
            == before.round_trips + 1
    })
    &&& (r is Err ==> after.finished)
}

impl Dialogue {
    pub open spec fn wf(&self) -> bool {
        &&& 1 <= self.round_trips <= max_round_trips()
        &&& forall|i: int| 0 <= i < self.appended@.len() ==> (#[trigger] self.appended@[i]).wf()
    }

    /// The request for the next round trip; `None` once the turn is over.
    pub fn next_request(&self) -> (r: Option<ChatRequest>)
        ensures
            self.finished <==> r is None,
            r matches Some(q) ==> q.url@ == self.connection.base_url@ + chat_path(self.provider)
                && q.bearer.deep_view() == (if self.provider == LlmProvider::Vllm {
                self.connection.api_key.deep_view()
            } else {
                None
            }) && exists|ts: Seq<OpenAiTool>|
                is_registry(ts) && is_chat_payload(
                    q.payload,
                    self.provider,
                    self.model@,
                    self.conversation@,
                    ts,
                    false,
                ),
    {
        if self.finished {
            return None;
        }
        let tools = available_tools();
        let ghost ts = tools@;
        let q = chat_request(
            self.provider,
            &self.connection,
            self.model.as_str(),
            &self.conversation,
            tools,
            false,
        );
        assert(is_registry(ts) && is_chat_payload(
            q.payload,
            self.provider,
            self.model@,
            self.conversation@,
            ts,
            false,
        ));
        Some(q)
    }

    /// Takes in the provider's reply: keeps its non-blank text as an assistant message;
    /// where it asks for no tool, the turn is over; else runs every call in order, keeps
    /// each result as a tool message, and asks for one more round trip unless the turn
    /// has made its last.
    pub fn apply_turn(&mut self, turn: AssistantTurn, ids: &mut IdSource) -> (r: Result<
        (),
        LlmError,
    >)
        requires
            old(self).wf(),
            !old(self).finished,
        ensures
            final(self).wf(),
            final(ids).last >= old(ids).last,
            turn_applied(*old(self), *final(self), turn, r),
    {
        let ghost base = self.appended@.len() as int;
        let ghost conv_base = self.conversation@.len() as int;
        let ghost old_appended = self.appended@;
        let ghost old_conversation = self.conversation@;
        let AssistantTurn { content, tool_calls } = turn;
        match content {
            Some(c) => {
                if !is_blank_text(c.as_str()) {
                    let m = ChatMessage::assistant(ids, c);
                    self.conversation.push(m.duplicate());
                    self.appended.push(m);
                }
            },
            None => {},
        }
        let ghost kept: int = if keeps_content(turn) {
            1
        } else {
            0
        };
        assert(self.appended@.subrange(0, base) =~= old_appended);
        assert(self.conversation@.subrange(0, conv_base) =~= old_conversation);
        if tool_calls.len() == 0 {
            self.finished = true;
            return Ok(());
        }
        let mut i: usize = 0;
        while i < tool_calls.len()
            invariant
                tool_calls@ == turn.tool_calls@,
                ids.last >= old(ids).last,
                kept == (if keeps_content(turn) {
                    1int
                } else {
                    0int
                }),
                base == old(self).appended@.len(),
                conv_base == old(self).conversation@.len(),
                0 <= base,
                0 <= conv_base,
                self.appended@.len() == base + kept + i,
                self.conversation@.len() == conv_base + kept + i,
                self.appended@.subrange(0, base) == old_appended,
                self.conversation@.subrange(0, conv_base) == old_conversation,
                i <= tool_calls@.len(),
                1 <= self.round_trips <= max_round_trips(),
                !self.finished,
                self.provider == old(self).provider,
                self.connection == old(self).connection,
                self.model == old(self).model,
                self.round_trips == old(self).round_trips,
                forall|k: int| 0 <= k < self.appended@.len() ==> (#[trigger] self.appended@[k]).wf(),
                keeps_content(turn) ==> self.appended@[base].role == ChatRole::Assistant
                    && self.appended@[base].content@ == turn.content->0@,
                forall|j: int| 0 <= j < i ==> tool_result(
                    (#[trigger] tool_calls@[j]).name@,
                    tool_calls@[j].arguments,
                ) is Ok,
                forall|j: int|
                    0 <= j < i ==> {
                        let m = #[trigger] self.appended@[base + kept + j];
                        let c = tool_calls@[j];
                        &&& m.role == ChatRole::Tool
                        &&& m.content@ == tool_result(c.name@, c.arguments)->Ok_0
                        &&& m.tool_call_id matches Some(l) && l@ == c.id@
                    },
                forall|j: int|
                    0 <= j < kept + i ==> same_message(
                        #[trigger] self.conversation@[conv_base + j],
                        self.appended@[base + j],
                    ),
            decreases tool_calls@.len() - i,
        {
            let out = match execute_tool(&tool_calls[i]) {
                Ok(out) => out,
                Err(e) => {
                    assert(tool_result(tool_calls@[i as int].name@, tool_calls@[i as int].arguments) is Err);
                    self.finished = true;
                    return Err(e);
                },
            };
            let m = ChatMessage::tool(ids, out, clone_text(&tool_calls[i].id));
            let ghost before_a = self.appended@;
            let ghost before_c = self.conversation@;
            self.conversation.push(m.duplicate());
            self.appended.push(m);
            assert(self.appended@.subrange(0, base) =~= before_a.subrange(0, base));
            assert(self.conversation@.subrange(0, conv_base) =~= before_c.subrange(0, conv_base));
            i = i + 1;
        }
        if self.round_trips >= 4 {
            self.finished = true;
        } else {
            self.round_trips = self.round_trips + 1;
        }
        Ok(())
    }

    /// Takes in the body of the provider's reply: decodes it into a turn and takes that
    /// in. A body that does not decode fails and ends the turn.
    pub fn on_reply(&mut self, body: &str, ids: &mut IdSource) -> (r: Result<(), LlmError>)
        requires
            old(self).wf(),
            !old(self).finished,
        ensures
            final(self).wf(),
            final(ids).last >= old(ids).last,
            match decoded_reply(old(self).provider, body@) {
                None => {
                    &&& r is Err
                    &&& final(self).finished
                    &&& final(self).appended@ == old(self).appended@
                    &&& final(self).conversation@ == old(self).conversation@
                    &&& final(self).provider == old(self).provider
                    &&& final(self).connection == old(self).connection
                    &&& final(self).model == old(self).model
                },
                Some(w) => exists|t: AssistantTurn|
                    turn_matches(t, w) && #[trigger] turn_applied(*old(self), *final(self), t, r),
            },
            decoded_reply(old(self).provider, body@) matches Some(w) ==> (w.calls.len() == 0 ==> {
                &&& r is Ok
                &&& final(self).finished
                &&& if reply_keeps_content(w) {
                    &&& final(self).appended@.len() == old(self).appended@.len() + 1
                    &&& final(self).appended@.last().role == ChatRole::Assistant
                    &&& final(self).appended@.last().content@ == w.content->0
                } else {
                    final(self).appended@.len() == old(self).appended@.len()
                }
            }),
    {
        match decode_turn(self.provider, body, ids) {
            Ok(turn) => {
                let ghost t = turn;
                let ghost before = *self;
                let r = self.apply_turn(turn, ids);
                assert(turn_matches(t, decoded_reply(before.provider, body@)->0));
                assert(turn_applied(before, *self, t, r));
                r
            },
            Err(e) => {
                self.finished = true;
                Err(e)
            },
        }
    }

    /// The messages the turn appended.
    pub fn into_response(self) -> (r: DialogueResponse)
        ensures
            r.messages@ == self.appended@,
    {
        DialogueResponse { messages: self.appended }
    }
}

/// Why a turn cannot start: blank input, or no model selected.
pub open spec fn start_error(config: LlmConfiguration, input: Seq<char>) -> Option<Seq<char>> {
    if is_blank(input) {
        Some("Message cannot be empty"@)
    } else if config.selected_model is None {
        Some("Select a model before chatting"@)
    } else {
        None
    }
}

/// Starts a non-streaming turn: rejects blank input and a configuration without a
/// selected model before any round trip, then appends the user's message to the history
/// and gets ready for the first request.
pub fn run_dialogue(
    config: &LlmConfiguration,
    request: DialogueRequest,
    ids: &mut IdSource,
) -> (r: Result<Dialogue, LlmError>)
    ensures
        final(ids).last >= old(ids).last,
        match start_error(*config, request.input@) {
            Some(msg) => r matches Err(LlmError::Path(m)) && m@ == msg,
            None => r matches Ok(d) && {
                let n = request.history@.len() as int;
                &&& d.wf()
                &&& !d.finished
                &&& d.round_trips == 1
                &&& d.appended@.len() == 0
                &&& d.provider == config.active_provider
                &&& d.connection@ == connection_of(config.providers@, config.active_provider)
                &&& d.model@ == config.selected_model->0@
                &&& d.conversation@.len() == n + 1
                &&& d.conversation@.subrange(0, n) == request.history@
                &&& d.conversation@[n].role == ChatRole::User
                &&& d.conversation@[n].content@ == trim(request.input@)
                &&& d.conversation@[n].wf()
            },
        },
{
    let DialogueRequest { history, input } = request;
    let trimmed = trim_text(input.as_str());
    if trimmed.as_str().unicode_len() == 0 {
        return Err(LlmError::Path(String::from_str("Message cannot be empty")));
    }
    let model = match &config.selected_model {
        Some(m) => clone_text(m),
        None => return Err(LlmError::Path(String::from_str("Select a model before chatting"))),
    };
    let provider = config.active_provider;
    let connection = match config.providers.get(provider) {
        Some(c) => c.duplicate(),
        None => return Err(LlmError::MissingProviderConfig(provider)),
    };
    let mut conversation = history;
    let ghost n = conversation@.len() as int;
    conversation.push(ChatMessage::user(ids, trimmed));
    assert(conversation@.subrange(0, n) =~= request.history@);
    Ok(
        Dialogue {
            provider,
            connection,
            model,
            conversation,
            appended: Vec::new(),
            round_trips: 1,
            finished: false,
        },
    )
}

/// A streaming turn, ready to go: its one request and the decoder for its reply.
#[derive(Debug)]
pub struct StreamStart {
    pub request: ChatRequest,
    pub decoder: StreamDecoder,
}

/// Starts a streaming turn: the same refusals and user message as a non-streaming turn,
/// then one streaming request with the whole conversation and the tool registry.
pub fn run_stream(
    config: &LlmConfiguration,
    request: StreamRequest,
    ids: &mut IdSource,
) -> (r: Result<StreamStart, LlmError>)
    ensures
        final(ids).last >= old(ids).last,
        match start_error(*config, request.input@) {
            Some(msg) => r matches Err(LlmError::Path(m)) && m@ == msg,
            None => r matches Ok(s) && {
                let p = config.active_provider;
                let c = connection_of(config.providers@, p);
                &&& s.decoder.provider == p
                &&& s.decoder.request_id@ == request.request_id@
                &&& !s.decoder.finished
                &&& s.request.url@ == c.base_url + chat_path(p)
                &&& s.request.bearer.deep_view() == (if p == LlmProvider::Vllm {
                    c.api_key
                } else {
                    None
                })
                &&& exists|conversation: Seq<ChatMessage>, ts: Seq<OpenAiTool>|
                    {
                        &&& is_registry(ts)
                        &&& conversation.len() == request.history@.len() + 1
                        &&& conversation.subrange(0, request.history@.len() as int)
                            == request.history@
                        &&& conversation.last().role == ChatRole::User
                        &&& conversation.last().content@ == trim(request.input@)
                        &&& is_chat_payload(
                            s.request.payload,
                            p,
                            config.selected_model->0@,
                            conversation,
                            ts,
                            true,
                        )
                    }
            },
        },
{
    let StreamRequest { history, input, request_id } = request;
    let trimmed = trim_text(input.as_str());
    if trimmed.as_str().unicode_len() == 0 {
        return Err(LlmError::Path(String::from_str("Message cannot be empty")));
    }
    let model = match &config.selected_model {
        Some(m) => clone_text(m),
        None => return Err(LlmError::Path(String::from_str("Select a model before chatting"))),
    };
    let provider = config.active_provider;
    let connection = match config.providers.get(provider) {
        Some(c) => c,
        None => return Err(LlmError::MissingProviderConfig(provider)),
    };
    let mut conversation = history;
    let ghost n = conversation@.len() as int;
    conversation.push(ChatMessage::user(ids, trimmed));
    assert(conversation@.subrange(0, n) =~= request.history@);
    let tools = available_tools();
    let ghost ts = tools@;
    let q = chat_request(provider, connection, model.as_str(), &conversation, tools, true);
    let decoder = StreamDecoder::new(provider, request_id.as_str());
    assert(is_registry(ts) && is_chat_payload(q.payload, provider, model@, conversation@, ts, true));
    Ok(StreamStart { request: q, decoder })
}

} // verus!
