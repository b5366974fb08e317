use vstd::prelude::*;
use crate::config::LlmProvider;
use crate::error::LlmError;
use crate::json::{
    field, get_member, json_parse, optional_flag, optional_text, parse_json, read_optional_flag,
    read_optional_text, JsonValue,
};
use crate::reply::{decode_reply, reply_of};
use crate::text::{same_text, strip_start, strip_start_text, trim, trim_text};

verus! {

/// What a streaming turn reports, each tagged with the caller's request id.
#[derive(Debug)]
pub enum StreamEvent {
    Answer { request_id: String, delta: String },
    Done { request_id: String },
    Error { request_id: String, message: String },
}

pub enum EventView {
    Answer(Seq<char>, Seq<char>),
    Done(Seq<char>),
    Error(Seq<char>, Seq<char>),
}

impl View for StreamEvent {
    type V = EventView;

    open spec fn view(&self) -> EventView {
        match self {
            StreamEvent::Answer { request_id, delta } => EventView::Answer(request_id@, delta@),
            StreamEvent::Done { request_id } => EventView::Done(request_id@),
            StreamEvent::Error { request_id, message } => EventView::Error(
                request_id@,
                message@,
            ),
        }
    }
}

pub open spec fn event_views(events: Seq<StreamEvent>) -> Seq<EventView> {
    events.map_values(|e: StreamEvent| e@)
}

/// The delta of one choice of an OpenAI-style chunk: `delta` must be an object, its
/// `content` is optional.
pub open spec fn choice_delta(c: JsonValue) -> Option<Option<Seq<char>>> {
    match field(c, "delta"@) {
        Some(d) => if d is Object {
            optional_text(field(d, "content"@))
        } else {
            None
        },
        None => None,
    }
}

/// The non-empty deltas of a chunk's choices, in order.
pub open spec fn deltas_of(cs: Seq<JsonValue>) -> Option<Seq<Seq<char>>>
    decreases cs.len(),
{
    if cs.len() == 0 {
        Some(Seq::empty())
    } else {
        match (deltas_of(cs.drop_last()), choice_delta(cs.last())) {
            (Some(done), Some(Some(d))) => if d.len() > 0 {
                Some(done.push(d))
            } else {
                Some(done)
            },
            (Some(done), Some(None)) => Some(done),
            _ => None,
        }
    }
}

/// What one line of a stream gives: the deltas it carries and whether it ends the
/// stream; `None` where it does not decode.
///
/// An OpenAI-style line is trimmed; a blank one is skipped; the leading `data:` markers
/// are stripped; `[DONE]` ends the stream; anything else is a JSON chunk whose
/// `choices` each carry a `delta`.
pub open spec fn openai_line(line: Seq<char>) -> Option<(Seq<Seq<char>>, bool)> {
    let t = trim(line);
    if t.len() == 0 {
        Some((Seq::empty(), false))
    } else {
        let p = trim(strip_start(t, "data:"@));
        if p == "[DONE]"@ {
            Some((Seq::empty(), true))
        } else {
            match json_parse(p) {
                Some(v) => match field(v, "choices"@) {
                    Some(JsonValue::Array(cs)) => match deltas_of(cs@) {
                        Some(ds) => Some((ds, false)),
                        None => None,
                    },
                    _ => None,
                },
                None => None,
            }
        }
    }
}

/// An Ollama line is trimmed; a blank one is skipped; anything else is a JSON object with
/// an optional `message` whose non-empty `content` is a delta, and an optional `done`
/// flag that ends the stream.
pub open spec fn ollama_line(line: Seq<char>) -> Option<(Seq<Seq<char>>, bool)> {
    let t = trim(line);
    if t.len() == 0 {
        Some((Seq::empty(), false))
    } else {
        match json_parse(t) {
            Some(v) => {
                let content = match field(v, "message"@) {
                    None => Some(None),
                    Some(JsonValue::Null) => Some(None),
                    Some(m) => match reply_of(m, true) {
                        Some(r) => Some(r.content),
                        None => None,
                    },
                };
                match (v is Object, content, optional_flag(field(v, "done"@))) {
                    (true, Some(c), Some(done)) => Some(
                        (
                            match c {
                                Some(text) => if text.len() > 0 {
                                    seq![text]
                                } else {
                                    Seq::empty()
                                },
                                None => Seq::empty(),
                            },
                            done == Some(true),
                        ),
                    ),
                    _ => None,
                }
            },
            None => None,
        }
    }
}

pub open spec fn line_outcome(provider: LlmProvider, line: Seq<char>) -> Option<(Seq<Seq<char>>, bool)> {
    match provider {
        LlmProvider::Vllm => openai_line(line),
        LlmProvider::Ollama => ollama_line(line),
    }
}

/// The events a line gives: one answer per delta, then `Done` where it ends the stream.
pub open spec fn line_events(request_id: Seq<char>, deltas: Seq<Seq<char>>, finish: bool) -> Seq<
    EventView,
> {
    deltas.map_values(|d: Seq<char>| EventView::Answer(request_id, d)) + if finish {
        seq![EventView::Done(request_id)]
    } else {
        Seq::empty()
    }
}

proof fn lemma_deltas_prefix_fails(all: Seq<JsonValue>, n: int)
    requires
        0 <= n <= all.len(),
        deltas_of(all.subrange(0, n)) is None,
    ensures
        deltas_of(all) is None,
    decreases all.len() - n,
{
    if n < all.len() {
        let p = all.subrange(0, n + 1);
        assert(p.drop_last() =~= all.subrange(0, n));
        lemma_deltas_prefix_fails(all, n + 1);
    } else {
        assert(all.subrange(0, n) =~= all);
    }
}

/// The non-empty deltas of an OpenAI-style chunk.
fn chunk_deltas(v: &JsonValue) -> (r: Option<Vec<String>>)
    ensures
        match field(*v, "choices"@) {
            Some(JsonValue::Array(cs)) => match deltas_of(cs@) {
                Some(ds) => r matches Some(out) && out.deep_view() == ds,
                None => r is None,
            },
            _ => r is None,
        },
{
    let items = match get_member(v, "choices") {
        Some(JsonValue::Array(items)) => items,
        _ => return None,
    };
    let mut out: Vec<String> = Vec::new();
    let mut i: usize = 0;
    assert(items@.subrange(0, 0) =~= Seq::<JsonValue>::empty());
    assert(out.deep_view() =~= Seq::<Seq<char>>::empty());
    while i < items.len()
        invariant
            i <= items@.len(),
            field(*v, "choices"@) == Some(JsonValue::Array(*items)),
            deltas_of(items@.subrange(0, i as int)) == Some(out.deep_view()),
        decreases items@.len() - i,
    {
        let ghost prefix = items@.subrange(0, i + 1);
        assert(prefix.drop_last() =~= items@.subrange(0, i as int));
        assert(prefix.last() == items@[i as int]);
        let delta = match get_member(&items[i], "delta") {
            Some(d) => match d {
                JsonValue::Object(_) => read_optional_text(get_member(d, "content")),
                _ => Err(()),
            },
            None => Err(()),
        };
        match delta {
            Ok(Some(d)) => {
                if d.as_str().unicode_len() > 0 {
                    let ghost before = out@;
                    let ghost dv = d@;
                    out.push(d);
                    assert(out@ == before.push(out@.last()));
                    assert(out.deep_view() =~= before.map(|_k: int, x: String| x.deep_view()).push(dv));
                }
            },
            Ok(None) => {},
            Err(_) => {
                proof {
                    lemma_deltas_prefix_fails(items@, i + 1);
                }
                return None;
            },
        }
        i = i + 1;
    }
    assert(items@.subrange(0, items@.len() as int) =~= items@);
    Some(out)
}

/// Turns a stream's lines into events for one request.
#[derive(Debug)]
pub struct StreamDecoder {
    pub provider: LlmProvider,
    pub request_id: String,
    pub finished: bool,
}

impl StreamDecoder {
    pub fn new(provider: LlmProvider, request_id: &str) -> (r: StreamDecoder)
        ensures
            r.provider == provider,
            r.request_id@ == request_id@,
            !r.finished,
    {
        StreamDecoder { provider, request_id: String::from_str(request_id), finished: false }
    }

    /// The deltas and the end marker of one line, as its protocol writes them.
    fn decode_line(&self, line: &str) -> (r: Option<(Vec<String>, bool)>)
        ensures
            match line_outcome(self.provider, line@) {
                Some((ds, fin)) => r matches Some((out, f)) && out.deep_view() == ds && f == fin,
                None => r is None,
            },
    {
        let t = trim_text(line);
        if t.as_str().unicode_len() == 0 {
            let out: Vec<String> = Vec::new();
            assert(out.deep_view() =~= Seq::<Seq<char>>::empty());
            return Some((out, false));
        }
        match self.provider {
            LlmProvider::Vllm => {
                let stripped = strip_start_text(t.as_str(), "data:");
                let p = trim_text(stripped.as_str());
                if same_text(p.as_str(), "[DONE]") {
                    let out: Vec<String> = Vec::new();
                    assert(out.deep_view() =~= Seq::<Seq<char>>::empty());
                    return Some((out, true));
                }
                match parse_json(p.as_str()) {
                    Ok(v) => match chunk_deltas(&v) {
                        Some(out) => Some((out, false)),
                        None => None,
                    },
                    Err(_) => None,
                }
            },
            LlmProvider::Ollama => {
                let v = match parse_json(t.as_str()) {
                    Ok(v) => v,
                    Err(_) => return None,
                };
                let done = match read_optional_flag(get_member(&v, "done")) {
                    Ok(done) => done,
                    Err(_) => return None,
                };
                let ghost parsed = v;
                let mut fields = match v {
                    JsonValue::Object(fields) => fields,
                    _ => return None,
                };
                let content = match crate::reply::take_member(&mut fields, "message") {
                    None => None,
                    Some(JsonValue::Null) => None,
                    Some(m) => match decode_reply(m, true) {
                        Some(reply) => reply.content,
                        None => return None,
                    },
                };
                let mut out: Vec<String> = Vec::new();
                match content {
                    Some(c) => {
                        if c.as_str().unicode_len() > 0 {
                            out.push(c);
                        }
                    },
                    None => {},
                }
                let finish = match done {
                    Some(d) => d,
                    None => false,
                };
                proof {
                    let (expected, _) = line_outcome(self.provider, line@)->0;
                    assert(out.deep_view() =~= expected);
                }
                Some((out, finish))
            },
        }
    }

    /// Reads one line of the stream. Once the stream has ended, further lines give
    /// nothing; a line that does not decode is a failure.
    pub fn feed_line(&mut self, line: &str) -> (r: Result<Vec<StreamEvent>, LlmError>)
        ensures
            final(self).provider == old(self).provider,
            final(self).request_id == old(self).request_id,
            old(self).finished ==> (r matches Ok(events) && events@.len() == 0 && final(self).finished),
            !old(self).finished ==> match line_outcome(old(self).provider, line@) {
                None => r matches Err(LlmError::Serde(_)) && !final(self).finished,
                Some((ds, fin)) => r matches Ok(events) && event_views(events@) == line_events(
                    old(self).request_id@,
                    ds,
                    fin,
                ) && final(self).finished == fin,
            },
    {
        if self.finished {
            return Ok(Vec::new());
        }
        let (deltas, finish) = match self.decode_line(line) {
            Some(x) => x,
            None => return Err(LlmError::Serde(String::from_str("malformed stream chunk"))),
        };
        let ghost ds = deltas.deep_view();
        let mut events: Vec<StreamEvent> = Vec::new();
        let mut i: usize = 0;
        while i < deltas.len()
            invariant
                i <= deltas@.len(),
                ds == deltas.deep_view(),
                events@.len() == i,
                forall|k: int|
                    0 <= k < i ==> (#[trigger] events@[k])@ == EventView::Answer(
                        self.request_id@,
                        ds[k],
                    ),
            decreases deltas@.len() - i,
        {
            events.push(
                StreamEvent::Answer {
                    request_id: self.request_id.clone(),
                    delta: deltas[i].clone(),
                },
            );
            i = i + 1;
        }
        if finish {
            events.push(StreamEvent::Done { request_id: self.request_id.clone() });
            self.finished = true;
        }
        assert(event_views(events@) =~= line_events(self.request_id@, ds, finish));
        Ok(events)
    }

    /// The terminal event for a failure that ends the stream.
    pub fn fail(&mut self, err: &LlmError) -> (r: StreamEvent)
        ensures
            r@ == EventView::Error(old(self).request_id@, err.spec_message()),
            final(self).finished,
            final(self).request_id == old(self).request_id,
            final(self).provider == old(self).provider,
    {
        self.finished = true;
        StreamEvent::Error { request_id: self.request_id.clone(), message: err.message() }
    }

    /// The terminal event owed when the input ends: none where the stream has ended,
    /// else an error, since the provider stopped before it finished.
    pub fn close(&mut self) -> (r: Option<StreamEvent>)
        ensures
            old(self).finished ==> r is None,
            !old(self).finished ==> (r matches Some(e) && e@ == EventView::Error(
                old(self).request_id@,
                "Stream ended before completion"@,
            )),
            final(self).finished,
            final(self).request_id == old(self).request_id,
            final(self).provider == old(self).provider,
    {
        if self.finished {
            return None;
        }
        self.finished = true;
        Some(
            StreamEvent::Error {
                request_id: self.request_id.clone(),
                message: String::from_str("Stream ended before completion"),
            },
        )
    }
}

} // verus!
