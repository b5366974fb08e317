use vstd::prelude::*;
use crate::config::{clone_optional, LlmModel, LlmProvider, ProviderConnectionConfig};
use crate::error::LlmError;
use crate::json::{
    field, get_member, json_parse, optional_text, parse_json, read_optional_text,
    read_required_text, required_text, JsonValue,
};

verus! {

/// The GET that lists a provider's models: where it goes and the bearer credential it
/// carries.
#[derive(Debug)]
pub struct ModelQuery {
    pub provider: LlmProvider,
    pub url: String,
    pub bearer: Option<String>,
}

/// The listing endpoint's path of each protocol.
pub open spec fn listing_path(provider: LlmProvider) -> Seq<char> {
    match provider {
        LlmProvider::Vllm => "/v1/models"@,
        LlmProvider::Ollama => "/api/tags"@,
    }
}

/// The member of a listing that holds its models.
pub open spec fn listing_key(provider: LlmProvider) -> Seq<char> {
    match provider {
        LlmProvider::Vllm => "data"@,
        LlmProvider::Ollama => "models"@,
    }
}

/// An Ollama model's label: its name, with the parameter size after a middle dot where
/// one is known.
pub open spec fn ollama_label(name: Seq<char>, size: Option<Seq<char>>) -> Seq<char> {
    match size {
        Some(s) => name + seq![' ', '\u{b7}', ' '] + s,
        None => name,
    }
}

/// One entry of a listing, as id and label: an OpenAI-style entry is labelled by its id;
/// an Ollama entry by its name and its optional `details.parameter_size`.
pub open spec fn model_of(provider: LlmProvider, v: JsonValue) -> Option<(Seq<char>, Seq<char>)> {
    match provider {
        LlmProvider::Vllm => match required_text(field(v, "id"@)) {
            Some(id) => Some((id, id)),
            None => None,
        },
        LlmProvider::Ollama => match required_text(field(v, "name"@)) {
            None => None,
            Some(name) => match field(v, "details"@) {
                None => Some((name, name)),
                Some(JsonValue::Null) => Some((name, name)),
                Some(d) => if d is Object {
                    match optional_text(field(d, "parameter_size"@)) {
                        Some(size) => Some((name, ollama_label(name, size))),
                        None => None,
                    }
                } else {
                    None
                },
            },
        },
    }
}

pub open spec fn models_of(provider: LlmProvider, cs: Seq<JsonValue>) -> Option<
    Seq<(Seq<char>, Seq<char>)>,
>
    decreases cs.len(),
{
    if cs.len() == 0 {
        Some(Seq::empty())
    } else {
        match (models_of(provider, cs.drop_last()), model_of(provider, cs.last())) {
            (Some(done), Some(m)) => Some(done.push(m)),
            _ => None,
        }
    }
}

/// The models a listing body names, in order; `None` where it does not decode.
pub open spec fn listing(provider: LlmProvider, v: JsonValue) -> Option<Seq<(Seq<char>, Seq<char>)>> {
    match field(v, listing_key(provider)) {
        Some(JsonValue::Array(a)) => models_of(provider, a@),
        _ => None,
    }
}

pub open spec fn model_views(ms: Seq<LlmModel>) -> Seq<(Seq<char>, Seq<char>)> {
    ms.map_values(|m: LlmModel| (m.id@, m.label@))
}

proof fn lemma_models_prefix_fails(provider: LlmProvider, all: Seq<JsonValue>, n: int)
    requires
        0 <= n <= all.len(),
        models_of(provider, all.subrange(0, n)) is None,
    ensures
        models_of(provider, all) is None,
    decreases all.len() - n,
{
    if n < all.len() {
        let p = all.subrange(0, n + 1);
        assert(p.drop_last() =~= all.subrange(0, n));
        lemma_models_prefix_fails(provider, all, n + 1);
    } else {
        assert(all.subrange(0, n) =~= all);
    }
}

/// The label of an Ollama model.
pub fn format_ollama_label(name: &str, size: Option<&String>) -> (r: String)
    ensures
        r@ == ollama_label(
            name@,
            match size {
                Some(s) => Some(s@),
                None => None,
            },
        ),
{
    match size {
        Some(s) => {
            let sep = " \u{b7} ";
            proof {
                reveal_strlit(" \u{b7} ");
            }
            String::from_str(name).concat(sep).concat(s.as_str())
        },
        None => String::from_str(name),
    }
}

/// Reads one entry of a listing.
pub fn decode_model(provider: LlmProvider, v: &JsonValue) -> (r: Option<LlmModel>)
    ensures
        match model_of(provider, *v) {
            Some(m) => r matches Some(x) && x.id@ == m.0 && x.label@ == m.1 && x.provider
                == provider,
            None => r is None,
        },
{
    match provider {
        LlmProvider::Vllm => match read_required_text(get_member(v, "id")) {
            Ok(id) => {
                let label = id.clone();
                Some(LlmModel { id, label, provider })
            },
            Err(_) => None,
        },
        LlmProvider::Ollama => {
            let name = match read_required_text(get_member(v, "name")) {
                Ok(name) => name,
                Err(_) => return None,
            };
            let size = match get_member(v, "details") {
                None => None,
                Some(JsonValue::Null) => None,
                Some(d) => match d {
                    JsonValue::Object(_) => match read_optional_text(get_member(d, "parameter_size")) {
                        Ok(size) => size,
                        Err(_) => return None,
                    },
                    _ => return None,
                },
            };
            let label = format_ollama_label(name.as_str(), size.as_ref());
            Some(LlmModel { id: name, label, provider })
        },
    }
}

/// Reads the body of a model listing: every model it names, in order.
pub fn decode_models(provider: LlmProvider, body: &str) -> (r: Result<Vec<LlmModel>, LlmError>)
    ensures
        match json_parse(body@) {
            None => r matches Err(LlmError::Http(_)),
            Some(v) => match listing(provider, v) {
                None => r matches Err(LlmError::Http(_)),
                Some(ms) => r matches Ok(models) && model_views(models@) == ms && forall|i: int|
                    0 <= i < models@.len() ==> (#[trigger] models@[i]).provider == provider,
            },
        },
{
    let v = match parse_json(body) {
        Ok(v) => v,
        Err(e) => return Err(LlmError::Http(e)),
    };
    let key = match provider {
        LlmProvider::Vllm => "data",
        LlmProvider::Ollama => "models",
    };
    let items = match get_member(&v, key) {
        Some(JsonValue::Array(items)) => items,
        _ => return Err(LlmError::Http(String::from_str("malformed model listing"))),
    };
    let mut out: Vec<LlmModel> = Vec::new();
    let mut i: usize = 0;
    assert(items@.subrange(0, 0) =~= Seq::<JsonValue>::empty());
    assert(model_views(out@) =~= Seq::<(Seq<char>, Seq<char>)>::empty());
    while i < items.len()
        invariant
            i <= items@.len(),
            out@.len() == i,
            json_parse(body@) == Some(v),
            listing(provider, v) == models_of(provider, items@),
            models_of(provider, items@.subrange(0, i as int)) == Some(model_views(out@)),
            forall|k: int| 0 <= k < out@.len() ==> (#[trigger] out@[k]).provider == provider,
        decreases items@.len() - i,
    {
        let ghost prefix = items@.subrange(0, i + 1);
        assert(prefix.drop_last() =~= items@.subrange(0, i as int));
        assert(prefix.last() == items@[i as int]);
        match decode_model(provider, &items[i]) {
            Some(m) => {
                out.push(m);
                assert(model_views(out@) =~= model_views(out@.drop_last()).push(
                    (out@[i as int].id@, out@[i as int].label@),
                ));
            },
            None => {
                proof {
                    lemma_models_prefix_fails(provider, items@, i + 1);
                }
                return Err(LlmError::Http(String::from_str("malformed model listing")));
            },
        }
        i = i + 1;
    }
    assert(items@.subrange(0, items@.len() as int) =~= items@);
    Ok(out)
}

/// The listing request for a provider's connection: its endpoint under the base URL,
/// with the key as bearer credential for the OpenAI-style protocol.
pub fn model_query(provider: LlmProvider, connection: &ProviderConnectionConfig) -> (r: ModelQuery)
    ensures
        r.provider == provider,
        r.url@ == connection.base_url@ + listing_path(provider),
        r.bearer.deep_view() == (if provider == LlmProvider::Vllm {
            connection.api_key.deep_view()
        } else {
            None
        }),
{
    let path = match provider {
        LlmProvider::Vllm => "/v1/models",
        LlmProvider::Ollama => "/api/tags",
    };
    let bearer = match provider {
        LlmProvider::Vllm => clone_optional(&connection.api_key),
        LlmProvider::Ollama => None,
    };
    ModelQuery { provider, url: connection.base_url.clone().concat(path), bearer }
}

} // verus!
