use shell_werk_lib::config::{
    sanitize_optional, LlmConfiguration, LlmProvider, ProviderCollection, ProviderConnectionConfig,
};
use shell_werk_lib::models::decode_models;
use shell_werk_lib::LlmState;

fn conn(url: &str, key: Option<&str>) -> ProviderConnectionConfig {
    ProviderConnectionConfig { base_url: url.to_string(), api_key: key.map(|k| k.to_string()) }
}

#[test]
fn req_009_supports_connection_to_vllm() {
    let mut state = LlmState::initialize(None);
    let mut config = state.current_config();
    config.providers.vllm.base_url = "http://127.0.0.1:4010".to_string();
    state.persist_config(config);

    let query = state.list_models(Some(LlmProvider::Vllm)).expect("lists models");
    assert_eq!(query.url, "http://127.0.0.1:4010/v1/models");
    let models = decode_models(
        query.provider,
        r#"{"data":[{"id":"qwen3"},{"id":"deepseek"}]}"#,
    )
    .expect("lists models");
    assert_eq!(models.len(), 2);
    assert!(models.iter().all(|model| model.provider == LlmProvider::Vllm));
}

#[test]
fn req_009_supports_connection_to_ollama() {
    let mut state = LlmState::initialize(None);
    let mut config = state.current_config();
    config.active_provider = LlmProvider::Ollama;
    config.providers.ollama.base_url = "http://127.0.0.1:4011".to_string();
    state.persist_config(config);

    let query = state.list_models(Some(LlmProvider::Ollama)).expect("lists models");
    assert_eq!(query.url, "http://127.0.0.1:4011/api/tags");
    let models = decode_models(
        query.provider,
        r#"{"models":[{"name":"qwen3","details":{"parameter_size":"4B"}}]}"#,
    )
    .expect("lists models");
    assert_eq!(models.len(), 1);
    assert_eq!(models[0].id, "qwen3");
    assert_eq!(models[0].label, "qwen3 \u{b7} 4B");
}

#[test]
fn req_009_retrieves_models_based_on_active_provider() {
    let mut state = LlmState::initialize(None);
    let mut config = state.current_config();
    config.active_provider = LlmProvider::Vllm;
    config.providers.vllm.base_url = "http://127.0.0.1:4012".to_string();
    state.persist_config(config);

    let query = state.list_models(None).expect("lists models");
    assert_eq!(query.provider, LlmProvider::Vllm);
    let models = decode_models(query.provider, r#"{"data":[{"id":"granite"}]}"#)
        .expect("lists models");
    assert_eq!(models.len(), 1);
    assert_eq!(models[0].id, "granite");
}

#[test]
fn req_009_persists_selected_llm() {
    let mut state = LlmState::initialize(None);
    state.update_selected_model(Some("granite-3b".into()));
    let stored = state.current_config();

    let state = LlmState::initialize(Some(stored));
    let config = state.current_config();
    assert_eq!(config.selected_model.as_deref(), Some("granite-3b"));
}

#[test]
fn req_009_persists_provider_configuration() {
    let mut state = LlmState::initialize(None);
    let mut config = state.current_config();
    config.providers.vllm.base_url = "http://127.0.0.1:1234".into();
    config.providers.vllm.api_key = Some("sk-test".into());
    state.persist_config(config);
    let stored = state.current_config();

    let state = LlmState::initialize(Some(stored));
    let config = state.current_config();
    assert_eq!(config.providers.vllm.base_url, "http://127.0.0.1:1234");
    assert_eq!(config.providers.vllm.api_key.as_deref(), Some("sk-test"));
}

#[test]
fn defaults_use_local_ports() {
    let config = LlmConfiguration::default();
    assert_eq!(config.active_provider, LlmProvider::Vllm);
    assert!(config.selected_model.is_none());
    assert_eq!(config.providers.vllm.base_url, "http://127.0.0.1:8000");
    assert_eq!(config.providers.ollama.base_url, "http://127.0.0.1:11434");
    assert!(config.providers.ollama.api_key.is_none());
}

#[test]
fn normalize_trims_and_strips_slashes() {
    let c = conn("  http://host:9000///  ", Some("  key  ")).normalize(LlmProvider::Vllm);
    assert_eq!(c.base_url, "http://host:9000");
    assert_eq!(c.api_key.as_deref(), Some("key"));
    let blank = conn(" \t ", Some("   ")).normalize(LlmProvider::Ollama);
    assert_eq!(blank.base_url, "http://127.0.0.1:11434");
    assert!(blank.api_key.is_none());
}

#[test]
fn normalize_is_idempotent_on_examples() {
    let config = LlmConfiguration {
        active_provider: LlmProvider::Ollama,
        selected_model: Some("  m1 \n".into()),
        providers: ProviderCollection {
            vllm: conn("http://a/ ", None),
            ollama: conn("", Some(" k ")),
        },
    };
    let once = config.normalize();
    let twice = once.duplicate().normalize();
    assert_eq!(once.selected_model.as_deref(), Some("m1"));
    assert_eq!(once.providers.vllm.base_url, "http://a");
    assert_eq!(once.providers.ollama.base_url, "http://127.0.0.1:11434");
    assert_eq!(twice.selected_model, once.selected_model);
    assert_eq!(twice.providers.vllm.base_url, once.providers.vllm.base_url);
    assert_eq!(twice.providers.ollama.base_url, once.providers.ollama.base_url);
    assert_eq!(twice.providers.ollama.api_key, once.providers.ollama.api_key);
}

#[test]
fn slash_only_url_falls_back_to_default() {
    let c = conn(" /// ", None).normalize(LlmProvider::Vllm);
    assert_eq!(c.base_url, "http://127.0.0.1:8000");
    let again = c.normalize(LlmProvider::Vllm);
    assert_eq!(again.base_url, "http://127.0.0.1:8000");
}

#[test]
fn space_before_slash_is_trimmed_too() {
    let c = conn("http://h /", None).normalize(LlmProvider::Ollama);
    assert_eq!(c.base_url, "http://h");
    let c = conn("http://h/ / /", None).normalize(LlmProvider::Ollama);
    assert_eq!(c.base_url, "http://h");
}

#[test]
fn sanitize_drops_blank_and_trims_unicode_space() {
    assert_eq!(sanitize_optional(Some("\u{3000} x \u{a0}".into())).as_deref(), Some("x"));
    assert!(sanitize_optional(Some("\u{2003}\n".into())).is_none());
    assert!(sanitize_optional(None).is_none());
}

#[test]
fn selecting_blank_model_clears_it() {
    let mut state = LlmState::initialize(None);
    state.update_selected_model(Some("m".into()));
    let config = state.update_selected_model(Some("   ".into()));
    assert!(config.selected_model.is_none());
}

#[test]
fn persisted_configuration_is_the_last_submission_in_full() {
    let mut state = LlmState::initialize(None);
    let mut first = LlmConfiguration::default();
    first.selected_model = Some("a".into());
    first.providers.vllm.base_url = "http://first".into();
    let mut second = LlmConfiguration::default();
    second.active_provider = LlmProvider::Ollama;
    second.providers.ollama.api_key = Some("k2".into());
    state.persist_config(first);
    let held = state.persist_config(second);
    assert_eq!(held.active_provider, LlmProvider::Ollama);
    assert!(held.selected_model.is_none());
    assert_eq!(held.providers.vllm.base_url, "http://127.0.0.1:8000");
    assert_eq!(held.providers.ollama.api_key.as_deref(), Some("k2"));
}

#[test]
fn vllm_listing_sends_bearer_and_ollama_does_not() {
    let mut state = LlmState::initialize(None);
    let mut config = state.current_config();
    config.providers.vllm.api_key = Some("sk".into());
    config.providers.ollama.api_key = Some("ok".into());
    state.persist_config(config);
    assert_eq!(state.list_models(Some(LlmProvider::Vllm)).unwrap().bearer.as_deref(), Some("sk"));
    assert!(state.list_models(Some(LlmProvider::Ollama)).unwrap().bearer.is_none());
}
