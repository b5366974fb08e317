use vstd::prelude::*;
use crate::config::{
    connection_of, default_config, normalized, sanitized, sanitize_optional, ConfigView,
    LlmConfiguration, LlmProvider,
};
use crate::error::LlmError;
use crate::models::{listing_path, model_query, ModelQuery};

verus! {

/// Where the configuration file lives.
#[derive(Debug)]
pub enum ConfigLocation {
    /// The file named `config_file_name()` in this directory.
    InDirectory(String),
    /// This very file.
    File(String),
    /// The file named `config_file_name()` in the platform's configuration directory.
    Platform,
}

/// The name of the configuration file inside a directory.
pub fn config_file_name() -> (r: &'static str)
    ensures
        r@ == "llm-config.json"@,
{
    "llm-config.json"
}

/// Chooses the configuration file: an override that names an existing directory holds
/// the file, any other override is the file itself, and without one the platform's
/// configuration directory holds it.
pub fn config_location(override_path: Option<String>, override_is_dir: bool) -> (r: ConfigLocation)
    ensures
        match override_path {
            Some(p) => if override_is_dir {
                r matches ConfigLocation::InDirectory(d) && d@ == p@
            } else {
                r matches ConfigLocation::File(f) && f@ == p@
            },
            None => r is Platform,
        },
{
    match override_path {
        Some(p) => if override_is_dir {
            ConfigLocation::InDirectory(p)
        } else {
            ConfigLocation::File(p)
        },
        None => ConfigLocation::Platform,
    }
}

/// The configuration store: the one configuration the application works with.
#[derive(Debug)]
pub struct LlmState {
    config: LlmConfiguration,
}

impl View for LlmState {
    type V = ConfigView;

    closed spec fn view(&self) -> ConfigView {
        self.config@
    }
}

impl LlmState {
    /// The store for what was read from storage: that configuration normalized, or the
    /// defaults where nothing was stored.
    pub fn initialize(stored: Option<LlmConfiguration>) -> (r: LlmState)
        ensures
            r@ == match stored {
                Some(c) => normalized(c@),
                None => default_config(),
            },
    {
        let config = match stored {
            Some(c) => c.normalize(),
            None => LlmConfiguration::default(),
        };
        LlmState { config }
    }

    /// A copy of the current configuration.
    pub fn current_config(&self) -> (r: LlmConfiguration)
        ensures
            r@ == self@,
    {
        self.config.duplicate()
    }

    /// Replaces the whole configuration with the candidate, normalized, and gives back
    /// what is now held.
    pub fn persist_config(&mut self, next: LlmConfiguration) -> (r: LlmConfiguration)
        ensures
            final(self)@ == normalized(next@),
            r@ == final(self)@,
    {
        self.config = next.normalize();
        self.config.duplicate()
    }

    /// Sets or clears the selected model (a blank id clears it) and gives back what is
    /// now held.
    pub fn update_selected_model(&mut self, model_id: Option<String>) -> (r: LlmConfiguration)
        ensures
            final(self)@ == (ConfigView {
                selected_model: sanitized(model_id.deep_view()),
                ..old(self)@
            }),
            r@ == final(self)@,
    {
        self.config.selected_model = sanitize_optional(model_id);
        self.config.duplicate()
    }

    /// The listing request for the given provider, or for the active one.
    pub fn list_models(&self, provider: Option<LlmProvider>) -> (r: Result<ModelQuery, LlmError>)
        ensures
            r matches Ok(q) && {
                let p = match provider {
                    Some(p) => p,
                    None => self@.active_provider,
                };
                let c = connection_of(self@.providers, p);
                &&& q.provider == p
                &&& q.url@ == c.base_url + listing_path(p)
                &&& q.bearer.deep_view() == (if p == LlmProvider::Vllm {
                    c.api_key
                } else {
                    None
                })
            },
    {
        let target = match provider {
            Some(p) => p,
            None => self.config.active_provider,
        };
        match self.config.providers.get(target) {
            Some(connection) => Ok(model_query(target, connection)),
            None => Err(LlmError::MissingProviderConfig(target)),
        }
    }
}

} // verus!
