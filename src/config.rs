use vstd::prelude::*;
use crate::text::{
    is_blank, lemma_strip_end, lemma_trim_fixed, lemma_trim_idempotent, lemma_trim_same_length,
    strip_end, strip_end_text, trim, trim_text,
};

verus! {

/// The two wire protocols a provider can speak.
#[derive(Debug, Clone, Copy, PartialEq, Eq, Structural)]
pub enum LlmProvider {
    Vllm,
    Ollama,
}

/// Where a provider is reached, and the bearer credential it wants, if any.
#[derive(Debug)]
pub struct ProviderConnectionConfig {
    pub base_url: String,
    pub api_key: Option<String>,
}

pub struct ConnectionView {
    pub base_url: Seq<char>,
    pub api_key: Option<Seq<char>>,
}

impl View for ProviderConnectionConfig {
    type V = ConnectionView;

    open spec fn view(&self) -> ConnectionView {
        ConnectionView { base_url: self.base_url@, api_key: self.api_key.deep_view() }
    }
}

/// One connection per provider.
#[derive(Debug)]
pub struct ProviderCollection {
    pub vllm: ProviderConnectionConfig,
    pub ollama: ProviderConnectionConfig,
}

pub struct CollectionView {
    pub vllm: ConnectionView,
    pub ollama: ConnectionView,
}

impl View for ProviderCollection {
    type V = CollectionView;

    open spec fn view(&self) -> CollectionView {
        CollectionView { vllm: self.vllm@, ollama: self.ollama@ }
    }
}

/// The whole configuration: the provider in use, the chosen model and every connection.
#[derive(Debug)]
pub struct LlmConfiguration {
    pub active_provider: LlmProvider,
    pub selected_model: Option<String>,
    pub providers: ProviderCollection,
}

pub struct ConfigView {
    pub active_provider: LlmProvider,
    pub selected_model: Option<Seq<char>>,
    pub providers: CollectionView,
}

impl View for LlmConfiguration {
    type V = ConfigView;

    open spec fn view(&self) -> ConfigView {
        ConfigView {
            active_provider: self.active_provider,
            selected_model: self.selected_model.deep_view(),
            providers: self.providers@,
        }
    }
}

/// A model that a provider offers.
#[derive(Debug)]
pub struct LlmModel {
    pub id: String,
    pub label: String,
    pub provider: LlmProvider,
}

pub open spec fn default_url(provider: LlmProvider) -> Seq<char> {
    match provider {
        LlmProvider::Vllm => "http://127.0.0.1:8000"@,
        LlmProvider::Ollama => "http://127.0.0.1:11434"@,
    }
}

pub open spec fn default_connection(provider: LlmProvider) -> ConnectionView {
    ConnectionView { base_url: default_url(provider), api_key: None }
}

pub open spec fn default_config() -> ConfigView {
    ConfigView {
        active_provider: LlmProvider::Vllm,
        selected_model: None,
        providers: CollectionView {
            vllm: default_connection(LlmProvider::Vllm),
            ollama: default_connection(LlmProvider::Ollama),
        },
    }
}

/// An optional text, trimmed; blank counts as absent.
pub open spec fn sanitized(value: Option<Seq<char>>) -> Option<Seq<char>> {
    match value {
        None => None,
        Some(s) => if is_blank(s) {
            None
        } else {
            Some(trim(s))
        },
    }
}

/// One round of cleaning a base URL: trim it, then drop its trailing slashes.
pub open spec fn url_step(url: Seq<char>) -> Seq<char> {
    strip_end(trim(url), '/')
}

/// The URL that cleaning rounds reach once a round changes nothing more.
pub open spec fn settled_url(url: Seq<char>) -> Seq<char>
    decreases url.len(),
{
    if url_step(url).len() < url.len() {
        settled_url(url_step(url))
    } else {
        url
    }
}

/// The base URL a connection ends up with: cleaned until stable, or the provider's
/// default where nothing is left.
pub open spec fn normalized_url(provider: LlmProvider, url: Seq<char>) -> Seq<char> {
    let c = settled_url(url);
    if c.len() == 0 {
        default_url(provider)
    } else {
        c
    }
}

pub open spec fn normalized_connection(provider: LlmProvider, c: ConnectionView) -> ConnectionView {
    ConnectionView {
        base_url: normalized_url(provider, c.base_url),
        api_key: sanitized(c.api_key),
    }
}

pub open spec fn normalized(c: ConfigView) -> ConfigView {
    ConfigView {
        active_provider: c.active_provider,
        selected_model: sanitized(c.selected_model),
        providers: CollectionView {
            vllm: normalized_connection(LlmProvider::Vllm, c.providers.vllm),
            ollama: normalized_connection(LlmProvider::Ollama, c.providers.ollama),
        },
    }
}

pub open spec fn connection_of(c: CollectionView, provider: LlmProvider) -> ConnectionView {
    match provider {
        LlmProvider::Vllm => c.vllm,
        LlmProvider::Ollama => c.ollama,
    }
}

pub fn clone_text(s: &String) -> (r: String)
    ensures
        r@ == s@,
{
    s.clone()
}

pub fn clone_optional(value: &Option<String>) -> (r: Option<String>)
    ensures
        r.deep_view() == value.deep_view(),
{
    match value {
        Some(s) => Some(clone_text(s)),
        None => None,
    }
}

/// Trims an optional text and drops it when it is blank.
pub fn sanitize_optional(value: Option<String>) -> (r: Option<String>)
    ensures
        r.deep_view() == sanitized(value.deep_view()),
{
    match value {
        None => None,
        Some(input) => {
            let trimmed = trim_text(input.as_str());
            if trimmed.as_str().unicode_len() == 0 {
                None
            } else {
                Some(trimmed)
            }
        },
    }
}

pub fn default_base_url(provider: LlmProvider) -> (r: &'static str)
    ensures
        r@ == default_url(provider),
{
    match provider {
        LlmProvider::Vllm => "http://127.0.0.1:8000",
        LlmProvider::Ollama => "http://127.0.0.1:11434",
    }
}

impl ProviderConnectionConfig {
    pub fn default_for(provider: LlmProvider) -> (r: Self)
        ensures
            r@ == default_connection(provider),
    {
        ProviderConnectionConfig {
            base_url: String::from_str(default_base_url(provider)),
            api_key: None,
        }
    }

    pub fn duplicate(&self) -> (r: Self)
        ensures
            r@ == self@,
    {
        ProviderConnectionConfig {
            base_url: clone_text(&self.base_url),
            api_key: clone_optional(&self.api_key),
        }
    }

    /// Trims the URL and strips its trailing slashes until that changes nothing more,
    /// falls back to the provider's default URL where nothing is left, and sanitizes the
    /// key.
    pub fn normalize(self, provider: LlmProvider) -> (r: Self)
        ensures
            r@ == normalized_connection(provider, self@),
    {
        let ghost url = self.base_url@;
        let ProviderConnectionConfig { base_url, api_key } = self;
        let mut cur = base_url;
        let mut stable = false;
        while !stable
            invariant
                settled_url(url) == settled_url(cur@),
                stable ==> url_step(cur@).len() >= cur@.len(),
            decreases cur@.len() + if stable {
                0int
            } else {
                1int
            },
        {
            let trimmed = trim_text(cur.as_str());
            let next = strip_end_text(trimmed.as_str(), '/');
            if next.as_str().unicode_len() < cur.as_str().unicode_len() {
                cur = next;
            } else {
                stable = true;
            }
        }
        let base_url = if cur.as_str().unicode_len() == 0 {
            String::from_str(default_base_url(provider))
        } else {
            cur
        };
        ProviderConnectionConfig { base_url, api_key: sanitize_optional(api_key) }
    }
}

impl ProviderCollection {
    pub fn duplicate(&self) -> (r: Self)
        ensures
            r@ == self@,
    {
        ProviderCollection { vllm: self.vllm.duplicate(), ollama: self.ollama.duplicate() }
    }

    pub fn normalize(self) -> (r: Self)
        ensures
            r@ == (CollectionView {
                vllm: normalized_connection(LlmProvider::Vllm, self@.vllm),
                ollama: normalized_connection(LlmProvider::Ollama, self@.ollama),
            }),
    {
        ProviderCollection {
            vllm: self.vllm.normalize(LlmProvider::Vllm),
            ollama: self.ollama.normalize(LlmProvider::Ollama),
        }
    }

    /// The connection of `provider`; every provider has one.
    pub fn get(&self, provider: LlmProvider) -> (r: Option<&ProviderConnectionConfig>)
        ensures
            r is Some,
            r->0@ == connection_of(self@, provider),
    {
        match provider {
            LlmProvider::Vllm => Some(&self.vllm),
            LlmProvider::Ollama => Some(&self.ollama),
        }
    }
}

impl Default for ProviderCollection {
    fn default() -> (r: Self)
        ensures
            r@ == default_config().providers,
    {
        ProviderCollection {
            vllm: ProviderConnectionConfig::default_for(LlmProvider::Vllm),
            ollama: ProviderConnectionConfig::default_for(LlmProvider::Ollama),
        }
    }
}

impl Default for LlmConfiguration {
    fn default() -> (r: Self)
        ensures
            r@ == default_config(),
    {
        LlmConfiguration {
            active_provider: LlmProvider::Vllm,
            selected_model: None,
            providers: ProviderCollection::default(),
        }
    }
}

impl LlmConfiguration {
    pub fn duplicate(&self) -> (r: Self)
        ensures
            r@ == self@,
    {
        LlmConfiguration {
            active_provider: self.active_provider,
            selected_model: clone_optional(&self.selected_model),
            providers: self.providers.duplicate(),
        }
    }

    /// Sanitizes the selected model and normalizes every connection.
    pub fn normalize(self) -> (r: Self)
        ensures
            r@ == normalized(self@),
    {
        LlmConfiguration {
            active_provider: self.active_provider,
            selected_model: sanitize_optional(self.selected_model),
            providers: self.providers.normalize(),
        }
    }
}

proof fn lemma_sanitized_idempotent(value: Option<Seq<char>>)
    ensures
        sanitized(sanitized(value)) == sanitized(value),
{
    if let Some(s) = value {
        lemma_trim_idempotent(s);
    }
}

/// A URL that one cleaning round leaves as long as it was is trimmed and has no
/// trailing slash.
proof fn lemma_step_fixed(url: Seq<char>)
    requires
        url_step(url).len() >= url.len(),
    ensures
        url_step(url) == url,
        trim(url) == url,
        url.len() > 0 ==> url.last() != '/',
{
    lemma_trim_same_length(url);
    lemma_strip_end(trim(url), '/');
    assert(trim(url).subrange(0, trim(url).len() as int) =~= trim(url));
}

/// What cleaning settles on is left as it is by one more round.
proof fn lemma_settled_fixed(url: Seq<char>)
    ensures
        url_step(settled_url(url)).len() >= settled_url(url).len(),
    decreases url.len(),
{
    if url_step(url).len() < url.len() {
        lemma_settled_fixed(url_step(url));
    }
}

proof fn lemma_default_fixed(provider: LlmProvider)
    ensures
        url_step(default_url(provider)) == default_url(provider),
        default_url(provider).len() > 0,
{
    reveal_strlit("http://127.0.0.1:8000");
    reveal_strlit("http://127.0.0.1:11434");
    let d = default_url(provider);
    lemma_trim_fixed(d);
    assert(strip_end(d, '/') == d);
}

/// The normalized URL of any input is non-empty, trimmed, without a trailing slash, and
/// its own normalized URL.
pub proof fn lemma_url_normal(provider: LlmProvider, url: Seq<char>)
    ensures
        normalized_url(provider, url).len() > 0,
        trim(normalized_url(provider, url)) == normalized_url(provider, url),
        normalized_url(provider, url).last() != '/',
        normalized_url(provider, normalized_url(provider, url)) == normalized_url(provider, url),
{
    let c = settled_url(url);
    let n = normalized_url(provider, url);
    if c.len() == 0 {
        lemma_default_fixed(provider);
    } else {
        lemma_settled_fixed(url);
    }
    lemma_step_fixed(n);
    assert(settled_url(n) == n);
}

/// Normalizing a configuration twice gives what normalizing it once gives, and leaves
/// each base URL non-empty, trimmed and without a trailing slash.
pub proof fn lemma_normalize_idempotent(c: ConfigView)
    ensures
        normalized(normalized(c)) == normalized(c),
        ({
            let n = normalized(c).providers;
            &&& n.vllm.base_url.len() > 0
            &&& n.ollama.base_url.len() > 0
            &&& trim(n.vllm.base_url) == n.vllm.base_url
            &&& trim(n.ollama.base_url) == n.ollama.base_url
            &&& n.vllm.base_url.last() != '/'
            &&& n.ollama.base_url.last() != '/'
        }),
{
    lemma_url_normal(LlmProvider::Vllm, c.providers.vllm.base_url);
    lemma_url_normal(LlmProvider::Ollama, c.providers.ollama.base_url);
    lemma_sanitized_idempotent(c.selected_model);
    lemma_sanitized_idempotent(c.providers.vllm.api_key);
    lemma_sanitized_idempotent(c.providers.ollama.api_key);
}

} // verus!
