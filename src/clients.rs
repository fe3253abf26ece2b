use vstd::prelude::*;
use crate::error::RembedError;
use crate::mock::MockAdapter;
use crate::options::{legacy_model, legacy_provider_to_model};
use crate::options::opt_text;
use crate::text::{find_sub, first_sub, has_sub, join2, str_eq};

verus! {

/// The upper-case form of `s`, as Rust's Unicode case mapping gives it.
pub uninterp spec fn upper_of(s: Seq<char>) -> Seq<char>;

/// Relies on str::to_uppercase: the result depends on the characters alone.
#[verifier::external_body]
fn uppercase(s: &str) -> (r: String)
    ensures
        r@ == upper_of(s@),
{
    s.to_uppercase()
}

/// The part of a model identifier before its first `::`, if it has one.
pub open spec fn model_prefix(model: Seq<char>) -> Option<Seq<char>> {
    if has_sub(model, "::"@) {
        Some(model.subrange(0, first_sub(model, "::"@)))
    } else {
        None
    }
}

/// The provider of a model identifier; `openai` where it names none.
pub open spec fn model_provider(model: Seq<char>) -> Seq<char> {
    match model_prefix(model) {
        Some(p) => p,
        None => "openai"@,
    }
}

/// The environment variable from which a provider's library reads its key.
pub open spec fn key_variable_of(provider: Seq<char>) -> Seq<char> {
    if provider == "openai"@ {
        "OPENAI_API_KEY"@
    } else if provider == "gemini"@ || provider == "google"@ {
        "GEMINI_API_KEY"@
    } else if provider == "cohere"@ {
        "CO_API_KEY"@
    } else if provider == "anthropic"@ {
        "ANTHROPIC_API_KEY"@
    } else if provider == "groq"@ {
        "GROQ_API_KEY"@
    } else if provider == "deepseek"@ {
        "DEEPSEEK_API_KEY"@
    } else if provider == "xai"@ {
        "XAI_API_KEY"@
    } else if provider == "mistral"@ {
        "MISTRAL_API_KEY"@
    } else {
        upper_of(provider) + "_API_KEY"@
    }
}

/// The part of `model` before its first `::`, if it has one.
fn prefix_of(model: &str) -> (r: Option<&str>)
    ensures
        match r {
            Some(p) => model_prefix(model@) == Some(p@),
            None => model_prefix(model@) is None,
        },
{
    match find_sub(model, "::") {
        Some(i) => Some(model.substring_char(0, i)),
        None => None,
    }
}

/// A text-embedding client: the model identifier (which may name its provider,
/// as in `openai::text-embedding-3-small`) and the API key it was given.
#[derive(Debug, Clone)]
pub struct EmbeddingClient {
    pub model: String,
    pub api_key: Option<String>,
}

impl EmbeddingClient {
    /// A client for `model`, with an optional API key.
    pub fn new(model: String, api_key: Option<String>) -> (r: Result<Self, RembedError>)
        ensures
            r is Ok,
            r->Ok_0.model == model,
            r->Ok_0.api_key == api_key,
    {
        Ok(EmbeddingClient { model, api_key })
    }

    /// The provider that the model identifier names.
    pub fn provider(&self) -> (r: String)
        ensures
            r@ == model_provider(self.model@),
    {
        match prefix_of(self.model.as_str()) {
            Some(p) => String::from_str(p),
            None => String::from_str("openai"),
        }
    }

    /// Where a key was given: the environment variable that the provider's
    /// library reads it from, and the key.
    pub fn key_assignment(&self) -> (r: Option<(String, String)>)
        ensures
            match r {
                Some((var, key)) => self.api_key is Some && key@ == self.api_key->Some_0@
                    && var@ == key_variable_of(model_provider(self.model@)),
                None => self.api_key is None,
            },
    {
        match &self.api_key {
            None => None,
            Some(key) => {
                let provider = self.provider();
                let p = provider.as_str();
                let var = if str_eq(p, "openai") {
                    String::from_str("OPENAI_API_KEY")
                } else if str_eq(p, "gemini") || str_eq(p, "google") {
                    String::from_str("GEMINI_API_KEY")
                } else if str_eq(p, "cohere") {
                    String::from_str("CO_API_KEY")
                } else if str_eq(p, "anthropic") {
                    String::from_str("ANTHROPIC_API_KEY")
                } else if str_eq(p, "groq") {
                    String::from_str("GROQ_API_KEY")
                } else if str_eq(p, "deepseek") {
                    String::from_str("DEEPSEEK_API_KEY")
                } else if str_eq(p, "xai") {
                    String::from_str("XAI_API_KEY")
                } else if str_eq(p, "mistral") {
                    String::from_str("MISTRAL_API_KEY")
                } else {
                    let up = uppercase(p);
                    join2(up.as_str(), "_API_KEY")
                };
                Some((var, key.clone()))
            },
        }
    }
}

/// What a provider is said to offer. Advisory only: image embedding always
/// goes through a description by the vision model.
#[derive(Debug, Clone)]
pub struct ProviderCapabilities {
    pub supports_image_embeddings: bool,
    pub supports_multimodal_batch: bool,
    pub max_batch_size: usize,
    pub supported_formats: Vec<String>,
}

/// The limits of concurrent image processing.
#[derive(Debug, Clone)]
pub struct PerformanceConfig {
    pub max_concurrent_requests: usize,
    pub request_timeout_secs: u64,
    pub batch_size: usize,
    pub enable_progress_reporting: bool,
}

impl PerformanceConfig {
    /// Whether this is the default configuration: four requests at a time,
    /// thirty seconds each, batches of ten, no progress reports.
    pub open spec fn is_default(self) -> bool {
        &&& self.max_concurrent_requests == 4
        &&& self.request_timeout_secs == 30
        &&& self.batch_size == 10
        &&& !self.enable_progress_reporting
    }
}

impl Default for PerformanceConfig {
    fn default() -> (r: Self)
        ensures
            r.is_default(),
    {
        PerformanceConfig {
            max_concurrent_requests: 4,
            request_timeout_secs: 30,
            batch_size: 10,
            enable_progress_reporting: false,
        }
    }
}

/// The provider of a model identifier for capability lookup: the part before
/// its first `::`, or all of it.
pub open spec fn capability_provider(model: Seq<char>) -> Seq<char> {
    match model_prefix(model) {
        Some(p) => p,
        None => model,
    }
}

/// The capabilities recorded for a provider: image support, multimodal batch
/// support, largest batch, and the image formats as text.
pub open spec fn capabilities_of(provider: Seq<char>) -> (bool, bool, usize, Seq<Seq<char>>) {
    if provider == "openai"@ {
        (false, false, 100, seq!["jpeg"@, "png"@])
    } else if provider == "ollama"@ {
        (false, false, 50, seq!["jpeg"@, "png"@])
    } else if provider == "voyage"@ {
        (true, true, 20, seq!["jpeg"@, "png"@, "webp"@])
    } else if provider == "jina"@ {
        (true, true, 16, seq!["jpeg"@, "png"@])
    } else {
        (false, false, 10, seq!["jpeg"@])
    }
}

impl ProviderCapabilities {
    /// Whether these are the capabilities recorded for `provider`.
    pub open spec fn describes(self, provider: Seq<char>) -> bool {
        let (img, batch, max, formats) = capabilities_of(provider);
        &&& self.supports_image_embeddings == img
        &&& self.supports_multimodal_batch == batch
        &&& self.max_batch_size == max
        &&& self.supported_formats@.len() == formats.len()
        &&& forall|i: int|
            0 <= i < formats.len() ==> #[trigger] self.supported_formats@[i]@ == formats[i]
    }
}

fn formats(names: &[&str]) -> (r: Vec<String>)
    ensures
        r@.len() == names@.len(),
        forall|i: int| 0 <= i < names@.len() ==> #[trigger] r@[i]@ == names@[i]@,
{
    let mut out: Vec<String> = Vec::new();
    let mut i: usize = 0;
    while i < names.len()
        invariant
            i <= names@.len(),
            out@.len() == i,
            forall|j: int| 0 <= j < i ==> #[trigger] out@[j]@ == names@[j]@,
        decreases names@.len() - i,
    {
        out.push(String::from_str(names[i]));
        i = i + 1;
    }
    out
}

/// A client that embeds an image by having a vision model describe it and
/// embedding the description.
#[derive(Debug, Clone)]
pub struct MultimodalClient {
    pub vision_model: String,
    pub embedding_model: String,
    pub capabilities: ProviderCapabilities,
    pub performance_config: PerformanceConfig,
}

impl MultimodalClient {
    /// A client with the default performance configuration.
    pub fn new(vision_model: String, embedding_model: String) -> (r: Result<Self, RembedError>)
        ensures
            r is Ok,
            r->Ok_0.vision_model == vision_model,
            r->Ok_0.embedding_model == embedding_model,
            r->Ok_0.capabilities.describes(capability_provider(embedding_model@)),
            r->Ok_0.performance_config.is_default(),
    {
        Self::with_config(vision_model, embedding_model, PerformanceConfig::default())
    }

    /// A client with the given performance configuration.
    pub fn with_config(
        vision_model: String,
        embedding_model: String,
        performance_config: PerformanceConfig,
    ) -> (r: Result<Self, RembedError>)
        ensures
            r is Ok,
            r->Ok_0.vision_model == vision_model,
            r->Ok_0.embedding_model == embedding_model,
            r->Ok_0.capabilities.describes(capability_provider(embedding_model@)),
            r->Ok_0.performance_config == performance_config,
    {
        let capabilities = Self::detect_capabilities(embedding_model.as_str());
        Ok(MultimodalClient { vision_model, embedding_model, capabilities, performance_config })
    }

    /// The capabilities recorded for the provider of `model`.
    pub fn detect_capabilities(model: &str) -> (r: ProviderCapabilities)
        ensures
            r.describes(capability_provider(model@)),
    {
        let provider = match prefix_of(model) {
            Some(p) => p,
            None => model,
        };
        if str_eq(provider, "openai") {
            ProviderCapabilities {
                supports_image_embeddings: false,
                supports_multimodal_batch: false,
                max_batch_size: 100,
                supported_formats: formats(&["jpeg", "png"]),
            }
        } else if str_eq(provider, "ollama") {
            ProviderCapabilities {
                supports_image_embeddings: false,
                supports_multimodal_batch: false,
                max_batch_size: 50,
                supported_formats: formats(&["jpeg", "png"]),
            }
        } else if str_eq(provider, "voyage") {
            ProviderCapabilities {
                supports_image_embeddings: true,
                supports_multimodal_batch: true,
                max_batch_size: 20,
                supported_formats: formats(&["jpeg", "png", "webp"]),
            }
        } else if str_eq(provider, "jina") {
            ProviderCapabilities {
                supports_image_embeddings: true,
                supports_multimodal_batch: true,
                max_batch_size: 16,
                supported_formats: formats(&["jpeg", "png"]),
            }
        } else {
            ProviderCapabilities {
                supports_image_embeddings: false,
                supports_multimodal_batch: false,
                max_batch_size: 10,
                supported_formats: formats(&["jpeg"]),
            }
        }
    }
}

/// A pair of models for a multimodal client.
pub struct MultimodalConfig {
    pub vision_model: String,
    pub embedding_model: String,
}

impl MultimodalConfig {
    /// LLaVA for vision and nomic for embeddings, both served by Ollama.
    pub fn ollama() -> (r: Self)
        ensures
            r.vision_model@ == "ollama::llava:7b"@,
            r.embedding_model@ == "ollama::nomic-embed-text"@,
    {
        MultimodalConfig {
            vision_model: String::from_str("ollama::llava:7b"),
            embedding_model: String::from_str("ollama::nomic-embed-text"),
        }
    }

    /// GPT-4 vision and OpenAI's small embedding model.
    pub fn openai() -> (r: Self)
        ensures
            r.vision_model@ == "openai::gpt-4-vision-preview"@,
            r.embedding_model@ == "openai::text-embedding-3-small"@,
    {
        MultimodalConfig {
            vision_model: String::from_str("openai::gpt-4-vision-preview"),
            embedding_model: String::from_str("openai::text-embedding-3-small"),
        }
    }

    /// Any vision model with any embedding model.
    pub fn mixed(vision: &str, embedding: &str) -> (r: Self)
        ensures
            r.vision_model@ == vision@,
            r.embedding_model@ == embedding@,
    {
        MultimodalConfig {
            vision_model: String::from_str(vision),
            embedding_model: String::from_str(embedding),
        }
    }
}

/// A client built from options and not yet registered: the payload that a
/// registration adopts.
#[derive(Debug, Clone)]
pub enum ClientHandle {
    Embedding(EmbeddingClient),
    Multimodal(MultimodalClient),
    /// A deterministic adapter that calls no service, for tests.
    Mock(MockAdapter),
}

/// The value of the last of the first `n` key/value pairs whose key is `key`.
pub open spec fn value_in_pairs(args: Seq<String>, key: Seq<char>, n: nat) -> Option<Seq<char>>
    decreases n,
{
    if n == 0 {
        None
    } else if args[2 * n - 2]@ == key {
        Some(args[2 * n - 1]@)
    } else {
        value_in_pairs(args, key, (n - 1) as nat)
    }
}

/// The value given last for `key` among key/value pairs.
pub open spec fn option_value(args: Seq<String>, key: Seq<char>) -> Option<Seq<char>> {
    value_in_pairs(args, key, args.len() / 2)
}

/// The model that the options name: `model` as the legacy `format` maps it
/// where a format is given, `model` as it stands otherwise.
pub open spec fn options_model(args: Seq<String>) -> Option<Seq<char>> {
    match option_value(args, "format"@) {
        Some(f) => match option_value(args, "model"@) {
            Some(m) => Some(legacy_model(f, m)),
            None => None,
        },
        None => option_value(args, "model"@),
    }
}

/// The API key that the options give: under `key`, else under `api_key`.
pub open spec fn options_key(args: Seq<String>) -> Option<Seq<char>> {
    match option_value(args, "key"@) {
        Some(k) => Some(k),
        None => option_value(args, "api_key"@),
    }
}

/// The position of the value given last for `key` among key/value pairs.
fn last_value(args: &Vec<String>, key: &str) -> (r: Option<usize>)
    requires
        args@.len() % 2 == 0,
    ensures
        match r {
            Some(i) => i < args@.len() && option_value(args@, key@) == Some(args@[i as int]@),
            None => option_value(args@, key@) is None,
        },
{
    let len = args.len();
    let pairs = len / 2;
    let mut found: Option<usize> = None;
    let mut k: usize = 0;
    while k < pairs
        invariant
            len == args@.len(),
            pairs == len / 2,
            args@.len() % 2 == 0,
            k <= pairs,
            match found {
                Some(i) => i < args@.len() && value_in_pairs(args@, key@, k as nat) == Some(
                    args@[i as int]@,
                ),
                None => value_in_pairs(args@, key@, k as nat) is None,
            },
        decreases pairs - k,
    {
        assert(2 * k + 1 < args@.len()) by (nonlinear_arith)
            requires
                k < pairs,
                pairs == len / 2,
                len == args@.len(),
        ;
        let at = k + k;
        if str_eq(args[at].as_str(), key) {
            found = Some(at + 1);
        }
        k = k + 1;
    }
    found
}

fn text_at(args: &Vec<String>, i: Option<usize>) -> (r: Option<String>)
    requires
        match i {
            Some(i) => i < args@.len(),
            None => true,
        },
    ensures
        match i {
            Some(i) => r is Some && r->Some_0@ == args@[i as int]@,
            None => r is None,
        },
{
    match i {
        Some(i) => Some(args[i].clone()),
        None => None,
    }
}

/// Builds a client from key/value options (`model`, `format`, `key` or
/// `api_key`, `embedding_model`) without registering it. An
/// `embedding_model` option makes it a multimodal client whose vision model
/// is the named model. Where a key is given twice, the last value counts.
pub fn rembed_client_options(args: &Vec<String>) -> (r: Result<ClientHandle, RembedError>)
    ensures
        args@.len() % 2 == 1 ==> r is Err && r->Err_0 is MalformedInput,
        args@.len() % 2 == 0 ==> match (options_model(args@), option_value(args@, "embedding_model"@)) {
            (None, _) => r is Err && r->Err_0 is Configuration,
            (Some(m), None) => r is Ok && match r->Ok_0 {
                ClientHandle::Embedding(c) => c.model@ == m && opt_text(c.api_key) == options_key(args@),
                _ => false,
            },
            (Some(m), Some(e)) => r is Ok && match r->Ok_0 {
                ClientHandle::Multimodal(c) => c.vision_model@ == m && c.embedding_model@ == e
                    && c.capabilities.describes(capability_provider(e))
                    && c.performance_config.is_default(),
                _ => false,
            },
        },
{
    if args.len() % 2 != 0 {
        return Err(
            RembedError::MalformedInput(
                String::from_str(
                    "Must have an even number of arguments to rembed_client_options, as key/value pairs.",
                ),
            ),
        );
    }
    let format = text_at(args, last_value(args, "format"));
    let model = text_at(args, last_value(args, "model"));
    let embedding_model = text_at(args, last_value(args, "embedding_model"));
    let multimodal = embedding_model.is_some();
    let resolved = match (format, model) {
        (Some(f), Some(m)) => legacy_provider_to_model(f.as_str(), m.as_str()),
        (None, Some(m)) => m,
        (Some(_), None) => {
            let msg = if multimodal {
                "'model' option is required for vision model"
            } else {
                "'model' option is required"
            };
            return Err(RembedError::Configuration(String::from_str(msg)));
        },
        (None, None) => {
            let msg = if multimodal {
                "'model' or 'format' key is required for vision model"
            } else {
                "'model' or 'format' key is required"
            };
            return Err(RembedError::Configuration(String::from_str(msg)));
        },
    };
    match embedding_model {
        Some(e) => {
            let c = MultimodalClient::new(resolved, e)?;
            Ok(ClientHandle::Multimodal(c))
        },
        None => {
            let key = match text_at(args, last_value(args, "key")) {
                Some(k) => Some(k),
                None => text_at(args, last_value(args, "api_key")),
            };
            let c = EmbeddingClient::new(resolved, key)?;
            Ok(ClientHandle::Embedding(c))
        },
    }
}

} // verus!
