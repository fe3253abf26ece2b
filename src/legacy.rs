use vstd::prelude::*;
use crate::error::RembedError;
use crate::json::Json;
use crate::response::{data_embedding, gives, keyed_embedding, parse_openai_style_response, parse_simple_embedding_response};
use crate::text::join2;

verus! {

pub const DEFAULT_OPENAI_URL: &'static str = "https://api.openai.com/v1/embeddings";
pub const DEFAULT_OPENAI_API_KEY_ENV: &'static str = "OPENAI_API_KEY";
pub const DEFAULT_NOMIC_URL: &'static str = "https://api-atlas.nomic.ai/v1/embedding/text";
pub const DEFAULT_NOMIC_API_KEY_ENV: &'static str = "NOMIC_API_KEY";
pub const DEFAULT_COHERE_URL: &'static str = "https://api.cohere.com/v1/embed";
pub const DEFAULT_COHERE_API_KEY_ENV: &'static str = "CO_API_KEY";
pub const DEFAULT_JINA_URL: &'static str = "https://api.jina.ai/v1/embeddings";
pub const DEFAULT_JINA_API_KEY_ENV: &'static str = "JINA_API_KEY";
pub const DEFAULT_MIXEDBREAD_URL: &'static str = "https://api.mixedbread.ai/v1/embeddings/";
pub const DEFAULT_MIXEDBREAD_API_KEY_ENV: &'static str = "MIXEDBREAD_API_KEY";
pub const DEFAULT_OLLAMA_URL: &'static str = "http://localhost:11434/api/embeddings";
pub const DEFAULT_LLAMAFILE_URL: &'static str = "http://localhost:8080/embedding";

/// The message for a key that is neither given nor found in `variable`.
pub open spec fn missing_key_message(variable: Seq<char>) -> Seq<char> {
    variable
        + " environment variable not defined. Alternatively, pass in an API key with rembed_client_options"@
}

/// The API key to use: the one given, else the value read from the
/// provider's environment variable `variable`, else an error naming it.
pub fn resolve_key(key: Option<String>, variable: &str, env_value: Option<String>) -> (r: Result<
    String,
    RembedError,
>)
    ensures
        key is Some ==> r == Ok::<String, RembedError>(key->Some_0),
        key is None && env_value is Some ==> r == Ok::<String, RembedError>(env_value->Some_0),
        key is None && env_value is None ==> r is Err && match r->Err_0 {
            RembedError::Configuration(m) => m@ == missing_key_message(variable@),
            _ => false,
        },
{
    match key {
        Some(k) => Ok(k),
        None => match env_value {
            Some(v) => Ok(v),
            None => Err(
                RembedError::Configuration(
                    join2(
                        variable,
                        " environment variable not defined. Alternatively, pass in an API key with rembed_client_options",
                    ),
                ),
            ),
        },
    }
}

fn url_or(url: Option<String>, default: &str) -> (r: String)
    ensures
        r@ == match url {
            Some(u) => u@,
            None => default@,
        },
{
    match url {
        Some(u) => u,
        None => String::from_str(default),
    }
}

fn text_member(key: &str, value: &str) -> (r: (String, Json))
    ensures
        r.0@ == key@,
        r.1.text() == Some(value@),
{
    (String::from_str(key), Json::Str(String::from_str(value)))
}

fn list_member(key: &str, value: &str) -> (r: (String, Json))
    ensures
        r.0@ == key@,
        r.1.element(0) is Some && r.1.element(0)->Some_0.text() == Some(value@),
        r.1.element(1) is None,
{
    let mut items: Vec<Json> = Vec::new();
    items.push(Json::Str(String::from_str(value)));
    (String::from_str(key), Json::Array(items))
}

/// The `Authorization` header for a bearer key.
pub fn bearer(key: &str) -> (r: String)
    ensures
        r@ == "Bearer "@ + key@,
{
    join2("Bearer ", key)
}

/// Whether `body` is an object with exactly the members named, in order,
/// with the given text values, and where `list` is set, each value is an
/// array holding that text alone.
pub open spec fn text_object(body: Json, members: Seq<(Seq<char>, Seq<char>, bool)>) -> bool {
    match body {
        Json::Object(ms) => ms@.len() == members.len() && forall|i: int|
            0 <= i < members.len() ==> (#[trigger] ms@[i]).0@ == members[i].0 && if members[i].2 {
                ms@[i].1.element(0) is Some && ms@[i].1.element(0)->Some_0.text() == Some(
                    members[i].1,
                ) && ms@[i].1.element(1) is None
            } else {
                ms@[i].1.text() == Some(members[i].1)
            },
        _ => false,
    }
}

/// An adapter for OpenAI's embeddings endpoint.
#[derive(Clone)]
pub struct OpenAiClient {
    pub model: String,
    pub url: String,
    pub key: String,
}

impl OpenAiClient {
    /// A client for `model` at `url` (OpenAI's endpoint by default) with the
    /// given key, else the one read from `OPENAI_API_KEY`.
    pub fn new(model: String, url: Option<String>, key: Option<String>, env_key: Option<String>) -> (r:
        Result<Self, RembedError>)
        ensures
            key is None && env_key is None ==> r is Err && r->Err_0 is Configuration,
            key is Some || env_key is Some ==> r is Ok && r->Ok_0.model == model && r->Ok_0.url@ == (
            match url {
                Some(u) => u@,
                None => DEFAULT_OPENAI_URL@,
            }) && r->Ok_0.key == (if key is Some {
                key->Some_0
            } else {
                env_key->Some_0
            }),
    {
        let key = resolve_key(key, DEFAULT_OPENAI_API_KEY_ENV, env_key)?;
        Ok(OpenAiClient { model, url: url_or(url, DEFAULT_OPENAI_URL), key })
    }

    /// The request body for one text: `{"input": text, "model": model}`.
    pub fn request_body(&self, input: &str) -> (r: Json)
        ensures
            text_object(r, seq![("input"@, input@, false), ("model"@, self.model@, false)]),
    {
        let mut ms: Vec<(String, Json)> = Vec::new();
        ms.push(text_member("input", input));
        ms.push(text_member("model", self.model.as_str()));
        Json::Object(ms)
    }

    /// Reads the vector from a response body.
    pub fn parse_single_response(value: &Json) -> (r: Result<Vec<serde_json::Number>, RembedError>)
        ensures
            gives(r, data_embedding(*value)),
    {
        parse_openai_style_response(value)
    }
}

/// An adapter for Nomic's text embedding endpoint.
#[derive(Clone)]
pub struct NomicClient {
    pub model: String,
    pub url: String,
    pub key: String,
}

impl NomicClient {
    /// A client for `model` at `url` (Nomic's endpoint by default) with the
    /// given key, else the one read from `NOMIC_API_KEY`.
    pub fn new(model: String, url: Option<String>, key: Option<String>, env_key: Option<String>) -> (r:
        Result<Self, RembedError>)
        ensures
            key is None && env_key is None ==> r is Err && r->Err_0 is Configuration,
            key is Some || env_key is Some ==> r is Ok && r->Ok_0.model == model && r->Ok_0.url@ == (
            match url {
                Some(u) => u@,
                None => DEFAULT_NOMIC_URL@,
            }) && r->Ok_0.key == (if key is Some {
                key->Some_0
            } else {
                env_key->Some_0
            }),
    {
        let key = resolve_key(key, DEFAULT_NOMIC_API_KEY_ENV, env_key)?;
        Ok(NomicClient { model, url: url_or(url, DEFAULT_NOMIC_URL), key })
    }

    /// The request body for one text: `{"texts": [text], "model": model}`,
    /// with `"input_type"` where one is given.
    pub fn request_body(&self, input: &str, input_type: Option<&str>) -> (r: Json)
        ensures
            input_type is None ==> text_object(
                r,
                seq![("texts"@, input@, true), ("model"@, self.model@, false)],
            ),
            input_type is Some ==> text_object(
                r,
                seq![("texts"@, input@, true), ("model"@, self.model@, false), ("input_type"@, input_type->Some_0@, false)],
            ),
    {
        texts_body(input, self.model.as_str(), input_type)
    }

    /// Reads the vector from a response body: `embeddings.0`.
    pub fn parse_single_response(value: &Json) -> (r: Result<Vec<serde_json::Number>, RembedError>)
        ensures
            gives(r, keyed_embedding(*value, "embeddings"@)),
    {
        parse_simple_embedding_response(value, "embeddings")
    }
}

fn texts_body(input: &str, model: &str, input_type: Option<&str>) -> (r: Json)
    ensures
        input_type is None ==> text_object(
            r,
            seq![("texts"@, input@, true), ("model"@, model@, false)],
        ),
        input_type is Some ==> text_object(
            r,
            seq![("texts"@, input@, true), ("model"@, model@, false), ("input_type"@, input_type->Some_0@, false)],
        ),
{
    let mut ms: Vec<(String, Json)> = Vec::new();
    ms.push(list_member("texts", input));
    ms.push(text_member("model", model));
    if let Some(t) = input_type {
        ms.push(text_member("input_type", t));
    }
    Json::Object(ms)
}

fn input_list_body(input: &str, model: &str) -> (r: Json)
    ensures
        text_object(r, seq![("input"@, input@, true), ("model"@, model@, false)]),
{
    let mut ms: Vec<(String, Json)> = Vec::new();
    ms.push(list_member("input", input));
    ms.push(text_member("model", model));
    Json::Object(ms)
}

/// An adapter for Cohere's embed endpoint.
#[derive(Clone)]
pub struct CohereClient {
    pub url: String,
    pub model: String,
    pub key: String,
}

impl CohereClient {
    /// A client for `model` at `url` (Cohere's endpoint by default) with the
    /// given key, else the one read from `CO_API_KEY`.
    pub fn new(model: String, url: Option<String>, key: Option<String>, env_key: Option<String>) -> (r:
        Result<Self, RembedError>)
        ensures
            key is None && env_key is None ==> r is Err && r->Err_0 is Configuration,
            key is Some || env_key is Some ==> r is Ok && r->Ok_0.model == model && r->Ok_0.url@ == (
            match url {
                Some(u) => u@,
                None => DEFAULT_COHERE_URL@,
            }) && r->Ok_0.key == (if key is Some {
                key->Some_0
            } else {
                env_key->Some_0
            }),
    {
        let key = resolve_key(key, DEFAULT_COHERE_API_KEY_ENV, env_key)?;
        Ok(CohereClient { model, url: url_or(url, DEFAULT_COHERE_URL), key })
    }

    /// The request body for one text: `{"texts": [text], "model": model}`,
    /// with `"input_type"` where one is given.
    pub fn request_body(&self, input: &str, input_type: Option<&str>) -> (r: Json)
        ensures
            input_type is None ==> text_object(
                r,
                seq![("texts"@, input@, true), ("model"@, self.model@, false)],
            ),
            input_type is Some ==> text_object(
                r,
                seq![("texts"@, input@, true), ("model"@, self.model@, false), ("input_type"@, input_type->Some_0@, false)],
            ),
    {
        texts_body(input, self.model.as_str(), input_type)
    }

    /// Reads the vector from a response body: `embeddings.0`.
    pub fn parse_single_response(value: &Json) -> (r: Result<Vec<serde_json::Number>, RembedError>)
        ensures
            gives(r, keyed_embedding(*value, "embeddings"@)),
    {
        parse_simple_embedding_response(value, "embeddings")
    }
}

/// An adapter for Jina's embeddings endpoint.
#[derive(Clone)]
pub struct JinaClient {
    pub url: String,
    pub model: String,
    pub key: String,
}

impl JinaClient {
    /// A client for `model` at `url` (Jina's endpoint by default) with the
    /// given key, else the one read from `JINA_API_KEY`.
    pub fn new(model: String, url: Option<String>, key: Option<String>, env_key: Option<String>) -> (r:
        Result<Self, RembedError>)
        ensures
            key is None && env_key is None ==> r is Err && r->Err_0 is Configuration,
            key is Some || env_key is Some ==> r is Ok && r->Ok_0.model == model && r->Ok_0.url@ == (
            match url {
                Some(u) => u@,
                None => DEFAULT_JINA_URL@,
            }) && r->Ok_0.key == (if key is Some {
                key->Some_0
            } else {
                env_key->Some_0
            }),
    {
        let key = resolve_key(key, DEFAULT_JINA_API_KEY_ENV, env_key)?;
        Ok(JinaClient { model, url: url_or(url, DEFAULT_JINA_URL), key })
    }

    /// The request body for one text: `{"input": [text], "model": model}`.
    pub fn request_body(&self, input: &str) -> (r: Json)
        ensures
            text_object(r, seq![("input"@, input@, true), ("model"@, self.model@, false)]),
    {
        input_list_body(input, self.model.as_str())
    }

    /// Reads the vector from a response body: `data.0.embedding`.
    pub fn parse_single_response(value: &Json) -> (r: Result<Vec<serde_json::Number>, RembedError>)
        ensures
            gives(r, data_embedding(*value)),
    {
        parse_openai_style_response(value)
    }
}

/// An adapter for Mixedbread's embeddings endpoint.
#[derive(Clone)]
pub struct MixedbreadClient {
    pub url: String,
    pub model: String,
    pub key: String,
}

impl MixedbreadClient {
    /// A client for `model` at `url` (Mixedbread's endpoint by default) with
    /// the given key, else the one read from `MIXEDBREAD_API_KEY`.
    pub fn new(model: String, url: Option<String>, key: Option<String>, env_key: Option<String>) -> (r:
        Result<Self, RembedError>)
        ensures
            key is None && env_key is None ==> r is Err && r->Err_0 is Configuration,
            key is Some || env_key is Some ==> r is Ok && r->Ok_0.model == model && r->Ok_0.url@ == (
            match url {
                Some(u) => u@,
                None => DEFAULT_MIXEDBREAD_URL@,
            }) && r->Ok_0.key == (if key is Some {
                key->Some_0
            } else {
                env_key->Some_0
            }),
    {
        let key = resolve_key(key, DEFAULT_MIXEDBREAD_API_KEY_ENV, env_key)?;
        Ok(MixedbreadClient { model, url: url_or(url, DEFAULT_MIXEDBREAD_URL), key })
    }

    /// The request body for one text: `{"input": [text], "model": model}`.
    pub fn request_body(&self, input: &str) -> (r: Json)
        ensures
            text_object(r, seq![("input"@, input@, true), ("model"@, self.model@, false)]),
    {
        input_list_body(input, self.model.as_str())
    }

    /// Reads the vector from a response body: `data.0.embedding`.
    pub fn parse_single_response(value: &Json) -> (r: Result<Vec<serde_json::Number>, RembedError>)
        ensures
            gives(r, data_embedding(*value)),
    {
        parse_openai_style_response(value)
    }
}

/// An adapter for a local Ollama server.
#[derive(Clone)]
pub struct OllamaClient {
    pub url: String,
    pub model: String,
}

impl OllamaClient {
    /// A client for `model` at `url`, Ollama's local endpoint by default.
    pub fn new(model: String, url: Option<String>) -> (r: Self)
        ensures
            r.model == model,
            r.url@ == match url {
                Some(u) => u@,
                None => DEFAULT_OLLAMA_URL@,
            },
    {
        OllamaClient { model, url: url_or(url, DEFAULT_OLLAMA_URL) }
    }

    /// The request body for one text: `{"prompt": text, "model": model}`.
    pub fn request_body(&self, input: &str) -> (r: Json)
        ensures
            text_object(r, seq![("prompt"@, input@, false), ("model"@, self.model@, false)]),
    {
        let mut ms: Vec<(String, Json)> = Vec::new();
        ms.push(text_member("prompt", input));
        ms.push(text_member("model", self.model.as_str()));
        Json::Object(ms)
    }

    /// Reads the vector from a response body: `embedding`.
    pub fn parse_single_response(value: &Json) -> (r: Result<Vec<serde_json::Number>, RembedError>)
        ensures
            gives(r, keyed_embedding(*value, "embedding"@)),
    {
        parse_simple_embedding_response(value, "embedding")
    }
}

/// An adapter for a local llamafile server.
#[derive(Clone)]
pub struct LlamafileClient {
    pub url: String,
}

impl LlamafileClient {
    /// A client at `url`, llamafile's local endpoint by default.
    pub fn new(url: Option<String>) -> (r: Self)
        ensures
            r.url@ == match url {
                Some(u) => u@,
                None => DEFAULT_LLAMAFILE_URL@,
            },
    {
        LlamafileClient { url: url_or(url, DEFAULT_LLAMAFILE_URL) }
    }

    /// The request body for one text: `{"content": text}`.
    pub fn request_body(&self, input: &str) -> (r: Json)
        ensures
            text_object(r, seq![("content"@, input@, false)]),
    {
        let mut ms: Vec<(String, Json)> = Vec::new();
        ms.push(text_member("content", input));
        Json::Object(ms)
    }

    /// Reads the vector from a response body: `embedding`.
    pub fn parse_single_response(value: &Json) -> (r: Result<Vec<serde_json::Number>, RembedError>)
        ensures
            gives(r, keyed_embedding(*value, "embedding"@)),
    {
        parse_simple_embedding_response(value, "embedding")
    }
}

/// A provider adapter, one variant per response shape.
#[derive(Clone)]
pub enum Client {
    OpenAI(OpenAiClient),
    Nomic(NomicClient),
    Cohere(CohereClient),
    Ollama(OllamaClient),
    Llamafile(LlamafileClient),
    Jina(JinaClient),
    Mixedbread(MixedbreadClient),
}

} // verus!
