use vstd::prelude::*;
use crate::error::RembedError;
use crate::json::{json_text, Json};
use crate::text::{contains_char, contains_sub, find_char, first_index, has_char, has_sub, join3, str_eq};

verus! {

/// A model identifier that names its provider: `provider::model`.
pub open spec fn qualified(provider: Seq<char>, model: Seq<char>) -> Seq<char> {
    provider + "::"@ + model
}

/// The provider prefix that a legacy provider name stands for.
pub open spec fn legacy_prefix(provider: Seq<char>) -> Option<Seq<char>> {
    if provider == "openai"@ || provider == "nomic"@ || provider == "jina"@ || provider
        == "mixedbread"@ {
        Some("openai"@)
    } else if provider == "cohere"@ {
        Some("cohere"@)
    } else if provider == "ollama"@ || provider == "llamafile"@ {
        Some("ollama"@)
    } else {
        None
    }
}

/// The model identifier that a legacy provider name and a model name stand for.
pub open spec fn legacy_model(provider: Seq<char>, model_name: Seq<char>) -> Seq<char> {
    match legacy_prefix(provider) {
        Some(p) => qualified(p, model_name),
        None => model_name,
    }
}

/// Maps a legacy provider name and a model name to a model identifier.
pub fn legacy_provider_to_model(provider: &str, model_name: &str) -> (r: String)
    ensures
        r@ == legacy_model(provider@, model_name@),
{
    if str_eq(provider, "openai") || str_eq(provider, "nomic") || str_eq(provider, "jina")
        || str_eq(provider, "mixedbread") {
        join3("openai", "::", model_name)
    } else if str_eq(provider, "cohere") {
        join3("cohere", "::", model_name)
    } else if str_eq(provider, "ollama") || str_eq(provider, "llamafile") {
        join3("ollama", "::", model_name)
    } else {
        String::from_str(model_name)
    }
}

/// Whether the provider name is one that prefixes a model name as it stands.
pub open spec fn is_genai_provider(provider: Seq<char>) -> bool {
    provider == "openai"@ || provider == "gemini"@ || provider == "cohere"@ || provider
        == "ollama"@
}

/// The environment variable that holds a provider's API key, where known.
pub open spec fn genai_key_variable(provider: Seq<char>) -> Option<Seq<char>> {
    if provider == "openai"@ {
        Some("OPENAI_API_KEY"@)
    } else if provider == "gemini"@ {
        Some("GEMINI_API_KEY"@)
    } else if provider == "cohere"@ {
        Some("CO_API_KEY"@)
    } else {
        None
    }
}

/// A model identifier and, where a key was given for a provider that has a
/// known variable, the variable to set and its value.
pub struct GenaiSetup {
    pub model: String,
    pub key_assignment: Option<(String, String)>,
}

/// Forms the model identifier for a provider and a model, and says where the
/// API key, if any, is to be placed.
pub fn configure_genai_client(provider: &str, model: &str, api_key: Option<String>) -> (r: Result<
    GenaiSetup,
    RembedError,
>)
    ensures
        r is Ok,
        r->Ok_0.model@ == (if is_genai_provider(provider@) {
            qualified(provider@, model@)
        } else {
            model@
        }),
        match r->Ok_0.key_assignment {
            Some((var, key)) => api_key is Some && genai_key_variable(provider@) == Some(var@)
                && key@ == api_key->Some_0@,
            None => api_key is None || genai_key_variable(provider@) is None,
        },
{
    let full = if str_eq(provider, "openai") || str_eq(provider, "gemini") || str_eq(
        provider,
        "cohere",
    ) || str_eq(provider, "ollama") {
        join3(provider, "::", model)
    } else {
        String::from_str(model)
    };
    let var: Option<&str> = if str_eq(provider, "openai") {
        Some("OPENAI_API_KEY")
    } else if str_eq(provider, "gemini") {
        Some("GEMINI_API_KEY")
    } else if str_eq(provider, "cohere") {
        Some("CO_API_KEY")
    } else {
        None
    };
    let key_assignment = match (var, api_key) {
        (Some(v), Some(k)) => Some((String::from_str(v), k)),
        _ => None,
    };
    Ok(GenaiSetup { model: full, key_assignment })
}

/// A model identifier and an optional API key, read from a registration.
pub struct ClientConfig {
    pub model: String,
    pub api_key: Option<String>,
}

/// The text of an optional string.
pub open spec fn opt_text(o: Option<String>) -> Option<Seq<char>> {
    match o {
        Some(s) => Some(s@),
        None => None,
    }
}

/// The configuration read from a JSON object: the model under `model`, else
/// under `provider`, else the client's name; the key under `key`, else under
/// `api_key`. A member that is present but not a string counts as absent and
/// stops the search.
pub open spec fn json_config(name: Seq<char>, j: Json) -> (Seq<char>, Option<Seq<char>>) {
    let m = match j.member("model"@) {
        Some(x) => Some(x),
        None => j.member("provider"@),
    };
    let k = match j.member("key"@) {
        Some(x) => Some(x),
        None => j.member("api_key"@),
    };
    (
        match m {
            Some(x) => match x.text() {
                Some(t) => t,
                None => name,
            },
            None => name,
        },
        match k {
            Some(x) => x.text(),
            None => None,
        },
    )
}

/// Whether the text names a provider that takes the client's name as model.
pub open spec fn is_legacy_format(options: Seq<char>) -> bool {
    options == "openai"@ || options == "gemini"@ || options == "cohere"@ || options
        == "anthropic"@ || options == "ollama"@ || options == "groq"@
}

/// The configuration read from plain text: `provider:key`, a bare provider
/// name, or a model identifier as it stands.
pub open spec fn text_config(name: Seq<char>, options: Seq<char>) -> (Seq<char>, Option<Seq<char>>) {
    if has_char(options, ':') && !has_sub(options, "::"@) {
        let p = first_index(options, ':');
        (qualified(options.subrange(0, p), name), Some(options.subrange(p + 1, options.len() as int)))
    } else if is_legacy_format(options) {
        (qualified(options, name), None)
    } else {
        (options, None)
    }
}

/// The configuration that a registration's options give: a JSON object where
/// the text has braces and reads as JSON, plain text otherwise.
pub open spec fn client_config(name: Seq<char>, options: Seq<char>) -> (Seq<char>, Option<Seq<char>>) {
    if has_char(options, '{') && has_char(options, '}') && json_text(options) is Some {
        json_config(name, json_text(options)->Some_0)
    } else {
        text_config(name, options)
    }
}

fn member_text(j: &Json, first: &str, second: &str) -> (r: Option<String>)
    ensures
        opt_text(r) == match (match j.member(first@) {
            Some(x) => Some(x),
            None => j.member(second@),
        }) {
            Some(x) => x.text(),
            None => None,
        },
{
    let m = match j.get_member(first) {
        Some(x) => Some(x),
        None => j.get_member(second),
    };
    match m {
        Some(x) => match x.as_str() {
            Some(t) => Some(String::from_str(t)),
            None => None,
        },
        None => None,
    }
}

/// Reads the model and the API key from a JSON object of options.
pub fn config_from_json(name: &str, j: &Json) -> (r: ClientConfig)
    ensures
        (r.model@, opt_text(r.api_key)) == json_config(name@, *j),
{
    let model = match member_text(j, "model", "provider") {
        Some(m) => m,
        None => String::from_str(name),
    };
    let api_key = member_text(j, "key", "api_key");
    ClientConfig { model, api_key }
}

/// Reads the model and the API key from a registration's options.
pub fn parse_client_options(name: &str, options: &str) -> (r: Result<ClientConfig, RembedError>)
    ensures
        r is Ok,
        (r->Ok_0.model@, opt_text(r->Ok_0.api_key)) == client_config(name@, options@),
{
    if contains_char(options, '{') && contains_char(options, '}') {
        if let Ok(j) = Json::parse(options) {
            return Ok(config_from_json(name, &j));
        }
    }
    if !contains_sub(options, "::") {
        if let Some(p) = find_char(options, ':') {
            let n = options.unicode_len();
            let provider = options.substring_char(0, p);
            let key = options.substring_char(p + 1, n);
            return Ok(
                ClientConfig {
                    model: join3(provider, "::", name),
                    api_key: Some(String::from_str(key)),
                },
            );
        }
    }
    let model = if str_eq(options, "openai") || str_eq(options, "gemini") || str_eq(
        options,
        "cohere",
    ) || str_eq(options, "anthropic") || str_eq(options, "ollama") || str_eq(options, "groq") {
        join3(options, "::", name)
    } else {
        String::from_str(options)
    };
    Ok(ClientConfig { model, api_key: None })
}

} // verus!
