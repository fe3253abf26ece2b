use rembed::clients::{rembed_client_options, ClientHandle, EmbeddingClient, MultimodalClient};
use rembed::error::RembedError;
use rembed::json::Json;
use rembed::options::{config_from_json, configure_genai_client, legacy_provider_to_model, parse_client_options};

#[test]
fn test_legacy_provider_mapping() {
    assert_eq!(
        legacy_provider_to_model("openai", "text-embedding-3-small"),
        "openai::text-embedding-3-small"
    );
    assert_eq!(
        legacy_provider_to_model("ollama", "nomic-embed-text"),
        "ollama::nomic-embed-text"
    );
}

#[test]
fn legacy_provider_compatible_names() {
    assert_eq!(legacy_provider_to_model("jina", "m"), "openai::m");
    assert_eq!(legacy_provider_to_model("llamafile", "m"), "ollama::m");
    assert_eq!(legacy_provider_to_model("cohere", "m"), "cohere::m");
    assert_eq!(legacy_provider_to_model("unknown", "m"), "m");
}

#[test]
fn test_model_name_formatting() {
    let setup = configure_genai_client("openai", "text-embedding-3-small", None).unwrap();
    assert_eq!(setup.model, "openai::text-embedding-3-small");

    let setup = configure_genai_client("gemini", "text-embedding-004", None).unwrap();
    assert_eq!(setup.model, "gemini::text-embedding-004");
}

#[test]
fn genai_key_assignment_for_known_provider() {
    let setup = configure_genai_client("cohere", "embed", Some("k1".to_string())).unwrap();
    assert_eq!(setup.key_assignment, Some(("CO_API_KEY".to_string(), "k1".to_string())));
    let setup = configure_genai_client("custom", "embed", Some("k1".to_string())).unwrap();
    assert_eq!(setup.model, "embed");
    assert_eq!(setup.key_assignment, None);
}

#[test]
fn test_parse_client_options() {
    let config = parse_client_options("text-embedding-3-small", "openai").unwrap();
    assert_eq!(config.model, "openai::text-embedding-3-small");

    let config = parse_client_options("embedding-001", "gemini").unwrap();
    assert_eq!(config.model, "gemini::embedding-001");

    let config = parse_client_options("ignored", "openai::ada-002").unwrap();
    assert_eq!(config.model, "openai::ada-002");
}

#[test]
fn parse_client_options_provider_and_key() {
    let config = parse_client_options("small", "openai:sk-123").unwrap();
    assert_eq!(config.model, "openai::small");
    assert_eq!(config.api_key, Some("sk-123".to_string()));
}

#[test]
fn parse_client_options_json() {
    let config =
        parse_client_options("n", r#"{"model": "openai::text-embedding-3-small", "key": "abc"}"#)
            .unwrap();
    assert_eq!(config.model, "openai::text-embedding-3-small");
    assert_eq!(config.api_key, Some("abc".to_string()));

    let config = parse_client_options("fallback", r#"{"api_key": "xyz"}"#).unwrap();
    assert_eq!(config.model, "fallback");
    assert_eq!(config.api_key, Some("xyz".to_string()));

    let config = parse_client_options("n", r#"{"provider": "cohere::embed"}"#).unwrap();
    assert_eq!(config.model, "cohere::embed");
    assert_eq!(config.api_key, None);
}

#[test]
fn parse_client_options_bad_json_falls_back_to_text() {
    let config = parse_client_options("n", "{not json}").unwrap();
    assert_eq!(config.model, "{not json}");
    assert_eq!(config.api_key, None);
}

fn args(xs: &[&str]) -> Vec<String> {
    xs.iter().map(|s| s.to_string()).collect()
}

#[test]
fn client_options_odd_arguments() {
    let r = rembed_client_options(&args(&["model"]));
    assert!(matches!(r, Err(RembedError::MalformedInput(_))));
}

#[test]
fn client_options_embedding_with_format_and_key() {
    let r = rembed_client_options(&args(&["format", "jina", "model", "v2", "api_key", "k"]));
    match r {
        Ok(ClientHandle::Embedding(c)) => {
            assert_eq!(c.model, "openai::v2");
            assert_eq!(c.api_key, Some("k".to_string()));
        }
        _ => panic!("expected an embedding client"),
    }
}

#[test]
fn client_options_last_value_wins() {
    let r = rembed_client_options(&args(&["model", "a", "model", "b", "key", "k1", "api_key", "k2"]));
    match r {
        Ok(ClientHandle::Embedding(c)) => {
            assert_eq!(c.model, "b");
            assert_eq!(c.api_key, Some("k1".to_string()));
        }
        _ => panic!("expected an embedding client"),
    }
}

#[test]
fn client_options_multimodal() {
    let r = rembed_client_options(&args(&[
        "model",
        "ollama::llava:7b",
        "embedding_model",
        "jina::clip",
    ]));
    match r {
        Ok(ClientHandle::Multimodal(c)) => {
            assert_eq!(c.vision_model, "ollama::llava:7b");
            assert_eq!(c.embedding_model, "jina::clip");
            assert!(c.capabilities.supports_image_embeddings);
            assert_eq!(c.capabilities.max_batch_size, 16);
            assert_eq!(c.performance_config.max_concurrent_requests, 4);
        }
        _ => panic!("expected a multimodal client"),
    }
}

#[test]
fn client_options_missing_model() {
    let r = rembed_client_options(&args(&["key", "k"]));
    match r {
        Err(e) => assert_eq!(e.message(), "'model' or 'format' key is required"),
        Ok(_) => panic!("expected an error"),
    }
    let r = rembed_client_options(&args(&["format", "openai", "embedding_model", "e"]));
    match r {
        Err(e) => assert_eq!(e.message(), "'model' option is required for vision model"),
        Ok(_) => panic!("expected an error"),
    }
}

#[test]
fn embedding_client_key_variable() {
    let c = EmbeddingClient::new("gemini::text-embedding-004".to_string(), Some("g".to_string()))
        .unwrap();
    assert_eq!(c.provider(), "gemini");
    assert_eq!(c.key_assignment(), Some(("GEMINI_API_KEY".to_string(), "g".to_string())));
    let c = EmbeddingClient::new("text-embedding-3-small".to_string(), Some("o".to_string())).unwrap();
    assert_eq!(c.key_assignment(), Some(("OPENAI_API_KEY".to_string(), "o".to_string())));
    let c = EmbeddingClient::new("voyage::v3".to_string(), Some("v".to_string())).unwrap();
    assert_eq!(c.key_assignment(), Some(("VOYAGE_API_KEY".to_string(), "v".to_string())));
    let c = EmbeddingClient::new("voyage::v3".to_string(), None).unwrap();
    assert_eq!(c.key_assignment(), None);
}

#[test]
fn capabilities_by_provider() {
    let caps = MultimodalClient::detect_capabilities("openai::text-embedding-3-small");
    assert_eq!(caps.max_batch_size, 100);
    assert_eq!(caps.supported_formats, vec!["jpeg".to_string(), "png".to_string()]);
    let caps = MultimodalClient::detect_capabilities("voyage::multimodal");
    assert!(caps.supports_multimodal_batch);
    assert_eq!(caps.supported_formats.len(), 3);
    let caps = MultimodalClient::detect_capabilities("something-else");
    assert_eq!(caps.max_batch_size, 10);
    assert_eq!(caps.supported_formats, vec!["jpeg".to_string()]);
}

#[test]
fn config_from_json_members() {
    let j = Json::Object(vec![
        ("model".to_string(), Json::Bool(true)),
        ("provider".to_string(), Json::Str("p::m".to_string())),
        ("api_key".to_string(), Json::Str("s".to_string())),
    ]);
    let config = config_from_json("fallback", &j);
    assert_eq!(config.model, "fallback");
    assert_eq!(config.api_key, Some("s".to_string()));
    let config = config_from_json("n", &Json::Null);
    assert_eq!(config.model, "n");
    assert_eq!(config.api_key, None);
}
