use rembed::clients::{ClientHandle, EmbeddingClient};
use rembed::error::RembedError;
use rembed::pipeline::{vision_request, DEFAULT_IMAGE_PROMPT, VISION_SYSTEM_PROMPT, encode_vectors, rembed_batch_inputs, rembed_batch_output, rembed_images_inputs, vector_blob, FLOAT32_VECTOR_SUBTYPE};
use rembed::mock::MockAdapter;
use rembed::registry::{default_registry, Registry};

fn registry() -> Registry {
    let mut r = default_registry();
    let client = EmbeddingClient::new("openai::text-embedding-3-small".to_string(), None).unwrap();
    r.insert("small".to_string(), ClientHandle::Embedding(client));
    r
}

#[test]
fn batch_inputs_in_order() {
    let r = registry();
    let (client, texts) = rembed_batch_inputs(&r, "small", r#"["a", "b", "c"]"#).unwrap();
    match client {
        ClientHandle::Embedding(c) => assert_eq!(c.model, "openai::text-embedding-3-small"),
        _ => panic!("expected the text-embedding client"),
    }
    assert_eq!(texts, vec!["a".to_string(), "b".to_string(), "c".to_string()]);
}

#[test]
fn batch_inputs_empty_array_fails() {
    let r = registry();
    let err = rembed_batch_inputs(&r, "small", "[]").err().unwrap();
    assert!(matches!(err, RembedError::EmptyInput));
    let err = rembed_images_inputs(&r, "ollama-multimodal", "[]").err().unwrap();
    assert!(matches!(err, RembedError::EmptyInput));
}

#[test]
fn batch_inputs_errors() {
    let r = registry();
    assert!(matches!(rembed_batch_inputs(&r, "small", "[1, 2]").err().unwrap(), RembedError::MalformedInput(_)));
    assert!(matches!(rembed_batch_inputs(&r, "small", "{").err().unwrap(), RembedError::MalformedInput(_)));
    assert!(matches!(rembed_batch_inputs(&r, "missing", r#"["a"]"#).err().unwrap(), RembedError::UnknownClient(_)));
}

#[test]
fn batch_output_is_json_of_base64() {
    let out = rembed_batch_output(&vec![vec![0u8, 0, 128, 63], vec![1, 2, 3]]);
    assert_eq!(out, r#"["AACAPw==","AQID"]"#);
    assert_eq!(encode_vectors(&vec![vec![]]), vec!["".to_string()]);
}

#[test]
fn image_inputs_decode_base64() {
    let r = registry();
    let (client, images) = rembed_images_inputs(&r, "ollama-multimodal", r#"["AQID", "/w=="]"#).unwrap();
    assert_eq!(client.vision_model, "ollama::llava:7b");
    assert_eq!(images, vec![vec![1u8, 2, 3], vec![255u8]]);
    let err = rembed_images_inputs(&r, "ollama-multimodal", r#"["%%%"]"#).err().unwrap();
    assert_eq!(err.message(), "Base64 decode failed");
    let err = rembed_images_inputs(&r, "small", r#"["AQID"]"#).err().unwrap();
    assert!(matches!(err, RembedError::UnknownMultimodalClient(_)));
}

#[test]
fn vector_blobs_are_tagged() {
    let b = vector_blob(vec![1, 2, 3, 4]);
    assert_eq!(b.subtype, 223);
    assert_eq!(FLOAT32_VECTOR_SUBTYPE, 223);
    assert_eq!(b.bytes, vec![1, 2, 3, 4]);
}

#[test]
fn vision_request_prompts() {
    let r = vision_request(&[1, 2, 3], None);
    assert_eq!(r.image_base64, "AQID");
    assert_eq!(r.media_type, "image/jpeg");
    assert_eq!(r.system.as_deref(), Some(VISION_SYSTEM_PROMPT));
    assert_eq!(r.prompt, DEFAULT_IMAGE_PROMPT);
    let r = vision_request(&[255], Some("What animal is this?"));
    assert_eq!(r.image_base64, "/w==");
    assert_eq!(r.system, None);
    assert_eq!(r.prompt, "What animal is this?");
}

#[test]
fn base64_text_encodes() {
    assert_eq!(rembed::pipeline::base64_text(b"hello"), "aGVsbG8=");
}

#[test]
fn batch_on_mock_client_returns_vectors_in_order() {
    let mut r = registry();
    r.insert("mock".to_string(), ClientHandle::Mock(MockAdapter::new(10)));
    let (client, texts) = rembed_batch_inputs(&r, "mock", r#"["a","b"]"#).unwrap();
    let m = match client {
        ClientHandle::Mock(m) => *m,
        _ => panic!("expected the mock adapter"),
    };
    let vectors = m.infer_batch(&texts);
    assert_eq!(vectors, vec![m.infer_single("a"), m.infer_single("b")]);
    assert_ne!(vectors[0], vectors[1]);
}

#[test]
fn batch_on_multimodal_client_is_unknown() {
    let r = registry();
    let err = rembed_batch_inputs(&r, "ollama-multimodal", r#"["a"]"#).err().unwrap();
    assert!(matches!(err, RembedError::UnknownClient(_)));
}
