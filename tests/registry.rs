use rembed::clients::{ClientHandle, EmbeddingClient};
use rembed::error::RembedError;
use rembed::mock::MockAdapter;
use rembed::registry::{default_registry, ClientsCursor, Registry, RegistrationValue, UpdateOperation};

fn embedding(model: &str) -> ClientHandle {
    ClientHandle::Embedding(EmbeddingClient::new(model.to_string(), None).unwrap())
}

fn model_of(r: &Registry, name: &str) -> String {
    match r.get(name) {
        Some(ClientHandle::Embedding(c)) => c.model.clone(),
        _ => panic!("no embedding client under {}", name),
    }
}

#[test]
fn registering_twice_keeps_one_entry() {
    let mut r = Registry::new();
    r.insert("n".to_string(), embedding("first"));
    r.insert("other".to_string(), embedding("x"));
    r.insert("n".to_string(), embedding("second"));
    assert_eq!(r.len(), 2);
    assert_eq!(r.names(), vec!["n".to_string(), "other".to_string()]);
    assert_eq!(model_of(&r, "n"), "second");
    assert_eq!(model_of(&r, "other"), "x");
}

#[test]
fn insert_text_options() {
    let mut r = Registry::new();
    let op = UpdateOperation::Insert {
        name: "text-embedding-3-small".to_string(),
        value: RegistrationValue::Text("openai".to_string()),
    };
    assert!(r.update(op).is_ok());
    assert_eq!(model_of(&r, "text-embedding-3-small"), "openai::text-embedding-3-small");
}

#[test]
fn insert_handle_and_missing_value() {
    let mut r = Registry::new();
    let op = UpdateOperation::Insert {
        name: "h".to_string(),
        value: RegistrationValue::Handle(embedding("ollama::nomic-embed-text")),
    };
    assert!(r.update(op).is_ok());
    assert_eq!(model_of(&r, "h"), "ollama::nomic-embed-text");
    let op = UpdateOperation::Insert { name: "m".to_string(), value: RegistrationValue::Missing };
    let err = r.update(op).unwrap_err();
    assert_eq!(err.message(), "client options required");
    assert_eq!(r.len(), 1);
}

#[test]
fn delete_and_update_are_rejected() {
    let mut r = Registry::new();
    r.insert("a".to_string(), embedding("m"));
    let err = r.update(UpdateOperation::Delete).unwrap_err();
    assert_eq!(err.message(), "DELETE operations on rembed_clients is not supported yet");
    let err = r.update(UpdateOperation::Update).unwrap_err();
    assert!(matches!(err, RembedError::UnsupportedOperation(_)));
    assert_eq!(err.message(), "UPDATE operations on rembed_clients is not supported yet");
    assert_eq!(r.len(), 1);
}

#[test]
fn unknown_client_is_named() {
    let r = Registry::new();
    let err = r.embedding_client("nope").unwrap_err();
    assert_eq!(err.message(), "Client with name nope was not registered with rembed_clients.");
    let err = r.multimodal_client("nope").unwrap_err();
    assert_eq!(err.message(), "Multimodal client with name nope was not registered.");
}

#[test]
fn clients_scan() {
    let mut r = default_registry();
    r.insert("e".to_string(), embedding("m"));
    r.insert("mock".to_string(), ClientHandle::Mock(MockAdapter::new(3)));
    let mut c = ClientsCursor::new(&r);
    let mut rows = Vec::new();
    while !c.eof() {
        rows.push((c.rowid(), c.column(0).unwrap(), c.column(1).unwrap()));
        assert!(c.column(2).is_none());
        c.next();
    }
    assert_eq!(
        rows,
        vec![
            (0, "ollama-multimodal".to_string(), "(multimodal client)".to_string()),
            (1, "e".to_string(), "(embedding client)".to_string()),
            (2, "mock".to_string(), "(mock client)".to_string()),
        ]
    );
    assert!(c.column(0).is_none());
}

#[test]
fn default_registry_holds_ollama_multimodal() {
    let r = default_registry();
    let c = r.multimodal_client("ollama-multimodal").unwrap();
    assert_eq!(c.vision_model, "ollama::llava:7b");
    assert_eq!(c.embedding_model, "ollama::nomic-embed-text");
    assert!(r.embedding_client("ollama-multimodal").is_err());
}
