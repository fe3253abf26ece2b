use rembed::clients::ClientHandle;
use rembed::mock::{mock_embedding_codes, simple_hash, MockAdapter};
use rembed::registry::Registry;

#[test]
fn test_mock_embedding_deterministic() {
    let text = "hello world";
    let embedding1 = mock_embedding_codes(text, 10);
    let embedding2 = mock_embedding_codes(text, 10);
    assert_eq!(embedding1, embedding2);
}

#[test]
fn test_mock_embedding_different_texts() {
    let embedding1 = mock_embedding_codes("hello", 10);
    let embedding2 = mock_embedding_codes("world", 10);
    assert_ne!(embedding1, embedding2);
}

#[test]
fn test_mock_embedding_dimensions() {
    let embedding = mock_embedding_codes("test", 1536);
    assert_eq!(embedding.len(), 1536);
}

#[test]
fn simple_hash_values() {
    assert_eq!(simple_hash(""), 0);
    assert_eq!(simple_hash("a"), 97);
    assert_eq!(simple_hash("ab"), 97 * 31 + 98);
    let mut expected: u32 = 0;
    for b in "hello world".bytes() {
        expected = expected.wrapping_mul(31).wrapping_add(b as u32);
    }
    assert_eq!(simple_hash("hello world"), expected);
}

#[test]
fn mock_codes_count_up_from_hash() {
    let h = simple_hash("hello world");
    let codes = mock_embedding_codes("hello world", 3);
    assert_eq!(codes, vec![h, h.wrapping_add(1), h.wrapping_add(2)]);
}

#[test]
fn registered_mock_client() {
    let mut r = Registry::new();
    r.insert("mock".to_string(), ClientHandle::Mock(MockAdapter::new(10)));
    let m = match r.get("mock") {
        Some(ClientHandle::Mock(m)) => *m,
        _ => panic!("mock client not registered"),
    };
    let hello = m.infer_single("hello world");
    assert_eq!(hello.len(), 10);
    assert_eq!(hello, m.infer_single("hello world"));
    assert_ne!(hello, m.infer_single("goodbye"));
    let batch = m.infer_batch(&vec!["a".to_string(), "b".to_string()]);
    assert_eq!(batch, vec![m.infer_single("a"), m.infer_single("b")]);
}

#[test]
fn batch_of_one_matches_single() {
    let m = MockAdapter::new(4);
    let batch = m.infer_batch(&vec!["x".to_string()]);
    assert_eq!(batch[0], m.infer_single("x"));
}
