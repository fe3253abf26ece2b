use rembed::error::{RembedError, ResponseProblem};
use rembed::json::Json;
use rembed::legacy::{JinaClient, LlamafileClient, OllamaClient};
use rembed::response::{parse_float_array, parse_openai_style_response, parse_simple_embedding_response};

fn floats(ns: &[serde_json::Number]) -> Vec<f32> {
    ns.iter().map(|n| n.as_f64().unwrap() as f32).collect()
}

fn json(text: &str) -> Json {
    Json::parse(text).unwrap()
}

fn num(x: f64) -> Json {
    Json::Number(serde_json::Number::from_f64(x).unwrap())
}

fn path_of(e: &RembedError) -> (String, ResponseProblem) {
    match e {
        RembedError::ProviderResponse { path, problem } => (path.clone(), *problem),
        other => panic!("unexpected error {:?}", other),
    }
}

#[test]
fn test_parse_openai_style_response() {
    let response = json(r#"{"data": [{"embedding": [0.1, 0.2, 0.3]}]}"#);
    let result = parse_openai_style_response(&response).unwrap();
    assert_eq!(floats(&result), vec![0.1, 0.2, 0.3]);
}

#[test]
fn test_parse_openai_style_response_missing_data() {
    let response = json(r#"{"error": "something"}"#);
    let result = parse_openai_style_response(&response);
    assert!(result.is_err());
}

#[test]
fn test_parse_simple_embedding_response() {
    let response = json(r#"{"embeddings": [[0.4, 0.5, 0.6]]}"#);
    let result = parse_simple_embedding_response(&response, "embeddings").unwrap();
    assert_eq!(floats(&result), vec![0.4, 0.5, 0.6]);
}

#[test]
fn test_parse_simple_embedding_response_single_array() {
    let response = json(r#"{"embedding": [0.7, 0.8, 0.9]}"#);
    let result = parse_simple_embedding_response(&response, "embedding").unwrap();
    assert_eq!(floats(&result), vec![0.7, 0.8, 0.9]);
}

#[test]
fn test_parse_float_array() {
    let arr = vec![num(1.0), num(2.0), num(3.0)];
    let result = parse_float_array(&arr, "test").unwrap();
    assert_eq!(floats(&result), vec![1.0, 2.0, 3.0]);
}

#[test]
fn test_parse_float_array_with_non_float() {
    let arr = vec![num(1.0), Json::Str("not a float".to_string()), num(3.0)];
    let result = parse_float_array(&arr, "test");
    assert!(result.is_err());
}

#[test]
fn missing_keys_are_named_by_path() {
    let cases = [
        (r#"{"error": "x"}"#, "data", ResponseProblem::MissingKey),
        (r#"{"data": []}"#, "data.0", ResponseProblem::MissingPath),
        (r#"{"data": [{"vector": [1]}]}"#, "data.0.embedding", ResponseProblem::MissingPath),
        (r#"{"data": [{"embedding": 3}]}"#, "data.0.embedding", ResponseProblem::NotArray),
        (r#"{"data": [{"embedding": [1, "x"]}]}"#, "data.0.embedding", ResponseProblem::NotNumbers),
    ];
    for (text, path, problem) in cases {
        let err = parse_openai_style_response(&json(text)).unwrap_err();
        assert_eq!(path_of(&err), (path.to_string(), problem));
    }
}

#[test]
fn missing_key_message_names_the_path() {
    let err = parse_openai_style_response(&json(r#"{"data": [{"embedding": {}}]}"#)).unwrap_err();
    assert_eq!(err.message(), "expected 'data.0.embedding' path to be an array");
    let err = parse_simple_embedding_response(&json(r#"{"embeddings": []}"#), "embeddings").unwrap_err();
    assert_eq!(err.message(), "expected 'embeddings.0' path in response body");
    let err = OllamaClient::parse_single_response(&json(r#"{"other": 1}"#)).unwrap_err();
    assert_eq!(err.message(), "expected 'embedding' key in response body");
    let err = LlamafileClient::parse_single_response(&json(r#"{"embedding": [true]}"#)).unwrap_err();
    assert_eq!(err.message(), "expected 'embedding' array to contain floats");
}

#[test]
fn provider_parsers_read_their_shapes() {
    let v = JinaClient::parse_single_response(&json(r#"{"data": [{"embedding": [1, 2]}]}"#)).unwrap();
    assert_eq!(floats(&v), vec![1.0, 2.0]);
    let v = OllamaClient::parse_single_response(&json(r#"{"embedding": [-1.5]}"#)).unwrap();
    assert_eq!(floats(&v), vec![-1.5]);
}

#[test]
fn integers_count_as_numbers() {
    let v = parse_simple_embedding_response(&json(r#"{"embedding": [1, -2, 3.5]}"#), "embedding").unwrap();
    assert_eq!(floats(&v), vec![1.0, -2.0, 3.5]);
}

#[test]
fn invalid_json_is_malformed_input() {
    assert!(matches!(Json::parse("{oops"), Err(RembedError::MalformedInput(_))));
}

#[test]
fn json_members_and_elements() {
    let j = json(r#"{"a": ["x", 2], "b": null}"#);
    let a = j.get_member("a").unwrap();
    assert_eq!(a.get_element(0).unwrap().as_str(), Some("x"));
    assert!(a.get_element(2).is_none());
    assert!(matches!(j.get_member("b"), Some(Json::Null)));
    assert!(j.get_member("c").is_none());
}
