use rembed::error::{RembedError, ResponseProblem};

#[test]
fn error_messages() {
    assert_eq!(RembedError::Network("timed out".to_string()).message(), "timed out");
    assert_eq!(RembedError::Configuration("c".to_string()).message(), "c");
    assert_eq!(RembedError::EmptyInput.message(), "Input array cannot be empty");
    assert_eq!(
        RembedError::UnknownClient("x".to_string()).message(),
        "Client with name x was not registered with rembed_clients."
    );
    let e = RembedError::ProviderResponse { path: "data".to_string(), problem: ResponseProblem::MissingKey };
    assert_eq!(e.message(), "expected 'data' key in response body");
    let e = RembedError::ProviderResponse { path: "embeddings".to_string(), problem: ResponseProblem::WrongCount };
    assert_eq!(e.message(), "expected one vector per item in 'embeddings'");
}
