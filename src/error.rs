use vstd::prelude::*;
use crate::text::join3;

verus! {

/// What part of an expected response shape was not found.
#[derive(Debug, Clone, Copy, PartialEq, Eq, Structural)]
pub enum ResponseProblem {
    /// A top-level key is absent.
    MissingKey,
    /// A nested path is absent.
    MissingPath,
    /// The value at the path is not an array.
    NotArray,
    /// The array at the path holds something other than numbers.
    NotNumbers,
    /// The response holds another number of vectors than items were sent.
    WrongCount,
}

/// The errors of this library, one variant per kind of failure.
#[derive(Debug, Clone, PartialEq, Eq)]
pub enum RembedError {
    /// A model, an API key or an environment variable is missing.
    Configuration(String),
    /// No client is registered under this name.
    UnknownClient(String),
    /// No multimodal client is registered under this name.
    UnknownMultimodalClient(String),
    /// The input is not of the shape the call takes.
    MalformedInput(String),
    /// A batch call was handed no items.
    EmptyInput,
    /// The provider's response lacks the expected shape at `path`.
    ProviderResponse { path: String, problem: ResponseProblem },
    /// The request could not be sent, or its answer could not be read.
    Network(String),
    /// The operation is not offered on the client registry.
    UnsupportedOperation(String),
}

/// The message that reports a response lacking the expected shape at `path`.
pub open spec fn response_message(path: Seq<char>, problem: ResponseProblem) -> Seq<char> {
    match problem {
        ResponseProblem::MissingKey => "expected '"@ + path + "' key in response body"@,
        ResponseProblem::MissingPath => "expected '"@ + path + "' path in response body"@,
        ResponseProblem::NotArray => "expected '"@ + path + "' path to be an array"@,
        ResponseProblem::NotNumbers => "expected '"@ + path + "' array to contain floats"@,
        ResponseProblem::WrongCount => "expected one vector per item in '"@ + path + "'"@,
    }
}

impl RembedError {
    /// The message that this error reports.
    pub open spec fn spec_message(self) -> Seq<char> {
        match self {
            RembedError::Configuration(m) => m@,
            RembedError::UnknownClient(n) => "Client with name "@ + n@
                + " was not registered with rembed_clients."@,
            RembedError::UnknownMultimodalClient(n) => "Multimodal client with name "@ + n@
                + " was not registered."@,
            RembedError::MalformedInput(m) => m@,
            RembedError::EmptyInput => "Input array cannot be empty"@,
            RembedError::ProviderResponse { path, problem } => response_message(path@, problem),
            RembedError::Network(m) => m@,
            RembedError::UnsupportedOperation(m) => m@,
        }
    }

    /// The message that this error reports, for the host's error channel.
    pub fn message(&self) -> (r: String)
        ensures
            r@ == self.spec_message(),
    {
        match self {
            RembedError::Configuration(m) => m.clone(),
            RembedError::UnknownClient(n) => join3(
                "Client with name ",
                n.as_str(),
                " was not registered with rembed_clients.",
            ),
            RembedError::UnknownMultimodalClient(n) => join3(
                "Multimodal client with name ",
                n.as_str(),
                " was not registered.",
            ),
            RembedError::MalformedInput(m) => m.clone(),
            RembedError::EmptyInput => String::from_str("Input array cannot be empty"),
            RembedError::ProviderResponse { path, problem } => match problem {
                ResponseProblem::MissingKey => join3(
                    "expected '",
                    path.as_str(),
                    "' key in response body",
                ),
                ResponseProblem::MissingPath => join3(
                    "expected '",
                    path.as_str(),
                    "' path in response body",
                ),
                ResponseProblem::NotArray => join3(
                    "expected '",
                    path.as_str(),
                    "' path to be an array",
                ),
                ResponseProblem::NotNumbers => join3(
                    "expected '",
                    path.as_str(),
                    "' array to contain floats",
                ),
                ResponseProblem::WrongCount => join3(
                    "expected one vector per item in '",
                    path.as_str(),
                    "'",
                ),
            },
            RembedError::Network(m) => m.clone(),
            RembedError::UnsupportedOperation(m) => m.clone(),
        }
    }

    /// Whether this reports that no client is registered under `name`.
    pub open spec fn names_unknown_client(self, name: Seq<char>) -> bool {
        match self {
            RembedError::UnknownClient(n) => n@ == name,
            _ => false,
        }
    }
}

} // verus!
