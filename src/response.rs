use vstd::prelude::*;
use crate::error::{RembedError, ResponseProblem};
use crate::json::Json;

verus! {

/// What reading a vector out of a response gives: its numbers, or the path
/// whose shape was not found and how.
pub type Reading = Result<Seq<serde_json::Number>, (Seq<char>, ResponseProblem)>;

/// Whether every element is a JSON number.
pub open spec fn all_numbers(xs: Seq<Json>) -> bool {
    forall|i: int| 0 <= i < xs.len() ==> xs[i] is Number
}

/// The numbers held by `xs`, in order.
pub open spec fn numbers_of(xs: Seq<Json>) -> Seq<serde_json::Number> {
    Seq::new(xs.len(), |i: int| xs[i]->Number_0)
}

/// The vector found at `path`, whose value is `v`.
pub open spec fn vector_at(v: Json, path: Seq<char>) -> Reading {
    match v {
        Json::Array(xs) => if all_numbers(xs@) {
            Ok(numbers_of(xs@))
        } else {
            Err((path, ResponseProblem::NotNumbers))
        },
        _ => Err((path, ResponseProblem::NotArray)),
    }
}

/// The vector of a response shaped `{"data": [{"embedding": [...]}, ...]}`.
pub open spec fn data_embedding(v: Json) -> Reading {
    match v.member("data"@) {
        None => Err(("data"@, ResponseProblem::MissingKey)),
        Some(d) => match d.element(0) {
            None => Err(("data.0"@, ResponseProblem::MissingPath)),
            Some(e) => match e.member("embedding"@) {
                None => Err(("data.0.embedding"@, ResponseProblem::MissingPath)),
                Some(x) => vector_at(x, "data.0.embedding"@),
            },
        },
    }
}

/// The vector of a response shaped `{"embeddings": [[...], ...]}` where `key`
/// is `embeddings`, and `{key: [...]}` for any other `key`.
pub open spec fn keyed_embedding(v: Json, key: Seq<char>) -> Reading {
    match v.member(key) {
        None => Err((key, ResponseProblem::MissingKey)),
        Some(x) => if key == "embeddings"@ {
            match x.element(0) {
                None => Err(("embeddings.0"@, ResponseProblem::MissingPath)),
                Some(y) => vector_at(y, "embeddings.0"@),
            }
        } else {
            vector_at(x, key)
        },
    }
}

/// Whether `e` reports that the response lacks `path` in the way `problem` says.
pub open spec fn reports(e: RembedError, path: Seq<char>, problem: ResponseProblem) -> bool {
    match e {
        RembedError::ProviderResponse { path: p, problem: q } => p@ == path && q == problem,
        _ => false,
    }
}

/// Whether `r` is what `reading` says.
pub open spec fn gives(r: Result<Vec<serde_json::Number>, RembedError>, reading: Reading) -> bool {
    match reading {
        Ok(ns) => r is Ok && r->Ok_0@ == ns,
        Err((path, problem)) => r is Err && reports(r->Err_0, path, problem),
    }
}

fn fault(path: &str, problem: ResponseProblem) -> (e: RembedError)
    ensures
        reports(e, path@, problem),
{
    RembedError::ProviderResponse { path: String::from_str(path), problem }
}

/// The numbers of `arr`, or an error naming `context` where one element is
/// not a number.
pub fn parse_float_array(arr: &[Json], context: &str) -> (r: Result<Vec<serde_json::Number>, RembedError>)
    ensures
        all_numbers(arr@) ==> r is Ok && r->Ok_0@ == numbers_of(arr@),
        !all_numbers(arr@) ==> r is Err && reports(r->Err_0, context@, ResponseProblem::NotNumbers),
{
    let mut out: Vec<serde_json::Number> = Vec::new();
    let mut i: usize = 0;
    while i < arr.len()
        invariant
            i <= arr@.len(),
            all_numbers(arr@.subrange(0, i as int)),
            out@ == numbers_of(arr@.subrange(0, i as int)),
        decreases arr@.len() - i,
    {
        match &arr[i] {
            Json::Number(n) => {
                out.push(n.clone());
            },
            _ => {
                return Err(fault(context, ResponseProblem::NotNumbers));
            },
        }
        assert(arr@.subrange(0, i + 1) == arr@.subrange(0, i as int).push(arr@[i as int]));
        i = i + 1;
        assert(out@ =~= numbers_of(arr@.subrange(0, i as int)));
    }
    assert(arr@.subrange(0, i as int) == arr@);
    Ok(out)
}

/// The vector at `path`, whose value is `v`.
fn vector_from(v: &Json, path: &str) -> (r: Result<Vec<serde_json::Number>, RembedError>)
    ensures
        gives(r, vector_at(*v, path@)),
{
    match v {
        Json::Array(xs) => parse_float_array(xs.as_slice(), path),
        _ => Err(fault(path, ResponseProblem::NotArray)),
    }
}

/// Reads the vector of a response shaped `{"data": [{"embedding": [...]}]}`.
pub fn parse_openai_style_response(value: &Json) -> (r: Result<Vec<serde_json::Number>, RembedError>)
    ensures
        gives(r, data_embedding(*value)),
{
    let d = match value.get_member("data") {
        Some(d) => d,
        None => return Err(fault("data", ResponseProblem::MissingKey)),
    };
    let e = match d.get_element(0) {
        Some(e) => e,
        None => return Err(fault("data.0", ResponseProblem::MissingPath)),
    };
    let x = match e.get_member("embedding") {
        Some(x) => x,
        None => return Err(fault("data.0.embedding", ResponseProblem::MissingPath)),
    };
    vector_from(x, "data.0.embedding")
}

/// Reads the vector of a response shaped `{"embeddings": [[...]]}` where
/// `key` is `embeddings`, and `{key: [...]}` for any other `key`.
pub fn parse_simple_embedding_response(value: &Json, key: &str) -> (r: Result<Vec<serde_json::Number>, RembedError>)
    ensures
        gives(r, keyed_embedding(*value, key@)),
{
    let x = match value.get_member(key) {
        Some(x) => x,
        None => return Err(fault(key, ResponseProblem::MissingKey)),
    };
    if crate::text::str_eq(key, "embeddings") {
        let y = match x.get_element(0) {
            Some(y) => y,
            None => return Err(fault("embeddings.0", ResponseProblem::MissingPath)),
        };
        vector_from(y, "embeddings.0")
    } else {
        vector_from(x, key)
    }
}

} // verus!
