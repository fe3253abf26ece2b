use vstd::prelude::*;
use base64::Engine;
use crate::clients::{ClientHandle, MultimodalClient};
use crate::error::RembedError;
use crate::json::{json_text, Json};
use crate::registry::{client_of, embeds_text, Registry};

verus! {

/// The marker that a vector blob carries, so that vector consumers tell it
/// from other binary values.
pub const FLOAT32_VECTOR_SUBTYPE: u8 = 223;

/// A binary result with its subtype marker.
pub struct TaggedBlob {
    pub bytes: Vec<u8>,
    pub subtype: u8,
}

/// Marks the bytes of a vector of 32-bit floats as a vector.
pub fn vector_blob(bytes: Vec<u8>) -> (r: TaggedBlob)
    ensures
        r.bytes == bytes,
        r.subtype == FLOAT32_VECTOR_SUBTYPE,
{
    TaggedBlob { bytes, subtype: FLOAT32_VECTOR_SUBTYPE }
}

/// The standard, padded base64 text of `bytes`.
pub uninterp spec fn base64_of(bytes: Seq<u8>) -> Seq<char>;

/// The bytes whose standard, padded base64 text is `text`, or `None` where
/// `text` is not such a text.
pub uninterp spec fn base64_decoded(text: Seq<char>) -> Option<Seq<u8>>;

/// The compact JSON text of an array of strings.
pub uninterp spec fn json_strings_text(items: Seq<Seq<char>>) -> Seq<char>;

/// The length of padded base64 text for `n` bytes.
pub open spec fn base64_len(n: nat) -> nat {
    4 * ((n + 2) / 3)
}

/// Relies on base64's `STANDARD.encode`: padded output of four characters
/// for each started group of three bytes. It panics only where that length
/// overflows `usize`.
#[verifier::external_body]
fn base64_encode(bytes: &[u8]) -> (r: String)
    requires
        base64_len(bytes@.len()) <= usize::MAX,
    ensures
        r@ == base64_of(bytes@),
        r@.len() == base64_len(bytes@.len()),
{
    base64::engine::general_purpose::STANDARD.encode(bytes)
}

/// Relies on base64's `STANDARD.decode`, applied to the text's bytes.
#[verifier::external_body]
fn base64_decode(text: &str) -> (r: Option<Vec<u8>>)
    ensures
        match r {
            Some(b) => base64_decoded(text@) == Some(b@),
            None => base64_decoded(text@) is None,
        },
{
    base64::engine::general_purpose::STANDARD.decode(text).ok()
}

/// Relies on serde_json::to_string for a slice of strings, which cannot fail.
#[verifier::external_body]
fn json_array_text(items: &[String]) -> (r: String)
    ensures
        r@ == json_strings_text(items@.map_values(|s: String| s@)),
{
    serde_json::to_string(items).unwrap_or_default()
}

/// The texts of a JSON array of strings; `None` for any other document.
pub open spec fn string_items(j: Json) -> Option<Seq<Seq<char>>> {
    match j {
        Json::Array(xs) => if forall|i: int| 0 <= i < xs@.len() ==> (#[trigger] xs@[i]) is Str {
            Some(xs@.map_values(|x: Json| x->Str_0@))
        } else {
            None
        },
        _ => None,
    }
}

/// The texts of a JSON array of strings.
pub fn json_string_items(j: &Json) -> (r: Option<Vec<String>>)
    ensures
        match string_items(*j) {
            Some(ts) => r is Some && r->Some_0@.map_values(|s: String| s@) == ts,
            None => r is None,
        },
{
    match j {
        Json::Array(xs) => {
            let mut out: Vec<String> = Vec::new();
            let mut i: usize = 0;
            while i < xs.len()
                invariant
                    *j == Json::Array(*xs),
                    i <= xs@.len(),
                    out@.len() == i,
                    forall|k: int| 0 <= k < i ==> (#[trigger] xs@[k]) is Str,
                    forall|k: int| 0 <= k < i ==> #[trigger] out@[k]@ == xs@[k]->Str_0@,
                decreases xs@.len() - i,
            {
                match &xs[i] {
                    Json::Str(s) => out.push(s.clone()),
                    _ => {
                        assert(!(xs@[i as int] is Str));
                        return None;
                    },
                }
                i = i + 1;
            }
            assert(out@.map_values(|s: String| s@) =~= xs@.map_values(|x: Json| x->Str_0@));
            Some(out)
        },
        _ => None,
    }
}

/// The texts of a JSON array of strings, given as text.
pub open spec fn text_items(text: Seq<char>) -> Option<Seq<Seq<char>>> {
    match json_text(text) {
        Some(j) => string_items(j),
        None => None,
    }
}

fn parse_items(json_input: &str) -> (r: Result<Vec<String>, RembedError>)
    ensures
        match text_items(json_input@) {
            Some(ts) => if ts.len() == 0 {
                r is Err && r->Err_0 is EmptyInput
            } else {
                r is Ok && r->Ok_0@.map_values(|s: String| s@) == ts
            },
            None => r is Err && r->Err_0 is MalformedInput,
        },
{
    let j = Json::parse(json_input)?;
    let items = match json_string_items(&j) {
        Some(items) => items,
        None => {
            return Err(RembedError::MalformedInput(String::from_str("Invalid JSON array")));
        },
    };
    if items.len() == 0 {
        return Err(RembedError::EmptyInput);
    }
    Ok(items)
}

/// What a batch call over a JSON array of texts is to embed, and with which
/// client: the array must be a non-empty array of strings, and the client
/// a registered text-embedding client or mock adapter.
pub fn rembed_batch_inputs<'a>(registry: &'a Registry, client_name: &str, json_input: &str) -> (r:
    Result<(&'a ClientHandle, Vec<String>), RembedError>)
    requires
        registry.wf(),
    ensures
        match text_items(json_input@) {
            None => r is Err && r->Err_0 is MalformedInput,
            Some(ts) => if ts.len() == 0 {
                r is Err && r->Err_0 is EmptyInput
            } else {
                match client_of(registry@, client_name@) {
                    Some(c) => if embeds_text(c) {
                        r is Ok && *r->Ok_0.0 == c && r->Ok_0.1@.map_values(|s: String| s@) == ts
                    } else {
                        r is Err && r->Err_0.names_unknown_client(client_name@)
                    },
                    None => r is Err && r->Err_0.names_unknown_client(client_name@),
                }
            },
        },
{
    let texts = parse_items(json_input)?;
    let client = registry.text_client(client_name)?;
    Ok((client, texts))
}

/// The base64 texts of each vector's bytes, in order.
pub fn encode_vectors(vectors: &Vec<Vec<u8>>) -> (r: Vec<String>)
    requires
        forall|i: int| 0 <= i < vectors@.len() ==> base64_len(#[trigger] vectors@[i]@.len()) <= usize::MAX,
    ensures
        r@.len() == vectors@.len(),
        forall|i: int| 0 <= i < vectors@.len() ==> #[trigger] r@[i]@ == base64_of(vectors@[i]@),
{
    let mut out: Vec<String> = Vec::new();
    let mut i: usize = 0;
    while i < vectors.len()
        invariant
            i <= vectors@.len(),
            out@.len() == i,
            forall|k: int| 0 <= k < vectors@.len() ==> base64_len(#[trigger] vectors@[k]@.len()) <= usize::MAX,
            forall|k: int| 0 <= k < i ==> #[trigger] out@[k]@ == base64_of(vectors@[k]@),
        decreases vectors@.len() - i,
    {
        out.push(base64_encode(vectors[i].as_slice()));
        i = i + 1;
    }
    out
}

/// The result of a batch call: a JSON array holding the base64 text of each
/// vector's bytes, in order.
pub fn rembed_batch_output(vectors: &Vec<Vec<u8>>) -> (r: String)
    requires
        forall|i: int| 0 <= i < vectors@.len() ==> base64_len(#[trigger] vectors@[i]@.len()) <= usize::MAX,
    ensures
        r@ == json_strings_text(vectors@.map_values(|v: Vec<u8>| base64_of(v@))),
{
    let texts = encode_vectors(vectors);
    assert(texts@.map_values(|s: String| s@) =~= vectors@.map_values(|v: Vec<u8>| base64_of(v@)));
    json_array_text(texts.as_slice())
}

/// The images of a JSON array of base64 texts, where each one decodes.
pub open spec fn decoded_images(ts: Seq<Seq<char>>) -> Option<Seq<Seq<u8>>> {
    if forall|i: int| 0 <= i < ts.len() ==> (#[trigger] base64_decoded(ts[i])) is Some {
        Some(ts.map_values(|t: Seq<char>| base64_decoded(t)->Some_0))
    } else {
        None
    }
}

/// What a concurrent image batch is to process, and with which client: the
/// array must be a non-empty array of strings, the client a registered
/// multimodal client, and every string valid base64.
pub fn rembed_images_inputs<'a>(registry: &'a Registry, client_name: &str, json_input: &str) -> (r:
    Result<(&'a MultimodalClient, Vec<Vec<u8>>), RembedError>)
    requires
        registry.wf(),
    ensures
        match text_items(json_input@) {
            None => r is Err && r->Err_0 is MalformedInput,
            Some(ts) => if ts.len() == 0 {
                r is Err && r->Err_0 is EmptyInput
            } else {
                match client_of(registry@, client_name@) {
                    Some(ClientHandle::Multimodal(c)) => match decoded_images(ts) {
                        Some(imgs) => r is Ok && *r->Ok_0.0 == c && r->Ok_0.1@.map_values(
                            |b: Vec<u8>| b@,
                        ) == imgs,
                        None => r is Err && r->Err_0 is MalformedInput,
                    },
                    _ => r is Err && r->Err_0 is UnknownMultimodalClient,
                }
            },
        },
{
    let texts = parse_items(json_input)?;
    let client = registry.multimodal_client(client_name)?;
    let ghost ts = texts@.map_values(|s: String| s@);
    let mut images: Vec<Vec<u8>> = Vec::new();
    let mut i: usize = 0;
    while i < texts.len()
        invariant
            ts == texts@.map_values(|s: String| s@),
            text_items(json_input@) == Some(ts),
            ts.len() > 0,
            client_of(registry@, client_name@) == Some(ClientHandle::Multimodal(*client)),
            i <= texts@.len(),
            images@.len() == i,
            forall|k: int| 0 <= k < i ==> (#[trigger] base64_decoded(ts[k])) is Some,
            forall|k: int| 0 <= k < i ==> Some(#[trigger] images@[k]@) == base64_decoded(ts[k]),
        decreases texts@.len() - i,
    {
        match base64_decode(texts[i].as_str()) {
            Some(b) => images.push(b),
            None => {
                assert(base64_decoded(ts[i as int]) is None);
                return Err(RembedError::MalformedInput(String::from_str("Base64 decode failed")));
            },
        }
        i = i + 1;
    }
    assert(images@.map_values(|b: Vec<u8>| b@) =~= ts.map_values(
        |t: Seq<char>| base64_decoded(t)->Some_0,
    ));
    Ok((client, images))
}

/// The standard, padded base64 text of `bytes`.
pub fn base64_text(bytes: &[u8]) -> (r: String)
    requires
        base64_len(bytes@.len()) <= usize::MAX,
    ensures
        r@ == base64_of(bytes@),
{
    base64_encode(bytes)
}

/// The instructions given to the vision model when no prompt is supplied.
pub const VISION_SYSTEM_PROMPT: &'static str = "You are a helpful vision AI. Describe images accurately and concisely for embedding purposes. Focus on key visual elements, objects, scene context, colors, and composition.";

/// The request text that goes with an image when no prompt is supplied.
pub const DEFAULT_IMAGE_PROMPT: &'static str = "Describe this image in detail for search and embedding purposes:";

/// The media type under which images are sent.
pub const IMAGE_MEDIA_TYPE: &'static str = "image/jpeg";

/// What the vision model is asked: optional system instructions, a prompt,
/// and the image as base64 text.
pub struct VisionRequest {
    pub system: Option<String>,
    pub prompt: String,
    pub media_type: String,
    pub image_base64: String,
}

/// The request that describes `image`: with `prompt` alone where one is
/// supplied, else with the default instructions and prompt.
pub fn vision_request(image: &[u8], prompt: Option<&str>) -> (r: VisionRequest)
    requires
        base64_len(image@.len()) <= usize::MAX,
    ensures
        r.image_base64@ == base64_of(image@),
        r.media_type@ == IMAGE_MEDIA_TYPE@,
        match prompt {
            Some(p) => r.system is None && r.prompt@ == p@,
            None => r.system is Some && r.system->Some_0@ == VISION_SYSTEM_PROMPT@ && r.prompt@
                == DEFAULT_IMAGE_PROMPT@,
        },
{
    let image_base64 = base64_encode(image);
    let media_type = String::from_str(IMAGE_MEDIA_TYPE);
    match prompt {
        Some(p) => VisionRequest { system: None, prompt: String::from_str(p), media_type, image_base64 },
        None => VisionRequest {
            system: Some(String::from_str(VISION_SYSTEM_PROMPT)),
            prompt: String::from_str(DEFAULT_IMAGE_PROMPT),
            media_type,
            image_base64,
        },
    }
}

} // verus!
