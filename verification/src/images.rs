//! Image generation: request models, their builder and JSON body, response
//! models decoded from JSON, and the events a buffered (non-SSE) response is
//! turned into.
use vstd::prelude::*;
use vstd::utf8::encode_utf8;

use crate::decode::{
    field, keys_view, opt_bool, opt_bool_spec, opt_number, opt_number_spec, opt_string,
    opt_string_spec, opt_value, opt_value_spec, req_string, req_string_spec, req_u32,
    req_u32_spec, req_u64, req_u64_spec, without_keys, without_keys_spec,
};
use crate::body::{
    lemma_entry_within, lemma_has_key_concat, lemma_within_concat, lemma_within_distinct,
    lemma_value_under, value_under, push_text, push_u32, text_entry,
    u32_entry,
};
use crate::error::OpenRouterError;
use crate::http::{
    bearer_request_headers, client_headers, client_request_headers, headers_view, opt_strings_view,
    opt_text, bearer_header, HttpMethod, HttpRequestPlan,
};
use crate::sse::{is_done_marker, is_done_spec, SseFrame};
use crate::text::{percent_encode, push_str, url_encode};
use crate::json::{
    clone_opt_string, json_array, json_array_of, json_array_value, json_as_array, json_as_entries,
    json_bool, json_bool_value, json_data_error, json_entries_of, json_i64, json_i64_value,
    json_object, json_parse, json_parse_of,
    json_object_value, json_string, json_string_value, json_u64_value, has_key, key_unique,
    keys_distinct, lookup,
    opt_str_view, pairs_view, JsonMap,
    json_str_of, json_u64_of, json_is_null_of, json_number_of, json_bool_of, lemma_lookup_at,
};

verus! {

/// One image URL payload used as an image generation reference.
#[derive(Debug)]
pub struct ImageUrl {
    /// The URL.
    pub url: String,
}

/// Reference image used to guide image generation.
#[derive(Debug)]
pub struct ImageInputReference {
    /// Always `"image_url"` when built by the constructors.
    pub content_type: String,
    /// The referenced image.
    pub image_url: ImageUrl,
}

/// Provider-specific passthrough options for image generation.
#[derive(Debug, Clone)]
pub struct ImageProviderOptions {
    /// Options keyed by provider.
    pub options: Option<JsonMap>,
}

/// Request payload for `POST /images`.
#[derive(Debug, Clone)]
pub struct ImageGenerationRequest {
    pub model: String,
    pub prompt: String,
    pub aspect_ratio: Option<String>,
    pub background: Option<String>,
    pub input_references: Option<Vec<ImageInputReference>>,
    pub n: Option<u32>,
    pub output_compression: Option<u32>,
    pub output_format: Option<String>,
    pub provider: Option<ImageProviderOptions>,
    pub quality: Option<String>,
    pub resolution: Option<String>,
    pub seed: Option<i64>,
    pub size: Option<String>,
    stream: Option<bool>,
}

/// Builder for [`ImageGenerationRequest`]; `model` and `prompt` are required.
#[derive(Debug, Clone)]
pub struct ImageGenerationRequestBuilder {
    model: Option<String>,
    prompt: Option<String>,
    aspect_ratio: Option<String>,
    background: Option<String>,
    input_references: Option<Vec<ImageInputReference>>,
    n: Option<u32>,
    output_compression: Option<u32>,
    output_format: Option<String>,
    provider: Option<ImageProviderOptions>,
    quality: Option<String>,
    resolution: Option<String>,
    seed: Option<i64>,
    size: Option<String>,
}

/// The fields of an image generation request (or of a builder, where the
/// required ones may still be missing), each taken by its view.
pub struct ImageRequestFields {
    pub model: Option<Seq<char>>,
    pub prompt: Option<Seq<char>>,
    pub aspect_ratio: Option<Seq<char>>,
    pub background: Option<Seq<char>>,
    /// Each reference as (type, url).
    pub input_references: Option<Seq<(Seq<char>, Seq<char>)>>,
    pub n: Option<u32>,
    pub output_compression: Option<u32>,
    pub output_format: Option<Seq<char>>,
    /// The provider options' pairs, or `None` inside where the options are unset.
    pub provider: Option<Option<Seq<(Seq<char>, serde_json::Value)>>>,
    pub quality: Option<Seq<char>>,
    pub resolution: Option<Seq<char>>,
    pub seed: Option<i64>,
    pub size: Option<Seq<char>>,
    pub stream: Option<bool>,
}

/// An image reference as (type, url).
pub open spec fn reference_view(r: ImageInputReference) -> (Seq<char>, Seq<char>) {
    (r.content_type@, r.image_url.url@)
}

/// Image references as (type, url) pairs.
pub open spec fn references_view(rs: Seq<ImageInputReference>) -> Seq<(Seq<char>, Seq<char>)> {
    rs.map_values(|r: ImageInputReference| reference_view(r))
}

/// The provider options' pairs, or `None` where unset.
pub open spec fn provider_view(p: ImageProviderOptions) -> Option<Seq<(Seq<char>, serde_json::Value)>> {
    match p.options {
        Some(m) => Some(m.pairs()),
        None => None,
    }
}

impl View for ImageGenerationRequest {
    type V = ImageRequestFields;

    closed spec fn view(&self) -> ImageRequestFields {
        ImageRequestFields {
            model: Some(self.model@),
            prompt: Some(self.prompt@),
            aspect_ratio: opt_str_view(self.aspect_ratio),
            background: opt_str_view(self.background),
            input_references: match self.input_references {
                Some(v) => Some(references_view(v@)),
                None => None,
            },
            n: self.n,
            output_compression: self.output_compression,
            output_format: opt_str_view(self.output_format),
            provider: match self.provider {
                Some(p) => Some(provider_view(p)),
                None => None,
            },
            quality: opt_str_view(self.quality),
            resolution: opt_str_view(self.resolution),
            seed: self.seed,
            size: opt_str_view(self.size),
            stream: self.stream,
        }
    }
}

impl View for ImageGenerationRequestBuilder {
    type V = ImageRequestFields;

    closed spec fn view(&self) -> ImageRequestFields {
        ImageRequestFields {
            model: opt_str_view(self.model),
            prompt: opt_str_view(self.prompt),
            aspect_ratio: opt_str_view(self.aspect_ratio),
            background: opt_str_view(self.background),
            input_references: match self.input_references {
                Some(v) => Some(references_view(v@)),
                None => None,
            },
            n: self.n,
            output_compression: self.output_compression,
            output_format: opt_str_view(self.output_format),
            provider: match self.provider {
                Some(p) => Some(provider_view(p)),
                None => None,
            },
            quality: opt_str_view(self.quality),
            resolution: opt_str_view(self.resolution),
            seed: self.seed,
            size: opt_str_view(self.size),
            stream: None,
        }
    }
}

/// A builder never holds the streaming flag, so a request it builds
/// carries none and is written without `"stream"`.
pub proof fn lemma_builder_has_no_stream(b: ImageGenerationRequestBuilder)
    ensures
        b@.stream is None,
        stream_json(b@.stream) is None,
{
}

/// A request with nothing set.
pub open spec fn empty_fields() -> ImageRequestFields {
    ImageRequestFields {
        model: None,
        prompt: None,
        aspect_ratio: None,
        background: None,
        input_references: None,
        n: None,
        output_compression: None,
        output_format: None,
        provider: None,
        quality: None,
        resolution: None,
        seed: None,
        size: None,
        stream: None,
    }
}

// ---------------------------------------------------------------------------
// JSON layout of the request.
// ---------------------------------------------------------------------------

/// `{"url": ..}`.
pub open spec fn image_url_json(url: Seq<char>) -> serde_json::Value {
    json_object_value(seq![("url"@, json_string_value(url))])
}

/// `{"type": .., "image_url": {"url": ..}}`.
pub open spec fn reference_json(r: (Seq<char>, Seq<char>)) -> serde_json::Value {
    json_object_value(seq![("type"@, json_string_value(r.0)), ("image_url"@, image_url_json(r.1))])
}

/// `{"options": {..}}`, or `{}` where the options are unset.
pub open spec fn provider_json(p: Option<Seq<(Seq<char>, serde_json::Value)>>) -> serde_json::Value {
    match p {
        Some(pairs) => json_object_value(seq![("options"@, json_object_value(pairs))]),
        None => json_object_value(Seq::empty()),
    }
}

/// The entries of a request's JSON body, in field order; unset optional
/// fields are left out.
pub open spec fn request_entries(f: ImageRequestFields) -> Seq<(Seq<char>, serde_json::Value)> {
    text_entry("model"@, f.model)
        + text_entry("prompt"@, f.prompt)
        + text_entry("aspect_ratio"@, f.aspect_ratio)
        + text_entry("background"@, f.background)
        + match f.input_references {
            Some(rs) => seq![("input_references"@, json_array_value(rs.map_values(|r: (Seq<char>, Seq<char>)| reference_json(r))))],
            None => Seq::empty(),
        }
        + u32_entry("n"@, f.n)
        + u32_entry("output_compression"@, f.output_compression)
        + text_entry("output_format"@, f.output_format)
        + match f.provider {
            Some(p) => seq![("provider"@, provider_json(p))],
            None => Seq::empty(),
        }
        + text_entry("quality"@, f.quality)
        + text_entry("resolution"@, f.resolution)
        + match f.seed {
            Some(s) => seq![("seed"@, json_i64_value(s))],
            None => Seq::empty(),
        }
        + text_entry("size"@, f.size)
        + match f.stream {
            Some(b) => seq![("stream"@, json_bool_value(b))],
            None => Seq::empty(),
        }
}

/// The request's JSON body.
pub open spec fn request_json(f: ImageRequestFields) -> serde_json::Value {
    json_object_value(request_entries(f))
}

/// The `"stream"` entry of a request's body, if any.
pub open spec fn stream_json(stream: Option<bool>) -> Option<serde_json::Value> {
    match stream {
        Some(b) => Some(json_bool_value(b)),
        None => None,
    }
}

proof fn lemma_single_entry_key(key: Seq<char>, v: serde_json::Value, k: Seq<char>)
    ensures
        has_key(seq![(key, v)], k) <==> key == k,
{
    if key == k {
        assert(seq![(key, v)][0].0 == k);
    }
}

/// The entries before `"stream"` in a request's body.
pub open spec fn entries_before_stream(f: ImageRequestFields) -> Seq<(Seq<char>, serde_json::Value)> {
    text_entry("model"@, f.model)
        + text_entry("prompt"@, f.prompt)
        + text_entry("aspect_ratio"@, f.aspect_ratio)
        + text_entry("background"@, f.background)
        + match f.input_references {
            Some(rs) => seq![("input_references"@, json_array_value(rs.map_values(|r: (Seq<char>, Seq<char>)| reference_json(r))))],
            None => Seq::empty(),
        }
        + u32_entry("n"@, f.n)
        + u32_entry("output_compression"@, f.output_compression)
        + text_entry("output_format"@, f.output_format)
        + match f.provider {
            Some(p) => seq![("provider"@, provider_json(p))],
            None => Seq::empty(),
        }
        + text_entry("quality"@, f.quality)
        + text_entry("resolution"@, f.resolution)
        + match f.seed {
            Some(s) => seq![("seed"@, json_i64_value(s))],
            None => Seq::empty(),
        }
        + text_entry("size"@, f.size)
}

proof fn lemma_text_entry_key(key: Seq<char>, o: Option<Seq<char>>, k: Seq<char>)
    ensures
        has_key(text_entry(key, o), k) ==> key == k,
{
    if let Some(s) = o {
        lemma_single_entry_key(key, json_string_value(s), k);
    }
}

proof fn lemma_u32_entry_key(key: Seq<char>, o: Option<u32>, k: Seq<char>)
    ensures
        has_key(u32_entry(key, o), k) ==> key == k,
{
    if let Some(n) = o {
        lemma_single_entry_key(key, json_u64_value(n as u64), k);
    }
}

/// The body's `"stream"` entry is the streaming flag the request carries,
/// and it is absent where the flag is unset: a request as built has none.
pub proof fn lemma_request_stream_entry(f: ImageRequestFields)
    ensures
        lookup(request_entries(f), "stream"@) == stream_json(f.stream),
        key_unique(request_entries(f), "stream"@),
{
    let k = "stream"@;
    reveal_strlit("stream");
    reveal_strlit("model");
    reveal_strlit("prompt");
    reveal_strlit("aspect_ratio");
    reveal_strlit("background");
    reveal_strlit("input_references");
    reveal_strlit("n");
    reveal_strlit("output_compression");
    reveal_strlit("output_format");
    reveal_strlit("provider");
    reveal_strlit("quality");
    reveal_strlit("resolution");
    reveal_strlit("seed");
    reveal_strlit("size");
    let p1 = text_entry("model"@, f.model);
    let p2 = text_entry("prompt"@, f.prompt);
    let p3 = text_entry("aspect_ratio"@, f.aspect_ratio);
    let p4 = text_entry("background"@, f.background);
    let p5: Seq<(Seq<char>, serde_json::Value)> = match f.input_references {
        Some(rs) => seq![("input_references"@, json_array_value(rs.map_values(|r: (Seq<char>, Seq<char>)| reference_json(r))))],
        None => Seq::empty(),
    };
    let p6 = u32_entry("n"@, f.n);
    let p7 = u32_entry("output_compression"@, f.output_compression);
    let p8 = text_entry("output_format"@, f.output_format);
    let p9: Seq<(Seq<char>, serde_json::Value)> = match f.provider {
        Some(p) => seq![("provider"@, provider_json(p))],
        None => Seq::empty(),
    };
    let p10 = text_entry("quality"@, f.quality);
    let p11 = text_entry("resolution"@, f.resolution);
    let p12: Seq<(Seq<char>, serde_json::Value)> = match f.seed {
        Some(s) => seq![("seed"@, json_i64_value(s))],
        None => Seq::empty(),
    };
    let p13 = text_entry("size"@, f.size);
    lemma_text_entry_key("model"@, f.model, k);
    lemma_text_entry_key("prompt"@, f.prompt, k);
    lemma_text_entry_key("aspect_ratio"@, f.aspect_ratio, k);
    lemma_text_entry_key("background"@, f.background, k);
    lemma_u32_entry_key("n"@, f.n, k);
    lemma_u32_entry_key("output_compression"@, f.output_compression, k);
    lemma_text_entry_key("output_format"@, f.output_format, k);
    lemma_text_entry_key("quality"@, f.quality, k);
    lemma_text_entry_key("resolution"@, f.resolution, k);
    lemma_text_entry_key("size"@, f.size, k);
    if let Some(rs) = f.input_references {
        lemma_single_entry_key("input_references"@, json_array_value(rs.map_values(|r: (Seq<char>, Seq<char>)| reference_json(r))), k);
    }
    if let Some(p) = f.provider {
        lemma_single_entry_key("provider"@, provider_json(p), k);
    }
    if let Some(sd) = f.seed {
        lemma_single_entry_key("seed"@, json_i64_value(sd), k);
    }
    assert("model"@.len() != k.len());
    assert("prompt"@[0] != k[0]);
    assert("aspect_ratio"@.len() != k.len());
    assert("background"@.len() != k.len());
    assert("input_references"@.len() != k.len());
    assert("n"@.len() != k.len());
    assert("output_compression"@.len() != k.len());
    assert("output_format"@.len() != k.len());
    assert("provider"@.len() != k.len());
    assert("quality"@.len() != k.len());
    assert("resolution"@.len() != k.len());
    assert("seed"@.len() != k.len());
    assert("size"@.len() != k.len());
    assert(!has_key(p1, k));
    assert(!has_key(p2, k));
    assert(!has_key(p3, k));
    assert(!has_key(p4, k));
    assert(!has_key(p5, k));
    assert(!has_key(p6, k));
    assert(!has_key(p7, k));
    assert(!has_key(p8, k));
    assert(!has_key(p9, k));
    assert(!has_key(p10, k));
    assert(!has_key(p11, k));
    assert(!has_key(p12, k));
    assert(!has_key(p13, k));
    lemma_has_key_concat(p1, p2, k);
    lemma_has_key_concat(p1 + p2, p3, k);
    lemma_has_key_concat(p1 + p2 + p3, p4, k);
    lemma_has_key_concat(p1 + p2 + p3 + p4, p5, k);
    lemma_has_key_concat(p1 + p2 + p3 + p4 + p5, p6, k);
    lemma_has_key_concat(p1 + p2 + p3 + p4 + p5 + p6, p7, k);
    lemma_has_key_concat(p1 + p2 + p3 + p4 + p5 + p6 + p7, p8, k);
    lemma_has_key_concat(p1 + p2 + p3 + p4 + p5 + p6 + p7 + p8, p9, k);
    lemma_has_key_concat(p1 + p2 + p3 + p4 + p5 + p6 + p7 + p8 + p9, p10, k);
    lemma_has_key_concat(p1 + p2 + p3 + p4 + p5 + p6 + p7 + p8 + p9 + p10, p11, k);
    lemma_has_key_concat(p1 + p2 + p3 + p4 + p5 + p6 + p7 + p8 + p9 + p10 + p11, p12, k);
    lemma_has_key_concat(p1 + p2 + p3 + p4 + p5 + p6 + p7 + p8 + p9 + p10 + p11 + p12, p13, k);
    let pre = entries_before_stream(f);
    assert(pre == p1 + p2 + p3 + p4 + p5 + p6 + p7 + p8 + p9 + p10 + p11 + p12 + p13);
    assert(!has_key(pre, k));
    let e = request_entries(f);
    match f.stream {
        Some(b) => {
            assert(e == pre + seq![(k, json_bool_value(b))]);
            assert(e[pre.len() as int].0 == k);
            assert(has_key(e, k));
            let i = choose|i: int| 0 <= i < e.len() && #[trigger] e[i].0 == k;
            if i < pre.len() {
                assert(pre[i] == e[i]);
            }
            assert forall|a: int, b: int| 0 <= a < b < e.len() && #[trigger] e[a].0 == k implies #[trigger] e[b].0 != k by {
                assert(e[a] == pre[a]);
                assert(pre[a].0 == k);
            }
        },
        None => {
            assert(e == pre + Seq::<(Seq<char>, serde_json::Value)>::empty());
            assert(e =~= pre);
            assert forall|a: int, b: int| 0 <= a < b < e.len() && #[trigger] e[a].0 == k implies #[trigger] e[b].0 != k by {
                assert(pre[a].0 == k);
            }
        },
    }
}

/// The position of each key in an image generation request's body, in
/// field order; other keys come after them all.
#[verifier::opaque]
pub open spec fn image_body_key_pos(k: Seq<char>) -> int {
    if k == "model"@ {
        0
    } else if k == "prompt"@ {
        1
    } else if k == "aspect_ratio"@ {
        2
    } else if k == "background"@ {
        3
    } else if k == "input_references"@ {
        4
    } else if k == "n"@ {
        5
    } else if k == "output_compression"@ {
        6
    } else if k == "output_format"@ {
        7
    } else if k == "provider"@ {
        8
    } else if k == "quality"@ {
        9
    } else if k == "resolution"@ {
        10
    } else if k == "seed"@ {
        11
    } else if k == "size"@ {
        12
    } else if k == "stream"@ {
        13
    } else {
        14
    }
}

proof fn lemma_image_body_key_pos_0()
    ensures
        image_body_key_pos("model"@) == 0,
        image_body_key_pos("prompt"@) == 1,
        image_body_key_pos("aspect_ratio"@) == 2,
        image_body_key_pos("background"@) == 3,
        image_body_key_pos("input_references"@) == 4,
        image_body_key_pos("n"@) == 5,
        image_body_key_pos("output_compression"@) == 6,
        image_body_key_pos("output_format"@) == 7,
{
    reveal(image_body_key_pos);
    reveal_strlit("model");
    reveal_strlit("prompt");
    reveal_strlit("aspect_ratio");
    reveal_strlit("background");
    reveal_strlit("input_references");
    reveal_strlit("n");
    reveal_strlit("output_compression");
    reveal_strlit("output_format");
    assert("model"@.len() != "prompt"@.len());
    assert("model"@.len() != "aspect_ratio"@.len());
    assert("prompt"@.len() != "aspect_ratio"@.len());
    assert("model"@.len() != "background"@.len());
    assert("prompt"@.len() != "background"@.len());
    assert("aspect_ratio"@.len() != "background"@.len());
    assert("model"@.len() != "input_references"@.len());
    assert("prompt"@.len() != "input_references"@.len());
    assert("aspect_ratio"@.len() != "input_references"@.len());
    assert("background"@.len() != "input_references"@.len());
    assert("model"@.len() != "n"@.len());
    assert("prompt"@.len() != "n"@.len());
    assert("aspect_ratio"@.len() != "n"@.len());
    assert("background"@.len() != "n"@.len());
    assert("input_references"@.len() != "n"@.len());
    assert("model"@.len() != "output_compression"@.len());
    assert("prompt"@.len() != "output_compression"@.len());
    assert("aspect_ratio"@.len() != "output_compression"@.len());
    assert("background"@.len() != "output_compression"@.len());
    assert("input_references"@.len() != "output_compression"@.len());
    assert("n"@.len() != "output_compression"@.len());
    assert("model"@.len() != "output_format"@.len());
    assert("prompt"@.len() != "output_format"@.len());
    assert("aspect_ratio"@.len() != "output_format"@.len());
    assert("background"@.len() != "output_format"@.len());
    assert("input_references"@.len() != "output_format"@.len());
    assert("n"@.len() != "output_format"@.len());
    assert("output_compression"@.len() != "output_format"@.len());
}

proof fn lemma_image_body_key_pos_1()
    ensures
        image_body_key_pos("provider"@) == 8,
        image_body_key_pos("quality"@) == 9,
        image_body_key_pos("resolution"@) == 10,
        image_body_key_pos("seed"@) == 11,
        image_body_key_pos("size"@) == 12,
        image_body_key_pos("stream"@) == 13,
{
    reveal(image_body_key_pos);
    reveal_strlit("model");
    reveal_strlit("prompt");
    reveal_strlit("aspect_ratio");
    reveal_strlit("background");
    reveal_strlit("input_references");
    reveal_strlit("n");
    reveal_strlit("output_compression");
    reveal_strlit("output_format");
    reveal_strlit("provider");
    reveal_strlit("quality");
    reveal_strlit("resolution");
    reveal_strlit("seed");
    reveal_strlit("size");
    reveal_strlit("stream");
    assert("model"@.len() != "provider"@.len());
    assert("prompt"@.len() != "provider"@.len());
    assert("aspect_ratio"@.len() != "provider"@.len());
    assert("background"@.len() != "provider"@.len());
    assert("input_references"@.len() != "provider"@.len());
    assert("n"@.len() != "provider"@.len());
    assert("output_compression"@.len() != "provider"@.len());
    assert("output_format"@.len() != "provider"@.len());
    assert("model"@.len() != "quality"@.len());
    assert("prompt"@.len() != "quality"@.len());
    assert("aspect_ratio"@.len() != "quality"@.len());
    assert("background"@.len() != "quality"@.len());
    assert("input_references"@.len() != "quality"@.len());
    assert("n"@.len() != "quality"@.len());
    assert("output_compression"@.len() != "quality"@.len());
    assert("output_format"@.len() != "quality"@.len());
    assert("provider"@.len() != "quality"@.len());
    assert("model"@.len() != "resolution"@.len());
    assert("prompt"@.len() != "resolution"@.len());
    assert("aspect_ratio"@.len() != "resolution"@.len());
    assert("background"@[0] != "resolution"@[0]);
    assert("input_references"@.len() != "resolution"@.len());
    assert("n"@.len() != "resolution"@.len());
    assert("output_compression"@.len() != "resolution"@.len());
    assert("output_format"@.len() != "resolution"@.len());
    assert("provider"@.len() != "resolution"@.len());
    assert("quality"@.len() != "resolution"@.len());
    assert("model"@.len() != "seed"@.len());
    assert("prompt"@.len() != "seed"@.len());
    assert("aspect_ratio"@.len() != "seed"@.len());
    assert("background"@.len() != "seed"@.len());
    assert("input_references"@.len() != "seed"@.len());
    assert("n"@.len() != "seed"@.len());
    assert("output_compression"@.len() != "seed"@.len());
    assert("output_format"@.len() != "seed"@.len());
    assert("provider"@.len() != "seed"@.len());
    assert("quality"@.len() != "seed"@.len());
    assert("resolution"@.len() != "seed"@.len());
    assert("model"@.len() != "size"@.len());
    assert("prompt"@.len() != "size"@.len());
    assert("aspect_ratio"@.len() != "size"@.len());
    assert("background"@.len() != "size"@.len());
    assert("input_references"@.len() != "size"@.len());
    assert("n"@.len() != "size"@.len());
    assert("output_compression"@.len() != "size"@.len());
    assert("output_format"@.len() != "size"@.len());
    assert("provider"@.len() != "size"@.len());
    assert("quality"@.len() != "size"@.len());
    assert("resolution"@.len() != "size"@.len());
    assert("seed"@[1] != "size"@[1]);
    assert("model"@.len() != "stream"@.len());
    assert("prompt"@[0] != "stream"@[0]);
    assert("aspect_ratio"@.len() != "stream"@.len());
    assert("background"@.len() != "stream"@.len());
    assert("input_references"@.len() != "stream"@.len());
    assert("n"@.len() != "stream"@.len());
    assert("output_compression"@.len() != "stream"@.len());
    assert("output_format"@.len() != "stream"@.len());
    assert("provider"@.len() != "stream"@.len());
    assert("quality"@.len() != "stream"@.len());
    assert("resolution"@.len() != "stream"@.len());
    assert("seed"@.len() != "stream"@.len());
    assert("size"@.len() != "stream"@.len());
}

/// The values under each key of an image generation request's body.
#[verifier::rlimit(100)]
proof fn lemma_request_body_values_0(f: ImageRequestFields)
    ensures
        keys_distinct(request_entries(f)),
        value_under(request_entries(f), "model"@) == (match f.model { Some(s) => Some(json_string_value(s)), None => None }),
        value_under(request_entries(f), "prompt"@) == (match f.prompt { Some(s) => Some(json_string_value(s)), None => None }),
        value_under(request_entries(f), "aspect_ratio"@) == (match f.aspect_ratio { Some(s) => Some(json_string_value(s)), None => None }),
        value_under(request_entries(f), "background"@) == (match f.background { Some(s) => Some(json_string_value(s)), None => None }),
{
    lemma_image_body_key_pos_0();
    lemma_image_body_key_pos_1();
    let pos = |k: Seq<char>| image_body_key_pos(k);
    let e0: Seq<(Seq<char>, serde_json::Value)> = text_entry("model"@, f.model);
    lemma_entry_within(e0, "model"@, pos);
    let e1: Seq<(Seq<char>, serde_json::Value)> = text_entry("prompt"@, f.prompt);
    lemma_entry_within(e1, "prompt"@, pos);
    let e2: Seq<(Seq<char>, serde_json::Value)> = text_entry("aspect_ratio"@, f.aspect_ratio);
    lemma_entry_within(e2, "aspect_ratio"@, pos);
    let e3: Seq<(Seq<char>, serde_json::Value)> = text_entry("background"@, f.background);
    lemma_entry_within(e3, "background"@, pos);
    let e4: Seq<(Seq<char>, serde_json::Value)> = match f.input_references {
            Some(rs) => seq![("input_references"@, json_array_value(rs.map_values(|r: (Seq<char>, Seq<char>)| reference_json(r))))],
            None => Seq::empty(),
        };
    lemma_entry_within(e4, "input_references"@, pos);
    let e5: Seq<(Seq<char>, serde_json::Value)> = u32_entry("n"@, f.n);
    lemma_entry_within(e5, "n"@, pos);
    let e6: Seq<(Seq<char>, serde_json::Value)> = u32_entry("output_compression"@, f.output_compression);
    lemma_entry_within(e6, "output_compression"@, pos);
    let e7: Seq<(Seq<char>, serde_json::Value)> = text_entry("output_format"@, f.output_format);
    lemma_entry_within(e7, "output_format"@, pos);
    let e8: Seq<(Seq<char>, serde_json::Value)> = match f.provider {
            Some(p) => seq![("provider"@, provider_json(p))],
            None => Seq::empty(),
        };
    lemma_entry_within(e8, "provider"@, pos);
    let e9: Seq<(Seq<char>, serde_json::Value)> = text_entry("quality"@, f.quality);
    lemma_entry_within(e9, "quality"@, pos);
    let e10: Seq<(Seq<char>, serde_json::Value)> = text_entry("resolution"@, f.resolution);
    lemma_entry_within(e10, "resolution"@, pos);
    let e11: Seq<(Seq<char>, serde_json::Value)> = match f.seed {
            Some(s) => seq![("seed"@, json_i64_value(s))],
            None => Seq::empty(),
        };
    lemma_entry_within(e11, "seed"@, pos);
    let e12: Seq<(Seq<char>, serde_json::Value)> = text_entry("size"@, f.size);
    lemma_entry_within(e12, "size"@, pos);
    let e13: Seq<(Seq<char>, serde_json::Value)> = match f.stream {
            Some(b) => seq![("stream"@, json_bool_value(b))],
            None => Seq::empty(),
        };
    lemma_entry_within(e13, "stream"@, pos);
    let a0 = e0;
    let a1 = a0 + e1;
    lemma_within_concat(a0, e1, pos, 0, 1, 2);
    let a2 = a1 + e2;
    lemma_within_concat(a1, e2, pos, 0, 2, 3);
    let a3 = a2 + e3;
    lemma_within_concat(a2, e3, pos, 0, 3, 4);
    let a4 = a3 + e4;
    lemma_within_concat(a3, e4, pos, 0, 4, 5);
    let a5 = a4 + e5;
    lemma_within_concat(a4, e5, pos, 0, 5, 6);
    let a6 = a5 + e6;
    lemma_within_concat(a5, e6, pos, 0, 6, 7);
    let a7 = a6 + e7;
    lemma_within_concat(a6, e7, pos, 0, 7, 8);
    let a8 = a7 + e8;
    lemma_within_concat(a7, e8, pos, 0, 8, 9);
    let a9 = a8 + e9;
    lemma_within_concat(a8, e9, pos, 0, 9, 10);
    let a10 = a9 + e10;
    lemma_within_concat(a9, e10, pos, 0, 10, 11);
    let a11 = a10 + e11;
    lemma_within_concat(a10, e11, pos, 0, 11, 12);
    let a12 = a11 + e12;
    lemma_within_concat(a11, e12, pos, 0, 12, 13);
    let a13 = a12 + e13;
    lemma_within_concat(a12, e13, pos, 0, 13, 14);
    lemma_within_distinct(a13, pos, 0, 14);
}

/// The values under each key of an image generation request's body.
#[verifier::rlimit(100)]
proof fn lemma_request_body_values_1(f: ImageRequestFields)
    ensures
        value_under(request_entries(f), "input_references"@) == (match f.input_references { Some(rs) => Some(json_array_value(rs.map_values(|r: (Seq<char>, Seq<char>)| reference_json(r)))), None => None }),
        value_under(request_entries(f), "n"@) == (match f.n { Some(n) => Some(json_u64_value(n as u64)), None => None }),
        value_under(request_entries(f), "output_compression"@) == (match f.output_compression { Some(n) => Some(json_u64_value(n as u64)), None => None }),
        value_under(request_entries(f), "output_format"@) == (match f.output_format { Some(s) => Some(json_string_value(s)), None => None }),
{
    lemma_image_body_key_pos_0();
    lemma_image_body_key_pos_1();
    let pos = |k: Seq<char>| image_body_key_pos(k);
    let e0: Seq<(Seq<char>, serde_json::Value)> = text_entry("model"@, f.model);
    lemma_entry_within(e0, "model"@, pos);
    let e1: Seq<(Seq<char>, serde_json::Value)> = text_entry("prompt"@, f.prompt);
    lemma_entry_within(e1, "prompt"@, pos);
    let e2: Seq<(Seq<char>, serde_json::Value)> = text_entry("aspect_ratio"@, f.aspect_ratio);
    lemma_entry_within(e2, "aspect_ratio"@, pos);
    let e3: Seq<(Seq<char>, serde_json::Value)> = text_entry("background"@, f.background);
    lemma_entry_within(e3, "background"@, pos);
    let e4: Seq<(Seq<char>, serde_json::Value)> = match f.input_references {
            Some(rs) => seq![("input_references"@, json_array_value(rs.map_values(|r: (Seq<char>, Seq<char>)| reference_json(r))))],
            None => Seq::empty(),
        };
    lemma_entry_within(e4, "input_references"@, pos);
    let e5: Seq<(Seq<char>, serde_json::Value)> = u32_entry("n"@, f.n);
    lemma_entry_within(e5, "n"@, pos);
    let e6: Seq<(Seq<char>, serde_json::Value)> = u32_entry("output_compression"@, f.output_compression);
    lemma_entry_within(e6, "output_compression"@, pos);
    let e7: Seq<(Seq<char>, serde_json::Value)> = text_entry("output_format"@, f.output_format);
    lemma_entry_within(e7, "output_format"@, pos);
    let e8: Seq<(Seq<char>, serde_json::Value)> = match f.provider {
            Some(p) => seq![("provider"@, provider_json(p))],
            None => Seq::empty(),
        };
    lemma_entry_within(e8, "provider"@, pos);
    let e9: Seq<(Seq<char>, serde_json::Value)> = text_entry("quality"@, f.quality);
    lemma_entry_within(e9, "quality"@, pos);
    let e10: Seq<(Seq<char>, serde_json::Value)> = text_entry("resolution"@, f.resolution);
    lemma_entry_within(e10, "resolution"@, pos);
    let e11: Seq<(Seq<char>, serde_json::Value)> = match f.seed {
            Some(s) => seq![("seed"@, json_i64_value(s))],
            None => Seq::empty(),
        };
    lemma_entry_within(e11, "seed"@, pos);
    let e12: Seq<(Seq<char>, serde_json::Value)> = text_entry("size"@, f.size);
    lemma_entry_within(e12, "size"@, pos);
    let e13: Seq<(Seq<char>, serde_json::Value)> = match f.stream {
            Some(b) => seq![("stream"@, json_bool_value(b))],
            None => Seq::empty(),
        };
    lemma_entry_within(e13, "stream"@, pos);
    let a0 = e0;
    let a1 = a0 + e1;
    lemma_within_concat(a0, e1, pos, 0, 1, 2);
    let a2 = a1 + e2;
    lemma_within_concat(a1, e2, pos, 0, 2, 3);
    let a3 = a2 + e3;
    lemma_within_concat(a2, e3, pos, 0, 3, 4);
    let a4 = a3 + e4;
    lemma_within_concat(a3, e4, pos, 0, 4, 5);
    let a5 = a4 + e5;
    lemma_within_concat(a4, e5, pos, 0, 5, 6);
    let a6 = a5 + e6;
    lemma_within_concat(a5, e6, pos, 0, 6, 7);
    let a7 = a6 + e7;
    lemma_within_concat(a6, e7, pos, 0, 7, 8);
    let a8 = a7 + e8;
    lemma_within_concat(a7, e8, pos, 0, 8, 9);
    let a9 = a8 + e9;
    lemma_within_concat(a8, e9, pos, 0, 9, 10);
    let a10 = a9 + e10;
    lemma_within_concat(a9, e10, pos, 0, 10, 11);
    let a11 = a10 + e11;
    lemma_within_concat(a10, e11, pos, 0, 11, 12);
    let a12 = a11 + e12;
    lemma_within_concat(a11, e12, pos, 0, 12, 13);
    let a13 = a12 + e13;
    lemma_within_concat(a12, e13, pos, 0, 13, 14);
    lemma_within_distinct(a13, pos, 0, 14);
}

/// The values under each key of an image generation request's body.
#[verifier::rlimit(100)]
proof fn lemma_request_body_values_2(f: ImageRequestFields)
    ensures
        value_under(request_entries(f), "provider"@) == (match f.provider { Some(p) => Some(provider_json(p)), None => None }),
        value_under(request_entries(f), "quality"@) == (match f.quality { Some(s) => Some(json_string_value(s)), None => None }),
        value_under(request_entries(f), "resolution"@) == (match f.resolution { Some(s) => Some(json_string_value(s)), None => None }),
{
    lemma_image_body_key_pos_0();
    lemma_image_body_key_pos_1();
    let pos = |k: Seq<char>| image_body_key_pos(k);
    let e0: Seq<(Seq<char>, serde_json::Value)> = text_entry("model"@, f.model);
    lemma_entry_within(e0, "model"@, pos);
    let e1: Seq<(Seq<char>, serde_json::Value)> = text_entry("prompt"@, f.prompt);
    lemma_entry_within(e1, "prompt"@, pos);
    let e2: Seq<(Seq<char>, serde_json::Value)> = text_entry("aspect_ratio"@, f.aspect_ratio);
    lemma_entry_within(e2, "aspect_ratio"@, pos);
    let e3: Seq<(Seq<char>, serde_json::Value)> = text_entry("background"@, f.background);
    lemma_entry_within(e3, "background"@, pos);
    let e4: Seq<(Seq<char>, serde_json::Value)> = match f.input_references {
            Some(rs) => seq![("input_references"@, json_array_value(rs.map_values(|r: (Seq<char>, Seq<char>)| reference_json(r))))],
            None => Seq::empty(),
        };
    lemma_entry_within(e4, "input_references"@, pos);
    let e5: Seq<(Seq<char>, serde_json::Value)> = u32_entry("n"@, f.n);
    lemma_entry_within(e5, "n"@, pos);
    let e6: Seq<(Seq<char>, serde_json::Value)> = u32_entry("output_compression"@, f.output_compression);
    lemma_entry_within(e6, "output_compression"@, pos);
    let e7: Seq<(Seq<char>, serde_json::Value)> = text_entry("output_format"@, f.output_format);
    lemma_entry_within(e7, "output_format"@, pos);
    let e8: Seq<(Seq<char>, serde_json::Value)> = match f.provider {
            Some(p) => seq![("provider"@, provider_json(p))],
            None => Seq::empty(),
        };
    lemma_entry_within(e8, "provider"@, pos);
    let e9: Seq<(Seq<char>, serde_json::Value)> = text_entry("quality"@, f.quality);
    lemma_entry_within(e9, "quality"@, pos);
    let e10: Seq<(Seq<char>, serde_json::Value)> = text_entry("resolution"@, f.resolution);
    lemma_entry_within(e10, "resolution"@, pos);
    let e11: Seq<(Seq<char>, serde_json::Value)> = match f.seed {
            Some(s) => seq![("seed"@, json_i64_value(s))],
            None => Seq::empty(),
        };
    lemma_entry_within(e11, "seed"@, pos);
    let e12: Seq<(Seq<char>, serde_json::Value)> = text_entry("size"@, f.size);
    lemma_entry_within(e12, "size"@, pos);
    let e13: Seq<(Seq<char>, serde_json::Value)> = match f.stream {
            Some(b) => seq![("stream"@, json_bool_value(b))],
            None => Seq::empty(),
        };
    lemma_entry_within(e13, "stream"@, pos);
    let a0 = e0;
    let a1 = a0 + e1;
    lemma_within_concat(a0, e1, pos, 0, 1, 2);
    let a2 = a1 + e2;
    lemma_within_concat(a1, e2, pos, 0, 2, 3);
    let a3 = a2 + e3;
    lemma_within_concat(a2, e3, pos, 0, 3, 4);
    let a4 = a3 + e4;
    lemma_within_concat(a3, e4, pos, 0, 4, 5);
    let a5 = a4 + e5;
    lemma_within_concat(a4, e5, pos, 0, 5, 6);
    let a6 = a5 + e6;
    lemma_within_concat(a5, e6, pos, 0, 6, 7);
    let a7 = a6 + e7;
    lemma_within_concat(a6, e7, pos, 0, 7, 8);
    let a8 = a7 + e8;
    lemma_within_concat(a7, e8, pos, 0, 8, 9);
    let a9 = a8 + e9;
    lemma_within_concat(a8, e9, pos, 0, 9, 10);
    let a10 = a9 + e10;
    lemma_within_concat(a9, e10, pos, 0, 10, 11);
    let a11 = a10 + e11;
    lemma_within_concat(a10, e11, pos, 0, 11, 12);
    let a12 = a11 + e12;
    lemma_within_concat(a11, e12, pos, 0, 12, 13);
    let a13 = a12 + e13;
    lemma_within_concat(a12, e13, pos, 0, 13, 14);
    lemma_within_distinct(a13, pos, 0, 14);
}

/// The values under each key of an image generation request's body.
#[verifier::rlimit(100)]
proof fn lemma_request_body_values_3(f: ImageRequestFields)
    ensures
        value_under(request_entries(f), "seed"@) == (match f.seed { Some(s) => Some(json_i64_value(s)), None => None }),
        value_under(request_entries(f), "size"@) == (match f.size { Some(s) => Some(json_string_value(s)), None => None }),
        value_under(request_entries(f), "stream"@) == (match f.stream { Some(b) => Some(json_bool_value(b)), None => None }),
{
    lemma_image_body_key_pos_0();
    lemma_image_body_key_pos_1();
    let pos = |k: Seq<char>| image_body_key_pos(k);
    let e0: Seq<(Seq<char>, serde_json::Value)> = text_entry("model"@, f.model);
    lemma_entry_within(e0, "model"@, pos);
    let e1: Seq<(Seq<char>, serde_json::Value)> = text_entry("prompt"@, f.prompt);
    lemma_entry_within(e1, "prompt"@, pos);
    let e2: Seq<(Seq<char>, serde_json::Value)> = text_entry("aspect_ratio"@, f.aspect_ratio);
    lemma_entry_within(e2, "aspect_ratio"@, pos);
    let e3: Seq<(Seq<char>, serde_json::Value)> = text_entry("background"@, f.background);
    lemma_entry_within(e3, "background"@, pos);
    let e4: Seq<(Seq<char>, serde_json::Value)> = match f.input_references {
            Some(rs) => seq![("input_references"@, json_array_value(rs.map_values(|r: (Seq<char>, Seq<char>)| reference_json(r))))],
            None => Seq::empty(),
        };
    lemma_entry_within(e4, "input_references"@, pos);
    let e5: Seq<(Seq<char>, serde_json::Value)> = u32_entry("n"@, f.n);
    lemma_entry_within(e5, "n"@, pos);
    let e6: Seq<(Seq<char>, serde_json::Value)> = u32_entry("output_compression"@, f.output_compression);
    lemma_entry_within(e6, "output_compression"@, pos);
    let e7: Seq<(Seq<char>, serde_json::Value)> = text_entry("output_format"@, f.output_format);
    lemma_entry_within(e7, "output_format"@, pos);
    let e8: Seq<(Seq<char>, serde_json::Value)> = match f.provider {
            Some(p) => seq![("provider"@, provider_json(p))],
            None => Seq::empty(),
        };
    lemma_entry_within(e8, "provider"@, pos);
    let e9: Seq<(Seq<char>, serde_json::Value)> = text_entry("quality"@, f.quality);
    lemma_entry_within(e9, "quality"@, pos);
    let e10: Seq<(Seq<char>, serde_json::Value)> = text_entry("resolution"@, f.resolution);
    lemma_entry_within(e10, "resolution"@, pos);
    let e11: Seq<(Seq<char>, serde_json::Value)> = match f.seed {
            Some(s) => seq![("seed"@, json_i64_value(s))],
            None => Seq::empty(),
        };
    lemma_entry_within(e11, "seed"@, pos);
    let e12: Seq<(Seq<char>, serde_json::Value)> = text_entry("size"@, f.size);
    lemma_entry_within(e12, "size"@, pos);
    let e13: Seq<(Seq<char>, serde_json::Value)> = match f.stream {
            Some(b) => seq![("stream"@, json_bool_value(b))],
            None => Seq::empty(),
        };
    lemma_entry_within(e13, "stream"@, pos);
    let a0 = e0;
    let a1 = a0 + e1;
    lemma_within_concat(a0, e1, pos, 0, 1, 2);
    let a2 = a1 + e2;
    lemma_within_concat(a1, e2, pos, 0, 2, 3);
    let a3 = a2 + e3;
    lemma_within_concat(a2, e3, pos, 0, 3, 4);
    let a4 = a3 + e4;
    lemma_within_concat(a3, e4, pos, 0, 4, 5);
    let a5 = a4 + e5;
    lemma_within_concat(a4, e5, pos, 0, 5, 6);
    let a6 = a5 + e6;
    lemma_within_concat(a5, e6, pos, 0, 6, 7);
    let a7 = a6 + e7;
    lemma_within_concat(a6, e7, pos, 0, 7, 8);
    let a8 = a7 + e8;
    lemma_within_concat(a7, e8, pos, 0, 8, 9);
    let a9 = a8 + e9;
    lemma_within_concat(a8, e9, pos, 0, 9, 10);
    let a10 = a9 + e10;
    lemma_within_concat(a9, e10, pos, 0, 10, 11);
    let a11 = a10 + e11;
    lemma_within_concat(a10, e11, pos, 0, 11, 12);
    let a12 = a11 + e12;
    lemma_within_concat(a11, e12, pos, 0, 12, 13);
    let a13 = a12 + e13;
    lemma_within_concat(a12, e13, pos, 0, 13, 14);
    lemma_within_distinct(a13, pos, 0, 14);
}

/// Every field of an image generation request is written into its JSON body
/// under its own key, as the JSON value of its type, and a field left unset
/// is absent: setting a field is never lost, and no key occurs twice.
pub proof fn lemma_request_body_fields(f: ImageRequestFields)
    ensures
        keys_distinct(request_entries(f)),
        lookup(request_entries(f), "model"@) == (match f.model { Some(s) => Some(json_string_value(s)), None => None }),
        lookup(request_entries(f), "prompt"@) == (match f.prompt { Some(s) => Some(json_string_value(s)), None => None }),
        lookup(request_entries(f), "aspect_ratio"@) == (match f.aspect_ratio { Some(s) => Some(json_string_value(s)), None => None }),
        lookup(request_entries(f), "background"@) == (match f.background { Some(s) => Some(json_string_value(s)), None => None }),
        lookup(request_entries(f), "input_references"@) == (match f.input_references { Some(rs) => Some(json_array_value(rs.map_values(|r: (Seq<char>, Seq<char>)| reference_json(r)))), None => None }),
        lookup(request_entries(f), "n"@) == (match f.n { Some(n) => Some(json_u64_value(n as u64)), None => None }),
        lookup(request_entries(f), "output_compression"@) == (match f.output_compression { Some(n) => Some(json_u64_value(n as u64)), None => None }),
        lookup(request_entries(f), "output_format"@) == (match f.output_format { Some(s) => Some(json_string_value(s)), None => None }),
        lookup(request_entries(f), "provider"@) == (match f.provider { Some(p) => Some(provider_json(p)), None => None }),
        lookup(request_entries(f), "quality"@) == (match f.quality { Some(s) => Some(json_string_value(s)), None => None }),
        lookup(request_entries(f), "resolution"@) == (match f.resolution { Some(s) => Some(json_string_value(s)), None => None }),
        lookup(request_entries(f), "seed"@) == (match f.seed { Some(s) => Some(json_i64_value(s)), None => None }),
        lookup(request_entries(f), "size"@) == (match f.size { Some(s) => Some(json_string_value(s)), None => None }),
        lookup(request_entries(f), "stream"@) == (match f.stream { Some(b) => Some(json_bool_value(b)), None => None }),
{
    lemma_request_body_values_0(f);
    lemma_request_body_values_1(f);
    lemma_request_body_values_2(f);
    lemma_request_body_values_3(f);
    lemma_value_under(request_entries(f), "model"@);
    lemma_value_under(request_entries(f), "prompt"@);
    lemma_value_under(request_entries(f), "aspect_ratio"@);
    lemma_value_under(request_entries(f), "background"@);
    lemma_value_under(request_entries(f), "input_references"@);
    lemma_value_under(request_entries(f), "n"@);
    lemma_value_under(request_entries(f), "output_compression"@);
    lemma_value_under(request_entries(f), "output_format"@);
    lemma_value_under(request_entries(f), "provider"@);
    lemma_value_under(request_entries(f), "quality"@);
    lemma_value_under(request_entries(f), "resolution"@);
    lemma_value_under(request_entries(f), "seed"@);
    lemma_value_under(request_entries(f), "size"@);
    lemma_value_under(request_entries(f), "stream"@);
}

impl ImageUrl {
    /// An image URL payload.
    pub fn new(url: &str) -> (r: ImageUrl)
        ensures
            r.url@ == url@,
    {
        ImageUrl { url: url.to_string() }
    }

    /// The payload written as JSON.
    pub fn to_json_value(&self) -> (r: serde_json::Value)
        ensures
            r == image_url_json(self.url@),
    {
        let entries = vec![(("url").to_string(), json_string(self.url.as_str()))];
        assert(pairs_view(entries@) =~= seq![("url"@, json_string_value(self.url@))]);
        json_object(entries)
    }
}

impl Clone for ImageUrl {
    /// A copy with the same URL.
    fn clone(&self) -> (r: ImageUrl)
        ensures
            r.url@ == self.url@,
    {
        ImageUrl { url: self.url.clone() }
    }
}

impl ImageInputReference {
    /// A reference to the image at `url`; the same as [`Self::image_url`].
    pub fn new(url: &str) -> (r: ImageInputReference)
        ensures
            r.content_type@ == "image_url"@,
            r.image_url.url@ == url@,
    {
        Self::image_url(url)
    }

    /// A reference to the image at `url`, of type `"image_url"`.
    pub fn image_url(url: &str) -> (r: ImageInputReference)
        ensures
            r.content_type@ == "image_url"@,
            r.image_url.url@ == url@,
    {
        ImageInputReference { content_type: "image_url".to_string(), image_url: ImageUrl::new(url) }
    }

    /// The reference written as JSON.
    pub fn to_json_value(&self) -> (r: serde_json::Value)
        ensures
            r == reference_json(reference_view(*self)),
    {
        let entries = vec![
            (("type").to_string(), json_string(self.content_type.as_str())),
            (("image_url").to_string(), self.image_url.to_json_value()),
        ];
        assert(pairs_view(entries@) =~= seq![
            ("type"@, json_string_value(self.content_type@)),
            ("image_url"@, image_url_json(self.image_url.url@)),
        ]);
        json_object(entries)
    }
}

impl Clone for ImageInputReference {
    /// A copy with the same type and URL.
    fn clone(&self) -> (r: ImageInputReference)
        ensures
            reference_view(r) == reference_view(*self),
    {
        ImageInputReference { content_type: self.content_type.clone(), image_url: self.image_url.clone() }
    }
}

impl ImageProviderOptions {
    /// Provider options holding `options`.
    pub fn new(options: JsonMap) -> (r: ImageProviderOptions)
        ensures
            provider_view(r) == Some(options.pairs()),
    {
        ImageProviderOptions { options: Some(options) }
    }

    /// The options written as JSON.
    pub fn to_json_value(&self) -> (r: serde_json::Value)
        ensures
            r == provider_json(provider_view(*self)),
    {
        match &self.options {
            Some(m) => {
                let entries = vec![(("options").to_string(), m.to_json_value())];
                assert(pairs_view(entries@) =~= seq![("options"@, json_object_value(m.pairs()))]);
                json_object(entries)
            },
            None => {
                let entries: Vec<(String, serde_json::Value)> = Vec::new();
                assert(pairs_view(entries@) =~= Seq::<(Seq<char>, serde_json::Value)>::empty());
                json_object(entries)
            },
        }
    }
}

impl Default for ImageProviderOptions {
    /// Options left unset.
    fn default() -> (r: ImageProviderOptions)
        ensures
            r.options is None,
    {
        ImageProviderOptions { options: None }
    }
}

fn references_json(refs: &Vec<ImageInputReference>) -> (r: serde_json::Value)
    ensures
        r == json_array_value(references_view(refs@).map_values(|x: (Seq<char>, Seq<char>)| reference_json(x))),
{
    let mut items: Vec<serde_json::Value> = Vec::new();
    let mut i: usize = 0;
    while i < refs.len()
        invariant
            i <= refs@.len(),
            items@ =~= references_view(refs@).subrange(0, i as int).map_values(|x: (Seq<char>, Seq<char>)| reference_json(x)),
        decreases refs@.len() - i,
    {
        items.push(refs[i].to_json_value());
        i = i + 1;
    }
    assert(references_view(refs@).subrange(0, refs@.len() as int) =~= references_view(refs@));
    json_array(items)
}

impl ImageGenerationRequest {
    /// A builder with nothing set.
    pub fn builder() -> (b: ImageGenerationRequestBuilder)
        ensures
            b@ == empty_fields(),
    {
        ImageGenerationRequestBuilder {
            model: None,
            prompt: None,
            aspect_ratio: None,
            background: None,
            input_references: None,
            n: None,
            output_compression: None,
            output_format: None,
            provider: None,
            quality: None,
            resolution: None,
            seed: None,
            size: None,
        }
    }

    /// The streaming flag the request carries (unset unless a body was
    /// made for sending).
    pub fn stream_flag(&self) -> (r: Option<bool>)
        ensures
            r == self@.stream,
    {
        self.stream
    }

    /// The request's JSON body with the streaming flag it carries.
    pub fn to_json_value(&self) -> (r: serde_json::Value)
        ensures
            r == request_json(self@),
            lookup(json_entries_of(r)->0, "stream"@) == stream_json(self@.stream),
    {
        self.json_with_stream(self.stream)
    }

    /// The body sent to `POST /images`: the request's JSON with `"stream"`
    /// set to `stream`.
    pub fn request_body(&self, stream: bool) -> (r: serde_json::Value)
        ensures
            r == request_json(ImageRequestFields { stream: Some(stream), ..self@ }),
            lookup(json_entries_of(r)->0, "stream"@) == Some(json_bool_value(stream)),
    {
        self.json_with_stream(Some(stream))
    }

    fn json_with_stream(&self, stream: Option<bool>) -> (r: serde_json::Value)
        ensures
            r == request_json(ImageRequestFields { stream: stream, ..self@ }),
            lookup(json_entries_of(r)->0, "stream"@) == stream_json(stream),
    {
        let ghost f = ImageRequestFields { stream: stream, ..self@ };
        let mut entries: Vec<(String, serde_json::Value)> = Vec::new();
        entries.push((("model").to_string(), json_string(self.model.as_str())));
        entries.push((("prompt").to_string(), json_string(self.prompt.as_str())));
        assert(pairs_view(entries@) =~= text_entry("model"@, f.model) + text_entry("prompt"@, f.prompt));
        push_text(&mut entries, "aspect_ratio", &self.aspect_ratio);
        push_text(&mut entries, "background", &self.background);
        let ghost before_refs = pairs_view(entries@);
        match &self.input_references {
            Some(refs) => {
                entries.push((("input_references").to_string(), references_json(refs)));
            },
            None => {},
        }
        assert(pairs_view(entries@) =~= before_refs + match f.input_references {
            Some(rs) => seq![("input_references"@, json_array_value(rs.map_values(|r: (Seq<char>, Seq<char>)| reference_json(r))))],
            None => Seq::empty(),
        });
        push_u32(&mut entries, "n", self.n);
        push_u32(&mut entries, "output_compression", self.output_compression);
        push_text(&mut entries, "output_format", &self.output_format);
        let ghost before_provider = pairs_view(entries@);
        match &self.provider {
            Some(p) => {
                entries.push((("provider").to_string(), p.to_json_value()));
            },
            None => {},
        }
        assert(pairs_view(entries@) =~= before_provider + match f.provider {
            Some(p) => seq![("provider"@, provider_json(p))],
            None => Seq::empty(),
        });
        push_text(&mut entries, "quality", &self.quality);
        push_text(&mut entries, "resolution", &self.resolution);
        let ghost before_seed = pairs_view(entries@);
        match self.seed {
            Some(s) => {
                entries.push((("seed").to_string(), json_i64(s)));
            },
            None => {},
        }
        assert(pairs_view(entries@) =~= before_seed + match f.seed {
            Some(s) => seq![("seed"@, json_i64_value(s))],
            None => Seq::empty(),
        });
        push_text(&mut entries, "size", &self.size);
        let ghost before_stream = pairs_view(entries@);
        match stream {
            Some(b) => {
                entries.push((("stream").to_string(), json_bool(b)));
            },
            None => {},
        }
        assert(pairs_view(entries@) =~= before_stream + match f.stream {
            Some(b) => seq![("stream"@, json_bool_value(b))],
            None => Seq::empty(),
        });
        assert(pairs_view(entries@) =~= request_entries(f));
        proof {
            lemma_request_stream_entry(f);
        }
        json_object(entries)
    }
}

impl ImageGenerationRequestBuilder {
    /// Set the model.
    pub fn model(&mut self, model: &str) -> (r: &mut Self)
        ensures
            r@ == (ImageRequestFields { model: Some(model@), ..old(self)@ }),
            *final(self) == *final(r),
    {
        self.model = Some(model.to_string());
        self
    }

    /// Set the prompt.
    pub fn prompt(&mut self, prompt: &str) -> (r: &mut Self)
        ensures
            r@ == (ImageRequestFields { prompt: Some(prompt@), ..old(self)@ }),
            *final(self) == *final(r),
    {
        self.prompt = Some(prompt.to_string());
        self
    }

    /// Set the aspect ratio.
    pub fn aspect_ratio(&mut self, aspect_ratio: &str) -> (r: &mut Self)
        ensures
            r@ == (ImageRequestFields { aspect_ratio: Some(aspect_ratio@), ..old(self)@ }),
            *final(self) == *final(r),
    {
        self.aspect_ratio = Some(aspect_ratio.to_string());
        self
    }

    /// Set the background.
    pub fn background(&mut self, background: &str) -> (r: &mut Self)
        ensures
            r@ == (ImageRequestFields { background: Some(background@), ..old(self)@ }),
            *final(self) == *final(r),
    {
        self.background = Some(background.to_string());
        self
    }

    /// Set the reference images.
    pub fn input_references(&mut self, input_references: Vec<ImageInputReference>) -> (r: &mut Self)
        ensures
            r@ == (ImageRequestFields { input_references: Some(references_view(input_references@)), ..old(self)@ }),
            *final(self) == *final(r),
    {
        self.input_references = Some(input_references);
        self
    }

    /// Set the number of images.
    pub fn n(&mut self, n: u32) -> (r: &mut Self)
        ensures
            r@ == (ImageRequestFields { n: Some(n), ..old(self)@ }),
            *final(self) == *final(r),
    {
        self.n = Some(n);
        self
    }

    /// Set the output compression.
    pub fn output_compression(&mut self, output_compression: u32) -> (r: &mut Self)
        ensures
            r@ == (ImageRequestFields { output_compression: Some(output_compression), ..old(self)@ }),
            *final(self) == *final(r),
    {
        self.output_compression = Some(output_compression);
        self
    }

    /// Set the output format.
    pub fn output_format(&mut self, output_format: &str) -> (r: &mut Self)
        ensures
            r@ == (ImageRequestFields { output_format: Some(output_format@), ..old(self)@ }),
            *final(self) == *final(r),
    {
        self.output_format = Some(output_format.to_string());
        self
    }

    /// Set the provider passthrough options.
    pub fn provider(&mut self, provider: ImageProviderOptions) -> (r: &mut Self)
        ensures
            r@ == (ImageRequestFields { provider: Some(provider_view(provider)), ..old(self)@ }),
            *final(self) == *final(r),
    {
        self.provider = Some(provider);
        self
    }

    /// Set the quality.
    pub fn quality(&mut self, quality: &str) -> (r: &mut Self)
        ensures
            r@ == (ImageRequestFields { quality: Some(quality@), ..old(self)@ }),
            *final(self) == *final(r),
    {
        self.quality = Some(quality.to_string());
        self
    }

    /// Set the resolution.
    pub fn resolution(&mut self, resolution: &str) -> (r: &mut Self)
        ensures
            r@ == (ImageRequestFields { resolution: Some(resolution@), ..old(self)@ }),
            *final(self) == *final(r),
    {
        self.resolution = Some(resolution.to_string());
        self
    }

    /// Set the seed.
    pub fn seed(&mut self, seed: i64) -> (r: &mut Self)
        ensures
            r@ == (ImageRequestFields { seed: Some(seed), ..old(self)@ }),
            *final(self) == *final(r),
    {
        self.seed = Some(seed);
        self
    }

    /// Set the size.
    pub fn size(&mut self, size: &str) -> (r: &mut Self)
        ensures
            r@ == (ImageRequestFields { size: Some(size@), ..old(self)@ }),
            *final(self) == *final(r),
    {
        self.size = Some(size.to_string());
        self
    }

    /// Build the request. Fails naming the first missing required field,
    /// `model` before `prompt`; the streaming flag is left unset.
    pub fn build(&self) -> (r: Result<ImageGenerationRequest, OpenRouterError>)
        ensures
            (self@.model is Some && self@.prompt is Some) <==> r is Ok,
            r matches Ok(req) ==> req@ == self@,
            r matches Err(e) ==> e matches OpenRouterError::UninitializedField(f)
                && f@ == if self@.model is None { "model"@ } else { "prompt"@ },
    {
        let model = match &self.model {
            Some(m) => m.clone(),
            None => {
                return Err(OpenRouterError::UninitializedField("model".to_string()));
            },
        };
        let prompt = match &self.prompt {
            Some(p) => p.clone(),
            None => {
                return Err(OpenRouterError::UninitializedField("prompt".to_string()));
            },
        };
        let input_references = match &self.input_references {
            Some(v) => {
                let c = v.clone();
                assert(references_view(c@) =~= references_view(v@));
                Some(c)
            },
            None => None,
        };
        let provider = match &self.provider {
            Some(p) => Some(ImageProviderOptions {
                options: match &p.options {
                    Some(m) => Some(m.clone()),
                    None => None,
                },
            }),
            None => None,
        };
        let req = ImageGenerationRequest {
            model,
            prompt,
            aspect_ratio: clone_opt_string(&self.aspect_ratio),
            background: clone_opt_string(&self.background),
            input_references,
            n: self.n,
            output_compression: self.output_compression,
            output_format: clone_opt_string(&self.output_format),
            provider,
            quality: clone_opt_string(&self.quality),
            resolution: clone_opt_string(&self.resolution),
            seed: self.seed,
            size: clone_opt_string(&self.size),
            stream: None,
        };
        Ok(req)
    }
}

// ---------------------------------------------------------------------------
// Response models and their JSON layouts.
// ---------------------------------------------------------------------------

/// One generated image returned by `POST /images`.
#[derive(Debug, Clone)]
pub struct GeneratedImage {
    pub b64_json: String,
    pub media_type: Option<String>,
    /// Fields the type does not name.
    pub extra: JsonMap,
}

/// Token and cost usage returned by image generation responses.
#[derive(Debug, Clone)]
pub struct ImageGenerationUsage {
    pub prompt_tokens: u64,
    pub completion_tokens: u64,
    pub total_tokens: u64,
    /// The cost, as the JSON number it was sent as.
    pub cost: Option<serde_json::Number>,
    pub is_byok: Option<bool>,
    /// Fields the type does not name.
    pub extra: JsonMap,
}

/// Non-streaming response returned by `POST /images`.
#[derive(Debug, Clone)]
pub struct ImageGenerationResponse {
    pub created: u64,
    pub data: Vec<GeneratedImage>,
    pub usage: Option<ImageGenerationUsage>,
    /// Fields the type does not name.
    pub extra: JsonMap,
}

/// Partial-image event emitted by streaming image generation.
#[derive(Debug, Clone)]
pub struct ImagePartialImageEvent {
    pub event_type: String,
    pub partial_image_index: u32,
    pub b64_json: String,
    /// Fields the type does not name.
    pub extra: JsonMap,
}

/// Completion event emitted by streaming image generation.
#[derive(Debug, Clone)]
pub struct ImageCompletedEvent {
    pub event_type: String,
    pub b64_json: String,
    pub created: u64,
    pub media_type: Option<String>,
    pub usage: Option<ImageGenerationUsage>,
    /// Fields the type does not name.
    pub extra: JsonMap,
}

/// Error details emitted by streaming image generation.
#[derive(Debug, Clone)]
pub struct ImageStreamError {
    pub message: String,
    pub code: Option<String>,
    pub param: Option<String>,
    pub error_type: Option<String>,
    /// Fields the type does not name.
    pub extra: JsonMap,
}

/// Error event emitted by streaming image generation.
#[derive(Debug, Clone)]
pub struct ImageStreamErrorEvent {
    pub event_type: String,
    pub error: ImageStreamError,
    /// Fields the type does not name.
    pub extra: JsonMap,
}

/// Streaming image generation event payload: the first of the known event
/// layouts the JSON fits, else the JSON itself.
#[derive(Debug, Clone)]
pub enum ImageStreamEvent {
    PartialImage(ImagePartialImageEvent),
    Completed(ImageCompletedEvent),
    Error(ImageStreamErrorEvent),
    Other(serde_json::Value),
}

/// SSE data wrapper returned by `POST /images` when `stream=true`.
#[derive(Debug, Clone)]
pub struct ImageStreamingResponse {
    pub data: ImageStreamEvent,
    /// Fields the type does not name.
    pub extra: JsonMap,
}

/// Names of the fields of a generated image.
pub open spec fn generated_image_keys() -> Seq<Seq<char>> {
    seq!["b64_json"@, "media_type"@]
}

/// `v` is a JSON object with the layout of a generated image.
pub open spec fn generated_image_decodes(v: serde_json::Value) -> bool {
    &&& json_entries_of(v) matches Some(e)
    &&& req_string_spec(e, "b64_json"@) is Some
    &&& opt_string_spec(e, "media_type"@) is Some
}

/// `img` is what `v` holds as a generated image.
pub open spec fn generated_image_from(v: serde_json::Value, img: GeneratedImage) -> bool {
    &&& json_entries_of(v) matches Some(e)
    &&& req_string_spec(e, "b64_json"@) == Some(img.b64_json@)
    &&& opt_string_spec(e, "media_type"@) == Some(opt_str_view(img.media_type))
    &&& img.extra.pairs() == without_keys_spec(e, generated_image_keys())
}

/// Names of the fields of usage.
pub open spec fn usage_keys() -> Seq<Seq<char>> {
    seq!["prompt_tokens"@, "completion_tokens"@, "total_tokens"@, "cost"@, "is_byok"@]
}

/// `v` is a JSON object with the layout of usage.
pub open spec fn usage_decodes(v: serde_json::Value) -> bool {
    &&& json_entries_of(v) matches Some(e)
    &&& req_u64_spec(e, "prompt_tokens"@) is Some
    &&& req_u64_spec(e, "completion_tokens"@) is Some
    &&& req_u64_spec(e, "total_tokens"@) is Some
    &&& opt_number_spec(e, "cost"@) is Some
    &&& opt_bool_spec(e, "is_byok"@) is Some
}

/// `u` is what `v` holds as usage.
pub open spec fn usage_from(v: serde_json::Value, u: ImageGenerationUsage) -> bool {
    &&& json_entries_of(v) matches Some(e)
    &&& req_u64_spec(e, "prompt_tokens"@) == Some(u.prompt_tokens)
    &&& req_u64_spec(e, "completion_tokens"@) == Some(u.completion_tokens)
    &&& req_u64_spec(e, "total_tokens"@) == Some(u.total_tokens)
    &&& opt_number_spec(e, "cost"@) == Some(u.cost)
    &&& opt_bool_spec(e, "is_byok"@) == Some(u.is_byok)
    &&& u.extra.pairs() == without_keys_spec(e, usage_keys())
}

/// An optional usage field is unset or holds usage.
pub open spec fn opt_usage_decodes(e: Seq<(Seq<char>, serde_json::Value)>) -> bool {
    opt_value_spec(e, "usage"@) matches Some(u) ==> usage_decodes(u)
}

/// `o` is what the optional usage field holds.
pub open spec fn opt_usage_from(e: Seq<(Seq<char>, serde_json::Value)>, o: Option<ImageGenerationUsage>) -> bool {
    match opt_value_spec(e, "usage"@) {
        Some(u) => o matches Some(x) && usage_from(u, x),
        None => o is None,
    }
}

/// Names of the fields of a generation response.
pub open spec fn response_keys() -> Seq<Seq<char>> {
    seq!["created"@, "data"@, "usage"@]
}

/// The items of the `"data"` array of a generation response.
pub open spec fn response_items(v: serde_json::Value) -> Option<Seq<serde_json::Value>> {
    match json_entries_of(v) {
        Some(e) => match lookup(e, "data"@) {
            Some(d) => json_array_of(d),
            None => None,
        },
        None => None,
    }
}

/// Every item has the layout of a generated image.
pub open spec fn all_images_decode(items: Seq<serde_json::Value>) -> bool {
    forall|i: int| 0 <= i < items.len() ==> generated_image_decodes(#[trigger] items[i])
}

/// `v` is a JSON object with the layout of a generation response.
pub open spec fn response_decodes(v: serde_json::Value) -> bool {
    &&& json_entries_of(v) matches Some(e)
    &&& req_u64_spec(e, "created"@) is Some
    &&& response_items(v) matches Some(items)
    &&& all_images_decode(items)
    &&& opt_usage_decodes(e)
}

/// `r` is what `v` holds as a generation response.
pub open spec fn response_from(v: serde_json::Value, r: ImageGenerationResponse) -> bool {
    &&& json_entries_of(v) matches Some(e)
    &&& req_u64_spec(e, "created"@) == Some(r.created)
    &&& response_items(v) matches Some(items)
    &&& items.len() == r.data@.len()
    &&& forall|i: int| 0 <= i < items.len() ==> generated_image_from(#[trigger] items[i], r.data@[i])
    &&& opt_usage_from(e, r.usage)
    &&& r.extra.pairs() == without_keys_spec(e, response_keys())
}

impl GeneratedImage {
    /// Decodes a generated image from JSON; `None` where the JSON does not
    /// have its layout.
    pub fn from_json_value(v: &serde_json::Value) -> (r: Option<GeneratedImage>)
        ensures
            r is Some <==> generated_image_decodes(*v),
            r matches Some(img) ==> generated_image_from(*v, img),
    {
        let entries = match json_as_entries(v) {
            Some(e) => e,
            None => {
                return None;
            },
        };
        let b64_json = match req_string(&entries, "b64_json") {
            Some(s) => s,
            None => {
                return None;
            },
        };
        let media_type = match opt_string(&entries, "media_type") {
            Some(o) => o,
            None => {
                return None;
            },
        };
        let known: [&str; 2] = ["b64_json", "media_type"];
        assert(keys_view(known@) =~= generated_image_keys());
        let extra = without_keys(&entries, &known);
        Some(GeneratedImage { b64_json, media_type, extra })
    }
}

impl ImageGenerationUsage {
    /// Decodes usage from JSON; `None` where the JSON does not have its layout.
    pub fn from_json_value(v: &serde_json::Value) -> (r: Option<ImageGenerationUsage>)
        ensures
            r is Some <==> usage_decodes(*v),
            r matches Some(u) ==> usage_from(*v, u),
    {
        let entries = match json_as_entries(v) {
            Some(e) => e,
            None => {
                return None;
            },
        };
        let prompt_tokens = match req_u64(&entries, "prompt_tokens") {
            Some(n) => n,
            None => {
                return None;
            },
        };
        let completion_tokens = match req_u64(&entries, "completion_tokens") {
            Some(n) => n,
            None => {
                return None;
            },
        };
        let total_tokens = match req_u64(&entries, "total_tokens") {
            Some(n) => n,
            None => {
                return None;
            },
        };
        let cost = match opt_number(&entries, "cost") {
            Some(o) => o,
            None => {
                return None;
            },
        };
        let is_byok = match opt_bool(&entries, "is_byok") {
            Some(o) => o,
            None => {
                return None;
            },
        };
        let known: [&str; 5] = ["prompt_tokens", "completion_tokens", "total_tokens", "cost", "is_byok"];
        assert(keys_view(known@) =~= usage_keys());
        let extra = without_keys(&entries, &known);
        Some(ImageGenerationUsage { prompt_tokens, completion_tokens, total_tokens, cost, is_byok, extra })
    }
}

/// Reads the optional `"usage"` field: `Some(None)` where it is unset,
/// `None` where it holds something other than usage.
fn opt_usage(entries: &Vec<(String, serde_json::Value)>) -> (r: Option<Option<ImageGenerationUsage>>)
    requires
        crate::json::keys_distinct(pairs_view(entries@)),
    ensures
        r is Some <==> opt_usage_decodes(pairs_view(entries@)),
        r matches Some(o) ==> opt_usage_from(pairs_view(entries@), o),
{
    match opt_value(entries, "usage") {
        Some(u) => match ImageGenerationUsage::from_json_value(&u) {
            Some(x) => Some(Some(x)),
            None => None,
        },
        None => Some(None),
    }
}

impl ImageGenerationResponse {
    /// Decodes a generation response from JSON; `None` where the JSON does
    /// not have its layout.
    pub fn from_json_value(v: &serde_json::Value) -> (r: Option<ImageGenerationResponse>)
        ensures
            r is Some <==> response_decodes(*v),
            r matches Some(x) ==> response_from(*v, x),
    {
        let entries = match json_as_entries(v) {
            Some(e) => e,
            None => {
                return None;
            },
        };
        let created = match req_u64(&entries, "created") {
            Some(n) => n,
            None => {
                return None;
            },
        };
        let data_value = match field(&entries, "data") {
            Some(d) => d,
            None => {
                return None;
            },
        };
        let items = match json_as_array(&data_value) {
            Some(items) => items,
            None => {
                return None;
            },
        };
        let mut data: Vec<GeneratedImage> = Vec::new();
        let mut i: usize = 0;
        while i < items.len()
            invariant
                i <= items@.len(),
                data@.len() == i,
                json_entries_of(*v) == Some(pairs_view(entries@)),
                lookup(pairs_view(entries@), "data"@) == Some(data_value),
                json_array_of(data_value) == Some(items@),
                forall|j: int| 0 <= j < i ==> generated_image_decodes(#[trigger] items@[j]),
                forall|j: int| 0 <= j < i ==> generated_image_from(#[trigger] items@[j], data@[j]),
            decreases items@.len() - i,
        {
            match GeneratedImage::from_json_value(&items[i]) {
                Some(img) => {
                    data.push(img);
                },
                None => {
                    assert(!generated_image_decodes(items@[i as int]));
                    assert(json_array_of(data_value) == Some(items@));
                    assert(!all_images_decode(items@));
                    return None;
                },
            }
            i = i + 1;
        }
        let usage = match opt_usage(&entries) {
            Some(o) => o,
            None => {
                return None;
            },
        };
        let known: [&str; 3] = ["created", "data", "usage"];
        assert(keys_view(known@) =~= response_keys());
        let extra = without_keys(&entries, &known);
        Some(ImageGenerationResponse { created, data, usage, extra })
    }
}


/// Names of the fields of a partial-image event.
pub open spec fn partial_event_keys() -> Seq<Seq<char>> {
    seq!["type"@, "partial_image_index"@, "b64_json"@]
}

/// `v` is a JSON object with the layout of a partial-image event.
pub open spec fn partial_event_decodes(v: serde_json::Value) -> bool {
    &&& json_entries_of(v) matches Some(e)
    &&& req_string_spec(e, "type"@) is Some
    &&& req_u32_spec(e, "partial_image_index"@) is Some
    &&& req_string_spec(e, "b64_json"@) is Some
}

/// `x` is what `v` holds as a partial-image event.
pub open spec fn partial_event_from(v: serde_json::Value, x: ImagePartialImageEvent) -> bool {
    &&& json_entries_of(v) matches Some(e)
    &&& req_string_spec(e, "type"@) == Some(x.event_type@)
    &&& req_u32_spec(e, "partial_image_index"@) == Some(x.partial_image_index)
    &&& req_string_spec(e, "b64_json"@) == Some(x.b64_json@)
    &&& x.extra.pairs() == without_keys_spec(e, partial_event_keys())
}

/// Names of the fields of a completion event.
pub open spec fn completed_event_keys() -> Seq<Seq<char>> {
    seq!["type"@, "b64_json"@, "created"@, "media_type"@, "usage"@]
}

/// `v` is a JSON object with the layout of a completion event.
pub open spec fn completed_event_decodes(v: serde_json::Value) -> bool {
    &&& json_entries_of(v) matches Some(e)
    &&& req_string_spec(e, "type"@) is Some
    &&& req_string_spec(e, "b64_json"@) is Some
    &&& req_u64_spec(e, "created"@) is Some
    &&& opt_string_spec(e, "media_type"@) is Some
    &&& opt_usage_decodes(e)
}

/// `x` is what `v` holds as a completion event.
pub open spec fn completed_event_from(v: serde_json::Value, x: ImageCompletedEvent) -> bool {
    &&& json_entries_of(v) matches Some(e)
    &&& req_string_spec(e, "type"@) == Some(x.event_type@)
    &&& req_string_spec(e, "b64_json"@) == Some(x.b64_json@)
    &&& req_u64_spec(e, "created"@) == Some(x.created)
    &&& opt_string_spec(e, "media_type"@) == Some(opt_str_view(x.media_type))
    &&& opt_usage_from(e, x.usage)
    &&& x.extra.pairs() == without_keys_spec(e, completed_event_keys())
}

/// Names of the fields of stream error details.
pub open spec fn stream_error_keys() -> Seq<Seq<char>> {
    seq!["message"@, "code"@, "param"@, "type"@]
}

/// `v` is a JSON object with the layout of stream error details.
pub open spec fn stream_error_decodes(v: serde_json::Value) -> bool {
    &&& json_entries_of(v) matches Some(e)
    &&& req_string_spec(e, "message"@) is Some
    &&& opt_string_spec(e, "code"@) is Some
    &&& opt_string_spec(e, "param"@) is Some
    &&& opt_string_spec(e, "type"@) is Some
}

/// `x` is what `v` holds as stream error details.
pub open spec fn stream_error_from(v: serde_json::Value, x: ImageStreamError) -> bool {
    &&& json_entries_of(v) matches Some(e)
    &&& req_string_spec(e, "message"@) == Some(x.message@)
    &&& opt_string_spec(e, "code"@) == Some(opt_str_view(x.code))
    &&& opt_string_spec(e, "param"@) == Some(opt_str_view(x.param))
    &&& opt_string_spec(e, "type"@) == Some(opt_str_view(x.error_type))
    &&& x.extra.pairs() == without_keys_spec(e, stream_error_keys())
}

/// Names of the fields of an error event.
pub open spec fn error_event_keys() -> Seq<Seq<char>> {
    seq!["type"@, "error"@]
}

/// `v` is a JSON object with the layout of an error event.
pub open spec fn error_event_decodes(v: serde_json::Value) -> bool {
    &&& json_entries_of(v) matches Some(e)
    &&& req_string_spec(e, "type"@) is Some
    &&& lookup(e, "error"@) matches Some(err)
    &&& stream_error_decodes(err)
}

/// `x` is what `v` holds as an error event.
pub open spec fn error_event_from(v: serde_json::Value, x: ImageStreamErrorEvent) -> bool {
    &&& json_entries_of(v) matches Some(e)
    &&& req_string_spec(e, "type"@) == Some(x.event_type@)
    &&& lookup(e, "error"@) matches Some(err)
    &&& stream_error_from(err, x.error)
    &&& x.extra.pairs() == without_keys_spec(e, error_event_keys())
}

/// `x` is what `v` holds as a stream event: the first of the partial-image,
/// completion and error layouts that `v` has, else `v` itself.
pub open spec fn stream_event_from(v: serde_json::Value, x: ImageStreamEvent) -> bool {
    if partial_event_decodes(v) {
        x matches ImageStreamEvent::PartialImage(p) && partial_event_from(v, p)
    } else if completed_event_decodes(v) {
        x matches ImageStreamEvent::Completed(c) && completed_event_from(v, c)
    } else if error_event_decodes(v) {
        x matches ImageStreamEvent::Error(er) && error_event_from(v, er)
    } else {
        x == ImageStreamEvent::Other(v)
    }
}

/// Names of the fields of a streaming response.
pub open spec fn streaming_response_keys() -> Seq<Seq<char>> {
    seq!["data"@]
}

/// `v` is a JSON object with a `"data"` field.
pub open spec fn streaming_response_decodes(v: serde_json::Value) -> bool {
    &&& json_entries_of(v) matches Some(e)
    &&& lookup(e, "data"@) is Some
}

/// `x` is what `v` holds as a streaming response.
pub open spec fn streaming_response_from(v: serde_json::Value, x: ImageStreamingResponse) -> bool {
    &&& json_entries_of(v) matches Some(e)
    &&& lookup(e, "data"@) matches Some(d)
    &&& stream_event_from(d, x.data)
    &&& x.extra.pairs() == without_keys_spec(e, streaming_response_keys())
}

impl ImagePartialImageEvent {
    /// Decodes a partial-image event from JSON; `None` where the JSON does
    /// not have its layout.
    pub fn from_json_value(v: &serde_json::Value) -> (r: Option<ImagePartialImageEvent>)
        ensures
            r is Some <==> partial_event_decodes(*v),
            r matches Some(x) ==> partial_event_from(*v, x),
    {
        let entries = match json_as_entries(v) {
            Some(e) => e,
            None => {
                return None;
            },
        };
        let event_type = match req_string(&entries, "type") {
            Some(s) => s,
            None => {
                return None;
            },
        };
        let partial_image_index = match req_u32(&entries, "partial_image_index") {
            Some(n) => n,
            None => {
                return None;
            },
        };
        let b64_json = match req_string(&entries, "b64_json") {
            Some(s) => s,
            None => {
                return None;
            },
        };
        let known: [&str; 3] = ["type", "partial_image_index", "b64_json"];
        assert(keys_view(known@) =~= partial_event_keys());
        let extra = without_keys(&entries, &known);
        Some(ImagePartialImageEvent { event_type, partial_image_index, b64_json, extra })
    }
}

impl ImageCompletedEvent {
    /// Decodes a completion event from JSON; `None` where the JSON does not
    /// have its layout.
    pub fn from_json_value(v: &serde_json::Value) -> (r: Option<ImageCompletedEvent>)
        ensures
            r is Some <==> completed_event_decodes(*v),
            r matches Some(x) ==> completed_event_from(*v, x),
    {
        let entries = match json_as_entries(v) {
            Some(e) => e,
            None => {
                return None;
            },
        };
        let event_type = match req_string(&entries, "type") {
            Some(s) => s,
            None => {
                return None;
            },
        };
        let b64_json = match req_string(&entries, "b64_json") {
            Some(s) => s,
            None => {
                return None;
            },
        };
        let created = match req_u64(&entries, "created") {
            Some(n) => n,
            None => {
                return None;
            },
        };
        let media_type = match opt_string(&entries, "media_type") {
            Some(o) => o,
            None => {
                return None;
            },
        };
        let usage = match opt_usage(&entries) {
            Some(o) => o,
            None => {
                return None;
            },
        };
        let known: [&str; 5] = ["type", "b64_json", "created", "media_type", "usage"];
        assert(keys_view(known@) =~= completed_event_keys());
        let extra = without_keys(&entries, &known);
        Some(ImageCompletedEvent { event_type, b64_json, created, media_type, usage, extra })
    }
}

impl ImageStreamError {
    /// Decodes stream error details from JSON; `None` where the JSON does
    /// not have their layout.
    pub fn from_json_value(v: &serde_json::Value) -> (r: Option<ImageStreamError>)
        ensures
            r is Some <==> stream_error_decodes(*v),
            r matches Some(x) ==> stream_error_from(*v, x),
    {
        let entries = match json_as_entries(v) {
            Some(e) => e,
            None => {
                return None;
            },
        };
        let message = match req_string(&entries, "message") {
            Some(s) => s,
            None => {
                return None;
            },
        };
        let code = match opt_string(&entries, "code") {
            Some(o) => o,
            None => {
                return None;
            },
        };
        let param = match opt_string(&entries, "param") {
            Some(o) => o,
            None => {
                return None;
            },
        };
        let error_type = match opt_string(&entries, "type") {
            Some(o) => o,
            None => {
                return None;
            },
        };
        let known: [&str; 4] = ["message", "code", "param", "type"];
        assert(keys_view(known@) =~= stream_error_keys());
        let extra = without_keys(&entries, &known);
        Some(ImageStreamError { message, code, param, error_type, extra })
    }
}

impl ImageStreamErrorEvent {
    /// Decodes an error event from JSON; `None` where the JSON does not have
    /// its layout.
    pub fn from_json_value(v: &serde_json::Value) -> (r: Option<ImageStreamErrorEvent>)
        ensures
            r is Some <==> error_event_decodes(*v),
            r matches Some(x) ==> error_event_from(*v, x),
    {
        let entries = match json_as_entries(v) {
            Some(e) => e,
            None => {
                return None;
            },
        };
        let event_type = match req_string(&entries, "type") {
            Some(s) => s,
            None => {
                return None;
            },
        };
        let error_value = match field(&entries, "error") {
            Some(e) => e,
            None => {
                return None;
            },
        };
        let error = match ImageStreamError::from_json_value(&error_value) {
            Some(x) => x,
            None => {
                return None;
            },
        };
        let known: [&str; 2] = ["type", "error"];
        assert(keys_view(known@) =~= error_event_keys());
        let extra = without_keys(&entries, &known);
        Some(ImageStreamErrorEvent { event_type, error, extra })
    }
}

impl ImageStreamEvent {
    /// Decodes a stream event from JSON: the first of the partial-image,
    /// completion and error layouts that the JSON has, else the JSON itself.
    pub fn from_json_value(v: &serde_json::Value) -> (r: ImageStreamEvent)
        ensures
            stream_event_from(*v, r),
    {
        if let Some(p) = ImagePartialImageEvent::from_json_value(v) {
            return ImageStreamEvent::PartialImage(p);
        }
        if let Some(c) = ImageCompletedEvent::from_json_value(v) {
            return ImageStreamEvent::Completed(c);
        }
        if let Some(er) = ImageStreamErrorEvent::from_json_value(v) {
            return ImageStreamEvent::Error(er);
        }
        ImageStreamEvent::Other(v.clone())
    }
}

impl ImageStreamingResponse {
    /// Decodes a streaming response from JSON; `None` where the JSON is not
    /// an object with a `"data"` field.
    pub fn from_json_value(v: &serde_json::Value) -> (r: Option<ImageStreamingResponse>)
        ensures
            r is Some <==> streaming_response_decodes(*v),
            r matches Some(x) ==> streaming_response_from(*v, x),
    {
        let entries = match json_as_entries(v) {
            Some(e) => e,
            None => {
                return None;
            },
        };
        let data_value = match field(&entries, "data") {
            Some(d) => d,
            None => {
                return None;
            },
        };
        let data = ImageStreamEvent::from_json_value(&data_value);
        let known: [&str; 1] = ["data"];
        assert(keys_view(known@) =~= streaming_response_keys());
        let extra = without_keys(&entries, &known);
        Some(ImageStreamingResponse { data, extra })
    }
}


// ---------------------------------------------------------------------------
// Decoding from JSON text.
// ---------------------------------------------------------------------------

/// `text` is JSON with the layout of a generation response.
pub open spec fn response_text_decodes(text: Seq<char>) -> bool {
    json_parse_of(text) matches Some(v) && response_decodes(v)
}

/// `text` is JSON with the layout of a streaming response.
pub open spec fn streaming_text_decodes(text: Seq<char>) -> bool {
    json_parse_of(text) matches Some(v) && streaming_response_decodes(v)
}

/// What decoding `text` as a streaming response gives: the response the JSON
/// holds, or a serialization error where the text is no JSON with that
/// layout.
pub open spec fn streaming_text_result(text: Seq<char>, r: Result<ImageStreamingResponse, OpenRouterError>) -> bool {
    &&& (r is Ok <==> streaming_text_decodes(text))
    &&& (r matches Ok(x) ==> json_parse_of(text) matches Some(v) && streaming_response_from(v, x))
    &&& (r matches Err(e) ==> e matches OpenRouterError::Serialization(_))
}

impl ImageGenerationResponse {
    /// Decodes a generation response from JSON text; a serialization error
    /// where the text is no JSON or lacks the layout.
    pub fn from_json_str(text: &str) -> (r: Result<ImageGenerationResponse, OpenRouterError>)
        ensures
            r is Ok <==> response_text_decodes(text@),
            r matches Ok(x) ==> json_parse_of(text@) matches Some(v) && response_from(v, x),
            r matches Err(e) ==> e matches OpenRouterError::Serialization(_),
    {
        match json_parse(text) {
            Ok(v) => match ImageGenerationResponse::from_json_value(&v) {
                Some(x) => Ok(x),
                None => Err(OpenRouterError::Serialization(json_data_error("invalid image generation response"))),
            },
            Err(e) => Err(OpenRouterError::Serialization(e)),
        }
    }
}

impl ImageStreamingResponse {
    /// Decodes a streaming response from JSON text; a serialization error
    /// where the text is no JSON or lacks the layout.
    pub fn from_json_str(text: &str) -> (r: Result<ImageStreamingResponse, OpenRouterError>)
        ensures
            streaming_text_result(text@, r),
    {
        match json_parse(text) {
            Ok(v) => match ImageStreamingResponse::from_json_value(&v) {
                Some(x) => Ok(x),
                None => Err(OpenRouterError::Serialization(json_data_error("invalid image streaming response"))),
            },
            Err(e) => Err(OpenRouterError::Serialization(e)),
        }
    }
}

/// What one server-sent event of an image stream yields: nothing for the
/// `[DONE]` marker, else its data decoded as a streaming response.
pub fn image_stream_item(frame: &SseFrame) -> (r: Option<Result<ImageStreamingResponse, OpenRouterError>>)
    ensures
        r is None <==> is_done_spec(frame.data@),
        r matches Some(res) ==> streaming_text_result(frame.data@, res),
{
    if is_done_marker(frame.data.as_str()) {
        None
    } else {
        Some(ImageStreamingResponse::from_json_str(frame.data.as_str()))
    }
}

// ---------------------------------------------------------------------------
// A buffered response as stream events.
// ---------------------------------------------------------------------------

/// The event type of a completed image.
pub open spec fn completed_event_type() -> Seq<char> {
    "image_generation.completed"@
}

/// `e` is the event that a buffered response gives for its `i`-th image: a
/// completion event with the image's data and fields, the response's
/// creation time, the response's usage on the first event only, and the
/// response's extra fields on the wrapper.
pub open spec fn buffered_event(resp: ImageGenerationResponse, i: int, e: ImageStreamingResponse) -> bool {
    &&& e.data matches ImageStreamEvent::Completed(c)
    &&& c.event_type@ == completed_event_type()
    &&& c.b64_json == resp.data@[i].b64_json
    &&& c.created == resp.created
    &&& c.media_type == resp.data@[i].media_type
    &&& c.usage == (if i == 0 { resp.usage } else { None })
    &&& c.extra == resp.data@[i].extra
    &&& e.extra.pairs() == resp.extra.pairs()
}

/// The events a non-streaming generation response stands for when a stream
/// was asked for: one completion event per image, in order.
pub fn buffered_image_events(response: ImageGenerationResponse) -> (r: Vec<ImageStreamingResponse>)
    ensures
        r@.len() == response.data@.len(),
        forall|i: int| 0 <= i < r@.len() ==> buffered_event(response, i, #[trigger] r@[i]),
{
    let ghost resp = response;
    let ImageGenerationResponse { created, data, usage, extra } = response;
    let mut data = data;
    let mut usage = usage;
    let total: usize = data.len();
    let mut out: Vec<ImageStreamingResponse> = Vec::new();
    let mut i: usize = 0;
    while data.len() > 0
        invariant
            i + data@.len() == resp.data@.len(),
            total == resp.data@.len(),
            data@ == resp.data@.skip(i as int),
            out@.len() == i,
            created == resp.created,
            extra.pairs() == resp.extra.pairs(),
            usage == (if i == 0 { resp.usage } else { None }),
            forall|j: int| 0 <= j < i ==> buffered_event(resp, j, #[trigger] out@[j]),
        decreases data@.len(),
    {
        let image = data.remove(0);
        assert(image == resp.data@[i as int]);
        let first_usage = usage;
        usage = None;
        let GeneratedImage { b64_json, media_type, extra: image_extra } = image;
        let event = ImageCompletedEvent {
            event_type: "image_generation.completed".to_string(),
            b64_json,
            created,
            media_type,
            usage: first_usage,
            extra: image_extra,
        };
        out.push(ImageStreamingResponse { data: ImageStreamEvent::Completed(event), extra: extra.clone() });
        assert(data@ =~= resp.data@.skip(i + 1));
        i = i + 1;
    }
    out
}

// ---------------------------------------------------------------------------
// Endpoints and the requests sent to them.
// ---------------------------------------------------------------------------

/// `{base}/images`.
pub fn images_url(base_url: &str) -> (r: String)
    ensures
        r@ == base_url@ + "/images"@,
{
    let mut url = base_url.to_string();
    push_str(&mut url, "/images");
    url
}

/// `{base}/images/models`.
pub fn image_models_url(base_url: &str) -> (r: String)
    ensures
        r@ == base_url@ + "/images/models"@,
{
    let mut url = base_url.to_string();
    push_str(&mut url, "/images/models");
    url
}

/// `{base}/images/models/{author}/{slug}/endpoints`, with author and slug
/// percent-encoded.
pub fn image_model_endpoints_url(base_url: &str, author: &str, slug: &str) -> (r: String)
    ensures
        r@ == base_url@ + "/images/models/"@ + percent_encode(encode_utf8(author@)) + "/"@
            + percent_encode(encode_utf8(slug@)) + "/endpoints"@,
{
    let encoded_author = url_encode(author);
    let encoded_slug = url_encode(slug);
    let mut url = base_url.to_string();
    push_str(&mut url, "/images/models/");
    push_str(&mut url, encoded_author.as_str());
    push_str(&mut url, "/");
    push_str(&mut url, encoded_slug.as_str());
    push_str(&mut url, "/endpoints");
    url
}

/// The request that submits an image generation: `POST {base}/images` with
/// the client headers and the request's body, `"stream"` set to `stream`.
pub fn image_generation_request(
    base_url: &str,
    api_key: &str,
    x_title: &Option<String>,
    http_referer: &Option<String>,
    app_categories: &Option<Vec<String>>,
    request: &ImageGenerationRequest,
    stream: bool,
) -> (r: HttpRequestPlan)
    ensures
        r.method == HttpMethod::Post,
        r.url@ == base_url@ + "/images"@,
        headers_view(r.headers@) == client_headers(
            api_key@,
            opt_text(*x_title),
            opt_text(*http_referer),
            opt_strings_view(*app_categories),
        ),
        r.body == Some(request_json(ImageRequestFields { stream: Some(stream), ..request@ })),
{
    HttpRequestPlan {
        method: HttpMethod::Post,
        url: images_url(base_url),
        headers: client_request_headers(api_key, x_title, http_referer, app_categories),
        body: Some(request.request_body(stream)),
    }
}

/// The request that lists image models: `GET {base}/images/models` with
/// bearer authorization.
pub fn image_models_request(base_url: &str, api_key: &str) -> (r: HttpRequestPlan)
    ensures
        r.method == HttpMethod::Get,
        r.url@ == base_url@ + "/images/models"@,
        headers_view(r.headers@) == seq![bearer_header(api_key@)],
        r.body is None,
{
    HttpRequestPlan {
        method: HttpMethod::Get,
        url: image_models_url(base_url),
        headers: bearer_request_headers(api_key),
        body: None,
    }
}

/// The request that lists one image model's endpoints:
/// `GET {base}/images/models/{author}/{slug}/endpoints` with bearer
/// authorization.
pub fn image_model_endpoints_request(base_url: &str, api_key: &str, author: &str, slug: &str) -> (r: HttpRequestPlan)
    ensures
        r.method == HttpMethod::Get,
        r.url@ == base_url@ + "/images/models/"@ + percent_encode(encode_utf8(author@)) + "/"@
            + percent_encode(encode_utf8(slug@)) + "/endpoints"@,
        headers_view(r.headers@) == seq![bearer_header(api_key@)],
        r.body is None,
{
    HttpRequestPlan {
        method: HttpMethod::Get,
        url: image_model_endpoints_url(base_url, author, slug),
        headers: bearer_request_headers(api_key),
        body: None,
    }
}

/// A decoded generated image holds what its JSON object holds: the image data
/// under `"b64_json"`, the media type under `"media_type"` (unset where
/// absent or `null`), and every other pair in `extra`.
pub proof fn lemma_generated_image_fields(v: serde_json::Value, img: GeneratedImage)
    requires
        generated_image_from(v, img),
    ensures
        json_entries_of(v) is Some,
        ({
            let e = json_entries_of(v)->0;
            &&& (lookup(e, "b64_json"@) matches Some(j) && json_str_of(j) == Some(img.b64_json@))
            &&& opt_str_view(img.media_type) == (match lookup(e, "media_type"@) { Some(j) => if json_is_null_of(j) { None::<Seq<char>> } else { json_str_of(j) }, None => None::<Seq<char>> })
            &&& img.extra.pairs() == without_keys_spec(e, seq!["b64_json"@, "media_type"@])
        }),
{
}

/// Decoded usage holds the token counts, cost and bring-your-own-key flag of
/// its JSON object, and every other pair in `extra`.
pub proof fn lemma_usage_fields(v: serde_json::Value, u: ImageGenerationUsage)
    requires
        usage_from(v, u),
    ensures
        json_entries_of(v) is Some,
        ({
            let e = json_entries_of(v)->0;
            &&& (lookup(e, "prompt_tokens"@) matches Some(j) && json_u64_of(j) == Some(u.prompt_tokens))
            &&& (lookup(e, "completion_tokens"@) matches Some(j) && json_u64_of(j) == Some(u.completion_tokens))
            &&& (lookup(e, "total_tokens"@) matches Some(j) && json_u64_of(j) == Some(u.total_tokens))
            &&& u.cost == (match lookup(e, "cost"@) { Some(j) => if json_is_null_of(j) { None::<serde_json::Number> } else { json_number_of(j) }, None => None::<serde_json::Number> })
            &&& u.is_byok == (match lookup(e, "is_byok"@) { Some(j) => if json_is_null_of(j) { None::<bool> } else { json_bool_of(j) }, None => None::<bool> })
            &&& u.extra.pairs() == without_keys_spec(e, seq!["prompt_tokens"@, "completion_tokens"@, "total_tokens"@, "cost"@, "is_byok"@])
        }),
{
}

/// A decoded generation response holds its JSON object's creation time, one
/// image per item of `"data"`, in order, its usage where present, and every
/// other pair in `extra`.
pub proof fn lemma_response_fields(v: serde_json::Value, x: ImageGenerationResponse)
    requires
        response_from(v, x),
    ensures
        json_entries_of(v) is Some,
        ({
            let e = json_entries_of(v)->0;
            &&& (lookup(e, "created"@) matches Some(j) && json_u64_of(j) == Some(x.created))
            &&& (lookup(e, "data"@) matches Some(d) && json_array_of(d) matches Some(items) && items.len() == x.data@.len() && forall|i: int| 0 <= i < items.len() ==> generated_image_from(#[trigger] items[i], x.data@[i]))
            &&& (x.usage is None <==> (lookup(e, "usage"@) is None || json_is_null_of(lookup(e, "usage"@)->0)))
            &&& (x.usage matches Some(us) ==> usage_from(lookup(e, "usage"@)->0, us))
            &&& x.extra.pairs() == without_keys_spec(e, seq!["created"@, "data"@, "usage"@])
        }),
{
}

/// A decoded partial-image event holds its JSON object's type, partial image
/// index and image data, and every other pair in `extra`.
pub proof fn lemma_partial_event_fields(v: serde_json::Value, x: ImagePartialImageEvent)
    requires
        partial_event_from(v, x),
    ensures
        json_entries_of(v) is Some,
        ({
            let e = json_entries_of(v)->0;
            &&& (lookup(e, "type"@) matches Some(j) && json_str_of(j) == Some(x.event_type@))
            &&& (lookup(e, "partial_image_index"@) matches Some(j) && json_u64_of(j) == Some((x.partial_image_index as u64)))
            &&& (lookup(e, "b64_json"@) matches Some(j) && json_str_of(j) == Some(x.b64_json@))
            &&& x.extra.pairs() == without_keys_spec(e, seq!["type"@, "partial_image_index"@, "b64_json"@])
        }),
{
}

/// A decoded completion event holds what its JSON object holds: the type, the
/// image data, the creation time, the media type under `"media_type"` (unset
/// where absent or `null`), the usage where present, and every other pair in
/// `extra`.
pub proof fn lemma_completed_event_fields(v: serde_json::Value, x: ImageCompletedEvent)
    requires
        completed_event_from(v, x),
    ensures
        json_entries_of(v) is Some,
        ({
            let e = json_entries_of(v)->0;
            &&& (lookup(e, "type"@) matches Some(j) && json_str_of(j) == Some(x.event_type@))
            &&& (lookup(e, "b64_json"@) matches Some(j) && json_str_of(j) == Some(x.b64_json@))
            &&& (lookup(e, "created"@) matches Some(j) && json_u64_of(j) == Some(x.created))
            &&& opt_str_view(x.media_type) == (match lookup(e, "media_type"@) { Some(j) => if json_is_null_of(j) { None::<Seq<char>> } else { json_str_of(j) }, None => None::<Seq<char>> })
            &&& (x.usage is None <==> (lookup(e, "usage"@) is None || json_is_null_of(lookup(e, "usage"@)->0)))
            &&& (x.usage matches Some(us) ==> usage_from(lookup(e, "usage"@)->0, us))
            &&& x.extra.pairs() == without_keys_spec(e, seq!["type"@, "b64_json"@, "created"@, "media_type"@, "usage"@])
        }),
{
}

/// A decoded stream error holds its JSON object's message, code, parameter and
/// type, and every other pair in `extra`.
pub proof fn lemma_stream_error_fields(v: serde_json::Value, x: ImageStreamError)
    requires
        stream_error_from(v, x),
    ensures
        json_entries_of(v) is Some,
        ({
            let e = json_entries_of(v)->0;
            &&& (lookup(e, "message"@) matches Some(j) && json_str_of(j) == Some(x.message@))
            &&& opt_str_view(x.code) == (match lookup(e, "code"@) { Some(j) => if json_is_null_of(j) { None::<Seq<char>> } else { json_str_of(j) }, None => None::<Seq<char>> })
            &&& opt_str_view(x.param) == (match lookup(e, "param"@) { Some(j) => if json_is_null_of(j) { None::<Seq<char>> } else { json_str_of(j) }, None => None::<Seq<char>> })
            &&& opt_str_view(x.error_type) == (match lookup(e, "type"@) { Some(j) => if json_is_null_of(j) { None::<Seq<char>> } else { json_str_of(j) }, None => None::<Seq<char>> })
            &&& x.extra.pairs() == without_keys_spec(e, seq!["message"@, "code"@, "param"@, "type"@])
        }),
{
}

/// A decoded error event holds its JSON object's type, the error under
/// `"error"`, and every other pair in `extra`.
pub proof fn lemma_error_event_fields(v: serde_json::Value, x: ImageStreamErrorEvent)
    requires
        error_event_from(v, x),
    ensures
        json_entries_of(v) is Some,
        ({
            let e = json_entries_of(v)->0;
            &&& (lookup(e, "type"@) matches Some(j) && json_str_of(j) == Some(x.event_type@))
            &&& (lookup(e, "error"@) matches Some(err) && stream_error_from(err, x.error))
            &&& x.extra.pairs() == without_keys_spec(e, seq!["type"@, "error"@])
        }),
{
}

/// A decoded streaming frame holds the event under its JSON object's
/// `"data"`, and every other pair in `extra`.
pub proof fn lemma_streaming_response_fields(v: serde_json::Value, x: ImageStreamingResponse)
    requires
        streaming_response_from(v, x),
    ensures
        json_entries_of(v) is Some,
        ({
            let e = json_entries_of(v)->0;
            &&& (lookup(e, "data"@) matches Some(d) && stream_event_from(d, x.data))
            &&& x.extra.pairs() == without_keys_spec(e, seq!["data"@])
        }),
{
}


/// JSON decodes as a generated image exactly where it is an object with the
/// image data as a string and a media type that is absent, `null` or a string.
pub proof fn lemma_generated_image_decodes(v: serde_json::Value)
    ensures
        generated_image_decodes(v) <==> (json_entries_of(v) is Some && {
            let e = json_entries_of(v)->0;
            &&& (lookup(e, "b64_json"@) matches Some(j) && json_str_of(j) is Some)
            &&& (lookup(e, "media_type"@) matches Some(j) ==> (json_is_null_of(j) || json_str_of(j) is Some))
        }),
{
}

/// JSON decodes as usage exactly where it is an object with the three token
/// counts as unsigned integers, and a cost and a bring-your-own-key flag that
/// are absent, `null` or of their types.
pub proof fn lemma_usage_decodes(v: serde_json::Value)
    ensures
        usage_decodes(v) <==> (json_entries_of(v) is Some && {
            let e = json_entries_of(v)->0;
            &&& (lookup(e, "prompt_tokens"@) matches Some(j) && json_u64_of(j) is Some)
            &&& (lookup(e, "completion_tokens"@) matches Some(j) && json_u64_of(j) is Some)
            &&& (lookup(e, "total_tokens"@) matches Some(j) && json_u64_of(j) is Some)
            &&& (lookup(e, "cost"@) matches Some(j) ==> (json_is_null_of(j) || json_number_of(j) is Some))
            &&& (lookup(e, "is_byok"@) matches Some(j) ==> (json_is_null_of(j) || json_bool_of(j) is Some))
        }),
{
}

/// JSON decodes as a generation response exactly where it is an object with a
/// creation time, a `"data"` array of generated images, and usage that is
/// absent, `null` or decodes.
pub proof fn lemma_response_decodes(v: serde_json::Value)
    ensures
        response_decodes(v) <==> (json_entries_of(v) is Some && {
            let e = json_entries_of(v)->0;
            &&& (lookup(e, "created"@) matches Some(j) && json_u64_of(j) is Some)
            &&& (lookup(e, "data"@) matches Some(d) && json_array_of(d) matches Some(items) && forall|i: int| 0 <= i < items.len() ==> generated_image_decodes(#[trigger] items[i]))
            &&& (lookup(e, "usage"@) matches Some(u) ==> (json_is_null_of(u) || usage_decodes(u)))
        }),
{
}

/// JSON decodes as a partial-image event exactly where it is an object with a
/// type, a partial image index that fits 32 bits, and image data.
pub proof fn lemma_partial_event_decodes(v: serde_json::Value)
    ensures
        partial_event_decodes(v) <==> (json_entries_of(v) is Some && {
            let e = json_entries_of(v)->0;
            &&& (lookup(e, "type"@) matches Some(j) && json_str_of(j) is Some)
            &&& (lookup(e, "partial_image_index"@) matches Some(j) && json_u64_of(j) matches Some(n) && n <= u32::MAX)
            &&& (lookup(e, "b64_json"@) matches Some(j) && json_str_of(j) is Some)
        }),
{
}

/// JSON decodes as a completion event exactly where it is an object with a
/// type, image data, a creation time, a media type that is absent, `null` or a
/// string, and usage that is absent, `null` or decodes.
pub proof fn lemma_completed_event_decodes(v: serde_json::Value)
    ensures
        completed_event_decodes(v) <==> (json_entries_of(v) is Some && {
            let e = json_entries_of(v)->0;
            &&& (lookup(e, "type"@) matches Some(j) && json_str_of(j) is Some)
            &&& (lookup(e, "b64_json"@) matches Some(j) && json_str_of(j) is Some)
            &&& (lookup(e, "created"@) matches Some(j) && json_u64_of(j) is Some)
            &&& (lookup(e, "media_type"@) matches Some(j) ==> (json_is_null_of(j) || json_str_of(j) is Some))
            &&& (lookup(e, "usage"@) matches Some(u) ==> (json_is_null_of(u) || usage_decodes(u)))
        }),
{
}

/// JSON decodes as a stream error exactly where it is an object with a message,
/// and a code, parameter and type that are each absent, `null` or a string.
pub proof fn lemma_stream_error_decodes(v: serde_json::Value)
    ensures
        stream_error_decodes(v) <==> (json_entries_of(v) is Some && {
            let e = json_entries_of(v)->0;
            &&& (lookup(e, "message"@) matches Some(j) && json_str_of(j) is Some)
            &&& (lookup(e, "code"@) matches Some(j) ==> (json_is_null_of(j) || json_str_of(j) is Some))
            &&& (lookup(e, "param"@) matches Some(j) ==> (json_is_null_of(j) || json_str_of(j) is Some))
            &&& (lookup(e, "type"@) matches Some(j) ==> (json_is_null_of(j) || json_str_of(j) is Some))
        }),
{
}

/// JSON decodes as an error event exactly where it is an object with a type
/// and an `"error"` that decodes as a stream error.
pub proof fn lemma_error_event_decodes(v: serde_json::Value)
    ensures
        error_event_decodes(v) <==> (json_entries_of(v) is Some && {
            let e = json_entries_of(v)->0;
            &&& (lookup(e, "type"@) matches Some(j) && json_str_of(j) is Some)
            &&& (lookup(e, "error"@) matches Some(err) && stream_error_decodes(err))
        }),
{
}

/// JSON decodes as a streaming frame exactly where it is an object with a
/// `"data"` field.
pub proof fn lemma_streaming_response_decodes(v: serde_json::Value)
    ensures
        streaming_response_decodes(v) <==> (json_entries_of(v) is Some && {
            let e = json_entries_of(v)->0;
            &&& lookup(e, "data"@) is Some
        }),
{
}

/// An image URL is written as a JSON object holding only the URL, as a string
/// under `"url"`.
pub proof fn lemma_image_url_json_fields(url: Seq<char>)
    ensures
        exists|p: Seq<(Seq<char>, serde_json::Value)>|
            #![trigger json_object_value(p)]
            image_url_json(url) == json_object_value(p) && keys_distinct(p) && p.len() == 1
                && lookup(p, "url"@) == Some(json_string_value(url)),
{
    reveal_strlit("url");
    let p = seq![("url"@, json_string_value(url))];
    assert(keys_distinct(p));
    lemma_lookup_at(p, "url"@, 0);
    assert(image_url_json(url) == json_object_value(p));
}

/// An image reference is written as a JSON object with its type as a string
/// under `"type"` and its URL's object under `"image_url"`, each key once.
pub proof fn lemma_reference_json_fields(r: (Seq<char>, Seq<char>))
    ensures
        exists|p: Seq<(Seq<char>, serde_json::Value)>|
            #![trigger json_object_value(p)]
            reference_json(r) == json_object_value(p) && keys_distinct(p) && p.len() == 2
                && lookup(p, "type"@) == Some(json_string_value(r.0))
                && lookup(p, "image_url"@) == Some(image_url_json(r.1)),
{
    reveal_strlit("type");
    reveal_strlit("image_url");
    assert("type"@.len() != "image_url"@.len());
    let p = seq![("type"@, json_string_value(r.0)), ("image_url"@, image_url_json(r.1))];
    assert(keys_distinct(p));
    lemma_lookup_at(p, "type"@, 0);
    lemma_lookup_at(p, "image_url"@, 1);
    assert(reference_json(r) == json_object_value(p));
}

/// Provider options that are set are written as a JSON object holding only
/// the options' object, under `"options"`.
pub proof fn lemma_provider_json_fields(pairs: Seq<(Seq<char>, serde_json::Value)>)
    ensures
        exists|p: Seq<(Seq<char>, serde_json::Value)>|
            #![trigger json_object_value(p)]
            provider_json(Some(pairs)) == json_object_value(p) && keys_distinct(p) && p.len() == 1
                && lookup(p, "options"@) == Some(json_object_value(pairs)),
{
    reveal_strlit("options");
    let p = seq![("options"@, json_object_value(pairs))];
    assert(keys_distinct(p));
    lemma_lookup_at(p, "options"@, 0);
    assert(provider_json(Some(pairs)) == json_object_value(p));
}

/// Provider options that are unset are written as an empty JSON object.
pub proof fn lemma_provider_json_unset()
    ensures
        provider_json(None) == json_object_value(Seq::empty()),
{
}


/// A streaming frame's event is read as the first kind its JSON fits, in
/// order: a partial image, a completion, an error; JSON that fits none is
/// kept as it is.
pub proof fn lemma_stream_event_kinds(v: serde_json::Value, x: ImageStreamEvent)
    requires
        stream_event_from(v, x),
    ensures
        partial_event_decodes(v) ==> (x matches ImageStreamEvent::PartialImage(p) && partial_event_from(v, p)),
        !partial_event_decodes(v) && completed_event_decodes(v) ==> (x matches ImageStreamEvent::Completed(c)
            && completed_event_from(v, c)),
        !partial_event_decodes(v) && !completed_event_decodes(v) && error_event_decodes(v) ==> (x matches ImageStreamEvent::Error(er)
            && error_event_from(v, er)),
        !partial_event_decodes(v) && !completed_event_decodes(v) && !error_event_decodes(v) ==> x
            == ImageStreamEvent::Other(v),
{
}

/// The events a buffered generation response stands for: the `i`-th is a
/// completion event of type `image_generation.completed` carrying the
/// `i`-th image's data, media type and extra fields and the response's
/// creation time; only the first carries the response's usage, and each
/// keeps the response's extra fields on its wrapper.
pub proof fn lemma_buffered_event_fields(resp: ImageGenerationResponse, i: int, e: ImageStreamingResponse)
    requires
        0 <= i < resp.data@.len(),
        buffered_event(resp, i, e),
    ensures
        e.data is Completed,
        e.data->Completed_0.event_type@ == "image_generation.completed"@,
        e.data->Completed_0.b64_json@ == resp.data@[i].b64_json@,
        e.data->Completed_0.media_type == resp.data@[i].media_type,
        e.data->Completed_0.created == resp.created,
        i == 0 ==> e.data->Completed_0.usage == resp.usage,
        i > 0 ==> e.data->Completed_0.usage is None,
        e.data->Completed_0.extra == resp.data@[i].extra,
        e.extra.pairs() == resp.extra.pairs(),
{
}


/// A request's JSON body is the JSON object of its entries.
pub proof fn lemma_request_json_object(f: ImageRequestFields)
    ensures
        request_json(f) == json_object_value(request_entries(f)),
{
}

/// Text decodes as a generation response or a streaming frame exactly where
/// it parses as JSON that decodes as one; a streaming frame's data gives the
/// frame the JSON holds, or a serialization error.
pub proof fn lemma_text_decoding(text: Seq<char>, r: Result<ImageStreamingResponse, OpenRouterError>)
    ensures
        response_text_decodes(text) <==> (json_parse_of(text) matches Some(v) && response_decodes(v)),
        streaming_text_decodes(text) <==> (json_parse_of(text) matches Some(v) && streaming_response_decodes(v)),
        streaming_text_result(text, r) ==> (r matches Ok(x) ==> json_parse_of(text) matches Some(v)
            && streaming_response_from(v, x)),
        streaming_text_result(text, r) ==> (r is Ok <==> (json_parse_of(text) matches Some(v)
            && streaming_response_decodes(v))),
        streaming_text_result(text, r) ==> (r matches Err(e) ==> e is Serialization),
{
}

} // verus!
