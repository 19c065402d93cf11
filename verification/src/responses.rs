//! The Responses API: response models decoded from JSON, stream events, and
//! the requests sent to `POST /responses`.
use vstd::prelude::*;

use crate::body::{
    bool_entry, clone_opt_map, clone_opt_number, clone_opt_strings, clone_opt_values,
    keyed_by, lemma_has_key_concat, lemma_keyed_by, map_entry, number_entry, push_bool, push_map,
    push_number, push_strings, push_text, push_u32, push_value, push_values, strings_entry,
    text_entry, u32_entry, value_entry, values_entry, keyed_within, lemma_entry_within,
    lemma_value_under, lemma_within_concat, lemma_within_distinct, value_under,
};
use crate::decode::{
    keys_view, opt_array, opt_array_spec, opt_string, opt_string_spec, opt_u64, opt_u64_spec,
    opt_value, opt_value_spec, req_string, req_string_spec, without_keys, without_keys_spec,
};
use crate::error::OpenRouterError;
use crate::http::{
    client_headers, client_request_headers, headers_view, opt_strings_view, opt_text, HttpMethod,
    HttpRequestPlan,
};
use crate::json::{
    clone_opt_string, clone_opt_value, has_key, json_as_entries, json_bool_value, json_data_error,
    json_entries_of, json_object, json_object_value, json_parse, json_parse_of, key_unique, lookup,
    json_array_value, json_number_value, json_string_value, json_u64_value, keys_distinct,
    json_str_of, json_u64_of, json_is_null_of, json_array_of,
    opt_str_view, pairs_view, JsonMap,
};
use crate::sse::{is_done_marker, is_done_spec, SseFrame};
use crate::text::{push_str, strings_view};

verus! {

/// Opt-in for OpenRouter's routing metadata, sent as the
/// `X-OpenRouter-Metadata` request header.
#[derive(Debug, Clone, Copy, PartialEq, Eq, Structural)]
pub enum OpenRouterExperimentalMetadata {
    Enabled,
}

/// The header that carries the routing-metadata opt-in, where set.
pub open spec fn metadata_opt_in_headers(m: Option<OpenRouterExperimentalMetadata>) -> Seq<(Seq<char>, Seq<char>)> {
    match m {
        Some(OpenRouterExperimentalMetadata::Enabled) => seq![("X-OpenRouter-Metadata"@, "enabled"@)],
        None => Seq::empty(),
    }
}

/// Request body for the OpenRouter Responses API (`POST /responses`).
#[derive(Debug, Clone)]
pub struct ResponsesRequest {
    /// The input: a text or a list of input items.
    input: Option<serde_json::Value>,
    /// System instructions for the model.
    instructions: Option<String>,
    /// Metadata attached to the response.
    metadata: Option<JsonMap>,
    /// Tools the model may call.
    tools: Option<Vec<serde_json::Value>>,
    /// How the model chooses tools.
    tool_choice: Option<serde_json::Value>,
    /// Whether tool calls may run in parallel.
    parallel_tool_calls: Option<bool>,
    /// The model to use.
    model: Option<String>,
    /// Fallback models, in order.
    models: Option<Vec<String>>,
    /// Text output configuration.
    text: Option<serde_json::Value>,
    /// Reasoning configuration.
    reasoning: Option<serde_json::Value>,
    /// Upper bound on output tokens.
    max_output_tokens: Option<u32>,
    /// Sampling temperature.
    temperature: Option<serde_json::Number>,
    /// Nucleus sampling mass.
    top_p: Option<serde_json::Number>,
    /// Number of most likely tokens to return per position.
    top_logprobs: Option<u32>,
    /// Upper bound on tool calls.
    max_tool_calls: Option<u32>,
    /// Presence penalty.
    presence_penalty: Option<serde_json::Number>,
    /// Frequency penalty.
    frequency_penalty: Option<serde_json::Number>,
    /// Top-k sampling.
    top_k: Option<serde_json::Number>,
    /// Image generation configuration.
    image_config: Option<JsonMap>,
    /// Output modalities.
    modalities: Option<Vec<String>>,
    /// Key for prompt caching.
    prompt_cache_key: Option<String>,
    /// The response this one continues.
    previous_response_id: Option<String>,
    /// A stored prompt reference.
    prompt: Option<serde_json::Value>,
    /// Extra output items to return with the response (the body's `"include"` list).
    included_output: Option<Vec<String>>,
    /// Whether to run in the background.
    background: Option<bool>,
    /// Stable identifier of the end user for safety checks.
    safety_identifier: Option<String>,
    /// Whether to store the response.
    store: Option<bool>,
    /// Service tier.
    service_tier: Option<String>,
    /// Truncation strategy.
    truncation: Option<String>,
    /// Whether to stream; set only on the body that is sent.
    stream: Option<bool>,
    /// Opt-in for OpenRouter routing metadata; sent as a header, not in the body.
    experimental_metadata: Option<OpenRouterExperimentalMetadata>,
    /// Provider routing preferences.
    provider: Option<serde_json::Value>,
    /// Plugins to enable.
    plugins: Option<Vec<serde_json::Value>>,
    /// Routing strategy.
    route: Option<String>,
    /// End-user identifier.
    user: Option<String>,
    /// Session identifier.
    session_id: Option<String>,
    /// Prompt cache control.
    cache_control: Option<serde_json::Value>,
    /// Trace options.
    trace: Option<serde_json::Value>,
    /// Debug options.
    debug: Option<serde_json::Value>,
}

/// Builder for [`ResponsesRequest`]; every field is optional.
#[derive(Debug, Clone)]
pub struct ResponsesRequestBuilder {
    input: Option<serde_json::Value>,
    instructions: Option<String>,
    metadata: Option<JsonMap>,
    tools: Option<Vec<serde_json::Value>>,
    tool_choice: Option<serde_json::Value>,
    parallel_tool_calls: Option<bool>,
    model: Option<String>,
    models: Option<Vec<String>>,
    text: Option<serde_json::Value>,
    reasoning: Option<serde_json::Value>,
    max_output_tokens: Option<u32>,
    temperature: Option<serde_json::Number>,
    top_p: Option<serde_json::Number>,
    top_logprobs: Option<u32>,
    max_tool_calls: Option<u32>,
    presence_penalty: Option<serde_json::Number>,
    frequency_penalty: Option<serde_json::Number>,
    top_k: Option<serde_json::Number>,
    image_config: Option<JsonMap>,
    modalities: Option<Vec<String>>,
    prompt_cache_key: Option<String>,
    previous_response_id: Option<String>,
    prompt: Option<serde_json::Value>,
    included_output: Option<Vec<String>>,
    background: Option<bool>,
    safety_identifier: Option<String>,
    store: Option<bool>,
    service_tier: Option<String>,
    truncation: Option<String>,
    experimental_metadata: Option<OpenRouterExperimentalMetadata>,
    provider: Option<serde_json::Value>,
    plugins: Option<Vec<serde_json::Value>>,
    route: Option<String>,
    user: Option<String>,
    session_id: Option<String>,
    cache_control: Option<serde_json::Value>,
    trace: Option<serde_json::Value>,
    debug: Option<serde_json::Value>,
}

/// The fields of a Responses API request (or of its builder), each taken by
/// its view.
pub struct ResponsesFields {
    pub input: Option<serde_json::Value>,
    pub instructions: Option<Seq<char>>,
    pub metadata: Option<Seq<(Seq<char>, serde_json::Value)>>,
    pub tools: Option<Seq<serde_json::Value>>,
    pub tool_choice: Option<serde_json::Value>,
    pub parallel_tool_calls: Option<bool>,
    pub model: Option<Seq<char>>,
    pub models: Option<Seq<Seq<char>>>,
    pub text: Option<serde_json::Value>,
    pub reasoning: Option<serde_json::Value>,
    pub max_output_tokens: Option<u32>,
    pub temperature: Option<serde_json::Number>,
    pub top_p: Option<serde_json::Number>,
    pub top_logprobs: Option<u32>,
    pub max_tool_calls: Option<u32>,
    pub presence_penalty: Option<serde_json::Number>,
    pub frequency_penalty: Option<serde_json::Number>,
    pub top_k: Option<serde_json::Number>,
    pub image_config: Option<Seq<(Seq<char>, serde_json::Value)>>,
    pub modalities: Option<Seq<Seq<char>>>,
    pub prompt_cache_key: Option<Seq<char>>,
    pub previous_response_id: Option<Seq<char>>,
    pub prompt: Option<serde_json::Value>,
    pub included_output: Option<Seq<Seq<char>>>,
    pub background: Option<bool>,
    pub safety_identifier: Option<Seq<char>>,
    pub store: Option<bool>,
    pub service_tier: Option<Seq<char>>,
    pub truncation: Option<Seq<char>>,
    pub stream: Option<bool>,
    pub experimental_metadata: Option<OpenRouterExperimentalMetadata>,
    pub provider: Option<serde_json::Value>,
    pub plugins: Option<Seq<serde_json::Value>>,
    pub route: Option<Seq<char>>,
    pub user: Option<Seq<char>>,
    pub session_id: Option<Seq<char>>,
    pub cache_control: Option<serde_json::Value>,
    pub trace: Option<serde_json::Value>,
    pub debug: Option<serde_json::Value>,
}

impl View for ResponsesRequest {
    type V = ResponsesFields;

    closed spec fn view(&self) -> ResponsesFields {
        ResponsesFields {
            input: self.input,
            instructions: opt_str_view(self.instructions),
            metadata: match self.metadata { Some(m) => Some(m.pairs()), None => None },
            tools: match self.tools { Some(v) => Some(v@), None => None },
            tool_choice: self.tool_choice,
            parallel_tool_calls: self.parallel_tool_calls,
            model: opt_str_view(self.model),
            models: opt_strings_view(self.models),
            text: self.text,
            reasoning: self.reasoning,
            max_output_tokens: self.max_output_tokens,
            temperature: self.temperature,
            top_p: self.top_p,
            top_logprobs: self.top_logprobs,
            max_tool_calls: self.max_tool_calls,
            presence_penalty: self.presence_penalty,
            frequency_penalty: self.frequency_penalty,
            top_k: self.top_k,
            image_config: match self.image_config { Some(m) => Some(m.pairs()), None => None },
            modalities: opt_strings_view(self.modalities),
            prompt_cache_key: opt_str_view(self.prompt_cache_key),
            previous_response_id: opt_str_view(self.previous_response_id),
            prompt: self.prompt,
            included_output: opt_strings_view(self.included_output),
            background: self.background,
            safety_identifier: opt_str_view(self.safety_identifier),
            store: self.store,
            service_tier: opt_str_view(self.service_tier),
            truncation: opt_str_view(self.truncation),
            stream: self.stream,
            experimental_metadata: self.experimental_metadata,
            provider: self.provider,
            plugins: match self.plugins { Some(v) => Some(v@), None => None },
            route: opt_str_view(self.route),
            user: opt_str_view(self.user),
            session_id: opt_str_view(self.session_id),
            cache_control: self.cache_control,
            trace: self.trace,
            debug: self.debug,
        }
    }
}

impl View for ResponsesRequestBuilder {
    type V = ResponsesFields;

    closed spec fn view(&self) -> ResponsesFields {
        ResponsesFields {
            input: self.input,
            instructions: opt_str_view(self.instructions),
            metadata: match self.metadata { Some(m) => Some(m.pairs()), None => None },
            tools: match self.tools { Some(v) => Some(v@), None => None },
            tool_choice: self.tool_choice,
            parallel_tool_calls: self.parallel_tool_calls,
            model: opt_str_view(self.model),
            models: opt_strings_view(self.models),
            text: self.text,
            reasoning: self.reasoning,
            max_output_tokens: self.max_output_tokens,
            temperature: self.temperature,
            top_p: self.top_p,
            top_logprobs: self.top_logprobs,
            max_tool_calls: self.max_tool_calls,
            presence_penalty: self.presence_penalty,
            frequency_penalty: self.frequency_penalty,
            top_k: self.top_k,
            image_config: match self.image_config { Some(m) => Some(m.pairs()), None => None },
            modalities: opt_strings_view(self.modalities),
            prompt_cache_key: opt_str_view(self.prompt_cache_key),
            previous_response_id: opt_str_view(self.previous_response_id),
            prompt: self.prompt,
            included_output: opt_strings_view(self.included_output),
            background: self.background,
            safety_identifier: opt_str_view(self.safety_identifier),
            store: self.store,
            service_tier: opt_str_view(self.service_tier),
            truncation: opt_str_view(self.truncation),
            stream: None,
            experimental_metadata: self.experimental_metadata,
            provider: self.provider,
            plugins: match self.plugins { Some(v) => Some(v@), None => None },
            route: opt_str_view(self.route),
            user: opt_str_view(self.user),
            session_id: opt_str_view(self.session_id),
            cache_control: self.cache_control,
            trace: self.trace,
            debug: self.debug,
        }
    }
}

/// A request with nothing set.
pub open spec fn empty_responses_fields() -> ResponsesFields {
    ResponsesFields {
        input: None,
        instructions: None,
        metadata: None,
        tools: None,
        tool_choice: None,
        parallel_tool_calls: None,
        model: None,
        models: None,
        text: None,
        reasoning: None,
        max_output_tokens: None,
        temperature: None,
        top_p: None,
        top_logprobs: None,
        max_tool_calls: None,
        presence_penalty: None,
        frequency_penalty: None,
        top_k: None,
        image_config: None,
        modalities: None,
        prompt_cache_key: None,
        previous_response_id: None,
        prompt: None,
        included_output: None,
        background: None,
        safety_identifier: None,
        store: None,
        service_tier: None,
        truncation: None,
        stream: None,
        experimental_metadata: None,
        provider: None,
        plugins: None,
        route: None,
        user: None,
        session_id: None,
        cache_control: None,
        trace: None,
        debug: None,
    }
}

/// The body entries from `input` to `model`, in field order.
pub open spec fn responses_entries_part1(f: ResponsesFields) -> Seq<(Seq<char>, serde_json::Value)> {
    value_entry("input"@, f.input)
        + text_entry("instructions"@, f.instructions)
        + map_entry("metadata"@, f.metadata)
        + values_entry("tools"@, f.tools)
        + value_entry("tool_choice"@, f.tool_choice)
        + bool_entry("parallel_tool_calls"@, f.parallel_tool_calls)
        + text_entry("model"@, f.model)
}

/// The body entries from `models` to `top_logprobs`, in field order.
pub open spec fn responses_entries_part2(f: ResponsesFields) -> Seq<(Seq<char>, serde_json::Value)> {
    strings_entry("models"@, f.models)
        + value_entry("text"@, f.text)
        + value_entry("reasoning"@, f.reasoning)
        + u32_entry("max_output_tokens"@, f.max_output_tokens)
        + number_entry("temperature"@, f.temperature)
        + number_entry("top_p"@, f.top_p)
        + u32_entry("top_logprobs"@, f.top_logprobs)
}

/// The body entries from `max_tool_calls` to `prompt_cache_key`, in field order.
pub open spec fn responses_entries_part3(f: ResponsesFields) -> Seq<(Seq<char>, serde_json::Value)> {
    u32_entry("max_tool_calls"@, f.max_tool_calls)
        + number_entry("presence_penalty"@, f.presence_penalty)
        + number_entry("frequency_penalty"@, f.frequency_penalty)
        + number_entry("top_k"@, f.top_k)
        + map_entry("image_config"@, f.image_config)
        + strings_entry("modalities"@, f.modalities)
        + text_entry("prompt_cache_key"@, f.prompt_cache_key)
}

/// The body entries from `previous_response_id` to `truncation`, in field order.
pub open spec fn responses_entries_part4(f: ResponsesFields) -> Seq<(Seq<char>, serde_json::Value)> {
    text_entry("previous_response_id"@, f.previous_response_id)
        + value_entry("prompt"@, f.prompt)
        + strings_entry("include"@, f.included_output)
        + bool_entry("background"@, f.background)
        + text_entry("safety_identifier"@, f.safety_identifier)
        + bool_entry("store"@, f.store)
        + text_entry("service_tier"@, f.service_tier)
        + text_entry("truncation"@, f.truncation)
}

/// The body entries from `provider` to `debug`, in field order.
pub open spec fn responses_entries_part5(f: ResponsesFields) -> Seq<(Seq<char>, serde_json::Value)> {
    value_entry("provider"@, f.provider)
        + values_entry("plugins"@, f.plugins)
        + text_entry("route"@, f.route)
        + text_entry("user"@, f.user)
        + text_entry("session_id"@, f.session_id)
        + value_entry("cache_control"@, f.cache_control)
        + value_entry("trace"@, f.trace)
        + value_entry("debug"@, f.debug)
}

/// The entries of a request's JSON body, in field order; unset fields are
/// left out, and the metadata opt-in is never written.
pub open spec fn responses_entries(f: ResponsesFields) -> Seq<(Seq<char>, serde_json::Value)> {
    responses_entries_part1(f)
        + responses_entries_part2(f)
        + responses_entries_part3(f)
        + responses_entries_part4(f)
        + bool_entry("stream"@, f.stream)
        + responses_entries_part5(f)
}

/// The request's JSON body.
pub open spec fn responses_json(f: ResponsesFields) -> serde_json::Value {
    json_object_value(responses_entries(f))
}

proof fn lemma_responses_entries_part1_has_no_stream(f: ResponsesFields)
    ensures
        !has_key(responses_entries_part1(f), "stream"@),
{
    let k = "stream"@;
    reveal_strlit("stream");
    reveal_strlit("input");
    assert("input"@.len() != k.len());
    reveal_strlit("instructions");
    assert("instructions"@.len() != k.len());
    reveal_strlit("metadata");
    assert("metadata"@.len() != k.len());
    reveal_strlit("tools");
    assert("tools"@.len() != k.len());
    reveal_strlit("tool_choice");
    assert("tool_choice"@.len() != k.len());
    reveal_strlit("parallel_tool_calls");
    assert("parallel_tool_calls"@.len() != k.len());
    reveal_strlit("model");
    assert("model"@.len() != k.len());
    let p0 = value_entry("input"@, f.input);
    assert(keyed_by(p0, "input"@));
    lemma_keyed_by(p0, "input"@, k);
    let p1 = text_entry("instructions"@, f.instructions);
    assert(keyed_by(p1, "instructions"@));
    lemma_keyed_by(p1, "instructions"@, k);
    let p2 = map_entry("metadata"@, f.metadata);
    assert(keyed_by(p2, "metadata"@));
    lemma_keyed_by(p2, "metadata"@, k);
    let p3 = values_entry("tools"@, f.tools);
    assert(keyed_by(p3, "tools"@));
    lemma_keyed_by(p3, "tools"@, k);
    let p4 = value_entry("tool_choice"@, f.tool_choice);
    assert(keyed_by(p4, "tool_choice"@));
    lemma_keyed_by(p4, "tool_choice"@, k);
    let p5 = bool_entry("parallel_tool_calls"@, f.parallel_tool_calls);
    assert(keyed_by(p5, "parallel_tool_calls"@));
    lemma_keyed_by(p5, "parallel_tool_calls"@, k);
    let p6 = text_entry("model"@, f.model);
    assert(keyed_by(p6, "model"@));
    lemma_keyed_by(p6, "model"@, k);
    lemma_has_key_concat(p0, p1, k);
    lemma_has_key_concat(p0 + p1, p2, k);
    lemma_has_key_concat(p0 + p1 + p2, p3, k);
    lemma_has_key_concat(p0 + p1 + p2 + p3, p4, k);
    lemma_has_key_concat(p0 + p1 + p2 + p3 + p4, p5, k);
    lemma_has_key_concat(p0 + p1 + p2 + p3 + p4 + p5, p6, k);
}

proof fn lemma_responses_entries_part2_has_no_stream(f: ResponsesFields)
    ensures
        !has_key(responses_entries_part2(f), "stream"@),
{
    let k = "stream"@;
    reveal_strlit("stream");
    reveal_strlit("models");
    assert("models"@[0] != k[0]);
    reveal_strlit("text");
    assert("text"@.len() != k.len());
    reveal_strlit("reasoning");
    assert("reasoning"@.len() != k.len());
    reveal_strlit("max_output_tokens");
    assert("max_output_tokens"@.len() != k.len());
    reveal_strlit("temperature");
    assert("temperature"@.len() != k.len());
    reveal_strlit("top_p");
    assert("top_p"@.len() != k.len());
    reveal_strlit("top_logprobs");
    assert("top_logprobs"@.len() != k.len());
    let p0 = strings_entry("models"@, f.models);
    assert(keyed_by(p0, "models"@));
    lemma_keyed_by(p0, "models"@, k);
    let p1 = value_entry("text"@, f.text);
    assert(keyed_by(p1, "text"@));
    lemma_keyed_by(p1, "text"@, k);
    let p2 = value_entry("reasoning"@, f.reasoning);
    assert(keyed_by(p2, "reasoning"@));
    lemma_keyed_by(p2, "reasoning"@, k);
    let p3 = u32_entry("max_output_tokens"@, f.max_output_tokens);
    assert(keyed_by(p3, "max_output_tokens"@));
    lemma_keyed_by(p3, "max_output_tokens"@, k);
    let p4 = number_entry("temperature"@, f.temperature);
    assert(keyed_by(p4, "temperature"@));
    lemma_keyed_by(p4, "temperature"@, k);
    let p5 = number_entry("top_p"@, f.top_p);
    assert(keyed_by(p5, "top_p"@));
    lemma_keyed_by(p5, "top_p"@, k);
    let p6 = u32_entry("top_logprobs"@, f.top_logprobs);
    assert(keyed_by(p6, "top_logprobs"@));
    lemma_keyed_by(p6, "top_logprobs"@, k);
    lemma_has_key_concat(p0, p1, k);
    lemma_has_key_concat(p0 + p1, p2, k);
    lemma_has_key_concat(p0 + p1 + p2, p3, k);
    lemma_has_key_concat(p0 + p1 + p2 + p3, p4, k);
    lemma_has_key_concat(p0 + p1 + p2 + p3 + p4, p5, k);
    lemma_has_key_concat(p0 + p1 + p2 + p3 + p4 + p5, p6, k);
}

proof fn lemma_responses_entries_part3_has_no_stream(f: ResponsesFields)
    ensures
        !has_key(responses_entries_part3(f), "stream"@),
{
    let k = "stream"@;
    reveal_strlit("stream");
    reveal_strlit("max_tool_calls");
    assert("max_tool_calls"@.len() != k.len());
    reveal_strlit("presence_penalty");
    assert("presence_penalty"@.len() != k.len());
    reveal_strlit("frequency_penalty");
    assert("frequency_penalty"@.len() != k.len());
    reveal_strlit("top_k");
    assert("top_k"@.len() != k.len());
    reveal_strlit("image_config");
    assert("image_config"@.len() != k.len());
    reveal_strlit("modalities");
    assert("modalities"@.len() != k.len());
    reveal_strlit("prompt_cache_key");
    assert("prompt_cache_key"@.len() != k.len());
    let p0 = u32_entry("max_tool_calls"@, f.max_tool_calls);
    assert(keyed_by(p0, "max_tool_calls"@));
    lemma_keyed_by(p0, "max_tool_calls"@, k);
    let p1 = number_entry("presence_penalty"@, f.presence_penalty);
    assert(keyed_by(p1, "presence_penalty"@));
    lemma_keyed_by(p1, "presence_penalty"@, k);
    let p2 = number_entry("frequency_penalty"@, f.frequency_penalty);
    assert(keyed_by(p2, "frequency_penalty"@));
    lemma_keyed_by(p2, "frequency_penalty"@, k);
    let p3 = number_entry("top_k"@, f.top_k);
    assert(keyed_by(p3, "top_k"@));
    lemma_keyed_by(p3, "top_k"@, k);
    let p4 = map_entry("image_config"@, f.image_config);
    assert(keyed_by(p4, "image_config"@));
    lemma_keyed_by(p4, "image_config"@, k);
    let p5 = strings_entry("modalities"@, f.modalities);
    assert(keyed_by(p5, "modalities"@));
    lemma_keyed_by(p5, "modalities"@, k);
    let p6 = text_entry("prompt_cache_key"@, f.prompt_cache_key);
    assert(keyed_by(p6, "prompt_cache_key"@));
    lemma_keyed_by(p6, "prompt_cache_key"@, k);
    lemma_has_key_concat(p0, p1, k);
    lemma_has_key_concat(p0 + p1, p2, k);
    lemma_has_key_concat(p0 + p1 + p2, p3, k);
    lemma_has_key_concat(p0 + p1 + p2 + p3, p4, k);
    lemma_has_key_concat(p0 + p1 + p2 + p3 + p4, p5, k);
    lemma_has_key_concat(p0 + p1 + p2 + p3 + p4 + p5, p6, k);
}

proof fn lemma_responses_entries_part4_has_no_stream(f: ResponsesFields)
    ensures
        !has_key(responses_entries_part4(f), "stream"@),
{
    let k = "stream"@;
    reveal_strlit("stream");
    reveal_strlit("previous_response_id");
    assert("previous_response_id"@.len() != k.len());
    reveal_strlit("prompt");
    assert("prompt"@[0] != k[0]);
    reveal_strlit("include");
    assert("include"@.len() != k.len());
    reveal_strlit("background");
    assert("background"@.len() != k.len());
    reveal_strlit("safety_identifier");
    assert("safety_identifier"@.len() != k.len());
    reveal_strlit("store");
    assert("store"@.len() != k.len());
    reveal_strlit("service_tier");
    assert("service_tier"@.len() != k.len());
    reveal_strlit("truncation");
    assert("truncation"@.len() != k.len());
    let p0 = text_entry("previous_response_id"@, f.previous_response_id);
    assert(keyed_by(p0, "previous_response_id"@));
    lemma_keyed_by(p0, "previous_response_id"@, k);
    let p1 = value_entry("prompt"@, f.prompt);
    assert(keyed_by(p1, "prompt"@));
    lemma_keyed_by(p1, "prompt"@, k);
    let q = strings_entry("include"@, f.included_output);
    assert(keyed_by(q, "include"@));
    lemma_keyed_by(q, "include"@, k);
    let p2 = bool_entry("background"@, f.background);
    assert(keyed_by(p2, "background"@));
    lemma_keyed_by(p2, "background"@, k);
    let p3 = text_entry("safety_identifier"@, f.safety_identifier);
    assert(keyed_by(p3, "safety_identifier"@));
    lemma_keyed_by(p3, "safety_identifier"@, k);
    let p4 = bool_entry("store"@, f.store);
    assert(keyed_by(p4, "store"@));
    lemma_keyed_by(p4, "store"@, k);
    let p5 = text_entry("service_tier"@, f.service_tier);
    assert(keyed_by(p5, "service_tier"@));
    lemma_keyed_by(p5, "service_tier"@, k);
    let p6 = text_entry("truncation"@, f.truncation);
    assert(keyed_by(p6, "truncation"@));
    lemma_keyed_by(p6, "truncation"@, k);
    lemma_has_key_concat(p0, p1, k);
    lemma_has_key_concat(p0 + p1, q, k);
    lemma_has_key_concat(p0 + p1 + q, p2, k);
    lemma_has_key_concat(p0 + p1 + q + p2, p3, k);
    lemma_has_key_concat(p0 + p1 + q + p2 + p3, p4, k);
    lemma_has_key_concat(p0 + p1 + q + p2 + p3 + p4, p5, k);
    lemma_has_key_concat(p0 + p1 + q + p2 + p3 + p4 + p5, p6, k);
}

proof fn lemma_responses_entries_part5_has_no_stream(f: ResponsesFields)
    ensures
        !has_key(responses_entries_part5(f), "stream"@),
{
    let k = "stream"@;
    reveal_strlit("stream");
    reveal_strlit("provider");
    assert("provider"@.len() != k.len());
    reveal_strlit("plugins");
    assert("plugins"@.len() != k.len());
    reveal_strlit("route");
    assert("route"@.len() != k.len());
    reveal_strlit("user");
    assert("user"@.len() != k.len());
    reveal_strlit("session_id");
    assert("session_id"@.len() != k.len());
    reveal_strlit("cache_control");
    assert("cache_control"@.len() != k.len());
    reveal_strlit("trace");
    assert("trace"@.len() != k.len());
    reveal_strlit("debug");
    assert("debug"@.len() != k.len());
    let p0 = value_entry("provider"@, f.provider);
    assert(keyed_by(p0, "provider"@));
    lemma_keyed_by(p0, "provider"@, k);
    let p1 = values_entry("plugins"@, f.plugins);
    assert(keyed_by(p1, "plugins"@));
    lemma_keyed_by(p1, "plugins"@, k);
    let p2 = text_entry("route"@, f.route);
    assert(keyed_by(p2, "route"@));
    lemma_keyed_by(p2, "route"@, k);
    let p3 = text_entry("user"@, f.user);
    assert(keyed_by(p3, "user"@));
    lemma_keyed_by(p3, "user"@, k);
    let p4 = text_entry("session_id"@, f.session_id);
    assert(keyed_by(p4, "session_id"@));
    lemma_keyed_by(p4, "session_id"@, k);
    let p5 = value_entry("cache_control"@, f.cache_control);
    assert(keyed_by(p5, "cache_control"@));
    lemma_keyed_by(p5, "cache_control"@, k);
    let p6 = value_entry("trace"@, f.trace);
    assert(keyed_by(p6, "trace"@));
    lemma_keyed_by(p6, "trace"@, k);
    let p7 = value_entry("debug"@, f.debug);
    assert(keyed_by(p7, "debug"@));
    lemma_keyed_by(p7, "debug"@, k);
    lemma_has_key_concat(p0, p1, k);
    lemma_has_key_concat(p0 + p1, p2, k);
    lemma_has_key_concat(p0 + p1 + p2, p3, k);
    lemma_has_key_concat(p0 + p1 + p2 + p3, p4, k);
    lemma_has_key_concat(p0 + p1 + p2 + p3 + p4, p5, k);
    lemma_has_key_concat(p0 + p1 + p2 + p3 + p4 + p5, p6, k);
    lemma_has_key_concat(p0 + p1 + p2 + p3 + p4 + p5 + p6, p7, k);
}

/// The body's `"stream"` entry is the streaming flag the request carries,
/// absent where the flag is unset, and the key occurs once at most.
pub proof fn lemma_responses_stream_entry(f: ResponsesFields)
    ensures
        lookup(responses_entries(f), "stream"@) == match f.stream {
            Some(b) => Some(json_bool_value(b)),
            None => None,
        },
        key_unique(responses_entries(f), "stream"@),
{
    let k = "stream"@;
    lemma_responses_entries_part1_has_no_stream(f);
    lemma_responses_entries_part2_has_no_stream(f);
    lemma_responses_entries_part3_has_no_stream(f);
    lemma_responses_entries_part4_has_no_stream(f);
    lemma_responses_entries_part5_has_no_stream(f);
    let a = responses_entries_part1(f) + responses_entries_part2(f) + responses_entries_part3(f) + responses_entries_part4(f);
    lemma_has_key_concat(responses_entries_part1(f), responses_entries_part2(f), k);
    lemma_has_key_concat(responses_entries_part1(f) + responses_entries_part2(f), responses_entries_part3(f), k);
    lemma_has_key_concat(responses_entries_part1(f) + responses_entries_part2(f) + responses_entries_part3(f), responses_entries_part4(f), k);
    assert(!has_key(a, k));
    let b = responses_entries_part5(f);
    let st = bool_entry("stream"@, f.stream);
    let e = responses_entries(f);
    assert(e == a + st + b);
    match f.stream {
        Some(x) => {
            assert(st =~= seq![(k, json_bool_value(x))]);
            let j = a.len() as int;
            assert(e[j].0 == k);
            assert forall|i: int| 0 <= i < e.len() && i != j implies #[trigger] e[i].0 != k by {
                if i < j {
                    assert(e[i] == a[i]);
                    if a[i].0 == k {
                        assert(has_key(a, k));
                    }
                } else {
                    assert(e[i] == b[i - j - 1]);
                    if b[i - j - 1].0 == k {
                        assert(has_key(b, k));
                    }
                }
            }
            assert(has_key(e, k));
            let c = choose|i: int| 0 <= i < e.len() && #[trigger] e[i].0 == k;
            assert(c == j);
        },
        None => {
            assert(st =~= Seq::<(Seq<char>, serde_json::Value)>::empty());
            assert(e =~= a + b);
            lemma_has_key_concat(a, b, k);
            assert forall|i: int| 0 <= i < e.len() implies #[trigger] e[i].0 != k by {
                if e[i].0 == k {
                    assert(has_key(e, k));
                }
            }
        },
    }
}

/// The position of each key in a Responses API request's body, in field
/// order; other keys come after them all.
#[verifier::opaque]
pub open spec fn responses_body_key_pos(k: Seq<char>) -> int {
    if k == "input"@ {
        0
    } else if k == "instructions"@ {
        1
    } else if k == "metadata"@ {
        2
    } else if k == "tools"@ {
        3
    } else if k == "tool_choice"@ {
        4
    } else if k == "parallel_tool_calls"@ {
        5
    } else if k == "model"@ {
        6
    } else if k == "models"@ {
        7
    } else if k == "text"@ {
        8
    } else if k == "reasoning"@ {
        9
    } else if k == "max_output_tokens"@ {
        10
    } else if k == "temperature"@ {
        11
    } else if k == "top_p"@ {
        12
    } else if k == "top_logprobs"@ {
        13
    } else if k == "max_tool_calls"@ {
        14
    } else if k == "presence_penalty"@ {
        15
    } else if k == "frequency_penalty"@ {
        16
    } else if k == "top_k"@ {
        17
    } else if k == "image_config"@ {
        18
    } else if k == "modalities"@ {
        19
    } else if k == "prompt_cache_key"@ {
        20
    } else if k == "previous_response_id"@ {
        21
    } else if k == "prompt"@ {
        22
    } else if k == "include"@ {
        23
    } else if k == "background"@ {
        24
    } else if k == "safety_identifier"@ {
        25
    } else if k == "store"@ {
        26
    } else if k == "service_tier"@ {
        27
    } else if k == "truncation"@ {
        28
    } else if k == "stream"@ {
        29
    } else if k == "provider"@ {
        30
    } else if k == "plugins"@ {
        31
    } else if k == "route"@ {
        32
    } else if k == "user"@ {
        33
    } else if k == "session_id"@ {
        34
    } else if k == "cache_control"@ {
        35
    } else if k == "trace"@ {
        36
    } else if k == "debug"@ {
        37
    } else {
        38
    }
}

/// `responses_body_key_pos` as a function value.
pub open spec fn responses_pos() -> spec_fn(Seq<char>) -> int {
    |k: Seq<char>| responses_body_key_pos(k)
}

proof fn lemma_responses_body_key_pos_0()
    ensures
        responses_body_key_pos("input"@) == 0,
        responses_body_key_pos("instructions"@) == 1,
        responses_body_key_pos("metadata"@) == 2,
        responses_body_key_pos("tools"@) == 3,
        responses_body_key_pos("tool_choice"@) == 4,
        responses_body_key_pos("parallel_tool_calls"@) == 5,
        responses_body_key_pos("model"@) == 6,
        responses_body_key_pos("models"@) == 7,
{
    reveal(responses_body_key_pos);
    reveal_strlit("input");
    reveal_strlit("instructions");
    reveal_strlit("metadata");
    reveal_strlit("tools");
    reveal_strlit("tool_choice");
    reveal_strlit("parallel_tool_calls");
    reveal_strlit("model");
    reveal_strlit("models");
    assert("input"@.len() != "instructions"@.len());
    assert("input"@.len() != "metadata"@.len());
    assert("instructions"@.len() != "metadata"@.len());
    assert("input"@[0] != "tools"@[0]);
    assert("instructions"@.len() != "tools"@.len());
    assert("metadata"@.len() != "tools"@.len());
    assert("input"@.len() != "tool_choice"@.len());
    assert("instructions"@.len() != "tool_choice"@.len());
    assert("metadata"@.len() != "tool_choice"@.len());
    assert("tools"@.len() != "tool_choice"@.len());
    assert("input"@.len() != "parallel_tool_calls"@.len());
    assert("instructions"@.len() != "parallel_tool_calls"@.len());
    assert("metadata"@.len() != "parallel_tool_calls"@.len());
    assert("tools"@.len() != "parallel_tool_calls"@.len());
    assert("tool_choice"@.len() != "parallel_tool_calls"@.len());
    assert("input"@[0] != "model"@[0]);
    assert("instructions"@.len() != "model"@.len());
    assert("metadata"@.len() != "model"@.len());
    assert("tools"@[0] != "model"@[0]);
    assert("tool_choice"@.len() != "model"@.len());
    assert("parallel_tool_calls"@.len() != "model"@.len());
    assert("input"@.len() != "models"@.len());
    assert("instructions"@.len() != "models"@.len());
    assert("metadata"@.len() != "models"@.len());
    assert("tools"@.len() != "models"@.len());
    assert("tool_choice"@.len() != "models"@.len());
    assert("parallel_tool_calls"@.len() != "models"@.len());
    assert("model"@.len() != "models"@.len());
}

proof fn lemma_responses_body_key_pos_1()
    ensures
        responses_body_key_pos("text"@) == 8,
        responses_body_key_pos("reasoning"@) == 9,
        responses_body_key_pos("max_output_tokens"@) == 10,
        responses_body_key_pos("temperature"@) == 11,
        responses_body_key_pos("top_p"@) == 12,
        responses_body_key_pos("top_logprobs"@) == 13,
        responses_body_key_pos("max_tool_calls"@) == 14,
        responses_body_key_pos("presence_penalty"@) == 15,
{
    reveal(responses_body_key_pos);
    reveal_strlit("input");
    reveal_strlit("instructions");
    reveal_strlit("metadata");
    reveal_strlit("tools");
    reveal_strlit("tool_choice");
    reveal_strlit("parallel_tool_calls");
    reveal_strlit("model");
    reveal_strlit("models");
    reveal_strlit("text");
    reveal_strlit("reasoning");
    reveal_strlit("max_output_tokens");
    reveal_strlit("temperature");
    reveal_strlit("top_p");
    reveal_strlit("top_logprobs");
    reveal_strlit("max_tool_calls");
    reveal_strlit("presence_penalty");
    assert("input"@.len() != "text"@.len());
    assert("instructions"@.len() != "text"@.len());
    assert("metadata"@.len() != "text"@.len());
    assert("tools"@.len() != "text"@.len());
    assert("tool_choice"@.len() != "text"@.len());
    assert("parallel_tool_calls"@.len() != "text"@.len());
    assert("model"@.len() != "text"@.len());
    assert("models"@.len() != "text"@.len());
    assert("input"@.len() != "reasoning"@.len());
    assert("instructions"@.len() != "reasoning"@.len());
    assert("metadata"@.len() != "reasoning"@.len());
    assert("tools"@.len() != "reasoning"@.len());
    assert("tool_choice"@.len() != "reasoning"@.len());
    assert("parallel_tool_calls"@.len() != "reasoning"@.len());
    assert("model"@.len() != "reasoning"@.len());
    assert("models"@.len() != "reasoning"@.len());
    assert("text"@.len() != "reasoning"@.len());
    assert("input"@.len() != "max_output_tokens"@.len());
    assert("instructions"@.len() != "max_output_tokens"@.len());
    assert("metadata"@.len() != "max_output_tokens"@.len());
    assert("tools"@.len() != "max_output_tokens"@.len());
    assert("tool_choice"@.len() != "max_output_tokens"@.len());
    assert("parallel_tool_calls"@.len() != "max_output_tokens"@.len());
    assert("model"@.len() != "max_output_tokens"@.len());
    assert("models"@.len() != "max_output_tokens"@.len());
    assert("text"@.len() != "max_output_tokens"@.len());
    assert("reasoning"@.len() != "max_output_tokens"@.len());
    assert("input"@.len() != "temperature"@.len());
    assert("instructions"@.len() != "temperature"@.len());
    assert("metadata"@.len() != "temperature"@.len());
    assert("tools"@.len() != "temperature"@.len());
    assert("tool_choice"@[1] != "temperature"@[1]);
    assert("parallel_tool_calls"@.len() != "temperature"@.len());
    assert("model"@.len() != "temperature"@.len());
    assert("models"@.len() != "temperature"@.len());
    assert("text"@.len() != "temperature"@.len());
    assert("reasoning"@.len() != "temperature"@.len());
    assert("max_output_tokens"@.len() != "temperature"@.len());
    assert("input"@[0] != "top_p"@[0]);
    assert("instructions"@.len() != "top_p"@.len());
    assert("metadata"@.len() != "top_p"@.len());
    assert("tools"@[2] != "top_p"@[2]);
    assert("tool_choice"@.len() != "top_p"@.len());
    assert("parallel_tool_calls"@.len() != "top_p"@.len());
    assert("model"@[0] != "top_p"@[0]);
    assert("models"@.len() != "top_p"@.len());
    assert("text"@.len() != "top_p"@.len());
    assert("reasoning"@.len() != "top_p"@.len());
    assert("max_output_tokens"@.len() != "top_p"@.len());
    assert("temperature"@.len() != "top_p"@.len());
    assert("input"@.len() != "top_logprobs"@.len());
    assert("instructions"@[0] != "top_logprobs"@[0]);
    assert("metadata"@.len() != "top_logprobs"@.len());
    assert("tools"@.len() != "top_logprobs"@.len());
    assert("tool_choice"@.len() != "top_logprobs"@.len());
    assert("parallel_tool_calls"@.len() != "top_logprobs"@.len());
    assert("model"@.len() != "top_logprobs"@.len());
    assert("models"@.len() != "top_logprobs"@.len());
    assert("text"@.len() != "top_logprobs"@.len());
    assert("reasoning"@.len() != "top_logprobs"@.len());
    assert("max_output_tokens"@.len() != "top_logprobs"@.len());
    assert("temperature"@.len() != "top_logprobs"@.len());
    assert("top_p"@.len() != "top_logprobs"@.len());
    assert("input"@.len() != "max_tool_calls"@.len());
    assert("instructions"@.len() != "max_tool_calls"@.len());
    assert("metadata"@.len() != "max_tool_calls"@.len());
    assert("tools"@.len() != "max_tool_calls"@.len());
    assert("tool_choice"@.len() != "max_tool_calls"@.len());
    assert("parallel_tool_calls"@.len() != "max_tool_calls"@.len());
    assert("model"@.len() != "max_tool_calls"@.len());
    assert("models"@.len() != "max_tool_calls"@.len());
    assert("text"@.len() != "max_tool_calls"@.len());
    assert("reasoning"@.len() != "max_tool_calls"@.len());
    assert("max_output_tokens"@.len() != "max_tool_calls"@.len());
    assert("temperature"@.len() != "max_tool_calls"@.len());
    assert("top_p"@.len() != "max_tool_calls"@.len());
    assert("top_logprobs"@.len() != "max_tool_calls"@.len());
    assert("input"@.len() != "presence_penalty"@.len());
    assert("instructions"@.len() != "presence_penalty"@.len());
    assert("metadata"@.len() != "presence_penalty"@.len());
    assert("tools"@.len() != "presence_penalty"@.len());
    assert("tool_choice"@.len() != "presence_penalty"@.len());
    assert("parallel_tool_calls"@.len() != "presence_penalty"@.len());
    assert("model"@.len() != "presence_penalty"@.len());
    assert("models"@.len() != "presence_penalty"@.len());
    assert("text"@.len() != "presence_penalty"@.len());
    assert("reasoning"@.len() != "presence_penalty"@.len());
    assert("max_output_tokens"@.len() != "presence_penalty"@.len());
    assert("temperature"@.len() != "presence_penalty"@.len());
    assert("top_p"@.len() != "presence_penalty"@.len());
    assert("top_logprobs"@.len() != "presence_penalty"@.len());
    assert("max_tool_calls"@.len() != "presence_penalty"@.len());
}

proof fn lemma_responses_body_key_pos_2()
    ensures
        responses_body_key_pos("frequency_penalty"@) == 16,
        responses_body_key_pos("top_k"@) == 17,
        responses_body_key_pos("image_config"@) == 18,
        responses_body_key_pos("modalities"@) == 19,
        responses_body_key_pos("prompt_cache_key"@) == 20,
        responses_body_key_pos("previous_response_id"@) == 21,
        responses_body_key_pos("prompt"@) == 22,
        responses_body_key_pos("include"@) == 23,
{
    reveal(responses_body_key_pos);
    reveal_strlit("input");
    reveal_strlit("instructions");
    reveal_strlit("metadata");
    reveal_strlit("tools");
    reveal_strlit("tool_choice");
    reveal_strlit("parallel_tool_calls");
    reveal_strlit("model");
    reveal_strlit("models");
    reveal_strlit("text");
    reveal_strlit("reasoning");
    reveal_strlit("max_output_tokens");
    reveal_strlit("temperature");
    reveal_strlit("top_p");
    reveal_strlit("top_logprobs");
    reveal_strlit("max_tool_calls");
    reveal_strlit("presence_penalty");
    reveal_strlit("frequency_penalty");
    reveal_strlit("top_k");
    reveal_strlit("image_config");
    reveal_strlit("modalities");
    reveal_strlit("prompt_cache_key");
    reveal_strlit("previous_response_id");
    reveal_strlit("prompt");
    reveal_strlit("include");
    assert("input"@.len() != "frequency_penalty"@.len());
    assert("instructions"@.len() != "frequency_penalty"@.len());
    assert("metadata"@.len() != "frequency_penalty"@.len());
    assert("tools"@.len() != "frequency_penalty"@.len());
    assert("tool_choice"@.len() != "frequency_penalty"@.len());
    assert("parallel_tool_calls"@.len() != "frequency_penalty"@.len());
    assert("model"@.len() != "frequency_penalty"@.len());
    assert("models"@.len() != "frequency_penalty"@.len());
    assert("text"@.len() != "frequency_penalty"@.len());
    assert("reasoning"@.len() != "frequency_penalty"@.len());
    assert("max_output_tokens"@[0] != "frequency_penalty"@[0]);
    assert("temperature"@.len() != "frequency_penalty"@.len());
    assert("top_p"@.len() != "frequency_penalty"@.len());
    assert("top_logprobs"@.len() != "frequency_penalty"@.len());
    assert("max_tool_calls"@.len() != "frequency_penalty"@.len());
    assert("presence_penalty"@.len() != "frequency_penalty"@.len());
    assert("input"@[0] != "top_k"@[0]);
    assert("instructions"@.len() != "top_k"@.len());
    assert("metadata"@.len() != "top_k"@.len());
    assert("tools"@[2] != "top_k"@[2]);
    assert("tool_choice"@.len() != "top_k"@.len());
    assert("parallel_tool_calls"@.len() != "top_k"@.len());
    assert("model"@[0] != "top_k"@[0]);
    assert("models"@.len() != "top_k"@.len());
    assert("text"@.len() != "top_k"@.len());
    assert("reasoning"@.len() != "top_k"@.len());
    assert("max_output_tokens"@.len() != "top_k"@.len());
    assert("temperature"@.len() != "top_k"@.len());
    assert("top_p"@[4] != "top_k"@[4]);
    assert("top_logprobs"@.len() != "top_k"@.len());
    assert("max_tool_calls"@.len() != "top_k"@.len());
    assert("presence_penalty"@.len() != "top_k"@.len());
    assert("frequency_penalty"@.len() != "top_k"@.len());
    assert("input"@.len() != "image_config"@.len());
    assert("instructions"@[1] != "image_config"@[1]);
    assert("metadata"@.len() != "image_config"@.len());
    assert("tools"@.len() != "image_config"@.len());
    assert("tool_choice"@.len() != "image_config"@.len());
    assert("parallel_tool_calls"@.len() != "image_config"@.len());
    assert("model"@.len() != "image_config"@.len());
    assert("models"@.len() != "image_config"@.len());
    assert("text"@.len() != "image_config"@.len());
    assert("reasoning"@.len() != "image_config"@.len());
    assert("max_output_tokens"@.len() != "image_config"@.len());
    assert("temperature"@.len() != "image_config"@.len());
    assert("top_p"@.len() != "image_config"@.len());
    assert("top_logprobs"@[0] != "image_config"@[0]);
    assert("max_tool_calls"@.len() != "image_config"@.len());
    assert("presence_penalty"@.len() != "image_config"@.len());
    assert("frequency_penalty"@.len() != "image_config"@.len());
    assert("top_k"@.len() != "image_config"@.len());
    assert("input"@.len() != "modalities"@.len());
    assert("instructions"@.len() != "modalities"@.len());
    assert("metadata"@.len() != "modalities"@.len());
    assert("tools"@.len() != "modalities"@.len());
    assert("tool_choice"@.len() != "modalities"@.len());
    assert("parallel_tool_calls"@.len() != "modalities"@.len());
    assert("model"@.len() != "modalities"@.len());
    assert("models"@.len() != "modalities"@.len());
    assert("text"@.len() != "modalities"@.len());
    assert("reasoning"@.len() != "modalities"@.len());
    assert("max_output_tokens"@.len() != "modalities"@.len());
    assert("temperature"@.len() != "modalities"@.len());
    assert("top_p"@.len() != "modalities"@.len());
    assert("top_logprobs"@.len() != "modalities"@.len());
    assert("max_tool_calls"@.len() != "modalities"@.len());
    assert("presence_penalty"@.len() != "modalities"@.len());
    assert("frequency_penalty"@.len() != "modalities"@.len());
    assert("top_k"@.len() != "modalities"@.len());
    assert("image_config"@.len() != "modalities"@.len());
    assert("input"@.len() != "prompt_cache_key"@.len());
    assert("instructions"@.len() != "prompt_cache_key"@.len());
    assert("metadata"@.len() != "prompt_cache_key"@.len());
    assert("tools"@.len() != "prompt_cache_key"@.len());
    assert("tool_choice"@.len() != "prompt_cache_key"@.len());
    assert("parallel_tool_calls"@.len() != "prompt_cache_key"@.len());
    assert("model"@.len() != "prompt_cache_key"@.len());
    assert("models"@.len() != "prompt_cache_key"@.len());
    assert("text"@.len() != "prompt_cache_key"@.len());
    assert("reasoning"@.len() != "prompt_cache_key"@.len());
    assert("max_output_tokens"@.len() != "prompt_cache_key"@.len());
    assert("temperature"@.len() != "prompt_cache_key"@.len());
    assert("top_p"@.len() != "prompt_cache_key"@.len());
    assert("top_logprobs"@.len() != "prompt_cache_key"@.len());
    assert("max_tool_calls"@.len() != "prompt_cache_key"@.len());
    assert("presence_penalty"@[2] != "prompt_cache_key"@[2]);
    assert("frequency_penalty"@.len() != "prompt_cache_key"@.len());
    assert("top_k"@.len() != "prompt_cache_key"@.len());
    assert("image_config"@.len() != "prompt_cache_key"@.len());
    assert("modalities"@.len() != "prompt_cache_key"@.len());
    assert("input"@.len() != "previous_response_id"@.len());
    assert("instructions"@.len() != "previous_response_id"@.len());
    assert("metadata"@.len() != "previous_response_id"@.len());
    assert("tools"@.len() != "previous_response_id"@.len());
    assert("tool_choice"@.len() != "previous_response_id"@.len());
    assert("parallel_tool_calls"@.len() != "previous_response_id"@.len());
    assert("model"@.len() != "previous_response_id"@.len());
    assert("models"@.len() != "previous_response_id"@.len());
    assert("text"@.len() != "previous_response_id"@.len());
    assert("reasoning"@.len() != "previous_response_id"@.len());
    assert("max_output_tokens"@.len() != "previous_response_id"@.len());
    assert("temperature"@.len() != "previous_response_id"@.len());
    assert("top_p"@.len() != "previous_response_id"@.len());
    assert("top_logprobs"@.len() != "previous_response_id"@.len());
    assert("max_tool_calls"@.len() != "previous_response_id"@.len());
    assert("presence_penalty"@.len() != "previous_response_id"@.len());
    assert("frequency_penalty"@.len() != "previous_response_id"@.len());
    assert("top_k"@.len() != "previous_response_id"@.len());
    assert("image_config"@.len() != "previous_response_id"@.len());
    assert("modalities"@.len() != "previous_response_id"@.len());
    assert("prompt_cache_key"@.len() != "previous_response_id"@.len());
    assert("input"@.len() != "prompt"@.len());
    assert("instructions"@.len() != "prompt"@.len());
    assert("metadata"@.len() != "prompt"@.len());
    assert("tools"@.len() != "prompt"@.len());
    assert("tool_choice"@.len() != "prompt"@.len());
    assert("parallel_tool_calls"@.len() != "prompt"@.len());
    assert("model"@.len() != "prompt"@.len());
    assert("models"@[0] != "prompt"@[0]);
    assert("text"@.len() != "prompt"@.len());
    assert("reasoning"@.len() != "prompt"@.len());
    assert("max_output_tokens"@.len() != "prompt"@.len());
    assert("temperature"@.len() != "prompt"@.len());
    assert("top_p"@.len() != "prompt"@.len());
    assert("top_logprobs"@.len() != "prompt"@.len());
    assert("max_tool_calls"@.len() != "prompt"@.len());
    assert("presence_penalty"@.len() != "prompt"@.len());
    assert("frequency_penalty"@.len() != "prompt"@.len());
    assert("top_k"@.len() != "prompt"@.len());
    assert("image_config"@.len() != "prompt"@.len());
    assert("modalities"@.len() != "prompt"@.len());
    assert("prompt_cache_key"@.len() != "prompt"@.len());
    assert("previous_response_id"@.len() != "prompt"@.len());
    assert("input"@.len() != "include"@.len());
    assert("instructions"@.len() != "include"@.len());
    assert("metadata"@.len() != "include"@.len());
    assert("tools"@.len() != "include"@.len());
    assert("tool_choice"@.len() != "include"@.len());
    assert("parallel_tool_calls"@.len() != "include"@.len());
    assert("model"@.len() != "include"@.len());
    assert("models"@.len() != "include"@.len());
    assert("text"@.len() != "include"@.len());
    assert("reasoning"@.len() != "include"@.len());
    assert("max_output_tokens"@.len() != "include"@.len());
    assert("temperature"@.len() != "include"@.len());
    assert("top_p"@.len() != "include"@.len());
    assert("top_logprobs"@.len() != "include"@.len());
    assert("max_tool_calls"@.len() != "include"@.len());
    assert("presence_penalty"@.len() != "include"@.len());
    assert("frequency_penalty"@.len() != "include"@.len());
    assert("top_k"@.len() != "include"@.len());
    assert("image_config"@.len() != "include"@.len());
    assert("modalities"@.len() != "include"@.len());
    assert("prompt_cache_key"@.len() != "include"@.len());
    assert("previous_response_id"@.len() != "include"@.len());
    assert("prompt"@.len() != "include"@.len());
}

proof fn lemma_responses_body_key_pos_3()
    ensures
        responses_body_key_pos("background"@) == 24,
        responses_body_key_pos("safety_identifier"@) == 25,
        responses_body_key_pos("store"@) == 26,
        responses_body_key_pos("service_tier"@) == 27,
        responses_body_key_pos("truncation"@) == 28,
        responses_body_key_pos("stream"@) == 29,
        responses_body_key_pos("provider"@) == 30,
        responses_body_key_pos("plugins"@) == 31,
{
    reveal(responses_body_key_pos);
    reveal_strlit("input");
    reveal_strlit("instructions");
    reveal_strlit("metadata");
    reveal_strlit("tools");
    reveal_strlit("tool_choice");
    reveal_strlit("parallel_tool_calls");
    reveal_strlit("model");
    reveal_strlit("models");
    reveal_strlit("text");
    reveal_strlit("reasoning");
    reveal_strlit("max_output_tokens");
    reveal_strlit("temperature");
    reveal_strlit("top_p");
    reveal_strlit("top_logprobs");
    reveal_strlit("max_tool_calls");
    reveal_strlit("presence_penalty");
    reveal_strlit("frequency_penalty");
    reveal_strlit("top_k");
    reveal_strlit("image_config");
    reveal_strlit("modalities");
    reveal_strlit("prompt_cache_key");
    reveal_strlit("previous_response_id");
    reveal_strlit("prompt");
    reveal_strlit("include");
    reveal_strlit("background");
    reveal_strlit("safety_identifier");
    reveal_strlit("store");
    reveal_strlit("service_tier");
    reveal_strlit("truncation");
    reveal_strlit("stream");
    reveal_strlit("provider");
    reveal_strlit("plugins");
    assert("input"@.len() != "background"@.len());
    assert("instructions"@.len() != "background"@.len());
    assert("metadata"@.len() != "background"@.len());
    assert("tools"@.len() != "background"@.len());
    assert("tool_choice"@.len() != "background"@.len());
    assert("parallel_tool_calls"@.len() != "background"@.len());
    assert("model"@.len() != "background"@.len());
    assert("models"@.len() != "background"@.len());
    assert("text"@.len() != "background"@.len());
    assert("reasoning"@.len() != "background"@.len());
    assert("max_output_tokens"@.len() != "background"@.len());
    assert("temperature"@.len() != "background"@.len());
    assert("top_p"@.len() != "background"@.len());
    assert("top_logprobs"@.len() != "background"@.len());
    assert("max_tool_calls"@.len() != "background"@.len());
    assert("presence_penalty"@.len() != "background"@.len());
    assert("frequency_penalty"@.len() != "background"@.len());
    assert("top_k"@.len() != "background"@.len());
    assert("image_config"@.len() != "background"@.len());
    assert("modalities"@[0] != "background"@[0]);
    assert("prompt_cache_key"@.len() != "background"@.len());
    assert("previous_response_id"@.len() != "background"@.len());
    assert("prompt"@.len() != "background"@.len());
    assert("include"@.len() != "background"@.len());
    assert("input"@.len() != "safety_identifier"@.len());
    assert("instructions"@.len() != "safety_identifier"@.len());
    assert("metadata"@.len() != "safety_identifier"@.len());
    assert("tools"@.len() != "safety_identifier"@.len());
    assert("tool_choice"@.len() != "safety_identifier"@.len());
    assert("parallel_tool_calls"@.len() != "safety_identifier"@.len());
    assert("model"@.len() != "safety_identifier"@.len());
    assert("models"@.len() != "safety_identifier"@.len());
    assert("text"@.len() != "safety_identifier"@.len());
    assert("reasoning"@.len() != "safety_identifier"@.len());
    assert("max_output_tokens"@[0] != "safety_identifier"@[0]);
    assert("temperature"@.len() != "safety_identifier"@.len());
    assert("top_p"@.len() != "safety_identifier"@.len());
    assert("top_logprobs"@.len() != "safety_identifier"@.len());
    assert("max_tool_calls"@.len() != "safety_identifier"@.len());
    assert("presence_penalty"@.len() != "safety_identifier"@.len());
    assert("frequency_penalty"@[0] != "safety_identifier"@[0]);
    assert("top_k"@.len() != "safety_identifier"@.len());
    assert("image_config"@.len() != "safety_identifier"@.len());
    assert("modalities"@.len() != "safety_identifier"@.len());
    assert("prompt_cache_key"@.len() != "safety_identifier"@.len());
    assert("previous_response_id"@.len() != "safety_identifier"@.len());
    assert("prompt"@.len() != "safety_identifier"@.len());
    assert("include"@.len() != "safety_identifier"@.len());
    assert("background"@.len() != "safety_identifier"@.len());
    assert("input"@[0] != "store"@[0]);
    assert("instructions"@.len() != "store"@.len());
    assert("metadata"@.len() != "store"@.len());
    assert("tools"@[0] != "store"@[0]);
    assert("tool_choice"@.len() != "store"@.len());
    assert("parallel_tool_calls"@.len() != "store"@.len());
    assert("model"@[0] != "store"@[0]);
    assert("models"@.len() != "store"@.len());
    assert("text"@.len() != "store"@.len());
    assert("reasoning"@.len() != "store"@.len());
    assert("max_output_tokens"@.len() != "store"@.len());
    assert("temperature"@.len() != "store"@.len());
    assert("top_p"@[0] != "store"@[0]);
    assert("top_logprobs"@.len() != "store"@.len());
    assert("max_tool_calls"@.len() != "store"@.len());
    assert("presence_penalty"@.len() != "store"@.len());
    assert("frequency_penalty"@.len() != "store"@.len());
    assert("top_k"@[0] != "store"@[0]);
    assert("image_config"@.len() != "store"@.len());
    assert("modalities"@.len() != "store"@.len());
    assert("prompt_cache_key"@.len() != "store"@.len());
    assert("previous_response_id"@.len() != "store"@.len());
    assert("prompt"@.len() != "store"@.len());
    assert("include"@.len() != "store"@.len());
    assert("background"@.len() != "store"@.len());
    assert("safety_identifier"@.len() != "store"@.len());
    assert("input"@.len() != "service_tier"@.len());
    assert("instructions"@[0] != "service_tier"@[0]);
    assert("metadata"@.len() != "service_tier"@.len());
    assert("tools"@.len() != "service_tier"@.len());
    assert("tool_choice"@.len() != "service_tier"@.len());
    assert("parallel_tool_calls"@.len() != "service_tier"@.len());
    assert("model"@.len() != "service_tier"@.len());
    assert("models"@.len() != "service_tier"@.len());
    assert("text"@.len() != "service_tier"@.len());
    assert("reasoning"@.len() != "service_tier"@.len());
    assert("max_output_tokens"@.len() != "service_tier"@.len());
    assert("temperature"@.len() != "service_tier"@.len());
    assert("top_p"@.len() != "service_tier"@.len());
    assert("top_logprobs"@[0] != "service_tier"@[0]);
    assert("max_tool_calls"@.len() != "service_tier"@.len());
    assert("presence_penalty"@.len() != "service_tier"@.len());
    assert("frequency_penalty"@.len() != "service_tier"@.len());
    assert("top_k"@.len() != "service_tier"@.len());
    assert("image_config"@[0] != "service_tier"@[0]);
    assert("modalities"@.len() != "service_tier"@.len());
    assert("prompt_cache_key"@.len() != "service_tier"@.len());
    assert("previous_response_id"@.len() != "service_tier"@.len());
    assert("prompt"@.len() != "service_tier"@.len());
    assert("include"@.len() != "service_tier"@.len());
    assert("background"@.len() != "service_tier"@.len());
    assert("safety_identifier"@.len() != "service_tier"@.len());
    assert("store"@.len() != "service_tier"@.len());
    assert("input"@.len() != "truncation"@.len());
    assert("instructions"@.len() != "truncation"@.len());
    assert("metadata"@.len() != "truncation"@.len());
    assert("tools"@.len() != "truncation"@.len());
    assert("tool_choice"@.len() != "truncation"@.len());
    assert("parallel_tool_calls"@.len() != "truncation"@.len());
    assert("model"@.len() != "truncation"@.len());
    assert("models"@.len() != "truncation"@.len());
    assert("text"@.len() != "truncation"@.len());
    assert("reasoning"@.len() != "truncation"@.len());
    assert("max_output_tokens"@.len() != "truncation"@.len());
    assert("temperature"@.len() != "truncation"@.len());
    assert("top_p"@.len() != "truncation"@.len());
    assert("top_logprobs"@.len() != "truncation"@.len());
    assert("max_tool_calls"@.len() != "truncation"@.len());
    assert("presence_penalty"@.len() != "truncation"@.len());
    assert("frequency_penalty"@.len() != "truncation"@.len());
    assert("top_k"@.len() != "truncation"@.len());
    assert("image_config"@.len() != "truncation"@.len());
    assert("modalities"@[0] != "truncation"@[0]);
    assert("prompt_cache_key"@.len() != "truncation"@.len());
    assert("previous_response_id"@.len() != "truncation"@.len());
    assert("prompt"@.len() != "truncation"@.len());
    assert("include"@.len() != "truncation"@.len());
    assert("background"@[0] != "truncation"@[0]);
    assert("safety_identifier"@.len() != "truncation"@.len());
    assert("store"@.len() != "truncation"@.len());
    assert("service_tier"@.len() != "truncation"@.len());
    assert("input"@.len() != "stream"@.len());
    assert("instructions"@.len() != "stream"@.len());
    assert("metadata"@.len() != "stream"@.len());
    assert("tools"@.len() != "stream"@.len());
    assert("tool_choice"@.len() != "stream"@.len());
    assert("parallel_tool_calls"@.len() != "stream"@.len());
    assert("model"@.len() != "stream"@.len());
    assert("models"@[0] != "stream"@[0]);
    assert("text"@.len() != "stream"@.len());
    assert("reasoning"@.len() != "stream"@.len());
    assert("max_output_tokens"@.len() != "stream"@.len());
    assert("temperature"@.len() != "stream"@.len());
    assert("top_p"@.len() != "stream"@.len());
    assert("top_logprobs"@.len() != "stream"@.len());
    assert("max_tool_calls"@.len() != "stream"@.len());
    assert("presence_penalty"@.len() != "stream"@.len());
    assert("frequency_penalty"@.len() != "stream"@.len());
    assert("top_k"@.len() != "stream"@.len());
    assert("image_config"@.len() != "stream"@.len());
    assert("modalities"@.len() != "stream"@.len());
    assert("prompt_cache_key"@.len() != "stream"@.len());
    assert("previous_response_id"@.len() != "stream"@.len());
    assert("prompt"@[0] != "stream"@[0]);
    assert("include"@.len() != "stream"@.len());
    assert("background"@.len() != "stream"@.len());
    assert("safety_identifier"@.len() != "stream"@.len());
    assert("store"@.len() != "stream"@.len());
    assert("service_tier"@.len() != "stream"@.len());
    assert("truncation"@.len() != "stream"@.len());
    assert("input"@.len() != "provider"@.len());
    assert("instructions"@.len() != "provider"@.len());
    assert("metadata"@[0] != "provider"@[0]);
    assert("tools"@.len() != "provider"@.len());
    assert("tool_choice"@.len() != "provider"@.len());
    assert("parallel_tool_calls"@.len() != "provider"@.len());
    assert("model"@.len() != "provider"@.len());
    assert("models"@.len() != "provider"@.len());
    assert("text"@.len() != "provider"@.len());
    assert("reasoning"@.len() != "provider"@.len());
    assert("max_output_tokens"@.len() != "provider"@.len());
    assert("temperature"@.len() != "provider"@.len());
    assert("top_p"@.len() != "provider"@.len());
    assert("top_logprobs"@.len() != "provider"@.len());
    assert("max_tool_calls"@.len() != "provider"@.len());
    assert("presence_penalty"@.len() != "provider"@.len());
    assert("frequency_penalty"@.len() != "provider"@.len());
    assert("top_k"@.len() != "provider"@.len());
    assert("image_config"@.len() != "provider"@.len());
    assert("modalities"@.len() != "provider"@.len());
    assert("prompt_cache_key"@.len() != "provider"@.len());
    assert("previous_response_id"@.len() != "provider"@.len());
    assert("prompt"@.len() != "provider"@.len());
    assert("include"@.len() != "provider"@.len());
    assert("background"@.len() != "provider"@.len());
    assert("safety_identifier"@.len() != "provider"@.len());
    assert("store"@.len() != "provider"@.len());
    assert("service_tier"@.len() != "provider"@.len());
    assert("truncation"@.len() != "provider"@.len());
    assert("stream"@.len() != "provider"@.len());
    assert("input"@.len() != "plugins"@.len());
    assert("instructions"@.len() != "plugins"@.len());
    assert("metadata"@.len() != "plugins"@.len());
    assert("tools"@.len() != "plugins"@.len());
    assert("tool_choice"@.len() != "plugins"@.len());
    assert("parallel_tool_calls"@.len() != "plugins"@.len());
    assert("model"@.len() != "plugins"@.len());
    assert("models"@.len() != "plugins"@.len());
    assert("text"@.len() != "plugins"@.len());
    assert("reasoning"@.len() != "plugins"@.len());
    assert("max_output_tokens"@.len() != "plugins"@.len());
    assert("temperature"@.len() != "plugins"@.len());
    assert("top_p"@.len() != "plugins"@.len());
    assert("top_logprobs"@.len() != "plugins"@.len());
    assert("max_tool_calls"@.len() != "plugins"@.len());
    assert("presence_penalty"@.len() != "plugins"@.len());
    assert("frequency_penalty"@.len() != "plugins"@.len());
    assert("top_k"@.len() != "plugins"@.len());
    assert("image_config"@.len() != "plugins"@.len());
    assert("modalities"@.len() != "plugins"@.len());
    assert("prompt_cache_key"@.len() != "plugins"@.len());
    assert("previous_response_id"@.len() != "plugins"@.len());
    assert("prompt"@.len() != "plugins"@.len());
    assert("include"@[0] != "plugins"@[0]);
    assert("background"@.len() != "plugins"@.len());
    assert("safety_identifier"@.len() != "plugins"@.len());
    assert("store"@.len() != "plugins"@.len());
    assert("service_tier"@.len() != "plugins"@.len());
    assert("truncation"@.len() != "plugins"@.len());
    assert("stream"@.len() != "plugins"@.len());
    assert("provider"@.len() != "plugins"@.len());
}

proof fn lemma_responses_body_key_pos_4()
    ensures
        responses_body_key_pos("route"@) == 32,
        responses_body_key_pos("user"@) == 33,
        responses_body_key_pos("session_id"@) == 34,
        responses_body_key_pos("cache_control"@) == 35,
        responses_body_key_pos("trace"@) == 36,
        responses_body_key_pos("debug"@) == 37,
{
    reveal(responses_body_key_pos);
    reveal_strlit("input");
    reveal_strlit("instructions");
    reveal_strlit("metadata");
    reveal_strlit("tools");
    reveal_strlit("tool_choice");
    reveal_strlit("parallel_tool_calls");
    reveal_strlit("model");
    reveal_strlit("models");
    reveal_strlit("text");
    reveal_strlit("reasoning");
    reveal_strlit("max_output_tokens");
    reveal_strlit("temperature");
    reveal_strlit("top_p");
    reveal_strlit("top_logprobs");
    reveal_strlit("max_tool_calls");
    reveal_strlit("presence_penalty");
    reveal_strlit("frequency_penalty");
    reveal_strlit("top_k");
    reveal_strlit("image_config");
    reveal_strlit("modalities");
    reveal_strlit("prompt_cache_key");
    reveal_strlit("previous_response_id");
    reveal_strlit("prompt");
    reveal_strlit("include");
    reveal_strlit("background");
    reveal_strlit("safety_identifier");
    reveal_strlit("store");
    reveal_strlit("service_tier");
    reveal_strlit("truncation");
    reveal_strlit("stream");
    reveal_strlit("provider");
    reveal_strlit("plugins");
    reveal_strlit("route");
    reveal_strlit("user");
    reveal_strlit("session_id");
    reveal_strlit("cache_control");
    reveal_strlit("trace");
    reveal_strlit("debug");
    assert("input"@[0] != "route"@[0]);
    assert("instructions"@.len() != "route"@.len());
    assert("metadata"@.len() != "route"@.len());
    assert("tools"@[0] != "route"@[0]);
    assert("tool_choice"@.len() != "route"@.len());
    assert("parallel_tool_calls"@.len() != "route"@.len());
    assert("model"@[0] != "route"@[0]);
    assert("models"@.len() != "route"@.len());
    assert("text"@.len() != "route"@.len());
    assert("reasoning"@.len() != "route"@.len());
    assert("max_output_tokens"@.len() != "route"@.len());
    assert("temperature"@.len() != "route"@.len());
    assert("top_p"@[0] != "route"@[0]);
    assert("top_logprobs"@.len() != "route"@.len());
    assert("max_tool_calls"@.len() != "route"@.len());
    assert("presence_penalty"@.len() != "route"@.len());
    assert("frequency_penalty"@.len() != "route"@.len());
    assert("top_k"@[0] != "route"@[0]);
    assert("image_config"@.len() != "route"@.len());
    assert("modalities"@.len() != "route"@.len());
    assert("prompt_cache_key"@.len() != "route"@.len());
    assert("previous_response_id"@.len() != "route"@.len());
    assert("prompt"@.len() != "route"@.len());
    assert("include"@.len() != "route"@.len());
    assert("background"@.len() != "route"@.len());
    assert("safety_identifier"@.len() != "route"@.len());
    assert("store"@[0] != "route"@[0]);
    assert("service_tier"@.len() != "route"@.len());
    assert("truncation"@.len() != "route"@.len());
    assert("stream"@.len() != "route"@.len());
    assert("provider"@.len() != "route"@.len());
    assert("plugins"@.len() != "route"@.len());
    assert("input"@.len() != "user"@.len());
    assert("instructions"@.len() != "user"@.len());
    assert("metadata"@.len() != "user"@.len());
    assert("tools"@.len() != "user"@.len());
    assert("tool_choice"@.len() != "user"@.len());
    assert("parallel_tool_calls"@.len() != "user"@.len());
    assert("model"@.len() != "user"@.len());
    assert("models"@.len() != "user"@.len());
    assert("text"@[0] != "user"@[0]);
    assert("reasoning"@.len() != "user"@.len());
    assert("max_output_tokens"@.len() != "user"@.len());
    assert("temperature"@.len() != "user"@.len());
    assert("top_p"@.len() != "user"@.len());
    assert("top_logprobs"@.len() != "user"@.len());
    assert("max_tool_calls"@.len() != "user"@.len());
    assert("presence_penalty"@.len() != "user"@.len());
    assert("frequency_penalty"@.len() != "user"@.len());
    assert("top_k"@.len() != "user"@.len());
    assert("image_config"@.len() != "user"@.len());
    assert("modalities"@.len() != "user"@.len());
    assert("prompt_cache_key"@.len() != "user"@.len());
    assert("previous_response_id"@.len() != "user"@.len());
    assert("prompt"@.len() != "user"@.len());
    assert("include"@.len() != "user"@.len());
    assert("background"@.len() != "user"@.len());
    assert("safety_identifier"@.len() != "user"@.len());
    assert("store"@.len() != "user"@.len());
    assert("service_tier"@.len() != "user"@.len());
    assert("truncation"@.len() != "user"@.len());
    assert("stream"@.len() != "user"@.len());
    assert("provider"@.len() != "user"@.len());
    assert("plugins"@.len() != "user"@.len());
    assert("route"@.len() != "user"@.len());
    assert("input"@.len() != "session_id"@.len());
    assert("instructions"@.len() != "session_id"@.len());
    assert("metadata"@.len() != "session_id"@.len());
    assert("tools"@.len() != "session_id"@.len());
    assert("tool_choice"@.len() != "session_id"@.len());
    assert("parallel_tool_calls"@.len() != "session_id"@.len());
    assert("model"@.len() != "session_id"@.len());
    assert("models"@.len() != "session_id"@.len());
    assert("text"@.len() != "session_id"@.len());
    assert("reasoning"@.len() != "session_id"@.len());
    assert("max_output_tokens"@.len() != "session_id"@.len());
    assert("temperature"@.len() != "session_id"@.len());
    assert("top_p"@.len() != "session_id"@.len());
    assert("top_logprobs"@.len() != "session_id"@.len());
    assert("max_tool_calls"@.len() != "session_id"@.len());
    assert("presence_penalty"@.len() != "session_id"@.len());
    assert("frequency_penalty"@.len() != "session_id"@.len());
    assert("top_k"@.len() != "session_id"@.len());
    assert("image_config"@.len() != "session_id"@.len());
    assert("modalities"@[0] != "session_id"@[0]);
    assert("prompt_cache_key"@.len() != "session_id"@.len());
    assert("previous_response_id"@.len() != "session_id"@.len());
    assert("prompt"@.len() != "session_id"@.len());
    assert("include"@.len() != "session_id"@.len());
    assert("background"@[0] != "session_id"@[0]);
    assert("safety_identifier"@.len() != "session_id"@.len());
    assert("store"@.len() != "session_id"@.len());
    assert("service_tier"@.len() != "session_id"@.len());
    assert("truncation"@[0] != "session_id"@[0]);
    assert("stream"@.len() != "session_id"@.len());
    assert("provider"@.len() != "session_id"@.len());
    assert("plugins"@.len() != "session_id"@.len());
    assert("route"@.len() != "session_id"@.len());
    assert("user"@.len() != "session_id"@.len());
    assert("input"@.len() != "cache_control"@.len());
    assert("instructions"@.len() != "cache_control"@.len());
    assert("metadata"@.len() != "cache_control"@.len());
    assert("tools"@.len() != "cache_control"@.len());
    assert("tool_choice"@.len() != "cache_control"@.len());
    assert("parallel_tool_calls"@.len() != "cache_control"@.len());
    assert("model"@.len() != "cache_control"@.len());
    assert("models"@.len() != "cache_control"@.len());
    assert("text"@.len() != "cache_control"@.len());
    assert("reasoning"@.len() != "cache_control"@.len());
    assert("max_output_tokens"@.len() != "cache_control"@.len());
    assert("temperature"@.len() != "cache_control"@.len());
    assert("top_p"@.len() != "cache_control"@.len());
    assert("top_logprobs"@.len() != "cache_control"@.len());
    assert("max_tool_calls"@.len() != "cache_control"@.len());
    assert("presence_penalty"@.len() != "cache_control"@.len());
    assert("frequency_penalty"@.len() != "cache_control"@.len());
    assert("top_k"@.len() != "cache_control"@.len());
    assert("image_config"@.len() != "cache_control"@.len());
    assert("modalities"@.len() != "cache_control"@.len());
    assert("prompt_cache_key"@.len() != "cache_control"@.len());
    assert("previous_response_id"@.len() != "cache_control"@.len());
    assert("prompt"@.len() != "cache_control"@.len());
    assert("include"@.len() != "cache_control"@.len());
    assert("background"@.len() != "cache_control"@.len());
    assert("safety_identifier"@.len() != "cache_control"@.len());
    assert("store"@.len() != "cache_control"@.len());
    assert("service_tier"@.len() != "cache_control"@.len());
    assert("truncation"@.len() != "cache_control"@.len());
    assert("stream"@.len() != "cache_control"@.len());
    assert("provider"@.len() != "cache_control"@.len());
    assert("plugins"@.len() != "cache_control"@.len());
    assert("route"@.len() != "cache_control"@.len());
    assert("user"@.len() != "cache_control"@.len());
    assert("session_id"@.len() != "cache_control"@.len());
    assert("input"@[0] != "trace"@[0]);
    assert("instructions"@.len() != "trace"@.len());
    assert("metadata"@.len() != "trace"@.len());
    assert("tools"@[1] != "trace"@[1]);
    assert("tool_choice"@.len() != "trace"@.len());
    assert("parallel_tool_calls"@.len() != "trace"@.len());
    assert("model"@[0] != "trace"@[0]);
    assert("models"@.len() != "trace"@.len());
    assert("text"@.len() != "trace"@.len());
    assert("reasoning"@.len() != "trace"@.len());
    assert("max_output_tokens"@.len() != "trace"@.len());
    assert("temperature"@.len() != "trace"@.len());
    assert("top_p"@[1] != "trace"@[1]);
    assert("top_logprobs"@.len() != "trace"@.len());
    assert("max_tool_calls"@.len() != "trace"@.len());
    assert("presence_penalty"@.len() != "trace"@.len());
    assert("frequency_penalty"@.len() != "trace"@.len());
    assert("top_k"@[1] != "trace"@[1]);
    assert("image_config"@.len() != "trace"@.len());
    assert("modalities"@.len() != "trace"@.len());
    assert("prompt_cache_key"@.len() != "trace"@.len());
    assert("previous_response_id"@.len() != "trace"@.len());
    assert("prompt"@.len() != "trace"@.len());
    assert("include"@.len() != "trace"@.len());
    assert("background"@.len() != "trace"@.len());
    assert("safety_identifier"@.len() != "trace"@.len());
    assert("store"@[0] != "trace"@[0]);
    assert("service_tier"@.len() != "trace"@.len());
    assert("truncation"@.len() != "trace"@.len());
    assert("stream"@.len() != "trace"@.len());
    assert("provider"@.len() != "trace"@.len());
    assert("plugins"@.len() != "trace"@.len());
    assert("route"@[0] != "trace"@[0]);
    assert("user"@.len() != "trace"@.len());
    assert("session_id"@.len() != "trace"@.len());
    assert("cache_control"@.len() != "trace"@.len());
    assert("input"@[0] != "debug"@[0]);
    assert("instructions"@.len() != "debug"@.len());
    assert("metadata"@.len() != "debug"@.len());
    assert("tools"@[0] != "debug"@[0]);
    assert("tool_choice"@.len() != "debug"@.len());
    assert("parallel_tool_calls"@.len() != "debug"@.len());
    assert("model"@[0] != "debug"@[0]);
    assert("models"@.len() != "debug"@.len());
    assert("text"@.len() != "debug"@.len());
    assert("reasoning"@.len() != "debug"@.len());
    assert("max_output_tokens"@.len() != "debug"@.len());
    assert("temperature"@.len() != "debug"@.len());
    assert("top_p"@[0] != "debug"@[0]);
    assert("top_logprobs"@.len() != "debug"@.len());
    assert("max_tool_calls"@.len() != "debug"@.len());
    assert("presence_penalty"@.len() != "debug"@.len());
    assert("frequency_penalty"@.len() != "debug"@.len());
    assert("top_k"@[0] != "debug"@[0]);
    assert("image_config"@.len() != "debug"@.len());
    assert("modalities"@.len() != "debug"@.len());
    assert("prompt_cache_key"@.len() != "debug"@.len());
    assert("previous_response_id"@.len() != "debug"@.len());
    assert("prompt"@.len() != "debug"@.len());
    assert("include"@.len() != "debug"@.len());
    assert("background"@.len() != "debug"@.len());
    assert("safety_identifier"@.len() != "debug"@.len());
    assert("store"@[0] != "debug"@[0]);
    assert("service_tier"@.len() != "debug"@.len());
    assert("truncation"@.len() != "debug"@.len());
    assert("stream"@.len() != "debug"@.len());
    assert("provider"@.len() != "debug"@.len());
    assert("plugins"@.len() != "debug"@.len());
    assert("route"@[0] != "debug"@[0]);
    assert("user"@.len() != "debug"@.len());
    assert("session_id"@.len() != "debug"@.len());
    assert("cache_control"@.len() != "debug"@.len());
    assert("trace"@[0] != "debug"@[0]);
}

/// The keys of one part of a Responses API request's body, and the value
/// under each.
#[verifier::rlimit(100)]
proof fn lemma_responses_part1_values(f: ResponsesFields)
    ensures
        keyed_within(responses_entries_part1(f), responses_pos(), 0, 7),
        value_under(responses_entries_part1(f), "input"@) == (match f.input { Some(v) => Some(v), None => None }),
        value_under(responses_entries_part1(f), "instructions"@) == (match f.instructions { Some(s) => Some(json_string_value(s)), None => None }),
        value_under(responses_entries_part1(f), "metadata"@) == (match f.metadata { Some(ps) => Some(json_object_value(ps)), None => None }),
        value_under(responses_entries_part1(f), "tools"@) == (match f.tools { Some(vs) => Some(json_array_value(vs)), None => None }),
        value_under(responses_entries_part1(f), "tool_choice"@) == (match f.tool_choice { Some(v) => Some(v), None => None }),
        value_under(responses_entries_part1(f), "parallel_tool_calls"@) == (match f.parallel_tool_calls { Some(b) => Some(json_bool_value(b)), None => None }),
        value_under(responses_entries_part1(f), "model"@) == (match f.model { Some(s) => Some(json_string_value(s)), None => None }),
{
    lemma_responses_body_key_pos_0();
    let pos = responses_pos();
    let e0 = value_entry("input"@, f.input);
    lemma_entry_within(e0, "input"@, pos);
    let e1 = text_entry("instructions"@, f.instructions);
    lemma_entry_within(e1, "instructions"@, pos);
    let e2 = map_entry("metadata"@, f.metadata);
    lemma_entry_within(e2, "metadata"@, pos);
    let e3 = values_entry("tools"@, f.tools);
    lemma_entry_within(e3, "tools"@, pos);
    let e4 = value_entry("tool_choice"@, f.tool_choice);
    lemma_entry_within(e4, "tool_choice"@, pos);
    let e5 = bool_entry("parallel_tool_calls"@, f.parallel_tool_calls);
    lemma_entry_within(e5, "parallel_tool_calls"@, pos);
    let e6 = text_entry("model"@, f.model);
    lemma_entry_within(e6, "model"@, pos);
    let a1 = e0 + e1;
    lemma_within_concat(e0, e1, pos, 0, 1, 2);
    let a2 = a1 + e2;
    lemma_within_concat(a1, e2, pos, 0, 2, 3);
    let a3 = a2 + e3;
    lemma_within_concat(a2, e3, pos, 0, 3, 4);
    let a4 = a3 + e4;
    lemma_within_concat(a3, e4, pos, 0, 4, 5);
    let a5 = a4 + e5;
    lemma_within_concat(a4, e5, pos, 0, 5, 6);
    let a6 = a5 + e6;
    lemma_within_concat(a5, e6, pos, 0, 6, 7);
}

/// The keys of one part of a Responses API request's body, and the value
/// under each.
#[verifier::rlimit(100)]
proof fn lemma_responses_part2_values(f: ResponsesFields)
    ensures
        keyed_within(responses_entries_part2(f), responses_pos(), 7, 14),
        value_under(responses_entries_part2(f), "models"@) == (match f.models { Some(ss) => Some(json_array_value(ss.map_values(|s: Seq<char>| json_string_value(s)))), None => None }),
        value_under(responses_entries_part2(f), "text"@) == (match f.text { Some(v) => Some(v), None => None }),
        value_under(responses_entries_part2(f), "reasoning"@) == (match f.reasoning { Some(v) => Some(v), None => None }),
        value_under(responses_entries_part2(f), "max_output_tokens"@) == (match f.max_output_tokens { Some(n) => Some(json_u64_value(n as u64)), None => None }),
        value_under(responses_entries_part2(f), "temperature"@) == (match f.temperature { Some(n) => Some(json_number_value(n)), None => None }),
        value_under(responses_entries_part2(f), "top_p"@) == (match f.top_p { Some(n) => Some(json_number_value(n)), None => None }),
        value_under(responses_entries_part2(f), "top_logprobs"@) == (match f.top_logprobs { Some(n) => Some(json_u64_value(n as u64)), None => None }),
{
    lemma_responses_body_key_pos_0();
    lemma_responses_body_key_pos_1();
    let pos = responses_pos();
    let e7 = strings_entry("models"@, f.models);
    lemma_entry_within(e7, "models"@, pos);
    let e8 = value_entry("text"@, f.text);
    lemma_entry_within(e8, "text"@, pos);
    let e9 = value_entry("reasoning"@, f.reasoning);
    lemma_entry_within(e9, "reasoning"@, pos);
    let e10 = u32_entry("max_output_tokens"@, f.max_output_tokens);
    lemma_entry_within(e10, "max_output_tokens"@, pos);
    let e11 = number_entry("temperature"@, f.temperature);
    lemma_entry_within(e11, "temperature"@, pos);
    let e12 = number_entry("top_p"@, f.top_p);
    lemma_entry_within(e12, "top_p"@, pos);
    let e13 = u32_entry("top_logprobs"@, f.top_logprobs);
    lemma_entry_within(e13, "top_logprobs"@, pos);
    let a8 = e7 + e8;
    lemma_within_concat(e7, e8, pos, 7, 8, 9);
    let a9 = a8 + e9;
    lemma_within_concat(a8, e9, pos, 7, 9, 10);
    let a10 = a9 + e10;
    lemma_within_concat(a9, e10, pos, 7, 10, 11);
    let a11 = a10 + e11;
    lemma_within_concat(a10, e11, pos, 7, 11, 12);
    let a12 = a11 + e12;
    lemma_within_concat(a11, e12, pos, 7, 12, 13);
    let a13 = a12 + e13;
    lemma_within_concat(a12, e13, pos, 7, 13, 14);
}

/// The keys of one part of a Responses API request's body, and the value
/// under each.
#[verifier::rlimit(100)]
proof fn lemma_responses_part3_values(f: ResponsesFields)
    ensures
        keyed_within(responses_entries_part3(f), responses_pos(), 14, 21),
        value_under(responses_entries_part3(f), "max_tool_calls"@) == (match f.max_tool_calls { Some(n) => Some(json_u64_value(n as u64)), None => None }),
        value_under(responses_entries_part3(f), "presence_penalty"@) == (match f.presence_penalty { Some(n) => Some(json_number_value(n)), None => None }),
        value_under(responses_entries_part3(f), "frequency_penalty"@) == (match f.frequency_penalty { Some(n) => Some(json_number_value(n)), None => None }),
        value_under(responses_entries_part3(f), "top_k"@) == (match f.top_k { Some(n) => Some(json_number_value(n)), None => None }),
        value_under(responses_entries_part3(f), "image_config"@) == (match f.image_config { Some(ps) => Some(json_object_value(ps)), None => None }),
        value_under(responses_entries_part3(f), "modalities"@) == (match f.modalities { Some(ss) => Some(json_array_value(ss.map_values(|s: Seq<char>| json_string_value(s)))), None => None }),
        value_under(responses_entries_part3(f), "prompt_cache_key"@) == (match f.prompt_cache_key { Some(s) => Some(json_string_value(s)), None => None }),
{
    lemma_responses_body_key_pos_1();
    lemma_responses_body_key_pos_2();
    let pos = responses_pos();
    let e14 = u32_entry("max_tool_calls"@, f.max_tool_calls);
    lemma_entry_within(e14, "max_tool_calls"@, pos);
    let e15 = number_entry("presence_penalty"@, f.presence_penalty);
    lemma_entry_within(e15, "presence_penalty"@, pos);
    let e16 = number_entry("frequency_penalty"@, f.frequency_penalty);
    lemma_entry_within(e16, "frequency_penalty"@, pos);
    let e17 = number_entry("top_k"@, f.top_k);
    lemma_entry_within(e17, "top_k"@, pos);
    let e18 = map_entry("image_config"@, f.image_config);
    lemma_entry_within(e18, "image_config"@, pos);
    let e19 = strings_entry("modalities"@, f.modalities);
    lemma_entry_within(e19, "modalities"@, pos);
    let e20 = text_entry("prompt_cache_key"@, f.prompt_cache_key);
    lemma_entry_within(e20, "prompt_cache_key"@, pos);
    let a15 = e14 + e15;
    lemma_within_concat(e14, e15, pos, 14, 15, 16);
    let a16 = a15 + e16;
    lemma_within_concat(a15, e16, pos, 14, 16, 17);
    let a17 = a16 + e17;
    lemma_within_concat(a16, e17, pos, 14, 17, 18);
    let a18 = a17 + e18;
    lemma_within_concat(a17, e18, pos, 14, 18, 19);
    let a19 = a18 + e19;
    lemma_within_concat(a18, e19, pos, 14, 19, 20);
    let a20 = a19 + e20;
    lemma_within_concat(a19, e20, pos, 14, 20, 21);
}

/// The keys of one part of a Responses API request's body, and the value
/// under each.
#[verifier::rlimit(100)]
proof fn lemma_responses_part4_values(f: ResponsesFields)
    ensures
        keyed_within(responses_entries_part4(f), responses_pos(), 21, 29),
        value_under(responses_entries_part4(f), "previous_response_id"@) == (match f.previous_response_id { Some(s) => Some(json_string_value(s)), None => None }),
        value_under(responses_entries_part4(f), "prompt"@) == (match f.prompt { Some(v) => Some(v), None => None }),
        value_under(responses_entries_part4(f), "include"@) == (match f.included_output { Some(ss) => Some(json_array_value(ss.map_values(|s: Seq<char>| json_string_value(s)))), None => None }),
        value_under(responses_entries_part4(f), "background"@) == (match f.background { Some(b) => Some(json_bool_value(b)), None => None }),
        value_under(responses_entries_part4(f), "safety_identifier"@) == (match f.safety_identifier { Some(s) => Some(json_string_value(s)), None => None }),
        value_under(responses_entries_part4(f), "store"@) == (match f.store { Some(b) => Some(json_bool_value(b)), None => None }),
        value_under(responses_entries_part4(f), "service_tier"@) == (match f.service_tier { Some(s) => Some(json_string_value(s)), None => None }),
        value_under(responses_entries_part4(f), "truncation"@) == (match f.truncation { Some(s) => Some(json_string_value(s)), None => None }),
{
    lemma_responses_body_key_pos_2();
    lemma_responses_body_key_pos_3();
    let pos = responses_pos();
    let e21 = text_entry("previous_response_id"@, f.previous_response_id);
    lemma_entry_within(e21, "previous_response_id"@, pos);
    let e22 = value_entry("prompt"@, f.prompt);
    lemma_entry_within(e22, "prompt"@, pos);
    let e23 = strings_entry("include"@, f.included_output);
    lemma_entry_within(e23, "include"@, pos);
    let e24 = bool_entry("background"@, f.background);
    lemma_entry_within(e24, "background"@, pos);
    let e25 = text_entry("safety_identifier"@, f.safety_identifier);
    lemma_entry_within(e25, "safety_identifier"@, pos);
    let e26 = bool_entry("store"@, f.store);
    lemma_entry_within(e26, "store"@, pos);
    let e27 = text_entry("service_tier"@, f.service_tier);
    lemma_entry_within(e27, "service_tier"@, pos);
    let e28 = text_entry("truncation"@, f.truncation);
    lemma_entry_within(e28, "truncation"@, pos);
    let a22 = e21 + e22;
    lemma_within_concat(e21, e22, pos, 21, 22, 23);
    let a23 = a22 + e23;
    lemma_within_concat(a22, e23, pos, 21, 23, 24);
    let a24 = a23 + e24;
    lemma_within_concat(a23, e24, pos, 21, 24, 25);
    let a25 = a24 + e25;
    lemma_within_concat(a24, e25, pos, 21, 25, 26);
    let a26 = a25 + e26;
    lemma_within_concat(a25, e26, pos, 21, 26, 27);
    let a27 = a26 + e27;
    lemma_within_concat(a26, e27, pos, 21, 27, 28);
    let a28 = a27 + e28;
    lemma_within_concat(a27, e28, pos, 21, 28, 29);
}

/// The keys of one part of a Responses API request's body, and the value
/// under each.
#[verifier::rlimit(100)]
proof fn lemma_responses_part5_values(f: ResponsesFields)
    ensures
        keyed_within(responses_entries_part5(f), responses_pos(), 30, 38),
        value_under(responses_entries_part5(f), "provider"@) == (match f.provider { Some(v) => Some(v), None => None }),
        value_under(responses_entries_part5(f), "plugins"@) == (match f.plugins { Some(vs) => Some(json_array_value(vs)), None => None }),
        value_under(responses_entries_part5(f), "route"@) == (match f.route { Some(s) => Some(json_string_value(s)), None => None }),
        value_under(responses_entries_part5(f), "user"@) == (match f.user { Some(s) => Some(json_string_value(s)), None => None }),
        value_under(responses_entries_part5(f), "session_id"@) == (match f.session_id { Some(s) => Some(json_string_value(s)), None => None }),
        value_under(responses_entries_part5(f), "cache_control"@) == (match f.cache_control { Some(v) => Some(v), None => None }),
        value_under(responses_entries_part5(f), "trace"@) == (match f.trace { Some(v) => Some(v), None => None }),
        value_under(responses_entries_part5(f), "debug"@) == (match f.debug { Some(v) => Some(v), None => None }),
{
    lemma_responses_body_key_pos_3();
    lemma_responses_body_key_pos_4();
    let pos = responses_pos();
    let e30 = value_entry("provider"@, f.provider);
    lemma_entry_within(e30, "provider"@, pos);
    let e31 = values_entry("plugins"@, f.plugins);
    lemma_entry_within(e31, "plugins"@, pos);
    let e32 = text_entry("route"@, f.route);
    lemma_entry_within(e32, "route"@, pos);
    let e33 = text_entry("user"@, f.user);
    lemma_entry_within(e33, "user"@, pos);
    let e34 = text_entry("session_id"@, f.session_id);
    lemma_entry_within(e34, "session_id"@, pos);
    let e35 = value_entry("cache_control"@, f.cache_control);
    lemma_entry_within(e35, "cache_control"@, pos);
    let e36 = value_entry("trace"@, f.trace);
    lemma_entry_within(e36, "trace"@, pos);
    let e37 = value_entry("debug"@, f.debug);
    lemma_entry_within(e37, "debug"@, pos);
    let a31 = e30 + e31;
    lemma_within_concat(e30, e31, pos, 30, 31, 32);
    let a32 = a31 + e32;
    lemma_within_concat(a31, e32, pos, 30, 32, 33);
    let a33 = a32 + e33;
    lemma_within_concat(a32, e33, pos, 30, 33, 34);
    let a34 = a33 + e34;
    lemma_within_concat(a33, e34, pos, 30, 34, 35);
    let a35 = a34 + e35;
    lemma_within_concat(a34, e35, pos, 30, 35, 36);
    let a36 = a35 + e36;
    lemma_within_concat(a35, e36, pos, 30, 36, 37);
    let a37 = a36 + e37;
    lemma_within_concat(a36, e37, pos, 30, 37, 38);
}

/// The value under each key of one part of a Responses API request's body,
/// read in the whole body.
#[verifier::rlimit(100)]
proof fn lemma_responses_body_values_0(f: ResponsesFields)
    ensures
        keyed_within(responses_entries(f), responses_pos(), 0, 38),
        value_under(responses_entries(f), "input"@) == (match f.input { Some(v) => Some(v), None => None }),
        value_under(responses_entries(f), "instructions"@) == (match f.instructions { Some(s) => Some(json_string_value(s)), None => None }),
        value_under(responses_entries(f), "metadata"@) == (match f.metadata { Some(ps) => Some(json_object_value(ps)), None => None }),
        value_under(responses_entries(f), "tools"@) == (match f.tools { Some(vs) => Some(json_array_value(vs)), None => None }),
        value_under(responses_entries(f), "tool_choice"@) == (match f.tool_choice { Some(v) => Some(v), None => None }),
        value_under(responses_entries(f), "parallel_tool_calls"@) == (match f.parallel_tool_calls { Some(b) => Some(json_bool_value(b)), None => None }),
        value_under(responses_entries(f), "model"@) == (match f.model { Some(s) => Some(json_string_value(s)), None => None }),
{
    lemma_responses_body_key_pos_0();
    lemma_responses_part1_values(f);
    lemma_responses_part2_values(f);
    lemma_responses_part3_values(f);
    lemma_responses_part4_values(f);
    lemma_responses_part5_values(f);
    lemma_responses_body_key_pos_3();
    let pos = responses_pos();
    let s = bool_entry("stream"@, f.stream);
    lemma_entry_within(s, "stream"@, pos);
    let p0 = responses_entries_part1(f);
    let p1 = responses_entries_part2(f);
    let p2 = responses_entries_part3(f);
    let p3 = responses_entries_part4(f);
    let p5 = responses_entries_part5(f);
    lemma_within_concat(p0, p1, pos, 0, 7, 14);
    lemma_within_concat(p0 + p1, p2, pos, 0, 14, 21);
    lemma_within_concat(p0 + p1 + p2, p3, pos, 0, 21, 29);
    lemma_within_concat(p0 + p1 + p2 + p3, s, pos, 0, 29, 30);
    lemma_within_concat(p0 + p1 + p2 + p3 + s, p5, pos, 0, 30, 38);
}

/// The value under each key of one part of a Responses API request's body,
/// read in the whole body.
#[verifier::rlimit(100)]
proof fn lemma_responses_body_values_1(f: ResponsesFields)
    ensures
        value_under(responses_entries(f), "models"@) == (match f.models { Some(ss) => Some(json_array_value(ss.map_values(|s: Seq<char>| json_string_value(s)))), None => None }),
        value_under(responses_entries(f), "text"@) == (match f.text { Some(v) => Some(v), None => None }),
        value_under(responses_entries(f), "reasoning"@) == (match f.reasoning { Some(v) => Some(v), None => None }),
        value_under(responses_entries(f), "max_output_tokens"@) == (match f.max_output_tokens { Some(n) => Some(json_u64_value(n as u64)), None => None }),
        value_under(responses_entries(f), "temperature"@) == (match f.temperature { Some(n) => Some(json_number_value(n)), None => None }),
        value_under(responses_entries(f), "top_p"@) == (match f.top_p { Some(n) => Some(json_number_value(n)), None => None }),
        value_under(responses_entries(f), "top_logprobs"@) == (match f.top_logprobs { Some(n) => Some(json_u64_value(n as u64)), None => None }),
{
    lemma_responses_body_key_pos_0();
    lemma_responses_body_key_pos_1();
    lemma_responses_part1_values(f);
    lemma_responses_part2_values(f);
    lemma_responses_part3_values(f);
    lemma_responses_part4_values(f);
    lemma_responses_part5_values(f);
    lemma_responses_body_key_pos_3();
    let pos = responses_pos();
    let s = bool_entry("stream"@, f.stream);
    lemma_entry_within(s, "stream"@, pos);
    let p0 = responses_entries_part1(f);
    let p1 = responses_entries_part2(f);
    let p2 = responses_entries_part3(f);
    let p3 = responses_entries_part4(f);
    let p5 = responses_entries_part5(f);
    lemma_within_concat(p0, p1, pos, 0, 7, 14);
    lemma_within_concat(p0 + p1, p2, pos, 0, 14, 21);
    lemma_within_concat(p0 + p1 + p2, p3, pos, 0, 21, 29);
    lemma_within_concat(p0 + p1 + p2 + p3, s, pos, 0, 29, 30);
    lemma_within_concat(p0 + p1 + p2 + p3 + s, p5, pos, 0, 30, 38);
}

/// The value under each key of one part of a Responses API request's body,
/// read in the whole body.
#[verifier::rlimit(100)]
proof fn lemma_responses_body_values_2(f: ResponsesFields)
    ensures
        value_under(responses_entries(f), "max_tool_calls"@) == (match f.max_tool_calls { Some(n) => Some(json_u64_value(n as u64)), None => None }),
        value_under(responses_entries(f), "presence_penalty"@) == (match f.presence_penalty { Some(n) => Some(json_number_value(n)), None => None }),
        value_under(responses_entries(f), "frequency_penalty"@) == (match f.frequency_penalty { Some(n) => Some(json_number_value(n)), None => None }),
        value_under(responses_entries(f), "top_k"@) == (match f.top_k { Some(n) => Some(json_number_value(n)), None => None }),
        value_under(responses_entries(f), "image_config"@) == (match f.image_config { Some(ps) => Some(json_object_value(ps)), None => None }),
        value_under(responses_entries(f), "modalities"@) == (match f.modalities { Some(ss) => Some(json_array_value(ss.map_values(|s: Seq<char>| json_string_value(s)))), None => None }),
        value_under(responses_entries(f), "prompt_cache_key"@) == (match f.prompt_cache_key { Some(s) => Some(json_string_value(s)), None => None }),
{
    lemma_responses_body_key_pos_1();
    lemma_responses_body_key_pos_2();
    lemma_responses_part1_values(f);
    lemma_responses_part2_values(f);
    lemma_responses_part3_values(f);
    lemma_responses_part4_values(f);
    lemma_responses_part5_values(f);
    lemma_responses_body_key_pos_3();
    let pos = responses_pos();
    let s = bool_entry("stream"@, f.stream);
    lemma_entry_within(s, "stream"@, pos);
    let p0 = responses_entries_part1(f);
    let p1 = responses_entries_part2(f);
    let p2 = responses_entries_part3(f);
    let p3 = responses_entries_part4(f);
    let p5 = responses_entries_part5(f);
    lemma_within_concat(p0, p1, pos, 0, 7, 14);
    lemma_within_concat(p0 + p1, p2, pos, 0, 14, 21);
    lemma_within_concat(p0 + p1 + p2, p3, pos, 0, 21, 29);
    lemma_within_concat(p0 + p1 + p2 + p3, s, pos, 0, 29, 30);
    lemma_within_concat(p0 + p1 + p2 + p3 + s, p5, pos, 0, 30, 38);
}

/// The value under each key of one part of a Responses API request's body,
/// read in the whole body.
#[verifier::rlimit(100)]
proof fn lemma_responses_body_values_3(f: ResponsesFields)
    ensures
        value_under(responses_entries(f), "previous_response_id"@) == (match f.previous_response_id { Some(s) => Some(json_string_value(s)), None => None }),
        value_under(responses_entries(f), "prompt"@) == (match f.prompt { Some(v) => Some(v), None => None }),
        value_under(responses_entries(f), "include"@) == (match f.included_output { Some(ss) => Some(json_array_value(ss.map_values(|s: Seq<char>| json_string_value(s)))), None => None }),
        value_under(responses_entries(f), "background"@) == (match f.background { Some(b) => Some(json_bool_value(b)), None => None }),
        value_under(responses_entries(f), "safety_identifier"@) == (match f.safety_identifier { Some(s) => Some(json_string_value(s)), None => None }),
        value_under(responses_entries(f), "store"@) == (match f.store { Some(b) => Some(json_bool_value(b)), None => None }),
        value_under(responses_entries(f), "service_tier"@) == (match f.service_tier { Some(s) => Some(json_string_value(s)), None => None }),
        value_under(responses_entries(f), "truncation"@) == (match f.truncation { Some(s) => Some(json_string_value(s)), None => None }),
{
    lemma_responses_body_key_pos_2();
    lemma_responses_body_key_pos_3();
    lemma_responses_part1_values(f);
    lemma_responses_part2_values(f);
    lemma_responses_part3_values(f);
    lemma_responses_part4_values(f);
    lemma_responses_part5_values(f);
    lemma_responses_body_key_pos_3();
    let pos = responses_pos();
    let s = bool_entry("stream"@, f.stream);
    lemma_entry_within(s, "stream"@, pos);
    let p0 = responses_entries_part1(f);
    let p1 = responses_entries_part2(f);
    let p2 = responses_entries_part3(f);
    let p3 = responses_entries_part4(f);
    let p5 = responses_entries_part5(f);
    lemma_within_concat(p0, p1, pos, 0, 7, 14);
    lemma_within_concat(p0 + p1, p2, pos, 0, 14, 21);
    lemma_within_concat(p0 + p1 + p2, p3, pos, 0, 21, 29);
    lemma_within_concat(p0 + p1 + p2 + p3, s, pos, 0, 29, 30);
    lemma_within_concat(p0 + p1 + p2 + p3 + s, p5, pos, 0, 30, 38);
}

/// The value under each key of one part of a Responses API request's body,
/// read in the whole body.
#[verifier::rlimit(100)]
proof fn lemma_responses_body_values_4(f: ResponsesFields)
    ensures
        value_under(responses_entries(f), "stream"@) == (match f.stream { Some(b) => Some(json_bool_value(b)), None => None }),
{
    lemma_responses_body_key_pos_3();
    lemma_responses_part1_values(f);
    lemma_responses_part2_values(f);
    lemma_responses_part3_values(f);
    lemma_responses_part4_values(f);
    lemma_responses_part5_values(f);
    lemma_responses_body_key_pos_3();
    let pos = responses_pos();
    let s = bool_entry("stream"@, f.stream);
    lemma_entry_within(s, "stream"@, pos);
    let p0 = responses_entries_part1(f);
    let p1 = responses_entries_part2(f);
    let p2 = responses_entries_part3(f);
    let p3 = responses_entries_part4(f);
    let p5 = responses_entries_part5(f);
    lemma_within_concat(p0, p1, pos, 0, 7, 14);
    lemma_within_concat(p0 + p1, p2, pos, 0, 14, 21);
    lemma_within_concat(p0 + p1 + p2, p3, pos, 0, 21, 29);
    lemma_within_concat(p0 + p1 + p2 + p3, s, pos, 0, 29, 30);
    lemma_within_concat(p0 + p1 + p2 + p3 + s, p5, pos, 0, 30, 38);
}

/// The value under each key of one part of a Responses API request's body,
/// read in the whole body.
#[verifier::rlimit(100)]
proof fn lemma_responses_body_values_5(f: ResponsesFields)
    ensures
        value_under(responses_entries(f), "provider"@) == (match f.provider { Some(v) => Some(v), None => None }),
        value_under(responses_entries(f), "plugins"@) == (match f.plugins { Some(vs) => Some(json_array_value(vs)), None => None }),
        value_under(responses_entries(f), "route"@) == (match f.route { Some(s) => Some(json_string_value(s)), None => None }),
        value_under(responses_entries(f), "user"@) == (match f.user { Some(s) => Some(json_string_value(s)), None => None }),
        value_under(responses_entries(f), "session_id"@) == (match f.session_id { Some(s) => Some(json_string_value(s)), None => None }),
        value_under(responses_entries(f), "cache_control"@) == (match f.cache_control { Some(v) => Some(v), None => None }),
        value_under(responses_entries(f), "trace"@) == (match f.trace { Some(v) => Some(v), None => None }),
        value_under(responses_entries(f), "debug"@) == (match f.debug { Some(v) => Some(v), None => None }),
{
    lemma_responses_body_key_pos_3();
    lemma_responses_body_key_pos_4();
    lemma_responses_part1_values(f);
    lemma_responses_part2_values(f);
    lemma_responses_part3_values(f);
    lemma_responses_part4_values(f);
    lemma_responses_part5_values(f);
    lemma_responses_body_key_pos_3();
    let pos = responses_pos();
    let s = bool_entry("stream"@, f.stream);
    lemma_entry_within(s, "stream"@, pos);
    let p0 = responses_entries_part1(f);
    let p1 = responses_entries_part2(f);
    let p2 = responses_entries_part3(f);
    let p3 = responses_entries_part4(f);
    let p5 = responses_entries_part5(f);
    lemma_within_concat(p0, p1, pos, 0, 7, 14);
    lemma_within_concat(p0 + p1, p2, pos, 0, 14, 21);
    lemma_within_concat(p0 + p1 + p2, p3, pos, 0, 21, 29);
    lemma_within_concat(p0 + p1 + p2 + p3, s, pos, 0, 29, 30);
    lemma_within_concat(p0 + p1 + p2 + p3 + s, p5, pos, 0, 30, 38);
}

/// Every field of a Responses API request that goes into its JSON body is
/// written there under its own key, as the JSON value of its type, and a
/// field left unset is absent: setting a field is never lost, and no key
/// occurs twice.
pub proof fn lemma_responses_body_fields(f: ResponsesFields)
    ensures
        keys_distinct(responses_entries(f)),
        lookup(responses_entries(f), "input"@) == (match f.input { Some(v) => Some(v), None => None }),
        lookup(responses_entries(f), "instructions"@) == (match f.instructions { Some(s) => Some(json_string_value(s)), None => None }),
        lookup(responses_entries(f), "metadata"@) == (match f.metadata { Some(ps) => Some(json_object_value(ps)), None => None }),
        lookup(responses_entries(f), "tools"@) == (match f.tools { Some(vs) => Some(json_array_value(vs)), None => None }),
        lookup(responses_entries(f), "tool_choice"@) == (match f.tool_choice { Some(v) => Some(v), None => None }),
        lookup(responses_entries(f), "parallel_tool_calls"@) == (match f.parallel_tool_calls { Some(b) => Some(json_bool_value(b)), None => None }),
        lookup(responses_entries(f), "model"@) == (match f.model { Some(s) => Some(json_string_value(s)), None => None }),
        lookup(responses_entries(f), "models"@) == (match f.models { Some(ss) => Some(json_array_value(ss.map_values(|s: Seq<char>| json_string_value(s)))), None => None }),
        lookup(responses_entries(f), "text"@) == (match f.text { Some(v) => Some(v), None => None }),
        lookup(responses_entries(f), "reasoning"@) == (match f.reasoning { Some(v) => Some(v), None => None }),
        lookup(responses_entries(f), "max_output_tokens"@) == (match f.max_output_tokens { Some(n) => Some(json_u64_value(n as u64)), None => None }),
        lookup(responses_entries(f), "temperature"@) == (match f.temperature { Some(n) => Some(json_number_value(n)), None => None }),
        lookup(responses_entries(f), "top_p"@) == (match f.top_p { Some(n) => Some(json_number_value(n)), None => None }),
        lookup(responses_entries(f), "top_logprobs"@) == (match f.top_logprobs { Some(n) => Some(json_u64_value(n as u64)), None => None }),
        lookup(responses_entries(f), "max_tool_calls"@) == (match f.max_tool_calls { Some(n) => Some(json_u64_value(n as u64)), None => None }),
        lookup(responses_entries(f), "presence_penalty"@) == (match f.presence_penalty { Some(n) => Some(json_number_value(n)), None => None }),
        lookup(responses_entries(f), "frequency_penalty"@) == (match f.frequency_penalty { Some(n) => Some(json_number_value(n)), None => None }),
        lookup(responses_entries(f), "top_k"@) == (match f.top_k { Some(n) => Some(json_number_value(n)), None => None }),
        lookup(responses_entries(f), "image_config"@) == (match f.image_config { Some(ps) => Some(json_object_value(ps)), None => None }),
        lookup(responses_entries(f), "modalities"@) == (match f.modalities { Some(ss) => Some(json_array_value(ss.map_values(|s: Seq<char>| json_string_value(s)))), None => None }),
        lookup(responses_entries(f), "prompt_cache_key"@) == (match f.prompt_cache_key { Some(s) => Some(json_string_value(s)), None => None }),
        lookup(responses_entries(f), "previous_response_id"@) == (match f.previous_response_id { Some(s) => Some(json_string_value(s)), None => None }),
        lookup(responses_entries(f), "prompt"@) == (match f.prompt { Some(v) => Some(v), None => None }),
        lookup(responses_entries(f), "include"@) == (match f.included_output { Some(ss) => Some(json_array_value(ss.map_values(|s: Seq<char>| json_string_value(s)))), None => None }),
        lookup(responses_entries(f), "background"@) == (match f.background { Some(b) => Some(json_bool_value(b)), None => None }),
        lookup(responses_entries(f), "safety_identifier"@) == (match f.safety_identifier { Some(s) => Some(json_string_value(s)), None => None }),
        lookup(responses_entries(f), "store"@) == (match f.store { Some(b) => Some(json_bool_value(b)), None => None }),
        lookup(responses_entries(f), "service_tier"@) == (match f.service_tier { Some(s) => Some(json_string_value(s)), None => None }),
        lookup(responses_entries(f), "truncation"@) == (match f.truncation { Some(s) => Some(json_string_value(s)), None => None }),
        lookup(responses_entries(f), "stream"@) == (match f.stream { Some(b) => Some(json_bool_value(b)), None => None }),
        lookup(responses_entries(f), "provider"@) == (match f.provider { Some(v) => Some(v), None => None }),
        lookup(responses_entries(f), "plugins"@) == (match f.plugins { Some(vs) => Some(json_array_value(vs)), None => None }),
        lookup(responses_entries(f), "route"@) == (match f.route { Some(s) => Some(json_string_value(s)), None => None }),
        lookup(responses_entries(f), "user"@) == (match f.user { Some(s) => Some(json_string_value(s)), None => None }),
        lookup(responses_entries(f), "session_id"@) == (match f.session_id { Some(s) => Some(json_string_value(s)), None => None }),
        lookup(responses_entries(f), "cache_control"@) == (match f.cache_control { Some(v) => Some(v), None => None }),
        lookup(responses_entries(f), "trace"@) == (match f.trace { Some(v) => Some(v), None => None }),
        lookup(responses_entries(f), "debug"@) == (match f.debug { Some(v) => Some(v), None => None }),
{
    lemma_responses_body_values_0(f);
    lemma_responses_body_values_1(f);
    lemma_responses_body_values_2(f);
    lemma_responses_body_values_3(f);
    lemma_responses_body_values_4(f);
    lemma_responses_body_values_5(f);
    lemma_within_distinct(responses_entries(f), responses_pos(), 0, 38);
    lemma_value_under(responses_entries(f), "input"@);
    lemma_value_under(responses_entries(f), "instructions"@);
    lemma_value_under(responses_entries(f), "metadata"@);
    lemma_value_under(responses_entries(f), "tools"@);
    lemma_value_under(responses_entries(f), "tool_choice"@);
    lemma_value_under(responses_entries(f), "parallel_tool_calls"@);
    lemma_value_under(responses_entries(f), "model"@);
    lemma_value_under(responses_entries(f), "models"@);
    lemma_value_under(responses_entries(f), "text"@);
    lemma_value_under(responses_entries(f), "reasoning"@);
    lemma_value_under(responses_entries(f), "max_output_tokens"@);
    lemma_value_under(responses_entries(f), "temperature"@);
    lemma_value_under(responses_entries(f), "top_p"@);
    lemma_value_under(responses_entries(f), "top_logprobs"@);
    lemma_value_under(responses_entries(f), "max_tool_calls"@);
    lemma_value_under(responses_entries(f), "presence_penalty"@);
    lemma_value_under(responses_entries(f), "frequency_penalty"@);
    lemma_value_under(responses_entries(f), "top_k"@);
    lemma_value_under(responses_entries(f), "image_config"@);
    lemma_value_under(responses_entries(f), "modalities"@);
    lemma_value_under(responses_entries(f), "prompt_cache_key"@);
    lemma_value_under(responses_entries(f), "previous_response_id"@);
    lemma_value_under(responses_entries(f), "prompt"@);
    lemma_value_under(responses_entries(f), "include"@);
    lemma_value_under(responses_entries(f), "background"@);
    lemma_value_under(responses_entries(f), "safety_identifier"@);
    lemma_value_under(responses_entries(f), "store"@);
    lemma_value_under(responses_entries(f), "service_tier"@);
    lemma_value_under(responses_entries(f), "truncation"@);
    lemma_value_under(responses_entries(f), "stream"@);
    lemma_value_under(responses_entries(f), "provider"@);
    lemma_value_under(responses_entries(f), "plugins"@);
    lemma_value_under(responses_entries(f), "route"@);
    lemma_value_under(responses_entries(f), "user"@);
    lemma_value_under(responses_entries(f), "session_id"@);
    lemma_value_under(responses_entries(f), "cache_control"@);
    lemma_value_under(responses_entries(f), "trace"@);
    lemma_value_under(responses_entries(f), "debug"@);
}

impl ResponsesRequest {
    /// A builder with nothing set.
    pub fn builder() -> (b: ResponsesRequestBuilder)
        ensures
            b@ == empty_responses_fields(),
    {
        ResponsesRequestBuilder {
            input: None,
            instructions: None,
            metadata: None,
            tools: None,
            tool_choice: None,
            parallel_tool_calls: None,
            model: None,
            models: None,
            text: None,
            reasoning: None,
            max_output_tokens: None,
            temperature: None,
            top_p: None,
            top_logprobs: None,
            max_tool_calls: None,
            presence_penalty: None,
            frequency_penalty: None,
            top_k: None,
            image_config: None,
            modalities: None,
            prompt_cache_key: None,
            previous_response_id: None,
            prompt: None,
            included_output: None,
            background: None,
            safety_identifier: None,
            store: None,
            service_tier: None,
            truncation: None,
            experimental_metadata: None,
            provider: None,
            plugins: None,
            route: None,
            user: None,
            session_id: None,
            cache_control: None,
            trace: None,
            debug: None,
        }
    }

    /// A request for `model` with the given input and nothing else set.
    pub fn new(model: &str, input: serde_json::Value) -> (r: ResponsesRequest)
        ensures
            r@ == (ResponsesFields { model: Some(model@), input: Some(input), ..empty_responses_fields() }),
    {
        let mut b = Self::builder();
        b.model(model);
        b.input(input);
        b.build_request()
    }

    /// The routing-metadata opt-in, sent as a header.
    pub fn experimental_metadata(&self) -> (r: Option<OpenRouterExperimentalMetadata>)
        ensures
            r == self@.experimental_metadata,
    {
        self.experimental_metadata
    }

    /// The streaming flag the request carries (unset unless a body was
    /// made for sending).
    pub fn stream_flag(&self) -> (r: Option<bool>)
        ensures
            r == self@.stream,
    {
        self.stream
    }

    /// The request's JSON body with the streaming flag it carries.
    pub fn to_json_value(&self) -> (r: serde_json::Value)
        ensures
            r == responses_json(self@),
            lookup(json_entries_of(r)->0, "stream"@) == match self@.stream {
                Some(b) => Some(json_bool_value(b)),
                None => None,
            },
    {
        self.json_with_stream(self.stream)
    }

    /// The body sent to `POST /responses`: the request's JSON with
    /// `"stream"` set to `stream`.
    pub fn request_body(&self, stream: bool) -> (r: serde_json::Value)
        ensures
            r == responses_json(ResponsesFields { stream: Some(stream), ..self@ }),
            lookup(json_entries_of(r)->0, "stream"@) == Some(json_bool_value(stream)),
    {
        self.json_with_stream(Some(stream))
    }

    #[verifier::rlimit(50)]
    fn push_part1(&self, entries: &mut Vec<(String, serde_json::Value)>)
        ensures
            pairs_view(final(entries)@) == pairs_view(old(entries)@) + responses_entries_part1(self@),
    {
        let ghost start = pairs_view(entries@);
        push_value(entries, "input", &self.input);
        push_text(entries, "instructions", &self.instructions);
        push_map(entries, "metadata", &self.metadata);
        push_values(entries, "tools", &self.tools);
        push_value(entries, "tool_choice", &self.tool_choice);
        push_bool(entries, "parallel_tool_calls", self.parallel_tool_calls);
        push_text(entries, "model", &self.model);
        assert(pairs_view(entries@) =~= start + responses_entries_part1(self@));
    }

    #[verifier::rlimit(50)]
    fn push_part2(&self, entries: &mut Vec<(String, serde_json::Value)>)
        ensures
            pairs_view(final(entries)@) == pairs_view(old(entries)@) + responses_entries_part2(self@),
    {
        let ghost start = pairs_view(entries@);
        push_strings(entries, "models", &self.models);
        push_value(entries, "text", &self.text);
        push_value(entries, "reasoning", &self.reasoning);
        push_u32(entries, "max_output_tokens", self.max_output_tokens);
        push_number(entries, "temperature", &self.temperature);
        push_number(entries, "top_p", &self.top_p);
        push_u32(entries, "top_logprobs", self.top_logprobs);
        assert(pairs_view(entries@) =~= start + responses_entries_part2(self@));
    }

    #[verifier::rlimit(50)]
    fn push_part3(&self, entries: &mut Vec<(String, serde_json::Value)>)
        ensures
            pairs_view(final(entries)@) == pairs_view(old(entries)@) + responses_entries_part3(self@),
    {
        let ghost start = pairs_view(entries@);
        push_u32(entries, "max_tool_calls", self.max_tool_calls);
        push_number(entries, "presence_penalty", &self.presence_penalty);
        push_number(entries, "frequency_penalty", &self.frequency_penalty);
        push_number(entries, "top_k", &self.top_k);
        push_map(entries, "image_config", &self.image_config);
        push_strings(entries, "modalities", &self.modalities);
        push_text(entries, "prompt_cache_key", &self.prompt_cache_key);
        assert(pairs_view(entries@) =~= start + responses_entries_part3(self@));
    }

    #[verifier::rlimit(50)]
    fn push_part4(&self, entries: &mut Vec<(String, serde_json::Value)>)
        ensures
            pairs_view(final(entries)@) == pairs_view(old(entries)@) + responses_entries_part4(self@),
    {
        let ghost start = pairs_view(entries@);
        push_text(entries, "previous_response_id", &self.previous_response_id);
        push_value(entries, "prompt", &self.prompt);
        push_strings(entries, "include", &self.included_output);
        push_bool(entries, "background", self.background);
        push_text(entries, "safety_identifier", &self.safety_identifier);
        push_bool(entries, "store", self.store);
        push_text(entries, "service_tier", &self.service_tier);
        push_text(entries, "truncation", &self.truncation);
        assert(pairs_view(entries@) =~= start + responses_entries_part4(self@));
    }

    #[verifier::rlimit(50)]
    fn push_part5(&self, entries: &mut Vec<(String, serde_json::Value)>)
        ensures
            pairs_view(final(entries)@) == pairs_view(old(entries)@) + responses_entries_part5(self@),
    {
        let ghost start = pairs_view(entries@);
        push_value(entries, "provider", &self.provider);
        push_values(entries, "plugins", &self.plugins);
        push_text(entries, "route", &self.route);
        push_text(entries, "user", &self.user);
        push_text(entries, "session_id", &self.session_id);
        push_value(entries, "cache_control", &self.cache_control);
        push_value(entries, "trace", &self.trace);
        push_value(entries, "debug", &self.debug);
        assert(pairs_view(entries@) =~= start + responses_entries_part5(self@));
    }

    fn json_with_stream(&self, stream: Option<bool>) -> (r: serde_json::Value)
        ensures
            r == responses_json(ResponsesFields { stream: stream, ..self@ }),
            lookup(json_entries_of(r)->0, "stream"@) == match stream {
                Some(b) => Some(json_bool_value(b)),
                None => None,
            },
    {
        let ghost f = ResponsesFields { stream: stream, ..self@ };
        let mut entries: Vec<(String, serde_json::Value)> = Vec::new();
        assert(pairs_view(entries@) =~= Seq::<(Seq<char>, serde_json::Value)>::empty());
        self.push_part1(&mut entries);
        self.push_part2(&mut entries);
        self.push_part3(&mut entries);
        self.push_part4(&mut entries);
        push_bool(&mut entries, "stream", stream);
        self.push_part5(&mut entries);
        assert(responses_entries_part1(f) == responses_entries_part1(self@));
        assert(responses_entries_part2(f) == responses_entries_part2(self@));
        assert(responses_entries_part3(f) == responses_entries_part3(self@));
        assert(responses_entries_part4(f) == responses_entries_part4(self@));
        assert(responses_entries_part5(f) == responses_entries_part5(self@));
        assert(pairs_view(entries@) =~= responses_entries(f));
        proof {
            lemma_responses_stream_entry(f);
        }
        json_object(entries)
    }
}

impl ResponsesRequestBuilder {
    /// Set `input`: a text or a list of input items.
    pub fn input(&mut self, input: serde_json::Value) -> (r: &mut Self)
        ensures
            r@ == (ResponsesFields { input: Some(input), ..old(self)@ }),
            *final(self) == *final(r),
    {
        self.input = Some(input);
        self
    }

    /// Set `instructions`: system instructions for the model.
    pub fn instructions(&mut self, instructions: &str) -> (r: &mut Self)
        ensures
            r@ == (ResponsesFields { instructions: Some(instructions@), ..old(self)@ }),
            *final(self) == *final(r),
    {
        self.instructions = Some(instructions.to_string());
        self
    }

    /// Set `metadata`: metadata attached to the response.
    pub fn metadata(&mut self, metadata: JsonMap) -> (r: &mut Self)
        ensures
            r@ == (ResponsesFields { metadata: Some(metadata.pairs()), ..old(self)@ }),
            *final(self) == *final(r),
    {
        self.metadata = Some(metadata);
        self
    }

    /// Set `tools`: tools the model may call.
    pub fn tools(&mut self, tools: Vec<serde_json::Value>) -> (r: &mut Self)
        ensures
            r@ == (ResponsesFields { tools: Some(tools@), ..old(self)@ }),
            *final(self) == *final(r),
    {
        self.tools = Some(tools);
        self
    }

    /// Set `tool_choice`: how the model chooses tools.
    pub fn tool_choice(&mut self, tool_choice: serde_json::Value) -> (r: &mut Self)
        ensures
            r@ == (ResponsesFields { tool_choice: Some(tool_choice), ..old(self)@ }),
            *final(self) == *final(r),
    {
        self.tool_choice = Some(tool_choice);
        self
    }

    /// Set `parallel_tool_calls`: whether tool calls may run in parallel.
    pub fn parallel_tool_calls(&mut self, parallel_tool_calls: bool) -> (r: &mut Self)
        ensures
            r@ == (ResponsesFields { parallel_tool_calls: Some(parallel_tool_calls), ..old(self)@ }),
            *final(self) == *final(r),
    {
        self.parallel_tool_calls = Some(parallel_tool_calls);
        self
    }

    /// Set `model`: the model to use.
    pub fn model(&mut self, model: &str) -> (r: &mut Self)
        ensures
            r@ == (ResponsesFields { model: Some(model@), ..old(self)@ }),
            *final(self) == *final(r),
    {
        self.model = Some(model.to_string());
        self
    }

    /// Set `models`: fallback models, in order.
    pub fn models(&mut self, models: Vec<String>) -> (r: &mut Self)
        ensures
            r@ == (ResponsesFields { models: Some(strings_view(models@)), ..old(self)@ }),
            *final(self) == *final(r),
    {
        self.models = Some(models);
        self
    }

    /// Set `text`: text output configuration.
    pub fn text(&mut self, text: serde_json::Value) -> (r: &mut Self)
        ensures
            r@ == (ResponsesFields { text: Some(text), ..old(self)@ }),
            *final(self) == *final(r),
    {
        self.text = Some(text);
        self
    }

    /// Set `reasoning`: reasoning configuration.
    pub fn reasoning(&mut self, reasoning: serde_json::Value) -> (r: &mut Self)
        ensures
            r@ == (ResponsesFields { reasoning: Some(reasoning), ..old(self)@ }),
            *final(self) == *final(r),
    {
        self.reasoning = Some(reasoning);
        self
    }

    /// Set `max_output_tokens`: upper bound on output tokens.
    pub fn max_output_tokens(&mut self, max_output_tokens: u32) -> (r: &mut Self)
        ensures
            r@ == (ResponsesFields { max_output_tokens: Some(max_output_tokens), ..old(self)@ }),
            *final(self) == *final(r),
    {
        self.max_output_tokens = Some(max_output_tokens);
        self
    }

    /// Set `temperature`: sampling temperature.
    pub fn temperature(&mut self, temperature: serde_json::Number) -> (r: &mut Self)
        ensures
            r@ == (ResponsesFields { temperature: Some(temperature), ..old(self)@ }),
            *final(self) == *final(r),
    {
        self.temperature = Some(temperature);
        self
    }

    /// Set `top_p`: nucleus sampling mass.
    pub fn top_p(&mut self, top_p: serde_json::Number) -> (r: &mut Self)
        ensures
            r@ == (ResponsesFields { top_p: Some(top_p), ..old(self)@ }),
            *final(self) == *final(r),
    {
        self.top_p = Some(top_p);
        self
    }

    /// Set `top_logprobs`: number of most likely tokens to return per position.
    pub fn top_logprobs(&mut self, top_logprobs: u32) -> (r: &mut Self)
        ensures
            r@ == (ResponsesFields { top_logprobs: Some(top_logprobs), ..old(self)@ }),
            *final(self) == *final(r),
    {
        self.top_logprobs = Some(top_logprobs);
        self
    }

    /// Set `max_tool_calls`: upper bound on tool calls.
    pub fn max_tool_calls(&mut self, max_tool_calls: u32) -> (r: &mut Self)
        ensures
            r@ == (ResponsesFields { max_tool_calls: Some(max_tool_calls), ..old(self)@ }),
            *final(self) == *final(r),
    {
        self.max_tool_calls = Some(max_tool_calls);
        self
    }

    /// Set `presence_penalty`: presence penalty.
    pub fn presence_penalty(&mut self, presence_penalty: serde_json::Number) -> (r: &mut Self)
        ensures
            r@ == (ResponsesFields { presence_penalty: Some(presence_penalty), ..old(self)@ }),
            *final(self) == *final(r),
    {
        self.presence_penalty = Some(presence_penalty);
        self
    }

    /// Set `frequency_penalty`: frequency penalty.
    pub fn frequency_penalty(&mut self, frequency_penalty: serde_json::Number) -> (r: &mut Self)
        ensures
            r@ == (ResponsesFields { frequency_penalty: Some(frequency_penalty), ..old(self)@ }),
            *final(self) == *final(r),
    {
        self.frequency_penalty = Some(frequency_penalty);
        self
    }

    /// Set `top_k`: top-k sampling.
    pub fn top_k(&mut self, top_k: serde_json::Number) -> (r: &mut Self)
        ensures
            r@ == (ResponsesFields { top_k: Some(top_k), ..old(self)@ }),
            *final(self) == *final(r),
    {
        self.top_k = Some(top_k);
        self
    }

    /// Set `image_config`: image generation configuration.
    pub fn image_config(&mut self, image_config: JsonMap) -> (r: &mut Self)
        ensures
            r@ == (ResponsesFields { image_config: Some(image_config.pairs()), ..old(self)@ }),
            *final(self) == *final(r),
    {
        self.image_config = Some(image_config);
        self
    }

    /// Set `modalities`: output modalities.
    pub fn modalities(&mut self, modalities: Vec<String>) -> (r: &mut Self)
        ensures
            r@ == (ResponsesFields { modalities: Some(strings_view(modalities@)), ..old(self)@ }),
            *final(self) == *final(r),
    {
        self.modalities = Some(modalities);
        self
    }

    /// Set `prompt_cache_key`: key for prompt caching.
    pub fn prompt_cache_key(&mut self, prompt_cache_key: &str) -> (r: &mut Self)
        ensures
            r@ == (ResponsesFields { prompt_cache_key: Some(prompt_cache_key@), ..old(self)@ }),
            *final(self) == *final(r),
    {
        self.prompt_cache_key = Some(prompt_cache_key.to_string());
        self
    }

    /// Set `previous_response_id`: the response this one continues.
    pub fn previous_response_id(&mut self, previous_response_id: &str) -> (r: &mut Self)
        ensures
            r@ == (ResponsesFields { previous_response_id: Some(previous_response_id@), ..old(self)@ }),
            *final(self) == *final(r),
    {
        self.previous_response_id = Some(previous_response_id.to_string());
        self
    }

    /// Set `prompt`: a stored prompt reference.
    pub fn prompt(&mut self, prompt: serde_json::Value) -> (r: &mut Self)
        ensures
            r@ == (ResponsesFields { prompt: Some(prompt), ..old(self)@ }),
            *final(self) == *final(r),
    {
        self.prompt = Some(prompt);
        self
    }

    /// Set the body's `"include"` list: extra output items to return with the
    /// response.
    pub fn included_output(&mut self, items: Vec<String>) -> (r: &mut Self)
        ensures
            r@ == (ResponsesFields { included_output: Some(strings_view(items@)), ..old(self)@ }),
            *final(self) == *final(r),
    {
        self.included_output = Some(items);
        self
    }

    /// Set `background`: whether to run in the background.
    pub fn background(&mut self, background: bool) -> (r: &mut Self)
        ensures
            r@ == (ResponsesFields { background: Some(background), ..old(self)@ }),
            *final(self) == *final(r),
    {
        self.background = Some(background);
        self
    }

    /// Set `safety_identifier`: stable identifier of the end user for safety checks.
    pub fn safety_identifier(&mut self, safety_identifier: &str) -> (r: &mut Self)
        ensures
            r@ == (ResponsesFields { safety_identifier: Some(safety_identifier@), ..old(self)@ }),
            *final(self) == *final(r),
    {
        self.safety_identifier = Some(safety_identifier.to_string());
        self
    }

    /// Set `store`: whether to store the response.
    pub fn store(&mut self, store: bool) -> (r: &mut Self)
        ensures
            r@ == (ResponsesFields { store: Some(store), ..old(self)@ }),
            *final(self) == *final(r),
    {
        self.store = Some(store);
        self
    }

    /// Set `service_tier`: service tier.
    pub fn service_tier(&mut self, service_tier: &str) -> (r: &mut Self)
        ensures
            r@ == (ResponsesFields { service_tier: Some(service_tier@), ..old(self)@ }),
            *final(self) == *final(r),
    {
        self.service_tier = Some(service_tier.to_string());
        self
    }

    /// Set `truncation`: truncation strategy.
    pub fn truncation(&mut self, truncation: &str) -> (r: &mut Self)
        ensures
            r@ == (ResponsesFields { truncation: Some(truncation@), ..old(self)@ }),
            *final(self) == *final(r),
    {
        self.truncation = Some(truncation.to_string());
        self
    }

    /// Set `experimental_metadata`: opt-in for OpenRouter routing metadata; sent as a header, not in the body.
    pub fn experimental_metadata(&mut self, experimental_metadata: OpenRouterExperimentalMetadata) -> (r: &mut Self)
        ensures
            r@ == (ResponsesFields { experimental_metadata: Some(experimental_metadata), ..old(self)@ }),
            *final(self) == *final(r),
    {
        self.experimental_metadata = Some(experimental_metadata);
        self
    }

    /// Set `provider`: provider routing preferences.
    pub fn provider(&mut self, provider: serde_json::Value) -> (r: &mut Self)
        ensures
            r@ == (ResponsesFields { provider: Some(provider), ..old(self)@ }),
            *final(self) == *final(r),
    {
        self.provider = Some(provider);
        self
    }

    /// Set `plugins`: plugins to enable.
    pub fn plugins(&mut self, plugins: Vec<serde_json::Value>) -> (r: &mut Self)
        ensures
            r@ == (ResponsesFields { plugins: Some(plugins@), ..old(self)@ }),
            *final(self) == *final(r),
    {
        self.plugins = Some(plugins);
        self
    }

    /// Set `route`: routing strategy.
    pub fn route(&mut self, route: &str) -> (r: &mut Self)
        ensures
            r@ == (ResponsesFields { route: Some(route@), ..old(self)@ }),
            *final(self) == *final(r),
    {
        self.route = Some(route.to_string());
        self
    }

    /// Set `user`: end-user identifier.
    pub fn user(&mut self, user: &str) -> (r: &mut Self)
        ensures
            r@ == (ResponsesFields { user: Some(user@), ..old(self)@ }),
            *final(self) == *final(r),
    {
        self.user = Some(user.to_string());
        self
    }

    /// Set `session_id`: session identifier.
    pub fn session_id(&mut self, session_id: &str) -> (r: &mut Self)
        ensures
            r@ == (ResponsesFields { session_id: Some(session_id@), ..old(self)@ }),
            *final(self) == *final(r),
    {
        self.session_id = Some(session_id.to_string());
        self
    }

    /// Set `cache_control`: prompt cache control.
    pub fn cache_control(&mut self, cache_control: serde_json::Value) -> (r: &mut Self)
        ensures
            r@ == (ResponsesFields { cache_control: Some(cache_control), ..old(self)@ }),
            *final(self) == *final(r),
    {
        self.cache_control = Some(cache_control);
        self
    }

    /// Set `trace`: trace options.
    pub fn trace(&mut self, trace: serde_json::Value) -> (r: &mut Self)
        ensures
            r@ == (ResponsesFields { trace: Some(trace), ..old(self)@ }),
            *final(self) == *final(r),
    {
        self.trace = Some(trace);
        self
    }

    /// Set `debug`: debug options.
    pub fn debug(&mut self, debug: serde_json::Value) -> (r: &mut Self)
        ensures
            r@ == (ResponsesFields { debug: Some(debug), ..old(self)@ }),
            *final(self) == *final(r),
    {
        self.debug = Some(debug);
        self
    }

    /// Build the request; every field is optional, so this always succeeds,
    /// and the streaming flag is left unset.
    pub fn build(&self) -> (r: Result<ResponsesRequest, OpenRouterError>)
        ensures
            r matches Ok(req) && req@ == self@,
    {
        Ok(self.build_request())
    }

    fn build_request(&self) -> (req: ResponsesRequest)
        ensures
            req@ == self@,
    {
        ResponsesRequest {
            input: clone_opt_value(&self.input),
            instructions: clone_opt_string(&self.instructions),
            metadata: clone_opt_map(&self.metadata),
            tools: clone_opt_values(&self.tools),
            tool_choice: clone_opt_value(&self.tool_choice),
            parallel_tool_calls: self.parallel_tool_calls,
            model: clone_opt_string(&self.model),
            models: clone_opt_strings(&self.models),
            text: clone_opt_value(&self.text),
            reasoning: clone_opt_value(&self.reasoning),
            max_output_tokens: self.max_output_tokens,
            temperature: clone_opt_number(&self.temperature),
            top_p: clone_opt_number(&self.top_p),
            top_logprobs: self.top_logprobs,
            max_tool_calls: self.max_tool_calls,
            presence_penalty: clone_opt_number(&self.presence_penalty),
            frequency_penalty: clone_opt_number(&self.frequency_penalty),
            top_k: clone_opt_number(&self.top_k),
            image_config: clone_opt_map(&self.image_config),
            modalities: clone_opt_strings(&self.modalities),
            prompt_cache_key: clone_opt_string(&self.prompt_cache_key),
            previous_response_id: clone_opt_string(&self.previous_response_id),
            prompt: clone_opt_value(&self.prompt),
            included_output: clone_opt_strings(&self.included_output),
            background: self.background,
            safety_identifier: clone_opt_string(&self.safety_identifier),
            store: self.store,
            service_tier: clone_opt_string(&self.service_tier),
            truncation: clone_opt_string(&self.truncation),
            stream: None,
            experimental_metadata: self.experimental_metadata,
            provider: clone_opt_value(&self.provider),
            plugins: clone_opt_values(&self.plugins),
            route: clone_opt_string(&self.route),
            user: clone_opt_string(&self.user),
            session_id: clone_opt_string(&self.session_id),
            cache_control: clone_opt_value(&self.cache_control),
            trace: clone_opt_value(&self.trace),
            debug: clone_opt_value(&self.debug),
        }
    }
}

/// Non-streaming response payload returned by `POST /responses`.
#[derive(Debug, Clone)]
pub struct ResponsesResponse {
    pub id: Option<String>,
    /// The `"object"` field.
    pub object_type: Option<String>,
    pub created_at: Option<u64>,
    pub model: Option<String>,
    pub status: Option<String>,
    pub output: Option<Vec<serde_json::Value>>,
    pub usage: Option<serde_json::Value>,
    /// Fields the type does not name.
    pub extra: JsonMap,
}

/// Streaming event payload returned by `POST /responses` when `stream=true`.
#[derive(Debug, Clone)]
pub struct ResponsesStreamEvent {
    /// The `"type"` field.
    pub event_type: String,
    pub sequence_number: Option<u64>,
    /// The other fields of the event.
    pub data: JsonMap,
}

/// Names of the fields of a response.
pub open spec fn response_keys() -> Seq<Seq<char>> {
    seq!["id"@, "object"@, "created_at"@, "model"@, "status"@, "output"@, "usage"@]
}

/// An optional array taken by its view.
pub open spec fn opt_items_view(o: Option<Vec<serde_json::Value>>) -> Option<Seq<serde_json::Value>> {
    match o {
        Some(v) => Some(v@),
        None => None,
    }
}

/// `v` is a JSON object with the layout of a response.
pub open spec fn response_decodes(v: serde_json::Value) -> bool {
    &&& json_entries_of(v) matches Some(e)
    &&& opt_string_spec(e, "id"@) is Some
    &&& opt_string_spec(e, "object"@) is Some
    &&& opt_u64_spec(e, "created_at"@) is Some
    &&& opt_string_spec(e, "model"@) is Some
    &&& opt_string_spec(e, "status"@) is Some
    &&& opt_array_spec(e, "output"@) is Some
}

/// `r` is what `v` holds as a response.
pub open spec fn response_from(v: serde_json::Value, r: ResponsesResponse) -> bool {
    &&& json_entries_of(v) matches Some(e)
    &&& opt_string_spec(e, "id"@) == Some(opt_str_view(r.id))
    &&& opt_string_spec(e, "object"@) == Some(opt_str_view(r.object_type))
    &&& opt_u64_spec(e, "created_at"@) == Some(r.created_at)
    &&& opt_string_spec(e, "model"@) == Some(opt_str_view(r.model))
    &&& opt_string_spec(e, "status"@) == Some(opt_str_view(r.status))
    &&& opt_array_spec(e, "output"@) == Some(opt_items_view(r.output))
    &&& r.usage == opt_value_spec(e, "usage"@)
    &&& r.extra.pairs() == without_keys_spec(e, response_keys())
}

/// Names of the fields of a stream event.
pub open spec fn event_keys() -> Seq<Seq<char>> {
    seq!["type"@, "sequence_number"@]
}

/// `v` is a JSON object with the layout of a stream event.
pub open spec fn event_decodes(v: serde_json::Value) -> bool {
    &&& json_entries_of(v) matches Some(e)
    &&& req_string_spec(e, "type"@) is Some
    &&& opt_u64_spec(e, "sequence_number"@) is Some
}

/// `x` is what `v` holds as a stream event.
pub open spec fn event_from(v: serde_json::Value, x: ResponsesStreamEvent) -> bool {
    &&& json_entries_of(v) matches Some(e)
    &&& req_string_spec(e, "type"@) == Some(x.event_type@)
    &&& opt_u64_spec(e, "sequence_number"@) == Some(x.sequence_number)
    &&& x.data.pairs() == without_keys_spec(e, event_keys())
}

impl ResponsesResponse {
    /// Decodes a response from JSON; `None` where the JSON does not have its
    /// layout.
    pub fn from_json_value(v: &serde_json::Value) -> (r: Option<ResponsesResponse>)
        ensures
            r is Some <==> response_decodes(*v),
            r matches Some(x) ==> response_from(*v, x),
    {
        let entries = match json_as_entries(v) {
            Some(e) => e,
            None => {
                return None;
            },
        };
        let id = match opt_string(&entries, "id") {
            Some(o) => o,
            None => {
                return None;
            },
        };
        let object_type = match opt_string(&entries, "object") {
            Some(o) => o,
            None => {
                return None;
            },
        };
        let created_at = match opt_u64(&entries, "created_at") {
            Some(o) => o,
            None => {
                return None;
            },
        };
        let model = match opt_string(&entries, "model") {
            Some(o) => o,
            None => {
                return None;
            },
        };
        let status = match opt_string(&entries, "status") {
            Some(o) => o,
            None => {
                return None;
            },
        };
        let output = match opt_array(&entries, "output") {
            Some(o) => o,
            None => {
                return None;
            },
        };
        let usage = opt_value(&entries, "usage");
        let known: [&str; 7] = ["id", "object", "created_at", "model", "status", "output", "usage"];
        assert(keys_view(known@) =~= response_keys());
        let extra = without_keys(&entries, &known);
        Some(ResponsesResponse { id, object_type, created_at, model, status, output, usage, extra })
    }

    /// Decodes a response from JSON text; a serialization error where the
    /// text is no JSON or lacks the layout.
    pub fn from_json_str(text: &str) -> (r: Result<ResponsesResponse, OpenRouterError>)
        ensures
            r is Ok <==> (json_parse_of(text@) matches Some(v) && response_decodes(v)),
            r matches Ok(x) ==> json_parse_of(text@) matches Some(v) && response_from(v, x),
            r matches Err(e) ==> e matches OpenRouterError::Serialization(_),
    {
        match json_parse(text) {
            Ok(v) => match ResponsesResponse::from_json_value(&v) {
                Some(x) => Ok(x),
                None => Err(OpenRouterError::Serialization(json_data_error("invalid responses API response"))),
            },
            Err(e) => Err(OpenRouterError::Serialization(e)),
        }
    }
}

/// What decoding `text` as a stream event gives: the event the JSON holds,
/// or a serialization error where the text is no JSON with that layout.
pub open spec fn event_text_result(text: Seq<char>, r: Result<ResponsesStreamEvent, OpenRouterError>) -> bool {
    &&& (r is Ok <==> (json_parse_of(text) matches Some(v) && event_decodes(v)))
    &&& (r matches Ok(x) ==> json_parse_of(text) matches Some(v) && event_from(v, x))
    &&& (r matches Err(e) ==> e matches OpenRouterError::Serialization(_))
}

impl ResponsesStreamEvent {
    /// Decodes a stream event from JSON; `None` where the JSON does not have
    /// its layout.
    pub fn from_json_value(v: &serde_json::Value) -> (r: Option<ResponsesStreamEvent>)
        ensures
            r is Some <==> event_decodes(*v),
            r matches Some(x) ==> event_from(*v, x),
    {
        let entries = match json_as_entries(v) {
            Some(e) => e,
            None => {
                return None;
            },
        };
        let event_type = match req_string(&entries, "type") {
            Some(s) => s,
            None => {
                return None;
            },
        };
        let sequence_number = match opt_u64(&entries, "sequence_number") {
            Some(o) => o,
            None => {
                return None;
            },
        };
        let known: [&str; 2] = ["type", "sequence_number"];
        assert(keys_view(known@) =~= event_keys());
        let data = without_keys(&entries, &known);
        Some(ResponsesStreamEvent { event_type, sequence_number, data })
    }

    /// Decodes a stream event from JSON text; a serialization error where
    /// the text is no JSON or lacks the layout.
    pub fn from_json_str(text: &str) -> (r: Result<ResponsesStreamEvent, OpenRouterError>)
        ensures
            event_text_result(text@, r),
    {
        match json_parse(text) {
            Ok(v) => match ResponsesStreamEvent::from_json_value(&v) {
                Some(x) => Ok(x),
                None => Err(OpenRouterError::Serialization(json_data_error("invalid responses stream event"))),
            },
            Err(e) => Err(OpenRouterError::Serialization(e)),
        }
    }
}

/// What one server-sent event of a response stream yields: nothing for the
/// `[DONE]` marker, else its data decoded as a stream event.
pub fn response_stream_item(frame: &SseFrame) -> (r: Option<Result<ResponsesStreamEvent, OpenRouterError>>)
    ensures
        r is None <==> is_done_spec(frame.data@),
        r matches Some(res) ==> event_text_result(frame.data@, res),
{
    if is_done_marker(frame.data.as_str()) {
        None
    } else {
        Some(ResponsesStreamEvent::from_json_str(frame.data.as_str()))
    }
}

/// `{base}/responses`.
pub fn responses_url(base_url: &str) -> (r: String)
    ensures
        r@ == base_url@ + "/responses"@,
{
    let mut url = base_url.to_string();
    push_str(&mut url, "/responses");
    url
}

/// The request sent to the Responses API: `POST {base}/responses` with the
/// client headers, then the routing-metadata header where the request opts
/// in, and the request's body with `"stream"` set to `stream`.
pub fn responses_request(
    base_url: &str,
    api_key: &str,
    x_title: &Option<String>,
    http_referer: &Option<String>,
    app_categories: &Option<Vec<String>>,
    request: &ResponsesRequest,
    stream: bool,
) -> (r: HttpRequestPlan)
    ensures
        r.method == HttpMethod::Post,
        r.url@ == base_url@ + "/responses"@,
        headers_view(r.headers@) == client_headers(
            api_key@,
            opt_text(*x_title),
            opt_text(*http_referer),
            opt_strings_view(*app_categories),
        ) + metadata_opt_in_headers(request@.experimental_metadata),
        r.body == Some(responses_json(ResponsesFields { stream: Some(stream), ..request@ })),
{
    let mut headers = client_request_headers(api_key, x_title, http_referer, app_categories);
    let ghost before = headers_view(headers@);
    match request.experimental_metadata() {
        Some(OpenRouterExperimentalMetadata::Enabled) => {
            headers.push(("X-OpenRouter-Metadata".to_string(), "enabled".to_string()));
        },
        None => {},
    }
    assert(headers_view(headers@) =~= before + metadata_opt_in_headers(request@.experimental_metadata));
    HttpRequestPlan {
        method: HttpMethod::Post,
        url: responses_url(base_url),
        headers,
        body: Some(request.request_body(stream)),
    }
}

/// A decoded response holds what its JSON object holds: id, object type,
/// creation time, model, status, output items and usage (each unset where
/// absent or `null`), and every other pair in `extra`.
pub proof fn lemma_response_fields(v: serde_json::Value, r: ResponsesResponse)
    requires
        response_from(v, r),
    ensures
        json_entries_of(v) is Some,
        ({
            let e = json_entries_of(v)->0;
            &&& opt_str_view(r.id) == (match lookup(e, "id"@) { Some(j) => if json_is_null_of(j) { None::<Seq<char>> } else { json_str_of(j) }, None => None::<Seq<char>> })
            &&& opt_str_view(r.object_type) == (match lookup(e, "object"@) { Some(j) => if json_is_null_of(j) { None::<Seq<char>> } else { json_str_of(j) }, None => None::<Seq<char>> })
            &&& r.created_at == (match lookup(e, "created_at"@) { Some(j) => if json_is_null_of(j) { None::<u64> } else { json_u64_of(j) }, None => None::<u64> })
            &&& opt_str_view(r.model) == (match lookup(e, "model"@) { Some(j) => if json_is_null_of(j) { None::<Seq<char>> } else { json_str_of(j) }, None => None::<Seq<char>> })
            &&& opt_str_view(r.status) == (match lookup(e, "status"@) { Some(j) => if json_is_null_of(j) { None::<Seq<char>> } else { json_str_of(j) }, None => None::<Seq<char>> })
            &&& opt_items_view(r.output) == (match lookup(e, "output"@) { Some(j) => if json_is_null_of(j) { None::<Seq<serde_json::Value>> } else { json_array_of(j) }, None => None::<Seq<serde_json::Value>> })
            &&& r.usage == (match lookup(e, "usage"@) { Some(j) => if json_is_null_of(j) { None::<serde_json::Value> } else { Some(j) }, None => None::<serde_json::Value> })
            &&& r.extra.pairs() == without_keys_spec(e, seq!["id"@, "object"@, "created_at"@, "model"@, "status"@, "output"@, "usage"@])
        }),
{
}

/// A decoded stream event holds its JSON object's type and sequence number,
/// and every other pair in `data`.
pub proof fn lemma_event_fields(v: serde_json::Value, x: ResponsesStreamEvent)
    requires
        event_from(v, x),
    ensures
        json_entries_of(v) is Some,
        ({
            let e = json_entries_of(v)->0;
            &&& (lookup(e, "type"@) matches Some(j) && json_str_of(j) == Some(x.event_type@))
            &&& x.sequence_number == (match lookup(e, "sequence_number"@) { Some(j) => if json_is_null_of(j) { None::<u64> } else { json_u64_of(j) }, None => None::<u64> })
            &&& x.data.pairs() == without_keys_spec(e, seq!["type"@, "sequence_number"@])
        }),
{
}


/// JSON decodes as a response exactly where it is an object whose id, object
/// type, creation time, model, status and output are each absent, `null` or of
/// their types.
pub proof fn lemma_response_decodes(v: serde_json::Value)
    ensures
        response_decodes(v) <==> (json_entries_of(v) is Some && {
            let e = json_entries_of(v)->0;
            &&& (lookup(e, "id"@) matches Some(j) ==> (json_is_null_of(j) || json_str_of(j) is Some))
            &&& (lookup(e, "object"@) matches Some(j) ==> (json_is_null_of(j) || json_str_of(j) is Some))
            &&& (lookup(e, "created_at"@) matches Some(j) ==> (json_is_null_of(j) || json_u64_of(j) is Some))
            &&& (lookup(e, "model"@) matches Some(j) ==> (json_is_null_of(j) || json_str_of(j) is Some))
            &&& (lookup(e, "status"@) matches Some(j) ==> (json_is_null_of(j) || json_str_of(j) is Some))
            &&& (lookup(e, "output"@) matches Some(j) ==> (json_is_null_of(j) || json_array_of(j) is Some))
        }),
{
}

/// JSON decodes as a stream event exactly where it is an object with a type and
/// a sequence number that is absent, `null` or an unsigned integer.
pub proof fn lemma_event_decodes(v: serde_json::Value)
    ensures
        event_decodes(v) <==> (json_entries_of(v) is Some && {
            let e = json_entries_of(v)->0;
            &&& (lookup(e, "type"@) matches Some(j) && json_str_of(j) is Some)
            &&& (lookup(e, "sequence_number"@) matches Some(j) ==> (json_is_null_of(j) || json_u64_of(j) is Some))
        }),
{
}

/// A request's JSON body is the JSON object of its entries.
pub proof fn lemma_responses_json_object(f: ResponsesFields)
    ensures
        responses_json(f) == json_object_value(responses_entries(f)),
{
}

/// A stream frame's data gives the event its JSON holds where the text
/// parses as JSON that decodes as an event, and a serialization error
/// otherwise.
pub proof fn lemma_event_text_decoding(text: Seq<char>, r: Result<ResponsesStreamEvent, OpenRouterError>)
    requires
        event_text_result(text, r),
    ensures
        r is Ok <==> (json_parse_of(text) matches Some(v) && event_decodes(v)),
        r matches Ok(x) ==> json_parse_of(text) matches Some(v) && event_from(v, x),
        r matches Err(e) ==> e is Serialization,
{
}

} // verus!
