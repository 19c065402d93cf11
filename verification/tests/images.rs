use openrouter_rs::client::OpenRouterClient;
use openrouter_rs::error::OpenRouterError;
use openrouter_rs::http::HttpMethod;
use openrouter_rs::images::{
    buffered_image_events, image_model_endpoints_url, image_models_url, image_stream_item,
    images_url, ImageGenerationRequest, ImageGenerationResponse, ImageInputReference,
    ImageProviderOptions, ImageStreamEvent, ImageStreamingResponse, ImageUrl,
};
use openrouter_rs::image_models::{image_models_from_json_str, ImageModelEndpointsResponse};
use openrouter_rs::json::JsonMap;
use openrouter_rs::sse::SseFrame;

fn json(text: &str) -> serde_json::Value {
    serde_json::from_str(text).expect("test JSON should parse")
}

#[test]
fn test_image_generation_request_serialization() {
    let mut provider_options = JsonMap::new();
    provider_options.insert("black-forest-labs".to_string(), json(r#"{"guidance": 3, "steps": 40}"#));

    let request = ImageGenerationRequest::builder()
        .model("bytedance-seed/seedream-4.5")
        .prompt("a red panda astronaut floating in space")
        .aspect_ratio("16:9")
        .background("transparent")
        .input_references(vec![ImageInputReference::new("https://example.com/reference.png")])
        .n(2)
        .output_compression(80)
        .output_format("webp")
        .provider(ImageProviderOptions::new(provider_options))
        .quality("high")
        .resolution("2K")
        .seed(42)
        .size("2048x1152")
        .build()
        .expect("image generation request should build");

    let value = request.to_json_value();
    assert_eq!(value["model"], "bytedance-seed/seedream-4.5");
    assert_eq!(value["prompt"], "a red panda astronaut floating in space");
    assert_eq!(value["aspect_ratio"], "16:9");
    assert_eq!(value["input_references"][0]["type"], "image_url");
    assert_eq!(value["input_references"][0]["image_url"]["url"], "https://example.com/reference.png");
    assert_eq!(value["provider"]["options"]["black-forest-labs"]["steps"], 40);
    assert!(value.get("stream").is_none());
}

#[test]
fn test_image_generation_response_deserialization() {
    let raw = r#"{
        "created": 1748372400,
        "data": [{
            "b64_json": "aW1hZ2U=",
            "media_type": "image/svg+xml"
        }],
        "usage": {
            "prompt_tokens": 0,
            "completion_tokens": 4175,
            "total_tokens": 4175,
            "cost": 0.04,
            "is_byok": false
        }
    }"#;

    let parsed = ImageGenerationResponse::from_json_str(raw).expect("image generation response should deserialize");
    assert_eq!(parsed.created, 1748372400);
    assert_eq!(parsed.data[0].b64_json, "aW1hZ2U=");
    assert_eq!(parsed.data[0].media_type.as_deref(), Some("image/svg+xml"));
    assert_eq!(
        parsed.usage.expect("usage should be present").cost.and_then(|n| n.as_f64()),
        Some(0.04)
    );
}

#[test]
fn test_image_streaming_response_deserialization() {
    let raw = r#"{
        "data": {
            "type": "image_generation.partial_image",
            "partial_image_index": 0,
            "b64_json": "cGFydGlhbA=="
        }
    }"#;

    let parsed = ImageStreamingResponse::from_json_str(raw).expect("streaming response should deserialize");
    match parsed.data {
        ImageStreamEvent::PartialImage(event) => {
            assert_eq!(event.partial_image_index, 0);
            assert_eq!(event.b64_json, "cGFydGlhbA==");
        }
        other => panic!("expected partial image event, got {other:?}"),
    }
}

#[test]
fn image_input_reference_constructors() {
    let r = ImageInputReference::image_url("https://example.com/a.png");
    assert_eq!(r.content_type, "image_url");
    assert_eq!(r.image_url.url, "https://example.com/a.png");
    let u = ImageUrl::new("https://example.com/b.png");
    assert_eq!(u.to_json_value()["url"], "https://example.com/b.png");
}

#[test]
fn image_request_builder_requires_model_then_prompt() {
    match ImageGenerationRequest::builder().prompt("p").build() {
        Err(OpenRouterError::UninitializedField(f)) => assert_eq!(f, "model"),
        other => panic!("unexpected {other:?}"),
    }
    match ImageGenerationRequest::builder().model("m").build() {
        Err(OpenRouterError::UninitializedField(f)) => assert_eq!(f, "prompt"),
        other => panic!("unexpected {other:?}"),
    }
    let req = ImageGenerationRequest::builder().model("m").prompt("p").build().unwrap();
    assert_eq!(req.stream_flag(), None);
    let value = req.to_json_value();
    assert_eq!(value, json(r#"{"model":"m","prompt":"p"}"#));
}

#[test]
fn image_request_body_sets_stream_flag() {
    let req = ImageGenerationRequest::builder().model("m").prompt("p").build().unwrap();
    assert_eq!(req.request_body(true)["stream"], true);
    assert_eq!(req.request_body(false)["stream"], false);
    assert!(req.to_json_value().get("stream").is_none());
}

#[test]
fn image_urls() {
    assert_eq!(images_url("http://h/api/v1"), "http://h/api/v1/images");
    assert_eq!(image_models_url("http://h/api/v1"), "http://h/api/v1/images/models");
    assert_eq!(
        image_model_endpoints_url("http://h/api/v1", "author", "model"),
        "http://h/api/v1/images/models/author/model/endpoints"
    );
    assert_eq!(
        image_model_endpoints_url("http://h", "a b/c", "x~y.z-_é"),
        "http://h/images/models/a%20b%2Fc/x~y.z-_%C3%A9/endpoints"
    );
}

#[test]
fn response_decoding_keeps_unknown_fields_and_rejects_bad_layouts() {
    let parsed = ImageGenerationResponse::from_json_str(
        r#"{"created": 1, "data": [{"b64_json": "x", "seed": 7}], "id": "gen-1"}"#,
    )
    .unwrap();
    assert_eq!(parsed.extra.get("id"), Some(serde_json::Value::from("gen-1")));
    assert_eq!(parsed.extra.len(), 1);
    assert_eq!(parsed.data[0].extra.get("seed"), Some(serde_json::Value::from(7)));
    assert!(parsed.data[0].media_type.is_none());
    assert!(parsed.usage.is_none());

    assert!(matches!(
        ImageGenerationResponse::from_json_str(r#"{"created": 1}"#),
        Err(OpenRouterError::Serialization(_))
    ));
    assert!(matches!(
        ImageGenerationResponse::from_json_str(r#"{"created": -1, "data": []}"#),
        Err(OpenRouterError::Serialization(_))
    ));
    assert!(matches!(
        ImageGenerationResponse::from_json_str(r#"{"created": 1, "data": [{"media_type": "x"}]}"#),
        Err(OpenRouterError::Serialization(_))
    ));
    assert!(matches!(
        ImageGenerationResponse::from_json_str("not json"),
        Err(OpenRouterError::Serialization(_))
    ));
    let with_null_usage =
        ImageGenerationResponse::from_json_str(r#"{"created": 1, "data": [], "usage": null}"#).unwrap();
    assert!(with_null_usage.usage.is_none());
}

#[test]
fn stream_event_variants_in_order() {
    let completed = ImageStreamingResponse::from_json_str(
        r#"{"data": {"type": "image_generation.completed", "b64_json": "eA==", "created": 5}, "trace": 1}"#,
    )
    .unwrap();
    match completed.data {
        ImageStreamEvent::Completed(event) => {
            assert_eq!(event.created, 5);
            assert!(event.usage.is_none());
        }
        other => panic!("expected completed event, got {other:?}"),
    }
    assert_eq!(completed.extra.get("trace"), Some(serde_json::Value::from(1)));

    let error = ImageStreamingResponse::from_json_str(
        r#"{"data": {"type": "error", "error": {"message": "boom", "code": "bad", "type": "server"}}}"#,
    )
    .unwrap();
    match error.data {
        ImageStreamEvent::Error(event) => {
            assert_eq!(event.error.message, "boom");
            assert_eq!(event.error.code.as_deref(), Some("bad"));
            assert_eq!(event.error.error_type.as_deref(), Some("server"));
            assert!(event.error.param.is_none());
        }
        other => panic!("expected error event, got {other:?}"),
    }

    let other = ImageStreamingResponse::from_json_str(r#"{"data": {"type": "keepalive"}}"#).unwrap();
    match other.data {
        ImageStreamEvent::Other(value) => assert_eq!(value["type"], "keepalive"),
        unexpected => panic!("expected other event, got {unexpected:?}"),
    }

    let index_too_large = ImageStreamingResponse::from_json_str(
        r#"{"data": {"type": "p", "partial_image_index": 4294967296, "b64_json": "x"}}"#,
    )
    .unwrap();
    assert!(matches!(index_too_large.data, ImageStreamEvent::Other(_)));

    assert!(matches!(
        ImageStreamingResponse::from_json_str(r#"{"event": {}}"#),
        Err(OpenRouterError::Serialization(_))
    ));
}

#[test]
fn stream_items_skip_done_marker() {
    let done = SseFrame { data: "[DONE]".to_string() };
    assert!(image_stream_item(&done).is_none());

    let partial = SseFrame {
        data: r#"{"data":{"type":"image_generation.partial_image","partial_image_index":0,"b64_json":"cGFydGlhbA=="}}"#
            .to_string(),
    };
    let event = image_stream_item(&partial).expect("an item").expect("event should deserialize");
    assert!(matches!(event.data, ImageStreamEvent::PartialImage(_)));

    let broken = SseFrame { data: "{".to_string() };
    assert!(matches!(image_stream_item(&broken), Some(Err(OpenRouterError::Serialization(_)))));
}

#[test]
fn buffered_response_yields_one_completed_event_per_image() {
    let response = ImageGenerationResponse::from_json_str(
        r#"{
        "created": 1748372400,
        "data": [{
            "b64_json": "aW1hZ2U=",
            "media_type": "image/png"
        }, {
            "b64_json": "aW1hZ2Uy",
            "media_type": "image/webp"
        }],
        "usage": {
            "prompt_tokens": 0,
            "completion_tokens": 4175,
            "total_tokens": 4175,
            "cost": 0.04
        },
        "provider": "p1"
    }"#,
    )
    .unwrap();

    let events = buffered_image_events(response);
    assert_eq!(events.len(), 2);
    match &events[0].data {
        ImageStreamEvent::Completed(event) => {
            assert_eq!(event.event_type, "image_generation.completed");
            assert_eq!(event.b64_json, "aW1hZ2U=");
            assert_eq!(event.created, 1748372400);
            assert_eq!(event.media_type.as_deref(), Some("image/png"));
            assert_eq!(
                event.usage.as_ref().expect("usage should be present").cost.as_ref().and_then(|n| n.as_f64()),
                Some(0.04)
            );
        }
        other => panic!("expected completed image event, got {other:?}"),
    }
    match &events[1].data {
        ImageStreamEvent::Completed(event) => {
            assert_eq!(event.b64_json, "aW1hZ2Uy");
            assert_eq!(event.media_type.as_deref(), Some("image/webp"));
            assert!(event.usage.is_none(), "aggregate usage should only be emitted once");
        }
        other => panic!("expected completed image event, got {other:?}"),
    }
    assert_eq!(events[1].extra.get("provider"), Some(serde_json::Value::from("p1")));

    let empty = ImageGenerationResponse::from_json_str(r#"{"created": 1, "data": []}"#).unwrap();
    assert!(buffered_image_events(empty).is_empty());
}

fn header<'a>(headers: &'a [(String, String)], name: &str) -> Option<&'a str> {
    headers.iter().find(|(n, _)| n == name).map(|(_, v)| v.as_str())
}

#[test]
fn image_generation_request_plan_path_body_and_headers() {
    let client = OpenRouterClient::builder()
        .base_url("http://127.0.0.1:1/api/v1")
        .api_key("api-key")
        .http_referer("https://example.com")
        .app_categories(&["cli-agent"])
        .build()
        .unwrap();
    let request = ImageGenerationRequest::builder()
        .model("bytedance-seed/seedream-4.5")
        .prompt("a red panda astronaut")
        .resolution("2K")
        .build()
        .unwrap();

    let plan = client.images().create_request(&request).unwrap();
    assert_eq!(plan.method, HttpMethod::Post);
    assert_eq!(plan.url, "http://127.0.0.1:1/api/v1/images");
    let body = plan.body.expect("body should be present");
    assert_eq!(body["model"], "bytedance-seed/seedream-4.5");
    assert_eq!(body["prompt"], "a red panda astronaut");
    assert_eq!(body["stream"], false);
    assert_eq!(header(&plan.headers, "Authorization"), Some("Bearer api-key"));
    assert_eq!(header(&plan.headers, "X-OpenRouter-Title"), Some("openrouter-rs"));
    assert_eq!(header(&plan.headers, "X-Title"), Some("openrouter-rs"));
    assert_eq!(header(&plan.headers, "HTTP-Referer"), Some("https://example.com"));
    assert_eq!(header(&plan.headers, "X-OpenRouter-Categories"), Some("cli-agent"));

    let stream_plan = client.images().stream_request(&request).unwrap();
    assert_eq!(stream_plan.body.expect("body")["stream"], true);

    let models = client.images().list_models_request().unwrap();
    assert_eq!(models.method, HttpMethod::Get);
    assert_eq!(models.url, "http://127.0.0.1:1/api/v1/images/models");
    assert_eq!(models.headers, vec![("Authorization".to_string(), "Bearer api-key".to_string())]);
    assert!(models.body.is_none());

    let endpoints = client.images().list_model_endpoints_request("author", "model").unwrap();
    assert_eq!(endpoints.url, "http://127.0.0.1:1/api/v1/images/models/author/model/endpoints");
}

#[test]
fn image_requests_need_an_api_key() {
    let client = OpenRouterClient::builder().build().unwrap();
    let request = ImageGenerationRequest::builder().model("m").prompt("p").build().unwrap();
    assert!(matches!(client.images().create_request(&request), Err(OpenRouterError::KeyNotConfigured)));
    assert!(matches!(client.images().stream_request(&request), Err(OpenRouterError::KeyNotConfigured)));
    assert!(matches!(client.images().list_models_request(), Err(OpenRouterError::KeyNotConfigured)));
    assert!(matches!(
        client.images().list_model_endpoints_request("a", "b"),
        Err(OpenRouterError::KeyNotConfigured)
    ));
}

#[test]
fn image_request_numeric_and_flag_fields() {
    let request = ImageGenerationRequest::builder()
        .model("m")
        .prompt("p")
        .n(2)
        .output_compression(80)
        .seed(-42)
        .build()
        .unwrap();
    let value = request.to_json_value();
    assert_eq!(value["n"], 2);
    assert_eq!(value["output_compression"], 80);
    assert_eq!(value["seed"], -42);
    assert!(value.get("aspect_ratio").is_none());
    assert!(value.get("provider").is_none());

    let with_empty_provider = ImageGenerationRequest::builder()
        .model("m")
        .prompt("p")
        .provider(ImageProviderOptions::default())
        .build()
        .unwrap();
    assert_eq!(with_empty_provider.to_json_value()["provider"], json("{}"));
}

#[test]
fn usage_flags_and_counts_decode() {
    let parsed = ImageGenerationResponse::from_json_str(
        r#"{"created": 2, "data": [], "usage": {"prompt_tokens": 1, "completion_tokens": 2, "total_tokens": 3, "is_byok": true, "units": 9}}"#,
    )
    .unwrap();
    let usage = parsed.usage.expect("usage should be present");
    assert_eq!(usage.prompt_tokens, 1);
    assert_eq!(usage.completion_tokens, 2);
    assert_eq!(usage.total_tokens, 3);
    assert_eq!(usage.is_byok, Some(true));
    assert!(usage.cost.is_none());
    assert_eq!(usage.extra.get("units"), Some(serde_json::Value::from(9)));
    assert!(matches!(
        ImageGenerationResponse::from_json_str(
            r#"{"created": 2, "data": [], "usage": {"prompt_tokens": 1, "completion_tokens": 2, "total_tokens": 3, "is_byok": "no"}}"#
        ),
        Err(OpenRouterError::Serialization(_))
    ));
}

#[test]
fn test_image_models_and_endpoints_deserialization() {
    let models_raw = r#"{
        "data": [{
            "id": "bytedance-seed/seedream-4.5",
            "name": "Seedream 4.5",
            "description": "A text-to-image model.",
            "created": 1692901234,
            "architecture": {
                "input_modalities": ["text", "image"],
                "output_modalities": ["image"]
            },
            "supported_parameters": {
                "resolution": {"type": "enum", "values": ["1K", "2K"]},
                "seed": {"type": "boolean"}
            },
            "supports_streaming": false,
            "endpoints": "/api/v1/images/models/bytedance-seed/seedream-4.5/endpoints"
        }]
    }"#;

    let parsed = image_models_from_json_str(models_raw).expect("image models should deserialize");
    assert_eq!(parsed[0].id, "bytedance-seed/seedream-4.5");
    assert_eq!(
        parsed[0]
            .supported_parameters
            .iter()
            .find(|(name, _)| name == "resolution")
            .map(|(_, d)| d)
            .expect("resolution should exist")
            .values
            .as_deref(),
        Some(&["1K".to_string(), "2K".to_string()][..])
    );

    let endpoints_raw = r#"{
        "id": "bytedance-seed/seedream-4.5",
        "endpoints": [{
            "provider_name": "Bytedance",
            "provider_slug": "bytedance",
            "provider_tag": null,
            "supported_parameters": {
                "resolution": {"type": "enum", "values": ["1K"]}
            },
            "allowed_passthrough_parameters": [],
            "supports_streaming": false,
            "pricing": [{
                "billable": "output_image",
                "unit": "image",
                "cost_usd": 0.05
            }]
        }]
    }"#;

    let endpoints = ImageModelEndpointsResponse::from_json_str(endpoints_raw).expect("image endpoints should deserialize");
    assert_eq!(endpoints.endpoints[0].provider_name, "Bytedance");
    assert_eq!(endpoints.endpoints[0].provider_tag, None);
    assert_eq!(endpoints.endpoints[0].pricing[0].cost_usd.as_f64(), Some(0.05));
}

#[test]
fn image_model_decoding_edge_cases() {
    let no_passthrough = ImageModelEndpointsResponse::from_json_str(
        r#"{"id": "a/b", "endpoints": [{"provider_name": "P", "provider_slug": "p",
            "supported_parameters": {}, "supports_streaming": true, "pricing": [], "region": "eu"}]}"#,
    )
    .unwrap();
    assert!(no_passthrough.endpoints[0].allowed_passthrough_parameters.is_empty());
    assert!(no_passthrough.endpoints[0].provider_tag.is_none());
    assert_eq!(no_passthrough.endpoints[0].extra.get("region"), Some(serde_json::Value::from("eu")));
    assert!(matches!(
        ImageModelEndpointsResponse::from_json_str(
            r#"{"id": "a/b", "endpoints": [{"provider_name": "P", "provider_slug": "p",
                "supported_parameters": {}, "allowed_passthrough_parameters": null,
                "supports_streaming": true, "pricing": []}]}"#
        ),
        Err(OpenRouterError::Serialization(_))
    ));
    assert!(matches!(
        image_models_from_json_str(r#"{"data": [{"id": "x"}]}"#),
        Err(OpenRouterError::Serialization(_))
    ));
    assert!(image_models_from_json_str(r#"{"data": []}"#).unwrap().is_empty());
    assert!(matches!(
        image_models_from_json_str(
            r#"{"data": [{"id": "x", "name": "n", "description": "d", "created": 1,
                "architecture": {"input_modalities": ["text"], "output_modalities": [1]},
                "supported_parameters": {}, "supports_streaming": false, "endpoints": "/e"}]}"#
        ),
        Err(OpenRouterError::Serialization(_))
    ));
}

#[test]
fn image_model_parameter_names_are_distinct() {
    let endpoints = ImageModelEndpointsResponse::from_json_str(
        r#"{"id": "a/b", "endpoints": [{"provider_name": "P", "provider_slug": "p",
            "supported_parameters": {"seed": {"type": "boolean"}, "seed": {"type": "integer"}},
            "supports_streaming": true, "pricing": []}]}"#,
    )
    .unwrap();
    let params = &endpoints.endpoints[0].supported_parameters;
    assert_eq!(params.len(), 1);
    assert_eq!(params[0].0, "seed");
}
