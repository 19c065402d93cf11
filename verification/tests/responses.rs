use openrouter_rs::client::OpenRouterClient;
use openrouter_rs::error::OpenRouterError;
use openrouter_rs::http::HttpMethod;
use openrouter_rs::json::JsonMap;
use openrouter_rs::responses::{
    response_stream_item, responses_url, OpenRouterExperimentalMetadata, ResponsesRequest, ResponsesResponse,
    ResponsesStreamEvent,
};
use openrouter_rs::sse::SseDecoder;

#[test]
fn test_responses_response_deserialization() {
    let raw = r#"{
        "id": "resp-abc123",
        "object": "response",
        "created_at": 1704067200,
        "model": "gpt-4",
        "status": "completed",
        "output": [{
            "type": "message",
            "id": "msg-abc123",
            "status": "completed",
            "role": "assistant",
            "content": [{
                "type": "output_text",
                "text": "Hello!",
                "annotations": []
            }]
        }],
        "usage": {
            "input_tokens": 10,
            "output_tokens": 25,
            "total_tokens": 35
        }
    }"#;

    let response = ResponsesResponse::from_json_str(raw).expect("responses payload should deserialize");
    assert_eq!(response.id.as_deref(), Some("resp-abc123"));
    assert_eq!(response.object_type.as_deref(), Some("response"));
    assert_eq!(response.status.as_deref(), Some("completed"));
    assert!(response.output.is_some());
    assert!(response.usage.is_some());
}

#[test]
fn test_responses_stream_event_deserialization() {
    let raw = r#"{
        "type": "response.output_text.delta",
        "sequence_number": 4,
        "delta": "Hello"
    }"#;

    let event = ResponsesStreamEvent::from_json_str(raw).expect("stream event should deserialize");
    assert_eq!(event.event_type, "response.output_text.delta");
    assert_eq!(event.sequence_number, Some(4));
    assert_eq!(event.data.get("delta").as_ref().and_then(|value| value.as_str()), Some("Hello"));
}

#[test]
fn test_responses_stream_event_with_response_payload() {
    let raw = r#"{
        "type": "response.completed",
        "sequence_number": 10,
        "response": {
            "id": "resp-abc123",
            "status": "completed"
        }
    }"#;

    let event = ResponsesStreamEvent::from_json_str(raw).expect("stream event with response should deserialize");
    assert_eq!(event.event_type, "response.completed");
    assert_eq!(event.sequence_number, Some(10));
    assert_eq!(
        event
            .data
            .get("response")
            .as_ref()
            .and_then(|value| value.get("id"))
            .and_then(|value| value.as_str()),
        Some("resp-abc123")
    );
}

#[test]
fn responses_decoding_edge_cases() {
    let empty = ResponsesResponse::from_json_str("{}").unwrap();
    assert!(empty.id.is_none());
    assert!(empty.output.is_none());
    assert!(empty.usage.is_none());
    let nulls = ResponsesResponse::from_json_str(r#"{"id": null, "usage": null, "extra_field": 1}"#).unwrap();
    assert!(nulls.id.is_none());
    assert!(nulls.usage.is_none());
    assert_eq!(nulls.extra.get("extra_field"), Some(serde_json::Value::from(1)));
    assert!(matches!(
        ResponsesResponse::from_json_str(r#"{"output": "text"}"#),
        Err(OpenRouterError::Serialization(_))
    ));
    assert!(matches!(
        ResponsesResponse::from_json_str(r#"[1]"#),
        Err(OpenRouterError::Serialization(_))
    ));
    assert!(matches!(
        ResponsesStreamEvent::from_json_str(r#"{"sequence_number": 1}"#),
        Err(OpenRouterError::Serialization(_))
    ));
    let no_seq = ResponsesStreamEvent::from_json_str(r#"{"type": "x"}"#).unwrap();
    assert!(no_seq.sequence_number.is_none());
    assert!(no_seq.data.is_empty());
}

fn decode_stream(text: &str) -> Vec<Result<ResponsesStreamEvent, OpenRouterError>> {
    let mut decoder = SseDecoder::new();
    let mut items = Vec::new();
    for raw_line in text.split('\n') {
        let line = raw_line.strip_suffix('\r').unwrap_or(raw_line);
        if let Some(frame) = decoder.feed_line(line) {
            if let Some(item) = response_stream_item(&frame) {
                items.push(item);
            }
        }
    }
    if let Some(frame) = decoder.finish() {
        if let Some(item) = response_stream_item(&frame) {
            items.push(item);
        }
    }
    items
}

#[test]
fn response_stream_single_and_done() {
    let items = decode_stream(
        "data: {\"type\":\"response.output_text.delta\",\"sequence_number\":1,\"delta\":\"Hi\"}\r\n\
         \r\n\
         data: [DONE]\r\n\
         \r\n",
    );
    assert_eq!(items.len(), 1);
    let event = items.into_iter().next().unwrap().expect("stream event should parse");
    assert_eq!(event.event_type, "response.output_text.delta");
    assert_eq!(event.sequence_number, Some(1));
    assert_eq!(event.data.get("delta").as_ref().and_then(|v| v.as_str()), Some("Hi"));
}

#[test]
fn response_stream_multiline_data_frames() {
    let text = [
        ": keep-alive\r\n",
        "event: response.output_text.delta\r\n",
        "data: {\r\n",
        "data:   \"type\":\"response.output_text.delta\",\r\n",
        "data:   \"sequence_number\":2,\r\n",
        "data:   \"delta\":\"Hello from multiline SSE\"\r\n",
        "data: }\r\n",
        "\r\n",
        "data: [DONE]\r\n",
        "\r\n",
    ]
    .join("");
    let items = decode_stream(&text);
    assert_eq!(items.len(), 1);
    let event = items.into_iter().next().unwrap().expect("stream event should parse");
    assert_eq!(event.event_type, "response.output_text.delta");
    assert_eq!(event.sequence_number, Some(2));
    assert_eq!(
        event.data.get("delta").as_ref().and_then(|v| v.as_str()),
        Some("Hello from multiline SSE")
    );
}

fn json(text: &str) -> serde_json::Value {
    serde_json::from_str(text).expect("test JSON should parse")
}

fn number(x: f64) -> serde_json::Number {
    serde_json::Number::from_f64(x).expect("finite number")
}

#[test]
fn test_responses_request_serialization() {
    let mut metadata = JsonMap::new();
    metadata.insert("env".to_string(), serde_json::Value::from("test"));
    metadata.insert("feature".to_string(), serde_json::Value::from("responses"));
    let mut image_config = JsonMap::new();
    image_config.insert("aspect_ratio".to_string(), serde_json::Value::from("16:9"));

    let request = ResponsesRequest::builder()
        .model("openai/gpt-5")
        .input(json(r#"[{"role": "user", "content": "Hello from responses API"}]"#))
        .instructions("Be concise")
        .metadata(metadata)
        .tools(vec![json(r#"{"type": "function", "name": "get_weather", "parameters": {"type": "object"}}"#)])
        .tool_choice(serde_json::Value::from("auto"))
        .parallel_tool_calls(true)
        .models(vec!["openai/gpt-5".to_string(), "openai/gpt-4o".to_string()])
        .max_output_tokens(256)
        .temperature(number(0.2))
        .top_p(number(0.9))
        .top_logprobs(5)
        .max_tool_calls(2)
        .presence_penalty(number(0.0))
        .frequency_penalty(number(0.0))
        .top_k(number(40.0))
        .image_config(image_config)
        .modalities(vec!["text".to_string(), "image".to_string()])
        .prompt_cache_key("cache-key-1")
        .previous_response_id("resp-prev")
        .included_output(vec!["reasoning.encrypted_content".to_string()])
        .background(false)
        .safety_identifier("user-123")
        .store(false)
        .service_tier("auto")
        .truncation("auto")
        .user("user-123")
        .session_id("session-abc")
        .cache_control(json(r#"{"type": "ephemeral"}"#))
        .trace(json(r#"{"trace_id": "trace-1", "span_name": "responses.unit"}"#))
        .debug(json(r#"{"echo_upstream_body": true}"#))
        .plugins(vec![json(r#"{"id": "web", "max_results": 3}"#)])
        .build()
        .expect("responses request should build");

    let value = request.to_json_value();
    assert_eq!(value["model"], "openai/gpt-5");
    assert_eq!(value["instructions"], "Be concise");
    assert_eq!(value["metadata"]["env"], "test");
    assert_eq!(value["tool_choice"], "auto");
    assert_eq!(value["parallel_tool_calls"], true);
    assert_eq!(value["max_output_tokens"], 256);
    assert_eq!(value["modalities"][1], "image");
    assert_eq!(value["plugins"][0]["id"], "web");
    assert_eq!(value["cache_control"]["type"], "ephemeral");
    assert!(value["cache_control"].get("ttl").is_none());
    assert_eq!(value["trace"]["trace_id"], "trace-1");
    assert_eq!(value["trace"]["span_name"], "responses.unit");
    assert_eq!(value["debug"]["echo_upstream_body"], true);
    assert_eq!(value["temperature"], 0.2);
    assert_eq!(value["top_k"], 40.0);
    assert_eq!(value["image_config"]["aspect_ratio"], "16:9");
    assert_eq!(value["include"][0], "reasoning.encrypted_content");
    assert!(value.get("stream").is_none());
}

#[test]
fn responses_request_new_and_body_stream_flag() {
    let request = ResponsesRequest::new("openai/gpt-5", json(r#"[{"role":"user","content":"hello"}]"#));
    assert_eq!(request.stream_flag(), None);
    assert!(request.experimental_metadata().is_none());
    let value = request.to_json_value();
    assert_eq!(value, json(r#"{"input":[{"role":"user","content":"hello"}],"model":"openai/gpt-5"}"#));
    assert_eq!(request.request_body(false)["stream"], false);
    assert_eq!(request.request_body(true)["stream"], true);
}

#[test]
fn responses_request_plan() {
    let client = OpenRouterClient::builder()
        .base_url("http://h/api/v1")
        .api_key("api-key")
        .x_title("openrouter-rs-tests")
        .http_referer("https://github.com/realmorrisliu/openrouter-rs")
        .app_categories(&["cli-agent", "coding"])
        .build()
        .unwrap();
    let request = ResponsesRequest::builder()
        .model("openai/gpt-5")
        .input(json(r#"[{"role":"user","content":"hello"}]"#))
        .experimental_metadata(OpenRouterExperimentalMetadata::Enabled)
        .build()
        .unwrap();
    let plan = client.responses().create_request(&request).unwrap();
    assert_eq!(plan.method, HttpMethod::Post);
    assert_eq!(plan.url, "http://h/api/v1/responses");
    let body = plan.body.clone().expect("body");
    assert_eq!(body["stream"], false);
    assert_eq!(body["model"], "openai/gpt-5");
    assert!(body.get("experimental_metadata").is_none());
    let expected: Vec<(String, String)> = vec![
        ("Authorization".to_string(), "Bearer api-key".to_string()),
        ("HTTP-Referer".to_string(), "https://github.com/realmorrisliu/openrouter-rs".to_string()),
        ("X-Title".to_string(), "openrouter-rs-tests".to_string()),
        ("X-OpenRouter-Title".to_string(), "openrouter-rs-tests".to_string()),
        ("X-OpenRouter-Categories".to_string(), "cli-agent,coding".to_string()),
        ("X-OpenRouter-Metadata".to_string(), "enabled".to_string()),
    ];
    assert_eq!(plan.headers, expected);
    assert_eq!(responses_url("http://x"), "http://x/responses");

    let stream_plan = client.responses().stream_request(&request).unwrap();
    assert_eq!(stream_plan.body.expect("body")["stream"], true);

    let plain = ResponsesRequest::new("m", serde_json::Value::Null);
    let plain_plan = client.responses().create_request(&plain).unwrap();
    assert_eq!(plain_plan.headers.len(), 5);

    let keyless = OpenRouterClient::builder().build().unwrap();
    assert!(matches!(keyless.responses().create_request(&plain), Err(OpenRouterError::KeyNotConfigured)));
}
