use openrouter_rs::client::OpenRouterClient;
use openrouter_rs::error::OpenRouterError;
use openrouter_rs::responses::ResponsesRequest;

#[test]
fn client_builder_defaults() {
    let client = OpenRouterClient::builder().build().unwrap();
    assert_eq!(client.base_url(), "https://openrouter.ai/api/v1");
    assert!(matches!(client.require_api_key(), Err(OpenRouterError::KeyNotConfigured)));
    assert!(matches!(client.require_management_key(), Err(OpenRouterError::KeyNotConfigured)));
    let plan_client = OpenRouterClient::builder().api_key("k").build().unwrap();
    let plan = plan_client.responses().create_request(&ResponsesRequest::new("m", serde_json::Value::Null)).unwrap();
    assert_eq!(plan.url, "https://openrouter.ai/api/v1/responses");
    assert_eq!(
        plan.headers,
        vec![
            ("Authorization".to_string(), "Bearer k".to_string()),
            ("X-Title".to_string(), "openrouter-rs".to_string()),
            ("X-OpenRouter-Title".to_string(), "openrouter-rs".to_string()),
        ]
    );
}

#[test]
fn client_keys_set_and_clear() {
    let mut client = OpenRouterClient::builder().build().unwrap();
    client.set_api_key("your_api_key");
    assert_eq!(client.require_api_key().unwrap(), "your_api_key");
    assert!(matches!(client.require_management_key(), Err(OpenRouterError::KeyNotConfigured)));
    client.set_management_key("your_management_key");
    assert_eq!(client.require_management_key().unwrap(), "your_management_key");
    client.clear_api_key();
    assert!(matches!(client.require_api_key(), Err(OpenRouterError::KeyNotConfigured)));
    assert_eq!(client.require_management_key().unwrap(), "your_management_key");
    client.clear_management_key();
    assert!(matches!(client.require_management_key(), Err(OpenRouterError::KeyNotConfigured)));
}

#[test]
fn client_builder_keeps_given_settings() {
    let client = OpenRouterClient::builder()
        .base_url("http://localhost:8080/api/v1")
        .api_key("a")
        .management_key("m")
        .x_title("my-openrouter-app")
        .build()
        .unwrap();
    assert_eq!(client.base_url(), "http://localhost:8080/api/v1");
    assert_eq!(client.require_api_key().unwrap(), "a");
    assert_eq!(client.require_management_key().unwrap(), "m");
    let plan = client.responses().create_request(&ResponsesRequest::new("m", serde_json::Value::Null)).unwrap();
    assert_eq!(plan.headers[1], ("X-Title".to_string(), "my-openrouter-app".to_string()));
    let empty_categories = OpenRouterClient::builder().api_key("a").app_categories(&[]).build().unwrap();
    let plan = empty_categories.responses().create_request(&ResponsesRequest::new("m", serde_json::Value::Null)).unwrap();
    assert!(plan.headers.iter().all(|(name, _)| name != "X-OpenRouter-Categories"));
}

#[test]
fn client_builder_uses_given_http_client() {
    let http = reqwest::Client::builder().build().expect("http client");
    let client = OpenRouterClient::builder().http_client(http).api_key("k").build().expect("build");
    assert_eq!(client.require_api_key().unwrap(), "k");
    let _shared: &reqwest::Client = client.http_client();
}

#[test]
fn client_clone_then_set_and_clear_management_key_restores_settings() {
    let original = OpenRouterClient::builder().api_key("a").build().unwrap();
    let mut c = original.clone();
    c.set_management_key("m");
    assert_eq!(c.require_management_key().unwrap(), "m");
    c.clear_management_key();
    assert!(matches!(c.require_management_key(), Err(OpenRouterError::KeyNotConfigured)));
    assert_eq!(c.require_api_key().unwrap(), "a");
    assert_eq!(c.base_url(), original.base_url());
    c.clear_api_key();
    c.clear_api_key();
    assert!(matches!(c.require_api_key(), Err(OpenRouterError::KeyNotConfigured)));
}
