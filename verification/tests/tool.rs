use openrouter_rs::error::OpenRouterError;
use openrouter_rs::tool::{create_tool, FunctionDefinition, ServerTool, Tool, ToolBuilder, ToolChoice, ToolDefinition};

fn json(text: &str) -> serde_json::Value {
    serde_json::from_str(text).expect("test JSON should parse")
}

#[test]
fn test_tool_creation() {
    let tool = Tool::builder()
        .name("test_function")
        .description("A test function")
        .parameters(json(r#"{"type": "object"}"#))
        .build()
        .unwrap();

    assert_eq!(tool.tool_type, "function");
    assert_eq!(tool.function.name, "test_function");
    assert_eq!(tool.function.description, "A test function");
}

#[test]
fn test_tool_choice_variants() {
    let auto = ToolChoice::auto();
    let none = ToolChoice::none();
    let required = ToolChoice::required();
    let specific = ToolChoice::force_tool("my_function");

    assert_eq!(serde_json::to_string(&auto.to_json_value()).unwrap(), r#""auto""#);
    assert_eq!(serde_json::to_string(&none.to_json_value()).unwrap(), r#""none""#);
    assert_eq!(serde_json::to_string(&required.to_json_value()).unwrap(), r#""required""#);

    if let ToolChoice::Specific(spec) = specific {
        assert_eq!(spec.function.name, "my_function");
    } else {
        panic!("Expected specific tool choice");
    }
}

#[test]
fn test_create_tool_helper() {
    let tool = create_tool(
        "weather",
        "Get weather",
        json(r#"{"location": {"type": "string"}}"#),
        &["location"],
    );

    assert_eq!(tool.function.name, "weather");
    assert_eq!(tool.function.description, "Get weather");

    let params = &tool.function.parameters;
    assert_eq!(params["type"], "object");
    assert_eq!(params["required"], serde_json::Value::from(vec!["location"]));
}

#[test]
fn test_tool_definition_serialization() {
    let tool = Tool::builder()
        .name("test_function")
        .description("A test function")
        .parameters(json(
            r#"{"type": "object", "properties": {"param1": {"type": "string"}}, "required": ["param1"]}"#,
        ))
        .build()
        .unwrap();

    let serialized = serde_json::to_string(&tool.to_json_value()).unwrap();
    assert!(serialized.contains("test_function"));
    assert!(serialized.contains("A test function"));

    let deserialized = Tool::from_json_value(&json(&serialized)).unwrap();
    assert_eq!(deserialized.function.name, "test_function");
    assert_eq!(deserialized.function.description, "A test function");
}

#[test]
fn test_tool_choice_serialization() {
    let auto_choice = ToolChoice::auto();
    let none_choice = ToolChoice::none();
    let required_choice = ToolChoice::required();

    assert_eq!(serde_json::to_string(&auto_choice.to_json_value()).unwrap(), r#""auto""#);
    assert_eq!(serde_json::to_string(&none_choice.to_json_value()).unwrap(), r#""none""#);
    assert_eq!(
        serde_json::to_string(&required_choice.to_json_value()).unwrap(),
        r#""required""#
    );

    let specific_choice = ToolChoice::force_tool("my_function");
    let serialized = serde_json::to_string(&specific_choice.to_json_value()).unwrap();
    assert!(serialized.contains("my_function"));
    assert!(serialized.contains("function"));
}

#[test]
fn test_tool_helper_function() {
    let tool = create_tool(
        "calculator",
        "Perform calculations",
        json(r#"{"operation": {"type": "string"}, "a": {"type": "number"}, "b": {"type": "number"}}"#),
        &["operation", "a", "b"],
    );

    assert_eq!(tool.function.name, "calculator");
    assert_eq!(tool.function.description, "Perform calculations");

    let params = &tool.function.parameters;
    assert_eq!(params["type"], "object");
    assert_eq!(params["required"], serde_json::Value::from(vec!["operation", "a", "b"]));
    assert!(params["properties"]["operation"].is_object());
}

#[test]
fn tool_builder_without_name_fails_with_config_error() {
    let result = Tool::builder().description("no name").build();
    match result {
        Err(OpenRouterError::ConfigError(message)) => assert_eq!(message, "Tool name is required"),
        other => panic!("expected a configuration error, got {other:?}"),
    }
}

#[test]
fn tool_builder_defaults() {
    let tool = Tool::builder().name("bare").build().unwrap();
    assert_eq!(tool.tool_type, "function");
    assert_eq!(tool.function.description, "");
    assert!(tool.function.parameters.is_null());
    let typed = Tool::builder().name("bare").tool_type("custom").build().unwrap();
    assert_eq!(typed.tool_type, "custom");
}

#[test]
fn tool_builder_parameters_json_rejects_invalid_text() {
    let mut builder = Tool::builder();
    builder.name("t");
    assert!(matches!(
        builder.parameters_json("{not json"),
        Err(OpenRouterError::Serialization(_))
    ));
    builder.parameters_json(r#"{"type":"object"}"#).unwrap();
    let tool = builder.build().unwrap();
    assert_eq!(tool.function.parameters["type"], "object");
}

#[test]
fn tool_builder_parameters_from_takes_converted_value() {
    let mut builder = Tool::builder();
    builder.name("t");
    builder.parameters_from(serde_json::to_value(vec![1, 2])).unwrap();
    let tool = builder.build().unwrap();
    assert_eq!(tool.function.parameters, serde_json::Value::from(vec![1, 2]));
}

#[test]
fn function_definition_builder_names_first_missing_field() {
    let mut builder = FunctionDefinition::builder();
    match builder.build() {
        Err(OpenRouterError::UninitializedField(f)) => assert_eq!(f, "name"),
        other => panic!("unexpected {other:?}"),
    }
    builder.name("f");
    match builder.build() {
        Err(OpenRouterError::UninitializedField(f)) => assert_eq!(f, "description"),
        other => panic!("unexpected {other:?}"),
    }
    builder.description("d");
    match builder.build() {
        Err(OpenRouterError::UninitializedField(f)) => assert_eq!(f, "parameters"),
        other => panic!("unexpected {other:?}"),
    }
    builder.parameters(json(r#"{"type":"object"}"#));
    let def = builder.build().unwrap();
    assert_eq!(def.name, "f");
    assert_eq!(def.description, "d");
    assert_eq!(def.to_json_value()["parameters"]["type"], "object");
}

#[test]
fn tool_definition_round_trip() {
    let tool = Tool::new("f", "d", json(r#"{"type":"object"}"#));
    let def = ToolDefinition::from(tool);
    assert_eq!(def.as_function().expect("function tool").function.name, "f");
    assert!(def.as_server().is_none());

    let server = ToolDefinition::from(ServerTool::openrouter_web_search());
    assert!(server.as_function().is_none());
    assert_eq!(server.as_server().expect("server tool").tool_type, "openrouter:web_search");
}

#[test]
fn server_tool_option_inserts_and_replaces() {
    let tool = ServerTool::openrouter_web_search()
        .option("max_results", serde_json::Value::from(5u64))
        .option("engine", serde_json::Value::from("exa"))
        .option("max_results", serde_json::Value::from(10u64));
    let params = tool.parameters.as_ref().expect("parameters should exist");
    assert_eq!(params.len(), 2);
    assert_eq!(params.get("max_results"), Some(serde_json::Value::from(10u64)));
    assert_eq!(params.get("engine"), Some(serde_json::Value::from("exa")));

    let value = tool.to_json_value();
    assert_eq!(value["type"], "openrouter:web_search");
    assert_eq!(value["parameters"]["max_results"], 10);

    let bare = ServerTool::new("openrouter:web_search").to_json_value();
    assert!(bare.get("parameters").is_none());
}

#[test]
fn force_tool_serializes_as_function_object() {
    let value = ToolChoice::force_tool("lookup").to_json_value();
    assert_eq!(value["type"], "function");
    assert_eq!(value["function"]["name"], "lookup");
}

#[test]
fn tool_decoding_requires_function_fields() {
    assert!(Tool::from_json_value(&json(r#"{"type":"function"}"#)).is_none());
    assert!(Tool::from_json_value(
        &json(r#"{"type":"function","function":{"name":"f","description":"d"}}"#)
    )
    .is_none());
    let tool = Tool::from_json_value(&json(
        r#"{"type":"function","function":{"name":"f","description":"d","parameters":null}}"#,
    ))
    .unwrap();
    assert!(tool.function.parameters.is_null());
}

#[test]
fn tool_builder_setter_order_does_not_matter() {
    let mut b1 = Tool::builder();
    b1.name("n").description("d").parameters(json(r#"{"type":"object"}"#)).tool_type("function");
    let mut b2 = Tool::builder();
    b2.tool_type("function").parameters(json(r#"{"type":"object"}"#)).description("d").name("n");
    let t1 = b1.build().unwrap();
    let t2 = b2.build().unwrap();
    assert_eq!(t1.tool_type, t2.tool_type);
    assert_eq!(t1.function.name, t2.function.name);
    assert_eq!(t1.function.description, t2.function.description);
    assert_eq!(t1.function.parameters, t2.function.parameters);
}

#[test]
fn web_search_server_tool_json_form() {
    let d = ToolDefinition::from(
        ServerTool::openrouter_web_search().option("max_total_results", serde_json::Value::from(10)),
    );
    let s = d.as_server().expect("server tool");
    assert_eq!(s.tool_type, "openrouter:web_search");
    assert_eq!(s.parameters.as_ref().unwrap().get("max_total_results"), Some(serde_json::Value::from(10)));
    assert!(d.as_function().is_none());
    assert_eq!(
        d.to_json_value(),
        json(r#"{"type":"openrouter:web_search","parameters":{"max_total_results":10}}"#)
    );
}

fn apply_setter_call(b: &mut ToolBuilder, call: usize) {
    match call {
        0 => {
            b.tool_type("custom");
        }
        1 => {
            b.name("n");
        }
        2 => {
            b.description("d");
        }
        _ => {
            b.parameters(json(r#"{"type":"object"}"#));
        }
    }
}

fn orders_of(calls: &[usize]) -> Vec<Vec<usize>> {
    if calls.is_empty() {
        return vec![Vec::new()];
    }
    let mut out = Vec::new();
    for i in 0..calls.len() {
        let mut rest = calls.to_vec();
        let first = rest.remove(i);
        for mut tail in orders_of(&rest) {
            tail.insert(0, first);
            out.push(tail);
        }
    }
    out
}

fn built_fields(order: &[usize]) -> Option<(String, String, String, serde_json::Value)> {
    let mut b = Tool::builder();
    for &call in order {
        apply_setter_call(&mut b, call);
    }
    b.build()
        .ok()
        .map(|t| (t.tool_type, t.function.name, t.function.description, t.function.parameters))
}

#[test]
fn tool_builder_every_setter_order_builds_the_same_tool() {
    for mask in 0..16usize {
        let calls: Vec<usize> = (0..4).filter(|k| mask & (1 << k) != 0).collect();
        let orders = orders_of(&calls);
        let expected = built_fields(&orders[0]);
        assert_eq!(expected.is_some(), calls.contains(&1));
        for order in &orders {
            assert_eq!(built_fields(order), expected, "order {order:?}");
        }
    }
}
