use openrouter_rs::json::JsonMap;

#[test]
fn json_map_insert_get_replace() {
    let mut m = JsonMap::new();
    assert!(m.is_empty());
    assert_eq!(m.insert("a".to_string(), serde_json::Value::from(1)), None);
    assert_eq!(m.insert("b".to_string(), serde_json::Value::from("x")), None);
    assert_eq!(m.insert("a".to_string(), serde_json::Value::from(2)), Some(serde_json::Value::from(1)));
    assert_eq!(m.len(), 2);
    assert_eq!(m.get("a"), Some(serde_json::Value::from(2)));
    assert!(m.contains_key("b"));
    assert!(!m.contains_key("c"));
    assert_eq!(m.get("c"), None);
    let pairs = m.to_pairs();
    assert_eq!(pairs[0].0, "a");
    assert_eq!(pairs[1].0, "b");
    let value = m.clone().to_json_value();
    assert_eq!(value["a"], 2);
    assert_eq!(value["b"], "x");
}
