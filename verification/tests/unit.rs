use openrouter_rs::error::OpenRouterError;

#[test]
fn dummy_test() {}

#[test]
fn test_error_variants_are_distinct() {
    let e = OpenRouterError::KeyNotConfigured;
    assert!(matches!(e, OpenRouterError::KeyNotConfigured));
}
