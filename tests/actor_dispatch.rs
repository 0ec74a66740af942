use simple_json_server::demo::CounterActor as TestActor;
use simple_json_server::Dispatch;

#[test]
fn test_actor_test_add_method() {
    let actor = TestActor::new();
    let message = r#"{"a": 5, "b": 3}"#;
    let result = actor.dispatch("add", message);
    assert_eq!(result, "8");
}

#[test]
fn test_actor_test_get_counter_method() {
    let actor = TestActor::new();
    let message = r#"{}"#;
    let result = actor.dispatch("get_counter", message);
    assert_eq!(result, "0");
}

#[test]
fn test_actor_test_greet_method() {
    let actor = TestActor::new();
    let message = r#"{"name": "World"}"#;
    let result = actor.dispatch("greet", message);
    assert_eq!(result, r#""Hello, World!""#);
}

#[test]
fn test_actor_test_no_params_method() {
    let actor = TestActor::new();
    let message = r#"{}"#;
    let result = actor.dispatch("no_params", message);
    assert_eq!(result, r#""No parameters needed""#);
}

#[test]
fn test_actor_test_unknown_method() {
    let actor = TestActor::new();
    let message = r#"{}"#;
    let result = actor.dispatch("unknown", message);
    assert!(result.contains("Unknown method"));
}

#[test]
fn test_actor_test_invalid_json() {
    let actor = TestActor::new();
    let message = r#"{"invalid": json"#;
    let result = actor.dispatch("invalid", message);
    assert!(result.contains("Failed to parse JSON"));
}

#[test]
fn test_private_method_not_accessible() {
    let actor = TestActor::new();
    let result = actor.dispatch("private_method", "{}");
    assert!(
        result.contains("Unknown method: private_method"),
        "Private methods should not be accessible via dispatch. Got: {}",
        result
    );
}

#[test]
fn test_sync_method_not_accessible() {
    let actor = TestActor::new();
    let result = actor.dispatch("sync_method", "{}");
    assert!(
        result.contains("Unknown method: sync_method"),
        "Non-async methods should not be accessible via dispatch. Got: {}",
        result
    );
}
