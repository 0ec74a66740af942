use simple_json_server::registry::Datum;
use simple_json_server::{Actor, Dispatch, ExampleActor, Serve, TlsConfig, Transport};

#[test]
fn example_actor_starts_with_zero_counter() {
    let actor = ExampleActor::new("Demo".to_string());
    assert_eq!(actor.name, "Demo");
    assert_eq!(actor.counter, 0);
}

#[test]
fn example_add_returns_literal_sum() {
    let actor = ExampleActor::new("Demo".to_string());
    assert_eq!(actor.dispatch("add", r#"{"a":5,"b":3}"#), "8");
    assert_eq!(actor.dispatch("add", r#"{"a":-7,"b":3}"#), "-4");
    assert_eq!(actor.dispatch("add", r#"{"a":2147483647,"b":1}"#), "2147483648");
    assert_eq!(actor.add(2147483647, 2147483647), 4294967294);
}

#[test]
fn example_methods_answer() {
    let mut actor = ExampleActor::new("Demo".to_string());
    actor.counter = -12;
    assert_eq!(actor.dispatch("get_counter", "{}"), "-12");
    assert_eq!(actor.dispatch("greet", r#"{"name":"Ann"}"#), r#""Hello Ann, I'm Demo!""#);
    assert_eq!(actor.dispatch("is_even", r#"{"number":-4}"#), "true");
    assert_eq!(actor.dispatch("is_even", r#"{"number":7}"#), "false");
    assert_eq!(actor.dispatch("info", "{}"), r#""ExampleActor 'Demo' with counter -12""#);
    assert_eq!(actor.dispatch("ping", "{}"), r#""pong""#);
}

#[test]
fn every_parameterless_method_accepts_empty_object() {
    let actor = ExampleActor::new("Demo".to_string());
    for decl in actor.methods().iter().filter(|d| d.params.is_empty()) {
        let answer = actor.dispatch(&decl.name, "{}");
        assert!(!answer.contains("Unknown method"), "{}", answer);
        assert!(!answer.contains("Failed to deserialize"), "{}", answer);
    }
}

#[test]
fn unknown_method_is_named_in_the_answer() {
    let actor = ExampleActor::new("Demo".to_string());
    let answer = actor.dispatch("calculate_area", "{}");
    assert!(answer.contains("Unknown method: calculate_area"));
    assert_eq!(actor.dispatch("say \"hi\"", "{}"), r#""Unknown method: say \"hi\"""#);
}

#[test]
fn invalid_json_is_reported_for_any_method() {
    let actor = ExampleActor::new("Demo".to_string());
    for name in ["add", "ping", "nothing"] {
        let answer = actor.dispatch(name, "{invalid");
        assert!(answer.starts_with("\"Failed to parse JSON: "), "{}", answer);
    }
}

#[test]
fn parameter_errors_name_the_field() {
    let actor = ExampleActor::new("Demo".to_string());
    assert_eq!(
        actor.dispatch("greet", "{}"),
        r#""Failed to deserialize parameters for greet: missing field `name`""#
    );
    assert_eq!(
        actor.dispatch("greet", r#"{"name":5}"#),
        r#""Failed to deserialize parameters for greet: invalid type for `name`, expected String""#
    );
    assert_eq!(
        actor.dispatch("is_even", r#"{"number":3000000000}"#),
        r#""Failed to deserialize parameters for is_even: invalid type for `number`, expected i32""#
    );
    assert_eq!(
        actor.dispatch("ping", "[]"),
        r#""Failed to deserialize parameters for ping: invalid type: expected an object of named parameters""#
    );
}

#[test]
fn extra_members_are_ignored() {
    let actor = ExampleActor::new("Demo".to_string());
    assert_eq!(actor.dispatch("add", r#"{"a":1,"b":2,"c":"x"}"#), "3");
}

#[test]
fn repeated_calls_give_identical_answers() {
    let actor = ExampleActor::new("Demo".to_string());
    let first = actor.dispatch("info", "{}");
    let second = actor.dispatch("info", "{}");
    assert_eq!(first, second);
    assert_eq!(first, r#""ExampleActor 'Demo' with counter 0""#);
}

#[test]
fn invoke_runs_the_method_at_its_position() {
    let actor = ExampleActor::new("Demo".to_string());
    match actor.invoke(0, vec![Datum::Int(40), Datum::Int(2)]) {
        Datum::Int(n) => assert_eq!(n, 42),
        other => panic!("unexpected {:?}", other),
    }
}

#[test]
fn serving_takes_the_actor() {
    let actor = ExampleActor::new("Served".to_string());
    let server = actor.create_wss(8443, TlsConfig::new("cert.pem", "key.pem")).expect("distinct names");
    assert_eq!(server.port(), 8443);
    assert_eq!(server.transport(), Transport::WebSocket);
    assert_eq!(server.tls().as_ref().map(|t| t.cert_path.as_str()), Some("cert.pem"));
    let (service, port, transport, tls) = server.into_parts();
    assert_eq!((port, transport), (8443, Transport::WebSocket));
    assert!(tls.is_some());
    assert_eq!(service.dispatch("info", "{}"), r#""ExampleActor 'Served' with counter 0""#);
    let server = ExampleActor::new("Plain".to_string()).create(8080).expect("distinct names");
    assert_eq!(server.transport(), Transport::Http);
    assert!(server.tls().is_none());
    let server = ExampleActor::new("W".to_string()).create_options(9000, true, None).expect("distinct names");
    assert_eq!(server.transport(), Transport::WebSocket);
    let server = ExampleActor::new("H".to_string()).create_https(9443, TlsConfig::new("c", "k")).expect("distinct names");
    assert_eq!(server.transport(), Transport::Http);
    let server = ExampleActor::new("S".to_string()).create_ws(9001).expect("distinct names");
    assert_eq!(server.port(), 9001);
}

#[test]
fn documentation_of_the_example_actor_lists_its_results() {
    let actor = ExampleActor::new("Demo".to_string());
    let doc = simple_json_server::docs::generate_actor_documentation("ExampleActor", &actor.methods());
    assert!(doc.contains("| Method | Parameters | Return Type |\n"));
    assert!(doc.contains("| `add` | `a`: `i32`, `b`: `i32` | `i64` |\n"));
    assert!(doc.contains("| `is_even` | `number`: `i32` | `bool` |\n"));
    assert!(doc.contains("# Method `ping`\n\nSimple ping method with no parameters\n\n- **Parameters:** None\n\n- **Returns:** `String`\n\n"));
}
