use smart_contract::ContractState;
use smart_contract::ErrorReason;
use smart_contract::Event;
use smart_contract::RequestInput;
use smart_contract::ResultValue;
use smart_contract::event_line;
use smart_contract::handle_request;
use smart_contract::response_line;
use smart_contract::state_json;
use smart_contract::u64_to_string;

#[test]
fn decimal_formatting_is_exact() {
    assert_eq!(u64_to_string(0), "0");
    assert_eq!(u64_to_string(7), "7");
    assert_eq!(u64_to_string(10), "10");
    assert_eq!(u64_to_string(12345), "12345");
    assert_eq!(u64_to_string(u64::MAX), "18446744073709551615");
}

#[test]
fn state_json_is_exact() {
    assert_eq!(state_json(&ContractState { counter: 0 }), "{\"counter\":0}");
    assert_eq!(state_json(&ContractState { counter: 42 }), "{\"counter\":42}");
}

#[test]
fn response_line_with_null_result() {
    let line = response_line(&ResultValue::Null, &ContractState { counter: 6 });
    assert_eq!(line, "{\"result\":null,\"state\":{\"counter\":6}}");
}

#[test]
fn response_line_with_method_list() {
    let line = response_line(
        &ResultValue::MethodNames(vec!["initialize", "increment"]),
        &ContractState { counter: 7 },
    );
    assert_eq!(line, "{\"result\":[\"initialize\",\"increment\"],\"state\":{\"counter\":7}}");
}

#[test]
fn event_lines_are_exact() {
    let initialized = Event::Initialized(ContractState { counter: 0 });
    assert_eq!(event_line(&initialized), "{\"event\":\"Initialized\",\"data\":{\"counter\":0}}");

    let incremented = Event::CounterIncremented(ContractState { counter: 6 });
    assert_eq!(
        event_line(&incremented),
        "{\"event\":\"CounterIncremented\",\"data\":{\"counter\":6}}"
    );

    let unknown = Event::Error(ErrorReason::UnknownMethod);
    assert_eq!(event_line(&unknown), "{\"event\":\"Error\",\"data\":\"Unknown method\"}");

    let invalid = Event::Error(ErrorReason::InvalidJsonInput);
    assert_eq!(event_line(&invalid), "{\"event\":\"Error\",\"data\":\"Invalid JSON input\"}");

    let missing = Event::Error(ErrorReason::NoInputReceived);
    assert_eq!(event_line(&missing), "{\"event\":\"Error\",\"data\":\"No input received\"}");
}

#[test]
fn response_line_parses_back_as_json() {
    let line = response_line(&ResultValue::Null, &ContractState { counter: 6 });
    let value: serde_json::Value = serde_json::from_str(&line).unwrap();
    assert!(value.get("result").unwrap().is_null());
    assert_eq!(value.get("state").unwrap().get("counter").unwrap().as_u64(), Some(6));
}

#[test]
fn method_list_response_parses_back_as_json() {
    let line = response_line(
        &ResultValue::MethodNames(vec!["initialize", "increment"]),
        &ContractState { counter: 3 },
    );
    let value: serde_json::Value = serde_json::from_str(&line).unwrap();
    let names = value.get("result").unwrap().as_array().unwrap();
    assert_eq!(names.len(), 2);
    assert_eq!(names[0].as_str(), Some("initialize"));
    assert_eq!(names[1].as_str(), Some("increment"));
    assert_eq!(value.get("state").unwrap().get("counter").unwrap().as_u64(), Some(3));
}

#[test]
fn event_line_parses_back_as_json() {
    let event = Event::CounterIncremented(ContractState { counter: 9 });
    let line = event_line(&event);
    let value: serde_json::Value = serde_json::from_str(&line).unwrap();
    assert_eq!(value.get("event").unwrap().as_str(), Some("CounterIncremented"));
    assert_eq!(value.get("data").unwrap().get("counter").unwrap().as_u64(), Some(9));
}

#[test]
fn largest_counter_survives_framing_and_parsing() {
    let line = response_line(&ResultValue::Null, &ContractState { counter: u64::MAX });
    let value: serde_json::Value = serde_json::from_str(&line).unwrap();
    assert_eq!(
        value.get("state").unwrap().get("counter").unwrap().as_u64(),
        Some(u64::MAX)
    );
}

#[test]
fn handled_request_frames_to_the_expected_lines() {
    let out = handle_request(RequestInput::Valid {
        method: "increment".to_owned(),
        state: Some(ContractState { counter: 41 }),
    });
    assert_eq!(
        response_line(&out.result, &out.state),
        "{\"result\":null,\"state\":{\"counter\":42}}"
    );
    assert_eq!(
        event_line(&out.event.unwrap()),
        "{\"event\":\"CounterIncremented\",\"data\":{\"counter\":42}}"
    );
    assert_eq!(out.exit_code, 0);
}
