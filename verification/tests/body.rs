use chat_bridge::chat::{build_chat_request, ChatRequest, Message, Role};
use chat_bridge::json_body::{frame_body, frame_message, serialize, write_temperature};
use serde_json::Value;

fn parsed(text: &str) -> Value {
    serde_json::from_str(text).expect("the body is JSON")
}

#[test]
fn temperature_is_written_in_tenths() {
    assert_eq!(write_temperature(0), "0.0");
    assert_eq!(write_temperature(7), "0.7");
    assert_eq!(write_temperature(9), "0.9");
    assert_eq!(write_temperature(10), "1.0");
    assert_eq!(write_temperature(20), "2.0");
    assert_eq!(write_temperature(99), "9.9");
    assert_eq!(write_temperature(100), "10.0");
    assert_eq!(write_temperature(255), "25.5");
}

#[test]
fn temperature_text_is_the_json_number() {
    for tenths in 0..=255u8 {
        let number = f64::from(tenths) / 10.0;
        assert_eq!(write_temperature(tenths), serde_json::to_string(&number).unwrap());
    }
}

#[test]
fn message_frame_puts_role_before_content() {
    assert_eq!(
        frame_message(Role::User, "\"hi\""),
        "{\"role\":\"user\",\"content\":\"hi\"}"
    );
    assert_eq!(
        frame_message(Role::System, "\"\""),
        "{\"role\":\"system\",\"content\":\"\"}"
    );
    assert_eq!(
        frame_message(Role::Assistant, "\"a\\nb\""),
        "{\"role\":\"assistant\",\"content\":\"a\\nb\"}"
    );
}

#[test]
fn body_frame_joins_messages_with_commas() {
    let none: Vec<String> = Vec::new();
    assert_eq!(
        frame_body("\"m\"", &none, 7),
        "{\"model\":\"m\",\"messages\":[],\"temperature\":0.7}"
    );
    let one = vec!["{}".to_string()];
    assert_eq!(
        frame_body("\"m\"", &one, 10),
        "{\"model\":\"m\",\"messages\":[{}],\"temperature\":1.0}"
    );
    let three = vec!["1".to_string(), "2".to_string(), "3".to_string()];
    assert_eq!(
        frame_body("\"m\"", &three, 123),
        "{\"model\":\"m\",\"messages\":[1,2,3],\"temperature\":12.3}"
    );
}

#[test]
fn body_text_of_plain_input() {
    let body = serialize(&build_chat_request("What's 2+2?"));
    assert_eq!(
        body,
        "{\"model\":\"gpt-4o-mini\",\"messages\":[{\"role\":\"system\",\"content\":\"You are a helpful assistant. Answer concisely.\"},{\"role\":\"user\",\"content\":\"You are a helpful assistant. Answer concisely. \\n\\nUser: What's 2+2?\"}],\"temperature\":0.7}"
    );
}

#[test]
fn body_has_exactly_three_keys() {
    let inputs = ["", "hello", "quote \" backslash \\ newline \n tab \t", "\u{0}\u{7f}\u{e9}\u{1f600}"];
    for input in inputs {
        let value = parsed(&serialize(&build_chat_request(input)));
        let object = value.as_object().expect("an object");
        let mut keys: Vec<&str> = object.keys().map(|k| k.as_str()).collect();
        keys.sort();
        assert_eq!(keys, vec!["messages", "model", "temperature"]);
        assert_eq!(object["model"], Value::from("gpt-4o-mini"));
        assert_eq!(object["temperature"].as_f64(), Some(0.7));
    }
}

#[test]
fn body_messages_are_system_then_user() {
    let inputs = ["", "hello", "a \"quoted\" \\ word", "line\nbreak\r\n", "\u{1}\u{8}\u{c}"];
    for input in inputs {
        let value = parsed(&serialize(&build_chat_request(input)));
        let messages = value["messages"].as_array().expect("an array");
        assert_eq!(messages.len(), 2);
        for message in messages {
            let mut keys: Vec<&str> =
                message.as_object().unwrap().keys().map(|k| k.as_str()).collect();
            keys.sort();
            assert_eq!(keys, vec!["content", "role"]);
        }
        assert_eq!(messages[0]["role"], Value::from("system"));
        assert_eq!(
            messages[0]["content"],
            Value::from("You are a helpful assistant. Answer concisely.")
        );
        assert_eq!(messages[1]["role"], Value::from("user"));
        assert_eq!(
            messages[1]["content"],
            Value::from(format!(
                "You are a helpful assistant. Answer concisely. \n\nUser: {}",
                input
            ))
        );
    }
}

#[test]
fn string_values_are_written_as_json_literals() {
    let req = ChatRequest {
        model: "m\"1".to_string(),
        messages: vec![Message { role: Role::Assistant, content: "a\\b\n".to_string() }],
        temperature_tenths: 15,
    };
    assert_eq!(
        serialize(&req),
        "{\"model\":\"m\\\"1\",\"messages\":[{\"role\":\"assistant\",\"content\":\"a\\\\b\\n\"}],\"temperature\":1.5}"
    );
}

#[test]
fn plain_string_values_are_quoted() {
    let req = ChatRequest {
        model: "m".to_string(),
        messages: vec![Message { role: Role::User, content: "hi".to_string() }],
        temperature_tenths: 0,
    };
    assert_eq!(
        serialize(&req),
        "{\"model\":\"m\",\"messages\":[{\"role\":\"user\",\"content\":\"hi\"}],\"temperature\":0.0}"
    );
}

#[test]
fn request_without_messages_serializes() {
    let req = ChatRequest { model: "m".to_string(), messages: Vec::new(), temperature_tenths: 7 };
    let value = parsed(&serialize(&req));
    assert_eq!(value["messages"].as_array().unwrap().len(), 0);
}

#[test]
fn general_request_round_trips_through_a_parser() {
    let contents = ["first", "second \"x\"", "", "\u{2028}\t"];
    let roles = [Role::System, Role::User, Role::Assistant, Role::User];
    let names = ["system", "user", "assistant", "user"];
    let mut messages = Vec::new();
    for i in 0..contents.len() {
        messages.push(Message { role: roles[i], content: contents[i].to_string() });
    }
    let req = ChatRequest { model: "some/model".to_string(), messages, temperature_tenths: 20 };
    let value = parsed(&serialize(&req));
    assert_eq!(value["model"], Value::from("some/model"));
    assert_eq!(value["temperature"].as_f64(), Some(2.0));
    let got = value["messages"].as_array().unwrap();
    assert_eq!(got.len(), contents.len());
    for i in 0..contents.len() {
        assert_eq!(got[i]["role"], Value::from(names[i]));
        assert_eq!(got[i]["content"], Value::from(contents[i]));
    }
}
