use serde_json::Value;
use yazelix_transport::limits::{MAX_RESPONSE_BYTES, SCHEMA_VERSION};
use yazelix_transport::response::{
    frame_response, oversized_response, response_for, Response, ResponseBody,
};
use yazelix_transport::wire::Failure;

fn encode(response: &Response) -> Vec<u8> {
    let mut object = serde_json::Map::new();
    object.insert("schema_version".to_string(), Value::from(SCHEMA_VERSION));
    object.insert("request_id".to_string(), Value::String(response.request_id.clone()));
    match &response.body {
        ResponseBody::Data(data) => {
            object.insert("status".to_string(), Value::String("ok".to_string()));
            object.insert("data".to_string(), data.clone());
        }
        ResponseBody::Error(failure) => {
            let mut error = serde_json::Map::new();
            error.insert("class".to_string(), Value::String(failure.class.to_string()));
            error.insert("message".to_string(), Value::String(failure.message.clone()));
            object.insert("status".to_string(), Value::String("error".to_string()));
            object.insert("error".to_string(), Value::Object(error));
        }
    }
    serde_json::to_vec(&Value::Object(object)).unwrap()
}

fn send(request_id: &str, result: Result<Value, Failure>) -> Value {
    let encoded = encode(&response_for(request_id.to_string(), result));
    let oversized = encode(&oversized_response(request_id.to_string()));
    let line = frame_response(encoded, oversized);
    assert!(line.len() <= MAX_RESPONSE_BYTES);
    assert_eq!(line.last(), Some(&b'\n'));
    serde_json::from_slice(&line).unwrap()
}

#[test]
fn data_response_is_sent_whole() {
    let mut data = serde_json::Map::new();
    data.insert("action".to_string(), Value::String("open".to_string()));
    let response = send("ok", Ok(Value::Object(data)));
    assert_eq!(response["status"], "ok");
    assert_eq!(response["request_id"], "ok");
    assert_eq!(response["schema_version"], 2);
    assert_eq!(response["data"]["action"], "open");
}

#[test]
fn error_response_carries_class_and_message() {
    let response = send("slow", Err(Failure::new("timeout", "editor handler timed out".to_string())));
    assert_eq!(response["status"], "error");
    assert_eq!(response["error"]["class"], "timeout");
    assert_eq!(response["error"]["message"], "editor handler timed out");
}

#[test]
fn large_response_is_replaced() {
    let response = send("large", Ok(Value::String("x".repeat(MAX_RESPONSE_BYTES))));
    assert_eq!(response["status"], "error");
    assert_eq!(response["request_id"], "large");
    assert_eq!(response["error"]["class"], "response_too_large");
    assert_eq!(response["error"]["message"], "response exceeds 64 KiB");
}

#[test]
fn response_of_exactly_the_limit_is_replaced() {
    let overhead = encode(&response_for("boundary".to_string(), Ok(Value::String(String::new())))).len();
    let data = Value::String("x".repeat(MAX_RESPONSE_BYTES - overhead));
    assert_eq!(encode(&response_for("boundary".to_string(), Ok(data.clone()))).len(), MAX_RESPONSE_BYTES);
    let response = send("boundary", Ok(data));
    assert_eq!(response["error"]["class"], "response_too_large");
}

#[test]
fn response_one_below_the_limit_is_kept() {
    let overhead = encode(&response_for("edge".to_string(), Ok(Value::String(String::new())))).len();
    let data = Value::String("x".repeat(MAX_RESPONSE_BYTES - overhead - 1));
    let response = send("edge", Ok(data));
    assert_eq!(response["status"], "ok");
}

#[test]
fn framing_appends_a_newline_only() {
    assert_eq!(frame_response(b"{}".to_vec(), b"big".to_vec()), b"{}\n".to_vec());
    assert_eq!(frame_response(vec![b'x'; MAX_RESPONSE_BYTES], b"big".to_vec()), b"big\n".to_vec());
    let fitting = vec![b'y'; MAX_RESPONSE_BYTES - 1];
    let mut expected = fitting.clone();
    expected.push(b'\n');
    assert_eq!(frame_response(fitting, b"big".to_vec()), expected);
}
