//! Which fields of a frame are required.

use openai::json::Json;
use openai::stream::{FrameError, StreamEvent};

/// A JSON text as the library reads it.
fn json(text: &str) -> Json {
    Json::parse(text).unwrap()
}

#[test]
fn output_index_is_required_and_item_id_is_not() {
    let without_index = json(r#"{
        "type": "response.output_text.delta", "content_index": 0, "delta": "hi", "item_id": "msg_1"
    }"#);
    assert!(matches!(StreamEvent::from_json(&without_index), Err(FrameError::MissingField { field: "output_index" })));

    let without_item_id =
        json(r#"{"type": "response.output_text.delta", "output_index": 0, "content_index": 0, "delta": "hi"}"#);
    assert!(StreamEvent::from_json(&without_item_id).is_ok(), "item_id is optional on the wire");
}
