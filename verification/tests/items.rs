//! Output items.

use openai::content::ReplayedReasoning;
use openai::items::{OutputItem, ReasoningItem};
use openai::json::Json;
use openai::stream::StreamEvent;

/// A JSON text as the library reads it.
fn json(text: &str) -> Json {
    Json::parse(text).unwrap()
}

#[test]
fn a_reasoning_item_is_replayable_only_with_its_encrypted_content() {
    let with = ReasoningItem {
        id: "rs_1".to_owned(),
        encrypted_content: Some("opaque".to_owned()),
        summary: String::new(),
    };
    assert_eq!(
        with.replayable(),
        Some(ReplayedReasoning { id: "rs_1".to_owned(), encrypted_content: "opaque".to_owned() })
    );
    let without = ReasoningItem { id: "rs_1".to_owned(), encrypted_content: None, summary: String::new() };
    assert_eq!(without.replayable(), None);

    let event = StreamEvent::from_json(&json(r#"{
        "type": "response.output_item.done", "output_index": 0,
        "item": {"type": "reasoning", "id": "rs_1", "summary": [], "encrypted_content": ""}
    }"#))
    .unwrap();
    let StreamEvent::OutputItemDone { item: OutputItem::Reasoning(item), .. } = event else {
        panic!("expected a reasoning item");
    };
    assert_eq!(item.encrypted_content, None, "an empty payload is no payload");
}
