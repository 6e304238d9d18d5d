//! Text parts.

use openai::stream::{joined, PartKey, TextParts, TextStream};

#[test]
fn parts_join_in_document_order() {
    let mut parts = TextParts::new();
    parts.insert(PartKey { output_index: 1, stream: TextStream::Output, part_index: 0 }, "second".to_owned());
    parts.insert(PartKey { output_index: 0, stream: TextStream::Output, part_index: 1 }, "first ".to_owned());
    parts.insert(
        PartKey { output_index: 0, stream: TextStream::ReasoningSummary, part_index: 0 },
        "thinking".to_owned(),
    );
    assert_eq!(joined(&parts, TextStream::Output), "first second");
    assert_eq!(joined(&parts, TextStream::ReasoningSummary), "thinking");
}
