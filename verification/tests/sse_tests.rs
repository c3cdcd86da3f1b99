use chitti::sse::{SseDecoder, parse_u32_str, read_event};
use chitti::adapter::to_brain_event;
use chitti::events::BrainEvent;
use chitti::json::{Json, parse_json};
use chitti::protocol::{InteractionEvent, InteractionOutput};

#[test]
fn test_sse_tolerance() {
    let mut decoder = SseDecoder::new();
    let bytes = b"data: {\"event_type\":\"content.delta\",\"delta\":{\"type\":\"text\",\"text\":\"A\"}}\ndata: {bad json}\ndata: {\"event_type\":\"interaction.complete\",\"interaction\":{\"id\":\"x\",\"model\":\"m\",\"status\":\"ok\"}}\ndata: [DONE]\n";
    let events = decoder.push_bytes(bytes);
    assert_eq!(events.len(), 2);
    let brain: Vec<BrainEvent> = events.into_iter().map(to_brain_event).collect();
    match &brain[0] {
        BrainEvent::TextDelta(t) => assert_eq!(t, "A"),
        other => panic!("expected a text delta, got {:?}", other),
    }
    match &brain[1] {
        BrainEvent::Complete { interaction_id } => {
            assert_eq!(interaction_id, &Some("x".to_string()));
        }
        other => panic!("expected completion, got {:?}", other),
    }
    assert!(decoder.is_done());
    // Everything after the terminator is ignored.
    let after = decoder.push_bytes(b"data: {\"event_type\":\"interaction.status_update\",\"status\":\"late\"}\n");
    assert!(after.is_empty());
}

#[test]
fn test_sse_lines_split_across_chunks() {
    let mut decoder = SseDecoder::new();
    let first = decoder.push_bytes(b"data: {\"event_type\":\"content.delta\",\"del");
    assert!(first.is_empty());
    let second = decoder.push_bytes(b"ta\":{\"type\":\"text\",\"text\":\"hi\"}}\n");
    assert_eq!(second.len(), 1);
    match &second[0] {
        InteractionEvent::ContentDelta { delta, .. } => match delta {
            InteractionOutput::Text { text } => assert_eq!(text, "hi"),
            other => panic!("expected text, got {:?}", other),
        },
        other => panic!("expected a delta, got {:?}", other),
    }
}

#[test]
fn test_sse_ignores_unframed_lines() {
    let mut decoder = SseDecoder::new();
    let events = decoder.push_bytes(b"event: noise\n: comment\n\n");
    assert!(events.is_empty());
    assert!(!decoder.is_done());
}

#[test]
fn test_event_reader_shapes() {
    let doc = parse_json(b"{\"event_type\":\"interaction.status_update\",\"status\":\"running\"}").unwrap();
    match read_event(&doc) {
        Some(InteractionEvent::StatusUpdate { status }) => assert_eq!(status, "running"),
        other => panic!("expected a status update, got {:?}", other),
    }

    let doc = parse_json(b"{\"event_type\":\"weather.report\"}").unwrap();
    assert!(matches!(read_event(&doc), Some(InteractionEvent::Other)));

    // A known tag with a malformed body fails, so the line gets skipped.
    let doc = parse_json(b"{\"event_type\":\"interaction.complete\",\"interaction\":{\"id\":\"x\"}}").unwrap();
    assert!(read_event(&doc).is_none());

    let doc = parse_json(b"{\"event_type\":\"content.start\",\"index\":2,\"content\":{\"type\":\"text\"}}").unwrap();
    match read_event(&doc) {
        Some(InteractionEvent::ContentStart { index, content }) => {
            assert_eq!(index, 2);
            assert_eq!(content.content_type, "text");
        }
        other => panic!("expected a content start, got {:?}", other),
    }

    let doc = parse_json(b"{\"event_type\":\"content.delta\",\"delta\":{\"type\":\"function_call\",\"name\":\"f\",\"id\":\"c9\",\"arguments\":{\"x\":1}}}").unwrap();
    match read_event(&doc) {
        Some(InteractionEvent::ContentDelta { delta: InteractionOutput::FunctionCall(c), .. }) => {
            assert_eq!(c.name, "f");
            assert_eq!(c.id, Some("c9".to_string()));
            assert_eq!(c.args.to_text(), "{\"x\":1}");
        }
        other => panic!("expected a function call, got {:?}", other),
    }
}

#[test]
fn test_thought_deltas_are_told_apart() {
    let doc = parse_json(b"{\"event_type\":\"content.delta\",\"delta\":{\"type\":\"content_delta\",\"text\":\"mull\",\"thought\":true}}").unwrap();
    let ev = read_event(&doc).unwrap();
    match to_brain_event(ev) {
        BrainEvent::ThoughtDelta(t) => assert_eq!(t, "mull"),
        other => panic!("expected a thought delta, got {:?}", other),
    }
    let doc = parse_json(b"{\"event_type\":\"content.delta\",\"delta\":{\"type\":\"content_delta\",\"text\":\"say\"}}").unwrap();
    let ev = read_event(&doc).unwrap();
    match to_brain_event(ev) {
        BrainEvent::TextDelta(t) => assert_eq!(t, "say"),
        other => panic!("expected a text delta, got {:?}", other),
    }
}

#[test]
fn test_parse_u32_str_reads_plain_indices() {
    assert_eq!(parse_u32_str("0"), Some(0));
    assert_eq!(parse_u32_str("4294967295"), Some(u32::MAX));
    assert_eq!(parse_u32_str("4294967296"), None);
    assert_eq!(parse_u32_str(""), None);
    assert_eq!(parse_u32_str("12a"), None);
    assert_eq!(parse_u32_str("-3"), None);
}

#[test]
fn test_parse_json_boundary() {
    assert!(parse_json(b"{not json").is_none());
    let doc = parse_json(b"{\"a\":[1,2.5,null,true,\"s\"]}").unwrap();
    // The tree renders back out with numbers kept as written.
    assert_eq!(doc.to_text(), "{\"a\":[1,2.5,null,true,\"s\"]}");
    match doc {
        Json::Obj(_) => {}
        other => panic!("expected an object, got {:?}", other),
    }
}
