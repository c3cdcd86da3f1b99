//! The whole verified pipeline driven end to end: raw stream bytes through
//! the decoder, the adapter's translation, and the conductor's turn loop.

use chitti::adapter::{response_brain_events, to_brain_event};
use chitti::conductor::{Conductor, IdleOutcome, StreamEnd};
use chitti::events::SystemEvent;
use chitti::json::parse_json;
use chitti::protocol::InteractionInput;
use chitti::sse::{read_response, SseDecoder};

fn new_conductor() -> Conductor {
    Conductor::new("m".to_string(), false, "/".to_string(), "main".to_string())
}

#[test]
fn test_stateful_turn_from_stream_bytes() {
    let mut c = new_conductor();
    match c.on_user_input_idle("ping".to_string()) {
        IdleOutcome::StartTurn => {}
        _ => panic!("expected a turn to start"),
    }
    let ctx = c.begin_turn();
    assert!(matches!(ctx.input, InteractionInput::Text(_)));

    let mut decoder = SseDecoder::new();
    let wire = b"data: {\"event_type\":\"content.delta\",\"delta\":{\"type\":\"text\",\"text\":\"hel\"}}\ndata: {\"event_type\":\"content.delta\",\"delta\":{\"type\":\"text\",\"text\":\"lo\"}}\ndata: {\"event_type\":\"interaction.complete\",\"interaction\":{\"id\":\"id_1\",\"model\":\"m\",\"status\":\"ok\"}}\ndata: [DONE]\n";
    let mut forwarded = Vec::new();
    for event in decoder.push_bytes(wire) {
        if let Some(out) = c.on_brain_event(to_brain_event(event)) {
            forwarded.push(out);
        }
    }
    assert!(decoder.is_done());
    assert_eq!(forwarded.len(), 2);
    assert!(matches!(&forwarded[0], SystemEvent::Text(t, _) if t == "hel"));
    match c.on_stream_end() {
        StreamEnd::Done(SystemEvent::Ready(_)) => {}
        _ => panic!("expected the turn to finish"),
    }
    assert_eq!(c.previous_interaction_id, Some("id_1".to_string()));

    match c.on_user_input_idle("pong".to_string()) {
        IdleOutcome::StartTurn => {}
        _ => panic!("expected a turn to start"),
    }
    let ctx2 = c.begin_turn();
    assert_eq!(ctx2.previous_interaction_id, Some("id_1".to_string()));
}

#[test]
fn test_flattened_response_matches_stream_shape() {
    let doc = parse_json(
        b"{\"id\":\"r7\",\"model\":\"m\",\"status\":\"ok\",\"outputs\":[{\"type\":\"text\",\"text\":\"A\"},{\"type\":\"function_call\",\"name\":\"f\",\"id\":\"c1\",\"arguments\":{}},{\"type\":\"thought\",\"signature\":\"s\"}]}",
    )
    .unwrap();
    let response = read_response(&doc).unwrap();
    let events = response_brain_events(response);
    // The text and the call flatten in order; the thought output is dropped,
    // and the completion closes the sequence with the response id.
    assert_eq!(events.len(), 3);
    assert!(matches!(&events[0], chitti::events::BrainEvent::TextDelta(t) if t == "A"));
    match &events[1] {
        chitti::events::BrainEvent::ToolCall { name, id, .. } => {
            assert_eq!(name, "f");
            assert_eq!(id, "c1");
        }
        other => panic!("expected a tool call, got {:?}", other),
    }
    match &events[2] {
        chitti::events::BrainEvent::Complete { interaction_id } => {
            assert_eq!(interaction_id, &Some("r7".to_string()));
        }
        other => panic!("expected completion, got {:?}", other),
    }
}
