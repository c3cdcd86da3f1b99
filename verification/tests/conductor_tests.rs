use chitti::conductor::{Conductor, IdleOutcome, StreamEnd, ApprovalOutcome, DispatchStep, Phase};
use chitti::events::{BrainEvent, SystemEvent};
use chitti::json::Json;
use chitti::protocol::{InteractionInput, InteractionPart, Role};

fn new_conductor() -> Conductor {
    Conductor::new(
        "test-model".to_string(),
        false,
        "/tmp".to_string(),
        "main".to_string(),
    )
}

fn run_simple_turn(c: &mut Conductor, prompt: &str, reply: &str, id: &str) {
    match c.on_user_input_idle(prompt.to_string()) {
        IdleOutcome::StartTurn => {}
        _ => panic!("expected a turn to start"),
    }
    let _ctx = c.begin_turn();
    c.on_brain_event(BrainEvent::TextDelta(reply.to_string()));
    c.on_brain_event(BrainEvent::Complete {
        interaction_id: Some(id.to_string()),
    });
    match c.on_stream_end() {
        StreamEnd::Done(SystemEvent::Ready(_)) => {}
        _ => panic!("expected the turn to finish"),
    }
}

#[test]
fn test_conductor_state_persistence() {
    let mut c = new_conductor();
    run_simple_turn(&mut c, "ping", "hello", "id_1");
    assert_eq!(c.previous_interaction_id, Some("id_1".to_string()));

    match c.on_user_input_idle("pong".to_string()) {
        IdleOutcome::StartTurn => {}
        _ => panic!("expected a turn to start"),
    }
    let ctx = c.begin_turn();
    assert_eq!(ctx.previous_interaction_id, Some("id_1".to_string()));
}

fn start_tool_turn(c: &mut Conductor) {
    match c.on_user_input_idle("start".to_string()) {
        IdleOutcome::StartTurn => {}
        _ => panic!("expected a turn to start"),
    }
    let _ctx = c.begin_turn();
    c.on_brain_event(BrainEvent::ToolCall {
        name: "test_tool".to_string(),
        id: "call_1".to_string(),
        args: Json::Obj(vec![]),
    });
    c.on_brain_event(BrainEvent::Complete {
        interaction_id: Some("id_1".to_string()),
    });
    match c.on_stream_end() {
        StreamEnd::Approvals(SystemEvent::RequestApproval { .. }) => {}
        _ => panic!("expected an approval request"),
    }
}

#[test]
fn test_conductor_steering_injection() {
    let mut c = new_conductor();
    start_tool_turn(&mut c);

    match c.on_approval_input("actually do X".to_string()) {
        ApprovalOutcome::Steered(SystemEvent::Text(note, _)) => {
            assert_eq!(note, "[Steering noted. Waiting for tool approval/rejection...]");
        }
        _ => panic!("expected the message to be captured as steering"),
    }
    let (name, id) = match c.on_approval_input("y".to_string()) {
        ApprovalOutcome::Approved { name, id, .. } => (name, id),
        _ => panic!("expected approval"),
    };
    assert_eq!(name, "test_tool");
    assert_eq!(id, "call_1");
    match c.on_tool_outcome(Ok(Json::Obj(vec![(
        "ok".to_string(),
        Json::Bool(true),
    )]))) {
        DispatchStep::InputReady => {}
        _ => panic!("expected the turn input to be ready"),
    }

    let ctx = c.begin_turn();
    // Memory on: the input rides alone, with the response first and the
    // steering as the trailing text part.
    match &ctx.input {
        InteractionInput::Parts(parts) => {
            assert_eq!(parts.len(), 2);
            match &parts[0] {
                InteractionPart::FunctionResponse(f) => {
                    assert_eq!(f.id, Some("call_1".to_string()));
                    assert_eq!(f.name, "test_tool");
                }
                _ => panic!("expected the tool response first"),
            }
            match &parts[1] {
                InteractionPart::Text { text } => assert_eq!(text, "actually do X"),
                _ => panic!("expected the steering text to trail"),
            }
        }
        _ => panic!("expected a part list"),
    }
    assert_eq!(ctx.previous_interaction_id, Some("id_1".to_string()));
}

#[test]
fn test_conductor_private_mode_stateless_replay() {
    let mut c = new_conductor();
    c.memory_enabled = false;
    start_tool_turn(&mut c);

    match c.on_approval_input("actually do X".to_string()) {
        ApprovalOutcome::Steered(_) => {}
        _ => panic!("expected steering"),
    }
    match c.on_approval_input("y".to_string()) {
        ApprovalOutcome::Approved { .. } => {}
        _ => panic!("expected approval"),
    }
    match c.on_tool_outcome(Ok(Json::Obj(vec![]))) {
        DispatchStep::InputReady => {}
        _ => panic!("expected the turn input to be ready"),
    }

    let ctx = c.begin_turn();
    assert_eq!(ctx.previous_interaction_id, None);
    match &ctx.input {
        InteractionInput::Turns(turns) => {
            assert_eq!(turns.len(), 3);
            assert_eq!(turns[0].role, Role::User);
            assert_eq!(turns[1].role, Role::Model);
            assert_eq!(turns[2].role, Role::User);
            // The third turn carries the tool result and the steering.
            let parts = &turns[2].content.0;
            assert_eq!(parts.len(), 2);
            assert!(matches!(&parts[0], InteractionPart::FunctionResponse(_)));
            match &parts[1] {
                InteractionPart::Text { text } => assert_eq!(text, "actually do X"),
                _ => panic!("expected the steering text"),
            }
        }
        _ => panic!("expected a replayed history"),
    }
}

#[test]
fn test_conductor_clear_command() {
    let mut c = new_conductor();
    c.previous_interaction_id = Some("existing".to_string());
    let events = match c.on_user_input_idle("/clear".to_string()) {
        IdleOutcome::Reply(e) => vec![e],
        _ => panic!("expected one reply"),
    };
    assert_eq!(events.len(), 1);
    match &events[0] {
        SystemEvent::Info(text, _) => assert_eq!(text, "Context cleared."),
        _ => panic!("expected an informational event"),
    }
    assert_eq!(c.previous_interaction_id, None);
}

#[test]
fn test_conductor_tool_rejection() {
    let mut c = new_conductor();
    start_tool_turn(&mut c);

    match c.on_approval_input("n".to_string()) {
        ApprovalOutcome::Rejected(DispatchStep::InputReady) => {}
        _ => panic!("expected the rejection to finish the approvals"),
    }
    let ctx = c.begin_turn();
    match &ctx.input {
        InteractionInput::Parts(parts) => {
            assert_eq!(parts.len(), 1);
            match &parts[0] {
                InteractionPart::FunctionResponse(f) => {
                    assert_eq!(f.id, Some("call_1".to_string()));
                    assert_eq!(
                        f.response.to_text(),
                        "{\"error\":\"User rejected tool execution.\"}"
                    );
                }
                _ => panic!("expected the synthesized response"),
            }
        }
        _ => panic!("expected a part list"),
    }
    // The same body marks an error result for the model.
    let r = chitti::tools::error_result("User rejected tool execution.".to_string());
    assert!(r.is_error);
    assert_eq!(r.output.to_text(), "{\"error\":\"User rejected tool execution.\"}");
}

#[test]
fn test_conductor_help_command() {
    let mut c = new_conductor();
    match c.on_user_input_idle("/".to_string()) {
        IdleOutcome::Reply(SystemEvent::Info(text, _)) => {
            assert!(text.contains("Available Commands"));
        }
        _ => panic!("expected the help text"),
    }
}

#[test]
fn test_commands_toggle_session_state() {
    let mut c = new_conductor();
    assert!(c.streaming);
    match c.on_user_input_idle("/stream".to_string()) {
        IdleOutcome::Reply(SystemEvent::Info(text, state)) => {
            assert_eq!(text, "Streaming is now OFF");
            assert!(!state.streaming);
        }
        _ => panic!("expected a reply"),
    }
    assert!(!c.streaming);

    match c.on_user_input_idle("/thinking low".to_string()) {
        IdleOutcome::Reply(SystemEvent::Info(text, _)) => {
            assert_eq!(text, "Thinking level set to low");
        }
        _ => panic!("expected a reply"),
    }
    assert_eq!(c.thinking_level, "low");

    c.previous_interaction_id = Some("ctx".to_string());
    match c.on_user_input_idle("/memory".to_string()) {
        IdleOutcome::Reply(SystemEvent::Info(text, _)) => {
            assert_eq!(text, "Session memory is now OFF");
        }
        _ => panic!("expected a reply"),
    }
    assert!(!c.memory_enabled);
    assert_eq!(c.previous_interaction_id, None);

    match c.on_user_input_idle("/bogus".to_string()) {
        IdleOutcome::Reply(SystemEvent::Error(text, _)) => {
            assert_eq!(text, "Unknown command: /bogus");
        }
        _ => panic!("expected an error"),
    }
    match c.on_user_input_idle("/exit".to_string()) {
        IdleOutcome::Exit => {}
        _ => panic!("expected exit"),
    }
}

#[test]
fn test_transport_error_clears_context() {
    let mut c = new_conductor();
    run_simple_turn(&mut c, "ping", "hello", "id_9");
    assert_eq!(c.previous_interaction_id, Some("id_9".to_string()));

    match c.on_user_input_idle("again".to_string()) {
        IdleOutcome::StartTurn => {}
        _ => panic!("expected a turn to start"),
    }
    let _ctx = c.begin_turn();
    let ev = c.on_turn_error("connection reset".to_string());
    match ev {
        SystemEvent::Error(text, _) => {
            assert_eq!(text, "Conversation Error: connection reset");
        }
        _ => panic!("expected an error event"),
    }
    assert_eq!(c.previous_interaction_id, None);
    assert_eq!(c.phase, Phase::Idle);
}

#[test]
fn test_steering_prefixes_next_prompt_with_memory_on() {
    let mut c = new_conductor();
    start_tool_turn(&mut c);
    match c.on_approval_input("remember the tone".to_string()) {
        ApprovalOutcome::Steered(_) => {}
        _ => panic!("expected steering"),
    }
    match c.on_approval_input("no".to_string()) {
        ApprovalOutcome::Rejected(DispatchStep::InputReady) => {}
        _ => panic!("expected rejection"),
    }
    // The rejected turn's input carries the steering once, trailing the
    // response; drive it through and confirm it is not applied again.
    let ctx = c.begin_turn();
    match &ctx.input {
        InteractionInput::Parts(parts) => {
            assert_eq!(parts.len(), 2);
            match &parts[1] {
                InteractionPart::Text { text } => assert_eq!(text, "remember the tone"),
                _ => panic!("expected the steering text"),
            }
        }
        _ => panic!("expected a part list"),
    }
    c.on_brain_event(BrainEvent::TextDelta("done".to_string()));
    c.on_brain_event(BrainEvent::Complete { interaction_id: None });
    match c.on_stream_end() {
        StreamEnd::Done(_) => {}
        _ => panic!("expected the turn to finish"),
    }
    match c.on_user_input_idle("next prompt".to_string()) {
        IdleOutcome::StartTurn => {}
        _ => panic!("expected a turn to start"),
    }
    let ctx2 = c.begin_turn();
    match &ctx2.input {
        InteractionInput::Text(t) => assert_eq!(t, "next prompt"),
        _ => panic!("expected a plain prompt"),
    }
}
