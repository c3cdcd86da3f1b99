//! The brain adapter: collapses the provider's streaming events into the
//! conductor's vocabulary, and builds the request a turn context stands for.

use vstd::prelude::*;
use crate::protocol::{InteractionEvent, EventV, InteractionOutput, OutputV, InteractionResponse,
    ResponseV, Tool, ThinkingLevel, GenerationConfig, seq_view};
use crate::wire::{InteractionRequest, ReqV};
use crate::events::{BrainEvent, BrainEventV, TurnContext};
use crate::text::{ascii_lower, to_ascii_lower};
use crate::json::str_eq;

verus! {

/// An id, or empty text where none was given.
pub open spec fn id_or_empty(id: Option<Seq<char>>) -> Seq<char> {
    match id {
        Some(s) => s,
        None => Seq::empty(),
    }
}

/// How one streaming event reads as a brain event: text and thought deltas
/// pass through, a function call becomes a tool call whose missing id reads
/// as empty, completion carries the interaction id, and every other shape
/// reads as an id-less completion.
pub open spec fn brain_stream_event(e: EventV) -> BrainEventV {
    match e {
        EventV::ContentDelta { delta, index } => match delta {
            OutputV::Text { text } => BrainEventV::TextDelta(text),
            OutputV::ContentDelta { text, thought } => if thought == Some(true) {
                BrainEventV::ThoughtDelta(text)
            } else {
                BrainEventV::TextDelta(text)
            },
            OutputV::FunctionCall(c) => BrainEventV::ToolCall {
                name: c.name,
                id: id_or_empty(c.id),
                args: c.args,
            },
            _ => BrainEventV::Complete { interaction_id: None },
        },
        EventV::InteractionComplete { interaction } => BrainEventV::Complete {
            interaction_id: interaction.id,
        },
        _ => BrainEventV::Complete { interaction_id: None },
    }
}

/// Translates one streaming event for the conductor.
pub fn to_brain_event(e: InteractionEvent) -> (r: BrainEvent)
    ensures
        r@ == brain_stream_event(e@),
{
    match e {
        InteractionEvent::ContentDelta { delta, index } => match delta {
            InteractionOutput::Text { text } => BrainEvent::TextDelta(text),
            InteractionOutput::ContentDelta { text, thought } => {
                if thought == Some(true) {
                    BrainEvent::ThoughtDelta(text)
                } else {
                    BrainEvent::TextDelta(text)
                }
            }
            InteractionOutput::FunctionCall(c) => {
                let id = match c.id {
                    Some(s) => s,
                    None => String::new(),
                };
                BrainEvent::ToolCall { name: c.name, id, args: c.args }
            }
            _ => BrainEvent::Complete { interaction_id: None },
        },
        InteractionEvent::InteractionComplete { interaction } => BrainEvent::Complete {
            interaction_id: interaction.id,
        },
        _ => BrainEvent::Complete { interaction_id: None },
    }
}

/// What one finished output contributes when a whole response is flattened
/// into the event sequence: deltas and calls, with everything else dropped.
pub open spec fn output_brain_events(o: OutputV) -> Seq<BrainEventV> {
    match o {
        OutputV::Text { text } => seq![BrainEventV::TextDelta(text)],
        OutputV::ContentDelta { text, thought } => if thought == Some(true) {
            seq![BrainEventV::ThoughtDelta(text)]
        } else {
            seq![BrainEventV::TextDelta(text)]
        },
        OutputV::FunctionCall(c) => seq![
            BrainEventV::ToolCall { name: c.name, id: id_or_empty(c.id), args: c.args },
        ],
        _ => Seq::empty(),
    }
}

pub open spec fn outputs_brain_events(os: Seq<OutputV>) -> Seq<BrainEventV>
    decreases os.len(),
{
    if os.len() == 0 {
        Seq::empty()
    } else {
        outputs_brain_events(os.drop_last()) + output_brain_events(os.last())
    }
}

/// A non-streaming response flattened into the same event sequence, closed
/// by a completion that carries the response id.
pub open spec fn flatten_response(r: ResponseV) -> Seq<BrainEventV> {
    outputs_brain_events(r.outputs) + seq![BrainEventV::Complete { interaction_id: r.id }]
}

/// Flattens a non-streaming response for the conductor.
pub fn response_brain_events(r: InteractionResponse) -> (events: Vec<BrainEvent>)
    ensures
        seq_view(events@) == flatten_response(r@),
{
    let ghost rv = r@;
    let mut events: Vec<BrainEvent> = Vec::new();
    proof {
        assert(rv.outputs.take(0) =~= Seq::<OutputV>::empty());
        assert(seq_view(events@) =~= Seq::<BrainEventV>::empty());
    }
    let mut i: usize = 0;
    let n = r.outputs.len();
    let mut outputs = r.outputs;
    while i < n
        invariant
            i <= n,
            n == outputs@.len(),
            seq_view(outputs@) == rv.outputs,
            seq_view(events@) == outputs_brain_events(rv.outputs.take(i as int)),
        decreases n - i,
    {
        let ghost e0 = seq_view(events@);
        proof {
            assert(rv.outputs.take(i + 1).drop_last() =~= rv.outputs.take(i as int));
            assert(rv.outputs.take(i + 1).last() == rv.outputs[i as int]);
        }
        match &outputs[i] {
            InteractionOutput::Text { text } => {
                events.push(BrainEvent::TextDelta(text.clone()));
                proof {
                    assert(seq_view(events@) =~= e0 + output_brain_events(rv.outputs[i as int]));
                }
            }
            InteractionOutput::ContentDelta { text, thought } => {
                if *thought == Some(true) {
                    events.push(BrainEvent::ThoughtDelta(text.clone()));
                } else {
                    events.push(BrainEvent::TextDelta(text.clone()));
                }
                proof {
                    assert(seq_view(events@) =~= e0 + output_brain_events(rv.outputs[i as int]));
                }
            }
            InteractionOutput::FunctionCall(c) => {
                let id = match &c.id {
                    Some(s) => s.clone(),
                    None => String::new(),
                };
                events.push(BrainEvent::ToolCall {
                    name: c.name.clone(),
                    id,
                    args: c.args.clone(),
                });
                proof {
                    assert(seq_view(events@) =~= e0 + output_brain_events(rv.outputs[i as int]));
                }
            }
            _ => {
                proof {
                    assert(seq_view(events@) =~= e0 + output_brain_events(rv.outputs[i as int]));
                }
            }
        }
        i += 1;
    }
    proof {
        assert(rv.outputs.take(n as int) =~= rv.outputs);
    }
    let id = match r.id {
        Some(s) => Some(s),
        None => None,
    };
    let ghost e1 = seq_view(events@);
    events.push(BrainEvent::Complete { interaction_id: id });
    proof {
        assert(seq_view(events@) =~= e1 + seq![BrainEventV::Complete { interaction_id: rv.id }]);
    }
    events
}

/// How a thinking-level word maps, case-insensitively: minimal, low and
/// medium read as themselves, everything else as high.
pub open spec fn level_of_text(s: Seq<char>) -> ThinkingLevel {
    let low = ascii_lower(s);
    if low == "minimal"@ {
        ThinkingLevel::Minimal
    } else if low == "low"@ {
        ThinkingLevel::Low
    } else if low == "medium"@ {
        ThinkingLevel::Medium
    } else {
        ThinkingLevel::High
    }
}

/// Reads a thinking-level word.
pub fn parse_thinking_level(s: &str) -> (r: ThinkingLevel)
    ensures
        r == level_of_text(s@),
{
    let low = to_ascii_lower(s);
    if str_eq(low.as_str(), "minimal") {
        ThinkingLevel::Minimal
    } else if str_eq(low.as_str(), "low") {
        ThinkingLevel::Low
    } else if str_eq(low.as_str(), "medium") {
        ThinkingLevel::Medium
    } else {
        ThinkingLevel::High
    }
}

/// The request one turn context stands for: its input and continuation id as
/// they are, the session's model, the mapped thinking level, the registered
/// tools when there are any, storage off, and the stream flag only when
/// streaming.
pub open spec fn spec_turn_request(ctx: crate::events::CtxV, model: Seq<char>, tools: Seq<crate::protocol::ToolV>) -> ReqV {
    ReqV {
        model: Some(model),
        cached_content: None,
        agent: None,
        input: ctx.input,
        system_instruction: None,
        previous_interaction_id: ctx.previous_interaction_id,
        tools: if tools.len() > 0 { Some(tools) } else { None },
        tool_choice: None,
        generation_config: Some(crate::protocol::GenV {
            thinking_level: Some(level_of_text(ctx.thinking_level)),
            temperature: None,
            max_output_tokens: None,
            response_mime_type: None,
            response_schema: None,
        }),
        safety_settings: None,
        store: Some(false),
        background: None,
        stream: if ctx.streaming { Some(true) } else { None },
    }
}

/// Builds the request for one turn.
pub fn build_turn_request(ctx: &TurnContext, model: &String, tools: Vec<Tool>) -> (r: InteractionRequest)
    ensures
        r@ == spec_turn_request(ctx@, model@, seq_view(tools@)),
{
    let level = parse_thinking_level(ctx.thinking_level.as_str());
    let mut config = GenerationConfig::empty();
    config.thinking_level = Some(level);
    let tools_field: Option<Vec<Tool>> = if tools.len() > 0 {
        Some(tools)
    } else {
        None
    };
    let r = InteractionRequest {
        model: Some(model.clone()),
        cached_content: None,
        agent: None,
        input: ctx.input.clone(),
        system_instruction: None,
        previous_interaction_id: crate::protocol::clone_opt_string(&ctx.previous_interaction_id),
        tools: tools_field,
        tool_choice: None,
        generation_config: Some(config),
        safety_settings: None,
        store: Some(false),
        background: None,
        stream: if ctx.streaming { Some(true) } else { None },
    };
    r
}

} // verus!
