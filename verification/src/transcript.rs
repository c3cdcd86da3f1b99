//! The terminal bridge's bookkeeping: how the stream of events becomes a
//! transcript. Rendering the transcript is outside work; how it grows and
//! coalesces is verified.

use vstd::prelude::*;
use crate::json::rendered;
use crate::events::{SystemEvent, SystemEventV, SessionState, StateV};
use crate::protocol::seq_view;

verus! {

/// One line of the conversation view.
#[derive(Debug)]
pub enum ChatLine {
    User(String),
    Model(String),
    Thought(String),
    System(String),
    Error(String),
    Tool(String),
}

pub enum ChatLineV {
    User(Seq<char>),
    Model(Seq<char>),
    Thought(Seq<char>),
    System(Seq<char>),
    Error(Seq<char>),
    Tool(Seq<char>),
}

impl View for ChatLine {
    type V = ChatLineV;

    open spec fn view(&self) -> ChatLineV {
        match *self {
            ChatLine::User(s) => ChatLineV::User(s@),
            ChatLine::Model(s) => ChatLineV::Model(s@),
            ChatLine::Thought(s) => ChatLineV::Thought(s@),
            ChatLine::System(s) => ChatLineV::System(s@),
            ChatLine::Error(s) => ChatLineV::Error(s@),
            ChatLine::Tool(s) => ChatLineV::Tool(s@),
        }
    }
}

/// The session snapshot an event carries.
pub open spec fn state_of_event(e: SystemEventV) -> StateV {
    match e {
        SystemEventV::Text(_, s) => s,
        SystemEventV::Thought(_, s) => s,
        SystemEventV::ToolCall { state, .. } => state,
        SystemEventV::RequestApproval { state, .. } => state,
        SystemEventV::Info(_, s) => s,
        SystemEventV::Error(_, s) => s,
        SystemEventV::Ready(s) => s,
        SystemEventV::Debug(_, s) => s,
    }
}

/// How one event grows the transcript: consecutive model text coalesces into
/// one line, as do consecutive thoughts; a tool call and an error each add a
/// line; an approval request adds the prompt and the instructions; readiness
/// and debug blobs add nothing.
pub open spec fn spec_apply(lines: Seq<ChatLineV>, e: SystemEventV) -> Seq<ChatLineV> {
    match e {
        SystemEventV::Text(t, _) => {
            if lines.len() > 0 && lines.last() is Model {
                lines.update(lines.len() - 1, ChatLineV::Model(lines.last()->Model_0 + t))
            } else {
                lines.push(ChatLineV::Model(t))
            }
        }
        SystemEventV::Thought(t, _) => {
            if lines.len() > 0 && lines.last() is Thought {
                lines.update(lines.len() - 1, ChatLineV::Thought(lines.last()->Thought_0 + t))
            } else {
                lines.push(ChatLineV::Thought(t))
            }
        }
        SystemEventV::ToolCall { name, args, .. } => lines.push(ChatLineV::Tool(
            "Calling "@ + name + " with "@ + rendered(args),
        )),
        SystemEventV::RequestApproval { description, .. } => lines
            .push(ChatLineV::System("APPROVAL REQUIRED: "@ + description))
            .push(ChatLineV::System("Type 'y' to approve, 'n' to reject, or any instruction to steer."@)),
        SystemEventV::Info(t, _) => lines.push(ChatLineV::System(t)),
        SystemEventV::Error(t, _) => lines.push(ChatLineV::Error(t)),
        SystemEventV::Ready(_) => lines,
        SystemEventV::Debug(_, _) => lines,
    }
}

/// Folds one event into the transcript and hands back the session snapshot
/// it carried.
pub fn apply_event(lines: &mut Vec<ChatLine>, e: &SystemEvent) -> (state: SessionState)
    ensures
        seq_view(final(lines)@) == spec_apply(seq_view(old(lines)@), e@),
        state@ == state_of_event(e@),
{
    let ghost l0 = seq_view(lines@);
    match e {
        SystemEvent::Text(t, s) => {
            let n = lines.len();
            let coalesce = if n > 0 {
                matches!(&lines[n - 1], ChatLine::Model(_))
            } else {
                false
            };
            if coalesce {
                if let ChatLine::Model(last) = &mut lines[n - 1] {
                    last.append(t.as_str());
                }
                proof {
                    assert(seq_view(lines@) =~= spec_apply(l0, e@));
                }
            } else {
                lines.push(ChatLine::Model(t.clone()));
                proof {
                    assert(seq_view(lines@) =~= spec_apply(l0, e@));
                }
            }
            s.clone()
        }
        SystemEvent::Thought(t, s) => {
            let n = lines.len();
            let coalesce = if n > 0 {
                matches!(&lines[n - 1], ChatLine::Thought(_))
            } else {
                false
            };
            if coalesce {
                if let ChatLine::Thought(last) = &mut lines[n - 1] {
                    last.append(t.as_str());
                }
                proof {
                    assert(seq_view(lines@) =~= spec_apply(l0, e@));
                }
            } else {
                lines.push(ChatLine::Thought(t.clone()));
                proof {
                    assert(seq_view(lines@) =~= spec_apply(l0, e@));
                }
            }
            s.clone()
        }
        SystemEvent::ToolCall { name, args, state } => {
            let mut line = "Calling ".to_owned();
            line.append(name.as_str());
            line.append(" with ");
            let args_text = args.to_text();
            line.append(args_text.as_str());
            lines.push(ChatLine::Tool(line));
            proof {
                assert(seq_view(lines@) =~= spec_apply(l0, e@));
            }
            state.clone()
        }
        SystemEvent::RequestApproval { description, state } => {
            let mut line = "APPROVAL REQUIRED: ".to_owned();
            line.append(description.as_str());
            lines.push(ChatLine::System(line));
            lines.push(ChatLine::System(
                "Type 'y' to approve, 'n' to reject, or any instruction to steer.".to_owned(),
            ));
            proof {
                assert(seq_view(lines@) =~= spec_apply(l0, e@));
            }
            state.clone()
        }
        SystemEvent::Info(t, s) => {
            lines.push(ChatLine::System(t.clone()));
            proof {
                assert(seq_view(lines@) =~= spec_apply(l0, e@));
            }
            s.clone()
        }
        SystemEvent::Error(t, s) => {
            lines.push(ChatLine::Error(t.clone()));
            proof {
                assert(seq_view(lines@) =~= spec_apply(l0, e@));
            }
            s.clone()
        }
        SystemEvent::Ready(s) => s.clone(),
        SystemEvent::Debug(_, s) => s.clone(),
    }
}

/// Adds the line the operator just typed.
pub fn push_user_line(lines: &mut Vec<ChatLine>, text: String)
    ensures
        seq_view(final(lines)@) == seq_view(old(lines)@).push(ChatLineV::User(text@)),
{
    let ghost l0 = seq_view(lines@);
    lines.push(ChatLine::User(text));
    proof {
        assert(seq_view(lines@) =~= l0.push(lines@.last()@));
    }
}

} // verus!
