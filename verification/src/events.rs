//! The event vocabulary: what the UI sends the conductor, what the conductor
//! sends the UI, and what the brain adapter hands the conductor.

use vstd::prelude::*;
use crate::json::{Json, JsonV};
use crate::protocol::{InteractionInput, InputV, opt_view};

verus! {

/// What the operator types: one line of input. Commands, prompts, approval
/// tokens and steering all arrive this way; the conductor classifies them.
#[derive(Debug, Clone)]
pub enum UserEvent {
    Input(String),
}

/// A snapshot of the session, attached to every event sent to the UI.
#[derive(Debug)]
pub struct SessionState {
    pub model: String,
    pub thinking_level: String,
    pub streaming: bool,
    pub memory_enabled: bool,
    pub dev_mode: bool,
    pub pwd: String,
    pub git_branch: String,
}

pub struct StateV {
    pub model: Seq<char>,
    pub thinking_level: Seq<char>,
    pub streaming: bool,
    pub memory_enabled: bool,
    pub dev_mode: bool,
    pub pwd: Seq<char>,
    pub git_branch: Seq<char>,
}

impl View for SessionState {
    type V = StateV;

    open spec fn view(&self) -> StateV {
        StateV {
            model: self.model@,
            thinking_level: self.thinking_level@,
            streaming: self.streaming,
            memory_enabled: self.memory_enabled,
            dev_mode: self.dev_mode,
            pwd: self.pwd@,
            git_branch: self.git_branch@,
        }
    }
}

impl Clone for SessionState {
    fn clone(&self) -> (r: Self)
        ensures
            r@ == self@,
    {
        SessionState {
            model: self.model.clone(),
            thinking_level: self.thinking_level.clone(),
            streaming: self.streaming,
            memory_enabled: self.memory_enabled,
            dev_mode: self.dev_mode,
            pwd: self.pwd.clone(),
            git_branch: self.git_branch.clone(),
        }
    }
}

/// What the conductor tells the UI.
#[derive(Debug)]
pub enum SystemEvent {
    Text(String, SessionState),
    Thought(String, SessionState),
    ToolCall { name: String, args: Json, state: SessionState },
    RequestApproval { description: String, state: SessionState },
    Info(String, SessionState),
    Error(String, SessionState),
    Ready(SessionState),
    Debug(String, SessionState),
}

pub enum SystemEventV {
    Text(Seq<char>, StateV),
    Thought(Seq<char>, StateV),
    ToolCall { name: Seq<char>, args: JsonV, state: StateV },
    RequestApproval { description: Seq<char>, state: StateV },
    Info(Seq<char>, StateV),
    Error(Seq<char>, StateV),
    Ready(StateV),
    Debug(Seq<char>, StateV),
}

impl View for SystemEvent {
    type V = SystemEventV;

    open spec fn view(&self) -> SystemEventV {
        match *self {
            SystemEvent::Text(t, s) => SystemEventV::Text(t@, s@),
            SystemEvent::Thought(t, s) => SystemEventV::Thought(t@, s@),
            SystemEvent::ToolCall { name, args, state } => SystemEventV::ToolCall {
                name: name@,
                args: args@,
                state: state@,
            },
            SystemEvent::RequestApproval { description, state } => SystemEventV::RequestApproval {
                description: description@,
                state: state@,
            },
            SystemEvent::Info(t, s) => SystemEventV::Info(t@, s@),
            SystemEvent::Error(t, s) => SystemEventV::Error(t@, s@),
            SystemEvent::Ready(s) => SystemEventV::Ready(s@),
            SystemEvent::Debug(t, s) => SystemEventV::Debug(t@, s@),
        }
    }
}

/// What the brain adapter hands the conductor, one event at a time.
#[derive(Debug)]
pub enum BrainEvent {
    TextDelta(String),
    ThoughtDelta(String),
    ThoughtSignature(String),
    ToolCall { name: String, id: String, args: Json },
    Complete { interaction_id: Option<String> },
    Error(String),
}

pub enum BrainEventV {
    TextDelta(Seq<char>),
    ThoughtDelta(Seq<char>),
    ThoughtSignature(Seq<char>),
    ToolCall { name: Seq<char>, id: Seq<char>, args: JsonV },
    Complete { interaction_id: Option<Seq<char>> },
    Error(Seq<char>),
}

impl View for BrainEvent {
    type V = BrainEventV;

    open spec fn view(&self) -> BrainEventV {
        match *self {
            BrainEvent::TextDelta(t) => BrainEventV::TextDelta(t@),
            BrainEvent::ThoughtDelta(t) => BrainEventV::ThoughtDelta(t@),
            BrainEvent::ThoughtSignature(t) => BrainEventV::ThoughtSignature(t@),
            BrainEvent::ToolCall { name, id, args } => BrainEventV::ToolCall {
                name: name@,
                id: id@,
                args: args@,
            },
            BrainEvent::Complete { interaction_id } => BrainEventV::Complete {
                interaction_id: opt_view(interaction_id),
            },
            BrainEvent::Error(t) => BrainEventV::Error(t@),
        }
    }
}

/// Everything the brain needs to run one turn.
#[derive(Debug)]
pub struct TurnContext {
    pub input: InteractionInput,
    pub previous_interaction_id: Option<String>,
    pub streaming: bool,
    pub thinking_level: String,
    pub memory_enabled: bool,
    pub dev_mode: bool,
}

pub struct CtxV {
    pub input: InputV,
    pub previous_interaction_id: Option<Seq<char>>,
    pub streaming: bool,
    pub thinking_level: Seq<char>,
    pub memory_enabled: bool,
    pub dev_mode: bool,
}

impl View for TurnContext {
    type V = CtxV;

    open spec fn view(&self) -> CtxV {
        CtxV {
            input: self.input@,
            previous_interaction_id: opt_view(self.previous_interaction_id),
            streaming: self.streaming,
            thinking_level: self.thinking_level@,
            memory_enabled: self.memory_enabled,
            dev_mode: self.dev_mode,
        }
    }
}

} // verus!
