//! The conductor: the state machine that drives a conversation.
//!
//! Each suspension point of the turn loop is one step function here. The
//! surrounding runtime (UI channel, brain stream, tool execution) performs the
//! outside work and feeds what came back into the next step; every decision
//! in between is verified. The phases follow the turn loop: waiting for input,
//! about to open a turn, consuming the brain stream, gating a tool call on
//! approval, and dispatching an approved call.

use vstd::prelude::*;
use crate::json::{Json, JsonV, rendered, str_eq};
use crate::protocol::{InteractionPart, PartV, InteractionContent, InteractionTurn, TurnV,
    InteractionInput, InputV, Role, FunctionCall, CallV, FunctionResponse, RespV, seq_view,
    opt_view, clone_parts, clone_turns, clone_opt_string};
use crate::events::{SystemEvent, SystemEventV, BrainEvent, BrainEventV, TurnContext, CtxV,
    SessionState, StateV};
use crate::text::{spec_words, split_words, joined_lines, join_lines, ascii_lower, to_ascii_lower,
    str_starts_with, append_char};

verus! {

/// Where the conductor stands in the turn loop.
#[derive(Debug, Clone, Copy, PartialEq, Eq, Structural)]
pub enum Phase {
    /// Waiting for operator input.
    Idle,
    /// A conversation is under way and the next turn is ready to open.
    TurnStart,
    /// A brain stream is open; events are being consumed.
    Streaming,
    /// Stream done, a buffered tool call awaits approval or rejection.
    AwaitApproval,
    /// An approved tool call is being executed outside.
    Dispatching,
}

/// One buffered tool call, kept from stream end to response submission.
#[derive(Debug)]
pub struct PendingCall {
    pub name: String,
    pub id: String,
    pub args: Json,
}

pub struct PendingCallV {
    pub name: Seq<char>,
    pub id: Seq<char>,
    pub args: JsonV,
}

impl View for PendingCall {
    type V = PendingCallV;

    open spec fn view(&self) -> PendingCallV {
        PendingCallV { name: self.name@, id: self.id@, args: self.args@ }
    }
}

/// The conductor's whole state.
#[derive(Debug)]
pub struct Conductor {
    pub model: String,
    pub streaming: bool,
    pub thinking_level: String,
    pub memory_enabled: bool,
    pub dev_mode: bool,
    pub pwd: String,
    pub git_branch: String,
    pub previous_interaction_id: Option<String>,
    pub pending_steering: Vec<String>,
    pub phase: Phase,
    pub turn_history: Vec<InteractionTurn>,
    pub active_interaction_id: Option<String>,
    pub next_input: InteractionInput,
    pub model_response_parts: Vec<InteractionPart>,
    pub tool_calls: Vec<PendingCall>,
    pub results_parts: Vec<InteractionPart>,
    pub approval_index: usize,
}

pub struct ConductorV {
    pub model: Seq<char>,
    pub streaming: bool,
    pub thinking_level: Seq<char>,
    pub memory_enabled: bool,
    pub dev_mode: bool,
    pub pwd: Seq<char>,
    pub git_branch: Seq<char>,
    pub previous_interaction_id: Option<Seq<char>>,
    pub pending_steering: Seq<Seq<char>>,
    pub phase: Phase,
    pub turn_history: Seq<TurnV>,
    pub active_interaction_id: Option<Seq<char>>,
    pub next_input: InputV,
    pub model_response_parts: Seq<PartV>,
    pub tool_calls: Seq<PendingCallV>,
    pub results_parts: Seq<PartV>,
    pub approval_index: int,
}

impl View for Conductor {
    type V = ConductorV;

    open spec fn view(&self) -> ConductorV {
        ConductorV {
            model: self.model@,
            streaming: self.streaming,
            thinking_level: self.thinking_level@,
            memory_enabled: self.memory_enabled,
            dev_mode: self.dev_mode,
            pwd: self.pwd@,
            git_branch: self.git_branch@,
            previous_interaction_id: opt_view(self.previous_interaction_id),
            pending_steering: seq_view(self.pending_steering@),
            phase: self.phase,
            turn_history: seq_view(self.turn_history@),
            active_interaction_id: opt_view(self.active_interaction_id),
            next_input: self.next_input@,
            model_response_parts: seq_view(self.model_response_parts@),
            tool_calls: seq_view(self.tool_calls@),
            results_parts: seq_view(self.results_parts@),
            approval_index: self.approval_index as int,
        }
    }
}

/// The session snapshot attached to every event the conductor emits.
pub open spec fn snapshot_of(c: ConductorV) -> StateV {
    StateV {
        model: c.model,
        thinking_level: c.thinking_level,
        streaming: c.streaming,
        memory_enabled: c.memory_enabled,
        dev_mode: c.dev_mode,
        pwd: c.pwd,
        git_branch: c.git_branch,
    }
}

/// The response part that answers call `k` of `calls`, whatever the body.
pub open spec fn answers(part: PartV, call: PendingCallV) -> bool {
    &&& part is FunctionResponse
    &&& part->FunctionResponse_0.id == Some(call.id)
    &&& part->FunctionResponse_0.name == call.name
}

/// The conductor's internal consistency, kept by every step.
pub open spec fn wf(c: ConductorV) -> bool {
    &&& 0 <= c.approval_index <= c.tool_calls.len()
    &&& c.results_parts.len() == c.approval_index
    &&& forall|k: int| 0 <= k < c.approval_index ==> answers(#[trigger] c.results_parts[k], c.tool_calls[k])
    &&& (c.phase is AwaitApproval || c.phase is Dispatching) ==> c.approval_index < c.tool_calls.len()
    &&& !(c.next_input is Turns)
    &&& c.phase is TurnStart && c.tool_calls.len() > 0 ==> {
        &&& c.approval_index == c.tool_calls.len()
        &&& c.next_input matches InputV::Parts(ps) && ps == c.results_parts
    }
}

impl Conductor {
    /// A fresh conductor: streaming on, memory on, thinking high, no context.
    pub fn new(model: String, dev_mode: bool, pwd: String, git_branch: String) -> (r: Self)
        ensures
            r@ == (ConductorV {
                model: model@,
                streaming: true,
                thinking_level: "high"@,
                memory_enabled: true,
                dev_mode,
                pwd: pwd@,
                git_branch: git_branch@,
                previous_interaction_id: None,
                pending_steering: Seq::empty(),
                phase: Phase::Idle,
                turn_history: Seq::empty(),
                active_interaction_id: None,
                next_input: InputV::Text(Seq::empty()),
                model_response_parts: Seq::empty(),
                tool_calls: Seq::empty(),
                results_parts: Seq::empty(),
                approval_index: 0,
            }),
            wf(r@),
    {
        let r = Conductor {
            model,
            streaming: true,
            thinking_level: "high".to_owned(),
            memory_enabled: true,
            dev_mode,
            pwd,
            git_branch,
            previous_interaction_id: None,
            pending_steering: Vec::new(),
            phase: Phase::Idle,
            turn_history: Vec::new(),
            active_interaction_id: None,
            next_input: InteractionInput::Text(String::new()),
            model_response_parts: Vec::new(),
            tool_calls: Vec::new(),
            results_parts: Vec::new(),
            approval_index: 0,
        };
        proof {
            assert(seq_view(r.pending_steering@) =~= Seq::<Seq<char>>::empty());
            assert(seq_view(r.turn_history@) =~= Seq::<TurnV>::empty());
            assert(seq_view(r.model_response_parts@) =~= Seq::<PartV>::empty());
            assert(seq_view(r.tool_calls@) =~= Seq::<PendingCallV>::empty());
            assert(seq_view(r.results_parts@) =~= Seq::<PartV>::empty());
        }
        r
    }

    /// The current session, as the UI sees it.
    pub fn get_state_snapshot(&self) -> (r: SessionState)
        ensures
            r@ == snapshot_of(self@),
    {
        SessionState {
            model: self.model.clone(),
            thinking_level: self.thinking_level.clone(),
            streaming: self.streaming,
            memory_enabled: self.memory_enabled,
            dev_mode: self.dev_mode,
            pwd: self.pwd.clone(),
            git_branch: self.git_branch.clone(),
        }
    }

    /// Records a fresh environment probe (working directory and git branch).
    pub fn set_environment(&mut self, pwd: String, git_branch: String)
        ensures
            (*final(self))@ == (ConductorV { pwd: pwd@, git_branch: git_branch@, ..old(self)@ }),
            wf(old(self)@) ==> wf((*final(self))@),
    {
        self.pwd = pwd;
        self.git_branch = git_branch;
    }
}

// ---------------------------------------------------------------------------
// Idle: commands and new conversations.
// ---------------------------------------------------------------------------

/// What handling one idle input comes to.
#[derive(Debug)]
pub enum IdleOutcome {
    /// `/exit` or `/quit`: stop the loop.
    Exit,
    /// A command was handled; send this one event.
    Reply(SystemEvent),
    /// The input opens a conversation; the next turn is ready to begin.
    StartTurn,
}

pub enum IdleOutcomeV {
    Exit,
    Reply(SystemEventV),
    StartTurn,
}

impl View for IdleOutcome {
    type V = IdleOutcomeV;

    open spec fn view(&self) -> IdleOutcomeV {
        match *self {
            IdleOutcome::Exit => IdleOutcomeV::Exit,
            IdleOutcome::Reply(e) => IdleOutcomeV::Reply(e@),
            IdleOutcome::StartTurn => IdleOutcomeV::StartTurn,
        }
    }
}

/// The help text, shown for `/help` and `/`.
pub open spec fn help_text() -> Seq<char> {
    "Available Commands:\n/stream          - Toggle real-time streaming\n/thinking <lvl>  - Set thinking level (minimal, low, medium, high)\n/memory          - Toggle session memory (privacy mode)\n/clear           - Clear conversation context\n/exit | /quit    - Exit Chitti\n/help | /        - Show this help menu"@
}

/// Opening a conversation: history cleared, the prompt queued as input, and
/// the server context carried over only when memory is on.
pub open spec fn spec_start(c: ConductorV, prompt: Seq<char>) -> ConductorV {
    ConductorV {
        phase: Phase::TurnStart,
        turn_history: Seq::empty(),
        active_interaction_id: if c.memory_enabled { c.previous_interaction_id } else { None },
        next_input: InputV::Text(prompt),
        model_response_parts: Seq::empty(),
        tool_calls: Seq::empty(),
        results_parts: Seq::empty(),
        approval_index: 0,
        ..c
    }
}

/// One idle input, classified and applied: a slash command mutates the
/// session and replies with a single event; anything else opens a turn.
pub open spec fn step_idle(c: ConductorV, input: Seq<char>) -> (ConductorV, IdleOutcomeV) {
    if input.len() > 0 && input[0] == '/' {
        let ws = spec_words(input);
        let w0 = ws[0];
        if w0 == "/exit"@ || w0 == "/quit"@ {
            (c, IdleOutcomeV::Exit)
        } else if w0 == "/clear"@ {
            let c2 = ConductorV { previous_interaction_id: None, ..c };
            (c2, IdleOutcomeV::Reply(SystemEventV::Info("Context cleared."@, snapshot_of(c2))))
        } else if w0 == "/stream"@ {
            let c2 = ConductorV { streaming: !c.streaming, ..c };
            let msg = if c2.streaming { "Streaming is now ON"@ } else { "Streaming is now OFF"@ };
            (c2, IdleOutcomeV::Reply(SystemEventV::Info(msg, snapshot_of(c2))))
        } else if w0 == "/thinking"@ && ws.len() > 1 {
            let c2 = ConductorV { thinking_level: ws[1], ..c };
            (c2, IdleOutcomeV::Reply(SystemEventV::Info("Thinking level set to "@ + ws[1], snapshot_of(c2))))
        } else if w0 == "/memory"@ {
            let c2 = ConductorV {
                memory_enabled: !c.memory_enabled,
                previous_interaction_id: if c.memory_enabled { None } else { c.previous_interaction_id },
                ..c
            };
            let msg = if c2.memory_enabled { "Session memory is now ON"@ } else { "Session memory is now OFF"@ };
            (c2, IdleOutcomeV::Reply(SystemEventV::Info(msg, snapshot_of(c2))))
        } else if w0 == "/help"@ || w0 == "/"@ {
            (c, IdleOutcomeV::Reply(SystemEventV::Info(help_text(), snapshot_of(c))))
        } else {
            (c, IdleOutcomeV::Reply(SystemEventV::Error("Unknown command: "@ + w0, snapshot_of(c))))
        }
    } else {
        (spec_start(c, input), IdleOutcomeV::StartTurn)
    }
}

impl Conductor {
    /// Takes one operator input while idle. A leading `/` makes it a command;
    /// everything else becomes the opening prompt of a conversation, and the
    /// caller is expected to call `begin_turn` next.
    pub fn on_user_input_idle(&mut self, input: String) -> (r: IdleOutcome)
        requires
            old(self)@.phase is Idle,
            wf(old(self)@),
        ensures
            ((*final(self))@, r@) == step_idle(old(self)@, input@),
            wf((*final(self))@),
    {
        proof {
            reveal_strlit("/");
        }
        if str_starts_with(input.as_str(), "/") {
            proof {
                assert("/"@.len() == 1 && "/"@[0] == '/');
                assert(input@.subrange(0, 1) == "/"@);
                assert(input@.subrange(0, 1)[0] == input@[0]);
                assert(input@[0] == '/');
            }
            let words = split_words(input.as_str());
            proof {
                assert(!crate::text::is_space('/'));
                assert(spec_words(input@).len() > 0);
            }
            let w0 = &words[0];
            if str_eq(w0.as_str(), "/exit") || str_eq(w0.as_str(), "/quit") {
                IdleOutcome::Exit
            } else if str_eq(w0.as_str(), "/clear") {
                self.previous_interaction_id = None;
                IdleOutcome::Reply(SystemEvent::Info("Context cleared.".to_owned(), self.get_state_snapshot()))
            } else if str_eq(w0.as_str(), "/stream") {
                self.streaming = !self.streaming;
                let msg = if self.streaming { "Streaming is now ON" } else { "Streaming is now OFF" };
                IdleOutcome::Reply(SystemEvent::Info(msg.to_owned(), self.get_state_snapshot()))
            } else if str_eq(w0.as_str(), "/thinking") && words.len() > 1 {
                self.thinking_level = words[1].clone();
                let mut msg = "Thinking level set to ".to_owned();
                msg.append(self.thinking_level.as_str());
                IdleOutcome::Reply(SystemEvent::Info(msg, self.get_state_snapshot()))
            } else if str_eq(w0.as_str(), "/memory") {
                self.memory_enabled = !self.memory_enabled;
                if !self.memory_enabled {
                    self.previous_interaction_id = None;
                }
                let msg = if self.memory_enabled { "Session memory is now ON" } else { "Session memory is now OFF" };
                IdleOutcome::Reply(SystemEvent::Info(msg.to_owned(), self.get_state_snapshot()))
            } else if str_eq(w0.as_str(), "/help") || str_eq(w0.as_str(), "/") {
                let help = "Available Commands:\n/stream          - Toggle real-time streaming\n/thinking <lvl>  - Set thinking level (minimal, low, medium, high)\n/memory          - Toggle session memory (privacy mode)\n/clear           - Clear conversation context\n/exit | /quit    - Exit Chitti\n/help | /        - Show this help menu";
                IdleOutcome::Reply(SystemEvent::Info(help.to_owned(), self.get_state_snapshot()))
            } else {
                let mut msg = "Unknown command: ".to_owned();
                msg.append(w0.as_str());
                IdleOutcome::Reply(SystemEvent::Error(msg, self.get_state_snapshot()))
            }
        } else {
            proof {
                if input@.len() > 0 && input@[0] == '/' {
                    assert(input@.subrange(0, 1) =~= "/"@);
                }
            }
            self.start_conversation(input);
            IdleOutcome::StartTurn
        }
    }

    /// Opens a conversation on the given prompt.
    fn start_conversation(&mut self, prompt: String)
        ensures
            (*final(self))@ == spec_start(old(self)@, prompt@),
            wf((*final(self))@),
    {
        self.turn_history = Vec::new();
        self.active_interaction_id = if self.memory_enabled {
            clone_opt_string(&self.previous_interaction_id)
        } else {
            None
        };
        self.next_input = InteractionInput::Text(prompt);
        self.model_response_parts = Vec::new();
        self.tool_calls = Vec::new();
        self.results_parts = Vec::new();
        self.approval_index = 0;
        self.phase = Phase::TurnStart;
        proof {
            assert(seq_view(self.turn_history@) =~= Seq::<TurnV>::empty());
            assert(seq_view(self.model_response_parts@) =~= Seq::<PartV>::empty());
            assert(seq_view(self.tool_calls@) =~= Seq::<PendingCallV>::empty());
            assert(seq_view(self.results_parts@) =~= Seq::<PartV>::empty());
        }
    }
}

} // verus!

verus! {

// ---------------------------------------------------------------------------
// Opening a turn.
// ---------------------------------------------------------------------------

/// The accumulated steering, one line per captured message.
pub open spec fn steering_text(c: ConductorV) -> Seq<char> {
    joined_lines(c.pending_steering)
}

/// The pending input with steering folded in. Steering trails a tool-result
/// part list as one text part; with a plain prompt and memory on it is
/// prepended to the prompt; with memory off it becomes separate user turns.
pub open spec fn merged_input(c: ConductorV) -> InputV {
    if c.pending_steering.len() == 0 {
        c.next_input
    } else {
        match c.next_input {
            InputV::Parts(ps) => InputV::Parts(ps.push(PartV::Text { text: steering_text(c) })),
            InputV::Text(t) => if c.memory_enabled {
                InputV::Text(steering_text(c) + seq!['\n'] + t)
            } else {
                InputV::Text(t)
            },
            InputV::Turns(ts) => InputV::Turns(ts),
        }
    }
}

/// The user turns that steering contributes to a replayed history.
pub open spec fn steering_turns(c: ConductorV) -> Seq<TurnV> {
    if c.pending_steering.len() > 0 && c.next_input is Text && !c.memory_enabled {
        Seq::new(
            c.pending_steering.len(),
            |i: int| TurnV { role: Role::User, content: seq![PartV::Text { text: c.pending_steering[i] }] },
        )
    } else {
        Seq::empty()
    }
}

/// The user turn that submitting this input appends to a replayed history.
pub open spec fn input_turn(i: InputV) -> Seq<TurnV> {
    match i {
        InputV::Text(t) => seq![TurnV { role: Role::User, content: seq![PartV::Text { text: t }] }],
        InputV::Parts(ps) => seq![TurnV { role: Role::User, content: ps }],
        InputV::Turns(_) => Seq::empty(),
    }
}

/// The history after a turn opens: unchanged under server-side memory, and
/// grown by the steering turns and the submitted user turn under replay.
pub open spec fn history_after_begin(c: ConductorV) -> Seq<TurnV> {
    if c.memory_enabled {
        c.turn_history
    } else {
        c.turn_history + steering_turns(c) + input_turn(merged_input(c))
    }
}

/// The context a turn opens with. Under memory the merged input rides alone
/// with the active interaction id; under replay the whole history is sent
/// and no id.
pub open spec fn spec_begin_ctx(c: ConductorV) -> CtxV {
    CtxV {
        input: if c.memory_enabled { merged_input(c) } else { InputV::Turns(history_after_begin(c)) },
        previous_interaction_id: if c.memory_enabled { c.active_interaction_id } else { None },
        streaming: c.streaming,
        thinking_level: c.thinking_level,
        memory_enabled: c.memory_enabled,
        dev_mode: c.dev_mode,
    }
}

/// The conductor after a turn opens: steering drained, history extended,
/// per-turn buffers cleared, stream open.
pub open spec fn spec_begin_state(c: ConductorV) -> ConductorV {
    ConductorV {
        pending_steering: Seq::empty(),
        turn_history: history_after_begin(c),
        next_input: merged_input(c),
        phase: Phase::Streaming,
        model_response_parts: Seq::empty(),
        tool_calls: Seq::empty(),
        results_parts: Seq::empty(),
        approval_index: 0,
        ..c
    }
}

impl Conductor {
    /// Opens the next turn: drains steering into the input, extends the
    /// replay history when memory is off, resets the per-turn buffers, and
    /// hands back the context the brain is to be called with.
    pub fn begin_turn(&mut self) -> (ctx: TurnContext)
        requires
            old(self)@.phase is TurnStart,
            wf(old(self)@),
        ensures
            ctx@ == spec_begin_ctx(old(self)@),
            (*final(self))@ == spec_begin_state(old(self)@),
            wf((*final(self))@),
    {
        let ghost c0 = old(self)@;
        let mut steering: Vec<String> = Vec::new();
        core::mem::swap(&mut steering, &mut self.pending_steering);
        let mut input = InteractionInput::Text(String::new());
        core::mem::swap(&mut input, &mut self.next_input);
        let mut history: Vec<InteractionTurn> = Vec::new();
        core::mem::swap(&mut history, &mut self.turn_history);

        if steering.len() > 0 {
            match &mut input {
                InteractionInput::Parts(ps) => {
                    let joined = join_lines(&steering);
                    let ghost ps0 = seq_view(ps@);
                    ps.push(InteractionPart::Text { text: joined });
                    proof {
                        assert(seq_view(ps@) =~= ps0.push(PartV::Text { text: steering_text(c0) }));
                    }
                }
                InteractionInput::Text(t) => {
                    if self.memory_enabled {
                        let mut np = join_lines(&steering);
                        append_char(&mut np, '\n');
                        np.append(t.as_str());
                        proof {
                            assert(np@ =~= steering_text(c0) + seq!['\n'] + t@);
                        }
                        *t = np;
                    } else {
                        let ghost h0 = seq_view(history@);
                        let mut i: usize = 0;
                        while i < steering.len()
                            invariant
                                i <= steering.len(),
                                seq_view(steering@) == c0.pending_steering,
                                seq_view(history@) =~= h0 + Seq::new(
                                    i as nat,
                                    |k: int| TurnV { role: Role::User, content: seq![PartV::Text { text: c0.pending_steering[k] }] },
                                ),
                            decreases steering.len() - i,
                        {
                            let ghost hprev = seq_view(history@);
                            history.push(InteractionTurn {
                                role: Role::User,
                                content: InteractionContent::from_text(steering[i].clone()),
                            });
                            proof {
                                assert(seq_view(history@) =~= hprev.push(TurnV {
                                    role: Role::User,
                                    content: seq![PartV::Text { text: c0.pending_steering[i as int] }],
                                }));
                            }
                            i += 1;
                        }
                        proof {
                            assert(seq_view(history@) =~= h0 + steering_turns(c0));
                        }
                    }
                }
                InteractionInput::Turns(_) => {}
            }
        }
        proof {
            assert(input@ == merged_input(c0));
            assert(seq_view(history@) =~= c0.turn_history + steering_turns(c0));
        }

        let input_for_ctx: InteractionInput;
        if self.memory_enabled {
            input_for_ctx = input.clone();
        } else {
            match &input {
                InteractionInput::Text(t) => {
                    let ghost hprev = seq_view(history@);
                    history.push(InteractionTurn {
                        role: Role::User,
                        content: InteractionContent::from_text(t.clone()),
                    });
                    proof {
                        assert(seq_view(history@) =~= hprev + input_turn(input@));
                    }
                }
                InteractionInput::Parts(ps) => {
                    let ghost hprev = seq_view(history@);
                    history.push(InteractionTurn {
                        role: Role::User,
                        content: InteractionContent::from_parts(clone_parts(ps)),
                    });
                    proof {
                        assert(seq_view(history@) =~= hprev + input_turn(input@));
                    }
                }
                InteractionInput::Turns(_) => {}
            }
            input_for_ctx = InteractionInput::Turns(clone_turns(&history));
        }
        proof {
            assert(seq_view(history@) =~= history_after_begin(c0));
            if !c0.memory_enabled {
                assert(input_for_ctx@->Turns_0 =~= history_after_begin(c0));
            }
        }

        let prev = if self.memory_enabled {
            clone_opt_string(&self.active_interaction_id)
        } else {
            None
        };
        let ctx = TurnContext {
            input: input_for_ctx,
            previous_interaction_id: prev,
            streaming: self.streaming,
            thinking_level: self.thinking_level.clone(),
            memory_enabled: self.memory_enabled,
            dev_mode: self.dev_mode,
        };

        self.next_input = input;
        self.turn_history = history;
        self.model_response_parts = Vec::new();
        self.tool_calls = Vec::new();
        self.results_parts = Vec::new();
        self.approval_index = 0;
        self.phase = Phase::Streaming;
        proof {
            assert(seq_view(self.pending_steering@) =~= Seq::<Seq<char>>::empty());
            assert(seq_view(self.model_response_parts@) =~= Seq::<PartV>::empty());
            assert(seq_view(self.tool_calls@) =~= Seq::<PendingCallV>::empty());
            assert(seq_view(self.results_parts@) =~= Seq::<PartV>::empty());
            assert(ctx@ == spec_begin_ctx(c0));
            assert((*self)@ == spec_begin_state(c0));
        }
        ctx
    }
}

} // verus!

verus! {

// ---------------------------------------------------------------------------
// Consuming the brain stream.
// ---------------------------------------------------------------------------

/// How one brain event changes the conductor: deltas and calls accumulate in
/// the model-response buffer, tool calls are also queued for approval, and a
/// completion id becomes the active (and, under memory, the persistent)
/// interaction id.
pub open spec fn spec_absorb(c: ConductorV, e: BrainEventV) -> ConductorV {
    match e {
        BrainEventV::TextDelta(t) => ConductorV {
            model_response_parts: c.model_response_parts.push(PartV::Text { text: t }),
            ..c
        },
        BrainEventV::ThoughtDelta(_) => c,
        BrainEventV::ThoughtSignature(sig) => ConductorV {
            model_response_parts: c.model_response_parts.push(PartV::Thought {
                signature: sig,
                summary: Seq::empty(),
            }),
            ..c
        },
        BrainEventV::ToolCall { name, id, args } => ConductorV {
            model_response_parts: c.model_response_parts.push(PartV::FunctionCall(CallV {
                id: Some(id),
                name: name,
                args: args,
                thought_signature: None,
            })),
            tool_calls: c.tool_calls.push(PendingCallV { name: name, id: id, args: args }),
            ..c
        },
        BrainEventV::Complete { interaction_id } => match interaction_id {
            Some(id) => ConductorV {
                active_interaction_id: Some(id),
                previous_interaction_id: if c.memory_enabled {
                    Some(id)
                } else {
                    c.previous_interaction_id
                },
                ..c
            },
            None => c,
        },
        BrainEventV::Error(_) => c,
    }
}

/// What one brain event forwards to the UI.
pub open spec fn spec_absorb_out(c: ConductorV, e: BrainEventV) -> Option<SystemEventV> {
    match e {
        BrainEventV::TextDelta(t) => Some(SystemEventV::Text(t, snapshot_of(c))),
        BrainEventV::ThoughtDelta(t) => Some(SystemEventV::Thought(t, snapshot_of(c))),
        BrainEventV::ThoughtSignature(_) => None,
        BrainEventV::ToolCall { name, id, args } => Some(SystemEventV::ToolCall {
            name: name,
            args: args,
            state: snapshot_of(c),
        }),
        BrainEventV::Complete { interaction_id } => None,
        BrainEventV::Error(m) => Some(SystemEventV::Error(m, snapshot_of(c))),
    }
}

impl Conductor {
    /// Takes one event of the open brain stream; the returned event, if any,
    /// is forwarded to the UI.
    pub fn on_brain_event(&mut self, e: BrainEvent) -> (r: Option<SystemEvent>)
        requires
            old(self)@.phase is Streaming,
            wf(old(self)@),
        ensures
            (*final(self))@ == spec_absorb(old(self)@, e@),
            match (r, spec_absorb_out(old(self)@, e@)) {
                (Some(ev), Some(sv)) => ev@ == sv,
                (None, None) => true,
                _ => false,
            },
            wf((*final(self))@),
    {
        let ghost c0 = old(self)@;
        match e {
            BrainEvent::TextDelta(text) => {
                let ev = SystemEvent::Text(text.clone(), self.get_state_snapshot());
                let ghost mrp0 = seq_view(self.model_response_parts@);
                self.model_response_parts.push(InteractionPart::Text { text });
                proof {
                    assert(seq_view(self.model_response_parts@)
                        =~= c0.model_response_parts.push(PartV::Text { text: e@->TextDelta_0 }));
                }
                Some(ev)
            }
            BrainEvent::ThoughtDelta(text) => {
                Some(SystemEvent::Thought(text, self.get_state_snapshot()))
            }
            BrainEvent::ThoughtSignature(sig) => {
                self.model_response_parts.push(InteractionPart::Thought {
                    signature: sig,
                    summary: String::new(),
                });
                proof {
                    assert(seq_view(self.model_response_parts@)
                        =~= c0.model_response_parts.push(PartV::Thought {
                            signature: e@->ThoughtSignature_0,
                            summary: Seq::empty(),
                        }));
                }
                None
            }
            BrainEvent::ToolCall { name, id, args } => {
                let ev = SystemEvent::ToolCall {
                    name: name.clone(),
                    args: args.clone(),
                    state: self.get_state_snapshot(),
                };
                self.model_response_parts.push(InteractionPart::FunctionCall(FunctionCall {
                    id: Some(id.clone()),
                    name: name.clone(),
                    args: args.clone(),
                    thought_signature: None,
                }));
                self.tool_calls.push(PendingCall { name, id, args });
                proof {
                    let ghost ev2 = e@;
                    assert(seq_view(self.model_response_parts@)
                        =~= c0.model_response_parts.push(PartV::FunctionCall(CallV {
                            id: Some(ev2->ToolCall_id),
                            name: ev2->ToolCall_name,
                            args: ev2->ToolCall_args,
                            thought_signature: None,
                        })));
                    assert(seq_view(self.tool_calls@)
                        =~= c0.tool_calls.push(PendingCallV {
                            name: ev2->ToolCall_name,
                            id: ev2->ToolCall_id,
                            args: ev2->ToolCall_args,
                        }));
                }
                Some(ev)
            }
            BrainEvent::Complete { interaction_id } => {
                match interaction_id {
                    Some(id) => {
                        self.active_interaction_id = Some(id.clone());
                        if self.memory_enabled {
                            self.previous_interaction_id = Some(id);
                        }
                    }
                    None => {}
                }
                None
            }
            BrainEvent::Error(msg) => {
                Some(SystemEvent::Error(msg, self.get_state_snapshot()))
            }
        }
    }
}

// ---------------------------------------------------------------------------
// Closing the stream.
// ---------------------------------------------------------------------------

/// The approval prompt shown for one buffered tool call.
pub open spec fn approval_text(call: PendingCallV) -> Seq<char> {
    "Execute tool '"@ + call.name + "' with args: "@ + rendered(call.args)
}

/// The conductor after the stream closes: under replay a non-empty model
/// response joins the history; with no buffered calls the conversation is
/// done, otherwise the first call goes up for approval.
pub open spec fn spec_stream_end(c: ConductorV) -> ConductorV {
    let hist = if !c.memory_enabled && c.model_response_parts.len() > 0 {
        c.turn_history.push(TurnV { role: Role::Model, content: c.model_response_parts })
    } else {
        c.turn_history
    };
    if c.tool_calls.len() == 0 {
        ConductorV { turn_history: hist, phase: Phase::Idle, ..c }
    } else {
        ConductorV {
            turn_history: hist,
            phase: Phase::AwaitApproval,
            approval_index: 0,
            results_parts: Seq::empty(),
            ..c
        }
    }
}

/// What closing the stream emits: readiness, or the first approval request.
pub open spec fn spec_stream_end_out(c: ConductorV) -> SystemEventV {
    if c.tool_calls.len() == 0 {
        SystemEventV::Ready(snapshot_of(c))
    } else {
        SystemEventV::RequestApproval {
            description: approval_text(c.tool_calls[0]),
            state: snapshot_of(c),
        }
    }
}

/// What the caller does after the stream closes.
#[derive(Debug)]
pub enum StreamEnd {
    /// No tool calls: the conversation is over; send the event and go idle.
    Done(SystemEvent),
    /// Tool calls buffered: send the first approval request and wait.
    Approvals(SystemEvent),
}

pub enum StreamEndV {
    Done(SystemEventV),
    Approvals(SystemEventV),
}

impl View for StreamEnd {
    type V = StreamEndV;

    open spec fn view(&self) -> StreamEndV {
        match *self {
            StreamEnd::Done(e) => StreamEndV::Done(e@),
            StreamEnd::Approvals(e) => StreamEndV::Approvals(e@),
        }
    }
}

impl Conductor {
    /// The approval request for the call at the current approval index.
    fn approval_event(&self) -> (r: SystemEvent)
        requires
            0 <= self@.approval_index < self@.tool_calls.len(),
        ensures
            r@ == (SystemEventV::RequestApproval {
                description: approval_text(self@.tool_calls[self@.approval_index]),
                state: snapshot_of(self@),
            }),
    {
        let call = &self.tool_calls[self.approval_index];
        let mut d = "Execute tool '".to_owned();
        d.append(call.name.as_str());
        d.append("' with args: ");
        let args_text = call.args.to_text();
        d.append(args_text.as_str());
        SystemEvent::RequestApproval { description: d, state: self.get_state_snapshot() }
    }

    /// Closes the brain stream: records the model turn for replay, and either
    /// finishes the conversation or opens the approval gate.
    pub fn on_stream_end(&mut self) -> (r: StreamEnd)
        requires
            old(self)@.phase is Streaming,
            wf(old(self)@),
        ensures
            (*final(self))@ == spec_stream_end(old(self)@),
            r@ == if old(self)@.tool_calls.len() == 0 {
                StreamEndV::Done(spec_stream_end_out(old(self)@))
            } else {
                StreamEndV::Approvals(spec_stream_end_out(old(self)@))
            },
            wf((*final(self))@),
    {
        let ghost c0 = old(self)@;
        if !self.memory_enabled && !self.model_response_parts.is_empty() {
            let parts = clone_parts(&self.model_response_parts);
            let ghost hprev = seq_view(self.turn_history@);
            self.turn_history.push(InteractionTurn {
                role: Role::Model,
                content: InteractionContent::from_parts(parts),
            });
            proof {
                assert(seq_view(self.turn_history@) =~= hprev.push(TurnV {
                    role: Role::Model,
                    content: c0.model_response_parts,
                }));
            }
        }
        if self.tool_calls.is_empty() {
            self.phase = Phase::Idle;
            StreamEnd::Done(SystemEvent::Ready(self.get_state_snapshot()))
        } else {
            self.phase = Phase::AwaitApproval;
            self.approval_index = 0;
            self.results_parts = Vec::new();
            proof {
                assert(seq_view(self.results_parts@) =~= Seq::<PartV>::empty());
            }
            StreamEnd::Approvals(self.approval_event())
        }
    }
}

} // verus!

verus! {

// ---------------------------------------------------------------------------
// The approval gate and tool dispatch.
// ---------------------------------------------------------------------------

/// The synthesized result of a tool that failed to execute.
pub open spec fn failure_json(message: Seq<char>) -> JsonV {
    JsonV::Obj(seq![("error"@, JsonV::Str(message))])
}

/// The synthesized result of a rejected tool call.
pub open spec fn rejection_json() -> JsonV {
    failure_json("User rejected tool execution."@)
}

/// Builds the standard `{"error": message}` result.
pub fn error_obj(message: String) -> (r: Json)
    ensures
        r@ == failure_json(message@),
{
    let ghost mv = message@;
    let mut ms: Vec<(String, Json)> = Vec::new();
    ms.push(("error".to_owned(), Json::Str(message)));
    let r = Json::Obj(ms);
    proof {
        crate::json::lemma_jview_members(ms@);
        assert(crate::json::jview_members(ms@) =~= seq![("error"@, JsonV::Str(mv))]);
    }
    r
}

/// The note shown when a message is captured as steering.
pub open spec fn steering_note() -> Seq<char> {
    "[Steering noted. Waiting for tool approval/rejection...]"@
}

/// Recording the answer to the call under approval: a function response with
/// that call's id joins the buffered results; when it was the last call, the
/// results become the next turn's input.
pub open spec fn spec_record(c: ConductorV, resp: JsonV) -> ConductorV {
    let call = c.tool_calls[c.approval_index];
    let results = c.results_parts.push(PartV::FunctionResponse(RespV {
        id: Some(call.id),
        name: call.name,
        response: resp,
    }));
    if c.approval_index + 1 < c.tool_calls.len() {
        ConductorV {
            results_parts: results,
            approval_index: c.approval_index + 1,
            phase: Phase::AwaitApproval,
            ..c
        }
    } else {
        ConductorV {
            results_parts: results,
            approval_index: c.approval_index + 1,
            phase: Phase::TurnStart,
            next_input: InputV::Parts(results),
            ..c
        }
    }
}

/// What the caller does after a call was answered.
#[derive(Debug)]
pub enum DispatchStep {
    /// Another buffered call follows: send this approval request and wait.
    NextApproval(SystemEvent),
    /// Every call is answered: the next turn is ready to begin.
    InputReady,
}

pub enum DispatchStepV {
    NextApproval(SystemEventV),
    InputReady,
}

impl View for DispatchStep {
    type V = DispatchStepV;

    open spec fn view(&self) -> DispatchStepV {
        match *self {
            DispatchStep::NextApproval(e) => DispatchStepV::NextApproval(e@),
            DispatchStep::InputReady => DispatchStepV::InputReady,
        }
    }
}

/// The step returned after recording: the next approval request while calls
/// remain, and readiness once all are answered.
pub open spec fn dispatch_step_matches(c2: ConductorV, r: DispatchStepV) -> bool {
    if c2.phase is AwaitApproval {
        r matches DispatchStepV::NextApproval(ev) && ev == (SystemEventV::RequestApproval {
            description: approval_text(c2.tool_calls[c2.approval_index]),
            state: snapshot_of(c2),
        })
    } else {
        r is InputReady
    }
}

/// What one line of input during approval comes to.
#[derive(Debug)]
pub enum ApprovalOutcome {
    /// Approved: the caller executes this call and reports the outcome.
    Approved { name: String, id: String, args: Json },
    /// Rejected: the refusal is already recorded; proceed as directed.
    Rejected(DispatchStep),
    /// Anything else: captured as steering; send the note and keep waiting.
    Steered(SystemEvent),
}

impl Conductor {
    /// Records the answer for the call under approval and moves to the next
    /// call, or readies the next turn's input when every call is answered.
    fn record_response(&mut self, response: Json) -> (r: DispatchStep)
        requires
            wf(old(self)@),
            old(self)@.phase is AwaitApproval || old(self)@.phase is Dispatching,
        ensures
            (*final(self))@ == spec_record(old(self)@, response@),
            dispatch_step_matches((*final(self))@, r@),
            wf((*final(self))@),
    {
        let ghost c0 = old(self)@;
        let ghost rv = response@;
        let n = self.tool_calls.len();
        let call = &self.tool_calls[self.approval_index];
        let part = InteractionPart::FunctionResponse(FunctionResponse {
            id: Some(call.id.clone()),
            name: call.name.clone(),
            response,
        });
        let ghost r0 = seq_view(self.results_parts@);
        self.results_parts.push(part);
        proof {
            assert(seq_view(self.results_parts@) =~= spec_record(c0, rv).results_parts);
            assert(c0.approval_index < n as int);
        }
        self.approval_index = self.approval_index + 1;
        if self.approval_index < n {
            self.phase = Phase::AwaitApproval;
            DispatchStep::NextApproval(self.approval_event())
        } else {
            self.phase = Phase::TurnStart;
            self.next_input = InteractionInput::Parts(clone_parts(&self.results_parts));
            proof {
                assert(self.next_input@->Parts_0 =~= seq_view(self.results_parts@));
            }
            DispatchStep::InputReady
        }
    }

    /// Takes one line of input while a tool call awaits approval. A yes
    /// approves the call, a no records the standard refusal, and any other
    /// line is buffered as steering for the next turn.
    pub fn on_approval_input(&mut self, input: String) -> (r: ApprovalOutcome)
        requires
            old(self)@.phase is AwaitApproval,
            wf(old(self)@),
        ensures
            wf((*final(self))@),
            ({
                let low = ascii_lower(input@);
                let call = old(self)@.tool_calls[old(self)@.approval_index];
                if low == "y"@ || low == "yes"@ {
                    &&& (*final(self))@ == (ConductorV { phase: Phase::Dispatching, ..old(self)@ })
                    &&& r matches ApprovalOutcome::Approved { name, id, args }
                        && name@ == call.name && id@ == call.id && args@ == call.args
                } else if low == "n"@ || low == "no"@ {
                    &&& (*final(self))@ == spec_record(old(self)@, rejection_json())
                    &&& r matches ApprovalOutcome::Rejected(step)
                        && dispatch_step_matches((*final(self))@, step@)
                } else {
                    &&& (*final(self))@ == (ConductorV {
                        pending_steering: old(self)@.pending_steering.push(input@),
                        ..old(self)@
                    })
                    &&& r matches ApprovalOutcome::Steered(ev)
                        && ev@ == SystemEventV::Text(steering_note(), snapshot_of(old(self)@))
                }
            }),
    {
        let ghost c0 = old(self)@;
        let low = to_ascii_lower(input.as_str());
        if str_eq(low.as_str(), "y") || str_eq(low.as_str(), "yes") {
            self.phase = Phase::Dispatching;
            let call = &self.tool_calls[self.approval_index];
            ApprovalOutcome::Approved {
                name: call.name.clone(),
                id: call.id.clone(),
                args: call.args.clone(),
            }
        } else if str_eq(low.as_str(), "n") || str_eq(low.as_str(), "no") {
            let rejection = error_obj("User rejected tool execution.".to_owned());
            ApprovalOutcome::Rejected(self.record_response(rejection))
        } else {
            let ghost s0 = seq_view(self.pending_steering@);
            let ghost iv = input@;
            let note = SystemEvent::Text(
                "[Steering noted. Waiting for tool approval/rejection...]".to_owned(),
                self.get_state_snapshot(),
            );
            self.pending_steering.push(input);
            proof {
                assert(seq_view(self.pending_steering@) =~= s0.push(iv));
            }
            ApprovalOutcome::Steered(note)
        }
    }

    /// Takes the outcome of executing the approved call: its output on
    /// success, or a message that becomes the standard failure result.
    pub fn on_tool_outcome(&mut self, outcome: Result<Json, String>) -> (r: DispatchStep)
        requires
            old(self)@.phase is Dispatching,
            wf(old(self)@),
        ensures
            (*final(self))@ == spec_record(old(self)@, match outcome {
                Result::Ok(j) => j@,
                Result::Err(m) => failure_json(m@),
            }),
            dispatch_step_matches((*final(self))@, r@),
            wf((*final(self))@),
    {
        let response = match outcome {
            Result::Ok(j) => j,
            Result::Err(m) => error_obj(m),
        };
        self.record_response(response)
    }

    /// Aborts the turn on an error from the brain or its stream: the failure
    /// is reported, the server context is no longer trusted and is dropped,
    /// and the conductor returns to waiting for input.
    pub fn on_turn_error(&mut self, message: String) -> (r: SystemEvent)
        requires
            wf(old(self)@),
        ensures
            (*final(self))@ == (ConductorV {
                previous_interaction_id: None,
                phase: Phase::Idle,
                ..old(self)@
            }),
            r@ == SystemEventV::Error("Conversation Error: "@ + message@, snapshot_of(old(self)@)),
            wf((*final(self))@),
    {
        self.previous_interaction_id = None;
        self.phase = Phase::Idle;
        let mut msg = "Conversation Error: ".to_owned();
        msg.append(message.as_str());
        SystemEvent::Error(msg, self.get_state_snapshot())
    }
}

} // verus!

verus! {

// ---------------------------------------------------------------------------
// Laws of the turn loop.
// ---------------------------------------------------------------------------

/// Law: when the approval gate has closed over a turn that buffered calls,
/// the input submitted for the next turn answers every one of them: one
/// function response per call, in the buffered order, under the same id.
pub proof fn lemma_calls_answered(c: ConductorV)
    requires
        wf(c),
        c.phase is TurnStart,
        c.tool_calls.len() > 0,
    ensures
        c.next_input is Parts,
        c.next_input->Parts_0.len() == c.tool_calls.len(),
        forall|k: int| 0 <= k < c.tool_calls.len()
            ==> answers(#[trigger] c.next_input->Parts_0[k], c.tool_calls[k]),
{
}

/// Law: when the buffered calls carry distinct ids, the submitted input
/// holds exactly one response answering each call — the one at its own
/// position, and no other.
pub proof fn lemma_exactly_one_response(c: ConductorV, k: int)
    requires
        wf(c),
        c.phase is TurnStart,
        c.tool_calls.len() > 0,
        0 <= k < c.tool_calls.len(),
        forall|a: int, b: int| 0 <= a < c.tool_calls.len() && 0 <= b < c.tool_calls.len() && a != b
            ==> (#[trigger] c.tool_calls[a].id) != (#[trigger] c.tool_calls[b].id),
    ensures
        answers(c.next_input->Parts_0[k], c.tool_calls[k]),
        forall|j: int| 0 <= j < c.next_input->Parts_0.len() && j != k
            ==> !answers(#[trigger] c.next_input->Parts_0[j], c.tool_calls[k]),
{
    lemma_calls_answered(c);
    assert forall|j: int| 0 <= j < c.next_input->Parts_0.len() && j != k implies
        !answers(c.next_input->Parts_0[j], c.tool_calls[k]) by {
        assert(answers(c.next_input->Parts_0[j], c.tool_calls[j]));
        assert(c.tool_calls[j].id != c.tool_calls[k].id);
    }
}

/// Law: with memory on, the id a completion event delivers becomes the
/// active and persistent interaction id, and the next turn's context carries
/// it — whether that turn opens right away or after tool responses.
pub proof fn lemma_memory_carries_completion(c: ConductorV, id: Seq<char>)
    requires
        c.memory_enabled,
    ensures
        ({
            let c2 = spec_absorb(c, BrainEventV::Complete { interaction_id: Some(id) });
            &&& c2.active_interaction_id == Some(id)
            &&& c2.previous_interaction_id == Some(id)
            &&& spec_begin_ctx(spec_stream_end(c2)).previous_interaction_id == Some(id)
            &&& forall|resp: JsonV|
                spec_begin_ctx(#[trigger] spec_record(spec_stream_end(c2), resp))
                    .previous_interaction_id == Some(id)
        }),
{
}

/// Law: with memory off, every context a turn opens with carries no server
/// continuation id and replays the whole accumulated history, of which the
/// prior turns are an unchanged prefix.
pub proof fn lemma_private_replay(c: ConductorV)
    requires
        !c.memory_enabled,
    ensures
        spec_begin_ctx(c).previous_interaction_id is None,
        spec_begin_ctx(c).input == InputV::Turns(history_after_begin(c)),
        history_after_begin(c).take(c.turn_history.len() as int) == c.turn_history,
{
    assert(history_after_begin(c).take(c.turn_history.len() as int) =~= c.turn_history);
}

/// Law: captured steering is never lost and never applied twice. Opening a
/// turn empties the steering queue, and the steering text appears in the
/// submitted input exactly once: as the one part appended after the tool
/// results, folded once onto the front of the prompt, or as one user turn
/// per captured line in the replayed history.
pub proof fn lemma_steering_applied_once(c: ConductorV)
    requires
        c.pending_steering.len() > 0,
    ensures
        spec_begin_state(c).pending_steering.len() == 0,
        c.next_input is Parts ==> ({
            let ps = merged_input(c)->Parts_0;
            &&& ps.len() == c.next_input->Parts_0.len() + 1
            &&& ps.last() == PartV::Text { text: steering_text(c) }
            &&& ps.take(ps.len() - 1) == c.next_input->Parts_0
        }),
        c.next_input is Text && c.memory_enabled ==> merged_input(c) == InputV::Text(
            steering_text(c) + seq!['\n'] + c.next_input->Text_0,
        ),
        c.next_input is Text && !c.memory_enabled ==> ({
            let h = history_after_begin(c);
            let n0 = c.turn_history.len() as int;
            &&& h.len() == n0 + c.pending_steering.len() + 1
            &&& forall|k: int| 0 <= k < c.pending_steering.len() ==> h[n0 + k] == (TurnV {
                role: Role::User,
                content: seq![PartV::Text { text: #[trigger] c.pending_steering[k] }],
            })
            &&& h.take(n0) == c.turn_history
        }),
{
    if c.next_input is Parts {
        let ps = merged_input(c)->Parts_0;
        assert(ps.take(ps.len() - 1) =~= c.next_input->Parts_0);
    }
    if c.next_input is Text && !c.memory_enabled {
        let h = history_after_begin(c);
        let n0 = c.turn_history.len() as int;
        assert(h.take(n0) =~= c.turn_history);
        assert forall|k: int| 0 <= k < c.pending_steering.len() implies h[n0 + k] == (TurnV {
            role: Role::User,
            content: seq![PartV::Text { text: c.pending_steering[k] }],
        }) by {
            assert(steering_turns(c)[k] == TurnV {
                role: Role::User,
                content: seq![PartV::Text { text: c.pending_steering[k] }],
            });
        }
    }
}

} // verus!
