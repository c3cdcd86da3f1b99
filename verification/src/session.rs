//! A saved conversation: what persists between runs. Reading and writing the
//! file happens outside; the shape and its starting values are verified.

use vstd::prelude::*;
use crate::protocol::{InteractionTurn, TurnV, seq_view, opt_view};

verus! {

/// One session as it is persisted.
#[derive(Debug)]
pub struct Session {
    pub interaction_id: Option<String>,
    pub turns: Vec<InteractionTurn>,
    pub model: String,
    pub thinking_level: String,
    pub memory_enabled: bool,
    pub dev_mode: bool,
}

pub struct SessionV {
    pub interaction_id: Option<Seq<char>>,
    pub turns: Seq<TurnV>,
    pub model: Seq<char>,
    pub thinking_level: Seq<char>,
    pub memory_enabled: bool,
    pub dev_mode: bool,
}

impl View for Session {
    type V = SessionV;

    open spec fn view(&self) -> SessionV {
        SessionV {
            interaction_id: opt_view(self.interaction_id),
            turns: seq_view(self.turns@),
            model: self.model@,
            thinking_level: self.thinking_level@,
            memory_enabled: self.memory_enabled,
            dev_mode: self.dev_mode,
        }
    }
}

impl Session {
    /// A fresh session: no context, no turns, thinking high, memory on.
    pub fn new(model: String, dev_mode: bool) -> (r: Self)
        ensures
            r@ == (SessionV {
                interaction_id: None,
                turns: Seq::empty(),
                model: model@,
                thinking_level: "high"@,
                memory_enabled: true,
                dev_mode,
            }),
    {
        let r = Session {
            interaction_id: None,
            turns: Vec::new(),
            model,
            thinking_level: "high".to_owned(),
            memory_enabled: true,
            dev_mode,
        };
        proof {
            assert(seq_view(r.turns@) =~= Seq::<TurnV>::empty());
        }
        r
    }
}

} // verus!
