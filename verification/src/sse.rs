//! Decoding the streaming wire: line-framed server-sent events, and the
//! translation of each JSON payload into a typed interaction event.
//!
//! The decoder is tolerant the way the endpoint demands: a `data:` line whose
//! payload is not a well-formed event is skipped, and never aborts the
//! stream.

use vstd::prelude::*;
use crate::json::{Json, JsonV, jget, parse_json, json_of, str_eq};
use crate::protocol::{InteractionEvent, EventV, InteractionOutput, OutputV, InteractionResponse,
    ResponseV, ContentStartInfo, FunctionCall, CallV, FunctionResponse, RespV};

verus! {

// ---------------------------------------------------------------------------
// Decimal indices.
// ---------------------------------------------------------------------------

/// The value of a digit string, read left to right.
pub open spec fn digits_value(s: Seq<char>) -> int
    decreases s.len(),
{
    if s.len() == 0 {
        0
    } else {
        digits_value(s.drop_last()) * 10 + (s.last() as u32 - 48)
    }
}

pub open spec fn all_digits(s: Seq<char>) -> bool {
    forall|i: int| 0 <= i < s.len() ==> 48 <= (#[trigger] s[i]) as u32 <= 57
}

/// What a JSON number text means as a `u32` index: digit strings in range
/// only, as the endpoint sends plain unsigned indices.
pub open spec fn parse_u32(s: Seq<char>) -> Option<u32> {
    if s.len() > 0 && all_digits(s) && digits_value(s) <= u32::MAX {
        Some(digits_value(s) as u32)
    } else {
        None
    }
}

proof fn lemma_digits_value_nonneg(s: Seq<char>)
    requires
        all_digits(s),
    ensures
        digits_value(s) >= 0,
    decreases s.len(),
{
    if s.len() > 0 {
        assert(all_digits(s.drop_last()));
        lemma_digits_value_nonneg(s.drop_last());
    }
}

proof fn lemma_digits_prefix_monotone(s: Seq<char>, i: int)
    requires
        all_digits(s),
        0 <= i <= s.len(),
    ensures
        digits_value(s.take(i)) <= digits_value(s),
    decreases s.len() - i,
{
    if i < s.len() {
        lemma_digits_prefix_monotone(s, i + 1);
        assert(s.take(i + 1).drop_last() =~= s.take(i));
        assert(all_digits(s.take(i)));
        lemma_digits_value_nonneg(s.take(i));
        assert(digits_value(s.take(i + 1))
            == digits_value(s.take(i)) * 10 + (s.take(i + 1).last() as u32 - 48));
    } else {
        assert(s.take(i) =~= s);
    }
}

/// Reads a decimal index from number text.
pub fn parse_u32_str(s: &str) -> (r: Option<u32>)
    ensures
        r == parse_u32(s@),
{
    let n = s.unicode_len();
    if n == 0 {
        return None;
    }
    let mut acc: u64 = 0;
    let mut i: usize = 0;
    while i < n
        invariant
            i <= n,
            n == s@.len(),
            all_digits(s@.subrange(0, i as int)),
            acc == digits_value(s@.take(i as int)),
            acc <= u32::MAX,
        decreases n - i,
    {
        let c = s.get_char(i);
        let code = c as u32;
        if code < 48 || code > 57 {
            proof {
                assert(!all_digits(s@));
            }
            return None;
        }
        let d: u64 = (code - 48) as u64;
        let next: u64 = acc * 10 + d;
        proof {
            assert(s@.take(i + 1).drop_last() =~= s@.take(i as int));
            assert(s@.take(i + 1).last() == s@[i as int]);
            assert(all_digits(s@.subrange(0, i + 1)));
        }
        if next > 0xffff_ffff {
            proof {
                assert(s@.take(i + 1) =~= s@.subrange(0, i + 1));
                assert(digits_value(s@.take(i + 1)) > u32::MAX);
                if all_digits(s@) {
                    lemma_digits_prefix_monotone(s@, i + 1);
                }
            }
            return None;
        }
        acc = next;
        i += 1;
    }
    proof {
        assert(s@.subrange(0, n as int) =~= s@);
        assert(s@.take(n as int) =~= s@);
    }
    Some(acc as u32)
}

// ---------------------------------------------------------------------------
// Field shapes, as the wire deserialization treats them.
// ---------------------------------------------------------------------------

/// A string field that defaults to empty when absent; any other shape fails.
pub open spec fn str_default(j: JsonV, key: Seq<char>) -> Option<Seq<char>> {
    match jget(j, key) {
        Option::None => Some(Seq::empty()),
        Option::Some(v) => match v {
            JsonV::Str(s) => Some(s),
            _ => Option::None,
        },
    }
}

/// A required string field; absence or any other shape fails.
pub open spec fn str_req(j: JsonV, key: Seq<char>) -> Option<Seq<char>> {
    match jget(j, key) {
        Option::Some(v) => match v {
            JsonV::Str(s) => Some(s),
            _ => Option::None,
        },
        Option::None => Option::None,
    }
}

/// An optional string field: absent or null reads as nothing.
pub open spec fn str_opt(j: JsonV, key: Seq<char>) -> Option<Option<Seq<char>>> {
    match jget(j, key) {
        Option::None => Some(Option::None),
        Option::Some(v) => match v {
            JsonV::Null => Some(Option::None),
            JsonV::Str(s) => Some(Some(s)),
            _ => Option::None,
        },
    }
}

/// An optional boolean field: absent or null reads as nothing.
pub open spec fn bool_opt(j: JsonV, key: Seq<char>) -> Option<Option<bool>> {
    match jget(j, key) {
        Option::None => Some(Option::None),
        Option::Some(v) => match v {
            JsonV::Null => Some(Option::None),
            JsonV::Bool(b) => Some(Some(b)),
            _ => Option::None,
        },
    }
}

impl Json {
    /// Reads a string field that defaults to empty when absent.
    pub fn field_str_default(&self, key: &str) -> (r: Option<String>)
        ensures
            match (r, str_default(self@, key@)) {
                (Some(s), Some(v)) => s@ == v,
                (Option::None, Option::None) => true,
                _ => false,
            },
    {
        match self.get(key) {
            Some(Json::Str(s)) => Some(s.clone()),
            Some(_) => None,
            Option::None => Some(String::new()),
        }
    }

    /// Reads a required string field.
    pub fn field_str_req(&self, key: &str) -> (r: Option<String>)
        ensures
            match (r, str_req(self@, key@)) {
                (Some(s), Some(v)) => s@ == v,
                (Option::None, Option::None) => true,
                _ => false,
            },
    {
        match self.get(key) {
            Some(Json::Str(s)) => Some(s.clone()),
            _ => None,
        }
    }

    /// Reads an optional string field, where null counts as absent.
    pub fn field_str_opt(&self, key: &str) -> (r: Option<Option<String>>)
        ensures
            match (r, str_opt(self@, key@)) {
                (Some(s), Some(v)) => crate::protocol::opt_view(s) == v,
                (Option::None, Option::None) => true,
                _ => false,
            },
    {
        match self.get(key) {
            Option::None => Some(None),
            Some(Json::Null) => Some(None),
            Some(Json::Str(s)) => Some(Some(s.clone())),
            Some(_) => None,
        }
    }

    /// Reads an optional boolean field, where null counts as absent.
    pub fn field_bool_opt(&self, key: &str) -> (r: Option<Option<bool>>)
        ensures
            match (r, bool_opt(self@, key@)) {
                (Some(s), Some(v)) => s == v,
                (Option::None, Option::None) => true,
                _ => false,
            },
    {
        match self.get(key) {
            Option::None => Some(None),
            Some(Json::Null) => Some(None),
            Some(Json::Bool(b)) => Some(Some(*b)),
            Some(_) => None,
        }
    }
}

} // verus!

verus! {

// ---------------------------------------------------------------------------
// From a JSON payload to a typed output.
// ---------------------------------------------------------------------------

/// One output item, read off its `type` tag. Function arguments must be an
/// object, as on the wire. Tags the conductor does not consume — media,
/// search results and the like — read as `Unknown`; a known tag with fields
/// of the wrong shape fails, and the line carrying it is skipped.
pub open spec fn output_of_json(j: JsonV) -> Option<OutputV> {
    match str_req(j, "type"@) {
        Option::None => Option::None,
        Option::Some(tag) => {
            if tag == "text"@ {
                match str_default(j, "text"@) {
                    Option::Some(text) => Some(OutputV::Text { text }),
                    Option::None => Option::None,
                }
            } else if tag == "thought"@ {
                match (str_default(j, "signature"@), str_default(j, "summary"@)) {
                    (Option::Some(signature), Option::Some(summary)) => Some(OutputV::Thought {
                        signature,
                        summary,
                    }),
                    _ => Option::None,
                }
            } else if tag == "function_call"@ {
                match (str_opt(j, "id"@), str_req(j, "name"@), jget(j, "arguments"@), str_opt(j, "thought_signature"@)) {
                    (Option::Some(id), Option::Some(name), Option::Some(args), Option::Some(sig)) =>
                        if args is Obj {
                            Some(OutputV::FunctionCall(CallV {
                                id,
                                name,
                                args,
                                thought_signature: sig,
                            }))
                        } else {
                            Option::None
                        },
                    _ => Option::None,
                }
            } else if tag == "function_response"@ {
                match (str_opt(j, "call_id"@), str_req(j, "name"@), jget(j, "result"@)) {
                    (Option::Some(id), Option::Some(name), Option::Some(result)) =>
                        Some(OutputV::FunctionResponse(RespV { id, name, response: result })),
                    _ => Option::None,
                }
            } else if tag == "content_delta"@ {
                match (str_default(j, "text"@), bool_opt(j, "thought"@)) {
                    (Option::Some(text), Option::Some(thought)) => Some(OutputV::ContentDelta {
                        text,
                        thought,
                    }),
                    _ => Option::None,
                }
            } else {
                Some(OutputV::Unknown)
            }
        }
    }
}

/// A whole output list; one bad item fails the list.
pub open spec fn outputs_of_list(items: Seq<JsonV>) -> Option<Seq<OutputV>>
    decreases items.len(),
{
    if items.len() == 0 {
        Some(Seq::empty())
    } else {
        match (outputs_of_list(items.drop_last()), output_of_json(items.last())) {
            (Option::Some(init), Option::Some(last)) => Some(init.push(last)),
            _ => Option::None,
        }
    }
}

/// The server's record of an interaction: an optional id, the model and
/// status, and an output list that defaults to empty.
pub open spec fn response_of_json(j: JsonV) -> Option<ResponseV> {
    match (str_opt(j, "id"@), str_req(j, "model"@), str_req(j, "status"@)) {
        (Option::Some(id), Option::Some(model), Option::Some(status)) => {
            match jget(j, "outputs"@) {
                Option::None => Some(ResponseV { id, model, status, outputs: Seq::empty() }),
                Option::Some(v) => match v {
                    JsonV::Arr(items) => match outputs_of_list(items) {
                        Option::Some(outputs) => Some(ResponseV { id, model, status, outputs }),
                        Option::None => Option::None,
                    },
                    _ => Option::None,
                },
            }
        }
        _ => Option::None,
    }
}

/// An optional `u32` field read from a JSON number's text.
pub open spec fn index_opt(j: JsonV, key: Seq<char>) -> Option<Option<u32>> {
    match jget(j, key) {
        Option::None => Some(Option::None),
        Option::Some(v) => match v {
            JsonV::Null => Some(Option::None),
            JsonV::Num(s) => match parse_u32(s) {
                Option::Some(n) => Some(Some(n)),
                Option::None => Option::None,
            },
            _ => Option::None,
        },
    }
}

/// One streaming event, read off its `event_type` tag; an unknown tag is
/// `Other`, a missing or ill-shaped one fails.
pub open spec fn event_of_json(j: JsonV) -> Option<EventV> {
    match str_req(j, "event_type"@) {
        Option::None => Option::None,
        Option::Some(tag) => {
            if tag == "interaction.start"@ {
                match jget(j, "interaction"@) {
                    Option::Some(inner) => match response_of_json(inner) {
                        Option::Some(interaction) => Some(EventV::InteractionStart { interaction }),
                        Option::None => Option::None,
                    },
                    Option::None => Option::None,
                }
            } else if tag == "interaction.status_update"@ {
                match str_req(j, "status"@) {
                    Option::Some(status) => Some(EventV::StatusUpdate { status }),
                    Option::None => Option::None,
                }
            } else if tag == "content.start"@ {
                match (jget(j, "index"@), jget(j, "content"@)) {
                    (Option::Some(iv), Option::Some(cv)) => match iv {
                        JsonV::Num(s) => match (parse_u32(s), str_req(cv, "type"@)) {
                            (Option::Some(index), Option::Some(content_type)) => Some(
                                EventV::ContentStart { index, content_type },
                            ),
                            _ => Option::None,
                        },
                        _ => Option::None,
                    },
                    _ => Option::None,
                }
            } else if tag == "content.delta"@ {
                match (jget(j, "delta"@), index_opt(j, "index"@)) {
                    (Option::Some(dv), Option::Some(index)) => match output_of_json(dv) {
                        Option::Some(delta) => Some(EventV::ContentDelta { delta, index }),
                        Option::None => Option::None,
                    },
                    _ => Option::None,
                }
            } else if tag == "interaction.complete"@ {
                match jget(j, "interaction"@) {
                    Option::Some(inner) => match response_of_json(inner) {
                        Option::Some(interaction) => Some(EventV::InteractionComplete { interaction }),
                        Option::None => Option::None,
                    },
                    Option::None => Option::None,
                }
            } else {
                Some(EventV::Other)
            }
        }
    }
}

// ---------------------------------------------------------------------------
// Executable readers.
// ---------------------------------------------------------------------------

/// Reads one output item from its payload.
pub fn read_output(j: &Json) -> (r: Option<InteractionOutput>)
    ensures
        match (r, output_of_json(j@)) {
            (Some(o), Some(v)) => o@ == v,
            (Option::None, Option::None) => true,
            _ => false,
        },
{
    let tag = match j.field_str_req("type") {
        Some(t) => t,
        Option::None => { return None; }
    };
    if str_eq(tag.as_str(), "text") {
        match j.field_str_default("text") {
            Some(text) => Some(InteractionOutput::Text { text }),
            Option::None => None,
        }
    } else if str_eq(tag.as_str(), "thought") {
        let signature = match j.field_str_default("signature") {
            Some(s) => s,
            Option::None => { return None; }
        };
        let summary = match j.field_str_default("summary") {
            Some(s) => s,
            Option::None => { return None; }
        };
        Some(InteractionOutput::Thought { signature, summary })
    } else if str_eq(tag.as_str(), "function_call") {
        let id = match j.field_str_opt("id") {
            Some(v) => v,
            Option::None => { return None; }
        };
        let name = match j.field_str_req("name") {
            Some(v) => v,
            Option::None => { return None; }
        };
        let args = match j.get("arguments") {
            Some(a) => {
                if let Json::Obj(_) = a {
                    a.clone()
                } else {
                    return None;
                }
            }
            Option::None => { return None; }
        };
        let sig = match j.field_str_opt("thought_signature") {
            Some(v) => v,
            Option::None => { return None; }
        };
        Some(InteractionOutput::FunctionCall(FunctionCall {
            id,
            name,
            args,
            thought_signature: sig,
        }))
    } else if str_eq(tag.as_str(), "function_response") {
        let id = match j.field_str_opt("call_id") {
            Some(v) => v,
            Option::None => { return None; }
        };
        let name = match j.field_str_req("name") {
            Some(v) => v,
            Option::None => { return None; }
        };
        let result = match j.get("result") {
            Some(v) => v.clone(),
            Option::None => { return None; }
        };
        Some(InteractionOutput::FunctionResponse(FunctionResponse { id, name, response: result }))
    } else if str_eq(tag.as_str(), "content_delta") {
        let text = match j.field_str_default("text") {
            Some(v) => v,
            Option::None => { return None; }
        };
        let thought = match j.field_bool_opt("thought") {
            Some(v) => v,
            Option::None => { return None; }
        };
        Some(InteractionOutput::ContentDelta { text, thought })
    } else {
        Some(InteractionOutput::Unknown)
    }
}

/// Reads the server's interaction record.
pub fn read_response(j: &Json) -> (r: Option<InteractionResponse>)
    ensures
        match (r, response_of_json(j@)) {
            (Some(o), Some(v)) => o@ == v,
            (Option::None, Option::None) => true,
            _ => false,
        },
{
    let id = match j.field_str_opt("id") {
        Some(v) => v,
        Option::None => { return None; }
    };
    let model = match j.field_str_req("model") {
        Some(v) => v,
        Option::None => { return None; }
    };
    let status = match j.field_str_req("status") {
        Some(v) => v,
        Option::None => { return None; }
    };
    let outputs: Vec<InteractionOutput> = match j.get("outputs") {
        Option::None => Vec::new(),
        Some(Json::Arr(items)) => {
            let mut out: Vec<InteractionOutput> = Vec::new();
            let mut i: usize = 0;
            proof {
                crate::json::lemma_jview_list(items@);
                assert(items@.subrange(0, 0) =~= Seq::<Json>::empty());
            }
            while i < items.len()
                invariant
                    i <= items.len(),
                    jget(j@, "outputs"@) == Some(JsonV::Arr(crate::json::jview_list(items@))),
                    crate::json::jview_list(items@).len() == items@.len(),
                    forall|k: int| 0 <= k < items@.len()
                        ==> crate::json::jview_list(items@)[k] == crate::json::jview(items@[k]),
                    out@.len() == i,
                    outputs_of_list(crate::json::jview_list(items@).take(i as int))
                        == Some(crate::protocol::seq_view(out@)),
                decreases items.len() - i,
            {
                let ghost model_items = crate::json::jview_list(items@);
                match read_output(&items[i]) {
                    Some(o) => {
                        let ghost out0 = crate::protocol::seq_view(out@);
                        out.push(o);
                        proof {
                            assert(model_items.take(i + 1).drop_last() =~= model_items.take(i as int));
                            assert(model_items.take(i + 1).last() == model_items[i as int]);
                            assert(crate::protocol::seq_view(out@) =~= out0.push(o@));
                        }
                    }
                    Option::None => {
                        proof {
                            lemma_outputs_of_list_fails(crate::json::jview_list(items@), i as int);
                        }
                        return None;
                    }
                }
                i += 1;
            }
            proof {
                assert(crate::json::jview_list(items@).take(items@.len() as int)
                    =~= crate::json::jview_list(items@));
            }
            out
        }
        Some(_) => { return None; }
    };
    proof {
        if jget(j@, "outputs"@) is None {
            assert(crate::protocol::seq_view(outputs@) =~= Seq::<OutputV>::empty());
        }
    }
    Some(InteractionResponse { id, model, status, outputs })
}

/// When one item of an output list fails, the whole list fails.
proof fn lemma_outputs_of_list_fails(items: Seq<JsonV>, i: int)
    requires
        0 <= i < items.len(),
        output_of_json(items[i]) is None,
    ensures
        outputs_of_list(items) is None,
    decreases items.len(),
{
    if items.len() > 0 {
        if i == items.len() - 1 {
        } else {
            assert(items.drop_last()[i] == items[i]);
            lemma_outputs_of_list_fails(items.drop_last(), i);
        }
    }
}

/// Reads one streaming event from its parsed payload.
pub fn read_event(j: &Json) -> (r: Option<InteractionEvent>)
    ensures
        match (r, event_of_json(j@)) {
            (Some(o), Some(v)) => o@ == v,
            (Option::None, Option::None) => true,
            _ => false,
        },
{
    let tag = match j.field_str_req("event_type") {
        Some(t) => t,
        Option::None => { return None; }
    };
    if str_eq(tag.as_str(), "interaction.start") {
        match j.get("interaction") {
            Some(inner) => match read_response(inner) {
                Some(interaction) => Some(InteractionEvent::InteractionStart { interaction }),
                Option::None => None,
            },
            Option::None => None,
        }
    } else if str_eq(tag.as_str(), "interaction.status_update") {
        match j.field_str_req("status") {
            Some(status) => Some(InteractionEvent::StatusUpdate { status }),
            Option::None => None,
        }
    } else if str_eq(tag.as_str(), "content.start") {
        let iv = match j.get("index") {
            Some(v) => v,
            Option::None => { return None; }
        };
        let cv = match j.get("content") {
            Some(v) => v,
            Option::None => { return None; }
        };
        let index = match iv {
            Json::Num(s) => match parse_u32_str(s.as_str()) {
                Some(n) => n,
                Option::None => { return None; }
            },
            _ => { return None; }
        };
        let content_type = match cv.field_str_req("type") {
            Some(v) => v,
            Option::None => { return None; }
        };
        Some(InteractionEvent::ContentStart {
            index,
            content: ContentStartInfo { content_type },
        })
    } else if str_eq(tag.as_str(), "content.delta") {
        let dv = match j.get("delta") {
            Some(v) => v,
            Option::None => { return None; }
        };
        let index = match j.get("index") {
            Option::None => None,
            Some(Json::Null) => None,
            Some(Json::Num(s)) => match parse_u32_str(s.as_str()) {
                Some(n) => Some(n),
                Option::None => { return None; }
            },
            Some(_) => { return None; }
        };
        match read_output(dv) {
            Some(delta) => Some(InteractionEvent::ContentDelta { delta, index }),
            Option::None => None,
        }
    } else if str_eq(tag.as_str(), "interaction.complete") {
        match j.get("interaction") {
            Some(inner) => match read_response(inner) {
                Some(interaction) => Some(InteractionEvent::InteractionComplete { interaction }),
                Option::None => None,
            },
            Option::None => None,
        }
    } else {
        Some(InteractionEvent::Other)
    }
}

} // verus!

verus! {

// ---------------------------------------------------------------------------
// Line framing over raw bytes.
// ---------------------------------------------------------------------------

/// The first newline at or after `i`.
pub open spec fn first_nl_from(b: Seq<u8>, i: int) -> int
    decreases b.len() - i when 0 <= i
{
    if i >= b.len() || b[i] == 10 {
        i
    } else {
        first_nl_from(b, i + 1)
    }
}

pub proof fn lemma_first_nl_from(b: Seq<u8>, i: int)
    requires
        0 <= i <= b.len(),
    ensures
        i <= first_nl_from(b, i) <= b.len(),
        first_nl_from(b, i) < b.len() ==> b[first_nl_from(b, i)] == 10,
    decreases b.len() - i,
{
    if i < b.len() && b[i] != 10 {
        lemma_first_nl_from(b, i + 1);
    }
}

/// The complete lines of a byte buffer, and the unfinished tail.
pub open spec fn split_complete(b: Seq<u8>) -> (Seq<Seq<u8>>, Seq<u8>)
    decreases b.len() via split_complete_decreases
{
    let k = first_nl_from(b, 0);
    if k >= b.len() {
        (Seq::empty(), b)
    } else {
        let rest = split_complete(b.skip(k + 1));
        (seq![b.take(k)] + rest.0, rest.1)
    }
}

#[via_fn]
proof fn split_complete_decreases(b: Seq<u8>) {
    lemma_first_nl_from(b, 0);
}

/// The `data: ` prefix, as bytes.
pub open spec fn data_prefix() -> Seq<u8> {
    seq![100u8, 97u8, 116u8, 97u8, 58u8, 32u8]
}

/// The `[DONE]` terminator payload, as bytes.
pub open spec fn done_payload() -> Seq<u8> {
    seq![91u8, 68u8, 79u8, 78u8, 69u8, 93u8]
}

/// A line with one trailing carriage return removed.
pub open spec fn strip_cr(line: Seq<u8>) -> Seq<u8> {
    if line.len() > 0 && line.last() == 13 {
        line.drop_last()
    } else {
        line
    }
}

/// Whether a line is the stream terminator.
pub open spec fn line_is_done(line: Seq<u8>) -> bool {
    let l = strip_cr(line);
    l.len() >= 6 && l.take(6) == data_prefix() && l.skip(6) == done_payload()
}

/// The events one line yields: none unless it is a `data: ` line whose
/// payload parses as JSON and reads as an event; a payload that fails either
/// step is skipped and yields none.
pub open spec fn line_events(line: Seq<u8>) -> Seq<EventV> {
    let l = strip_cr(line);
    if l.len() >= 6 && l.take(6) == data_prefix() && l.skip(6) != done_payload() {
        match json_of(l.skip(6)) {
            Option::Some(doc) => match event_of_json(doc) {
                Option::Some(ev) => seq![ev],
                Option::None => Seq::empty(),
            },
            Option::None => Seq::empty(),
        }
    } else {
        Seq::empty()
    }
}

/// The events of a line sequence, stopping at the terminator; the second
/// component says whether the terminator was reached.
pub open spec fn process_lines(lines: Seq<Seq<u8>>) -> (Seq<EventV>, bool)
    decreases lines.len(),
{
    if lines.len() == 0 {
        (Seq::empty(), false)
    } else if line_is_done(lines[0]) {
        (Seq::empty(), true)
    } else {
        let rest = process_lines(lines.drop_first());
        (line_events(lines[0]) + rest.0, rest.1)
    }
}

/// The decoder: buffers bytes until a full line arrives, and goes quiet for
/// good once the terminator has been seen.
#[derive(Debug)]
pub struct SseDecoder {
    buf: Vec<u8>,
    done: bool,
}

impl View for SseDecoder {
    type V = (Seq<u8>, bool);

    closed spec fn view(&self) -> (Seq<u8>, bool) {
        (self.buf@, self.done)
    }
}

/// Pops the first complete line off the buffer.
fn take_line(buf: &mut Vec<u8>) -> (r: Option<Vec<u8>>)
    ensures
        ({
            let k = first_nl_from(old(buf)@, 0);
            if k < old(buf)@.len() {
                &&& r matches Some(line) && line@ == old(buf)@.take(k)
                &&& final(buf)@ == old(buf)@.skip(k + 1)
            } else {
                &&& r is None
                &&& final(buf)@ == old(buf)@
            }
        }),
{
    let n = buf.len();
    let mut j: usize = 0;
    while j < n && buf[j] != 10
        invariant
            0 <= j <= n,
            n == buf@.len(),
            first_nl_from(buf@, 0) == first_nl_from(buf@, j as int),
        decreases n - j,
    {
        j += 1;
    }
    proof {
        assert(first_nl_from(buf@, j as int) == j);
    }
    if j >= n {
        return None;
    }
    let mut line: Vec<u8> = Vec::new();
    let mut i: usize = 0;
    while i < j
        invariant
            i <= j <= n,
            n == buf@.len(),
            line@ =~= buf@.take(i as int),
        decreases j - i,
    {
        line.push(buf[i]);
        proof {
            assert(line@ =~= buf@.take(i + 1));
        }
        i += 1;
    }
    let mut rest: Vec<u8> = Vec::new();
    let mut m: usize = j + 1;
    while m < n
        invariant
            j + 1 <= m <= n,
            n == buf@.len(),
            rest@ =~= buf@.subrange(j + 1, m as int),
        decreases n - m,
    {
        rest.push(buf[m]);
        proof {
            assert(rest@ =~= buf@.subrange(j + 1, m + 1));
        }
        m += 1;
    }
    proof {
        assert(rest@ =~= buf@.skip(j + 1));
        assert(line@ =~= buf@.take(j as int));
    }
    *buf = rest;
    Some(line)
}

impl SseDecoder {
    /// A decoder with nothing buffered.
    pub fn new() -> (r: Self)
        ensures
            r@ == (Seq::<u8>::empty(), false),
    {
        let r = SseDecoder { buf: Vec::new(), done: false };
        proof {
            assert(r.buf@ =~= Seq::<u8>::empty());
        }
        r
    }

    /// Whether the stream terminator has been seen.
    pub fn is_done(&self) -> (r: bool)
        ensures
            r == self@.1,
    {
        self.done
    }

    /// Feeds a chunk of raw bytes and yields every event completed by it, in
    /// order. Lines that fail to parse are skipped; everything after the
    /// terminator is ignored.
    pub fn push_bytes(&mut self, chunk: &[u8]) -> (events: Vec<InteractionEvent>)
        ensures
            ({
                let total = old(self)@.0 + chunk@;
                let (lines, rest) = split_complete(total);
                &&& (*final(self))@.0 == rest
                &&& if old(self)@.1 {
                    (*final(self))@.1 && events@.len() == 0
                } else {
                    let (evs, done) = process_lines(lines);
                    &&& crate::protocol::seq_view(events@) == evs
                    &&& (*final(self))@.1 == done
                }
            }),
    {
        let ghost total = self.buf@ + chunk@;
        let mut i: usize = 0;
        while i < chunk.len()
            invariant
                i <= chunk@.len(),
                self.buf@ =~= old(self).buf@ + chunk@.take(i as int),
                self.done == old(self).done,
            decreases chunk@.len() - i,
        {
            self.buf.push(chunk[i]);
            proof {
                assert(self.buf@ =~= old(self).buf@ + chunk@.take(i + 1));
            }
            i += 1;
        }
        proof {
            assert(self.buf@ =~= total);
        }
        let mut events: Vec<InteractionEvent> = Vec::new();
        loop
            invariant
                split_complete(total).1 == split_complete(self.buf@).1,
                if old(self)@.1 {
                    self.done && events@.len() == 0
                } else {
                    process_lines(split_complete(total).0) == if !self.done {
                        (crate::protocol::seq_view(events@) + process_lines(split_complete(self.buf@).0).0,
                            process_lines(split_complete(self.buf@).0).1)
                    } else {
                        (crate::protocol::seq_view(events@), true)
                    }
                },
            ensures
                split_complete(total).1 == split_complete(self.buf@).1,
                first_nl_from(self.buf@, 0) >= self.buf@.len(),
                if old(self)@.1 {
                    self.done && events@.len() == 0
                } else {
                    process_lines(split_complete(total).0) == if !self.done {
                        (crate::protocol::seq_view(events@) + process_lines(split_complete(self.buf@).0).0,
                            process_lines(split_complete(self.buf@).0).1)
                    } else {
                        (crate::protocol::seq_view(events@), true)
                    }
                },
            decreases self.buf@.len(),
        {
            proof {
                lemma_first_nl_from(self.buf@, 0);
            }
            let ghost buf0 = self.buf@;
            let line = match take_line(&mut self.buf) {
                Some(l) => l,
                None => {
                    break;
                }
            };
            proof {
                let ghost k = first_nl_from(buf0, 0);
                assert((seq![buf0.take(k)] + split_complete(buf0.skip(k + 1)).0)[0] == buf0.take(k));
                assert((seq![buf0.take(k)] + split_complete(buf0.skip(k + 1)).0).drop_first()
                    =~= split_complete(buf0.skip(k + 1)).0);
            }
            if !self.done {
                self.consume_line(&line, &mut events);
            }
        }
        proof {
            if !old(self)@.1 {
                assert(process_lines(split_complete(self.buf@).0).0 =~= Seq::<EventV>::empty());
                if !self.done {
                    assert(crate::protocol::seq_view(events@)
                        + process_lines(split_complete(self.buf@).0).0
                        =~= crate::protocol::seq_view(events@));
                }
            }
        }
        events
    }

    /// Handles one framed line: a `data: ` line either ends the stream, or
    /// contributes its event when payload and shape both parse.
    fn consume_line(&mut self, line: &Vec<u8>, events: &mut Vec<InteractionEvent>)
        requires
            !old(self).done,
        ensures
            final(self).buf == old(self).buf,
            final(self).done == (old(self).done || line_is_done(line@)),
            line_is_done(line@) ==> final(events)@ == old(events)@,
            !line_is_done(line@) ==> crate::protocol::seq_view(final(events)@)
                =~= crate::protocol::seq_view(old(events)@) + line_events(line@),
    {
        let mut end = line.len();
        if end > 0 && line[end - 1] == 13 {
            end = end - 1;
        }
        proof {
            assert(line@.take(end as int) =~= strip_cr(line@));
        }
        if end >= 6
            && line[0] == 100 && line[1] == 97 && line[2] == 116
            && line[3] == 97 && line[4] == 58 && line[5] == 32
        {
            proof {
                assert(strip_cr(line@).take(6) =~= data_prefix());
            }
            let payload: &[u8] = &line.as_slice()[6..end];
            proof {
                assert(payload@ =~= strip_cr(line@).skip(6));
            }
            if payload.len() == 6
                && payload[0] == 91 && payload[1] == 68 && payload[2] == 79
                && payload[3] == 78 && payload[4] == 69 && payload[5] == 93
            {
                proof {
                    assert(payload@ =~= done_payload());
                }
                self.done = true;
            } else {
                proof {
                    if payload@.len() == 6 {
                        assert(payload@ != done_payload());
                    } else {
                        assert(payload@ != done_payload());
                    }
                }
                match parse_json(payload) {
                    Some(doc) => {
                        match read_event(&doc) {
                            Some(ev) => {
                                let ghost e0 = crate::protocol::seq_view(events@);
                                events.push(ev);
                                proof {
                                    assert(crate::protocol::seq_view(events@)
                                        =~= e0 + line_events(line@));
                                }
                            }
                            None => {}
                        }
                    }
                    None => {}
                }
            }
        }
    }
}

/// Law: the decoder is tolerant. In a stream of three framed lines whose
/// middle payload does not parse, the malformed line is skipped and exactly
/// the events of the two well-formed lines come out, in order.
pub proof fn lemma_decoder_tolerant(l1: Seq<u8>, bad: Seq<u8>, l2: Seq<u8>)
    requires
        !line_is_done(l1),
        !line_is_done(bad),
        !line_is_done(l2),
        line_events(bad) == Seq::<EventV>::empty(),
    ensures
        process_lines(seq![l1, bad, l2]).0 == line_events(l1) + line_events(l2),
        process_lines(seq![l1, bad, l2]).1 == false,
{
    let lines = seq![l1, bad, l2];
    let e2 = line_events(l2);
    assert(seq![l2].drop_first() =~= Seq::<Seq<u8>>::empty());
    assert(process_lines(Seq::<Seq<u8>>::empty()) == (Seq::<EventV>::empty(), false));
    assert(process_lines(seq![l2]).1 == false);
    assert(process_lines(seq![l2]).0 =~= e2);
    assert(seq![bad, l2].drop_first() =~= seq![l2]);
    assert(process_lines(seq![bad, l2]).1 == false);
    assert(process_lines(seq![bad, l2]).0 =~= e2);
    assert(lines.drop_first() =~= seq![bad, l2]);
    assert(process_lines(lines).1 == false);
    assert(process_lines(lines).0 =~= line_events(l1) + e2);
}

} // verus!
