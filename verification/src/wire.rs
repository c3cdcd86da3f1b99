//! The JSON wire encoding of the interaction protocol.
//!
//! Every encoder is verified against a specification of the exact JSON shape
//! the server expects; the final request body is rendered text of that shape.

use vstd::prelude::*;
use crate::json::{Json, JsonV, jview, jview_members, jview_list, lemma_jview_members_push,
    lemma_jview_list, rendered, dec_digits, u64_to_string};
use crate::protocol::{MediaPart, MediaV, FunctionCall, CallV, FunctionResponse, RespV,
    InteractionPart, PartV, InteractionContent, InteractionTurn, TurnV, InteractionInput, InputV,
    Role, Tool, ToolV, ToolChoice, ToolChoiceV, FunctionDeclaration, DeclV, ThinkingLevel,
    GenerationConfig, GenV, SafetySetting, SafetyCategory, SafetyThreshold, seq_view, opt_view};

verus! {

/// Pushes one `key: value` member, tracked on the model side.
pub(crate) fn push_member(members: &mut Vec<(String, Json)>, key: String, val: Json)
    ensures
        jview_members(final(members)@) == jview_members(old(members)@).push((key@, val@)),
{
    proof {
        lemma_jview_members_push(members@, (key, val));
    }
    members.push((key, val));
}

/// The wire text of a role.
pub open spec fn role_text(r: Role) -> Seq<char> {
    match r {
        Role::User => "user"@,
        Role::Model => "model"@,
        Role::Tool => "tool"@,
    }
}

pub fn role_str(r: Role) -> (s: &'static str)
    ensures
        s@ == role_text(r),
{
    match r {
        Role::User => "user",
        Role::Model => "model",
        Role::Tool => "tool",
    }
}

/// The wire text of a thinking level.
pub open spec fn level_text(l: ThinkingLevel) -> Seq<char> {
    match l {
        ThinkingLevel::Minimal => "minimal"@,
        ThinkingLevel::Low => "low"@,
        ThinkingLevel::Medium => "medium"@,
        ThinkingLevel::High => "high"@,
    }
}

pub fn level_str(l: ThinkingLevel) -> (s: &'static str)
    ensures
        s@ == level_text(l),
{
    match l {
        ThinkingLevel::Minimal => "minimal",
        ThinkingLevel::Low => "low",
        ThinkingLevel::Medium => "medium",
        ThinkingLevel::High => "high",
    }
}

/// The wire text of a safety category.
pub open spec fn category_text(c: SafetyCategory) -> Seq<char> {
    match c {
        SafetyCategory::HateSpeech => "HATE_SPEECH"@,
        SafetyCategory::SexuallyExplicit => "SEXUALLY_EXPLICIT"@,
        SafetyCategory::Harassment => "HARASSMENT"@,
        SafetyCategory::DangerousContent => "DANGEROUS_CONTENT"@,
        SafetyCategory::CivicIntegrity => "CIVIC_INTEGRITY"@,
    }
}

pub fn category_str(c: SafetyCategory) -> (s: &'static str)
    ensures
        s@ == category_text(c),
{
    match c {
        SafetyCategory::HateSpeech => "HATE_SPEECH",
        SafetyCategory::SexuallyExplicit => "SEXUALLY_EXPLICIT",
        SafetyCategory::Harassment => "HARASSMENT",
        SafetyCategory::DangerousContent => "DANGEROUS_CONTENT",
        SafetyCategory::CivicIntegrity => "CIVIC_INTEGRITY",
    }
}

/// The wire text of a safety threshold.
pub open spec fn threshold_text(t: SafetyThreshold) -> Seq<char> {
    match t {
        SafetyThreshold::BlockNone => "BLOCK_NONE"@,
        SafetyThreshold::BlockOnlyHigh => "BLOCK_ONLY_HIGH"@,
        SafetyThreshold::BlockMediumAndAbove => "BLOCK_MEDIUM_AND_ABOVE"@,
        SafetyThreshold::BlockLowAndAbove => "BLOCK_LOW_AND_ABOVE"@,
    }
}

pub fn threshold_str(t: SafetyThreshold) -> (s: &'static str)
    ensures
        s@ == threshold_text(t),
{
    match t {
        SafetyThreshold::BlockNone => "BLOCK_NONE",
        SafetyThreshold::BlockOnlyHigh => "BLOCK_ONLY_HIGH",
        SafetyThreshold::BlockMediumAndAbove => "BLOCK_MEDIUM_AND_ABOVE",
        SafetyThreshold::BlockLowAndAbove => "BLOCK_LOW_AND_ABOVE",
    }
}

/// A media part's members under its tag.
pub open spec fn media_json(tag: Seq<char>, m: MediaV) -> JsonV {
    let ms = seq![("type"@, JsonV::Str(tag))];
    let ms = if m.uri is Some { ms.push(("uri"@, JsonV::Str(m.uri->0))) } else { ms };
    let ms = if m.data is Some { ms.push(("data"@, JsonV::Str(m.data->0))) } else { ms };
    let ms = ms.push(("mime_type"@, JsonV::Str(m.mime_type)));
    JsonV::Obj(ms)
}

/// A function call part on the wire.
pub open spec fn call_json(c: CallV) -> JsonV {
    let ms = seq![("type"@, JsonV::Str("function_call"@))];
    let ms = if c.id is Some { ms.push(("id"@, JsonV::Str(c.id->0))) } else { ms };
    let ms = ms.push(("name"@, JsonV::Str(c.name)));
    let ms = ms.push(("arguments"@, c.args));
    let ms = if c.thought_signature is Some {
        ms.push(("thought_signature"@, JsonV::Str(c.thought_signature->0)))
    } else { ms };
    JsonV::Obj(ms)
}

/// A function result part on the wire.
pub open spec fn resp_json(f: RespV) -> JsonV {
    let ms = seq![("type"@, JsonV::Str("function_result"@))];
    let ms = if f.id is Some { ms.push(("call_id"@, JsonV::Str(f.id->0))) } else { ms };
    let ms = ms.push(("name"@, JsonV::Str(f.name)));
    let ms = ms.push(("result"@, f.response));
    JsonV::Obj(ms)
}

/// One content part on the wire, tagged by its `type` member. An empty
/// thought summary is left off, as the server echoes it.
pub open spec fn part_json(p: PartV) -> JsonV {
    match p {
        PartV::Text { text } => JsonV::Obj(
            seq![("type"@, JsonV::Str("text"@)), ("text"@, JsonV::Str(text))],
        ),
        PartV::Thought { signature, summary } => {
            let ms = seq![("type"@, JsonV::Str("thought"@)), ("signature"@, JsonV::Str(signature))];
            let ms = if summary.len() > 0 { ms.push(("summary"@, JsonV::Str(summary))) } else { ms };
            JsonV::Obj(ms)
        }
        PartV::Image(m) => media_json("image"@, m),
        PartV::Audio(m) => media_json("audio"@, m),
        PartV::Video(m) => media_json("video"@, m),
        PartV::Document(m) => media_json("document"@, m),
        PartV::FunctionCall(c) => call_json(c),
        PartV::FunctionResponse(f) => resp_json(f),
    }
}

/// A list of parts on the wire.
pub open spec fn parts_json(ps: Seq<PartV>) -> JsonV {
    JsonV::Arr(Seq::new(ps.len(), |i: int| part_json(ps[i])))
}

/// One replayed turn on the wire.
pub open spec fn turn_json(t: TurnV) -> JsonV {
    JsonV::Obj(
        seq![("role"@, JsonV::Str(role_text(t.role))), ("content"@, parts_json(t.content))],
    )
}

/// A replayed history on the wire.
pub open spec fn turns_json(ts: Seq<TurnV>) -> JsonV {
    JsonV::Arr(Seq::new(ts.len(), |i: int| turn_json(ts[i])))
}

/// A request input on the wire: plain text, one part list, or a history.
pub open spec fn input_json(i: InputV) -> JsonV {
    match i {
        InputV::Text(s) => JsonV::Str(s),
        InputV::Parts(ps) => parts_json(ps),
        InputV::Turns(ts) => turns_json(ts),
    }
}

/// A tool declaration on the wire.
pub open spec fn decl_members(d: DeclV) -> Seq<(Seq<char>, JsonV)> {
    let ms = seq![("name"@, JsonV::Str(d.name)), ("description"@, JsonV::Str(d.description))];
    if d.parameters is Some { ms.push(("parameters"@, d.parameters->0)) } else { ms }
}

/// A tool entry on the wire.
pub open spec fn tool_json(t: ToolV) -> JsonV {
    match t {
        ToolV::GoogleSearch => JsonV::Obj(seq![("type"@, JsonV::Str("google_search"@))]),
        ToolV::CodeExecution => JsonV::Obj(seq![("type"@, JsonV::Str("code_execution"@))]),
        ToolV::UrlContext => JsonV::Obj(seq![("type"@, JsonV::Str("url_context"@))]),
        ToolV::Function { declaration } => JsonV::Obj(
            seq![("type"@, JsonV::Str("function"@))] + decl_members(declaration),
        ),
        ToolV::ComputerUse { environment, excluded_predefined_functions } => {
            let ms = seq![
                ("type"@, JsonV::Str("computer_use"@)),
                ("environment"@, JsonV::Str(environment)),
            ];
            let ms = if excluded_predefined_functions is Some {
                ms.push((
                    "excluded_predefined_functions"@,
                    JsonV::Arr(
                        Seq::new(
                            excluded_predefined_functions->0.len(),
                            |i: int| JsonV::Str(excluded_predefined_functions->0[i]),
                        ),
                    ),
                ))
            } else { ms };
            JsonV::Obj(ms)
        }
        ToolV::McpServer { name, url } => JsonV::Obj(
            seq![
                ("type"@, JsonV::Str("mcp_server"@)),
                ("name"@, JsonV::Str(name)),
                ("url"@, JsonV::Str(url)),
            ],
        ),
    }
}

/// A tool list on the wire.
pub open spec fn tools_json(ts: Seq<ToolV>) -> JsonV {
    JsonV::Arr(Seq::new(ts.len(), |i: int| tool_json(ts[i])))
}

/// A tool choice on the wire.
pub open spec fn choice_json(c: ToolChoiceV) -> JsonV {
    match c {
        ToolChoiceV::Auto => JsonV::Str("auto"@),
        ToolChoiceV::Any => JsonV::Str("any"@),
        ToolChoiceV::Function { name } => JsonV::Obj(
            seq![("function"@, JsonV::Obj(seq![("name"@, JsonV::Str(name))]))],
        ),
        ToolChoiceV::NoTool => JsonV::Str("none"@),
    }
}

/// A generation configuration on the wire.
pub open spec fn gen_json(g: GenV) -> JsonV {
    let ms = Seq::<(Seq<char>, JsonV)>::empty();
    let ms = if g.thinking_level is Some {
        ms.push(("thinking_level"@, JsonV::Str(level_text(g.thinking_level->0))))
    } else { ms };
    let ms = if g.temperature is Some {
        ms.push(("temperature"@, JsonV::Num(g.temperature->0)))
    } else { ms };
    let ms = if g.max_output_tokens is Some {
        ms.push(("max_output_tokens"@, JsonV::Num(dec_digits(g.max_output_tokens->0 as nat))))
    } else { ms };
    let ms = if g.response_mime_type is Some {
        ms.push(("response_mime_type"@, JsonV::Str(g.response_mime_type->0)))
    } else { ms };
    let ms = if g.response_schema is Some {
        ms.push(("response_schema"@, g.response_schema->0))
    } else { ms };
    JsonV::Obj(ms)
}

/// A safety setting on the wire.
pub open spec fn safety_json(s: SafetySetting) -> JsonV {
    JsonV::Obj(
        seq![
            ("category"@, JsonV::Str(category_text(s.category))),
            ("threshold"@, JsonV::Str(threshold_text(s.threshold))),
        ],
    )
}

/// A safety setting list on the wire.
pub open spec fn safeties_json(ss: Seq<SafetySetting>) -> JsonV {
    JsonV::Arr(Seq::new(ss.len(), |i: int| safety_json(ss[i])))
}

// ---------------------------------------------------------------------------
// Executable encoders.
// ---------------------------------------------------------------------------

impl MediaPart {
    fn to_json_tagged(&self, tag: &str) -> (r: Json)
        ensures
            r@ == media_json(tag@, self@),
    {
        let mut ms: Vec<(String, Json)> = Vec::new();
        push_member(&mut ms, "type".to_owned(), Json::Str(tag.to_owned()));
        if let Some(uri) = &self.uri {
            push_member(&mut ms, "uri".to_owned(), Json::Str(uri.clone()));
        }
        if let Some(data) = &self.data {
            push_member(&mut ms, "data".to_owned(), Json::Str(data.clone()));
        }
        push_member(&mut ms, "mime_type".to_owned(), Json::Str(self.mime_type.clone()));
        let r = Json::Obj(ms);
        proof {
            assert(r@->Obj_0 =~= media_json(tag@, self@)->Obj_0);
        }
        r
    }
}

impl FunctionCall {
    pub fn to_json(&self) -> (r: Json)
        ensures
            r@ == call_json(self@),
    {
        let mut ms: Vec<(String, Json)> = Vec::new();
        push_member(&mut ms, "type".to_owned(), Json::Str("function_call".to_owned()));
        if let Some(id) = &self.id {
            push_member(&mut ms, "id".to_owned(), Json::Str(id.clone()));
        }
        push_member(&mut ms, "name".to_owned(), Json::Str(self.name.clone()));
        push_member(&mut ms, "arguments".to_owned(), self.args.clone());
        if let Some(sig) = &self.thought_signature {
            push_member(&mut ms, "thought_signature".to_owned(), Json::Str(sig.clone()));
        }
        let r = Json::Obj(ms);
        proof {
            assert(r@->Obj_0 =~= call_json(self@)->Obj_0);
        }
        r
    }
}

impl FunctionResponse {
    pub fn to_json(&self) -> (r: Json)
        ensures
            r@ == resp_json(self@),
    {
        let mut ms: Vec<(String, Json)> = Vec::new();
        push_member(&mut ms, "type".to_owned(), Json::Str("function_result".to_owned()));
        if let Some(id) = &self.id {
            push_member(&mut ms, "call_id".to_owned(), Json::Str(id.clone()));
        }
        push_member(&mut ms, "name".to_owned(), Json::Str(self.name.clone()));
        push_member(&mut ms, "result".to_owned(), self.response.clone());
        let r = Json::Obj(ms);
        proof {
            assert(r@->Obj_0 =~= resp_json(self@)->Obj_0);
        }
        r
    }
}

impl InteractionPart {
    pub fn to_json(&self) -> (r: Json)
        ensures
            r@ == part_json(self@),
    {
        match self {
            InteractionPart::Text { text } => {
                let mut ms: Vec<(String, Json)> = Vec::new();
                push_member(&mut ms, "type".to_owned(), Json::Str("text".to_owned()));
                push_member(&mut ms, "text".to_owned(), Json::Str(text.clone()));
                let r = Json::Obj(ms);
                proof {
                    assert(r@->Obj_0 =~= part_json(self@)->Obj_0);
                }
                r
            }
            InteractionPart::Thought { signature, summary } => {
                let mut ms: Vec<(String, Json)> = Vec::new();
                push_member(&mut ms, "type".to_owned(), Json::Str("thought".to_owned()));
                push_member(&mut ms, "signature".to_owned(), Json::Str(signature.clone()));
                if !summary.as_str().is_empty() {
                    push_member(&mut ms, "summary".to_owned(), Json::Str(summary.clone()));
                }
                let r = Json::Obj(ms);
                proof {
                    assert(r@->Obj_0 =~= part_json(self@)->Obj_0);
                }
                r
            }
            InteractionPart::Image(m) => m.to_json_tagged("image"),
            InteractionPart::Audio(m) => m.to_json_tagged("audio"),
            InteractionPart::Video(m) => m.to_json_tagged("video"),
            InteractionPart::Document(m) => m.to_json_tagged("document"),
            InteractionPart::FunctionCall(c) => c.to_json(),
            InteractionPart::FunctionResponse(f) => f.to_json(),
        }
    }
}

pub fn parts_to_json(ps: &Vec<InteractionPart>) -> (r: Json)
    ensures
        r@ == parts_json(seq_view(ps@)),
{
    let mut out: Vec<Json> = Vec::new();
    let mut i: usize = 0;
    while i < ps.len()
        invariant
            i <= ps.len(),
            out@.len() == i,
            forall|k: int| 0 <= k < i ==> (#[trigger] out@[k])@ == part_json(ps@[k]@),
        decreases ps.len() - i,
    {
        out.push(ps[i].to_json());
        i += 1;
    }
    let r = Json::Arr(out);
    proof {
        lemma_jview_list(out@);
        assert(r@->Arr_0 =~= parts_json(seq_view(ps@))->Arr_0);
    }
    r
}

impl InteractionTurn {
    pub fn to_json(&self) -> (r: Json)
        ensures
            r@ == turn_json(self@),
    {
        let mut ms: Vec<(String, Json)> = Vec::new();
        push_member(&mut ms, "role".to_owned(), Json::Str(role_str(self.role).to_owned()));
        push_member(&mut ms, "content".to_owned(), parts_to_json(&self.content.0));
        let r = Json::Obj(ms);
        proof {
            assert(r@->Obj_0 =~= turn_json(self@)->Obj_0);
        }
        r
    }
}

pub fn turns_to_json(ts: &Vec<InteractionTurn>) -> (r: Json)
    ensures
        r@ == turns_json(seq_view(ts@)),
{
    let mut out: Vec<Json> = Vec::new();
    let mut i: usize = 0;
    while i < ts.len()
        invariant
            i <= ts.len(),
            out@.len() == i,
            forall|k: int| 0 <= k < i ==> (#[trigger] out@[k])@ == turn_json(ts@[k]@),
        decreases ts.len() - i,
    {
        out.push(ts[i].to_json());
        i += 1;
    }
    let r = Json::Arr(out);
    proof {
        lemma_jview_list(out@);
        assert(r@->Arr_0 =~= turns_json(seq_view(ts@))->Arr_0);
    }
    r
}

impl InteractionInput {
    pub fn to_json(&self) -> (r: Json)
        ensures
            r@ == input_json(self@),
    {
        match self {
            InteractionInput::Text(s) => Json::Str(s.clone()),
            InteractionInput::Parts(ps) => parts_to_json(ps),
            InteractionInput::Turns(ts) => turns_to_json(ts),
        }
    }
}

impl FunctionDeclaration {
    fn members_json(&self) -> (r: Vec<(String, Json)>)
        ensures
            jview_members(r@) == decl_members(self@),
    {
        let mut ms: Vec<(String, Json)> = Vec::new();
        push_member(&mut ms, "name".to_owned(), Json::Str(self.name.clone()));
        push_member(&mut ms, "description".to_owned(), Json::Str(self.description.clone()));
        if let Some(p) = &self.parameters {
            push_member(&mut ms, "parameters".to_owned(), p.clone());
        }
        proof {
            assert(jview_members(ms@) =~= decl_members(self@));
        }
        ms
    }
}

impl Tool {
    pub fn to_json(&self) -> (r: Json)
        ensures
            r@ == tool_json(self@),
    {
        match self {
            Tool::GoogleSearch => {
                let mut ms: Vec<(String, Json)> = Vec::new();
                push_member(&mut ms, "type".to_owned(), Json::Str("google_search".to_owned()));
                let r = Json::Obj(ms);
                proof {
                    assert(r@->Obj_0 =~= tool_json(self@)->Obj_0);
                }
                r
            }
            Tool::CodeExecution => {
                let mut ms: Vec<(String, Json)> = Vec::new();
                push_member(&mut ms, "type".to_owned(), Json::Str("code_execution".to_owned()));
                let r = Json::Obj(ms);
                proof {
                    assert(r@->Obj_0 =~= tool_json(self@)->Obj_0);
                }
                r
            }
            Tool::UrlContext => {
                let mut ms: Vec<(String, Json)> = Vec::new();
                push_member(&mut ms, "type".to_owned(), Json::Str("url_context".to_owned()));
                let r = Json::Obj(ms);
                proof {
                    assert(r@->Obj_0 =~= tool_json(self@)->Obj_0);
                }
                r
            }
            Tool::Function { declaration } => {
                let mut ms: Vec<(String, Json)> = Vec::new();
                push_member(&mut ms, "type".to_owned(), Json::Str("function".to_owned()));
                let rest = declaration.members_json();
                proof {
                    crate::json::lemma_jview_members(rest@);
                    assert(jview_members(rest@).subrange(0, 0)
                        =~= Seq::<(Seq<char>, JsonV)>::empty());
                    assert(jview_members(ms@) =~= seq![("type"@, JsonV::Str("function"@))]
                        + jview_members(rest@).subrange(0, 0));
                }
                let mut j: usize = 0;
                while j < rest.len()
                    invariant
                        j <= rest.len(),
                        *self is Function,
                        jview_members(rest@) == decl_members(self->Function_declaration@),
                        jview_members(rest@).len() == rest@.len(),
                        forall|k: int| 0 <= k < rest@.len()
                            ==> jview_members(rest@)[k] == (rest@[k].0@, jview(rest@[k].1)),
                        jview_members(ms@) == seq![("type"@, JsonV::Str("function"@))]
                            + jview_members(rest@).subrange(0, j as int),
                    decreases rest.len() - j,
                {
                    let pair = &rest[j];
                    push_member(&mut ms, pair.0.clone(), pair.1.clone());
                    proof {
                        assert(jview_members(ms@) =~= seq![("type"@, JsonV::Str("function"@))]
                            + jview_members(rest@).subrange(0, j + 1));
                    }
                    j += 1;
                }
                let r = Json::Obj(ms);
                proof {
                    assert(jview_members(rest@).subrange(0, rest@.len() as int)
                        =~= jview_members(rest@));
                    assert(r@->Obj_0 =~= tool_json(self@)->Obj_0);
                }
                r
            }
            Tool::ComputerUse { environment, excluded_predefined_functions } => {
                let mut ms: Vec<(String, Json)> = Vec::new();
                push_member(&mut ms, "type".to_owned(), Json::Str("computer_use".to_owned()));
                push_member(&mut ms, "environment".to_owned(), Json::Str(environment.clone()));
                if let Some(excluded) = excluded_predefined_functions {
                    let mut items: Vec<Json> = Vec::new();
                    let mut j: usize = 0;
                    while j < excluded.len()
                        invariant
                            j <= excluded.len(),
                            items@.len() == j,
                            forall|k: int| 0 <= k < j
                                ==> (#[trigger] items@[k])@ == JsonV::Str(excluded@[k]@),
                        decreases excluded.len() - j,
                    {
                        items.push(Json::Str(excluded[j].clone()));
                        j += 1;
                    }
                    let arr = Json::Arr(items);
                    proof {
                        lemma_jview_list(arr->Arr_0@);
                        let ghost ex = seq_view(excluded@);
                        assert(jview_list(arr->Arr_0@)
                            =~= Seq::new(ex.len(), |i: int| JsonV::Str(ex[i])));
                    }
                    push_member(&mut ms, "excluded_predefined_functions".to_owned(), arr);
                }
                let r = Json::Obj(ms);
                proof {
                    assert(r@->Obj_0 =~= tool_json(self@)->Obj_0);
                }
                r
            }
            Tool::McpServer { name, url } => {
                let mut ms: Vec<(String, Json)> = Vec::new();
                push_member(&mut ms, "type".to_owned(), Json::Str("mcp_server".to_owned()));
                push_member(&mut ms, "name".to_owned(), Json::Str(name.clone()));
                push_member(&mut ms, "url".to_owned(), Json::Str(url.clone()));
                let r = Json::Obj(ms);
                proof {
                    assert(r@->Obj_0 =~= tool_json(self@)->Obj_0);
                }
                r
            }
        }
    }
}

} // verus!

verus! {

impl GenerationConfig {
    pub fn to_json(&self) -> (r: Json)
        ensures
            r@ == gen_json(self@),
    {
        let mut ms: Vec<(String, Json)> = Vec::new();
        if let Some(level) = self.thinking_level {
            push_member(&mut ms, "thinking_level".to_owned(), Json::Str(level_str(level).to_owned()));
        }
        if let Some(t) = &self.temperature {
            push_member(&mut ms, "temperature".to_owned(), Json::Num(t.clone()));
        }
        if let Some(n) = self.max_output_tokens {
            push_member(&mut ms, "max_output_tokens".to_owned(), Json::Num(u64_to_string(n as u64)));
        }
        if let Some(m) = &self.response_mime_type {
            push_member(&mut ms, "response_mime_type".to_owned(), Json::Str(m.clone()));
        }
        if let Some(s) = &self.response_schema {
            push_member(&mut ms, "response_schema".to_owned(), s.clone());
        }
        let r = Json::Obj(ms);
        proof {
            assert(r@->Obj_0 =~= gen_json(self@)->Obj_0);
        }
        r
    }
}

impl SafetySetting {
    pub fn to_json(&self) -> (r: Json)
        ensures
            r@ == safety_json(*self),
    {
        let mut ms: Vec<(String, Json)> = Vec::new();
        push_member(&mut ms, "category".to_owned(), Json::Str(category_str(self.category).to_owned()));
        push_member(&mut ms, "threshold".to_owned(), Json::Str(threshold_str(self.threshold).to_owned()));
        let r = Json::Obj(ms);
        proof {
            assert(r@->Obj_0 =~= safety_json(*self)->Obj_0);
        }
        r
    }
}

pub fn safeties_to_json(ss: &Vec<SafetySetting>) -> (r: Json)
    ensures
        r@ == safeties_json(ss@),
{
    let mut out: Vec<Json> = Vec::new();
    let mut i: usize = 0;
    while i < ss.len()
        invariant
            i <= ss.len(),
            out@.len() == i,
            forall|k: int| 0 <= k < i ==> (#[trigger] out@[k])@ == safety_json(ss@[k]),
        decreases ss.len() - i,
    {
        out.push(ss[i].to_json());
        i += 1;
    }
    let r = Json::Arr(out);
    proof {
        lemma_jview_list(out@);
        assert(r@->Arr_0 =~= safeties_json(ss@)->Arr_0);
    }
    r
}

pub fn tools_to_json(ts: &Vec<Tool>) -> (r: Json)
    ensures
        r@ == tools_json(seq_view(ts@)),
{
    let mut out: Vec<Json> = Vec::new();
    let mut i: usize = 0;
    while i < ts.len()
        invariant
            i <= ts.len(),
            out@.len() == i,
            forall|k: int| 0 <= k < i ==> (#[trigger] out@[k])@ == tool_json(ts@[k]@),
        decreases ts.len() - i,
    {
        out.push(ts[i].to_json());
        i += 1;
    }
    let r = Json::Arr(out);
    proof {
        lemma_jview_list(out@);
        assert(r@->Arr_0 =~= tools_json(seq_view(ts@))->Arr_0);
    }
    r
}

impl ToolChoice {
    pub fn to_json(&self) -> (r: Json)
        ensures
            r@ == choice_json(self@),
    {
        match self {
            ToolChoice::Auto => Json::Str("auto".to_owned()),
            ToolChoice::Any => Json::Str("any".to_owned()),
            ToolChoice::NoTool => Json::Str("none".to_owned()),
            ToolChoice::Function { name } => {
                let mut inner: Vec<(String, Json)> = Vec::new();
                push_member(&mut inner, "name".to_owned(), Json::Str(name.clone()));
                let mut ms: Vec<(String, Json)> = Vec::new();
                push_member(&mut ms, "function".to_owned(), Json::Obj(inner));
                let r = Json::Obj(ms);
                proof {
                    assert(r@->Obj_0 =~= choice_json(self@)->Obj_0);
                }
                r
            }
        }
    }
}

/// One request to the interaction endpoint.
#[derive(Debug)]
pub struct InteractionRequest {
    pub model: Option<String>,
    pub cached_content: Option<String>,
    pub agent: Option<String>,
    pub input: InteractionInput,
    pub system_instruction: Option<InteractionContent>,
    pub previous_interaction_id: Option<String>,
    pub tools: Option<Vec<Tool>>,
    pub tool_choice: Option<ToolChoice>,
    pub generation_config: Option<GenerationConfig>,
    pub safety_settings: Option<Vec<SafetySetting>>,
    pub store: Option<bool>,
    pub background: Option<bool>,
    pub stream: Option<bool>,
}

pub struct ReqV {
    pub model: Option<Seq<char>>,
    pub cached_content: Option<Seq<char>>,
    pub agent: Option<Seq<char>>,
    pub input: InputV,
    pub system_instruction: Option<Seq<PartV>>,
    pub previous_interaction_id: Option<Seq<char>>,
    pub tools: Option<Seq<ToolV>>,
    pub tool_choice: Option<ToolChoiceV>,
    pub generation_config: Option<GenV>,
    pub safety_settings: Option<Seq<SafetySetting>>,
    pub store: Option<bool>,
    pub background: Option<bool>,
    pub stream: Option<bool>,
}

impl View for InteractionRequest {
    type V = ReqV;

    open spec fn view(&self) -> ReqV {
        ReqV {
            model: opt_view(self.model),
            cached_content: opt_view(self.cached_content),
            agent: opt_view(self.agent),
            input: self.input@,
            system_instruction: match self.system_instruction {
                Some(c) => Some(c@),
                None => None,
            },
            previous_interaction_id: opt_view(self.previous_interaction_id),
            tools: match self.tools {
                Some(ts) => Some(seq_view(ts@)),
                None => None,
            },
            tool_choice: match self.tool_choice {
                Some(c) => Some(c@),
                None => None,
            },
            generation_config: match self.generation_config {
                Some(g) => Some(g@),
                None => None,
            },
            safety_settings: match self.safety_settings {
                Some(ss) => Some(ss@),
                None => None,
            },
            store: self.store,
            background: self.background,
            stream: self.stream,
        }
    }
}

/// A whole request on the wire: members present exactly where set.
pub open spec fn request_json(r: ReqV) -> JsonV {
    let ms = Seq::<(Seq<char>, JsonV)>::empty();
    let ms = if r.model is Some { ms.push(("model"@, JsonV::Str(r.model->0))) } else { ms };
    let ms = if r.cached_content is Some {
        ms.push(("cached_content"@, JsonV::Str(r.cached_content->0)))
    } else { ms };
    let ms = if r.agent is Some { ms.push(("agent"@, JsonV::Str(r.agent->0))) } else { ms };
    let ms = ms.push(("input"@, input_json(r.input)));
    let ms = if r.system_instruction is Some {
        ms.push(("system_instruction"@, parts_json(r.system_instruction->0)))
    } else { ms };
    let ms = if r.previous_interaction_id is Some {
        ms.push(("previous_interaction_id"@, JsonV::Str(r.previous_interaction_id->0)))
    } else { ms };
    let ms = if r.tools is Some { ms.push(("tools"@, tools_json(r.tools->0))) } else { ms };
    let ms = if r.tool_choice is Some {
        ms.push(("tool_choice"@, choice_json(r.tool_choice->0)))
    } else { ms };
    let ms = if r.generation_config is Some {
        ms.push(("generation_config"@, gen_json(r.generation_config->0)))
    } else { ms };
    let ms = if r.safety_settings is Some {
        ms.push(("safety_settings"@, safeties_json(r.safety_settings->0)))
    } else { ms };
    let ms = if r.store is Some { ms.push(("store"@, JsonV::Bool(r.store->0))) } else { ms };
    let ms = if r.background is Some {
        ms.push(("background"@, JsonV::Bool(r.background->0)))
    } else { ms };
    let ms = if r.stream is Some { ms.push(("stream"@, JsonV::Bool(r.stream->0))) } else { ms };
    JsonV::Obj(ms)
}

impl InteractionRequest {
    #[verifier::spinoff_prover]
    #[verifier::rlimit(100)]
    pub fn to_json(&self) -> (r: Json)
        ensures
            r@ == request_json(self@),
    {
        let ghost rv = self@;
        let mut ms: Vec<(String, Json)> = Vec::new();
        let ghost mut sm = Seq::<(Seq<char>, JsonV)>::empty();
        proof {
            assert(jview_members(ms@) =~= sm);
        }
        if let Some(m) = &self.model {
            push_member(&mut ms, "model".to_owned(), Json::Str(m.clone()));
        }
        proof {
            sm = if rv.model is Some { sm.push(("model"@, JsonV::Str(rv.model->0))) } else { sm };
            assert(jview_members(ms@) == sm);
        }
        if let Some(c) = &self.cached_content {
            push_member(&mut ms, "cached_content".to_owned(), Json::Str(c.clone()));
        }
        proof {
            sm = if rv.cached_content is Some { sm.push(("cached_content"@, JsonV::Str(rv.cached_content->0))) } else { sm };
            assert(jview_members(ms@) == sm);
        }
        if let Some(a) = &self.agent {
            push_member(&mut ms, "agent".to_owned(), Json::Str(a.clone()));
        }
        proof {
            sm = if rv.agent is Some { sm.push(("agent"@, JsonV::Str(rv.agent->0))) } else { sm };
            assert(jview_members(ms@) == sm);
        }
        push_member(&mut ms, "input".to_owned(), self.input.to_json());
        proof {
            sm = sm.push(("input"@, input_json(rv.input)));
            assert(jview_members(ms@) == sm);
        }
        if let Some(si) = &self.system_instruction {
            push_member(&mut ms, "system_instruction".to_owned(), parts_to_json(&si.0));
        }
        proof {
            sm = if rv.system_instruction is Some { sm.push(("system_instruction"@, parts_json(rv.system_instruction->0))) } else { sm };
            assert(jview_members(ms@) == sm);
        }
        if let Some(p) = &self.previous_interaction_id {
            push_member(&mut ms, "previous_interaction_id".to_owned(), Json::Str(p.clone()));
        }
        proof {
            sm = if rv.previous_interaction_id is Some { sm.push(("previous_interaction_id"@, JsonV::Str(rv.previous_interaction_id->0))) } else { sm };
            assert(jview_members(ms@) == sm);
        }
        if let Some(ts) = &self.tools {
            push_member(&mut ms, "tools".to_owned(), tools_to_json(ts));
        }
        proof {
            sm = if rv.tools is Some { sm.push(("tools"@, tools_json(rv.tools->0))) } else { sm };
            assert(jview_members(ms@) == sm);
        }
        if let Some(tc) = &self.tool_choice {
            push_member(&mut ms, "tool_choice".to_owned(), tc.to_json());
        }
        proof {
            sm = if rv.tool_choice is Some { sm.push(("tool_choice"@, choice_json(rv.tool_choice->0))) } else { sm };
            assert(jview_members(ms@) == sm);
        }
        if let Some(g) = &self.generation_config {
            push_member(&mut ms, "generation_config".to_owned(), g.to_json());
        }
        proof {
            sm = if rv.generation_config is Some { sm.push(("generation_config"@, gen_json(rv.generation_config->0))) } else { sm };
            assert(jview_members(ms@) == sm);
        }
        if let Some(ss) = &self.safety_settings {
            push_member(&mut ms, "safety_settings".to_owned(), safeties_to_json(ss));
        }
        proof {
            sm = if rv.safety_settings is Some { sm.push(("safety_settings"@, safeties_json(rv.safety_settings->0))) } else { sm };
            assert(jview_members(ms@) == sm);
        }
        if let Some(b) = self.store {
            push_member(&mut ms, "store".to_owned(), Json::Bool(b));
        }
        proof {
            sm = if rv.store is Some { sm.push(("store"@, JsonV::Bool(rv.store->0))) } else { sm };
            assert(jview_members(ms@) == sm);
        }
        if let Some(b) = self.background {
            push_member(&mut ms, "background".to_owned(), Json::Bool(b));
        }
        proof {
            sm = if rv.background is Some { sm.push(("background"@, JsonV::Bool(rv.background->0))) } else { sm };
            assert(jview_members(ms@) == sm);
        }
        if let Some(b) = self.stream {
            push_member(&mut ms, "stream".to_owned(), Json::Bool(b));
        }
        proof {
            sm = if rv.stream is Some { sm.push(("stream"@, JsonV::Bool(rv.stream->0))) } else { sm };
            assert(jview_members(ms@) == sm);
        }
        let r = Json::Obj(ms);
        proof {
            assert(request_json(rv)->Obj_0 == sm);
        }
        r
    }

    /// The request body as it goes onto the wire.
    pub fn to_body(&self) -> (r: String)
        ensures
            r@ == rendered(request_json(self@)),
    {
        self.to_json().to_text()
    }
}

} // verus!
