//! Data types of the interaction protocol: what a turn sends to the model
//! and what comes back, together with their mathematical views.

use vstd::prelude::*;
use crate::json::{Json, JsonV, jview};

verus! {

/// A sequence of element views, in order.
pub open spec fn seq_view<T: View>(s: Seq<T>) -> Seq<T::V> {
    Seq::new(s.len(), |i: int| s[i]@)
}

/// The author of one conversation turn.
#[derive(Debug, Clone, Copy, PartialEq, Eq, Structural)]
pub enum Role {
    User,
    Model,
    Tool,
}

/// Inline binary content (legacy content API).
#[derive(Debug, Clone)]
pub struct Blob {
    pub mime_type: String,
    pub data: String,
}

/// Content referenced by file URI (legacy content API).
#[derive(Debug, Clone)]
pub struct FileData {
    pub mime_type: String,
    pub file_uri: String,
}

/// Media carried in a part, by reference or inline.
#[derive(Debug)]
pub struct MediaPart {
    pub uri: Option<String>,
    pub data: Option<String>,
    pub mime_type: String,
}

pub struct MediaV {
    pub uri: Option<Seq<char>>,
    pub data: Option<Seq<char>>,
    pub mime_type: Seq<char>,
}

pub open spec fn opt_view(o: Option<String>) -> Option<Seq<char>> {
    match o {
        Some(s) => Some(s@),
        None => None,
    }
}

impl View for MediaPart {
    type V = MediaV;

    open spec fn view(&self) -> MediaV {
        MediaV { uri: opt_view(self.uri), data: opt_view(self.data), mime_type: self.mime_type@ }
    }
}

pub fn clone_opt_string(o: &Option<String>) -> (r: Option<String>)
    ensures
        opt_view(r) == opt_view(*o),
{
    match o {
        Some(s) => Some(s.clone()),
        None => None,
    }
}

impl Clone for MediaPart {
    fn clone(&self) -> (r: Self)
        ensures
            r@ == self@,
    {
        MediaPart {
            uri: clone_opt_string(&self.uri),
            data: clone_opt_string(&self.data),
            mime_type: self.mime_type.clone(),
        }
    }
}

/// A tool invocation the model asks for.
#[derive(Debug)]
pub struct FunctionCall {
    pub id: Option<String>,
    pub name: String,
    pub args: Json,
    pub thought_signature: Option<String>,
}

pub struct CallV {
    pub id: Option<Seq<char>>,
    pub name: Seq<char>,
    pub args: JsonV,
    pub thought_signature: Option<Seq<char>>,
}

impl View for FunctionCall {
    type V = CallV;

    open spec fn view(&self) -> CallV {
        CallV {
            id: opt_view(self.id),
            name: self.name@,
            args: self.args@,
            thought_signature: opt_view(self.thought_signature),
        }
    }
}

impl Clone for FunctionCall {
    fn clone(&self) -> (r: Self)
        ensures
            r@ == self@,
    {
        FunctionCall {
            id: clone_opt_string(&self.id),
            name: self.name.clone(),
            args: self.args.clone(),
            thought_signature: clone_opt_string(&self.thought_signature),
        }
    }
}

/// The answer a tool call is given on the next turn.
#[derive(Debug)]
pub struct FunctionResponse {
    pub id: Option<String>,
    pub name: String,
    pub response: Json,
}

pub struct RespV {
    pub id: Option<Seq<char>>,
    pub name: Seq<char>,
    pub response: JsonV,
}

impl View for FunctionResponse {
    type V = RespV;

    open spec fn view(&self) -> RespV {
        RespV { id: opt_view(self.id), name: self.name@, response: self.response@ }
    }
}

impl Clone for FunctionResponse {
    fn clone(&self) -> (r: Self)
        ensures
            r@ == self@,
    {
        FunctionResponse {
            id: clone_opt_string(&self.id),
            name: self.name.clone(),
            response: self.response.clone(),
        }
    }
}

/// One piece of wire content inside a turn.
#[derive(Debug)]
pub enum InteractionPart {
    Text { text: String },
    Thought { signature: String, summary: String },
    Image(MediaPart),
    Audio(MediaPart),
    Video(MediaPart),
    Document(MediaPart),
    FunctionCall(FunctionCall),
    FunctionResponse(FunctionResponse),
}

pub enum PartV {
    Text { text: Seq<char> },
    Thought { signature: Seq<char>, summary: Seq<char> },
    Image(MediaV),
    Audio(MediaV),
    Video(MediaV),
    Document(MediaV),
    FunctionCall(CallV),
    FunctionResponse(RespV),
}

impl View for InteractionPart {
    type V = PartV;

    open spec fn view(&self) -> PartV {
        match *self {
            InteractionPart::Text { text } => PartV::Text { text: text@ },
            InteractionPart::Thought { signature, summary } => PartV::Thought {
                signature: signature@,
                summary: summary@,
            },
            InteractionPart::Image(m) => PartV::Image(m@),
            InteractionPart::Audio(m) => PartV::Audio(m@),
            InteractionPart::Video(m) => PartV::Video(m@),
            InteractionPart::Document(m) => PartV::Document(m@),
            InteractionPart::FunctionCall(c) => PartV::FunctionCall(c@),
            InteractionPart::FunctionResponse(f) => PartV::FunctionResponse(f@),
        }
    }
}

impl Clone for InteractionPart {
    fn clone(&self) -> (r: Self)
        ensures
            r@ == self@,
    {
        match self {
            InteractionPart::Text { text } => InteractionPart::Text { text: text.clone() },
            InteractionPart::Thought { signature, summary } => InteractionPart::Thought {
                signature: signature.clone(),
                summary: summary.clone(),
            },
            InteractionPart::Image(m) => InteractionPart::Image(m.clone()),
            InteractionPart::Audio(m) => InteractionPart::Audio(m.clone()),
            InteractionPart::Video(m) => InteractionPart::Video(m.clone()),
            InteractionPart::Document(m) => InteractionPart::Document(m.clone()),
            InteractionPart::FunctionCall(c) => InteractionPart::FunctionCall(c.clone()),
            InteractionPart::FunctionResponse(f) => InteractionPart::FunctionResponse(f.clone()),
        }
    }
}

pub fn clone_parts(v: &Vec<InteractionPart>) -> (r: Vec<InteractionPart>)
    ensures
        seq_view(r@) =~= seq_view(v@),
{
    let mut out: Vec<InteractionPart> = Vec::new();
    let mut i: usize = 0;
    while i < v.len()
        invariant
            i <= v.len(),
            out@.len() == i,
            forall|k: int| 0 <= k < i ==> (#[trigger] out@[k])@ == v@[k]@,
        decreases v.len() - i,
    {
        out.push(v[i].clone());
        i += 1;
    }
    out
}

/// The ordered content of one conversation turn.
#[derive(Debug)]
pub struct InteractionContent(pub Vec<InteractionPart>);

impl View for InteractionContent {
    type V = Seq<PartV>;

    open spec fn view(&self) -> Seq<PartV> {
        seq_view(self.0@)
    }
}

impl Clone for InteractionContent {
    fn clone(&self) -> (r: Self)
        ensures
            r@ =~= self@,
    {
        InteractionContent(clone_parts(&self.0))
    }
}

impl InteractionContent {
    /// Content of a single text part.
    pub fn from_text(text: String) -> (r: Self)
        ensures
            r@ =~= seq![PartV::Text { text: text@ }],
    {
        InteractionContent(vec![InteractionPart::Text { text }])
    }

    /// Content made of the given parts.
    pub fn from_parts(parts: Vec<InteractionPart>) -> (r: Self)
        ensures
            r@ == seq_view(parts@),
    {
        InteractionContent(parts)
    }
}

/// Which part variant carries a piece of media, decided by its MIME type's
/// top-level family; anything unrecognized rides as a document.
pub open spec fn media_part_variant(m: MediaV) -> PartV {
    if m.mime_type.len() >= 6 && m.mime_type.take(6) == "image/"@ {
        PartV::Image(m)
    } else if m.mime_type.len() >= 6 && m.mime_type.take(6) == "audio/"@ {
        PartV::Audio(m)
    } else if m.mime_type.len() >= 6 && m.mime_type.take(6) == "video/"@ {
        PartV::Video(m)
    } else {
        PartV::Document(m)
    }
}

/// Wraps media in the part its MIME type calls for.
pub fn media_part_for_mime(media: MediaPart) -> (r: InteractionPart)
    ensures
        r@ == media_part_variant(media@),
{
    proof {
        reveal_strlit("image/");
        reveal_strlit("audio/");
        reveal_strlit("video/");
    }
    if crate::text::str_starts_with(media.mime_type.as_str(), "image/") {
        InteractionPart::Image(media)
    } else if crate::text::str_starts_with(media.mime_type.as_str(), "audio/") {
        InteractionPart::Audio(media)
    } else if crate::text::str_starts_with(media.mime_type.as_str(), "video/") {
        InteractionPart::Video(media)
    } else {
        InteractionPart::Document(media)
    }
}

/// One turn of replayed history, with its author.
#[derive(Debug)]
pub struct InteractionTurn {
    pub role: Role,
    pub content: InteractionContent,
}

pub struct TurnV {
    pub role: Role,
    pub content: Seq<PartV>,
}

impl View for InteractionTurn {
    type V = TurnV;

    open spec fn view(&self) -> TurnV {
        TurnV { role: self.role, content: self.content@ }
    }
}

impl Clone for InteractionTurn {
    fn clone(&self) -> (r: Self)
        ensures
            r@ == self@,
    {
        let r = InteractionTurn { role: self.role, content: self.content.clone() };
        proof {
            assert(r@.content =~= self@.content);
        }
        r
    }
}

pub fn clone_turns(v: &Vec<InteractionTurn>) -> (r: Vec<InteractionTurn>)
    ensures
        seq_view(r@) =~= seq_view(v@),
{
    let mut out: Vec<InteractionTurn> = Vec::new();
    let mut i: usize = 0;
    while i < v.len()
        invariant
            i <= v.len(),
            out@.len() == i,
            forall|k: int| 0 <= k < i ==> (#[trigger] out@[k])@ == v@[k]@,
        decreases v.len() - i,
    {
        out.push(v[i].clone());
        i += 1;
    }
    out
}

/// What a request sends as its `input`.
#[derive(Debug)]
pub enum InteractionInput {
    Text(String),
    Parts(Vec<InteractionPart>),
    Turns(Vec<InteractionTurn>),
}

pub enum InputV {
    Text(Seq<char>),
    Parts(Seq<PartV>),
    Turns(Seq<TurnV>),
}

impl View for InteractionInput {
    type V = InputV;

    open spec fn view(&self) -> InputV {
        match *self {
            InteractionInput::Text(s) => InputV::Text(s@),
            InteractionInput::Parts(ps) => InputV::Parts(seq_view(ps@)),
            InteractionInput::Turns(ts) => InputV::Turns(seq_view(ts@)),
        }
    }
}

impl Clone for InteractionInput {
    fn clone(&self) -> (r: Self)
        ensures
            r@ == self@,
    {
        let r = match self {
            InteractionInput::Text(s) => InteractionInput::Text(s.clone()),
            InteractionInput::Parts(ps) => InteractionInput::Parts(clone_parts(ps)),
            InteractionInput::Turns(ts) => InteractionInput::Turns(clone_turns(ts)),
        };
        proof {
            if *self is Parts {
                assert(r@->Parts_0 =~= self@->Parts_0);
            }
            if *self is Turns {
                assert(r@->Turns_0 =~= self@->Turns_0);
            }
        }
        r
    }
}

/// A tool the model may call, or a built-in capability switched on.
#[derive(Debug)]
pub enum Tool {
    GoogleSearch,
    CodeExecution,
    UrlContext,
    Function { declaration: FunctionDeclaration },
    ComputerUse { environment: String, excluded_predefined_functions: Option<Vec<String>> },
    McpServer { name: String, url: String },
}

pub enum ToolV {
    GoogleSearch,
    CodeExecution,
    UrlContext,
    Function { declaration: DeclV },
    ComputerUse { environment: Seq<char>, excluded_predefined_functions: Option<Seq<Seq<char>>> },
    McpServer { name: Seq<char>, url: Seq<char> },
}

pub open spec fn opt_strings_view(o: Option<Vec<String>>) -> Option<Seq<Seq<char>>> {
    match o {
        Some(v) => Some(seq_view(v@)),
        None => None,
    }
}

impl View for Tool {
    type V = ToolV;

    open spec fn view(&self) -> ToolV {
        match *self {
            Tool::GoogleSearch => ToolV::GoogleSearch,
            Tool::CodeExecution => ToolV::CodeExecution,
            Tool::UrlContext => ToolV::UrlContext,
            Tool::Function { declaration } => ToolV::Function { declaration: declaration@ },
            Tool::ComputerUse { environment, excluded_predefined_functions } => ToolV::ComputerUse {
                environment: environment@,
                excluded_predefined_functions: opt_strings_view(excluded_predefined_functions),
            },
            Tool::McpServer { name, url } => ToolV::McpServer { name: name@, url: url@ },
        }
    }
}

/// How the model is told to pick among tools.
#[derive(Debug)]
pub enum ToolChoice {
    Auto,
    Any,
    Function { name: String },
    NoTool,
}

pub enum ToolChoiceV {
    Auto,
    Any,
    Function { name: Seq<char> },
    NoTool,
}

impl View for ToolChoice {
    type V = ToolChoiceV;

    open spec fn view(&self) -> ToolChoiceV {
        match *self {
            ToolChoice::Auto => ToolChoiceV::Auto,
            ToolChoice::Any => ToolChoiceV::Any,
            ToolChoice::Function { name } => ToolChoiceV::Function { name: name@ },
            ToolChoice::NoTool => ToolChoiceV::NoTool,
        }
    }
}

/// The callable shape of one registered tool.
#[derive(Debug)]
pub struct FunctionDeclaration {
    pub name: String,
    pub description: String,
    pub parameters: Option<Json>,
}

pub struct DeclV {
    pub name: Seq<char>,
    pub description: Seq<char>,
    pub parameters: Option<JsonV>,
}

pub open spec fn opt_json_view(o: Option<Json>) -> Option<JsonV> {
    match o {
        Some(j) => Some(jview(j)),
        None => None,
    }
}

impl View for FunctionDeclaration {
    type V = DeclV;

    open spec fn view(&self) -> DeclV {
        DeclV {
            name: self.name@,
            description: self.description@,
            parameters: opt_json_view(self.parameters),
        }
    }
}

impl Clone for FunctionDeclaration {
    fn clone(&self) -> (r: Self)
        ensures
            r@ == self@,
    {
        FunctionDeclaration {
            name: self.name.clone(),
            description: self.description.clone(),
            parameters: match &self.parameters {
                Some(j) => Some(j.clone()),
                None => None,
            },
        }
    }
}

/// How hard the model is told to think.
#[derive(Debug, Clone, Copy, PartialEq, Eq, Structural)]
pub enum ThinkingLevel {
    Minimal,
    Low,
    Medium,
    High,
}

/// The reasoning budget, wrapped the way the legacy content API nests it.
#[derive(Debug, Clone, Copy, PartialEq, Eq, Structural)]
pub struct ThinkingConfig {
    pub thinking_level: ThinkingLevel,
}

/// How much detail media is processed at (legacy content API).
#[derive(Debug, Clone, Copy, PartialEq, Eq, Structural)]
pub enum MediaResolution {
    MediaResolutionLow,
    MediaResolutionMedium,
    MediaResolutionHigh,
    MediaResolutionUltraHigh,
}

/// Duration metadata of an uploaded video file.
#[derive(Debug, Clone)]
pub struct VideoFileMetadata {
    pub video_duration: String,
}

/// Generation settings carried by a request. The temperature holds the
/// decimal text of the number to be sent.
#[derive(Debug)]
pub struct GenerationConfig {
    pub thinking_level: Option<ThinkingLevel>,
    pub temperature: Option<String>,
    pub max_output_tokens: Option<u32>,
    pub response_mime_type: Option<String>,
    pub response_schema: Option<Json>,
}

pub struct GenV {
    pub thinking_level: Option<ThinkingLevel>,
    pub temperature: Option<Seq<char>>,
    pub max_output_tokens: Option<u32>,
    pub response_mime_type: Option<Seq<char>>,
    pub response_schema: Option<JsonV>,
}

impl View for GenerationConfig {
    type V = GenV;

    open spec fn view(&self) -> GenV {
        GenV {
            thinking_level: self.thinking_level,
            temperature: opt_view(self.temperature),
            max_output_tokens: self.max_output_tokens,
            response_mime_type: opt_view(self.response_mime_type),
            response_schema: opt_json_view(self.response_schema),
        }
    }
}

impl GenerationConfig {
    /// A configuration that asks for nothing in particular.
    pub fn empty() -> (r: Self)
        ensures
            r@.thinking_level is None,
            r@.temperature is None,
            r@.max_output_tokens is None,
            r@.response_mime_type is None,
            r@.response_schema is None,
    {
        GenerationConfig {
            thinking_level: None,
            temperature: None,
            max_output_tokens: None,
            response_mime_type: None,
            response_schema: None,
        }
    }
}

/// A structured error body returned by the server.
#[derive(Debug, Clone)]
pub struct ApiError {
    pub code: String,
    pub message: String,
}

/// One category of content the server screens for.
#[derive(Debug, Clone, Copy, PartialEq, Eq, Structural)]
pub enum SafetyCategory {
    HateSpeech,
    SexuallyExplicit,
    Harassment,
    DangerousContent,
    CivicIntegrity,
}

/// How aggressively a category is blocked.
#[derive(Debug, Clone, Copy, PartialEq, Eq, Structural)]
pub enum SafetyThreshold {
    BlockNone,
    BlockOnlyHigh,
    BlockMediumAndAbove,
    BlockLowAndAbove,
}

/// One safety rule attached to a request.
#[derive(Debug, Clone, Copy, PartialEq, Eq, Structural)]
pub struct SafetySetting {
    pub category: SafetyCategory,
    pub threshold: SafetyThreshold,
}

/// Where an uploaded file stands in processing.
#[derive(Debug, Clone, Copy, PartialEq, Eq, Structural)]
pub enum FileState {
    StateUnspecified,
    Processing,
    Active,
    Failed,
}

/// How a stored file came to exist.
#[derive(Debug, Clone, Copy, PartialEq, Eq, Structural)]
pub enum FileSource {
    SourceUnspecified,
    Uploaded,
    Generated,
    Registered,
}

/// A batch job submission.
#[derive(Debug, Clone)]
pub struct BatchRequest {
    pub display_name: String,
    pub input_config: BatchInputConfig,
}

/// Where a batch job reads its requests from.
#[derive(Debug, Clone)]
pub struct BatchInputConfig {
    pub file_name: String,
}

/// Metadata of a batch job.
#[derive(Debug, Clone)]
pub struct Batch {
    pub name: String,
    pub display_name: String,
    pub model: String,
    pub state: BatchState,
    pub create_time: String,
    pub end_time: Option<String>,
    pub update_time: String,
}

/// Where a batch job stands.
#[derive(Debug, Clone, Copy, PartialEq, Eq, Structural)]
pub enum BatchState {
    BatchStateUnspecified,
    Pending,
    Running,
    Succeeded,
    Failed,
    Cancelled,
    Expired,
}

// ---------------------------------------------------------------------------
// What comes back from the server.
// ---------------------------------------------------------------------------

/// One output item of a finished or streaming interaction.
#[derive(Debug)]
pub enum InteractionOutput {
    Text { text: String },
    Thought { signature: String, summary: String },
    FunctionCall(FunctionCall),
    FunctionResponse(FunctionResponse),
    ContentDelta { text: String, thought: Option<bool> },
    Unknown,
}

pub enum OutputV {
    Text { text: Seq<char> },
    Thought { signature: Seq<char>, summary: Seq<char> },
    FunctionCall(CallV),
    FunctionResponse(RespV),
    ContentDelta { text: Seq<char>, thought: Option<bool> },
    Unknown,
}

impl View for InteractionOutput {
    type V = OutputV;

    open spec fn view(&self) -> OutputV {
        match *self {
            InteractionOutput::Text { text } => OutputV::Text { text: text@ },
            InteractionOutput::Thought { signature, summary } => OutputV::Thought {
                signature: signature@,
                summary: summary@,
            },
            InteractionOutput::FunctionCall(c) => OutputV::FunctionCall(c@),
            InteractionOutput::FunctionResponse(f) => OutputV::FunctionResponse(f@),
            InteractionOutput::ContentDelta { text, thought } => OutputV::ContentDelta {
                text: text@,
                thought,
            },
            InteractionOutput::Unknown => OutputV::Unknown,
        }
    }
}

/// The server-side record of an interaction.
#[derive(Debug)]
pub struct InteractionResponse {
    pub id: Option<String>,
    pub model: String,
    pub status: String,
    pub outputs: Vec<InteractionOutput>,
}

pub struct ResponseV {
    pub id: Option<Seq<char>>,
    pub model: Seq<char>,
    pub status: Seq<char>,
    pub outputs: Seq<OutputV>,
}

impl View for InteractionResponse {
    type V = ResponseV;

    open spec fn view(&self) -> ResponseV {
        ResponseV {
            id: opt_view(self.id),
            model: self.model@,
            status: self.status@,
            outputs: seq_view(self.outputs@),
        }
    }
}

/// What kind of content a streaming block starts.
#[derive(Debug, Clone)]
pub struct ContentStartInfo {
    pub content_type: String,
}

/// One event of a streaming interaction.
#[derive(Debug)]
pub enum InteractionEvent {
    InteractionStart { interaction: InteractionResponse },
    StatusUpdate { status: String },
    ContentStart { index: u32, content: ContentStartInfo },
    ContentDelta { delta: InteractionOutput, index: Option<u32> },
    InteractionComplete { interaction: InteractionResponse },
    Other,
}

pub enum EventV {
    InteractionStart { interaction: ResponseV },
    StatusUpdate { status: Seq<char> },
    ContentStart { index: u32, content_type: Seq<char> },
    ContentDelta { delta: OutputV, index: Option<u32> },
    InteractionComplete { interaction: ResponseV },
    Other,
}

impl View for InteractionEvent {
    type V = EventV;

    open spec fn view(&self) -> EventV {
        match *self {
            InteractionEvent::InteractionStart { interaction } => EventV::InteractionStart {
                interaction: interaction@,
            },
            InteractionEvent::StatusUpdate { status } => EventV::StatusUpdate { status: status@ },
            InteractionEvent::ContentStart { index, content } => EventV::ContentStart {
                index,
                content_type: content.content_type@,
            },
            InteractionEvent::ContentDelta { delta, index } => EventV::ContentDelta {
                delta: delta@,
                index,
            },
            InteractionEvent::InteractionComplete { interaction } => EventV::InteractionComplete {
                interaction: interaction@,
            },
            InteractionEvent::Other => EventV::Other,
        }
    }
}

} // verus!
