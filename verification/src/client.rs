//! The interaction client's verified side: request construction, headers,
//! and the reading of server error bodies. The transport itself lives
//! outside and hands bytes and statuses back in.

use vstd::prelude::*;
use crate::json::{JsonV, json_of, parse_json};
use crate::protocol::{InteractionInput, InteractionContent, Tool, ToolChoice, GenerationConfig,
    ThinkingLevel, seq_view};
use crate::wire::{InteractionRequest, ReqV};
use crate::sse::str_req;
use vstd::string::StringSliceAdditionalSpecFns;

verus! {

/// The client: endpoint coordinates and credentials. The connection pool
/// around it lives outside the verified core.
#[derive(Debug, Clone)]
pub struct Client {
    pub api_key: String,
    pub model: String,
    pub base_url: String,
}

pub struct ClientV {
    pub api_key: Seq<char>,
    pub model: Seq<char>,
    pub base_url: Seq<char>,
}

impl View for Client {
    type V = ClientV;

    open spec fn view(&self) -> ClientV {
        ClientV { api_key: self.api_key@, model: self.model@, base_url: self.base_url@ }
    }
}

impl Client {
    /// A client against the production endpoint.
    pub fn new(api_key: String, model: String) -> (r: Self)
        ensures
            r@.api_key == api_key@,
            r@.model == model@,
            r@.base_url == "https://generativelanguage.googleapis.com"@,
    {
        Client {
            api_key,
            model,
            base_url: "https://generativelanguage.googleapis.com".to_owned(),
        }
    }

    /// The same client aimed at another model.
    pub fn with_model(self, model: String) -> (r: Self)
        ensures
            r@ == (ClientV { model: model@, ..self@ }),
    {
        Client { model, ..self }
    }

    /// The same client aimed at another base address.
    pub fn with_base_url(self, base_url: String) -> (r: Self)
        ensures
            r@ == (ClientV { base_url: base_url@, ..self@ }),
    {
        Client { base_url, ..self }
    }

    /// The absolute address of one endpoint path.
    pub fn request_url(&self, path: &str) -> (r: String)
        ensures
            r@ == self@.base_url + path@,
    {
        let mut url = self.base_url.clone();
        url.append(path);
        url
    }

    /// The headers every request carries: the key, the content type, and a
    /// correlation id.
    pub fn request_headers(&self, request_id: &str) -> (r: Vec<(String, String)>)
        ensures
            seq_view(r@) =~= seq![
                ("x-goog-api-key"@, self@.api_key),
                ("Content-Type"@, "application/json"@),
                ("X-Request-ID"@, request_id@),
            ],
    {
        let mut headers: Vec<(String, String)> = Vec::new();
        headers.push(("x-goog-api-key".to_owned(), self.api_key.clone()));
        headers.push(("Content-Type".to_owned(), "application/json".to_owned()));
        headers.push(("X-Request-ID".to_owned(), request_id.to_owned()));
        headers
    }

    /// A builder for one interaction request against this client's model.
    pub fn interaction(&self, input: InteractionInput) -> (r: InteractionRequestBuilder)
        ensures
            r@ == (ReqV {
                model: Some(self@.model),
                cached_content: None,
                agent: None,
                input: input@,
                system_instruction: None,
                previous_interaction_id: None,
                tools: None,
                tool_choice: None,
                generation_config: None,
                safety_settings: None,
                store: Some(false),
                background: None,
                stream: None,
            }),
    {
        InteractionRequestBuilder {
            request: InteractionRequest {
                model: Some(self.model.clone()),
                cached_content: None,
                agent: None,
                input,
                system_instruction: None,
                previous_interaction_id: None,
                tools: None,
                tool_choice: None,
                generation_config: None,
                safety_settings: None,
                store: Some(false),
                background: None,
                stream: None,
            },
        }
    }
}

/// Relies on `uuid::Uuid::new_v4` and its hyphenated rendering: a fresh
/// correlation id, 36 characters long. The value is random; nothing more is
/// assumed of it.
#[verifier::external_body]
pub fn new_request_id() -> (r: String)
    ensures
        r@.len() == 36,
{
    uuid::Uuid::new_v4().to_string()
}

/// Builds one interaction request, privacy first: storage is off unless
/// asked for.
#[derive(Debug)]
pub struct InteractionRequestBuilder {
    pub request: InteractionRequest,
}

impl View for InteractionRequestBuilder {
    type V = ReqV;

    open spec fn view(&self) -> ReqV {
        self.request@
    }
}

impl InteractionRequestBuilder {
    /// Aims the request at a model.
    pub fn model(self, model: String) -> (r: Self)
        ensures
            r@ == (ReqV { model: Some(model@), ..self@ }),
    {
        let mut b = self;
        b.request.model = Some(model);
        b
    }

    /// Attaches a cached-content handle.
    pub fn cached_content(self, name: String) -> (r: Self)
        ensures
            r@ == (ReqV { cached_content: Some(name@), ..self@ }),
    {
        let mut b = self;
        b.request.cached_content = Some(name);
        b
    }

    /// Aims the request at an agent; an agent and a model are mutually
    /// exclusive, so the model is cleared.
    pub fn agent(self, agent: String) -> (r: Self)
        ensures
            r@ == (ReqV { agent: Some(agent@), model: None, ..self@ }),
    {
        let mut b = self;
        b.request.agent = Some(agent);
        b.request.model = None;
        b
    }

    /// Attaches a system instruction.
    pub fn system_instruction(self, instruction: InteractionContent) -> (r: Self)
        ensures
            r@ == (ReqV { system_instruction: Some(instruction@), ..self@ }),
    {
        let mut b = self;
        b.request.system_instruction = Some(instruction);
        b
    }

    /// Continues a server-side interaction.
    pub fn previous_interaction_id(self, id: String) -> (r: Self)
        ensures
            r@ == (ReqV { previous_interaction_id: Some(id@), ..self@ }),
    {
        let mut b = self;
        b.request.previous_interaction_id = Some(id);
        b
    }

    /// Attaches the callable tools.
    pub fn tools(self, tools: Vec<Tool>) -> (r: Self)
        ensures
            r@ == (ReqV { tools: Some(seq_view(tools@)), ..self@ }),
    {
        let mut b = self;
        b.request.tools = Some(tools);
        b
    }

    /// Constrains how tools are picked.
    pub fn tool_choice(self, choice: ToolChoice) -> (r: Self)
        ensures
            r@ == (ReqV { tool_choice: Some(choice@), ..self@ }),
    {
        let mut b = self;
        b.request.tool_choice = Some(choice);
        b
    }

    /// Replaces the generation settings wholesale.
    pub fn generation_config(self, config: GenerationConfig) -> (r: Self)
        ensures
            r@ == (ReqV { generation_config: Some(config@), ..self@ }),
    {
        let mut b = self;
        b.request.generation_config = Some(config);
        b
    }

    /// Sets the thinking level, keeping any other generation settings.
    pub fn thinking_level(self, level: ThinkingLevel) -> (r: Self)
        ensures
            r@ == (ReqV {
                generation_config: Some(match self@.generation_config {
                    Some(g) => crate::protocol::GenV { thinking_level: Some(level), ..g },
                    None => crate::protocol::GenV {
                        thinking_level: Some(level),
                        temperature: None,
                        max_output_tokens: None,
                        response_mime_type: None,
                        response_schema: None,
                    },
                }),
                ..self@
            }),
    {
        let mut b = self;
        let mut config = match b.request.generation_config {
            Some(g) => g,
            None => GenerationConfig::empty(),
        };
        config.thinking_level = Some(level);
        b.request.generation_config = Some(config);
        b
    }

    /// Asks the server to store (or not store) the interaction.
    pub fn store(self, store: bool) -> (r: Self)
        ensures
            r@ == (ReqV { store: Some(store), ..self@ }),
    {
        let mut b = self;
        b.request.store = Some(store);
        b
    }

    /// The finished request for a single-response call.
    pub fn build(self) -> (r: InteractionRequest)
        ensures
            r@ == self@,
    {
        self.request
    }

    /// The finished request for a streaming call: the stream flag is set.
    pub fn build_streaming(self) -> (r: InteractionRequest)
        ensures
            r@ == (ReqV { stream: Some(true), ..self@ }),
    {
        let mut b = self;
        b.request.stream = Some(true);
        b.request
    }
}

/// What a failing response body reads as: the structured error's message
/// when the body is a JSON object carrying string `code` and `message`
/// members, and the raw body text otherwise.
pub open spec fn api_error_message(doc: Option<JsonV>, raw: Seq<char>) -> Seq<char> {
    match doc {
        Some(j) => match (str_req(j, "code"@), str_req(j, "message"@)) {
            (Some(code), Some(message)) => message,
            _ => raw,
        },
        None => raw,
    }
}

/// Reads the message out of a failing response body.
pub fn read_api_error(body: &str) -> (r: String)
    ensures
        r@ == api_error_message(json_of(body.spec_bytes()), body@),
{
    match parse_json(body.as_bytes()) {
        Some(doc) => {
            let code = doc.field_str_req("code");
            let message = doc.field_str_req("message");
            match (code, message) {
                (Some(_), Some(m)) => m,
                _ => body.to_owned(),
            }
        }
        None => body.to_owned(),
    }
}

} // verus!
