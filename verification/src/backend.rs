//! The backend: what to send to it for a prompt, over either transport,
//! and what to make of its answer.

use crate::config::{ApiType, ConfigView, ShellmindConfig};
use crate::history::{History, Role, Turn, TurnView};
use crate::text::{concat2, concat4, texts};
use vstd::prelude::*;
use vstd::string::*;

verus! {

/// A piece of text in a message.
#[derive(Clone, Debug, PartialEq, Eq)]
pub struct GeminiPart {
    pub text: String,
}

/// A message: who says it, and its parts.
#[derive(Clone, Debug, PartialEq, Eq)]
pub struct GeminiContent {
    pub role: String,
    pub parts: Vec<GeminiPart>,
}

/// The view of `GeminiContent`: the same value, with every text as its characters.
pub struct ContentView {
    pub role: Seq<char>,
    pub parts: Seq<Seq<char>>,
}

/// The texts of a list of parts.
pub open spec fn part_views(parts: Seq<GeminiPart>) -> Seq<Seq<char>> {
    Seq::new(parts.len(), |i: int| parts[i].text@)
}

impl View for GeminiContent {
    type V = ContentView;

    open spec fn view(&self) -> ContentView {
        ContentView { role: self.role@, parts: part_views(self.parts@) }
    }
}

/// The views of a list of messages.
pub open spec fn content_views(contents: Seq<GeminiContent>) -> Seq<ContentView> {
    Seq::new(contents.len(), |i: int| contents[i]@)
}

/// How the backend is to generate.
#[derive(Clone, Debug, PartialEq, Eq)]
pub struct GenerationConfig {
    /// The sampling temperature, as the bits of a single-precision number.
    pub temperature_bits: u32,
}

/// The body of a request over HTTP.
#[derive(Clone, Debug, PartialEq, Eq)]
pub struct GeminiRequest {
    pub contents: Vec<GeminiContent>,
    pub generation_config: Option<GenerationConfig>,
}

/// One answer that the backend offers.
#[derive(Clone, Debug, PartialEq, Eq)]
pub struct Candidate {
    pub content: GeminiContent,
}

/// The body of an answer.
#[derive(Clone, Debug, PartialEq, Eq)]
pub struct GeminiResponse {
    pub candidates: Vec<Candidate>,
}

/// The views of the contents of a list of candidates.
pub open spec fn candidate_views(candidates: Seq<Candidate>) -> Seq<ContentView> {
    Seq::new(candidates.len(), |i: int| candidates[i].content@)
}

/// What went wrong with a call of the backend.
#[derive(Clone, Debug, PartialEq, Eq)]
pub enum BackendError {
    /// The backend answered with a status that is no success.
    RemoteRejected { status: String, body: String },
    /// The backend could not be reached.
    TransportUnavailable(String),
    /// The answer could not be read.
    MalformedResponse(String),
}

/// The view of `BackendError`: the same value, with every text as its characters.
pub enum BackendErrorView {
    RemoteRejected { status: Seq<char>, body: Seq<char> },
    TransportUnavailable(Seq<char>),
    MalformedResponse(Seq<char>),
}

impl View for BackendError {
    type V = BackendErrorView;

    open spec fn view(&self) -> BackendErrorView {
        match self {
            BackendError::RemoteRejected { status, body } => BackendErrorView::RemoteRejected {
                status: status@,
                body: body@,
            },
            BackendError::TransportUnavailable(t) => BackendErrorView::TransportUnavailable(t@),
            BackendError::MalformedResponse(t) => BackendErrorView::MalformedResponse(t@),
        }
    }
}

/// The line that reports a failed call.
pub open spec fn backend_error_text(error: BackendErrorView) -> Seq<char> {
    match error {
        BackendErrorView::RemoteRejected { status, body } => "API request failed with status: "@
            + status + " - "@ + body,
        BackendErrorView::TransportUnavailable(t) => "Backend unavailable: "@ + t,
        BackendErrorView::MalformedResponse(t) => "Malformed response: "@ + t,
    }
}

impl BackendError {
    /// The line that reports this failure.
    pub fn message(&self) -> (r: String)
        ensures
            r@ == backend_error_text(self@),
    {
        match self {
            BackendError::RemoteRejected { status, body } => concat4(
                "API request failed with status: ",
                status.as_str(),
                " - ",
                body.as_str(),
            ),
            BackendError::TransportUnavailable(t) => concat2("Backend unavailable: ", t.as_str()),
            BackendError::MalformedResponse(t) => concat2("Malformed response: ", t.as_str()),
        }
    }
}

/// The name of a role on the wire.
pub open spec fn role_name(role: Role) -> Seq<char> {
    match role {
        Role::User => "user"@,
        Role::Model => "model"@,
    }
}

/// The message for a turn: its role's name and its text as the one part.
pub open spec fn message_of(turn: TurnView) -> ContentView {
    ContentView { role: role_name(turn.role), parts: seq![turn.text] }
}

/// The messages of a request: one per turn of the conversation, in order,
/// and last the prompt as said by the user.
pub open spec fn request_messages(history: Seq<TurnView>, prompt: Seq<char>) -> Seq<ContentView> {
    Seq::new(history.len(), |i: int| message_of(history[i])).push(
        message_of(TurnView { role: Role::User, text: prompt }),
    )
}

/// The address of the model over HTTP.
pub open spec fn rest_url(config: ConfigView) -> Seq<char> {
    "https://generativelanguage.googleapis.com/v1beta/models/"@ + config.model_name
        + ":generateContent?key="@ + config.api_key
}

/// The text of an answer: the first part of the first candidate, or a
/// fixed line where there is none.
pub open spec fn answer_text(candidates: Seq<ContentView>) -> Seq<char> {
    if candidates.len() > 0 && candidates[0].parts.len() > 0 {
        candidates[0].parts[0]
    } else {
        "No command generated"@
    }
}

/// What `http::Uri` says against `text` as a URI: `None` where it is one,
/// else the text of the error.
pub uninterp spec fn uri_error(text: Seq<char>) -> Option<Seq<char>>;

/// Parses `text` with `http::Uri::from_maybe_shared`, as a channel to an
/// endpoint does before it connects. The contract claims that the outcome
/// depends on `text` alone: it names the error text `uri_error`.
#[verifier::external_body]
pub(crate) fn check_uri(text: &str) -> (r: Option<String>)
    ensures
        match r {
            Some(e) => uri_error(text@) == Some(e@),
            None => uri_error(text@) is None,
        },
{
    http::Uri::from_maybe_shared(text.to_string()).err().map(|e| e.to_string())
}

/// One call of the backend, to be made once.
#[derive(Clone, Debug, PartialEq, Eq)]
pub enum BackendCall {
    /// Post `body` as JSON to `url`.
    Rest { url: String, body: GeminiRequest },
    /// Open a channel to `endpoint` and ask `model` to generate.
    Rpc { endpoint: String, model: String, contents: Vec<GeminiContent>, temperature_bits: u32 },
}

/// The view of `BackendCall`: the same value, with every text as its characters.
pub enum CallView {
    Rest { url: Seq<char>, contents: Seq<ContentView>, generation: Option<u32> },
    Rpc {
        endpoint: Seq<char>,
        model: Seq<char>,
        contents: Seq<ContentView>,
        temperature_bits: u32,
    },
}

impl View for BackendCall {
    type V = CallView;

    open spec fn view(&self) -> CallView {
        match self {
            BackendCall::Rest { url, body } => CallView::Rest {
                url: url@,
                contents: content_views(body.contents@),
                generation: match body.generation_config {
                    Some(g) => Some(g.temperature_bits),
                    None => None,
                },
            },
            BackendCall::Rpc { endpoint, model, contents, temperature_bits } => CallView::Rpc {
                endpoint: endpoint@,
                model: model@,
                contents: content_views(contents@),
                temperature_bits: *temperature_bits,
            },
        }
    }
}

/// What came of a call.
#[derive(Clone, Debug, PartialEq, Eq)]
pub enum BackendReply {
    /// No answer came; the text says why.
    Unreachable(String),
    /// An answer came with a status that is no success.
    Rejected { status: String, body: String },
    /// An answer came that could not be read; the text says why.
    Undecodable(String),
    /// An answer came.
    Answered(GeminiResponse),
}

/// The view of `BackendReply`: the same value, with every text as its characters.
pub enum BackendReplyView {
    Unreachable(Seq<char>),
    Rejected { status: Seq<char>, body: Seq<char> },
    Undecodable(Seq<char>),
    Answered(Seq<ContentView>),
}

impl View for BackendReply {
    type V = BackendReplyView;

    open spec fn view(&self) -> BackendReplyView {
        match self {
            BackendReply::Unreachable(t) => BackendReplyView::Unreachable(t@),
            BackendReply::Rejected { status, body } => BackendReplyView::Rejected {
                status: status@,
                body: body@,
            },
            BackendReply::Undecodable(t) => BackendReplyView::Undecodable(t@),
            BackendReply::Answered(r) => BackendReplyView::Answered(candidate_views(r.candidates@)),
        }
    }
}

/// The call over HTTP for a prompt.
pub open spec fn rest_call(config: ConfigView, history: Seq<TurnView>, prompt: Seq<char>) -> CallView {
    CallView::Rest {
        url: rest_url(config),
        contents: request_messages(history, prompt),
        generation: Some(config.temperature_bits),
    }
}

/// The remote procedure call for a prompt, or the failure where the
/// endpoint is no URI.
pub open spec fn rpc_call(config: ConfigView, history: Seq<TurnView>, prompt: Seq<char>) -> Result<
    CallView,
    BackendErrorView,
> {
    match uri_error(config.grpc_endpoint) {
        Some(e) => Err(BackendErrorView::TransportUnavailable("Invalid URI: "@ + e)),
        None => Ok(
            CallView::Rpc {
                endpoint: config.grpc_endpoint,
                model: "models/"@ + config.model_name,
                contents: request_messages(history, prompt),
                temperature_bits: config.temperature_bits,
            },
        ),
    }
}

/// The call for a prompt, over the transport that the settings name.
pub open spec fn call_for(config: ConfigView, history: Seq<TurnView>, prompt: Seq<char>) -> Result<
    CallView,
    BackendErrorView,
> {
    match config.api_type {
        ApiType::Rest => Ok(rest_call(config, history, prompt)),
        ApiType::Grpc => rpc_call(config, history, prompt),
    }
}

/// What a reply comes to: the generated text, or the failure.
pub open spec fn outcome_of(reply: BackendReplyView) -> Result<Seq<char>, BackendErrorView> {
    match reply {
        BackendReplyView::Unreachable(t) => Err(BackendErrorView::TransportUnavailable(t)),
        BackendReplyView::Rejected { status, body } => Err(
            BackendErrorView::RemoteRejected { status, body },
        ),
        BackendReplyView::Undecodable(t) => Err(BackendErrorView::MalformedResponse(t)),
        BackendReplyView::Answered(candidates) => Ok(answer_text(candidates)),
    }
}

/// The message for a turn.
pub fn turn_message(turn: &Turn) -> (r: GeminiContent)
    ensures
        r@ == message_of(turn@),
{
    let role = match turn.role {
        Role::User => String::from_str("user"),
        Role::Model => String::from_str("model"),
    };
    let mut parts: Vec<GeminiPart> = Vec::new();
    parts.push(GeminiPart { text: turn.text.clone() });
    let r = GeminiContent { role, parts };
    assert(r@.parts =~= seq![turn@.text]);
    r
}

/// The messages of a request for `prompt` after `history`.
pub fn request_contents(history: &History, prompt: &str) -> (r: Vec<GeminiContent>)
    ensures
        content_views(r@) == request_messages(history@, prompt@),
{
    let mut out: Vec<GeminiContent> = Vec::new();
    let mut i: usize = 0;
    while i < history.len()
        invariant
            i <= history@.len(),
            out@.len() == i,
            forall|k: int| 0 <= k < i ==> (#[trigger] out@[k])@ == message_of(history@[k]),
        decreases history@.len() - i,
    {
        match history.get(i) {
            Some(turn) => {
                out.push(turn_message(turn));
            },
            None => {},
        }
        i = i + 1;
    }
    let last = Turn { role: Role::User, text: prompt.to_owned() };
    out.push(turn_message(&last));
    assert(content_views(out@) =~= request_messages(history@, prompt@));
    out
}

/// The text of an answer.
pub fn first_text(response: &GeminiResponse) -> (r: String)
    ensures
        r@ == answer_text(candidate_views(response.candidates@)),
{
    if response.candidates.len() > 0 && response.candidates[0].content.parts.len() > 0 {
        response.candidates[0].content.parts[0].text.clone()
    } else {
        String::from_str("No command generated")
    }
}

/// The call over HTTP that asks for a suggestion to `user_prompt`.
pub fn generate_command_rest(config: &ShellmindConfig, user_prompt: &str, history: &History) -> (r:
    BackendCall)
    ensures
        r@ == rest_call(config@, history@, user_prompt@),
{
    let url = concat4(
        "https://generativelanguage.googleapis.com/v1beta/models/",
        config.model_name.as_str(),
        ":generateContent?key=",
        config.api_key.as_str(),
    );
    let contents = request_contents(history, user_prompt);
    BackendCall::Rest {
        url,
        body: GeminiRequest {
            contents,
            generation_config: Some(GenerationConfig { temperature_bits: config.temperature_bits }),
        },
    }
}

/// The remote procedure call that asks for a suggestion to `user_prompt`.
/// Fails where the endpoint of the settings is no URI.
pub fn generate_command_grpc(config: &ShellmindConfig, user_prompt: &str, history: &History) -> (r:
    Result<BackendCall, BackendError>)
    ensures
        match r {
            Ok(call) => rpc_call(config@, history@, user_prompt@) == Ok::<CallView, BackendErrorView>(
                call@,
            ),
            Err(e) => rpc_call(config@, history@, user_prompt@) == Err::<CallView, BackendErrorView>(
                e@,
            ),
        },
{
    match check_uri(config.grpc_endpoint.as_str()) {
        Some(e) => Err(BackendError::TransportUnavailable(concat2("Invalid URI: ", e.as_str()))),
        None => Ok(
            BackendCall::Rpc {
                endpoint: config.grpc_endpoint.clone(),
                model: concat2("models/", config.model_name.as_str()),
                contents: request_contents(history, user_prompt),
                temperature_bits: config.temperature_bits,
            },
        ),
    }
}

/// The client of the backend. A prompt costs one call: what `prepare`
/// returns is made once, and `conclude` takes what came of it.
#[derive(Clone, Debug, PartialEq, Eq)]
pub struct BackendClient;

impl BackendClient {
    /// The call for `user_prompt`, over the transport that the settings
    /// name.
    pub fn prepare(config: &ShellmindConfig, user_prompt: &str, history: &History) -> (r: Result<
        BackendCall,
        BackendError,
    >)
        ensures
            match r {
                Ok(call) => call_for(config@, history@, user_prompt@) == Ok::<
                    CallView,
                    BackendErrorView,
                >(call@),
                Err(e) => call_for(config@, history@, user_prompt@) == Err::<
                    CallView,
                    BackendErrorView,
                >(e@),
            },
    {
        match config.api_type {
            ApiType::Rest => Ok(generate_command_rest(config, user_prompt, history)),
            ApiType::Grpc => generate_command_grpc(config, user_prompt, history),
        }
    }

    /// The generated text, or the failure, that a reply comes to. An answer
    /// without a candidate, or whose first candidate has no part, gives a
    /// fixed line and no failure.
    pub fn conclude(reply: BackendReply) -> (r: Result<String, BackendError>)
        ensures
            match r {
                Ok(text) => outcome_of(reply@) == Ok::<Seq<char>, BackendErrorView>(text@),
                Err(e) => outcome_of(reply@) == Err::<Seq<char>, BackendErrorView>(e@),
            },
    {
        match reply {
            BackendReply::Unreachable(t) => Err(BackendError::TransportUnavailable(t)),
            BackendReply::Rejected { status, body } => Err(
                BackendError::RemoteRejected { status, body },
            ),
            BackendReply::Undecodable(t) => Err(BackendError::MalformedResponse(t)),
            BackendReply::Answered(response) => Ok(first_text(&response)),
        }
    }
}

} // verus!
