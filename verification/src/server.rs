//! The two dispatchers: one request to one response, and one request to an
//! ordered sequence of chunks.

use vstd::prelude::*;
use vstd::string::*;
use crate::config::ServerConfig;
use crate::deno::DenoRuntime;
use crate::error::{InvocationResult, OutcomeModel};
use crate::json::{parse, parse_outcome, render, render_outcome, text, value_tree, JsonTree};
use crate::wire::{
    chunks_from_value, chunks_of_tree, chunk_models, response_of_tree, tree_of_request,
    ChunkModel, RequestModel, ResponseModel,
};
pub use crate::wire::{CopilotRequest, CopilotResponse, CopilotStreamChunk};

verus! {

/// The global function that answers a request with one response.
pub const UNARY_FUNCTION: &'static str = "handleCopilotRequest";

/// The global function that answers a request with a list of chunks.
pub const STREAM_FUNCTION: &'static str = "handleCopilotStreamRequest";

/// The message of every response that reports a failure.
pub const FAILURE_MESSAGE: &'static str = "internal server error";

/// The payload of the chunk that reports a failure.
pub const FAILURE_PAYLOAD: &'static str = "Internal server error";

/// How many chunks the channel to a client holds before a sender waits.
pub const CHANNEL_CAPACITY: usize = 100;

/// The seconds between two heartbeats on an idle stream.
pub const KEEP_ALIVE_SECONDS: u64 = 15;

/// The state that all routes share.
#[derive(Debug, Clone, PartialEq, Eq)]
pub struct AppState {
    /// The server's configuration.
    pub config: ServerConfig,
    /// The call bridge.
    pub deno_runtime: DenoRuntime,
    /// Whether the engine has been started.
    pub worker_ready: bool,
}

/// The server.
#[derive(Debug, Clone, PartialEq, Eq)]
pub struct Server {
    /// The server's configuration.
    pub config: ServerConfig,
}

impl Server {
    /// A server for the given configuration.
    pub fn new(config: ServerConfig) -> (r: Server)
        ensures
            r.config == config,
    {
        Server { config }
    }

    /// The state that the routes share once the engine has been started.
    pub fn state(&self) -> (r: AppState)
        ensures
            r.worker_ready,
            r.config@ == self.config@,
            r.deno_runtime.config@ == self.config@,
    {
        let config = self.config.duplicate();
        let bridge = self.config.duplicate();
        AppState { config, deno_runtime: DenoRuntime::new(bridge), worker_ready: true }
    }
}

/// What a dispatcher does with a request.
#[derive(Debug, Clone, PartialEq, Eq)]
pub enum Dispatch {
    /// Call the named global function with the argument list.
    Call { streaming: bool, function: String, args: String },
    /// Answer with a failure at once; the text says why.
    Reject(String),
}

/// A dispatch as a mathematical value.
pub enum DispatchModel {
    Call { streaming: bool, function: Seq<char>, args: Seq<char> },
    Reject(Seq<char>),
}

impl View for Dispatch {
    type V = DispatchModel;

    open spec fn view(&self) -> DispatchModel {
        match self {
            Dispatch::Call { streaming, function, args } => DispatchModel::Call {
                streaming: *streaming,
                function: function@,
                args: args@,
            },
            Dispatch::Reject(m) => DispatchModel::Reject(m@),
        }
    }
}

/// The name of the global function for a request.
pub open spec fn target_function(streaming: bool) -> Seq<char> {
    if streaming {
        STREAM_FUNCTION@
    } else {
        UNARY_FUNCTION@
    }
}

/// The dispatch for a request whose argument has been written, or could
/// not be.
pub open spec fn planned_call(streaming: bool, literal: Result<Seq<char>, Seq<char>>) -> DispatchModel {
    match literal {
        Ok(args) => DispatchModel::Call { streaming, function: target_function(streaming), args },
        Err(m) => DispatchModel::Reject("Failed to serialize request: "@ + m),
    }
}

/// The argument list of the call for a request: the request's JSON text,
/// written once more as a JSON string. A JSON string is a string literal of
/// the script language, so the request reaches the function as one string
/// and no part of it is read as script.
pub open spec fn argument_literal(q: RequestModel) -> Result<Seq<char>, Seq<char>> {
    match render_outcome(tree_of_request(q)) {
        Ok(json) => render_outcome(JsonTree::Text(json)),
        Err(m) => Err(m),
    }
}

/// The dispatch for a request.
pub open spec fn planned(ready: bool, q: RequestModel) -> DispatchModel {
    if !ready {
        DispatchModel::Reject("Deno runtime not initialized"@)
    } else {
        planned_call(q.stream, argument_literal(q))
    }
}

/// The view of a text or an error's message.
pub open spec fn outcome_view(r: Result<String, String>) -> Result<Seq<char>, Seq<char>> {
    match r {
        Ok(s) => Ok(s@),
        Err(m) => Err(m@),
    }
}

/// Decides the dispatch once the argument has been written, or could not be.
pub fn plan_call(streaming: bool, literal: Result<String, String>) -> (r: Dispatch)
    ensures
        r@ == planned_call(streaming, outcome_view(literal)),
{
    match literal {
        Ok(args) => {
            let function = if streaming {
                String::from_str(STREAM_FUNCTION)
            } else {
                String::from_str(UNARY_FUNCTION)
            };
            Dispatch::Call { streaming, function, args }
        },
        Err(m) => Dispatch::Reject(
            String::from_str("Failed to serialize request: ").concat(m.as_str()),
        ),
    }
}

/// Writes the argument list of the call for a request.
pub fn write_argument(request: &CopilotRequest) -> (r: Result<String, String>)
    ensures
        outcome_view(r) == argument_literal(request@),
{
    match request.encode() {
        Ok(json) => {
            let v = text(json.as_str());
            render(&v)
        },
        Err(m) => Err(m),
    }
}

/// Decides what to do with a request: a request that asks for a stream goes
/// to the streaming function, every other to the unary one, and none is
/// called before the engine has been started.
pub fn handle_copilot_request(state: &AppState, request: &CopilotRequest) -> (r: Dispatch)
    ensures
        r@ == planned(state.worker_ready, request@),
{
    if !state.worker_ready {
        return Dispatch::Reject(String::from_str("Deno runtime not initialized"));
    }
    plan_call(request.stream, write_argument(request))
}

/// A response with its status.
#[derive(Debug, Clone, PartialEq, Eq)]
pub struct HttpReply {
    /// The HTTP status: 200 or 500.
    pub status: u16,
    /// The body.
    pub body: CopilotResponse,
}

/// A reply as a mathematical value.
pub struct ReplyModel {
    pub status: u16,
    pub body: ResponseModel,
}

impl View for HttpReply {
    type V = ReplyModel;

    open spec fn view(&self) -> ReplyModel {
        ReplyModel { status: self.status, body: self.body@ }
    }
}

/// The reply that reports a failure.
pub open spec fn failure_reply(error: Seq<char>) -> ReplyModel {
    ReplyModel {
        status: 500,
        body: ResponseModel { message: FAILURE_MESSAGE@, actions: Seq::empty(), error: Some(error) },
    }
}

impl ReplyModel {
    /// The shape of a reply to a call that failed.
    pub open spec fn is_failure(self) -> bool {
        &&& self.status == 500
        &&& self.body.message == FAILURE_MESSAGE@
        &&& self.body.actions.len() == 0
        &&& self.body.error is Some
    }

    /// The shape of a reply to a call that succeeded.
    pub open spec fn is_success(self) -> bool {
        self.status == 200
    }
}

/// The reply for the document that the engine returned.
pub open spec fn reply_for_tree(t: JsonTree) -> ReplyModel {
    match response_of_tree(t) {
        Some(body) => ReplyModel { status: 200, body },
        None => failure_reply("Failed to parse Deno response: invalid response"@),
    }
}

/// The reply for the result of a call.
pub open spec fn reply_for(result: OutcomeModel) -> ReplyModel {
    match result {
        OutcomeModel::Success(v) => match parse_outcome(v) {
            Ok(t) => reply_for_tree(t),
            Err(m) => failure_reply("Failed to parse Deno response: "@ + m),
        },
        OutcomeModel::Failure(_, m) => failure_reply(m),
    }
}

/// The reply that reports a failure: status 500, the fixed message, no
/// actions, and the failure's text.
pub fn reject_reply(error: String) -> (r: HttpReply)
    ensures
        r@ == failure_reply(error@),
{
    let r = HttpReply {
        status: 500,
        body: CopilotResponse {
            message: String::from_str(FAILURE_MESSAGE),
            actions: Vec::new(),
            error: Some(error),
        },
    };
    assert(r@.body.actions =~= Seq::empty());
    r
}

/// The reply for the value that the engine returned: the response that the
/// value describes, with status 200, or a failure where it describes none.
pub fn reply_for_value(v: &serde_json::Value) -> (r: HttpReply)
    ensures
        r@ == reply_for_tree(value_tree(*v)),
{
    match CopilotResponse::from_value(v) {
        Some(body) => HttpReply { status: 200, body },
        None => reject_reply(String::from_str("Failed to parse Deno response: invalid response")),
    }
}

/// The reply for the result of a unary call. It has exactly one of two
/// shapes: status 200 with the response that the engine returned, or status
/// 500 with the failure's text.
pub fn unary_reply(result: InvocationResult) -> (r: HttpReply)
    ensures
        r@ == reply_for(result@),
        r@.is_success() != r@.is_failure(),
        r@.is_success() ==> result@ is Success,
{
    match result {
        InvocationResult::Success(v) => match parse(v.as_str()) {
            Ok(value) => reply_for_value(&value),
            Err(m) => reject_reply(
                String::from_str("Failed to parse Deno response: ").concat(m.as_str()),
            ),
        },
        InvocationResult::Failure(_, m) => reject_reply(m),
    }
}

/// The chunk that reports a failure.
pub open spec fn failure_chunk_model(error: Seq<char>) -> ChunkModel {
    ChunkModel { chunk: FAILURE_PAYLOAD@, done: Some(true), error: Some(error) }
}

/// The chunks to forward for the document that the engine returned.
pub open spec fn chunks_for_tree(t: JsonTree) -> Seq<ChunkModel> {
    match chunks_of_tree(t) {
        Some(chunks) => chunks,
        None => seq![failure_chunk_model("Failed to parse Deno response: invalid chunk list"@)],
    }
}

/// The chunks to forward for the result of a call.
pub open spec fn chunks_for(result: OutcomeModel) -> Seq<ChunkModel> {
    match result {
        OutcomeModel::Success(v) => match parse_outcome(v) {
            Ok(t) => chunks_for_tree(t),
            Err(m) => seq![failure_chunk_model("Failed to parse Deno response: "@ + m)],
        },
        OutcomeModel::Failure(_, m) => seq![failure_chunk_model(m)],
    }
}

/// The chunk that reports a failure: it carries the failure's text and ends
/// the sequence.
pub fn failure_chunk(error: String) -> (r: CopilotStreamChunk)
    ensures
        r@ == failure_chunk_model(error@),
{
    CopilotStreamChunk {
        chunk: String::from_str(FAILURE_PAYLOAD),
        done: Some(true),
        error: Some(error),
    }
}

/// A list that holds one chunk.
fn single(c: CopilotStreamChunk) -> (r: Vec<CopilotStreamChunk>)
    ensures
        chunk_models(r@) == seq![c@],
{
    let mut out: Vec<CopilotStreamChunk> = Vec::new();
    out.push(c);
    assert(chunk_models(out@) =~= seq![c@]);
    out
}

/// The chunks to forward for the value that the engine returned: the chunks
/// that the value lists, in its order, or one failure chunk where it is no
/// list of chunks.
pub fn chunks_for_value(v: &serde_json::Value) -> (r: Vec<CopilotStreamChunk>)
    ensures
        chunk_models(r@) == chunks_for_tree(value_tree(*v)),
{
    match chunks_from_value(v) {
        Some(chunks) => chunks,
        None => single(
            failure_chunk(String::from_str("Failed to parse Deno response: invalid chunk list")),
        ),
    }
}

/// The chunks to forward for the result of a streaming call: on success the
/// chunks that the engine listed, in its order; on failure one chunk that
/// carries the failure's text and ends the sequence.
pub fn stream_copilot_response(result: InvocationResult) -> (r: Vec<CopilotStreamChunk>)
    ensures
        chunk_models(r@) == chunks_for(result@),
{
    match result {
        InvocationResult::Success(v) => match parse(v.as_str()) {
            Ok(value) => chunks_for_value(&value),
            Err(m) => single(
                failure_chunk(
                    String::from_str("Failed to parse Deno response: ").concat(m.as_str()),
                ),
            ),
        },
        InvocationResult::Failure(_, m) => single(failure_chunk(m)),
    }
}

/// How the channel to a streaming client is set up.
#[derive(Debug, Clone, Copy, PartialEq, Eq, Structural)]
pub struct StreamSettings {
    /// How many chunks the channel holds before a sender waits.
    pub capacity: usize,
    /// The seconds between two heartbeats while the stream is idle.
    pub keep_alive_seconds: u64,
}

/// The settings of a stream. The channel is opened with them before the
/// engine is called.
pub fn handle_copilot_stream() -> (r: StreamSettings)
    ensures
        r.capacity == CHANNEL_CAPACITY,
        r.keep_alive_seconds == KEEP_ALIVE_SECONDS,
{
    StreamSettings { capacity: CHANNEL_CAPACITY, keep_alive_seconds: KEEP_ALIVE_SECONDS }
}

/// The answer to a request for a page of the single-page application.
#[derive(Debug, Clone, PartialEq, Eq)]
pub struct PageReply {
    /// The HTTP status: 200, 404 or 500.
    pub status: u16,
    /// The content type; nothing where the body is a plain notice.
    pub content_type: Option<String>,
    /// The body.
    pub body: String,
}

/// The answer for every route that names no file: the index page where it
/// exists and can be read, `Not Found` where it does not exist, and
/// `Internal Server Error` where it exists but cannot be read.
pub fn spa_fallback(index_exists: bool, index_page: Option<String>) -> (r: PageReply)
    ensures
        !index_exists ==> r.status == 404 && r.content_type is None && r.body@ == "Not Found"@,
        index_exists && index_page is Some ==> r.status == 200 && r.body@ == index_page->0@ && (
        r.content_type matches Some(t) && t@ == "text/html; charset=utf-8"@),
        index_exists && index_page is None ==> r.status == 500 && r.content_type is None && r.body@
            == "Internal Server Error"@,
{
    if !index_exists {
        return PageReply { status: 404, content_type: None, body: String::from_str("Not Found") };
    }
    match index_page {
        Some(html) => PageReply {
            status: 200,
            content_type: Some(String::from_str("text/html; charset=utf-8")),
            body: html,
        },
        None => PageReply {
            status: 500,
            content_type: None,
            body: String::from_str("Internal Server Error"),
        },
    }
}

} // verus!
