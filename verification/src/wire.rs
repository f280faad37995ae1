//! The messages that cross the wire, and how each is read from and written
//! to a JSON document.

use vstd::prelude::*;
use vstd::string::*;
use crate::json::{trees, parse_outcome, parse, as_list, list, null, value_tree, render_outcome, no_members, JsonTree, member, as_text, as_flag, is_null, text, flag, object, members_new, with_member, render};

verus! {

/// The view of an optional text.
pub open spec fn text_view(o: Option<String>) -> Option<Seq<char>> {
    match o {
        Some(s) => Some(s@),
        None => None,
    }
}

/// The member of an object under a key, if the tree is an object that has one.
pub open spec fn tree_member(t: JsonTree, key: Seq<char>) -> Option<JsonTree> {
    match t {
        JsonTree::Object(m) => if m.contains_key(key) {
            Some(m[key])
        } else {
            None
        },
        _ => None,
    }
}

/// A member that must be there and must be a string.
pub open spec fn required_text(t: JsonTree, key: Seq<char>) -> Option<Seq<char>> {
    match tree_member(t, key) {
        Some(JsonTree::Text(s)) => Some(s),
        _ => None,
    }
}

/// A member that may be missing or `null`, and is a string otherwise. The
/// outer `None` says that the member is of another type.
pub open spec fn optional_text(t: JsonTree, key: Seq<char>) -> Option<Option<Seq<char>>> {
    match tree_member(t, key) {
        None => Some(None),
        Some(JsonTree::Null) => Some(None),
        Some(JsonTree::Text(s)) => Some(Some(s)),
        _ => None,
    }
}

/// A member that may be missing or `null`, and is a boolean otherwise. The
/// outer `None` says that the member is of another type.
pub open spec fn optional_flag(t: JsonTree, key: Seq<char>) -> Option<Option<bool>> {
    match tree_member(t, key) {
        None => Some(None),
        Some(JsonTree::Null) => Some(None),
        Some(JsonTree::Bool(b)) => Some(Some(b)),
        _ => None,
    }
}

/// The view of a text that was read as an optional member.
pub open spec fn optional_text_view(o: Option<Option<String>>) -> Option<Option<Seq<char>>> {
    match o {
        Some(inner) => Some(text_view(inner)),
        None => None,
    }
}

/// Reads a member that must be a string.
pub fn read_text(v: &serde_json::Value, key: &str) -> (r: Option<String>)
    ensures
        text_view(r) == required_text(value_tree(*v), key@),
{
    match member(v, key) {
        Some(x) => match as_text(x) {
            Some(s) => Some(String::from_str(s)),
            None => None,
        },
        None => None,
    }
}

/// Reads a member that may be missing, `null` or a string.
pub fn read_optional_text(v: &serde_json::Value, key: &str) -> (r: Option<Option<String>>)
    ensures
        optional_text_view(r) == optional_text(value_tree(*v), key@),
{
    match member(v, key) {
        None => Some(None),
        Some(x) => {
            if is_null(x) {
                Some(None)
            } else {
                match as_text(x) {
                    Some(s) => Some(Some(String::from_str(s))),
                    None => None,
                }
            }
        },
    }
}

/// Reads a member that may be missing, `null` or a boolean.
pub fn read_optional_flag(v: &serde_json::Value, key: &str) -> (r: Option<Option<bool>>)
    ensures
        r == optional_flag(value_tree(*v), key@),
{
    match member(v, key) {
        None => Some(None),
        Some(x) => {
            if is_null(x) {
                Some(None)
            } else {
                match as_flag(x) {
                    Some(b) => Some(Some(b)),
                    None => None,
                }
            }
        },
    }
}

/// One increment of a streamed response.
#[derive(Debug, Clone, PartialEq, Eq)]
pub struct CopilotStreamChunk {
    /// The payload of this increment.
    pub chunk: String,
    /// Whether this is the last increment; missing means that it is not.
    pub done: Option<bool>,
    /// The failure that this increment reports, if any.
    pub error: Option<String>,
}

/// A chunk as a mathematical value.
pub struct ChunkModel {
    pub chunk: Seq<char>,
    pub done: Option<bool>,
    pub error: Option<Seq<char>>,
}

impl View for CopilotStreamChunk {
    type V = ChunkModel;

    open spec fn view(&self) -> ChunkModel {
        ChunkModel { chunk: self.chunk@, done: self.done, error: text_view(self.error) }
    }
}

impl ChunkModel {
    /// Whether the chunk ends its sequence.
    pub open spec fn is_final(self) -> bool {
        self.done == Some(true)
    }
}

/// The chunk that a document describes, if it describes one.
pub open spec fn chunk_of_tree(t: JsonTree) -> Option<ChunkModel> {
    match (required_text(t, "chunk"@), optional_flag(t, "done"@), optional_text(t, "error"@)) {
        (Some(chunk), Some(done), Some(error)) => Some(ChunkModel { chunk, done, error }),
        _ => None,
    }
}

/// The members of the document that describes a chunk: `done` and `error`
/// are left out where the chunk has none.
pub open spec fn chunk_members(c: ChunkModel) -> Map<Seq<char>, JsonTree> {
    let base = no_members().insert("chunk"@, JsonTree::Text(c.chunk));
    let with_done = match c.done {
        Some(b) => base.insert("done"@, JsonTree::Bool(b)),
        None => base,
    };
    match c.error {
        Some(e) => with_done.insert("error"@, JsonTree::Text(e)),
        None => with_done,
    }
}

/// The document that describes a chunk.
pub open spec fn tree_of_chunk(c: ChunkModel) -> JsonTree {
    JsonTree::Object(chunk_members(c))
}

impl CopilotStreamChunk {
    /// Whether this chunk ends its sequence.
    pub fn is_final(&self) -> (b: bool)
        ensures
            b == self@.is_final(),
    {
        match self.done {
            Some(d) => d,
            None => false,
        }
    }

    /// Reads a chunk from a JSON value.
    pub fn from_value(v: &serde_json::Value) -> (r: Option<CopilotStreamChunk>)
        ensures
            match r {
                Some(c) => chunk_of_tree(value_tree(*v)) == Some(c@),
                None => chunk_of_tree(value_tree(*v)) is None,
            },
    {
        let chunk = read_text(v, "chunk");
        let done = read_optional_flag(v, "done");
        let error = read_optional_text(v, "error");
        match (chunk, done, error) {
            (Some(chunk), Some(done), Some(error)) => Some(CopilotStreamChunk { chunk, done, error }),
            _ => None,
        }
    }

    /// Writes the chunk as a JSON value.
    pub fn to_value(&self) -> (r: serde_json::Value)
        ensures
            value_tree(r) == tree_of_chunk(self@),
    {
        let mut members = with_member(members_new(), "chunk", text(self.chunk.as_str()));
        match self.done {
            Some(b) => {
                members = with_member(members, "done", flag(b));
            },
            None => {},
        }
        match &self.error {
            Some(e) => {
                members = with_member(members, "error", text(e.as_str()));
            },
            None => {},
        }
        object(members)
    }

    /// Writes the chunk as JSON text: the text that `render_outcome` gives for
    /// the chunk's document, or its error.
    pub fn encode(&self) -> (r: Result<String, String>)
        ensures
            match r {
                Ok(s) => render_outcome(tree_of_chunk(self@)) == Ok::<Seq<char>, Seq<char>>(s@),
                Err(m) => render_outcome(tree_of_chunk(self@)) == Err::<Seq<char>, Seq<char>>(m@),
            },
    {
        let v = self.to_value();
        render(&v)
    }
}

/// Writing a chunk as a document and reading the document back gives the
/// chunk again.
pub proof fn chunk_round_trip(c: ChunkModel)
    ensures
        chunk_of_tree(tree_of_chunk(c)) == Some(c),
{
    reveal_strlit("chunk");
    reveal_strlit("done");
    reveal_strlit("error");
    assert("chunk"@ != "done"@) by {
        assert("chunk"@.len() != "done"@.len());
    }
    assert("chunk"@ != "error"@) by {
        assert("chunk"@[0] != "error"@[0]);
    }
    assert("done"@ != "error"@) by {
        assert("done"@.len() != "error"@.len());
    }
}

/// Copies a list of JSON values.
pub fn copy_values(src: &Vec<serde_json::Value>) -> (r: Vec<serde_json::Value>)
    ensures
        trees(r@) == trees(src@),
{
    let mut out: Vec<serde_json::Value> = Vec::new();
    let mut i: usize = 0;
    while i < src.len()
        invariant
            i <= src.len(),
            out@.len() == i,
            forall|k: int| 0 <= k < i ==> value_tree(out@[k]) == value_tree(src@[k]),
        decreases src.len() - i,
    {
        out.push(src[i].clone());
        i = i + 1;
    }
    assert(trees(out@) =~= trees(src@));
    out
}

/// The body of a request to the gateway.
#[derive(Debug, Clone, PartialEq, Eq)]
pub struct CopilotRequest {
    /// What the user wrote.
    pub message: String,
    /// Any JSON value that the client sends along; `null` where it sends none.
    pub context: serde_json::Value,
    /// Whether the answer is wanted as a stream of chunks.
    pub stream: bool,
}

/// A request as a mathematical value.
pub struct RequestModel {
    pub message: Seq<char>,
    pub context: JsonTree,
    pub stream: bool,
}

impl View for CopilotRequest {
    type V = RequestModel;

    open spec fn view(&self) -> RequestModel {
        RequestModel {
            message: self.message@,
            context: value_tree(self.context),
            stream: self.stream,
        }
    }
}

/// The request that a document describes, if it describes one: `message` is
/// a string, `context` is anything and `null` where it is missing, `stream`
/// is a boolean and `false` where it is missing.
pub open spec fn request_of_tree(t: JsonTree) -> Option<RequestModel> {
    let context = match tree_member(t, "context"@) {
        Some(c) => c,
        None => JsonTree::Null,
    };
    match (required_text(t, "message"@), tree_member(t, "stream"@)) {
        (Some(message), None) => Some(RequestModel { message, context, stream: false }),
        (Some(message), Some(JsonTree::Bool(stream))) => Some(
            RequestModel { message, context, stream },
        ),
        _ => None,
    }
}

/// The document that describes a request: all three members are written.
pub open spec fn tree_of_request(q: RequestModel) -> JsonTree {
    JsonTree::Object(
        no_members().insert("message"@, JsonTree::Text(q.message)).insert(
            "context"@,
            q.context,
        ).insert("stream"@, JsonTree::Bool(q.stream)),
    )
}

impl CopilotRequest {
    /// Reads a request from a JSON value.
    pub fn from_value(v: &serde_json::Value) -> (r: Option<CopilotRequest>)
        ensures
            match r {
                Some(q) => request_of_tree(value_tree(*v)) == Some(q@),
                None => request_of_tree(value_tree(*v)) is None,
            },
    {
        let message = match read_text(v, "message") {
            Some(m) => m,
            None => {
                return None;
            },
        };
        let context = match member(v, "context") {
            Some(c) => c.clone(),
            None => null(),
        };
        match member(v, "stream") {
            None => Some(CopilotRequest { message, context, stream: false }),
            Some(x) => match as_flag(x) {
                Some(stream) => Some(CopilotRequest { message, context, stream }),
                None => None,
            },
        }
    }

    /// Reads a request from JSON text. The error is the parser's message, or
    /// `invalid request` where the text is JSON but no request.
    pub fn decode(body: &str) -> (r: Result<CopilotRequest, String>)
        ensures
            match r {
                Ok(q) => parse_outcome(body@) matches Ok(t) && request_of_tree(t) == Some(q@),
                Err(m) => match parse_outcome(body@) {
                    Ok(t) => request_of_tree(t) is None && m@ == "invalid request"@,
                    Err(e) => m@ == e,
                },
            },
    {
        match parse(body) {
            Err(m) => Err(m),
            Ok(v) => match CopilotRequest::from_value(&v) {
                Some(q) => Ok(q),
                None => Err(String::from_str("invalid request")),
            },
        }
    }

    /// Writes the request as a JSON value.
    pub fn to_value(&self) -> (r: serde_json::Value)
        ensures
            value_tree(r) == tree_of_request(self@),
    {
        let members = with_member(members_new(), "message", text(self.message.as_str()));
        let members = with_member(members, "context", self.context.clone());
        let members = with_member(members, "stream", flag(self.stream));
        object(members)
    }

    /// Writes the request as JSON text: the text that `render_outcome` gives
    /// for the request's document, or its error.
    pub fn encode(&self) -> (r: Result<String, String>)
        ensures
            match r {
                Ok(s) => render_outcome(tree_of_request(self@)) == Ok::<Seq<char>, Seq<char>>(s@),
                Err(m) => render_outcome(tree_of_request(self@)) == Err::<Seq<char>, Seq<char>>(
                    m@,
                ),
            },
    {
        let v = self.to_value();
        render(&v)
    }
}

/// Writing a request as a document and reading the document back gives the
/// request again.
pub proof fn request_round_trip(q: RequestModel)
    ensures
        request_of_tree(tree_of_request(q)) == Some(q),
{
    reveal_strlit("message");
    reveal_strlit("context");
    reveal_strlit("stream");
    assert("message"@ != "context"@) by {
        assert("message"@[0] != "context"@[0]);
    }
    assert("message"@ != "stream"@) by {
        assert("message"@[0] != "stream"@[0]);
    }
    assert("context"@ != "stream"@) by {
        assert("context"@[0] != "stream"@[0]);
    }
}

/// The body of a response of the gateway.
#[derive(Debug, Clone, PartialEq, Eq)]
pub struct CopilotResponse {
    /// The answer, or a fixed text where the call failed.
    pub message: String,
    /// Actions for the client to take, each any JSON value.
    pub actions: Vec<serde_json::Value>,
    /// Why the call failed; nothing where it did not.
    pub error: Option<String>,
}

/// A response as a mathematical value.
pub struct ResponseModel {
    pub message: Seq<char>,
    pub actions: Seq<JsonTree>,
    pub error: Option<Seq<char>>,
}

impl View for CopilotResponse {
    type V = ResponseModel;

    open spec fn view(&self) -> ResponseModel {
        ResponseModel {
            message: self.message@,
            actions: trees(self.actions@),
            error: text_view(self.error),
        }
    }
}

/// The response that a document describes, if it describes one: `message`
/// is a string, `actions` an array, `error` a string, `null` or missing.
pub open spec fn response_of_tree(t: JsonTree) -> Option<ResponseModel> {
    match (required_text(t, "message"@), tree_member(t, "actions"@), optional_text(t, "error"@)) {
        (Some(message), Some(JsonTree::List(actions)), Some(error)) => Some(
            ResponseModel { message, actions, error },
        ),
        _ => None,
    }
}

/// The document that describes a response: `message` and `actions` are
/// always written, `error` only where there is one.
pub open spec fn tree_of_response(p: ResponseModel) -> JsonTree {
    let base = no_members().insert("message"@, JsonTree::Text(p.message)).insert(
        "actions"@,
        JsonTree::List(p.actions),
    );
    JsonTree::Object(
        match p.error {
            Some(e) => base.insert("error"@, JsonTree::Text(e)),
            None => base,
        },
    )
}

impl CopilotResponse {
    /// Reads a response from a JSON value.
    pub fn from_value(v: &serde_json::Value) -> (r: Option<CopilotResponse>)
        ensures
            match r {
                Some(p) => response_of_tree(value_tree(*v)) == Some(p@),
                None => response_of_tree(value_tree(*v)) is None,
            },
    {
        let message = read_text(v, "message");
        let error = read_optional_text(v, "error");
        let actions = match member(v, "actions") {
            Some(x) => match as_list(x) {
                Some(items) => Some(copy_values(items)),
                None => None,
            },
            None => None,
        };
        match (message, actions, error) {
            (Some(message), Some(actions), Some(error)) => Some(
                CopilotResponse { message, actions, error },
            ),
            _ => None,
        }
    }

    /// Writes the response as a JSON value.
    pub fn to_value(&self) -> (r: serde_json::Value)
        ensures
            value_tree(r) == tree_of_response(self@),
    {
        let members = with_member(members_new(), "message", text(self.message.as_str()));
        let mut members = with_member(members, "actions", list(copy_values(&self.actions)));
        match &self.error {
            Some(e) => {
                members = with_member(members, "error", text(e.as_str()));
            },
            None => {},
        }
        object(members)
    }

    /// Writes the response as JSON text: the text that `render_outcome` gives
    /// for the response's document, or its error.
    pub fn encode(&self) -> (r: Result<String, String>)
        ensures
            match r {
                Ok(s) => render_outcome(tree_of_response(self@)) == Ok::<Seq<char>, Seq<char>>(
                    s@,
                ),
                Err(m) => render_outcome(tree_of_response(self@)) == Err::<Seq<char>, Seq<char>>(
                    m@,
                ),
            },
    {
        let v = self.to_value();
        render(&v)
    }
}

/// Writing a response as a document and reading the document back gives the
/// response again.
pub proof fn response_round_trip(p: ResponseModel)
    ensures
        response_of_tree(tree_of_response(p)) == Some(p),
{
    reveal_strlit("message");
    reveal_strlit("actions");
    reveal_strlit("error");
    assert("message"@ != "actions"@) by {
        assert("message"@[0] != "actions"@[0]);
    }
    assert("message"@ != "error"@) by {
        assert("message"@[0] != "error"@[0]);
    }
    assert("actions"@ != "error"@) by {
        assert("actions"@[0] != "error"@[0]);
    }
}

/// The chunks of a list as mathematical values.
pub open spec fn chunk_models(s: Seq<CopilotStreamChunk>) -> Seq<ChunkModel> {
    s.map_values(|c: CopilotStreamChunk| c@)
}

/// The chunks that a document lists, if it is an array in which every
/// element describes a chunk.
pub open spec fn chunks_of_tree(t: JsonTree) -> Option<Seq<ChunkModel>> {
    match t {
        JsonTree::List(items) => if forall|i: int|
            0 <= i < items.len() ==> (#[trigger] chunk_of_tree(items[i])) is Some {
            Some(Seq::new(items.len(), |i: int| chunk_of_tree(items[i])->0))
        } else {
            None
        },
        _ => None,
    }
}

/// Reads a list of chunks from a JSON value, in the order of the array.
pub fn chunks_from_value(v: &serde_json::Value) -> (r: Option<Vec<CopilotStreamChunk>>)
    ensures
        match r {
            Some(chunks) => chunks_of_tree(value_tree(*v)) == Some(chunk_models(chunks@)),
            None => chunks_of_tree(value_tree(*v)) is None,
        },
{
    let items = match as_list(v) {
        Some(items) => items,
        None => {
            return None;
        },
    };
    let ghost listed = trees(items@);
    let mut out: Vec<CopilotStreamChunk> = Vec::new();
    let mut i: usize = 0;
    while i < items.len()
        invariant
            i <= items.len(),
            out@.len() == i,
            listed == trees(items@),
            value_tree(*v) == JsonTree::List(listed),
            forall|k: int| 0 <= k < i ==> chunk_of_tree(listed[k]) == Some(#[trigger] out@[k]@),
        decreases items.len() - i,
    {
        match CopilotStreamChunk::from_value(&items[i]) {
            Some(c) => {
                out.push(c);
            },
            None => {
                assert(chunk_of_tree(listed[i as int]) is None);
                return None;
            },
        }
        i = i + 1;
    }
    proof {
        assert forall|k: int| 0 <= k < listed.len() implies (#[trigger] chunk_of_tree(
            listed[k],
        )) is Some by {
            assert(chunk_of_tree(listed[k]) == Some(out@[k]@));
        }
        assert(chunks_of_tree(value_tree(*v))->0 =~= chunk_models(out@));
    }
    Some(out)
}

} // verus!
