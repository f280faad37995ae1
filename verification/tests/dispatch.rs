use serde_json::Value;
use webserver::config::ServerConfig;
use webserver::deno::{DenoRuntime, Settlement};
use webserver::error::{FailureKind, InvocationResult};
use webserver::server::{
    chunks_for_value, failure_chunk, handle_copilot_request, handle_copilot_stream, plan_call,
    reject_reply, reply_for_value, stream_copilot_response, unary_reply, write_argument, AppState,
    Dispatch, Server,
};
use webserver::stream::{StreamEnd, StreamSession};
use webserver::wire::{CopilotRequest, CopilotStreamChunk};

fn config() -> ServerConfig {
    ServerConfig {
        addr: "127.0.0.1:3000".to_string(),
        static_dir: "dist".to_string(),
        worker_threads: 4,
        log_level: "info".to_string(),
        openai_api_key: "k-123".to_string(),
        deno_app_path: "main.ts".to_string(),
    }
}

fn session_for(chunks: Vec<CopilotStreamChunk>) -> StreamSession {
    let mut session = StreamSession::open();
    session.settle(chunks);
    session
}

fn json(text: &str) -> Value {
    serde_json::from_str::<Value>(text).unwrap()
}

fn hello() -> CopilotRequest {
    CopilotRequest::decode("{\"message\":\"hello\",\"context\":{},\"stream\":false}").unwrap()
}

#[test]
fn unary_call_answers_with_the_engines_response() {
    let state = Server::new(config()).state();
    let request = hello();
    let dispatch = handle_copilot_request(&state, &request);
    match dispatch {
        Dispatch::Call { streaming, function, args } => {
            assert!(!streaming);
            assert_eq!(function, "handleCopilotRequest");
            let inner: String = serde_json::from_str::<String>(&args).unwrap();
            assert_eq!(json(&inner), json("{\"message\":\"hello\",\"context\":{},\"stream\":false}"));
        }
        Dispatch::Reject(m) => panic!("rejected: {}", m),
    }
    let result = state.deno_runtime.execute_function(
        "handleCopilotRequest",
        Settlement::Fulfilled(Some("{\"message\":\"hi\",\"actions\":[]}".to_string())),
    );
    let reply = unary_reply(result);
    assert_eq!(reply.status, 200);
    assert_eq!(reply.body.message, "hi");
    assert!(reply.body.actions.is_empty());
    assert_eq!(reply.body.error, None);
    let body = reply.body.encode().unwrap();
    assert_eq!(json(&body), json("{\"message\":\"hi\",\"actions\":[]}"));
    assert_eq!(body, "{\"actions\":[],\"message\":\"hi\"}");
}

#[test]
fn missing_function_is_reported() {
    let bridge = DenoRuntime::new(config());
    let result = bridge.execute_function(
        "handleCopilotRequest",
        Settlement::Rejected(Some("Error: Function handleCopilotRequest is not defined".to_string())),
    );
    assert_eq!(
        result,
        InvocationResult::Failure(
            FailureKind::FunctionNotFound,
            "Function handleCopilotRequest is not defined".to_string()
        )
    );
    let reply = unary_reply(result);
    assert_eq!(reply.status, 500);
    let body = reply.body.encode().unwrap();
    assert_eq!(
        json(&body),
        json("{\"message\":\"internal server error\",\"actions\":[],\"error\":\"Function handleCopilotRequest is not defined\"}")
    );
}

#[test]
fn two_chunks_are_streamed_in_order() {
    let result = InvocationResult::Success("[{\"chunk\":\"a\"},{\"chunk\":\"b\",\"done\":true}]".to_string());
    let chunks = stream_copilot_response(result);
    assert_eq!(chunks.len(), 2);
    let mut session = session_for(chunks);
    assert_eq!(session.ended(), None);
    let first = session.next().unwrap().encode().unwrap();
    assert_eq!(first, "{\"chunk\":\"a\"}");
    session.record(true);
    assert_eq!(session.ended(), None);
    let second = session.next().unwrap().encode().unwrap();
    assert_eq!(json(&second), json("{\"chunk\":\"b\",\"done\":true}"));
    session.record(true);
    assert_eq!(session.sent_count(), 2);
    assert_eq!(session.ended(), Some(StreamEnd::Final));
    assert!(session.next().is_none());
}

#[test]
fn synchronous_throw_is_a_failure_like_a_rejection() {
    let bridge = DenoRuntime::new(config());
    let thrown = bridge.execute_function("f", Settlement::ScriptFailed("boom".to_string()));
    let rejected = bridge.execute_function("f", Settlement::Rejected(Some("Error: Error executing f: boom".to_string())));
    assert_eq!(
        thrown,
        InvocationResult::Failure(FailureKind::ExecutionError, "Failed to execute function: boom".to_string())
    );
    assert_eq!(
        rejected,
        InvocationResult::Failure(FailureKind::ExecutionError, "Error: Error executing f: boom".to_string())
    );
    assert_eq!(unary_reply(thrown).status, 500);
    assert_eq!(unary_reply(rejected).status, 500);
}

#[test]
fn execute_function_covers_every_settlement() {
    let bridge = DenoRuntime::new(config());
    assert_eq!(
        bridge.execute_function("f", Settlement::Fulfilled(Some("1".to_string()))),
        InvocationResult::Success("1".to_string())
    );
    assert_eq!(
        bridge.execute_function("f", Settlement::Fulfilled(None)),
        InvocationResult::Failure(FailureKind::SerializationError, "Failed to convert result to string".to_string())
    );
    assert_eq!(
        bridge.execute_function("f", Settlement::Rejected(None)),
        InvocationResult::Failure(FailureKind::SerializationError, "Failed to convert error to string".to_string())
    );
    assert_eq!(
        bridge.execute_function("f", Settlement::NotAPromise),
        InvocationResult::Failure(FailureKind::SerializationError, "Result is not a promise".to_string())
    );
    assert_eq!(
        bridge.execute_function("f", Settlement::Pending),
        InvocationResult::Failure(FailureKind::ExecutionError, "Promise is still pending".to_string())
    );
    assert_eq!(
        bridge.execute_function("f", Settlement::LoopFailed("loop".to_string())),
        InvocationResult::Failure(FailureKind::ExecutionError, "loop".to_string())
    );
    assert_eq!(
        bridge.execute_function("g", Settlement::Rejected(Some("Error: Function f is not defined".to_string()))),
        InvocationResult::Failure(FailureKind::ExecutionError, "Error: Function f is not defined".to_string())
    );
    assert!(InvocationResult::Success("x".to_string()).is_success());
    assert!(!InvocationResult::Failure(FailureKind::BootstrapError, "x".to_string()).is_success());
}

#[test]
fn call_script_is_exact() {
    let bridge = DenoRuntime::new(config());
    let script = bridge.call_script("f", "\"x\"");
    let expected = "(async function() {\n    if (typeof globalThis.f !== \"function\") {\n        throw new Error(\"Function f is not defined\");\n    }\n    try {\n        const result = await globalThis.f(\"x\");\n        return result;\n    } catch (error) {\n        throw new Error(`Error executing f: ${error.message}`);\n    }\n})();\n";
    assert_eq!(script, expected);
    assert_eq!(bridge.env_script(), "Deno.env.set(\"OPENAI_API_KEY\", \"k-123\");\n");
}

#[test]
fn argument_is_one_string_literal() {
    let request = CopilotRequest {
        message: "it's '); evil(); ('".to_string(),
        context: Value::Null,
        stream: false,
    };
    let args = write_argument(&request).unwrap();
    assert!(args.starts_with('"') && args.ends_with('"'));
    let inner: String = serde_json::from_str::<String>(&args).unwrap();
    let back = CopilotRequest::decode(&inner).unwrap();
    assert_eq!(back, request);
}

#[test]
fn streaming_request_goes_to_the_stream_function() {
    let state = Server::new(config()).state();
    let mut request = hello();
    request.stream = true;
    match handle_copilot_request(&state, &request) {
        Dispatch::Call { streaming, function, .. } => {
            assert!(streaming);
            assert_eq!(function, "handleCopilotStreamRequest");
        }
        Dispatch::Reject(m) => panic!("rejected: {}", m),
    }
}

#[test]
fn no_call_before_the_engine_is_ready() {
    let mut state = Server::new(config()).state();
    state.worker_ready = false;
    assert_eq!(
        handle_copilot_request(&state, &hello()),
        Dispatch::Reject("Deno runtime not initialized".to_string())
    );
}

#[test]
fn plan_call_reports_a_request_that_cannot_be_written() {
    assert_eq!(
        plan_call(false, Err("bad".to_string())),
        Dispatch::Reject("Failed to serialize request: bad".to_string())
    );
    assert_eq!(
        plan_call(true, Ok("\"{}\"".to_string())),
        Dispatch::Call {
            streaming: true,
            function: "handleCopilotStreamRequest".to_string(),
            args: "\"{}\"".to_string()
        }
    );
}

#[test]
fn unary_reply_has_one_of_two_shapes() {
    let results = vec![
        InvocationResult::Success("{\"message\":\"m\",\"actions\":[1,\"two\"],\"error\":null}".to_string()),
        InvocationResult::Success("not json".to_string()),
        InvocationResult::Success("{\"message\":3}".to_string()),
        InvocationResult::Success("{\"message\":\"m\"}".to_string()),
        InvocationResult::Failure(FailureKind::ExecutionError, "x".to_string()),
    ];
    let mut statuses = Vec::new();
    for result in results {
        let reply = unary_reply(result);
        if reply.status == 500 {
            assert_eq!(reply.body.message, "internal server error");
            assert!(reply.body.actions.is_empty());
            assert!(reply.body.error.is_some());
        } else {
            assert_eq!(reply.status, 200);
        }
        statuses.push(reply.status);
    }
    assert_eq!(statuses, vec![200, 500, 500, 500, 500]);
}

#[test]
fn reply_for_value_reads_the_response() {
    let reply = reply_for_value(&json("{\"message\":\"m\",\"actions\":[{\"a\":1}],\"error\":\"e\"}"));
    assert_eq!(reply.status, 200);
    assert_eq!(reply.body.message, "m");
    assert_eq!(reply.body.actions, vec![json("{\"a\":1}")]);
    assert_eq!(reply.body.error, Some("e".to_string()));
    let bad = reply_for_value(&json("[1]"));
    assert_eq!(bad, reject_reply("Failed to parse Deno response: invalid response".to_string()));
}

#[test]
fn unparsable_result_names_the_parser_error() {
    let reply = unary_reply(InvocationResult::Success("{".to_string()));
    let expected = serde_json::from_str::<Value>("{").unwrap_err().to_string();
    assert_eq!(reply.body.error, Some(format!("Failed to parse Deno response: {}", expected)));
}

#[test]
fn stream_failure_is_one_final_chunk() {
    let chunks = stream_copilot_response(InvocationResult::Failure(FailureKind::ExecutionError, "bad".to_string()));
    assert_eq!(
        chunks,
        vec![CopilotStreamChunk {
            chunk: "Internal server error".to_string(),
            done: Some(true),
            error: Some("bad".to_string())
        }]
    );
    assert_eq!(chunks[0], failure_chunk("bad".to_string()));
    let not_a_list = chunks_for_value(&json("{\"chunk\":\"a\"}"));
    assert_eq!(not_a_list, vec![failure_chunk("Failed to parse Deno response: invalid chunk list".to_string())]);
    let bad_item = stream_copilot_response(InvocationResult::Success("[{\"chunk\":\"a\"},{\"done\":true}]".to_string()));
    assert_eq!(bad_item, vec![failure_chunk("Failed to parse Deno response: invalid chunk list".to_string())]);
    let unparsable = stream_copilot_response(InvocationResult::Success("[".to_string()));
    assert_eq!(unparsable.len(), 1);
    assert!(unparsable[0].is_final());
}

#[test]
fn stream_stops_at_the_first_final_chunk() {
    let chunks = stream_copilot_response(InvocationResult::Success(
        "[{\"chunk\":\"a\"},{\"chunk\":\"b\",\"done\":true},{\"chunk\":\"c\"}]".to_string(),
    ));
    assert_eq!(chunks.len(), 3);
    let mut session = session_for(chunks);
    let mut seen = Vec::new();
    while let Some(chunk) = session.next() {
        seen.push(chunk.chunk.clone());
        session.record(true);
    }
    assert_eq!(seen, vec!["a".to_string(), "b".to_string()]);
    assert_eq!(session.ended(), Some(StreamEnd::Final));
    session.record(true);
    assert_eq!(session.sent_count(), 2);
}

#[test]
fn stream_stops_when_the_client_goes_away() {
    let chunks = stream_copilot_response(InvocationResult::Success(
        "[{\"chunk\":\"a\"},{\"chunk\":\"b\"},{\"chunk\":\"c\",\"done\":true}]".to_string(),
    ));
    let mut session = session_for(chunks);
    assert_eq!(session.next().unwrap().chunk, "a");
    session.record(true);
    assert_eq!(session.next().unwrap().chunk, "b");
    session.record(false);
    assert_eq!(session.ended(), Some(StreamEnd::Disconnected));
    assert_eq!(session.sent_count(), 1);
    assert!(session.next().is_none());
}

#[test]
fn stream_without_a_final_chunk_runs_out() {
    let chunks = stream_copilot_response(InvocationResult::Success("[{\"chunk\":\"a\"},{\"chunk\":\"b\",\"done\":false}]".to_string()));
    let mut session = session_for(chunks);
    session.record(true);
    assert_eq!(session.ended(), None);
    session.record(true);
    assert_eq!(session.ended(), Some(StreamEnd::Exhausted));
    let empty = session_for(stream_copilot_response(InvocationResult::Success("[]".to_string())));
    assert_eq!(empty.ended(), Some(StreamEnd::Exhausted));
    assert!(empty.next().is_none());
}

#[test]
fn stream_settings() {
    let settings = handle_copilot_stream();
    assert_eq!(settings.capacity, 100);
    assert_eq!(settings.keep_alive_seconds, 15);
}

#[test]
fn shared_state_carries_the_configuration() {
    let state: AppState = Server::new(config()).state();
    assert!(state.worker_ready);
    assert_eq!(state.config, config());
    assert_eq!(state.deno_runtime.config, config());
}

#[test]
fn stream_waits_for_the_call_with_heartbeats() {
    let mut session = StreamSession::open();
    assert!(!session.is_settled());
    assert!(session.next().is_none());
    assert_eq!(session.ended(), None);
    assert!(!session.heartbeat_due(14));
    assert!(session.heartbeat_due(15));
    assert!(session.heartbeat_due(16));
    session.record(true);
    assert_eq!(session.sent_count(), 0);
    let chunks = stream_copilot_response(InvocationResult::Success(
        "[{\"chunk\":\"a\"},{\"chunk\":\"b\"}]".to_string(),
    ));
    session.settle(chunks);
    assert!(session.is_settled());
    assert!(session.heartbeat_due(15));
    assert_eq!(session.next().unwrap().chunk, "a");
    session.record(true);
    assert!(!session.heartbeat_due(15));
    session.settle(vec![failure_chunk("late".to_string())]);
    assert_eq!(session.next().unwrap().chunk, "b");
    session.record(true);
    assert_eq!(session.ended(), Some(StreamEnd::Exhausted));
    assert!(!session.heartbeat_due(100));
}

#[test]
fn client_may_leave_before_the_call_settles() {
    let mut session = StreamSession::open();
    session.disconnected();
    assert_eq!(session.ended(), Some(StreamEnd::Disconnected));
    assert!(!session.heartbeat_due(15));
    session.settle(vec![failure_chunk("x".to_string())]);
    assert!(!session.is_settled());
    assert!(session.next().is_none());
    assert_eq!(session.sent_count(), 0);
    let mut done = session_for(vec![failure_chunk("x".to_string())]);
    done.record(true);
    done.disconnected();
    assert_eq!(done.ended(), Some(StreamEnd::Final));
}
