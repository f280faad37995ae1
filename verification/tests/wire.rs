use serde_json::Value;
use webserver::wire::{
    chunks_from_value, copy_values, read_optional_flag, read_optional_text, read_text,
    CopilotRequest, CopilotResponse, CopilotStreamChunk,
};

fn parse(text: &str) -> Value {
    serde_json::from_str::<Value>(text).unwrap()
}

#[test]
fn request_round_trip_through_text() {
    let request = CopilotRequest {
        message: "h\u{e9}llo \"world\" \u{1f600}\n".to_string(),
        context: parse("{\"a\":[1,2,{\"b\":null}],\"c\":\"d\"}"),
        stream: true,
    };
    let text = request.encode().unwrap();
    assert_eq!(CopilotRequest::decode(&text), Ok(request));
}

#[test]
fn chunk_round_trip_through_text() {
    let chunks = vec![
        CopilotStreamChunk { chunk: "a".to_string(), done: None, error: None },
        CopilotStreamChunk { chunk: "\u{4f60}\u{597d}".to_string(), done: Some(false), error: None },
        CopilotStreamChunk { chunk: "".to_string(), done: Some(true), error: Some("e\\\"".to_string()) },
    ];
    for chunk in chunks {
        let text = chunk.encode().unwrap();
        let back = CopilotStreamChunk::from_value(&parse(&text));
        assert_eq!(back, Some(chunk));
    }
}

#[test]
fn response_round_trip_through_text() {
    let response = CopilotResponse {
        message: "m".to_string(),
        actions: vec![parse("{\"run\":true}"), parse("3")],
        error: Some("why".to_string()),
    };
    let text = response.encode().unwrap();
    assert_eq!(CopilotResponse::from_value(&parse(&text)), Some(response));
}

#[test]
fn request_defaults() {
    let request = CopilotRequest::decode("{\"message\":\"m\"}").unwrap();
    assert_eq!(request.message, "m");
    assert_eq!(request.context, Value::Null);
    assert!(!request.stream);
    let given = CopilotRequest::decode("{\"message\":\"m\",\"context\":[1],\"stream\":true}").unwrap();
    assert_eq!(given.context, parse("[1]"));
    assert!(given.stream);
}

#[test]
fn request_errors() {
    assert_eq!(CopilotRequest::decode("{}"), Err("invalid request".to_string()));
    assert_eq!(CopilotRequest::decode("{\"message\":1}"), Err("invalid request".to_string()));
    assert_eq!(
        CopilotRequest::decode("{\"message\":\"m\",\"stream\":\"yes\"}"),
        Err("invalid request".to_string())
    );
    assert_eq!(CopilotRequest::decode("[]"), Err("invalid request".to_string()));
    let syntax = serde_json::from_str::<Value>("{\"message\"").unwrap_err().to_string();
    assert_eq!(CopilotRequest::decode("{\"message\""), Err(syntax));
}

#[test]
fn request_encoding_is_exact() {
    let request = CopilotRequest { message: "hello".to_string(), context: parse("{}"), stream: false };
    assert_eq!(request.encode().unwrap(), "{\"context\":{},\"message\":\"hello\",\"stream\":false}");
    assert_eq!(request.to_value(), parse("{\"message\":\"hello\",\"context\":{},\"stream\":false}"));
}

#[test]
fn chunk_encoding_leaves_out_what_is_missing() {
    let plain = CopilotStreamChunk { chunk: "a".to_string(), done: None, error: None };
    assert_eq!(plain.encode().unwrap(), "{\"chunk\":\"a\"}");
    assert!(!plain.is_final());
    let last = CopilotStreamChunk { chunk: "b".to_string(), done: Some(true), error: Some("e".to_string()) };
    assert_eq!(last.encode().unwrap(), "{\"chunk\":\"b\",\"done\":true,\"error\":\"e\"}");
    assert!(last.is_final());
    assert!(!CopilotStreamChunk { chunk: "c".to_string(), done: Some(false), error: None }.is_final());
}

#[test]
fn response_encoding_always_writes_actions() {
    let ok = CopilotResponse { message: "hi".to_string(), actions: vec![], error: None };
    assert_eq!(ok.encode().unwrap(), "{\"actions\":[],\"message\":\"hi\"}");
    let failed = CopilotResponse { message: "m".to_string(), actions: vec![], error: Some("e".to_string()) };
    assert_eq!(failed.to_value(), parse("{\"message\":\"m\",\"actions\":[],\"error\":\"e\"}"));
}

#[test]
fn chunk_reading() {
    assert_eq!(
        CopilotStreamChunk::from_value(&parse("{\"chunk\":\"a\",\"done\":null,\"error\":null}")),
        Some(CopilotStreamChunk { chunk: "a".to_string(), done: None, error: None })
    );
    assert_eq!(CopilotStreamChunk::from_value(&parse("{\"done\":true}")), None);
    assert_eq!(CopilotStreamChunk::from_value(&parse("{\"chunk\":\"a\",\"done\":1}")), None);
    assert_eq!(CopilotStreamChunk::from_value(&parse("{\"chunk\":\"a\",\"error\":false}")), None);
    assert_eq!(CopilotStreamChunk::from_value(&parse("\"a\"")), None);
}

#[test]
fn chunk_list_reading_keeps_the_order() {
    let chunks = chunks_from_value(&parse("[{\"chunk\":\"1\"},{\"chunk\":\"2\"},{\"chunk\":\"3\"}]")).unwrap();
    let payloads: Vec<String> = chunks.into_iter().map(|c| c.chunk).collect();
    assert_eq!(payloads, vec!["1".to_string(), "2".to_string(), "3".to_string()]);
    assert_eq!(chunks_from_value(&parse("[]")), Some(vec![]));
    assert_eq!(chunks_from_value(&parse("{}")), None);
    assert_eq!(chunks_from_value(&parse("[{\"chunk\":\"1\"},2]")), None);
}

#[test]
fn response_reading() {
    assert_eq!(CopilotResponse::from_value(&parse("{\"message\":\"m\"}")), None);
    assert_eq!(CopilotResponse::from_value(&parse("{\"message\":\"m\",\"actions\":{}}")), None);
    assert_eq!(CopilotResponse::from_value(&parse("{\"actions\":[]}")), None);
    assert_eq!(
        CopilotResponse::from_value(&parse("{\"message\":\"m\",\"actions\":[],\"error\":3}")),
        None
    );
}

#[test]
fn member_readers() {
    let v = parse("{\"s\":\"x\",\"n\":null,\"b\":true,\"i\":7}");
    assert_eq!(read_text(&v, "s"), Some("x".to_string()));
    assert_eq!(read_text(&v, "i"), None);
    assert_eq!(read_text(&v, "missing"), None);
    assert_eq!(read_optional_text(&v, "s"), Some(Some("x".to_string())));
    assert_eq!(read_optional_text(&v, "n"), Some(None));
    assert_eq!(read_optional_text(&v, "missing"), Some(None));
    assert_eq!(read_optional_text(&v, "b"), None);
    assert_eq!(read_optional_flag(&v, "b"), Some(Some(true)));
    assert_eq!(read_optional_flag(&v, "n"), Some(None));
    assert_eq!(read_optional_flag(&v, "missing"), Some(None));
    assert_eq!(read_optional_flag(&v, "s"), None);
    assert_eq!(read_text(&parse("[\"s\"]"), "s"), None);
    let list = vec![parse("1"), parse("{\"a\":[]}")];
    assert_eq!(copy_values(&list), list);
}
