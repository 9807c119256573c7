//! The line protocol: reply classification, the query round trip, and the
//! initialize handshake.

use mcp_http_core::error::ErrorKind;
use mcp_http_core::process::{
    classify_read, handshake_on_reply, initialize_request_line, initialized_notification_line,
    outgoing_line, query_round, spawn_pipe_check, assess_init_reply, BridgeState, McpRequest,
    ReadEvent,
};

#[test]
fn echo_round_trip_returns_payload_verbatim() {
    let payload = "{\"jsonrpc\": \"2.0\", \"id\": 1, \"method\": \"tools/list\", \"params\": {}}";
    let line = outgoing_line(payload);
    assert_eq!(line, format!("{}\n", payload));
    let request = McpRequest {
        command: payload.to_string(),
    };
    let reply = query_round(&request, ReadEvent::Line { text: line }, 30).unwrap();
    assert_eq!(reply.result, payload);
}

#[test]
fn reply_is_trimmed_of_surrounding_whitespace() {
    let request = McpRequest {
        command: "x".to_string(),
    };
    let reply = query_round(
        &request,
        ReadEvent::Line {
            text: "  {\"ok\":true} \r\n".to_string(),
        },
        30,
    )
    .unwrap();
    assert_eq!(reply.result, "{\"ok\":true}");
}

#[test]
fn eof_before_any_line_is_connection_closed() {
    let err = classify_read(ReadEvent::Eof, 30).unwrap_err();
    assert_eq!(err.kind(), ErrorKind::Process);
    assert_eq!(err.message(), "MCP server closed the connection (EOF)");
}

#[test]
fn timeout_error_names_the_bound() {
    let err = classify_read(ReadEvent::TimedOut, 30).unwrap_err();
    assert_eq!(err.kind(), ErrorKind::Process);
    assert_eq!(err.message(), "MCP server response timeout (30 seconds)");
    let err = classify_read(ReadEvent::TimedOut, 120).unwrap_err();
    assert_eq!(err.message(), "MCP server response timeout (120 seconds)");
}

#[test]
fn blank_line_is_an_error_distinct_from_eof_and_from_empty_success() {
    let blank = classify_read(
        ReadEvent::Line {
            text: "\n".to_string(),
        },
        30,
    )
    .unwrap_err();
    assert_eq!(blank.kind(), ErrorKind::Process);
    assert_eq!(blank.message(), "MCP server returned an empty line");
    let eof = classify_read(ReadEvent::Eof, 30).unwrap_err();
    assert_ne!(blank.message(), eof.message());

    let spaces = classify_read(
        ReadEvent::Line {
            text: "   \r\n".to_string(),
        },
        30,
    )
    .unwrap_err();
    assert_eq!(spaces.message(), "MCP server returned an empty line");
}

#[test]
fn failed_read_carries_the_detail() {
    let err = classify_read(
        ReadEvent::Failed {
            detail: "broken pipe".to_string(),
        },
        30,
    )
    .unwrap_err();
    assert_eq!(err.message(), "Failed to read from MCP stdout: broken pipe");
}

#[test]
fn pipe_check_passes_only_with_all_three_pipes() {
    assert!(spawn_pipe_check(true, true, true).is_ok());
    let e = spawn_pipe_check(false, true, true).unwrap_err();
    assert_eq!(e.message(), "Failed to open stdin for MCP process");
    let e = spawn_pipe_check(true, false, true).unwrap_err();
    assert_eq!(e.message(), "Failed to open stdout for MCP process");
    let e = spawn_pipe_check(true, true, false).unwrap_err();
    assert_eq!(e.message(), "Failed to open stderr for MCP process");
}

#[test]
fn initialize_request_is_the_fixed_handshake_message() {
    let line = initialize_request_line();
    let value: serde_json::Value = serde_json::from_str(&line).unwrap();
    assert_eq!(value["jsonrpc"], "2.0");
    assert_eq!(value["id"], "init");
    assert_eq!(value["method"], "initialize");
    assert_eq!(value["params"]["protocolVersion"], "2024-11-05");
    assert_eq!(value["params"]["clientInfo"]["name"], "mcp-http-core");
    assert_eq!(value["params"]["capabilities"]["roots"]["listChanged"], false);
}

#[test]
fn initialized_notification_is_the_fixed_message() {
    let line = initialized_notification_line();
    let value: serde_json::Value = serde_json::from_str(&line).unwrap();
    assert_eq!(value["jsonrpc"], "2.0");
    assert_eq!(value["method"], "notifications/initialized");
}

#[test]
fn error_reply_rejects_the_handshake() {
    let err = assess_init_reply("{\"jsonrpc\":\"2.0\",\"id\":\"init\",\"error\":{\"code\":-32600}}")
        .unwrap_err();
    assert_eq!(err.kind(), ErrorKind::Process);
    assert_eq!(err.message(), "MCP initialization error");
}

#[test]
fn clean_reply_passes_the_handshake_without_warning() {
    let warn = assess_init_reply("{\"jsonrpc\":\"2.0\",\"id\":\"init\",\"result\":{}}").unwrap();
    assert!(!warn);
}

#[test]
fn invalid_json_reply_passes_with_a_warning() {
    let warn = assess_init_reply("ready.").unwrap();
    assert!(warn);
}

#[test]
fn handshake_reply_step_hands_back_the_notification() {
    let (notify, warn) = handshake_on_reply(
        ReadEvent::Line {
            text: "{\"jsonrpc\":\"2.0\",\"id\":\"init\",\"result\":{}}\n".to_string(),
        },
        30,
    )
    .unwrap();
    assert!(!warn);
    assert_eq!(notify, initialized_notification_line());

    let err = handshake_on_reply(ReadEvent::Eof, 30).unwrap_err();
    assert_eq!(err.message(), "MCP server closed the connection (EOF)");
}

#[test]
fn bridge_state_walks_its_lifecycle() {
    let mut state = BridgeState::Spawned;
    assert!(state.begin_initialize().is_ok());
    state.finish_initialize();
    assert!(state.begin_query().is_ok());
    state.finish_query();
    assert!(state.begin_query().is_ok());
    state.finish_query();
    state.close();
    let err = state.begin_query().unwrap_err();
    assert_eq!(err.message(), "MCP process is closed");
    let err = state.begin_initialize().unwrap_err();
    assert_eq!(err.message(), "MCP process is closed");
}
