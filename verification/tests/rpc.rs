use obscura_mcp::{Json, LineAction, RpcMessage, RpcResponse};
use obscura_mcp::rpc::{next_line_action, request_of};

#[test]
fn ok_response_carries_a_result() {
    let r = RpcResponse::ok(Json::String("a".to_string()), Json::Bool(true));
    assert_eq!(r.jsonrpc, "2.0");
    assert_eq!(r.id, Json::String("a".to_string()));
    assert_eq!(r.result, Some(Json::Bool(true)));
    assert!(r.error.is_none());
}

#[test]
fn err_response_carries_an_error() {
    let r = RpcResponse::err(Json::Null, -32601, "Unknown method: x".to_string());
    assert_eq!(r.jsonrpc, "2.0");
    assert!(r.result.is_none());
    let e = r.error.unwrap();
    assert_eq!(e.code, -32601);
    assert_eq!(e.message, "Unknown method: x");
}

#[test]
fn lines_are_framed() {
    assert_eq!(next_line_action(0, ""), LineAction::Stop);
    assert_eq!(next_line_action(1, "\n"), LineAction::Skip);
    assert_eq!(next_line_action(4, "  \t\n"), LineAction::Skip);
    assert_eq!(
        next_line_action(20, "  {\"jsonrpc\":\"2.0\"}\n"),
        LineAction::Parse("{\"jsonrpc\":\"2.0\"}".to_string())
    );
}

#[test]
fn notifications_get_no_response() {
    let note = RpcMessage {
        jsonrpc: "2.0".to_string(),
        id: None,
        method: "notifications/initialized".to_string(),
        params: Json::Null,
    };
    assert_eq!(request_of(Some(note)), None);
    assert_eq!(request_of(None), None);
    let call = RpcMessage { jsonrpc: "2.0".to_string(), id: Some(Json::Bool(false)), method: "ping".to_string(), params: Json::Null };
    let q = request_of(Some(call)).unwrap();
    assert_eq!(q.id, Json::Bool(false));
    assert_eq!(q.method, "ping");
    assert_eq!(q.params, Json::Null);
}
