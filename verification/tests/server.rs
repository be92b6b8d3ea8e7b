use obscura_mcp::session::{BrowserTask, ScriptTask, TimeLimit};
use obscura_mcp::{dispatch, tool_reply, BrowserState, Dispatch, Json, JsonNumber, PendingCall, RpcResponse, Tool};

fn s(v: &str) -> Json {
    Json::String(v.to_string())
}

fn obj(entries: Vec<(&str, Json)>) -> Json {
    Json::Object(entries.into_iter().map(|(k, v)| (k.to_string(), v)).collect())
}

fn num(literal: &str, whole: u64, shown: &str) -> Json {
    Json::Number(JsonNumber { literal: literal.to_string(), whole, milli_fraction: 0, shown: shown.to_string() })
}

fn frac(literal: &str, whole: u64, milli_fraction: u64) -> Json {
    Json::Number(JsonNumber { literal: literal.to_string(), whole, milli_fraction, shown: literal.to_string() })
}

fn id() -> Json {
    num("7", 7, "7")
}

fn state() -> BrowserState {
    BrowserState::new(None, None, false, false)
}

fn reply(d: Dispatch) -> RpcResponse {
    match d {
        Dispatch::Reply(r) => r,
        Dispatch::Pending(_) => panic!("expected a reply"),
    }
}

fn pending(d: Dispatch) -> PendingCall {
    match d {
        Dispatch::Pending(p) => p,
        Dispatch::Reply(r) => panic!("expected browser work, got {:?}", r),
    }
}

fn call(name: &str, args: Option<Json>, st: &mut BrowserState) -> Dispatch {
    let mut entries = vec![("name", s(name))];
    if let Some(a) = args {
        entries.push(("arguments", a));
    }
    dispatch("tools/call", id(), &obj(entries), st)
}

fn text_result(t: &str) -> Json {
    obj(vec![("content", Json::Array(vec![obj(vec![("type", s("text")), ("text", s(t))])]))])
}

fn error_result(t: &str) -> Json {
    obj(vec![
        ("content", Json::Array(vec![obj(vec![("type", s("text")), ("text", s(&format!("Error: {t}")))])])),
        ("isError", Json::Bool(true)),
    ])
}

#[test]
fn initialize_reports_protocol_and_server() {
    let r = reply(dispatch("initialize", id(), &obj(vec![("protocolVersion", s("2024-11-05"))]), &mut state()));
    assert_eq!(r.id, id());
    assert_eq!(
        r.result,
        Some(obj(vec![
            ("protocolVersion", s("2024-11-05")),
            ("capabilities", obj(vec![("tools", obj(vec![]))])),
            ("serverInfo", obj(vec![("name", s("obscura-mcp")), ("version", s("0.1.0"))])),
        ]))
    );
}

#[test]
fn ping_resources_and_prompts() {
    assert_eq!(reply(dispatch("ping", id(), &Json::Null, &mut state())).result, Some(obj(vec![])));
    assert_eq!(
        reply(dispatch("resources/list", id(), &Json::Null, &mut state())).result,
        Some(obj(vec![("resources", Json::Array(vec![]))]))
    );
    assert_eq!(
        reply(dispatch("prompts/list", id(), &Json::Null, &mut state())).result,
        Some(obj(vec![("prompts", Json::Array(vec![]))]))
    );
}

#[test]
fn unknown_method_is_refused() {
    let r = reply(dispatch("sampling/createMessage", id(), &Json::Null, &mut state()));
    assert!(r.result.is_none());
    let e = r.error.unwrap();
    assert_eq!(e.code, -32601);
    assert_eq!(e.message, "Unknown method: sampling/createMessage");
}

#[test]
fn tools_list_names_every_tool_in_order() {
    let r = reply(dispatch("tools/list", id(), &Json::Null, &mut state()));
    let result = r.result.unwrap();
    let tools = match result.get("tools") {
        Some(Json::Array(items)) => items,
        _ => panic!("no tools"),
    };
    let names: Vec<&str> = tools.iter().map(|t| t.str_field("name").unwrap().as_str()).collect();
    assert_eq!(
        names,
        vec![
            "browser_navigate", "browser_snapshot", "browser_screenshot", "browser_click", "browser_fill",
            "browser_type", "browser_hover", "browser_scroll", "browser_file_input",
            "browser_wait_for_network_idle", "browser_press_key", "browser_select_option", "browser_evaluate",
            "browser_wait_for", "browser_network_requests", "browser_console_messages", "browser_close",
        ]
    );
    for t in tools {
        let name = t.str_field("name").unwrap();
        assert!(Tool::from_name(name).is_some(), "listed tool {name} is not callable");
    }
}

#[test]
fn tools_list_navigate_entry() {
    let r = reply(dispatch("tools/list", id(), &Json::Null, &mut state()));
    let result = r.result.unwrap();
    let first = match result.get("tools") {
        Some(Json::Array(items)) => &items[0],
        _ => panic!("no tools"),
    };
    assert_eq!(
        first,
        &obj(vec![
            ("name", s("browser_navigate")),
            ("description", s("Navigate to a URL and wait for the page to load")),
            ("inputSchema", obj(vec![
                ("type", s("object")),
                ("properties", obj(vec![
                    ("url", obj(vec![("type", s("string")), ("description", s("URL to navigate to"))])),
                    ("waitUntil", obj(vec![
                        ("type", s("string")),
                        ("enum", Json::Array(vec![s("load"), s("domcontentloaded"), s("networkidle0")])),
                        ("description", s("Navigation wait condition (default: load)")),
                    ])),
                    ("timeout", obj(vec![("type", s("number")), ("description", s("Timeout in seconds (default: 30)"))])),
                ])),
                ("required", Json::Array(vec![s("url")])),
            ])),
        ])
    );
}

#[test]
fn tools_list_entries_without_required_parameters() {
    let r = reply(dispatch("tools/list", id(), &Json::Null, &mut state()));
    let result = r.result.unwrap();
    let items = match result.get("tools") {
        Some(Json::Array(items)) => items,
        _ => panic!("no tools"),
    };
    assert_eq!(
        items[1],
        obj(vec![
            ("name", s("browser_snapshot")),
            ("description", s("Get the current page content as text (title, URL, and readable body text)")),
            ("inputSchema", obj(vec![("type", s("object")), ("properties", obj(vec![]))])),
        ])
    );
    let files = items[8].get("inputSchema").unwrap().get("properties").unwrap().get("files").unwrap();
    assert_eq!(
        files,
        &obj(vec![
            ("type", s("array")),
            ("items", obj(vec![("type", s("string"))])),
            ("description", s("List of file paths to set")),
        ])
    );
    let full_page = items[2].get("inputSchema").unwrap().get("properties").unwrap().get("fullPage").unwrap();
    assert_eq!(full_page.str_field("type"), Some(&"boolean".to_string()));
    assert_eq!(items[2].get("inputSchema").unwrap().get("required"), None);
}

#[test]
fn tool_call_without_a_name_is_an_invalid_params_error() {
    let r = reply(dispatch("tools/call", id(), &obj(vec![("arguments", obj(vec![]))]), &mut state()));
    let e = r.error.unwrap();
    assert_eq!(e.code, -32602);
    assert_eq!(e.message, "Missing tool name");
    let r = reply(dispatch("tools/call", id(), &obj(vec![("name", num("1", 1, "1"))]), &mut state()));
    assert_eq!(r.error.unwrap().code, -32602);
}

#[test]
fn unknown_tool_is_reported_in_the_result() {
    let r = reply(call("browser_teleport", None, &mut state()));
    assert!(r.error.is_none());
    assert_eq!(r.result, Some(error_result("Unknown tool: browser_teleport")));
}

#[test]
fn missing_arguments_are_reported_without_opening_a_page() {
    let cases = [
        ("browser_navigate", "Missing url parameter"),
        ("browser_click", "Missing selector parameter"),
        ("browser_fill", "Missing selector parameter"),
        ("browser_type", "Missing selector parameter"),
        ("browser_hover", "Missing selector parameter"),
        ("browser_file_input", "Missing selector parameter"),
        ("browser_press_key", "Missing key parameter"),
        ("browser_select_option", "Missing selector parameter"),
        ("browser_evaluate", "Missing expression parameter"),
        ("browser_wait_for", "Missing selector parameter"),
    ];
    for (tool, message) in cases {
        let mut st = state();
        let r = reply(call(tool, None, &mut st));
        assert_eq!(r.result, Some(error_result(message)), "{tool}");
        assert!(!st.page_open, "{tool} opened a page");
    }
    let mut st = state();
    let sel = obj(vec![("selector", s("#a"))]);
    assert_eq!(reply(call("browser_fill", Some(sel), &mut st)).result, Some(error_result("Missing value parameter")));
    let sel = obj(vec![("selector", s("#a"))]);
    assert_eq!(reply(call("browser_type", Some(sel), &mut st)).result, Some(error_result("Missing text parameter")));
    let sel = obj(vec![("selector", s("#a"))]);
    assert_eq!(reply(call("browser_select_option", Some(sel), &mut st)).result, Some(error_result("Missing value parameter")));
    let sel = obj(vec![("selector", s("#a")), ("files", s("a.txt"))]);
    assert_eq!(reply(call("browser_file_input", Some(sel), &mut st)).result, Some(error_result("Missing files parameter")));
    assert!(!st.page_open);
}

#[test]
fn navigate_uses_documented_defaults() {
    let mut st = BrowserState::new(None, Some("UA/1".to_string()), false, false);
    let p = pending(call("browser_navigate", Some(obj(vec![("url", s("https://example.com"))])), &mut st));
    assert_eq!(p.id, id());
    assert_eq!(p.tool, Tool::Navigate);
    assert_eq!(
        p.task,
        BrowserTask::Navigate {
            url: "https://example.com".to_string(),
            wait_until: "load".to_string(),
            limit: TimeLimit { secs: 30, millis: 0 },
            user_agent: Some("UA/1".to_string()),
        }
    );
    assert!(st.page_open);
}

#[test]
fn navigate_takes_wait_condition_and_timeout() {
    let mut st = state();
    let args = obj(vec![("url", s("https://a")), ("waitUntil", s("networkidle0")), ("timeout", frac("0.9", 0, 900))]);
    let p = pending(call("browser_navigate", Some(args), &mut st));
    assert_eq!(
        p.task,
        BrowserTask::Navigate {
            url: "https://a".to_string(),
            wait_until: "networkidle0".to_string(),
            limit: TimeLimit { secs: 0, millis: 900 },
            user_agent: None,
        }
    );
}

#[test]
fn click_prepares_its_script() {
    let mut st = state();
    let p = pending(call("browser_click", Some(obj(vec![("selector", s("#go"))])), &mut st));
    assert_eq!(
        p.task,
        BrowserTask::RunScript(ScriptTask {
            script: obscura_mcp::scripts::click("#go"),
            element_missing: Some("Element not found: #go".to_string()),
            option_missing: None,
            done: "Clicked '#go'".to_string(),
        })
    );
    assert!(st.page_open);
}

#[test]
fn scroll_defaults_to_zero_offsets_on_the_window() {
    let mut st = state();
    let p = pending(call("browser_scroll", None, &mut st));
    assert_eq!(
        p.task,
        BrowserTask::RunScript(ScriptTask {
            script: "(function(){ window.scrollBy(0, 0); return \"ok\"; })()".to_string(),
            element_missing: Some("Element not found: ".to_string()),
            option_missing: None,
            done: "Scrolled by (0, 0)".to_string(),
        })
    );
}

#[test]
fn select_option_and_press_key_reports() {
    let mut st = state();
    let p = pending(call("browser_select_option", Some(obj(vec![("selector", s("#c")), ("value", s("red"))])), &mut st));
    match p.task {
        BrowserTask::RunScript(t) => {
            assert_eq!(t.option_missing, Some("Option not found: red".to_string()));
            assert_eq!(t.done, "Selected 'red' in '#c'");
        },
        other => panic!("{other:?}"),
    }
    let p = pending(call("browser_press_key", Some(obj(vec![("key", s("Enter"))])), &mut st));
    match p.task {
        BrowserTask::RunScript(t) => {
            assert_eq!(t.element_missing, None);
            assert_eq!(t.done, "Pressed key 'Enter'");
            assert_eq!(t.script, obscura_mcp::scripts::press_key("Enter", None));
        },
        other => panic!("{other:?}"),
    }
}

#[test]
fn waits_default_to_thirty_seconds() {
    let mut st = state();
    let p = pending(call("browser_wait_for", Some(obj(vec![("selector", s("#x"))])), &mut st));
    assert_eq!(p.task, BrowserTask::WaitFor { selector: "#x".to_string(), limit: TimeLimit { secs: 30, millis: 0 }, poll_ms: 200 });
    let p = pending(call("browser_wait_for_network_idle", None, &mut st));
    assert_eq!(p.task, BrowserTask::WaitForNetworkIdle { limit: TimeLimit { secs: 30, millis: 0 }, poll_ms: 500 });
    let args = obj(vec![("selector", s("#x")), ("timeout", frac("2.5", 2, 2500))]);
    let p = pending(call("browser_wait_for", Some(args), &mut st));
    assert_eq!(p.task, BrowserTask::WaitFor { selector: "#x".to_string(), limit: TimeLimit { secs: 2, millis: 500 }, poll_ms: 200 });
    let p = pending(call("browser_wait_for_network_idle", Some(obj(vec![("timeout", frac("0.25", 0, 250))])), &mut st));
    assert_eq!(p.task, BrowserTask::WaitForNetworkIdle { limit: TimeLimit { secs: 0, millis: 250 }, poll_ms: 500 });
}

#[test]
fn page_reading_tools_need_the_browser() {
    let mut st = state();
    assert_eq!(pending(call("browser_snapshot", None, &mut st)).task, BrowserTask::Snapshot);
    assert_eq!(pending(call("browser_network_requests", None, &mut st)).task, BrowserTask::NetworkRequests);
    let p = pending(call("browser_evaluate", Some(obj(vec![("expression", s("1+1"))])), &mut st));
    assert_eq!(p.task, BrowserTask::Evaluate { expression: "1+1".to_string() });
}

#[test]
fn screenshot_without_a_page_is_an_error() {
    let mut st = state();
    let r = reply(call("browser_screenshot", None, &mut st));
    assert_eq!(
        r.result,
        Some(error_result("No page loaded to take a screenshot of. Please navigate to a URL first."))
    );
    assert!(!st.page_open);
}

#[test]
fn screenshot_with_a_page_asks_the_browser() {
    let mut st = state();
    st.page_open = true;
    assert_eq!(
        pending(call("browser_screenshot", None, &mut st)).task,
        BrowserTask::Screenshot { width: 1280, height: 720, full_page: false }
    );
    let args = obj(vec![("width", num("800", 800, "800")), ("height", num("600", 600, "600")), ("fullPage", Json::Bool(true))]);
    assert_eq!(
        pending(call("browser_screenshot", Some(args), &mut st)).task,
        BrowserTask::Screenshot { width: 800, height: 600, full_page: true }
    );
}

#[test]
fn console_without_a_page_reports_collected_messages() {
    let mut st = state();
    assert_eq!(reply(call("browser_console_messages", None, &mut st)).result, Some(text_result("No console messages.")));
    st.console_messages.push("kept".to_string());
    assert_eq!(reply(call("browser_console_messages", None, &mut st)).result, Some(text_result("kept")));
    assert!(st.console_messages.is_empty());
    st.page_open = true;
    assert_eq!(pending(call("browser_console_messages", None, &mut st)).task, BrowserTask::ConsoleMessages);
}

#[test]
fn close_then_screenshot_and_console() {
    let mut st = state();
    st.page_open = true;
    st.console_messages.push("x".to_string());
    assert_eq!(reply(call("browser_close", None, &mut st)).result, Some(text_result("Browser page closed.")));
    assert!(!st.page_open);
    assert!(st.console_messages.is_empty());
    assert_eq!(
        reply(call("browser_screenshot", None, &mut st)).result,
        Some(error_result("No page loaded to take a screenshot of. Please navigate to a URL first."))
    );
    assert_eq!(reply(call("browser_console_messages", None, &mut st)).result, Some(text_result("No console messages.")));
}

#[test]
fn tool_replies_shape_the_content() {
    let r = tool_reply(id(), Tool::Screenshot, Ok("iVBOR".to_string()));
    assert_eq!(
        r.result,
        Some(obj(vec![(
            "content",
            Json::Array(vec![obj(vec![("type", s("image")), ("data", s("iVBOR")), ("mimeType", s("image/png"))])])
        )]))
    );
    assert_eq!(tool_reply(id(), Tool::Click, Ok("Clicked '#a'".to_string())).result, Some(text_result("Clicked '#a'")));
    assert_eq!(
        tool_reply(id(), Tool::Screenshot, Err("nope".to_string())).result,
        Some(error_result("nope"))
    );
}

#[test]
fn tool_names_round_trip() {
    for t in obscura_mcp::catalog::catalog() {
        let entry = obscura_mcp::catalog::tool_entry_json(t);
        let name = entry.str_field("name").unwrap();
        assert_eq!(Tool::from_name(name), Some(t));
    }
    assert_eq!(Tool::from_name("browser_"), None);
}

#[test]
fn every_reply_is_a_well_formed_json_rpc_response() {
    let methods = ["initialize", "ping", "tools/list", "tools/call", "resources/list", "prompts/list", "nope"];
    for m in methods {
        let r = reply(dispatch(m, s("req-1"), &obj(vec![("name", s("browser_close"))]), &mut state()));
        assert_eq!(r.jsonrpc, "2.0", "{m}");
        assert_eq!(r.id, s("req-1"), "{m}");
        assert!(r.result.is_some() != r.error.is_some(), "{m}");
    }
}

#[test]
fn negative_and_huge_time_limits() {
    let mut st = state();
    let args = obj(vec![("url", s("https://a")), ("timeout", frac("-1", 0, 0))]);
    let p = pending(call("browser_navigate", Some(args), &mut st));
    match p.task {
        BrowserTask::Navigate { limit, .. } => assert_eq!(limit, TimeLimit { secs: 0, millis: 0 }),
        other => panic!("{other:?}"),
    }
    let args = obj(vec![("url", s("https://a")), ("timeout", frac("1e30", u64::MAX, 0))]);
    let p = pending(call("browser_navigate", Some(args), &mut st));
    match p.task {
        BrowserTask::Navigate { limit, .. } => assert_eq!(limit, TimeLimit { secs: u64::MAX, millis: 0 }),
        other => panic!("{other:?}"),
    }
}

#[test]
fn missing_parameter_messages_name_the_first_missing_key() {
    let mut st = state();
    let args = obj(vec![("selector", num("3", 3, "3")), ("value", s("v"))]);
    assert_eq!(reply(call("browser_fill", Some(args), &mut st)).result, Some(error_result("Missing selector parameter")));
    let args = obj(vec![("selector", s("#f")), ("files", Json::Array(vec![]))]);
    assert!(matches!(call("browser_file_input", Some(args), &mut st), Dispatch::Pending(_)));
}
