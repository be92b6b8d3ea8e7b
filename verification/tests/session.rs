use obscura_mcp::session::{
    close, finish_evaluate, finish_navigate, finish_screenshot, finish_script, list_network_requests,
    network_idle_step, take_console_messages, wait_for_step, BrowserState, EvalValue, NavOutcome, TimeLimit,
    NetworkEvent, ScriptTask,
};

fn state() -> BrowserState {
    BrowserState::new(Some("http://proxy:8080".to_string()), Some("UA/1".to_string()), true, false)
}

fn click_task() -> ScriptTask {
    ScriptTask {
        script: "...".to_string(),
        element_missing: Some("Element not found: #go".to_string()),
        option_missing: None,
        done: "Clicked '#go'".to_string(),
    }
}

#[test]
fn new_session_has_no_page_and_no_messages() {
    let s = state();
    assert!(!s.page_open);
    assert!(s.console_messages.is_empty());
    assert_eq!(s.proxy, Some("http://proxy:8080".to_string()));
    assert_eq!(s.user_agent, Some("UA/1".to_string()));
    assert!(s.stealth);
    assert!(!s.ignore_tls_errors);
}

#[test]
fn console_messages_are_reported_once() {
    let mut s = state();
    s.console_messages.push("earlier".to_string());
    let first = take_console_messages(&mut s, vec!["log one".to_string(), "log two".to_string()]);
    assert_eq!(first, "earlier\nlog one\nlog two");
    assert!(s.console_messages.is_empty());
    let second = take_console_messages(&mut s, Vec::new());
    assert_eq!(second, "No console messages.");
}

#[test]
fn close_resets_page_and_messages() {
    let mut s = state();
    s.page_open = true;
    s.console_messages.push("x".to_string());
    assert_eq!(close(&mut s), "Browser page closed.");
    assert!(!s.page_open);
    assert!(s.console_messages.is_empty());
    assert_eq!(s.user_agent, Some("UA/1".to_string()));
}

#[test]
fn script_answers_are_interpreted() {
    let task = click_task();
    assert_eq!(finish_script(&task, &EvalValue::Text("ok".to_string())), Ok("Clicked '#go'".to_string()));
    assert_eq!(
        finish_script(&task, &EvalValue::Text("error:element not found".to_string())),
        Err("Element not found: #go".to_string())
    );
    assert_eq!(finish_script(&task, &EvalValue::Null), Ok("Clicked '#go'".to_string()));
    assert_eq!(
        finish_script(&task, &EvalValue::Text("error:option not found".to_string())),
        Ok("Clicked '#go'".to_string())
    );
}

#[test]
fn select_option_answers_are_interpreted() {
    let task = ScriptTask {
        script: "...".to_string(),
        element_missing: Some("Element not found: #c".to_string()),
        option_missing: Some("Option not found: red".to_string()),
        done: "Selected 'red' in '#c'".to_string(),
    };
    assert_eq!(
        finish_script(&task, &EvalValue::Text("error:option not found".to_string())),
        Err("Option not found: red".to_string())
    );
    assert_eq!(
        finish_script(&task, &EvalValue::Text("error:element not found".to_string())),
        Err("Element not found: #c".to_string())
    );
    assert_eq!(finish_script(&task, &EvalValue::Text("ok".to_string())), Ok("Selected 'red' in '#c'".to_string()));
}

#[test]
fn unchecked_answers_always_succeed() {
    let task = ScriptTask {
        script: "...".to_string(),
        element_missing: None,
        option_missing: None,
        done: "Pressed key 'Enter'".to_string(),
    };
    assert_eq!(
        finish_script(&task, &EvalValue::Text("error:element not found".to_string())),
        Ok("Pressed key 'Enter'".to_string())
    );
}

#[test]
fn evaluate_reports_strings_null_and_json() {
    assert_eq!(finish_evaluate(&EvalValue::Text("hi".to_string())), "hi");
    assert_eq!(finish_evaluate(&EvalValue::Null), "null");
    assert_eq!(finish_evaluate(&EvalValue::Other("{\n  \"a\": 1\n}".to_string())), "{\n  \"a\": 1\n}");
}

#[test]
fn navigation_reports() {
    let loaded = NavOutcome::Loaded { url: "https://example.com/".to_string(), title: "Example Domain".to_string() };
    let thirty = TimeLimit { secs: 30, millis: 0 };
    assert_eq!(finish_navigate(thirty, &loaded), Ok("Navigated to https://example.com/ \u{2014} \"Example Domain\"".to_string()));
    assert_eq!(finish_navigate(thirty, &NavOutcome::Failed("dns error".to_string())), Err("dns error".to_string()));
    assert_eq!(finish_navigate(TimeLimit { secs: 12, millis: 0 }, &NavOutcome::TimedOut), Err("Navigation timed out after 12 seconds".to_string()));
    assert_eq!(finish_navigate(TimeLimit { secs: 0, millis: 900 }, &NavOutcome::TimedOut), Err("Navigation timed out after 0.9 seconds".to_string()));
    assert_eq!(finish_navigate(TimeLimit { secs: 0, millis: 0 }, &NavOutcome::TimedOut), Err("Navigation timed out after 0 seconds".to_string()));
    assert_eq!(finish_navigate(TimeLimit { secs: 2, millis: 50 }, &NavOutcome::TimedOut), Err("Navigation timed out after 2.05 seconds".to_string()));
    assert_eq!(finish_navigate(TimeLimit { secs: 1, millis: 5 }, &NavOutcome::TimedOut), Err("Navigation timed out after 1.005 seconds".to_string()));
    assert_eq!(
        finish_navigate(TimeLimit { secs: u64::MAX, millis: 0 }, &NavOutcome::TimedOut),
        Err("Navigation timed out after 18446744073709551615 seconds".to_string())
    );
}

#[test]
fn screenshot_reports() {
    assert_eq!(
        finish_screenshot(true, "iVBORw0KGgoAAAANSUhEUgAAAAEAAAABCAQAAAC1HAwCAAAAC0lEQVR42mNkYAAAAAYAAjCB0C8AAAAASUVORK5CYII=".to_string()),
        Ok("iVBORw0KGgoAAAANSUhEUgAAAAEAAAABCAQAAAC1HAwCAAAAC0lEQVR42mNkYAAAAAYAAjCB0C8AAAAASUVORK5CYII=".to_string())
    );
    assert_eq!(
        finish_screenshot(false, "iVBOR".to_string()),
        Err("No page loaded to take a screenshot of. Please navigate to a URL first.".to_string())
    );
    assert_eq!(finish_screenshot(true, "cGFnZQ==".to_string()), Ok("cGFnZQ==".to_string()));
    assert_eq!(
        finish_screenshot(false, "cGFnZQ==".to_string()),
        Err("No page loaded to take a screenshot of. Please navigate to a URL first.".to_string())
    );
}

#[test]
fn network_requests_are_listed_one_per_line() {
    let events = vec![
        NetworkEvent { status: 200, method: "GET".to_string(), url: "https://a/".to_string(), body_size: 1256 },
        NetworkEvent { status: 404, method: "POST".to_string(), url: "https://a/x".to_string(), body_size: 0 },
    ];
    assert_eq!(list_network_requests(&events), "[200] GET https://a/ (1256B)\n[404] POST https://a/x (0B)");
    assert_eq!(list_network_requests(&Vec::new()), "No network requests recorded.");
}

#[test]
fn wait_for_polls() {
    assert_eq!(wait_for_step("#x", true, true), Some(Ok("Found '#x'".to_string())));
    assert_eq!(wait_for_step("#x", false, true), Some(Err("Timeout waiting for '#x'".to_string())));
    assert_eq!(wait_for_step("#x", false, false), None);
}

#[test]
fn network_idle_polls() {
    assert_eq!(network_idle_step(3, 3, 0, false), Some(Ok("Network idle".to_string())));
    assert_eq!(network_idle_step(3, 3, 0, true), Some(Ok("Network idle".to_string())));
    assert_eq!(network_idle_step(2, 3, 0, true), Some(Err("Timeout waiting for network idle".to_string())));
    assert_eq!(network_idle_step(2, 3, 0, false), None);
}

#[test]
fn network_is_not_idle_while_a_request_is_in_flight() {
    assert_eq!(network_idle_step(2, 2, 1, false), None);
    assert_eq!(network_idle_step(2, 2, 1, true), Some(Err("Timeout waiting for network idle".to_string())));
}
