use vstd::prelude::*;
use vstd::string::*;
use crate::json::JsonV;
use crate::text::{decimal, decimal_string, digit_char, join, joined, push_char, views};

verus! {

/// The browser session behind the server: how the browser is to be set up,
/// whether a page is open, and the console messages collected so far.
#[derive(Debug, PartialEq)]
pub struct BrowserState {
    /// The proxy the browser context uses, if any.
    pub proxy: Option<String>,
    /// The user agent to announce before each navigation, if any.
    pub user_agent: Option<String>,
    /// Whether the browser context hides its automation.
    pub stealth: bool,
    /// Whether the browser context accepts invalid TLS certificates.
    pub ignore_tls_errors: bool,
    /// Whether the session has a page (one is opened on first use).
    pub page_open: bool,
    /// Console messages taken from the page and not yet reported.
    pub console_messages: Vec<String>,
}

/// The text of an optional string.
pub open spec fn opt_view(o: Option<String>) -> Option<Seq<char>> {
    match o {
        Some(s) => Some(s@),
        None => None,
    }
}

/// The text of a tool result.
pub open spec fn res_view(r: Result<String, String>) -> Result<Seq<char>, Seq<char>> {
    match r {
        Ok(s) => Ok(s@),
        Err(e) => Err(e@),
    }
}

impl BrowserState {
    /// Whether `after` has the same browser setup as `self`.
    pub open spec fn same_setup(self, after: BrowserState) -> bool {
        &&& after.proxy == self.proxy
        &&& after.user_agent == self.user_agent
        &&& after.stealth == self.stealth
        &&& after.ignore_tls_errors == self.ignore_tls_errors
    }

    /// A session with no page open and no console messages.
    pub fn new(proxy: Option<String>, user_agent: Option<String>, stealth: bool, ignore_tls_errors: bool) -> (r: Self)
        ensures
            r.proxy == proxy,
            r.user_agent == user_agent,
            r.stealth == stealth,
            r.ignore_tls_errors == ignore_tls_errors,
            !r.page_open,
            r.console_messages@.len() == 0,
    {
        BrowserState { proxy, user_agent, stealth, ignore_tls_errors, page_open: false, console_messages: Vec::new() }
    }
}

/// The report of the console tool for the messages `all`.
pub open spec fn console_report(all: Seq<Seq<char>>) -> Seq<char> {
    if all.len() == 0 {
        "No console messages."@
    } else {
        joined(all, "\n"@)
    }
}

/// Whether taking the console messages with `page_messages` from the page
/// turned the session `before` into `after` and reported `report`: every
/// message collected and taken, one per line, and none kept.
pub open spec fn console_taken(before: BrowserState, page_messages: Seq<String>, after: BrowserState, report: Seq<char>) -> bool {
    &&& report == console_report(views(before.console_messages@ + page_messages))
    &&& after.console_messages@.len() == 0
    &&& after.page_open == before.page_open
    &&& before.same_setup(after)
}

/// Takes the console messages of the open page (`page_messages`, nothing
/// when no page is open) together with those collected before, reports them
/// one per line, and forgets them.
pub fn take_console_messages(state: &mut BrowserState, page_messages: Vec<String>) -> (r: String)
    ensures
        console_taken(*old(state), page_messages@, *final(state), r@),
{
    let ghost start = state.console_messages@;
    let mut i: usize = 0;
    while i < page_messages.len()
        invariant
            i <= page_messages@.len(),
            state.console_messages@ == start + page_messages@.take(i as int),
            state.page_open == old(state).page_open,
            old(state).same_setup(*state),
        decreases page_messages@.len() - i,
    {
        state.console_messages.push(page_messages[i].clone());
        assert(page_messages@.take(i + 1) =~= page_messages@.take(i as int).push(page_messages@[i as int]));
        i = i + 1;
    }
    assert(page_messages@.take(page_messages@.len() as int) =~= page_messages@);
    if state.console_messages.len() == 0 {
        assert(views(state.console_messages@) =~= Seq::empty());
        String::from_str("No console messages.")
    } else {
        let text = join(&state.console_messages, "\n");
        state.console_messages.clear();
        text
    }
}

/// Closes the page and forgets the collected console messages.
pub fn close(state: &mut BrowserState) -> (r: String)
    ensures
        r@ == "Browser page closed."@,
        !final(state).page_open,
        final(state).console_messages@.len() == 0,
        old(state).same_setup(*final(state)),
{
    state.page_open = false;
    state.console_messages.clear();
    String::from_str("Browser page closed.")
}

/// What a page script tells the caller, and what the tool reports for each answer.
#[derive(Debug, PartialEq)]
pub struct ScriptTask {
    /// The script to evaluate in the page.
    pub script: String,
    /// The error to report when the script answers that the element was not
    /// found (`None`: that answer is not checked).
    pub element_missing: Option<String>,
    /// The error to report when the script answers that the option was not
    /// found (`None`: that answer is not checked).
    pub option_missing: Option<String>,
    /// The report for any other answer.
    pub done: String,
}

/// The reading of a script task: its texts as character sequences.
pub struct ScriptTaskV {
    pub script: Seq<char>,
    pub element_missing: Option<Seq<char>>,
    pub option_missing: Option<Seq<char>>,
    pub done: Seq<char>,
}

impl View for ScriptTask {
    type V = ScriptTaskV;

    open spec fn view(&self) -> ScriptTaskV {
        ScriptTaskV {
            script: self.script@,
            element_missing: opt_view(self.element_missing),
            option_missing: opt_view(self.option_missing),
            done: self.done@,
        }
    }
}

/// Browser work that a tool needs done before it can report.
#[derive(Debug, PartialEq)]
pub enum BrowserTask {
    /// Announce `user_agent` (if any), then load `url` until `wait_until`
    /// holds, giving up when `limit` has passed.
    Navigate { url: String, wait_until: String, limit: TimeLimit, user_agent: Option<String> },
    /// Read the page's URL, title and body element.
    Snapshot,
    /// Tell whether the open page has a URL, and capture it as a PNG image
    /// in a viewport of `width` by `height` pixels (the whole scrollable page
    /// when `full_page`).
    Screenshot { width: u32, height: u32, full_page: bool },
    /// Evaluate a script and report its answer.
    RunScript(ScriptTask),
    /// Evaluate an expression and report its value.
    Evaluate { expression: String },
    /// Poll every `poll_ms` milliseconds until an element matches
    /// `selector`, until `limit` has passed.
    WaitFor { selector: String, limit: TimeLimit, poll_ms: u64 },
    /// Poll every `poll_ms` milliseconds until no request is in flight and
    /// no new network event appeared, until `limit` has passed.
    WaitForNetworkIdle { limit: TimeLimit, poll_ms: u64 },
    /// Read the network events of the page.
    NetworkRequests,
    /// Read the console messages of the open page.
    ConsoleMessages,
}

/// The reading of a browser task: its texts as character sequences.
pub enum BrowserTaskV {
    Navigate { url: Seq<char>, wait_until: Seq<char>, limit: TimeLimit, user_agent: Option<Seq<char>> },
    Snapshot,
    Screenshot { width: u32, height: u32, full_page: bool },
    RunScript(ScriptTaskV),
    Evaluate { expression: Seq<char> },
    WaitFor { selector: Seq<char>, limit: TimeLimit, poll_ms: u64 },
    WaitForNetworkIdle { limit: TimeLimit, poll_ms: u64 },
    NetworkRequests,
    ConsoleMessages,
}

impl View for BrowserTask {
    type V = BrowserTaskV;

    open spec fn view(&self) -> BrowserTaskV {
        match self {
            BrowserTask::Navigate { url, wait_until, limit, user_agent } => BrowserTaskV::Navigate {
                url: url@,
                wait_until: wait_until@,
                limit: *limit,
                user_agent: opt_view(*user_agent),
            },
            BrowserTask::Snapshot => BrowserTaskV::Snapshot,
            BrowserTask::Screenshot { width, height, full_page } => BrowserTaskV::Screenshot {
                width: *width,
                height: *height,
                full_page: *full_page,
            },
            BrowserTask::RunScript(t) => BrowserTaskV::RunScript(t@),
            BrowserTask::Evaluate { expression } => BrowserTaskV::Evaluate { expression: expression@ },
            BrowserTask::WaitFor { selector, limit, poll_ms } => BrowserTaskV::WaitFor {
                selector: selector@,
                limit: *limit,
                poll_ms: *poll_ms,
            },
            BrowserTask::WaitForNetworkIdle { limit, poll_ms } => BrowserTaskV::WaitForNetworkIdle {
                limit: *limit,
                poll_ms: *poll_ms,
            },
            BrowserTask::NetworkRequests => BrowserTaskV::NetworkRequests,
            BrowserTask::ConsoleMessages => BrowserTaskV::ConsoleMessages,
        }
    }
}

/// The first step of a tool call: either its report, or browser work to do first.
#[derive(Debug, PartialEq)]
pub enum ToolStep {
    Done(Result<String, String>),
    Browse(BrowserTask),
}

/// The reading of a tool's first step.
pub enum ToolStepV {
    Done(Result<Seq<char>, Seq<char>>),
    Browse(BrowserTaskV),
}

impl View for ToolStep {
    type V = ToolStepV;

    open spec fn view(&self) -> ToolStepV {
        match self {
            ToolStep::Done(r) => ToolStepV::Done(res_view(*r)),
            ToolStep::Browse(t) => ToolStepV::Browse(t@),
        }
    }
}

/// What a page answered to a script.
#[derive(Debug, PartialEq)]
pub enum EvalValue {
    /// A string answer.
    Text(String),
    /// A null answer.
    Null,
    /// Any other answer, written as pretty-printed JSON.
    Other(String),
}

/// The reading of a page's answer.
pub enum EvalValueV {
    Text(Seq<char>),
    Null,
    Other(Seq<char>),
}

impl View for EvalValue {
    type V = EvalValueV;

    open spec fn view(&self) -> EvalValueV {
        match self {
            EvalValue::Text(s) => EvalValueV::Text(s@),
            EvalValue::Null => EvalValueV::Null,
            EvalValue::Other(s) => EvalValueV::Other(s@),
        }
    }
}

/// The report of a scripted tool for the page's answer.
pub open spec fn script_outcome(task: ScriptTaskV, answer: EvalValueV) -> Result<Seq<char>, Seq<char>> {
    match answer {
        EvalValueV::Text(s) => {
            if s == "error:element not found"@ && task.element_missing is Some {
                Err(task.element_missing.unwrap())
            } else if s == "error:option not found"@ && task.option_missing is Some {
                Err(task.option_missing.unwrap())
            } else {
                Ok(task.done)
            }
        },
        _ => Ok(task.done),
    }
}

/// Reports a scripted tool from the page's answer to its script.
pub fn finish_script(task: &ScriptTask, answer: &EvalValue) -> (r: Result<String, String>)
    ensures
        res_view(r) == script_outcome(task@, answer@),
{
    match answer {
        EvalValue::Text(s) => {
            if crate::json::str_eq(s.as_str(), "error:element not found") && task.element_missing.is_some() {
                match &task.element_missing {
                    Some(m) => Err(m.clone()),
                    None => Ok(task.done.clone()),
                }
            } else if crate::json::str_eq(s.as_str(), "error:option not found") && task.option_missing.is_some() {
                match &task.option_missing {
                    Some(m) => Err(m.clone()),
                    None => Ok(task.done.clone()),
                }
            } else {
                Ok(task.done.clone())
            }
        },
        _ => Ok(task.done.clone()),
    }
}

/// The report of `browser_evaluate` for the page's answer.
pub open spec fn evaluate_report(answer: EvalValueV) -> Seq<char> {
    match answer {
        EvalValueV::Text(s) => s,
        EvalValueV::Null => "null"@,
        EvalValueV::Other(s) => s,
    }
}

/// Reports `browser_evaluate`: a string as is, null as `null`, anything else as JSON.
pub fn finish_evaluate(answer: &EvalValue) -> (r: String)
    ensures
        r@ == evaluate_report(answer@),
{
    match answer {
        EvalValue::Text(s) => s.clone(),
        EvalValue::Null => String::from_str("null"),
        EvalValue::Other(s) => s.clone(),
    }
}

/// A time limit: `secs` whole seconds and `millis` thousandths of a second
/// (below a thousand).
#[derive(Debug, Clone, Copy, PartialEq, Eq)]
pub struct TimeLimit {
    pub secs: u64,
    pub millis: u64,
}

/// The time limit given as the number `key` of `args`, in seconds, and
/// `default_secs` seconds when there is no such number. Negative numbers
/// give no time at all, and numbers beyond the range of `u64` seconds give
/// the largest limit.
pub open spec fn time_limit(args: JsonV, key: Seq<char>, default_secs: u64) -> TimeLimit {
    TimeLimit { secs: args.whole_field(key, default_secs), millis: args.fraction_field(key) }
}

/// A thousandths digit of `m`.
pub open spec fn place_digit(m: u64, place: u64) -> char {
    digit_char(((m / place) % 10) as nat)
}

/// The decimal places of `m` thousandths: none for 0, otherwise a point and
/// up to three digits without trailing zeros.
pub open spec fn fraction_text(m: u64) -> Seq<char> {
    if m % 1000 == 0 {
        Seq::empty()
    } else if m % 10 != 0 {
        seq!['.', place_digit(m, 100), place_digit(m, 10), place_digit(m, 1)]
    } else if m % 100 != 0 {
        seq!['.', place_digit(m, 100), place_digit(m, 10)]
    } else {
        seq!['.', place_digit(m, 100)]
    }
}

/// A time limit written as a number of seconds.
pub open spec fn limit_text(l: TimeLimit) -> Seq<char> {
    decimal(l.secs as nat) + fraction_text(l.millis)
}

fn digit_of(m: u64, place: u64) -> (r: char)
    requires
        place > 0,
    ensures
        r == place_digit(m, place),
{
    ((48 + (m / place) % 10) as u8) as char
}

/// Writes a time limit as a number of seconds.
pub fn limit_string(l: TimeLimit) -> (r: String)
    ensures
        r@ == limit_text(l),
{
    let mut s = decimal_string(l.secs);
    let m = l.millis;
    if m % 1000 != 0 {
        push_char(&mut s, '.');
        push_char(&mut s, digit_of(m, 100));
        if m % 100 != 0 {
            push_char(&mut s, digit_of(m, 10));
            if m % 10 != 0 {
                push_char(&mut s, digit_of(m, 1));
            }
        }
    }
    s
}

/// How a navigation ended.
#[derive(Debug, PartialEq)]
pub enum NavOutcome {
    /// The page loaded; its URL and title afterwards.
    Loaded { url: String, title: String },
    /// The browser reported an error.
    Failed(String),
    /// The time limit passed first.
    TimedOut,
}

/// The reading of how a navigation ended.
pub enum NavOutcomeV {
    Loaded { url: Seq<char>, title: Seq<char> },
    Failed(Seq<char>),
    TimedOut,
}

impl View for NavOutcome {
    type V = NavOutcomeV;

    open spec fn view(&self) -> NavOutcomeV {
        match self {
            NavOutcome::Loaded { url, title } => NavOutcomeV::Loaded { url: url@, title: title@ },
            NavOutcome::Failed(e) => NavOutcomeV::Failed(e@),
            NavOutcome::TimedOut => NavOutcomeV::TimedOut,
        }
    }
}

/// The report of `browser_navigate` for the time limit `limit`.
pub open spec fn navigate_report(limit: TimeLimit, outcome: NavOutcomeV) -> Result<Seq<char>, Seq<char>> {
    match outcome {
        NavOutcomeV::Loaded { url, title } => Ok("Navigated to "@ + url + " \u{2014} \""@ + title + "\""@),
        NavOutcomeV::Failed(e) => Err(e),
        NavOutcomeV::TimedOut => Err("Navigation timed out after "@ + limit_text(limit) + " seconds"@),
    }
}

/// Reports `browser_navigate` from how the navigation ended.
pub fn finish_navigate(limit: TimeLimit, outcome: &NavOutcome) -> (r: Result<String, String>)
    ensures
        res_view(r) == navigate_report(limit, outcome@),
{
    match outcome {
        NavOutcome::Loaded { url, title } => {
            let mut s = String::from_str("Navigated to ");
            s.append(url.as_str());
            s.append(" \u{2014} \"");
            s.append(title.as_str());
            s.append("\"");
            Ok(s)
        },
        NavOutcome::Failed(e) => Err(e.clone()),
        NavOutcome::TimedOut => {
            let mut s = String::from_str("Navigation timed out after ");
            s.append(limit_string(limit).as_str());
            s.append(" seconds");
            Err(s)
        },
    }
}

/// What `browser_screenshot` answers when no page is loaded.
pub const NO_PAGE_MESSAGE: &'static str = "No page loaded to take a screenshot of. Please navigate to a URL first.";

/// The report of `browser_screenshot` for an open page that has (or has
/// not) a URL, and the image the browser captured of it.
pub open spec fn screenshot_report(has_url: bool, image: Seq<char>) -> Result<Seq<char>, Seq<char>> {
    if has_url {
        Ok(image)
    } else {
        Err(NO_PAGE_MESSAGE@)
    }
}

/// Reports `browser_screenshot` for an open page: the base64 PNG `image`
/// that the browser captured, or the no-page error when the page has no URL.
pub fn finish_screenshot(has_url: bool, image: String) -> (r: Result<String, String>)
    ensures
        res_view(r) == screenshot_report(has_url, image@),
{
    if has_url {
        Ok(image)
    } else {
        Err(String::from_str(NO_PAGE_MESSAGE))
    }
}

/// One network request of the page.
#[derive(Debug, PartialEq)]
pub struct NetworkEvent {
    pub status: u64,
    pub method: String,
    pub url: String,
    pub body_size: u64,
}

/// How a network request is listed: `[status] METHOD url (sizeB)`.
pub open spec fn event_line(e: NetworkEvent) -> Seq<char> {
    "["@ + decimal(e.status as nat) + "] "@ + e.method@ + " "@ + e.url@ + " ("@ + decimal(e.body_size as nat) + "B)"@
}

/// The report of `browser_network_requests`.
pub open spec fn network_report(events: Seq<NetworkEvent>) -> Seq<char> {
    if events.len() == 0 {
        "No network requests recorded."@
    } else {
        joined(events.map_values(|e: NetworkEvent| event_line(e)), "\n"@)
    }
}

fn event_line_exec(e: &NetworkEvent) -> (r: String)
    ensures
        r@ == event_line(*e),
{
    let mut s = String::from_str("[");
    s.append(decimal_string(e.status).as_str());
    s.append("] ");
    s.append(e.method.as_str());
    s.append(" ");
    s.append(e.url.as_str());
    s.append(" (");
    s.append(decimal_string(e.body_size).as_str());
    s.append("B)");
    s
}

/// Reports `browser_network_requests`: one line per request.
pub fn list_network_requests(events: &Vec<NetworkEvent>) -> (r: String)
    ensures
        r@ == network_report(events@),
{
    if events.len() == 0 {
        return String::from_str("No network requests recorded.");
    }
    let mut lines: Vec<String> = Vec::new();
    let mut i: usize = 0;
    while i < events.len()
        invariant
            i <= events@.len(),
            views(lines@) == events@.take(i as int).map_values(|e: NetworkEvent| event_line(e)),
        decreases events@.len() - i,
    {
        let line = event_line_exec(&events[i]);
        let ghost prev = lines@;
        lines.push(line);
        assert(views(lines@) =~= views(prev).push(line@));
        assert(views(lines@) =~= events@.take(i + 1).map_values(|e: NetworkEvent| event_line(e)));
        i = i + 1;
    }
    assert(events@.take(events@.len() as int) =~= events@);
    join(&lines, "\n")
}

/// One poll of `browser_wait_for`: done when the element was found, failed
/// when the time is up, otherwise wait one poll interval and poll again (`None`).
pub open spec fn wait_for_poll(selector: Seq<char>, found: bool, time_up: bool) -> Option<Result<Seq<char>, Seq<char>>> {
    if found {
        Some(Ok("Found '"@ + selector + "'"@))
    } else if time_up {
        Some(Err("Timeout waiting for '"@ + selector + "'"@))
    } else {
        None
    }
}

/// Decides one poll of `browser_wait_for`.
pub fn wait_for_step(selector: &str, found: bool, time_up: bool) -> (r: Option<Result<String, String>>)
    ensures
        match r {
            Some(x) => wait_for_poll(selector@, found, time_up) == Some(res_view(x)),
            None => wait_for_poll(selector@, found, time_up) is None,
        },
{
    if found {
        let mut s = String::from_str("Found '");
        s.append(selector);
        s.append("'");
        Some(Ok(s))
    } else if time_up {
        let mut s = String::from_str("Timeout waiting for '");
        s.append(selector);
        s.append("'");
        Some(Err(s))
    } else {
        None
    }
}

/// How often `browser_wait_for` looks for the element, in milliseconds.
pub const WAIT_FOR_POLL_MS: u64 = 200;

/// How often `browser_wait_for_network_idle` looks at the network, in milliseconds.
pub const NETWORK_IDLE_POLL_MS: u64 = 500;

/// One poll of `browser_wait_for_network_idle`, made one poll interval after
/// the last, which saw `last_count` network events, when the page has `count`
/// network events and `in_flight` requests whose responses have not arrived:
/// idle when no request is in flight and no network event appeared since,
/// failed when the time is up, otherwise poll again remembering the current
/// count (`None`).
pub open spec fn network_idle_poll(last_count: u64, count: u64, in_flight: u64, time_up: bool) -> Option<Result<Seq<char>, Seq<char>>> {
    if count == last_count && in_flight == 0 {
        Some(Ok("Network idle"@))
    } else if time_up {
        Some(Err("Timeout waiting for network idle"@))
    } else {
        None
    }
}

/// Decides one poll of `browser_wait_for_network_idle` from what the page
/// reports of its network.
pub fn network_idle_step(last_count: u64, count: u64, in_flight: u64, time_up: bool) -> (r: Option<Result<String, String>>)
    ensures
        match r {
            Some(x) => network_idle_poll(last_count, count, in_flight, time_up) == Some(res_view(x)),
            None => network_idle_poll(last_count, count, in_flight, time_up) is None,
        },
{
    if count == last_count && in_flight == 0 {
        Some(Ok(String::from_str("Network idle")))
    } else if time_up {
        Some(Err(String::from_str("Timeout waiting for network idle")))
    } else {
        None
    }
}

} // verus!
