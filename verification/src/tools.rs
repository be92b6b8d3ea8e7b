use vstd::prelude::*;
use vstd::string::*;
use crate::catalog::Tool;
use crate::json::{Json, JsonV};
use crate::scripts::{
    click_script, file_input_script, fill_script, hover_script, press_key_script, scroll_script,
    select_script, type_script,
};
use crate::session::{
    BrowserState, BrowserTask, BrowserTaskV, ScriptTask, ScriptTaskV, ToolStep, ToolStepV,
    NETWORK_IDLE_POLL_MS, NO_PAGE_MESSAGE, TimeLimit, WAIT_FOR_POLL_MS, close, time_limit, console_report, opt_view, take_console_messages,
};
use crate::text::views;

verus! {

/// The time limit of the navigation and waiting tools, in seconds, when none is given.
pub const DEFAULT_TIMEOUT_SECS: u64 = 30;

/// The time limit given as the number `key` of `args`, in seconds.
fn limit_arg(args: &Json, key: &str, default_secs: u64) -> (r: TimeLimit)
    ensures
        r == time_limit(args@, key@, default_secs),
{
    TimeLimit { secs: args.whole_field(key, default_secs), millis: args.fraction_field(key) }
}

/// A viewport size read as a whole number, as a 32-bit count of pixels
/// (saturating).
pub open spec fn pixels(n: u64) -> u32 {
    if n > u32::MAX {
        u32::MAX
    } else {
        n as u32
    }
}

fn pixels_exec(n: u64) -> (r: u32)
    ensures
        r == pixels(n),
{
    if n > u32::MAX as u64 {
        u32::MAX
    } else {
        n as u32
    }
}

/// The error reported for an element that the page could not find.
pub open spec fn element_not_found(sel: Seq<char>) -> Seq<char> {
    "Element not found: "@ + sel
}

/// A tool that fails at once with `message` (an argument is missing).
pub open spec fn missing(message: Seq<char>) -> ToolStepV {
    ToolStepV::Done(Err(message))
}

/// A tool that runs `task` in the page.
pub open spec fn scripted(task: ScriptTaskV) -> ToolStepV {
    ToolStepV::Browse(BrowserTaskV::RunScript(task))
}

/// `s`, or the empty string.
pub open spec fn or_empty(s: Option<Seq<char>>) -> Seq<char> {
    match s {
        Some(t) => t,
        None => Seq::empty(),
    }
}

/// The first step of each tool for its `args`, given whether a page is open,
/// the configured user agent and the console messages collected so far.
pub open spec fn tool_plan(
    tool: Tool,
    args: JsonV,
    page_open: bool,
    user_agent: Option<Seq<char>>,
    console: Seq<Seq<char>>,
) -> ToolStepV {
    match tool {
        Tool::Navigate => match args.str_field("url"@) {
            None => missing("Missing url parameter"@),
            Some(url) => ToolStepV::Browse(BrowserTaskV::Navigate {
                url,
                wait_until: match args.str_field("waitUntil"@) {
                    Some(w) => w,
                    None => "load"@,
                },
                limit: time_limit(args, "timeout"@, DEFAULT_TIMEOUT_SECS),
                user_agent,
            }),
        },
        Tool::Snapshot => ToolStepV::Browse(BrowserTaskV::Snapshot),
        Tool::Screenshot => if page_open {
            ToolStepV::Browse(BrowserTaskV::Screenshot {
                width: pixels(args.whole_field("width"@, 1280)),
                height: pixels(args.whole_field("height"@, 720)),
                full_page: args.bool_field("fullPage"@, false),
            })
        } else {
            ToolStepV::Done(Err(NO_PAGE_MESSAGE@))
        },
        Tool::Click => match args.str_field("selector"@) {
            None => missing("Missing selector parameter"@),
            Some(sel) => scripted(ScriptTaskV {
                script: click_script(sel),
                element_missing: Some(element_not_found(sel)),
                option_missing: None,
                done: "Clicked '"@ + sel + "'"@,
            }),
        },
        Tool::Fill => match (args.str_field("selector"@), args.str_field("value"@)) {
            (None, _) => missing("Missing selector parameter"@),
            (Some(_), None) => missing("Missing value parameter"@),
            (Some(sel), Some(value)) => scripted(ScriptTaskV {
                script: fill_script(sel, value),
                element_missing: Some(element_not_found(sel)),
                option_missing: None,
                done: "Filled '"@ + sel + "' with value"@,
            }),
        },
        Tool::Type => match (args.str_field("selector"@), args.str_field("text"@)) {
            (None, _) => missing("Missing selector parameter"@),
            (Some(_), None) => missing("Missing text parameter"@),
            (Some(sel), Some(text)) => scripted(ScriptTaskV {
                script: type_script(sel, text),
                element_missing: Some(element_not_found(sel)),
                option_missing: None,
                done: "Typed into '"@ + sel + "'"@,
            }),
        },
        Tool::Hover => match args.str_field("selector"@) {
            None => missing("Missing selector parameter"@),
            Some(sel) => scripted(ScriptTaskV {
                script: hover_script(sel),
                element_missing: Some(element_not_found(sel)),
                option_missing: None,
                done: "Hovered over '"@ + sel + "'"@,
            }),
        },
        Tool::Scroll => {
            let x = args.shown_field("x"@, "0"@);
            let y = args.shown_field("y"@, "0"@);
            let sel = args.str_field("selector"@);
            scripted(ScriptTaskV {
                script: scroll_script(sel, x, y),
                element_missing: Some(element_not_found(or_empty(sel))),
                option_missing: None,
                done: "Scrolled by ("@ + x + ", "@ + y + ")"@,
            })
        },
        Tool::FileInput => match (args.str_field("selector"@), args.strings_field("files"@)) {
            (None, _) => missing("Missing selector parameter"@),
            (Some(_), None) => missing("Missing files parameter"@),
            (Some(sel), Some(files)) => scripted(ScriptTaskV {
                script: file_input_script(sel, files),
                element_missing: Some(element_not_found(sel)),
                option_missing: None,
                done: "Set files on '"@ + sel + "'"@,
            }),
        },
        Tool::WaitForNetworkIdle => ToolStepV::Browse(BrowserTaskV::WaitForNetworkIdle {
            limit: time_limit(args, "timeout"@, DEFAULT_TIMEOUT_SECS),
            poll_ms: NETWORK_IDLE_POLL_MS,
        }),
        Tool::PressKey => match args.str_field("key"@) {
            None => missing("Missing key parameter"@),
            Some(key) => scripted(ScriptTaskV {
                script: press_key_script(key, args.str_field("selector"@)),
                element_missing: None,
                option_missing: None,
                done: "Pressed key '"@ + key + "'"@,
            }),
        },
        Tool::SelectOption => match (args.str_field("selector"@), args.str_field("value"@)) {
            (None, _) => missing("Missing selector parameter"@),
            (Some(_), None) => missing("Missing value parameter"@),
            (Some(sel), Some(value)) => scripted(ScriptTaskV {
                script: select_script(sel, value),
                element_missing: Some(element_not_found(sel)),
                option_missing: Some("Option not found: "@ + value),
                done: "Selected '"@ + value + "' in '"@ + sel + "'"@,
            }),
        },
        Tool::Evaluate => match args.str_field("expression"@) {
            None => missing("Missing expression parameter"@),
            Some(expression) => ToolStepV::Browse(BrowserTaskV::Evaluate { expression }),
        },
        Tool::WaitFor => match args.str_field("selector"@) {
            None => missing("Missing selector parameter"@),
            Some(selector) => ToolStepV::Browse(BrowserTaskV::WaitFor {
                selector,
                limit: time_limit(args, "timeout"@, DEFAULT_TIMEOUT_SECS),
                poll_ms: WAIT_FOR_POLL_MS,
            }),
        },
        Tool::NetworkRequests => ToolStepV::Browse(BrowserTaskV::NetworkRequests),
        Tool::ConsoleMessages => if page_open {
            ToolStepV::Browse(BrowserTaskV::ConsoleMessages)
        } else {
            ToolStepV::Done(Ok(console_report(console)))
        },
        Tool::Close => ToolStepV::Done(Ok("Browser page closed."@)),
    }
}

/// Whether a page is open after the first step `step` of `tool`: closing
/// closes it, any browser work opens one, anything else leaves it as it was.
pub open spec fn page_open_after(tool: Tool, step: ToolStepV, page_open: bool) -> bool {
    if tool == Tool::Close {
        false
    } else {
        page_open || step is Browse
    }
}

/// Whether the first step of `tool` forgets the collected console messages:
/// closing does, and so does reporting them when no page is open.
pub open spec fn clears_console(tool: Tool, page_open: bool) -> bool {
    tool == Tool::Close || (tool == Tool::ConsoleMessages && !page_open)
}

fn cat2(a: &str, b: &str) -> (r: String)
    ensures
        r@ == a@ + b@,
{
    let mut s = String::from_str(a);
    s.append(b);
    s
}

fn cat3(a: &str, b: &str, c: &str) -> (r: String)
    ensures
        r@ == a@ + b@ + c@,
{
    let mut s = String::from_str(a);
    s.append(b);
    s.append(c);
    s
}

fn fail(message: &str) -> (r: ToolStep)
    ensures
        r@ == missing(message@),
{
    ToolStep::Done(Err(String::from_str(message)))
}

fn run_script(script: String, element_missing: Option<String>, option_missing: Option<String>, done: String) -> (r: ToolStep)
    ensures
        r@ == scripted(ScriptTaskV {
            script: script@,
            element_missing: opt_view(element_missing),
            option_missing: opt_view(option_missing),
            done: done@,
        }),
{
    ToolStep::Browse(BrowserTask::RunScript(ScriptTask { script, element_missing, option_missing, done }))
}

fn opt_str(o: Option<&String>) -> (r: Option<&str>)
    ensures
        match r {
            Some(s) => o matches Some(t) && s@ == t@,
            None => o is None,
        },
{
    match o {
        Some(s) => Some(s.as_str()),
        None => None,
    }
}

fn plan_navigate(args: &Json, state: &BrowserState) -> (r: ToolStep)
    ensures
        r@ == tool_plan(
            Tool::Navigate,
            args@,
            state.page_open,
            opt_view(state.user_agent),
            views(state.console_messages@),
        ),
{
    match args.str_field("url") {
        None => fail("Missing url parameter"),
        Some(url) => {
            let wait_until = match args.str_field("waitUntil") {
                Some(w) => w.clone(),
                None => String::from_str("load"),
            };
            ToolStep::Browse(BrowserTask::Navigate {
                url: url.clone(),
                wait_until,
                limit: limit_arg(args, "timeout", DEFAULT_TIMEOUT_SECS),
                user_agent: state.user_agent.clone(),
            })
        },
    }
}

fn plan_snapshot(args: &Json, state: &BrowserState) -> (r: ToolStep)
    ensures
        r@ == tool_plan(
            Tool::Snapshot,
            args@,
            state.page_open,
            opt_view(state.user_agent),
            views(state.console_messages@),
        ),
{
    ToolStep::Browse(BrowserTask::Snapshot)
}

fn plan_screenshot(args: &Json, state: &BrowserState) -> (r: ToolStep)
    ensures
        r@ == tool_plan(
            Tool::Screenshot,
            args@,
            state.page_open,
            opt_view(state.user_agent),
            views(state.console_messages@),
        ),
{
    if state.page_open {
        ToolStep::Browse(BrowserTask::Screenshot {
            width: pixels_exec(args.whole_field("width", 1280)),
            height: pixels_exec(args.whole_field("height", 720)),
            full_page: args.bool_field("fullPage", false),
        })
    } else {
        fail(NO_PAGE_MESSAGE)
    }
}

fn plan_click(args: &Json, state: &BrowserState) -> (r: ToolStep)
    ensures
        r@ == tool_plan(
            Tool::Click,
            args@,
            state.page_open,
            opt_view(state.user_agent),
            views(state.console_messages@),
        ),
{
    match args.str_field("selector") {
        None => fail("Missing selector parameter"),
        Some(sel) => run_script(
            crate::scripts::click(sel.as_str()),
            Some(cat2("Element not found: ", sel.as_str())),
            None,
            cat3("Clicked '", sel.as_str(), "'"),
        ),
    }
}

fn plan_fill(args: &Json, state: &BrowserState) -> (r: ToolStep)
    ensures
        r@ == tool_plan(
            Tool::Fill,
            args@,
            state.page_open,
            opt_view(state.user_agent),
            views(state.console_messages@),
        ),
{
    match args.str_field("selector") {
        None => fail("Missing selector parameter"),
        Some(sel) => match args.str_field("value") {
            None => fail("Missing value parameter"),
            Some(value) => run_script(
                crate::scripts::fill(sel.as_str(), value.as_str()),
                Some(cat2("Element not found: ", sel.as_str())),
                None,
                cat3("Filled '", sel.as_str(), "' with value"),
            ),
        },
    }
}

fn plan_type(args: &Json, state: &BrowserState) -> (r: ToolStep)
    ensures
        r@ == tool_plan(
            Tool::Type,
            args@,
            state.page_open,
            opt_view(state.user_agent),
            views(state.console_messages@),
        ),
{
    match args.str_field("selector") {
        None => fail("Missing selector parameter"),
        Some(sel) => match args.str_field("text") {
            None => fail("Missing text parameter"),
            Some(text) => run_script(
                crate::scripts::type_text(sel.as_str(), text.as_str()),
                Some(cat2("Element not found: ", sel.as_str())),
                None,
                cat3("Typed into '", sel.as_str(), "'"),
            ),
        },
    }
}

fn plan_hover(args: &Json, state: &BrowserState) -> (r: ToolStep)
    ensures
        r@ == tool_plan(
            Tool::Hover,
            args@,
            state.page_open,
            opt_view(state.user_agent),
            views(state.console_messages@),
        ),
{
    match args.str_field("selector") {
        None => fail("Missing selector parameter"),
        Some(sel) => run_script(
            crate::scripts::hover(sel.as_str()),
            Some(cat2("Element not found: ", sel.as_str())),
            None,
            cat3("Hovered over '", sel.as_str(), "'"),
        ),
    }
}

fn plan_scroll(args: &Json, state: &BrowserState) -> (r: ToolStep)
    ensures
        r@ == tool_plan(
            Tool::Scroll,
            args@,
            state.page_open,
            opt_view(state.user_agent),
            views(state.console_messages@),
        ),
{
    {
        let x = args.shown_field("x", "0");
        let y = args.shown_field("y", "0");
        let sel = opt_str(args.str_field("selector"));
        let shown_sel = match sel {
            Some(s) => s,
            None => "",
        };
        proof {
            reveal_strlit("");
        }
        assert(shown_sel@ == or_empty(args@.str_field("selector"@)));
        assert(match sel {
            Some(s) => Some(s@),
            None => None::<Seq<char>>,
        } == args@.str_field("selector"@));
        let mut done = cat3("Scrolled by (", x.as_str(), ", ");
        done.append(y.as_str());
        done.append(")");
        run_script(
            crate::scripts::scroll(sel, x.as_str(), y.as_str()),
            Some(cat2("Element not found: ", shown_sel)),
            None,
            done,
        )
    }
}

fn plan_file_input(args: &Json, state: &BrowserState) -> (r: ToolStep)
    ensures
        r@ == tool_plan(
            Tool::FileInput,
            args@,
            state.page_open,
            opt_view(state.user_agent),
            views(state.console_messages@),
        ),
{
    match args.str_field("selector") {
        None => fail("Missing selector parameter"),
        Some(sel) => match args.strings_field("files") {
            None => fail("Missing files parameter"),
            Some(files) => run_script(
                crate::scripts::file_input(sel.as_str(), &files),
                Some(cat2("Element not found: ", sel.as_str())),
                None,
                cat3("Set files on '", sel.as_str(), "'"),
            ),
        },
    }
}

fn plan_wait_for_network_idle(args: &Json, state: &BrowserState) -> (r: ToolStep)
    ensures
        r@ == tool_plan(
            Tool::WaitForNetworkIdle,
            args@,
            state.page_open,
            opt_view(state.user_agent),
            views(state.console_messages@),
        ),
{
    ToolStep::Browse(BrowserTask::WaitForNetworkIdle {
        limit: limit_arg(args, "timeout", DEFAULT_TIMEOUT_SECS),
        poll_ms: NETWORK_IDLE_POLL_MS,
    })
}

fn plan_press_key(args: &Json, state: &BrowserState) -> (r: ToolStep)
    ensures
        r@ == tool_plan(
            Tool::PressKey,
            args@,
            state.page_open,
            opt_view(state.user_agent),
            views(state.console_messages@),
        ),
{
    match args.str_field("key") {
        None => fail("Missing key parameter"),
        Some(key) => run_script(
            crate::scripts::press_key(key.as_str(), opt_str(args.str_field("selector"))),
            None,
            None,
            cat3("Pressed key '", key.as_str(), "'"),
        ),
    }
}

fn plan_select_option(args: &Json, state: &BrowserState) -> (r: ToolStep)
    ensures
        r@ == tool_plan(
            Tool::SelectOption,
            args@,
            state.page_open,
            opt_view(state.user_agent),
            views(state.console_messages@),
        ),
{
    match args.str_field("selector") {
        None => fail("Missing selector parameter"),
        Some(sel) => match args.str_field("value") {
            None => fail("Missing value parameter"),
            Some(value) => {
                let mut done = cat3("Selected '", value.as_str(), "' in '");
                done.append(sel.as_str());
                done.append("'");
                run_script(
                    crate::scripts::select_option(sel.as_str(), value.as_str()),
                    Some(cat2("Element not found: ", sel.as_str())),
                    Some(cat2("Option not found: ", value.as_str())),
                    done,
                )
            },
        },
    }
}

fn plan_evaluate(args: &Json, state: &BrowserState) -> (r: ToolStep)
    ensures
        r@ == tool_plan(
            Tool::Evaluate,
            args@,
            state.page_open,
            opt_view(state.user_agent),
            views(state.console_messages@),
        ),
{
    match args.str_field("expression") {
        None => fail("Missing expression parameter"),
        Some(expression) => ToolStep::Browse(BrowserTask::Evaluate { expression: expression.clone() }),
    }
}

fn plan_wait_for(args: &Json, state: &BrowserState) -> (r: ToolStep)
    ensures
        r@ == tool_plan(
            Tool::WaitFor,
            args@,
            state.page_open,
            opt_view(state.user_agent),
            views(state.console_messages@),
        ),
{
    match args.str_field("selector") {
        None => fail("Missing selector parameter"),
        Some(selector) => ToolStep::Browse(BrowserTask::WaitFor {
            selector: selector.clone(),
            limit: limit_arg(args, "timeout", DEFAULT_TIMEOUT_SECS),
            poll_ms: WAIT_FOR_POLL_MS,
        }),
    }
}

fn plan_network_requests(args: &Json, state: &BrowserState) -> (r: ToolStep)
    ensures
        r@ == tool_plan(
            Tool::NetworkRequests,
            args@,
            state.page_open,
            opt_view(state.user_agent),
            views(state.console_messages@),
        ),
{
    ToolStep::Browse(BrowserTask::NetworkRequests)
}

/// The first step of calling `tool` with `args`: checks the arguments,
/// prepares the page script or other browser work, and keeps the session's
/// page and console messages up to date.
pub fn start_tool(tool: Tool, args: &Json, state: &mut BrowserState) -> (r: ToolStep)
    ensures
        r@ == tool_plan(
            tool,
            args@,
            old(state).page_open,
            opt_view(old(state).user_agent),
            views(old(state).console_messages@),
        ),
        final(state).page_open == page_open_after(tool, r@, old(state).page_open),
        final(state).console_messages@ == if clears_console(tool, old(state).page_open) {
            Seq::empty()
        } else {
            old(state).console_messages@
        },
        old(state).same_setup(*final(state)),
{
    let r = match tool {
        Tool::Navigate => plan_navigate(args, state),
        Tool::Snapshot => plan_snapshot(args, state),
        Tool::Screenshot => plan_screenshot(args, state),
        Tool::Click => plan_click(args, state),
        Tool::Fill => plan_fill(args, state),
        Tool::Type => plan_type(args, state),
        Tool::Hover => plan_hover(args, state),
        Tool::Scroll => plan_scroll(args, state),
        Tool::FileInput => plan_file_input(args, state),
        Tool::WaitForNetworkIdle => plan_wait_for_network_idle(args, state),
        Tool::PressKey => plan_press_key(args, state),
        Tool::SelectOption => plan_select_option(args, state),
        Tool::Evaluate => plan_evaluate(args, state),
        Tool::WaitFor => plan_wait_for(args, state),
        Tool::NetworkRequests => plan_network_requests(args, state),
        Tool::ConsoleMessages => if state.page_open {
            ToolStep::Browse(BrowserTask::ConsoleMessages)
        } else {
            let report = take_console_messages(state, Vec::new());
            assert(old(state).console_messages@ + Seq::<String>::empty() =~= old(state).console_messages@);
            ToolStep::Done(Ok(report))
        },
        Tool::Close => ToolStep::Done(Ok(close(state))),
    };
    if let ToolStep::Browse(_) = &r {
        state.page_open = true;
    }
    r
}

} // verus!
