use vstd::prelude::*;
use crate::catalog::{ParamDoc, ParamType, Tool, catalog_order, tool_doc};
use crate::encode::{json_escaped, json_escaped_char, json_string_literal};
use crate::json::{Json, JsonV};
use crate::rpc::RpcResponse;
use crate::server::{Dispatch, dispatched, lemma_tool_names_distinct, tool_call_result, tool_named};
use crate::session::{
    BrowserState, BrowserTaskV, NO_PAGE_MESSAGE, NavOutcomeV, TimeLimit, ToolStepV, console_report,
    console_taken, limit_text, navigate_report, network_idle_poll, opt_view, time_limit,
};
use crate::text::views;
use crate::tools::{clears_console, page_open_after, pixels, tool_plan};

verus! {

/// Every tool that `tools/list` advertises is found by `tools/call` under
/// its listed name, and every tool is advertised.
pub proof fn law_listed_tools_are_callable()
    ensures
        forall|i: int| 0 <= i < catalog_order().len() ==> tool_named(#[trigger] catalog_order()[i].name()) == Some(catalog_order()[i]),
        forall|t: Tool| catalog_order().contains(t),
{
    lemma_tool_names_distinct();
    assert forall|i: int| 0 <= i < catalog_order().len() implies tool_named(#[trigger] catalog_order()[i].name()) == Some(catalog_order()[i]) by {
        let t = catalog_order()[i];
        assert(t.name() == t.name());
    }
    assert forall|t: Tool| catalog_order().contains(t) by {
        match t {
            Tool::Navigate => assert(catalog_order()[0] == t),
            Tool::Snapshot => assert(catalog_order()[1] == t),
            Tool::Screenshot => assert(catalog_order()[2] == t),
            Tool::Click => assert(catalog_order()[3] == t),
            Tool::Fill => assert(catalog_order()[4] == t),
            Tool::Type => assert(catalog_order()[5] == t),
            Tool::Hover => assert(catalog_order()[6] == t),
            Tool::Scroll => assert(catalog_order()[7] == t),
            Tool::FileInput => assert(catalog_order()[8] == t),
            Tool::WaitForNetworkIdle => assert(catalog_order()[9] == t),
            Tool::PressKey => assert(catalog_order()[10] == t),
            Tool::SelectOption => assert(catalog_order()[11] == t),
            Tool::Evaluate => assert(catalog_order()[12] == t),
            Tool::WaitFor => assert(catalog_order()[13] == t),
            Tool::NetworkRequests => assert(catalog_order()[14] == t),
            Tool::ConsoleMessages => assert(catalog_order()[15] == t),
            Tool::Close => assert(catalog_order()[16] == t),
        }
    }
}

/// Whether `resp` is a well-formed JSON-RPC 2.0 response to request `id`:
/// it echoes the id and carries exactly one of a result and an error.
pub open spec fn well_formed_reply(resp: RpcResponse, id: Json) -> bool {
    &&& resp.jsonrpc@ == "2.0"@
    &&& resp.id == id
    &&& (resp.result is Some) != (resp.error is Some)
}

/// Every response that dispatching produces is a well-formed JSON-RPC 2.0
/// response to the request it answers.
pub proof fn law_replies_are_well_formed(
    method: Seq<char>,
    id: Json,
    params: JsonV,
    before: BrowserState,
    after: BrowserState,
    r: Dispatch,
)
    requires
        dispatched(method, id, params, before, after, r),
    ensures
        r matches Dispatch::Reply(resp) ==> well_formed_reply(resp, id),
        r matches Dispatch::Pending(p) ==> p.id == id && method == "tools/call"@,
{
}

/// A tool call that names a tool never fails at the protocol level: whatever
/// goes wrong is reported inside a successful result.
pub proof fn law_tool_failures_are_results(
    id: Json,
    params: JsonV,
    before: BrowserState,
    after: BrowserState,
    r: Dispatch,
)
    requires
        dispatched("tools/call"@, id, params, before, after, r),
        params.str_field("name"@) is Some,
    ensures
        r matches Dispatch::Reply(resp) ==> resp.result is Some && resp.error is None,
{
}

/// Methods other than the ones the server knows are answered with the
/// JSON-RPC "method not found" error, and leave the session alone.
pub proof fn law_unknown_methods_are_refused(
    method: Seq<char>,
    id: Json,
    params: JsonV,
    before: BrowserState,
    after: BrowserState,
    r: Dispatch,
)
    requires
        dispatched(method, id, params, before, after, r),
        method != "initialize"@,
        method != "ping"@,
        method != "tools/list"@,
        method != "tools/call"@,
        method != "resources/list"@,
        method != "prompts/list"@,
    ensures
        r matches Dispatch::Reply(resp) && resp.is_err_with(id, -32601, "Unknown method: "@ + method),
        after == before,
{
}

/// A tool whose arguments are refused does no browser work and opens no page.
pub proof fn law_refused_arguments_open_no_page(
    tool: Tool,
    args: JsonV,
    page_open: bool,
    user_agent: Option<Seq<char>>,
    console: Seq<Seq<char>>,
)
    requires
        tool != Tool::Close,
        tool_plan(tool, args, page_open, user_agent, console) is Done,
    ensures
        page_open_after(tool, tool_plan(tool, args, page_open, user_agent, console), page_open) == page_open,
{
}

/// Any browser work leaves a page open for it to run in.
pub proof fn law_browser_work_has_a_page(
    tool: Tool,
    args: JsonV,
    page_open: bool,
    user_agent: Option<Seq<char>>,
    console: Seq<Seq<char>>,
)
    requires
        tool_plan(tool, args, page_open, user_agent, console) is Browse,
    ensures
        page_open_after(tool, tool_plan(tool, args, page_open, user_agent, console), page_open),
{
}

/// After closing, the session has no page: a screenshot reports that no page
/// is loaded, and the console reports no messages.
pub proof fn law_close_resets_the_session(
    args: JsonV,
    page_open: bool,
    user_agent: Option<Seq<char>>,
    console: Seq<Seq<char>>,
)
    ensures
        !page_open_after(Tool::Close, tool_plan(Tool::Close, args, page_open, user_agent, console), page_open),
        clears_console(Tool::Close, page_open),
        tool_plan(Tool::Screenshot, args, false, user_agent, Seq::empty()) == ToolStepV::Done(Err(NO_PAGE_MESSAGE@)),
        tool_plan(Tool::ConsoleMessages, args, false, user_agent, Seq::empty()) == ToolStepV::Done(Ok("No console messages."@)),
{
}

/// Console messages are reported once: once taken, taking them again with
/// no new messages from the page reports that there are none.
pub proof fn law_console_messages_reported_once(
    s0: BrowserState,
    page_messages: Seq<String>,
    s1: BrowserState,
    first: Seq<char>,
    s2: BrowserState,
    second: Seq<char>,
)
    requires
        console_taken(s0, page_messages, s1, first),
        console_taken(s1, Seq::empty(), s2, second),
    ensures
        first == console_report(views(s0.console_messages@ + page_messages)),
        second == "No console messages."@,
        s2.console_messages@.len() == 0,
{
    assert(views(s1.console_messages@ + Seq::<String>::empty()) =~= Seq::empty());
}

/// Time limits are seconds with fractions: the navigation and waiting tools
/// hand the browser the given number of seconds (whole seconds and
/// thousandths), and a navigation that runs out of time reports the limit
/// it was given.
pub proof fn law_time_limits_keep_fractions(
    args: JsonV,
    page_open: bool,
    user_agent: Option<Seq<char>>,
    console: Seq<Seq<char>>,
)
    ensures
        args.str_field("url"@) is Some ==> (tool_plan(Tool::Navigate, args, page_open, user_agent, console)
            matches ToolStepV::Browse(BrowserTaskV::Navigate { limit, .. })
            && limit == time_limit(args, "timeout"@, 30)
            && navigate_report(limit, NavOutcomeV::TimedOut)
                == Err::<Seq<char>, Seq<char>>("Navigation timed out after "@ + limit_text(limit) + " seconds"@)),
        args.str_field("selector"@) is Some ==> (tool_plan(Tool::WaitFor, args, page_open, user_agent, console)
            matches ToolStepV::Browse(BrowserTaskV::WaitFor { limit, .. }) && limit == time_limit(args, "timeout"@, 30)),
        tool_plan(Tool::WaitForNetworkIdle, args, page_open, user_agent, console)
            matches ToolStepV::Browse(BrowserTaskV::WaitForNetworkIdle { limit, .. })
            && limit == time_limit(args, "timeout"@, 30),
        time_limit(args, "timeout"@, 30).millis < 1000,
{
}

/// The network is reported idle only when no request is in flight and no
/// network event appeared since the last poll.
pub proof fn law_network_idle_means_nothing_in_flight(last_count: u64, count: u64, in_flight: u64, time_up: bool)
    requires
        network_idle_poll(last_count, count, in_flight, time_up) == Some(Ok::<Seq<char>, Seq<char>>("Network idle"@)),
    ensures
        in_flight == 0,
        count == last_count,
{
    reveal_strlit("Network idle");
    reveal_strlit("Timeout waiting for network idle");
}

/// A screenshot of an open page hands the browser the requested viewport:
/// 1280 by 720 pixels and not the full page unless told otherwise.
pub proof fn law_screenshot_viewport_reaches_the_browser(
    args: JsonV,
    user_agent: Option<Seq<char>>,
    console: Seq<Seq<char>>,
)
    ensures
        tool_plan(Tool::Screenshot, args, true, user_agent, console) == ToolStepV::Browse(BrowserTaskV::Screenshot {
            width: pixels(args.whole_field("width"@, 1280)),
            height: pixels(args.whole_field("height"@, 720)),
            full_page: args.bool_field("fullPage"@, false),
        }),
        args.field("width"@) is None && args.field("height"@) is None && args.field("fullPage"@) is None
            ==> tool_plan(Tool::Screenshot, args, true, user_agent, console) == ToolStepV::Browse(BrowserTaskV::Screenshot {
                width: 1280,
                height: 720,
                full_page: false,
            }),
{
}

/// The documented defaults: navigation waits for `load` and gives up after
/// thirty seconds unless told otherwise.
pub proof fn law_navigation_defaults(args: JsonV, url: Seq<char>, page_open: bool, user_agent: Option<Seq<char>>, console: Seq<Seq<char>>)
    requires
        args.str_field("url"@) == Some(url),
        args.field("waitUntil"@) is None,
        args.field("timeout"@) is None,
    ensures
        tool_plan(Tool::Navigate, args, page_open, user_agent, console) == ToolStepV::Browse(BrowserTaskV::Navigate {
            url,
            wait_until: "load"@,
            limit: TimeLimit { secs: 30, millis: 0 },
            user_agent,
        }),
{
}

/// Characters that JSON writes as they are inside a string.
pub open spec fn plain_json_char(c: char) -> bool {
    c != '"' && c != '\\' && c as u32 >= 0x20
}

/// A value without quotes, backslashes or control characters is embedded in
/// page scripts verbatim, between double quotes.
pub proof fn law_plain_values_are_embedded_verbatim(s: Seq<char>)
    requires
        forall|i: int| 0 <= i < s.len() ==> plain_json_char(#[trigger] s[i]),
    ensures
        json_string_literal(s) == seq!['"'] + s + seq!['"'],
    decreases s.len(),
{
    lemma_plain_escaped(s);
}

proof fn lemma_plain_escaped(s: Seq<char>)
    requires
        forall|i: int| 0 <= i < s.len() ==> plain_json_char(#[trigger] s[i]),
    ensures
        json_escaped(s) == s,
    decreases s.len(),
{
    if s.len() > 0 {
        assert(plain_json_char(s[0]));
        assert(json_escaped_char(s[0]) == seq![s[0]]);
        let t = s.drop_first();
        assert forall|i: int| 0 <= i < t.len() implies plain_json_char(#[trigger] t[i]) by {
            assert(t[i] == s[i + 1]);
        }
        lemma_plain_escaped(t);
        assert(seq![s[0]] + t =~= s);
    }
}

/// Whether `args` supplies the parameter `p` with the type that the catalog documents.
pub open spec fn supplies(args: JsonV, p: ParamDoc) -> bool {
    match args.field(p.name) {
        Some(v) => match p.ty {
            ParamType::Text => v is String,
            ParamType::TextChoice(_) => v is String,
            ParamType::TextList => v is Array,
            ParamType::Number => v is Number,
            ParamType::Boolean => v is Bool,
        },
        None => false,
    }
}

/// Whether `args` supplies every parameter that the catalog lists as required for `tool`.
pub open spec fn supplies_required(tool: Tool, args: JsonV) -> bool {
    forall|i: int|
        0 <= i < tool_doc(tool).params.len() && tool_doc(tool).required.contains(#[trigger] tool_doc(tool).params[i].name)
            ==> supplies(args, tool_doc(tool).params[i])
}

/// A call that supplies every required parameter with its documented type
/// goes on to browser work; only the screenshot and console tools without
/// an open page, and closing, answer at once.
pub proof fn law_supplied_calls_reach_the_browser(
    tool: Tool,
    args: JsonV,
    page_open: bool,
    user_agent: Option<Seq<char>>,
    console: Seq<Seq<char>>,
)
    requires
        supplies_required(tool, args),
        tool != Tool::Close,
        tool == Tool::Screenshot || tool == Tool::ConsoleMessages ==> page_open,
    ensures
        tool_plan(tool, args, page_open, user_agent, console) is Browse,
{
    let doc = tool_doc(tool);
    match tool {
        Tool::Navigate | Tool::Click | Tool::Hover | Tool::Evaluate | Tool::WaitFor => {
            assert(doc.required.contains(doc.params[0].name)) by {
                assert(doc.required[0] == doc.params[0].name);
            }
        },
        Tool::Fill | Tool::Type | Tool::SelectOption | Tool::FileInput => {
            assert(doc.required.contains(doc.params[0].name)) by {
                assert(doc.required[0] == doc.params[0].name);
            }
            assert(doc.required.contains(doc.params[1].name)) by {
                assert(doc.required[1] == doc.params[1].name);
            }
        },
        Tool::PressKey => {
            assert(doc.required.contains(doc.params[0].name)) by {
                assert(doc.required[0] == doc.params[0].name);
            }
        },
        _ => {},
    }
}

/// The documentation of the parameter called `name` among `params` (a text
/// parameter of that name when none is listed).
pub open spec fn param_named(params: Seq<ParamDoc>, name: Seq<char>) -> ParamDoc
    decreases params.len(),
{
    if params.len() == 0 {
        ParamDoc { name, ty: ParamType::Text, description: Seq::empty() }
    } else if params[0].name == name {
        params[0]
    } else {
        param_named(params.drop_first(), name)
    }
}

/// The first of the `required` parameters that `args` does not supply with
/// its documented type, if any.
pub open spec fn first_unsupplied_in(required: Seq<Seq<char>>, params: Seq<ParamDoc>, args: JsonV) -> Option<Seq<char>>
    decreases required.len(),
{
    if required.len() == 0 {
        None
    } else if !supplies(args, param_named(params, required[0])) {
        Some(required[0])
    } else {
        first_unsupplied_in(required.drop_first(), params, args)
    }
}

/// The first parameter that the catalog lists as required for `tool` and
/// that `args` does not supply with its documented type, if any.
pub open spec fn first_unsupplied(tool: Tool, args: JsonV) -> Option<Seq<char>> {
    first_unsupplied_in(tool_doc(tool).required, tool_doc(tool).params, args)
}

/// The error for a missing parameter `name`.
pub open spec fn missing_message(name: Seq<char>) -> Seq<char> {
    "Missing "@ + name + " parameter"@
}

/// A tool call that does not supply a required parameter with its
/// documented type fails at once with `Missing <name> parameter` for the
/// first such parameter in the catalog's order, and changes nothing.
pub proof fn law_missing_parameter_message(
    tool: Tool,
    args: JsonV,
    name: Seq<char>,
    page_open: bool,
    user_agent: Option<Seq<char>>,
    console: Seq<Seq<char>>,
)
    requires
        first_unsupplied(tool, args) == Some(name),
    ensures
        tool_plan(tool, args, page_open, user_agent, console) == ToolStepV::Done(Err(missing_message(name))),
        page_open_after(tool, tool_plan(tool, args, page_open, user_agent, console), page_open) == page_open,
        !clears_console(tool, page_open),
{
    reveal_with_fuel(first_unsupplied_in, 3);
    reveal_with_fuel(param_named, 3);
    reveal_strlit("Missing ");
    reveal_strlit(" parameter");
    reveal_strlit("url");
    reveal_strlit("selector");
    reveal_strlit("value");
    reveal_strlit("text");
    reveal_strlit("files");
    reveal_strlit("key");
    reveal_strlit("expression");
    reveal_strlit("Missing url parameter");
    reveal_strlit("Missing selector parameter");
    reveal_strlit("Missing value parameter");
    reveal_strlit("Missing text parameter");
    reveal_strlit("Missing files parameter");
    reveal_strlit("Missing key parameter");
    reveal_strlit("Missing expression parameter");
    assert(missing_message("url"@) =~= "Missing url parameter"@);
    assert(missing_message("selector"@) =~= "Missing selector parameter"@);
    assert(missing_message("value"@) =~= "Missing value parameter"@);
    assert(missing_message("text"@) =~= "Missing text parameter"@);
    assert(missing_message("files"@) =~= "Missing files parameter"@);
    assert(missing_message("key"@) =~= "Missing key parameter"@);
    assert(missing_message("expression"@) =~= "Missing expression parameter"@);
    let plan = tool_plan(tool, args, page_open, user_agent, console);
    match tool {
        Tool::Navigate => assert(plan == ToolStepV::Done(Err(missing_message(name)))),
        Tool::Click => assert(plan == ToolStepV::Done(Err(missing_message(name)))),
        Tool::Fill => assert(plan == ToolStepV::Done(Err(missing_message(name)))),
        Tool::Type => assert(plan == ToolStepV::Done(Err(missing_message(name)))),
        Tool::Hover => assert(plan == ToolStepV::Done(Err(missing_message(name)))),
        Tool::FileInput => assert(plan == ToolStepV::Done(Err(missing_message(name)))),
        Tool::PressKey => assert(plan == ToolStepV::Done(Err(missing_message(name)))),
        Tool::SelectOption => assert(plan == ToolStepV::Done(Err(missing_message(name)))),
        Tool::Evaluate => assert(plan == ToolStepV::Done(Err(missing_message(name)))),
        Tool::WaitFor => assert(plan == ToolStepV::Done(Err(missing_message(name)))),
        _ => {},
    }
}

/// A tool whose catalog entry lists no required parameter never fails with
/// a `Missing ... parameter` error.
pub proof fn law_no_missing_parameter_without_required(
    tool: Tool,
    args: JsonV,
    page_open: bool,
    user_agent: Option<Seq<char>>,
    console: Seq<Seq<char>>,
    name: Seq<char>,
)
    requires
        tool_doc(tool).required.len() == 0,
    ensures
        tool_plan(tool, args, page_open, user_agent, console) != ToolStepV::Done(Err(missing_message(name))),
{
    reveal_strlit("Missing ");
    reveal_strlit("No page loaded to take a screenshot of. Please navigate to a URL first.");
    if tool == Tool::Screenshot && !page_open {
        assert(NO_PAGE_MESSAGE@[1] != missing_message(name)[1]);
    }
}

/// The JSON-RPC answer to a call of `tool` that does not supply its first
/// unsupplied required parameter `name`: a successful result carrying the
/// error text `Error: Missing <name> parameter`, with the session unchanged.
pub proof fn law_missing_parameter_reply(
    id: Json,
    params: JsonV,
    before: BrowserState,
    after: BrowserState,
    r: Dispatch,
    tool: Tool,
    name: Seq<char>,
)
    requires
        dispatched("tools/call"@, id, params, before, after, r),
        params.str_field("name"@) == Some(tool.name()),
        first_unsupplied(
            tool,
            match params.field("arguments"@) {
                Some(a) => a,
                None => JsonV::Null,
            },
        ) == Some(name),
    ensures
        r matches Dispatch::Reply(resp) && resp.is_ok_with(id, tool_call_result(false, Err(missing_message(name)))),
        after.page_open == before.page_open,
        after.console_messages@ == before.console_messages@,
        before.same_setup(after),
{
    lemma_tool_names_distinct();
    assert(tool_named(tool.name()) == Some(tool));
    reveal_strlit("tools/call");
    reveal_strlit("initialize");
    reveal_strlit("ping");
    reveal_strlit("tools/list");
    assert("tools/call"@[6] == 'c' && "initialize"@[6] == 'l' && "tools/list"@[6] == 'l');
    assert("tools/call"@.len() == 10 && "ping"@.len() == 4);
    assert("tools/call"@ != "initialize"@);
    assert("tools/call"@ != "tools/list"@);
    assert("tools/call"@ != "ping"@);
    assert(tool_call_result(tool == Tool::Screenshot, Err(missing_message(name)))
        == tool_call_result(false, Err(missing_message(name))));
    let args = match params.field("arguments"@) {
        Some(a) => a,
        None => JsonV::Null,
    };
    law_missing_parameter_message(tool, args, name, before.page_open, opt_view(before.user_agent), views(before.console_messages@));
}

} // verus!
