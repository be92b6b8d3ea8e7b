use vstd::prelude::*;
use vstd::string::*;
use crate::catalog::{Tool, handle_tools_list, tools_list_result};
use crate::json::{Json, JsonV, empty_object, entries_view, json_seq_view, put, push_item, single, str_eq, text};
use crate::rpc::RpcResponse;
use crate::session::{BrowserState, BrowserTask, ToolStep, ToolStepV, opt_view, res_view};
use crate::text::views;
use crate::tools::{clears_console, page_open_after, start_tool, tool_plan};

verus! {

/// The MCP protocol revision the server speaks.
pub const PROTOCOL_VERSION: &'static str = "2024-11-05";

/// The name the server reports about itself.
pub const SERVER_NAME: &'static str = "obscura-mcp";

/// The version the server reports about itself (the package version).
pub const SERVER_VERSION: &'static str = "0.1.0";

/// The result of `initialize`: the protocol revision, the capability to
/// serve tools, and the server's name and version.
pub open spec fn initialize_result() -> JsonV {
    JsonV::Object(seq![
        ("protocolVersion"@, JsonV::String(PROTOCOL_VERSION@)),
        ("capabilities"@, JsonV::Object(seq![("tools"@, JsonV::Object(Seq::empty()))])),
        ("serverInfo"@, JsonV::Object(seq![
            ("name"@, JsonV::String(SERVER_NAME@)),
            ("version"@, JsonV::String(SERVER_VERSION@)),
        ])),
    ])
}

/// A result that lists nothing under `key`.
pub open spec fn empty_listing(key: Seq<char>) -> JsonV {
    JsonV::Object(seq![(key, JsonV::Array(Seq::empty()))])
}

/// One text item of tool output.
pub open spec fn text_item(t: Seq<char>) -> JsonV {
    JsonV::Object(seq![("type"@, JsonV::String("text"@)), ("text"@, JsonV::String(t))])
}

/// The result of `tools/call` for a tool's report: an image item for a
/// successful screenshot, a text item otherwise, and for a failure the text
/// `Error: ...` with the error flag set.
pub open spec fn tool_call_result(image: bool, report: Result<Seq<char>, Seq<char>>) -> JsonV {
    match report {
        Ok(content) => if image {
            JsonV::Object(seq![("content"@, JsonV::Array(seq![JsonV::Object(seq![
                ("type"@, JsonV::String("image"@)),
                ("data"@, JsonV::String(content)),
                ("mimeType"@, JsonV::String("image/png"@)),
            ])]))])
        } else {
            JsonV::Object(seq![("content"@, JsonV::Array(seq![text_item(content)]))])
        },
        Err(e) => JsonV::Object(seq![
            ("content"@, JsonV::Array(seq![text_item("Error: "@ + e)])),
            ("isError"@, JsonV::Bool(true)),
        ]),
    }
}

/// The tool listed under `name`, if any.
pub open spec fn tool_named(name: Seq<char>) -> Option<Tool> {
    if exists|t: Tool| t.name() == name {
        Some(choose|t: Tool| t.name() == name)
    } else {
        None
    }
}

/// No two tools share a name.
pub proof fn lemma_tool_names_distinct()
    ensures
        forall|a: Tool, b: Tool| a.name() == b.name() ==> a == b,
{
    reveal_strlit("browser_navigate");
    reveal_strlit("browser_snapshot");
    reveal_strlit("browser_screenshot");
    reveal_strlit("browser_click");
    reveal_strlit("browser_fill");
    reveal_strlit("browser_type");
    reveal_strlit("browser_hover");
    reveal_strlit("browser_scroll");
    reveal_strlit("browser_file_input");
    reveal_strlit("browser_wait_for_network_idle");
    reveal_strlit("browser_press_key");
    reveal_strlit("browser_select_option");
    reveal_strlit("browser_evaluate");
    reveal_strlit("browser_wait_for");
    reveal_strlit("browser_network_requests");
    reveal_strlit("browser_console_messages");
    reveal_strlit("browser_close");
    assert forall|a: Tool, b: Tool| a.name() == b.name() implies a == b by {
        if a != b {
            assert(a.name().len() != b.name().len() || a.name()[8] != b.name()[8] || a.name()[10] != b.name()[10]);
        }
    }
}

/// The request `id` to answer once `task` is done in the browser; `tool` reports then.
#[derive(Debug, PartialEq)]
pub struct PendingCall {
    pub id: Json,
    pub tool: Tool,
    pub task: BrowserTask,
}

/// What to do with a request: answer it now, or do browser work first.
#[derive(Debug, PartialEq)]
pub enum Dispatch {
    Reply(RpcResponse),
    Pending(PendingCall),
}

/// Whether `r` answers `tools/call` with `params` for request `id` as the
/// session `before` becomes `after`.
pub open spec fn tool_call_handled(id: Json, params: JsonV, before: BrowserState, after: BrowserState, r: Dispatch) -> bool {
    match params.str_field("name"@) {
        None => {
            &&& r matches Dispatch::Reply(resp) && resp.is_err_with(id, -32602, "Missing tool name"@)
            &&& after == before
        },
        Some(name) => match tool_named(name) {
            None => {
                &&& r matches Dispatch::Reply(resp) && resp.is_ok_with(id, tool_call_result(false, Err("Unknown tool: "@ + name)))
                &&& after == before
            },
            Some(tool) => {
                let args = match params.field("arguments"@) {
                    Some(a) => a,
                    None => JsonV::Null,
                };
                let step = tool_plan(tool, args, before.page_open, opt_view(before.user_agent), views(before.console_messages@));
                &&& match step {
                    ToolStepV::Done(report) => r matches Dispatch::Reply(resp)
                        && resp.is_ok_with(id, tool_call_result(tool == Tool::Screenshot, report)),
                    ToolStepV::Browse(task) => r matches Dispatch::Pending(p) && p.id == id && p.tool == tool && p.task@ == task,
                }
                &&& after.page_open == page_open_after(tool, step, before.page_open)
                &&& after.console_messages@ == if clears_console(tool, before.page_open) {
                    Seq::empty()
                } else {
                    before.console_messages@
                }
                &&& before.same_setup(after)
            },
        },
    }
}

/// Whether `r` answers the request `method` with `params` and `id` as the
/// session `before` becomes `after`.
pub open spec fn dispatched(method: Seq<char>, id: Json, params: JsonV, before: BrowserState, after: BrowserState, r: Dispatch) -> bool {
    if method == "initialize"@ {
        after == before && (r matches Dispatch::Reply(resp) && resp.is_ok_with(id, initialize_result()))
    } else if method == "ping"@ {
        after == before && (r matches Dispatch::Reply(resp) && resp.is_ok_with(id, JsonV::Object(Seq::empty())))
    } else if method == "tools/list"@ {
        after == before && (r matches Dispatch::Reply(resp) && resp.is_ok_with(id, tools_list_result()))
    } else if method == "tools/call"@ {
        tool_call_handled(id, params, before, after, r)
    } else if method == "resources/list"@ {
        after == before && (r matches Dispatch::Reply(resp) && resp.is_ok_with(id, empty_listing("resources"@)))
    } else if method == "prompts/list"@ {
        after == before && (r matches Dispatch::Reply(resp) && resp.is_ok_with(id, empty_listing("prompts"@)))
    } else {
        after == before && (r matches Dispatch::Reply(resp) && resp.is_err_with(id, -32601, "Unknown method: "@ + method))
    }
}

fn initialize_json() -> (r: Json)
    ensures
        r@ == initialize_result(),
{
    let mut info: Vec<(String, Json)> = Vec::new();
    put(&mut info, "name", text(SERVER_NAME));
    put(&mut info, "version", text(SERVER_VERSION));
    let mut e: Vec<(String, Json)> = Vec::new();
    put(&mut e, "protocolVersion", text(PROTOCOL_VERSION));
    put(&mut e, "capabilities", single("tools", empty_object()));
    let ghost info_v = entries_view(info@);
    put(&mut e, "serverInfo", Json::Object(info));
    assert(entries_view(Seq::<(String, Json)>::empty()) =~= Seq::empty());
    assert(info_v =~= seq![("name"@, JsonV::String(SERVER_NAME@)), ("version"@, JsonV::String(SERVER_VERSION@))]);
    assert(entries_view(e@) =~= seq![
        ("protocolVersion"@, JsonV::String(PROTOCOL_VERSION@)),
        ("capabilities"@, JsonV::Object(seq![("tools"@, JsonV::Object(Seq::empty()))])),
        ("serverInfo"@, JsonV::Object(info_v)),
    ]);
    Json::Object(e)
}

/// Answers `initialize`.
pub fn handle_initialize(id: Json) -> (r: RpcResponse)
    ensures
        r.is_ok_with(id, initialize_result()),
{
    RpcResponse::ok(id, initialize_json())
}

fn text_item_json(t: String) -> (r: Json)
    ensures
        r@ == text_item(t@),
{
    let mut e: Vec<(String, Json)> = Vec::new();
    put(&mut e, "type", text("text"));
    put(&mut e, "text", Json::String(t));
    assert(entries_view(Seq::<(String, Json)>::empty()) =~= Seq::empty());
    assert(entries_view(e@) =~= seq![("type"@, JsonV::String("text"@)), ("text"@, JsonV::String(t@))]);
    Json::Object(e)
}

fn one_item(item: Json) -> (r: Json)
    ensures
        r@ == JsonV::Array(seq![item@]),
{
    let mut items: Vec<Json> = Vec::new();
    push_item(&mut items, item);
    assert(json_seq_view(Seq::<Json>::empty()) =~= Seq::empty());
    assert(json_seq_view(items@) =~= seq![item@]);
    Json::Array(items)
}

fn tool_call_json(image: bool, report: Result<String, String>) -> (r: Json)
    ensures
        r@ == tool_call_result(image, res_view(report)),
{
    match report {
        Ok(content) => if image {
            let mut e: Vec<(String, Json)> = Vec::new();
            let ghost c = content@;
            put(&mut e, "type", text("image"));
            put(&mut e, "data", Json::String(content));
            put(&mut e, "mimeType", text("image/png"));
            assert(entries_view(Seq::<(String, Json)>::empty()) =~= Seq::empty());
            assert(entries_view(e@) =~= seq![
                ("type"@, JsonV::String("image"@)),
                ("data"@, JsonV::String(c)),
                ("mimeType"@, JsonV::String("image/png"@)),
            ]);
            single("content", one_item(Json::Object(e)))
        } else {
            single("content", one_item(text_item_json(content)))
        },
        Err(err) => {
            let mut t = String::from_str("Error: ");
            t.append(err.as_str());
            let mut e: Vec<(String, Json)> = Vec::new();
            let ghost tv = t@;
            put(&mut e, "content", one_item(text_item_json(t)));
            put(&mut e, "isError", Json::Bool(true));
            assert(entries_view(Seq::<(String, Json)>::empty()) =~= Seq::empty());
            assert(entries_view(e@) =~= seq![
                ("content"@, JsonV::Array(seq![text_item(tv)])),
                ("isError"@, JsonV::Bool(true)),
            ]);
            Json::Object(e)
        },
    }
}

/// Answers a `tools/call` request `id` with the report of `tool`.
pub fn tool_reply(id: Json, tool: Tool, report: Result<String, String>) -> (r: RpcResponse)
    ensures
        r.is_ok_with(id, tool_call_result(tool == Tool::Screenshot, res_view(report))),
{
    RpcResponse::ok(id, tool_call_json(tool == Tool::Screenshot, report))
}

/// Handles `tools/call`: finds the tool, then starts it.
pub fn handle_tool_call(id: Json, params: &Json, state: &mut BrowserState) -> (r: Dispatch)
    ensures
        tool_call_handled(id, params@, *old(state), *final(state), r),
{
    let name = match params.str_field("name") {
        Some(n) => n,
        None => return Dispatch::Reply(RpcResponse::err(id, -32602, String::from_str("Missing tool name"))),
    };
    let null = Json::Null;
    let args = match params.get("arguments") {
        Some(a) => a,
        None => &null,
    };
    proof {
        lemma_tool_names_distinct();
    }
    match Tool::from_name(name.as_str()) {
        None => {
            let mut e = String::from_str("Unknown tool: ");
            e.append(name.as_str());
            Dispatch::Reply(RpcResponse::ok(id, tool_call_json(false, Err(e))))
        },
        Some(tool) => {
            assert(tool_named(name@) == Some(tool));
            match start_tool(tool, args, state) {
                ToolStep::Done(report) => Dispatch::Reply(tool_reply(id, tool, report)),
                ToolStep::Browse(task) => Dispatch::Pending(PendingCall { id, tool, task }),
            }
        },
    }
}

/// Handles one request: answers the fixed methods, lists the tools, starts
/// tool calls, and refuses unknown methods.
pub fn dispatch(method: &str, id: Json, params: &Json, state: &mut BrowserState) -> (r: Dispatch)
    ensures
        dispatched(method@, id, params@, *old(state), *final(state), r),
{
    if str_eq(method, "initialize") {
        Dispatch::Reply(handle_initialize(id))
    } else if str_eq(method, "ping") {
        Dispatch::Reply(RpcResponse::ok(id, empty_object()))
    } else if str_eq(method, "tools/list") {
        Dispatch::Reply(handle_tools_list(id))
    } else if str_eq(method, "tools/call") {
        handle_tool_call(id, params, state)
    } else if str_eq(method, "resources/list") {
        Dispatch::Reply(RpcResponse::ok(id, single("resources", Json::Array(Vec::new()))))
    } else if str_eq(method, "prompts/list") {
        Dispatch::Reply(RpcResponse::ok(id, single("prompts", Json::Array(Vec::new()))))
    } else {
        let mut m = String::from_str("Unknown method: ");
        m.append(method);
        Dispatch::Reply(RpcResponse::err(id, -32601, m))
    }
}

} // verus!
