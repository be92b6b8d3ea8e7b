use vstd::prelude::*;
use crate::json::{Json, JsonV, strings_json, entries_view, json_seq_view, put, push_item, text, single, string_array};
use crate::rpc::RpcResponse;
use crate::text::views;
use crate::json::str_eq;

verus! {

/// The browser tools that the server offers.
#[derive(Clone, Copy, PartialEq, Eq, Debug, Structural)]
pub enum Tool {
    Navigate,
    Snapshot,
    Screenshot,
    Click,
    Fill,
    Type,
    Hover,
    Scroll,
    FileInput,
    WaitForNetworkIdle,
    PressKey,
    SelectOption,
    Evaluate,
    WaitFor,
    NetworkRequests,
    ConsoleMessages,
    Close,
}

impl Tool {
    /// The name under which the tool is listed and called.
    pub open spec fn name(self) -> Seq<char> {
        match self {
            Tool::Navigate => "browser_navigate"@,
            Tool::Snapshot => "browser_snapshot"@,
            Tool::Screenshot => "browser_screenshot"@,
            Tool::Click => "browser_click"@,
            Tool::Fill => "browser_fill"@,
            Tool::Type => "browser_type"@,
            Tool::Hover => "browser_hover"@,
            Tool::Scroll => "browser_scroll"@,
            Tool::FileInput => "browser_file_input"@,
            Tool::WaitForNetworkIdle => "browser_wait_for_network_idle"@,
            Tool::PressKey => "browser_press_key"@,
            Tool::SelectOption => "browser_select_option"@,
            Tool::Evaluate => "browser_evaluate"@,
            Tool::WaitFor => "browser_wait_for"@,
            Tool::NetworkRequests => "browser_network_requests"@,
            Tool::ConsoleMessages => "browser_console_messages"@,
            Tool::Close => "browser_close"@,
        }
    }

    /// The tool called `name`, if any.
    pub fn from_name(name: &str) -> (r: Option<Tool>)
        ensures
            r matches Some(t) ==> t.name() == name@,
            r is None ==> forall|t: Tool| t.name() != name@,
    {
        if str_eq(name, "browser_navigate") {
            return Some(Tool::Navigate);
        }
        if str_eq(name, "browser_snapshot") {
            return Some(Tool::Snapshot);
        }
        if str_eq(name, "browser_screenshot") {
            return Some(Tool::Screenshot);
        }
        if str_eq(name, "browser_click") {
            return Some(Tool::Click);
        }
        if str_eq(name, "browser_fill") {
            return Some(Tool::Fill);
        }
        if str_eq(name, "browser_type") {
            return Some(Tool::Type);
        }
        if str_eq(name, "browser_hover") {
            return Some(Tool::Hover);
        }
        if str_eq(name, "browser_scroll") {
            return Some(Tool::Scroll);
        }
        if str_eq(name, "browser_file_input") {
            return Some(Tool::FileInput);
        }
        if str_eq(name, "browser_wait_for_network_idle") {
            return Some(Tool::WaitForNetworkIdle);
        }
        if str_eq(name, "browser_press_key") {
            return Some(Tool::PressKey);
        }
        if str_eq(name, "browser_select_option") {
            return Some(Tool::SelectOption);
        }
        if str_eq(name, "browser_evaluate") {
            return Some(Tool::Evaluate);
        }
        if str_eq(name, "browser_wait_for") {
            return Some(Tool::WaitFor);
        }
        if str_eq(name, "browser_network_requests") {
            return Some(Tool::NetworkRequests);
        }
        if str_eq(name, "browser_console_messages") {
            return Some(Tool::ConsoleMessages);
        }
        if str_eq(name, "browser_close") {
            return Some(Tool::Close);
        }
        proof {
            assert forall|t: Tool| t.name() != name@ by {
                match t {
                    Tool::Navigate => {},
                    Tool::Snapshot => {},
                    Tool::Screenshot => {},
                    Tool::Click => {},
                    Tool::Fill => {},
                    Tool::Type => {},
                    Tool::Hover => {},
                    Tool::Scroll => {},
                    Tool::FileInput => {},
                    Tool::WaitForNetworkIdle => {},
                    Tool::PressKey => {},
                    Tool::SelectOption => {},
                    Tool::Evaluate => {},
                    Tool::WaitFor => {},
                    Tool::NetworkRequests => {},
                    Tool::ConsoleMessages => {},
                    Tool::Close => {},
                }
            }
        }
        None
    }
}

/// The tools in the order in which they are listed.
pub open spec fn catalog_order() -> Seq<Tool> {
    seq![
        Tool::Navigate,
        Tool::Snapshot,
        Tool::Screenshot,
        Tool::Click,
        Tool::Fill,
        Tool::Type,
        Tool::Hover,
        Tool::Scroll,
        Tool::FileInput,
        Tool::WaitForNetworkIdle,
        Tool::PressKey,
        Tool::SelectOption,
        Tool::Evaluate,
        Tool::WaitFor,
        Tool::NetworkRequests,
        Tool::ConsoleMessages,
        Tool::Close,
    ]
}

/// The JSON type of a tool parameter.
pub enum ParamType {
    Text,
    Number,
    Boolean,
    TextList,
    /// A string drawn from the listed values.
    TextChoice(Seq<Seq<char>>),
}

/// The documentation of one tool parameter.
pub struct ParamDoc {
    pub name: Seq<char>,
    pub ty: ParamType,
    pub description: Seq<char>,
}

/// The documentation of one tool: what it does, its parameters and which of
/// them are required.
pub struct ToolDoc {
    pub description: Seq<char>,
    pub params: Seq<ParamDoc>,
    pub required: Seq<Seq<char>>,
}

/// The conditions under which a navigation counts as finished.
pub open spec fn wait_conditions() -> Seq<Seq<char>> {
    seq!["load"@, "domcontentloaded"@, "networkidle0"@]
}

/// The documentation of each tool.
pub open spec fn tool_doc(t: Tool) -> ToolDoc {
    match t {
        Tool::Navigate => ToolDoc {
            description: "Navigate to a URL and wait for the page to load"@,
            params: seq![ParamDoc { name: "url"@, ty: ParamType::Text, description: "URL to navigate to"@ }, ParamDoc { name: "waitUntil"@, ty: ParamType::TextChoice(wait_conditions()), description: "Navigation wait condition (default: load)"@ }, ParamDoc { name: "timeout"@, ty: ParamType::Number, description: "Timeout in seconds (default: 30)"@ }],
            required: seq!["url"@],
        },
        Tool::Snapshot => ToolDoc {
            description: "Get the current page content as text (title, URL, and readable body text)"@,
            params: seq![],
            required: seq![],
        },
        Tool::Screenshot => ToolDoc {
            description: "Take a screenshot of the current page. Returns a base64-encoded PNG image."@,
            params: seq![ParamDoc { name: "width"@, ty: ParamType::Number, description: "Viewport width in pixels (default: 1280)"@ }, ParamDoc { name: "height"@, ty: ParamType::Number, description: "Viewport height in pixels (default: 720)"@ }, ParamDoc { name: "fullPage"@, ty: ParamType::Boolean, description: "Whether to capture the full scrollable page (default: false)"@ }],
            required: seq![],
        },
        Tool::Click => ToolDoc {
            description: "Click an element matching the CSS selector"@,
            params: seq![ParamDoc { name: "selector"@, ty: ParamType::Text, description: "CSS selector of the element to click"@ }],
            required: seq!["selector"@],
        },
        Tool::Fill => ToolDoc {
            description: "Set the value of an input element"@,
            params: seq![ParamDoc { name: "selector"@, ty: ParamType::Text, description: "CSS selector of the input element"@ }, ParamDoc { name: "value"@, ty: ParamType::Text, description: "Value to set"@ }],
            required: seq!["selector"@, "value"@],
        },
        Tool::Type => ToolDoc {
            description: "Type text into an input element (appends to existing value)"@,
            params: seq![ParamDoc { name: "selector"@, ty: ParamType::Text, description: "CSS selector of the element"@ }, ParamDoc { name: "text"@, ty: ParamType::Text, description: "Text to type"@ }],
            required: seq!["selector"@, "text"@],
        },
        Tool::Hover => ToolDoc {
            description: "Hover over an element matching the CSS selector"@,
            params: seq![ParamDoc { name: "selector"@, ty: ParamType::Text, description: "CSS selector of the element to hover"@ }],
            required: seq!["selector"@],
        },
        Tool::Scroll => ToolDoc {
            description: "Scroll the page or a specific element"@,
            params: seq![ParamDoc { name: "x"@, ty: ParamType::Number, description: "Horizontal scroll amount in pixels (default: 0)"@ }, ParamDoc { name: "y"@, ty: ParamType::Number, description: "Vertical scroll amount in pixels (default: 0)"@ }, ParamDoc { name: "selector"@, ty: ParamType::Text, description: "CSS selector of the element to scroll (optional, defaults to window)"@ }],
            required: seq![],
        },
        Tool::FileInput => ToolDoc {
            description: "Set the value of a file input element"@,
            params: seq![ParamDoc { name: "selector"@, ty: ParamType::Text, description: "CSS selector of the file input element"@ }, ParamDoc { name: "files"@, ty: ParamType::TextList, description: "List of file paths to set"@ }],
            required: seq!["selector"@, "files"@],
        },
        Tool::WaitForNetworkIdle => ToolDoc {
            description: "Wait for network to become idle (no in-flight requests)"@,
            params: seq![ParamDoc { name: "timeout"@, ty: ParamType::Number, description: "Timeout in seconds (default: 30)"@ }],
            required: seq![],
        },
        Tool::PressKey => ToolDoc {
            description: "Dispatch a keyboard event on an element or the document"@,
            params: seq![ParamDoc { name: "key"@, ty: ParamType::Text, description: "Key name (e.g. Enter, Tab, Escape)"@ }, ParamDoc { name: "selector"@, ty: ParamType::Text, description: "CSS selector (optional, defaults to document)"@ }],
            required: seq!["key"@],
        },
        Tool::SelectOption => ToolDoc {
            description: "Select an option from a <select> element"@,
            params: seq![ParamDoc { name: "selector"@, ty: ParamType::Text, description: "CSS selector of the <select> element"@ }, ParamDoc { name: "value"@, ty: ParamType::Text, description: "Value or text of the option to select"@ }],
            required: seq!["selector"@, "value"@],
        },
        Tool::Evaluate => ToolDoc {
            description: "Evaluate a JavaScript expression in the page context and return the result"@,
            params: seq![ParamDoc { name: "expression"@, ty: ParamType::Text, description: "JavaScript expression to evaluate"@ }],
            required: seq!["expression"@],
        },
        Tool::WaitFor => ToolDoc {
            description: "Wait for a CSS selector to appear in the DOM"@,
            params: seq![ParamDoc { name: "selector"@, ty: ParamType::Text, description: "CSS selector to wait for"@ }, ParamDoc { name: "timeout"@, ty: ParamType::Number, description: "Timeout in seconds (default: 30)"@ }],
            required: seq!["selector"@],
        },
        Tool::NetworkRequests => ToolDoc {
            description: "Return the list of network requests made by the current page"@,
            params: seq![],
            required: seq![],
        },
        Tool::ConsoleMessages => ToolDoc {
            description: "Return the console messages logged by the current page"@,
            params: seq![],
            required: seq![],
        },
        Tool::Close => ToolDoc {
            description: "Close the current browser page and reset state"@,
            params: seq![],
            required: seq![],
        },
    }
}

/// The JSON schema of a parameter.
pub open spec fn param_schema(ty: ParamType, description: Seq<char>) -> JsonV {
    match ty {
        ParamType::Text => JsonV::Object(seq![("type"@, JsonV::String("string"@)), ("description"@, JsonV::String(description))]),
        ParamType::Number => JsonV::Object(seq![("type"@, JsonV::String("number"@)), ("description"@, JsonV::String(description))]),
        ParamType::Boolean => JsonV::Object(seq![("type"@, JsonV::String("boolean"@)), ("description"@, JsonV::String(description))]),
        ParamType::TextList => JsonV::Object(seq![
            ("type"@, JsonV::String("array"@)),
            ("items"@, JsonV::Object(seq![("type"@, JsonV::String("string"@))])),
            ("description"@, JsonV::String(description)),
        ]),
        ParamType::TextChoice(values) => JsonV::Object(seq![
            ("type"@, JsonV::String("string"@)),
            ("enum"@, JsonV::Array(strings_json(values))),
            ("description"@, JsonV::String(description)),
        ]),
    }
}

/// The properties of an object schema, one per parameter.
pub open spec fn param_entries(params: Seq<ParamDoc>) -> Seq<(Seq<char>, JsonV)> {
    params.map_values(|p: ParamDoc| (p.name, param_schema(p.ty, p.description)))
}

/// An object schema with `properties` and, when there are any, the `required` ones.
pub open spec fn object_schema(properties: Seq<(Seq<char>, JsonV)>, required: Seq<Seq<char>>) -> JsonV {
    let base = seq![
        ("type"@, JsonV::String("object"@)),
        ("properties"@, JsonV::Object(properties)),
    ];
    if required.len() == 0 {
        JsonV::Object(base)
    } else {
        JsonV::Object(base.push(("required"@, JsonV::Array(strings_json(required)))))
    }
}

/// The JSON input schema of a tool: an object schema with the tool's
/// parameters as properties and, when there are any, its required ones.
pub open spec fn input_schema(doc: ToolDoc) -> JsonV {
    object_schema(param_entries(doc.params), doc.required)
}

/// How a tool is listed: its name, its description and its input schema.
pub open spec fn tool_entry(t: Tool) -> JsonV {
    JsonV::Object(seq![
        ("name"@, JsonV::String(t.name())),
        ("description"@, JsonV::String(tool_doc(t).description)),
        ("inputSchema"@, input_schema(tool_doc(t))),
    ])
}

/// The result of `tools/list`: every tool, in catalog order.
pub open spec fn tools_list_result() -> JsonV {
    JsonV::Object(seq![("tools"@, JsonV::Array(catalog_order().map_values(|t: Tool| tool_entry(t))))])
}

fn typed_param(ty: &str, description: &str) -> (r: Json)
    ensures
        r@ == JsonV::Object(seq![("type"@, JsonV::String(ty@)), ("description"@, JsonV::String(description@))]),
{
    let mut e: Vec<(String, Json)> = Vec::new();
    put(&mut e, "type", text(ty));
    put(&mut e, "description", text(description));
    assert(entries_view(Seq::<(String, Json)>::empty()) =~= Seq::empty());
    assert(entries_view(e@) =~= seq![("type"@, JsonV::String(ty@)), ("description"@, JsonV::String(description@))]);
    Json::Object(e)
}

fn text_list_param(description: &str) -> (r: Json)
    ensures
        r@ == param_schema(ParamType::TextList, description@),
{
    let mut e: Vec<(String, Json)> = Vec::new();
    put(&mut e, "type", text("array"));
    put(&mut e, "items", single("type", text("string")));
    put(&mut e, "description", text(description));
    assert(entries_view(Seq::<(String, Json)>::empty()) =~= Seq::empty());
    assert(entries_view(e@) =~= seq![
        ("type"@, JsonV::String("array"@)),
        ("items"@, JsonV::Object(seq![("type"@, JsonV::String("string"@))])),
        ("description"@, JsonV::String(description@)),
    ]);
    Json::Object(e)
}

fn wait_choice_param(description: &str) -> (r: Json)
    ensures
        r@ == param_schema(ParamType::TextChoice(wait_conditions()), description@),
{
    let mut values: Vec<Json> = Vec::new();
    push_item(&mut values, text("load"));
    push_item(&mut values, text("domcontentloaded"));
    push_item(&mut values, text("networkidle0"));
    assert(json_seq_view(Seq::<Json>::empty()) =~= Seq::empty());
    assert(json_seq_view(values@) =~= strings_json(wait_conditions()));
    let mut e: Vec<(String, Json)> = Vec::new();
    put(&mut e, "type", text("string"));
    let ghost vals = values@;
    put(&mut e, "enum", Json::Array(values));
    put(&mut e, "description", text(description));
    assert(entries_view(Seq::<(String, Json)>::empty()) =~= Seq::empty());
    assert(entries_view(e@) =~= seq![
        ("type"@, JsonV::String("string"@)),
        ("enum"@, JsonV::Array(strings_json(wait_conditions()))),
        ("description"@, JsonV::String(description@)),
    ]);
    Json::Object(e)
}

fn entry(name: &str, description: &str, properties: Vec<(String, Json)>, required: Vec<String>) -> (r: Json)
    ensures
        r@ == JsonV::Object(seq![
            ("name"@, JsonV::String(name@)),
            ("description"@, JsonV::String(description@)),
            ("inputSchema"@, object_schema(entries_view(properties@), views(required@))),
        ]),
{
    let ghost props = entries_view(properties@);
    let ghost base = seq![
        ("type"@, JsonV::String("object"@)),
        ("properties"@, JsonV::Object(props)),
    ];
    assert(entries_view(Seq::<(String, Json)>::empty()) =~= Seq::empty());
    let mut schema: Vec<(String, Json)> = Vec::new();
    put(&mut schema, "type", text("object"));
    put(&mut schema, "properties", Json::Object(properties));
    assert(entries_view(schema@) =~= base);
    if required.len() > 0 {
        put(&mut schema, "required", string_array(&required));
        assert(entries_view(schema@) =~= base.push(("required"@, JsonV::Array(strings_json(views(required@))))));
    }
    let ghost schema_v = entries_view(schema@);
    let mut e: Vec<(String, Json)> = Vec::new();
    put(&mut e, "name", text(name));
    put(&mut e, "description", text(description));
    put(&mut e, "inputSchema", Json::Object(schema));
    assert(entries_view(e@) =~= seq![
        ("name"@, JsonV::String(name@)),
        ("description"@, JsonV::String(description@)),
        ("inputSchema"@, JsonV::Object(schema_v)),
    ]);
    Json::Object(e)
}

/// The listing of one tool.
pub fn tool_entry_json(t: Tool) -> (r: Json)
    ensures
        r@ == tool_entry(t),
{
    let mut props: Vec<(String, Json)> = Vec::new();
    let mut required: Vec<String> = Vec::new();
    assert(entries_view(Seq::<(String, Json)>::empty()) =~= Seq::empty());
    match t {
        Tool::Navigate => {
            put(&mut props, "url", typed_param("string", "URL to navigate to"));
            put(&mut props, "waitUntil", wait_choice_param("Navigation wait condition (default: load)"));
            put(&mut props, "timeout", typed_param("number", "Timeout in seconds (default: 30)"));
            required.push(String::from_str("url"));
            let ghost doc = tool_doc(t);
            assert(entries_view(props@) =~= param_entries(doc.params));
            assert(views(required@) =~= doc.required);
            entry("browser_navigate", "Navigate to a URL and wait for the page to load", props, required)
        },
        Tool::Snapshot => {
            let ghost doc = tool_doc(t);
            assert(entries_view(props@) =~= param_entries(doc.params));
            assert(views(required@) =~= doc.required);
            entry("browser_snapshot", "Get the current page content as text (title, URL, and readable body text)", props, required)
        },
        Tool::Screenshot => {
            put(&mut props, "width", typed_param("number", "Viewport width in pixels (default: 1280)"));
            put(&mut props, "height", typed_param("number", "Viewport height in pixels (default: 720)"));
            put(&mut props, "fullPage", typed_param("boolean", "Whether to capture the full scrollable page (default: false)"));
            let ghost doc = tool_doc(t);
            assert(entries_view(props@) =~= param_entries(doc.params));
            assert(views(required@) =~= doc.required);
            entry("browser_screenshot", "Take a screenshot of the current page. Returns a base64-encoded PNG image.", props, required)
        },
        Tool::Click => {
            put(&mut props, "selector", typed_param("string", "CSS selector of the element to click"));
            required.push(String::from_str("selector"));
            let ghost doc = tool_doc(t);
            assert(entries_view(props@) =~= param_entries(doc.params));
            assert(views(required@) =~= doc.required);
            entry("browser_click", "Click an element matching the CSS selector", props, required)
        },
        Tool::Fill => {
            put(&mut props, "selector", typed_param("string", "CSS selector of the input element"));
            put(&mut props, "value", typed_param("string", "Value to set"));
            required.push(String::from_str("selector"));
            required.push(String::from_str("value"));
            let ghost doc = tool_doc(t);
            assert(entries_view(props@) =~= param_entries(doc.params));
            assert(views(required@) =~= doc.required);
            entry("browser_fill", "Set the value of an input element", props, required)
        },
        Tool::Type => {
            put(&mut props, "selector", typed_param("string", "CSS selector of the element"));
            put(&mut props, "text", typed_param("string", "Text to type"));
            required.push(String::from_str("selector"));
            required.push(String::from_str("text"));
            let ghost doc = tool_doc(t);
            assert(entries_view(props@) =~= param_entries(doc.params));
            assert(views(required@) =~= doc.required);
            entry("browser_type", "Type text into an input element (appends to existing value)", props, required)
        },
        Tool::Hover => {
            put(&mut props, "selector", typed_param("string", "CSS selector of the element to hover"));
            required.push(String::from_str("selector"));
            let ghost doc = tool_doc(t);
            assert(entries_view(props@) =~= param_entries(doc.params));
            assert(views(required@) =~= doc.required);
            entry("browser_hover", "Hover over an element matching the CSS selector", props, required)
        },
        Tool::Scroll => {
            put(&mut props, "x", typed_param("number", "Horizontal scroll amount in pixels (default: 0)"));
            put(&mut props, "y", typed_param("number", "Vertical scroll amount in pixels (default: 0)"));
            put(&mut props, "selector", typed_param("string", "CSS selector of the element to scroll (optional, defaults to window)"));
            let ghost doc = tool_doc(t);
            assert(entries_view(props@) =~= param_entries(doc.params));
            assert(views(required@) =~= doc.required);
            entry("browser_scroll", "Scroll the page or a specific element", props, required)
        },
        Tool::FileInput => {
            put(&mut props, "selector", typed_param("string", "CSS selector of the file input element"));
            put(&mut props, "files", text_list_param("List of file paths to set"));
            required.push(String::from_str("selector"));
            required.push(String::from_str("files"));
            let ghost doc = tool_doc(t);
            assert(entries_view(props@) =~= param_entries(doc.params));
            assert(views(required@) =~= doc.required);
            entry("browser_file_input", "Set the value of a file input element", props, required)
        },
        Tool::WaitForNetworkIdle => {
            put(&mut props, "timeout", typed_param("number", "Timeout in seconds (default: 30)"));
            let ghost doc = tool_doc(t);
            assert(entries_view(props@) =~= param_entries(doc.params));
            assert(views(required@) =~= doc.required);
            entry("browser_wait_for_network_idle", "Wait for network to become idle (no in-flight requests)", props, required)
        },
        Tool::PressKey => {
            put(&mut props, "key", typed_param("string", "Key name (e.g. Enter, Tab, Escape)"));
            put(&mut props, "selector", typed_param("string", "CSS selector (optional, defaults to document)"));
            required.push(String::from_str("key"));
            let ghost doc = tool_doc(t);
            assert(entries_view(props@) =~= param_entries(doc.params));
            assert(views(required@) =~= doc.required);
            entry("browser_press_key", "Dispatch a keyboard event on an element or the document", props, required)
        },
        Tool::SelectOption => {
            put(&mut props, "selector", typed_param("string", "CSS selector of the <select> element"));
            put(&mut props, "value", typed_param("string", "Value or text of the option to select"));
            required.push(String::from_str("selector"));
            required.push(String::from_str("value"));
            let ghost doc = tool_doc(t);
            assert(entries_view(props@) =~= param_entries(doc.params));
            assert(views(required@) =~= doc.required);
            entry("browser_select_option", "Select an option from a <select> element", props, required)
        },
        Tool::Evaluate => {
            put(&mut props, "expression", typed_param("string", "JavaScript expression to evaluate"));
            required.push(String::from_str("expression"));
            let ghost doc = tool_doc(t);
            assert(entries_view(props@) =~= param_entries(doc.params));
            assert(views(required@) =~= doc.required);
            entry("browser_evaluate", "Evaluate a JavaScript expression in the page context and return the result", props, required)
        },
        Tool::WaitFor => {
            put(&mut props, "selector", typed_param("string", "CSS selector to wait for"));
            put(&mut props, "timeout", typed_param("number", "Timeout in seconds (default: 30)"));
            required.push(String::from_str("selector"));
            let ghost doc = tool_doc(t);
            assert(entries_view(props@) =~= param_entries(doc.params));
            assert(views(required@) =~= doc.required);
            entry("browser_wait_for", "Wait for a CSS selector to appear in the DOM", props, required)
        },
        Tool::NetworkRequests => {
            let ghost doc = tool_doc(t);
            assert(entries_view(props@) =~= param_entries(doc.params));
            assert(views(required@) =~= doc.required);
            entry("browser_network_requests", "Return the list of network requests made by the current page", props, required)
        },
        Tool::ConsoleMessages => {
            let ghost doc = tool_doc(t);
            assert(entries_view(props@) =~= param_entries(doc.params));
            assert(views(required@) =~= doc.required);
            entry("browser_console_messages", "Return the console messages logged by the current page", props, required)
        },
        Tool::Close => {
            let ghost doc = tool_doc(t);
            assert(entries_view(props@) =~= param_entries(doc.params));
            assert(views(required@) =~= doc.required);
            entry("browser_close", "Close the current browser page and reset state", props, required)
        },
    }
}

/// The tools in catalog order.
pub fn catalog() -> (r: Vec<Tool>)
    ensures
        r@ == catalog_order(),
{
    let r = vec![
        Tool::Navigate,
        Tool::Snapshot,
        Tool::Screenshot,
        Tool::Click,
        Tool::Fill,
        Tool::Type,
        Tool::Hover,
        Tool::Scroll,
        Tool::FileInput,
        Tool::WaitForNetworkIdle,
        Tool::PressKey,
        Tool::SelectOption,
        Tool::Evaluate,
        Tool::WaitFor,
        Tool::NetworkRequests,
        Tool::ConsoleMessages,
        Tool::Close,
    ];
    assert(r@ =~= catalog_order());
    r
}

/// The result of `tools/list`.
pub fn tools_list() -> (r: Json)
    ensures
        r@ == tools_list_result(),
{
    let tools = catalog();
    let mut items: Vec<Json> = Vec::new();
    assert(json_seq_view(Seq::<Json>::empty()) =~= Seq::empty());
    let mut i: usize = 0;
    while i < tools.len()
        invariant
            tools@ == catalog_order(),
            i <= tools@.len(),
            json_seq_view(items@) == tools@.take(i as int).map_values(|t: Tool| tool_entry(t)),
        decreases tools@.len() - i,
    {
        push_item(&mut items, tool_entry_json(tools[i]));
        assert(tools@.take(i + 1).map_values(|t: Tool| tool_entry(t))
            =~= tools@.take(i as int).map_values(|t: Tool| tool_entry(t)).push(tool_entry(tools@[i as int])));
        i = i + 1;
    }
    assert(tools@.take(tools@.len() as int) =~= tools@);
    single("tools", Json::Array(items))
}

/// Answers `tools/list`.
pub fn handle_tools_list(id: Json) -> (r: RpcResponse)
    ensures
        r.is_ok_with(id, tools_list_result()),
{
    RpcResponse::ok(id, tools_list())
}

} // verus!
